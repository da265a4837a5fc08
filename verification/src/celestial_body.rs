//! Identities, kinds and records of celestial bodies.

use std::collections::HashMap;
use vstd::pervasive::unreached;
use vstd::prelude::*;
use vstd::std_specs::hash::group_hash_axioms;

use crate::celestial_data::{
    built_in_body_type, built_in_parent, get_body_type, get_parent, get_radius, radius_metres,
};
use crate::epoch::Epoch;
use crate::error::EngineError;
use crate::hierarchy::{
    children_of, find, lemma_children_step, lemma_find, lemma_find_at, lemma_find_member,
    may_orbit, parent_of, unique_ids, valid_catalog, visible_bodies, well_placed,
};
use crate::position::{get_position, position_query, StateQuery, SOLAR_SYSTEM_SCALE};

verus! {

broadcast use group_hash_axioms;

/// The kind of a celestial body. It decides which other bodies are shown with
/// it and how its trajectory is sampled.
#[derive(Debug, Clone, Copy, PartialEq, Eq, Hash, Structural)]
pub enum CelestialBodyType {
    Star,
    Planet,
    Moon,
    Asteroid,
}

/// The closed set of bodies the engine knows. An identifier is the only key
/// under which a body is ever looked up.
#[derive(Debug, Clone, Copy, PartialEq, Eq, Hash, Structural)]
pub enum CelestialBodyId {
    Sun,
    Mercury,
    Venus,
    Earth,
    Moon,
    Mars,
    Jupiter,
    Saturn,
    Uranus,
    Neptune,
}

impl CelestialBodyId {
    /// Number of identifiers.
    pub const COUNT: usize = 10;

    /// Every identifier, in declaration order.
    pub open spec fn all_spec() -> Seq<CelestialBodyId> {
        seq![
            CelestialBodyId::Sun,
            CelestialBodyId::Mercury,
            CelestialBodyId::Venus,
            CelestialBodyId::Earth,
            CelestialBodyId::Moon,
            CelestialBodyId::Mars,
            CelestialBodyId::Jupiter,
            CelestialBodyId::Saturn,
            CelestialBodyId::Uranus,
            CelestialBodyId::Neptune,
        ]
    }

    /// Position of an identifier in declaration order.
    pub open spec fn index_spec(self) -> nat {
        match self {
            CelestialBodyId::Sun => 0,
            CelestialBodyId::Mercury => 1,
            CelestialBodyId::Venus => 2,
            CelestialBodyId::Earth => 3,
            CelestialBodyId::Moon => 4,
            CelestialBodyId::Mars => 5,
            CelestialBodyId::Jupiter => 6,
            CelestialBodyId::Saturn => 7,
            CelestialBodyId::Uranus => 8,
            CelestialBodyId::Neptune => 9,
        }
    }

    /// Every identifier once, in declaration order.
    pub fn all() -> (ids: Vec<CelestialBodyId>)
        ensures
            ids@ == Self::all_spec(),
    {
        let mut ids: Vec<CelestialBodyId> = Vec::new();
        ids.push(CelestialBodyId::Sun);
        ids.push(CelestialBodyId::Mercury);
        ids.push(CelestialBodyId::Venus);
        ids.push(CelestialBodyId::Earth);
        ids.push(CelestialBodyId::Moon);
        ids.push(CelestialBodyId::Mars);
        ids.push(CelestialBodyId::Jupiter);
        ids.push(CelestialBodyId::Saturn);
        ids.push(CelestialBodyId::Uranus);
        ids.push(CelestialBodyId::Neptune);
        ids
    }

    /// Position of this identifier in [`CelestialBodyId::all`].
    pub fn index(self) -> (i: usize)
        ensures
            i == self.index_spec(),
            i < Self::COUNT,
            Self::all_spec()[i as int] == self,
    {
        match self {
            CelestialBodyId::Sun => 0,
            CelestialBodyId::Mercury => 1,
            CelestialBodyId::Venus => 2,
            CelestialBodyId::Earth => 3,
            CelestialBodyId::Moon => 4,
            CelestialBodyId::Mars => 5,
            CelestialBodyId::Jupiter => 6,
            CelestialBodyId::Saturn => 7,
            CelestialBodyId::Uranus => 8,
            CelestialBodyId::Neptune => 9,
        }
    }

    /// The identifier at position `i` of [`CelestialBodyId::all`], if there is
    /// one.
    pub fn from_index(i: usize) -> (id: Option<CelestialBodyId>)
        ensures
            i < Self::COUNT ==> id == Some(Self::all_spec()[i as int]),
            i >= Self::COUNT ==> id is None,
    {
        match i {
            0 => Some(CelestialBodyId::Sun),
            1 => Some(CelestialBodyId::Mercury),
            2 => Some(CelestialBodyId::Venus),
            3 => Some(CelestialBodyId::Earth),
            4 => Some(CelestialBodyId::Moon),
            5 => Some(CelestialBodyId::Mars),
            6 => Some(CelestialBodyId::Jupiter),
            7 => Some(CelestialBodyId::Saturn),
            8 => Some(CelestialBodyId::Uranus),
            9 => Some(CelestialBodyId::Neptune),
            _ => None,
        }
    }

    /// `from_index` undoes `index`, and the list of all identifiers holds each
    /// identifier exactly once.
    pub proof fn lemma_index_round_trip(id: CelestialBodyId)
        ensures
            id.index_spec() < Self::all_spec().len(),
            Self::all_spec()[id.index_spec() as int] == id,
            forall|i: int|
                0 <= i < Self::all_spec().len() && #[trigger] Self::all_spec()[i] == id ==> i
                    == id.index_spec(),
    {
    }
}

impl Default for CelestialBodyId {
    /// The body selected when nothing else was chosen.
    fn default() -> (id: CelestialBodyId)
        ensures
            id == CelestialBodyId::Earth,
    {
        CelestialBodyId::Earth
    }
}

/// The mean radius of a body, in metres. A radius is never zero.
#[derive(Debug, Clone, Copy)]
pub struct Radius {
    metres: u64,
}

impl View for Radius {
    type V = nat;

    /// The radius in metres.
    closed spec fn view(&self) -> nat {
        self.metres as nat
    }
}

impl Radius {
    #[verifier::type_invariant]
    closed spec fn positive(self) -> bool {
        self.metres > 0
    }

    /// The radius of `metres` metres.
    pub closed spec fn of_metres(metres: nat) -> Radius {
        Radius { metres: metres as u64 }
    }

    /// The radius of `metres` metres.
    pub fn new(metres: u64) -> (radius: Radius)
        requires
            metres > 0,
        ensures
            radius == Radius::of_metres(metres as nat),
            radius@ == metres,
    {
        Radius { metres }
    }

    /// The radius of `metres` metres, or `None` for zero, which no body has.
    pub fn from_metres(metres: u64) -> (radius: Option<Radius>)
        ensures
            metres == 0 ==> radius is None,
            metres > 0 ==> radius == Some(Radius::of_metres(metres as nat)),
            radius matches Some(r) ==> r@ == metres,
    {
        if metres == 0 {
            None
        } else {
            Some(Radius { metres })
        }
    }

    /// The radius in metres.
    pub fn metres(&self) -> (metres: u64)
        ensures
            metres == self@,
            metres > 0,
    {
        proof {
            use_type_invariant(self);
        }
        self.metres
    }

    /// The radius in the scene, in millionths of a display unit.
    pub fn to_display(&self) -> (shown: i128)
        ensures
            shown == self@ * SOLAR_SYSTEM_SCALE,
            shown > 0,
    {
        proof {
            use_type_invariant(self);
        }
        (self.metres as i128) * SOLAR_SYSTEM_SCALE
    }

    /// A radius made of a count of metres has that count as its view.
    pub proof fn lemma_of_metres(metres: nat)
        requires
            metres <= u64::MAX,
        ensures
            Radius::of_metres(metres)@ == metres,
    {
    }
}

/// The record of one body of a catalog. It is a plain value and never changes
/// once it is part of a registry.
#[derive(Debug, Clone, Copy)]
pub struct CelestialBody {
    /// The body that the record describes.
    pub id: CelestialBodyId,
    /// The kind of the body.
    pub body_type: CelestialBodyType,
    /// The mean radius of the body.
    pub radius: Radius,
    /// The body that this one orbits, if any.
    pub parent_id: Option<CelestialBodyId>,
}

impl CelestialBody {
    /// The record of the body `id`, of kind `body_type` and of the given
    /// radius, in orbit around `parent_id`.
    pub fn new(
        id: CelestialBodyId,
        body_type: CelestialBodyType,
        radius: Radius,
        parent_id: Option<CelestialBodyId>,
    ) -> (body: CelestialBody)
        ensures
            body == (CelestialBody { id, body_type, radius, parent_id }),
    {
        CelestialBody { id, body_type, radius, parent_id }
    }

    /// The identifier that the record was made with. It is stored, never
    /// derived from a name.
    pub fn get_id(&self) -> (id: CelestialBodyId)
        ensures
            id == self.id,
    {
        self.id
    }
}

/// The registry of the bodies of one solar system: a valid catalog, kept as
/// the records in the order in which they were registered together with a
/// map from each identifier to the place of its record. A registry is built
/// once and only read afterwards.
pub struct SolarSystem {
    /// The records, in registration order.
    bodies: Vec<CelestialBody>,
    /// Where the record of each body stands among `bodies`, under the index
    /// of its identifier.
    index: HashMap<usize, usize>,
}

impl View for SolarSystem {
    type V = Seq<CelestialBody>;

    /// The records of the registry, in registration order.
    closed spec fn view(&self) -> Seq<CelestialBody> {
        self.bodies@
    }
}

/// Whether `index` says of every record of `catalog`, under the index of its
/// identifier, where it stands, and says nothing else.
spec fn indexes(index: Map<usize, usize>, catalog: Seq<CelestialBody>) -> bool {
    &&& forall|i: int|
        0 <= i < catalog.len() ==> {
            &&& index.contains_key((#[trigger] catalog[i]).id.index_spec() as usize)
            &&& index[catalog[i].id.index_spec() as usize] == i
        }
    &&& forall|key: usize| #[trigger]
        index.contains_key(key) ==> {
            &&& index[key] < catalog.len()
            &&& catalog[index[key] as int].id.index_spec() == key
        }
}

/// The position in `bodies` of the record that describes `id`, looked up in
/// the index.
fn position_of(
    bodies: &Vec<CelestialBody>,
    index: &HashMap<usize, usize>,
    id: CelestialBodyId,
) -> (position: Option<usize>)
    requires
        unique_ids(bodies@),
        indexes(index@, bodies@),
    ensures
        (match position {
            Some(i) => i < bodies.len() && find(bodies@, id) == Some(bodies@[i as int]),
            None => find(bodies@, id) is None,
        }),
{
    let key = id.index();
    match index.get(&key) {
        Some(position) => {
            let i = *position;
            proof {
                CelestialBodyId::lemma_index_round_trip(id);
                CelestialBodyId::lemma_index_round_trip(bodies@[i as int].id);
                lemma_find_member(bodies@, bodies@[i as int]);
            }
            Some(i)
        },
        None => {
            proof {
                lemma_find(bodies@, id);
            }
            None
        },
    }
}

/// The record of the parent of `body` in `bodies`, if it names one that is
/// there.
fn parent_record(
    bodies: &Vec<CelestialBody>,
    index: &HashMap<usize, usize>,
    body: &CelestialBody,
) -> (parent: Option<CelestialBody>)
    requires
        unique_ids(bodies@),
        indexes(index@, bodies@),
    ensures
        (match parent {
            Some(record) => parent_of(bodies@, *body) == seq![record],
            None => parent_of(bodies@, *body) == Seq::<CelestialBody>::empty(),
        }),
{
    match body.parent_id {
        None => None,
        Some(parent_id) => match position_of(bodies, index, parent_id) {
            None => None,
            Some(i) => Some(bodies[i]),
        },
    }
}

/// Whether a body of kind `child` may orbit one of kind `parent`.
fn can_orbit(child: CelestialBodyType, parent: CelestialBodyType) -> (allowed: bool)
    ensures
        allowed == may_orbit(child, parent),
{
    match child {
        CelestialBodyType::Star => false,
        CelestialBodyType::Planet => parent == CelestialBodyType::Star,
        CelestialBodyType::Moon => parent == CelestialBodyType::Planet || parent
            == CelestialBodyType::Asteroid,
        CelestialBodyType::Asteroid => parent == CelestialBodyType::Star,
    }
}

/// The index of `bodies`, unless two of them describe the same body.
fn build_index(bodies: &Vec<CelestialBody>) -> (built: Option<HashMap<usize, usize>>)
    ensures
        (match built {
            Some(index) => unique_ids(bodies@) && indexes(index@, bodies@),
            None => !unique_ids(bodies@),
        }),
{
    let mut index: HashMap<usize, usize> = HashMap::new();
    let mut i: usize = 0;
    while i < bodies.len()
        invariant
            i <= bodies.len(),
            unique_ids(bodies@.take(i as int)),
            indexes(index@, bodies@.take(i as int)),
        decreases bodies.len() - i,
    {
        let key = bodies[i].id.index();
        if index.contains_key(&key) {
            proof {
                let earlier = index@[key] as int;
                assert(bodies@.take(i as int)[earlier] == bodies@[earlier]);
                CelestialBodyId::lemma_index_round_trip(bodies@[earlier].id);
                CelestialBodyId::lemma_index_round_trip(bodies@[i as int].id);
                assert(bodies@[earlier].id == bodies@[i as int].id);
            }
            return None;
        }
        proof {
            let before = bodies@.take(i as int);
            let after = bodies@.take(i + 1);
            assert forall|a: int, b: int| 0 <= a < b < after.len() implies (#[trigger] after[a]).id
                != (#[trigger] after[b]).id by {
                assert(after[a] == before[a]);
                if b < i {
                    assert(after[b] == before[b]);
                }
            }
            let grown = index@.insert(key, i);
            assert forall|j: int| 0 <= j < after.len() implies {
                &&& grown.contains_key((#[trigger] after[j]).id.index_spec() as usize)
                &&& grown[after[j].id.index_spec() as usize] == j
            } by {
                if j < i {
                    assert(after[j] == before[j]);
                }
            }
            assert forall|k: usize| #[trigger] grown.contains_key(k) implies {
                &&& grown[k] < after.len()
                &&& after[grown[k] as int].id.index_spec() == k
            } by {
                if k != key {
                    assert(index@.contains_key(k));
                    assert(after[index@[k] as int] == before[index@[k] as int]);
                }
            }
        }
        index.insert(key, i);
        i += 1;
    }
    assert(bodies@.take(i as int) == bodies@);
    Some(index)
}

/// Whether every record of `bodies` is well placed among them.
fn all_well_placed(bodies: &Vec<CelestialBody>, index: &HashMap<usize, usize>) -> (placed: bool)
    requires
        unique_ids(bodies@),
        indexes(index@, bodies@),
    ensures
        placed == (forall|i: int|
            0 <= i < bodies@.len() ==> well_placed(bodies@, #[trigger] bodies@[i])),
{
    let mut i: usize = 0;
    while i < bodies.len()
        invariant
            i <= bodies.len(),
            unique_ids(bodies@),
            indexes(index@, bodies@),
            forall|k: int| 0 <= k < i ==> well_placed(bodies@, #[trigger] bodies@[k]),
        decreases bodies.len() - i,
    {
        let body = bodies[i];
        let placed = match body.parent_id {
            None => true,
            Some(parent_id) => match position_of(bodies, index, parent_id) {
                None => false,
                Some(p) => can_orbit(body.body_type, bodies[p].body_type),
            },
        };
        if !placed {
            return false;
        }
        i += 1;
    }
    true
}

impl SolarSystem {
    /// Every registry holds a valid catalog.
    #[verifier::type_invariant]
    pub closed spec fn well_formed(&self) -> bool {
        valid_catalog(self.bodies@) && indexes(self.index@, self.bodies@)
    }

    /// The record of a body in the built-in catalog.
    pub open spec fn catalog_entry(id: CelestialBodyId) -> CelestialBody {
        CelestialBody {
            id,
            body_type: built_in_body_type(id),
            radius: Radius::of_metres(radius_metres(id)),
            parent_id: built_in_parent(id),
        }
    }

    /// The built-in catalog: the Sun, the eight planets and the Moon, in the
    /// declaration order of their identifiers.
    pub open spec fn built_in_catalog() -> Seq<CelestialBody> {
        Seq::new(
            CelestialBodyId::all_spec().len(),
            |i: int| Self::catalog_entry(CelestialBodyId::all_spec()[i]),
        )
    }

    /// The built-in catalog is valid.
    pub proof fn lemma_built_in_catalog_valid()
        ensures
            valid_catalog(Self::built_in_catalog()),
    {
        let catalog = Self::built_in_catalog();
        let ids = CelestialBodyId::all_spec();
        assert forall|i: int, j: int| 0 <= i < j < catalog.len() implies (#[trigger] catalog[i]).id
            != (#[trigger] catalog[j]).id by {
            CelestialBodyId::lemma_index_round_trip(ids[i]);
            CelestialBodyId::lemma_index_round_trip(ids[j]);
        }
        lemma_find_at(catalog, CelestialBodyId::Sun, 0);
        lemma_find_at(catalog, CelestialBodyId::Earth, 3);
        assert forall|i: int| 0 <= i < catalog.len() implies well_placed(
            catalog,
            #[trigger] catalog[i],
        ) by {
            CelestialBodyId::lemma_index_round_trip(ids[i]);
        }
    }

    /// The registry of the built-in catalog.
    pub fn new() -> (system: SolarSystem)
        ensures
            system@ == Self::built_in_catalog(),
            valid_catalog(system@),
    {
        let ids = CelestialBodyId::all();
        let mut bodies: Vec<CelestialBody> = Vec::new();
        let mut i: usize = 0;
        while i < ids.len()
            invariant
                ids@ == CelestialBodyId::all_spec(),
                i <= ids.len(),
                bodies@.len() == i,
                forall|k: int| 0 <= k < i ==> bodies@[k] == Self::catalog_entry(ids@[k]),
            decreases ids.len() - i,
        {
            let id = ids[i];
            bodies.push(CelestialBody::new(id, get_body_type(id), get_radius(id), get_parent(id)));
            i += 1;
        }
        proof {
            assert(bodies@ =~= Self::built_in_catalog());
            Self::lemma_built_in_catalog_valid();
        }
        match build_index(&bodies) {
            Some(index) => SolarSystem { bodies, index },
            None => unreached(),
        }
    }

    /// The registry of the given catalog, in the given order. The catalog is
    /// checked once, here: it is refused when two records describe the same
    /// body, when a record names a parent that the catalog does not hold, or
    /// when a body orbits one that cannot carry it (which every cycle of
    /// parent references does).
    pub fn from_bodies(bodies: Vec<CelestialBody>) -> (result: Result<SolarSystem, EngineError>)
        ensures
            (match result {
                Ok(system) => system@ == bodies@ && valid_catalog(bodies@),
                Err(e) => e == EngineError::InvalidHierarchy && !valid_catalog(bodies@),
            }),
    {
        let index = match build_index(&bodies) {
            Some(index) => index,
            None => {
                return Err(EngineError::InvalidHierarchy);
            },
        };
        if !all_well_placed(&bodies, &index) {
            return Err(EngineError::InvalidHierarchy);
        }
        Ok(SolarSystem { bodies, index })
    }

    /// The records of the registry, in registration order.
    pub fn bodies(&self) -> (bodies: &Vec<CelestialBody>)
        ensures
            bodies@ == self@,
            valid_catalog(self@),
    {
        proof {
            use_type_invariant(self);
        }
        &self.bodies
    }

    /// The record of the body `id`, or `UnknownBody` when the registry does
    /// not hold it.
    pub fn get(&self, id: CelestialBodyId) -> (result: Result<&CelestialBody, EngineError>)
        ensures
            (match result {
                Ok(body) => find(self@, id) == Some(*body),
                Err(e) => e == EngineError::UnknownBody && find(self@, id) is None,
            }),
    {
        proof {
            use_type_invariant(self);
        }
        match position_of(&self.bodies, &self.index, id) {
            Some(i) => Ok(&self.bodies[i]),
            None => Err(EngineError::UnknownBody),
        }
    }

    /// The bodies shown when `body_id` is selected, the selected body first,
    /// or `UnknownBody` when the registry does not hold the selected body.
    pub fn get_visible_bodies(&self, body_id: CelestialBodyId) -> (result: Result<
        Vec<CelestialBody>,
        EngineError,
    >)
        ensures
            (match result {
                Ok(visible) => find(self@, body_id) is Some && visible@ == visible_bodies(
                    self@,
                    body_id,
                ),
                Err(e) => e == EngineError::UnknownBody && find(self@, body_id) is None,
            }),
            valid_catalog(self@),
    {
        proof {
            use_type_invariant(self);
        }
        let mut visible: Vec<CelestialBody> = Vec::new();
        let body = match position_of(&self.bodies, &self.index, body_id) {
            None => {
                return Err(EngineError::UnknownBody);
            },
            Some(i) => self.bodies[i],
        };
        visible.push(body);
        match body.body_type {
            CelestialBodyType::Star => {},
            CelestialBodyType::Planet => {
                if let Some(parent) = parent_record(&self.bodies, &self.index, &body) {
                    visible.push(parent);
                }
                let ghost shown = visible@;
                let mut k: usize = 0;
                while k < self.bodies.len()
                    invariant
                        k <= self.bodies.len(),
                        visible@ == shown + children_of(self.bodies@.take(k as int), body_id),
                    decreases self.bodies.len() - k,
                {
                    let candidate = self.bodies[k];
                    proof {
                        lemma_children_step(self.bodies@, body_id, k as int);
                    }
                    match candidate.parent_id {
                        Some(parent_id) => {
                            if parent_id == body_id {
                                visible.push(candidate);
                            }
                        },
                        None => {},
                    }
                    k += 1;
                }
                assert(self.bodies@.take(k as int) == self.bodies@);
            },
            CelestialBodyType::Moon => {
                if let Some(parent) = parent_record(&self.bodies, &self.index, &body) {
                    visible.push(parent);
                    if let Some(grandparent) = parent_record(&self.bodies, &self.index, &parent) {
                        visible.push(grandparent);
                    }
                }
            },
            CelestialBodyType::Asteroid => {},
        }
        Ok(visible)
    }

    /// The queries for the positions of `bodies` at `epoch`, one for each body
    /// and in the same order, all relative to the first of them, which is
    /// taken to be the selected body. Where there is no body there is no
    /// query.
    pub fn set_positions(bodies: &[CelestialBody], epoch: &Epoch) -> (queries: Vec<StateQuery>)
        ensures
            queries@ == Seq::new(
                bodies@.len(),
                |i: int| position_query(bodies@[i].id, bodies@[0].id, *epoch),
            ),
    {
        let mut queries: Vec<StateQuery> = Vec::new();
        if bodies.len() == 0 {
            assert(queries@ =~= Seq::new(
                bodies@.len(),
                |i: int| position_query(bodies@[i].id, bodies@[0].id, *epoch),
            ));
            return queries;
        }
        let target_body = bodies[0].get_id();
        let mut i: usize = 0;
        while i < bodies.len()
            invariant
                i <= bodies@.len(),
                target_body == bodies@[0].id,
                queries@.len() == i,
                forall|k: int|
                    0 <= k < i ==> queries@[k] == position_query(
                        bodies@[k].id,
                        bodies@[0].id,
                        *epoch,
                    ),
            decreases bodies@.len() - i,
        {
            queries.push(get_position(bodies[i].get_id(), target_body, epoch));
            i += 1;
        }
        assert(queries@ =~= Seq::new(
            bodies@.len(),
            |i: int| position_query(bodies@[i].id, bodies@[0].id, *epoch),
        ));
        queries
    }

    /// In the built-in catalog the Sun is shown alone.
    pub proof fn lemma_sun_is_shown_alone()
        ensures
            visible_bodies(Self::built_in_catalog(), CelestialBodyId::Sun) == seq![
                Self::catalog_entry(CelestialBodyId::Sun),
            ],
    {
        lemma_find_at(Self::built_in_catalog(), CelestialBodyId::Sun, 0);
    }
}

impl Default for SolarSystem {
    /// The registry that holds no body.
    fn default() -> (system: SolarSystem)
        ensures
            system@ == Seq::<CelestialBody>::empty(),
    {
        SolarSystem { bodies: Vec::new(), index: HashMap::new() }
    }
}

} // verus!
