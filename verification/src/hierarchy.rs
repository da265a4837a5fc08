//! The parent/child hierarchy of a catalog and the rule that says which bodies
//! are shown together.
//!
//! A catalog is a sequence of records in the order in which they were
//! registered. Everything here is stated over that sequence.

use vstd::prelude::*;

use crate::celestial_body::{CelestialBody, CelestialBodyId, CelestialBodyType};

verus! {

/// The first record of `catalog` that describes the body `id`.
pub open spec fn find(catalog: Seq<CelestialBody>, id: CelestialBodyId) -> Option<CelestialBody>
    decreases catalog.len(),
{
    if catalog.len() == 0 {
        None
    } else if catalog.first().id == id {
        Some(catalog.first())
    } else {
        find(catalog.drop_first(), id)
    }
}

/// No two records of `catalog` describe the same body.
pub open spec fn unique_ids(catalog: Seq<CelestialBody>) -> bool {
    forall|i: int, j: int|
        0 <= i < j < catalog.len() ==> (#[trigger] catalog[i]).id != (#[trigger] catalog[j]).id
}

/// Whether a body of kind `child` may orbit a body of kind `parent`: planets
/// and asteroids orbit stars, moons orbit planets or asteroids, and a star
/// orbits nothing.
pub open spec fn may_orbit(child: CelestialBodyType, parent: CelestialBodyType) -> bool {
    match child {
        CelestialBodyType::Star => false,
        CelestialBodyType::Planet => parent == CelestialBodyType::Star,
        CelestialBodyType::Moon => parent == CelestialBodyType::Planet || parent
            == CelestialBodyType::Asteroid,
        CelestialBodyType::Asteroid => parent == CelestialBodyType::Star,
    }
}

/// A record is well placed in `catalog` when it names no parent, or names one
/// that the catalog holds and that may carry it.
pub open spec fn well_placed(catalog: Seq<CelestialBody>, body: CelestialBody) -> bool {
    match body.parent_id {
        None => true,
        Some(parent_id) => match find(catalog, parent_id) {
            None => false,
            Some(parent) => may_orbit(body.body_type, parent.body_type),
        },
    }
}

/// A catalog is valid when it maps each identifier to at most one record and
/// every record is well placed.
pub open spec fn valid_catalog(catalog: Seq<CelestialBody>) -> bool {
    &&& unique_ids(catalog)
    &&& forall|i: int| 0 <= i < catalog.len() ==> well_placed(catalog, #[trigger] catalog[i])
}

/// The record of the parent of `body`: one record, or none when `body` names
/// no parent or the catalog does not hold it.
pub open spec fn parent_of(
    catalog: Seq<CelestialBody>,
    body: CelestialBody,
) -> Seq<CelestialBody> {
    match body.parent_id {
        None => Seq::empty(),
        Some(parent_id) => match find(catalog, parent_id) {
            None => Seq::empty(),
            Some(parent) => seq![parent],
        },
    }
}

/// The records whose parent is `id`, in catalog order.
pub open spec fn children_of(
    catalog: Seq<CelestialBody>,
    id: CelestialBodyId,
) -> Seq<CelestialBody> {
    catalog.filter(|body: CelestialBody| body.parent_id == Some(id))
}

/// The bodies shown when `id` is selected, the selected body first.
///
/// A star is shown alone. A planet is shown with its parent and then with
/// every body that orbits it, in catalog order. A moon is shown with its
/// parent and its parent's parent. An asteroid is shown alone. For a body
/// that the catalog does not hold there is no such list; the sequence is
/// then empty.
pub open spec fn visible_bodies(
    catalog: Seq<CelestialBody>,
    id: CelestialBodyId,
) -> Seq<CelestialBody> {
    match find(catalog, id) {
        None => Seq::empty(),
        Some(body) => match body.body_type {
            CelestialBodyType::Star => seq![body],
            CelestialBodyType::Planet => seq![body] + parent_of(catalog, body) + children_of(
                catalog,
                id,
            ),
            CelestialBodyType::Moon => {
                let parent = parent_of(catalog, body);
                if parent.len() == 0 {
                    seq![body]
                } else {
                    seq![body] + parent + parent_of(catalog, parent[0])
                }
            },
            CelestialBodyType::Asteroid => seq![body],
        },
    }
}

/// The identifier of the parent of the body `id`, as far as `catalog` tells.
pub open spec fn parent_id_of(
    catalog: Seq<CelestialBody>,
    id: CelestialBodyId,
) -> Option<CelestialBodyId> {
    match find(catalog, id) {
        None => None,
        Some(body) => body.parent_id,
    }
}

/// The body reached from `id` by following `links` parent references, if the
/// chain is that long.
pub open spec fn ancestor(
    catalog: Seq<CelestialBody>,
    id: CelestialBodyId,
    links: nat,
) -> Option<CelestialBodyId>
    decreases links,
{
    if links == 0 {
        Some(id)
    } else {
        match ancestor(catalog, id, (links - 1) as nat) {
            None => None,
            Some(below) => parent_id_of(catalog, below),
        }
    }
}

/// The rank of a kind in the hierarchy: the greatest number of parent
/// references that can lead upwards from a body of that kind.
pub open spec fn rank(kind: CelestialBodyType) -> nat {
    match kind {
        CelestialBodyType::Star => 0,
        CelestialBodyType::Planet => 1,
        CelestialBodyType::Asteroid => 1,
        CelestialBodyType::Moon => 2,
    }
}

/// A record found under an identifier describes that identifier and is an
/// element of the catalog; where none is found, no record describes it.
pub proof fn lemma_find(catalog: Seq<CelestialBody>, id: CelestialBodyId)
    ensures
        find(catalog, id) matches Some(body) ==> body.id == id && catalog.contains(body),
        find(catalog, id) is None ==> forall|i: int|
            0 <= i < catalog.len() ==> (#[trigger] catalog[i]).id != id,
    decreases catalog.len(),
{
    if catalog.len() > 0 && catalog.first().id != id {
        let rest = catalog.drop_first();
        lemma_find(rest, id);
        if let Some(body) = find(rest, id) {
            let k = choose|k: int| 0 <= k < rest.len() && rest[k] == body;
            assert(catalog[k + 1] == body);
        } else {
            assert forall|i: int| 0 <= i < catalog.len() implies (#[trigger] catalog[i]).id
                != id by {
                if i > 0 {
                    assert(rest[i - 1] == catalog[i]);
                }
            }
        }
    }
}

/// The record at position `i` is the one found under its identifier when no
/// earlier record describes the same body.
pub proof fn lemma_find_at(catalog: Seq<CelestialBody>, id: CelestialBodyId, i: int)
    requires
        0 <= i < catalog.len(),
        catalog[i].id == id,
        forall|j: int| 0 <= j < i ==> (#[trigger] catalog[j]).id != id,
    ensures
        find(catalog, id) == Some(catalog[i]),
    decreases i,
{
    if i > 0 {
        let rest = catalog.drop_first();
        assert forall|j: int| 0 <= j < i - 1 implies (#[trigger] rest[j]).id != id by {
            assert(rest[j] == catalog[j + 1]);
        }
        lemma_find_at(rest, id, i - 1);
    }
}

/// In a catalog without duplicates every record is the one found under its
/// own identifier.
pub proof fn lemma_find_member(catalog: Seq<CelestialBody>, body: CelestialBody)
    requires
        unique_ids(catalog),
        catalog.contains(body),
    ensures
        find(catalog, body.id) == Some(body),
{
    let i = choose|i: int| 0 <= i < catalog.len() && catalog[i] == body;
    assert forall|j: int| 0 <= j < i implies (#[trigger] catalog[j]).id != body.id by {
        assert(catalog[j].id != catalog[i].id);
    }
    lemma_find_at(catalog, body.id, i);
}

/// Taking one more record of the catalog into account adds it to the
/// children of `id` exactly when it names `id` as its parent.
pub proof fn lemma_children_step(catalog: Seq<CelestialBody>, id: CelestialBodyId, k: int)
    requires
        0 <= k < catalog.len(),
    ensures
        children_of(catalog.take(k + 1), id) == if catalog[k].parent_id == Some(id) {
            children_of(catalog.take(k), id).push(catalog[k])
        } else {
            children_of(catalog.take(k), id)
        },
{
    reveal(Seq::filter);
    assert(catalog.take(k + 1).drop_last() == catalog.take(k));
}

/// A star is shown alone.
pub proof fn lemma_star_is_shown_alone(catalog: Seq<CelestialBody>, star: CelestialBody)
    requires
        find(catalog, star.id) == Some(star),
        star.body_type == CelestialBodyType::Star,
    ensures
        visible_bodies(catalog, star.id) == seq![star],
{
}

/// A planet is shown with its parent and with the bodies that orbit it, and
/// with nothing else: a record is among the bodies shown for a planet exactly
/// when it is a record of the catalog and is the planet itself, the parent
/// that the planet names, or a body that names the planet as its parent. The
/// planet itself comes first.
pub proof fn lemma_planet_is_shown_with_parent_and_children(
    catalog: Seq<CelestialBody>,
    planet: CelestialBody,
    body: CelestialBody,
)
    requires
        valid_catalog(catalog),
        find(catalog, planet.id) == Some(planet),
        planet.body_type == CelestialBodyType::Planet,
    ensures
        visible_bodies(catalog, planet.id)[0] == planet,
        visible_bodies(catalog, planet.id).contains(body) <==> catalog.contains(body) && (body
            == planet || planet.parent_id == Some(body.id) || body.parent_id == Some(planet.id)),
{
    let shown = visible_bodies(catalog, planet.id);
    let parent = parent_of(catalog, planet);
    let orbits = |b: CelestialBody| b.parent_id == Some(planet.id);
    let children = children_of(catalog, planet.id);
    assert(shown == seq![planet] + parent + children);
    lemma_find(catalog, planet.id);
    if let Some(parent_id) = planet.parent_id {
        lemma_find(catalog, parent_id);
    }
    if shown.contains(body) {
        let i = choose|i: int| 0 <= i < shown.len() && shown[i] == body;
        if i >= 1 + parent.len() {
            let c = i - 1 - parent.len();
            assert(body == children[c]);
            catalog.lemma_filter_pred(orbits, c);
            catalog.lemma_filter_contains_rev(orbits, body);
        }
    }
    if catalog.contains(body) {
        if body == planet {
            assert(shown[0] == body);
        } else if planet.parent_id == Some(body.id) {
            lemma_find_member(catalog, body);
            assert(shown[1] == body);
        } else if body.parent_id == Some(planet.id) {
            let k = choose|k: int| 0 <= k < catalog.len() && catalog[k] == body;
            catalog.lemma_filter_contains(orbits, k);
            let c = choose|c: int| 0 <= c < children.len() && children[c] == body;
            assert(shown[1 + parent.len() + c] == body);
        }
    }
}

/// A moon with a parent and a grandparent is shown with exactly those two,
/// in that order.
pub proof fn lemma_moon_is_shown_with_parent_and_grandparent(
    catalog: Seq<CelestialBody>,
    moon: CelestialBody,
    parent: CelestialBody,
    grandparent: CelestialBody,
)
    requires
        valid_catalog(catalog),
        catalog.contains(moon),
        catalog.contains(parent),
        catalog.contains(grandparent),
        moon.body_type == CelestialBodyType::Moon,
        moon.parent_id == Some(parent.id),
        parent.parent_id == Some(grandparent.id),
    ensures
        visible_bodies(catalog, moon.id) == seq![moon, parent, grandparent],
{
    lemma_find_member(catalog, moon);
    lemma_find_member(catalog, parent);
    lemma_find_member(catalog, grandparent);
}

/// Every body shown is a record of the catalog, found under its own
/// identifier, and the selected body comes first.
pub proof fn lemma_visible_bodies_are_registered(
    catalog: Seq<CelestialBody>,
    id: CelestialBodyId,
    i: int,
)
    requires
        valid_catalog(catalog),
        0 <= i < visible_bodies(catalog, id).len(),
    ensures
        find(catalog, id) == Some(visible_bodies(catalog, id)[0]),
        catalog.contains(visible_bodies(catalog, id)[i]),
        find(catalog, visible_bodies(catalog, id)[i].id) == Some(visible_bodies(catalog, id)[i]),
{
    let shown = visible_bodies(catalog, id);
    let body = find(catalog, id)->Some_0;
    lemma_find(catalog, id);
    let parent = parent_of(catalog, body);
    if let Some(parent_id) = body.parent_id {
        lemma_find(catalog, parent_id);
    }
    if parent.len() > 0 {
        if let Some(grandparent_id) = parent[0].parent_id {
            lemma_find(catalog, grandparent_id);
        }
    }
    if body.body_type == CelestialBodyType::Planet && i >= 1 + parent.len() {
        let orbits = |b: CelestialBody| b.parent_id == Some(id);
        let children = children_of(catalog, id);
        assert(shown[i] == children[i - 1 - parent.len()]);
        catalog.lemma_filter_contains_rev(orbits, shown[i]);
    }
    lemma_find_member(catalog, shown[i]);
}

/// Following a parent reference leads to a record of strictly lower rank: a
/// body reached from `id` over `links` references is registered, and its rank
/// lies at least `links` below the rank of `id`.
pub proof fn lemma_ancestor_rank(catalog: Seq<CelestialBody>, id: CelestialBodyId, links: nat)
    requires
        valid_catalog(catalog),
        links > 0,
        ancestor(catalog, id, links) is Some,
    ensures
        find(catalog, id) is Some,
        find(catalog, ancestor(catalog, id, links)->Some_0) is Some,
        rank(find(catalog, ancestor(catalog, id, links)->Some_0)->Some_0.body_type) + links
            <= rank(find(catalog, id)->Some_0.body_type),
    decreases links,
{
    let below = ancestor(catalog, id, (links - 1) as nat)->Some_0;
    if links > 1 {
        lemma_ancestor_rank(catalog, id, (links - 1) as nat);
    }
    let child = find(catalog, below)->Some_0;
    lemma_find(catalog, below);
    assert(well_placed(catalog, child));
}

/// No chain of parent references is longer than two: from a moon over its
/// planet to the star.
pub proof fn lemma_hierarchy_depth(catalog: Seq<CelestialBody>, id: CelestialBodyId)
    requires
        valid_catalog(catalog),
    ensures
        ancestor(catalog, id, 3) is None,
{
    if ancestor(catalog, id, 3) is Some {
        lemma_ancestor_rank(catalog, id, 3);
    }
}

/// The hierarchy has no cycle: no body is reached again from itself by
/// following parent references.
pub proof fn lemma_hierarchy_acyclic(catalog: Seq<CelestialBody>, id: CelestialBodyId, links: nat)
    requires
        valid_catalog(catalog),
        links > 0,
    ensures
        ancestor(catalog, id, links) != Some(id),
{
    if ancestor(catalog, id, links) is Some {
        lemma_ancestor_rank(catalog, id, links);
    }
}

} // verus!
