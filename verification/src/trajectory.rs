//! Trajectories: the plan of the queries that a trajectory is drawn from,
//! and the points that the answers give.

use vstd::prelude::*;

use crate::celestial_body::{CelestialBody, CelestialBodyId, CelestialBodyType, SolarSystem};
use crate::celestial_data::{
    axial_tilt_cosine, axial_tilt_sine, get_axial_tilt_cosine, get_axial_tilt_sine,
    orbital_period, orbital_period_nanos,
};
use crate::epoch::Epoch;
use crate::error::EngineError;
use crate::frame_transform::{rotate_within_reach, rotated};
use crate::hierarchy::find;
use crate::position::{
    get_position, lemma_relative_position_within_reach, position_query, relative_position,
    to_display_from, EphemerisPosition, Position, StateQuery,
};

verus! {

/// The queries from which the trajectory of one body is drawn.
///
/// The trajectory has one point for each query of `samples`, in that order,
/// which is the order of time. Where `origin` holds a query, its answer is
/// subtracted from the answer of every sample; where it holds none, the
/// answers of the samples are the points.
#[derive(Debug)]
pub struct TrajectoryPlan {
    /// The query for the position that the trajectory is re-based on.
    pub origin: Option<StateQuery>,
    /// The queries for the points of the trajectory.
    pub samples: Vec<StateQuery>,
}

/// The mathematical content of a [`TrajectoryPlan`].
pub struct TrajectoryPlanView {
    pub origin: Option<StateQuery>,
    pub samples: Seq<StateQuery>,
}

impl View for TrajectoryPlan {
    type V = TrajectoryPlanView;

    open spec fn view(&self) -> TrajectoryPlanView {
        TrajectoryPlanView { origin: self.origin, samples: self.samples@ }
    }
}

impl TrajectoryPlan {
    /// What is to be done next, once `origin` and `samples` hold the answers
    /// so far. The plan is carried out by doing what this says, adding the
    /// answer to what is held, and asking again until it says `Done`.
    pub fn next_step(
        &self,
        origin: &Option<Result<EphemerisPosition, EngineError>>,
        samples: &Vec<Result<EphemerisPosition, EngineError>>,
    ) -> (step: NextStep)
        ensures
            step == step_after(self@, *origin, samples@),
    {
        match (&self.origin, origin) {
            (Some(query), None) => {
                return NextStep::AskOrigin(*query);
            },
            (_, Some(Err(_))) => {
                return NextStep::Done;
            },
            _ => {},
        }
        let mut i: usize = 0;
        while i < samples.len()
            invariant
                i <= samples.len(),
                !(self.origin is Some && *origin is None),
                !(*origin matches Some(Err(_))),
                forall|j: int| 0 <= j < i ==> (#[trigger] samples@[j]) is Ok,
            decreases samples.len() - i,
        {
            if let Err(_) = samples[i] {
                assert(samples@[i as int] is Err);
                return NextStep::Done;
            }
            i += 1;
        }
        if samples.len() < self.samples.len() {
            NextStep::AskSample(self.samples[samples.len()])
        } else {
            NextStep::Done
        }
    }
}

/// The instant of sample `i` of `steps` equally spaced samples that start at
/// `start` and cover `span` nanoseconds: `start` plus `i` whole time steps,
/// where a time step is the span divided by the number of samples.
pub open spec fn sample_epoch(start: Epoch, span: int, steps: int, i: int) -> Epoch {
    Epoch { tai_nanos: (start.tai_nanos + i * (span / steps)) as i128 }
}

/// The plan for the trajectory of a body of kind `kind` over `span`
/// nanoseconds from `start`.
///
/// A planet is followed around the Sun, and its path is then re-based on
/// where the central body stood, relative to the Sun, at `start`. Any other
/// body is followed directly around the central body.
pub open spec fn planned_trajectory(
    kind: CelestialBodyType,
    target_body: CelestialBodyId,
    central_body: CelestialBodyId,
    start: Epoch,
    span: int,
    steps: nat,
) -> TrajectoryPlanView {
    if kind == CelestialBodyType::Planet {
        TrajectoryPlanView {
            origin: Some(position_query(central_body, CelestialBodyId::Sun, start)),
            samples: Seq::new(
                steps,
                |i: int|
                    position_query(
                        target_body,
                        CelestialBodyId::Sun,
                        sample_epoch(start, span, steps as int, i),
                    ),
            ),
        }
    } else {
        TrajectoryPlanView {
            origin: None,
            samples: Seq::new(
                steps,
                |i: int|
                    position_query(
                        target_body,
                        central_body,
                        sample_epoch(start, span, steps as int, i),
                    ),
            ),
        }
    }
}

/// The end of the time range of a trajectory: the one supplied, or else one
/// orbital period of the target after the start.
pub open spec fn trajectory_end(
    target_body: CelestialBodyId,
    start: Epoch,
    end: Option<Epoch>,
) -> Option<Epoch> {
    match end {
        Some(end) => Some(end),
        None => Epoch::plus(start, orbital_period_nanos(target_body)),
    }
}

/// What [`get_traj`] returns.
///
/// A request for no samples, or over a range of time that ends before it
/// starts, is refused. The Sun, the origin of the system, has no trajectory:
/// its plan is empty. Any other target must be registered. A range of time
/// whose end or length cannot be counted in nanoseconds is outside the
/// coverage of every ephemeris.
pub open spec fn trajectory(
    target_body: CelestialBodyId,
    central_body: CelestialBodyId,
    start: Epoch,
    end: Option<Epoch>,
    steps: usize,
    catalog: Seq<CelestialBody>,
) -> Result<TrajectoryPlanView, EngineError> {
    if steps == 0 {
        Err(EngineError::InvalidSampleCount)
    } else if end is Some && end->Some_0.tai_nanos < start.tai_nanos {
        Err(EngineError::InvalidSampleCount)
    } else if target_body == CelestialBodyId::Sun {
        Ok(TrajectoryPlanView { origin: None, samples: Seq::empty() })
    } else {
        match find(catalog, target_body) {
            None => Err(EngineError::UnknownBody),
            Some(body) => match trajectory_end(target_body, start, end) {
                None => Err(EngineError::EphemerisCoverage),
                Some(end) => match Epoch::span(start, end) {
                    None => Err(EngineError::EphemerisCoverage),
                    Some(span) => Ok(
                        planned_trajectory(
                            body.body_type,
                            target_body,
                            central_body,
                            start,
                            span as int,
                            steps as nat,
                        ),
                    ),
                },
            },
        }
    }
}

/// The plan for the trajectory of `target_body` relative to `central_body`:
/// `steps` samples, the first at `start_time`, each one time step after the
/// one before it, and the last a time step before `end_time` or earlier. A
/// time step is the `steps`-th part of the range, in whole nanoseconds.
/// Without an `end_time` the range is one orbital period of the target. The
/// plan holds exactly `steps` samples; no closing point is added.
pub fn get_traj(
    target_body: CelestialBodyId,
    central_body: CelestialBodyId,
    start_time: Epoch,
    end_time: Option<Epoch>,
    steps: usize,
    solar_system: &SolarSystem,
) -> (result: Result<TrajectoryPlan, EngineError>)
    ensures
        (match result {
            Ok(plan) => trajectory(
                target_body,
                central_body,
                start_time,
                end_time,
                steps,
                solar_system@,
            ) == Ok::<TrajectoryPlanView, EngineError>(plan@),
            Err(e) => trajectory(
                target_body,
                central_body,
                start_time,
                end_time,
                steps,
                solar_system@,
            ) == Err::<TrajectoryPlanView, EngineError>(e),
        }),
        steps == 0 ==> result is Err && result->Err_0 == EngineError::InvalidSampleCount,
        steps > 0 && target_body == CelestialBodyId::Sun && (end_time matches Some(end)
            ==> start_time.tai_nanos <= end.tai_nanos) ==> result is Ok && result->Ok_0@.origin
            is None && result->Ok_0@.samples.len() == 0,
{
    if steps == 0 {
        return Err(EngineError::InvalidSampleCount);
    }
    if let Some(end) = end_time {
        if end.tai_nanos < start_time.tai_nanos {
            return Err(EngineError::InvalidSampleCount);
        }
    }
    if target_body == CelestialBodyId::Sun {
        return Ok(TrajectoryPlan { origin: None, samples: Vec::new() });
    }
    let kind = match solar_system.get(target_body) {
        Ok(body) => body.body_type,
        Err(e) => {
            return Err(e);
        },
    };
    let end = match end_time {
        Some(end) => end,
        None => match start_time.checked_add(orbital_period(target_body)) {
            Some(end) => end,
            None => {
                return Err(EngineError::EphemerisCoverage);
            },
        },
    };
    let span = match end.checked_since(start_time) {
        Some(span) => span,
        None => {
            return Err(EngineError::EphemerisCoverage);
        },
    };
    let count = steps as i128;
    let step = span / count;
    assert(0 <= step && count * step <= span) by (nonlinear_arith)
        requires
            0 <= span,
            0 < count,
            step == span / count,
    ;
    let planet = kind == CelestialBodyType::Planet;
    let frame_center = if planet {
        CelestialBodyId::Sun
    } else {
        central_body
    };
    let origin = if planet {
        Some(get_position(central_body, CelestialBodyId::Sun, &start_time))
    } else {
        None
    };
    let mut samples: Vec<StateQuery> = Vec::new();
    let mut i: usize = 0;
    while i < steps
        invariant
            i <= steps,
            count == steps,
            0 <= step,
            step == span as int / count as int,
            count * step <= span,
            start_time.tai_nanos + span <= i128::MAX,
            samples@.len() == i,
            forall|k: int|
                0 <= k < i ==> samples@[k] == position_query(
                    target_body,
                    frame_center,
                    sample_epoch(start_time, span as int, steps as int, k),
                ),
        decreases steps - i,
    {
        let index = i as i128;
        assert(0 <= index * step <= span) by (nonlinear_arith)
            requires
                0 <= index < count,
                0 <= step,
                count * step <= span,
        ;
        let time = Epoch { tai_nanos: start_time.tai_nanos + index * step };
        samples.push(get_position(target_body, frame_center, &time));
        i += 1;
    }
    let plan = TrajectoryPlan { origin, samples };
    proof {
        let planned = planned_trajectory(
            kind,
            target_body,
            central_body,
            start_time,
            span as int,
            steps as nat,
        );
        assert(plan@.samples =~= planned.samples);
    }
    Ok(plan)
}

/// Samples are equally spaced and in the order of time: sample `i` lies `i`
/// whole time steps after the start, the first sample is the start itself,
/// no sample is earlier than the one before it, and even the last lies at
/// least one time step before the end of the range.
pub proof fn lemma_samples_are_chronological(start: Epoch, span: int, steps: int, i: int, j: int)
    requires
        0 < steps,
        0 <= span,
        start.tai_nanos + span <= i128::MAX,
        0 <= i <= j < steps,
    ensures
        sample_epoch(start, span, steps, 0) == start,
        sample_epoch(start, span, steps, i).tai_nanos == start.tai_nanos + i * (span / steps),
        sample_epoch(start, span, steps, i).tai_nanos <= sample_epoch(
            start,
            span,
            steps,
            j,
        ).tai_nanos,
        sample_epoch(start, span, steps, j).tai_nanos + span / steps <= start.tai_nanos + span,
{
    let step = span / steps;
    assert(0 <= step && steps * step <= span) by (nonlinear_arith)
        requires
            0 <= span,
            0 < steps,
            step == span / steps,
    ;
    assert(0 <= i * step <= j * step && j * step + step <= steps * step) by (nonlinear_arith)
        requires
            0 <= i <= j < steps,
            0 <= step,
    ;
}

/// A planned trajectory has one sample for each step asked for, unless the
/// target is the Sun, whose trajectory is empty; its samples all ask for the
/// target, in one common frame, and come in the order of time, none before
/// the start of the range.
pub proof fn lemma_trajectory_samples(
    target_body: CelestialBodyId,
    central_body: CelestialBodyId,
    start: Epoch,
    end: Option<Epoch>,
    steps: usize,
    catalog: Seq<CelestialBody>,
    i: int,
    j: int,
)
    requires
        trajectory(target_body, central_body, start, end, steps, catalog) is Ok,
        0 <= i <= j < trajectory(
            target_body,
            central_body,
            start,
            end,
            steps,
            catalog,
        )->Ok_0.samples.len(),
    ensures
        ({
            let plan = trajectory(target_body, central_body, start, end, steps, catalog)->Ok_0;
            &&& target_body != CelestialBodyId::Sun
            &&& plan.samples.len() == steps
            &&& plan.samples[i].target == target_body
            &&& plan.samples[i].center == plan.samples[j].center
            &&& plan.samples[0].epoch == start
            &&& start.tai_nanos <= plan.samples[i].epoch.tai_nanos
            &&& plan.samples[i].epoch.tai_nanos <= plan.samples[j].epoch.tai_nanos
        }),
{
    let stop = trajectory_end(target_body, start, end)->Some_0;
    let span = Epoch::span(start, stop)->Some_0 as int;
    lemma_samples_are_chronological(start, span, steps as int, 0, i);
    lemma_samples_are_chronological(start, span, steps as int, i, j);
}

/// The answer to the origin query, where there was such a query and it was
/// answered.
pub open spec fn answered_origin(
    origin: Option<Result<EphemerisPosition, EngineError>>,
) -> Option<EphemerisPosition> {
    match origin {
        Some(Ok(from)) => Some(from),
        _ => None,
    }
}

/// Whether sample `i` is the first of `samples` that failed.
pub open spec fn first_failure_at(
    samples: Seq<Result<EphemerisPosition, EngineError>>,
    i: int,
) -> bool {
    &&& 0 <= i < samples.len()
    &&& samples[i] is Err
    &&& forall|j: int| 0 <= j < i ==> (#[trigger] samples[j]) is Ok
}

/// Whether every query that was made was answered.
pub open spec fn all_answered(
    origin: Option<Result<EphemerisPosition, EngineError>>,
    samples: Seq<Result<EphemerisPosition, EngineError>>,
) -> bool {
    &&& !(origin matches Some(Err(_)))
    &&& forall|i: int| 0 <= i < samples.len() ==> (#[trigger] samples[i]) is Ok
}

/// Whether `failure` is the failure that decides: that of the origin query,
/// or, where the origin query did not fail, the first among the samples.
pub open spec fn deciding_failure(
    origin: Option<Result<EphemerisPosition, EngineError>>,
    samples: Seq<Result<EphemerisPosition, EngineError>>,
    failure: EngineError,
) -> bool {
    match origin {
        Some(Err(e)) => failure == e,
        _ => exists|i: int| #[trigger] first_failure_at(samples, i) && samples[i] == Err::<
            EphemerisPosition,
            EngineError,
        >(failure),
    }
}

/// What is to be done next for a plan.
#[derive(Debug, Clone, Copy, PartialEq, Eq, Hash, Structural)]
pub enum NextStep {
    /// The origin query is to be put to the ephemeris.
    AskOrigin(StateQuery),
    /// The next sample is to be put to the ephemeris.
    AskSample(StateQuery),
    /// Nothing more is to be asked: every query was answered, or one failed.
    Done,
}

/// What is to be done next for `plan` once `origin` and `samples` hold the
/// answers so far: the origin query first, where the plan has one, then the
/// samples in their order. After a failure nothing more is asked.
pub open spec fn step_after(
    plan: TrajectoryPlanView,
    origin: Option<Result<EphemerisPosition, EngineError>>,
    samples: Seq<Result<EphemerisPosition, EngineError>>,
) -> NextStep {
    if plan.origin is Some && origin is None {
        NextStep::AskOrigin(plan.origin->Some_0)
    } else if !all_answered(origin, samples) {
        NextStep::Done
    } else if samples.len() < plan.samples.len() {
        NextStep::AskSample(plan.samples[samples.len() as int])
    } else {
        NextStep::Done
    }
}

/// Once a query has failed nothing more is asked, and what is asked is always
/// the query that follows the answers held.
pub proof fn lemma_nothing_is_asked_after_a_failure(
    plan: TrajectoryPlanView,
    origin: Option<Result<EphemerisPosition, EngineError>>,
    samples: Seq<Result<EphemerisPosition, EngineError>>,
)
    ensures
        (origin matches Some(Err(_))) ==> step_after(plan, origin, samples) == NextStep::Done,
        (exists|i: int| first_failure_at(samples, i)) && (plan.origin is Some ==> origin is Some)
            ==> step_after(plan, origin, samples) == NextStep::Done,
        step_after(plan, origin, samples) matches NextStep::AskSample(query) ==> samples.len()
            < plan.samples.len() && query == plan.samples[samples.len() as int] && all_answered(
            origin,
            samples,
        ),
        step_after(plan, origin, samples) matches NextStep::AskOrigin(query) ==> plan.origin
            == Some(query) && origin is None,
{
}

/// The points of a trajectory whose queries were all answered, in the
/// equatorial frame in which they were asked for.
pub open spec fn trajectory_points(
    origin: Option<EphemerisPosition>,
    samples: Seq<Result<EphemerisPosition, EngineError>>,
) -> Seq<Position> {
    Seq::new(samples.len(), |i: int| relative_position(samples[i]->Ok_0, origin))
}

/// The positions drawn from queries that were all answered, turned into the
/// ecliptic frame of `central_body`.
pub open spec fn ecliptic_points(
    origin: Option<EphemerisPosition>,
    samples: Seq<Result<EphemerisPosition, EngineError>>,
    central_body: CelestialBodyId,
) -> Seq<Position> {
    Seq::new(
        samples.len(),
        |i: int|
            rotated(
                relative_position(samples[i]->Ok_0, origin),
                axial_tilt_cosine(central_body),
                axial_tilt_sine(central_body),
            ),
    )
}

/// At most one failure decides, and one does exactly when not every query
/// was answered.
pub proof fn lemma_one_failure_decides(
    origin: Option<Result<EphemerisPosition, EngineError>>,
    samples: Seq<Result<EphemerisPosition, EngineError>>,
    first: EngineError,
    second: EngineError,
)
    ensures
        deciding_failure(origin, samples, first) ==> !all_answered(origin, samples),
        deciding_failure(origin, samples, first) && deciding_failure(origin, samples, second)
            ==> first == second,
        !all_answered(origin, samples) ==> exists|e: EngineError| #[trigger]
            deciding_failure(origin, samples, e),
{
    if let Some(Err(e)) = origin {
        assert(deciding_failure(origin, samples, e));
    } else {
        if deciding_failure(origin, samples, first) {
            let i = choose|i: int| #[trigger]
                first_failure_at(samples, i) && samples[i] == Err::<
                    EphemerisPosition,
                    EngineError,
                >(first);
            if deciding_failure(origin, samples, second) {
                let j = choose|j: int| #[trigger]
                    first_failure_at(samples, j) && samples[j] == Err::<
                        EphemerisPosition,
                        EngineError,
                    >(second);
                if i < j {
                    assert(samples[i] is Ok);
                } else if j < i {
                    assert(samples[j] is Ok);
                }
            }
        }
        if !all_answered(origin, samples) {
            lemma_first_failure(samples, samples.len() as int);
            let i = choose|i: int| first_failure_at(samples, i);
            assert(deciding_failure(origin, samples, samples[i]->Err_0));
        }
    }
}

/// Among the first `n` samples one failed first, unless all were answered.
proof fn lemma_first_failure(samples: Seq<Result<EphemerisPosition, EngineError>>, n: int)
    requires
        0 <= n <= samples.len(),
    ensures
        (forall|j: int| 0 <= j < n ==> (#[trigger] samples[j]) is Ok) || exists|i: int|
            i < n && first_failure_at(samples, i),
    decreases n,
{
    if n > 0 {
        lemma_first_failure(samples, n - 1);
        if forall|j: int| 0 <= j < n - 1 ==> (#[trigger] samples[j]) is Ok {
            if samples[n - 1] is Err {
                assert(first_failure_at(samples, n - 1));
            }
        } else {
            let i = choose|i: int| i < n - 1 && first_failure_at(samples, i);
            assert(i < n && first_failure_at(samples, i));
        }
    }
}

/// The trajectory drawn from the answers to the queries of a plan: one point
/// for each sample, in the order of the samples, each as seen from the
/// answer to the origin query where the plan has one. The points are in the
/// equatorial frame in which they were asked for.
///
/// A trajectory is whole or it is not returned: the failure of the origin
/// query, or else the first failure among the samples, is the failure of the
/// trajectory. Answers that follow the first failure are not looked at.
pub fn assemble_trajectory(
    origin: Option<Result<EphemerisPosition, EngineError>>,
    samples: &Vec<Result<EphemerisPosition, EngineError>>,
) -> (result: Result<Vec<Position>, EngineError>)
    ensures
        result is Ok <==> all_answered(origin, samples@),
        result matches Ok(points) ==> points@ == trajectory_points(
            answered_origin(origin),
            samples@,
        ),
        result matches Err(e) ==> deciding_failure(origin, samples@, e),
{
    let from = match origin {
        None => None,
        Some(Ok(from)) => Some(from),
        Some(Err(e)) => {
            return Err(e);
        },
    };
    let mut points: Vec<Position> = Vec::new();
    let mut i: usize = 0;
    while i < samples.len()
        invariant
            i <= samples.len(),
            points@.len() == i,
            !(origin matches Some(Err(_))),
            forall|j: int| 0 <= j < i ==> (#[trigger] samples@[j]) is Ok,
            forall|j: int|
                0 <= j < i ==> points@[j] == relative_position(samples@[j]->Ok_0, from),
        decreases samples.len() - i,
    {
        match samples[i] {
            Ok(answer) => {
                points.push(to_display_from(answer, from));
            },
            Err(e) => {
                assert(first_failure_at(samples@, i as int));
                return Err(e);
            },
        }
        i += 1;
    }
    Ok(points)
}

/// The positions that the display is handed: those that
/// [`assemble_trajectory`] draws from the answers, each turned into the
/// ecliptic frame of `central_body`. The answers may be those of a trajectory
/// or those for the bodies that are shown together.
pub fn ecliptic_positions(
    origin: Option<Result<EphemerisPosition, EngineError>>,
    samples: &Vec<Result<EphemerisPosition, EngineError>>,
    central_body: CelestialBodyId,
) -> (result: Result<Vec<Position>, EngineError>)
    ensures
        result is Ok <==> all_answered(origin, samples@),
        result matches Ok(points) ==> points@ == ecliptic_points(
            answered_origin(origin),
            samples@,
            central_body,
        ),
        result matches Err(e) ==> deciding_failure(origin, samples@, e),
{
    let equatorial = match assemble_trajectory(origin, samples) {
        Ok(points) => points,
        Err(e) => {
            return Err(e);
        },
    };
    let ghost from = answered_origin(origin);
    let mut points: Vec<Position> = Vec::new();
    let mut i: usize = 0;
    while i < equatorial.len()
        invariant
            i <= equatorial.len(),
            equatorial@ == trajectory_points(from, samples@),
            points@.len() == i,
            forall|j: int|
                0 <= j < i ==> points@[j] == rotated(
                    equatorial@[j],
                    axial_tilt_cosine(central_body),
                    axial_tilt_sine(central_body),
                ),
        decreases equatorial.len() - i,
    {
        let point = equatorial[i];
        proof {
            lemma_relative_position_within_reach(samples@[i as int]->Ok_0, from);
        }
        points.push(
            rotate_within_reach(
                point,
                get_axial_tilt_cosine(central_body),
                get_axial_tilt_sine(central_body),
            ),
        );
        i += 1;
    }
    Ok(points)
}

} // verus!
