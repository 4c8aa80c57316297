//! An orchestrator of named pipelines, each run on a fixed schedule; a name is
//! registered at most once.
use vstd::prelude::*;

use crate::text::{prefixed, str_equal};
use std::time::Duration;

verus! {

/// The number of whole milliseconds that `std::time::Duration::as_millis`
/// reports for `d`.
pub uninterp spec fn duration_as_millis(d: Duration) -> u128;

/// The duration that `std::time::Duration::from_millis` makes of `ms`.
pub uninterp spec fn millis_duration(ms: u64) -> Duration;

/// Calls `std::time::Duration::from_millis`. The contract claims that the
/// result is the named `millis_duration` of `ms`, and what the documentation
/// says of it: the duration holds exactly `ms` milliseconds, so `as_millis`
/// reports `ms`.
#[verifier::external_body]
pub(crate) fn duration_from_millis(ms: u64) -> (r: Duration)
    ensures
        r == millis_duration(ms),
        duration_as_millis(r) == ms as u128,
{
    Duration::from_millis(ms)
}

/// Calls `std::time::Duration::as_millis`; the result is the named
/// `duration_as_millis` of the duration.
#[verifier::external_body]
fn millis_of(d: &Duration) -> (r: u128)
    ensures
        r == duration_as_millis(*d),
{
    d.as_millis()
}

/// How often a pipeline runs.
#[derive(Clone, Copy, Debug, PartialEq, Eq, Structural)]
pub enum PipelineSchedule {
    FixedMsInterval(u64),
}

impl PipelineSchedule {
    /// The interval between two runs, in milliseconds.
    pub open spec fn millis(self) -> u64 {
        match self {
            PipelineSchedule::FixedMsInterval(ms) => ms,
        }
    }

    pub fn to_duration(&self) -> (r: Duration)
        ensures
            r == millis_duration(self.millis()),
            duration_as_millis(r) == self.millis() as u128,
    {
        match self {
            PipelineSchedule::FixedMsInterval(ms) => duration_from_millis(*ms),
        }
    }

    pub fn is_valid_duration(&self) -> (r: bool)
        ensures
            r == (self.millis() > 0),
    {
        match self {
            PipelineSchedule::FixedMsInterval(ms) => *ms > 0,
        }
    }
}

impl From<Duration> for PipelineSchedule {
    fn from(duration: Duration) -> (r: Self) {
        let ms = millis_of(&duration);
        PipelineSchedule::FixedMsInterval(ms as u64)
    }
}

impl vstd::std_specs::convert::FromSpecImpl<Duration> for PipelineSchedule {
    open spec fn obeys_from_spec() -> bool {
        true
    }

    open spec fn from_spec(duration: Duration) -> PipelineSchedule {
        PipelineSchedule::FixedMsInterval(duration_as_millis(duration) as u64)
    }
}

/// Converting a schedule to a duration and back gives the schedule again.
pub proof fn schedule_duration_round_trip(s: PipelineSchedule, d: Duration)
    requires
        duration_as_millis(d) == s.millis() as u128,
    ensures
        <PipelineSchedule as vstd::std_specs::convert::FromSpec<Duration>>::from_spec(d) == s,
{
}

/// Why a scheduled pipeline could not be made.
#[derive(Debug)]
pub enum ScheduledPipelineError {
    CreationError(String),
}

impl ScheduledPipelineError {
    /// The text this error is shown with.
    pub open spec fn describe(&self) -> Seq<char> {
        match self {
            ScheduledPipelineError::CreationError(m) => "Failed to create scheduled pipeline: "@ + m@,
        }
    }

    pub fn message(&self) -> (r: String)
        ensures
            r@ == self.describe(),
    {
        match self {
            ScheduledPipelineError::CreationError(m) => prefixed(
                "Failed to create scheduled pipeline: ",
                m.as_str(),
            ),
        }
    }
}

/// A scheduled pipeline, as plain values and the pipeline it carries.
pub struct ScheduledView<P> {
    pub name: Seq<char>,
    pub pipeline: P,
    pub schedule: PipelineSchedule,
}

/// A named pipeline with the schedule it runs on.
#[derive(Debug)]
pub struct ScheduledPipeline<P> {
    name: String,
    pipeline: P,
    schedule: PipelineSchedule,
}

impl<P> View for ScheduledPipeline<P> {
    type V = ScheduledView<P>;

    closed spec fn view(&self) -> ScheduledView<P> {
        ScheduledView { name: self.name@, pipeline: self.pipeline, schedule: self.schedule }
    }
}

impl<P> ScheduledPipeline<P> {
    /// Pairs `pipeline` with its name and schedule; a schedule of zero
    /// milliseconds is refused.
    pub fn new(name: String, pipeline: P, schedule: PipelineSchedule) -> (r: Result<
        Self,
        ScheduledPipelineError,
    >)
        ensures
            r is Ok <==> schedule.millis() > 0,
            r is Ok ==> r->Ok_0@ == (ScheduledView { name: name@, pipeline, schedule }),
            r is Err ==> (r->Err_0 matches ScheduledPipelineError::CreationError(m) && m@
                == "Schedule must be greater than zero"@),
    {
        if !schedule.is_valid_duration() {
            return Err(
                ScheduledPipelineError::CreationError(
                    String::from_str("Schedule must be greater than zero"),
                ),
            );
        }
        Ok(ScheduledPipeline { name, pipeline, schedule })
    }

    pub fn name(&self) -> (r: &str)
        ensures
            r@ == self@.name,
    {
        self.name.as_str()
    }

    pub fn pipeline(&self) -> (r: &P)
        ensures
            *r == self@.pipeline,
    {
        &self.pipeline
    }

    pub fn schedule(&self) -> (r: PipelineSchedule)
        ensures
            r == self@.schedule,
    {
        self.schedule
    }

    /// The name, the pipeline and the schedule, taken apart.
    pub fn into_parts(self) -> (r: (String, P, PipelineSchedule))
        ensures
            r.0@ == self@.name,
            r.1 == self@.pipeline,
            r.2 == self@.schedule,
    {
        (self.name, self.pipeline, self.schedule)
    }
}

/// Why the orchestrator refused a request.
#[derive(Debug)]
pub enum OrchestratorError {
    StartError(String),
    ScheduledPipelineError(ScheduledPipelineError),
    DuplicatePipelineName(String),
}

impl OrchestratorError {
    /// The text this error is shown with.
    pub open spec fn describe(&self) -> Seq<char> {
        match self {
            OrchestratorError::StartError(m) => "Failed to start orchestrator: "@ + m@,
            OrchestratorError::ScheduledPipelineError(e) => "Failed to create scheduled pipeline: "@
                + e.describe(),
            OrchestratorError::DuplicatePipelineName(n) => "Duplicate pipeline name: "@ + n@,
        }
    }

    pub fn message(&self) -> (r: String)
        ensures
            r@ == self.describe(),
    {
        match self {
            OrchestratorError::StartError(m) => prefixed("Failed to start orchestrator: ", m.as_str()),
            OrchestratorError::ScheduledPipelineError(e) => {
                let m = e.message();
                prefixed("Failed to create scheduled pipeline: ", m.as_str())
            },
            OrchestratorError::DuplicatePipelineName(n) => prefixed(
                "Duplicate pipeline name: ",
                n.as_str(),
            ),
        }
    }
}

/// The names of the entries, in order.
pub open spec fn entry_names<P>(entries: Seq<ScheduledView<P>>) -> Seq<Seq<char>> {
    entries.map_values(|e: ScheduledView<P>| e.name)
}

/// The entries after registering `entry`: appended when its name is new, else
/// unchanged.
pub open spec fn register<P>(entries: Seq<ScheduledView<P>>, entry: ScheduledView<P>) -> Seq<
    ScheduledView<P>,
> {
    if entry_names(entries).contains(entry.name) {
        entries
    } else {
        entries.push(entry)
    }
}

/// Registering keeps the names distinct.
pub proof fn register_keeps_names_unique<P>(entries: Seq<ScheduledView<P>>, entry: ScheduledView<P>)
    requires
        entry_names(entries).no_duplicates(),
    ensures
        entry_names(register(entries, entry)).no_duplicates(),
{
    if !entry_names(entries).contains(entry.name) {
        let after = entries.push(entry);
        assert(entry_names(after) =~= entry_names(entries).push(entry.name));
        let ns = entry_names(after);
        assert forall|i: int, j: int| 0 <= i < ns.len() && 0 <= j < ns.len() && i != j implies ns[i]
            != ns[j] by {
            if i == ns.len() - 1 {
                assert(entry_names(entries)[j] == ns[j]);
            } else if j == ns.len() - 1 {
                assert(entry_names(entries)[i] == ns[i]);
            }
        }
    }
}

/// Once a name is registered, registering any pipeline under it again changes
/// nothing: the first registration stands.
pub proof fn registered_name_stays_with_first<P>(
    entries: Seq<ScheduledView<P>>,
    first: ScheduledView<P>,
    second: ScheduledView<P>,
)
    requires
        second.name == first.name,
    ensures
        entry_names(register(entries, first)).contains(first.name),
        register(register(entries, first), second) == register(entries, first),
{
    if !entry_names(entries).contains(first.name) {
        let after = entries.push(first);
        assert(entry_names(after) =~= entry_names(entries).push(first.name));
        assert(entry_names(after)[entries.len() as int] == first.name);
    }
}

/// Runs named pipelines on their schedules; no two share a name.
#[derive(Debug)]
pub struct Orchestrator<P> {
    pipelines: Vec<ScheduledPipeline<P>>,
}

impl<P> View for Orchestrator<P> {
    type V = Seq<ScheduledView<P>>;

    closed spec fn view(&self) -> Seq<ScheduledView<P>> {
        self.pipelines@.map_values(|p: ScheduledPipeline<P>| p@)
    }
}

impl<P> Orchestrator<P> {
    #[verifier::type_invariant]
    spec fn names_are_unique(self) -> bool {
        entry_names(self@).no_duplicates()
    }

    pub fn new() -> (r: Self)
        ensures
            r@ == Seq::<ScheduledView<P>>::empty(),
    {
        let r = Orchestrator { pipelines: Vec::new() };
        assert(r@ =~= Seq::<ScheduledView<P>>::empty());
        r
    }

    /// The number of registered pipelines.
    pub fn len(&self) -> (r: usize)
        ensures
            r == self@.len(),
    {
        self.pipelines.len()
    }

    /// The registered pipelines, in the order they were added.
    pub fn pipelines(&self) -> (r: &Vec<ScheduledPipeline<P>>)
        ensures
            r@.map_values(|p: ScheduledPipeline<P>| p@) == self@,
    {
        &self.pipelines
    }

    /// The registered pipelines, in the order they were added, given up.
    pub fn into_pipelines(self) -> (r: Vec<ScheduledPipeline<P>>)
        ensures
            r@.map_values(|p: ScheduledPipeline<P>| p@) == self@,
    {
        let mut pipelines: Vec<ScheduledPipeline<P>> = Vec::new();
        let mut this = self;
        std::mem::swap(&mut pipelines, &mut this.pipelines);
        pipelines
    }

    /// Whether a pipeline of this name is registered.
    pub fn contains_name(&self, name: &str) -> (r: bool)
        ensures
            r == entry_names(self@).contains(name@),
    {
        let n = self.pipelines.len();
        for i in 0..n
            invariant
                n == self.pipelines.len(),
                forall|j: int| 0 <= j < i ==> entry_names(self@)[j] != name@,
        {
            if str_equal(self.pipelines[i].name(), name) {
                assert(entry_names(self@)[i as int] == name@);
                return true;
            }
        }
        false
    }

    /// Registers `scheduled_pipeline` unless its name is taken.
    pub fn add_scheduled_pipeline(&mut self, scheduled_pipeline: ScheduledPipeline<P>) -> (r:
        Result<(), OrchestratorError>)
        ensures
            final(self)@ == register(old(self)@, scheduled_pipeline@),
            r is Ok <==> !entry_names(old(self)@).contains(scheduled_pipeline@.name),
            r is Err ==> (r->Err_0 matches OrchestratorError::DuplicatePipelineName(n) && n@
                == scheduled_pipeline@.name),
            entry_names(final(self)@).no_duplicates(),
    {
        proof {
            use_type_invariant(&*self);
        }
        if self.contains_name(scheduled_pipeline.name()) {
            let name = String::from_str(scheduled_pipeline.name());
            return Err(OrchestratorError::DuplicatePipelineName(name));
        }
        let ghost before = self@;
        let ghost added = scheduled_pipeline@;
        let ghost after = before.push(added);
        let mut pipelines: Vec<ScheduledPipeline<P>> = Vec::new();
        std::mem::swap(&mut pipelines, &mut self.pipelines);
        assert(pipelines@.map_values(|p: ScheduledPipeline<P>| p@) == before);
        pipelines.push(scheduled_pipeline);
        assert(pipelines@.map_values(|p: ScheduledPipeline<P>| p@) =~= after);
        proof {
            register_keeps_names_unique(before, added);
        }
        self.pipelines = pipelines;
        assert(self@ == after);
        Ok(())
    }

    /// Makes a scheduled pipeline and registers it.
    pub fn add_pipeline(&mut self, name: String, pipeline: P, schedule: PipelineSchedule) -> (r:
        Result<(), OrchestratorError>)
        ensures
            schedule.millis() == 0 ==> final(self)@ == old(self)@ && (r matches Err(
                OrchestratorError::ScheduledPipelineError(ScheduledPipelineError::CreationError(m)),
            ) && m@ == "Schedule must be greater than zero"@),
            schedule.millis() > 0 ==> final(self)@ == register(
                old(self)@,
                ScheduledView { name: name@, pipeline, schedule },
            ),
            schedule.millis() > 0 ==> (r is Ok <==> !entry_names(old(self)@).contains(name@)),
            schedule.millis() > 0 && r is Err ==> (r->Err_0 matches OrchestratorError::DuplicatePipelineName(n)
                && n@ == name@),
            entry_names(final(self)@).no_duplicates(),
    {
        proof {
            use_type_invariant(&*self);
        }
        match ScheduledPipeline::new(name, pipeline, schedule) {
            Err(e) => Err(OrchestratorError::ScheduledPipelineError(e)),
            Ok(sp) => self.add_scheduled_pipeline(sp),
        }
    }
}

impl<P> Default for Orchestrator<P> {
    fn default() -> (r: Self)
        ensures
            r@ == Seq::<ScheduledView<P>>::empty(),
    {
        Self::new()
    }
}

} // verus!
