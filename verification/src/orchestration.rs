//! An orchestrator of unnamed pipelines, each run every so many milliseconds.
use vstd::prelude::*;

use crate::named_orchestration::{duration_as_millis, duration_from_millis, millis_duration};
use crate::text::prefixed;
use std::time::Duration;

verus! {

/// Why a scheduled pipeline could not be made.
#[derive(Debug)]
pub enum ScheduledPipelineError {
    CreationError(String),
}

impl ScheduledPipelineError {
    /// The text this error is shown with.
    pub open spec fn describe(&self) -> Seq<char> {
        match self {
            ScheduledPipelineError::CreationError(m) => "Failed to create scheduled pipeline: "@ + m@,
        }
    }

    pub fn message(&self) -> (r: String)
        ensures
            r@ == self.describe(),
    {
        match self {
            ScheduledPipelineError::CreationError(m) => prefixed(
                "Failed to create scheduled pipeline: ",
                m.as_str(),
            ),
        }
    }
}

/// A pipeline and the interval it runs at, in milliseconds.
pub struct PeriodicView<P> {
    pub pipeline: P,
    pub schedule_millis: u64,
}

/// A pipeline with the interval it runs at.
#[derive(Debug)]
pub struct ScheduledPipeline<P> {
    pipeline: P,
    schedule_millis: u64,
}

impl<P> View for ScheduledPipeline<P> {
    type V = PeriodicView<P>;

    closed spec fn view(&self) -> PeriodicView<P> {
        PeriodicView { pipeline: self.pipeline, schedule_millis: self.schedule_millis }
    }
}

impl<P> ScheduledPipeline<P> {
    /// Pairs `pipeline` with its interval; an interval of zero is refused.
    pub fn new(pipeline: P, schedule_millis: u64) -> (r: Result<Self, ScheduledPipelineError>)
        ensures
            r is Ok <==> schedule_millis > 0,
            r is Ok ==> r->Ok_0@ == (PeriodicView { pipeline, schedule_millis }),
            r is Err ==> (r->Err_0 matches ScheduledPipelineError::CreationError(m) && m@
                == "Schedule must be greater than zero"@),
    {
        if schedule_millis == 0 {
            return Err(
                ScheduledPipelineError::CreationError(
                    String::from_str("Schedule must be greater than zero"),
                ),
            );
        }
        Ok(ScheduledPipeline { pipeline, schedule_millis })
    }

    pub fn pipeline(&self) -> (r: &P)
        ensures
            *r == self@.pipeline,
    {
        &self.pipeline
    }

    pub fn schedule_millis(&self) -> (r: u64)
        ensures
            r == self@.schedule_millis,
    {
        self.schedule_millis
    }

    /// The pipeline and its interval, taken apart.
    pub fn into_parts(self) -> (r: (P, u64))
        ensures
            r.0 == self@.pipeline,
            r.1 == self@.schedule_millis,
    {
        (self.pipeline, self.schedule_millis)
    }

    /// The interval as a duration.
    pub fn schedule(&self) -> (r: Duration)
        ensures
            r == millis_duration(self@.schedule_millis),
            duration_as_millis(r) == self@.schedule_millis as u128,
    {
        duration_from_millis(self.schedule_millis)
    }
}

/// Why the orchestrator refused a request.
#[derive(Debug)]
pub enum OrchestratorError {
    StartError(String),
    ScheduledPipelineError(ScheduledPipelineError),
}

impl OrchestratorError {
    /// The text this error is shown with.
    pub open spec fn describe(&self) -> Seq<char> {
        match self {
            OrchestratorError::StartError(m) => "Failed to start orchestrator: "@ + m@,
            OrchestratorError::ScheduledPipelineError(e) => "Failed to create scheduled pipeline: "@
                + e.describe(),
        }
    }

    pub fn message(&self) -> (r: String)
        ensures
            r@ == self.describe(),
    {
        match self {
            OrchestratorError::StartError(m) => prefixed("Failed to start orchestrator: ", m.as_str()),
            OrchestratorError::ScheduledPipelineError(e) => {
                let m = e.message();
                prefixed("Failed to create scheduled pipeline: ", m.as_str())
            },
        }
    }
}

/// Runs pipelines, each at its own interval.
#[derive(Debug)]
pub struct Orchestrator<P> {
    pipelines: Vec<ScheduledPipeline<P>>,
}

impl<P> View for Orchestrator<P> {
    type V = Seq<PeriodicView<P>>;

    closed spec fn view(&self) -> Seq<PeriodicView<P>> {
        self.pipelines@.map_values(|p: ScheduledPipeline<P>| p@)
    }
}

impl<P> Orchestrator<P> {
    pub fn new() -> (r: Self)
        ensures
            r@ == Seq::<PeriodicView<P>>::empty(),
    {
        let r = Orchestrator { pipelines: Vec::new() };
        assert(r@ =~= Seq::<PeriodicView<P>>::empty());
        r
    }

    /// Adds `pipeline`, to run every `schedule_millis` milliseconds; an
    /// interval of zero is refused and nothing is added.
    pub fn add_pipeline(&mut self, pipeline: P, schedule_millis: u64) -> (r: Result<
        (),
        OrchestratorError,
    >)
        ensures
            r is Ok <==> schedule_millis > 0,
            r is Ok ==> final(self)@ == old(self)@.push(PeriodicView { pipeline, schedule_millis }),
            r is Err ==> final(self)@ == old(self)@ && (r->Err_0 matches OrchestratorError::ScheduledPipelineError(
                ScheduledPipelineError::CreationError(m),
            ) && m@ == "Schedule must be greater than zero"@),
    {
        match ScheduledPipeline::new(pipeline, schedule_millis) {
            Err(e) => Err(OrchestratorError::ScheduledPipelineError(e)),
            Ok(sp) => {
                let ghost before = self@;
                self.pipelines.push(sp);
                assert(self@ =~= before.push(PeriodicView { pipeline, schedule_millis }));
                Ok(())
            },
        }
    }

    /// The pipelines, in the order they were added.
    pub fn pipelines(&self) -> (r: &Vec<ScheduledPipeline<P>>)
        ensures
            r@.map_values(|p: ScheduledPipeline<P>| p@) == self@,
    {
        &self.pipelines
    }

    /// The pipelines, in the order they were added, given up.
    pub fn into_pipelines(self) -> (r: Vec<ScheduledPipeline<P>>)
        ensures
            r@.map_values(|p: ScheduledPipeline<P>| p@) == self@,
    {
        self.pipelines
    }

    /// The number of pipelines.
    pub fn len(&self) -> (r: usize)
        ensures
            r == self@.len(),
    {
        self.pipelines.len()
    }
}

impl<P> Default for Orchestrator<P> {
    fn default() -> (r: Self)
        ensures
            r@ == Seq::<PeriodicView<P>>::empty(),
    {
        Self::new()
    }
}

} // verus!
