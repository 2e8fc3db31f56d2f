//! The lifecycle state machine of one deployment attempt.
//!
//! A [`Bootstrapper`] owns the not-yet-built service slot, the one-shot
//! builder slot, and the execution runtime of a deployment attempt, and
//! sequences construction then binding: `Unbuilt → Building → Built →
//! Bound`, each step at most once. A failed build leaves the machine
//! `Dead`; a consumed builder slot is never refilled, so the builder can
//! never run twice.
//!
//! The builder itself is asynchronous host code; the host runs it when
//! [`Bootstrapper::begin_bootstrap`] says so and hands its outcome to
//! [`Bootstrapper::finish_bootstrap`]. The spec-level transition function
//! [`next_stage`] is what every transition is proved against.

use vstd::prelude::*;

use crate::bind::Address;
use crate::error::Error;
use tokio::runtime::Runtime;

verus! {

/// Where a deployment attempt stands.
#[derive(Clone, Copy, Debug, PartialEq, Eq, Structural)]
pub enum Stage {
    /// The builder slot is full and no service exists yet.
    Unbuilt,
    /// The builder slot has been consumed and its outcome is pending.
    Building,
    /// A built service is held and has not been taken for binding.
    Built,
    /// The service has been taken and the serve task owns it.
    Bound,
    /// The build failed; the attempt is over and must not be reused.
    Dead,
}

/// What happened to a deployment attempt.
pub enum LifecycleEvent {
    /// The builder slot was consumed.
    BeginBuild,
    /// The builder ran and produced a service.
    BuildSucceeded,
    /// The builder ran and failed.
    BuildFailed,
    /// The built service was taken for binding.
    TakeService,
}

/// The lifecycle machine: the stage an event moves the attempt to. An event
/// that is not valid in the current stage moves nothing.
pub open spec fn next_stage(s: Stage, e: LifecycleEvent) -> Stage {
    match (s, e) {
        (Stage::Unbuilt, LifecycleEvent::BeginBuild) => Stage::Building,
        (Stage::Building, LifecycleEvent::BuildSucceeded) => Stage::Built,
        (Stage::Building, LifecycleEvent::BuildFailed) => Stage::Dead,
        (Stage::Built, LifecycleEvent::TakeService) => Stage::Bound,
        (_, _) => s,
    }
}

/// Everything [`Bootstrapper::into_handle`] hands on for the serve task: the
/// built service, the address it must bind to, and the runtime the task must
/// be spawned on — the bootstrapper's own runtime, whose lifetime the host
/// then extends past the task.
pub struct BindPlan<S> {
    pub service: S,
    pub addr: Address,
    pub runtime: Runtime,
}

/// The orchestration record of one deployment attempt.
pub struct Bootstrapper<S> {
    stage: Stage,
    service: Option<S>,
    runtime: Runtime,
}

impl<S> Bootstrapper<S> {
    /// Where this attempt stands.
    pub closed spec fn stage(&self) -> Stage {
        self.stage
    }

    /// The service held for binding, if the attempt has reached `Built`.
    pub closed spec fn service_view(&self) -> Option<S> {
        self.service
    }

    /// The runtime this attempt owns.
    pub closed spec fn runtime_view(&self) -> Runtime {
        self.runtime
    }

    /// A service is held exactly in the `Built` stage.
    pub closed spec fn wf(&self) -> bool {
        self.stage is Built <==> self.service is Some
    }

    /// A fresh attempt: builder slot full, no service, owning the given
    /// runtime for everything built during this deployment.
    pub fn new(runtime: Runtime) -> (b: Self)
        ensures
            b.wf(),
            b.stage() == Stage::Unbuilt,
            b.service_view() is None,
            b.runtime_view() == runtime,
    {
        Bootstrapper { stage: Stage::Unbuilt, service: None, runtime }
    }

    /// The decision step of bootstrapping: consume the builder slot.
    ///
    /// Returns whether the host must now run the builder. The slot is full
    /// only in `Unbuilt` and is never refilled, so over the whole life of an
    /// attempt this returns `true` at most once: the builder never runs
    /// twice, and a repeated bootstrap call moves nothing.
    pub fn begin_bootstrap(&mut self) -> (run: bool)
        requires
            old(self).wf(),
        ensures
            final(self).wf(),
            run == (old(self).stage() is Unbuilt),
            final(self).stage() == next_stage(old(self).stage(), LifecycleEvent::BeginBuild),
            final(self).service_view() == old(self).service_view(),
            final(self).runtime_view() == old(self).runtime_view(),
    {
        if self.stage == Stage::Unbuilt {
            self.stage = Stage::Building;
            true
        } else {
            false
        }
    }

    /// Record what the builder produced.
    ///
    /// A produced service is stored and the attempt is `Built`; a build
    /// failure is propagated unchanged and the attempt is `Dead`, never to
    /// be retried.
    pub fn finish_bootstrap(&mut self, outcome: Result<S, Error>) -> (r: Result<(), Error>)
        requires
            old(self).wf(),
            old(self).stage() is Building,
        ensures
            final(self).wf(),
            final(self).runtime_view() == old(self).runtime_view(),
            outcome matches Ok(s) ==> {
                &&& final(self).stage() == next_stage(old(self).stage(), LifecycleEvent::BuildSucceeded)
                &&& final(self).service_view() == Some(s)
                &&& r is Ok
            },
            outcome matches Err(e) ==> {
                &&& final(self).stage() == next_stage(old(self).stage(), LifecycleEvent::BuildFailed)
                &&& final(self).service_view() is None
                &&& r == Err::<(), Error>(e)
            },
    {
        match outcome {
            Ok(s) => {
                self.service = Some(s);
                self.stage = Stage::Built;
                Ok(())
            },
            Err(e) => {
                self.stage = Stage::Dead;
                Err(e)
            },
        }
    }

    /// Take the built service for binding.
    ///
    /// Valid only in `Built`: the host must check [`Bootstrapper::is_built`]
    /// first and fail loudly itself on misuse. The attempt is consumed —
    /// the spec-level stage after this step is `Bound` and no further step
    /// exists — and the plan carries the service, the target address and
    /// this attempt's own runtime out for the serve task.
    pub fn into_handle(self, addr: Address) -> (plan: BindPlan<S>)
        requires
            self.wf(),
            self.stage() is Built,
        ensures
            Some(plan.service) == self.service_view(),
            plan.addr == addr,
            plan.runtime == self.runtime_view(),
            next_stage(self.stage(), LifecycleEvent::TakeService) == Stage::Bound,
    {
        let Bootstrapper { stage: _, service, runtime } = self;
        match service {
            Some(s) => BindPlan { service: s, addr, runtime },
            None => vstd::pervasive::unreached(),
        }
    }

    /// Whether a built service is held, i.e. whether taking it is valid.
    pub fn is_built(&self) -> (b: bool)
        ensures
            b == (self.stage() is Built),
    {
        self.stage == Stage::Built
    }

    /// Where this attempt stands, for the host's own checks and reporting.
    pub fn current_stage(&self) -> (s: Stage)
        ensures
            s == self.stage(),
    {
        self.stage
    }

    /// The runtime this attempt owns, lent out so the builder can create
    /// runtime-pinned resources on it.
    pub fn runtime(&self) -> (rt: &Runtime)
        ensures
            *rt == self.runtime_view(),
    {
        &self.runtime
    }
}

/// The lifecycle is linear and one-shot: bootstrapping then taking the
/// service walks `Unbuilt → Building → Built → Bound`; a begin step in any
/// other stage moves nothing; and once `Unbuilt` is left no event leads back
/// to it, so the builder slot is consumed at most once and the builder can
/// never run twice.
pub proof fn lemma_lifecycle_once()
    ensures
        next_stage(Stage::Unbuilt, LifecycleEvent::BeginBuild) == Stage::Building,
        next_stage(Stage::Building, LifecycleEvent::BuildSucceeded) == Stage::Built,
        next_stage(Stage::Built, LifecycleEvent::TakeService) == Stage::Bound,
        forall|s: Stage|
            s != Stage::Unbuilt ==> #[trigger] next_stage(s, LifecycleEvent::BeginBuild) == s,
        forall|s: Stage, e: LifecycleEvent|
            s != Stage::Unbuilt ==> #[trigger] next_stage(s, e) != Stage::Unbuilt,
{
}

} // verus!
