//! The service lifecycle state machine: `Init → Started → Running →
//! Draining → Stopped`, with guarded transitions and optional transition
//! callbacks.

use vstd::prelude::*;

verus! {

/// Alias for a `Result` with the error type set to `ServiceError`.
pub type ServiceResult<T> = Result<T, ServiceError>;

/// The possible errors that can occur when working with a service.
#[derive(Debug)]
pub enum ServiceError {
    /// Invalid state transition, carrying the current and the attempted state.
    InvalidStateTransition(ServiceState, ServiceState),
    /// Custom message.
    Message(String),
}

/// All services must implement `ServerService`.
pub trait ServerService {
    /// Get the name of the service.
    fn get_name(&self) -> &str;

    /// Get the count of things to drain.
    fn get_drain_count(&self) -> (r: usize)
        ensures
            r == self.get_drain_count_spec(),
    ;

    /// Return true if drained.
    fn is_drained(&self) -> (r: bool)
        ensures
            r == (self.get_drain_count_spec() == 0),
    ;

    /// The count of things to drain, as the implementor models it.
    spec fn get_drain_count_spec(&self) -> nat;

    /// Start the service: prepare it for running.
    fn start(&mut self) -> ServiceResult<()>;

    /// Run the service.
    fn run(&mut self) -> ServiceResult<()>;

    /// Stop accepting new requests or connections, continue processing
    /// outstanding ones.
    fn drain(&mut self) -> ServiceResult<()>;

    /// Stop the service, closing any requests or connections.
    fn stop(&mut self) -> ServiceResult<()>;
}

/// `ServiceStateTransition` provides notification of a `ServiceState`
/// transition. Each method is called with the current (pre-transition) state,
/// before the state is mutated.
pub trait ServiceStateTransition {
    /// Called before transitioning to `ServiceState::Started`.
    fn will_start(&mut self, state: &ServiceState);

    /// Called before transitioning to `ServiceState::Running`.
    fn will_run(&mut self, state: &ServiceState);

    /// Called before transitioning to `ServiceState::Draining`.
    fn will_drain(&mut self, state: &ServiceState);

    /// Called before transitioning to `ServiceState::Stopped`.
    fn will_stop(&mut self, state: &ServiceState);
}

// Used by the notification-free entry points: a listener that ignores
// every callback.
struct SilentTransition;

impl ServiceStateTransition for SilentTransition {
    fn will_start(&mut self, _state: &ServiceState) {
    }

    fn will_run(&mut self, _state: &ServiceState) {
    }

    fn will_drain(&mut self, _state: &ServiceState) {
    }

    fn will_stop(&mut self, _state: &ServiceState) {
    }
}

/// `ServiceState` is the state of the service.
#[derive(Debug, Copy, Clone, Eq, PartialEq, Structural)]
pub enum ServiceState {
    Init,
    Started,
    Running,
    Draining,
    Stopped,
}

impl Default for ServiceState {
    /// A service begins its life in the `Init` state.
    fn default() -> (r: Self)
        ensures
            r == ServiceState::Init,
    {
        ServiceState::Init
    }
}

/// The position of a state in the lifecycle order
/// `Init, Started, Running, Draining, Stopped`.
pub open spec fn state_index(s: ServiceState) -> int {
    match s {
        ServiceState::Init => 0,
        ServiceState::Started => 1,
        ServiceState::Running => 2,
        ServiceState::Draining => 3,
        ServiceState::Stopped => 4,
    }
}

/// One guarded transition relation: `post` is reachable from `pre` by a
/// single successful `start`, `run`, `drain` or `stop` call.
pub open spec fn lifecycle_step(pre: ServiceState, post: ServiceState) -> bool {
    ||| (pre == ServiceState::Init && post == ServiceState::Started)
    ||| (pre == ServiceState::Started && post == ServiceState::Running)
    ||| (pre == ServiceState::Running && post == ServiceState::Draining)
    ||| (pre != ServiceState::Stopped && post == ServiceState::Stopped)
}

impl ServiceState {
    /// Attempt to transition to the Started state.
    pub fn start(&mut self) -> (r: ServiceResult<()>)
        ensures
            old(self).can_start_spec() ==> r is Ok && *final(self) == ServiceState::Started,
            !old(self).can_start_spec() ==> *final(self) == *old(self) && r == ServiceResult::<()>::Err(
                ServiceError::InvalidStateTransition(*old(self), ServiceState::Started),
            ),
    {
        self.start_with_notification(None::<&mut SilentTransition>)
    }

    /// Attempt to transition to the Started state, signalling the state
    /// transition.
    pub fn start_with_notification<T: ServiceStateTransition>(
        &mut self,
        on_transition: Option<&mut T>,
    ) -> (r: ServiceResult<()>)
        ensures
            old(self).can_start_spec() ==> r is Ok && *final(self) == ServiceState::Started,
            !old(self).can_start_spec() ==> *final(self) == *old(self) && r == ServiceResult::<()>::Err(
                ServiceError::InvalidStateTransition(*old(self), ServiceState::Started),
            ),
    {
        if self.can_start() {
            if let Some(notifier) = on_transition {
                notifier.will_start(self);
            }
            *self = ServiceState::Started;
            Ok(())
        } else {
            Err(ServiceError::InvalidStateTransition(*self, ServiceState::Started))
        }
    }

    /// Attempt to transition to the Running state.
    pub fn run(&mut self) -> (r: ServiceResult<()>)
        ensures
            old(self).can_run_spec() ==> r is Ok && *final(self) == ServiceState::Running,
            !old(self).can_run_spec() ==> *final(self) == *old(self) && r == ServiceResult::<()>::Err(
                ServiceError::InvalidStateTransition(*old(self), ServiceState::Running),
            ),
    {
        self.run_with_notification(None::<&mut SilentTransition>)
    }

    /// Attempt to transition to the Running state, signalling the state
    /// transition.
    pub fn run_with_notification<T: ServiceStateTransition>(
        &mut self,
        on_transition: Option<&mut T>,
    ) -> (r: ServiceResult<()>)
        ensures
            old(self).can_run_spec() ==> r is Ok && *final(self) == ServiceState::Running,
            !old(self).can_run_spec() ==> *final(self) == *old(self) && r == ServiceResult::<()>::Err(
                ServiceError::InvalidStateTransition(*old(self), ServiceState::Running),
            ),
    {
        if self.can_run() {
            if let Some(notifier) = on_transition {
                notifier.will_run(self);
            }
            *self = ServiceState::Running;
            Ok(())
        } else {
            Err(ServiceError::InvalidStateTransition(*self, ServiceState::Running))
        }
    }

    /// Attempt to transition to the Draining state.
    pub fn drain(&mut self) -> (r: ServiceResult<()>)
        ensures
            old(self).can_drain_spec() ==> r is Ok && *final(self) == ServiceState::Draining,
            !old(self).can_drain_spec() ==> *final(self) == *old(self) && r == ServiceResult::<()>::Err(
                ServiceError::InvalidStateTransition(*old(self), ServiceState::Draining),
            ),
    {
        self.drain_with_notification(None::<&mut SilentTransition>)
    }

    /// Attempt to transition to the Draining state, signalling the state
    /// transition.
    pub fn drain_with_notification<T: ServiceStateTransition>(
        &mut self,
        on_transition: Option<&mut T>,
    ) -> (r: ServiceResult<()>)
        ensures
            old(self).can_drain_spec() ==> r is Ok && *final(self) == ServiceState::Draining,
            !old(self).can_drain_spec() ==> *final(self) == *old(self) && r == ServiceResult::<()>::Err(
                ServiceError::InvalidStateTransition(*old(self), ServiceState::Draining),
            ),
    {
        if self.can_drain() {
            if let Some(notifier) = on_transition {
                notifier.will_drain(self);
            }
            *self = ServiceState::Draining;
            Ok(())
        } else {
            Err(ServiceError::InvalidStateTransition(*self, ServiceState::Draining))
        }
    }

    /// Attempt to transition to the Stopped state.
    pub fn stop(&mut self) -> (r: ServiceResult<()>)
        ensures
            old(self).can_stop_spec() ==> r is Ok && *final(self) == ServiceState::Stopped,
            !old(self).can_stop_spec() ==> *final(self) == *old(self) && r == ServiceResult::<()>::Err(
                ServiceError::InvalidStateTransition(*old(self), ServiceState::Stopped),
            ),
    {
        self.stop_with_notification(None::<&mut SilentTransition>)
    }

    /// Attempt to transition to the Stopped state, signalling the state
    /// transition.
    pub fn stop_with_notification<T: ServiceStateTransition>(
        &mut self,
        on_transition: Option<&mut T>,
    ) -> (r: ServiceResult<()>)
        ensures
            old(self).can_stop_spec() ==> r is Ok && *final(self) == ServiceState::Stopped,
            !old(self).can_stop_spec() ==> *final(self) == *old(self) && r == ServiceResult::<()>::Err(
                ServiceError::InvalidStateTransition(*old(self), ServiceState::Stopped),
            ),
    {
        if self.can_stop() {
            if let Some(notifier) = on_transition {
                notifier.will_stop(self);
            }
            *self = ServiceState::Stopped;
            Ok(())
        } else {
            Err(ServiceError::InvalidStateTransition(*self, ServiceState::Stopped))
        }
    }

    /// Only `Init` may transition to `Started`.
    pub open spec fn can_start_spec(&self) -> bool {
        *self == ServiceState::Init
    }

    /// Only `Started` may transition to `Running`.
    pub open spec fn can_run_spec(&self) -> bool {
        *self == ServiceState::Started
    }

    /// Only `Running` may transition to `Draining`.
    pub open spec fn can_drain_spec(&self) -> bool {
        *self == ServiceState::Running
    }

    /// Every state but `Stopped` may transition to `Stopped`.
    pub open spec fn can_stop_spec(&self) -> bool {
        *self != ServiceState::Stopped
    }

    /// Return true if state can transition to Started.
    pub fn can_start(&self) -> (r: bool)
        ensures
            r == self.can_start_spec(),
    {
        *self == ServiceState::Init
    }

    /// Return true if state can transition to Running.
    pub fn can_run(&self) -> (r: bool)
        ensures
            r == self.can_run_spec(),
    {
        *self == ServiceState::Started
    }

    /// Return true if state can transition to Draining.
    pub fn can_drain(&self) -> (r: bool)
        ensures
            r == self.can_drain_spec(),
    {
        *self == ServiceState::Running
    }

    /// Return true if state can transition to Stopped.
    pub fn can_stop(&self) -> (r: bool)
        ensures
            r == self.can_stop_spec(),
    {
        *self != ServiceState::Stopped
    }

    /// Return true if state is running.
    pub fn is_running(&self) -> (r: bool)
        ensures
            r == (*self == ServiceState::Running),
    {
        *self == ServiceState::Running
    }
}

/// Law: the lifecycle is monotonic. Along any successful guarded transition
/// the index of the state in `(Init, Started, Running, Draining, Stopped)`
/// strictly increases, so over any observed sequence of transitions it is
/// non-decreasing; and a refused transition leaves the state unchanged, so
/// it cannot decrease the index either.
pub proof fn lemma_lifecycle_monotonic(pre: ServiceState, post: ServiceState)
    requires
        lifecycle_step(pre, post),
    ensures
        state_index(pre) < state_index(post),
{
}

} // verus!
