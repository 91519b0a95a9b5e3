//! The negotiation bridge: a synchronous, fallible, two-step acquisition of
//! a bound content surface over an asynchronous, callback-style capability
//! source.
//!
//! Each asynchronous step delivers exactly one completion. The shell blocks
//! on a one-shot rendezvous slot until that completion arrives and then
//! hands it to this module, which interprets it and advances the two-step
//! state machine. The second step can only be taken from a state that the
//! first step's success established, so a failed first step ends the
//! negotiation by itself.

use vstd::prelude::*;

verus! {

/// Why negotiation failed.
#[derive(Clone, Copy, Debug, PartialEq, Eq, Structural)]
pub enum NegotiationError {
    /// The environment step's completion reported an error code.
    EnvironmentUnavailable,
    /// The controller step's completion reported an error code.
    ControllerUnavailable,
    /// A completion reported success but carried no usable object; this is
    /// a hard failure, never retried silently.
    NullResult,
}

/// The environment capability object obtained by the first step. The native
/// object is opaque; the session keeps only its identity.
#[derive(Clone, Copy, Debug, PartialEq, Eq, Structural)]
pub struct Environment {
    pub id: u64,
}

/// The bound content surface obtained by the second step: the handle
/// through which the session reaches the surface's input sink and to which
/// it pushes pixel bounds. The native object is opaque; the session keeps
/// only its identity.
#[derive(Clone, Copy, Debug, PartialEq, Eq, Structural)]
pub struct ContentSurfaceHandle {
    pub id: u64,
}

/// The single completion of one asynchronous acquisition step, as the
/// completion callback reports it: whether the step's error code was
/// success, and the identity of the produced object, if one was produced.
/// Success with no object does occur and must be treated as a hard failure.
#[derive(Clone, Copy, Debug, PartialEq, Eq)]
pub struct StepCompletion {
    pub succeeded: bool,
    pub object: Option<u64>,
}

/// What the environment step returns for a given completion: the error code
/// maps to `EnvironmentUnavailable`, a success without an object to
/// `NullResult`, and a success with an object to that environment.
pub open spec fn environment_result_of(c: StepCompletion) -> Result<
    Environment,
    NegotiationError,
> {
    if !c.succeeded {
        Err(NegotiationError::EnvironmentUnavailable)
    } else {
        match c.object {
            None => Err(NegotiationError::NullResult),
            Some(id) => Ok(Environment { id }),
        }
    }
}

/// What the controller step returns for a given completion; as the
/// environment step, with `ControllerUnavailable` for the error code.
pub open spec fn controller_result_of(c: StepCompletion) -> Result<
    ContentSurfaceHandle,
    NegotiationError,
> {
    if !c.succeeded {
        Err(NegotiationError::ControllerUnavailable)
    } else {
        match c.object {
            None => Err(NegotiationError::NullResult),
            Some(id) => Ok(ContentSurfaceHandle { id }),
        }
    }
}

/// Interprets the completion of the environment step.
pub fn acquire_environment(completion: StepCompletion) -> (r: Result<
    Environment,
    NegotiationError,
>)
    ensures
        r == environment_result_of(completion),
{
    if !completion.succeeded {
        Err(NegotiationError::EnvironmentUnavailable)
    } else {
        match completion.object {
            None => Err(NegotiationError::NullResult),
            Some(id) => Ok(Environment { id }),
        }
    }
}

/// Interprets the completion of the controller step.
pub fn acquire_controller(completion: StepCompletion) -> (r: Result<
    ContentSurfaceHandle,
    NegotiationError,
>)
    ensures
        r == controller_result_of(completion),
{
    if !completion.succeeded {
        Err(NegotiationError::ControllerUnavailable)
    } else {
        match completion.object {
            None => Err(NegotiationError::NullResult),
            Some(id) => Ok(ContentSurfaceHandle { id }),
        }
    }
}

/// Where the two-step negotiation stands.
#[derive(Clone, Copy, Debug, PartialEq, Eq, Structural)]
pub enum NegotiationState {
    /// No step has completed yet.
    Idle,
    /// The first step succeeded; the second may now be taken.
    EnvironmentReady(Environment),
    /// Both steps succeeded.
    Complete(ContentSurfaceHandle),
    /// A step failed; negotiation is over.
    Failed(NegotiationError),
}

/// The state after the environment step completes with `c`, from `Idle`.
pub open spec fn environment_step(c: StepCompletion) -> NegotiationState {
    match environment_result_of(c) {
        Ok(env) => NegotiationState::EnvironmentReady(env),
        Err(e) => NegotiationState::Failed(e),
    }
}

/// The state after the controller step completes with `c`, from
/// `EnvironmentReady`.
pub open spec fn controller_step(c: StepCompletion) -> NegotiationState {
    match controller_result_of(c) {
        Ok(handle) => NegotiationState::Complete(handle),
        Err(e) => NegotiationState::Failed(e),
    }
}

/// Advances the machine on the environment step's completion. Only the
/// initial state admits this step: each step fires exactly once.
pub fn complete_environment(state: &mut NegotiationState, completion: StepCompletion) -> (r:
    Result<Environment, NegotiationError>)
    requires
        *old(state) is Idle,
    ensures
        *final(state) == environment_step(completion),
        r == environment_result_of(completion),
{
    let r = acquire_environment(completion);
    *state = match r {
        Ok(env) => NegotiationState::EnvironmentReady(env),
        Err(e) => NegotiationState::Failed(e),
    };
    r
}

/// Advances the machine on the controller step's completion. The ordering
/// invariant of the bridge is this precondition: the controller step can
/// only ever be taken after the environment step has succeeded.
pub fn complete_controller(state: &mut NegotiationState, completion: StepCompletion) -> (r:
    Result<ContentSurfaceHandle, NegotiationError>)
    requires
        *old(state) is EnvironmentReady,
    ensures
        *final(state) == controller_step(completion),
        r == controller_result_of(completion),
{
    let r = acquire_controller(completion);
    *state = match r {
        Ok(handle) => NegotiationState::Complete(handle),
        Err(e) => NegotiationState::Failed(e),
    };
    r
}

/// The result of a whole negotiation in which the environment step
/// completed with `env_c` and, if that step succeeded, the controller step
/// completed with `ctrl_c`.
pub open spec fn negotiation_result(env_c: StepCompletion, ctrl_c: StepCompletion) -> Result<
    ContentSurfaceHandle,
    NegotiationError,
> {
    match environment_result_of(env_c) {
        Err(e) => Err(e),
        Ok(_) => controller_result_of(ctrl_c),
    }
}

/// Runs the two steps in order over their injected completions: the
/// controller step is reached only when the environment step succeeded.
pub fn negotiate(env_c: StepCompletion, ctrl_c: StepCompletion) -> (r: Result<
    ContentSurfaceHandle,
    NegotiationError,
>)
    ensures
        r == negotiation_result(env_c, ctrl_c),
        environment_result_of(env_c) matches Err(e) ==> r == Err::<
            ContentSurfaceHandle,
            NegotiationError,
        >(e),
{
    let mut state = NegotiationState::Idle;
    match complete_environment(&mut state, env_c) {
        Err(e) => Err(e),
        Ok(_) => complete_controller(&mut state, ctrl_c),
    }
}

/// A failed first step is final: the machine lands in `Failed`, a state
/// from which the controller step cannot be taken, so the second step is
/// never invoked and the negotiation's outcome does not depend on any
/// injected second-step completion.
pub proof fn lemma_step_one_failure_is_final(
    env_c: StepCompletion,
    ctrl_a: StepCompletion,
    ctrl_b: StepCompletion,
)
    requires
        environment_result_of(env_c) is Err,
    ensures
        environment_step(env_c) is Failed,
        !(environment_step(env_c) is EnvironmentReady),
        negotiation_result(env_c, ctrl_a) == negotiation_result(env_c, ctrl_b),
        negotiation_result(env_c, ctrl_a) == Err::<ContentSurfaceHandle, NegotiationError>(
            environment_result_of(env_c)->Err_0,
        ),
{
}

/// One-shot rendezvous slot: carries exactly one completion value from an
/// asynchronous producer to a consumer that blocks until it is there. The
/// slot enforces the exactly-once contract of a completion callback: a
/// second write is detected and refused rather than silently ignored.
pub struct OneShotSlot<T> {
    value: Option<T>,
    fired: bool,
}

/// The protocol fault a one-shot slot detects: its completion fired a
/// second time.
#[derive(Clone, Copy, Debug, PartialEq, Eq, Structural)]
pub enum SlotFault {
    DuplicateCompletion,
}

impl<T> OneShotSlot<T> {
    /// The completion has not fired yet.
    pub closed spec fn is_pending(self) -> bool {
        !self.fired
    }

    /// The completion has fired and its value has not been taken yet.
    pub closed spec fn is_full(self) -> bool {
        self.fired && self.value is Some
    }

    /// The value carried by a full slot.
    pub closed spec fn carried(self) -> T
        recommends
            self.is_full(),
    {
        self.value->0
    }

    /// A fresh slot, awaiting its single completion.
    pub fn new() -> (s: OneShotSlot<T>)
        ensures
            s.is_pending(),
            !s.is_full(),
    {
        OneShotSlot { value: None, fired: false }
    }

    /// Delivers the completion value. Exactly one delivery is accepted: on
    /// a pending slot the value is stored; on any other slot the duplicate
    /// is refused and the slot is left unchanged.
    pub fn complete(&mut self, value: T) -> (r: Result<(), SlotFault>)
        ensures
            old(self).is_pending() ==> {
                &&& r is Ok
                &&& final(self).is_full()
                &&& final(self).carried() == value
            },
            !old(self).is_pending() ==> {
                &&& r == Err::<(), SlotFault>(SlotFault::DuplicateCompletion)
                &&& *final(self) == *old(self)
            },
    {
        if self.fired {
            Err(SlotFault::DuplicateCompletion)
        } else {
            self.value = Some(value);
            self.fired = true;
            Ok(())
        }
    }

    /// Takes the delivered value out, once: `Some` exactly when the slot
    /// was full, after which the slot is neither pending nor full, so no
    /// second take can yield a value.
    pub fn take(&mut self) -> (r: Option<T>)
        ensures
            old(self).is_full() ==> r == Some(old(self).carried()),
            !old(self).is_full() ==> r is None && *final(self) == *old(self),
            !final(self).is_full(),
            !final(self).is_pending() == !old(self).is_pending(),
    {
        if self.fired {
            self.value.take()
        } else {
            None
        }
    }
}

} // verus!
