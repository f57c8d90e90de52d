//! How the three encoded inputs of a call become the values the joint works
//! on: each is decoded on its own, and the first one that fails fails the call.
use vstd::prelude::*;

verus! {

/// The decoder's error. Carried through unchanged, never inspected.
#[verifier::external_type_specification]
#[verifier::external_body]
pub struct ExJsonError(serde_json::Error);

/// Which of the three inputs of a call a failure concerns.
#[derive(Clone, Copy, Debug, PartialEq, Eq, Structural)]
pub enum InputSlot {
    SelfState,
    ConnectedState,
    Config,
}

/// Why one input could not be read.
#[derive(Debug)]
pub enum InputFault {
    /// No input was supplied.
    Absent,
    /// The input is not valid UTF-8 text.
    NotText,
    /// The text does not decode into the expected structure: malformed, a
    /// required field missing, or a field of the wrong type.
    Malformed(serde_json::Error),
}

/// A failed call: the first input that could not be read, and why.
#[derive(Debug)]
pub struct CallError {
    pub slot: InputSlot,
    pub fault: InputFault,
}

/// Joins the outcomes of reading the three inputs. The call proceeds only when
/// all three were read; otherwise it fails with the first fault, in the order
/// self state, connected state, configuration, and never with a default value.
pub fn gather<S, C>(
    self_state: Result<S, InputFault>,
    connected_state: Result<S, InputFault>,
    config: Result<C, InputFault>,
) -> (r: Result<(S, S, C), CallError>)
    ensures
        r is Ok <==> (self_state is Ok && connected_state is Ok && config is Ok),
        r is Ok ==> r->Ok_0 == (self_state->Ok_0, connected_state->Ok_0, config->Ok_0),
        self_state is Err ==> r == Err::<(S, S, C), CallError>(
            CallError { slot: InputSlot::SelfState, fault: self_state->Err_0 },
        ),
        self_state is Ok && connected_state is Err ==> r == Err::<(S, S, C), CallError>(
            CallError { slot: InputSlot::ConnectedState, fault: connected_state->Err_0 },
        ),
        self_state is Ok && connected_state is Ok && config is Err ==> r == Err::<
            (S, S, C),
            CallError,
        >(CallError { slot: InputSlot::Config, fault: config->Err_0 }),
{
    match self_state {
        Err(fault) => Err(CallError { slot: InputSlot::SelfState, fault }),
        Ok(a) => match connected_state {
            Err(fault) => Err(CallError { slot: InputSlot::ConnectedState, fault }),
            Ok(b) => match config {
                Err(fault) => Err(CallError { slot: InputSlot::Config, fault }),
                Ok(c) => Ok((a, b, c)),
            },
        },
    }
}

} // verus!
