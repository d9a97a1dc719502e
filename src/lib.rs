//! Client side of the commloop protocol: authenticated framing of messages,
//! interpretation of the backend's status byte, and normalisation of the
//! request shapes that feed it.

pub mod frame;
pub mod nudge;
pub mod status;

pub use frame::{authentication_tag, encode, message_body};
pub use nudge::{normalize, ss14_message, Message, Nudge, NudgeOld, NudgeRequest, PostNudgeData};
pub use status::{conclude, interpret, MoMMIError};

use vstd::prelude::*;

verus! {

/// The liveness answer that the HTTP side gives to a plain probe.
pub fn twohundred() -> (r: &'static str)
    ensures
        r@ == "hi BYOND!"@,
{
    "hi BYOND!"
}

} // verus!
