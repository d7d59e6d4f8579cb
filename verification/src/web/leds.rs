//! Requests about the status light.

use crate::plugins::led_manager::PinColor;
use vstd::prelude::*;

verus! {

/// A request to give a pin a colour.
#[derive(Clone, Copy, Debug, PartialEq, Eq, Structural)]
pub struct PinUpdatePayload {
    pub pin: u32,
    pub color: PinColor,
}

} // verus!
