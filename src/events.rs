use vstd::prelude::*;

use crate::pubkey::Pubkey;
use crate::registry::SwitchAddress;

verus! {

/// Emitted when a switch is created.
#[derive(Clone, Copy, Debug)]
pub struct SwitchCreated {
    pub switch: SwitchAddress,
    pub owner: Pubkey,
    pub switch_id: u64,
    pub ping_interval: i64,
    pub expiration_time: i64,
    pub timestamp: i64,
}

/// Emitted when the owner checks in.
#[derive(Clone, Copy, Debug)]
pub struct SwitchPinged {
    pub owner: Pubkey,
    pub switch_key: SwitchAddress,
    pub next_required_ping: i64,
    pub timestamp: i64,
}

/// Emitted when the owner disarms a switch.
#[derive(Clone, Copy, Debug)]
pub struct SwitchDeactivated {
    pub switch: SwitchAddress,
    pub timestamp: i64,
}

/// Emitted when a switch is closed and its deposit returned to the owner.
#[derive(Clone, Copy, Debug)]
pub struct SwitchClosed {
    pub switch: SwitchAddress,
    pub owner: Pubkey,
    pub recovered_lamports: u64,
    pub timestamp: i64,
}

} // verus!
