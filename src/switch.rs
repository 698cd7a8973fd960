use vstd::prelude::*;

use crate::pubkey::Pubkey;

verus! {

/// Longest allowed ping interval: one year, in seconds.
pub const MAX_PING_INTERVAL: i64 = 365 * 24 * 60 * 60;

/// Shortest allowed ping interval: one minute, in seconds.
pub const MIN_PING_INTERVAL: i64 = 60;

/// Largest payload a switch may hold, in bytes.
pub const MAX_DATA_SIZE: usize = 512;

/// A switch record: an owner, a check-in clock and an opaque payload.
///
/// A record is expired when it is active and the current time is past
/// `last_ping + ping_interval`. Times are signed Unix seconds.
#[derive(Debug)]
pub struct DeadManSwitch {
    pub owner: Pubkey,
    pub last_ping: i64,
    pub ping_interval: i64,
    pub encrypted_data: Vec<u8>,
    pub created_at: i64,
    pub active: bool,
}

/// A read-only snapshot of a switch, as handed to any observer.
#[derive(Clone, Copy, Debug)]
pub struct SwitchInfo {
    pub owner: Pubkey,
    pub expired: bool,
    pub last_ping: i64,
    pub ping_interval: i64,
    pub created_at: i64,
    pub expiration_time: i64,
    pub current_time: i64,
}

pub open spec fn valid_interval(interval: int) -> bool {
    MIN_PING_INTERVAL <= interval <= MAX_PING_INTERVAL
}

pub open spec fn valid_data_len(len: int) -> bool {
    1 <= len <= MAX_DATA_SIZE
}

pub open spec fn fits_i64(x: int) -> bool {
    i64::MIN <= x <= i64::MAX
}

/// The deadline `last + interval`, or `i64::MAX` where that sum has no `i64` value.
pub open spec fn deadline_of(last: int, interval: int) -> int {
    if fits_i64(last + interval) {
        last + interval
    } else {
        i64::MAX as int
    }
}

impl DeadManSwitch {
    /// The invariant every stored record keeps: bounded interval and payload,
    /// a representable deadline, and a last check-in no earlier than creation.
    pub open spec fn wf(&self) -> bool {
        &&& valid_interval(self.ping_interval as int)
        &&& valid_data_len(self.encrypted_data@.len() as int)
        &&& fits_i64(self.last_ping + self.ping_interval)
        &&& self.created_at <= self.last_ping
    }

    /// The time after which an active record is expired.
    pub open spec fn deadline(&self) -> int {
        deadline_of(self.last_ping as int, self.ping_interval as int)
    }

    /// The deadline has passed at `now`, whether or not the record is active.
    pub open spec fn deadline_passed(&self, now: int) -> bool {
        now > self.deadline()
    }

    pub open spec fn expired_at(&self, now: int) -> bool {
        self.active && self.deadline_passed(now)
    }

    pub open spec fn info_at(&self, now: int) -> SwitchInfo {
        SwitchInfo {
            owner: self.owner,
            expired: self.expired_at(now),
            last_ping: self.last_ping,
            ping_interval: self.ping_interval,
            created_at: self.created_at,
            expiration_time: self.deadline() as i64,
            current_time: now as i64,
        }
    }

    /// The payload, exactly as it was stored.
    pub fn get_encrypted_data(&self) -> (r: &[u8])
        ensures
            r@ == self.encrypted_data@,
    {
        self.encrypted_data.as_slice()
    }
}

/// The deadline of a record, saturating at `i64::MAX` where
/// `last_ping + ping_interval` is not representable.
pub fn expiration_time(switch: &DeadManSwitch) -> (r: i64)
    ensures
        r == switch.deadline(),
{
    match switch.last_ping.checked_add(switch.ping_interval) {
        Some(t) => t,
        None => i64::MAX,
    }
}

/// Whether a record is expired at `current_time`: it is active and
/// `current_time` is strictly past its deadline. An inactive record never
/// expires. A deadline that would overflow saturates at `i64::MAX`, which no
/// time is past, so such a record is not expired.
pub fn is_expired(switch: &DeadManSwitch, current_time: i64) -> (r: bool)
    ensures
        r == switch.expired_at(current_time as int),
{
    if !switch.active {
        return false;
    }
    current_time > expiration_time(switch)
}

/// A snapshot of a record at `current_time`; it never fails, the deadline
/// saturating instead.
pub fn switch_info(switch: &DeadManSwitch, current_time: i64) -> (r: SwitchInfo)
    ensures
        r == switch.info_at(current_time as int),
{
    SwitchInfo {
        owner: switch.owner,
        expired: is_expired(switch, current_time),
        last_ping: switch.last_ping,
        ping_interval: switch.ping_interval,
        created_at: switch.created_at,
        expiration_time: expiration_time(switch),
        current_time,
    }
}

} // verus!
