use vstd::prelude::*;

use crate::error::ErrorCode;
use crate::events::{SwitchClosed, SwitchCreated, SwitchDeactivated, SwitchPinged};
use crate::pubkey::Pubkey;
use crate::registry::{disarmed, pinged, SlotKey, SwitchAccount, SwitchAddress, SwitchRegistry};
use crate::switch::{
    expiration_time, is_expired, switch_info, valid_interval, fits_i64, DeadManSwitch, SwitchInfo,
    MAX_DATA_SIZE, MAX_PING_INTERVAL, MIN_PING_INTERVAL,
};

verus! {

/// What the host supplies to `create_switch`: the authenticated caller, who
/// becomes the owner, the trusted current time, and the deposit paid to store
/// the record.
#[derive(Clone, Copy, Debug)]
pub struct CreateSwitch {
    pub owner: Pubkey,
    pub current_time: i64,
    pub lamports: u64,
}

/// What the host supplies to `ping`: the addressed slot, the authenticated
/// caller and the trusted current time.
#[derive(Clone, Copy, Debug)]
pub struct Ping {
    pub switch: SwitchAddress,
    pub owner: Pubkey,
    pub current_time: i64,
}

/// What the host supplies to `check_expiration`; any caller may ask.
#[derive(Clone, Copy, Debug)]
pub struct CheckExpiration {
    pub switch: SwitchAddress,
    pub current_time: i64,
}

/// What the host supplies to `get_switch_info`; any caller may ask.
#[derive(Clone, Copy, Debug)]
pub struct GetSwitchInfo {
    pub switch: SwitchAddress,
    pub current_time: i64,
}

/// What the host supplies to `deactivate_switch`.
#[derive(Clone, Copy, Debug)]
pub struct DeactivateSwitch {
    pub switch: SwitchAddress,
    pub owner: Pubkey,
    pub current_time: i64,
}

/// What the host supplies to `close_switch`.
#[derive(Clone, Copy, Debug)]
pub struct CloseSwitch {
    pub switch: SwitchAddress,
    pub owner: Pubkey,
    pub current_time: i64,
}

/// Why `create_switch` refuses, checked in this order; `None` when it succeeds.
pub open spec fn create_error(
    m: Map<SlotKey, SwitchAccount>,
    owner: Seq<u8>,
    id: u64,
    ping_interval: i64,
    data_len: int,
    now: i64,
) -> Option<ErrorCode> {
    if m.contains_key((owner, id)) {
        Some(ErrorCode::SwitchExists)
    } else if id == 0 {
        Some(ErrorCode::InvalidSwitchId)
    } else if !valid_interval(ping_interval as int) {
        Some(ErrorCode::InvalidInterval)
    } else if data_len > MAX_DATA_SIZE {
        Some(ErrorCode::DataTooLarge)
    } else if data_len == 0 {
        Some(ErrorCode::EmptyData)
    } else if !fits_i64(now + ping_interval) {
        Some(ErrorCode::TimeOverflow)
    } else {
        None
    }
}

/// The account `create_switch` stores.
pub open spec fn created_account(
    ctx: CreateSwitch,
    id: u64,
    ping_interval: i64,
    encrypted_data: Vec<u8>,
) -> SwitchAccount {
    SwitchAccount {
        address: SwitchAddress { owner: ctx.owner, id },
        lamports: ctx.lamports,
        switch: DeadManSwitch {
            owner: ctx.owner,
            last_ping: ctx.current_time,
            ping_interval,
            encrypted_data,
            created_at: ctx.current_time,
            active: true,
        },
    }
}

/// Why `ping` refuses, checked in this order; `None` when it succeeds.
pub open spec fn ping_error(m: Map<SlotKey, SwitchAccount>, ctx: Ping) -> Option<ErrorCode> {
    let k = ctx.switch@;
    if !m.contains_key(k) {
        Some(ErrorCode::SwitchNotFound)
    } else if ctx.owner@ != m[k].switch.owner@ {
        Some(ErrorCode::Unauthorized)
    } else if !m[k].switch.active {
        Some(ErrorCode::InactiveSwitch)
    } else if ctx.current_time <= m[k].switch.last_ping {
        Some(ErrorCode::InvalidTimestamp)
    } else if !fits_i64(ctx.current_time + m[k].switch.ping_interval) {
        Some(ErrorCode::TimeOverflow)
    } else {
        None
    }
}

/// Why `deactivate_switch` refuses, checked in this order; `None` when it succeeds.
pub open spec fn deactivate_error(
    m: Map<SlotKey, SwitchAccount>,
    ctx: DeactivateSwitch,
) -> Option<ErrorCode> {
    let k = ctx.switch@;
    if !m.contains_key(k) {
        Some(ErrorCode::SwitchNotFound)
    } else if ctx.owner@ != m[k].switch.owner@ {
        Some(ErrorCode::Unauthorized)
    } else if !m[k].switch.active {
        Some(ErrorCode::AlreadyInactive)
    } else {
        None
    }
}

/// Why `close_switch` refuses, checked in this order; `None` when it succeeds.
/// A switch may be closed only once its deadline has passed and it has been
/// disarmed.
pub open spec fn close_error(m: Map<SlotKey, SwitchAccount>, ctx: CloseSwitch) -> Option<
    ErrorCode,
> {
    let k = ctx.switch@;
    if !m.contains_key(k) {
        Some(ErrorCode::SwitchNotFound)
    } else if ctx.owner@ != m[k].switch.owner@ {
        Some(ErrorCode::Unauthorized)
    } else if !m[k].switch.deadline_passed(ctx.current_time as int) {
        Some(ErrorCode::NotExpired)
    } else if m[k].switch.active {
        Some(ErrorCode::ActiveSwitch)
    } else {
        None
    }
}

/// Creates a switch in slot `(ctx.owner, id)`, checked in, armed, and holding
/// `encrypted_data` verbatim.
pub fn create_switch(
    registry: &mut SwitchRegistry,
    ctx: &CreateSwitch,
    id: u64,
    ping_interval: i64,
    encrypted_data: Vec<u8>,
) -> (r: Result<SwitchCreated, ErrorCode>)
    requires
        old(registry).wf(),
    ensures
        final(registry).wf(),
        match r {
            Ok(ev) => {
                &&& create_error(
                    old(registry)@,
                    ctx.owner@,
                    id,
                    ping_interval,
                    encrypted_data@.len() as int,
                    ctx.current_time,
                ) is None
                &&& final(registry)@ == old(registry)@.insert(
                    (ctx.owner@, id),
                    created_account(*ctx, id, ping_interval, encrypted_data),
                )
                &&& ev == (SwitchCreated {
                    switch: SwitchAddress { owner: ctx.owner, id },
                    owner: ctx.owner,
                    switch_id: id,
                    ping_interval,
                    expiration_time: (ctx.current_time + ping_interval) as i64,
                    timestamp: ctx.current_time,
                })
            },
            Err(e) => {
                &&& create_error(
                    old(registry)@,
                    ctx.owner@,
                    id,
                    ping_interval,
                    encrypted_data@.len() as int,
                    ctx.current_time,
                ) == Some(e)
                &&& final(registry)@ == old(registry)@
            },
        },
{
    let address = SwitchAddress { owner: ctx.owner, id };
    if registry.get(&address).is_some() {
        return Err(ErrorCode::SwitchExists);
    }
    if id == 0 {
        return Err(ErrorCode::InvalidSwitchId);
    }
    if ping_interval < MIN_PING_INTERVAL || ping_interval > MAX_PING_INTERVAL {
        return Err(ErrorCode::InvalidInterval);
    }
    if encrypted_data.len() > MAX_DATA_SIZE {
        return Err(ErrorCode::DataTooLarge);
    }
    if encrypted_data.is_empty() {
        return Err(ErrorCode::EmptyData);
    }
    let current_time = ctx.current_time;
    let expiration_time = match current_time.checked_add(ping_interval) {
        Some(t) => t,
        None => {
            return Err(ErrorCode::TimeOverflow);
        },
    };
    let switch = DeadManSwitch {
        owner: ctx.owner,
        last_ping: current_time,
        ping_interval,
        encrypted_data,
        created_at: current_time,
        active: true,
    };
    registry.insert(SwitchAccount { address, lamports: ctx.lamports, switch });
    Ok(
        SwitchCreated {
            switch: address,
            owner: ctx.owner,
            switch_id: id,
            ping_interval,
            expiration_time,
            timestamp: current_time,
        },
    )
}

/// Checks in: moves the last check-in of an armed switch forward to
/// `ctx.current_time`, which pushes its deadline to `current_time + ping_interval`.
/// A switch whose deadline has already passed is revived this way.
pub fn ping(registry: &mut SwitchRegistry, ctx: &Ping) -> (r: Result<SwitchPinged, ErrorCode>)
    requires
        old(registry).wf(),
    ensures
        final(registry).wf(),
        match r {
            Ok(ev) => {
                &&& ping_error(old(registry)@, *ctx) is None
                &&& final(registry)@ == old(registry)@.insert(
                    ctx.switch@,
                    pinged(old(registry)@[ctx.switch@], ctx.current_time),
                )
                &&& ev == (SwitchPinged {
                    owner: old(registry)@[ctx.switch@].switch.owner,
                    switch_key: ctx.switch,
                    next_required_ping: (ctx.current_time
                        + old(registry)@[ctx.switch@].switch.ping_interval) as i64,
                    timestamp: ctx.current_time,
                })
            },
            Err(e) => ping_error(old(registry)@, *ctx) == Some(e) && final(registry)@ == old(
                registry,
            )@,
        },
{
    proof { registry.lemma_wf_view(); }
    let switch = match registry.get(&ctx.switch) {
        Some(s) => s,
        None => {
            return Err(ErrorCode::SwitchNotFound);
        },
    };
    if ctx.owner != switch.owner {
        return Err(ErrorCode::Unauthorized);
    }
    if !switch.active {
        return Err(ErrorCode::InactiveSwitch);
    }
    let current_time = ctx.current_time;
    if current_time <= switch.last_ping {
        return Err(ErrorCode::InvalidTimestamp);
    }
    let next_required_ping = match current_time.checked_add(switch.ping_interval) {
        Some(t) => t,
        None => {
            return Err(ErrorCode::TimeOverflow);
        },
    };
    let owner = switch.owner;
    registry.set_last_ping(&ctx.switch, current_time);
    Ok(SwitchPinged { owner, switch_key: ctx.switch, next_required_ping, timestamp: current_time })
}

/// Whether the switch in slot `ctx.switch` is expired at `ctx.current_time`.
pub fn check_expiration(registry: &SwitchRegistry, ctx: &CheckExpiration) -> (r: Result<
    bool,
    ErrorCode,
>)
    requires
        registry.wf(),
    ensures
        match r {
            Ok(b) => registry@.contains_key(ctx.switch@) && b == registry@[ctx.switch@].switch.expired_at(
                ctx.current_time as int,
            ),
            Err(e) => !registry@.contains_key(ctx.switch@) && e == ErrorCode::SwitchNotFound,
        },
{
    match registry.get(&ctx.switch) {
        Some(s) => Ok(is_expired(s, ctx.current_time)),
        None => Err(ErrorCode::SwitchNotFound),
    }
}

/// A snapshot of the switch in slot `ctx.switch` at `ctx.current_time`.
pub fn get_switch_info(registry: &SwitchRegistry, ctx: &GetSwitchInfo) -> (r: Result<
    SwitchInfo,
    ErrorCode,
>)
    requires
        registry.wf(),
    ensures
        match r {
            Ok(info) => registry@.contains_key(ctx.switch@) && info == registry@[ctx.switch@].switch.info_at(
                ctx.current_time as int,
            ),
            Err(e) => !registry@.contains_key(ctx.switch@) && e == ErrorCode::SwitchNotFound,
        },
{
    match registry.get(&ctx.switch) {
        Some(s) => Ok(switch_info(s, ctx.current_time)),
        None => Err(ErrorCode::SwitchNotFound),
    }
}

/// Disarms a switch for good: from then on it never expires.
pub fn deactivate_switch(registry: &mut SwitchRegistry, ctx: &DeactivateSwitch) -> (r: Result<
    SwitchDeactivated,
    ErrorCode,
>)
    requires
        old(registry).wf(),
    ensures
        final(registry).wf(),
        match r {
            Ok(ev) => {
                &&& deactivate_error(old(registry)@, *ctx) is None
                &&& final(registry)@ == old(registry)@.insert(
                    ctx.switch@,
                    disarmed(old(registry)@[ctx.switch@]),
                )
                &&& ev == (SwitchDeactivated { switch: ctx.switch, timestamp: ctx.current_time })
            },
            Err(e) => deactivate_error(old(registry)@, *ctx) == Some(e) && final(registry)@ == old(
                registry,
            )@,
        },
{
    let switch = match registry.get(&ctx.switch) {
        Some(s) => s,
        None => {
            return Err(ErrorCode::SwitchNotFound);
        },
    };
    if ctx.owner != switch.owner {
        return Err(ErrorCode::Unauthorized);
    }
    if !switch.active {
        return Err(ErrorCode::AlreadyInactive);
    }
    registry.set_inactive(&ctx.switch);
    Ok(SwitchDeactivated { switch: ctx.switch, timestamp: ctx.current_time })
}

/// Removes a disarmed switch whose deadline has passed and returns its
/// deposit to the owner.
pub fn close_switch(registry: &mut SwitchRegistry, ctx: &CloseSwitch) -> (r: Result<
    SwitchClosed,
    ErrorCode,
>)
    requires
        old(registry).wf(),
    ensures
        final(registry).wf(),
        match r {
            Ok(ev) => {
                &&& close_error(old(registry)@, *ctx) is None
                &&& final(registry)@ == old(registry)@.remove(ctx.switch@)
                &&& ev == (SwitchClosed {
                    switch: ctx.switch,
                    owner: old(registry)@[ctx.switch@].switch.owner,
                    recovered_lamports: old(registry)@[ctx.switch@].lamports,
                    timestamp: ctx.current_time,
                })
            },
            Err(e) => close_error(old(registry)@, *ctx) == Some(e) && final(registry)@ == old(
                registry,
            )@,
        },
{
    let switch = match registry.get(&ctx.switch) {
        Some(s) => s,
        None => {
            return Err(ErrorCode::SwitchNotFound);
        },
    };
    if ctx.owner != switch.owner {
        return Err(ErrorCode::Unauthorized);
    }
    if ctx.current_time <= expiration_time(switch) {
        return Err(ErrorCode::NotExpired);
    }
    if switch.active {
        return Err(ErrorCode::ActiveSwitch);
    }
    let account = registry.remove(&ctx.switch).unwrap();
    Ok(
        SwitchClosed {
            switch: ctx.switch,
            owner: account.switch.owner,
            recovered_lamports: account.lamports,
            timestamp: ctx.current_time,
        },
    )
}

} // verus!
