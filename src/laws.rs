use vstd::prelude::*;

use crate::error::ErrorCode;
use crate::instructions::{
    close_error, create_error, created_account, deactivate_error, ping_error, CloseSwitch,
    CreateSwitch, DeactivateSwitch, Ping,
};
use crate::pubkey::Pubkey;
use crate::registry::{disarmed, pinged, SlotKey, SwitchAccount, SwitchAddress};
use crate::switch::{fits_i64, valid_data_len, valid_interval, DeadManSwitch};

verus! {

/// Creation with an in-bounds interval and payload succeeds in a free slot
/// (given a positive id and a deadline that fits in an `i64`), and the
/// deadline then reported for the new switch is its creation time plus its
/// interval, whenever it is asked for.
pub proof fn law_create_then_deadline(
    m: Map<SlotKey, SwitchAccount>,
    ctx: CreateSwitch,
    id: u64,
    ping_interval: i64,
    encrypted_data: Vec<u8>,
    query_time: i64,
)
    requires
        !m.contains_key((ctx.owner@, id)),
        id > 0,
        valid_interval(ping_interval as int),
        valid_data_len(encrypted_data@.len() as int),
        fits_i64(ctx.current_time + ping_interval),
    ensures
        create_error(
            m,
            ctx.owner@,
            id,
            ping_interval,
            encrypted_data@.len() as int,
            ctx.current_time,
        ) is None,
        ({
            let s = m.insert(
                (ctx.owner@, id),
                created_account(ctx, id, ping_interval, encrypted_data),
            )[(ctx.owner@, id)].switch;
            s.info_at(query_time as int).expiration_time == s.created_at + ping_interval
        }),
{
}

/// An owner's ping of an armed switch at a time later than its last check-in
/// succeeds (where the new deadline fits in an `i64`), sets the last check-in
/// to that time and moves the deadline to that time plus the interval.
pub proof fn law_ping_advances(m: Map<SlotKey, SwitchAccount>, ctx: Ping)
    requires
        m.contains_key(ctx.switch@),
        ctx.owner@ == m[ctx.switch@].switch.owner@,
        m[ctx.switch@].switch.active,
        ctx.current_time > m[ctx.switch@].switch.last_ping,
        fits_i64(ctx.current_time + m[ctx.switch@].switch.ping_interval),
    ensures
        ping_error(m, ctx) is None,
        ({
            let s = m.insert(ctx.switch@, pinged(m[ctx.switch@], ctx.current_time))[ctx.switch@].switch;
            &&& s.last_ping == ctx.current_time
            &&& s.deadline() == ctx.current_time + s.ping_interval
            &&& s.ping_interval == m[ctx.switch@].switch.ping_interval
        }),
{
}

/// A ping at a time no later than the last check-in is always refused.
pub proof fn law_ping_rejects_stale_time(m: Map<SlotKey, SwitchAccount>, ctx: Ping)
    requires
        m.contains_key(ctx.switch@),
        ctx.current_time <= m[ctx.switch@].switch.last_ping,
    ensures
        ping_error(m, ctx) is Some,
{
}

/// An armed, well-formed switch is not expired at any time up to its
/// deadline `last_ping + ping_interval`, and is expired at every later time.
pub proof fn law_expiry_boundary(s: DeadManSwitch, now: i64)
    requires
        s.wf(),
        s.active,
    ensures
        now <= s.last_ping + s.ping_interval ==> !s.expired_at(now as int),
        now > s.last_ping + s.ping_interval ==> s.expired_at(now as int),
{
}

/// A disarmed switch is never expired, however late the time.
pub proof fn law_disarmed_never_expires(a: SwitchAccount, now: int)
    ensures
        !disarmed(a).switch.expired_at(now),
{
}

/// Closing succeeds exactly when the owner asks for a switch that exists,
/// whose deadline has passed, and which has been disarmed.
pub proof fn law_close_conditions(m: Map<SlotKey, SwitchAccount>, ctx: CloseSwitch)
    ensures
        close_error(m, ctx) is None <==> {
            &&& m.contains_key(ctx.switch@)
            &&& ctx.owner@ == m[ctx.switch@].switch.owner@
            &&& m[ctx.switch@].switch.deadline_passed(ctx.current_time as int)
            &&& !m[ctx.switch@].switch.active
        },
{
}

/// Closing is one-shot: once a close has succeeded and emptied the slot, a
/// second close of the same slot is refused, at any time and by anyone.
pub proof fn law_close_once(m: Map<SlotKey, SwitchAccount>, ctx: CloseSwitch, again: CloseSwitch)
    requires
        close_error(m, ctx) is None,
        again.switch@ == ctx.switch@,
    ensures
        close_error(m.remove(ctx.switch@), again) == Some(ErrorCode::SwitchNotFound),
{
}

/// A caller other than the owner is refused by ping, disarm and close,
/// whatever state the switch is in and whatever the time.
pub proof fn law_unauthorized_rejected(
    m: Map<SlotKey, SwitchAccount>,
    switch: SwitchAddress,
    caller: Pubkey,
    now: i64,
)
    requires
        m.contains_key(switch@),
        caller@ != m[switch@].switch.owner@,
    ensures
        ping_error(m, Ping { switch, owner: caller, current_time: now }) == Some(
            ErrorCode::Unauthorized,
        ),
        deactivate_error(m, DeactivateSwitch { switch, owner: caller, current_time: now }) == Some(
            ErrorCode::Unauthorized,
        ),
        close_error(m, CloseSwitch { switch, owner: caller, current_time: now }) == Some(
            ErrorCode::Unauthorized,
        ),
{
}

} // verus!
