use dead_mans_switch::error::ErrorCode;
use dead_mans_switch::instructions::{
    check_expiration, close_switch, create_switch, deactivate_switch, get_switch_info, ping,
    CheckExpiration, CloseSwitch, CreateSwitch, DeactivateSwitch, GetSwitchInfo, Ping,
};
use dead_mans_switch::pubkey::Pubkey;
use dead_mans_switch::registry::{SwitchAddress, SwitchRegistry};
use dead_mans_switch::switch::{
    expiration_time, is_expired, switch_info, DeadManSwitch, MAX_DATA_SIZE, MAX_PING_INTERVAL,
    MIN_PING_INTERVAL,
};

fn key(b: u8) -> Pubkey {
    Pubkey::new([b; 32])
}

fn addr(owner: Pubkey, id: u64) -> SwitchAddress {
    SwitchAddress { owner, id }
}

fn create_at(
    reg: &mut SwitchRegistry,
    owner: Pubkey,
    id: u64,
    interval: i64,
    data: Vec<u8>,
    now: i64,
) -> Result<dead_mans_switch::events::SwitchCreated, ErrorCode> {
    let ctx = CreateSwitch { owner, current_time: now, lamports: 4_000_000 };
    create_switch(reg, &ctx, id, interval, data)
}

fn info(reg: &SwitchRegistry, a: SwitchAddress, now: i64) -> dead_mans_switch::switch::SwitchInfo {
    get_switch_info(reg, &GetSwitchInfo { switch: a, current_time: now }).unwrap()
}

fn expired(reg: &SwitchRegistry, a: SwitchAddress, now: i64) -> bool {
    check_expiration(reg, &CheckExpiration { switch: a, current_time: now }).unwrap()
}

#[test]
fn create_reports_deadline_for_bounds_and_sizes() {
    let owner = key(1);
    let cases: [(i64, usize); 4] =
        [(60, 1), (60, 512), (31_536_000, 1), (31_536_000, 512)];
    for (n, (interval, len)) in cases.iter().enumerate() {
        let mut reg = SwitchRegistry::new();
        let now = 1_700_000_000 + n as i64;
        let ev = create_at(&mut reg, owner, 7, *interval, vec![0xAB; *len], now).unwrap();
        assert_eq!(ev.expiration_time, now + interval);
        assert_eq!(ev.timestamp, now);
        assert_eq!(ev.switch_id, 7);
        assert_eq!(ev.ping_interval, *interval);
        assert_eq!(ev.owner, owner);
        assert_eq!(ev.switch, addr(owner, 7));
        let i = info(&reg, addr(owner, 7), now + 5);
        assert_eq!(i.created_at, now);
        assert_eq!(i.last_ping, now);
        assert_eq!(i.expiration_time, i.created_at + interval);
        assert_eq!(i.current_time, now + 5);
        assert!(!i.expired);
        assert_eq!(i.owner, owner);
    }
}

#[test]
fn create_rejects_out_of_bounds_interval_and_payload() {
    let owner = key(2);
    let mut reg = SwitchRegistry::new();
    assert_eq!(
        create_at(&mut reg, owner, 1, 59, vec![1], 1000).unwrap_err(),
        ErrorCode::InvalidInterval
    );
    assert_eq!(
        create_at(&mut reg, owner, 1, 31_536_001, vec![1], 1000).unwrap_err(),
        ErrorCode::InvalidInterval
    );
    assert_eq!(
        create_at(&mut reg, owner, 1, 60, vec![], 1000).unwrap_err(),
        ErrorCode::EmptyData
    );
    assert_eq!(
        create_at(&mut reg, owner, 1, 60, vec![1; 513], 1000).unwrap_err(),
        ErrorCode::DataTooLarge
    );
    assert!(reg.get(&addr(owner, 1)).is_none());
}

#[test]
fn create_rejects_zero_id_overflow_and_taken_slot() {
    let owner = key(3);
    let mut reg = SwitchRegistry::new();
    assert_eq!(
        create_at(&mut reg, owner, 0, 60, vec![1], 1000).unwrap_err(),
        ErrorCode::InvalidSwitchId
    );
    assert_eq!(
        create_at(&mut reg, owner, 1, 60, vec![1], i64::MAX - 59).unwrap_err(),
        ErrorCode::TimeOverflow
    );
    assert!(create_at(&mut reg, owner, 1, 60, vec![1], i64::MAX - 60).is_ok());
    assert_eq!(
        create_at(&mut reg, owner, 1, 120, vec![2], 5).unwrap_err(),
        ErrorCode::SwitchExists
    );
    // The same id under another owner is a different slot.
    assert!(create_at(&mut reg, key(4), 1, 120, vec![2], 5).is_ok());
    // The first switch was left as it was.
    assert_eq!(info(&reg, addr(owner, 1), 0).ping_interval, 60);
}

#[test]
fn constants_match_documented_bounds() {
    assert_eq!(MIN_PING_INTERVAL, 60);
    assert_eq!(MAX_PING_INTERVAL, 31_536_000);
    assert_eq!(MAX_DATA_SIZE, 512);
}

#[test]
fn payload_is_stored_verbatim() {
    let owner = key(5);
    let mut reg = SwitchRegistry::new();
    let data: Vec<u8> = (0..300u32).map(|i| (i * 7 % 256) as u8).collect();
    create_at(&mut reg, owner, 9, 3600, data.clone(), 10).unwrap();
    let s = reg.get(&addr(owner, 9)).unwrap();
    assert_eq!(s.get_encrypted_data(), &data[..]);
    assert_eq!(s.get_encrypted_data().len(), 300);
}

#[test]
fn ping_advances_last_checkin_and_deadline() {
    let owner = key(6);
    let a = addr(owner, 1);
    let mut reg = SwitchRegistry::new();
    create_at(&mut reg, owner, 1, 100, vec![1, 2, 3], 1000).unwrap();
    let ev = ping(&mut reg, &Ping { switch: a, owner, current_time: 1050 }).unwrap();
    assert_eq!(ev.next_required_ping, 1150);
    assert_eq!(ev.timestamp, 1050);
    assert_eq!(ev.owner, owner);
    assert_eq!(ev.switch_key, a);
    let i = info(&reg, a, 1100);
    assert_eq!(i.last_ping, 1050);
    assert_eq!(i.expiration_time, 1150);
    assert_eq!(i.created_at, 1000);
    // A ping after the deadline still revives the switch.
    assert!(expired(&reg, a, 1151));
    ping(&mut reg, &Ping { switch: a, owner, current_time: 5000 }).unwrap();
    assert_eq!(info(&reg, a, 5000).expiration_time, 5100);
    assert!(!expired(&reg, a, 5100));
}

#[test]
fn ping_rejects_same_or_earlier_time() {
    let owner = key(7);
    let a = addr(owner, 1);
    let mut reg = SwitchRegistry::new();
    create_at(&mut reg, owner, 1, 100, vec![1], 1000).unwrap();
    assert_eq!(
        ping(&mut reg, &Ping { switch: a, owner, current_time: 1000 }).unwrap_err(),
        ErrorCode::InvalidTimestamp
    );
    assert_eq!(
        ping(&mut reg, &Ping { switch: a, owner, current_time: 999 }).unwrap_err(),
        ErrorCode::InvalidTimestamp
    );
    assert_eq!(info(&reg, a, 1000).last_ping, 1000);
}

#[test]
fn ping_rejects_disarmed_missing_and_overflowing() {
    let owner = key(8);
    let a = addr(owner, 1);
    let mut reg = SwitchRegistry::new();
    assert_eq!(
        ping(&mut reg, &Ping { switch: a, owner, current_time: 10 }).unwrap_err(),
        ErrorCode::SwitchNotFound
    );
    create_at(&mut reg, owner, 1, 100, vec![1], 0).unwrap();
    assert_eq!(
        ping(&mut reg, &Ping { switch: a, owner, current_time: i64::MAX - 99 }).unwrap_err(),
        ErrorCode::TimeOverflow
    );
    assert_eq!(info(&reg, a, 0).last_ping, 0);
    deactivate_switch(&mut reg, &DeactivateSwitch { switch: a, owner, current_time: 5 }).unwrap();
    assert_eq!(
        ping(&mut reg, &Ping { switch: a, owner, current_time: 10 }).unwrap_err(),
        ErrorCode::InactiveSwitch
    );
}

#[test]
fn expiry_boundary_is_strict() {
    let owner = key(9);
    let a = addr(owner, 1);
    let mut reg = SwitchRegistry::new();
    create_at(&mut reg, owner, 1, 60, vec![1], 1000).unwrap();
    assert!(!expired(&reg, a, 999));
    assert!(!expired(&reg, a, 1000));
    assert!(!expired(&reg, a, 1060));
    assert!(expired(&reg, a, 1061));
    assert!(expired(&reg, a, i64::MAX));
    // Repeated queries at the same time agree.
    assert_eq!(expired(&reg, a, 1060), expired(&reg, a, 1060));
    assert_eq!(expired(&reg, a, 1061), expired(&reg, a, 1061));
    assert!(info(&reg, a, 1061).expired);
    assert!(!info(&reg, a, 1060).expired);
}

#[test]
fn disarmed_switch_never_expires() {
    let owner = key(10);
    let a = addr(owner, 1);
    let mut reg = SwitchRegistry::new();
    create_at(&mut reg, owner, 1, 60, vec![1], 1000).unwrap();
    assert!(expired(&reg, a, 2000));
    let ev =
        deactivate_switch(&mut reg, &DeactivateSwitch { switch: a, owner, current_time: 2000 })
            .unwrap();
    assert_eq!(ev.timestamp, 2000);
    assert_eq!(ev.switch, a);
    assert!(!expired(&reg, a, 2000));
    assert!(!expired(&reg, a, i64::MAX));
    assert!(!info(&reg, a, i64::MAX).expired);
    assert_eq!(
        deactivate_switch(&mut reg, &DeactivateSwitch { switch: a, owner, current_time: 2001 })
            .unwrap_err(),
        ErrorCode::AlreadyInactive
    );
}

#[test]
fn close_needs_expiry_then_disarm() {
    let owner = key(11);
    let a = addr(owner, 1);
    let mut reg = SwitchRegistry::new();
    create_at(&mut reg, owner, 1, 60, vec![1, 2], -100).unwrap();
    ping(&mut reg, &Ping { switch: a, owner, current_time: 0 }).unwrap();
    assert_eq!(
        close_switch(&mut reg, &CloseSwitch { switch: a, owner, current_time: 30 }).unwrap_err(),
        ErrorCode::NotExpired
    );
    assert_eq!(
        close_switch(&mut reg, &CloseSwitch { switch: a, owner, current_time: 61 }).unwrap_err(),
        ErrorCode::ActiveSwitch
    );
    deactivate_switch(&mut reg, &DeactivateSwitch { switch: a, owner, current_time: 61 }).unwrap();
    let ev = close_switch(&mut reg, &CloseSwitch { switch: a, owner, current_time: 61 }).unwrap();
    assert_eq!(ev.recovered_lamports, 4_000_000);
    assert_eq!(ev.owner, owner);
    assert_eq!(ev.switch, a);
    assert_eq!(ev.timestamp, 61);
    assert!(reg.get(&a).is_none());
}

#[test]
fn disarmed_switch_cannot_close_before_deadline() {
    let owner = key(12);
    let a = addr(owner, 1);
    let mut reg = SwitchRegistry::new();
    create_at(&mut reg, owner, 1, 60, vec![1], 0).unwrap();
    deactivate_switch(&mut reg, &DeactivateSwitch { switch: a, owner, current_time: 10 }).unwrap();
    assert_eq!(
        close_switch(&mut reg, &CloseSwitch { switch: a, owner, current_time: 60 }).unwrap_err(),
        ErrorCode::NotExpired
    );
    assert!(close_switch(&mut reg, &CloseSwitch { switch: a, owner, current_time: 61 }).is_ok());
}

#[test]
fn second_close_fails() {
    let owner = key(13);
    let a = addr(owner, 1);
    let mut reg = SwitchRegistry::new();
    create_at(&mut reg, owner, 1, 60, vec![1], 0).unwrap();
    deactivate_switch(&mut reg, &DeactivateSwitch { switch: a, owner, current_time: 1 }).unwrap();
    close_switch(&mut reg, &CloseSwitch { switch: a, owner, current_time: 100 }).unwrap();
    assert_eq!(
        close_switch(&mut reg, &CloseSwitch { switch: a, owner, current_time: 200 }).unwrap_err(),
        ErrorCode::SwitchNotFound
    );
    assert_eq!(
        check_expiration(&reg, &CheckExpiration { switch: a, current_time: 200 }).unwrap_err(),
        ErrorCode::SwitchNotFound
    );
    assert_eq!(
        get_switch_info(&reg, &GetSwitchInfo { switch: a, current_time: 200 }).unwrap_err(),
        ErrorCode::SwitchNotFound
    );
    // The slot is free again.
    assert!(create_at(&mut reg, owner, 1, 60, vec![9], 300).is_ok());
}

#[test]
fn other_callers_are_unauthorized() {
    let owner = key(14);
    let intruder = key(15);
    let a = addr(owner, 1);
    let mut reg = SwitchRegistry::new();
    create_at(&mut reg, owner, 1, 60, vec![1], 0).unwrap();
    for now in [-5i64, 30, 61, 1000] {
        assert_eq!(
            ping(&mut reg, &Ping { switch: a, owner: intruder, current_time: now }).unwrap_err(),
            ErrorCode::Unauthorized
        );
        assert_eq!(
            deactivate_switch(
                &mut reg,
                &DeactivateSwitch { switch: a, owner: intruder, current_time: now }
            )
            .unwrap_err(),
            ErrorCode::Unauthorized
        );
        assert_eq!(
            close_switch(&mut reg, &CloseSwitch { switch: a, owner: intruder, current_time: now })
                .unwrap_err(),
            ErrorCode::Unauthorized
        );
    }
    deactivate_switch(&mut reg, &DeactivateSwitch { switch: a, owner, current_time: 70 }).unwrap();
    assert_eq!(
        close_switch(&mut reg, &CloseSwitch { switch: a, owner: intruder, current_time: 1000 })
            .unwrap_err(),
        ErrorCode::Unauthorized
    );
    assert!(reg.get(&a).is_some());
    assert_eq!(info(&reg, a, 0).last_ping, 0);
}

#[test]
fn deadline_saturates_instead_of_overflowing() {
    let s = DeadManSwitch {
        owner: key(16),
        last_ping: i64::MAX - 10,
        ping_interval: 60,
        encrypted_data: vec![1],
        created_at: 0,
        active: true,
    };
    assert_eq!(expiration_time(&s), i64::MAX);
    assert!(!is_expired(&s, i64::MAX));
    let i = switch_info(&s, 5);
    assert_eq!(i.expiration_time, i64::MAX);
    assert!(!i.expired);
    assert_eq!(i.current_time, 5);
}

#[test]
fn record_level_expiry() {
    let mut s = DeadManSwitch {
        owner: key(17),
        last_ping: 100,
        ping_interval: 60,
        encrypted_data: vec![1, 2],
        created_at: 50,
        active: true,
    };
    assert_eq!(expiration_time(&s), 160);
    assert!(!is_expired(&s, 160));
    assert!(is_expired(&s, 161));
    s.active = false;
    assert!(!is_expired(&s, 161));
    assert_eq!(switch_info(&s, 161).expiration_time, 160);
}

#[test]
fn keys_compare_by_bytes() {
    let mut b = [3u8; 32];
    assert_eq!(Pubkey::new(b), Pubkey::new([3u8; 32]));
    b[31] = 4;
    assert_ne!(Pubkey::new(b), Pubkey::new([3u8; 32]));
    b[31] = 3;
    b[0] = 0;
    assert_ne!(Pubkey::new(b), Pubkey::new([3u8; 32]));
    assert_eq!(Pubkey::new(b).to_bytes(), b);
    assert_ne!(addr(key(1), 1), addr(key(1), 2));
    assert_ne!(addr(key(1), 1), addr(key(2), 1));
    assert_eq!(addr(key(1), 1), addr(key(1), 1));
}

#[test]
fn error_messages() {
    assert_eq!(ErrorCode::NotExpired.message(), "Switch has not expired yet");
    assert_eq!(ErrorCode::ActiveSwitch.message(), "Switch is still active");
    assert_eq!(
        ErrorCode::InvalidInterval.message(),
        "Ping interval must be between 60 seconds and 1 year"
    );
    assert_eq!(ErrorCode::SwitchNotFound.message(), "Switch does not exist");
}
