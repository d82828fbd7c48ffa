use sol_staking::events::{EventLog, PoolEvent, StakeEvent, UnstakeEvent};
use sol_staking::identity::Identity;

#[test]
fn identity_equality_is_byte_for_byte() {
    let a = Identity { bytes: [5; 32] };
    let b = Identity { bytes: [5; 32] };
    assert!(a.equals(&b));

    let mut bytes = [5; 32];
    bytes[31] = 6;
    let c = Identity { bytes };
    assert!(!a.equals(&c));
}

#[test]
fn only_the_all_zero_identity_is_null() {
    assert!(Identity { bytes: [0; 32] }.is_null());

    let mut bytes = [0; 32];
    bytes[0] = 1;
    assert!(!Identity { bytes }.is_null());
    let mut bytes = [0; 32];
    bytes[31] = 1;
    assert!(!Identity { bytes }.is_null());
}

#[test]
fn event_log_appends_in_order() {
    let user = Identity { bytes: [7; 32] };
    let mut log = EventLog::new();
    assert_eq!(log.len(), 0);
    log.emit(PoolEvent::Stake(StakeEvent { user, amount: 50 }));
    log.emit(PoolEvent::Unstake(UnstakeEvent { user, amount: 20 }));
    assert_eq!(log.len(), 2);
    match log.get(0) {
        PoolEvent::Stake(ev) => {
            assert_eq!(ev.user.bytes, user.bytes);
            assert_eq!(ev.amount, 50);
        }
        _ => panic!("first event should be the stake"),
    }
    match log.get(1) {
        PoolEvent::Unstake(ev) => assert_eq!(ev.amount, 20),
        _ => panic!("second event should be the unstake"),
    }
}
