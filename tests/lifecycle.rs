use rust_mcs_bridge::error::BridgeError;
use rust_mcs_bridge::registry::LiveResults;

#[test]
fn register_then_release_round_trip() {
    let mut live = LiveResults::new();
    assert_eq!(live.register(4096, 6), Ok(()));
    assert!(live.is_live(4096));
    assert_eq!(live.release(4096, 6), Ok(()));
    assert!(!live.is_live(4096));
}

#[test]
fn releasing_twice_is_reported() {
    let mut live = LiveResults::new();
    live.register(77, 3).unwrap();
    assert_eq!(live.release(77, 3), Ok(()));
    assert_eq!(live.release(77, 3), Err(BridgeError::NotLive { key: 77 }));
    assert_eq!(live.release(77, 5), Err(BridgeError::NotLive { key: 77 }));
}

#[test]
fn releasing_with_another_dimension_is_reported() {
    let mut live = LiveResults::new();
    live.register(8, 6).unwrap();
    assert_eq!(
        live.release(8, 5),
        Err(BridgeError::DimensionMismatch { expected: 6, got: 5 })
    );
    assert!(live.is_live(8));
    assert_eq!(live.release(8, 6), Ok(()));
}

#[test]
fn unknown_key_is_not_live() {
    let mut live = LiveResults::new();
    assert_eq!(live.release(1, 1), Err(BridgeError::NotLive { key: 1 }));
}

#[test]
fn registering_a_live_key_or_bad_dimension_is_refused() {
    let mut live = LiveResults::new();
    assert_eq!(live.register(5, 2), Ok(()));
    assert_eq!(live.register(5, 2), Err(BridgeError::AlreadyLive { key: 5 }));
    assert_eq!(live.register(6, 0), Err(BridgeError::UnsupportedDimension { n: 0 }));
    assert_eq!(live.register(6, 16), Err(BridgeError::UnsupportedDimension { n: 16 }));
    assert!(!live.is_live(6));
}

#[test]
fn releasing_one_result_keeps_the_others() {
    let mut live = LiveResults::new();
    live.register(10, 1).unwrap();
    live.register(20, 2).unwrap();
    live.register(30, 3).unwrap();
    assert_eq!(live.release(20, 2), Ok(()));
    assert!(live.is_live(10));
    assert!(!live.is_live(20));
    assert!(live.is_live(30));
    assert_eq!(live.release(30, 3), Ok(()));
    assert_eq!(live.release(10, 1), Ok(()));
}
