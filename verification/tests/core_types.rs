use ibc_core::context::{block_timestamp, BLOCK_TIME_NANOS, GENESIS_TIMESTAMP_NANOS};
use ibc_core::height::{Height, HeightError};
use ibc_core::identifier::{u64_to_dec, ChainId, ChannelId, ClientId, ConnectionId, PortId};
use ibc_core::timestamp::Timestamp;

#[test]
fn height_ordering_is_lexicographic() {
    let a = Height::new(0, 42).unwrap();
    let b = Height::new(0, 46).unwrap();
    let c = Height::new(1, 1).unwrap();
    assert!(a.lt(&b));
    assert!(b.lt(&c));
    assert!(a.lt(&c));
    assert!(!b.lt(&a));
    assert!(a.le(&a));
    assert_eq!(a.eq_height(&Height::new(0, 42).unwrap()), true);
}

#[test]
fn height_zero_is_rejected() {
    assert_eq!(Height::new(5, 0), Err(HeightError::ZeroHeight));
    assert_eq!(
        Height::new(5, 1),
        Ok(Height {
            revision_number: 5,
            revision_height: 1
        })
    );
}

#[test]
fn height_arithmetic() {
    let h = Height::new(1, 20).unwrap();
    assert_eq!(h.increment(), Height::new(1, 21).unwrap());
    assert_eq!(h.sub(1), Some(Height::new(1, 19).unwrap()));
    assert_eq!(h.sub(19), Some(Height::new(1, 1).unwrap()));
    assert_eq!(h.sub(20), None);
    assert_eq!(Height::min(7), Height::new(7, 1).unwrap());
}

#[test]
fn decimal_rendering() {
    assert_eq!(u64_to_dec(0), "0");
    assert_eq!(u64_to_dec(7), "7");
    assert_eq!(u64_to_dec(46), "46");
    assert_eq!(u64_to_dec(12039), "12039");
    assert_eq!(u64_to_dec(u64::MAX), "18446744073709551615");
}

#[test]
fn client_id_construction() {
    let id = ClientId::new("07-tendermint", 0).unwrap();
    assert_eq!(id.as_str(), "07-tendermint-0");
    let id = ClientId::new("9999-mock", 42).unwrap();
    assert_eq!(id.as_str(), "9999-mock-42");
    // Too short once joined.
    assert!(ClientId::new("a", 1).is_err());
}

#[test]
fn identifier_validation_bounds() {
    assert!(ClientId::from_str("mockclient1").is_ok());
    assert!(ClientId::from_str("short").is_err());
    assert!(PortId::from_str("p34").is_ok());
    assert!(PortId::from_str("p").is_err());
    assert!(PortId::from_str("has space").is_err());
    assert!(ChannelId::from_str("channel-34").is_ok());
    assert!(ChannelId::from_str("chshort").is_err());
    assert!(ConnectionId::from_str("connection-7").is_ok());
    assert!(ConnectionId::from_str("conn").is_err());
    assert_eq!(ChannelId::default().as_str(), "channel-0");
    assert_eq!(PortId::default().as_str(), "defaultPort");
}

#[test]
fn chain_id_canonical_form() {
    let chain = ChainId::new("mockgaiaA".to_string(), 1);
    assert_eq!(chain.as_string(), "mockgaiaA-1");
    assert_eq!(chain.revision_number(), 1);
}

#[test]
fn timestamps_compare_and_advance() {
    let t = Timestamp::from_nanoseconds(1_000);
    let later = t.plus_nanoseconds(500).unwrap();
    assert!(later.after(&t));
    assert!(!t.after(&later));
    assert_eq!(later.nanoseconds(), 1_500);
    assert_eq!(Timestamp::from_nanoseconds(u64::MAX).plus_nanoseconds(1), None);
}

#[test]
fn block_timestamps_are_spaced_by_block_time() {
    let t20 = block_timestamp(20);
    let t21 = block_timestamp(21);
    assert_eq!(t21 - t20, BLOCK_TIME_NANOS);
    assert_eq!(block_timestamp(0), GENESIS_TIMESTAMP_NANOS);
}
