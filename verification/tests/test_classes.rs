use can_aerospace_lite::error::CANAerospaceError;
use can_aerospace_lite::types::MessageType;

#[test]
fn classification_round_trips_for_every_valid_identifier() {
    for id in 0..=2031u16 {
        let class = MessageType::from(id);
        assert_eq!(class.id(), Ok(id));
        assert_eq!(class.raw_id(), id);
        assert!(class.is_valid());
        assert_ne!(class, MessageType::INVALID);
    }
}

#[test]
fn every_identifier_above_the_last_class_is_invalid() {
    for id in 2032..=u16::MAX {
        assert_eq!(MessageType::from(id), MessageType::INVALID);
    }
}

#[test]
fn class_bounds_are_the_protocol_ranges() {
    assert_eq!(MessageType::from(0), MessageType::EED(0));
    assert_eq!(MessageType::from(127), MessageType::EED(127));
    assert_eq!(MessageType::from(128), MessageType::NSH(128));
    assert_eq!(MessageType::from(199), MessageType::NSH(199));
    assert_eq!(MessageType::from(200), MessageType::UDH(200));
    assert_eq!(MessageType::from(299), MessageType::UDH(299));
    assert_eq!(MessageType::from(300), MessageType::NOD(300));
    assert_eq!(MessageType::from(1799), MessageType::NOD(1799));
    assert_eq!(MessageType::from(1800), MessageType::UDL(1800));
    assert_eq!(MessageType::from(1899), MessageType::UDL(1899));
    assert_eq!(MessageType::from(1900), MessageType::DSD(1900));
    assert_eq!(MessageType::from(1999), MessageType::DSD(1999));
    assert_eq!(MessageType::from(2000), MessageType::NSL(2000));
    assert_eq!(MessageType::from(2031), MessageType::NSL(2031));
    assert_eq!(MessageType::from(2032), MessageType::INVALID);
    assert_eq!(MessageType::from(0xFFFF), MessageType::INVALID);
}

#[test]
fn accessor_rejects_values_next_to_each_bound() {
    assert_eq!(MessageType::NSH(127).id(), Err(CANAerospaceError::OutOfRange));
    assert_eq!(MessageType::NSH(128).id(), Ok(128));
    assert_eq!(MessageType::NSH(199).id(), Ok(199));
    assert_eq!(MessageType::NSH(200).id(), Err(CANAerospaceError::OutOfRange));
    assert_eq!(MessageType::EED(127).id(), Ok(127));
    assert_eq!(MessageType::EED(128).id(), Err(CANAerospaceError::OutOfRange));
    assert_eq!(MessageType::NSH(50).id(), Err(CANAerospaceError::OutOfRange));
    assert_eq!(MessageType::NSL(0xFFFF).id(), Err(CANAerospaceError::OutOfRange));
    assert!(!MessageType::NSH(50).is_valid());
    assert_eq!(MessageType::NSH(50).raw_id(), 50);
}

#[test]
fn accessor_checks_on_every_call() {
    let class = MessageType::UDL(1799);
    assert_eq!(class.id(), Err(CANAerospaceError::OutOfRange));
    assert_eq!(class.id(), Err(CANAerospaceError::OutOfRange));
}

#[test]
fn invalid_carries_the_sentinel() {
    assert_eq!(MessageType::INVALID.id(), Ok(0xFFFF));
    assert_eq!(MessageType::INVALID.raw_id(), 0xFFFF);
    assert!(MessageType::INVALID.is_valid());
}
