use can_aerospace_lite::ids::standard::{
    dc_system_current_id, dc_system_voltage_id, engine_status_id, DCSystemCurrentFLOAT,
    DCSystemCurrentSHORT2, DCSystemVoltageFLOAT, DCSystemVoltageSHORT2, EngineStatusBLONG,
    EngineStatusBSHORT,
};
use can_aerospace_lite::ids::standard::{
    BodyLongitudinalAcceleration, BodyLateralAcceleration, BodyNormalAcceleration,
    BodyPitchRate, BodyRollRate, BodyYawRate, BodyPitchAngle, BodyRollAngle, BodySideSlip,
    AltitudeRate, BaroCorrectedAltitude, HeadingAngle, StandardAltitude, HeadingRate,
    TrueAltitude, BodyNormalVelocity, BodyLongitudinalVelocity, BodyLateralVelocity,
    GPSAircraftLatitude, GPSAircraftLongitude, GPSAircraftHeightAboveEllips, GPSGroundSpeed,
    INSAircraftLatitude, INSAircraftLongitude, INSAircraftHeightAboveEllips, INSGroundSpeed,
    MagneticHeading, DecisionHeight, MiscUTC, MiscDate,
};
use can_aerospace_lite::message::CANAerospaceMessage;
use can_aerospace_lite::types::{DataType, MessageType, ServiceCodeEnum};

fn check_plain(message: CANAerospaceMessage, id: u16, data: DataType) {
    assert_eq!(message.message_type, MessageType::NOD(id));
    assert_eq!(message.message_type.id(), Ok(id));
    assert_eq!(message.node_id, 0);
    assert_eq!(message.service_code, ServiceCodeEnum::UNKNOWN);
    assert_eq!(message.message_code, 0);
    assert_eq!(message.data, data);
}

#[test]
fn plain_messages_carry_their_identifier() {
    let data = DataType::FLOAT(1.5f32.to_bits());
    check_plain(BodyLongitudinalAcceleration::create(data), 0x12C, data);
    assert_eq!(BodyLongitudinalAcceleration::ID, 0x12C);
    check_plain(BodyLateralAcceleration::create(data), 0x12D, data);
    assert_eq!(BodyLateralAcceleration::ID, 0x12D);
    check_plain(BodyNormalAcceleration::create(data), 0x12E, data);
    assert_eq!(BodyNormalAcceleration::ID, 0x12E);
    check_plain(BodyPitchRate::create(data), 0x12F, data);
    assert_eq!(BodyPitchRate::ID, 0x12F);
    check_plain(BodyRollRate::create(data), 0x130, data);
    assert_eq!(BodyRollRate::ID, 0x130);
    check_plain(BodyYawRate::create(data), 0x131, data);
    assert_eq!(BodyYawRate::ID, 0x131);
    check_plain(BodyPitchAngle::create(data), 0x137, data);
    assert_eq!(BodyPitchAngle::ID, 0x137);
    check_plain(BodyRollAngle::create(data), 0x138, data);
    assert_eq!(BodyRollAngle::ID, 0x138);
    check_plain(BodySideSlip::create(data), 0x139, data);
    assert_eq!(BodySideSlip::ID, 0x139);
    check_plain(AltitudeRate::create(data), 0x13A, data);
    assert_eq!(AltitudeRate::ID, 0x13A);
    check_plain(BaroCorrectedAltitude::create(data), 0x140, data);
    assert_eq!(BaroCorrectedAltitude::ID, 0x140);
    check_plain(HeadingAngle::create(data), 0x141, data);
    assert_eq!(HeadingAngle::ID, 0x141);
    check_plain(StandardAltitude::create(data), 0x142, data);
    assert_eq!(StandardAltitude::ID, 0x142);
    check_plain(HeadingRate::create(data), 0x147, data);
    assert_eq!(HeadingRate::ID, 0x147);
    check_plain(TrueAltitude::create(data), 0x14C, data);
    assert_eq!(TrueAltitude::ID, 0x14C);
    check_plain(BodyNormalVelocity::create(data), 0x150, data);
    assert_eq!(BodyNormalVelocity::ID, 0x150);
    check_plain(BodyLongitudinalVelocity::create(data), 0x151, data);
    assert_eq!(BodyLongitudinalVelocity::ID, 0x151);
    check_plain(BodyLateralVelocity::create(data), 0x152, data);
    assert_eq!(BodyLateralVelocity::ID, 0x152);
    check_plain(GPSAircraftLatitude::create(data), 0x40C, data);
    assert_eq!(GPSAircraftLatitude::ID, 0x40C);
    check_plain(GPSAircraftLongitude::create(data), 0x40D, data);
    assert_eq!(GPSAircraftLongitude::ID, 0x40D);
    check_plain(GPSAircraftHeightAboveEllips::create(data), 0x40E, data);
    assert_eq!(GPSAircraftHeightAboveEllips::ID, 0x40E);
    check_plain(GPSGroundSpeed::create(data), 0x40F, data);
    assert_eq!(GPSGroundSpeed::ID, 0x40F);
    check_plain(INSAircraftLatitude::create(data), 0x419, data);
    assert_eq!(INSAircraftLatitude::ID, 0x419);
    check_plain(INSAircraftLongitude::create(data), 0x41A, data);
    assert_eq!(INSAircraftLongitude::ID, 0x41A);
    check_plain(INSAircraftHeightAboveEllips::create(data), 0x41B, data);
    assert_eq!(INSAircraftHeightAboveEllips::ID, 0x41B);
    check_plain(INSGroundSpeed::create(data), 0x41C, data);
    assert_eq!(INSGroundSpeed::ID, 0x41C);
    check_plain(MagneticHeading::create(data), 0x42D, data);
    assert_eq!(MagneticHeading::ID, 0x42D);
    check_plain(DecisionHeight::create(data), 0x44A, data);
    assert_eq!(DecisionHeight::ID, 0x44A);
    check_plain(MiscUTC::create(data), 0x4B0, data);
    assert_eq!(MiscUTC::ID, 0x4B0);
    check_plain(MiscDate::create(data), 0x4B6, data);
    assert_eq!(MiscDate::ID, 0x4B6);
}

#[test]
fn engine_status_identifiers() {
    assert_eq!(EngineStatusBLONG::<1, 1>::create(0xDEADBEEF).message_type.id(), Ok(0x26C));
    assert_eq!(EngineStatusBLONG::<2, 1>::create(0xDEADBEEF).message_type.id(), Ok(0x26D));
    assert_eq!(EngineStatusBLONG::<3, 1>::create(0xDEADBEEF).message_type.id(), Ok(0x26E));
    assert_eq!(EngineStatusBLONG::<4, 1>::create(0xDEADBEEF).message_type.id(), Ok(0x26F));
    assert_eq!(EngineStatusBLONG::<1, 2>::create(0xDEADBEEF).message_type.id(), Ok(0x270));
    assert_eq!(EngineStatusBLONG::<2, 2>::create(0xDEADBEEF).message_type.id(), Ok(0x271));
    assert_eq!(EngineStatusBLONG::<3, 2>::create(0xDEADBEEF).message_type.id(), Ok(0x272));
    let message = EngineStatusBLONG::<4, 2>::create(0xDEADBEEF);
    assert_eq!(message.message_type.id(), Ok(0x273));
    assert_eq!(message.data, DataType::BLONG(0xDEADBEEF));
    assert_eq!(message.node_id, 0);
    assert_eq!(message.message_code, 0);
    assert_eq!(message.service_code, ServiceCodeEnum::from(0));

    assert_eq!(EngineStatusBSHORT::<1, 1>::create(0xBEEF).message_type.id(), Ok(0x26C));
    assert_eq!(EngineStatusBSHORT::<4, 1>::create(0xBEEF).message_type.id(), Ok(0x26F));
    assert_eq!(EngineStatusBSHORT::<1, 2>::create(0xBEEF).message_type.id(), Ok(0x270));
    let message = EngineStatusBSHORT::<4, 2>::create(0xBEEF);
    assert_eq!(message.message_type.id(), Ok(0x273));
    assert_eq!(message.data, DataType::BSHORT(0xBEEF));

    assert_eq!(engine_status_id(1, 1), 0x26C);
    assert_eq!(engine_status_id(4, 1), 0x26F);
    assert_eq!(engine_status_id(1, 2), 0x270);
    assert_eq!(engine_status_id(3, 2), 0x272);
}

#[test]
fn dc_system_identifiers() {
    let bits = 19.96f32.to_bits();
    assert_eq!(DCSystemVoltageFLOAT::<1>::create(bits).message_type.id(), Ok(0x398));
    assert_eq!(DCSystemVoltageFLOAT::<2>::create(bits).message_type.id(), Ok(0x399));
    assert_eq!(DCSystemVoltageFLOAT::<9>::create(bits).message_type.id(), Ok(0x3A0));
    let message = DCSystemVoltageFLOAT::<10>::create(bits);
    assert_eq!(message.message_type.id(), Ok(0x3A1));
    assert_eq!(message.data, DataType::FLOAT(bits));
    assert_eq!(message.data.to_be_bytes(), 19.96f32.to_be_bytes());

    assert_eq!(DCSystemVoltageSHORT2::<1>::create(19, 96).message_type.id(), Ok(0x398));
    let message = DCSystemVoltageSHORT2::<10>::create(19, 96);
    assert_eq!(message.message_type.id(), Ok(0x3A1));
    assert_eq!(message.data, DataType::SHORT2(19, 96));

    assert_eq!(DCSystemCurrentFLOAT::<1>::create(bits).message_type.id(), Ok(0x3A2));
    assert_eq!(DCSystemCurrentFLOAT::<5>::create(bits).message_type.id(), Ok(0x3A6));
    let message = DCSystemCurrentFLOAT::<10>::create(bits);
    assert_eq!(message.message_type.id(), Ok(0x3AB));
    assert_eq!(message.data, DataType::FLOAT(bits));

    assert_eq!(DCSystemCurrentSHORT2::<1>::create(19, 96).message_type.id(), Ok(0x3A2));
    let message = DCSystemCurrentSHORT2::<10>::create(19, 96);
    assert_eq!(message.message_type.id(), Ok(0x3AB));
    assert_eq!(message.data, DataType::SHORT2(19, 96));

    for num in 1..=10u8 {
        assert_eq!(dc_system_voltage_id(num), 0x398 + u16::from(num) - 1);
        assert_eq!(dc_system_current_id(num), 0x3A2 + u16::from(num) - 1);
    }
}
