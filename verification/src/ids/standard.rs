//! The normal operation data messages of the standard identifier
//! distribution, one type per message.

use vstd::prelude::*;
use crate::message::CANAerospaceMessage;
use crate::types::{DataType, MessageType, ServiceCodeEnum};

verus! {

/// The first identifier of the engine status messages.
pub const ENGINE_STATUS_BASE: u16 = 0x26C;

/// The number of engines that have status messages.
pub const ENGINE_COUNT: u16 = 4;

/// The number of status messages for each engine.
pub const ENGINE_STATUS_COUNT: u16 = 2;

/// The first identifier of the DC system voltage messages.
pub const DC_SYSTEM_VOLTAGE_BASE: u16 = 0x398;

/// The first identifier of the DC system current messages.
pub const DC_SYSTEM_CURRENT_BASE: u16 = 0x3A2;

/// The number of DC systems that have messages.
pub const DC_SYSTEM_COUNT: u8 = 10;

/// A normal operation data message as it leaves its constructor: node id
/// and message code are zero, for the sender to fill in, and the message
/// belongs to no service.
pub open spec fn operation_data(id: u16, data: DataType) -> CANAerospaceMessage {
    CANAerospaceMessage {
        message_type: MessageType::NOD(id),
        node_id: 0,
        service_code: ServiceCodeEnum::UNKNOWN,
        message_code: 0,
        data,
    }
}

/// A numbered normal operation data message as it leaves its constructor:
/// as [`operation_data`], with the service code byte zero.
pub open spec fn numbered_operation_data(id: u16, data: DataType) -> CANAerospaceMessage {
    CANAerospaceMessage {
        message_type: MessageType::NOD(id),
        node_id: 0,
        service_code: ServiceCodeEnum::of_byte(0),
        message_code: 0,
        data,
    }
}

fn new_operation_data(id: u16, data: DataType) -> (message: CANAerospaceMessage)
    ensures
        message == operation_data(id, data),
{
    CANAerospaceMessage {
        message_type: MessageType::NOD(id),
        node_id: 0x0,
        service_code: ServiceCodeEnum::UNKNOWN,
        message_code: 0x0,
        data,
    }
}

/// The identifier of status message `status` of engine `engine_num`, both
/// counted from one.
pub open spec fn spec_engine_status_id(engine_num: u16, status: u16) -> u16 {
    (ENGINE_STATUS_BASE + (status - 1) * ENGINE_COUNT + (engine_num - 1)) as u16
}

/// The identifier of the voltage message of DC system `num`, counted from
/// one.
pub open spec fn spec_dc_system_voltage_id(num: u8) -> u16 {
    (DC_SYSTEM_VOLTAGE_BASE + (num - 1)) as u16
}

/// The identifier of the current message of DC system `num`, counted from
/// one.
pub open spec fn spec_dc_system_current_id(num: u8) -> u16 {
    (DC_SYSTEM_CURRENT_BASE + (num - 1)) as u16
}

/// The identifier of status message `status` of engine `engine_num`.
pub fn engine_status_id(engine_num: u16, status: u16) -> (id: u16)
    requires
        1 <= engine_num <= ENGINE_COUNT,
        1 <= status <= ENGINE_STATUS_COUNT,
    ensures
        id == spec_engine_status_id(engine_num, status),
        MessageType::NOD(id).in_range(),
{
    let n = engine_num - 1;
    let s = status - 1;
    0x26C + ((s * 4) + n)
}

/// The identifier of the voltage message of DC system `num`.
pub fn dc_system_voltage_id(num: u8) -> (id: u16)
    requires
        1 <= num <= DC_SYSTEM_COUNT,
    ensures
        id == spec_dc_system_voltage_id(num),
        MessageType::NOD(id).in_range(),
{
    let n = (num - 1) as u16;
    0x398 + n
}

/// The identifier of the current message of DC system `num`.
pub fn dc_system_current_id(num: u8) -> (id: u16)
    requires
        1 <= num <= DC_SYSTEM_COUNT,
    ensures
        id == spec_dc_system_current_id(num),
        MessageType::NOD(id).in_range(),
{
    let n = (num - 1) as u16;
    0x3A2 + n
}

/// Body longitudinal acceleration in g, positive forward.
pub struct BodyLongitudinalAcceleration;

impl BodyLongitudinalAcceleration {
    /// The identifier of the message.
    pub const ID: u16 = 0x12C;

    /// The message with this identifier that carries `data`.
    pub fn create(data: DataType) -> (message: CANAerospaceMessage)
        ensures
            message == operation_data(0x12C, data),
    {
        new_operation_data(0x12C, data)
    }
}

/// Body lateral acceleration in g, positive to the right.
pub struct BodyLateralAcceleration;

impl BodyLateralAcceleration {
    /// The identifier of the message.
    pub const ID: u16 = 0x12D;

    /// The message with this identifier that carries `data`.
    pub fn create(data: DataType) -> (message: CANAerospaceMessage)
        ensures
            message == operation_data(0x12D, data),
    {
        new_operation_data(0x12D, data)
    }
}

/// Body normal acceleration in g, positive upward.
pub struct BodyNormalAcceleration;

impl BodyNormalAcceleration {
    /// The identifier of the message.
    pub const ID: u16 = 0x12E;

    /// The message with this identifier that carries `data`.
    pub fn create(data: DataType) -> (message: CANAerospaceMessage)
        ensures
            message == operation_data(0x12E, data),
    {
        new_operation_data(0x12E, data)
    }
}

/// Body pitch rate in degrees per second, positive nose up.
pub struct BodyPitchRate;

impl BodyPitchRate {
    /// The identifier of the message.
    pub const ID: u16 = 0x12F;

    /// The message with this identifier that carries `data`.
    pub fn create(data: DataType) -> (message: CANAerospaceMessage)
        ensures
            message == operation_data(0x12F, data),
    {
        new_operation_data(0x12F, data)
    }
}

/// Body roll rate in degrees per second, positive rolling right.
pub struct BodyRollRate;

impl BodyRollRate {
    /// The identifier of the message.
    pub const ID: u16 = 0x130;

    /// The message with this identifier that carries `data`.
    pub fn create(data: DataType) -> (message: CANAerospaceMessage)
        ensures
            message == operation_data(0x130, data),
    {
        new_operation_data(0x130, data)
    }
}

/// Body yaw rate in degrees per second, positive yawing right.
pub struct BodyYawRate;

impl BodyYawRate {
    /// The identifier of the message.
    pub const ID: u16 = 0x131;

    /// The message with this identifier that carries `data`.
    pub fn create(data: DataType) -> (message: CANAerospaceMessage)
        ensures
            message == operation_data(0x131, data),
    {
        new_operation_data(0x131, data)
    }
}

/// Body pitch angle in degrees, positive nose up.
pub struct BodyPitchAngle;

impl BodyPitchAngle {
    /// The identifier of the message.
    pub const ID: u16 = 0x137;

    /// The message with this identifier that carries `data`.
    pub fn create(data: DataType) -> (message: CANAerospaceMessage)
        ensures
            message == operation_data(0x137, data),
    {
        new_operation_data(0x137, data)
    }
}

/// Body roll angle in degrees, positive rolling right.
pub struct BodyRollAngle;

impl BodyRollAngle {
    /// The identifier of the message.
    pub const ID: u16 = 0x138;

    /// The message with this identifier that carries `data`.
    pub fn create(data: DataType) -> (message: CANAerospaceMessage)
        ensures
            message == operation_data(0x138, data),
    {
        new_operation_data(0x138, data)
    }
}

/// Body side slip in degrees, positive yawing right.
pub struct BodySideSlip;

impl BodySideSlip {
    /// The identifier of the message.
    pub const ID: u16 = 0x139;

    /// The message with this identifier that carries `data`.
    pub fn create(data: DataType) -> (message: CANAerospaceMessage)
        ensures
            message == operation_data(0x139, data),
    {
        new_operation_data(0x139, data)
    }
}

/// Altitude rate in metres per second.
pub struct AltitudeRate;

impl AltitudeRate {
    /// The identifier of the message.
    pub const ID: u16 = 0x13A;

    /// The message with this identifier that carries `data`.
    pub fn create(data: DataType) -> (message: CANAerospaceMessage)
        ensures
            message == operation_data(0x13A, data),
    {
        new_operation_data(0x13A, data)
    }
}

/// Barometrically corrected altitude in metres.
pub struct BaroCorrectedAltitude;

impl BaroCorrectedAltitude {
    /// The identifier of the message.
    pub const ID: u16 = 0x140;

    /// The message with this identifier that carries `data`.
    pub fn create(data: DataType) -> (message: CANAerospaceMessage)
        ensures
            message == operation_data(0x140, data),
    {
        new_operation_data(0x140, data)
    }
}

/// Heading angle in degrees, between -180 and 180.
pub struct HeadingAngle;

impl HeadingAngle {
    /// The identifier of the message.
    pub const ID: u16 = 0x141;

    /// The message with this identifier that carries `data`.
    pub fn create(data: DataType) -> (message: CANAerospaceMessage)
        ensures
            message == operation_data(0x141, data),
    {
        new_operation_data(0x141, data)
    }
}

/// Standard altitude in metres.
pub struct StandardAltitude;

impl StandardAltitude {
    /// The identifier of the message.
    pub const ID: u16 = 0x142;

    /// The message with this identifier that carries `data`.
    pub fn create(data: DataType) -> (message: CANAerospaceMessage)
        ensures
            message == operation_data(0x142, data),
    {
        new_operation_data(0x142, data)
    }
}

/// Heading rate in degrees per second.
pub struct HeadingRate;

impl HeadingRate {
    /// The identifier of the message.
    pub const ID: u16 = 0x147;

    /// The message with this identifier that carries `data`.
    pub fn create(data: DataType) -> (message: CANAerospaceMessage)
        ensures
            message == operation_data(0x147, data),
    {
        new_operation_data(0x147, data)
    }
}

/// True altitude in metres.
pub struct TrueAltitude;

impl TrueAltitude {
    /// The identifier of the message.
    pub const ID: u16 = 0x14C;

    /// The message with this identifier that carries `data`.
    pub fn create(data: DataType) -> (message: CANAerospaceMessage)
        ensures
            message == operation_data(0x14C, data),
    {
        new_operation_data(0x14C, data)
    }
}

/// Body normal velocity in metres per second.
pub struct BodyNormalVelocity;

impl BodyNormalVelocity {
    /// The identifier of the message.
    pub const ID: u16 = 0x150;

    /// The message with this identifier that carries `data`.
    pub fn create(data: DataType) -> (message: CANAerospaceMessage)
        ensures
            message == operation_data(0x150, data),
    {
        new_operation_data(0x150, data)
    }
}

/// Body longitudinal velocity in metres per second.
pub struct BodyLongitudinalVelocity;

impl BodyLongitudinalVelocity {
    /// The identifier of the message.
    pub const ID: u16 = 0x151;

    /// The message with this identifier that carries `data`.
    pub fn create(data: DataType) -> (message: CANAerospaceMessage)
        ensures
            message == operation_data(0x151, data),
    {
        new_operation_data(0x151, data)
    }
}

/// Body lateral velocity in metres per second.
pub struct BodyLateralVelocity;

impl BodyLateralVelocity {
    /// The identifier of the message.
    pub const ID: u16 = 0x152;

    /// The message with this identifier that carries `data`.
    pub fn create(data: DataType) -> (message: CANAerospaceMessage)
        ensures
            message == operation_data(0x152, data),
    {
        new_operation_data(0x152, data)
    }
}

/// Status message `S` of engine `N`, as thirty-two bits.
pub struct EngineStatusBLONG<const N: usize, const S: usize>;

impl<const N: usize, const S: usize> EngineStatusBLONG<N, S> {
    /// The message for engine `N` and status `S`, which must be among
    /// those that the standard numbers: engines one to four, status one or
    /// two.
    pub fn create(data: u32) -> (message: CANAerospaceMessage)
        requires
            1 <= N <= ENGINE_COUNT,
            1 <= S <= ENGINE_STATUS_COUNT,
        ensures
            message == numbered_operation_data(
                spec_engine_status_id(N as u16, S as u16),
                DataType::BLONG(data),
            ),
    {
        CANAerospaceMessage::new(
            MessageType::NOD(engine_status_id(N as u16, S as u16)),
            0x0,
            0x0,
            0x0,
            DataType::BLONG(data),
        )
    }
}

/// Status message `S` of engine `N`, as sixteen bits.
pub struct EngineStatusBSHORT<const N: usize, const S: usize>;

impl<const N: usize, const S: usize> EngineStatusBSHORT<N, S> {
    /// The message for engine `N` and status `S`, which must be among
    /// those that the standard numbers: engines one to four, status one or
    /// two.
    pub fn create(data: u16) -> (message: CANAerospaceMessage)
        requires
            1 <= N <= ENGINE_COUNT,
            1 <= S <= ENGINE_STATUS_COUNT,
        ensures
            message == numbered_operation_data(
                spec_engine_status_id(N as u16, S as u16),
                DataType::BSHORT(data),
            ),
    {
        CANAerospaceMessage::new(
            MessageType::NOD(engine_status_id(N as u16, S as u16)),
            0x0,
            0x0,
            0x0,
            DataType::BSHORT(data),
        )
    }
}

/// The voltage of DC system `N`, as a floating point number.
pub struct DCSystemVoltageFLOAT<const N: u8>;

impl<const N: u8> DCSystemVoltageFLOAT<N> {
    /// The message for system `N`, which must be one of the ten that the
    /// standard numbers. `bits` is the IEEE 754
    /// bit pattern of the number.
    pub fn create(bits: u32) -> (message: CANAerospaceMessage)
        requires
            1 <= N <= DC_SYSTEM_COUNT,
        ensures
            message == numbered_operation_data(spec_dc_system_voltage_id(N), DataType::FLOAT(bits)),
    {
        CANAerospaceMessage::new(
            MessageType::NOD(dc_system_voltage_id(N)),
            0x0,
            0x0,
            0x0,
            DataType::FLOAT(bits),
        )
    }
}

/// The voltage of DC system `N`, as two sixteen-bit numbers.
pub struct DCSystemVoltageSHORT2<const N: u8>;

impl<const N: u8> DCSystemVoltageSHORT2<N> {
    /// The message for system `N`, which must be one of the ten that the
    /// standard numbers.
    pub fn create(v1: i16, v2: i16) -> (message: CANAerospaceMessage)
        requires
            1 <= N <= DC_SYSTEM_COUNT,
        ensures
            message == numbered_operation_data(spec_dc_system_voltage_id(N), DataType::SHORT2(v1, v2)),
    {
        CANAerospaceMessage::new(
            MessageType::NOD(dc_system_voltage_id(N)),
            0x0,
            0x0,
            0x0,
            DataType::SHORT2(v1, v2),
        )
    }
}

/// The current of DC system `N`, as a floating point number.
pub struct DCSystemCurrentFLOAT<const N: u8>;

impl<const N: u8> DCSystemCurrentFLOAT<N> {
    /// The message for system `N`, which must be one of the ten that the
    /// standard numbers. `bits` is the IEEE 754
    /// bit pattern of the number.
    pub fn create(bits: u32) -> (message: CANAerospaceMessage)
        requires
            1 <= N <= DC_SYSTEM_COUNT,
        ensures
            message == numbered_operation_data(spec_dc_system_current_id(N), DataType::FLOAT(bits)),
    {
        CANAerospaceMessage::new(
            MessageType::NOD(dc_system_current_id(N)),
            0x0,
            0x0,
            0x0,
            DataType::FLOAT(bits),
        )
    }
}

/// The current of DC system `N`, as two sixteen-bit numbers.
pub struct DCSystemCurrentSHORT2<const N: u8>;

impl<const N: u8> DCSystemCurrentSHORT2<N> {
    /// The message for system `N`, which must be one of the ten that the
    /// standard numbers.
    pub fn create(v1: i16, v2: i16) -> (message: CANAerospaceMessage)
        requires
            1 <= N <= DC_SYSTEM_COUNT,
        ensures
            message == numbered_operation_data(spec_dc_system_current_id(N), DataType::SHORT2(v1, v2)),
    {
        CANAerospaceMessage::new(
            MessageType::NOD(dc_system_current_id(N)),
            0x0,
            0x0,
            0x0,
            DataType::SHORT2(v1, v2),
        )
    }
}

/// GPS aircraft latitude.
pub struct GPSAircraftLatitude;

impl GPSAircraftLatitude {
    /// The identifier of the message.
    pub const ID: u16 = 0x40C;

    /// The message with this identifier that carries `data`.
    pub fn create(data: DataType) -> (message: CANAerospaceMessage)
        ensures
            message == operation_data(0x40C, data),
    {
        new_operation_data(0x40C, data)
    }
}

/// GPS aircraft longitude.
pub struct GPSAircraftLongitude;

impl GPSAircraftLongitude {
    /// The identifier of the message.
    pub const ID: u16 = 0x40D;

    /// The message with this identifier that carries `data`.
    pub fn create(data: DataType) -> (message: CANAerospaceMessage)
        ensures
            message == operation_data(0x40D, data),
    {
        new_operation_data(0x40D, data)
    }
}

/// GPS aircraft height above the ellipsoid.
pub struct GPSAircraftHeightAboveEllips;

impl GPSAircraftHeightAboveEllips {
    /// The identifier of the message.
    pub const ID: u16 = 0x40E;

    /// The message with this identifier that carries `data`.
    pub fn create(data: DataType) -> (message: CANAerospaceMessage)
        ensures
            message == operation_data(0x40E, data),
    {
        new_operation_data(0x40E, data)
    }
}

/// GPS ground speed.
pub struct GPSGroundSpeed;

impl GPSGroundSpeed {
    /// The identifier of the message.
    pub const ID: u16 = 0x40F;

    /// The message with this identifier that carries `data`.
    pub fn create(data: DataType) -> (message: CANAerospaceMessage)
        ensures
            message == operation_data(0x40F, data),
    {
        new_operation_data(0x40F, data)
    }
}

/// INS aircraft latitude.
pub struct INSAircraftLatitude;

impl INSAircraftLatitude {
    /// The identifier of the message.
    pub const ID: u16 = 0x419;

    /// The message with this identifier that carries `data`.
    pub fn create(data: DataType) -> (message: CANAerospaceMessage)
        ensures
            message == operation_data(0x419, data),
    {
        new_operation_data(0x419, data)
    }
}

/// INS aircraft longitude.
pub struct INSAircraftLongitude;

impl INSAircraftLongitude {
    /// The identifier of the message.
    pub const ID: u16 = 0x41A;

    /// The message with this identifier that carries `data`.
    pub fn create(data: DataType) -> (message: CANAerospaceMessage)
        ensures
            message == operation_data(0x41A, data),
    {
        new_operation_data(0x41A, data)
    }
}

/// INS aircraft height above the ellipsoid.
pub struct INSAircraftHeightAboveEllips;

impl INSAircraftHeightAboveEllips {
    /// The identifier of the message.
    pub const ID: u16 = 0x41B;

    /// The message with this identifier that carries `data`.
    pub fn create(data: DataType) -> (message: CANAerospaceMessage)
        ensures
            message == operation_data(0x41B, data),
    {
        new_operation_data(0x41B, data)
    }
}

/// INS ground speed.
pub struct INSGroundSpeed;

impl INSGroundSpeed {
    /// The identifier of the message.
    pub const ID: u16 = 0x41C;

    /// The message with this identifier that carries `data`.
    pub fn create(data: DataType) -> (message: CANAerospaceMessage)
        ensures
            message == operation_data(0x41C, data),
    {
        new_operation_data(0x41C, data)
    }
}

/// Magnetic heading.
pub struct MagneticHeading;

impl MagneticHeading {
    /// The identifier of the message.
    pub const ID: u16 = 0x42D;

    /// The message with this identifier that carries `data`.
    pub fn create(data: DataType) -> (message: CANAerospaceMessage)
        ensures
            message == operation_data(0x42D, data),
    {
        new_operation_data(0x42D, data)
    }
}

/// Decision height.
pub struct DecisionHeight;

impl DecisionHeight {
    /// The identifier of the message.
    pub const ID: u16 = 0x44A;

    /// The message with this identifier that carries `data`.
    pub fn create(data: DataType) -> (message: CANAerospaceMessage)
        ensures
            message == operation_data(0x44A, data),
    {
        new_operation_data(0x44A, data)
    }
}

/// Universal time, as four characters.
pub struct MiscUTC;

impl MiscUTC {
    /// The identifier of the message.
    pub const ID: u16 = 0x4B0;

    /// The message with this identifier that carries `data`.
    pub fn create(data: DataType) -> (message: CANAerospaceMessage)
        ensures
            message == operation_data(0x4B0, data),
    {
        new_operation_data(0x4B0, data)
    }
}

/// Date, as four characters.
pub struct MiscDate;

impl MiscDate {
    /// The identifier of the message.
    pub const ID: u16 = 0x4B6;

    /// The message with this identifier that carries `data`.
    pub fn create(data: DataType) -> (message: CANAerospaceMessage)
        ensures
            message == operation_data(0x4B6, data),
    {
        new_operation_data(0x4B6, data)
    }
}

/// Every numbered message has an identifier of its own within the range of
/// normal operation data: the engine status messages follow the base one by
/// one, status by status, and the DC system messages follow theirs.
pub proof fn lemma_numbered_ids(engine_num: u16, status: u16, num: u8)
    requires
        1 <= engine_num <= ENGINE_COUNT,
        1 <= status <= ENGINE_STATUS_COUNT,
        1 <= num <= DC_SYSTEM_COUNT,
    ensures
        ENGINE_STATUS_BASE <= spec_engine_status_id(engine_num, status) < ENGINE_STATUS_BASE
            + ENGINE_COUNT * ENGINE_STATUS_COUNT,
        DC_SYSTEM_VOLTAGE_BASE <= spec_dc_system_voltage_id(num) < DC_SYSTEM_CURRENT_BASE,
        DC_SYSTEM_CURRENT_BASE <= spec_dc_system_current_id(num) < DC_SYSTEM_CURRENT_BASE
            + DC_SYSTEM_COUNT,
        MessageType::NOD(spec_engine_status_id(engine_num, status)).in_range(),
        MessageType::NOD(spec_dc_system_voltage_id(num)).in_range(),
        MessageType::NOD(spec_dc_system_current_id(num)).in_range(),
{
}

} // verus!
