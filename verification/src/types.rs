//! The values that CANaerospace messages are made of: service codes, message
//! classes and the typed payload with its wire encoding.

use vstd::prelude::*;
use crate::bytes::{
    as_u16, as_u32, be_u16, be_u32, byte_at, i16_as_u16, i16_of, i32_as_u32, i32_of, i8_as_u8, i8_of,
    lemma_twos_complement_roundtrip, lemma_u16_bytes_roundtrip, lemma_u32_bytes_roundtrip,
    u16_as_i16, u16_byte, u16_from_be, u16_of, u16_to_be, u32_as_i32, u32_be_bytes, u32_of,
    u32_to_be, u8_as_i8, u8_of,
};
use vstd::std_specs::convert::FromSpecImpl;
use crate::error::CANAerospaceError;

verus! {

pub type MessageCode = u8;

pub type ServiceCode = u8;

pub type NodeId = u8;

pub type IDSHeaderConfiguration = u8;

/// The configuration byte of an identification response.
#[derive(Clone, Copy, Debug, PartialEq, Eq, Structural)]
pub struct IDSConfiguration(pub u8);

/// The hardware revision byte of an identification response.
#[derive(Clone, Copy, Debug, PartialEq, Eq, Structural)]
pub struct HardwareRevision(pub u8);

/// The software revision byte of an identification response.
#[derive(Clone, Copy, Debug, PartialEq, Eq, Structural)]
pub struct SoftwareRevision(pub u8);

/// What a node reports about itself when asked to identify.
#[derive(Clone, Copy, Debug, PartialEq, Eq, Structural)]
pub struct IDSResponse {
    pub hw_rev: HardwareRevision,
    pub sw_rev: SoftwareRevision,
    pub configuration: IDSConfiguration,
    pub header: IDSHeaderConfiguration,
}

/// The service that a node service message asks for or answers.
///
/// The sixteen services of the standard have a variant each. The byte `0xFF`
/// is `UNKNOWN`, the code of messages that belong to no service, and every
/// other byte is kept as `CUSTOM`.
#[derive(Clone, Copy, Debug, PartialEq, Eq, Structural)]
pub enum ServiceCodeEnum {
    /// Identification Service (0x0)
    IDS,
    /// Node Synchronisation Service (0x1)
    NSS,
    /// Data Download Service (0x2)
    DDS,
    /// Data Upload Service (0x3)
    DUS,
    /// Simulation Control Service (0x4)
    SCS,
    /// Transmission Interval Service (0x5)
    TIS,
    /// FLASH Programming Service (0x6)
    FPS,
    /// State Transmission Service (0x7)
    STS,
    /// Filter Setting Service (0x8)
    FSS,
    /// Test Control Service (0x9)
    TCS,
    /// CAN Baudrate Setting Service (0xA)
    BSS,
    /// NodeId Setting Service (0xB)
    NIS,
    /// Module Information Service (0xC)
    MIS,
    /// Module Configuration Service (0xD)
    MCS,
    /// CAN ID Setting Service (0xE)
    CSS,
    /// CAN ID Distribution Setting Service (0xF)
    DSS,
    /// A code that the standard leaves to the user, with its byte.
    CUSTOM(u8),
    /// No service (0xFF)
    UNKNOWN,
}

/// The byte that stands for "no service".
pub const UNKNOWN_SERVICE_CODE: u8 = 0xFF;

impl ServiceCodeEnum {
    /// The byte that the code is sent as.
    pub open spec fn spec_as_u8(&self) -> u8 {
        match *self {
            ServiceCodeEnum::IDS => 0x0,
            ServiceCodeEnum::NSS => 0x1,
            ServiceCodeEnum::DDS => 0x2,
            ServiceCodeEnum::DUS => 0x3,
            ServiceCodeEnum::SCS => 0x4,
            ServiceCodeEnum::TIS => 0x5,
            ServiceCodeEnum::FPS => 0x6,
            ServiceCodeEnum::STS => 0x7,
            ServiceCodeEnum::FSS => 0x8,
            ServiceCodeEnum::TCS => 0x9,
            ServiceCodeEnum::BSS => 0xA,
            ServiceCodeEnum::NIS => 0xB,
            ServiceCodeEnum::MIS => 0xC,
            ServiceCodeEnum::MCS => 0xD,
            ServiceCodeEnum::CSS => 0xE,
            ServiceCodeEnum::DSS => 0xF,
            ServiceCodeEnum::CUSTOM(code) => code,
            ServiceCodeEnum::UNKNOWN => UNKNOWN_SERVICE_CODE,
        }
    }

    /// The code that a byte is read as.
    pub open spec fn of_byte(code: u8) -> ServiceCodeEnum {
        if code == 0x0 {
            ServiceCodeEnum::IDS
        } else if code == 0x1 {
            ServiceCodeEnum::NSS
        } else if code == 0x2 {
            ServiceCodeEnum::DDS
        } else if code == 0x3 {
            ServiceCodeEnum::DUS
        } else if code == 0x4 {
            ServiceCodeEnum::SCS
        } else if code == 0x5 {
            ServiceCodeEnum::TIS
        } else if code == 0x6 {
            ServiceCodeEnum::FPS
        } else if code == 0x7 {
            ServiceCodeEnum::STS
        } else if code == 0x8 {
            ServiceCodeEnum::FSS
        } else if code == 0x9 {
            ServiceCodeEnum::TCS
        } else if code == 0xA {
            ServiceCodeEnum::BSS
        } else if code == 0xB {
            ServiceCodeEnum::NIS
        } else if code == 0xC {
            ServiceCodeEnum::MIS
        } else if code == 0xD {
            ServiceCodeEnum::MCS
        } else if code == 0xE {
            ServiceCodeEnum::CSS
        } else if code == 0xF {
            ServiceCodeEnum::DSS
        } else if code == UNKNOWN_SERVICE_CODE {
            ServiceCodeEnum::UNKNOWN
        } else {
            ServiceCodeEnum::CUSTOM(code)
        }
    }

    /// Whether the code is the one that its own byte is read as: every code
    /// but a `CUSTOM` that wraps the byte of a named one.
    pub open spec fn is_canonical(&self) -> bool {
        *self matches ServiceCodeEnum::CUSTOM(code) ==> 0xF < code < UNKNOWN_SERVICE_CODE
    }

    /// The byte that the code is sent as.
    #[verifier::when_used_as_spec(spec_as_u8)]
    pub fn as_u8(&self) -> (code: u8)
        ensures
            code == self.spec_as_u8(),
    {
        match *self {
            ServiceCodeEnum::IDS => 0x0,
            ServiceCodeEnum::NSS => 0x1,
            ServiceCodeEnum::DDS => 0x2,
            ServiceCodeEnum::DUS => 0x3,
            ServiceCodeEnum::SCS => 0x4,
            ServiceCodeEnum::TIS => 0x5,
            ServiceCodeEnum::FPS => 0x6,
            ServiceCodeEnum::STS => 0x7,
            ServiceCodeEnum::FSS => 0x8,
            ServiceCodeEnum::TCS => 0x9,
            ServiceCodeEnum::BSS => 0xA,
            ServiceCodeEnum::NIS => 0xB,
            ServiceCodeEnum::MIS => 0xC,
            ServiceCodeEnum::MCS => 0xD,
            ServiceCodeEnum::CSS => 0xE,
            ServiceCodeEnum::DSS => 0xF,
            ServiceCodeEnum::CUSTOM(code) => code,
            ServiceCodeEnum::UNKNOWN => UNKNOWN_SERVICE_CODE,
        }
    }
}

impl From<u8> for ServiceCodeEnum {
    /// Reads a service code byte. No byte is an error.
    fn from(code: u8) -> (service: ServiceCodeEnum) {
        match code {
            0x0 => ServiceCodeEnum::IDS,
            0x1 => ServiceCodeEnum::NSS,
            0x2 => ServiceCodeEnum::DDS,
            0x3 => ServiceCodeEnum::DUS,
            0x4 => ServiceCodeEnum::SCS,
            0x5 => ServiceCodeEnum::TIS,
            0x6 => ServiceCodeEnum::FPS,
            0x7 => ServiceCodeEnum::STS,
            0x8 => ServiceCodeEnum::FSS,
            0x9 => ServiceCodeEnum::TCS,
            0xA => ServiceCodeEnum::BSS,
            0xB => ServiceCodeEnum::NIS,
            0xC => ServiceCodeEnum::MIS,
            0xD => ServiceCodeEnum::MCS,
            0xE => ServiceCodeEnum::CSS,
            0xF => ServiceCodeEnum::DSS,
            0xFF => ServiceCodeEnum::UNKNOWN,
            _ => ServiceCodeEnum::CUSTOM(code),
        }
    }
}

impl FromSpecImpl<u8> for ServiceCodeEnum {
    open spec fn obeys_from_spec() -> bool {
        true
    }

    open spec fn from_spec(code: u8) -> ServiceCodeEnum {
        ServiceCodeEnum::of_byte(code)
    }
}

/// A service code and its byte determine each other: every byte comes back
/// from the code it is read as, and every canonical code comes back from its
/// byte.
pub proof fn lemma_service_code_roundtrip(code: u8, service: ServiceCodeEnum)
    ensures
        ServiceCodeEnum::of_byte(code).spec_as_u8() == code,
        ServiceCodeEnum::of_byte(code).is_canonical(),
        service.is_canonical() ==> ServiceCodeEnum::of_byte(service.spec_as_u8()) == service,
{
}

/// The class of a message, with the CAN identifier that selected it.
///
/// Each class owns a fixed range of identifiers. The variants are plain
/// values, so a class can be written with an identifier that it does not
/// own; [`MessageType::id`] refuses such a value.
#[derive(Clone, Copy, Debug, PartialEq, Eq, Structural)]
pub enum MessageType {
    /// Emergency Event Data \[0,127\]
    EED(u16),
    /// High Priority Node Service Data \[128,199\]
    NSH(u16),
    /// High Priority User-Defined Data \[200,299\]
    UDH(u16),
    /// Normal Operation Data \[300,1799\]
    NOD(u16),
    /// Low Priority User-Defined Data \[1800,1899\]
    UDL(u16),
    /// Debug Service Data \[1900,1999\]
    DSD(u16),
    /// Low Priority Node Service Data \[2000,2031\]
    NSL(u16),
    /// An identifier that belongs to no class.
    INVALID,
}

/// The highest identifier that belongs to a class.
pub const LAST_VALID_ID: u16 = 2031;

/// The number that stands for the identifier of `INVALID`.
pub const INVALID_ID: u16 = 0xFFFF;

impl MessageType {
    /// The identifier that the value wraps, checked or not; `INVALID_ID` for
    /// `INVALID`.
    pub open spec fn raw(&self) -> u16 {
        match *self {
            MessageType::EED(id)
            | MessageType::NSH(id)
            | MessageType::UDH(id)
            | MessageType::NOD(id)
            | MessageType::UDL(id)
            | MessageType::DSD(id)
            | MessageType::NSL(id) => id,
            MessageType::INVALID => INVALID_ID,
        }
    }

    /// Whether the wrapped identifier lies within the bounds of the class.
    /// `INVALID` wraps nothing and is in range.
    pub open spec fn in_range(&self) -> bool {
        match *self {
            MessageType::EED(id) => id <= 127,
            MessageType::NSH(id) => 128 <= id <= 199,
            MessageType::UDH(id) => 200 <= id <= 299,
            MessageType::NOD(id) => 300 <= id <= 1799,
            MessageType::UDL(id) => 1800 <= id <= 1899,
            MessageType::DSD(id) => 1900 <= id <= 1999,
            MessageType::NSL(id) => 2000 <= id <= 2031,
            MessageType::INVALID => true,
        }
    }

    /// The class whose range holds `id`, or `INVALID` where none does.
    pub open spec fn classify(id: u16) -> MessageType {
        if id <= 127 {
            MessageType::EED(id)
        } else if id <= 199 {
            MessageType::NSH(id)
        } else if id <= 299 {
            MessageType::UDH(id)
        } else if id <= 1799 {
            MessageType::NOD(id)
        } else if id <= 1899 {
            MessageType::UDL(id)
        } else if id <= 1999 {
            MessageType::DSD(id)
        } else if id <= LAST_VALID_ID {
            MessageType::NSL(id)
        } else {
            MessageType::INVALID
        }
    }

    /// What [`MessageType::id`] returns.
    pub open spec fn spec_id(&self) -> Result<u16, CANAerospaceError> {
        if self.in_range() {
            Ok(self.raw())
        } else {
            Err(CANAerospaceError::OutOfRange)
        }
    }

    /// The identifier that the value wraps, without a check.
    #[verifier::when_used_as_spec(raw)]
    pub fn raw_id(&self) -> (id: u16)
        ensures
            id == self.raw(),
    {
        match *self {
            MessageType::EED(id) => id,
            MessageType::NSH(id) => id,
            MessageType::UDH(id) => id,
            MessageType::NOD(id) => id,
            MessageType::UDL(id) => id,
            MessageType::DSD(id) => id,
            MessageType::NSL(id) => id,
            MessageType::INVALID => INVALID_ID,
        }
    }

    /// Whether the wrapped identifier lies within the bounds of the class.
    #[verifier::when_used_as_spec(in_range)]
    pub fn is_valid(&self) -> (valid: bool)
        ensures
            valid == self.in_range(),
    {
        match *self {
            MessageType::EED(id) => id <= 127,
            MessageType::NSH(id) => 128 <= id && id <= 199,
            MessageType::UDH(id) => 200 <= id && id <= 299,
            MessageType::NOD(id) => 300 <= id && id <= 1799,
            MessageType::UDL(id) => 1800 <= id && id <= 1899,
            MessageType::DSD(id) => 1900 <= id && id <= 1999,
            MessageType::NSL(id) => 2000 <= id && id <= 2031,
            MessageType::INVALID => true,
        }
    }

    /// The identifier of the message, checked against the bounds of its
    /// class on every call: `OutOfRange` where the class does not own the
    /// identifier it wraps. `INVALID` gives `INVALID_ID`.
    #[verifier::when_used_as_spec(spec_id)]
    pub fn id(&self) -> (id: Result<u16, CANAerospaceError>)
        ensures
            id == self.spec_id(),
            id is Ok <==> self.in_range(),
            id matches Ok(n) ==> n == self.raw(),
            id matches Err(e) ==> e == CANAerospaceError::OutOfRange,
    {
        match *self {
            MessageType::EED(id) => {
                if id > 0x7F {
                    return Err(CANAerospaceError::OutOfRange);
                }
                Ok(id)
            },
            MessageType::NSH(id) => {
                if id < 0x80 || id > 0xC7 {
                    return Err(CANAerospaceError::OutOfRange);
                }
                Ok(id)
            },
            MessageType::UDH(id) => {
                if id < 0xC8 || id > 0x12B {
                    return Err(CANAerospaceError::OutOfRange);
                }
                Ok(id)
            },
            MessageType::NOD(id) => {
                if id < 0x12C || id > 0x707 {
                    return Err(CANAerospaceError::OutOfRange);
                }
                Ok(id)
            },
            MessageType::UDL(id) => {
                if id < 0x708 || id > 0x76B {
                    return Err(CANAerospaceError::OutOfRange);
                }
                Ok(id)
            },
            MessageType::DSD(id) => {
                if id < 0x76C || id > 0x7CF {
                    return Err(CANAerospaceError::OutOfRange);
                }
                Ok(id)
            },
            MessageType::NSL(id) => {
                if id < 0x7D0 || id > 0x7EF {
                    return Err(CANAerospaceError::OutOfRange);
                }
                Ok(id)
            },
            MessageType::INVALID => Ok(INVALID_ID),
        }
    }
}

impl From<u16> for MessageType {
    /// Sorts an identifier into its class. Every identifier has a result.
    fn from(raw_id: u16) -> (class: MessageType) {
        if raw_id <= 127 {
            MessageType::EED(raw_id)
        } else if raw_id <= 199 {
            MessageType::NSH(raw_id)
        } else if raw_id <= 299 {
            MessageType::UDH(raw_id)
        } else if raw_id <= 1799 {
            MessageType::NOD(raw_id)
        } else if raw_id <= 1899 {
            MessageType::UDL(raw_id)
        } else if raw_id <= 1999 {
            MessageType::DSD(raw_id)
        } else if raw_id <= 2031 {
            MessageType::NSL(raw_id)
        } else {
            MessageType::INVALID
        }
    }
}

impl FromSpecImpl<u16> for MessageType {
    open spec fn obeys_from_spec() -> bool {
        true
    }

    open spec fn from_spec(raw_id: u16) -> MessageType {
        MessageType::classify(raw_id)
    }
}

/// Classification round-trips: an identifier up to `LAST_VALID_ID` is read
/// back from its class unchanged, and every identifier above is `INVALID`.
pub proof fn lemma_classify_roundtrip(id: u16)
    ensures
        MessageType::classify(id).in_range(),
        id <= LAST_VALID_ID ==> MessageType::classify(id).spec_id() == Ok::<u16, CANAerospaceError>(id),
        id > LAST_VALID_ID ==> MessageType::classify(id) == MessageType::INVALID,
{
}

/// A class that owns its identifier is the class that the identifier is
/// sorted into, so the two determine each other.
pub proof fn lemma_classify_inverts_raw(class: MessageType)
    requires
        class.in_range(),
    ensures
        MessageType::classify(class.raw()) == class,
{
}

/// The ranges of the classes are disjoint: two classes that own their
/// identifiers and wrap the same one are the same class.
pub proof fn lemma_classes_disjoint(a: MessageType, b: MessageType)
    requires
        a.in_range(),
        b.in_range(),
        a.raw() == b.raw(),
    ensures
        a == b,
{
}

/// The payload of a message: one variant per CANaerospace data type.
///
/// `FLOAT` holds the IEEE 754 bit pattern of the number, so that a payload
/// and its four wire bytes determine each other exactly.
#[derive(Clone, Copy, Debug, PartialEq, Eq, Structural)]
pub enum DataType {
    NODATA,
    ERROR(u32),
    FLOAT(u32),
    LONG(i32),
    ULONG(u32),
    BLONG(u32),
    SHORT(i16),
    USHORT(u16),
    BSHORT(u16),
    CHAR(i8),
    UCHAR(u8),
    BCHAR(u8),
    SHORT2(i16, i16),
    USHORT2(u16, u16),
    BSHORT2(u16, u16),
    CHAR4(i8, i8, i8, i8),
    UCHAR4(u8, u8, u8, u8),
    BCHAR4(u8, u8, u8, u8),
    CHAR2(i8, i8),
    UCHAR2(u8, u8),
    BCHAR2(u8, u8),
    MEMID(u32),
    CHKSUM(u32),
    ACHAR(u8),
    ACHAR2(u8, u8),
    ACHAR4(u8, u8, u8, u8),
    CHAR3(i8, i8, i8),
    UCHAR3(u8, u8, u8),
    BCHAR3(u8, u8, u8),
    ACHAR3(u8, u8, u8),
    DOUBLEH(u32),
    DOUBLEL(u32),
    RESVD(u32),
    UDEF { value: u32, type_id: u8 },
}

/// The highest type identifier that names a variant of its own.
pub const LAST_DEFINED_TYPE_ID: u8 = 0x20;

/// Four payload bytes: a sixteen-bit value followed by two zero bytes.
pub open spec fn short_bytes(v: u16) -> Seq<u8> {
    seq![u16_byte(v, 0), u16_byte(v, 1), 0u8, 0u8]
}

/// Four payload bytes: two sixteen-bit values, one after the other.
pub open spec fn short2_bytes(a: u16, b: u16) -> Seq<u8> {
    seq![u16_byte(a, 0), u16_byte(a, 1), u16_byte(b, 0), u16_byte(b, 1)]
}

impl DataType {
    /// The one-byte tag that names the variant on the wire.
    pub open spec fn spec_type_id(&self) -> u8 {
        match *self {
            DataType::NODATA => 0x0,
            DataType::ERROR(_) => 0x1,
            DataType::FLOAT(_) => 0x2,
            DataType::LONG(_) => 0x3,
            DataType::ULONG(_) => 0x4,
            DataType::BLONG(_) => 0x5,
            DataType::SHORT(_) => 0x6,
            DataType::USHORT(_) => 0x7,
            DataType::BSHORT(_) => 0x8,
            DataType::CHAR(_) => 0x9,
            DataType::UCHAR(_) => 0xA,
            DataType::BCHAR(_) => 0xB,
            DataType::SHORT2(_, _) => 0xC,
            DataType::USHORT2(_, _) => 0xD,
            DataType::BSHORT2(_, _) => 0xE,
            DataType::CHAR4(_, _, _, _) => 0xF,
            DataType::UCHAR4(_, _, _, _) => 0x10,
            DataType::BCHAR4(_, _, _, _) => 0x11,
            DataType::CHAR2(_, _) => 0x12,
            DataType::UCHAR2(_, _) => 0x13,
            DataType::BCHAR2(_, _) => 0x14,
            DataType::MEMID(_) => 0x15,
            DataType::CHKSUM(_) => 0x16,
            DataType::ACHAR(_) => 0x17,
            DataType::ACHAR2(_, _) => 0x18,
            DataType::ACHAR4(_, _, _, _) => 0x19,
            DataType::CHAR3(_, _, _) => 0x1A,
            DataType::UCHAR3(_, _, _) => 0x1B,
            DataType::BCHAR3(_, _, _) => 0x1C,
            DataType::ACHAR3(_, _, _) => 0x1D,
            DataType::DOUBLEH(_) => 0x1E,
            DataType::DOUBLEL(_) => 0x1F,
            DataType::RESVD(_) => 0x20,
            DataType::UDEF { value: _, type_id } => type_id,
        }
    }

    /// The number of payload bytes that carry the value.
    pub open spec fn spec_len(&self) -> u8 {
        match *self {
            DataType::NODATA | DataType::RESVD(_) => 0,
            DataType::CHAR(_) | DataType::UCHAR(_) | DataType::BCHAR(_) | DataType::ACHAR(_) => 1,
            DataType::SHORT(_)
            | DataType::USHORT(_)
            | DataType::BSHORT(_)
            | DataType::CHAR2(_, _)
            | DataType::UCHAR2(_, _)
            | DataType::BCHAR2(_, _)
            | DataType::ACHAR2(_, _) => 2,
            DataType::CHAR3(_, _, _)
            | DataType::UCHAR3(_, _, _)
            | DataType::BCHAR3(_, _, _)
            | DataType::ACHAR3(_, _, _) => 3,
            _ => 4,
        }
    }

    /// The four payload bytes of the value: numbers big-endian, several
    /// fields in order, unused trailing bytes zero.
    pub open spec fn spec_bytes(&self) -> Seq<u8> {
        match *self {
            DataType::NODATA => seq![0u8, 0u8, 0u8, 0u8],
            DataType::ERROR(d)
            | DataType::FLOAT(d)
            | DataType::ULONG(d)
            | DataType::BLONG(d)
            | DataType::MEMID(d)
            | DataType::CHKSUM(d)
            | DataType::DOUBLEH(d)
            | DataType::DOUBLEL(d)
            | DataType::RESVD(d) => u32_be_bytes(d),
            DataType::UDEF { value, type_id: _ } => u32_be_bytes(value),
            DataType::LONG(d) => u32_be_bytes(u32_of(d)),
            DataType::SHORT(d) => short_bytes(u16_of(d)),
            DataType::USHORT(d) | DataType::BSHORT(d) => short_bytes(d),
            DataType::CHAR(a) => seq![u8_of(a), 0u8, 0u8, 0u8],
            DataType::UCHAR(a) | DataType::BCHAR(a) | DataType::ACHAR(a) => seq![a, 0u8, 0u8, 0u8],
            DataType::SHORT2(a, b) => short2_bytes(u16_of(a), u16_of(b)),
            DataType::USHORT2(a, b) | DataType::BSHORT2(a, b) => short2_bytes(a, b),
            DataType::CHAR2(a, b) => seq![u8_of(a), u8_of(b), 0u8, 0u8],
            DataType::UCHAR2(a, b) | DataType::BCHAR2(a, b) | DataType::ACHAR2(a, b) => seq![
                a,
                b,
                0u8,
                0u8,
            ],
            DataType::CHAR3(a, b, c) => seq![u8_of(a), u8_of(b), u8_of(c), 0u8],
            DataType::UCHAR3(a, b, c) | DataType::BCHAR3(a, b, c) | DataType::ACHAR3(a, b, c) => seq![
                a,
                b,
                c,
                0u8,
            ],
            DataType::CHAR4(a, b, c, d) => seq![u8_of(a), u8_of(b), u8_of(c), u8_of(d)],
            DataType::UCHAR4(a, b, c, d)
            | DataType::BCHAR4(a, b, c, d)
            | DataType::ACHAR4(a, b, c, d) => seq![a, b, c, d],
        }
    }

    /// The value that the tag `t` and the payload bytes `s` stand for. Bytes
    /// that `s` lacks count as zero, and a tag without a variant of its own
    /// gives `UDEF` with the tag and the big-endian number of the payload.
    pub open spec fn decode(t: u8, s: Seq<u8>) -> DataType {
        let b0 = byte_at(s, 0);
        let b1 = byte_at(s, 1);
        let b2 = byte_at(s, 2);
        let b3 = byte_at(s, 3);
        let long = be_u32(b0, b1, b2, b3);
        let first = be_u16(b0, b1);
        let second = be_u16(b2, b3);
        if t == 0x0 {
            DataType::NODATA
        } else if t == 0x1 {
            DataType::ERROR(long)
        } else if t == 0x2 {
            DataType::FLOAT(long)
        } else if t == 0x3 {
            DataType::LONG(i32_of(long))
        } else if t == 0x4 {
            DataType::ULONG(long)
        } else if t == 0x5 {
            DataType::BLONG(long)
        } else if t == 0x6 {
            DataType::SHORT(i16_of(first))
        } else if t == 0x7 {
            DataType::USHORT(first)
        } else if t == 0x8 {
            DataType::BSHORT(first)
        } else if t == 0x9 {
            DataType::CHAR(i8_of(b0))
        } else if t == 0xA {
            DataType::UCHAR(b0)
        } else if t == 0xB {
            DataType::BCHAR(b0)
        } else if t == 0xC {
            DataType::SHORT2(i16_of(first), i16_of(second))
        } else if t == 0xD {
            DataType::USHORT2(first, second)
        } else if t == 0xE {
            DataType::BSHORT2(first, second)
        } else if t == 0xF {
            DataType::CHAR4(i8_of(b0), i8_of(b1), i8_of(b2), i8_of(b3))
        } else if t == 0x10 {
            DataType::UCHAR4(b0, b1, b2, b3)
        } else if t == 0x11 {
            DataType::BCHAR4(b0, b1, b2, b3)
        } else if t == 0x12 {
            DataType::CHAR2(i8_of(b0), i8_of(b1))
        } else if t == 0x13 {
            DataType::UCHAR2(b0, b1)
        } else if t == 0x14 {
            DataType::BCHAR2(b0, b1)
        } else if t == 0x15 {
            DataType::MEMID(long)
        } else if t == 0x16 {
            DataType::CHKSUM(long)
        } else if t == 0x17 {
            DataType::ACHAR(b0)
        } else if t == 0x18 {
            DataType::ACHAR2(b0, b1)
        } else if t == 0x19 {
            DataType::ACHAR4(b0, b1, b2, b3)
        } else if t == 0x1A {
            DataType::CHAR3(i8_of(b0), i8_of(b1), i8_of(b2))
        } else if t == 0x1B {
            DataType::UCHAR3(b0, b1, b2)
        } else if t == 0x1C {
            DataType::BCHAR3(b0, b1, b2)
        } else if t == 0x1D {
            DataType::ACHAR3(b0, b1, b2)
        } else if t == 0x1E {
            DataType::DOUBLEH(long)
        } else if t == 0x1F {
            DataType::DOUBLEL(long)
        } else if t == 0x20 {
            DataType::RESVD(long)
        } else {
            DataType::UDEF { value: long, type_id: t }
        }
    }

    /// Whether decoding gives the value back: every value but a `UDEF` that
    /// borrows the tag of another variant.
    pub open spec fn is_canonical(&self) -> bool {
        *self matches DataType::UDEF { value: _, type_id } ==> type_id > LAST_DEFINED_TYPE_ID
    }

    /// The tag that names the variant on the wire.
    #[verifier::when_used_as_spec(spec_type_id)]
    pub fn type_id(&self) -> (id: u8)
        ensures
            id == self.spec_type_id(),
    {
        match *self {
            DataType::NODATA => 0x0,
            DataType::ERROR(_) => 0x1,
            DataType::FLOAT(_) => 0x2,
            DataType::LONG(_) => 0x3,
            DataType::ULONG(_) => 0x4,
            DataType::BLONG(_) => 0x5,
            DataType::SHORT(_) => 0x6,
            DataType::USHORT(_) => 0x7,
            DataType::BSHORT(_) => 0x8,
            DataType::CHAR(_) => 0x9,
            DataType::UCHAR(_) => 0xA,
            DataType::BCHAR(_) => 0xB,
            DataType::SHORT2(_, _) => 0xC,
            DataType::USHORT2(_, _) => 0xD,
            DataType::BSHORT2(_, _) => 0xE,
            DataType::CHAR4(_, _, _, _) => 0xF,
            DataType::UCHAR4(_, _, _, _) => 0x10,
            DataType::BCHAR4(_, _, _, _) => 0x11,
            DataType::CHAR2(_, _) => 0x12,
            DataType::UCHAR2(_, _) => 0x13,
            DataType::BCHAR2(_, _) => 0x14,
            DataType::MEMID(_) => 0x15,
            DataType::CHKSUM(_) => 0x16,
            DataType::ACHAR(_) => 0x17,
            DataType::ACHAR2(_, _) => 0x18,
            DataType::ACHAR4(_, _, _, _) => 0x19,
            DataType::CHAR3(_, _, _) => 0x1A,
            DataType::UCHAR3(_, _, _) => 0x1B,
            DataType::BCHAR3(_, _, _) => 0x1C,
            DataType::ACHAR3(_, _, _) => 0x1D,
            DataType::DOUBLEH(_) => 0x1E,
            DataType::DOUBLEL(_) => 0x1F,
            DataType::RESVD(_) => 0x20,
            DataType::UDEF { value: _, type_id } => type_id,
        }
    }

    /// Whether the value is `NODATA`.
    pub fn is_empty(&self) -> (empty: bool)
        ensures
            empty == (*self == DataType::NODATA),
    {
        match *self {
            DataType::NODATA => true,
            _ => false,
        }
    }

    /// The number of payload bytes that carry the value: the width of the
    /// logical type, and zero for `NODATA` and `RESVD`.
    #[verifier::when_used_as_spec(spec_len)]
    pub fn len(&self) -> (n: u8)
        ensures
            n == self.spec_len(),
    {
        match *self {
            DataType::NODATA | DataType::RESVD(_) => 0,
            DataType::ERROR(_)
            | DataType::FLOAT(_)
            | DataType::LONG(_)
            | DataType::ULONG(_)
            | DataType::BLONG(_)
            | DataType::SHORT2(_, _)
            | DataType::USHORT2(_, _)
            | DataType::BSHORT2(_, _)
            | DataType::CHAR4(_, _, _, _)
            | DataType::UCHAR4(_, _, _, _)
            | DataType::BCHAR4(_, _, _, _)
            | DataType::MEMID(_)
            | DataType::CHKSUM(_)
            | DataType::ACHAR4(_, _, _, _)
            | DataType::DOUBLEH(_)
            | DataType::DOUBLEL(_) => 4,
            DataType::SHORT(_)
            | DataType::USHORT(_)
            | DataType::BSHORT(_)
            | DataType::CHAR2(_, _)
            | DataType::UCHAR2(_, _)
            | DataType::BCHAR2(_, _)
            | DataType::ACHAR2(_, _) => 2,
            DataType::CHAR(_) | DataType::UCHAR(_) | DataType::BCHAR(_) | DataType::ACHAR(_) => 1,
            DataType::CHAR3(_, _, _)
            | DataType::UCHAR3(_, _, _)
            | DataType::BCHAR3(_, _, _)
            | DataType::ACHAR3(_, _, _) => 3,
            DataType::UDEF { value: _, type_id: _ } => 4,
        }
    }

    /// Encodes the value as its four payload bytes.
    pub fn to_be_bytes(self) -> (bytes: [u8; 4])
        ensures
            bytes@ == self.spec_bytes(),
    {
        let bytes: [u8; 4] = match self {
            DataType::NODATA => [0, 0, 0, 0],
            DataType::ERROR(d) => u32_to_be(d),
            DataType::FLOAT(d) => u32_to_be(d),
            DataType::LONG(d) => u32_to_be(i32_as_u32(d)),
            DataType::ULONG(d) => u32_to_be(d),
            DataType::BLONG(d) => u32_to_be(d),
            DataType::SHORT(d) => {
                let d_bytes = u16_to_be(i16_as_u16(d));
                [d_bytes[0], d_bytes[1], 0, 0]
            },
            DataType::USHORT(d) | DataType::BSHORT(d) => {
                let d_bytes = u16_to_be(d);
                [d_bytes[0], d_bytes[1], 0, 0]
            },
            DataType::CHAR(d) => [i8_as_u8(d), 0, 0, 0],
            DataType::UCHAR(d) => [d, 0, 0, 0],
            DataType::BCHAR(d) => [d, 0, 0, 0],
            DataType::SHORT2(a, b) => {
                let a_bytes = u16_to_be(i16_as_u16(a));
                let b_bytes = u16_to_be(i16_as_u16(b));
                [a_bytes[0], a_bytes[1], b_bytes[0], b_bytes[1]]
            },
            DataType::USHORT2(a, b) | DataType::BSHORT2(a, b) => {
                let a_bytes = u16_to_be(a);
                let b_bytes = u16_to_be(b);
                [a_bytes[0], a_bytes[1], b_bytes[0], b_bytes[1]]
            },
            DataType::CHAR4(a, b, c, d) => [i8_as_u8(a), i8_as_u8(b), i8_as_u8(c), i8_as_u8(d)],
            DataType::UCHAR4(a, b, c, d) => [a, b, c, d],
            DataType::BCHAR4(a, b, c, d) => [a, b, c, d],
            DataType::CHAR2(a, b) => [i8_as_u8(a), i8_as_u8(b), 0, 0],
            DataType::UCHAR2(a, b) => [a, b, 0, 0],
            DataType::BCHAR2(a, b) => [a, b, 0, 0],
            DataType::MEMID(d) => u32_to_be(d),
            DataType::CHKSUM(d) => u32_to_be(d),
            DataType::ACHAR(a) => [a, 0, 0, 0],
            DataType::ACHAR2(a, b) => [a, b, 0, 0],
            DataType::ACHAR4(a, b, c, d) => [a, b, c, d],
            DataType::CHAR3(a, b, c) => [i8_as_u8(a), i8_as_u8(b), i8_as_u8(c), 0],
            DataType::UCHAR3(a, b, c) => [a, b, c, 0],
            DataType::BCHAR3(a, b, c) => [a, b, c, 0],
            DataType::ACHAR3(a, b, c) => [a, b, c, 0],
            DataType::DOUBLEH(d) => u32_to_be(d),
            DataType::DOUBLEL(d) => u32_to_be(d),
            DataType::RESVD(d) => u32_to_be(d),
            DataType::UDEF { value, type_id: _ } => u32_to_be(value),
        };
        assert(bytes@ =~= self.spec_bytes());
        bytes
    }
}

impl From<(u8, &[u8])> for DataType {
    /// Decodes a payload from its tag and its bytes. Every tag and every
    /// slice gives a value: see [`DataType::decode`].
    fn from(data: (u8, &[u8])) -> (value: DataType) {
        let (t, arr) = data;
        let b0: u8 = if arr.len() > 0 { arr[0] } else { 0 };
        let b1: u8 = if arr.len() > 1 { arr[1] } else { 0 };
        let b2: u8 = if arr.len() > 2 { arr[2] } else { 0 };
        let b3: u8 = if arr.len() > 3 { arr[3] } else { 0 };
        let long = as_u32(arr);
        let first = as_u16(arr);
        let second = u16_from_be(b2, b3);
        match t {
            0x0 => DataType::NODATA,
            0x1 => DataType::ERROR(long),
            0x2 => DataType::FLOAT(long),
            0x3 => DataType::LONG(u32_as_i32(long)),
            0x4 => DataType::ULONG(long),
            0x5 => DataType::BLONG(long),
            0x6 => DataType::SHORT(u16_as_i16(first)),
            0x7 => DataType::USHORT(first),
            0x8 => DataType::BSHORT(first),
            0x9 => DataType::CHAR(u8_as_i8(b0)),
            0xA => DataType::UCHAR(b0),
            0xB => DataType::BCHAR(b0),
            0xC => DataType::SHORT2(u16_as_i16(first), u16_as_i16(second)),
            0xD => DataType::USHORT2(first, second),
            0xE => DataType::BSHORT2(first, second),
            0xF => DataType::CHAR4(u8_as_i8(b0), u8_as_i8(b1), u8_as_i8(b2), u8_as_i8(b3)),
            0x10 => DataType::UCHAR4(b0, b1, b2, b3),
            0x11 => DataType::BCHAR4(b0, b1, b2, b3),
            0x12 => DataType::CHAR2(u8_as_i8(b0), u8_as_i8(b1)),
            0x13 => DataType::UCHAR2(b0, b1),
            0x14 => DataType::BCHAR2(b0, b1),
            0x15 => DataType::MEMID(long),
            0x16 => DataType::CHKSUM(long),
            0x17 => DataType::ACHAR(b0),
            0x18 => DataType::ACHAR2(b0, b1),
            0x19 => DataType::ACHAR4(b0, b1, b2, b3),
            0x1A => DataType::CHAR3(u8_as_i8(b0), u8_as_i8(b1), u8_as_i8(b2)),
            0x1B => DataType::UCHAR3(b0, b1, b2),
            0x1C => DataType::BCHAR3(b0, b1, b2),
            0x1D => DataType::ACHAR3(b0, b1, b2),
            0x1E => DataType::DOUBLEH(long),
            0x1F => DataType::DOUBLEL(long),
            0x20 => DataType::RESVD(long),
            _ => DataType::UDEF { value: long, type_id: t },
        }
    }
}

impl FromSpecImpl<(u8, &[u8])> for DataType {
    open spec fn obeys_from_spec() -> bool {
        true
    }

    open spec fn from_spec(data: (u8, &[u8])) -> DataType {
        DataType::decode(data.0, data.1@)
    }
}

/// Decoding undoes encoding: a value that is encoded under its own tag and
/// decoded again comes back unchanged. The one exception is a `UDEF` that
/// carries the tag of another variant, which decodes as that variant.
pub proof fn lemma_decode_encode(v: DataType)
    requires
        v.is_canonical(),
    ensures
        DataType::decode(v.spec_type_id(), v.spec_bytes()) == v,
{
    let s = v.spec_bytes();
    let long = be_u32(byte_at(s, 0), byte_at(s, 1), byte_at(s, 2), byte_at(s, 3));
    let first = be_u16(byte_at(s, 0), byte_at(s, 1));
    let second = be_u16(byte_at(s, 2), byte_at(s, 3));
    match v {
        DataType::ERROR(d)
        | DataType::FLOAT(d)
        | DataType::ULONG(d)
        | DataType::BLONG(d)
        | DataType::MEMID(d)
        | DataType::CHKSUM(d)
        | DataType::DOUBLEH(d)
        | DataType::DOUBLEL(d)
        | DataType::RESVD(d) => {
            lemma_u32_bytes_roundtrip(d);
        },
        DataType::UDEF { value, type_id: _ } => {
            lemma_u32_bytes_roundtrip(value);
        },
        DataType::LONG(d) => {
            lemma_u32_bytes_roundtrip(u32_of(d));
            lemma_twos_complement_roundtrip(0, 0, 0, 0, 0, d);
        },
        DataType::SHORT(d) => {
            lemma_u16_bytes_roundtrip(u16_of(d));
            lemma_twos_complement_roundtrip(0, 0, 0, 0, d, 0);
        },
        DataType::USHORT(d) | DataType::BSHORT(d) => {
            lemma_u16_bytes_roundtrip(d);
        },
        DataType::SHORT2(a, b) => {
            lemma_u16_bytes_roundtrip(u16_of(a));
            lemma_u16_bytes_roundtrip(u16_of(b));
            lemma_twos_complement_roundtrip(0, 0, 0, 0, a, 0);
            lemma_twos_complement_roundtrip(0, 0, 0, 0, b, 0);
        },
        DataType::USHORT2(a, b) | DataType::BSHORT2(a, b) => {
            lemma_u16_bytes_roundtrip(a);
            lemma_u16_bytes_roundtrip(b);
        },
        DataType::CHAR(a) => {
            lemma_twos_complement_roundtrip(0, 0, 0, a, 0, 0);
        },
        DataType::CHAR2(a, b) => {
            lemma_twos_complement_roundtrip(0, 0, 0, a, 0, 0);
            lemma_twos_complement_roundtrip(0, 0, 0, b, 0, 0);
        },
        DataType::CHAR3(a, b, c) => {
            lemma_twos_complement_roundtrip(0, 0, 0, a, 0, 0);
            lemma_twos_complement_roundtrip(0, 0, 0, b, 0, 0);
            lemma_twos_complement_roundtrip(0, 0, 0, c, 0, 0);
        },
        DataType::CHAR4(a, b, c, d) => {
            lemma_twos_complement_roundtrip(0, 0, 0, a, 0, 0);
            lemma_twos_complement_roundtrip(0, 0, 0, b, 0, 0);
            lemma_twos_complement_roundtrip(0, 0, 0, c, 0, 0);
            lemma_twos_complement_roundtrip(0, 0, 0, d, 0, 0);
        },
        _ => {},
    }
}

/// A tag above the last defined one is kept as it is: the decoded value
/// reports that tag and carries the big-endian number of the first four
/// payload bytes.
pub proof fn lemma_decode_undefined(id: u8, bytes: Seq<u8>)
    requires
        id > LAST_DEFINED_TYPE_ID,
    ensures
        DataType::decode(id, bytes).spec_type_id() == id,
        DataType::decode(id, bytes) == (DataType::UDEF {
            value: be_u32(byte_at(bytes, 0), byte_at(bytes, 1), byte_at(bytes, 2), byte_at(bytes, 3)),
            type_id: id,
        }),
{
}

/// Every tag survives decoding, defined or not.
pub proof fn lemma_decode_keeps_type_id(id: u8, bytes: Seq<u8>)
    ensures
        DataType::decode(id, bytes).spec_type_id() == id,
{
}

} // verus!
