//! The wire body of a CAN frame and the decoded message that it carries.
//!
//! A CANaerospace frame body is eight bytes: node id, data type tag, service
//! code, message code, and four payload bytes.

use vstd::prelude::*;
use vstd::std_specs::cmp::{PartialEqSpecImpl, PartialOrdSpecImpl};
use vstd::std_specs::convert::FromSpecImpl;
use core::cmp::Ordering;
use crate::bytes::byte_at;
use crate::error::CANAerospaceError;
use crate::types::{
    lemma_decode_encode, lemma_service_code_roundtrip, DataType, MessageCode, MessageType, NodeId,
    ServiceCode, ServiceCodeEnum,
};

verus! {

/// The number of bytes in the header of a frame body.
pub const HEADER_LEN: usize = 4;

/// The number of payload bytes that a frame body has room for.
pub const PAYLOAD_LEN: usize = 4;

/// The highest identifier of a standard CAN frame.
pub const MAX_STANDARD_ID: u16 = 0x7FF;

/// The first eight bytes of `s`, with zero for each byte that `s` lacks.
pub open spec fn pad8(s: Seq<u8>) -> Seq<u8> {
    seq![
        byte_at(s, 0),
        byte_at(s, 1),
        byte_at(s, 2),
        byte_at(s, 3),
        byte_at(s, 4),
        byte_at(s, 5),
        byte_at(s, 6),
        byte_at(s, 7),
    ]
}

/// The payload bytes of a frame body, with the number of them that were sent.
#[derive(Clone, Copy, Debug, PartialEq, Eq)]
pub struct Payload {
    pub len: u8,
    pub data: [u8; 4],
}

impl Payload {
    /// Whether the payload is one that bytes can be read as: at most four
    /// bytes were sent and the bytes after them are zero.
    pub open spec fn wf(&self) -> bool {
        &&& self.len <= PAYLOAD_LEN
        &&& forall|i: int| self.len <= i < PAYLOAD_LEN ==> self.data@[i] == 0
    }

    /// The payload that the bytes `s` are read as: the first four of them,
    /// zero-padded, and the count of those that `s` has.
    pub open spec fn read(s: Seq<u8>) -> Payload {
        Payload::of_bytes(if s.len() <= PAYLOAD_LEN { s.len() as u8 } else { 4u8 }, s)
    }

    /// The payload of `len` sent bytes whose four bytes are those of `s`,
    /// zero-padded.
    pub open spec fn of_bytes(len: u8, s: Seq<u8>) -> Payload {
        Payload { len, data: [byte_at(s, 0), byte_at(s, 1), byte_at(s, 2), byte_at(s, 3)] }
    }

    /// Reads a payload from the bytes that follow the header. Bytes after
    /// the fourth are dropped, so every slice gives a payload.
    pub fn new(arr: &[u8]) -> (payload: Option<Self>)
        ensures
            payload == Some(Payload::read(arr@)),
            Payload::read(arr@).wf(),
    {
        let b0: u8 = if arr.len() > 0 { arr[0] } else { 0 };
        let b1: u8 = if arr.len() > 1 { arr[1] } else { 0 };
        let b2: u8 = if arr.len() > 2 { arr[2] } else { 0 };
        let b3: u8 = if arr.len() > 3 { arr[3] } else { 0 };
        let len: u8 = if arr.len() >= PAYLOAD_LEN { 4 } else { arr.len() as u8 };
        let p = Payload { len, data: [b0, b1, b2, b3] };
        assert(p.data =~= Payload::read(arr@).data);
        Some(p)
    }
}

impl FromSpecImpl<&DataType> for Payload {
    open spec fn obeys_from_spec() -> bool {
        true
    }

    open spec fn from_spec(data: &DataType) -> Payload {
        Payload::of_bytes(4, data.spec_bytes())
    }
}

impl From<&DataType> for Payload {
    /// The four-byte payload that encodes `data`.
    fn from(data: &DataType) -> (payload: Payload)
        ensures
            payload.data@ == data.spec_bytes(),
            payload.wf(),
    {
        let payload = Payload { len: 4, data: data.to_be_bytes() };
        assert(payload.data =~= Payload::of_bytes(4, data.spec_bytes()).data);
        payload
    }
}

impl FromSpecImpl<[u8; 0]> for Payload {
    open spec fn obeys_from_spec() -> bool {
        true
    }

    open spec fn from_spec(arr: [u8; 0]) -> Payload {
        Payload::read(arr@)
    }
}

impl From<[u8; 0]> for Payload {
    /// The payload of which no byte was sent.
    fn from(arr: [u8; 0]) -> (payload: Payload)
        ensures
            payload == Payload::read(arr@),
            payload.wf(),
    {
        let payload = Payload { len: 0, data: [0, 0, 0, 0] };
        assert(payload.data =~= Payload::of_bytes(payload.len, arr@).data);
        payload
    }
}

impl FromSpecImpl<[u8; 1]> for Payload {
    open spec fn obeys_from_spec() -> bool {
        true
    }

    open spec fn from_spec(arr: [u8; 1]) -> Payload {
        Payload::read(arr@)
    }
}

impl From<[u8; 1]> for Payload {
    /// The payload of which the one byte of `arr` was sent.
    fn from(arr: [u8; 1]) -> (payload: Payload)
        ensures
            payload == Payload::read(arr@),
            payload.wf(),
    {
        let payload = Payload { len: 1, data: [arr[0], 0, 0, 0] };
        assert(payload.data =~= Payload::of_bytes(payload.len, arr@).data);
        payload
    }
}

impl FromSpecImpl<[u8; 2]> for Payload {
    open spec fn obeys_from_spec() -> bool {
        true
    }

    open spec fn from_spec(arr: [u8; 2]) -> Payload {
        Payload::read(arr@)
    }
}

impl From<[u8; 2]> for Payload {
    /// The payload of which the two bytes of `arr` were sent.
    fn from(arr: [u8; 2]) -> (payload: Payload)
        ensures
            payload == Payload::read(arr@),
            payload.wf(),
    {
        let payload = Payload { len: 2, data: [arr[0], arr[1], 0, 0] };
        assert(payload.data =~= Payload::of_bytes(payload.len, arr@).data);
        payload
    }
}

impl FromSpecImpl<[u8; 3]> for Payload {
    open spec fn obeys_from_spec() -> bool {
        true
    }

    open spec fn from_spec(arr: [u8; 3]) -> Payload {
        Payload::read(arr@)
    }
}

impl From<[u8; 3]> for Payload {
    /// The payload of which the three bytes of `arr` were sent.
    fn from(arr: [u8; 3]) -> (payload: Payload)
        ensures
            payload == Payload::read(arr@),
            payload.wf(),
    {
        let payload = Payload { len: 3, data: [arr[0], arr[1], arr[2], 0] };
        assert(payload.data =~= Payload::of_bytes(payload.len, arr@).data);
        payload
    }
}

impl FromSpecImpl<[u8; 4]> for Payload {
    open spec fn obeys_from_spec() -> bool {
        true
    }

    open spec fn from_spec(arr: [u8; 4]) -> Payload {
        Payload::read(arr@)
    }
}

impl From<[u8; 4]> for Payload {
    /// The payload of which the four bytes of `arr` were sent.
    fn from(arr: [u8; 4]) -> (payload: Payload)
        ensures
            payload == Payload::read(arr@),
            payload.wf(),
    {
        let payload = Payload { len: 4, data: [arr[0], arr[1], arr[2], arr[3]] };
        assert(payload.data =~= Payload::of_bytes(payload.len, arr@).data);
        payload
    }
}

/// The body of a CAN frame: the four header bytes and the payload.
#[derive(Clone, Copy, Debug, PartialEq, Eq)]
pub struct RawMessage {
    pub node_id: u8,
    pub data_type: u8,
    pub service_code: u8,
    pub message_code: u8,
    pub payload: Payload,
}

impl RawMessage {
    /// The message that the bytes `s` are read as, where they hold a header.
    pub open spec fn read(s: Seq<u8>) -> RawMessage {
        RawMessage {
            node_id: byte_at(s, 0),
            data_type: byte_at(s, 1),
            service_code: byte_at(s, 2),
            message_code: byte_at(s, 3),
            payload: Payload::read(s.skip(HEADER_LEN as int)),
        }
    }

    /// The eight bytes that the message is sent as.
    pub open spec fn spec_bytes(&self) -> Seq<u8> {
        seq![
            self.node_id,
            self.data_type,
            self.service_code,
            self.message_code,
            self.payload.data@[0],
            self.payload.data@[1],
            self.payload.data@[2],
            self.payload.data@[3],
        ]
    }

    /// The eight bytes that the message is sent as, as an array.
    pub open spec fn spec_array(&self) -> [u8; 8] {
        [
            self.node_id,
            self.data_type,
            self.service_code,
            self.message_code,
            self.payload.data@[0],
            self.payload.data@[1],
            self.payload.data@[2],
            self.payload.data@[3],
        ]
    }

    /// Reads a frame body. The first four bytes are the header and up to
    /// four that follow are the payload; later bytes are dropped. Fewer than
    /// four bytes hold no header and are refused as `MalformedFrame`.
    pub fn from_bytes(data: &[u8]) -> (message: Result<Self, CANAerospaceError>)
        ensures
            data@.len() < HEADER_LEN ==> message == Err::<Self, CANAerospaceError>(
                CANAerospaceError::MalformedFrame,
            ),
            data@.len() >= HEADER_LEN ==> message == Ok::<Self, CANAerospaceError>(
                RawMessage::read(data@),
            ),
            RawMessage::read(data@).payload.wf(),
    {
        let n = data.len();
        if n < HEADER_LEN {
            return Err(CANAerospaceError::MalformedFrame);
        }
        let b0: u8 = if n > 4 { data[4] } else { 0 };
        let b1: u8 = if n > 5 { data[5] } else { 0 };
        let b2: u8 = if n > 6 { data[6] } else { 0 };
        let b3: u8 = if n > 7 { data[7] } else { 0 };
        let len: u8 = if n >= HEADER_LEN + PAYLOAD_LEN { 4 } else { (n - HEADER_LEN) as u8 };
        let payload = Payload { len, data: [b0, b1, b2, b3] };
        assert(payload.data =~= Payload::read(data@.skip(HEADER_LEN as int)).data);
        Ok(
            RawMessage {
                node_id: data[0],
                data_type: data[1],
                service_code: data[2],
                message_code: data[3],
                payload,
            },
        )
    }

    /// Reads a frame body as [`RawMessage::from_bytes`] does, with `None`
    /// for bytes that hold no header.
    pub fn new(data: &[u8]) -> (message: Option<Self>)
        ensures
            data@.len() < HEADER_LEN ==> message is None,
            data@.len() >= HEADER_LEN ==> message == Some(RawMessage::read(data@)),
    {
        match RawMessage::from_bytes(data) {
            Ok(message) => Some(message),
            Err(_) => None,
        }
    }

    /// The message of eight zero bytes, of which no payload byte was sent.
    pub fn empty() -> (message: Self)
        ensures
            message == RawMessage::read(seq![0u8, 0u8, 0u8, 0u8]),
            message.payload.len == 0,
            message.spec_bytes() == seq![0u8, 0u8, 0u8, 0u8, 0u8, 0u8, 0u8, 0u8],
    {
        let message = RawMessage {
            node_id: 0,
            data_type: 0,
            service_code: 0,
            message_code: 0,
            payload: Payload { len: 0, data: [0, 0, 0, 0] },
        };
        assert(message.payload.data =~= RawMessage::read(seq![0u8, 0u8, 0u8, 0u8]).payload.data);
        assert(message.spec_bytes() =~= seq![0u8, 0u8, 0u8, 0u8, 0u8, 0u8, 0u8, 0u8]);
        message
    }

    /// The eight bytes that the message is sent as: the header, then the
    /// four payload bytes.
    pub fn to_bytes(&self) -> (bytes: [u8; 8])
        ensures
            bytes@ == self.spec_bytes(),
    {
        let bytes = [
            self.node_id,
            self.data_type,
            self.service_code,
            self.message_code,
            self.payload.data[0],
            self.payload.data[1],
            self.payload.data[2],
            self.payload.data[3],
        ];
        assert(bytes@ =~= self.spec_bytes());
        bytes
    }
}

impl FromSpecImpl<RawMessage> for [u8; 8] {
    open spec fn obeys_from_spec() -> bool {
        true
    }

    open spec fn from_spec(raw: RawMessage) -> [u8; 8] {
        raw.spec_array()
    }
}

impl From<RawMessage> for [u8; 8] {
    /// The eight bytes that the message is sent as.
    fn from(raw: RawMessage) -> (bytes: [u8; 8])
        ensures
            bytes@ == raw.spec_bytes(),
    {
        let bytes = raw.to_bytes();
        assert(bytes =~= raw.spec_array());
        bytes
    }
}

impl FromSpecImpl<[u8; 4]> for RawMessage {
    open spec fn obeys_from_spec() -> bool {
        true
    }

    open spec fn from_spec(arr: [u8; 4]) -> RawMessage {
        RawMessage::read(arr@)
    }
}

impl From<[u8; 4]> for RawMessage {
    /// The frame body with the header of `arr` and no payload byte.
    fn from(arr: [u8; 4]) -> (message: RawMessage)
        ensures
            message.payload.wf(),
    {
        let payload = Payload { len: 0, data: [0, 0, 0, 0] };
        assert(payload.data =~= Payload::read(arr@.skip(HEADER_LEN as int)).data);
        RawMessage {
            node_id: arr[0],
            data_type: arr[1],
            service_code: arr[2],
            message_code: arr[3],
            payload,
        }
    }
}

impl FromSpecImpl<[u8; 5]> for RawMessage {
    open spec fn obeys_from_spec() -> bool {
        true
    }

    open spec fn from_spec(arr: [u8; 5]) -> RawMessage {
        RawMessage::read(arr@)
    }
}

impl From<[u8; 5]> for RawMessage {
    /// The frame body with the header of `arr` and one payload byte.
    fn from(arr: [u8; 5]) -> (message: RawMessage)
        ensures
            message.payload.wf(),
    {
        let payload = Payload { len: 1, data: [arr[4], 0, 0, 0] };
        assert(payload.data =~= Payload::read(arr@.skip(HEADER_LEN as int)).data);
        RawMessage {
            node_id: arr[0],
            data_type: arr[1],
            service_code: arr[2],
            message_code: arr[3],
            payload,
        }
    }
}

impl FromSpecImpl<[u8; 6]> for RawMessage {
    open spec fn obeys_from_spec() -> bool {
        true
    }

    open spec fn from_spec(arr: [u8; 6]) -> RawMessage {
        RawMessage::read(arr@)
    }
}

impl From<[u8; 6]> for RawMessage {
    /// The frame body with the header of `arr` and two payload bytes.
    fn from(arr: [u8; 6]) -> (message: RawMessage)
        ensures
            message.payload.wf(),
    {
        let payload = Payload { len: 2, data: [arr[4], arr[5], 0, 0] };
        assert(payload.data =~= Payload::read(arr@.skip(HEADER_LEN as int)).data);
        RawMessage {
            node_id: arr[0],
            data_type: arr[1],
            service_code: arr[2],
            message_code: arr[3],
            payload,
        }
    }
}

impl FromSpecImpl<[u8; 7]> for RawMessage {
    open spec fn obeys_from_spec() -> bool {
        true
    }

    open spec fn from_spec(arr: [u8; 7]) -> RawMessage {
        RawMessage::read(arr@)
    }
}

impl From<[u8; 7]> for RawMessage {
    /// The frame body with the header of `arr` and three payload bytes.
    fn from(arr: [u8; 7]) -> (message: RawMessage)
        ensures
            message.payload.wf(),
    {
        let payload = Payload { len: 3, data: [arr[4], arr[5], arr[6], 0] };
        assert(payload.data =~= Payload::read(arr@.skip(HEADER_LEN as int)).data);
        RawMessage {
            node_id: arr[0],
            data_type: arr[1],
            service_code: arr[2],
            message_code: arr[3],
            payload,
        }
    }
}

impl FromSpecImpl<[u8; 8]> for RawMessage {
    open spec fn obeys_from_spec() -> bool {
        true
    }

    open spec fn from_spec(arr: [u8; 8]) -> RawMessage {
        RawMessage::read(arr@)
    }
}

impl From<[u8; 8]> for RawMessage {
    /// The frame body with the header of `arr` and all four payload bytes.
    fn from(arr: [u8; 8]) -> (message: RawMessage)
        ensures
            message.payload.wf(),
    {
        let payload = Payload { len: 4, data: [arr[4], arr[5], arr[6], arr[7]] };
        assert(payload.data =~= Payload::read(arr@.skip(HEADER_LEN as int)).data);
        RawMessage {
            node_id: arr[0],
            data_type: arr[1],
            service_code: arr[2],
            message_code: arr[3],
            payload,
        }
    }
}

impl FromSpecImpl<&RawMessage> for DataType {
    open spec fn obeys_from_spec() -> bool {
        true
    }

    open spec fn from_spec(message: &RawMessage) -> DataType {
        DataType::decode(message.data_type, message.payload.data@)
    }
}

impl From<&RawMessage> for DataType {
    /// Decodes the payload of a frame body under the tag in its header.
    fn from(message: &RawMessage) -> (value: DataType) {
        DataType::from((message.data_type, message.payload.data.as_slice()))
    }
}

/// A decoded message, as the application sees it.
#[derive(Clone, Copy, Debug, PartialEq, Eq)]
pub struct CANAerospaceMessage {
    /// The class of the message with its CAN identifier.
    pub message_type: MessageType,
    /// The addressed node for node service messages, the sender otherwise.
    pub node_id: NodeId,
    /// The service of a node service message.
    pub service_code: ServiceCodeEnum,
    /// The sequence number of the message.
    pub message_code: MessageCode,
    /// The payload.
    pub data: DataType,
}

impl CANAerospaceMessage {
    /// Whether encoding the message and decoding the frame gives it back:
    /// its service code and its payload are the ones that their own bytes
    /// are read as.
    pub open spec fn is_canonical(&self) -> bool {
        self.service_code.is_canonical() && self.data.is_canonical()
    }

    /// The message that a frame is decoded as.
    pub open spec fn decode(frame: CANAerospaceFrame) -> CANAerospaceMessage {
        CANAerospaceMessage {
            message_type: frame.message_type,
            node_id: frame.message.node_id,
            service_code: ServiceCodeEnum::of_byte(frame.message.service_code),
            message_code: frame.message.message_code,
            data: DataType::decode(frame.message.data_type, frame.message.payload.data@),
        }
    }

    /// Builds a message from its parts, reading the service code byte.
    pub fn new(
        message_type: MessageType,
        node_id: NodeId,
        service_code: ServiceCode,
        message_code: MessageCode,
        data: DataType,
    ) -> (message: Self)
        ensures
            message == (CANAerospaceMessage {
                message_type,
                node_id,
                service_code: ServiceCodeEnum::of_byte(service_code),
                message_code,
                data,
            }),
    {
        Self {
            message_type,
            node_id,
            service_code: ServiceCodeEnum::from(service_code),
            message_code,
            data,
        }
    }
}

impl FromSpecImpl<CANAerospaceFrame> for CANAerospaceMessage {
    open spec fn obeys_from_spec() -> bool {
        true
    }

    open spec fn from_spec(frame: CANAerospaceFrame) -> CANAerospaceMessage {
        CANAerospaceMessage::decode(frame)
    }
}

impl From<CANAerospaceFrame> for CANAerospaceMessage {
    /// Decodes a frame: the header fields are copied, the service code byte
    /// is read, and the payload is decoded under the tag in the header.
    fn from(frame: CANAerospaceFrame) -> (message: CANAerospaceMessage) {
        Self {
            message_type: frame.message_type,
            node_id: frame.message.node_id,
            service_code: ServiceCodeEnum::from(frame.message.service_code),
            message_code: frame.message.message_code,
            data: DataType::from((frame.message.data_type, frame.message.payload.data.as_slice())),
        }
    }
}

/// A frame body together with the class of the CAN identifier it came with.
///
/// Frames are compared by identifier alone: two frames with the same
/// identifier are equal whatever they carry.
#[derive(Clone, Copy, Debug)]
pub struct CANAerospaceFrame {
    /// The class of the message with its CAN identifier.
    pub message_type: MessageType,
    /// The frame body.
    pub message: RawMessage,
}

impl CANAerospaceFrame {
    /// The frame that a message is encoded as.
    pub open spec fn encode(message: CANAerospaceMessage) -> CANAerospaceFrame {
        CANAerospaceFrame {
            message_type: message.message_type,
            message: RawMessage {
                node_id: message.node_id,
                data_type: message.data.spec_type_id(),
                service_code: message.service_code.spec_as_u8(),
                message_code: message.message_code,
                payload: Payload::of_bytes(4, message.data.spec_bytes()),
            },
        }
    }

    /// The number that frames are ordered by: the identifier that the class
    /// wraps.
    pub open spec fn key(&self) -> u16 {
        self.message_type.raw()
    }

    /// How the frame compares to another by identifier.
    pub open spec fn ordering(&self, other: &Self) -> Ordering {
        if self.key() < other.key() {
            Ordering::Less
        } else if self.key() == other.key() {
            Ordering::Equal
        } else {
            Ordering::Greater
        }
    }

    /// The frame that a CAN frame with identifier `raw_id` and the given
    /// data bytes is read as, where the bytes hold a header. A frame without
    /// data gives the empty body.
    pub open spec fn read_can(raw_id: u32, data: Option<Seq<u8>>) -> CANAerospaceFrame {
        CANAerospaceFrame {
            message_type: if raw_id <= u16::MAX {
                MessageType::classify(raw_id as u16)
            } else {
                MessageType::INVALID
            },
            message: match data {
                Some(bytes) => RawMessage::read(bytes),
                None => RawMessage::read(seq![0u8, 0u8, 0u8, 0u8]),
            },
        }
    }

    /// The CAN identifier that the frame is sent under.
    pub open spec fn spec_can_id(&self) -> Result<u16, CANAerospaceError> {
        if !self.message_type.in_range() {
            Err(CANAerospaceError::OutOfRange)
        } else if self.message_type is INVALID {
            Ok(MAX_STANDARD_ID)
        } else {
            Ok(self.message_type.raw())
        }
    }

    /// Reads what a CAN controller received: the identifier is sorted into
    /// its class, `INVALID` where it is too large for any, and the data
    /// bytes are read as a frame body. A frame without data gives the empty
    /// body; data of fewer than four bytes is refused as `MalformedFrame`.
    pub fn from_can(raw_id: u32, data: Option<&[u8]>) -> (frame: Result<Self, CANAerospaceError>)
        ensures
            data matches Some(bytes) && bytes@.len() < HEADER_LEN ==> frame == Err::<
                Self,
                CANAerospaceError,
            >(CANAerospaceError::MalformedFrame),
            !(data matches Some(bytes) && bytes@.len() < HEADER_LEN) ==> frame == Ok::<
                Self,
                CANAerospaceError,
            >(
                CANAerospaceFrame::read_can(
                    raw_id,
                    match data {
                        Some(bytes) => Some(bytes@),
                        None => None,
                    },
                ),
            ),
    {
        let message_type = if raw_id <= 0xFFFF {
            MessageType::from(raw_id as u16)
        } else {
            MessageType::INVALID
        };
        let message = match data {
            Some(bytes) => {
                match RawMessage::from_bytes(bytes) {
                    Ok(message) => message,
                    Err(e) => {
                        return Err(e);
                    },
                }
            },
            None => RawMessage::empty(),
        };
        Ok(CANAerospaceFrame { message_type, message })
    }

    /// The CAN identifier to send the frame under: the identifier of its
    /// class, the highest standard identifier for `INVALID`, and
    /// `OutOfRange` where the class does not own the identifier it wraps.
    #[verifier::when_used_as_spec(spec_can_id)]
    pub fn can_id(&self) -> (id: Result<u16, CANAerospaceError>)
        ensures
            id == self.spec_can_id(),
            id matches Ok(n) ==> n <= MAX_STANDARD_ID,
    {
        if !self.message_type.is_valid() {
            return Err(CANAerospaceError::OutOfRange);
        }
        match self.message_type {
            MessageType::INVALID => Ok(MAX_STANDARD_ID),
            _ => Ok(self.message_type.raw_id()),
        }
    }

    /// Compares two frames by identifier.
    pub fn cmp(&self, other: &Self) -> (order: Ordering)
        ensures
            order == self.ordering(other),
    {
        let a = self.message_type.raw_id();
        let b = other.message_type.raw_id();
        if a < b {
            Ordering::Less
        } else if a == b {
            Ordering::Equal
        } else {
            Ordering::Greater
        }
    }
}

impl PartialEqSpecImpl for CANAerospaceFrame {
    open spec fn obeys_eq_spec() -> bool {
        true
    }

    open spec fn eq_spec(&self, other: &CANAerospaceFrame) -> bool {
        self.key() == other.key()
    }
}

impl PartialEq for CANAerospaceFrame {
    /// Whether the two frames have the same identifier.
    fn eq(&self, other: &Self) -> (equal: bool) {
        self.message_type.raw_id() == other.message_type.raw_id()
    }
}

impl Eq for CANAerospaceFrame {

}

impl PartialOrdSpecImpl for CANAerospaceFrame {
    open spec fn obeys_partial_cmp_spec() -> bool {
        true
    }

    open spec fn partial_cmp_spec(&self, other: &CANAerospaceFrame) -> Option<Ordering> {
        Some(self.ordering(other))
    }
}

impl PartialOrd for CANAerospaceFrame {
    /// Compares two frames by identifier; the order is total.
    fn partial_cmp(&self, other: &Self) -> (order: Option<Ordering>) {
        Some(self.cmp(other))
    }
}

impl FromSpecImpl<CANAerospaceMessage> for CANAerospaceFrame {
    open spec fn obeys_from_spec() -> bool {
        true
    }

    open spec fn from_spec(message: CANAerospaceMessage) -> CANAerospaceFrame {
        CANAerospaceFrame::encode(message)
    }
}

impl From<CANAerospaceMessage> for CANAerospaceFrame {
    /// Encodes a message: the tag is that of the payload, the service code
    /// byte that of the code, and all four payload bytes are sent.
    fn from(message: CANAerospaceMessage) -> (frame: CANAerospaceFrame) {
        let payload = Payload::from(message.data.to_be_bytes());
        assert(payload.data =~= Payload::of_bytes(4, message.data.spec_bytes()).data);
        Self {
            message_type: message.message_type,
            message: RawMessage {
                node_id: message.node_id,
                data_type: message.data.type_id(),
                service_code: message.service_code.as_u8(),
                message_code: message.message_code,
                payload,
            },
        }
    }
}

/// Decoding undoes encoding: a canonical message comes back unchanged from
/// the frame it is encoded as, and that frame carries the four payload bytes
/// of the data behind the header of the message.
pub proof fn lemma_encode_then_decode(message: CANAerospaceMessage)
    requires
        message.is_canonical(),
    ensures
        CANAerospaceMessage::decode(CANAerospaceFrame::encode(message)) == message,
        CANAerospaceFrame::encode(message).message.spec_bytes() == seq![
            message.node_id,
            message.data.spec_type_id(),
            message.service_code.spec_as_u8(),
            message.message_code,
        ] + message.data.spec_bytes(),
{
    let frame = CANAerospaceFrame::encode(message);
    assert(frame.message.payload.data@ =~= message.data.spec_bytes());
    lemma_decode_encode(message.data);
    lemma_service_code_roundtrip(0, message.service_code);
    assert(frame.message.spec_bytes() =~= seq![
        message.node_id,
        message.data.spec_type_id(),
        message.service_code.spec_as_u8(),
        message.message_code,
    ] + message.data.spec_bytes());
}

/// Frames are ordered by identifier alone, and the order is total: the
/// payload plays no part, exactly one of less, equal and greater holds, and
/// turning the frames round turns the answer round.
pub proof fn lemma_frame_order(a: CANAerospaceFrame, b: CANAerospaceFrame, c: CANAerospaceFrame)
    ensures
        a.message_type == b.message_type ==> a.ordering(&b) == Ordering::Equal,
        a.ordering(&b) == Ordering::Equal <==> a.key() == b.key(),
        a.ordering(&b) == Ordering::Less <==> b.ordering(&a) == Ordering::Greater,
        a.ordering(&b) != Ordering::Greater && b.ordering(&c) != Ordering::Greater ==> a.ordering(
            &c,
        ) != Ordering::Greater,
{
}

/// Writing undoes reading: a message read from at least four bytes is sent
/// as the first eight of those bytes, with zero for each that was missing.
pub proof fn lemma_read_then_write(s: Seq<u8>)
    requires
        s.len() >= HEADER_LEN,
    ensures
        RawMessage::read(s).spec_bytes() == pad8(s),
        RawMessage::read(s).spec_bytes().len() == HEADER_LEN + PAYLOAD_LEN,
        RawMessage::read(s).payload.wf(),
{
    assert(RawMessage::read(s).spec_bytes() =~= pad8(s));
}

/// Reading undoes writing for every message whose four payload bytes were
/// all sent: the eight bytes it is sent as are read as the message.
pub proof fn lemma_write_then_read(message: RawMessage)
    requires
        message.payload.len == PAYLOAD_LEN,
    ensures
        RawMessage::read(message.spec_bytes()) == message,
{
    assert(RawMessage::read(message.spec_bytes()).payload.data =~= message.payload.data);
}

} // verus!
