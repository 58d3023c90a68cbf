//! The node engine: what a node does with each frame that arrives.
//!
//! A node answers identification requests that are addressed to it by
//! itself and queues every other frame that concerns it, for the
//! application to read lowest identifier first.

use vstd::prelude::*;
use vstd::multiset::Multiset;
use crate::driver::CANAerospaceDriver;
use crate::message::{CANAerospaceFrame, CANAerospaceMessage};
use crate::queue::{frame_of, item_of, least_item, QueueItem, RxQueue, RX_QUEUE_CAPACITY};
use crate::types::{
    DataType, HardwareRevision, IDSConfiguration, IDSHeaderConfiguration, IDSResponse,
    MessageType, ServiceCodeEnum, SoftwareRevision,
};

verus! {

/// The node id that addresses every node.
pub const BROADCAST_NODE_ID: u8 = 0;

/// What the rules of the protocol ask a node to do with a frame.
#[derive(Clone, Copy, Debug)]
pub enum Disposition {
    /// The frame is dropped: it belongs to no class, its class does not own
    /// its identifier, or it is a service request for another node.
    Discard,
    /// The frame is kept for the application.
    Enqueue,
    /// The frame is an identification request for this node and is answered
    /// with the frame held here.
    Answer(CANAerospaceFrame),
}

/// What became of a frame that a node was given.
#[derive(Clone, Copy, Debug)]
pub enum Outcome {
    /// The frame was dropped as the rules ask.
    Discarded,
    /// The frame was queued.
    Queued,
    /// The frame was to be queued and found the queue full.
    Dropped,
    /// The frame was answered: the frame held here was given to the driver.
    Answered(CANAerospaceFrame),
}

/// A frame that the driver delivered, with what became of it.
#[derive(Clone, Copy, Debug)]
pub struct Receipt {
    pub frame: CANAerospaceFrame,
    pub outcome: Outcome,
}

/// Whether the frame asks a node for a service: a node service class that
/// owns its identifier, on an even channel.
pub open spec fn is_service_request(frame: CANAerospaceFrame) -> bool {
    &&& frame.message_type is NSH || frame.message_type is NSL
    &&& frame.message_type.in_range()
    &&& frame.message_type.raw() % 2 == 0
}

/// Whether a service request with this target is meant for the node.
pub open spec fn is_addressed_to(node_id: u8, frame: CANAerospaceFrame) -> bool {
    frame.message.node_id == node_id || frame.message.node_id == BROADCAST_NODE_ID
}

/// The class of the answer to a request: the same class on the next channel.
pub open spec fn reply_type(request: MessageType) -> MessageType {
    match request {
        MessageType::NSH(id) => MessageType::NSH((id + 1) as u16),
        MessageType::NSL(id) => MessageType::NSL((id + 1) as u16),
        other => other,
    }
}

/// The answer of a node to an identification request.
pub open spec fn identification_reply(
    node_id: u8,
    identification: IDSResponse,
    request: CANAerospaceFrame,
) -> CANAerospaceMessage {
    CANAerospaceMessage {
        message_type: reply_type(request.message_type),
        node_id,
        service_code: ServiceCodeEnum::IDS,
        message_code: request.message.message_code,
        data: DataType::UCHAR4(
            identification.hw_rev.0,
            identification.sw_rev.0,
            identification.configuration.0,
            identification.header,
        ),
    }
}

/// What a node does with a service request.
pub open spec fn service_disposition(
    node_id: u8,
    identification: IDSResponse,
    frame: CANAerospaceFrame,
) -> Disposition {
    if !is_addressed_to(node_id, frame) {
        Disposition::Discard
    } else if ServiceCodeEnum::of_byte(frame.message.service_code) == ServiceCodeEnum::IDS {
        Disposition::Answer(
            CANAerospaceFrame::encode(identification_reply(node_id, identification, frame)),
        )
    } else {
        Disposition::Enqueue
    }
}

/// What a node does with a frame.
pub open spec fn disposition(
    node_id: u8,
    identification: IDSResponse,
    frame: CANAerospaceFrame,
) -> Disposition {
    if frame.message_type is INVALID || !frame.message_type.in_range() {
        Disposition::Discard
    } else if is_service_request(frame) {
        service_disposition(node_id, identification, frame)
    } else {
        Disposition::Enqueue
    }
}

/// What becomes of a frame once the rules have spoken: a frame to be queued
/// is dropped where the queue is full.
pub open spec fn outcome_of(disposition: Disposition, queued: nat) -> Outcome {
    match disposition {
        Disposition::Discard => Outcome::Discarded,
        Disposition::Enqueue => if queued < RX_QUEUE_CAPACITY {
            Outcome::Queued
        } else {
            Outcome::Dropped
        },
        Disposition::Answer(reply) => Outcome::Answered(reply),
    }
}

/// The answer to an identification request: a request that is addressed to
/// the node, or to all nodes, is answered on the next channel of the same
/// class, which that class owns too, by a frame that holds the node's id,
/// the tag of four unsigned characters, the identification service code,
/// the message code of the request, and the four bytes that the node
/// reports about itself.
pub proof fn lemma_identification_reply(
    node_id: u8,
    identification: IDSResponse,
    request: CANAerospaceFrame,
)
    requires
        is_service_request(request),
        is_addressed_to(node_id, request),
        request.message.service_code == 0,
    ensures
        disposition(node_id, identification, request) matches Disposition::Answer(reply) && {
            &&& reply.message_type.in_range()
            &&& reply.message_type.raw() == request.message_type.raw() + 1
            &&& reply.message_type is NSH <==> request.message_type is NSH
            &&& reply.message.spec_bytes() == seq![
                node_id,
                0x10u8,
                0u8,
                request.message.message_code,
                identification.hw_rev.0,
                identification.sw_rev.0,
                identification.configuration.0,
                identification.header,
            ]
        },
{
    let reply = CANAerospaceFrame::encode(identification_reply(node_id, identification, request));
    assert(reply.message.spec_bytes() =~= seq![
        node_id,
        0x10u8,
        0u8,
        request.message.message_code,
        identification.hw_rev.0,
        identification.sw_rev.0,
        identification.configuration.0,
        identification.header,
    ]);
}

/// The rules of dispatch, case by case: a frame of no class, or of a class
/// that does not own its identifier, is dropped; so is a service request for
/// another node; a service request for this node that is no identification
/// request is kept; and every other frame is kept, a service reply on an odd
/// channel among them.
pub proof fn lemma_disposition_cases(
    node_id: u8,
    identification: IDSResponse,
    frame: CANAerospaceFrame,
)
    ensures
        frame.message_type is INVALID || !frame.message_type.in_range() ==> disposition(
            node_id,
            identification,
            frame,
        ) is Discard,
        is_service_request(frame) && !is_addressed_to(node_id, frame) ==> disposition(
            node_id,
            identification,
            frame,
        ) is Discard,
        is_service_request(frame) && is_addressed_to(node_id, frame) && frame.message.service_code
            != 0 ==> disposition(node_id, identification, frame) is Enqueue,
        frame.message_type.in_range() && !(frame.message_type is INVALID) && !is_service_request(
            frame,
        ) ==> disposition(node_id, identification, frame) is Enqueue,
        disposition(node_id, identification, frame) is Answer ==> is_service_request(frame)
            && is_addressed_to(node_id, frame) && frame.message.service_code == 0,
{
}

/// What a node does with a frame depends on the frame's class, target and
/// service code alone: the payload and the message code play no part in the
/// choice between dropping, keeping and answering.
pub proof fn lemma_disposition_ignores_payload(
    node_id: u8,
    identification: IDSResponse,
    a: CANAerospaceFrame,
    b: CANAerospaceFrame,
)
    requires
        a.message_type == b.message_type,
        a.message.node_id == b.message.node_id,
        a.message.service_code == b.message.service_code,
    ensures
        disposition(node_id, identification, a) is Discard <==> disposition(
            node_id,
            identification,
            b,
        ) is Discard,
        disposition(node_id, identification, a) is Enqueue <==> disposition(
            node_id,
            identification,
            b,
        ) is Enqueue,
{
}

/// A CANaerospace node: its id, what it reports about itself, the driver
/// that it sends and receives through, and the frames that wait to be read.
#[derive(Debug)]
pub struct CANAerospaceLite<D: CANAerospaceDriver> {
    pub node_id: u8,
    pub identification: IDSResponse,
    pub nod_count: u8,
    pub driver: D,
    pub rx_queue: RxQueue,
}

impl<D: CANAerospaceDriver> CANAerospaceLite<D> {
    /// The invariant of a node: that of its queue.
    pub open spec fn wf(&self) -> bool {
        self.rx_queue.wf()
    }

    /// Whether the node is `before` with nothing changed but, possibly, the
    /// driver.
    pub open spec fn same_state_as(&self, before: &Self) -> bool {
        &&& self.node_id == before.node_id
        &&& self.identification == before.identification
        &&& self.nod_count == before.nod_count
        &&& self.rx_queue == before.rx_queue
    }

    /// What the node does with a service request.
    pub open spec fn spec_service_disposition(&self, frame: CANAerospaceFrame) -> Disposition {
        service_disposition(self.node_id, self.identification, frame)
    }

    /// What the node does with a frame.
    pub open spec fn spec_disposition(&self, frame: CANAerospaceFrame) -> Disposition {
        disposition(self.node_id, self.identification, frame)
    }

    /// A node with the given id and driver, an empty queue, and revisions
    /// and configuration of zero.
    pub fn new(node_id: u8, driver: D) -> (node: Self)
        ensures
            node.wf(),
            node.node_id == node_id,
            node.driver == driver,
            node.nod_count == 0,
            node.identification == (IDSResponse {
                hw_rev: HardwareRevision(0),
                sw_rev: SoftwareRevision(0),
                configuration: IDSConfiguration(0),
                header: 0,
            }),
            node.rx_queue@ == Multiset::<QueueItem>::empty(),
    {
        Self {
            node_id,
            identification: IDSResponse {
                hw_rev: HardwareRevision(0),
                sw_rev: SoftwareRevision(0),
                configuration: IDSConfiguration(0),
                header: 0,
            },
            nod_count: 0,
            driver,
            rx_queue: RxQueue::new(),
        }
    }

    /// Sets the hardware revision that identification answers report.
    pub fn set_hw_revision(&mut self, rev: HardwareRevision)
        ensures
            *final(self) == (CANAerospaceLite {
                identification: IDSResponse { hw_rev: rev, ..old(self).identification },
                ..*old(self)
            }),
    {
        self.identification.hw_rev = rev;
    }

    /// Sets the software revision that identification answers report.
    pub fn set_sw_revision(&mut self, rev: SoftwareRevision)
        ensures
            *final(self) == (CANAerospaceLite {
                identification: IDSResponse { sw_rev: rev, ..old(self).identification },
                ..*old(self)
            }),
    {
        self.identification.sw_rev = rev;
    }

    /// Sets the configuration byte that identification answers report.
    pub fn set_ids_configuration(&mut self, conf: IDSConfiguration)
        ensures
            *final(self) == (CANAerospaceLite {
                identification: IDSResponse { configuration: conf, ..old(self).identification },
                ..*old(self)
            }),
    {
        self.identification.configuration = conf;
    }

    /// Sets the header configuration byte that identification answers
    /// report.
    pub fn set_message_header_conf(&mut self, conf: IDSHeaderConfiguration)
        ensures
            *final(self) == (CANAerospaceLite {
                identification: IDSResponse { header: conf, ..old(self).identification },
                ..*old(self)
            }),
    {
        self.identification.header = conf;
    }

    /// Sends a message of the application through the driver, encoded as it
    /// stands: the node id of the message is not rewritten. Returns the
    /// frame that the driver was given.
    pub fn send_message(&mut self, message: CANAerospaceMessage) -> (sent: CANAerospaceFrame)
        ensures
            sent == CANAerospaceFrame::encode(message),
            final(self).same_state_as(old(self)),
    {
        let frame = CANAerospaceFrame::from(message);
        self.driver.send_frame(frame);
        frame
    }

    /// Takes the frame with the lowest identifier out of the queue and
    /// decodes it. `None` where nothing is queued.
    pub fn read_message(&mut self) -> (message: Option<CANAerospaceMessage>)
        requires
            old(self).wf(),
        ensures
            final(self).wf(),
            final(self).node_id == old(self).node_id,
            final(self).identification == old(self).identification,
            final(self).nod_count == old(self).nod_count,
            final(self).driver == old(self).driver,
            message is None <==> old(self).rx_queue@.len() == 0,
            message is None ==> final(self).rx_queue@ == old(self).rx_queue@,
            message matches Some(m) ==> {
                &&& m == CANAerospaceMessage::decode(frame_of(least_item(old(self).rx_queue@)))
                &&& old(self).rx_queue@.contains(least_item(old(self).rx_queue@))
                &&& final(self).rx_queue@ == old(self).rx_queue@.remove(
                    least_item(old(self).rx_queue@),
                )
            },
    {
        match self.rx_queue.pop() {
            Some(frame) => Some(CANAerospaceMessage::from(frame)),
            None => None,
        }
    }

    /// Decides what the rules ask the node to do with `frame`, without doing
    /// it.
    pub fn decide(&self, frame: &CANAerospaceFrame) -> (disposition: Disposition)
        ensures
            disposition == self.spec_disposition(*frame),
    {
        if !frame.message_type.is_valid() {
            return Disposition::Discard;
        }
        match frame.message_type {
            MessageType::NSH(id) | MessageType::NSL(id) => {
                if id % 2 == 0 {
                    self.decide_service_request(frame)
                } else {
                    Disposition::Enqueue
                }
            },
            MessageType::INVALID => Disposition::Discard,
            _ => Disposition::Enqueue,
        }
    }

    /// Decides what the node does with a service request: it answers an
    /// identification request that is addressed to it or to all nodes,
    /// keeps any other request so addressed, and drops the rest.
    pub fn decide_service_request(&self, frame: &CANAerospaceFrame) -> (disposition: Disposition)
        requires
            is_service_request(*frame),
        ensures
            disposition == self.spec_service_disposition(*frame),
    {
        if frame.message.node_id == self.node_id || frame.message.node_id == BROADCAST_NODE_ID {
            match ServiceCodeEnum::from(frame.message.service_code) {
                ServiceCodeEnum::IDS => {
                    let response_message_type = match frame.message_type {
                        MessageType::NSH(id) => MessageType::NSH(id + 1),
                        MessageType::NSL(id) => MessageType::NSL(id + 1),
                        _ => frame.message_type,
                    };
                    let message = CANAerospaceMessage {
                        message_type: response_message_type,
                        node_id: self.node_id,
                        service_code: ServiceCodeEnum::IDS,
                        message_code: frame.message.message_code,
                        data: DataType::UCHAR4(
                            self.identification.hw_rev.0,
                            self.identification.sw_rev.0,
                            self.identification.configuration.0,
                            self.identification.header,
                        ),
                    };
                    Disposition::Answer(CANAerospaceFrame::from(message))
                },
                _ => Disposition::Enqueue,
            }
        } else {
            Disposition::Discard
        }
    }

    /// Carries out what was decided for `frame`: gives an answer to the
    /// driver, queues the frame where there is room, or does nothing.
    fn carry_out(&mut self, frame: CANAerospaceFrame, disposition: Disposition) -> (outcome:
        Outcome)
        requires
            old(self).wf(),
            disposition is Enqueue ==> frame.message_type.in_range(),
        ensures
            final(self).wf(),
            final(self).node_id == old(self).node_id,
            final(self).identification == old(self).identification,
            final(self).nod_count == old(self).nod_count,
            outcome == outcome_of(disposition, old(self).rx_queue@.len()),
            outcome is Queued ==> final(self).rx_queue@ == old(self).rx_queue@.insert(
                item_of(frame),
            ),
            !(outcome is Queued) ==> final(self).rx_queue@ == old(self).rx_queue@,
            !(outcome is Answered) ==> final(self).driver == old(self).driver,
    {
        match disposition {
            Disposition::Discard => Outcome::Discarded,
            Disposition::Enqueue => {
                match self.rx_queue.push(frame) {
                    Ok(()) => Outcome::Queued,
                    Err(_) => Outcome::Dropped,
                }
            },
            Disposition::Answer(reply) => {
                self.driver.send_frame(reply);
                Outcome::Answered(reply)
            },
        }
    }

    /// Handles a service request: see
    /// [`CANAerospaceLite::decide_service_request`].
    pub fn handle_service_request(&mut self, frame: CANAerospaceFrame) -> (outcome: Outcome)
        requires
            old(self).wf(),
            is_service_request(frame),
        ensures
            final(self).wf(),
            final(self).node_id == old(self).node_id,
            final(self).identification == old(self).identification,
            final(self).nod_count == old(self).nod_count,
            outcome == outcome_of(
                old(self).spec_service_disposition(frame),
                old(self).rx_queue@.len(),
            ),
            outcome is Queued ==> final(self).rx_queue@ == old(self).rx_queue@.insert(
                item_of(frame),
            ),
            !(outcome is Queued) ==> final(self).rx_queue@ == old(self).rx_queue@,
            !(outcome is Answered) ==> final(self).driver == old(self).driver,
    {
        let disposition = self.decide_service_request(&frame);
        self.carry_out(frame, disposition)
    }

    /// Handles a frame that has arrived, whatever it is.
    pub fn handle_frame(&mut self, frame: CANAerospaceFrame) -> (outcome: Outcome)
        requires
            old(self).wf(),
        ensures
            final(self).wf(),
            final(self).node_id == old(self).node_id,
            final(self).identification == old(self).identification,
            final(self).nod_count == old(self).nod_count,
            outcome == outcome_of(old(self).spec_disposition(frame), old(self).rx_queue@.len()),
            outcome is Queued ==> final(self).rx_queue@ == old(self).rx_queue@.insert(
                item_of(frame),
            ),
            !(outcome is Queued) ==> final(self).rx_queue@ == old(self).rx_queue@,
            !(outcome is Answered) ==> final(self).driver == old(self).driver,
    {
        let disposition = self.decide(&frame);
        self.carry_out(frame, disposition)
    }

    /// Asks the driver for a frame and handles the one it gives, if any.
    /// The call does not wait. The receipt names the frame that arrived and
    /// what became of it; `None` means that no frame was pending.
    pub fn notify_receive_event(&mut self) -> (receipt: Option<Receipt>)
        requires
            old(self).wf(),
        ensures
            final(self).wf(),
            final(self).node_id == old(self).node_id,
            final(self).identification == old(self).identification,
            final(self).nod_count == old(self).nod_count,
            receipt is None ==> final(self).rx_queue@ == old(self).rx_queue@,
            receipt matches Some(r) ==> {
                &&& r.outcome == outcome_of(
                    old(self).spec_disposition(r.frame),
                    old(self).rx_queue@.len(),
                )
                &&& r.outcome is Queued ==> final(self).rx_queue@ == old(self).rx_queue@.insert(
                    item_of(r.frame),
                )
                &&& !(r.outcome is Queued) ==> final(self).rx_queue@ == old(self).rx_queue@
            },
    {
        match self.driver.recv_frame() {
            Some(frame) => {
                let outcome = self.handle_frame(frame);
                Some(Receipt { frame, outcome })
            },
            None => None,
        }
    }
}

} // verus!
