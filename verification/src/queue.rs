//! The receive queue: a bounded priority queue of frames, lowest identifier
//! first.
//!
//! The frames are kept in a `heapless::BinaryHeap`. The heap orders its items
//! itself, so each frame is stored as a tuple of integers that holds all of
//! it, with the identifier in front.

use vstd::prelude::*;
use vstd::multiset::Multiset;
use crate::bytes::{
    be_u32, lemma_u32_from_bytes_roundtrip, u32_byte, u32_from_be, u32_to_be,
};
use crate::message::{CANAerospaceFrame, Payload, RawMessage};
use crate::types::{lemma_classify_inverts_raw, lemma_classify_roundtrip, MessageType};

verus! {

/// The number of frames that the queue has room for.
pub const RX_QUEUE_CAPACITY: usize = 10;

/// A frame as the heap holds it: identifier, the four header bytes as one
/// big-endian number, the count of payload bytes sent, and the four payload
/// bytes as one big-endian number.
pub type QueueItem = (u16, u32, u8, u32);

/// `heapless::binary_heap::Min`, the marker of a heap that hands out its
/// least item first.
#[verifier::external_type_specification]
#[verifier::external_body]
pub struct ExMin(heapless::binary_heap::Min);

/// `heapless::BinaryHeap`, a binary heap of at most `N` items. Nothing of
/// its inside is known here.
#[verifier::external_type_specification]
#[verifier::external_body]
#[verifier::reject_recursive_types(T)]
#[verifier::reject_recursive_types(K)]
pub struct ExBinaryHeap<T, K, const N: usize>(heapless::BinaryHeap<T, K, N>);

/// The heap that holds the queued frames.
pub type RxHeap = heapless::BinaryHeap<QueueItem, heapless::binary_heap::Min, RX_QUEUE_CAPACITY>;

/// What a push answers: `Ok`, or the item that found no room.
pub type Pushed = Result<(), QueueItem>;

/// The items that a heap holds, each as often as it was pushed and not yet
/// popped.
pub uninterp spec fn heap_items(heap: RxHeap) -> Multiset<QueueItem>;

/// The order of tuples of integers: by the first component, then by the
/// second where the first are equal, and so on.
pub open spec fn item_le(a: QueueItem, b: QueueItem) -> bool {
    a.0 < b.0 || (a.0 == b.0 && (a.1 < b.1 || (a.1 == b.1 && (a.2 < b.2 || (a.2 == b.2 && a.3
        <= b.3)))))
}

/// Whether `item` is in `items` and no item of `items` comes before it.
pub open spec fn is_least(items: Multiset<QueueItem>, item: QueueItem) -> bool {
    &&& items.contains(item)
    &&& forall|other: QueueItem| #[trigger] items.contains(other) ==> item_le(item, other)
}

/// `heapless::BinaryHeap::new`: the heap it returns holds nothing.
#[verifier::external_body]
fn heap_new() -> (heap: RxHeap)
    ensures
        heap_items(heap) == Multiset::<QueueItem>::empty(),
{
    heapless::BinaryHeap::new()
}

/// `heapless::BinaryHeap::len`: the number of items held.
#[verifier::external_body]
fn heap_len(heap: &RxHeap) -> (n: usize)
    ensures
        n == heap_items(*heap).len(),
{
    heap.len()
}

/// `heapless::BinaryHeap::push`: a heap that holds fewer items than its
/// capacity takes the item and answers `Ok`; a full heap stays as it is and
/// hands the item back.
#[verifier::external_body]
fn heap_push(heap: &mut RxHeap, item: QueueItem) -> (pushed: Pushed)
    ensures
        heap_items(*old(heap)).len() < RX_QUEUE_CAPACITY ==> pushed is Ok
            && heap_items(*final(heap)) == heap_items(*old(heap)).insert(item),
        heap_items(*old(heap)).len() == RX_QUEUE_CAPACITY ==> pushed == Pushed::Err(item)
            && heap_items(*final(heap)) == heap_items(*old(heap)),
{
    heap.push(item)
}

/// `heapless::BinaryHeap::pop` on a min-heap: an empty heap gives `None`;
/// otherwise one copy of the least item leaves the heap and is returned.
#[verifier::external_body]
fn heap_pop(heap: &mut RxHeap) -> (popped: Option<QueueItem>)
    ensures
        popped is None <==> heap_items(*old(heap)).len() == 0,
        popped is None ==> heap_items(*final(heap)) == heap_items(*old(heap)),
        popped matches Some(item) ==> is_least(heap_items(*old(heap)), item) && heap_items(
            *final(heap),
        ) == heap_items(*old(heap)).remove(item),
{
    heap.pop()
}

/// The item that stands for a frame in the heap.
pub open spec fn item_of(frame: CANAerospaceFrame) -> QueueItem {
    (
        frame.key(),
        be_u32(
            frame.message.node_id,
            frame.message.data_type,
            frame.message.service_code,
            frame.message.message_code,
        ),
        frame.message.payload.len,
        be_u32(
            frame.message.payload.data@[0],
            frame.message.payload.data@[1],
            frame.message.payload.data@[2],
            frame.message.payload.data@[3],
        ),
    )
}

/// The frame that an item stands for.
pub open spec fn frame_of(item: QueueItem) -> CANAerospaceFrame {
    CANAerospaceFrame {
        message_type: MessageType::classify(item.0),
        message: RawMessage {
            node_id: u32_byte(item.1, 0),
            data_type: u32_byte(item.1, 1),
            service_code: u32_byte(item.1, 2),
            message_code: u32_byte(item.1, 3),
            payload: Payload {
                len: item.2,
                data: [
                    u32_byte(item.3, 0),
                    u32_byte(item.3, 1),
                    u32_byte(item.3, 2),
                    u32_byte(item.3, 3),
                ],
            },
        },
    }
}

/// A frame whose class owns its identifier is kept whole by the heap: the
/// item that stands for it stands for no other frame.
pub proof fn lemma_frame_of_item(frame: CANAerospaceFrame)
    requires
        frame.message_type.in_range(),
    ensures
        frame_of(item_of(frame)) == frame,
{
    let m = frame.message;
    let d = m.payload.data@;
    lemma_classify_inverts_raw(frame.message_type);
    lemma_u32_from_bytes_roundtrip(m.node_id, m.data_type, m.service_code, m.message_code);
    lemma_u32_from_bytes_roundtrip(d[0], d[1], d[2], d[3]);
    assert(frame_of(item_of(frame)).message.payload.data =~= m.payload.data);
}

/// Two frames whose classes own their identifiers have the same item only
/// where they are the same frame.
pub proof fn lemma_item_of_injective(a: CANAerospaceFrame, b: CANAerospaceFrame)
    requires
        a.message_type.in_range(),
        b.message_type.in_range(),
        item_of(a) == item_of(b),
    ensures
        a == b,
{
    lemma_frame_of_item(a);
    lemma_frame_of_item(b);
}

/// The order of the items is total, so a multiset has at most one least
/// item; and an item with a lower identifier comes first whatever else it
/// holds.
pub proof fn lemma_item_order(a: QueueItem, b: QueueItem, c: QueueItem)
    ensures
        item_le(a, a),
        item_le(a, b) || item_le(b, a),
        item_le(a, b) && item_le(b, a) ==> a == b,
        item_le(a, b) && item_le(b, c) ==> item_le(a, c),
        a.0 < b.0 ==> item_le(a, b) && !item_le(b, a),
        item_le(a, b) ==> a.0 <= b.0,
{
}

/// The item of `items` that comes first, where `items` is not empty.
pub open spec fn least_item(items: Multiset<QueueItem>) -> QueueItem {
    choose|item: QueueItem| is_least(items, item)
}

/// A multiset has one least item at most: whatever is least in `items` is
/// `least_item(items)`.
pub proof fn lemma_least_item_unique(items: Multiset<QueueItem>, item: QueueItem)
    requires
        is_least(items, item),
    ensures
        least_item(items) == item,
        item.0 <= least_item(items).0,
{
    let chosen = least_item(items);
    assert(is_least(items, chosen));
    assert(item_le(item, chosen) && item_le(chosen, item));
}

/// Frames leave the queue lowest identifier first: the identifier of the
/// least item is no higher than that of any other item.
pub proof fn lemma_least_has_lowest_identifier(items: Multiset<QueueItem>, other: QueueItem)
    requires
        items.len() > 0,
        items.contains(other),
    ensures
        items.contains(least_item(items)),
        least_item(items).0 <= other.0,
{
    lemma_least_exists(items);
}

/// A multiset that is not empty has a least item.
pub proof fn lemma_least_exists(items: Multiset<QueueItem>)
    requires
        items.len() > 0,
    ensures
        is_least(items, least_item(items)),
    decreases items.len(),
{
    broadcast use vstd::multiset::group_multiset_axioms;

    let first = items.choose();
    assert(items.contains(first));
    let rest = items.remove(first);
    assert(Multiset::singleton(first).subset_of(items)) by {
        assert forall|x: QueueItem| Multiset::singleton(first).count(x) <= items.count(x) by {
            if x != first {
                assert(Multiset::singleton(first).count(x) == 0);
            }
        }
    }
    if rest.len() == 0 {
        assert forall|x: QueueItem| #[trigger] items.contains(x) implies item_le(first, x) by {
            if x != first {
                assert(rest.count(x) == items.count(x));
                assert(rest.count(x) <= rest.len());
            }
        }
        assert(is_least(items, first));
    } else {
        lemma_least_exists(rest);
        let m = least_item(rest);
        assert(items.contains(m));
        let least = if item_le(first, m) { first } else { m };
        assert forall|x: QueueItem| #[trigger] items.contains(x) implies item_le(least, x) by {
            if x != first {
                assert(rest.contains(x));
                assert(item_le(m, x));
            }
        }
        assert(is_least(items, least));
    }
}

/// Whether each item of `items` is the one that stands for its own frame.
pub open spec fn all_exact(items: Multiset<QueueItem>) -> bool {
    forall|item: QueueItem| #[trigger] items.contains(item) ==> item_of(frame_of(item)) == item
}

/// Adding an exact item keeps a multiset of exact items so, and makes it
/// one longer.
proof fn lemma_insert_keeps_exact(items: Multiset<QueueItem>, item: QueueItem)
    requires
        all_exact(items),
        item_of(frame_of(item)) == item,
    ensures
        all_exact(items.insert(item)),
        items.insert(item).len() == items.len() + 1,
{
    broadcast use vstd::multiset::group_multiset_axioms;

    assert forall|other: QueueItem| #[trigger]
        items.insert(item).contains(other) implies item_of(frame_of(other)) == other by {
        if other != item {
            assert(items.contains(other));
        }
    }
}

/// Taking an item out keeps a multiset of exact items so, and makes it one
/// shorter.
proof fn lemma_remove_keeps_exact(items: Multiset<QueueItem>, item: QueueItem)
    requires
        all_exact(items),
        items.contains(item),
    ensures
        all_exact(items.remove(item)),
        items.remove(item).len() == items.len() - 1,
{
    broadcast use vstd::multiset::group_multiset_axioms;

    assert(Multiset::singleton(item).subset_of(items)) by {
        assert forall|other: QueueItem|
            Multiset::singleton(item).count(other) <= items.count(other) by {
            if other != item {
                assert(Multiset::singleton(item).count(other) == 0);
            }
        }
    }
    assert forall|other: QueueItem| #[trigger]
        items.remove(item).contains(other) implies item_of(frame_of(other)) == other by {
        assert(items.contains(other));
    }
}

/// The receive queue of a node: at most `RX_QUEUE_CAPACITY` frames, handed
/// out lowest identifier first.
///
/// The model of the queue is the multiset of the items that stand for its
/// frames (see [`item_of`]).
#[derive(Debug)]
pub struct RxQueue {
    heap: RxHeap,
}

impl View for RxQueue {
    type V = Multiset<QueueItem>;

    closed spec fn view(&self) -> Multiset<QueueItem> {
        heap_items(self.heap)
    }
}

impl RxQueue {
    /// The invariant of the queue: it holds no more frames than it has room
    /// for, and each item is the one that stands for its own frame.
    pub closed spec fn wf(&self) -> bool {
        &&& self@.len() <= RX_QUEUE_CAPACITY
        &&& all_exact(self@)
    }

    /// An empty queue.
    pub fn new() -> (queue: Self)
        ensures
            queue.wf(),
            queue@ == Multiset::<QueueItem>::empty(),
    {
        broadcast use vstd::multiset::group_multiset_axioms;

        RxQueue { heap: heap_new() }
    }

    /// The number of queued frames.
    pub fn len(&self) -> (n: usize)
        requires
            self.wf(),
        ensures
            n == self@.len(),
            n <= RX_QUEUE_CAPACITY,
    {
        heap_len(&self.heap)
    }

    /// Whether no frame is queued.
    pub fn is_empty(&self) -> (empty: bool)
        ensures
            empty == (self@.len() == 0),
    {
        heap_len(&self.heap) == 0
    }

    /// Whether the queue has no room left.
    pub fn is_full(&self) -> (full: bool)
        requires
            self.wf(),
        ensures
            full == (self@.len() == RX_QUEUE_CAPACITY),
    {
        heap_len(&self.heap) >= RX_QUEUE_CAPACITY
    }

    /// Queues `frame`. A frame whose class does not own its identifier, and
    /// any frame while the queue is full, is handed back and the queue stays
    /// as it was.
    pub fn push(&mut self, frame: CANAerospaceFrame) -> (pushed: Result<(), CANAerospaceFrame>)
        requires
            old(self).wf(),
        ensures
            final(self).wf(),
            frame.message_type.in_range() && old(self)@.len() < RX_QUEUE_CAPACITY ==> pushed is Ok
                && final(self)@ == old(self)@.insert(item_of(frame)),
            !(frame.message_type.in_range() && old(self)@.len() < RX_QUEUE_CAPACITY) ==> pushed
                == Err::<(), CANAerospaceFrame>(frame) && final(self)@ == old(self)@,
    {
        if !frame.message_type.is_valid() {
            return Err(frame);
        }
        let item = to_item(&frame);
        let pushed = heap_push(&mut self.heap, item);
        proof {
            lemma_frame_of_item(frame);
            lemma_insert_keeps_exact(old(self)@, item);
        }
        match pushed {
            Ok(()) => Ok(()),
            Err(_) => Err(frame),
        }
    }

    /// Takes out the frame with the lowest identifier; among frames with the
    /// same identifier, the one whose item comes first. `None` where the
    /// queue is empty.
    pub fn pop(&mut self) -> (popped: Option<CANAerospaceFrame>)
        requires
            old(self).wf(),
        ensures
            final(self).wf(),
            popped is None <==> old(self)@.len() == 0,
            popped is None ==> final(self)@ == old(self)@,
            popped matches Some(frame) ==> {
                &&& frame == frame_of(least_item(old(self)@))
                &&& item_of(frame) == least_item(old(self)@)
                &&& frame.message_type.in_range()
                &&& is_least(old(self)@, item_of(frame))
                &&& final(self)@ == old(self)@.remove(item_of(frame))
            },
    {
        match heap_pop(&mut self.heap) {
            None => None,
            Some(item) => {
                let frame = from_item(item);
                proof {
                    lemma_classify_roundtrip(item.0);
                    lemma_remove_keeps_exact(old(self)@, item);
                    lemma_least_item_unique(old(self)@, item);
                }
                Some(frame)
            },
        }
    }
}

/// Packs a frame into the item that stands for it.
fn to_item(frame: &CANAerospaceFrame) -> (item: QueueItem)
    ensures
        item == item_of(*frame),
{
    let m = &frame.message;
    (
        frame.message_type.raw_id(),
        u32_from_be(m.node_id, m.data_type, m.service_code, m.message_code),
        m.payload.len,
        u32_from_be(m.payload.data[0], m.payload.data[1], m.payload.data[2], m.payload.data[3]),
    )
}

/// Unpacks the frame that an item stands for.
fn from_item(item: QueueItem) -> (frame: CANAerospaceFrame)
    ensures
        frame == frame_of(item),
{
    let head = u32_to_be(item.1);
    let data = u32_to_be(item.3);
    let frame = CANAerospaceFrame {
        message_type: MessageType::from(item.0),
        message: RawMessage {
            node_id: head[0],
            data_type: head[1],
            service_code: head[2],
            message_code: head[3],
            payload: Payload { len: item.2, data },
        },
    };
    assert(frame.message.payload.data =~= frame_of(item).message.payload.data);
    frame
}

} // verus!
