//! Batches: sequences of messages that the kernel applies as one transaction.
//!
//! A batch starts with a message that opens it and, once it is finalized,
//! ends with a message that closes it. In between stand the messages that
//! were added, each under a sequence number of its own. The bytes are kept in
//! pages: a message goes into the last page if it has room there, and into a
//! new page if not, so that no message is ever split.

use crate::netlink::{
    build_message, message, push_bytes, HEADER_LEN, MSG_BATCH_BEGIN, MSG_BATCH_END,
    SUBSYS_NFTABLES,
};
use crate::sys;
use crate::util::{ack_batch_end_messages, batch_page_size_from};
use crate::{MsgType, NlMsg};
use std::ops::Range;
use vstd::prelude::*;

verus! {

/// The kernel could not be asked, or gave an answer that makes no sense.
#[derive(Debug, Copy, Clone, PartialEq, Eq, Hash, Structural)]
pub struct NetlinkError;

impl NetlinkError {
    /// What went wrong, in words.
    pub fn message(&self) -> (r: &'static str)
        ensures
            r@ == "Error while communicating with netlink"@,
    {
        "Error while communicating with netlink"
    }
}

/// What the answer to the question whether the kernel supports batches
/// means: 1 is yes, 0 is no, and everything else is an error.
pub fn batch_is_supported(answer: i32) -> (r: Result<bool, NetlinkError>)
    ensures
        answer == 1 ==> r == Ok::<bool, NetlinkError>(true),
        answer == 0 ==> r == Ok::<bool, NetlinkError>(false),
        answer != 0 && answer != 1 ==> r.is_err(),
{
    if answer == 1 {
        Ok(true)
    } else if answer == 0 {
        Ok(false)
    } else {
        Err(NetlinkError)
    }
}

/// Why a batch cannot be made, or a message cannot be added to it.
#[derive(Debug, Copy, Clone, PartialEq, Eq, Hash, Structural)]
pub enum BatchError {
    /// The size of a page and that of the largest message do not add up to a
    /// `u32`.
    PageSizeOverflow,
    /// The system does not tell the size of its memory pages.
    NoPageSize,
    /// The message is longer than a page, or than the largest message may
    /// be.
    MessageTooLarge,
    /// The object cannot be written as a message.
    NotEncodable,
    /// No sequence number is left.
    SequenceExhausted,
}

/// The flags of a message that opens or closes a batch: a request, which asks
/// for an acknowledgement where the kernel gives one.
pub open spec fn frame_flags(ack: bool) -> u16 {
    if ack {
        5
    } else {
        1
    }
}

/// The bytes of a message that opens or closes a batch. It has no payload and
/// no family, and names the packet filter as the subsystem that the batch is
/// for. It carries the given sequence number where the kernel acknowledges
/// such messages, and zero where it does not.
pub open spec fn batch_frame(msg_type: u16, seq: u32, ack: bool) -> Seq<u8> {
    message(
        msg_type,
        frame_flags(ack),
        if ack {
            seq
        } else {
            0
        },
        0,
        SUBSYS_NFTABLES,
        Seq::empty(),
    )
}

/// The pages after a message was put behind them: in the last page where it
/// has room there, and in a new page where it has not.
pub open spec fn push_message(pages: Seq<Seq<u8>>, msg: Seq<u8>, page_size: u32) -> Seq<Seq<u8>> {
    if pages.len() > 0 && pages.last().len() + msg.len() <= page_size {
        pages.drop_last().push(pages.last() + msg)
    } else {
        pages.push(msg)
    }
}

/// The bytes of all pages, one after the other.
pub open spec fn flatten(pages: Seq<Seq<u8>>) -> Seq<u8>
    decreases pages.len(),
{
    if pages.len() == 0 {
        Seq::empty()
    } else {
        flatten(pages.drop_last()) + pages.last()
    }
}

/// What a [`Batch`] stands for.
pub struct BatchView {
    /// The bytes of the pages.
    pub pages: Seq<Seq<u8>>,
    /// The size that no page exceeds.
    pub page_size: u32,
    /// The size that no message exceeds.
    pub max_message: u32,
    /// Whether the kernel acknowledges the messages that open and close a
    /// batch.
    pub ack: bool,
    /// The first sequence number that expects an acknowledgement.
    pub seq_start: u32,
    /// The sequence number that the next message gets.
    pub seq_end: u32,
}

impl BatchView {
    /// What holds of every batch: it has a page; a page and the largest
    /// message are long enough for the messages that open and close the
    /// batch, and no page is longer than a page may be; its bytes start with
    /// the message that opens it; sequence numbers start at 1, and one more
    /// is always left for the message that closes the batch.
    pub open spec fn wf(self) -> bool {
        &&& self.pages.len() >= 1
        &&& self.page_size >= HEADER_LEN
        &&& self.max_message >= HEADER_LEN
        &&& forall|i: int| 0 <= i < self.pages.len() ==> (#[trigger] self.pages[i]).len() <= self.page_size
        &&& self.starts_with_begin()
        &&& self.seq_start == 1
        &&& self.seq_start <= self.seq_end < u32::MAX
    }

    /// Whether the bytes of the batch start with the message that opens it.
    pub open spec fn starts_with_begin(self) -> bool {
        batch_frame(MSG_BATCH_BEGIN, 1, self.ack).is_prefix_of(self.bytes())
    }

    /// The length that no message may exceed: that of a page, and that of the
    /// largest message.
    pub open spec fn limit(self) -> u32 {
        if self.page_size <= self.max_message {
            self.page_size
        } else {
            self.max_message
        }
    }

    /// All the bytes of the batch.
    pub open spec fn bytes(self) -> Seq<u8> {
        flatten(self.pages)
    }

    /// A batch that holds nothing but the message that opens it. That message
    /// takes the first sequence number where it is acknowledged.
    pub open spec fn fresh(page_size: u32, max_message: u32, ack: bool) -> BatchView {
        BatchView {
            pages: seq![batch_frame(MSG_BATCH_BEGIN, 1, ack)],
            page_size,
            max_message,
            ack,
            seq_start: 1,
            seq_end: if ack {
                2
            } else {
                1
            },
        }
    }

    /// Whether a message can be added, and why not if it cannot: because no
    /// sequence number is left, because there is no message, or because the
    /// message is longer than a page or than the largest message may be.
    pub open spec fn add_outcome(self, msg: Option<Seq<u8>>) -> Result<(), BatchError> {
        if self.seq_end >= u32::MAX - 1 {
            Err(BatchError::SequenceExhausted)
        } else {
            match msg {
                None => Err(BatchError::NotEncodable),
                Some(bytes) => if bytes.len() > self.limit() {
                    Err(BatchError::MessageTooLarge)
                } else {
                    Ok(())
                },
            }
        }
    }

    /// The batch after an attempt to add a message: with the message behind
    /// the others and one sequence number used up if it can be added, and
    /// unchanged if not.
    pub open spec fn after_add(self, msg: Option<Seq<u8>>) -> BatchView {
        if self.add_outcome(msg).is_ok() {
            BatchView {
                pages: push_message(self.pages, msg.unwrap(), self.page_size),
                seq_end: (self.seq_end + 1) as u32,
                ..self
            }
        } else {
            self
        }
    }

    /// The batch after the message that closes it was put behind the others.
    /// That message takes a sequence number where it is acknowledged.
    pub open spec fn finalized(self) -> BatchView {
        BatchView {
            pages: push_message(
                self.pages,
                batch_frame(MSG_BATCH_END, self.seq_end, self.ack),
                self.page_size,
            ),
            seq_end: if self.ack {
                (self.seq_end + 1) as u32
            } else {
                self.seq_end
            },
            ..self
        }
    }
}

/// Whether a batch can be made with pages of the given size for messages up
/// to the given size, and why not if it cannot: because a page and a message
/// that runs over its end are together longer than a `u32` can say, or
/// because the message that opens the batch is longer than a page or than a
/// message may be.
pub open spec fn limits_checked(page_size: u32, max_message: u32) -> Result<(), BatchError> {
    if page_size + max_message > u32::MAX {
        Err(BatchError::PageSizeOverflow)
    } else if page_size < HEADER_LEN || max_message < HEADER_LEN {
        Err(BatchError::MessageTooLarge)
    } else {
        Ok(())
    }
}

/// The batch after attempts to add messages one after the other, up to the
/// first that cannot be added, and whether all were added.
pub open spec fn add_all<T: NlMsg>(b: BatchView, msgs: Seq<T>, msg_type: MsgType) -> (
    BatchView,
    Result<(), BatchError>,
)
    decreases msgs.len(),
{
    if msgs.len() == 0 {
        (b, Ok(()))
    } else {
        let msg = msgs[0].message(b.seq_end, msg_type);
        match b.add_outcome(msg) {
            Ok(_) => add_all(b.after_add(msg), msgs.drop_first(), msg_type),
            Err(e) => (b, Err(e)),
        }
    }
}

/// Putting a message behind the pages puts its bytes behind theirs.
pub proof fn lemma_push_message_flatten(pages: Seq<Seq<u8>>, msg: Seq<u8>, page_size: u32)
    ensures
        flatten(push_message(pages, msg, page_size)) == flatten(pages) + msg,
{
    let after = push_message(pages, msg, page_size);
    if pages.len() > 0 && pages.last().len() + msg.len() <= page_size {
        assert(after.drop_last() =~= pages.drop_last());
        assert(flatten(after) =~= flatten(pages.drop_last()) + (pages.last() + msg));
        assert(flatten(pages) =~= flatten(pages.drop_last()) + pages.last());
        assert(flatten(after) =~= flatten(pages) + msg);
    } else {
        assert(after.drop_last() =~= pages);
    }
}

/// A message that is no longer than a page leaves every page no longer than
/// a page.
pub proof fn lemma_push_message_bounded(pages: Seq<Seq<u8>>, msg: Seq<u8>, page_size: u32)
    requires
        forall|i: int| 0 <= i < pages.len() ==> (#[trigger] pages[i]).len() <= page_size,
        msg.len() <= page_size,
    ensures
        forall|i: int|
            0 <= i < push_message(pages, msg, page_size).len() ==> (#[trigger] push_message(
                pages,
                msg,
                page_size,
            )[i]).len() <= page_size,
        push_message(pages, msg, page_size).len() >= 1,
{
}

/// A batch that holds nothing but the message that opens it is as a batch
/// has to be, if a page has room for that message.
pub proof fn lemma_fresh_is_wf(page_size: u32, max_message: u32, ack: bool)
    requires
        page_size >= HEADER_LEN,
        max_message >= HEADER_LEN,
    ensures
        BatchView::fresh(page_size, max_message, ack).wf(),
        BatchView::fresh(page_size, max_message, ack).bytes() == batch_frame(
            MSG_BATCH_BEGIN,
            1,
            ack,
        ),
{
    let b = BatchView::fresh(page_size, max_message, ack);
    let begin = batch_frame(MSG_BATCH_BEGIN, 1, ack);
    assert(b.pages.drop_last() =~= Seq::<Seq<u8>>::empty());
    assert(flatten(b.pages.drop_last()) =~= Seq::<u8>::empty());
    assert(b.bytes() =~= begin);
    assert(begin.len() == HEADER_LEN);
}

/// The batch after each of the messages was added, in their order.
pub open spec fn add_each(b: BatchView, msgs: Seq<Seq<u8>>) -> BatchView
    decreases msgs.len(),
{
    if msgs.len() == 0 {
        b
    } else {
        add_each(b, msgs.drop_last()).after_add(Some(msgs.last()))
    }
}

/// Each message that is added uses up one sequence number, and the bytes of
/// a batch are the message that opens it and the messages that were added.
pub proof fn lemma_add_each(b: BatchView, msgs: Seq<Seq<u8>>)
    requires
        b.wf(),
        b.seq_end + msgs.len() < u32::MAX,
        forall|i: int| 0 <= i < msgs.len() ==> (#[trigger] msgs[i]).len() <= b.limit(),
    ensures
        add_each(b, msgs).wf(),
        add_each(b, msgs).seq_end == b.seq_end + msgs.len(),
        add_each(b, msgs).seq_start == b.seq_start,
        add_each(b, msgs).ack == b.ack,
        add_each(b, msgs).page_size == b.page_size,
        add_each(b, msgs).max_message == b.max_message,
        add_each(b, msgs).bytes() == b.bytes() + flatten(msgs),
    decreases msgs.len(),
{
    if msgs.len() == 0 {
        assert(b.bytes() + flatten(msgs) =~= b.bytes());
    } else {
        let front = msgs.drop_last();
        let last = msgs.last();
        assert forall|i: int| 0 <= i < front.len() implies (#[trigger] front[i]).len()
            <= b.limit() by {
            assert(front[i] == msgs[i]);
        }
        lemma_add_each(b, front);
        let before = add_each(b, front);
        lemma_push_message_flatten(before.pages, last, before.page_size);
        lemma_push_message_bounded(before.pages, last, before.page_size);
        let after = before.after_add(Some(last));
        assert(after.bytes() =~= b.bytes() + flatten(msgs));
    }
}

/// The sequence numbers of a batch that was opened, filled with messages and
/// closed count the messages, and the two messages around them where the
/// kernel acknowledges those; its bytes are the message that opens it, the
/// messages in their order, and the message that closes it.
pub proof fn lemma_sequence_numbers(
    page_size: u32,
    max_message: u32,
    ack: bool,
    msgs: Seq<Seq<u8>>,
)
    requires
        page_size >= HEADER_LEN,
        max_message >= HEADER_LEN,
        msgs.len() < u32::MAX - 3,
        forall|i: int|
            0 <= i < msgs.len() ==> (#[trigger] msgs[i]).len() <= page_size && msgs[i].len()
                <= max_message,
    ensures
        ({
            let done = add_each(
                BatchView::fresh(page_size, max_message, ack),
                msgs,
            ).finalized();
            &&& done.seq_start == 1
            &&& done.seq_end - done.seq_start == msgs.len() + if ack {
                2int
            } else {
                0int
            }
            &&& done.bytes() == batch_frame(MSG_BATCH_BEGIN, 1, ack) + flatten(msgs) + batch_frame(
                MSG_BATCH_END,
                (msgs.len() + 2) as u32,
                ack,
            )
        }),
{
    let fresh = BatchView::fresh(page_size, max_message, ack);
    lemma_fresh_is_wf(page_size, max_message, ack);
    lemma_add_each(fresh, msgs);
    let filled = add_each(fresh, msgs);
    let end = batch_frame(MSG_BATCH_END, filled.seq_end, ack);
    lemma_push_message_flatten(filled.pages, end, page_size);
    if !ack {
        assert(end == batch_frame(MSG_BATCH_END, (msgs.len() + 2) as u32, ack));
    }
}

/// A batch of messages for the packet filter.
#[derive(Debug)]
pub struct Batch {
    pages: Vec<Vec<u8>>,
    page_size: u32,
    max_message: u32,
    ack: bool,
    seq_start: u32,
    seq_end: u32,
}

impl View for Batch {
    type V = BatchView;

    closed spec fn view(&self) -> BatchView {
        BatchView {
            pages: self.pages@.map_values(|p: Vec<u8>| p@),
            page_size: self.page_size,
            max_message: self.max_message,
            ack: self.ack,
            seq_start: self.seq_start,
            seq_end: self.seq_end,
        }
    }
}

/// The bytes of the message that opens or closes a batch.
fn build_batch_frame(msg_type: u16, seq: u32, ack: bool) -> (r: Vec<u8>)
    ensures
        r@ == batch_frame(msg_type, seq, ack),
        r@.len() == HEADER_LEN,
{
    let flags: u16 = if ack {
        assert(1u16 | 4u16 == 5u16) by (bit_vector);
        sys::nlm_f_request() | sys::nlm_f_ack()
    } else {
        sys::nlm_f_request()
    };
    let seq: u32 = if ack {
        seq
    } else {
        0
    };
    let empty: Vec<u8> = Vec::new();
    match build_message(msg_type, flags, seq, 0, SUBSYS_NFTABLES, empty.as_slice()) {
        Some(bytes) => bytes,
        None => Vec::new(),
    }
}

impl Batch {
    /// A batch with pages of the size that suits this system, which holds
    /// nothing but the message that opens it.
    ///
    /// Fails with `NoPageSize` where the system does not tell how large its
    /// memory pages are, and with `PageSizeOverflow` where sizes that follow
    /// from it do not fit in a `u32`.
    pub fn new() -> (r: Result<Batch, BatchError>)
        ensures
            r matches Ok(batch) ==> batch@.wf() && batch@ == BatchView::fresh(
                batch@.page_size,
                batch@.max_message,
                batch@.ack,
            ),
            r matches Err(e) ==> e == BatchError::NoPageSize || e == BatchError::PageSizeOverflow
                || e == BatchError::MessageTooLarge,
    {
        match default_batch_page_size() {
            Some(size) => Self::with_page_size(size),
            None => Err(BatchError::NoPageSize),
        }
    }

    /// A batch with pages of the given size, which holds nothing but the
    /// message that opens it. Whether that message asks for an
    /// acknowledgement depends on the running kernel.
    ///
    /// Fails with `NoPageSize` where the system does not tell how large its
    /// memory pages are, with `PageSizeOverflow` where the size of a page and
    /// that of the largest message do not add up to a `u32`, and with
    /// `MessageTooLarge` where a page has no room for the opening message.
    pub fn with_page_size(batch_page_size: u32) -> (r: Result<Batch, BatchError>)
        ensures
            r matches Ok(batch) ==> batch@.wf() && batch@ == BatchView::fresh(
                batch_page_size,
                batch@.max_message,
                batch@.ack,
            ),
            r matches Err(e) ==> e == BatchError::NoPageSize || e == BatchError::PageSizeOverflow
                || e == BatchError::MessageTooLarge,
            batch_page_size < HEADER_LEN ==> r.is_err(),
    {
        let max_message = match crate::nft_nlmsg_maxsize() {
            Some(size) => size,
            None => return Err(BatchError::NoPageSize),
        };
        Self::with_limits(batch_page_size, max_message, ack_batch_end_messages())
    }

    /// A batch with pages of the given size for messages up to the given
    /// size, which holds nothing but the message that opens it. `ack` says
    /// whether the kernel acknowledges the messages that open and close a
    /// batch.
    ///
    /// Fails with `PageSizeOverflow` where the two sizes do not add up to a
    /// `u32`, and with `MessageTooLarge` where the opening message is longer
    /// than a page or than a message may be.
    pub fn with_limits(page_size: u32, max_message: u32, ack: bool) -> (r: Result<
        Batch,
        BatchError,
    >)
        ensures
            r.is_ok() == limits_checked(page_size, max_message).is_ok(),
            r matches Err(e) ==> limits_checked(page_size, max_message) == Err::<(), BatchError>(e),
            r matches Ok(batch) ==> batch@.wf() && batch@ == BatchView::fresh(
                page_size,
                max_message,
                ack,
            ),
    {
        if page_size.checked_add(max_message).is_none() {
            return Err(BatchError::PageSizeOverflow);
        }
        if page_size < HEADER_LEN as u32 || max_message < HEADER_LEN as u32 {
            return Err(BatchError::MessageTooLarge);
        }
        let begin = build_batch_frame(MSG_BATCH_BEGIN, 1, ack);
        let mut pages: Vec<Vec<u8>> = Vec::new();
        pages.push(begin);
        let batch = Batch {
            pages,
            page_size,
            max_message,
            ack,
            seq_start: 1,
            seq_end: if ack {
                2
            } else {
                1
            },
        };
        assert(batch@.pages =~= BatchView::fresh(page_size, max_message, ack).pages);
        proof {
            lemma_fresh_is_wf(page_size, max_message, ack);
        }
        Ok(batch)
    }

    /// Puts the bytes of a message behind those of the batch.
    fn push(&mut self, bytes: Vec<u8>)
        requires
            old(self)@.wf(),
            bytes@.len() <= old(self)@.page_size,
        ensures
            final(self)@ == (BatchView {
                pages: push_message(old(self)@.pages, bytes@, old(self)@.page_size),
                ..old(self)@
            }),
            final(self)@.pages.len() >= 1,
            forall|i: int|
                0 <= i < final(self)@.pages.len() ==> (#[trigger] final(self)@.pages[i]).len()
                    <= old(self)@.page_size,
            final(self)@.starts_with_begin(),
            final(self)@.bytes() == old(self)@.bytes() + bytes@,
    {
        let ghost before = self@.pages;
        proof {
            lemma_push_message_bounded(before, bytes@, self.page_size);
            lemma_push_message_flatten(before, bytes@, self.page_size);
        }
        let last = self.pages.len() - 1;
        assert(before[last as int] == self.pages[last as int]@);
        if self.pages[last].len() <= self.page_size as usize - bytes.len() {
            let mut page = self.pages.pop().unwrap();
            push_bytes(&mut page, bytes.as_slice());
            self.pages.push(page);
            assert(self@.pages =~= push_message(before, bytes@, self.page_size));
        } else {
            self.pages.push(bytes);
            assert(self@.pages =~= push_message(before, bytes@, self.page_size));
        }
    }

    /// Adds the message that adds or removes `msg`, under the next sequence
    /// number.
    ///
    /// Fails, and leaves the batch as it was, with `SequenceExhausted` where
    /// no sequence number is left, with `NotEncodable` where `msg` cannot be
    /// written as a message, and with `MessageTooLarge` where the message is
    /// longer than a page or than the largest message may be.
    pub fn add<T: NlMsg>(&mut self, msg: &T, msg_type: MsgType) -> (r: Result<(), BatchError>)
        requires
            old(self)@.wf(),
        ensures
            final(self)@.wf(),
            r == old(self)@.add_outcome(msg.message(old(self)@.seq_end, msg_type)),
            final(self)@ == old(self)@.after_add(msg.message(old(self)@.seq_end, msg_type)),
            r.is_ok() ==> final(self)@.bytes() == old(self)@.bytes() + msg.message(
                old(self)@.seq_end,
                msg_type,
            ).unwrap(),
    {
        if self.seq_end >= u32::MAX - 1 {
            return Err(BatchError::SequenceExhausted);
        }
        let bytes = match msg.write(self.seq_end, msg_type) {
            Some(bytes) => bytes,
            None => return Err(BatchError::NotEncodable),
        };
        if bytes.len() > self.page_size as usize || bytes.len() > self.max_message as usize {
            return Err(BatchError::MessageTooLarge);
        }
        self.push(bytes);
        self.seq_end = self.seq_end + 1;
        Ok(())
    }

    /// Adds the messages that add or remove each of `msgs`, in their order.
    /// Where one of them cannot be added, the error says why; those before it
    /// stay added, and those behind it are not looked at.
    pub fn add_iter<T: NlMsg>(&mut self, msgs: &Vec<T>, msg_type: MsgType) -> (r: Result<
        (),
        BatchError,
    >)
        requires
            old(self)@.wf(),
        ensures
            final(self)@.wf(),
            (final(self)@, r) == add_all(old(self)@, msgs@, msg_type),
    {
        let mut i: usize = 0;
        assert(msgs@.subrange(0, msgs@.len() as int) =~= msgs@);
        while i < msgs.len()
            invariant
                i <= msgs@.len(),
                self@.wf(),
                add_all(old(self)@, msgs@, msg_type) == add_all(
                    self@,
                    msgs@.subrange(i as int, msgs@.len() as int),
                    msg_type,
                ),
            decreases msgs@.len() - i,
        {
            let ghost rest = msgs@.subrange(i as int, msgs@.len() as int);
            assert(rest[0] == msgs@[i as int]);
            assert(rest.drop_first() =~= msgs@.subrange(i + 1, msgs@.len() as int));
            match self.add(&msgs[i], msg_type) {
                Ok(_) => {},
                Err(e) => return Err(e),
            }
            i += 1;
        }
        Ok(())
    }

    /// Closes the batch: puts the message that closes it behind the others.
    pub fn finalize(self) -> (r: FinalizedBatch)
        requires
            self@.wf(),
        ensures
            r@ == self@.finalized(),
            r@.bytes() == self@.bytes() + batch_frame(MSG_BATCH_END, self@.seq_end, self@.ack),
            r@.starts_with_begin(),
    {
        let mut batch = self;
        let end = build_batch_frame(MSG_BATCH_END, batch.seq_end, batch.ack);
        batch.push(end);
        if batch.ack {
            batch.seq_end = batch.seq_end + 1;
        }
        FinalizedBatch { batch }
    }

    /// The pages of this batch as they stand.
    pub fn as_raw_batch(&self) -> (r: &Vec<Vec<u8>>)
        ensures
            r@.map_values(|p: Vec<u8>| p@) == self@.pages,
    {
        &self.pages
    }
}

/// A batch that is closed: it starts with the message that opens it and ends
/// with the message that closes it, and nothing can be added any more.
#[derive(Debug)]
pub struct FinalizedBatch {
    batch: Batch,
}

impl View for FinalizedBatch {
    type V = BatchView;

    closed spec fn view(&self) -> BatchView {
        self.batch@
    }
}

impl FinalizedBatch {
    /// Walks over the pages of the batch, to send them one after the other.
    pub fn iter(&self) -> (r: Iter<'_>)
        ensures
            r.pages() == self@.pages,
            r.position() == 0,
    {
        Iter { pages: &self.batch.pages, position: 0 }
    }

    /// The sequence numbers of the messages that expect an acknowledgement:
    /// from the first up to, and without, the one that the next message would
    /// have got.
    pub fn sequence_numbers(&self) -> (r: Range<u32>)
        ensures
            r.start == self@.seq_start,
            r.end == self@.seq_end,
    {
        Range { start: self.batch.seq_start, end: self.batch.seq_end }
    }
}

/// Hands out the pages of a finalized batch, one at a time.
pub struct Iter<'a> {
    pages: &'a Vec<Vec<u8>>,
    position: usize,
}

impl<'a> Iter<'a> {
    /// The bytes of the pages that are walked over.
    pub closed spec fn pages(&self) -> Seq<Seq<u8>> {
        self.pages@.map_values(|p: Vec<u8>| p@)
    }

    /// How many pages were handed out.
    pub closed spec fn position(&self) -> int {
        self.position as int
    }

    /// The next page, or `None` when all were handed out.
    pub fn next(&mut self) -> (r: Option<&'a [u8]>)
        ensures
            final(self).pages() == old(self).pages(),
            old(self).position() < old(self).pages().len() ==> {
                &&& r.is_some()
                &&& r.unwrap()@ == old(self).pages()[old(self).position()]
                &&& final(self).position() == old(self).position() + 1
            },
            old(self).position() >= old(self).pages().len() ==> {
                &&& r.is_none()
                &&& final(self).position() == old(self).position()
            },
    {
        if self.position < self.pages.len() {
            let page = self.pages[self.position].as_slice();
            self.position = self.position + 1;
            Some(page)
        } else {
            None
        }
    }
}

/// The size of the pages of a batch that suits this system: thirty-two
/// memory pages. `None` where the system does not tell the size of its memory
/// pages, or where thirty-two of them are more than a `u32` can count. The
/// system is asked for the size of a page; [`batch_page_size_from`] says what
/// is made of its answer.
pub fn default_batch_page_size() -> (r: Option<u32>)
    ensures
        r matches Some(size) ==> size % 32 == 0,
{
    batch_page_size_from(sys::page_size())
}

} // verus!
