//! Decoding of a streamed PTP data phase: data containers arriving in bulk
//! transfers of any size, ended by a response container.
use vstd::prelude::*;
use crate::container::{
    header_code, header_kind, header_length, header_transaction, read_le16, read_le32, HEADER_SIZE,
    KIND_COMMAND, KIND_DATA, KIND_EVENT, KIND_RESPONSE, RESPONSE_OK,
};

verus! {

/// Why bytes received from the device were rejected.
#[derive(Debug, PartialEq, Eq, Structural)]
pub enum DataFault {
    /// The device answered a bulk read with zero bytes.
    EmptyResponse,
    /// The container type field holds no known container type.
    InvalidContainerType { kind: u16 },
    /// A command or event container arrived during a data phase.
    UnexpectedContainer { kind: u16 },
    /// The response belongs to another transaction.
    TransactionMismatch { expected: u32, got: u32 },
    /// The response header claims more bytes than were received.
    ResponseLengthMismatch { header: u32, have: usize },
    /// The response parameters are not a whole number of 32-bit words.
    ResponseParamsUnaligned { bytes: u32 },
    /// The device stopped sending in the middle of a data container.
    IncompleteData,
    /// A container shorter than its 12-byte header.
    ContainerTooSmall { have: usize },
    /// A data container whose length field is below the header size.
    DataLengthTooSmall { length: u32 },
    /// A data container whose length field claims more bytes than were received.
    DataLengthMismatch { header: u32, have: usize },
}

/// Failure of a streamed transfer; `E` is the transport's own error.
#[derive(Debug, PartialEq, Eq)]
pub enum StreamError<E> {
    /// The transport failed.
    Transport(E),
    /// The device sent bytes that break the container format.
    Data(DataFault),
    /// The device answered with a response code other than OK.
    Protocol { code: u16, operation: u16 },
}

/// What the stream needs next, or what it produced.
#[derive(Debug, PartialEq, Eq)]
pub enum RecvStep {
    /// A chunk of payload bytes.
    Yield(Vec<u8>),
    /// The stream has ended; no more chunks.
    Finish,
    /// More bytes must be read from the bulk IN endpoint.
    Receive,
}

/// Outcome of handing the stream the result of one bulk read.
#[derive(Debug, PartialEq, Eq)]
pub enum RecvFeed<E> {
    /// Keep going: ask for the next step.
    Continue,
    /// The transfer finished successfully; no more chunks.
    Finish,
    /// The transfer failed with this error.
    Fail(StreamError<E>),
}

/// A receive stream for one operation's data phase.
pub struct ReceiveStream {
    transaction_id: u32,
    operation: u16,
    buffer: Vec<u8>,
    container_length: usize,
    payload_yielded: usize,
    header_parsed: bool,
    done: bool,
}

/// Mathematical state of a [`ReceiveStream`].
pub struct ReceiveView {
    pub transaction_id: u32,
    pub operation: u16,
    pub buffer: Seq<u8>,
    pub container_length: nat,
    pub payload_yielded: nat,
    pub header_parsed: bool,
    pub done: bool,
}

impl View for ReceiveStream {
    type V = ReceiveView;

    closed spec fn view(&self) -> ReceiveView {
        ReceiveView {
            transaction_id: self.transaction_id,
            operation: self.operation,
            buffer: self.buffer@,
            container_length: self.container_length as nat,
            payload_yielded: self.payload_yielded as nat,
            header_parsed: self.header_parsed,
            done: self.done,
        }
    }
}

/// The state of a stream that has not received anything yet.
pub open spec fn fresh_stream(transaction_id: u32, operation: u16) -> ReceiveView {
    ReceiveView {
        transaction_id,
        operation,
        buffer: Seq::empty(),
        container_length: 0,
        payload_yielded: 0,
        header_parsed: false,
        done: false,
    }
}

/// Consistency of the stream's bookkeeping.
pub open spec fn stream_wf(v: ReceiveView) -> bool {
    &&& v.container_length <= u32::MAX
    &&& v.header_parsed ==> HEADER_SIZE + v.payload_yielded <= if v.container_length < HEADER_SIZE {
        HEADER_SIZE as nat
    } else {
        v.container_length
    }
    &&& !v.header_parsed ==> v.container_length == 0 && v.payload_yielded == 0
}

/// End (exclusive) of the payload bytes of the current container that are buffered.
pub open spec fn buffered_end(v: ReceiveView) -> nat {
    if v.buffer.len() < v.container_length {
        v.buffer.len()
    } else {
        v.container_length
    }
}

/// The stream once the current container has been removed from the buffer.
pub open spec fn drop_container(v: ReceiveView) -> ReceiveView {
    ReceiveView {
        buffer: v.buffer.skip(v.container_length as int),
        container_length: 0,
        payload_yielded: 0,
        header_parsed: false,
        ..v
    }
}

/// Abstract step result: a payload chunk, the end, or a request for more bytes.
pub enum StepView {
    Yield(Seq<u8>),
    Finish,
    Receive,
}

/// One step of the stream before it has to read from the device.
pub open spec fn next_step(v: ReceiveView) -> (ReceiveView, StepView) {
    if v.done {
        (v, StepView::Finish)
    } else if v.header_parsed && HEADER_SIZE + v.payload_yielded < buffered_end(v) {
        let chunk = v.buffer.subrange(HEADER_SIZE + v.payload_yielded, buffered_end(v) as int);
        let after = if v.buffer.len() >= v.container_length {
            drop_container(v)
        } else {
            ReceiveView { payload_yielded: (buffered_end(v) - HEADER_SIZE) as nat, ..v }
        };
        (after, StepView::Yield(chunk))
    } else if v.header_parsed && v.buffer.len() >= v.container_length {
        (drop_container(v), StepView::Receive)
    } else {
        (v, StepView::Receive)
    }
}

/// Abstract feed result.
pub enum FeedView<E> {
    Continue,
    Finish,
    Fail(StreamError<E>),
}

/// A response container in `buf` whose length field is below the header
/// size; parsing it is not defined.
pub open spec fn malformed_response(buf: Seq<u8>) -> bool {
    buf.len() >= HEADER_SIZE && header_kind(buf) == KIND_RESPONSE && header_length(buf)
        < HEADER_SIZE
}

/// What the stream does with the bytes `bytes` of one bulk read.
pub open spec fn next_feed_bytes<E>(v: ReceiveView, bytes: Seq<u8>) -> (ReceiveView, FeedView<E>) {
    if bytes.len() == 0 {
        (v, FeedView::Fail(StreamError::Data(DataFault::EmptyResponse)))
    } else {
        let buf = v.buffer + bytes;
        let w = ReceiveView { buffer: buf, ..v };
        if v.header_parsed || buf.len() < HEADER_SIZE {
            (w, FeedView::Continue)
        } else {
            let kind = header_kind(buf);
            if kind == KIND_DATA {
                (
                    ReceiveView { container_length: header_length(buf), header_parsed: true, ..w },
                    FeedView::Continue,
                )
            } else if kind == KIND_RESPONSE {
                let ended = ReceiveView { done: true, ..w };
                let len = header_length(buf);
                if buf.len() < len {
                    (
                        ended,
                        FeedView::Fail(
                            StreamError::Data(
                                DataFault::ResponseLengthMismatch {
                                    header: len as u32,
                                    have: buf.len() as usize,
                                },
                            ),
                        ),
                    )
                } else if (len - HEADER_SIZE) % 4 != 0 {
                    (
                        ended,
                        FeedView::Fail(
                            StreamError::Data(
                                DataFault::ResponseParamsUnaligned {
                                    bytes: (len - HEADER_SIZE) as u32,
                                },
                            ),
                        ),
                    )
                } else if header_transaction(buf) != v.transaction_id {
                    (
                        ended,
                        FeedView::Fail(
                            StreamError::Data(
                                DataFault::TransactionMismatch {
                                    expected: v.transaction_id,
                                    got: header_transaction(buf) as u32,
                                },
                            ),
                        ),
                    )
                } else if header_code(buf) != RESPONSE_OK {
                    (
                        ended,
                        FeedView::Fail(
                            StreamError::Protocol {
                                code: header_code(buf) as u16,
                                operation: v.operation,
                            },
                        ),
                    )
                } else {
                    (ended, FeedView::Finish)
                }
            } else if kind == KIND_COMMAND || kind == KIND_EVENT {
                (
                    ReceiveView { done: true, ..w },
                    FeedView::Fail(StreamError::Data(DataFault::UnexpectedContainer { kind: kind as u16 })),
                )
            } else {
                (
                    ReceiveView { done: true, ..w },
                    FeedView::Fail(StreamError::Data(DataFault::InvalidContainerType { kind: kind as u16 })),
                )
            }
        }
    }
}

/// What the stream does with the result of one bulk read.
pub open spec fn next_feed<E>(v: ReceiveView, r: Result<Seq<u8>, E>) -> (ReceiveView, FeedView<E>) {
    match r {
        Err(e) => (ReceiveView { done: true, ..v }, FeedView::Fail(StreamError::Transport(e))),
        Ok(bytes) => next_feed_bytes(v, bytes),
    }
}

/// Little-endian bytes of a `u16`.
pub open spec fn le16_bytes(v: u16) -> Seq<u8> {
    seq![(v % 256) as u8, (v / 256) as u8]
}

/// Little-endian bytes of a `u32`.
pub open spec fn le32_bytes(v: u32) -> Seq<u8> {
    seq![(v % 256) as u8, ((v / 256) % 256) as u8, ((v / 65536) % 256) as u8, (v / 16777216) as u8]
}

/// Encoding of a data container of operation `operation` in transaction
/// `transaction_id` carrying `payload`.
pub open spec fn data_container_bytes(operation: u16, transaction_id: u32, payload: Seq<u8>) -> Seq<u8> {
    le32_bytes((HEADER_SIZE + payload.len()) as u32) + le16_bytes(KIND_DATA) + le16_bytes(operation)
        + le32_bytes(transaction_id) + payload
}

/// Encoding of a parameterless response container with code `code`.
pub open spec fn response_bytes(code: u16, transaction_id: u32) -> Seq<u8> {
    le32_bytes(HEADER_SIZE as u32) + le16_bytes(KIND_RESPONSE) + le16_bytes(code) + le32_bytes(
        transaction_id,
    )
}

pub(crate) proof fn lemma_le_fields(a: u32, k: u16, c: u16, t: u32, rest: Seq<u8>)
    ensures
        ({
            let b = le32_bytes(a) + le16_bytes(k) + le16_bytes(c) + le32_bytes(t) + rest;
            &&& b.len() == 12 + rest.len()
            &&& header_length(b) == a
            &&& header_kind(b) == k
            &&& header_code(b) == c
            &&& header_transaction(b) == t
            &&& b.skip(12) == rest
        }),
{
    let b = le32_bytes(a) + le16_bytes(k) + le16_bytes(c) + le32_bytes(t) + rest;
    assert((a % 256) + 256 * ((a / 256) % 256) + 65536 * ((a / 65536) % 256) + 16777216 * (a
        / 16777216) == a) by (nonlinear_arith);
    assert((t % 256) + 256 * ((t / 256) % 256) + 65536 * ((t / 65536) % 256) + 16777216 * (t
        / 16777216) == t) by (nonlinear_arith);
    assert((k % 256) + 256 * (k / 256) == k) by (nonlinear_arith);
    assert((c % 256) + 256 * (c / 256) == c) by (nonlinear_arith);
    assert(b.skip(12) =~= rest);
}

/// A data container followed by an OK response of the same transaction, each
/// read whole, yields exactly the payload and then ends the stream.
pub proof fn lemma_whole_container_roundtrip(operation: u16, transaction_id: u32, payload: Seq<u8>)
    requires
        0 < payload.len(),
        HEADER_SIZE + payload.len() <= u32::MAX,
    ensures
        ({
            let v0 = fresh_stream(transaction_id, operation);
            let (v1, s1) = next_step(v0);
            let (v2, f2) = next_feed::<()>(v1, Ok(data_container_bytes(operation, transaction_id, payload)));
            let (v3, s3) = next_step(v2);
            let (v4, s4) = next_step(v3);
            let (v5, f5) = next_feed::<()>(v4, Ok(response_bytes(RESPONSE_OK, transaction_id)));
            let (v6, s6) = next_step(v5);
            &&& s1 is Receive
            &&& f2 is Continue
            &&& s3 == StepView::Yield(payload)
            &&& s4 is Receive
            &&& f5 is Finish
            &&& s6 is Finish
        }),
{
    let n = (HEADER_SIZE + payload.len()) as u32;
    lemma_le_fields(n, KIND_DATA, operation, transaction_id, payload);
    lemma_le_fields(HEADER_SIZE as u32, KIND_RESPONSE, RESPONSE_OK, transaction_id, Seq::empty());
    let v0 = fresh_stream(transaction_id, operation);
    let dc = data_container_bytes(operation, transaction_id, payload);
    assert(v0.buffer + dc =~= dc);
    let (v2, f2) = next_feed::<()>(v0, Ok(dc));
    assert(dc.subrange(12, dc.len() as int) =~= payload);
    let (v3, s3) = next_step(v2);
    assert(v3.buffer =~= Seq::<u8>::empty());
    let rb = response_bytes(RESPONSE_OK, transaction_id);
    assert(v3.buffer + rb =~= rb);
    assert(rb.skip(12) =~= Seq::<u8>::empty());
}

/// One bulk read as a caller drives the stream: hand it the bytes, then step
/// (and step once more after a chunk). Gives the new state, the bytes yielded,
/// and whether the read was taken without failure or end.
pub open spec fn after_read(v: ReceiveView, bytes: Seq<u8>) -> (ReceiveView, Seq<u8>, bool) {
    let (w, f) = next_feed_bytes::<()>(v, bytes);
    let (x, s) = next_step(w);
    match s {
        StepView::Yield(c) => (next_step(x).0, c, f is Continue),
        _ => (x, Seq::empty(), f is Continue),
    }
}

/// A sequence of bulk reads driven as [`after_read`] describes.
pub open spec fn after_reads(v: ReceiveView, reads: Seq<Seq<u8>>) -> (ReceiveView, Seq<u8>, bool)
    decreases reads.len(),
{
    if reads.len() == 0 {
        (v, Seq::empty(), true)
    } else {
        let (w, out, ok) = after_reads(v, reads.drop_last());
        let (x, more, ok2) = after_read(w, reads.last());
        (x, out + more, ok && ok2)
    }
}

/// Where a stream stands after the first `m` bytes of the data container `dc`
/// (payload `dc[12..]`) arrived and `out` was yielded.
pub open spec fn data_progress(v: ReceiveView, out: Seq<u8>, dc: Seq<u8>, m: nat) -> bool {
    &&& !v.done
    &&& m <= dc.len()
    &&& if m < HEADER_SIZE {
        &&& v.buffer == dc.take(m as int)
        &&& !v.header_parsed
        &&& v.container_length == 0
        &&& v.payload_yielded == 0
        &&& out == Seq::<u8>::empty()
    } else if m < dc.len() {
        &&& v.buffer == dc.take(m as int)
        &&& v.header_parsed
        &&& v.container_length == dc.len()
        &&& v.payload_yielded == m - HEADER_SIZE
        &&& out == dc.subrange(HEADER_SIZE as int, m as int)
    } else {
        &&& v.buffer == Seq::<u8>::empty()
        &&& !v.header_parsed
        &&& v.container_length == 0
        &&& v.payload_yielded == 0
        &&& out == dc.skip(HEADER_SIZE as int)
    }
}

proof fn lemma_read_step(v: ReceiveView, out: Seq<u8>, dc: Seq<u8>, m: nat, r: Seq<u8>)
    requires
        dc.len() > HEADER_SIZE,
        dc.len() <= u32::MAX,
        header_length(dc) == dc.len(),
        header_kind(dc) == KIND_DATA,
        data_progress(v, out, dc, m),
        r.len() > 0,
        m + r.len() <= dc.len(),
        dc.subrange(m as int, (m + r.len()) as int) == r,
    ensures
        ({
            let (x, more, ok) = after_read(v, r);
            &&& ok
            &&& data_progress(x, out + more, dc, m + r.len())
            &&& x.transaction_id == v.transaction_id
            &&& x.operation == v.operation
        }),
{
    let m2: nat = m + r.len();
    let l = dc.len();
    let buf = v.buffer + r;
    assert(buf =~= dc.take(m2 as int));
    let (w, f) = next_feed_bytes::<()>(v, r);
    let (x, s) = next_step(w);
    let (x2, more, ok) = after_read(v, r);
    if m2 < HEADER_SIZE {
        assert(w == ReceiveView { buffer: buf, ..v });
        assert(f is Continue);
        assert(s is Receive && x == w);
        assert(x2 == x && more == Seq::<u8>::empty());
        assert(out + more =~= out);
    } else {
        if !v.header_parsed {
            assert(header_kind(buf) == header_kind(dc));
            assert(header_length(buf) == header_length(dc));
        }
        assert(f is Continue);
        assert(w.header_parsed && w.container_length == l && w.buffer == buf);
        assert(w.payload_yielded == if m < HEADER_SIZE { 0 } else { m - HEADER_SIZE });
        assert(buffered_end(w) == m2);
        let start: nat = if m < HEADER_SIZE { HEADER_SIZE as nat } else { m };
        if start < m2 {
            assert(s == StepView::Yield(buf.subrange(start as int, m2 as int)));
            assert(more == buf.subrange(start as int, m2 as int));
            assert(buf.subrange(start as int, m2 as int) =~= dc.subrange(start as int, m2 as int));
            assert(out + more =~= dc.subrange(HEADER_SIZE as int, m2 as int));
            if m2 == l {
                assert(x == drop_container(w));
                assert(buf.skip(l as int) =~= Seq::<u8>::empty());
                assert(x.buffer == Seq::<u8>::empty());
                assert(next_step(x).0 == x);
                assert(dc.subrange(HEADER_SIZE as int, m2 as int) =~= dc.skip(HEADER_SIZE as int));
            } else {
                assert(x == ReceiveView { payload_yielded: (m2 - HEADER_SIZE) as nat, ..w });
                assert(next_step(x).0 == x);
            }
            assert(x2 == x);
        } else {
            assert(m2 == HEADER_SIZE && m < HEADER_SIZE);
            assert(s is Receive && x == w);
            assert(x2 == x && more == Seq::<u8>::empty());
            assert(out + more =~= out);
            assert(dc.subrange(HEADER_SIZE as int, HEADER_SIZE as int) =~= Seq::<u8>::empty());
        }
    }
}

proof fn lemma_reads_progress(v0: ReceiveView, dc: Seq<u8>, reads: Seq<Seq<u8>>)
    requires
        dc.len() > HEADER_SIZE,
        dc.len() <= u32::MAX,
        header_length(dc) == dc.len(),
        header_kind(dc) == KIND_DATA,
        data_progress(v0, Seq::empty(), dc, 0),
        forall|i: int| 0 <= i < reads.len() ==> #[trigger] reads[i].len() > 0,
        reads.flatten_alt().len() <= dc.len(),
        dc.take(reads.flatten_alt().len() as int) == reads.flatten_alt(),
    ensures
        ({
            let (v, out, ok) = after_reads(v0, reads);
            &&& ok
            &&& data_progress(v, out, dc, reads.flatten_alt().len())
            &&& v.transaction_id == v0.transaction_id
            &&& v.operation == v0.operation
        }),
    decreases reads.len(),
{
    if reads.len() > 0 {
        let prefix = reads.drop_last();
        let r = reads.last();
        let m = prefix.flatten_alt().len();
        assert(reads.flatten_alt() == prefix.flatten_alt() + r);
        assert(dc.take(m as int) =~= dc.take(reads.flatten_alt().len() as int).take(m as int));
        assert(dc.take(reads.flatten_alt().len() as int).take(m as int) =~= prefix.flatten_alt());
        assert forall|i: int| 0 <= i < prefix.len() implies #[trigger] prefix[i].len() > 0 by {
            assert(prefix[i] == reads[i]);
        }
        lemma_reads_progress(v0, dc, prefix);
        let (w, out, ok) = after_reads(v0, prefix);
        assert(reads[reads.len() - 1].len() > 0);
        assert(dc.subrange(m as int, (m + r.len()) as int) =~= r) by {
            let t = reads.flatten_alt();
            assert forall|k: int| 0 <= k < r.len() implies dc.subrange(m as int, (m + r.len()) as int)[k] == r[k] by {
                assert(t[m + k] == r[k]);
                assert(dc.take(t.len() as int)[m + k] == t[m + k]);
            }
        }
        lemma_read_step(w, out, dc, m, r);
    } else {
        assert(Seq::<Seq<u8>>::empty().flatten_alt() == Seq::<u8>::empty());
    }
}

/// However the device splits a data container over bulk reads (each read
/// non-empty), the stream yields exactly its payload, fails on none of the
/// reads, and then takes an OK response of the same transaction as the end.
pub proof fn lemma_split_reads_yield_payload(
    operation: u16,
    transaction_id: u32,
    payload: Seq<u8>,
    reads: Seq<Seq<u8>>,
)
    requires
        0 < payload.len(),
        HEADER_SIZE + payload.len() <= u32::MAX,
        forall|i: int| 0 <= i < reads.len() ==> #[trigger] reads[i].len() > 0,
        reads.flatten() == data_container_bytes(operation, transaction_id, payload),
    ensures
        ({
            let (v, out, ok) = after_reads(fresh_stream(transaction_id, operation), reads);
            let (w, f) = next_feed::<()>(v, Ok(response_bytes(RESPONSE_OK, transaction_id)));
            &&& ok
            &&& out == payload
            &&& f is Finish
            &&& next_step(w).1 is Finish
        }),
{
    let n = (HEADER_SIZE + payload.len()) as u32;
    lemma_le_fields(n, KIND_DATA, operation, transaction_id, payload);
    lemma_le_fields(HEADER_SIZE as u32, KIND_RESPONSE, RESPONSE_OK, transaction_id, Seq::empty());
    let dc = data_container_bytes(operation, transaction_id, payload);
    reads.lemma_flatten_and_flatten_alt_are_equivalent();
    let v0 = fresh_stream(transaction_id, operation);
    assert(dc.take(0) =~= Seq::<u8>::empty());
    assert(dc.take(dc.len() as int) =~= dc);
    lemma_reads_progress(v0, dc, reads);
    let (v, out, ok) = after_reads(v0, reads);
    let rb = response_bytes(RESPONSE_OK, transaction_id);
    assert(v.buffer + rb =~= rb);
    assert(rb.skip(12) =~= Seq::<u8>::empty());
}

/// A step result seen abstractly.
pub open spec fn step_view(s: RecvStep) -> StepView {
    match s {
        RecvStep::Yield(c) => StepView::Yield(c@),
        RecvStep::Finish => StepView::Finish,
        RecvStep::Receive => StepView::Receive,
    }
}

/// A feed result seen abstractly.
pub open spec fn feed_view<E>(f: RecvFeed<E>) -> FeedView<E> {
    match f {
        RecvFeed::Continue => FeedView::Continue,
        RecvFeed::Finish => FeedView::Finish,
        RecvFeed::Fail(e) => FeedView::Fail(e),
    }
}

/// Copy of `b[from..to]`.
fn copy_range(b: &Vec<u8>, from: usize, to: usize) -> (r: Vec<u8>)
    requires
        from <= to <= b@.len(),
    ensures
        r@ == b@.subrange(from as int, to as int),
{
    let mut r: Vec<u8> = Vec::with_capacity(to - from);
    let mut i: usize = from;
    while i < to
        invariant
            from <= i <= to <= b@.len(),
            r@ == b@.subrange(from as int, i as int),
        decreases to - i,
    {
        r.push(b[i]);
        i = i + 1;
    }
    r
}

/// Appends all of `bytes` to `buf`.
pub fn append_bytes(buf: &mut Vec<u8>, bytes: &Vec<u8>)
    ensures
        final(buf)@ == old(buf)@ + bytes@,
{
    let ghost old_buf = buf@;
    let mut i: usize = 0;
    while i < bytes.len()
        invariant
            i <= bytes@.len(),
            buf@ == old_buf + bytes@.subrange(0, i as int),
        decreases bytes@.len() - i,
    {
        buf.push(bytes[i]);
        i = i + 1;
    }
    assert(bytes@.subrange(0, bytes@.len() as int) == bytes@);
}

impl ReceiveStream {
    /// Bookkeeping invariant.
    pub closed spec fn wf(&self) -> bool {
        stream_wf(self@)
    }

    /// A stream for the data phase of transaction `transaction_id` of operation
    /// `operation`, whose command has just been sent.
    pub fn new(transaction_id: u32, operation: u16) -> (s: Self)
        ensures
            s@ == fresh_stream(transaction_id, operation),
            s.wf(),
    {
        ReceiveStream {
            transaction_id,
            operation,
            buffer: Vec::new(),
            container_length: 0,
            payload_yielded: 0,
            header_parsed: false,
            done: false,
        }
    }

    /// The transaction this stream belongs to.
    pub fn transaction_id(&self) -> (r: u32)
        ensures
            r == self@.transaction_id,
    {
        self.transaction_id
    }

    /// Whether the stream has ended (successfully or not).
    pub fn is_done(&self) -> (r: bool)
        ensures
            r == self@.done,
    {
        self.done
    }

    fn drop_current_container(&mut self)
        requires
            old(self).wf(),
            old(self)@.header_parsed,
            old(self)@.buffer.len() >= old(self)@.container_length,
        ensures
            final(self)@ == drop_container(old(self)@),
            final(self).wf(),
    {
        let n = self.buffer.len();
        let rest = copy_range(&self.buffer, self.container_length, n);
        self.buffer = rest;
        self.header_parsed = false;
        self.container_length = 0;
        self.payload_yielded = 0;
    }

    /// Yields buffered payload, or asks for more bytes, or reports the end.
    pub fn step(&mut self) -> (a: RecvStep)
        requires
            old(self).wf(),
        ensures
            final(self).wf(),
            (final(self)@, step_view(a)) == next_step(old(self)@),
    {
        if self.done {
            return RecvStep::Finish;
        }
        if self.header_parsed {
            let payload_start = HEADER_SIZE + self.payload_yielded;
            let payload_end = if self.buffer.len() < self.container_length {
                self.buffer.len()
            } else {
                self.container_length
            };
            if payload_start < payload_end {
                let chunk = copy_range(&self.buffer, payload_start, payload_end);
                self.payload_yielded = self.payload_yielded + chunk.len();
                if self.buffer.len() >= self.container_length {
                    self.drop_current_container();
                }
                return RecvStep::Yield(chunk);
            } else if self.buffer.len() >= self.container_length {
                self.drop_current_container();
            }
        }
        RecvStep::Receive
    }

    /// Takes the result of one bulk read from the device.
    pub fn feed<E>(&mut self, received: Result<Vec<u8>, E>) -> (f: RecvFeed<E>)
        requires
            old(self).wf(),
            received is Ok && !old(self)@.header_parsed ==> !malformed_response(
                old(self)@.buffer + received->Ok_0@,
            ),
        ensures
            final(self).wf(),
            (final(self)@, feed_view(f)) == next_feed(
                old(self)@,
                match received {
                    Ok(b) => Ok(b@),
                    Err(e) => Err(e),
                },
            ),
    {
        let bytes = match received {
            Err(e) => {
                self.done = true;
                return RecvFeed::Fail(StreamError::Transport(e));
            },
            Ok(b) => b,
        };
        if bytes.len() == 0 {
            return RecvFeed::Fail(StreamError::Data(DataFault::EmptyResponse));
        }
        append_bytes(&mut self.buffer, &bytes);
        if self.header_parsed || self.buffer.len() < HEADER_SIZE {
            return RecvFeed::Continue;
        }
        let kind = read_le16(&self.buffer, 4);
        if kind == KIND_DATA {
            self.container_length = read_le32(&self.buffer, 0) as usize;
            self.header_parsed = true;
            RecvFeed::Continue
        } else if kind == KIND_RESPONSE {
            self.done = true;
            let len = read_le32(&self.buffer, 0);
            if self.buffer.len() < len as usize {
                return RecvFeed::Fail(
                    StreamError::Data(
                        DataFault::ResponseLengthMismatch { header: len, have: self.buffer.len() },
                    ),
                );
            }
            let param_bytes = len - 12;
            if param_bytes % 4 != 0 {
                return RecvFeed::Fail(
                    StreamError::Data(DataFault::ResponseParamsUnaligned { bytes: param_bytes }),
                );
            }
            let tx = read_le32(&self.buffer, 8);
            if tx != self.transaction_id {
                return RecvFeed::Fail(
                    StreamError::Data(
                        DataFault::TransactionMismatch { expected: self.transaction_id, got: tx },
                    ),
                );
            }
            let code = read_le16(&self.buffer, 6);
            if code != RESPONSE_OK {
                return RecvFeed::Fail(StreamError::Protocol { code, operation: self.operation });
            }
            RecvFeed::Finish
        } else if kind == KIND_COMMAND || kind == KIND_EVENT {
            self.done = true;
            RecvFeed::Fail(StreamError::Data(DataFault::UnexpectedContainer { kind }))
        } else {
            self.done = true;
            RecvFeed::Fail(StreamError::Data(DataFault::InvalidContainerType { kind }))
        }
    }
}

} // verus!
