//! Session-level PTP logic: transaction numbering, command encoding,
//! response parsing, the buffered data phase and the OpenSession handshake.
use vstd::prelude::*;
use crate::container::{
    header_code, header_kind, header_length, header_transaction, le32, push_le16, push_le32,
    read_le16, read_le32, HEADER_SIZE, KIND_COMMAND, KIND_DATA, KIND_EVENT, KIND_RESPONSE,
    RESPONSE_OK,
};
use crate::stream::{append_bytes, data_container_bytes, lemma_le_fields, DataFault, StreamError};

verus! {

/// Operation code of OpenSession.
pub const OP_OPEN_SESSION: u16 = 0x1002;
/// Operation code of CloseSession.
pub const OP_CLOSE_SESSION: u16 = 0x1003;
/// Operation code of GetDeviceInfo.
pub const OP_GET_DEVICE_INFO: u16 = 0x1001;
/// Response code: a session is already open.
pub const RESPONSE_SESSION_ALREADY_OPEN: u16 = 0x201E;
/// Transaction id of session-less operations such as OpenSession.
pub const TRANSACTION_SESSION_LESS: u32 = 0;
/// First transaction id of a session.
pub const TRANSACTION_FIRST: u32 = 1;

/// The transaction id that follows `t`: one more, wrapping to 1 so that
/// neither 0 nor 0xFFFFFFFF is ever produced.
pub open spec fn successor(t: u32) -> u32 {
    if t as int + 1 == 0x1_0000_0000 || t as int + 1 == 0xFFFF_FFFF {
        1
    } else {
        (t + 1) as u32
    }
}

/// Computes [`successor`].
pub fn next_transaction(t: u32) -> (r: u32)
    ensures
        r == successor(t),
{
    let n = t.wrapping_add(1);
    if n == 0 || n == 0xFFFF_FFFF {
        1
    } else {
        n
    }
}

/// Hands out the transaction ids of one session in order.
pub struct TransactionCounter {
    next: u32,
}

impl TransactionCounter {
    /// The id that the next call of `take` returns.
    pub closed spec fn peek(&self) -> u32 {
        self.next
    }

    /// The next id is always usable.
    #[verifier::type_invariant]
    spec fn next_usable(self) -> bool {
        usable_transaction(self.next)
    }

    /// A counter for a new session: the first id is 1.
    pub fn new() -> (c: Self)
        ensures
            c.peek() == TRANSACTION_FIRST,
    {
        TransactionCounter { next: TRANSACTION_FIRST }
    }

    /// Returns the current id and advances to its successor.
    pub fn take(&mut self) -> (id: u32)
        ensures
            id == old(self).peek(),
            final(self).peek() == successor(id),
            usable_transaction(id),
    {
        proof {
            use_type_invariant(&*self);
        }
        let id = self.next;
        self.next = next_transaction(id);
        id
    }
}

/// A valid in-session transaction id: neither session-less (0) nor invalid (0xFFFFFFFF).
pub open spec fn usable_transaction(t: u32) -> bool {
    t != 0 && t != 0xFFFF_FFFF
}

/// Numbering never produces the session-less or the invalid id: the successor
/// of any id is usable, so every id a counter hands out after its first is usable.
pub proof fn lemma_successor_usable(t: u32)
    ensures
        usable_transaction(successor(t)),
        usable_transaction(t) && t != 0xFFFF_FFFE ==> successor(t) == t + 1,
{
}

/// The encoded command: header then each parameter, all little-endian.
pub open spec fn is_command_encoding(b: Seq<u8>, code: u16, transaction_id: u32, params: Seq<u32>) -> bool {
    &&& b.len() == HEADER_SIZE + 4 * params.len()
    &&& header_length(b) == b.len()
    &&& header_kind(b) == KIND_COMMAND
    &&& header_code(b) == code
    &&& header_transaction(b) == transaction_id
    &&& forall|i: int| 0 <= i < params.len() ==> #[trigger] le32(b, HEADER_SIZE + 4 * i) == params[i]
}

/// Encodes a command container (at most five parameters, as PTP allows).
pub fn command_bytes(code: u16, transaction_id: u32, params: &Vec<u32>) -> (b: Vec<u8>)
    requires
        params@.len() <= 5,
    ensures
        is_command_encoding(b@, code, transaction_id, params@),
{
    let total: u32 = 12 + 4 * params.len() as u32;
    let mut b: Vec<u8> = Vec::new();
    push_le32(&mut b, total);
    push_le16(&mut b, KIND_COMMAND);
    push_le16(&mut b, code);
    push_le32(&mut b, transaction_id);
    let ghost head = b@;
    assert(le32(b@, 0) == total && le32(b@, 8) == transaction_id) by {
        assert(b@.subrange(0, 8)[0] == b@[0]);
    };
    let mut i: usize = 0;
    while i < params.len()
        invariant
            i <= params@.len() <= 5,
            b@.len() == HEADER_SIZE + 4 * i,
            b@.subrange(0, 12) == head,
            head.len() == 12,
            le32(head, 0) == total,
            total == 12 + 4 * params@.len(),
            header_kind(head) == KIND_COMMAND,
            header_code(head) == code,
            le32(head, 8) == transaction_id,
            forall|j: int| 0 <= j < i ==> #[trigger] le32(b@, HEADER_SIZE + 4 * j) == params@[j],
        decreases params@.len() - i,
    {
        let ghost before = b@;
        push_le32(&mut b, params[i]);
        assert forall|j: int| 0 <= j < i + 1 implies #[trigger] le32(b@, HEADER_SIZE + 4 * j) == params@[j] by {
            if j < i {
                assert(le32(before, HEADER_SIZE + 4 * j) == params@[j]);
                assert(b@.subrange(0, before.len() as int)[HEADER_SIZE + 4 * j] == b@[HEADER_SIZE + 4 * j]);
                assert(b@.subrange(0, before.len() as int)[HEADER_SIZE + 4 * j + 1] == b@[HEADER_SIZE + 4 * j + 1]);
                assert(b@.subrange(0, before.len() as int)[HEADER_SIZE + 4 * j + 2] == b@[HEADER_SIZE + 4 * j + 2]);
                assert(b@.subrange(0, before.len() as int)[HEADER_SIZE + 4 * j + 3] == b@[HEADER_SIZE + 4 * j + 3]);
            }
        };
        assert(b@.subrange(0, 12) == head) by {
            assert(b@.subrange(0, 12) =~= before.subrange(0, 12));
        };
        i = i + 1;
    }
    assert(header_length(b@) == le32(head, 0)) by {
        assert(b@[0] == head[0] && b@[1] == head[1] && b@[2] == head[2] && b@[3] == head[3]);
    };
    assert(header_kind(b@) == header_kind(head) && header_code(b@) == header_code(head)
        && header_transaction(b@) == header_transaction(head)) by {
        assert(b@[4] == head[4] && b@[5] == head[5] && b@[6] == head[6] && b@[7] == head[7]);
        assert(b@[8] == head[8] && b@[9] == head[9] && b@[10] == head[10] && b@[11] == head[11]);
    };
    b
}

} // verus!

verus! {

/// A parsed response container.
#[derive(Debug, PartialEq, Eq)]
pub struct Response {
    pub code: u16,
    pub transaction_id: u32,
    pub params: Vec<u32>,
}

/// Why the response container `b` (at least a header, response type, length
/// field at least 12) is rejected, if it is.
pub open spec fn response_fault(b: Seq<u8>) -> Option<DataFault> {
    if b.len() < header_length(b) {
        Some(DataFault::ResponseLengthMismatch { header: header_length(b) as u32, have: b.len() as usize })
    } else if (header_length(b) - HEADER_SIZE) % 4 != 0 {
        Some(DataFault::ResponseParamsUnaligned { bytes: (header_length(b) - HEADER_SIZE) as u32 })
    } else {
        None
    }
}

/// `r` holds the fields of the well-formed response container `b`.
pub open spec fn response_matches(r: Response, b: Seq<u8>) -> bool {
    &&& r.code == header_code(b)
    &&& r.transaction_id == header_transaction(b)
    &&& r.params@.len() == (header_length(b) - HEADER_SIZE) / 4
    &&& forall|i: int| 0 <= i < r.params@.len() ==> #[trigger] r.params@[i] == le32(b, HEADER_SIZE + 4 * i)
}

/// Precondition shared by response parsing: a response header whose length
/// field covers at least the header.
pub open spec fn response_header(b: Seq<u8>) -> bool {
    b.len() >= HEADER_SIZE && header_kind(b) == KIND_RESPONSE && header_length(b) >= HEADER_SIZE
}

/// Parses a response container.
pub fn parse_response(b: &Vec<u8>) -> (r: Result<Response, DataFault>)
    requires
        response_header(b@),
    ensures
        match r {
            Ok(resp) => response_fault(b@) is None && response_matches(resp, b@),
            Err(f) => response_fault(b@) == Some(f),
        },
{
    let length = read_le32(b, 0);
    if b.len() < length as usize {
        return Err(DataFault::ResponseLengthMismatch { header: length, have: b.len() });
    }
    let param_bytes = length - 12;
    if param_bytes % 4 != 0 {
        return Err(DataFault::ResponseParamsUnaligned { bytes: param_bytes });
    }
    let count = (param_bytes / 4) as usize;
    let mut params: Vec<u32> = Vec::new();
    let mut i: usize = 0;
    while i < count
        invariant
            i <= count,
            count == (header_length(b@) - HEADER_SIZE) / 4,
            HEADER_SIZE + 4 * count <= header_length(b@) <= b@.len(),
            params@.len() == i,
            forall|k: int| 0 <= k < i ==> #[trigger] params@[k] == le32(b@, HEADER_SIZE + 4 * k),
        decreases count - i,
    {
        params.push(read_le32(b, 12 + 4 * i));
        i = i + 1;
    }
    Ok(Response { code: read_le16(b, 6), transaction_id: read_le32(b, 8), params })
}

/// `Ok` for an OK response, otherwise the protocol error for `operation`.
pub fn check_response<E>(response: &Response, operation: u16) -> (r: Result<(), StreamError<E>>)
    ensures
        r is Ok <==> response.code == RESPONSE_OK,
        r is Err ==> r->Err_0 == (StreamError::<E>::Protocol { code: response.code, operation }),
{
    if response.code == RESPONSE_OK {
        Ok(())
    } else {
        Err(StreamError::Protocol { code: response.code, operation })
    }
}

/// How a single-response operation's reply `b` (to transaction `transaction_id`)
/// is read: a whole response container for this transaction, or why not.
pub open spec fn response_outcome(b: Seq<u8>, transaction_id: u32) -> Result<(), DataFault> {
    if b.len() < HEADER_SIZE {
        Err(DataFault::ContainerTooSmall { have: b.len() as usize })
    } else if header_kind(b) != KIND_RESPONSE {
        Err(DataFault::UnexpectedContainer { kind: header_kind(b) as u16 })
    } else {
        match response_fault(b) {
            Some(f) => Err(f),
            None => if header_transaction(b) != transaction_id {
                Err(DataFault::TransactionMismatch { expected: transaction_id, got: header_transaction(b) as u32 })
            } else {
                Ok(())
            },
        }
    }
}

/// Reads the reply to a command (with or without a data phase sent before it):
/// the response container, which must belong to `transaction_id`.
pub fn read_response(b: &Vec<u8>, transaction_id: u32) -> (r: Result<Response, DataFault>)
    requires
        !(b@.len() >= HEADER_SIZE && header_kind(b@) == KIND_RESPONSE && header_length(b@) < HEADER_SIZE),
    ensures
        match response_outcome(b@, transaction_id) {
            Ok(_) => r matches Ok(resp) && response_matches(resp, b@),
            Err(f) => r == Err::<Response, DataFault>(f),
        },
{
    if b.len() < 12 {
        return Err(DataFault::ContainerTooSmall { have: b.len() });
    }
    let kind = read_le16(b, 4);
    if kind != KIND_RESPONSE {
        return Err(DataFault::UnexpectedContainer { kind });
    }
    let resp = parse_response(b)?;
    if resp.transaction_id != transaction_id {
        return Err(DataFault::TransactionMismatch { expected: transaction_id, got: resp.transaction_id });
    }
    Ok(resp)
}

/// The length field announced for a data phase of `total_size` payload bytes:
/// the container length, or 0xFFFFFFFF when that does not fit in 32 bits.
pub open spec fn announced_length(total_size: u64) -> u32 {
    if HEADER_SIZE + total_size <= u32::MAX {
        (HEADER_SIZE + total_size) as u32
    } else {
        0xFFFF_FFFF
    }
}

/// The header of a data container sent in one transfer for `total_size`
/// payload bytes of operation `operation`.
pub fn data_header(operation: u16, transaction_id: u32, total_size: u64) -> (b: Vec<u8>)
    ensures
        b@.len() == HEADER_SIZE,
        header_length(b@) == announced_length(total_size),
        header_kind(b@) == KIND_DATA,
        header_code(b@) == operation,
        header_transaction(b@) == transaction_id,
{
    let length: u32 = if total_size <= 0xFFFF_FFFF - 12 {
        (total_size + 12) as u32
    } else {
        0xFFFF_FFFF
    };
    let mut b: Vec<u8> = Vec::new();
    push_le32(&mut b, length);
    push_le16(&mut b, KIND_DATA);
    push_le16(&mut b, operation);
    push_le32(&mut b, transaction_id);
    b
}

/// What the buffered data phase needs next, or how it ended.
#[derive(Debug, PartialEq, Eq)]
pub enum CollectStep<E> {
    /// Read another bulk transfer.
    Receive,
    /// The response arrived; the collected payload is in the collector.
    Done(Response),
    /// The transfer failed.
    Fail(StreamError<E>),
}

/// Collects the whole data phase of one transaction into memory.
pub struct DataCollector {
    transaction_id: u32,
    data: Vec<u8>,
    pending: Option<Vec<u8>>,
}

/// Mathematical state of a [`DataCollector`].
pub struct CollectorView {
    pub transaction_id: u32,
    pub data: Seq<u8>,
    pub pending: Option<Seq<u8>>,
}

impl View for DataCollector {
    type V = CollectorView;

    closed spec fn view(&self) -> CollectorView {
        CollectorView {
            transaction_id: self.transaction_id,
            data: self.data@,
            pending: match self.pending {
                Some(p) => Some(p@),
                None => None,
            },
        }
    }
}

/// Payload of a complete data container `c` (length field at least 12, all bytes present).
pub open spec fn data_payload(c: Seq<u8>) -> Seq<u8> {
    c.subrange(HEADER_SIZE as int, header_length(c) as int)
}

/// What happens to `data` when the (complete) data container `c` is taken in.
pub open spec fn absorb(v: CollectorView, c: Seq<u8>) -> (CollectorView, bool) {
    if header_length(c) < HEADER_SIZE {
        (v, false)
    } else {
        (CollectorView { data: v.data + data_payload(c), pending: None, ..v }, true)
    }
}

/// Appends `src[from..to]` to `dst`.
pub fn append_range(dst: &mut Vec<u8>, src: &Vec<u8>, from: usize, to: usize)
    requires
        from <= to <= src@.len(),
    ensures
        final(dst)@ == old(dst)@ + src@.subrange(from as int, to as int),
{
    let ghost d0 = dst@;
    let mut i: usize = from;
    while i < to
        invariant
            from <= i <= to <= src@.len(),
            dst@ == d0 + src@.subrange(from as int, i as int),
        decreases to - i,
    {
        dst.push(src[i]);
        i = i + 1;
        assert(dst@ =~= d0 + src@.subrange(from as int, i as int));
    }
}

/// A pending (incomplete) data container always holds at least its header.
pub open spec fn collector_wf(v: CollectorView) -> bool {
    v.pending matches Some(p) ==> p.len() >= HEADER_SIZE
}

/// Kinds of container defined by PTP.
pub open spec fn known_kind(k: nat) -> bool {
    1 <= k <= 4
}

/// A response container in `b` on which parsing is undefined (length field below 12).
pub open spec fn collector_malformed(b: Seq<u8>) -> bool {
    b.len() >= HEADER_SIZE && header_kind(b) == KIND_RESPONSE && header_length(b) < HEADER_SIZE
}

/// The relation between the collector before and after one bulk read, and the step it reports.
pub open spec fn transfer_step<E>(v: CollectorView, w: CollectorView, received: Result<Vec<u8>, E>, s: CollectStep<E>) -> bool {
    match received {
        Err(e) => s == CollectStep::Fail(StreamError::Transport(e)),
        Ok(bytes) => match v.pending {
            Some(p) => {
                let buf = p + bytes@;
                if bytes@.len() == 0 {
                    s == CollectStep::<E>::Fail(StreamError::Data(DataFault::IncompleteData))
                } else if buf.len() < header_length(buf) {
                    s is Receive && w == CollectorView { pending: Some(buf), ..v }
                } else if header_length(buf) < HEADER_SIZE {
                    s == CollectStep::<E>::Fail(
                        StreamError::Data(DataFault::DataLengthTooSmall { length: header_length(buf) as u32 }),
                    )
                } else {
                    s is Receive && w == absorb(v, buf).0
                }
            },
            None => {
                let b = bytes@;
                if b.len() == 0 {
                    s == CollectStep::<E>::Fail(StreamError::Data(DataFault::EmptyResponse))
                } else if b.len() < HEADER_SIZE {
                    s == CollectStep::<E>::Fail(
                        StreamError::Data(DataFault::ContainerTooSmall { have: b.len() as usize }),
                    )
                } else if !known_kind(header_kind(b)) {
                    s == CollectStep::<E>::Fail(
                        StreamError::Data(DataFault::InvalidContainerType { kind: header_kind(b) as u16 }),
                    )
                } else if header_kind(b) == KIND_DATA {
                    if b.len() < header_length(b) {
                        s is Receive && w == CollectorView { pending: Some(b), ..v }
                    } else if header_length(b) < HEADER_SIZE {
                        s == CollectStep::<E>::Fail(
                            StreamError::Data(DataFault::DataLengthTooSmall { length: header_length(b) as u32 }),
                        )
                    } else {
                        s is Receive && w == absorb(v, b).0
                    }
                } else if header_kind(b) == KIND_RESPONSE {
                    match response_fault(b) {
                        Some(f) => s == CollectStep::<E>::Fail(StreamError::Data(f)),
                        None => if header_transaction(b) != v.transaction_id {
                            s == CollectStep::<E>::Fail(
                                StreamError::Data(
                                    DataFault::TransactionMismatch {
                                        expected: v.transaction_id,
                                        got: header_transaction(b) as u32,
                                    },
                                ),
                            )
                        } else {
                            &&& s matches CollectStep::Done(r)
                            &&& response_matches(r, b)
                            &&& w == v
                        },
                    }
                } else {
                    s == CollectStep::<E>::Fail(
                        StreamError::Data(DataFault::UnexpectedContainer { kind: header_kind(b) as u16 }),
                    )
                }
            },
        },
    }
}

impl DataCollector {
    /// Collector for transaction `transaction_id`, nothing received yet.
    pub fn new(transaction_id: u32) -> (c: Self)
        ensures
            collector_wf(c@),
            c@.transaction_id == transaction_id,
            c@.data == Seq::<u8>::empty(),
            c@.pending is None,
    {
        DataCollector { transaction_id, data: Vec::new(), pending: None }
    }

    /// The payload collected so far.
    pub fn into_data(self) -> (d: Vec<u8>)
        ensures
            d@ == self@.data,
    {
        self.data
    }

    fn absorb_container(&mut self, c: Vec<u8>) -> (ok: bool)
        requires
            c@.len() >= HEADER_SIZE,
            c@.len() >= header_length(c@),
        ensures
            (final(self)@, ok) == absorb(old(self)@, c@),
            !ok ==> final(self)@ == old(self)@,
    {
        let length = read_le32(&c, 0);
        if length < 12 {
            return false;
        }
        append_range(&mut self.data, &c, 12, length as usize);
        self.pending = None;
        true
    }

    /// Takes the result of one bulk read.
    pub fn on_transfer<E>(&mut self, received: Result<Vec<u8>, E>) -> (s: CollectStep<E>)
        requires
            collector_wf(old(self)@),
            received is Ok && old(self)@.pending is None ==> !collector_malformed(received->Ok_0@),
        ensures
            collector_wf(final(self)@),
            final(self)@.transaction_id == old(self)@.transaction_id,
            transfer_step(old(self)@, final(self)@, received, s),
    {
        let bytes = match received {
            Err(e) => return CollectStep::Fail(StreamError::Transport(e)),
            Ok(b) => b,
        };
        match self.pending.take() {
            Some(mut buf) => {
                if bytes.len() == 0 {
                    return CollectStep::Fail(StreamError::Data(DataFault::IncompleteData));
                }
                append_bytes(&mut buf, &bytes);
                let total = read_le32(&buf, 0);
                if buf.len() < total as usize {
                    self.pending = Some(buf);
                    return CollectStep::Receive;
                }
                if self.absorb_container(buf) {
                    CollectStep::Receive
                } else {
                    CollectStep::Fail(StreamError::Data(DataFault::DataLengthTooSmall { length: total }))
                }
            },
            None => {
                if bytes.len() == 0 {
                    return CollectStep::Fail(StreamError::Data(DataFault::EmptyResponse));
                }
                if bytes.len() < 12 {
                    return CollectStep::Fail(StreamError::Data(DataFault::ContainerTooSmall { have: bytes.len() }));
                }
                let kind = read_le16(&bytes, 4);
                if kind == KIND_DATA {
                    let total = read_le32(&bytes, 0);
                    if bytes.len() < total as usize {
                        self.pending = Some(bytes);
                        return CollectStep::Receive;
                    }
                    if self.absorb_container(bytes) {
                        CollectStep::Receive
                    } else {
                        CollectStep::Fail(StreamError::Data(DataFault::DataLengthTooSmall { length: total }))
                    }
                } else if kind == KIND_RESPONSE {
                    match parse_response(&bytes) {
                        Err(f) => CollectStep::Fail(StreamError::Data(f)),
                        Ok(r) => {
                            if r.transaction_id != self.transaction_id {
                                CollectStep::Fail(StreamError::Data(DataFault::TransactionMismatch {
                                    expected: self.transaction_id,
                                    got: r.transaction_id,
                                }))
                            } else {
                                CollectStep::Done(r)
                            }
                        },
                    }
                } else if kind == KIND_COMMAND || kind == KIND_EVENT {
                    CollectStep::Fail(StreamError::Data(DataFault::UnexpectedContainer { kind }))
                } else {
                    CollectStep::Fail(StreamError::Data(DataFault::InvalidContainerType { kind }))
                }
            },
        }
    }
}

/// Where the collector stands once the first `m` bytes (a header at least)
/// of the data container `dc` arrived, on top of the data `data0`.
pub open spec fn collect_progress(v: CollectorView, data0: Seq<u8>, dc: Seq<u8>, m: nat) -> bool {
    &&& HEADER_SIZE <= m <= dc.len()
    &&& if m < dc.len() {
        v.pending == Some(dc.take(m as int)) && v.data == data0
    } else {
        v.pending is None && v.data == data0 + dc.skip(HEADER_SIZE as int)
    }
}

/// The bytes of each read.
pub open spec fn read_bytes(reads: Seq<Vec<u8>>) -> Seq<Seq<u8>> {
    reads.map_values(|r: Vec<u8>| r@)
}

proof fn lemma_collect_read(v: CollectorView, w: CollectorView, bytes: Vec<u8>, s: CollectStep<()>, data0: Seq<u8>, dc: Seq<u8>, m: nat)
    requires
        dc.len() > HEADER_SIZE,
        header_length(dc) == dc.len(),
        header_kind(dc) == KIND_DATA,
        v.pending is None ==> v.data == data0 && m == 0,
        v.pending is Some ==> collect_progress(v, data0, dc, m) && m < dc.len(),
        bytes@.len() > 0,
        v.pending is None ==> bytes@.len() >= HEADER_SIZE,
        m + bytes@.len() <= dc.len(),
        dc.subrange(m as int, (m + bytes@.len()) as int) == bytes@,
        transfer_step(v, w, Ok::<Vec<u8>, ()>(bytes), s),
    ensures
        s is Receive,
        collect_progress(w, data0, dc, m + bytes@.len()),
        w.transaction_id == v.transaction_id,
{
    let m2: nat = m + bytes@.len();
    let buf = match v.pending {
        Some(p) => p + bytes@,
        None => bytes@,
    };
    assert(buf =~= dc.take(m2 as int));
    assert(header_kind(buf) == header_kind(dc));
    assert(header_length(buf) == header_length(dc));
    if m2 == dc.len() {
        assert(buf =~= dc);
        assert(data_payload(buf) =~= dc.skip(HEADER_SIZE as int));
    }
}

proof fn lemma_flat_prefix(bs: Seq<Seq<u8>>, k: int)
    requires
        0 <= k <= bs.len(),
    ensures
        bs.take(k).flatten_alt().len() <= bs.flatten_alt().len(),
        bs.flatten_alt().take(bs.take(k).flatten_alt().len() as int) == bs.take(k).flatten_alt(),
    decreases bs.len(),
{
    if k == bs.len() {
        assert(bs.take(k) =~= bs);
        assert(bs.flatten_alt().take(bs.flatten_alt().len() as int) =~= bs.flatten_alt());
    } else {
        let d = bs.drop_last();
        assert(bs.take(k) =~= d.take(k));
        lemma_flat_prefix(d, k);
        assert(bs.flatten_alt() == d.flatten_alt() + bs.last());
        assert(bs.flatten_alt().take(d.take(k).flatten_alt().len() as int) =~= d.flatten_alt().take(
            d.take(k).flatten_alt().len() as int,
        ));
    }
}

proof fn lemma_collect_prefix(
    views: Seq<CollectorView>,
    reads: Seq<Vec<u8>>,
    steps: Seq<CollectStep<()>>,
    dc: Seq<u8>,
    k: int,
)
    requires
        dc.len() > HEADER_SIZE,
        header_length(dc) == dc.len(),
        header_kind(dc) == KIND_DATA,
        1 <= k <= reads.len(),
        views.len() == reads.len() + 1,
        steps.len() == reads.len(),
        views[0].pending is None,
        reads[0]@.len() >= HEADER_SIZE,
        forall|i: int| 0 <= i < reads.len() ==> #[trigger] reads[i]@.len() > 0,
        read_bytes(reads).flatten_alt() == dc,
        forall|i: int|
            #![trigger steps[i]]
            0 <= i < reads.len() ==> transfer_step(views[i], views[i + 1], Ok::<Vec<u8>, ()>(reads[i]), steps[i]),
    ensures
        forall|i: int| 0 <= i < k ==> #[trigger] steps[i] is Receive,
        collect_progress(views[k], views[0].data, dc, read_bytes(reads).take(k).flatten_alt().len()),
    decreases k,
{
    let bs = read_bytes(reads);
    let m2 = bs.take(k).flatten_alt().len();
    assert(bs.take(k).drop_last() =~= bs.take(k - 1));
    assert(bs.take(k).last() == reads[k - 1]@);
    assert(bs.take(k).flatten_alt() == bs.take(k - 1).flatten_alt() + reads[k - 1]@);
    let m = bs.take(k - 1).flatten_alt().len();
    lemma_flat_prefix(bs, k);
    assert(dc.subrange(m as int, m2 as int) =~= reads[k - 1]@) by {
        assert forall|j: int| 0 <= j < reads[k - 1]@.len() implies dc.subrange(m as int, m2 as int)[j]
            == reads[k - 1]@[j] by {
            assert(dc.take(m2 as int)[m + j] == bs.take(k).flatten_alt()[m + j]);
        }
    }
    let t = steps[k - 1];
    if k == 1 {
        assert(bs.take(0) =~= Seq::<Seq<u8>>::empty());
        assert(m == 0);
        lemma_collect_read(views[0], views[1], reads[0], t, views[0].data, dc, 0);
    } else {
        lemma_collect_prefix(views, reads, steps, dc, k - 1);
        assert(m < dc.len()) by {
            assert(m2 <= dc.len());
            assert(reads[k - 1]@.len() > 0);
        }
        lemma_collect_read(views[k - 1], views[k], reads[k - 1], t, views[0].data, dc, m);
    }
}

/// However the device splits a data container over bulk reads (each read
/// non-empty, the first holding at least the header), the buffered data phase
/// asks for more after each read and ends up with exactly the payload
/// appended to what it held.
pub proof fn lemma_collector_split_reads(
    views: Seq<CollectorView>,
    reads: Seq<Vec<u8>>,
    steps: Seq<CollectStep<()>>,
    operation: u16,
    transaction_id: u32,
    payload: Seq<u8>,
)
    requires
        0 < payload.len(),
        HEADER_SIZE + payload.len() <= u32::MAX,
        reads.len() > 0,
        views.len() == reads.len() + 1,
        steps.len() == reads.len(),
        views[0].pending is None,
        reads[0]@.len() >= HEADER_SIZE,
        forall|i: int| 0 <= i < reads.len() ==> #[trigger] reads[i]@.len() > 0,
        read_bytes(reads).flatten() == data_container_bytes(operation, transaction_id, payload),
        forall|i: int|
            #![trigger steps[i]]
            0 <= i < reads.len() ==> transfer_step(views[i], views[i + 1], Ok::<Vec<u8>, ()>(reads[i]), steps[i]),
    ensures
        forall|i: int| 0 <= i < steps.len() ==> #[trigger] steps[i] is Receive,
        views.last().pending is None,
        views.last().data == views[0].data + payload,
{
    let n = (HEADER_SIZE + payload.len()) as u32;
    lemma_le_fields(n, KIND_DATA, operation, transaction_id, payload);
    let dc = data_container_bytes(operation, transaction_id, payload);
    read_bytes(reads).lemma_flatten_and_flatten_alt_are_equivalent();
    lemma_collect_prefix(views, reads, steps, dc, reads.len() as int);
    assert(read_bytes(reads).take(reads.len() as int) =~= read_bytes(reads));
    assert(dc.skip(HEADER_SIZE as int) =~= payload);
}

/// One bulk read while the device information is fetched: every read holds one
/// whole container; data payloads are collected in order until an OK response.
pub open spec fn device_info_step<E>(
    payload: Seq<u8>,
    received: Result<Vec<u8>, E>,
    next: Seq<u8>,
    s: CollectStep<E>,
) -> bool {
    match received {
        Err(e) => s == CollectStep::Fail(StreamError::Transport(e)) && next == payload,
        Ok(bytes) => {
            let b = bytes@;
            if b.len() == 0 {
                s == CollectStep::<E>::Fail(StreamError::Data(DataFault::EmptyResponse)) && next == payload
            } else if b.len() < HEADER_SIZE {
                s == CollectStep::<E>::Fail(StreamError::Data(DataFault::ContainerTooSmall { have: b.len() as usize }))
                    && next == payload
            } else if !known_kind(header_kind(b)) {
                s == CollectStep::<E>::Fail(
                    StreamError::Data(DataFault::InvalidContainerType { kind: header_kind(b) as u16 }),
                ) && next == payload
            } else if header_kind(b) == KIND_DATA {
                if header_length(b) < HEADER_SIZE {
                    s == CollectStep::<E>::Fail(
                        StreamError::Data(DataFault::DataLengthTooSmall { length: header_length(b) as u32 }),
                    ) && next == payload
                } else if b.len() < header_length(b) {
                    s == CollectStep::<E>::Fail(
                        StreamError::Data(
                            DataFault::DataLengthMismatch { header: header_length(b) as u32, have: b.len() as usize },
                        ),
                    ) && next == payload
                } else {
                    s is Receive && next == payload + data_payload(b)
                }
            } else if header_kind(b) == KIND_RESPONSE {
                match response_fault(b) {
                    Some(f) => s == CollectStep::<E>::Fail(StreamError::Data(f)) && next == payload,
                    None => if header_code(b) != RESPONSE_OK {
                        s == CollectStep::<E>::Fail(
                            StreamError::Protocol { code: header_code(b) as u16, operation: OP_GET_DEVICE_INFO },
                        ) && next == payload
                    } else {
                        &&& s matches CollectStep::Done(r)
                        &&& response_matches(r, b)
                        &&& next == payload
                    },
                }
            } else {
                s == CollectStep::<E>::Fail(
                    StreamError::Data(DataFault::UnexpectedContainer { kind: header_kind(b) as u16 }),
                ) && next == payload
            }
        },
    }
}

/// Collects the device information dataset, read session-less.
pub struct DeviceInfoCollector {
    payload: Vec<u8>,
}

impl DeviceInfoCollector {
    /// The payload collected so far.
    pub closed spec fn payload(&self) -> Seq<u8> {
        self.payload@
    }

    /// Nothing collected yet.
    pub fn new() -> (c: Self)
        ensures
            c.payload() == Seq::<u8>::empty(),
    {
        DeviceInfoCollector { payload: Vec::new() }
    }

    /// The collected dataset.
    pub fn into_payload(self) -> (d: Vec<u8>)
        ensures
            d@ == self.payload(),
    {
        self.payload
    }

    /// Takes the result of one bulk read.
    pub fn on_transfer<E>(&mut self, received: Result<Vec<u8>, E>) -> (s: CollectStep<E>)
        requires
            received is Ok ==> !collector_malformed(received->Ok_0@),
        ensures
            device_info_step(old(self).payload(), received, final(self).payload(), s),
    {
        let bytes = match received {
            Err(e) => return CollectStep::Fail(StreamError::Transport(e)),
            Ok(b) => b,
        };
        if bytes.len() == 0 {
            return CollectStep::Fail(StreamError::Data(DataFault::EmptyResponse));
        }
        if bytes.len() < 12 {
            return CollectStep::Fail(StreamError::Data(DataFault::ContainerTooSmall { have: bytes.len() }));
        }
        let kind = read_le16(&bytes, 4);
        if kind == KIND_DATA {
            let length = read_le32(&bytes, 0);
            if length < 12 {
                return CollectStep::Fail(StreamError::Data(DataFault::DataLengthTooSmall { length }));
            }
            if bytes.len() < length as usize {
                return CollectStep::Fail(
                    StreamError::Data(DataFault::DataLengthMismatch { header: length, have: bytes.len() }),
                );
            }
            append_range(&mut self.payload, &bytes, 12, length as usize);
            CollectStep::Receive
        } else if kind == KIND_RESPONSE {
            match parse_response(&bytes) {
                Err(f) => CollectStep::Fail(StreamError::Data(f)),
                Ok(r) => if r.code != RESPONSE_OK {
                    CollectStep::Fail(StreamError::Protocol { code: r.code, operation: OP_GET_DEVICE_INFO })
                } else {
                    CollectStep::Done(r)
                },
            }
        } else if kind == KIND_COMMAND || kind == KIND_EVENT {
            CollectStep::Fail(StreamError::Data(DataFault::UnexpectedContainer { kind }))
        } else {
            CollectStep::Fail(StreamError::Data(DataFault::InvalidContainerType { kind }))
        }
    }
}

/// What to do after the device answered the first OpenSession.
#[derive(Debug, PartialEq, Eq, Structural)]
pub enum OpenDecision {
    /// The session is open.
    Opened,
    /// A stale session is open: close it (ignoring the outcome), then open a fresh one.
    CloseAndRetry,
    /// The device refused with this response code.
    Refused(u16),
}

/// Decides on the response code of the first OpenSession.
pub fn open_decision(code: u16) -> (d: OpenDecision)
    ensures
        code == RESPONSE_OK ==> d == OpenDecision::Opened,
        code == RESPONSE_SESSION_ALREADY_OPEN ==> d == OpenDecision::CloseAndRetry,
        code != RESPONSE_OK && code != RESPONSE_SESSION_ALREADY_OPEN ==> d == OpenDecision::Refused(code),
{
    if code == RESPONSE_OK {
        OpenDecision::Opened
    } else if code == RESPONSE_SESSION_ALREADY_OPEN {
        OpenDecision::CloseAndRetry
    } else {
        OpenDecision::Refused(code)
    }
}

/// How far the opening of a session has got.
#[derive(Debug, Clone, Copy, PartialEq, Eq, Structural)]
pub enum OpenPhase {
    /// The first OpenSession was sent.
    FirstOpen,
    /// The device still had a session open; CloseSession was sent.
    Closing,
    /// OpenSession was sent once more.
    Retry,
    /// The session is open, or opening it failed.
    Finished,
}

/// What to do next while opening a session.
#[derive(Debug, PartialEq, Eq)]
pub enum OpenAction<E> {
    /// Send these command bytes, read one response, and report what came back
    /// (or the failed send) to [`OpenHandshake::on_response`].
    Exchange(Vec<u8>),
    /// The session is open.
    Opened,
    /// Opening the session failed; nothing more is sent.
    Fail(StreamError<E>),
}

/// Opening session `session_id`: OpenSession; when the device still has a
/// session open, CloseSession (whatever it answers) and OpenSession once more.
pub struct OpenHandshake {
    pub session_id: u32,
    pub phase: OpenPhase,
}

/// `b` is the OpenSession command for `session_id`: session-less transaction
/// id, the session id as its one parameter.
pub open spec fn is_open_command(b: Seq<u8>, session_id: u32) -> bool {
    is_command_encoding(b, OP_OPEN_SESSION, TRANSACTION_SESSION_LESS, seq![session_id])
}

/// `b` is the CloseSession command of the stale session's first transaction.
pub open spec fn is_close_command(b: Seq<u8>) -> bool {
    is_command_encoding(b, OP_CLOSE_SESSION, TRANSACTION_FIRST, Seq::empty())
}

/// How the reply `b` to an OpenSession is read: a whole response container
/// (its transaction id is not checked), or why not.
pub open spec fn open_reply(b: Seq<u8>) -> Result<(), DataFault> {
    if b.len() < HEADER_SIZE {
        Err(DataFault::ContainerTooSmall { have: b.len() as usize })
    } else if header_kind(b) != KIND_RESPONSE {
        Err(DataFault::UnexpectedContainer { kind: header_kind(b) as u16 })
    } else {
        match response_fault(b) {
            Some(f) => Err(f),
            None => Ok(()),
        }
    }
}

/// What one reply does to the opening, in phase `phase`: after CloseSession
/// the reply is ignored and OpenSession is sent again; after an OpenSession a
/// failed exchange or a malformed reply ends it with that error, OK opens the
/// session, SessionAlreadyOpen (to the first OpenSession only) leads to
/// CloseSession, and any other code ends it with the protocol error of
/// OpenSession.
pub open spec fn open_step<E>(
    phase: OpenPhase,
    session_id: u32,
    received: Result<Vec<u8>, E>,
    next: OpenPhase,
    a: OpenAction<E>,
) -> bool {
    if phase == OpenPhase::Closing {
        next == OpenPhase::Retry && (a matches OpenAction::Exchange(c) && is_open_command(c@, session_id))
    } else {
        match received {
            Err(e) => next == OpenPhase::Finished && a == OpenAction::Fail(StreamError::Transport(e)),
            Ok(b) => match open_reply(b@) {
                Err(f) => next == OpenPhase::Finished && a == OpenAction::<E>::Fail(StreamError::Data(f)),
                Ok(_) => if header_code(b@) == RESPONSE_OK {
                    next == OpenPhase::Finished && a is Opened
                } else if header_code(b@) == RESPONSE_SESSION_ALREADY_OPEN && phase == OpenPhase::FirstOpen {
                    next == OpenPhase::Closing && (a matches OpenAction::Exchange(c) && is_close_command(c@))
                } else {
                    next == OpenPhase::Finished && a == OpenAction::<E>::Fail(
                        StreamError::Protocol { code: header_code(b@) as u16, operation: OP_OPEN_SESSION },
                    )
                },
            },
        }
    }
}

impl OpenHandshake {
    /// Starts opening session `session_id`: the OpenSession command to send.
    pub fn start(session_id: u32) -> (out: (OpenHandshake, Vec<u8>))
        ensures
            out.0.session_id == session_id,
            out.0.phase == OpenPhase::FirstOpen,
            is_open_command(out.1@, session_id),
    {
        let params: Vec<u32> = vec![session_id];
        assert(params@ =~= seq![session_id]);
        let b = command_bytes(OP_OPEN_SESSION, TRANSACTION_SESSION_LESS, &params);
        (OpenHandshake { session_id, phase: OpenPhase::FirstOpen }, b)
    }

    /// Takes the outcome of the last exchange and says what to do next.
    pub fn on_response<E>(&mut self, received: Result<Vec<u8>, E>) -> (a: OpenAction<E>)
        requires
            old(self).phase != OpenPhase::Finished,
            received matches Ok(b) ==> !(b@.len() >= HEADER_SIZE && header_kind(b@) == KIND_RESPONSE
                && header_length(b@) < HEADER_SIZE),
        ensures
            final(self).session_id == old(self).session_id,
            open_step(old(self).phase, old(self).session_id, received, final(self).phase, a),
    {
        if self.phase == OpenPhase::Closing {
            let params: Vec<u32> = vec![self.session_id];
            assert(params@ =~= seq![self.session_id]);
            self.phase = OpenPhase::Retry;
            return OpenAction::Exchange(command_bytes(OP_OPEN_SESSION, TRANSACTION_SESSION_LESS, &params));
        }
        let first = self.phase == OpenPhase::FirstOpen;
        self.phase = OpenPhase::Finished;
        let b = match received {
            Err(e) => return OpenAction::Fail(StreamError::Transport(e)),
            Ok(b) => b,
        };
        let tx: u32 = if b.len() >= 12 {
            read_le32(&b, 8)
        } else {
            0
        };
        let r = match read_response(&b, tx) {
            Err(f) => return OpenAction::Fail(StreamError::Data(f)),
            Ok(r) => r,
        };
        match open_decision(r.code) {
            OpenDecision::Opened => OpenAction::Opened,
            OpenDecision::CloseAndRetry => if first {
                self.phase = OpenPhase::Closing;
                let none: Vec<u32> = Vec::new();
                assert(none@ =~= Seq::<u32>::empty());
                OpenAction::Exchange(command_bytes(OP_CLOSE_SESSION, TRANSACTION_FIRST, &none))
            } else {
                OpenAction::Fail(StreamError::Protocol { code: r.code, operation: OP_OPEN_SESSION })
            },
            OpenDecision::Refused(code) => OpenAction::Fail(StreamError::Protocol { code, operation: OP_OPEN_SESSION }),
        }
    }
}

} // verus!
