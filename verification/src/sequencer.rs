//! The sequencer's own logic: reading the queue of pending SQL statements,
//! framing them into one inscription, reacting to chain events, and the
//! values it derives from its configuration.

use vstd::prelude::*;
use vstd::utf8::{decode_utf8, decode_utf8_encode_utf8, valid_utf8, encode_utf8};

use crate::logging::{CR, LF};
use crate::state::{InscriptionInfo, MsgView, ZoneState, finalize_all, infos_view};
use crate::text::{push_str, string_of};

verus! {

/// What can go wrong in the sequencer.
#[derive(Debug)]
pub enum SequencerError {
    /// The node endpoint is not a URL; the text says why.
    Url(String),
    /// Reading or writing a file failed; the text says why.
    Io(String),
    /// The batch does not fit in one inscription; the text says why.
    InscriptionTooLarge(String),
}

/// The text that a sequencer error displays.
pub open spec fn sequencer_error_message(e: SequencerError) -> Seq<char> {
    match e {
        SequencerError::Url(s) => "URL parse error: "@ + s@,
        SequencerError::Io(s) => "IO error: "@ + s@,
        SequencerError::InscriptionTooLarge(s) => "Inscription too large: "@ + s@,
    }
}

impl SequencerError {
    /// The text that this error displays.
    pub fn message(&self) -> (r: String)
        ensures
            r@ == sequencer_error_message(*self),
    {
        let (prefix, s) = match self {
            SequencerError::Url(s) => ("URL parse error: ", s),
            SequencerError::Io(s) => ("IO error: ", s),
            SequencerError::InscriptionTooLarge(s) => ("Inscription too large: ", s),
        };
        let mut r = string_of(prefix);
        push_str(&mut r, s.as_str());
        r
    }
}

/// The text of the error that reading a line that is not UTF-8 reports.
pub open spec fn invalid_utf8_text() -> Seq<char> {
    "stream did not contain valid UTF-8"@
}

// ---------------------------------------------------------------------------
// The queue file
// ---------------------------------------------------------------------------

/// The position of the first line feed of `c`, or its length when it has none.
pub open spec fn newline_index(c: Seq<u8>) -> int
    decreases c.len(),
{
    if c.len() == 0 {
        0
    } else if c[0] == LF {
        0
    } else {
        1 + newline_index(c.drop_first())
    }
}

/// The first line feed of `c` is at a position between 0 and its length.
pub proof fn lemma_newline_index_bounds(c: Seq<u8>)
    ensures
        0 <= newline_index(c) <= c.len(),
    decreases c.len(),
{
    if c.len() > 0 && c[0] != LF {
        lemma_newline_index_bounds(c.drop_first());
    }
}

/// A position with no line feed before it and a line feed or the end at it is
/// the first line feed.
proof fn lemma_newline_index_is(c: Seq<u8>, k: int)
    requires
        0 <= k <= c.len(),
        forall|j: int| 0 <= j < k ==> c[j] != LF,
        k == c.len() || c[k] == LF,
    ensures
        newline_index(c) == k,
    decreases c.len(),
{
    if c.len() > 0 && c[0] != LF {
        let t = c.drop_first();
        assert forall|j: int| 0 <= j < k - 1 implies t[j] != LF by {
            assert(t[j] == c[j + 1]);
        }
        if k < c.len() {
            assert(t[k - 1] == c[k]);
        }
        lemma_newline_index_is(t, k - 1);
    }
}

/// A line without its final carriage return, if it has one.
pub open spec fn strip_cr(l: Seq<u8>) -> Seq<u8> {
    if l.len() > 0 && l.last() == CR {
        l.drop_last()
    } else {
        l
    }
}

/// The lines of `c` as a buffered reader yields them: split at each line feed,
/// with the line feed and one carriage return before it taken off, and a last
/// line without a line feed only when it is not empty.
pub open spec fn queue_lines(c: Seq<u8>) -> Seq<Seq<u8>>
    decreases c.len(),
{
    if c.len() == 0 {
        seq![]
    } else {
        let i = newline_index(c);
        proof {
            lemma_newline_index_bounds(c);
        }
        if i < c.len() {
            seq![strip_cr(c.take(i))] + queue_lines(c.skip(i + 1))
        } else {
            seq![c]
        }
    }
}

/// Every line of `c` is valid UTF-8, so that the whole queue can be read.
pub open spec fn queue_readable(c: Seq<u8>) -> bool {
    forall|k: int| 0 <= k < queue_lines(c).len() ==> valid_utf8(#[trigger] queue_lines(c)[k])
}

/// Decodes a line of UTF-8 text with `String::from_utf8`: the bytes are taken
/// when they are valid UTF-8, and decode to the characters they encode.
#[verifier::external_body]
fn utf8_string(bytes: Vec<u8>) -> (r: Option<String>)
    ensures
        r is Some <==> valid_utf8(bytes@),
        r matches Some(s) ==> s@ == decode_utf8(bytes@),
{
    match String::from_utf8(bytes) {
        Ok(s) => Some(s),
        Err(_) => None,
    }
}

/// A copy of `c[from..to]`.
fn copy_range(c: &[u8], from: usize, to: usize) -> (r: Vec<u8>)
    requires
        from <= to <= c@.len(),
    ensures
        r@ == c@.subrange(from as int, to as int),
{
    let mut r: Vec<u8> = Vec::new();
    let mut i = from;
    while i < to
        invariant
            from <= i <= to,
            to <= c@.len(),
            r@ == c@.subrange(from as int, i as int),
        decreases to - i,
    {
        r.push(c[i]);
        assert(c@.subrange(from as int, i + 1) =~= c@.subrange(from as int, i as int).push(c@[i as int]));
        i = i + 1;
    }
    r
}

/// The statements of the queue file, one per line, read as a buffered reader
/// reads lines. Reading stops with an I/O error at the first line that is not
/// UTF-8.
pub fn parse_queue(content: &[u8]) -> (r: Result<Vec<String>, SequencerError>)
    ensures
        queue_readable(content@) ==> (r matches Ok(v) && v@.len() == queue_lines(content@).len()
            && forall|k: int| 0 <= k < v@.len() ==> #[trigger] v@[k]@ == decode_utf8(queue_lines(content@)[k])),
        !queue_readable(content@) ==> (r matches Err(SequencerError::Io(m)) && m@ == invalid_utf8_text()),
{
    let ghost c = content@;
    let ghost mut raw: Seq<Seq<u8>> = seq![];
    let mut out: Vec<String> = Vec::new();
    let mut start: usize = 0;
    assert(c.skip(0) =~= c);
    while start < content.len()
        invariant
            c == content@,
            start <= c.len(),
            queue_lines(c) == raw + queue_lines(c.skip(start as int)),
            out@.len() == raw.len(),
            forall|k: int| 0 <= k < raw.len() ==> valid_utf8(#[trigger] raw[k]),
            forall|k: int| 0 <= k < raw.len() ==> #[trigger] out@[k]@ == decode_utf8(raw[k]),
        decreases c.len() - start,
    {
        let ghost rest = c.skip(start as int);
        let mut i = start;
        while i < content.len() && content[i] != LF
            invariant
                start <= i <= c.len(),
                c == content@,
                forall|j: int| start <= j < i ==> c[j] != LF,
            decreases c.len() - i,
        {
            i = i + 1;
        }
        proof {
            assert forall|j: int| 0 <= j < i - start implies rest[j] != LF by {
                assert(rest[j] == c[start + j]);
            }
            if i < c.len() {
                assert(rest[i - start] == c[i as int]);
            }
            lemma_newline_index_is(rest, i - start);
        }
        let has_lf = i < content.len();
        let mut end = i;
        if has_lf && i > start && content[i - 1] == CR {
            end = i - 1;
        }
        let line = copy_range(content, start, end);
        let ghost line_view = if has_lf {
            strip_cr(rest.take(i - start))
        } else {
            rest
        };
        proof {
            assert(rest.take(i - start) =~= c.subrange(start as int, i as int));
            if has_lf {
                if i > start && c[i - 1] == CR {
                    assert(c.subrange(start as int, i as int).drop_last() =~= c.subrange(
                        start as int,
                        i - 1,
                    ));
                }
            } else {
                assert(rest =~= c.subrange(start as int, i as int));
            }
            assert(line@ == line_view);
            if has_lf {
                assert(rest.skip(i - start + 1) =~= c.skip(i + 1));
                assert(queue_lines(rest) == seq![line_view] + queue_lines(c.skip(i + 1)));
            } else {
                assert(queue_lines(rest) == seq![line_view]);
                assert(c.skip(i as int).len() == 0);
                assert(queue_lines(c.skip(i as int)) =~= Seq::<Seq<u8>>::empty());
            }
        }
        match utf8_string(line) {
            Some(s) => {
                out.push(s);
                proof {
                    raw = raw.push(line_view);
                }
            },
            None => {
                proof {
                    let q = queue_lines(c);
                    let k = raw.len() as int;
                    assert(q[k] == line_view);
                }
                return Err(SequencerError::Io(string_of("stream did not contain valid UTF-8")));
            },
        }
        if has_lf {
            start = i + 1;
            proof {
                assert(queue_lines(c) =~= raw + queue_lines(c.skip(start as int)));
            }
        } else {
            start = i;
            proof {
                assert(queue_lines(c) =~= raw + queue_lines(c.skip(start as int)));
            }
        }
    }
    proof {
        assert(c.skip(start as int).len() == 0);
        assert(queue_lines(c) =~= raw);
    }
    Ok(out)
}

/// The lines joined with a line feed between each two.
pub open spec fn join_lines(ls: Seq<Seq<u8>>) -> Seq<u8>
    decreases ls.len(),
{
    if ls.len() == 0 {
        seq![]
    } else if ls.len() == 1 {
        ls[0]
    } else {
        join_lines(ls.drop_last()) + seq![LF] + ls.last()
    }
}

/// The UTF-8 bytes of each statement.
pub open spec fn statement_bytes(pending: Seq<String>) -> Seq<Seq<u8>> {
    pending.map_values(|s: String| encode_utf8(s@))
}

/// Appends bytes to a buffer.
fn append_slice(out: &mut Vec<u8>, tail: &[u8])
    ensures
        final(out)@ == old(out)@ + tail@,
{
    let ghost start = out@;
    let mut i: usize = 0;
    while i < tail.len()
        invariant
            i <= tail@.len(),
            out@ == start + tail@.take(i as int),
        decreases tail.len() - i,
    {
        out.push(tail[i]);
        assert(tail@.take(i + 1) =~= tail@.take(i as int).push(tail@[i as int]));
        i = i + 1;
    }
    assert(tail@.take(i as int) =~= tail@);
}

/// The payload of one inscription that carries all pending statements, one
/// per line; nothing when no statement is pending.
pub fn batch_payload(pending: &[String]) -> (r: Option<Vec<u8>>)
    ensures
        pending@.len() == 0 ==> r is None,
        pending@.len() > 0 ==> (r matches Some(b) && b@ == join_lines(statement_bytes(pending@))),
{
    if pending.len() == 0 {
        return None;
    }
    let ghost ls = statement_bytes(pending@);
    let mut out: Vec<u8> = Vec::new();
    append_slice(&mut out, pending[0].as_str().as_bytes());
    let mut k: usize = 1;
    proof {
        assert(ls.take(1).drop_last() =~= Seq::<Seq<u8>>::empty());
        assert(join_lines(ls.take(1)) == ls[0]);
    }
    while k < pending.len()
        invariant
            1 <= k <= pending@.len(),
            ls == statement_bytes(pending@),
            out@ == join_lines(ls.take(k as int)),
        decreases pending.len() - k,
    {
        out.push(LF);
        append_slice(&mut out, pending[k].as_str().as_bytes());
        proof {
            assert(ls.take(k + 1).drop_last() =~= ls.take(k as int));
            assert(ls.take(k + 1).last() == ls[k as int]);
        }
        k = k + 1;
    }
    assert(ls.take(k as int) =~= ls);
    Some(out)
}

/// `c` without one final line feed.
pub open spec fn without_final_lf(c: Seq<u8>) -> Seq<u8> {
    if c.len() > 0 && c.last() == LF {
        c.drop_last()
    } else {
        c
    }
}

/// Joining one line with the lines that follow it.
proof fn lemma_join_lines_cons(l: Seq<u8>, rest: Seq<Seq<u8>>)
    ensures
        rest.len() == 0 ==> join_lines(seq![l] + rest) == l,
        rest.len() > 0 ==> join_lines(seq![l] + rest) == l + seq![LF] + join_lines(rest),
    decreases rest.len(),
{
    let s = seq![l] + rest;
    if rest.len() == 0 {
        assert(s =~= seq![l]);
    } else if rest.len() == 1 {
        assert(s.drop_last() =~= seq![l]);
        assert(join_lines(s.drop_last()) == l);
        assert(s.last() == rest[0]);
        assert(join_lines(rest) == rest[0]);
    } else {
        assert(s.drop_last() =~= seq![l] + rest.drop_last());
        lemma_join_lines_cons(l, rest.drop_last());
        assert(s.last() == rest.last());
        assert(join_lines(s) == join_lines(s.drop_last()) + seq![LF] + s.last());
        assert(join_lines(rest) == join_lines(rest.drop_last()) + seq![LF] + rest.last());
        assert(l + seq![LF] + join_lines(rest.drop_last()) + seq![LF] + rest.last() =~= l + seq![LF]
            + (join_lines(rest.drop_last()) + seq![LF] + rest.last()));
    }
}

/// The lines of a queue without carriage returns, joined again, give back the
/// queue without its final line feed.
pub proof fn lemma_queue_lines_rejoin(c: Seq<u8>)
    requires
        forall|j: int| 0 <= j < c.len() ==> c[j] != CR,
    ensures
        join_lines(queue_lines(c)) == without_final_lf(c),
    decreases c.len(),
{
    if c.len() > 0 {
        lemma_newline_index_bounds(c);
        let i = newline_index(c);
        if i < c.len() {
            let head = c.take(i);
            let tail = c.skip(i + 1);
            assert(strip_cr(head) == head) by {
                if head.len() > 0 {
                    assert(head.last() == c[i - 1]);
                }
            }
            lemma_newline_index_facts(c);
            assert forall|j: int| 0 <= j < tail.len() implies tail[j] != CR by {
                assert(tail[j] == c[i + 1 + j]);
            }
            lemma_queue_lines_rejoin(tail);
            lemma_join_lines_cons(head, queue_lines(tail));
            if tail.len() == 0 {
                assert(queue_lines(tail) =~= Seq::<Seq<u8>>::empty());
                assert(head =~= without_final_lf(c));
            } else {
                assert(queue_lines(tail).len() > 0) by {
                    lemma_queue_lines_nonempty(tail);
                }
                if tail.last() == LF {
                    assert(head + seq![LF] + tail.drop_last() =~= c.drop_last());
                } else {
                    assert(head + seq![LF] + tail =~= c);
                }
            }
        } else {
            lemma_newline_index_facts(c);
            assert(c.last() != LF);
        }
    }
}

/// The line feed that `newline_index` finds is one, and there is none before it.
proof fn lemma_newline_index_facts(c: Seq<u8>)
    ensures
        forall|j: int| 0 <= j < newline_index(c) ==> c[j] != LF,
        newline_index(c) < c.len() ==> c[newline_index(c)] == LF,
    decreases c.len(),
{
    lemma_newline_index_bounds(c);
    if c.len() > 0 && c[0] != LF {
        let t = c.drop_first();
        lemma_newline_index_facts(t);
        lemma_newline_index_bounds(t);
        assert forall|j: int| 0 <= j < newline_index(c) implies c[j] != LF by {
            if j > 0 {
                assert(c[j] == t[j - 1]);
            }
        }
        if newline_index(c) < c.len() {
            assert(c[newline_index(c)] == t[newline_index(t)]);
        }
    }
}

/// A non-empty queue has at least one line.
proof fn lemma_queue_lines_nonempty(c: Seq<u8>)
    requires
        c.len() > 0,
    ensures
        queue_lines(c).len() > 0,
{
    lemma_newline_index_bounds(c);
}

/// When the queue can be read and holds no carriage return, the batch built
/// from what was read is the queue's content without its final line feed.
pub proof fn lemma_batch_reproduces_queue(c: Seq<u8>, pending: Seq<String>)
    requires
        forall|j: int| 0 <= j < c.len() ==> c[j] != CR,
        pending.len() == queue_lines(c).len(),
        forall|k: int| 0 <= k < pending.len() ==> valid_utf8(#[trigger] queue_lines(c)[k]),
        forall|k: int| 0 <= k < pending.len() ==> #[trigger] pending[k]@ == decode_utf8(queue_lines(c)[k]),
    ensures
        join_lines(statement_bytes(pending)) == without_final_lf(c),
{
    let q = queue_lines(c);
    assert forall|k: int| 0 <= k < q.len() implies #[trigger] statement_bytes(pending)[k] == q[k] by {
        decode_utf8_encode_utf8(q[k]);
    }
    assert(statement_bytes(pending) =~= q);
    lemma_queue_lines_rejoin(c);
}

// ---------------------------------------------------------------------------
// Chain events
// ---------------------------------------------------------------------------

/// An operation of a finalized transaction.
#[derive(Debug)]
pub enum FinalizedOp {
    /// An inscription on a channel.
    Inscription(InscriptionInfo),
    /// Any other operation.
    Other,
}

/// A finalized transaction: its operations, in order.
#[derive(Debug)]
pub struct FinalizedTx {
    pub ops: Vec<FinalizedOp>,
}

/// What the zone sequencer reports.
#[derive(Debug)]
pub enum Event {
    /// Backfill is complete and publishing may start.
    Ready,
    /// Blocks were processed; these transactions became final. The caller
    /// holds the checkpoint that comes with them.
    BlocksProcessed { finalized: Vec<FinalizedTx> },
    /// A transaction entered the mempool.
    MempoolPending,
    /// It is some sequencer's turn.
    TurnNotification,
}

/// The inscriptions among operations, in order.
pub open spec fn op_inscriptions(ops: Seq<FinalizedOp>) -> Seq<MsgView>
    decreases ops.len(),
{
    if ops.len() == 0 {
        seq![]
    } else {
        op_inscriptions(ops.drop_last()) + match ops.last() {
            FinalizedOp::Inscription(info) => seq![info@],
            FinalizedOp::Other => seq![],
        }
    }
}

/// The inscriptions of finalized transactions, transaction after transaction.
pub open spec fn finalized_inscriptions(txs: Seq<FinalizedTx>) -> Seq<MsgView>
    decreases txs.len(),
{
    if txs.len() == 0 {
        seq![]
    } else {
        finalized_inscriptions(txs.drop_last()) + op_inscriptions(txs.last().ops@)
    }
}

/// Copies of the inscriptions of finalized transactions, in order.
pub fn collect_inscriptions(txs: &[FinalizedTx]) -> (r: Vec<InscriptionInfo>)
    ensures
        infos_view(r@) == finalized_inscriptions(txs@),
{
    let mut out: Vec<InscriptionInfo> = Vec::new();
    let mut t: usize = 0;
    while t < txs.len()
        invariant
            t <= txs@.len(),
            infos_view(out@) == finalized_inscriptions(txs@.take(t as int)),
        decreases txs.len() - t,
    {
        let ghost before = infos_view(out@);
        let ops = &txs[t].ops;
        let mut o: usize = 0;
        while o < ops.len()
            invariant
                o <= ops@.len(),
                infos_view(out@) == before + op_inscriptions(ops@.take(o as int)),
            decreases ops.len() - o,
        {
            let ghost mid = out@;
            match &ops[o] {
                FinalizedOp::Inscription(info) => {
                    out.push(info.duplicate());
                    assert(infos_view(out@) =~= infos_view(mid).push(info@));
                },
                FinalizedOp::Other => {},
            }
            assert(ops@.take(o + 1).drop_last() =~= ops@.take(o as int));
            assert(ops@.take(o + 1).last() == ops@[o as int]);
            assert(infos_view(out@) =~= before + op_inscriptions(ops@.take(o + 1)));
            o = o + 1;
        }
        assert(ops@.take(o as int) =~= ops@);
        assert(txs@.take(t + 1).drop_last() =~= txs@.take(t as int));
        assert(txs@.take(t + 1).last() == txs@[t as int]);
        t = t + 1;
    }
    assert(txs@.take(t as int) =~= txs@);
    out
}

/// Reacts to an event: finalized inscriptions go into the state, and the
/// result says whether the checkpoint that came with the event must be saved.
pub fn handle_event<S: ZoneState>(event: &Event, state: &mut S) -> (save_checkpoint: bool)
    ensures
        match event {
            Event::BlocksProcessed { finalized } => {
                &&& save_checkpoint
                &&& (final(state).published_view(), final(state).finalized_view()) == finalize_all(
                    (old(state).published_view(), old(state).finalized_view()),
                    finalized_inscriptions(finalized@),
                )
            },
            _ => {
                &&& !save_checkpoint
                &&& final(state).published_view() == old(state).published_view()
                &&& final(state).finalized_view() == old(state).finalized_view()
            },
        },
{
    match event {
        Event::BlocksProcessed { finalized } => {
            let inscriptions = collect_inscriptions(finalized.as_slice());
            state.on_finalized(inscriptions.as_slice());
            true
        },
        _ => false,
    }
}

// ---------------------------------------------------------------------------
// Configuration-derived values
// ---------------------------------------------------------------------------

/// The lower-case hexadecimal digit of a value below 16.
pub open spec fn hex_digit(d: int) -> char {
    if d < 10 {
        (d + 48) as char
    } else {
        (d + 87) as char
    }
}

/// The lower-case hexadecimal text of bytes, two digits per byte, high half first.
pub open spec fn hex_lower(data: Seq<u8>) -> Seq<char>
    decreases data.len(),
{
    if data.len() == 0 {
        seq![]
    } else {
        hex_lower(data.drop_last()) + seq![
            hex_digit(data.last() as int / 16),
            hex_digit(data.last() as int % 16),
        ]
    }
}

/// Encodes bytes as lower-case hexadecimal text with `hex::encode`, two digits
/// per byte, high half first.
#[verifier::external_body]
fn hex_encode(data: &[u8]) -> (r: String)
    ensures
        r@ == hex_lower(data@),
{
    hex::encode(data)
}

/// The text of the channel file: the channel identifier in lower-case hexadecimal.
pub fn channel_id_text(channel_id: &[u8]) -> (r: String)
    ensures
        r@ == hex_lower(channel_id@),
{
    hex_encode(channel_id)
}

/// The size of an Ed25519 secret key, in bytes.
pub const ED25519_SECRET_KEY_SIZE: usize = 32;

/// The signing key held by the contents of a key file, when the file has
/// exactly the size of a key.
pub fn signing_key_bytes(bytes: &[u8]) -> (r: Option<[u8; 32]>)
    ensures
        r is Some <==> bytes@.len() == ED25519_SECRET_KEY_SIZE,
        r matches Some(key) ==> key@ == bytes@,
{
    if bytes.len() != ED25519_SECRET_KEY_SIZE {
        return None;
    }
    let mut key = [0u8; 32];
    let mut i: usize = 0;
    while i < 32
        invariant
            i <= 32,
            bytes@.len() == 32,
            key@.len() == 32,
            forall|j: int| 0 <= j < i ==> key@[j] == bytes@[j],
        decreases 32 - i,
    {
        key[i] = bytes[i];
        i = i + 1;
    }
    assert(key@ =~= bytes@);
    Some(key)
}

/// `reqwest::Url`, a parsed URL, carried through as an opaque value.
#[verifier::external_type_specification]
#[verifier::external_body]
pub struct ExUrl(reqwest::Url);

/// What `Url::parse` gives for a text: the parsed URL, or the text of the
/// parse error.
pub uninterp spec fn url_parse(input: Seq<char>) -> Result<reqwest::Url, Seq<char>>;

/// Parses a URL with `reqwest::Url::parse` (the `url` crate's parser); a
/// parse error is returned by its text.
#[verifier::external_body]
fn parse_url(input: &str) -> (r: Result<reqwest::Url, String>)
    ensures
        match r {
            Ok(u) => url_parse(input@) == Ok::<reqwest::Url, Seq<char>>(u),
            Err(m) => url_parse(input@) == Err::<reqwest::Url, Seq<char>>(m@),
        },
{
    match reqwest::Url::parse(input) {
        Ok(url) => Ok(url),
        Err(e) => Err(e.to_string()),
    }
}

/// Parses the node endpoint: the URL that the parser gives, or a
/// [`SequencerError::Url`] with the parser's message.
pub fn parse_node_url(endpoint: &str) -> (r: Result<reqwest::Url, SequencerError>)
    ensures
        match url_parse(endpoint@) {
            Ok(u) => r == Ok::<reqwest::Url, SequencerError>(u),
            Err(m) => r matches Err(SequencerError::Url(t)) && t@ == m,
        },
{
    match parse_url(endpoint) {
        Ok(url) => Ok(url),
        Err(m) => Err(SequencerError::Url(m)),
    }
}

} // verus!
