//! Log output for applications that run the terminal in raw mode.

use vstd::prelude::*;

use crate::text::{decimal_ascii, u64_decimal_ascii};

verus! {

/// The carriage return byte.
pub const CR: u8 = 13;

/// The line feed byte.
pub const LF: u8 = 10;

/// A writer that confines log output to the bottom half of the terminal.
///
/// Before each write it:
/// 1. sets the DECSTBM scroll region to the bottom half, so that any scroll
///    caused by new lines never displaces the top half;
/// 2. moves the cursor to the last row of that region, so the newest line
///    always appears at the bottom and older lines scroll upward within it;
/// 3. converts bare `\n` to `\r\n` for correct rendering in raw mode.
#[derive(Clone, Copy, Debug)]
pub struct RawModeWriter;

/// What the last byte of `buf` becomes in raw mode: a line feed that does not
/// follow a carriage return gets one in front of it.
pub open spec fn raw_mode_last(buf: Seq<u8>) -> Seq<u8>
    recommends
        buf.len() > 0,
{
    let n = buf.len() - 1;
    if buf[n] == LF && (n == 0 || buf[n - 1] != CR) {
        seq![CR, LF]
    } else {
        seq![buf[n]]
    }
}

/// `buf` with every bare line feed turned into a carriage return and a line feed.
pub open spec fn raw_mode_bytes(buf: Seq<u8>) -> Seq<u8>
    decreases buf.len(),
{
    if buf.len() == 0 {
        seq![]
    } else {
        raw_mode_bytes(buf.drop_last()) + raw_mode_last(buf)
    }
}

/// Every line feed of `s` follows a carriage return.
pub open spec fn line_feeds_follow_cr(s: Seq<u8>) -> bool {
    forall|i: int| 0 <= i < s.len() && #[trigger] s[i] == LF ==> i > 0 && s[i - 1] == CR
}

/// The rows of the bottom half of a terminal `height` rows high, counted from 1:
/// the first row of the half and the last row of the terminal.
pub open spec fn bottom_half_rows(height: u16) -> (u16, u16) {
    ((height / 2 + 1) as u16, height)
}

/// `ESC [ top ; bottom r ESC [ bottom ; 1 H`: the scroll region is set to the
/// bottom half and the cursor is put on its last row.
pub open spec fn scroll_region_command(height: u16) -> Seq<u8> {
    let (top, bottom) = bottom_half_rows(height);
    seq![27u8, 91u8] + decimal_ascii(top as nat) + seq![59u8] + decimal_ascii(bottom as nat) + seq![
        114u8,
        27u8,
        91u8,
    ] + decimal_ascii(bottom as nat) + seq![59u8, 49u8, 72u8]
}

/// The terminal height that the writer goes by: the measured one, or 24 rows
/// when the terminal size is unknown.
pub open spec fn effective_height(size: Option<(u16, u16)>) -> u16 {
    match size {
        Some((_, h)) => h,
        None => 24,
    }
}

/// Appends the bytes of `tail` to `out`.
fn append_bytes(out: &mut Vec<u8>, tail: &Vec<u8>)
    ensures
        final(out)@ == old(out)@ + tail@,
{
    let ghost start = out@;
    let mut i: usize = 0;
    while i < tail.len()
        invariant
            i <= tail@.len(),
            out@ == start + tail@.take(i as int),
        decreases tail.len() - i,
    {
        out.push(tail[i]);
        assert(tail@.take(i + 1) =~= tail@.take(i as int).push(tail@[i as int]));
        i = i + 1;
    }
    assert(tail@.take(i as int) =~= tail@);
}

impl RawModeWriter {
    /// The control sequence written before each log record on a terminal
    /// `height` rows high.
    pub fn scroll_region(height: u16) -> (r: Vec<u8>)
        ensures
            r@ == scroll_region_command(height),
    {
        let top: u16 = height / 2 + 1;
        let bottom: u16 = height;
        let top_digits = u64_decimal_ascii(top as u64);
        let bottom_digits = u64_decimal_ascii(bottom as u64);
        let mut r: Vec<u8> = Vec::new();
        r.push(27);
        r.push(91);
        append_bytes(&mut r, &top_digits);
        r.push(59);
        append_bytes(&mut r, &bottom_digits);
        r.push(114);
        r.push(27);
        r.push(91);
        append_bytes(&mut r, &bottom_digits);
        r.push(59);
        r.push(49);
        r.push(72);
        assert(r@ =~= scroll_region_command(height));
        r
    }

    /// `buf` with every bare line feed turned into a carriage return and a line feed.
    pub fn to_raw_mode(buf: &[u8]) -> (r: Vec<u8>)
        ensures
            r@ == raw_mode_bytes(buf@),
    {
        let mut out: Vec<u8> = Vec::new();
        let mut i: usize = 0;
        while i < buf.len()
            invariant
                i <= buf@.len(),
                out@ == raw_mode_bytes(buf@.take(i as int)),
            decreases buf.len() - i,
        {
            let ghost prefix = buf@.take(i + 1);
            assert(prefix.drop_last() =~= buf@.take(i as int));
            assert(prefix[i as int] == buf@[i as int]);
            assert(i > 0 ==> prefix[i - 1] == buf@[i - 1]);
            if buf[i] == LF && (i == 0 || buf[i - 1] != CR) {
                out.push(CR);
                out.push(LF);
            } else {
                out.push(buf[i]);
            }
            assert(out@ =~= raw_mode_bytes(prefix));
            i = i + 1;
        }
        assert(buf@.take(i as int) =~= buf@);
        out
    }

    /// Everything that one write of `buf` sends to the terminal, given the
    /// terminal's size (columns, rows) when it is known.
    pub fn frame(&self, buf: &[u8], size: Option<(u16, u16)>) -> (r: Vec<u8>)
        ensures
            r@ == scroll_region_command(effective_height(size)) + raw_mode_bytes(buf@),
    {
        let height: u16 = match size {
            Some((_, h)) => h,
            None => 24,
        };
        let mut out = Self::scroll_region(height);
        let body = Self::to_raw_mode(buf);
        append_bytes(&mut out, &body);
        out
    }
}

/// The raw-mode form of a non-empty buffer ends with the buffer's last byte.
proof fn lemma_raw_mode_last_byte(buf: Seq<u8>)
    requires
        buf.len() > 0,
    ensures
        raw_mode_bytes(buf).len() > 0,
        raw_mode_bytes(buf).last() == buf.last(),
{
    let r = raw_mode_bytes(buf);
    assert(r == raw_mode_bytes(buf.drop_last()) + raw_mode_last(buf));
}

/// In the raw-mode form of any buffer, every line feed follows a carriage return.
pub proof fn lemma_raw_mode_line_feeds(buf: Seq<u8>)
    ensures
        line_feeds_follow_cr(raw_mode_bytes(buf)),
    decreases buf.len(),
{
    if buf.len() > 0 {
        let p = buf.drop_last();
        lemma_raw_mode_line_feeds(p);
        let a = raw_mode_bytes(p);
        let b = raw_mode_last(buf);
        let r = a + b;
        assert(r == raw_mode_bytes(buf));
        if p.len() > 0 {
            lemma_raw_mode_last_byte(p);
            assert(p.last() == buf[buf.len() - 2]);
        }
        assert forall|i: int| 0 <= i < r.len() && #[trigger] r[i] == LF implies i > 0 && r[i - 1] == CR by {
            if i < a.len() {
                assert(r[i] == a[i]);
                assert(r[i - 1] == a[i - 1]);
            } else if b.len() == 2 {
                if i == a.len() {
                    assert(r[i] == CR);
                } else {
                    assert(r[i - 1] == b[0]);
                }
            } else {
                assert(r[i] == buf.last());
                assert(buf.len() >= 2);
                assert(r[i - 1] == a.last());
            }
        }
    }
}

/// A buffer whose line feeds all follow carriage returns is left as it is.
pub proof fn lemma_raw_mode_keeps_crlf(buf: Seq<u8>)
    requires
        line_feeds_follow_cr(buf),
    ensures
        raw_mode_bytes(buf) == buf,
    decreases buf.len(),
{
    if buf.len() > 0 {
        let p = buf.drop_last();
        assert forall|i: int| 0 <= i < p.len() && #[trigger] p[i] == LF implies i > 0 && p[i - 1] == CR by {
            assert(p[i] == buf[i]);
            assert(buf[i] == LF);
        }
        lemma_raw_mode_keeps_crlf(p);
        let n = buf.len() - 1;
        if buf[n] == LF {
            assert(n > 0 && buf[n - 1] == CR);
        }
        assert(p + seq![buf[n]] =~= buf);
    }
}

/// Converting twice gives what converting once gives.
pub proof fn lemma_raw_mode_idempotent(buf: Seq<u8>)
    ensures
        raw_mode_bytes(raw_mode_bytes(buf)) == raw_mode_bytes(buf),
{
    lemma_raw_mode_line_feeds(buf);
    lemma_raw_mode_keeps_crlf(raw_mode_bytes(buf));
}

} // verus!
