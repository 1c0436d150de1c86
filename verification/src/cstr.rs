//! The wire form of text: bytes closed by a single terminator byte.
//!
//! Text crosses the boundary to the framework as a buffer whose content ends
//! at the first zero byte. Text that itself holds a zero byte has no wire form.

use vstd::prelude::*;

verus! {

/// Whether `text` holds no terminator byte, and so has a wire form.
pub open spec fn is_c_text(text: Seq<u8>) -> bool {
    forall|i: int| 0 <= i < text.len() ==> text[i] != 0u8
}

/// The wire form of `text`: its bytes, then the terminator.
pub open spec fn c_wire(text: Seq<u8>) -> Seq<u8> {
    text.push(0u8)
}

/// The position at or after `from` of the first terminator in `raw`, or the
/// length of `raw` where none follows.
pub open spec fn scan_nul(raw: Seq<u8>, from: int) -> int
    decreases raw.len() - from,
{
    if from < 0 || from >= raw.len() || raw[from] == 0u8 {
        from
    } else {
        scan_nul(raw, from + 1)
    }
}

/// The text a wire buffer carries: everything before its first terminator.
pub open spec fn c_text(raw: Seq<u8>) -> Seq<u8> {
    raw.take(scan_nul(raw, 0))
}

/// `scan_nul` finds `end` exactly when no terminator lies in `from..end` and
/// `end` is a terminator or the end of the buffer.
pub proof fn lemma_scan_nul(raw: Seq<u8>, from: int, end: int)
    requires
        0 <= from <= end <= raw.len(),
        forall|j: int| from <= j < end ==> raw[j] != 0u8,
        end == raw.len() || raw[end] == 0u8,
    ensures
        scan_nul(raw, from) == end,
    decreases end - from,
{
    if from < end {
        lemma_scan_nul(raw, from + 1, end);
    }
}

/// The text of a wire buffer is terminator-free, is a prefix of the buffer,
/// and stops at a terminator unless the buffer holds none.
pub proof fn lemma_c_text_is_prefix(raw: Seq<u8>)
    ensures
        is_c_text(c_text(raw)),
        c_text(raw).len() <= raw.len(),
        c_text(raw) == raw.take(c_text(raw).len() as int),
        c_text(raw).len() < raw.len() ==> raw[c_text(raw).len() as int] == 0u8,
{
    lemma_scan_bounds(raw, 0);
}

/// Where `scan_nul` stops: inside the buffer, past no terminator.
pub proof fn lemma_scan_bounds(raw: Seq<u8>, from: int)
    requires
        0 <= from <= raw.len(),
    ensures
        from <= scan_nul(raw, from) <= raw.len(),
        forall|j: int| from <= j < scan_nul(raw, from) ==> raw[j] != 0u8,
        scan_nul(raw, from) < raw.len() ==> raw[scan_nul(raw, from)] == 0u8,
    decreases raw.len() - from,
{
    if from < raw.len() && raw[from] != 0u8 {
        lemma_scan_bounds(raw, from + 1);
    }
}

/// Text put on the wire and read back is the same text.
pub proof fn lemma_wire_round_trip(text: Seq<u8>)
    requires
        is_c_text(text),
    ensures
        c_text(c_wire(text)) == text,
{
    let raw = c_wire(text);
    lemma_scan_nul(raw, 0, text.len() as int);
    assert(raw.take(text.len() as int) =~= text);
}

/// Whether `text` holds no terminator byte.
pub fn holds_no_nul(text: &Vec<u8>) -> (r: bool)
    ensures
        r == is_c_text(text@),
{
    let mut i: usize = 0;
    while i < text.len()
        invariant
            i <= text.len(),
            forall|j: int| 0 <= j < i ==> text@[j] != 0u8,
        decreases text.len() - i,
    {
        if text[i] == 0u8 {
            return false;
        }
        i += 1;
    }
    true
}

/// Builds the wire form of `text`.
pub fn to_wire(text: &Vec<u8>) -> (raw: Vec<u8>)
    requires
        is_c_text(text@),
    ensures
        raw@ == c_wire(text@),
{
    let mut raw: Vec<u8> = Vec::new();
    let mut i: usize = 0;
    while i < text.len()
        invariant
            i <= text.len(),
            raw@ == text@.take(i as int),
        decreases text.len() - i,
    {
        raw.push(text[i]);
        assert(text@.take(i as int).push(text@[i as int]) =~= text@.take(i + 1));
        i += 1;
    }
    assert(text@.take(i as int) =~= text@);
    raw.push(0u8);
    raw
}

/// Copies the text out of a wire buffer.
pub fn from_wire(raw: &Vec<u8>) -> (text: Vec<u8>)
    ensures
        text@ == c_text(raw@),
        is_c_text(text@),
{
    let mut text: Vec<u8> = Vec::new();
    let mut i: usize = 0;
    while i < raw.len() && raw[i] != 0u8
        invariant
            i <= raw.len(),
            text@ == raw@.take(i as int),
            scan_nul(raw@, 0) == scan_nul(raw@, i as int),
        decreases raw.len() - i,
    {
        text.push(raw[i]);
        assert(raw@.take(i as int).push(raw@[i as int]) =~= raw@.take(i + 1));
        i += 1;
    }
    proof {
        lemma_c_text_is_prefix(raw@);
    }
    text
}

/// Whether two byte strings hold the same bytes.
pub fn bytes_eq(a: &Vec<u8>, b: &Vec<u8>) -> (r: bool)
    ensures
        r == (a@ == b@),
{
    if a.len() != b.len() {
        return false;
    }
    let mut i: usize = 0;
    while i < a.len()
        invariant
            a.len() == b.len(),
            i <= a.len(),
            forall|j: int| 0 <= j < i ==> a@[j] == b@[j],
        decreases a.len() - i,
    {
        if a[i] != b[i] {
            return false;
        }
        i += 1;
    }
    assert(a@ =~= b@);
    true
}

} // verus!
