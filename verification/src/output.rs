//! The output stage: a detection is surfaced only when the extracted text
//! holds something besides whitespace. Extraction still hands the literal
//! text over; the decision to stay silent is made here, after the fact.

use vstd::prelude::*;

verus! {

/// Whether `c` is whitespace: the code points with the Unicode
/// `White_Space` property.
pub open spec fn is_space_char(c: char) -> bool {
    let u = c as int;
    (0x09 <= u && u <= 0x0D) || u == 0x20 || u == 0x85 || u == 0xA0 || u == 0x1680 || (0x2000 <= u
        && u <= 0x200A) || u == 0x2028 || u == 0x2029 || u == 0x202F || u == 0x205F || u == 0x3000
}

/// Whether the text holds nothing but whitespace. The empty text counts:
/// trimming it leaves nothing either.
pub open spec fn all_whitespace(s: Seq<char>) -> bool {
    forall|i: int| 0 <= i < s.len() ==> is_space_char(#[trigger] s[i])
}

/// A detection as the output channel receives it: the measured duration and
/// the text it captured, untrimmed.
pub struct DetectionOutput {
    pub duration_ms: u64,
    pub text: String,
}

/// Decide whether one character is whitespace.
pub fn char_is_space(c: char) -> (r: bool)
    ensures
        r == is_space_char(c),
{
    let u = c as u32;
    (0x09 <= u && u <= 0x0D) || u == 0x20 || u == 0x85 || u == 0xA0 || u == 0x1680 || (0x2000 <= u
        && u <= 0x200A) || u == 0x2028 || u == 0x2029 || u == 0x202F || u == 0x205F || u == 0x3000
}

/// Decide whether the text is blank: empty, or whitespace throughout.
pub fn is_blank(s: &str) -> (r: bool)
    ensures
        r == all_whitespace(s@),
{
    let n = s.unicode_len();
    let mut i: usize = 0;
    while i < n
        invariant
            n == s@.len(),
            i <= n,
            forall|j: int| 0 <= j < i ==> is_space_char(#[trigger] s@[j]),
        decreases n - i,
    {
        let c = s.get_char(i);
        if !char_is_space(c) {
            return false;
        }
        i = i + 1;
    }
    true
}

/// The output stage's gate: a blank text — empty or whitespace-only — counts
/// as nothing detected and produces no output; anything else is surfaced
/// with its measured duration and its text exactly as extracted.
pub fn output_stage(duration_ms: u64, text: String) -> (r: Option<DetectionOutput>)
    ensures
        r is None <==> all_whitespace(text@),
        r matches Some(o) ==> o.duration_ms == duration_ms && o.text@ == text@,
{
    if is_blank(text.as_str()) {
        None
    } else {
        Some(DetectionOutput { duration_ms, text })
    }
}

} // verus!
