//! Sanitisation of untrusted text before it reaches a log line.

use vstd::prelude::*;

verus! {

/// Whether `c` is a control character that may not reach a log line: any C0
/// control other than TAB, DEL, or a C1 control.
pub open spec fn is_stripped(c: char) -> bool {
    c != '\t' && (c as u32 <= 0x1f || (0x7f <= c as u32 && c as u32 <= 0x9f))
}

/// What `sanitize_for_log` makes of one character.
pub open spec fn sanitized_char(c: char) -> char {
    if is_stripped(c) { '\u{2424}' } else { c }
}

/// What `sanitize_for_log` makes of a text.
pub open spec fn sanitized(raw: Seq<char>) -> Seq<char> {
    raw.map_values(|c: char| sanitized_char(c))
}

/// Replaces every control character that could break a log line, character by
/// character, by the visible marker U+2424. TAB is kept.
pub fn sanitize_for_log(raw: &str) -> (out: String)
    ensures
        out@ == sanitized(raw@),
{
    let mut out = String::new();
    for c in iter: raw.chars()
        invariant
            out@ == sanitized(iter.seq().take(iter.index() as int)),
            iter.seq() == raw@,
    {
        if c != '\t' && ((c as u32) <= 0x1f || ((c as u32) >= 0x7f && (c as u32) <= 0x9f)) {
            out.push('\u{2424}');
        } else {
            out.push(c);
        }
    }
    out
}

/// Sanitised text holds no character that could break a log line.
pub proof fn law_sanitized_text_is_one_line(raw: Seq<char>)
    ensures
        forall|i: int| 0 <= i < sanitized(raw).len() ==> !is_stripped(#[trigger] sanitized(raw)[i]),
{
}

/// Sanitising keeps the number of characters, and every character that may stay.
pub proof fn law_sanitizing_keeps_the_rest(raw: Seq<char>)
    ensures
        sanitized(raw).len() == raw.len(),
        forall|i: int|
            0 <= i < raw.len() && !is_stripped(raw[i]) ==> #[trigger] sanitized(raw)[i] == raw[i],
{
}

/// Sanitising a second time changes nothing.
pub proof fn law_sanitizing_is_idempotent(raw: Seq<char>)
    ensures
        sanitized(sanitized(raw)) == sanitized(raw),
{
    assert(sanitized(sanitized(raw)) =~= sanitized(raw));
}

/// A joined text is sanitised piece by piece: what stands before or after a character
/// has no part in what becomes of it.
pub proof fn law_joined_text_is_sanitized_piece_by_piece(first: Seq<char>, second: Seq<char>)
    ensures
        sanitized(first + second) == sanitized(first) + sanitized(second),
{
    assert(sanitized(first + second) =~= sanitized(first) + sanitized(second));
}

/// Control characters give way to the sign for a new line, but for the tabulator; all else
/// stays.
pub proof fn law_control_characters_give_way(raw: Seq<char>, i: int)
    requires
        0 <= i < raw.len(),
    ensures
        sanitized(raw).len() == raw.len(),
        raw[i] == '\n' || raw[i] == '\r' ==> sanitized(raw)[i] == '\u{2424}',
        raw[i] == '\t' ==> sanitized(raw)[i] == '\t',
        (raw[i] as u32) < 32 && raw[i] != '\t' ==> sanitized(raw)[i] == '\u{2424}',
        127 <= (raw[i] as u32) < 160 ==> sanitized(raw)[i] == '\u{2424}',
        32 <= (raw[i] as u32) < 127 || 160 <= (raw[i] as u32) ==> sanitized(raw)[i] == raw[i],
{
}

} // verus!
