//! Operations on text, stated over the sequence of characters that a string
//! holds.

use vstd::prelude::*;

verus! {

broadcast use vstd::seq_lib::group_seq_properties;

/// Adds one character at the end of a `String`.
///
/// Stands for `String::push`, which appends the given `char` to the string.
pub assume_specification[ String::push ](s: &mut String, c: char)
    ensures
        final(s)@ == old(s)@.push(c),
;

/// Thirty-two digits with the hyphens of a UUID put in.
pub open spec fn hyphenated(s: Seq<char>) -> Seq<char> {
    s.subrange(0, 8) + "-"@ + s.subrange(8, 12) + "-"@ + s.subrange(12, 16) + "-"@ + s.subrange(
        16,
        20,
    ) + "-"@ + s.subrange(20, 32)
}

/// Whether a character has Unicode's `White_Space` property.
pub open spec fn whitespace(c: char) -> bool {
    let n = c as u32;
    ||| 0x09 <= n <= 0x0d
    ||| n == 0x20
    ||| n == 0x85
    ||| n == 0xa0
    ||| n == 0x1680
    ||| 0x2000 <= n <= 0x200a
    ||| n == 0x2028
    ||| n == 0x2029
    ||| n == 0x202f
    ||| n == 0x205f
    ||| n == 0x3000
}

/// Whether a character has Unicode's `White_Space` property.
pub fn is_whitespace(c: char) -> (r: bool)
    ensures
        r == whitespace(c),
{
    let n: u32 = c as u32;
    (0x09 <= n && n <= 0x0d) || n == 0x20 || n == 0x85 || n == 0xa0 || n == 0x1680 || (0x2000 <= n
        && n <= 0x200a) || n == 0x2028 || n == 0x2029 || n == 0x202f || n == 0x205f || n == 0x3000
}

/// The views of a sequence of strings.
pub open spec fn views(v: Seq<String>) -> Seq<Seq<char>> {
    v.map_values(|s: String| s@)
}

/// The texts of pairs.
pub open spec fn pair_views(pairs: Seq<(String, String)>) -> Seq<(Seq<char>, Seq<char>)> {
    pairs.map_values(|p: (String, String)| (p.0@, p.1@))
}

/// The view of an optional string.
pub open spec fn opt_view(s: Option<String>) -> Option<Seq<char>> {
    match s {
        Some(t) => Some(t@),
        None => None,
    }
}

/// The view of an optional string slice.
pub open spec fn opt_str_view(s: Option<&str>) -> Option<Seq<char>> {
    match s {
        Some(t) => Some(t@),
        None => None,
    }
}

/// A text that may be missing, borrowed.
pub fn opt_str(s: &Option<String>) -> (r: Option<&str>)
    ensures
        opt_str_view(r) == opt_view(*s),
{
    match s {
        Some(t) => Some(t.as_str()),
        None => None,
    }
}

/// Whether `needle` stands somewhere in `hay`.
pub open spec fn occurs(needle: Seq<char>, hay: Seq<char>) -> bool {
    exists|i: int| occurs_at(needle, hay, i)
}

/// Whether `needle` stands in `hay` at position `i`.
pub open spec fn occurs_at(needle: Seq<char>, hay: Seq<char>, i: int) -> bool {
    0 <= i && i + needle.len() <= hay.len() && hay.subrange(i, i + needle.len()) == needle
}

/// The pieces of `s` between the separators, which are dropped: one more piece
/// than there are separators.
pub open spec fn pieces(s: Seq<char>, sep: char) -> Seq<Seq<char>>
    decreases s.len(),
{
    if s.len() == 0 {
        seq![Seq::empty()]
    } else {
        let before = pieces(s.drop_last(), sep);
        if s.last() == sep {
            before.push(Seq::empty())
        } else {
            before.drop_last().push(before.last().push(s.last()))
        }
    }
}

/// `s` without the white space at its start.
pub open spec fn trimmed_start(s: Seq<char>) -> Seq<char>
    decreases s.len(),
{
    if s.len() > 0 && whitespace(s[0]) {
        trimmed_start(s.skip(1))
    } else {
        s
    }
}

/// `s` without the white space at its end.
pub open spec fn trimmed_end(s: Seq<char>) -> Seq<char>
    decreases s.len(),
{
    if s.len() > 0 && whitespace(s.last()) {
        trimmed_end(s.drop_last())
    } else {
        s
    }
}

/// `s` without the white space at both ends.
pub open spec fn trimmed(s: Seq<char>) -> Seq<char> {
    trimmed_end(trimmed_start(s))
}

/// The lower-case form of an ASCII capital letter; any other character as it is.
pub open spec fn lower_char(c: char) -> char {
    if 'A' <= c && c <= 'Z' { (c as u8 + 32) as char } else { c }
}

/// `s` with its ASCII capital letters in lower case.
pub open spec fn lowered(s: Seq<char>) -> Seq<char> {
    s.map_values(|c: char| lower_char(c))
}

/// The character of a decimal digit.
pub open spec fn digit_char(d: nat) -> char {
    (48 + d) as char
}

/// `n` in decimal notation, without leading zeros.
pub open spec fn decimal(n: nat) -> Seq<char>
    decreases n,
{
    if n < 10 {
        seq![digit_char(n)]
    } else {
        decimal(n / 10).push(digit_char(n % 10))
    }
}

/// `n` in decimal notation, with a minus sign where it is negative.
pub open spec fn decimal_int(n: int) -> Seq<char> {
    if n < 0 {
        seq!['-'] + decimal((-n) as nat)
    } else {
        decimal(n as nat)
    }
}

/// Whether every character is a decimal digit.
pub open spec fn all_digits(s: Seq<char>) -> bool {
    forall|i: int| 0 <= i < s.len() ==> '0' <= #[trigger] s[i] && s[i] <= '9'
}

/// The number that a sequence of decimal digits denotes.
pub open spec fn digits_value(s: Seq<char>) -> nat
    decreases s.len(),
{
    if s.len() == 0 {
        0
    } else {
        (digits_value(s.drop_last()) * 10 + (s.last() as u32 - 48)) as nat
    }
}

/// The integer that `s` denotes: decimal digits, at least one, after an optional
/// sign.
pub open spec fn parsed_int(s: Seq<char>) -> Option<int> {
    let negative = s.len() > 0 && s[0] == '-';
    let signed = negative || (s.len() > 0 && s[0] == '+');
    let digits = if signed { s.skip(1) } else { s };
    if digits.len() == 0 || !all_digits(digits) {
        None
    } else if negative {
        Some(-(digits_value(digits) as int))
    } else {
        Some(digits_value(digits) as int)
    }
}

/// The characters of `s`, in order.
pub fn chars_of(s: &str) -> (v: Vec<char>)
    ensures
        v@ == s@,
{
    let mut v: Vec<char> = Vec::new();
    for c in iter: s.chars()
        invariant
            v@ == iter.seq().take(iter.index() as int),
            iter.seq() == s@,
    {
        v.push(c);
    }
    v
}

/// The string made of the characters `from..to` of `v`.
pub fn string_of(v: &Vec<char>, from: usize, to: usize) -> (s: String)
    requires
        from <= to <= v@.len(),
    ensures
        s@ == v@.subrange(from as int, to as int),
{
    let mut s = String::new();
    let mut i: usize = from;
    while i < to
        invariant
            from <= i <= to <= v@.len(),
            s@ == v@.subrange(from as int, i as int),
        decreases to - i,
    {
        s.push(v[i]);
        i += 1;
    }
    s
}

/// A copy of a list of texts.
pub fn copied(v: &Vec<String>) -> (r: Vec<String>)
    ensures
        views(r@) == views(v@),
{
    let mut r: Vec<String> = Vec::new();
    let mut i: usize = 0;
    while i < v.len()
        invariant
            i <= v@.len(),
            r@.len() == i,
            forall|k: int| 0 <= k < i ==> #[trigger] r@[k]@ == v@[k]@,
        decreases v@.len() - i,
    {
        r.push(v[i].clone());
        i += 1;
    }
    assert(views(r@) =~= views(v@));
    r
}

/// Whether two texts hold the same characters.
pub fn str_eq(a: &str, b: &str) -> (r: bool)
    ensures
        r == (a@ == b@),
{
    a.to_owned() == b.to_owned()
}

/// Whether `s` is there and holds the same characters as `lit`.
pub fn opt_eq(s: Option<&str>, lit: &str) -> (r: bool)
    ensures
        r == (opt_str_view(s) == Some(lit@)),
{
    match s {
        Some(t) => str_eq(t, lit),
        None => false,
    }
}

/// Whether the characters of `v` from `at` on begin with those of `p`.
fn matches_at(v: &Vec<char>, at: usize, p: &Vec<char>) -> (r: bool)
    requires
        at <= v@.len(),
    ensures
        r == occurs_at(p@, v@, at as int),
{
    let n: usize = v.len();
    if n - at < p.len() {
        return false;
    }
    let mut i: usize = 0;
    while i < p.len()
        invariant
            0 <= i <= p@.len(),
            n == v@.len(),
            at + p@.len() <= n,
            forall|j: int| 0 <= j < i ==> v@[at + j] == #[trigger] p@[j],
        decreases p@.len() - i,
    {
        if v[at + i] != p[i] {
            assert(v@.subrange(at as int, at + p@.len())[i as int] != p@[i as int]);
            return false;
        }
        i += 1;
    }
    assert(v@.subrange(at as int, at + p@.len()) =~= p@);
    true
}

/// Whether `s` begins with `p`.
pub fn starts_with(s: &str, p: &str) -> (r: bool)
    ensures
        r == p@.is_prefix_of(s@),
{
    let v = chars_of(s);
    let w = chars_of(p);
    let r = matches_at(&v, 0, &w);
    r
}

/// What follows `p` in `s`, where `s` begins with it.
pub fn strip_prefix(s: &str, p: &str) -> (r: Option<String>)
    ensures
        opt_view(r) == (if p@.is_prefix_of(s@) {
            Some(s@.skip(p@.len() as int))
        } else {
            None
        }),
{
    let v = chars_of(s);
    let w = chars_of(p);
    if matches_at(&v, 0, &w) {
        let rest = string_of(&v, w.len(), v.len());
        assert(rest@ =~= s@.skip(p@.len() as int));
        Some(rest)
    } else {
        None
    }
}

/// Whether `needle` stands somewhere in `hay`.
pub fn contains(hay: &str, needle: &str) -> (r: bool)
    ensures
        r == occurs(needle@, hay@),
{
    let v = chars_of(hay);
    let w = chars_of(needle);
    let mut i: usize = 0;
    while i < v.len()
        invariant
            0 <= i <= v@.len(),
            v@ == hay@,
            w@ == needle@,
            forall|j: int| 0 <= j < i ==> !occurs_at(w@, v@, j),
        decreases v@.len() - i,
    {
        if matches_at(&v, i, &w) {
            return true;
        }
        i += 1;
    }
    matches_at(&v, i, &w)
}

/// `s` with each occurrence of `from` replaced by `to`, from the left, where occurrences
/// that overlap an earlier one do not count.
pub open spec fn replaced(s: Seq<char>, from: Seq<char>, to: Seq<char>) -> Seq<char>
    decreases s.len(),
{
    if from.len() == 0 || s.len() < from.len() {
        s
    } else if from.is_prefix_of(s) {
        to + replaced(s.skip(from.len() as int), from, to)
    } else {
        seq![s[0]] + replaced(s.skip(1), from, to)
    }
}

proof fn lemma_replaced_at(s: Seq<char>, from: Seq<char>, to: Seq<char>, i: int)
    requires
        from.len() > 0,
        occurs_at(from, s, i),
    ensures
        replaced(s.skip(i), from, to) == to + replaced(s.skip(i + from.len()), from, to),
{
    let rest = s.skip(i);
    assert(rest.subrange(0, from.len() as int) =~= s.subrange(i, i + from.len()));
    assert(from.is_prefix_of(rest));
    assert(rest.skip(from.len() as int) =~= s.skip(i + from.len()));
}

proof fn lemma_replaced_past(s: Seq<char>, from: Seq<char>, to: Seq<char>, i: int)
    requires
        0 <= i < s.len(),
        0 < from.len() <= s.len() - i,
        !occurs_at(from, s, i),
    ensures
        replaced(s.skip(i), from, to) == seq![s[i]] + replaced(s.skip(i + 1), from, to),
{
    let rest = s.skip(i);
    if from.is_prefix_of(rest) {
        assert(s.subrange(i, i + from.len()) =~= rest.subrange(0, from.len() as int));
    }
    assert(rest[0] == s[i]);
    assert(rest.skip(1) =~= s.skip(i + 1));
}

proof fn lemma_concat_assoc(a: Seq<char>, b: Seq<char>, c: Seq<char>)
    ensures
        a + (b + c) == (a + b) + c,
{
    assert(a + (b + c) =~= (a + b) + c);
}

/// `s` with each occurrence of `from` replaced by `to`.
pub fn replace(s: &str, from: &str, to: &str) -> (r: String)
    requires
        from@.len() > 0,
    ensures
        r@ == replaced(s@, from@, to@),
{
    let v = chars_of(s);
    let w = chars_of(from);
    let mut out = String::new();
    let mut i: usize = 0;
    assert(v@.skip(0) =~= v@);
    assert(Seq::<char>::empty() + replaced(v@, from@, to@) =~= replaced(v@, from@, to@));
    while i < v.len() && v.len() - i >= w.len()
        invariant
            i <= v@.len(),
            w@ == from@,
            w@.len() > 0,
            out@ + replaced(v@.skip(i as int), from@, to@) == replaced(v@, from@, to@),
        decreases v@.len() - i,
    {
        let ghost before = out@;
        if matches_at(&v, i, &w) {
            proof {
                lemma_replaced_at(v@, from@, to@, i as int);
                lemma_concat_assoc(before, to@, replaced(v@.skip(i + w@.len()), from@, to@));
            }
            out.append(to);
            i += w.len();
        } else {
            proof {
                lemma_replaced_past(v@, from@, to@, i as int);
                lemma_concat_assoc(
                    before,
                    seq![v@[i as int]],
                    replaced(v@.skip(i + 1), from@, to@),
                );
            }
            out.push(v[i]);
            assert(out@ =~= before + seq![v@[i as int]]);
            i += 1;
        }
    }
    let tail = string_of(&v, i, v.len());
    assert(tail@ =~= v@.skip(i as int));
    out.append(tail.as_str());
    out
}

/// Whether `c` stands somewhere in `s`.
pub fn contains_char(s: &str, c: char) -> (r: bool)
    ensures
        r == s@.contains(c),
{
    let v = chars_of(s);
    let mut i: usize = 0;
    while i < v.len()
        invariant
            0 <= i <= v@.len(),
            v@ == s@,
            forall|j: int| 0 <= j < i ==> v@[j] != c,
        decreases v@.len() - i,
    {
        if v[i] == c {
            assert(s@[i as int] == c);
            return true;
        }
        i += 1;
    }
    false
}

/// The pieces of `s` between the separators.
pub fn split(s: &str, sep: char) -> (r: Vec<String>)
    ensures
        views(r@) == pieces(s@, sep),
        r@.len() >= 1,
{
    let mut done: Vec<String> = Vec::new();
    let mut current = String::new();
    assert(views(done@).push(current@) =~= pieces(Seq::empty(), sep));
    for c in iter: s.chars()
        invariant
            iter.seq() == s@,
            views(done@).push(current@) == pieces(iter.seq().take(iter.index() as int), sep),
    {
        let ghost before = iter.seq().take(iter.index() as int);
        let ghost after = iter.seq().take(iter.index() as int + 1);
        assert(after.drop_last() =~= before);
        assert(after.last() == c);
        let ghost old_done = done@;
        let ghost old_current = current@;
        if c == sep {
            done.push(current);
            current = String::new();
            assert(views(done@) =~= views(old_done).push(old_current));
        } else {
            current.push(c);
            assert(views(old_done).push(old_current).drop_last() =~= views(old_done));
        }
    }
    assert(s@.take(s@.len() as int) =~= s@);
    let ghost old_done = done@;
    let ghost last = current@;
    done.push(current);
    assert(views(done@) =~= views(old_done).push(last));
    done
}

/// `s` without the white space at its start.
pub fn trim_start(s: &str) -> (r: String)
    ensures
        r@ == trimmed_start(s@),
{
    let v = chars_of(s);
    let mut from: usize = 0;
    assert(v@.skip(0) =~= v@);
    while from < v.len() && is_whitespace(v[from])
        invariant
            from <= v@.len(),
            trimmed_start(v@) == trimmed_start(v@.skip(from as int)),
        decreases v@.len() - from,
    {
        assert(v@.skip(from as int).skip(1) =~= v@.skip(from + 1));
        from += 1;
    }
    let r = string_of(&v, from, v.len());
    assert(r@ =~= v@.skip(from as int));
    r
}

/// `s` without the white space at both ends.
pub fn trim(s: &str) -> (r: String)
    ensures
        r@ == trimmed(s@),
{
    let rest = trim_start(s);
    trim_end(rest.as_str())
}

/// `s` without the white space at its end.
pub fn trim_end(s: &str) -> (r: String)
    ensures
        r@ == trimmed_end(s@),
{
    let v = chars_of(s);
    let mut to: usize = v.len();
    assert(v@.take(to as int) =~= v@);
    while to > 0 && is_whitespace(v[to - 1])
        invariant
            to <= v@.len(),
            trimmed_end(v@) == trimmed_end(v@.take(to as int)),
        decreases to,
    {
        assert(v@.take(to as int).drop_last() =~= v@.take(to - 1));
        to -= 1;
    }
    let r = string_of(&v, 0, to);
    assert(r@ =~= v@.take(to as int));
    r
}

/// A line without the carriage return at its end, if it has one.
pub open spec fn without_return(line: Seq<char>) -> Seq<char> {
    if line.len() > 0 && line.last() == '\r' {
        line.drop_last()
    } else {
        line
    }
}

/// The lines that line feeds end, without the line feed and a carriage return before
/// it, where the pieces between line feeds are given. What follows the last line feed
/// is a line of its own, unless it is empty.
pub open spec fn lines_of_pieces(pieces: Seq<Seq<char>>) -> Seq<Seq<char>> {
    let ended = pieces.drop_last().map_values(|l: Seq<char>| without_return(l));
    if pieces.last().len() == 0 {
        ended
    } else {
        ended.push(pieces.last())
    }
}

/// The lines of a text.
pub open spec fn lines_of(s: Seq<char>) -> Seq<Seq<char>> {
    lines_of_pieces(pieces(s, '\n'))
}

fn strip_return(line: &str) -> (r: String)
    ensures
        r@ == without_return(line@),
{
    let v = chars_of(line);
    let n: usize = v.len();
    if n > 0 && v[n - 1] == '\r' {
        let r = string_of(&v, 0, n - 1);
        assert(r@ =~= line@.drop_last());
        r
    } else {
        line.to_owned()
    }
}

/// The lines of a text.
pub fn lines(s: &str) -> (r: Vec<String>)
    ensures
        views(r@) == lines_of(s@),
{
    let parts = split(s, '\n');
    let ghost all = views(parts@);
    let mut out: Vec<String> = Vec::new();
    let last: usize = parts.len() - 1;
    let mut i: usize = 0;
    while i < last
        invariant
            i <= last,
            last == parts@.len() - 1,
            all == views(parts@),
            out@.len() == i,
            forall|k: int| 0 <= k < i ==> #[trigger] out@[k]@ == without_return(all[k]),
        decreases last - i,
    {
        assert(all[i as int] == parts@[i as int]@);
        out.push(strip_return(parts[i].as_str()));
        i += 1;
    }
    assert(views(out@) =~= all.drop_last().map_values(|l: Seq<char>| without_return(l)));
    assert(all.last() == parts@[last as int]@);
    if !parts[last].as_str().is_empty() {
        let ghost before = out@;
        out.push(parts[last].clone());
        assert(views(out@) =~= views(before).push(all.last()));
    }
    out
}

/// `s` with its ASCII capital letters in lower case.
pub fn ascii_lower(s: &str) -> (r: String)
    ensures
        r@ == lowered(s@),
{
    let mut out = String::new();
    for c in iter: s.chars()
        invariant
            iter.seq() == s@,
            out@ == lowered(iter.seq().take(iter.index() as int)),
    {
        if 'A' <= c && c <= 'Z' {
            out.push(((c as u8) + 32) as char);
        } else {
            out.push(c);
        }
    }
    out
}

/// `n` in decimal notation.
pub fn u64_text(n: u64) -> (r: String)
    ensures
        r@ == decimal(n as nat),
    decreases n,
{
    if n < 10 {
        let mut s = String::new();
        s.push((48 + n as u8) as char);
        assert(s@ =~= decimal(n as nat));
        s
    } else {
        let mut s = u64_text(n / 10);
        s.push((48 + (n % 10) as u8) as char);
        s
    }
}

/// `n` in decimal notation, with a minus sign where it is negative.
pub fn i64_text(n: i64) -> (r: String)
    ensures
        r@ == decimal_int(n as int),
{
    if n < 0 {
        let mut s = String::new();
        s.push('-');
        s.append(u64_text((-(n as i128)) as u64).as_str());
        s
    } else {
        u64_text(n as u64)
    }
}

/// The integer between `min` and `max` that `s` denotes.
fn parse_between(s: &str, min: i128, max: i128) -> (r: Option<i128>)
    requires
        -0x8000_0000_0000_0000 <= min <= max <= 0xffff_ffff_ffff_ffff,
    ensures
        r == (match parsed_int(s@) {
            Some(n) => if min <= n <= max {
                Some(n as i128)
            } else {
                None
            },
            None => None,
        }),
{
    let v = chars_of(s);
    let negative = v.len() > 0 && v[0] == '-';
    let signed = negative || (v.len() > 0 && v[0] == '+');
    let start: usize = if signed { 1 } else { 0 };
    let ghost digits = if signed { s@.skip(1) } else { s@ };
    if v.len() == start {
        return None;
    }
    let mut value: i128 = 0;
    let mut big = false;
    let mut i: usize = start;
    while i < v.len()
        invariant
            start <= i <= v@.len(),
            v@ == s@,
            negative == (s@.len() > 0 && s@[0] == '-'),
            signed == (negative || (s@.len() > 0 && s@[0] == '+')),
            start == (if signed { 1int } else { 0int }),
            digits == (if signed { s@.skip(1) } else { s@ }),
            digits == s@.skip(start as int),
            forall|j: int| 0 <= j < i - start ==> '0' <= #[trigger] digits[j] && digits[j] <= '9',
            0 <= value <= 0x1_0000_0000_0000_0000,
            big ==> digits_value(digits.take(i - start)) > 0xffff_ffff_ffff_ffff,
            !big ==> value == digits_value(digits.take(i - start)),
        decreases v@.len() - i,
    {
        let c = v[i];
        assert(digits[i - start] == c);
        if c < '0' || c > '9' {
            assert(!all_digits(digits)) by {
                assert(!('0' <= digits[i - start] && digits[i - start] <= '9'));
            }
            return None;
        }
        let d: u32 = c as u32 - 48;
        proof {
            let upto = digits.take(i - start + 1);
            assert(upto.drop_last() =~= digits.take(i - start));
            assert(upto.last() == c);
        }
        if !big {
            value = value * 10 + d as i128;
            if value > 0xffff_ffff_ffff_ffff {
                big = true;
                value = 0;
            }
        }
        i += 1;
    }
    assert(digits.take(v@.len() - start) =~= digits);
    if big {
        return None;
    }
    let n: i128 = if negative { -value } else { value };
    if min <= n && n <= max {
        Some(n)
    } else {
        None
    }
}

/// The `i64` that `s` denotes.
pub fn parse_i64(s: &str) -> (r: Option<i64>)
    ensures
        r == (match parsed_int(s@) {
            Some(n) => if i64::MIN <= n <= i64::MAX {
                Some(n as i64)
            } else {
                None
            },
            None => None,
        }),
{
    match parse_between(s, i64::MIN as i128, i64::MAX as i128) {
        Some(n) => Some(n as i64),
        None => None,
    }
}

proof fn lemma_digits_push(s: Seq<char>, d: nat)
    requires
        all_digits(s),
        d < 10,
    ensures
        all_digits(s.push(digit_char(d))),
        digits_value(s.push(digit_char(d))) == digits_value(s) * 10 + d,
{
    assert(s.push(digit_char(d)).drop_last() =~= s);
}

proof fn lemma_decimal_digits(n: nat)
    ensures
        decimal(n).len() > 0,
        all_digits(decimal(n)),
        digits_value(decimal(n)) == n,
    decreases n,
{
    if n < 10 {
        lemma_digits_push(Seq::empty(), n);
        assert(Seq::<char>::empty().push(digit_char(n)) =~= decimal(n));
    } else {
        lemma_decimal_digits(n / 10);
        lemma_digits_push(decimal(n / 10), n % 10);
    }
}

/// Reading a number's decimal notation gives the number back.
pub proof fn law_decimal_round_trip(n: nat)
    ensures
        parsed_int(decimal(n)) == Some(n as int),
        parsed_nat(decimal(n)) == Some(n as int),
{
    lemma_decimal_digits(n);
    assert('0' <= decimal(n)[0]);
}

/// The number that `s` denotes as an unsigned integer: no minus sign is taken.
pub open spec fn parsed_nat(s: Seq<char>) -> Option<int> {
    if s.len() > 0 && s[0] == '-' {
        None
    } else {
        parsed_int(s)
    }
}

/// The `u32` that `s` denotes.
pub fn parse_u32(s: &str) -> (r: Option<u32>)
    ensures
        r == (match parsed_nat(s@) {
            Some(n) => if n <= u32::MAX {
                Some(n as u32)
            } else {
                None
            },
            None => None,
        }),
{
    if starts_with(s, "-") {
        proof {
            reveal_strlit("-");
            assert("-"@.is_prefix_of(s@) ==> s@[0] == "-"@[0]);
        }
        return None;
    }
    proof {
        reveal_strlit("-");
        if s@.len() > 0 && s@[0] == '-' {
            assert("-"@ =~= s@.take(1));
        }
    }
    match parse_between(s, 0, u32::MAX as i128) {
        Some(n) => Some(n as u32),
        None => None,
    }
}

/// Pieces put together again, with the separator between them.
pub open spec fn rejoined(parts: Seq<Seq<char>>, sep: char) -> Seq<char>
    decreases parts.len(),
{
    if parts.len() == 0 {
        Seq::empty()
    } else if parts.len() == 1 {
        parts[0]
    } else {
        rejoined(parts.drop_last(), sep) + seq![sep] + parts.last()
    }
}

/// A text that is taken apart at a separator leaves no separator in its pieces, and comes
/// back where the pieces are put together again.
pub proof fn law_pieces_come_together_again(s: Seq<char>, sep: char)
    ensures
        pieces(s, sep).len() >= 1,
        rejoined(pieces(s, sep), sep) == s,
        forall|i: int, j: int|
            0 <= i < pieces(s, sep).len() && 0 <= j < pieces(s, sep)[i].len() ==> #[trigger] pieces(
                s,
                sep,
            )[i][j] != sep,
    decreases s.len(),
{
    let all = pieces(s, sep);
    if s.len() == 0 {
        assert(all[0].len() == 0);
        assert(rejoined(all, sep) =~= s);
    } else {
        law_pieces_come_together_again(s.drop_last(), sep);
        let before = pieces(s.drop_last(), sep);
        if s.last() == sep {
            assert(all.drop_last() =~= before);
            assert(rejoined(all, sep) =~= s);
        } else {
            assert(all.drop_last() =~= before.drop_last());
            let longer = before.last().push(s.last());
            assert(all.last() == longer);
            assert(s.drop_last().push(s.last()) =~= s);
            if before.len() == 1 {
                assert(all[0] == longer);
                assert(rejoined(before, sep) == before[0]);
                assert(rejoined(all, sep) == longer);
            } else {
                let front = rejoined(before.drop_last(), sep) + seq![sep];
                assert(rejoined(before, sep) == front + before.last());
                assert(rejoined(all, sep) == front + longer);
                assert(front + longer =~= (front + before.last()).push(s.last()));
            }
            assert forall|i: int, j: int|
                0 <= i < all.len() && 0 <= j < all[i].len() implies #[trigger] all[i][j] != sep by {
                if i < before.len() - 1 {
                    assert(all[i] == before[i]);
                    assert(before[i][j] != sep);
                } else if j < before.last().len() {
                    assert(before[before.len() - 1][j] != sep);
                }
            }
        }
    }
}

/// Trimming a text at its end takes blanks away, all that stand there, and nothing else.
pub proof fn law_only_blanks_are_trimmed_at_the_end(s: Seq<char>)
    ensures
        trimmed_end(s).len() <= s.len(),
        trimmed_end(s) == s.take(trimmed_end(s).len() as int),
        forall|i: int| trimmed_end(s).len() <= i < s.len() ==> whitespace(#[trigger] s[i]),
        trimmed_end(s).len() > 0 ==> !whitespace(trimmed_end(s).last()),
    decreases s.len(),
{
    if s.len() > 0 && whitespace(s.last()) {
        law_only_blanks_are_trimmed_at_the_end(s.drop_last());
        assert forall|i: int| trimmed_end(s).len() <= i < s.len() implies whitespace(
            #[trigger] s[i],
        ) by {
            if i < s.len() - 1 {
                assert(s.drop_last()[i] == s[i]);
            }
        }
        assert(trimmed_end(s) =~= s.take(trimmed_end(s).len() as int));
    } else {
        assert(s.take(s.len() as int) =~= s);
    }
}

/// Trimming a text at its start takes blanks away, all that stand there, and nothing else.
pub proof fn law_only_blanks_are_trimmed_at_the_start(s: Seq<char>)
    ensures
        trimmed_start(s).len() <= s.len(),
        trimmed_start(s) == s.skip(s.len() - trimmed_start(s).len()),
        forall|i: int|
            0 <= i < s.len() - trimmed_start(s).len() ==> whitespace(#[trigger] s[i]),
        trimmed_start(s).len() > 0 ==> !whitespace(trimmed_start(s)[0]),
    decreases s.len(),
{
    if s.len() > 0 && whitespace(s[0]) {
        law_only_blanks_are_trimmed_at_the_start(s.skip(1));
        assert forall|i: int| 0 <= i < s.len() - trimmed_start(s).len() implies whitespace(
            #[trigger] s[i],
        ) by {
            if i > 0 {
                assert(s.skip(1)[i - 1] == s[i]);
            }
        }
        assert(trimmed_start(s) =~= s.skip(s.len() - trimmed_start(s).len()));
    } else {
        assert(s.skip(0) =~= s);
    }
}

/// Trimming takes away at both ends; what is within stays.
pub proof fn law_trimmed_texts_begin_and_end_with_no_blank(s: Seq<char>)
    ensures
        trimmed(s).len() > 0 ==> !whitespace(trimmed(s)[0]) && !whitespace(trimmed(s).last()),
        s.len() > 0 && !whitespace(s[0]) && !whitespace(s.last()) ==> trimmed(s) == s,
{
    let t = trimmed_start(s);
    law_only_blanks_are_trimmed_at_the_start(s);
    law_only_blanks_are_trimmed_at_the_end(t);
    if trimmed(s).len() > 0 {
        assert(trimmed(s)[0] == t[0]);
    }
}

/// Among the characters of ASCII the blank, the tab and the line breaks are blank.
pub proof fn law_ascii_blanks(c: char)
    requires
        (c as u32) < 128,
    ensures
        whitespace(c) <==> c == ' ' || c == '\t' || c == '\n' || c == '\r' || c as u32 == 11 || c as u32
            == 12,
{
}

/// Lowering a text makes its capital letters of ASCII small, and leaves everything else.
pub proof fn law_only_capitals_are_lowered(s: Seq<char>, i: int)
    requires
        0 <= i < s.len(),
    ensures
        lowered(s).len() == s.len(),
        !('A' <= s[i] && s[i] <= 'Z') ==> lowered(s)[i] == s[i],
        'A' <= s[i] && s[i] <= 'Z' ==> lowered(s)[i] as u32 == s[i] as u32 + 32,
{
}

/// Where the sought text stands first, it is replaced, and then the rest after it.
pub proof fn law_what_stands_first_is_replaced(s: Seq<char>, from: Seq<char>, to: Seq<char>)
    requires
        from.len() > 0,
    ensures
        replaced(from + s, from, to) == to + replaced(s, from, to),
{
    let whole = from + s;
    assert(whole.take(from.len() as int) =~= from);
    assert(whole.skip(from.len() as int) =~= s);
}

/// A text in which the sought one does not occur stays as it is.
pub proof fn law_nothing_else_is_replaced(s: Seq<char>, from: Seq<char>, to: Seq<char>)
    requires
        !occurs(from, s),
    ensures
        replaced(s, from, to) == s,
    decreases s.len(),
{
    if from.len() > 0 && s.len() >= from.len() {
        assert(!from.is_prefix_of(s)) by {
            if from.is_prefix_of(s) {
                assert(s.subrange(0, from.len() as int) =~= from);
                assert(occurs_at(from, s, 0));
            }
        }
        let rest = s.skip(1);
        assert(!occurs(from, rest)) by {
            if occurs(from, rest) {
                let i = choose|i: int| occurs_at(from, rest, i);
                assert(s.subrange(i + 1, i + 1 + from.len()) =~= rest.subrange(
                    i,
                    i + from.len(),
                ));
                assert(occurs_at(from, s, i + 1));
            }
        }
        law_nothing_else_is_replaced(rest, from, to);
        assert(seq![s[0]] + rest =~= s);
    }
}

/// A number is read with its sign: `-` makes it negative, `+` leaves it as it is.
pub proof fn law_signs_are_read(digits: Seq<char>)
    requires
        digits.len() > 0,
        all_digits(digits),
    ensures
        parsed_int(digits) == Some(digits_value(digits) as int),
        parsed_int(seq!['-'] + digits) == Some(-(digits_value(digits) as int)),
        parsed_int(seq!['+'] + digits) == Some(digits_value(digits) as int),
        parsed_nat(digits) == Some(digits_value(digits) as int),
        parsed_nat(seq!['-'] + digits) is None,
{
    assert('0' <= digits[0] && digits[0] <= '9');
    assert((seq!['-'] + digits).skip(1) =~= digits);
    assert((seq!['+'] + digits).skip(1) =~= digits);
}

/// Each digit counts ten times what stands behind it.
pub proof fn law_digits_count_by_their_place(digits: Seq<char>, last: char)
    requires
        '0' <= last && last <= '9',
    ensures
        digits_value(digits.push(last)) == 10 * digits_value(digits) + (last as u32 - 48),
{
    assert(digits.push(last).drop_last() =~= digits);
}

/// A text that ends with a line break has one line more; what follows the last break is a
/// line unless it is empty.
pub proof fn law_lines_end_at_breaks(s: Seq<char>, line: Seq<char>)
    requires
        s.len() > 0,
        s.last() != '\n',
    ensures
        lines_of(Seq::empty()).len() == 0,
        lines_of(s).len() > 0,
        lines_of(s).len() == pieces(s, '\n').len(),
        lines_of(s).last() == pieces(s, '\n').last(),
        lines_of(s.push('\n')).len() == lines_of(s).len(),
        lines_of(s.push('\n')).last() == without_return(pieces(s, '\n').last()),
        without_return(line.push('\r')) == line,
        line.len() > 0 && line.last() != '\r' ==> without_return(line) == line,
{
    assert(line.push('\r').drop_last() =~= line);
    assert(s.push('\n').drop_last() =~= s);
    let all = pieces(s, '\n');
    law_pieces_come_together_again(s, '\n');
    law_pieces_come_together_again(s.drop_last(), '\n');
    assert(all.last().len() > 0);
    assert(pieces(s.push('\n'), '\n') =~= all.push(Seq::empty()));
    assert(all.push(Seq::empty()).drop_last() =~= all);
}

/// The hyphenated form has hyphens after the eighth, twelfth, sixteenth and twentieth
/// character, and all characters in their order.
pub proof fn law_hyphens_stand_between(s: Seq<char>)
    requires
        s.len() == 32,
    ensures
        hyphenated(s).len() == 36,
        hyphenated(s)[8] == '-',
        hyphenated(s)[13] == '-',
        hyphenated(s)[18] == '-',
        hyphenated(s)[23] == '-',
        hyphenated(s).subrange(0, 8) == s.subrange(0, 8),
        hyphenated(s).subrange(9, 13) == s.subrange(8, 12),
        hyphenated(s).subrange(14, 18) == s.subrange(12, 16),
        hyphenated(s).subrange(19, 23) == s.subrange(16, 20),
        hyphenated(s).subrange(24, 36) == s.subrange(20, 32),
{
    reveal_strlit("-");
    let h = hyphenated(s);
    assert(h.subrange(0, 8) =~= s.subrange(0, 8));
    assert(h.subrange(9, 13) =~= s.subrange(8, 12));
    assert(h.subrange(14, 18) =~= s.subrange(12, 16));
    assert(h.subrange(19, 23) =~= s.subrange(16, 20));
    assert(h.subrange(24, 36) =~= s.subrange(20, 32));
}

/// Negative numbers are written with a sign before their digits.
pub proof fn law_negative_numbers_have_a_sign(n: nat)
    ensures
        decimal_int(n as int) == decimal(n),
        n > 0 ==> decimal_int(-(n as int)) == seq!['-'] + decimal(n),
{
}

/// A text occurs in another where it stands somewhere in it.
pub proof fn law_texts_occur_where_they_stand(before: Seq<char>, s: Seq<char>, after: Seq<char>)
    ensures
        occurs(s, before + s + after),
        s.len() > after.len() ==> !occurs(s, after),
{
    let whole = before + s + after;
    assert(whole.subrange(before.len() as int, before.len() as int + s.len()) =~= s);
    assert(occurs_at(s, whole, before.len() as int));
}

} // verus!
