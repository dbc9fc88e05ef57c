//! Character-level text operations: white space, lines, fields.
//!
//! The spec functions define lines, fields and trimming on `Seq<char>`; the
//! executable functions search a `Vec<char>` by index and are proved to find
//! what the spec functions describe.

use vstd::prelude::*;

verus! {

/// Whether `c` is one of the characters that Unicode calls `White_Space`.
pub open spec fn is_whitespace(c: char) -> bool {
    let u = c as u32;
    ||| 0x09 <= u <= 0x0D
    ||| u == 0x20
    ||| u == 0x85
    ||| u == 0xA0
    ||| u == 0x1680
    ||| 0x2000 <= u <= 0x200A
    ||| u == 0x2028
    ||| u == 0x2029
    ||| u == 0x202F
    ||| u == 0x205F
    ||| u == 0x3000
}

/// The character that ends a line.
pub open spec fn line_break() -> Set<char> {
    set!['\n']
}

/// The characters that end a field of a status line.
pub open spec fn field_breaks() -> Set<char> {
    set!['/', ',']
}

/// Index of the first character of `s` that is in `seps`; the length of `s`
/// where there is none.
pub open spec fn first_of(s: Seq<char>, seps: Set<char>) -> int
    decreases s.len(),
{
    if s.len() == 0 || seps.contains(s[0]) {
        0
    } else {
        1 + first_of(s.skip(1), seps)
    }
}

/// The pieces of `s` between the characters of `seps`. There is always at
/// least one piece; a separator at either end leaves an empty piece there.
pub open spec fn split(s: Seq<char>, seps: Set<char>) -> Seq<Seq<char>>
    decreases s.len(),
{
    let k = first_of(s, seps);
    if 0 <= k < s.len() {
        seq![s.take(k)] + split(s.skip(k + 1), seps)
    } else {
        seq![s]
    }
}

/// `line` without the carriage return at its end, if it has one.
pub open spec fn without_cr(line: Seq<char>) -> Seq<char> {
    if line.len() > 0 && line.last() == '\r' {
        line.drop_last()
    } else {
        line
    }
}

/// The lines of `s`. A line ends at a line feed, or at a carriage return
/// directly followed by one; neither is part of the line. What follows the
/// last line feed is a line only if it is not empty, and keeps a carriage
/// return at its end.
pub open spec fn lines(s: Seq<char>) -> Seq<Seq<char>>
    decreases s.len(),
{
    let k = first_of(s, line_break());
    if s.len() == 0 {
        Seq::empty()
    } else if 0 <= k < s.len() {
        seq![without_cr(s.take(k))] + lines(s.skip(k + 1))
    } else {
        seq![s]
    }
}

/// `s` without the white space at its start.
pub open spec fn trim_start(s: Seq<char>) -> Seq<char>
    decreases s.len(),
{
    if s.len() > 0 && is_whitespace(s[0]) {
        trim_start(s.skip(1))
    } else {
        s
    }
}

/// `s` without the white space at its end.
pub open spec fn trim_end(s: Seq<char>) -> Seq<char>
    decreases s.len(),
{
    if s.len() > 0 && is_whitespace(s.last()) {
        trim_end(s.drop_last())
    } else {
        s
    }
}

/// `s` without the white space at either end.
pub open spec fn trim(s: Seq<char>) -> Seq<char> {
    trim_end(trim_start(s))
}

/// `first_of` is within the sequence or at its end, nothing before it is a
/// separator, and what it points at is one.
pub proof fn lemma_first_of_bounds(s: Seq<char>, seps: Set<char>)
    ensures
        0 <= first_of(s, seps) <= s.len(),
        forall|j: int| 0 <= j < first_of(s, seps) ==> !seps.contains(#[trigger] s[j]),
        first_of(s, seps) < s.len() ==> seps.contains(s[first_of(s, seps)]),
    decreases s.len(),
{
    if s.len() == 0 || seps.contains(s[0]) {
    } else {
        let rest = s.skip(1);
        lemma_first_of_bounds(rest, seps);
        assert forall|j: int| 0 <= j < first_of(s, seps) implies !seps.contains(
            #[trigger] s[j],
        ) by {
            if j > 0 {
                assert(s[j] == rest[j - 1]);
            }
        }
    }
}

/// An index is `first_of` where nothing before it is a separator and it
/// points at one, or at the end.
pub proof fn lemma_first_of_unique(s: Seq<char>, seps: Set<char>, k: int)
    requires
        0 <= k <= s.len(),
        forall|j: int| 0 <= j < k ==> !seps.contains(#[trigger] s[j]),
        k < s.len() ==> seps.contains(s[k]),
    ensures
        first_of(s, seps) == k,
    decreases s.len(),
{
    if s.len() > 0 && !seps.contains(s[0]) {
        lemma_first_of_unique(s.skip(1), seps, k - 1);
    }
}

/// Where the first separator of `s` is at `k`, the first piece is what stands
/// before it and the others are the pieces of what stands behind it.
pub proof fn lemma_split_at(s: Seq<char>, seps: Set<char>)
    ensures
        split(s, seps).len() >= 1,
        split(s, seps)[0] == s.take(first_of(s, seps)),
        split(s, seps).len() >= 2 <==> first_of(s, seps) < s.len(),
        first_of(s, seps) < s.len() ==> split(s, seps)[1] == split(
            s.skip(first_of(s, seps) + 1),
            seps,
        )[0],
    decreases s.len(),
{
    lemma_first_of_bounds(s, seps);
    let k = first_of(s, seps);
    if k < s.len() {
        lemma_split_at(s.skip(k + 1), seps);
    }
}

/// Trimming the start skips exactly the leading run of white space.
pub proof fn lemma_trim_start_skips(s: Seq<char>, p: int)
    requires
        0 <= p <= s.len(),
        forall|j: int| 0 <= j < p ==> is_whitespace(#[trigger] s[j]),
        p < s.len() ==> !is_whitespace(s[p]),
    ensures
        trim_start(s) == s.skip(p),
    decreases s.len(),
{
    if s.len() > 0 && is_whitespace(s[0]) {
        lemma_trim_start_skips(s.skip(1), p - 1);
    }
}

/// Trimming the end neither adds nor removes a prefix that ends in a
/// character other than white space.
pub proof fn lemma_trim_end_keeps_prefix(s: Seq<char>, prefix: Seq<char>)
    requires
        prefix.len() > 0,
        !is_whitespace(prefix.last()),
    ensures
        prefix.is_prefix_of(trim_end(s)) <==> prefix.is_prefix_of(s),
    decreases s.len(),
{
    if s.len() > 0 && is_whitespace(s.last()) {
        lemma_trim_end_keeps_prefix(s.drop_last(), prefix);
    }
}

/// No piece holds a separator.
pub proof fn lemma_split_leaves_no_separator(s: Seq<char>, seps: Set<char>)
    ensures
        forall|i: int, j: int|
            0 <= i < split(s, seps).len() && 0 <= j < split(s, seps)[i].len() ==> !seps.contains(
                #[trigger] split(s, seps)[i][j],
            ),
    decreases s.len(),
{
    lemma_first_of_bounds(s, seps);
    let k = first_of(s, seps);
    if k < s.len() {
        let behind = split(s.skip(k + 1), seps);
        lemma_split_leaves_no_separator(s.skip(k + 1), seps);
        assert forall|i: int, j: int|
            0 <= i < split(s, seps).len() && 0 <= j < split(s, seps)[i].len() implies !seps.contains(
            #[trigger] split(s, seps)[i][j],
        ) by {
            if i > 0 {
                assert(split(s, seps)[i] == behind[i - 1]);
            }
        }
    }
}

/// No line holds a line feed.
pub proof fn lemma_lines_hold_no_line_feed(s: Seq<char>)
    ensures
        forall|i: int, j: int|
            0 <= i < lines(s).len() && 0 <= j < lines(s)[i].len() ==> #[trigger] lines(s)[i][j]
                != '\n',
    decreases s.len(),
{
    lemma_first_of_bounds(s, line_break());
    let k = first_of(s, line_break());
    if k < s.len() {
        let behind = lines(s.skip(k + 1));
        lemma_lines_hold_no_line_feed(s.skip(k + 1));
        assert forall|i: int, j: int|
            0 <= i < lines(s).len() && 0 <= j < lines(s)[i].len() implies #[trigger] lines(
            s,
        )[i][j] != '\n' by {
            if i > 0 {
                assert(lines(s)[i] == behind[i - 1]);
            }
        }
    }
}

/// What is left after trimming neither begins nor ends with white space.
pub proof fn lemma_trim_leaves_no_space(s: Seq<char>)
    ensures
        trim(s).len() > 0 ==> !is_whitespace(trim(s)[0]) && !is_whitespace(trim(s).last()),
{
    let inner = trim_start(s);
    lemma_trim_start_begins_without_space(s);
    lemma_trim_end_ends_without_space(inner);
    if inner.len() > 0 {
        let head = seq![inner[0]];
        lemma_trim_end_keeps_prefix(inner, head);
        assert(trim_end(inner).subrange(0, 1)[0] == head[0]);
    }
}

/// What is left after trimming the start does not begin with white space.
pub proof fn lemma_trim_start_begins_without_space(s: Seq<char>)
    ensures
        trim_start(s).len() > 0 ==> !is_whitespace(trim_start(s)[0]),
    decreases s.len(),
{
    if s.len() > 0 && is_whitespace(s[0]) {
        lemma_trim_start_begins_without_space(s.skip(1));
    }
}

/// What is left after trimming the end does not end with white space.
pub proof fn lemma_trim_end_ends_without_space(s: Seq<char>)
    ensures
        trim_end(s).len() > 0 ==> !is_whitespace(trim_end(s).last()),
    decreases s.len(),
{
    if s.len() > 0 && is_whitespace(s.last()) {
        lemma_trim_end_ends_without_space(s.drop_last());
    }
}

/// Tests a character for white space.
pub fn is_space(c: char) -> (r: bool)
    ensures
        r == is_whitespace(c),
{
    let u: u32 = c as u32;
    (0x09 <= u && u <= 0x0D) || u == 0x20 || u == 0x85 || u == 0xA0 || u == 0x1680 || (0x2000 <= u
        && u <= 0x200A) || u == 0x2028 || u == 0x2029 || u == 0x202F || u == 0x205F || u == 0x3000
}

/// The characters of `s`, in order.
pub fn to_chars(s: &str) -> (chars: Vec<char>)
    ensures
        chars@ == s@,
{
    let mut chars: Vec<char> = Vec::new();
    for c in it: s.chars()
        invariant
            chars@ == it.seq().take(it.index() as int),
            it.seq() == s@,
    {
        chars.push(c);
    }
    chars
}

/// Finds the first `a` or `b` in `chars[from..to]`. Returns its index in
/// `chars`, or `to` where there is none.
pub fn find_either(chars: &Vec<char>, from: usize, to: usize, a: char, b: char) -> (k: usize)
    requires
        from <= to <= chars.len(),
    ensures
        from <= k <= to,
        k - from == first_of(chars@.subrange(from as int, to as int), set![a, b]),
{
    let mut k: usize = from;
    while k < to && chars[k] != a && chars[k] != b
        invariant
            from <= k <= to <= chars.len(),
            forall|j: int| from <= j < k ==> chars[j] != a && chars[j] != b,
        decreases to - k,
    {
        k += 1;
    }
    proof {
        lemma_first_of_unique(chars@.subrange(from as int, to as int), set![a, b], k - from);
    }
    k
}

/// Skips the white space at the start of `chars[from..to]`. Returns the index
/// in `chars` of the first character that is none, or `to`.
pub fn skip_spaces(chars: &Vec<char>, from: usize, to: usize) -> (k: usize)
    requires
        from <= to <= chars.len(),
    ensures
        from <= k <= to,
        chars@.subrange(k as int, to as int) == trim_start(
            chars@.subrange(from as int, to as int),
        ),
{
    let mut k: usize = from;
    while k < to && is_space(chars[k])
        invariant
            from <= k <= to <= chars.len(),
            forall|j: int| from <= j < k ==> is_whitespace(chars[j]),
        decreases to - k,
    {
        k += 1;
    }
    proof {
        lemma_trim_start_skips(chars@.subrange(from as int, to as int), k - from);
    }
    k
}

/// Whether `chars[from..to]` begins with `prefix`.
pub fn starts_with_at(chars: &Vec<char>, from: usize, to: usize, prefix: &str) -> (r: bool)
    requires
        from <= to <= chars.len(),
    ensures
        r == prefix@.is_prefix_of(chars@.subrange(from as int, to as int)),
{
    let n = prefix.unicode_len();
    if n > to - from {
        return false;
    }
    let ghost part = chars@.subrange(from as int, to as int);
    let mut i: usize = 0;
    while i < n
        invariant
            i <= n <= to - from,
            from <= to <= chars.len(),
            n == prefix@.len(),
            part == chars@.subrange(from as int, to as int),
            forall|j: int| 0 <= j < i ==> prefix@[j] == part[j],
        decreases n - i,
    {
        if prefix.get_char(i) != chars[from + i] {
            return false;
        }
        i += 1;
    }
    true
}

} // verus!
