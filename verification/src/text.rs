//! Searching, splitting and trimming of character and byte sequences.

use vstd::prelude::*;
use vstd::utf8::{decode_utf8, valid_utf8};

verus! {

/// The first index at or after `from` at which `s` holds `x`, or the length of
/// `s` if there is none.
pub open spec fn find_from<T>(s: Seq<T>, x: T, from: int) -> int
    decreases s.len() - from,
{
    if from >= s.len() {
        s.len() as int
    } else if s[from] == x {
        from
    } else {
        find_from(s, x, from + 1)
    }
}

/// `find_from` lands on the first occurrence: nothing before it equals `x`.
pub proof fn lemma_find_from<T>(s: Seq<T>, x: T, from: int)
    requires
        0 <= from <= s.len(),
    ensures
        from <= find_from(s, x, from) <= s.len(),
        find_from(s, x, from) < s.len() ==> s[find_from(s, x, from)] == x,
        forall|k: int| from <= k < find_from(s, x, from) ==> s[k] != x,
    decreases s.len() - from,
{
    if from < s.len() && s[from] != x {
        lemma_find_from(s, x, from + 1);
    }
}

/// Any index that holds `x` and has no `x` between `from` and itself is the one
/// that `find_from` gives.
pub proof fn lemma_find_from_unique<T>(s: Seq<T>, x: T, from: int, at: int)
    requires
        0 <= from <= at <= s.len(),
        at < s.len() ==> s[at] == x,
        forall|k: int| from <= k < at ==> s[k] != x,
    ensures
        find_from(s, x, from) == at,
    decreases at - from,
{
    if from < at {
        lemma_find_from_unique(s, x, from + 1, at);
    }
}

/// Whether `x` occurs in `s`.
pub open spec fn occurs<T>(s: Seq<T>, x: T) -> bool {
    find_from(s, x, 0) < s.len()
}

/// Finds the first `x` in `s` at or after `from`; gives the length of `s` if
/// there is none.
pub fn find_char(s: &Vec<char>, x: char, from: usize) -> (at: usize)
    requires
        from <= s.len(),
    ensures
        at == find_from(s@, x, from as int),
        from <= at <= s.len(),
{
    let mut i: usize = from;
    while i < s.len() && s[i] != x
        invariant
            from <= i <= s.len(),
            find_from(s@, x, i as int) == find_from(s@, x, from as int),
        decreases s.len() - i,
    {
        i += 1;
    }
    i
}

/// Finds the first `x` in `s` at or after `from`; gives the length of `s` if
/// there is none.
pub fn find_byte(s: &[u8], x: u8, from: usize) -> (at: usize)
    requires
        from <= s@.len(),
    ensures
        at == find_from(s@, x, from as int),
        from <= at <= s@.len(),
{
    let mut i: usize = from;
    while i < s.len() && s[i] != x
        invariant
            from <= i <= s@.len(),
            find_from(s@, x, i as int) == find_from(s@, x, from as int),
        decreases s@.len() - i,
    {
        i += 1;
    }
    i
}

/// The characters of a string, one by one.
pub fn chars_of(s: &str) -> (out: Vec<char>)
    ensures
        out@ == s@,
{
    broadcast use vstd::string::group_string_axioms;

    let mut out: Vec<char> = Vec::new();
    for c in it: s.chars()
        invariant
            it.seq() == s@,
            out@ == it.seq().take(it.index()),
    {
        out.push(c);
    }
    out
}

/// `String::push` puts one character at the end of the string.
pub assume_specification[ String::push ](s: &mut String, c: char)
    ensures
        final(s)@ == old(s)@.push(c),
;

/// The string made of the characters `chars[from..to]`.
pub fn text_of(chars: &Vec<char>, from: usize, to: usize) -> (out: String)
    requires
        from <= to <= chars.len(),
    ensures
        out@ == chars@.subrange(from as int, to as int),
{
    let mut out = String::new();
    let mut i: usize = from;
    while i < to
        invariant
            from <= i <= to <= chars.len(),
            out@ == chars@.subrange(from as int, i as int),
        decreases to - i,
    {
        out.push(chars[i]);
        i += 1;
    }
    out
}

/// Whether two character vectors hold the same text.
pub fn same_chars(a: &Vec<char>, b: &Vec<char>) -> (same: bool)
    ensures
        same == (a@ == b@),
{
    if a.len() != b.len() {
        return false;
    }
    let mut i: usize = 0;
    while i < a.len()
        invariant
            i <= a.len(),
            a.len() == b.len(),
            a@.take(i as int) == b@.take(i as int),
        decreases a.len() - i,
    {
        if a[i] != b[i] {
            return false;
        }
        i += 1;
    }
    assert(a@ == a@.take(a.len() as int));
    assert(b@ == b@.take(b.len() as int));
    true
}

/// Whether `c` is white space: the code points with the Unicode property
/// `White_Space`, which is what `char::is_whitespace` tests.
pub open spec fn is_space(c: char) -> bool {
    let n = c as u32;
    ||| 0x09 <= n <= 0x0D
    ||| n == 0x20
    ||| n == 0x85
    ||| n == 0xA0
    ||| n == 0x1680
    ||| 0x2000 <= n <= 0x200A
    ||| n == 0x2028
    ||| n == 0x2029
    ||| n == 0x202F
    ||| n == 0x205F
    ||| n == 0x3000
}

/// Tests whether `c` is white space.
pub fn space(c: char) -> (b: bool)
    ensures
        b == is_space(c),
{
    let n: u32 = c as u32;
    (0x09 <= n && n <= 0x0D) || n == 0x20 || n == 0x85 || n == 0xA0 || n == 0x1680 || (0x2000 <= n
        && n <= 0x200A) || n == 0x2028 || n == 0x2029 || n == 0x202F || n == 0x205F || n == 0x3000
}

/// The first index at or after `from` that holds no white space, or the length
/// of `s`.
pub open spec fn gap_end(s: Seq<char>, from: int) -> int
    decreases s.len() - from,
{
    if from >= s.len() {
        s.len() as int
    } else if !is_space(s[from]) {
        from
    } else {
        gap_end(s, from + 1)
    }
}

/// The first index at or after `from` that holds white space, or the length of
/// `s`.
pub open spec fn word_end(s: Seq<char>, from: int) -> int
    decreases s.len() - from,
{
    if from >= s.len() {
        s.len() as int
    } else if is_space(s[from]) {
        from
    } else {
        word_end(s, from + 1)
    }
}

/// `gap_end` skips white space and nothing else.
pub proof fn lemma_gap_end(s: Seq<char>, from: int)
    requires
        0 <= from <= s.len(),
    ensures
        from <= gap_end(s, from) <= s.len(),
        gap_end(s, from) < s.len() ==> !is_space(s[gap_end(s, from)]),
        forall|k: int| from <= k < gap_end(s, from) ==> is_space(s[k]),
    decreases s.len() - from,
{
    if from < s.len() && is_space(s[from]) {
        lemma_gap_end(s, from + 1);
    }
}

/// `word_end` skips what is no white space and nothing else; from the start
/// of a word it moves on by at least one.
pub proof fn lemma_word_end(s: Seq<char>, from: int)
    requires
        0 <= from <= s.len(),
    ensures
        from <= word_end(s, from) <= s.len(),
        from < s.len() && !is_space(s[from]) ==> from < word_end(s, from),
        word_end(s, from) < s.len() ==> is_space(s[word_end(s, from)]),
        forall|k: int| from <= k < word_end(s, from) ==> !is_space(s[k]),
    decreases s.len() - from,
{
    if from < s.len() && !is_space(s[from]) {
        lemma_word_end(s, from + 1);
    }
}

/// The maximal runs of characters other than white space that begin at or
/// after `from`, in order.
pub open spec fn words_from(s: Seq<char>, from: int) -> Seq<Seq<char>>
    decreases s.len() - from,
    via words_from_decreases
{
    let start = gap_end(s, from);
    if from < 0 || start >= s.len() {
        Seq::empty()
    } else {
        seq![s.subrange(start, word_end(s, start))] + words_from(s, word_end(s, start))
    }
}

#[via_fn]
proof fn words_from_decreases(s: Seq<char>, from: int) {
    if from >= 0 && gap_end(s, from) < s.len() {
        lemma_gap_end(s, from);
        lemma_word_end(s, gap_end(s, from));
    }
}

/// The words of `s`: what `str::split_whitespace` yields.
pub open spec fn words(s: Seq<char>) -> Seq<Seq<char>> {
    words_from(s, 0)
}

/// The texts that a vector of character vectors holds.
pub open spec fn texts(v: Seq<Vec<char>>) -> Seq<Seq<char>> {
    Seq::new(v.len(), |i: int| v[i]@)
}

/// The characters `s[from..to]`.
pub fn chars_between(s: &Vec<char>, from: usize, to: usize) -> (out: Vec<char>)
    requires
        from <= to <= s.len(),
    ensures
        out@ == s@.subrange(from as int, to as int),
{
    let mut out: Vec<char> = Vec::new();
    let mut i: usize = from;
    while i < to
        invariant
            from <= i <= to <= s.len(),
            out@ == s@.subrange(from as int, i as int),
        decreases to - i,
    {
        out.push(s[i]);
        i += 1;
    }
    out
}

fn skip_gap(s: &Vec<char>, from: usize) -> (at: usize)
    requires
        from <= s.len(),
    ensures
        at == gap_end(s@, from as int),
        from <= at <= s.len(),
{
    let mut i: usize = from;
    while i < s.len() && space(s[i])
        invariant
            from <= i <= s.len(),
            gap_end(s@, i as int) == gap_end(s@, from as int),
        decreases s.len() - i,
    {
        i += 1;
    }
    i
}

fn skip_word(s: &Vec<char>, from: usize) -> (at: usize)
    requires
        from <= s.len(),
    ensures
        at == word_end(s@, from as int),
        from <= at <= s.len(),
{
    let mut i: usize = from;
    while i < s.len() && !space(s[i])
        invariant
            from <= i <= s.len(),
            word_end(s@, i as int) == word_end(s@, from as int),
        decreases s.len() - i,
    {
        i += 1;
    }
    i
}

/// Splits `s` into its words.
pub fn split_words(s: &Vec<char>) -> (out: Vec<Vec<char>>)
    ensures
        texts(out@) == words(s@),
{
    let mut out: Vec<Vec<char>> = Vec::new();
    let mut pos: usize = 0;
    loop
        invariant
            pos <= s.len(),
            texts(out@) + words_from(s@, pos as int) == words(s@),
        ensures
            texts(out@) == words(s@),
        decreases s.len() - pos,
    {
        let start = skip_gap(s, pos);
        if start >= s.len() {
            break;
        }
        let end = skip_word(s, start);
        proof {
            lemma_word_end(s@, start as int);
        }
        let word = chars_between(s, start, end);
        out.push(word);
        pos = end;
    }
    out
}

/// The pieces of `s` from index `from` on that lie between occurrences of
/// `sep`. There is always at least one piece, and a piece may be empty.
pub open spec fn split_from<T>(s: Seq<T>, sep: T, from: int) -> Seq<Seq<T>>
    decreases s.len() - from,
    via split_from_decreases::<T>
{
    let at = find_from(s, sep, from);
    if from < 0 || at >= s.len() {
        seq![s.subrange(from, s.len() as int)]
    } else {
        seq![s.subrange(from, at)] + split_from(s, sep, at + 1)
    }
}

#[via_fn]
proof fn split_from_decreases<T>(s: Seq<T>, sep: T, from: int) {
    if 0 <= from <= s.len() {
        lemma_find_from(s, sep, from);
    }
}

/// The pieces of `s` between occurrences of `sep`: what `str::split` yields
/// for a single character.
pub open spec fn split<T>(s: Seq<T>, sep: T) -> Seq<Seq<T>> {
    split_from(s, sep, 0)
}

/// Splits `s` at every `sep`.
pub fn split_chars(s: &Vec<char>, sep: char) -> (out: Vec<Vec<char>>)
    ensures
        texts(out@) == split(s@, sep),
{
    let mut out: Vec<Vec<char>> = Vec::new();
    let mut pos: usize = 0;
    loop
        invariant_except_break
            pos <= s.len(),
            texts(out@) + split_from(s@, sep, pos as int) == split(s@, sep),
        ensures
            texts(out@) == split(s@, sep),
        decreases s.len() - pos,
    {
        let at = find_char(s, sep, pos);
        let piece = chars_between(s, pos, at);
        out.push(piece);
        if at >= s.len() {
            break;
        }
        pos = at + 1;
    }
    out
}

/// `s` without the white space at its end.
pub open spec fn trim_end(s: Seq<char>) -> Seq<char>
    decreases s.len(),
{
    if s.len() > 0 && is_space(s.last()) {
        trim_end(s.drop_last())
    } else {
        s
    }
}

/// `s` without the white space at either end: what `str::trim` yields.
pub open spec fn trim(s: Seq<char>) -> Seq<char> {
    trim_end(s.skip(gap_end(s, 0)))
}

/// Removes the white space at both ends of `s`.
pub fn trim_chars(s: &Vec<char>) -> (out: Vec<char>)
    ensures
        out@ == trim(s@),
{
    let start = skip_gap(s, 0);
    let mut end: usize = s.len();
    while end > start && space(s[end - 1])
        invariant
            start <= end <= s.len(),
            trim_end(s@.subrange(start as int, end as int)) == trim_end(s@.skip(start as int)),
        decreases end,
    {
        assert(s@.subrange(start as int, end as int).drop_last() == s@.subrange(
            start as int,
            end - 1,
        ));
        end -= 1;
    }
    chars_between(s, start, end)
}

/// `String::from_utf8`: the text that `bytes` encode in UTF-8, or nothing if
/// they encode none.
#[verifier::external_body]
pub(crate) fn decode_text(bytes: Vec<u8>) -> (text: Option<String>)
    ensures
        text is Some == valid_utf8(bytes@),
        text matches Some(t) ==> t@ == decode_utf8(bytes@),
{
    String::from_utf8(bytes).ok()
}

/// The bytes `s[from..to]`.
pub fn bytes_between(s: &[u8], from: usize, to: usize) -> (out: Vec<u8>)
    requires
        from <= to <= s@.len(),
    ensures
        out@ == s@.subrange(from as int, to as int),
{
    let mut out: Vec<u8> = Vec::new();
    let mut i: usize = from;
    while i < to
        invariant
            from <= i <= to <= s@.len(),
            out@ == s@.subrange(from as int, i as int),
        decreases to - i,
    {
        out.push(s[i]);
        i += 1;
    }
    out
}

} // verus!
