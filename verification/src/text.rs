//! Character-level helpers on strings.
//!
//! A string is viewed as its sequence of `char`s; every index in this module
//! counts characters, never bytes.

use vstd::prelude::*;

verus! {

/// Whether `c` has the Unicode `White_Space` property: the controls from
/// tab to carriage return, the space, the next-line control, the no-break
/// space, the Ogham space mark, the spaces from en quad to hair space, the
/// line and the paragraph separator, the narrow no-break space, the medium
/// mathematical space and the ideographic space.
pub open spec fn unicode_whitespace(c: char) -> bool {
    ('\u{9}' <= c && c <= '\u{d}') || c == ' ' || c == '\u{85}' || c == '\u{a0}' || c
        == '\u{1680}' || ('\u{2000}' <= c && c <= '\u{200a}') || c == '\u{2028}' || c
        == '\u{2029}' || c == '\u{202f}' || c == '\u{205f}' || c == '\u{3000}'
}

/// Whether `c`, a character beyond ASCII, is alphabetic or numeric in
/// Unicode's sense, as `char::is_alphanumeric` reports it.
pub uninterp spec fn alphanumeric_beyond_ascii(c: char) -> bool;

/// Whether `c`, a character beyond ASCII, is in one of Unicode's number
/// categories, as `char::is_numeric` reports it.
pub uninterp spec fn numeric_beyond_ascii(c: char) -> bool;

/// Whether `c` is an ASCII character.
pub open spec fn ascii(c: char) -> bool {
    c <= '\u{7f}'
}

/// Whether `c` is alphabetic or numeric in Unicode's sense: in ASCII the
/// letters and the digits, beyond it what the tables of Unicode say.
pub open spec fn unicode_alphanumeric(c: char) -> bool {
    if ascii(c) {
        ('0' <= c && c <= '9') || ('a' <= c && c <= 'z') || ('A' <= c && c <= 'Z')
    } else {
        alphanumeric_beyond_ascii(c)
    }
}

/// Whether `c` is in one of Unicode's number categories: in ASCII the
/// digits, beyond it what the tables of Unicode say.
pub open spec fn unicode_numeric(c: char) -> bool {
    if ascii(c) {
        '0' <= c && c <= '9'
    } else {
        numeric_beyond_ascii(c)
    }
}

/// Calls `char::is_whitespace`. Trusted: the standard library documents
/// that it tells whether `c` has the `White_Space` property of Unicode,
/// which is the set of characters that `unicode_whitespace` lists.
#[verifier::external_body]
pub(crate) fn is_whitespace(c: char) -> (b: bool)
    ensures
        b == unicode_whitespace(c),
{
    c.is_whitespace()
}

/// Calls `char::is_alphanumeric`. Trusted: the standard library documents
/// that it tells whether `c` is alphabetic or numeric in Unicode's sense. In
/// ASCII those are the letters and the digits; beyond ASCII the result is
/// what the library computes from its tables, and depends on `c` alone.
#[verifier::external_body]
pub(crate) fn is_alphanumeric(c: char) -> (b: bool)
    ensures
        b == unicode_alphanumeric(c),
        !ascii(c) ==> b == alphanumeric_beyond_ascii(c),
{
    c.is_alphanumeric()
}

/// Calls `char::is_numeric`. Trusted: the standard library documents that
/// it tells whether `c` is in one of the number categories of Unicode. In
/// ASCII those are the ten digits; beyond ASCII the result is what the
/// library computes from its tables, and depends on `c` alone.
#[verifier::external_body]
pub(crate) fn is_numeric(c: char) -> (b: bool)
    ensures
        b == unicode_numeric(c),
        !ascii(c) ==> b == numeric_beyond_ascii(c),
{
    c.is_numeric()
}

/// `String::push` appends one character. Trusted: this is what the standard
/// library documents for it.
pub assume_specification[ String::push ](s: &mut String, c: char)
    ensures
        final(s)@ == old(s)@.push(c),
;

/// `String::pop` removes the last character and gives it, or gives `None`
/// for an empty string. Trusted: this is what the standard library documents.
pub assume_specification[ String::pop ](s: &mut String) -> (c: Option<char>)
    ensures
        match c {
            Some(x) => old(s)@.len() > 0 && x == old(s)@.last() && final(s)@ == old(s)@.drop_last(),
            None => old(s)@.len() == 0 && final(s)@ == old(s)@,
        },
;

/// `String::clear` empties the string. Trusted: this is what the standard
/// library documents.
pub assume_specification[ String::clear ](s: &mut String)
    ensures
        final(s)@ == Seq::<char>::empty(),
;

/// The views of a sequence of strings, line by line.
pub open spec fn lines_view(s: Seq<String>) -> Seq<Seq<char>> {
    Seq::new(s.len(), |i: int| s[i]@)
}

/// `n` copies of the space character.
pub open spec fn spaces(n: nat) -> Seq<char> {
    Seq::new(n, |i: int| ' ')
}

/// `s` without its leading whitespace.
pub open spec fn trim_start(s: Seq<char>) -> Seq<char>
    decreases s.len(),
{
    if s.len() > 0 && unicode_whitespace(s[0]) {
        trim_start(s.drop_first())
    } else {
        s
    }
}

/// `s` without its trailing whitespace.
pub open spec fn trim_end(s: Seq<char>) -> Seq<char>
    decreases s.len(),
{
    if s.len() > 0 && unicode_whitespace(s.last()) {
        trim_end(s.drop_last())
    } else {
        s
    }
}

/// `s` without leading and trailing whitespace.
pub open spec fn trim(s: Seq<char>) -> Seq<char> {
    trim_end(trim_start(s))
}

/// The length of the run of `c` at the start of `s`.
pub open spec fn leading_run(s: Seq<char>, c: char) -> nat
    decreases s.len(),
{
    if s.len() > 0 && s[0] == c {
        1 + leading_run(s.drop_first(), c)
    } else {
        0
    }
}

/// The number of space characters at the start of `s`.
pub open spec fn leading_spaces(s: Seq<char>) -> nat {
    leading_run(s, ' ')
}

/// Whether `p` occurs in `s` starting at index `at`.
pub open spec fn occurs_at(s: Seq<char>, p: Seq<char>, at: int) -> bool {
    0 <= at && at + p.len() <= s.len() && s.subrange(at, at + p.len()) == p
}

/// Whether `s` starts with `p`.
pub open spec fn starts_with(s: Seq<char>, p: Seq<char>) -> bool {
    occurs_at(s, p, 0)
}

/// Whether `s` ends with `p`.
pub open spec fn ends_with(s: Seq<char>, p: Seq<char>) -> bool {
    occurs_at(s, p, s.len() - p.len())
}

/// Whether `p` occurs somewhere in `s`.
pub open spec fn contains(s: Seq<char>, p: Seq<char>) -> bool {
    exists|at: int| occurs_at(s, p, at)
}

/// The characters of `s`, in order.
pub fn to_chars(s: &str) -> (v: Vec<char>)
    ensures
        v@ == s@,
{
    let mut v: Vec<char> = Vec::new();
    for c in it: s.chars()
        invariant
            v@ == it.seq().subrange(0, it.index() as int),
            it.seq() == s@,
    {
        v.push(c);
        assert(v@ =~= it.seq().subrange(0, it.index() + 1));
    }
    assert(s@.subrange(0, s@.len() as int) =~= s@);
    v
}

/// The string made of the characters `v[from..to]`.
pub fn from_chars_range(v: &Vec<char>, from: usize, to: usize) -> (s: String)
    requires
        from <= to <= v.len(),
    ensures
        s@ == v@.subrange(from as int, to as int),
{
    let mut s = String::new();
    let mut i: usize = from;
    while i < to
        invariant
            from <= i <= to <= v.len(),
            s@ == v@.subrange(from as int, i as int),
        decreases to - i,
    {
        s.push(v[i]);
        i += 1;
        assert(s@ =~= v@.subrange(from as int, i as int));
    }
    s
}

/// The string made of the characters of `v`.
pub fn from_chars(v: &Vec<char>) -> (s: String)
    ensures
        s@ == v@,
{
    let s = from_chars_range(v, 0, v.len());
    assert(v@.subrange(0, v.len() as int) =~= v@);
    s
}

/// The number of characters of `s`.
pub fn char_len(s: &str) -> (n: usize)
    ensures
        n == s@.len(),
{
    s.unicode_len()
}

/// The character at index `i` of `s`, if `s` is that long.
pub fn char_at(s: &str, i: usize) -> (r: Option<char>)
    ensures
        r == (if i < s@.len() {
            Some(s@[i as int])
        } else {
            None
        }),
{
    if i < s.unicode_len() {
        Some(s.get_char(i))
    } else {
        None
    }
}

/// Whether two strings hold the same characters.
pub fn str_eq(a: &str, b: &str) -> (r: bool)
    ensures
        r == (a@ == b@),
{
    let x = to_chars(a);
    let y = to_chars(b);
    chars_eq(&x, &y)
}

/// Whether two character vectors hold the same characters.
pub fn chars_eq(x: &Vec<char>, y: &Vec<char>) -> (r: bool)
    ensures
        r == (x@ == y@),
{
    if x.len() != y.len() {
        return false;
    }
    let mut i: usize = 0;
    while i < x.len()
        invariant
            x.len() == y.len(),
            i <= x.len(),
            x@.subrange(0, i as int) == y@.subrange(0, i as int),
        decreases x.len() - i,
    {
        if x[i] != y[i] {
            return false;
        }
        i += 1;
        assert(x@.subrange(0, i as int) =~= x@.subrange(0, i - 1).push(x@[i - 1]));
        assert(y@.subrange(0, i as int) =~= y@.subrange(0, i - 1).push(y@[i - 1]));
    }
    assert(x@.subrange(0, x.len() as int) =~= x@);
    assert(y@.subrange(0, y.len() as int) =~= y@);
    true
}

/// A string of `n` spaces.
pub fn spaces_string(n: usize) -> (s: String)
    ensures
        s@ == spaces(n as nat),
{
    let mut s = String::new();
    let mut i: usize = 0;
    while i < n
        invariant
            i <= n,
            s@ == spaces(i as nat),
        decreases n - i,
    {
        s.push(' ');
        i += 1;
        assert(s@ =~= spaces(i as nat));
    }
    s
}

/// Whether `p` occurs in `s` at index `at`.
pub fn occurs_at_exec(s: &Vec<char>, p: &Vec<char>, at: usize) -> (r: bool)
    ensures
        r == occurs_at(s@, p@, at as int),
{
    if p.len() > s.len() || at > s.len() - p.len() {
        return false;
    }
    let mut i: usize = 0;
    while i < p.len()
        invariant
            at + p.len() <= s.len(),
            i <= p.len(),
            s@.subrange(at as int, at + i) == p@.subrange(0, i as int),
        decreases p.len() - i,
    {
        if s[at + i] != p[i] {
            assert(s@.subrange(at as int, at + p.len())[i as int] != p@[i as int]);
            return false;
        }
        i += 1;
        assert(s@.subrange(at as int, at + i) =~= s@.subrange(at as int, at + i - 1).push(
            s@[at + i - 1],
        ));
        assert(p@.subrange(0, i as int) =~= p@.subrange(0, i - 1).push(p@[i - 1]));
    }
    assert(p@.subrange(0, p.len() as int) =~= p@);
    true
}

/// Whether `s` ends with `p`.
pub fn ends_with_exec(s: &str, p: &str) -> (r: bool)
    ensures
        r == ends_with(s@, p@),
{
    let x = to_chars(s);
    let y = to_chars(p);
    if y.len() > x.len() {
        return false;
    }
    occurs_at_exec(&x, &y, x.len() - y.len())
}

/// Whether `s` starts with `p`.
pub fn starts_with_exec(s: &Vec<char>, p: &Vec<char>) -> (r: bool)
    ensures
        r == starts_with(s@, p@),
{
    occurs_at_exec(s, p, 0)
}


/// The index of the first character of `s` at or after `from` that is not
/// whitespace, or the length of `s` if there is none.
pub fn skip_whitespace(s: &Vec<char>, from: usize) -> (i: usize)
    requires
        from <= s.len(),
    ensures
        from <= i <= s.len(),
        s@.subrange(i as int, s.len() as int) == trim_start(
            s@.subrange(from as int, s.len() as int),
        ),
{
    let mut i: usize = from;
    while i < s.len() && is_whitespace(s[i])
        invariant
            from <= i <= s.len(),
            trim_start(s@.subrange(i as int, s.len() as int)) == trim_start(
                s@.subrange(from as int, s.len() as int),
            ),
        decreases s.len() - i,
    {
        assert(s@.subrange(i as int, s.len() as int).drop_first() =~= s@.subrange(
            i + 1,
            s.len() as int,
        ));
        i += 1;
    }
    i
}

/// The end of `s[from..to]` once its trailing whitespace is dropped.
pub fn skip_whitespace_back(s: &Vec<char>, from: usize, to: usize) -> (j: usize)
    requires
        from <= to <= s.len(),
    ensures
        from <= j <= to,
        s@.subrange(from as int, j as int) == trim_end(s@.subrange(from as int, to as int)),
{
    let mut j: usize = to;
    while j > from && is_whitespace(s[j - 1])
        invariant
            from <= j <= to <= s.len(),
            trim_end(s@.subrange(from as int, j as int)) == trim_end(
                s@.subrange(from as int, to as int),
            ),
        decreases j,
    {
        assert(s@.subrange(from as int, j as int).drop_last() =~= s@.subrange(
            from as int,
            j - 1,
        ));
        j -= 1;
    }
    j
}

/// `s` without leading and trailing whitespace.
pub fn trim_exec(s: &str) -> (r: String)
    ensures
        r@ == trim(s@),
{
    let v = to_chars(s);
    let i = skip_whitespace(&v, 0);
    let j = skip_whitespace_back(&v, i, v.len());
    assert(v@.subrange(0, v.len() as int) =~= v@);
    from_chars_range(&v, i, j)
}

/// `s` without trailing whitespace.
pub fn trim_end_exec(s: &str) -> (r: String)
    ensures
        r@ == trim_end(s@),
{
    let v = to_chars(s);
    let j = skip_whitespace_back(&v, 0, v.len());
    assert(v@.subrange(0, v.len() as int) =~= v@);
    from_chars_range(&v, 0, j)
}

/// The length of the run of `c` at the start of `v`.
pub fn count_leading(v: &Vec<char>, c: char) -> (n: usize)
    ensures
        n == leading_run(v@, c),
        n <= v@.len(),
        forall|k: int| 0 <= k < n ==> v@[k] == c,
{
    let mut i: usize = 0;
    assert(v@.subrange(0, v.len() as int) =~= v@);
    while i < v.len() && v[i] == c
        invariant
            i <= v.len(),
            leading_run(v@, c) == i + leading_run(v@.subrange(i as int, v.len() as int), c),
            forall|k: int| 0 <= k < i ==> v@[k] == c,
        decreases v.len() - i,
    {
        assert(v@.subrange(i as int, v.len() as int).drop_first() =~= v@.subrange(
            i + 1,
            v.len() as int,
        ));
        i += 1;
    }
    i
}

/// The number of spaces at the start of `s`.
pub fn count_leading_spaces(s: &str) -> (n: usize)
    ensures
        n == leading_spaces(s@),
        n <= s@.len(),
{
    let v = to_chars(s);
    count_leading(&v, ' ')
}

/// The first index at or after `at` where `p` occurs in `s`.
pub open spec fn find_from(s: Seq<char>, p: Seq<char>, at: int) -> Option<int>
    decreases s.len() + 1 - at,
{
    if at < 0 || at + p.len() > s.len() {
        None
    } else if occurs_at(s, p, at) {
        Some(at)
    } else {
        find_from(s, p, at + 1)
    }
}

/// The last index at or before `at` where `p` occurs in `s`.
pub open spec fn rfind_upto(s: Seq<char>, p: Seq<char>, at: int) -> Option<int>
    decreases at + 1,
{
    if at < 0 {
        None
    } else if occurs_at(s, p, at) {
        Some(at)
    } else {
        rfind_upto(s, p, at - 1)
    }
}

/// The last index where `p` occurs wholly inside `s[..end]`.
pub open spec fn rfind_before(s: Seq<char>, p: Seq<char>, end: int) -> Option<int> {
    rfind_upto(s.subrange(0, end), p, end - p.len())
}

/// What `find_from` finds is an occurrence, and the first one from `at` on.
pub proof fn lemma_find_from(s: Seq<char>, p: Seq<char>, at: int)
    requires
        0 <= at,
    ensures
        match find_from(s, p, at) {
            Some(q) => at <= q && occurs_at(s, p, q) && forall|b: int|
                at <= b < q ==> !occurs_at(s, p, b),
            None => forall|b: int| at <= b ==> !occurs_at(s, p, b),
        },
    decreases s.len() + 1 - at,
{
    if at + p.len() > s.len() {
    } else if occurs_at(s, p, at) {
    } else {
        lemma_find_from(s, p, at + 1);
    }
}

/// What `rfind_upto` finds is an occurrence, and the last one up to `at`.
pub proof fn lemma_rfind_upto(s: Seq<char>, p: Seq<char>, at: int)
    ensures
        match rfind_upto(s, p, at) {
            Some(q) => q <= at && occurs_at(s, p, q) && forall|b: int|
                q < b <= at ==> !occurs_at(s, p, b),
            None => forall|b: int| b <= at ==> !occurs_at(s, p, b),
        },
    decreases at + 1,
{
    if at < 0 {
    } else if occurs_at(s, p, at) {
    } else {
        lemma_rfind_upto(s, p, at - 1);
    }
}

/// Searches `s` for `p` from index `at` on.
pub fn find_from_exec(s: &Vec<char>, p: &Vec<char>, at: usize) -> (r: Option<usize>)
    ensures
        match r {
            Some(q) => find_from(s@, p@, at as int) == Some(q as int) && q + p.len() <= s.len(),
            None => find_from(s@, p@, at as int) is None,
        },
{
    if p.len() > s.len() || at > s.len() - p.len() {
        return None;
    }
    let last: usize = s.len() - p.len();
    let mut i: usize = at;
    loop
        invariant
            last == s.len() - p.len(),
            at <= i <= last,
            find_from(s@, p@, at as int) == find_from(s@, p@, i as int),
        decreases last - i,
    {
        if occurs_at_exec(s, p, i) {
            return Some(i);
        }
        if i == last {
            assert(find_from(s@, p@, i + 1) is None);
            return None;
        }
        i += 1;
    }
}

/// Searches `s[..end]` for the last occurrence of `p`.
pub fn rfind_before_exec(s: &Vec<char>, p: &Vec<char>, end: usize) -> (r: Option<usize>)
    requires
        end <= s.len(),
    ensures
        match r {
            Some(q) => rfind_before(s@, p@, end as int) == Some(q as int) && q + p.len() <= end,
            None => rfind_before(s@, p@, end as int) is None,
        },
{
    if p.len() > end {
        return None;
    }
    let ghost t = s@.subrange(0, end as int);
    let mut i: usize = end - p.len();
    loop
        invariant
            end <= s.len(),
            p.len() <= end,
            t == s@.subrange(0, end as int),
            i <= end - p.len(),
            rfind_before(s@, p@, end as int) == rfind_upto(t, p@, i as int),
        decreases i,
    {
        let hit = occurs_at_exec(s, p, i);
        proof {
            assert(t.subrange(i as int, i + p.len()) =~= s@.subrange(i as int, i + p.len()));
        }
        if hit {
            return Some(i);
        }
        if i == 0 {
            assert(rfind_upto(t, p@, -1) is None);
            return None;
        }
        i -= 1;
    }
}

/// Whether `p` occurs somewhere in `s`.
pub fn contains_exec(s: &str, p: &str) -> (r: bool)
    ensures
        r == contains(s@, p@),
{
    let x = to_chars(s);
    let y = to_chars(p);
    let f = find_from_exec(&x, &y, 0);
    proof {
        lemma_find_from(x@, y@, 0);
        if f is Some {
            assert(occurs_at(x@, y@, f.unwrap() as int));
        }
    }
    f.is_some()
}


/// The words of `s` when `word` holds the characters of the word that is
/// being read (empty between words).
pub open spec fn split_words(s: Seq<char>, word: Seq<char>) -> Seq<Seq<char>>
    decreases s.len(),
{
    let done = if word.len() > 0 {
        seq![word]
    } else {
        Seq::empty()
    };
    if s.len() == 0 {
        done
    } else if unicode_whitespace(s[0]) {
        done + split_words(s.drop_first(), Seq::empty())
    } else {
        split_words(s.drop_first(), word.push(s[0]))
    }
}

/// The maximal runs of non-whitespace characters of `s`, in order.
pub open spec fn split_whitespace(s: Seq<char>) -> Seq<Seq<char>> {
    split_words(s, Seq::empty())
}

/// The whitespace-separated words of `s`.
pub fn split_whitespace_exec(s: &str) -> (words: Vec<String>)
    ensures
        lines_view(words@) == split_whitespace(s@),
{
    let v = to_chars(s);
    let n: usize = v.len();
    let mut words: Vec<String> = Vec::new();
    let mut word: Vec<char> = Vec::new();
    let mut i: usize = 0;
    assert(v@.subrange(0, n as int) =~= v@);
    assert(lines_view(words@) =~= Seq::<Seq<char>>::empty());
    assert(Seq::<Seq<char>>::empty() + split_whitespace(v@) =~= split_whitespace(v@));
    while i < n
        invariant
            n == v.len(),
            i <= n,
            lines_view(words@) + split_words(v@.subrange(i as int, n as int), word@)
                == split_whitespace(v@),
        decreases n - i,
    {
        let ghost rest = v@.subrange(i as int, n as int);
        assert(rest.drop_first() =~= v@.subrange(i + 1, n as int));
        if is_whitespace(v[i]) {
            if word.len() > 0 {
                let w = from_chars(&word);
                proof {
                    assert(lines_view(words@.push(w)) =~= lines_view(words@) + seq![word@]);
                    assert((lines_view(words@) + seq![word@]) + split_words(
                        rest.drop_first(),
                        Seq::empty(),
                    ) =~= lines_view(words@) + (seq![word@] + split_words(
                        rest.drop_first(),
                        Seq::empty(),
                    )));
                }
                words.push(w);
                word = Vec::new();
            } else {
                assert(Seq::<Seq<char>>::empty() + split_words(rest.drop_first(), Seq::empty())
                    =~= split_words(rest.drop_first(), Seq::empty()));
                assert(word@ =~= Seq::<char>::empty());
            }
        } else {
            word.push(v[i]);
        }
        i += 1;
    }
    if word.len() > 0 {
        let w = from_chars(&word);
        proof {
            assert(lines_view(words@.push(w)) =~= lines_view(words@) + seq![word@]);
        }
        words.push(w);
    } else {
        assert(lines_view(words@) + Seq::<Seq<char>>::empty() =~= lines_view(words@));
    }
    words
}


/// `line` without one carriage return at its end.
pub open spec fn strip_cr(line: Seq<char>) -> Seq<char> {
    if line.len() > 0 && line.last() == '\r' {
        line.drop_last()
    } else {
        line
    }
}

/// The lines of `s` when `line` holds the characters of the line that is
/// being read. A line ends at a line feed, and a carriage return just before
/// the line feed belongs to the line ending; what follows the last line feed
/// is a line only if it is not empty.
pub open spec fn split_lines_from(s: Seq<char>, line: Seq<char>) -> Seq<Seq<char>>
    decreases s.len(),
{
    if s.len() == 0 {
        if line.len() > 0 {
            seq![line]
        } else {
            Seq::empty()
        }
    } else if s[0] == '\n' {
        seq![strip_cr(line)] + split_lines_from(s.drop_first(), Seq::empty())
    } else {
        split_lines_from(s.drop_first(), line.push(s[0]))
    }
}

/// The lines of the text `s`.
pub open spec fn split_lines(s: Seq<char>) -> Seq<Seq<char>> {
    split_lines_from(s, Seq::empty())
}

/// The lines of the text `s`, without their line endings.
pub fn split_lines_exec(s: &str) -> (lines: Vec<String>)
    ensures
        lines_view(lines@) == split_lines(s@),
{
    let v = to_chars(s);
    let n: usize = v.len();
    let mut lines: Vec<String> = Vec::new();
    let mut line: Vec<char> = Vec::new();
    let mut i: usize = 0;
    assert(v@.subrange(0, n as int) =~= v@);
    assert(lines_view(lines@) =~= Seq::<Seq<char>>::empty());
    assert(Seq::<Seq<char>>::empty() + split_lines(v@) =~= split_lines(v@));
    while i < n
        invariant
            n == v.len(),
            i <= n,
            lines_view(lines@) + split_lines_from(v@.subrange(i as int, n as int), line@)
                == split_lines(v@),
        decreases n - i,
    {
        let ghost rest = v@.subrange(i as int, n as int);
        assert(rest.drop_first() =~= v@.subrange(i + 1, n as int));
        if v[i] == '\n' {
            let end: usize = if line.len() > 0 && line[line.len() - 1] == '\r' {
                line.len() - 1
            } else {
                line.len()
            };
            let w = from_chars_range(&line, 0, end);
            proof {
                assert(w@ =~= strip_cr(line@));
                assert(lines_view(lines@.push(w)) =~= lines_view(lines@) + seq![w@]);
                assert((lines_view(lines@) + seq![w@]) + split_lines_from(
                    rest.drop_first(),
                    Seq::empty(),
                ) =~= lines_view(lines@) + (seq![w@] + split_lines_from(
                    rest.drop_first(),
                    Seq::empty(),
                )));
            }
            lines.push(w);
            line = Vec::new();
        } else {
            line.push(v[i]);
        }
        i += 1;
    }
    if line.len() > 0 {
        let w = from_chars(&line);
        proof {
            assert(lines_view(lines@.push(w)) =~= lines_view(lines@) + seq![line@]);
        }
        lines.push(w);
    } else {
        assert(lines_view(lines@) + Seq::<Seq<char>>::empty() =~= lines_view(lines@));
    }
    lines
}

/// The lines, each without its trailing whitespace and followed by a line feed.
pub open spec fn join_trimmed(lines: Seq<Seq<char>>) -> Seq<char>
    decreases lines.len(),
{
    if lines.len() == 0 {
        Seq::empty()
    } else {
        join_trimmed(lines.drop_last()) + trim_end(lines.last()) + seq!['\n']
    }
}

/// The text that stores `lines`: trailing whitespace trimmed from every
/// line, the lines joined by single line feeds, and one line feed at the end.
pub open spec fn file_text(lines: Seq<Seq<char>>) -> Seq<char> {
    if lines.len() == 0 {
        seq!['\n']
    } else {
        join_trimmed(lines)
    }
}

/// The text that stores `lines`.
pub fn file_text_exec(lines: &[String]) -> (text: String)
    ensures
        text@ == file_text(lines_view(lines@)),
{
    let mut text = String::new();
    if lines.len() == 0 {
        text.push('\n');
        assert(text@ =~= seq!['\n']);
        return text;
    }
    let ghost all = lines_view(lines@);
    let mut k: usize = 0;
    assert(all.subrange(0, 0) =~= Seq::<Seq<char>>::empty());
    while k < lines.len()
        invariant
            all == lines_view(lines@),
            k <= lines.len(),
            text@ == join_trimmed(all.subrange(0, k as int)),
        decreases lines.len() - k,
    {
        let ghost before = text@;
        let trimmed = trim_end_exec(lines[k].as_str());
        text.append(trimmed.as_str());
        text.push('\n');
        k += 1;
        proof {
            let part = all.subrange(0, k as int);
            assert(part.drop_last() =~= all.subrange(0, k - 1));
            assert(part.last() == lines@[k - 1]@);
            assert(text@ =~= before + trim_end(part.last()) + seq!['\n']);
        }
    }
    assert(all.subrange(0, all.len() as int) =~= all);
    text
}


/// Whether a line comes back from storage as it was written: it holds no
/// line feed and does not end in a carriage return.
pub open spec fn storable(line: Seq<char>) -> bool {
    &&& forall|i: int| 0 <= i < line.len() ==> line[i] != '\n'
    &&& line.len() > 0 ==> line.last() != '\r'
}

/// Whether `line` holds no line feed.
pub open spec fn one_row(line: Seq<char>) -> bool {
    forall|i: int| 0 <= i < line.len() ==> line[i] != '\n'
}

/// What is left when trailing whitespace is trimmed is a prefix of the
/// line that does not end in whitespace.
pub proof fn lemma_trim_end_is_tight_prefix(s: Seq<char>)
    ensures
        trim_end(s).len() <= s.len(),
        trim_end(s) == s.subrange(0, trim_end(s).len() as int),
        trim_end(s).len() > 0 ==> !unicode_whitespace(trim_end(s).last()),
    decreases s.len(),
{
    if s.len() > 0 && unicode_whitespace(s.last()) {
        lemma_trim_end_is_tight_prefix(s.drop_last());
        let t = trim_end(s.drop_last());
        assert(t =~= s.subrange(0, t.len() as int));
    } else {
        assert(s =~= s.subrange(0, s.len() as int));
    }
}

/// What is left when leading whitespace is trimmed is a suffix of the line
/// that does not start with whitespace.
pub proof fn lemma_trim_start_is_tight_suffix(s: Seq<char>)
    ensures
        trim_start(s).len() <= s.len(),
        trim_start(s) == s.subrange(s.len() - trim_start(s).len(), s.len() as int),
        trim_start(s).len() > 0 ==> !unicode_whitespace(trim_start(s)[0]),
    decreases s.len(),
{
    if s.len() > 0 && unicode_whitespace(s[0]) {
        lemma_trim_start_is_tight_suffix(s.drop_first());
        let t = trim_start(s.drop_first());
        assert(t =~= s.subrange(s.len() - t.len(), s.len() as int));
    } else {
        assert(s =~= s.subrange(0, s.len() as int));
    }
}

/// Leading spaces do not show once a line is trimmed at its start.
pub proof fn lemma_trim_start_of_spaces(n: nat, s: Seq<char>)
    ensures
        trim_start(spaces(n) + s) == trim_start(s),
    decreases n,
{
    if n == 0 {
        assert(spaces(0) + s =~= s);
    } else {
        let whole = spaces(n) + s;
        assert(whole[0] == ' ');
        assert(whole.drop_first() =~= spaces((n - 1) as nat) + s);
        lemma_trim_start_of_spaces((n - 1) as nat, s);
    }
}

/// Trimming is idempotent, also behind an indent of spaces: a trimmed text
/// that is indented and trimmed again is the trimmed text.
pub proof fn lemma_trim_of_indented(n: nat, s: Seq<char>)
    ensures
        trim(spaces(n) + trim(s)) == trim(s),
        trim(trim(s)) == trim(s),
{
    let t = trim(s);
    lemma_trim_start_is_tight_suffix(s);
    lemma_trim_end_is_tight_prefix(trim_start(s));
    lemma_trim_start_of_spaces(n, t);
    if t.len() > 0 {
        assert(t[0] == trim_start(s)[0]);
    }
    assert(trim_start(t) == t);
    assert(trim_end(t) == t);
}

/// A trimmed line of one row is storable.
pub proof fn lemma_trimmed_row_is_storable(line: Seq<char>)
    requires
        one_row(line),
    ensures
        storable(trim_end(line)),
{
    lemma_trim_end_is_tight_prefix(line);
    let t = trim_end(line);
    assert forall|i: int| 0 <= i < t.len() implies t[i] != '\n' by {
        assert(t[i] == line[i]);
    }
}

/// A line without line feed that is followed by a line feed is read as one line.
pub proof fn lemma_split_one_line(t: Seq<char>, line: Seq<char>)
    requires
        forall|i: int| 0 <= i < t.len() ==> t[i] != '\n',
    ensures
        split_lines_from(t + seq!['\n'], line) == seq![strip_cr(line + t)],
    decreases t.len(),
{
    let s = t + seq!['\n'];
    if t.len() == 0 {
        assert(s.drop_first() =~= Seq::<char>::empty());
        assert(line + t =~= line);
        assert(s[0] == '\n');
        assert(split_lines_from(Seq::<char>::empty(), Seq::<char>::empty()) =~= Seq::<
            Seq<char>,
        >::empty());
        assert(split_lines_from(s, line) =~= seq![strip_cr(line)]);
    } else {
        assert(s[0] == t[0]);
        assert(s.drop_first() =~= t.drop_first() + seq!['\n']);
        lemma_split_one_line(t.drop_first(), line.push(t[0]));
        assert(line.push(t[0]) + t.drop_first() =~= line + t);
    }
}

/// What follows a text that ends in a line feed is read on its own.
pub proof fn lemma_split_concat(x: Seq<char>, y: Seq<char>, line: Seq<char>)
    requires
        x.len() > 0,
        x.last() == '\n',
    ensures
        split_lines_from(x + y, line) == split_lines_from(x, line) + split_lines(y),
    decreases x.len(),
{
    let s = x + y;
    assert(s[0] == x[0]);
    assert(s.drop_first() =~= x.drop_first() + y);
    if x.len() == 1 {
        assert(x.drop_first() =~= Seq::<char>::empty());
        assert(x.drop_first() + y =~= y);
        assert(split_lines_from(Seq::<char>::empty(), Seq::<char>::empty()) =~= Seq::<
            Seq<char>,
        >::empty());
        assert(split_lines_from(x, line) =~= seq![strip_cr(line)]);
    } else {
        assert(x.drop_first().last() == x.last());
        if x[0] == '\n' {
            lemma_split_concat(x.drop_first(), y, Seq::empty());
            assert(split_lines_from(s, line) =~= split_lines_from(x, line) + split_lines(y));
        } else {
            lemma_split_concat(x.drop_first(), y, line.push(x[0]));
        }
    }
}

/// The text of one or more lines ends in a line feed.
pub proof fn lemma_join_trimmed_ends(lines: Seq<Seq<char>>)
    requires
        lines.len() > 0,
    ensures
        join_trimmed(lines).len() > 0,
        join_trimmed(lines).last() == '\n',
{
}

/// The text that stores lines, each storable once it is trimmed, splits
/// into the trimmed lines.
pub proof fn lemma_round_trip_storable(lines: Seq<Seq<char>>)
    requires
        lines.len() > 0,
        forall|i: int| 0 <= i < lines.len() ==> storable(trim_end(#[trigger] lines[i])),
    ensures
        split_lines(file_text(lines)) == Seq::new(lines.len(), |i: int| trim_end(lines[i])),
    decreases lines.len(),
{
    let t = trim_end(lines.last());
    let wanted = Seq::new(lines.len(), |i: int| trim_end(lines[i]));
    assert(storable(trim_end(lines[lines.len() - 1])));
    lemma_split_one_line(t, Seq::empty());
    assert(Seq::<char>::empty() + t =~= t);
    if lines.len() == 1 {
        assert(lines.drop_last() =~= Seq::<Seq<char>>::empty());
        assert(join_trimmed(lines.drop_last()) =~= Seq::<char>::empty());
        assert(join_trimmed(lines) =~= t + seq!['\n']);
        assert(split_lines(file_text(lines)) =~= wanted);
    } else {
        let head = lines.drop_last();
        assert forall|i: int| 0 <= i < head.len() implies storable(
            trim_end(#[trigger] head[i]),
        ) by {
            assert(head[i] == lines[i]);
        }
        lemma_round_trip_storable(head);
        lemma_join_trimmed_ends(head);
        assert(join_trimmed(lines) =~= join_trimmed(head) + (t + seq!['\n']));
        lemma_split_concat(join_trimmed(head), t + seq!['\n'], Seq::empty());
        assert(split_lines(file_text(lines)) =~= wanted);
    }
}

/// Writing and reading again gives the lines back without their trailing
/// whitespace: the text that stores one or more rows, none of which holds a
/// line feed, splits into the rows trimmed at their end.
pub proof fn lemma_round_trip(lines: Seq<Seq<char>>)
    requires
        lines.len() > 0,
        forall|i: int| 0 <= i < lines.len() ==> one_row(#[trigger] lines[i]),
    ensures
        split_lines(file_text(lines)) == Seq::new(lines.len(), |i: int| trim_end(lines[i])),
        split_lines(file_text(lines)).len() == lines.len(),
{
    assert forall|i: int| 0 <= i < lines.len() implies storable(trim_end(#[trigger] lines[i])) by {
        lemma_trimmed_row_is_storable(lines[i]);
    }
    lemma_round_trip_storable(lines);
}

} // verus!
