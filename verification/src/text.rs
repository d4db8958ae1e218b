//! Text as sequences of characters: conversions between strings and
//! character vectors, and the searching, cutting and trimming on which the
//! parsers and URL builders rest.

use vstd::prelude::*;
use vstd::string::*;

verus! {

/// Appends one character to a string.
///
/// Trusted: `String::push` adds `c` behind the text that `s` held.
#[verifier::external_body]
pub(crate) fn push_char(s: &mut String, c: char)
    ensures
        final(s)@ == old(s)@.push(c),
{
    s.push(c)
}

/// The characters of `s`, in order.
pub fn chars_of(s: &str) -> (out: Vec<char>)
    ensures
        out@ == s@,
{
    let mut out: Vec<char> = Vec::new();
    for c in it: s.chars()
        invariant
            out@ == it.seq().take(it.index() as int),
            it.seq() == s@,
    {
        out.push(c);
    }
    out
}

/// The string that holds exactly the characters of `chars`.
pub fn string_of(chars: &Vec<char>) -> (out: String)
    ensures
        out@ == chars@,
{
    let mut out = String::new();
    let mut i: usize = 0;
    while i < chars.len()
        invariant
            i <= chars.len(),
            out@ == chars@.take(i as int),
        decreases chars.len() - i,
    {
        push_char(&mut out, chars[i]);
        i += 1;
    }
    out
}

/// Whether `pat` stands in `s` at position `i`.
pub open spec fn matches_at(s: Seq<char>, pat: Seq<char>, i: int) -> bool {
    0 <= i && i + pat.len() <= s.len() && s.subrange(i, i + pat.len()) == pat
}

/// Whether `pat` occurs somewhere in `s`.
pub open spec fn occurs_in(pat: Seq<char>, s: Seq<char>) -> bool {
    exists|i: int| matches_at(s, pat, i)
}

/// Whether `i` is the first position at or after `from` where `pat` stands
/// in `s`.
pub open spec fn is_first_match(s: Seq<char>, pat: Seq<char>, from: int, i: int) -> bool {
    from <= i && matches_at(s, pat, i) && forall|j: int| from <= j < i ==> !matches_at(s, pat, j)
}

/// Whether `pat` stands in `s` at position `i`.
pub fn starts_with_at(s: &Vec<char>, pat: &Vec<char>, i: usize) -> (hit: bool)
    ensures
        hit == matches_at(s@, pat@, i as int),
{
    if i > s.len() || pat.len() > s.len() - i {
        return false;
    }
    let mut k: usize = 0;
    while k < pat.len()
        invariant
            k <= pat.len(),
            i + pat.len() <= s.len(),
            s@.subrange(i as int, i + k) == pat@.take(k as int),
        decreases pat.len() - k,
    {
        if s[i + k] != pat[k] {
            return false;
        }
        k += 1;
    }
    proof {
        assert(pat@.take(pat.len() as int) == pat@);
    }
    true
}

/// The first position at or after `from` where `pat` stands in `s`.
pub fn find_from(s: &Vec<char>, pat: &Vec<char>, from: usize) -> (found: Option<usize>)
    ensures
        match found {
            Some(i) => is_first_match(s@, pat@, from as int, i as int),
            None => forall|j: int| from <= j ==> !matches_at(s@, pat@, j),
        },
{
    if from > s.len() || pat.len() > s.len() - from {
        return None;
    }
    let last: usize = s.len() - pat.len();
    let mut i: usize = from;
    loop
        invariant
            from <= i <= last,
            last == s.len() - pat.len(),
            forall|j: int| from <= j < i ==> !matches_at(s@, pat@, j),
        decreases last - i,
    {
        if starts_with_at(s, pat, i) {
            return Some(i);
        }
        if i == last {
            return None;
        }
        i += 1;
    }
}

/// Whether `pat` occurs somewhere in `s`.
pub fn contains(s: &Vec<char>, pat: &Vec<char>) -> (hit: bool)
    ensures
        hit == occurs_in(pat@, s@),
{
    find_from(s, pat, 0).is_some()
}

/// Appends the characters of `more` to `out`.
pub fn append(out: &mut Vec<char>, more: &Vec<char>)
    ensures
        final(out)@ == old(out)@ + more@,
{
    let mut k: usize = 0;
    while k < more.len()
        invariant
            k <= more.len(),
            out@ == old(out)@ + more@.take(k as int),
        decreases more.len() - k,
    {
        out.push(more[k]);
        k += 1;
    }
}

/// The characters of `s` from position `from` up to, not including, `to`.
pub fn slice_of(s: &Vec<char>, from: usize, to: usize) -> (out: Vec<char>)
    requires
        from <= to <= s.len(),
    ensures
        out@ == s@.subrange(from as int, to as int),
{
    let mut out: Vec<char> = Vec::new();
    let mut i: usize = from;
    while i < to
        invariant
            from <= i <= to <= s.len(),
            out@ == s@.subrange(from as int, i as int),
        decreases to - i,
    {
        out.push(s[i]);
        i += 1;
    }
    out
}

/// `s` with every occurrence of `pat` replaced by `with`. Occurrences are
/// found from the left and do not overlap; an empty pattern occurs nowhere.
pub open spec fn replaced(s: Seq<char>, pat: Seq<char>, with: Seq<char>) -> Seq<char>
    decreases s.len(),
{
    if pat.len() == 0 || s.len() < pat.len() {
        s
    } else if matches_at(s, pat, 0) {
        with + replaced(s.skip(pat.len() as int), pat, with)
    } else {
        seq![s[0]] + replaced(s.skip(1), pat, with)
    }
}

/// `s` with every occurrence of `pat` replaced by `with`.
pub fn replace_all(s: &Vec<char>, pat: &Vec<char>, with: &Vec<char>) -> (out: Vec<char>)
    ensures
        out@ == replaced(s@, pat@, with@),
{
    let mut out: Vec<char> = Vec::new();
    if pat.len() == 0 {
        append(&mut out, s);
        return out;
    }
    let mut i: usize = 0;
    proof {
        assert(s@.skip(0) == s@);
    }
    while i < s.len()
        invariant
            i <= s.len(),
            pat.len() > 0,
            out@ + replaced(s@.skip(i as int), pat@, with@) == replaced(s@, pat@, with@),
        decreases s.len() - i,
    {
        let ghost rest = s@.skip(i as int);
        proof {
            assert(matches_at(rest, pat@, 0) == matches_at(s@, pat@, i as int)) by {
                if i + pat.len() <= s.len() {
                    assert(rest.subrange(0, pat.len() as int) =~= s@.subrange(
                        i as int,
                        i + pat.len(),
                    ));
                }
            }
        }
        if starts_with_at(s, pat, i) {
            append(&mut out, with);
            proof {
                assert(rest.skip(pat.len() as int) == s@.skip(i + pat.len()));
            }
            i += pat.len();
        } else {
            out.push(s[i]);
            proof {
                assert(rest.skip(1) == s@.skip(i + 1));
            }
            i += 1;
        }
    }
    out
}

/// The pieces into which the occurrences of `pat` cut `head + s`, where
/// `head` is known to hold no occurrence that ends inside it.
pub open spec fn pieces_after(head: Seq<char>, s: Seq<char>, pat: Seq<char>) -> Seq<Seq<char>>
    decreases s.len(),
{
    if pat.len() > 0 && matches_at(s, pat, 0) {
        seq![head] + pieces_after(Seq::empty(), s.skip(pat.len() as int), pat)
    } else if s.len() == 0 {
        seq![head]
    } else {
        pieces_after(head.push(s[0]), s.skip(1), pat)
    }
}

/// The pieces into which the occurrences of `pat` cut `s`: one more piece
/// than there are occurrences, found from the left and not overlapping.
/// An empty pattern occurs nowhere.
pub open spec fn pieces(s: Seq<char>, pat: Seq<char>) -> Seq<Seq<char>> {
    pieces_after(Seq::empty(), s, pat)
}

/// The character sequences that the vectors of `v` hold.
pub open spec fn texts(v: Seq<Vec<char>>) -> Seq<Seq<char>> {
    Seq::new(v.len(), |i: int| v[i]@)
}

/// The pieces into which the occurrences of `pat` cut `s`.
pub fn split(s: &Vec<char>, pat: &Vec<char>) -> (out: Vec<Vec<char>>)
    ensures
        texts(out@) == pieces(s@, pat@),
        out.len() >= 1,
{
    let mut out: Vec<Vec<char>> = Vec::new();
    let mut head: Vec<char> = Vec::new();
    let mut i: usize = 0;
    proof {
        assert(s@.skip(0) == s@);
    }
    while i < s.len()
        invariant
            i <= s.len(),
            texts(out@) + pieces_after(head@, s@.skip(i as int), pat@) == pieces(s@, pat@),
        decreases s.len() - i,
    {
        let ghost rest = s@.skip(i as int);
        proof {
            assert(matches_at(rest, pat@, 0) == matches_at(s@, pat@, i as int)) by {
                if i + pat.len() <= s.len() {
                    assert(rest.subrange(0, pat.len() as int) =~= s@.subrange(
                        i as int,
                        i + pat.len(),
                    ));
                }
            }
        }
        if pat.len() > 0 && starts_with_at(s, pat, i) {
            out.push(head);
            head = Vec::new();
            proof {
                assert(rest.skip(pat.len() as int) == s@.skip(i + pat.len()));
            }
            i += pat.len();
        } else {
            head.push(s[i]);
            proof {
                assert(rest.skip(1) == s@.skip(i + 1));
            }
            i += 1;
        }
    }
    out.push(head);
    out
}

/// `s` without every copy of `pat` at its front. An empty pattern removes
/// nothing.
pub open spec fn without_leading(s: Seq<char>, pat: Seq<char>) -> Seq<char>
    decreases s.len(),
{
    if pat.len() > 0 && matches_at(s, pat, 0) {
        without_leading(s.skip(pat.len() as int), pat)
    } else {
        s
    }
}

/// `s` without every copy of `pat` at its end. An empty pattern removes
/// nothing.
pub open spec fn without_trailing(s: Seq<char>, pat: Seq<char>) -> Seq<char>
    decreases s.len(),
{
    if pat.len() > 0 && matches_at(s, pat, s.len() - pat.len()) {
        without_trailing(s.take(s.len() - pat.len()), pat)
    } else {
        s
    }
}

/// `s` without every copy of `pat` at its front.
pub fn trim_leading(s: &Vec<char>, pat: &Vec<char>) -> (out: Vec<char>)
    ensures
        out@ == without_leading(s@, pat@),
{
    let mut i: usize = 0;
    proof {
        assert(s@.skip(0) == s@);
    }
    while pat.len() > 0 && starts_with_at(s, pat, i)
        invariant
            i <= s.len(),
            without_leading(s@.skip(i as int), pat@) == without_leading(s@, pat@),
        decreases s.len() - i,
    {
        proof {
            let rest = s@.skip(i as int);
            assert(rest.subrange(0, pat.len() as int) =~= s@.subrange(i as int, i + pat.len()));
            assert(rest.skip(pat.len() as int) == s@.skip(i + pat.len()));
        }
        i += pat.len();
    }
    proof {
        let rest = s@.skip(i as int);
        if pat.len() > 0 && i + pat.len() <= s.len() {
            assert(rest.subrange(0, pat.len() as int) =~= s@.subrange(i as int, i + pat.len()));
        }
    }
    slice_of(s, i, s.len())
}

/// `s` without every copy of `pat` at its end.
pub fn trim_trailing(s: &Vec<char>, pat: &Vec<char>) -> (out: Vec<char>)
    ensures
        out@ == without_trailing(s@, pat@),
{
    let mut end: usize = s.len();
    proof {
        assert(s@.take(end as int) == s@);
    }
    while pat.len() > 0 && end >= pat.len() && starts_with_at(s, pat, end - pat.len())
        invariant
            end <= s.len(),
            without_trailing(s@.take(end as int), pat@) == without_trailing(s@, pat@),
        decreases end,
    {
        proof {
            let front = s@.take(end as int);
            assert(front.subrange(end - pat.len(), end as int) =~= s@.subrange(
                end - pat.len(),
                end as int,
            ));
            assert(front.take(end - pat.len()) == s@.take(end - pat.len()));
        }
        end -= pat.len();
    }
    proof {
        let front = s@.take(end as int);
        if pat.len() > 0 && end >= pat.len() {
            assert(front.subrange(end - pat.len(), end as int) =~= s@.subrange(
                end - pat.len(),
                end as int,
            ));
        }
    }
    slice_of(s, 0, end)
}

/// Whether `c` is white space: the characters that Unicode gives the
/// property `White_Space`.
pub open spec fn is_space(c: char) -> bool {
    let n = c as u32;
    (0x9 <= n <= 0xd) || n == 0x20 || n == 0x85 || n == 0xa0 || n == 0x1680 || (0x2000 <= n
        <= 0x200a) || n == 0x2028 || n == 0x2029 || n == 0x202f || n == 0x205f || n == 0x3000
}

/// Whether `c` is white space.
pub fn is_whitespace(c: char) -> (space: bool)
    ensures
        space == is_space(c),
{
    let n: u32 = c as u32;
    (0x9 <= n && n <= 0xd) || n == 0x20 || n == 0x85 || n == 0xa0 || n == 0x1680 || (0x2000 <= n
        && n <= 0x200a) || n == 0x2028 || n == 0x2029 || n == 0x202f || n == 0x205f || n == 0x3000
}

/// How many characters of white space stand at the front of `s`.
pub open spec fn leading_spaces(s: Seq<char>) -> nat
    decreases s.len(),
{
    if s.len() > 0 && is_space(s[0]) {
        1 + leading_spaces(s.skip(1))
    } else {
        0
    }
}

/// How many characters of white space stand at the end of `s`.
pub open spec fn trailing_spaces(s: Seq<char>) -> nat
    decreases s.len(),
{
    if s.len() > 0 && is_space(s.last()) {
        1 + trailing_spaces(s.drop_last())
    } else {
        0
    }
}

/// `s` without the white space at its front and at its end.
pub open spec fn trimmed(s: Seq<char>) -> Seq<char> {
    let rest = s.skip(leading_spaces(s) as int);
    rest.take(rest.len() - trailing_spaces(rest))
}

/// `s` without the white space at its front and at its end.
pub fn trim(s: &Vec<char>) -> (out: Vec<char>)
    ensures
        out@ == trimmed(s@),
{
    let mut start: usize = 0;
    proof {
        assert(s@.skip(0) == s@);
    }
    while start < s.len() && is_whitespace(s[start])
        invariant
            start <= s.len(),
            start + leading_spaces(s@.skip(start as int)) == leading_spaces(s@),
        decreases s.len() - start,
    {
        proof {
            assert(s@.skip(start as int).skip(1) == s@.skip(start + 1));
        }
        start += 1;
    }
    let ghost rest = s@.skip(start as int);
    let mut end: usize = s.len();
    proof {
        assert(rest.take(rest.len() as int) == rest);
    }
    while end > start && is_whitespace(s[end - 1])
        invariant
            start <= end <= s.len(),
            rest == s@.skip(start as int),
            (s.len() - end) + trailing_spaces(rest.take(end - start)) == trailing_spaces(rest),
        decreases end,
    {
        proof {
            let front = rest.take(end - start);
            assert(front.drop_last() == rest.take(end - start - 1));
        }
        end -= 1;
    }
    slice_of(s, start, end)
}

/// The words of `head + s`, where `head` holds no white space and is the
/// word that is being read.
pub open spec fn words_after(head: Seq<char>, s: Seq<char>) -> Seq<Seq<char>>
    decreases s.len(),
{
    let closed = if head.len() > 0 {
        seq![head]
    } else {
        Seq::empty()
    };
    if s.len() == 0 {
        closed
    } else if is_space(s[0]) {
        closed + words_after(Seq::empty(), s.skip(1))
    } else {
        words_after(head.push(s[0]), s.skip(1))
    }
}

/// The words of `s`: its longest stretches without white space, in order.
pub open spec fn words(s: Seq<char>) -> Seq<Seq<char>> {
    words_after(Seq::empty(), s)
}

/// The words of `s`.
pub fn split_whitespace(s: &Vec<char>) -> (out: Vec<Vec<char>>)
    ensures
        texts(out@) == words(s@),
{
    let mut out: Vec<Vec<char>> = Vec::new();
    let mut head: Vec<char> = Vec::new();
    let mut i: usize = 0;
    proof {
        assert(s@.skip(0) == s@);
    }
    while i < s.len()
        invariant
            i <= s.len(),
            texts(out@) + words_after(head@, s@.skip(i as int)) == words(s@),
        decreases s.len() - i,
    {
        let ghost rest = s@.skip(i as int);
        proof {
            assert(rest.skip(1) == s@.skip(i + 1));
        }
        if is_whitespace(s[i]) {
            if head.len() > 0 {
                out.push(head);
                head = Vec::new();
            } else {
                proof {
                    assert(head@ == Seq::<char>::empty());
                }
            }
        } else {
            head.push(s[i]);
        }
        i += 1;
    }
    if head.len() > 0 {
        out.push(head);
    }
    out
}

/// The texts of `parts` in a row, with `sep` between each two.
pub open spec fn joined(parts: Seq<Seq<char>>, sep: Seq<char>) -> Seq<char>
    decreases parts.len(),
{
    if parts.len() == 0 {
        Seq::empty()
    } else if parts.len() == 1 {
        parts[0]
    } else {
        joined(parts.drop_last(), sep) + sep + parts.last()
    }
}

/// The texts of `parts` in a row, with `sep` between each two.
pub fn join(parts: &Vec<Vec<char>>, sep: &Vec<char>) -> (out: Vec<char>)
    ensures
        out@ == joined(texts(parts@), sep@),
{
    let mut out: Vec<char> = Vec::new();
    let mut i: usize = 0;
    while i < parts.len()
        invariant
            i <= parts.len(),
            out@ == joined(texts(parts@).take(i as int), sep@),
        decreases parts.len() - i,
    {
        proof {
            let next = texts(parts@).take(i + 1);
            assert(next.drop_last() == texts(parts@).take(i as int));
        }
        if i > 0 {
            append(&mut out, sep);
        }
        append(&mut out, &parts[i]);
        i += 1;
    }
    proof {
        assert(texts(parts@).take(parts.len() as int) == texts(parts@));
    }
    out
}

/// Whether two texts hold the same characters.
pub fn same(a: &Vec<char>, b: &Vec<char>) -> (eq: bool)
    ensures
        eq == (a@ == b@),
{
    if a.len() != b.len() {
        return false;
    }
    let hit = starts_with_at(a, b, 0);
    proof {
        assert(a@.subrange(0, a.len() as int) == a@);
    }
    hit
}

/// Whether `s` holds exactly the characters of `word`.
pub fn is_text(s: &Vec<char>, word: &str) -> (eq: bool)
    ensures
        eq == (s@ == word@),
{
    let other = chars_of(word);
    same(s, &other)
}

/// `a` followed by `b`.
pub fn chain(a: &str, b: &str) -> (out: String)
    ensures
        out@ == a@ + b@,
{
    let mut out = a.to_owned();
    out.append(b);
    out
}

/// The lower-case letter of an upper-case letter of the Latin alphabet
/// without accents; any other character is left as it is.
pub open spec fn ascii_lower(c: char) -> char {
    if 0x41 <= c as u32 <= 0x5a {
        ((c as u32 + 0x20) as u8) as char
    } else {
        c
    }
}

/// `s` with each of its characters passed through `ascii_lower`.
pub open spec fn ascii_lowered(s: Seq<char>) -> Seq<char> {
    Seq::new(s.len(), |i: int| ascii_lower(s[i]))
}

/// The lower-case letter of an upper-case ASCII letter; any other character
/// as it is.
pub fn to_ascii_lower(c: char) -> (out: char)
    ensures
        out == ascii_lower(c),
{
    let n: u32 = c as u32;
    if 0x41 <= n && n <= 0x5a {
        ((n + 0x20) as u8) as char
    } else {
        c
    }
}

/// Whether `a` and `b` are the same text once upper-case ASCII letters are
/// read as lower-case ones.
pub fn same_ignoring_ascii_case(a: &Vec<char>, b: &Vec<char>) -> (eq: bool)
    ensures
        eq == (ascii_lowered(a@) == ascii_lowered(b@)),
{
    if a.len() != b.len() {
        proof {
            assert(ascii_lowered(a@).len() != ascii_lowered(b@).len());
        }
        return false;
    }
    let mut i: usize = 0;
    while i < a.len()
        invariant
            i <= a.len(),
            a.len() == b.len(),
            forall|j: int| 0 <= j < i ==> ascii_lower(a@[j]) == ascii_lower(b@[j]),
        decreases a.len() - i,
    {
        if to_ascii_lower(a[i]) != to_ascii_lower(b[i]) {
            proof {
                assert(ascii_lowered(a@)[i as int] != ascii_lowered(b@)[i as int]);
            }
            return false;
        }
        i += 1;
    }
    proof {
        assert(ascii_lowered(a@) =~= ascii_lowered(b@));
    }
    true
}

/// The lower-case form of a text under Unicode's rules.
pub uninterp spec fn lowercase(s: Seq<char>) -> Seq<char>;

/// The lower-case form of `s`.
///
/// Trusted: `str::to_lowercase` depends on the text alone; its result is
/// named, not described.
#[verifier::external_body]
pub(crate) fn to_lowercase(s: &str) -> (out: String)
    ensures
        out@ == lowercase(s@),
{
    s.to_lowercase()
}

/// Whether Unicode counts a character as a letter or a number.
pub uninterp spec fn alphanumeric(c: char) -> bool;

/// Whether `c` is a letter or a number.
///
/// Trusted: `char::is_alphanumeric` depends on the character alone; its
/// result is named, not described.
#[verifier::external_body]
pub(crate) fn is_alphanumeric(c: char) -> (yes: bool)
    ensures
        yes == alphanumeric(c),
{
    c.is_alphanumeric()
}

} // verus!
