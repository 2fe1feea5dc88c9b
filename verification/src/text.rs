//! Character-level text helpers shared by the request parser and the labels.
//!
//! Strings are handled as sequences of `char`s: `s@` for a `&str` or `String`.
use vstd::prelude::*;

verus! {

broadcast use vstd::string::group_string_axioms;

/// The characters of `s`, in order.
pub fn chars_of(s: &str) -> (out: Vec<char>)
    ensures
        out@ == s@,
{
    let mut out: Vec<char> = Vec::new();
    for c in it: s.chars()
        invariant
            out@ == it.seq().take(it.index() as int),
    {
        out.push(c);
    }
    out
}

/// Collects characters into an owned string (`FromIterator<&char>` for `String`):
/// the string holds exactly the given characters, in order.
#[verifier::external_body]
pub(crate) fn string_from_chars(cs: &[char]) -> (s: String)
    ensures
        s@ == cs@,
{
    cs.iter().collect::<String>()
}

/// Whether two strings hold the same characters.
pub(crate) fn same_text(a: &str, b: &str) -> (r: bool)
    ensures
        r == (a@ == b@),
{
    let x = chars_of(a);
    let y = chars_of(b);
    if x.len() != y.len() {
        return false;
    }
    assert(x@.subrange(0, x.len() as int) =~= x@);
    range_eq(&x, 0, x.len(), &y)
}

/// Membership in Unicode's `White_Space` property, which is what `char::is_whitespace`
/// tests.
pub open spec fn is_unicode_whitespace(c: char) -> bool {
    let u = c as u32;
    ||| 0x09 <= u <= 0x0d
    ||| u == 0x20
    ||| u == 0x85
    ||| u == 0xa0
    ||| u == 0x1680
    ||| 0x2000 <= u <= 0x200a
    ||| u == 0x2028
    ||| u == 0x2029
    ||| u == 0x202f
    ||| u == 0x205f
    ||| u == 0x3000
}

pub fn is_whitespace_char(c: char) -> (r: bool)
    ensures
        r == is_unicode_whitespace(c),
{
    let u = c as u32;
    (0x09 <= u && u <= 0x0d) || u == 0x20 || u == 0x85 || u == 0xa0 || u == 0x1680 || (0x2000
        <= u && u <= 0x200a) || u == 0x2028 || u == 0x2029 || u == 0x202f || u == 0x205f || u
        == 0x3000
}

/// ASCII case folding of one character, as a code point: `A`..`Z` map to `a`..`z`.
pub open spec fn ascii_fold(c: char) -> u32 {
    let u = c as u32;
    if 0x41 <= u <= 0x5a {
        (u + 0x20) as u32
    } else {
        u
    }
}

/// `str::eq_ignore_ascii_case`: same length and equal after ASCII case folding.
pub open spec fn eq_ignore_ascii_case(a: Seq<char>, b: Seq<char>) -> bool {
    &&& a.len() == b.len()
    &&& forall|i: int| 0 <= i < a.len() ==> ascii_fold(#[trigger] a[i]) == ascii_fold(b[i])
}

fn ascii_fold_char(c: char) -> (r: u32)
    ensures
        r == ascii_fold(c),
{
    let u = c as u32;
    if 0x41 <= u && u <= 0x5a {
        u + 0x20
    } else {
        u
    }
}

/// Compares `a[start..end]` with `b`, ignoring ASCII case.
pub fn range_eq_ignore_ascii_case(a: &Vec<char>, start: usize, end: usize, b: &Vec<char>) -> (r:
    bool)
    requires
        start <= end <= a.len(),
    ensures
        r == eq_ignore_ascii_case(a@.subrange(start as int, end as int), b@),
{
    if end - start != b.len() {
        return false;
    }
    let mut i: usize = 0;
    while i < b.len()
        invariant
            end - start == b.len(),
            start <= end <= a.len(),
            i <= b.len(),
            forall|j: int|
                0 <= j < i ==> ascii_fold(#[trigger] a@[start + j]) == ascii_fold(b@[j]),
        decreases b.len() - i,
    {
        if ascii_fold_char(a[start + i]) != ascii_fold_char(b[i]) {
            assert(a@.subrange(start as int, end as int)[i as int] == a@[start + i]);
            return false;
        }
        i = i + 1;
    }
    assert forall|j: int| 0 <= j < b.len() implies ascii_fold(
        #[trigger] a@.subrange(start as int, end as int)[j],
    ) == ascii_fold(b@[j]) by {
        assert(a@.subrange(start as int, end as int)[j] == a@[start + j]);
    }
    true
}

/// Compares `a[start..end]` with `b` exactly.
pub fn range_eq(a: &Vec<char>, start: usize, end: usize, b: &Vec<char>) -> (r: bool)
    requires
        start <= end <= a.len(),
    ensures
        r == (a@.subrange(start as int, end as int) == b@),
{
    if end - start != b.len() {
        return false;
    }
    let mut i: usize = 0;
    while i < b.len()
        invariant
            end - start == b.len(),
            start <= end <= a.len(),
            i <= b.len(),
            forall|j: int| 0 <= j < i ==> #[trigger] a@[start + j] == b@[j],
        decreases b.len() - i,
    {
        if a[start + i] != b[i] {
            assert(a@.subrange(start as int, end as int)[i as int] == a@[start + i]);
            return false;
        }
        i = i + 1;
    }
    assert forall|j: int| 0 <= j < b.len() implies #[trigger] a@.subrange(
        start as int,
        end as int,
    )[j] == b@[j] by {
        assert(a@.subrange(start as int, end as int)[j] == a@[start + j]);
    }
    assert(a@.subrange(start as int, end as int) =~= b@);
    true
}

/// Whether `s` begins with `prefix`.
pub open spec fn has_prefix(s: Seq<char>, prefix: Seq<char>) -> bool {
    prefix.len() <= s.len() && s.subrange(0, prefix.len() as int) == prefix
}

/// The index of the last occurrence of `c` in `s`, or -1.
pub open spec fn last_index_of(s: Seq<char>, c: char) -> int
    decreases s.len(),
{
    if s.len() == 0 {
        -1
    } else if s.last() == c {
        s.len() - 1
    } else {
        last_index_of(s.drop_last(), c)
    }
}

pub proof fn lemma_last_index_of(s: Seq<char>, c: char)
    ensures
        -1 <= last_index_of(s, c) < s.len(),
        last_index_of(s, c) >= 0 ==> s[last_index_of(s, c)] == c,
        forall|j: int| last_index_of(s, c) < j < s.len() ==> s[j] != c,
    decreases s.len(),
{
    if s.len() > 0 && s.last() != c {
        lemma_last_index_of(s.drop_last(), c);
        assert forall|j: int| last_index_of(s, c) < j < s.len() implies s[j] != c by {
            if j < s.len() - 1 {
                assert(s[j] == s.drop_last()[j]);
            }
        }
    }
}

/// The last occurrence of `c` in `cs[..end]`.
pub fn find_last(cs: &Vec<char>, end: usize, c: char) -> (r: Option<usize>)
    requires
        end <= cs.len(),
    ensures
        match r {
            None => last_index_of(cs@.take(end as int), c) == -1,
            Some(k) => k as int == last_index_of(cs@.take(end as int), c) && k < end,
        },
{
    let mut j = end;
    while j > 0
        invariant
            j <= end <= cs.len(),
            last_index_of(cs@.take(end as int), c) == last_index_of(cs@.take(j as int), c),
        decreases j,
    {
        assert(cs@.take(j as int).last() == cs@[j - 1]);
        if cs[j - 1] == c {
            return Some(j - 1);
        }
        assert(cs@.take(j as int).drop_last() =~= cs@.take(j - 1));
        j = j - 1;
    }
    None
}

/// The index of the first occurrence of `c` at or after `i`, or `s.len()`.
pub open spec fn next_index_of(s: Seq<char>, i: int, c: char) -> int
    decreases s.len() - i,
{
    if i >= s.len() {
        s.len() as int
    } else if s[i] == c {
        i
    } else {
        next_index_of(s, i + 1, c)
    }
}

pub proof fn lemma_next_index_of(s: Seq<char>, i: int, c: char)
    requires
        0 <= i <= s.len(),
    ensures
        i <= next_index_of(s, i, c) <= s.len(),
        next_index_of(s, i, c) < s.len() ==> s[next_index_of(s, i, c)] == c,
        forall|j: int| i <= j < next_index_of(s, i, c) ==> s[j] != c,
    decreases s.len() - i,
{
    if i < s.len() && s[i] != c {
        lemma_next_index_of(s, i + 1, c);
    }
}

/// The first occurrence of `c` in `cs[start..end]`, or `end`.
pub fn find_next(cs: &Vec<char>, start: usize, end: usize, c: char) -> (r: usize)
    requires
        start <= end <= cs.len(),
    ensures
        r == next_index_of(cs@.take(end as int), start as int, c),
        start <= r <= end,
{
    let ghost s = cs@.take(end as int);
    let mut i = start;
    proof {
        lemma_next_index_of(s, start as int, c);
    }
    while i < end
        invariant
            start <= i <= end <= cs.len(),
            s == cs@.take(end as int),
            next_index_of(s, start as int, c) == next_index_of(s, i as int, c),
        decreases end - i,
    {
        if cs[i] == c {
            return i;
        }
        i = i + 1;
    }
    i
}

/// Whether `c` occurs in `s`.
pub fn contains_char(cs: &Vec<char>, c: char) -> (r: bool)
    ensures
        r == cs@.contains(c),
{
    let mut i: usize = 0;
    while i < cs.len()
        invariant
            i <= cs.len(),
            forall|j: int| 0 <= j < i ==> cs@[j] != c,
        decreases cs.len() - i,
    {
        if cs[i] == c {
            return true;
        }
        i = i + 1;
    }
    false
}

/// The decimal digit of `d`.
pub open spec fn digit_char(d: nat) -> char {
    ((48 + d) as u8) as char
}

/// The decimal notation of `n`, without leading zeros.
pub open spec fn decimal(n: nat) -> Seq<char>
    decreases n,
{
    if n < 10 {
        seq![digit_char(n)]
    } else {
        decimal(n / 10).push(digit_char(n % 10))
    }
}

fn push_decimal(out: &mut Vec<char>, n: u64)
    ensures
        final(out)@ == old(out)@ + decimal(n as nat),
    decreases n,
{
    if n >= 10 {
        push_decimal(out, n / 10);
    }
    let d = (n % 10) as u8;
    out.push((48 + d) as char);
    assert(final(out)@ =~= old(out)@ + decimal(n as nat));
}

/// The decimal notation of `n` as text.
pub fn decimal_string(n: u64) -> (s: String)
    ensures
        s@ == decimal(n as nat),
{
    let mut digits: Vec<char> = Vec::new();
    push_decimal(&mut digits, n);
    assert(digits@ =~= decimal(n as nat));
    string_from_chars(digits.as_slice())
}

/// The number that a string of decimal digits denotes.
pub open spec fn digits_value(s: Seq<char>) -> int
    decreases s.len(),
{
    if s.len() == 0 {
        0
    } else {
        digits_value(s.drop_last()) * 10 + (s.last() as u32 - 48)
    }
}

/// The decimal notation of a number consists of digits and reads back as that
/// number.
pub proof fn law_decimal_reads_back(n: nat)
    ensures
        forall|i: int| 0 <= i < decimal(n).len() ==> '0' <= #[trigger] decimal(n)[i] <= '9',
        digits_value(decimal(n)) == n,
    decreases n,
{
    let d = n % 10;
    assert(digit_char(d) as u32 == 48 + d);
    if n >= 10 {
        law_decimal_reads_back(n / 10);
        assert(decimal(n).drop_last() =~= decimal(n / 10));
        assert forall|i: int| 0 <= i < decimal(n).len() implies '0' <= #[trigger] decimal(n)[i]
            <= '9' by {
            if i < decimal(n).len() - 1 {
                assert(decimal(n)[i] == decimal(n / 10)[i]);
            }
        }
        assert(n == (n / 10) * 10 + n % 10);
        assert(decimal(n).last() == digit_char(d));
        assert(digits_value(decimal(n)) == digits_value(decimal(n / 10)) * 10 + (digit_char(d) as u32
            - 48));
    } else {
        assert(decimal(n).drop_last() =~= Seq::<char>::empty());
        assert(decimal(n).last() == digit_char(d));
        assert(digits_value(decimal(n)) == digits_value(decimal(n).drop_last()) * 10 + (
        decimal(n).last() as u32 - 48));
        assert(d == n);
    }
}

} // verus!
