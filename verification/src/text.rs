//! Character-level helpers shared by the field parsers and the locator builders.
//!
//! Text is modelled as `Seq<char>`. Executable code works on `Vec<char>`, which
//! `to_chars` and `from_chars` convert from and to strings.

use vstd::prelude::*;

verus! {

/// `String::push` appends one character at the end of the string and leaves
/// the rest untouched.
pub assume_specification[ std::string::String::push ](s: &mut std::string::String, c: char)
    ensures
        final(s)@ == old(s)@.push(c),
;

/// The characters of `s`, in order.
pub fn to_chars(s: &str) -> (v: Vec<char>)
    ensures
        v@ == s@,
{
    let mut v: Vec<char> = Vec::new();
    for c in it: s.chars()
        invariant
            v@ == it.seq().take(it.index() as int),
            it.seq() == s@,
    {
        v.push(c);
    }
    v
}

/// The string made of the characters `v[from..to]`, in order.
pub fn from_chars(v: &Vec<char>, from: usize, to: usize) -> (s: String)
    requires
        from <= to <= v.len(),
    ensures
        s@ == v@.subrange(from as int, to as int),
{
    let mut s = String::new();
    let mut i: usize = from;
    while i < to
        invariant
            from <= i <= to <= v.len(),
            s@ == v@.subrange(from as int, i as int),
        decreases to - i,
    {
        s.push(v[i]);
        assert(v@.subrange(from as int, i + 1) == v@.subrange(from as int, i as int).push(v@[i as int]));
        i += 1;
    }
    s
}

/// An ASCII decimal digit.
pub open spec fn is_digit(c: char) -> bool {
    0x30 <= c as u32 <= 0x39
}

/// The number a digit stands for.
pub open spec fn digit_value(c: char) -> int {
    c as u32 - 0x30
}

/// Every character of `s` is an ASCII decimal digit.
pub open spec fn all_digits(s: Seq<char>) -> bool {
    forall|i: int| 0 <= i < s.len() ==> is_digit(#[trigger] s[i])
}

/// The number that the digit string `s` denotes in base ten; 0 for the empty string.
pub open spec fn decimal_value(s: Seq<char>) -> int
    decreases s.len(),
{
    if s.len() == 0 {
        0
    } else {
        decimal_value(s.drop_last()) * 10 + digit_value(s.last())
    }
}

/// The value of a non-empty digit string that does not exceed `limit`.
pub open spec fn bounded_decimal(s: Seq<char>, limit: int) -> Option<int> {
    if s.len() > 0 && all_digits(s) && decimal_value(s) <= limit {
        Some(decimal_value(s))
    } else {
        None
    }
}

/// A digit string is worth at least as much as any of its prefixes.
pub proof fn lemma_decimal_value_prefix(s: Seq<char>, k: int)
    requires
        all_digits(s),
        0 <= k <= s.len(),
    ensures
        0 <= decimal_value(s.take(k)) <= decimal_value(s),
    decreases s.len() - k,
{
    if k == s.len() {
        assert(s.take(k) == s);
        lemma_decimal_value_nonnegative(s);
    } else {
        lemma_decimal_value_prefix(s, k + 1);
        assert(s.take(k + 1).drop_last() == s.take(k));
        assert(is_digit(s[k]));
        lemma_decimal_value_nonnegative(s.take(k));
    }
}

/// A digit string never denotes a negative number.
pub proof fn lemma_decimal_value_nonnegative(s: Seq<char>)
    requires
        all_digits(s),
    ensures
        0 <= decimal_value(s),
    decreases s.len(),
{
    if s.len() > 0 {
        lemma_decimal_value_nonnegative(s.drop_last());
        assert(is_digit(s[s.len() - 1]));
    }
}

/// Whether `c` is an ASCII decimal digit.
pub fn is_digit_char(c: char) -> (b: bool)
    ensures
        b == is_digit(c),
{
    let code: u32 = c as u32;
    0x30 <= code && code <= 0x39
}

/// Reads `chars[from..to]` as a base-ten number no greater than `limit`.
pub fn parse_digits(chars: &Vec<char>, from: usize, to: usize, limit: u64) -> (r: Option<u64>)
    requires
        from <= to <= chars.len(),
    ensures
        r matches Some(v) ==> bounded_decimal(chars@.subrange(from as int, to as int), limit as int)
            == Some(v as int),
        r is None ==> bounded_decimal(chars@.subrange(from as int, to as int), limit as int)
            is None,
{
    let ghost s = chars@.subrange(from as int, to as int);
    if from == to {
        return None;
    }
    let mut acc: u128 = 0;
    let mut i: usize = from;
    while i < to
        invariant
            from <= i <= to <= chars.len(),
            s == chars@.subrange(from as int, to as int),
            all_digits(s.take(i - from)),
            acc == decimal_value(s.take(i - from)),
            acc <= limit,
        decreases to - i,
    {
        let c = chars[i];
        assert(s[i - from] == c);
        assert(s.take(i - from + 1).drop_last() == s.take(i - from));
        if !is_digit_char(c) {
            return None;
        }
        let code: u32 = c as u32;
        let d: u128 = (code - 0x30) as u128;
        acc = acc * 10 + d;
        if acc > limit as u128 {
            proof {
                if all_digits(s) {
                    lemma_decimal_value_prefix(s, i - from + 1);
                }
            }
            return None;
        }
        i += 1;
    }
    assert(s.take(to - from) == s);
    Some(acc as u64)
}

/// The position of the first `c` in `s`, or the length of `s` where there is none.
pub open spec fn first_index_of(s: Seq<char>, c: char) -> int
    decreases s.len(),
{
    if s.len() == 0 {
        0
    } else if s[0] == c {
        0
    } else {
        1 + first_index_of(s.drop_first(), c)
    }
}

/// `first_index_of` is the least position that holds `c`.
pub proof fn lemma_first_index_of(s: Seq<char>, c: char)
    ensures
        0 <= first_index_of(s, c) <= s.len(),
        forall|j: int| 0 <= j < first_index_of(s, c) ==> s[j] != c,
        first_index_of(s, c) < s.len() ==> s[first_index_of(s, c)] == c,
    decreases s.len(),
{
    if s.len() > 0 && s[0] != c {
        let rest = s.drop_first();
        lemma_first_index_of(rest, c);
        assert forall|j: int| 0 <= j < first_index_of(s, c) implies s[j] != c by {
            if j > 0 {
                assert(s[j] == rest[j - 1]);
            }
        }
    }
}

/// A position that holds `c` when nothing before it does is `first_index_of`.
pub proof fn lemma_first_index_of_unique(s: Seq<char>, c: char, k: int)
    requires
        0 <= k <= s.len(),
        forall|j: int| 0 <= j < k ==> s[j] != c,
        k < s.len() ==> s[k] == c,
    ensures
        first_index_of(s, c) == k,
{
    lemma_first_index_of(s, c);
    let f = first_index_of(s, c);
    if f < k {
        assert(s[f] != c);
    }
}

/// The first position at or after `from` that holds `c`, or the length of
/// `chars` where there is none.
pub fn find_char(chars: &Vec<char>, from: usize, c: char) -> (k: usize)
    requires
        from <= chars.len(),
    ensures
        from <= k <= chars.len(),
        k - from == first_index_of(chars@.skip(from as int), c),
{
    let mut i: usize = from;
    while i < chars.len() && chars[i] != c
        invariant
            from <= i <= chars.len(),
            forall|j: int| from <= j < i ==> chars@[j] != c,
        decreases chars.len() - i,
    {
        i += 1;
    }
    proof {
        lemma_first_index_of_unique(chars@.skip(from as int), c, i - from);
    }
    i
}

/// The test that a character differs from `c`.
pub open spec fn differs_from(c: char) -> spec_fn(char) -> bool {
    |x: char| x != c
}

/// `s` without any occurrence of `c`.
pub open spec fn without_char(s: Seq<char>, c: char) -> Seq<char> {
    s.filter(differs_from(c))
}

/// Copies `chars`, leaving out every occurrence of `c`.
pub fn strip_char(chars: &Vec<char>, c: char) -> (out: Vec<char>)
    ensures
        out@ == without_char(chars@, c),
{
    let mut out: Vec<char> = Vec::new();
    let ghost keep = differs_from(c);
    proof {
        reveal(Seq::filter);
        assert(chars@.take(0).filter(keep) == Seq::<char>::empty());
    }
    let mut i: usize = 0;
    while i < chars.len()
        invariant
            i <= chars.len(),
            keep == differs_from(c),
            out@ == chars@.take(i as int).filter(keep),
        decreases chars.len() - i,
    {
        proof {
            assert(chars@.take(i + 1) == chars@.take(i as int).push(chars@[i as int]));
            chars@.take(i as int).lemma_filter_push(chars@[i as int], keep);
        }
        if chars[i] != c {
            out.push(chars[i]);
        }
        i += 1;
    }
    assert(chars@.take(chars.len() as int) == chars@);
    out
}

/// Whether `needle` occurs in `hay` at position `at`.
pub open spec fn occurs_at(hay: Seq<char>, needle: Seq<char>, at: int) -> bool {
    0 <= at && at + needle.len() <= hay.len() && hay.subrange(at, at + needle.len()) == needle
}

/// Whether `needle` occurs somewhere in `hay`.
pub open spec fn contains_text(hay: Seq<char>, needle: Seq<char>) -> bool {
    exists|at: int| occurs_at(hay, needle, at)
}

/// Whether `needle` occurs in `hay` at position `at`.
pub fn matches_at(hay: &Vec<char>, needle: &Vec<char>, at: usize) -> (b: bool)
    ensures
        b == occurs_at(hay@, needle@, at as int),
{
    if needle.len() > hay.len() || at > hay.len() - needle.len() {
        return false;
    }
    let mut j: usize = 0;
    while j < needle.len()
        invariant
            j <= needle.len(),
            at + needle.len() <= hay.len(),
            forall|k: int| 0 <= k < j ==> hay@[at + k] == needle@[k],
        decreases needle.len() - j,
    {
        if hay[at + j] != needle[j] {
            assert(hay@.subrange(at as int, at + needle.len())[j as int] != needle@[j as int]);
            return false;
        }
        j += 1;
    }
    assert(hay@.subrange(at as int, at + needle.len()) =~= needle@);
    true
}

/// Whether `needle` occurs somewhere in `hay`.
pub fn contains(hay: &Vec<char>, needle: &Vec<char>) -> (b: bool)
    ensures
        b == contains_text(hay@, needle@),
{
    if needle.len() > hay.len() {
        assert forall|at: int| !occurs_at(hay@, needle@, at) by {}
        return false;
    }
    let last: usize = hay.len() - needle.len();
    let mut at: usize = 0;
    loop
        invariant
            at <= last,
            last == hay.len() - needle.len(),
            forall|k: int| 0 <= k < at ==> !occurs_at(hay@, needle@, k),
        decreases last - at,
    {
        if matches_at(hay, needle, at) {
            return true;
        }
        if at == last {
            assert forall|k: int| !occurs_at(hay@, needle@, k) by {}
            return false;
        }
        at += 1;
    }
}

/// Whether `s` ends with `suffix`.
pub open spec fn ends_with(s: Seq<char>, suffix: Seq<char>) -> bool {
    occurs_at(s, suffix, s.len() - suffix.len())
}

/// `s` without `suffix` at its end, where it ends with it; `s` itself otherwise.
pub open spec fn without_suffix(s: Seq<char>, suffix: Seq<char>) -> Seq<char> {
    if ends_with(s, suffix) {
        s.take(s.len() - suffix.len())
    } else {
        s
    }
}

/// The length that is left of `chars` once a trailing `suffix` is cut off.
pub fn len_without_suffix(chars: &Vec<char>, suffix: &Vec<char>) -> (n: usize)
    ensures
        n <= chars.len(),
        chars@.take(n as int) == without_suffix(chars@, suffix@),
{
    if suffix.len() <= chars.len() && matches_at(chars, suffix, chars.len() - suffix.len()) {
        chars.len() - suffix.len()
    } else {
        assert(chars@.take(chars.len() as int) == chars@);
        chars.len()
    }
}

/// The decimal digits of `n`, most significant first, without leading zeros
/// (one `0` for zero).
pub open spec fn decimal_digits(n: nat) -> Seq<char>
    decreases n,
{
    if n < 10 {
        seq![digit_char(n)]
    } else {
        decimal_digits(n / 10).push(digit_char(n % 10))
    }
}

/// The character for a digit below ten.
pub open spec fn digit_char(d: nat) -> char {
    ((d + 0x30) as u8) as char
}

/// `decimal_digits` writes a number that `decimal_value` reads back.
pub proof fn lemma_decimal_digits_round_trip(n: nat)
    ensures
        all_digits(decimal_digits(n)),
        decimal_digits(n).len() > 0,
        decimal_value(decimal_digits(n)) == n,
    decreases n,
{
    if n < 10 {
        let s = decimal_digits(n);
        assert(s.drop_last() == Seq::<char>::empty());
        assert(decimal_value(s.drop_last()) == 0);
    } else {
        lemma_decimal_digits_round_trip(n / 10);
        let s = decimal_digits(n);
        assert(s.drop_last() == decimal_digits(n / 10));
        assert forall|i: int| 0 <= i < s.len() implies is_digit(#[trigger] s[i]) by {
            if i < s.len() - 1 {
                assert(s[i] == decimal_digits(n / 10)[i]);
            }
        }
    }
}

/// Appends the decimal digits of `n` to `out`.
pub fn push_decimal(out: &mut Vec<char>, n: u64)
    ensures
        final(out)@ == old(out)@ + decimal_digits(n as nat),
    decreases n,
{
    if n >= 10 {
        push_decimal(out, n / 10);
    }
    let d: u8 = (n % 10) as u8;
    let c: char = (d + 0x30) as char;
    out.push(c);
    proof {
        if n < 10 {
            assert(old(out)@ + decimal_digits(n as nat) =~= old(out)@.push(c));
        } else {
            assert(old(out)@ + decimal_digits(n as nat) =~= (old(out)@ + decimal_digits(
                (n / 10) as nat,
            )).push(c));
        }
    }
}

/// Appends every character of `s` to `out`.
pub fn push_str(out: &mut Vec<char>, s: &str)
    ensures
        final(out)@ == old(out)@ + s@,
{
    let ghost before = out@;
    for c in it: s.chars()
        invariant
            out@ == before + it.seq().take(it.index() as int),
            it.seq() == s@,
    {
        out.push(c);
        assert(before + s@.take(it.index() + 1) =~= (before + s@.take(it.index() as int)).push(c));
    }
    assert(s@.take(s@.len() as int) == s@);
}

/// Appends every character of `more` to `out`.
pub fn push_all(out: &mut Vec<char>, more: &Vec<char>)
    ensures
        final(out)@ == old(out)@ + more@,
{
    let ghost before = out@;
    let mut i: usize = 0;
    while i < more.len()
        invariant
            i <= more.len(),
            out@ == before + more@.take(i as int),
        decreases more.len() - i,
    {
        out.push(more[i]);
        assert(before + more@.take(i + 1) =~= (before + more@.take(i as int)).push(more@[i as int]));
        i += 1;
    }
    assert(more@.take(more.len() as int) == more@);
}

/// Whether two texts are the same, character by character.
pub fn same_text(a: &str, b: &str) -> (same: bool)
    ensures
        same == (a@ == b@),
{
    let left = to_chars(a);
    let right = to_chars(b);
    let same = left.len() == right.len() && matches_at(&left, &right, 0);
    assert(same ==> left@.subrange(0, right@.len() as int) == left@);
    assert(left@ == right@ ==> left@.subrange(0, right@.len() as int) == right@);
    same
}

/// `hay` without the occurrences of `needle`, found from the left, none
/// overlapping another. An empty `needle` takes nothing out.
pub open spec fn without_text(hay: Seq<char>, needle: Seq<char>) -> Seq<char>
    decreases hay.len(),
{
    if needle.len() == 0 || hay.len() < needle.len() {
        hay
    } else if occurs_at(hay, needle, 0) {
        without_text(hay.skip(needle.len() as int), needle)
    } else {
        seq![hay[0]] + without_text(hay.skip(1), needle)
    }
}

/// Copies `hay`, leaving out every occurrence of `needle`.
pub fn strip_text(hay: &Vec<char>, needle: &Vec<char>) -> (out: Vec<char>)
    ensures
        out@ == without_text(hay@, needle@),
{
    let mut out: Vec<char> = Vec::new();
    if needle.len() == 0 {
        push_all(&mut out, hay);
        return out;
    }
    let mut i: usize = 0;
    assert(hay@.skip(0) == hay@);
    while i < hay.len()
        invariant
            i <= hay.len(),
            needle.len() > 0,
            out@ + without_text(hay@.skip(i as int), needle@) == without_text(hay@, needle@),
        decreases hay.len() - i,
    {
        let ghost rest = hay@.skip(i as int);
        if matches_at(hay, needle, i) {
            assert(occurs_at(rest, needle@, 0)) by {
                assert(rest.subrange(0, needle@.len() as int) == hay@.subrange(
                    i as int,
                    i + needle@.len(),
                ));
            }
            assert(rest.skip(needle@.len() as int) == hay@.skip(i + needle@.len()));
            i += needle.len();
        } else {
            assert(!occurs_at(rest, needle@, 0)) by {
                if rest.len() >= needle@.len() {
                    assert(rest.subrange(0, needle@.len() as int) == hay@.subrange(
                        i as int,
                        i + needle@.len(),
                    ));
                }
            }
            assert(rest.skip(1) == hay@.skip(i + 1));
            let ghost before = out@;
            let ghost tail = without_text(rest.skip(1), needle@);
            proof {
                if rest.len() < needle@.len() {
                    lemma_short_rest(rest, needle@);
                }
                assert(without_text(rest, needle@) == seq![hay@[i as int]] + tail);
            }
            out.push(hay[i]);
            assert(out@ + tail =~= before + (seq![hay@[i as int]] + tail));
            i += 1;
        }
    }
    assert(hay@.skip(hay.len() as int) == Seq::<char>::empty());
    assert(out@ + Seq::<char>::empty() == out@);
    out
}

/// A text shorter than the needle stays as it is, and so does what is left
/// of it after its first character.
pub proof fn lemma_short_rest(rest: Seq<char>, needle: Seq<char>)
    requires
        0 < rest.len() < needle.len(),
    ensures
        without_text(rest, needle) == seq![rest[0]] + without_text(rest.skip(1), needle),
{
    assert(without_text(rest.skip(1), needle) == rest.skip(1));
    assert(seq![rest[0]] + rest.skip(1) =~= rest);
}

} // verus!
