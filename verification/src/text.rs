//! Character-level helpers for the strings that travel through the bot.
//!
//! Every contract here is stated over `Seq<char>`, the view of `str` and
//! `String`; the executable functions work on `Vec<char>` where they need
//! random access.

use vstd::prelude::*;

verus! {

/// `String::push` appends exactly one character to the end of the string.
pub assume_specification[ String::push ](s: &mut String, c: char)
    ensures
        final(s)@ == old(s)@.push(c),
;

/// The characters of `s`, one element per Unicode scalar value.
pub fn chars_of(s: &str) -> (out: Vec<char>)
    ensures
        out@ == s@,
{
    let mut out: Vec<char> = Vec::new();
    for c in it: s.chars()
        invariant
            out@ == it.seq().take(it.index()),
            it.seq() == s@,
    {
        out.push(c);
        assert(it.seq().take(it.index() + 1) =~= it.seq().take(it.index()).push(c));
    }
    assert(out@ =~= s@);
    out
}

/// The string spelled by `chars[from..to]`.
pub fn string_of(chars: &Vec<char>, from: usize, to: usize) -> (out: String)
    requires
        from <= to <= chars.len(),
    ensures
        out@ == chars@.subrange(from as int, to as int),
{
    let mut out = String::new();
    let mut i: usize = from;
    while i < to
        invariant
            from <= i <= to <= chars.len(),
            out@ == chars@.subrange(from as int, i as int),
        decreases to - i,
    {
        out.push(chars[i]);
        assert(chars@.subrange(from as int, i + 1) =~= chars@.subrange(from as int, i as int).push(
            chars@[i as int],
        ));
        i += 1;
    }
    out
}

/// `needle` stands in `hay` starting at position `at`.
pub open spec fn occurs_at(hay: Seq<char>, needle: Seq<char>, at: int) -> bool {
    &&& 0 <= at
    &&& at + needle.len() <= hay.len()
    &&& hay.subrange(at, at + needle.len()) == needle
}

/// Tests one candidate position of `needle` in `hay`.
pub fn matches_at(hay: &Vec<char>, needle: &Vec<char>, at: usize) -> (found: bool)
    requires
        at + needle.len() <= hay.len(),
    ensures
        found == occurs_at(hay@, needle@, at as int),
{
    let mut j: usize = 0;
    while j < needle.len()
        invariant
            j <= needle.len(),
            at + needle.len() <= hay.len(),
            forall|k: int| 0 <= k < j ==> hay@[at + k] == needle@[k],
        decreases needle.len() - j,
    {
        if hay[at + j] != needle[j] {
            assert(hay@.subrange(at as int, at + needle.len())[j as int] != needle@[j as int]);
            return false;
        }
        j += 1;
    }
    assert(hay@.subrange(at as int, at + needle.len()) =~= needle@);
    true
}

/// Position of the first `c` in `s`, or the length of `s` where it has none.
pub open spec fn position(s: Seq<char>, c: char) -> int {
    match s.index_of_first(c) {
        Some(i) => i,
        None => s.len() as int,
    }
}

/// What `position` picks: nothing before it is `c`, and it is `c` unless it
/// is the end.
pub proof fn lemma_position(s: Seq<char>, c: char)
    ensures
        0 <= position(s, c) <= s.len(),
        forall|j: int| 0 <= j < position(s, c) ==> s[j] != c,
        position(s, c) < s.len() ==> s[position(s, c)] == c,
{
    s.index_of_first_ensures(c);
    if s.index_of_first(c) is None {
        assert forall|j: int| 0 <= j < s.len() implies s[j] != c by {
            if s[j] == c {
                assert(s.contains(c));
            }
        }
    }
}

/// `position` is the only index with the two properties of `lemma_position`.
pub proof fn lemma_position_is(s: Seq<char>, c: char, p: int)
    requires
        0 <= p <= s.len(),
        forall|j: int| 0 <= j < p ==> s[j] != c,
        p < s.len() ==> s[p] == c,
    ensures
        position(s, c) == p,
{
    lemma_position(s, c);
    let q = position(s, c);
    if q < p {
        assert(s[q] == c);
    }
    if p < q {
        assert(s[p] == c);
    }
}

/// Scans `chars[from..to]` for the first `c`.
pub fn find_char(chars: &Vec<char>, from: usize, to: usize, c: char) -> (at: usize)
    requires
        from <= to <= chars.len(),
    ensures
        at == from + position(chars@.subrange(from as int, to as int), c),
        from <= at <= to,
{
    let ghost part = chars@.subrange(from as int, to as int);
    let mut i: usize = from;
    while i < to && chars[i] != c
        invariant
            from <= i <= to <= chars.len(),
            part == chars@.subrange(from as int, to as int),
            forall|j: int| 0 <= j < i - from ==> part[j] != c,
        decreases to - i,
    {
        assert(part[i - from] == chars@[i as int]);
        i += 1;
    }
    proof {
        if i < to {
            assert(part[i - from] == chars@[i as int]);
        }
        lemma_position_is(part, c, i - from);
    }
    i
}

/// What one character becomes when every `from` is replaced by `to`.
pub open spec fn replacement(from: char, to: Seq<char>) -> spec_fn(char) -> Seq<char> {
    |c: char|
        if c == from {
            to
        } else {
            seq![c]
        }
}

/// Every `from` in `s` replaced by the characters of `to`.
pub open spec fn replace_char(s: Seq<char>, from: char, to: Seq<char>) -> Seq<char> {
    s.flat_map(replacement(from, to))
}

/// Replaces every `from` in `s` by `to`, left to right.
pub fn replace(s: &str, from: char, to: &str) -> (out: String)
    ensures
        out@ == replace_char(s@, from, to@),
{
    let chars = chars_of(s);
    let ghost each = replacement(from, to@);
    let mut out = String::new();
    let mut i: usize = 0;
    assert(chars@.take(0).flat_map(each) =~= Seq::<char>::empty()) by {
        broadcast use vstd::seq_lib::group_seq_properties;

    }
    while i < chars.len()
        invariant
            i <= chars.len(),
            chars@ == s@,
            each == replacement(from, to@),
            out@ == chars@.take(i as int).flat_map(each),
        decreases chars.len() - i,
    {
        let c = chars[i];
        proof {
            chars@.take(i as int).lemma_flat_map_push(each, c);
            assert(chars@.take(i + 1) =~= chars@.take(i as int).push(c));
        }
        if c == from {
            out.append(to);
        } else {
            out.push(c);
            assert(seq![c] =~= Seq::<char>::empty().push(c));
            assert(out@ =~= chars@.take(i as int).flat_map(each) + seq![c]);
        }
        i += 1;
    }
    assert(chars@.take(chars.len() as int) =~= chars@);
    out
}

/// Two characters that differ at most in the case of an ASCII letter.
pub open spec fn same_ignoring_ascii_case(a: char, b: char) -> bool {
    ||| a == b
    ||| ('A' <= a <= 'Z' && b as int == a as int + 32)
    ||| ('A' <= b <= 'Z' && a as int == b as int + 32)
}

/// Equal strings, up to the case of ASCII letters.
pub open spec fn eq_ignoring_ascii_case(a: Seq<char>, b: Seq<char>) -> bool {
    &&& a.len() == b.len()
    &&& forall|i: int| 0 <= i < a.len() ==> same_ignoring_ascii_case(a[i], b[i])
}

/// Compares one pair of characters without regard to ASCII case.
pub fn chars_match_ignoring_case(a: char, b: char) -> (same: bool)
    ensures
        same == same_ignoring_ascii_case(a, b),
{
    let x: u32 = a as u32;
    let y: u32 = b as u32;
    x == y || (65 <= x && x <= 90 && y == x + 32) || (65 <= y && y <= 90 && x == y + 32)
}

/// Compares `a[from..to]` with `b` without regard to ASCII case.
pub fn range_eq_ignoring_case(a: &Vec<char>, from: usize, to: usize, b: &Vec<char>) -> (same: bool)
    requires
        from <= to <= a.len(),
    ensures
        same == eq_ignoring_ascii_case(a@.subrange(from as int, to as int), b@),
{
    if to - from != b.len() {
        return false;
    }
    let ghost part = a@.subrange(from as int, to as int);
    let mut i: usize = 0;
    while i < b.len()
        invariant
            from <= to <= a.len(),
            to - from == b.len(),
            i <= b.len(),
            part == a@.subrange(from as int, to as int),
            forall|k: int| 0 <= k < i ==> same_ignoring_ascii_case(part[k], b@[k]),
        decreases b.len() - i,
    {
        if !chars_match_ignoring_case(a[from + i], b[i]) {
            assert(part[i as int] == a@[from + i]);
            return false;
        }
        assert(part[i as int] == a@[from + i]);
        i += 1;
    }
    true
}

/// `needle` stands in `hay` starting at position `at`, up to the case of
/// ASCII letters.
pub open spec fn occurs_ignoring_case_at(hay: Seq<char>, needle: Seq<char>, at: int) -> bool {
    &&& 0 <= at
    &&& at + needle.len() <= hay.len()
    &&& eq_ignoring_ascii_case(hay.subrange(at, at + needle.len()), needle)
}

/// `needle` is a contiguous run of characters of `hay`, up to the case of
/// ASCII letters. Every other character, `%` and `_` among them, stands for
/// itself.
pub open spec fn contains_ignoring_ascii_case(hay: Seq<char>, needle: Seq<char>) -> bool {
    exists|at: int| occurs_ignoring_case_at(hay, needle, at)
}

/// Substring test that ignores the case of ASCII letters.
pub fn has_substring_ignoring_case(hay: &Vec<char>, needle: &Vec<char>) -> (found: bool)
    ensures
        found == contains_ignoring_ascii_case(hay@, needle@),
{
    if needle.len() > hay.len() {
        return false;
    }
    let last: usize = hay.len() - needle.len();
    let mut at: usize = 0;
    loop
        invariant
            last == hay.len() - needle.len(),
            needle.len() <= hay.len(),
            at <= last,
            forall|k: int| 0 <= k < at ==> !occurs_ignoring_case_at(hay@, needle@, k),
        decreases last - at,
    {
        if range_eq_ignoring_case(hay, at, at + needle.len(), needle) {
            assert(occurs_ignoring_case_at(hay@, needle@, at as int));
            return true;
        }
        if at == last {
            return false;
        }
        at += 1;
    }
}

/// Compares `a[from..to]` with `b`, exactly.
pub fn range_eq(a: &Vec<char>, from: usize, to: usize, b: &Vec<char>) -> (same: bool)
    requires
        from <= to <= a.len(),
    ensures
        same == (a@.subrange(from as int, to as int) == b@),
{
    if to - from != b.len() {
        return false;
    }
    let same = matches_at(a, b, from);
    same
}

/// The decimal digit for `d`.
pub open spec fn digit_char(d: int) -> char {
    if d == 0 {
        '0'
    } else if d == 1 {
        '1'
    } else if d == 2 {
        '2'
    } else if d == 3 {
        '3'
    } else if d == 4 {
        '4'
    } else if d == 5 {
        '5'
    } else if d == 6 {
        '6'
    } else if d == 7 {
        '7'
    } else if d == 8 {
        '8'
    } else {
        '9'
    }
}

/// The decimal digits of `n`, most significant first, without leading zeros.
pub open spec fn digits(n: nat) -> Seq<char>
    decreases n,
{
    if n < 10 {
        seq![digit_char(n as int)]
    } else {
        digits(n / 10).push(digit_char((n % 10) as int))
    }
}

/// The decimal numeral of `n`: a minus sign for a negative number, then its
/// digits.
pub open spec fn decimal(n: int) -> Seq<char> {
    if n < 0 {
        seq!['-'] + digits((-n) as nat)
    } else {
        digits(n as nat)
    }
}

fn digit_of(d: u64) -> (c: char)
    requires
        d < 10,
    ensures
        c == digit_char(d as int),
{
    if d == 0 {
        '0'
    } else if d == 1 {
        '1'
    } else if d == 2 {
        '2'
    } else if d == 3 {
        '3'
    } else if d == 4 {
        '4'
    } else if d == 5 {
        '5'
    } else if d == 6 {
        '6'
    } else if d == 7 {
        '7'
    } else if d == 8 {
        '8'
    } else {
        '9'
    }
}

/// Writes `n` as a decimal numeral.
pub fn decimal_string(n: i64) -> (out: String)
    ensures
        out@ == decimal(n as int),
{
    let magnitude: u64 = if n >= 0 {
        n as u64
    } else {
        (-(n + 1)) as u64 + 1
    };
    // Least significant digit first.
    let mut low: Vec<char> = Vec::new();
    let mut rest: u64 = magnitude;
    low.push(digit_of(rest % 10));
    rest = rest / 10;
    assert(low@.reverse() =~= seq![digit_char((magnitude % 10) as int)]);
    while rest > 0
        invariant
            low@.len() > 0,
            rest == 0 ==> digits(magnitude as nat) == low@.reverse(),
            rest > 0 ==> digits(magnitude as nat) == digits(rest as nat) + low@.reverse(),
        decreases rest,
    {
        let ghost before = low@;
        low.push(digit_of(rest % 10));
        proof {
            let d = digit_char((rest % 10) as int);
            assert(low@.reverse() =~= seq![d] + before.reverse());
            if rest >= 10 {
                assert(digits(rest as nat) =~= digits((rest / 10) as nat).push(d));
                assert(digits((rest / 10) as nat).push(d) + before.reverse() =~= digits(
                    (rest / 10) as nat,
                ) + low@.reverse());
            } else {
                assert(digits(rest as nat) =~= seq![d]);
            }
        }
        rest = rest / 10;
    }
    let mut out = String::new();
    if n < 0 {
        out.push('-');
    }
    let ghost sign = out@;
    assert(sign =~= if n < 0 {
        seq!['-']
    } else {
        Seq::<char>::empty()
    });
    let mut i: usize = low.len();
    while i > 0
        invariant
            i <= low.len(),
            out@ == sign + low@.reverse().take(low.len() - i),
        decreases i,
    {
        i -= 1;
        out.push(low[i]);
        assert(low@.reverse().take(low.len() - i) =~= low@.reverse().take(low.len() - i - 1).push(
            low@[i as int],
        ));
    }
    assert(low@.reverse().take(low.len() as int) =~= low@.reverse());
    assert(out@ =~= decimal(n as int));
    out
}

} // verus!
