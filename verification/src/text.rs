//! Character-sequence utilities. Strings are viewed as `Seq<char>`; every
//! routine here states its result over that view.

use vstd::prelude::*;

verus! {

/// `String::push`: appends one character to the end of the string.
#[verifier::external_body]
fn push_char(s: &mut String, c: char)
    ensures
        final(s)@ == old(s)@.push(c),
{
    s.push(c);
}

/// The characters of `s`, in order.
pub fn to_chars(s: &str) -> (v: Vec<char>)
    ensures
        v@ == s@,
{
    broadcast use vstd::string::axiom_spec_iter;

    let mut v: Vec<char> = Vec::new();
    for c in it: s.chars()
        invariant
            it.seq() == s@,
            v@ == s@.take(it.index()),
    {
        v.push(c);
        assert(s@.take(it.index() + 1) == s@.take(it.index()).push(s@[it.index()]));
    }
    assert(s@.take(s@.len() as int) == s@);
    v
}

/// The string made of the characters `v[from..to]`, in order.
pub fn from_chars_range(v: &Vec<char>, from: usize, to: usize) -> (s: String)
    requires
        from <= to <= v.len(),
    ensures
        s@ == v@.subrange(from as int, to as int),
{
    let mut s = String::new();
    let mut i: usize = from;
    while i < to
        invariant
            from <= i <= to <= v.len(),
            s@ == v@.subrange(from as int, i as int),
        decreases to - i,
    {
        push_char(&mut s, v[i]);
        i += 1;
        assert(v@.subrange(from as int, i as int) == v@.subrange(from as int, i - 1).push(
            v@[i - 1],
        ));
    }
    s
}

/// The string made of the characters of `v`, in order.
pub fn from_chars(v: &Vec<char>) -> (s: String)
    ensures
        s@ == v@,
{
    let s = from_chars_range(v, 0, v.len());
    assert(v@.subrange(0, v.len() as int) == v@);
    s
}

/// Whether two strings hold the same characters.
pub fn str_eq(a: &str, b: &str) -> (r: bool)
    ensures
        r == (a@ == b@),
{
    let x = a.to_owned();
    let y = b.to_owned();
    x == y
}

/// `a` followed by `b`.
pub fn concat2(a: &str, b: &str) -> (r: String)
    ensures
        r@ == a@ + b@,
{
    let mut r = a.to_owned();
    r.append(b);
    r
}

/// `a`, `b` and `c` in a row.
pub fn concat3(a: &str, b: &str, c: &str) -> (r: String)
    ensures
        r@ == a@ + b@ + c@,
{
    let mut r = a.to_owned();
    r.append(b);
    r.append(c);
    r
}

/// Whether `s` begins with `prefix`.
pub open spec fn starts_with(s: Seq<char>, prefix: Seq<char>) -> bool {
    prefix.len() <= s.len() && s.take(prefix.len() as int) == prefix
}

/// Whether `s` ends with `suffix`.
pub open spec fn ends_with(s: Seq<char>, suffix: Seq<char>) -> bool {
    suffix.len() <= s.len() && s.skip(s.len() - suffix.len()) == suffix
}

/// Whether `pat` occurs in `s` starting at position `at`.
pub open spec fn occurs_at(s: Seq<char>, pat: Seq<char>, at: int) -> bool {
    0 <= at && at + pat.len() <= s.len() && s.subrange(at, at + pat.len()) == pat
}

/// Whether `pat` occurs somewhere in `s`.
pub open spec fn contains_seq(s: Seq<char>, pat: Seq<char>) -> bool {
    exists|at: int| occurs_at(s, pat, at)
}

/// What is left of `s` once a leading `prefix` is removed, if it has one.
pub open spec fn strip_prefix(s: Seq<char>, prefix: Seq<char>) -> Option<Seq<char>> {
    if starts_with(s, prefix) {
        Some(s.skip(prefix.len() as int))
    } else {
        None
    }
}

/// Whether `pat` occurs in `s` at character position `at`.
fn occurs_at_exec(s: &Vec<char>, pat: &Vec<char>, at: usize) -> (r: bool)
    requires
        at + pat.len() <= s.len(),
    ensures
        r == occurs_at(s@, pat@, at as int),
{
    let mut i: usize = 0;
    while i < pat.len()
        invariant
            i <= pat.len(),
            at + pat.len() <= s.len(),
            s@.subrange(at as int, at + i) == pat@.take(i as int),
        decreases pat.len() - i,
    {
        if s[at + i] != pat[i] {
            assert(s@.subrange(at as int, at + pat.len())[i as int] != pat@[i as int]);
            return false;
        }
        i += 1;
        assert(s@.subrange(at as int, at + i) == s@.subrange(at as int, at + i - 1).push(
            s@[at + i - 1],
        ));
        assert(pat@.take(i as int) == pat@.take(i - 1).push(pat@[i - 1]));
    }
    assert(pat@.take(pat.len() as int) == pat@);
    true
}

/// Tests whether `s` begins with `prefix`.
pub fn has_prefix(s: &str, prefix: &str) -> (r: bool)
    ensures
        r == starts_with(s@, prefix@),
{
    let sv = to_chars(s);
    let pv = to_chars(prefix);
    if pv.len() > sv.len() {
        return false;
    }
    let r = occurs_at_exec(&sv, &pv, 0);
    assert(sv@.subrange(0, pv.len() as int) == sv@.take(pv.len() as int));
    r
}

/// Tests whether `s` ends with `suffix`.
pub fn has_suffix(s: &str, suffix: &str) -> (r: bool)
    ensures
        r == ends_with(s@, suffix@),
{
    let sv = to_chars(s);
    let pv = to_chars(suffix);
    if pv.len() > sv.len() {
        return false;
    }
    let r = occurs_at_exec(&sv, &pv, sv.len() - pv.len());
    assert(sv@.subrange(sv.len() - pv.len(), sv.len() as int) == sv@.skip(sv.len() - pv.len()));
    r
}

/// Tests whether `pat` occurs somewhere in `s`.
pub fn has_substring(s: &str, pat: &str) -> (r: bool)
    ensures
        r == contains_seq(s@, pat@),
{
    let sv = to_chars(s);
    let pv = to_chars(pat);
    if pv.len() > sv.len() {
        assert(forall|at: int| !occurs_at(sv@, pv@, at));
        return false;
    }
    let last: usize = sv.len() - pv.len();
    let mut at: usize = 0;
    loop
        invariant
            at <= last,
            last == sv.len() - pv.len(),
            pv.len() <= sv.len(),
            sv@ == s@,
            pv@ == pat@,
            forall|k: int| 0 <= k < at ==> !occurs_at(sv@, pv@, k),
        decreases last - at,
    {
        if occurs_at_exec(&sv, &pv, at) {
            return true;
        }
        if at == last {
            assert(forall|k: int| !occurs_at(sv@, pv@, k));
            return false;
        }
        at += 1;
    }
}

/// Removes a leading `prefix` from `s`; `None` where `s` does not begin with it.
pub fn without_prefix(s: &str, prefix: &str) -> (r: Option<String>)
    ensures
        r.is_some() == starts_with(s@, prefix@),
        r matches Some(rest) ==> Some(rest@) == strip_prefix(s@, prefix@),
{
    let sv = to_chars(s);
    let pv = to_chars(prefix);
    if pv.len() > sv.len() {
        return None;
    }
    assert(sv@.subrange(0, pv.len() as int) == sv@.take(pv.len() as int));
    if occurs_at_exec(&sv, &pv, 0) {
        let rest = from_chars_range(&sv, pv.len(), sv.len());
        assert(sv@.subrange(pv.len() as int, sv.len() as int) == sv@.skip(pv.len() as int));
        Some(rest)
    } else {
        None
    }
}

/// `s` with every `from` replaced by `to`.
pub open spec fn replace_char(s: Seq<char>, from: char, to: char) -> Seq<char> {
    s.map_values(|c: char| if c == from { to } else { c })
}

/// Replaces every `from` in `s` by `to`.
pub fn replaced(s: &str, from: char, to: char) -> (r: String)
    ensures
        r@ == replace_char(s@, from, to),
{
    let sv = to_chars(s);
    let mut out: Vec<char> = Vec::new();
    let mut i: usize = 0;
    while i < sv.len()
        invariant
            i <= sv.len(),
            out@ == replace_char(sv@.take(i as int), from, to),
        decreases sv.len() - i,
    {
        let c = sv[i];
        if c == from {
            out.push(to);
        } else {
            out.push(c);
        }
        i += 1;
        assert(sv@.take(i as int) == sv@.take(i - 1).push(sv@[i - 1]));
        assert(out@ == replace_char(sv@.take(i as int), from, to));
    }
    assert(sv@.take(sv.len() as int) == sv@);
    from_chars(&out)
}

/// The pieces of `s` between occurrences of `sep`. There is always at least
/// one piece; a separator at either end, or two in a row, give an empty piece.
pub open spec fn split_on(s: Seq<char>, sep: char) -> Seq<Seq<char>>
    decreases s.len(),
{
    if s.len() == 0 {
        seq![Seq::<char>::empty()]
    } else {
        let before = split_on(s.drop_last(), sep);
        if s.last() == sep {
            before.push(Seq::<char>::empty())
        } else {
            before.drop_last().push(before.last().push(s.last()))
        }
    }
}

/// `parts` in a row with `sep` between each two neighbours.
pub open spec fn join_with(parts: Seq<Seq<char>>, sep: Seq<char>) -> Seq<char>
    decreases parts.len(),
{
    if parts.len() == 0 {
        Seq::<char>::empty()
    } else if parts.len() == 1 {
        parts[0]
    } else {
        join_with(parts.drop_last(), sep) + sep + parts.last()
    }
}

/// A split always yields at least one piece.
pub proof fn lemma_split_nonempty(s: Seq<char>, sep: char)
    ensures
        split_on(s, sep).len() >= 1,
    decreases s.len(),
{
    if s.len() > 0 {
        lemma_split_nonempty(s.drop_last(), sep);
    }
}

/// No piece of a split holds the separator, and joining the pieces with the
/// separator gives the string back.
pub proof fn law_split_join(s: Seq<char>, sep: char)
    ensures
        forall|i: int|
            0 <= i < split_on(s, sep).len() ==> !(#[trigger] split_on(s, sep)[i]).contains(sep),
        join_with(split_on(s, sep), seq![sep]) == s,
    decreases s.len(),
{
    if s.len() == 0 {
        assert(split_on(s, sep)[0] == Seq::<char>::empty());
        assert(join_with(split_on(s, sep), seq![sep]) == s);
    } else {
        let head = s.drop_last();
        let before = split_on(head, sep);
        lemma_split_nonempty(head, sep);
        law_split_join(head, sep);
        let now = split_on(s, sep);
        if s.last() == sep {
            assert(now.drop_last() == before);
            assert(now.last() == Seq::<char>::empty());
            assert forall|i: int| 0 <= i < now.len() implies !(#[trigger] now[i]).contains(sep) by {
                if i < before.len() {
                    assert(now[i] == before[i]);
                }
            }
            assert(join_with(now, seq![sep]) == if before.len() == 0 {
                now[0]
            } else {
                join_with(before, seq![sep]) + seq![sep] + Seq::<char>::empty()
            });
            assert(head + seq![sep] + Seq::<char>::empty() == s);
        } else {
            let grown = before.last().push(s.last());
            assert(now.drop_last() == before.drop_last());
            assert(now.last() == grown);
            assert forall|i: int| 0 <= i < now.len() implies !(#[trigger] now[i]).contains(sep) by {
                if i < before.len() - 1 {
                    assert(now[i] == before[i]);
                } else {
                    assert(!before[before.len() - 1].contains(sep));
                    if grown.contains(sep) {
                        let k = choose|k: int| 0 <= k < grown.len() && grown[k] == sep;
                        assert(before.last()[k] == sep);
                    }
                }
            }
            if before.len() == 1 {
                assert(before[0] == head) by {
                    assert(join_with(before, seq![sep]) == before[0]);
                }
                assert(now[0] == s);
            } else {
                assert(join_with(before, seq![sep]) == join_with(before.drop_last(), seq![sep])
                    + seq![sep] + before.last());
                assert(join_with(now, seq![sep]) == join_with(before.drop_last(), seq![sep])
                    + seq![sep] + grown);
                assert(join_with(before.drop_last(), seq![sep]) + seq![sep] + grown == (join_with(
                    before.drop_last(),
                    seq![sep],
                ) + seq![sep] + before.last()).push(s.last()));
                assert(head.push(s.last()) == s);
            }
        }
    }
}

/// The views of a list of strings.
pub open spec fn views(v: Seq<String>) -> Seq<Seq<char>> {
    v.map_values(|s: String| s@)
}

/// Splits `s` at every `sep`.
pub fn split(s: &str, sep: char) -> (parts: Vec<String>)
    ensures
        views(parts@) == split_on(s@, sep),
        parts.len() >= 1,
{
    let sv = to_chars(s);
    let mut parts: Vec<String> = Vec::new();
    let mut start: usize = 0;
    let mut i: usize = 0;
    proof {
        assert(views(parts@) == Seq::<Seq<char>>::empty());
        assert(sv@.subrange(0, 0) == Seq::<char>::empty());
        assert(views(parts@).push(sv@.subrange(0, 0)) == seq![Seq::<char>::empty()]);
    }
    while i < sv.len()
        invariant
            start <= i <= sv.len(),
            views(parts@).push(sv@.subrange(start as int, i as int)) == split_on(
                sv@.take(i as int),
                sep,
            ),
        decreases sv.len() - i,
    {
        let ghost before = split_on(sv@.take(i as int), sep);
        proof {
            assert(sv@.take(i + 1).drop_last() == sv@.take(i as int));
            assert(before.drop_last() == views(parts@));
            assert(before.last() == sv@.subrange(start as int, i as int));
        }
        if sv[i] == sep {
            let piece = from_chars_range(&sv, start, i);
            let ghost old_parts = parts@;
            parts.push(piece);
            start = i + 1;
            proof {
                assert(views(parts@) == views(old_parts).push(piece@));
                assert(sv@.subrange(start as int, i + 1) == Seq::<char>::empty());
            }
        } else {
            proof {
                assert(sv@.subrange(start as int, i + 1) == sv@.subrange(start as int, i as int).push(
                    sv@[i as int],
                ));
            }
        }
        i += 1;
    }
    let piece = from_chars_range(&sv, start, sv.len());
    let ghost old_parts = parts@;
    parts.push(piece);
    proof {
        assert(views(parts@) == views(old_parts).push(piece@));
        assert(sv@.take(sv.len() as int) == sv@);
    }
    parts
}

/// Whether `c` is one of the ten ASCII digits.
pub open spec fn is_digit(c: char) -> bool {
    0x30 <= c as u32 <= 0x39
}

/// The number that the ASCII digit `c` stands for.
pub open spec fn digit_value(c: char) -> nat {
    (c as u32 - 0x30) as nat
}

/// Whether `s` is made of ASCII digits only.
pub open spec fn all_digits(s: Seq<char>) -> bool {
    forall|i: int| 0 <= i < s.len() ==> is_digit(#[trigger] s[i])
}

/// The number that a string of ASCII digits denotes in base ten.
pub open spec fn digits_value(s: Seq<char>) -> nat
    decreases s.len(),
{
    if s.len() == 0 {
        0
    } else {
        digits_value(s.drop_last()) * 10 + digit_value(s.last())
    }
}

/// What reading `s` as an unsigned 32-bit decimal number gives: an optional
/// leading `+`, then at least one ASCII digit and nothing else, the number
/// being at most `u32::MAX`.
pub open spec fn parse_u32(s: Seq<char>) -> Option<u32> {
    let body = if s.len() > 0 && s[0] == '+' {
        s.skip(1)
    } else {
        s
    };
    if body.len() > 0 && all_digits(body) && digits_value(body) <= u32::MAX {
        Some(digits_value(body) as u32)
    } else {
        None
    }
}

/// A longer digit string never denotes less than one of its prefixes.
proof fn lemma_digits_value_grows(s: Seq<char>, k: int)
    requires
        0 <= k <= s.len(),
    ensures
        digits_value(s.take(k)) <= digits_value(s),
    decreases s.len() - k,
{
    if k == s.len() {
        assert(s.take(k) == s);
    } else {
        lemma_digits_value_grows(s, k + 1);
        assert(s.take(k + 1).drop_last() == s.take(k));
    }
}

/// Reads `s` as an unsigned 32-bit decimal number.
pub fn to_u32(s: &str) -> (r: Option<u32>)
    ensures
        r == parse_u32(s@),
{
    let sv = to_chars(s);
    let first: usize = if sv.len() > 0 && sv[0] == '+' {
        1
    } else {
        0
    };
    let ghost body = sv@.skip(first as int);
    if first == sv.len() {
        return None;
    }
    let mut acc: u64 = 0;
    let mut i: usize = first;
    while i < sv.len()
        invariant
            first <= i <= sv.len(),
            first < sv.len(),
            sv@ == s@,
            first == (if sv@.len() > 0 && sv@[0] == '+' {
                1int
            } else {
                0int
            }),
            body == sv@.skip(first as int),
            all_digits(body.take(i - first)),
            acc == digits_value(body.take(i - first)),
            acc <= u32::MAX,
        decreases sv.len() - i,
    {
        let c = sv[i];
        let code: u32 = c as u32;
        proof {
            assert(body.take(i - first + 1).drop_last() == body.take(i - first));
            assert(body.take(i - first + 1).last() == c);
        }
        if code < 0x30 || code > 0x39 {
            proof {
                assert(!is_digit(body[i - first]));
                assert(sv@.skip(0) == sv@);
            }
            return None;
        }
        let d: u64 = (code - 0x30) as u64;
        let next: u64 = acc * 10 + d;
        assert(next == digits_value(body.take(i - first + 1)));
        if next > 0xffff_ffff {
            proof {
                lemma_digits_value_grows(body, i - first + 1);
                assert(sv@.skip(0) == sv@);
            }
            return None;
        }
        acc = next;
        i += 1;
        assert forall|k: int| 0 <= k < body.take(i - first).len() implies is_digit(
            #[trigger] body.take(i - first)[k],
        ) by {
            if k < i - first - 1 {
                assert(body.take(i - first)[k] == body.take(i - first - 1)[k]);
            }
        }
    }
    proof {
        assert(body.take(sv.len() - first) == body);
        assert(sv@.skip(0) == sv@);
    }
    Some(acc as u32)
}

/// The ASCII digit for `d`.
pub open spec fn digit_char(d: nat) -> char
    recommends
        d < 10,
{
    (0x30 + d) as u8 as char
}

/// `n` written in base ten, without leading zeros.
pub open spec fn decimal(n: nat) -> Seq<char>
    decreases n,
{
    if n < 10 {
        seq![digit_char(n)]
    } else {
        decimal(n / 10).push(digit_char(n % 10))
    }
}

fn push_decimal(out: &mut Vec<char>, n: u64)
    ensures
        final(out)@ == old(out)@ + decimal(n as nat),
    decreases n,
{
    if n >= 10 {
        push_decimal(out, n / 10);
    }
    let d: u8 = (n % 10) as u8;
    out.push((0x30 + d) as char);
}

/// Writes `n` in base ten.
pub fn u64_to_decimal(n: u64) -> (r: String)
    ensures
        r@ == decimal(n as nat),
{
    let mut out: Vec<char> = Vec::new();
    push_decimal(&mut out, n);
    from_chars(&out)
}

/// Reading back a number written in base ten gives the number.
pub proof fn law_decimal_round_trip(n: nat)
    ensures
        all_digits(decimal(n)),
        decimal(n).len() >= 1,
        digits_value(decimal(n)) == n,
    decreases n,
{
    if n < 10 {
        assert(decimal(n).drop_last() == Seq::<char>::empty());
        assert(digits_value(decimal(n).drop_last()) == 0);
    } else {
        law_decimal_round_trip(n / 10);
        assert(decimal(n).drop_last() == decimal(n / 10));
    }
}

/// What `str::to_lowercase` makes of a string: the Unicode lower-case mapping
/// of the standard library, which takes pages to state.
pub uninterp spec fn lowercase(s: Seq<char>) -> Seq<char>;

/// `str::to_lowercase`: the lower-case form of `s`. The result is a function
/// of the characters of `s` alone.
#[verifier::external_body]
pub(crate) fn to_lower(s: &str) -> (r: String)
    ensures
        r@ == lowercase(s@),
{
    s.to_lowercase()
}

/// Position of the first of `keys` that equals `wanted`, if any does.
pub open spec fn first_equal(keys: Seq<Seq<char>>, wanted: Seq<char>) -> Option<int>
    decreases keys.len(),
{
    if keys.len() == 0 {
        None
    } else if keys[0] == wanted {
        Some(0)
    } else {
        match first_equal(keys.skip(1), wanted) {
            Some(i) => Some(i + 1),
            None => None,
        }
    }
}

/// `first_equal` finds a position that holds `wanted` and has none before it
/// that does; it finds nothing only where no position holds `wanted`.
pub proof fn lemma_first_equal(keys: Seq<Seq<char>>, wanted: Seq<char>)
    ensures
        match first_equal(keys, wanted) {
            Some(i) => 0 <= i < keys.len() && keys[i] == wanted && forall|j: int|
                0 <= j < i ==> keys[j] != wanted,
            None => forall|j: int| 0 <= j < keys.len() ==> keys[j] != wanted,
        },
    decreases keys.len(),
{
    if keys.len() > 0 && keys[0] != wanted {
        lemma_first_equal(keys.skip(1), wanted);
        match first_equal(keys.skip(1), wanted) {
            Some(i) => {
                assert forall|j: int| 0 <= j < i + 1 implies keys[j] != wanted by {
                    if j > 0 {
                        assert(keys.skip(1)[j - 1] == keys[j]);
                    }
                }
            },
            None => {
                assert forall|j: int| 0 <= j < keys.len() implies keys[j] != wanted by {
                    if j > 0 {
                        assert(keys.skip(1)[j - 1] == keys[j]);
                    }
                }
            },
        }
    }
}

/// The other direction: a position that holds `wanted`, with none before it
/// that does, is the one that `first_equal` finds.
pub proof fn lemma_first_equal_is(keys: Seq<Seq<char>>, wanted: Seq<char>, i: int)
    requires
        0 <= i < keys.len(),
        keys[i] == wanted,
        forall|j: int| 0 <= j < i ==> keys[j] != wanted,
    ensures
        first_equal(keys, wanted) == Some(i),
{
    lemma_first_equal(keys, wanted);
}

/// No position holds `wanted`: `first_equal` finds nothing.
pub proof fn lemma_first_equal_none(keys: Seq<Seq<char>>, wanted: Seq<char>)
    requires
        forall|j: int| 0 <= j < keys.len() ==> keys[j] != wanted,
    ensures
        first_equal(keys, wanted) is None,
{
    lemma_first_equal(keys, wanted);
}

/// Finds the first of `keys` that equals `wanted`.
pub fn position_of(keys: &Vec<String>, wanted: &str) -> (r: Option<usize>)
    ensures
        match r {
            Some(i) => first_equal(views(keys@), wanted@) == Some(i as int),
            None => first_equal(views(keys@), wanted@) is None,
        },
{
    let mut i: usize = 0;
    while i < keys.len()
        invariant
            i <= keys.len(),
            forall|j: int| 0 <= j < i ==> views(keys@)[j] != wanted@,
        decreases keys.len() - i,
    {
        if str_eq(keys[i].as_str(), wanted) {
            proof {
                lemma_first_equal_is(views(keys@), wanted@, i as int);
            }
            return Some(i);
        }
        i += 1;
    }
    proof {
        lemma_first_equal_none(views(keys@), wanted@);
    }
    None
}

/// Puts `parts` in a row with `sep` between each two neighbours.
pub fn join(parts: &Vec<String>, sep: &str) -> (r: String)
    ensures
        r@ == join_with(views(parts@), sep@),
{
    let mut r = String::new();
    let mut i: usize = 0;
    while i < parts.len()
        invariant
            i <= parts.len(),
            r@ == join_with(views(parts@).take(i as int), sep@),
        decreases parts.len() - i,
    {
        proof {
            let upto = views(parts@).take(i + 1);
            assert(upto.drop_last() == views(parts@).take(i as int));
            assert(upto.last() == parts@[i as int]@);
            if i == 0 {
                assert(r@ + parts@[0]@ == parts@[0]@);
            }
        }
        if i > 0 {
            r.append(sep);
        }
        r.append(parts[i].as_str());
        i += 1;
    }
    assert(views(parts@).take(parts.len() as int) == views(parts@));
    r
}

/// The code of `c` with the upper-case ASCII letters mapped to lower case.
pub open spec fn ascii_fold(c: char) -> int {
    if 0x41 <= c as u32 <= 0x5a {
        c as u32 + 0x20
    } else {
        c as u32 as int
    }
}

/// Whether two strings are the same but for the case of ASCII letters.
pub open spec fn same_ignoring_ascii_case(a: Seq<char>, b: Seq<char>) -> bool {
    a.len() == b.len() && forall|i: int| 0 <= i < a.len() ==> ascii_fold(a[i]) == ascii_fold(b[i])
}

fn fold_code(c: char) -> (r: u32)
    ensures
        r == ascii_fold(c),
{
    let code: u32 = c as u32;
    if 0x41 <= code && code <= 0x5a {
        code + 0x20
    } else {
        code
    }
}

/// Tests whether two strings are the same but for the case of ASCII letters.
pub fn eq_ignore_ascii_case(a: &str, b: &str) -> (r: bool)
    ensures
        r == same_ignoring_ascii_case(a@, b@),
{
    let av = to_chars(a);
    let bv = to_chars(b);
    if av.len() != bv.len() {
        return false;
    }
    let mut i: usize = 0;
    while i < av.len()
        invariant
            i <= av.len(),
            av.len() == bv.len(),
            av@ == a@,
            bv@ == b@,
            forall|j: int| 0 <= j < i ==> ascii_fold(av@[j]) == ascii_fold(bv@[j]),
        decreases av.len() - i,
    {
        if fold_code(av[i]) != fold_code(bv[i]) {
            return false;
        }
        i += 1;
    }
    true
}

/// Whether `c` is white space, as Unicode defines it.
pub open spec fn is_space(c: char) -> bool {
    let code = c as u32;
    ||| 0x09 <= code <= 0x0d
    ||| code == 0x20
    ||| code == 0x85
    ||| code == 0xa0
    ||| code == 0x1680
    ||| 0x2000 <= code <= 0x200a
    ||| code == 0x2028
    ||| code == 0x2029
    ||| code == 0x202f
    ||| code == 0x205f
    ||| code == 0x3000
}

/// How many characters of white space `s` begins with.
pub open spec fn leading_spaces(s: Seq<char>) -> nat
    decreases s.len(),
{
    if s.len() > 0 && is_space(s[0]) {
        1 + leading_spaces(s.skip(1))
    } else {
        0
    }
}

/// How many characters of white space `s` ends with.
pub open spec fn trailing_spaces(s: Seq<char>) -> nat
    decreases s.len(),
{
    if s.len() > 0 && is_space(s.last()) {
        1 + trailing_spaces(s.drop_last())
    } else {
        0
    }
}

/// `s` without the white space that it begins and ends with.
pub open spec fn trimmed(s: Seq<char>) -> Seq<char> {
    let rest = s.skip(leading_spaces(s) as int);
    rest.take(rest.len() - trailing_spaces(rest))
}

proof fn lemma_leading_spaces(s: Seq<char>, n: int)
    requires
        0 <= n <= s.len(),
        forall|i: int| 0 <= i < n ==> is_space(s[i]),
        n == s.len() || !is_space(s[n]),
    ensures
        leading_spaces(s) == n,
    decreases n,
{
    if n > 0 {
        lemma_leading_spaces(s.skip(1), n - 1);
    }
}

proof fn lemma_trailing_spaces(s: Seq<char>, n: int)
    requires
        0 <= n <= s.len(),
        forall|i: int| s.len() - n <= i < s.len() ==> is_space(s[i]),
        n == s.len() || !is_space(s[s.len() - n - 1]),
    ensures
        trailing_spaces(s) == n,
    decreases n,
{
    if n > 0 {
        lemma_trailing_spaces(s.drop_last(), n - 1);
    }
}

fn is_space_char(c: char) -> (r: bool)
    ensures
        r == is_space(c),
{
    let code: u32 = c as u32;
    (0x09 <= code && code <= 0x0d) || code == 0x20 || code == 0x85 || code == 0xa0 || code
        == 0x1680 || (0x2000 <= code && code <= 0x200a) || code == 0x2028 || code == 0x2029
        || code == 0x202f || code == 0x205f || code == 0x3000
}

/// Removes the white space that `s` begins and ends with.
pub fn trim(s: &str) -> (r: String)
    ensures
        r@ == trimmed(s@),
{
    let sv = to_chars(s);
    let mut start: usize = 0;
    while start < sv.len() && is_space_char(sv[start])
        invariant
            start <= sv.len(),
            forall|i: int| 0 <= i < start ==> is_space(sv@[i]),
        decreases sv.len() - start,
    {
        start += 1;
    }
    let mut end: usize = sv.len();
    while end > start && is_space_char(sv[end - 1])
        invariant
            start <= end <= sv.len(),
            forall|i: int| end <= i < sv.len() ==> is_space(sv@[i]),
        decreases end,
    {
        end -= 1;
    }
    proof {
        lemma_leading_spaces(sv@, start as int);
        let rest = sv@.skip(start as int);
        lemma_trailing_spaces(rest, sv.len() - end);
        assert(rest.take(rest.len() - (sv.len() - end)) == sv@.subrange(start as int, end as int));
    }
    from_chars_range(&sv, start, end)
}

/// A whole number written in base ten, with `-` in front where it is
/// negative.
pub open spec fn signed_decimal(n: int) -> Seq<char> {
    if n < 0 {
        "-"@ + decimal((-n) as nat)
    } else {
        decimal(n as nat)
    }
}

/// Writes `n` in base ten.
pub fn i64_to_decimal(n: i64) -> (r: String)
    ensures
        r@ == signed_decimal(n as int),
{
    if n >= 0 {
        u64_to_decimal(n as u64)
    } else {
        let magnitude: u64 = (-(n + 1)) as u64 + 1;
        let digits = u64_to_decimal(magnitude);
        concat2("-", digits.as_str())
    }
}

/// `list` without every occurrence of `item`.
pub open spec fn without(list: Seq<Seq<char>>, item: Seq<char>) -> Seq<Seq<char>>
    decreases list.len(),
{
    if list.len() == 0 {
        Seq::<Seq<char>>::empty()
    } else {
        let before = without(list.drop_last(), item);
        if list.last() == item {
            before
        } else {
            before.push(list.last())
        }
    }
}

/// What is in a list without an item: all that was in the list, but for the
/// item. A list in which nothing occurred twice stays so.
pub proof fn lemma_without(list: Seq<Seq<char>>, item: Seq<char>)
    ensures
        forall|other: Seq<char>|
            #[trigger] without(list, item).contains(other) <==> (other != item && list.contains(
                other,
            )),
        list.no_duplicates() ==> without(list, item).no_duplicates(),
    decreases list.len(),
{
    if list.len() > 0 {
        let head = list.drop_last();
        let last = list.last();
        lemma_without(head, item);
        let before = without(head, item);
        let now = without(list, item);
        assert forall|other: Seq<char>| #[trigger]
            now.contains(other) <==> (other != item && list.contains(other)) by {
            if list.contains(other) {
                let k = choose|k: int| 0 <= k < list.len() && list[k] == other;
                if k < head.len() {
                    assert(head[k] == other);
                    assert(head.contains(other));
                }
            }
            if head.contains(other) {
                let k = choose|k: int| 0 <= k < head.len() && head[k] == other;
                assert(list[k] == other);
            }
            if before.contains(other) {
                let k = choose|k: int| 0 <= k < before.len() && before[k] == other;
                if last != item {
                    assert(now[k] == other);
                }
            }
            if last != item {
                assert(now.last() == last);
                assert(now[now.len() - 1] == last);
                if now.contains(other) {
                    let k = choose|k: int| 0 <= k < now.len() && now[k] == other;
                    if k < before.len() {
                        assert(before[k] == other);
                        assert(before.contains(other));
                    }
                }
            }
            assert(list[list.len() - 1] == last);
        }
        if list.no_duplicates() {
            assert(head.no_duplicates());
            if last != item {
                assert forall|i: int, j: int|
                    0 <= i < now.len() && 0 <= j < now.len() && i != j implies now[i] != now[j] by {
                    if i < before.len() && j < before.len() {
                        assert(before[i] != before[j]);
                    } else {
                        let k = if i < before.len() {
                            i
                        } else {
                            j
                        };
                        assert(before.contains(before[k]));
                        assert(head.contains(before[k]));
                        let m = choose|m: int| 0 <= m < head.len() && head[m] == before[k];
                        assert(list[m] != list[list.len() - 1]);
                    }
                }
            }
        }
    } else {
        assert forall|other: Seq<char>| #[trigger]
            without(list, item).contains(other) <==> (other != item && list.contains(other)) by {}
    }
}

/// Whether a list of strings holds `item`.
pub fn contains_str(list: &Vec<String>, item: &str) -> (r: bool)
    ensures
        r == views(list@).contains(item@),
{
    let mut i: usize = 0;
    while i < list.len()
        invariant
            i <= list.len(),
            forall|j: int| 0 <= j < i ==> views(list@)[j] != item@,
        decreases list.len() - i,
    {
        if str_eq(list[i].as_str(), item) {
            assert(views(list@)[i as int] == item@);
            return true;
        }
        i += 1;
    }
    false
}

/// Copies a list of strings, leaving out every occurrence of `item`.
pub fn copy_without(list: &Vec<String>, item: &str) -> (r: Vec<String>)
    ensures
        views(r@) == without(views(list@), item@),
{
    let mut kept: Vec<String> = Vec::new();
    let mut i: usize = 0;
    assert(views(kept@) == Seq::<Seq<char>>::empty());
    assert(views(list@).take(0) == Seq::<Seq<char>>::empty());
    while i < list.len()
        invariant
            i <= list.len(),
            views(kept@) == without(views(list@).take(i as int), item@),
        decreases list.len() - i,
    {
        proof {
            assert(views(list@).take(i + 1).drop_last() == views(list@).take(i as int));
            assert(views(list@).take(i + 1).last() == list@[i as int]@);
        }
        if !str_eq(list[i].as_str(), item) {
            let ghost before = views(kept@);
            let copy = list[i].clone();
            kept.push(copy);
            assert(views(kept@) == before.push(copy@));
        }
        i += 1;
    }
    assert(views(list@).take(list.len() as int) == views(list@));
    kept
}

} // verus!
