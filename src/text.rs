use vstd::prelude::*;
use vstd::std_specs::iter::IteratorSpec;

verus! {

/// Character-wise equality of two strings.
pub fn str_eq(a: &str, b: &str) -> (r: bool)
    ensures
        r == (a@ == b@),
{
    let n = a.unicode_len();
    if n != b.unicode_len() {
        return false;
    }
    let mut i: usize = 0;
    while i < n
        invariant
            n == a@.len(),
            n == b@.len(),
            i <= n,
            a@.subrange(0, i as int) == b@.subrange(0, i as int),
        decreases n - i,
    {
        if a.get_char(i) != b.get_char(i) {
            return false;
        }
        assert(a@.subrange(0, i + 1) == a@.subrange(0, i as int).push(a@[i as int]));
        assert(b@.subrange(0, i + 1) == b@.subrange(0, i as int).push(b@[i as int]));
        i = i + 1;
    }
    assert(a@ == a@.subrange(0, n as int));
    assert(b@ == b@.subrange(0, n as int));
    true
}

} // verus!

verus! {

/// Whitespace that separates command arguments: the characters with the
/// Unicode White_Space property.
pub open spec fn is_ws(c: char) -> bool {
    c == '\t' || c == '\n' || c == '\x0B' || c == '\x0C' || c == '\r' || c == ' '
        || c == '\u{85}' || c == '\u{A0}' || c == '\u{1680}' || ('\u{2000}' <= c && c <= '\u{200A}')
        || c == '\u{2028}' || c == '\u{2029}' || c == '\u{202F}' || c == '\u{205F}'
        || c == '\u{3000}'
}

/// The whitespace-separated words of `s`, where `cur` is the word begun so far.
pub open spec fn split_from(s: Seq<char>, cur: Seq<char>) -> Seq<Seq<char>>
    decreases s.len(),
{
    if s.len() == 0 {
        if cur.len() == 0 {
            seq![]
        } else {
            seq![cur]
        }
    } else if is_ws(s[0]) {
        let rest = split_from(s.drop_first(), seq![]);
        if cur.len() == 0 {
            rest
        } else {
            seq![cur] + rest
        }
    } else {
        split_from(s.drop_first(), cur.push(s[0]))
    }
}

/// The whitespace-separated words of `s`, in order.
pub open spec fn words(s: Seq<char>) -> Seq<Seq<char>> {
    split_from(s, seq![])
}

fn is_ws_char(c: char) -> (r: bool)
    ensures
        r == is_ws(c),
{
    c == '\t' || c == '\n' || c == '\x0B' || c == '\x0C' || c == '\r' || c == ' '
        || c == '\u{85}' || c == '\u{A0}' || c == '\u{1680}' || ('\u{2000}' <= c && c <= '\u{200A}')
        || c == '\u{2028}' || c == '\u{2029}' || c == '\u{202F}' || c == '\u{205F}'
        || c == '\u{3000}'
}

/// Splits `s` into its whitespace-separated words.
pub fn split_words(s: &str) -> (r: Vec<String>)
    ensures
        r@.map_values(|w: String| w@) == words(s@),
{
    let n = s.unicode_len();
    let mut out: Vec<String> = Vec::new();
    let mut start: usize = 0;
    let mut i: usize = 0;
    assert(s@.subrange(0, n as int) == s@);
    assert(s@.subrange(0, 0) == Seq::<char>::empty());
    assert(out@.map_values(|w: String| w@) == Seq::<Seq<char>>::empty());
    assert(Seq::<Seq<char>>::empty() + words(s@) == words(s@));
    while i < n
        invariant
            n == s@.len(),
            start <= i <= n,
            out@.map_values(|w: String| w@) + split_from(
                s@.subrange(i as int, n as int),
                s@.subrange(start as int, i as int),
            ) == words(s@),
        decreases n - i,
    {
        let ghost rest = s@.subrange(i as int, n as int);
        let ghost cur = s@.subrange(start as int, i as int);
        let ghost before = out@.map_values(|w: String| w@);
        assert(rest.drop_first() == s@.subrange(i + 1, n as int));
        assert(rest[0] == s@[i as int]);
        let c = s.get_char(i);
        if is_ws_char(c) {
            if start < i {
                let w = String::from_str(s.substring_char(start, i));
                out.push(w);
                assert(out@.map_values(|w: String| w@) == before.push(cur));
                assert(before.push(cur) + split_from(s@.subrange(i + 1, n as int), seq![]) == before
                    + (seq![cur] + split_from(s@.subrange(i + 1, n as int), seq![])));
            }
            start = i + 1;
            assert(s@.subrange(start as int, i + 1) == Seq::<char>::empty());
        } else {
            assert(cur.push(c) == s@.subrange(start as int, i + 1));
        }
        i = i + 1;
    }
    let ghost cur = s@.subrange(start as int, n as int);
    let ghost before = out@.map_values(|w: String| w@);
    assert(s@.subrange(n as int, n as int) == Seq::<char>::empty());
    if start < n {
        let w = String::from_str(s.substring_char(start, n));
        out.push(w);
        assert(out@.map_values(|w: String| w@) == before.push(cur));
        assert(before + seq![cur] == before.push(cur));
    } else {
        assert(before + Seq::<Seq<char>>::empty() == before);
    }
    out
}

} // verus!

verus! {

pub open spec fn is_digit(c: char) -> bool {
    '0' <= c && c <= '9'
}

pub open spec fn digit_value(c: char) -> int {
    c as int - '0' as int
}

/// The number that a sequence of decimal digits spells.
pub open spec fn digits_value(s: Seq<char>) -> int
    decreases s.len(),
{
    if s.len() == 0 {
        0
    } else {
        digits_value(s.drop_last()) * 10 + digit_value(s.last())
    }
}

pub open spec fn all_digits(s: Seq<char>) -> bool {
    forall|i: int| 0 <= i < s.len() ==> is_digit(#[trigger] s[i])
}

/// The base-10 integer that `s` spells: an optional sign, then at least one
/// digit, within the range of `i64`.
pub open spec fn int_of(s: Seq<char>) -> Option<i64> {
    let neg = s.len() > 0 && s[0] == '-';
    let signed = s.len() > 0 && (s[0] == '-' || s[0] == '+');
    let body = if signed {
        s.drop_first()
    } else {
        s
    };
    let v = if neg {
        -digits_value(body)
    } else {
        digits_value(body)
    };
    if body.len() == 0 || !all_digits(body) || v < i64::MIN || v > i64::MAX {
        None
    } else {
        Some(v as i64)
    }
}

proof fn lemma_digits_nonneg(s: Seq<char>)
    requires
        all_digits(s),
    ensures
        digits_value(s) >= 0,
    decreases s.len(),
{
    if s.len() > 0 {
        assert(all_digits(s.drop_last()));
        lemma_digits_nonneg(s.drop_last());
        assert(is_digit(s[s.len() - 1]));
    }
}

proof fn lemma_digits_grow(s: Seq<char>, k: int)
    requires
        all_digits(s),
        0 <= k <= s.len(),
    ensures
        digits_value(s) >= digits_value(s.subrange(0, k)),
    decreases s.len(),
{
    if k < s.len() {
        assert(all_digits(s.drop_last()));
        lemma_digits_grow(s.drop_last(), k);
        lemma_digits_nonneg(s.drop_last());
        assert(s.drop_last().subrange(0, k) == s.subrange(0, k));
        assert(is_digit(s[s.len() - 1]));
    } else {
        assert(s.subrange(0, k) == s);
    }
}

/// Parses a base-10 integer with an optional sign.
pub fn parse_int(s: &str) -> (r: Option<i64>)
    ensures
        r == int_of(s@),
{
    let n = s.unicode_len();
    if n == 0 {
        return None;
    }
    let first = s.get_char(0);
    assert(s@[0] == first);
    let neg = first == '-';
    let start: usize = if first == '-' || first == '+' {
        1
    } else {
        0
    };
    let ghost body = s@.subrange(start as int, n as int);
    assert(start == 1 ==> body == s@.drop_first());
    assert(start == 0 ==> body == s@);
    if start == n {
        return None;
    }
    let limit: u128 = 0x8000_0000_0000_0000;
    let mut acc: u128 = 0;
    let mut i: usize = start;
    while i < n
        invariant
            n == s@.len(),
            start <= i <= n,
            body == s@.subrange(start as int, n as int),
            n > 0,
            start == 1 ==> body == s@.drop_first(),
            start == 0 ==> body == s@,
            (start == 1) == (s@[0] == '-' || s@[0] == '+'),
            start <= 1,
            neg == (s@[0] == '-'),
            limit == 0x8000_0000_0000_0000u128,
            all_digits(body.subrange(0, i - start)),
            acc as int == digits_value(body.subrange(0, i - start)),
            acc <= limit,
        decreases n - i,
    {
        let c = s.get_char(i);
        let ghost prev = body.subrange(0, i - start);
        let ghost next = body.subrange(0, i + 1 - start);
        assert(next.drop_last() == prev);
        assert(next.last() == c);
        if !('0' <= c && c <= '9') {
            assert(!is_digit(body[i - start]));
            assert(!all_digits(body));
            return None;
        }
        let d = (c as u32 - '0' as u32) as u128;
        assert(acc * 10 <= limit * 10) by (nonlinear_arith)
            requires
                acc <= limit,
        ;
        acc = acc * 10 + d;
        assert(all_digits(next)) by {
            assert forall|j: int| 0 <= j < next.len() implies is_digit(#[trigger] next[j]) by {
                if j < prev.len() {
                    assert(next[j] == prev[j]);
                }
            }
        }
        if acc > limit {
            proof {
                if all_digits(body) {
                    lemma_digits_grow(body, i + 1 - start);
                }
            }
            return None;
        }
        i = i + 1;
    }
    assert(body.subrange(0, n - start) == body);
    if neg {
        Some((0 - acc as i128) as i64)
    } else if acc > 0x7fff_ffff_ffff_ffff {
        None
    } else {
        Some(acc as i64)
    }
}

} // verus!

verus! {

/// `s` spells the word whose lower-case letters are `lower` and upper-case
/// letters `upper`, in any mix of cases.
pub open spec fn ci_eq(s: Seq<char>, lower: Seq<char>, upper: Seq<char>) -> bool {
    &&& s.len() == lower.len()
    &&& forall|i: int| 0 <= i < s.len() ==> s[i] == lower[i] || s[i] == upper[i]
}

/// The boolean that `s` spells: `true` or `false`, case-insensitively.
pub open spec fn bool_of(s: Seq<char>) -> Option<bool> {
    if ci_eq(s, seq!['t', 'r', 'u', 'e'], seq!['T', 'R', 'U', 'E']) {
        Some(true)
    } else if ci_eq(s, seq!['f', 'a', 'l', 's', 'e'], seq!['F', 'A', 'L', 'S', 'E']) {
        Some(false)
    } else {
        None
    }
}

fn ci_eq_exec(s: &str, lower: &Vec<char>, upper: &Vec<char>) -> (r: bool)
    requires
        lower@.len() == upper@.len(),
    ensures
        r == ci_eq(s@, lower@, upper@),
{
    let n = s.unicode_len();
    if n != lower.len() {
        return false;
    }
    let mut i: usize = 0;
    while i < n
        invariant
            n == s@.len(),
            n == lower@.len(),
            n == upper@.len(),
            i <= n,
            forall|j: int| 0 <= j < i ==> s@[j] == lower@[j] || s@[j] == upper@[j],
        decreases n - i,
    {
        let c = s.get_char(i);
        if c != lower[i] && c != upper[i] {
            return false;
        }
        i = i + 1;
    }
    true
}

/// Parses `true` or `false`, ignoring case.
pub fn parse_bool(s: &str) -> (r: Option<bool>)
    ensures
        r == bool_of(s@),
{
    let t_lower = vec!['t', 'r', 'u', 'e'];
    let t_upper = vec!['T', 'R', 'U', 'E'];
    let f_lower = vec!['f', 'a', 'l', 's', 'e'];
    let f_upper = vec!['F', 'A', 'L', 'S', 'E'];
    assert(t_lower@ == seq!['t', 'r', 'u', 'e']);
    assert(t_upper@ == seq!['T', 'R', 'U', 'E']);
    assert(f_lower@ == seq!['f', 'a', 'l', 's', 'e']);
    assert(f_upper@ == seq!['F', 'A', 'L', 'S', 'E']);
    if ci_eq_exec(s, &t_lower, &t_upper) {
        Some(true)
    } else if ci_eq_exec(s, &f_lower, &f_upper) {
        Some(false)
    } else {
        None
    }
}

} // verus!

verus! {

/// The longest run of decimal digits that JSON text may hold here: the JSON
/// parser counts the digits of a fraction in a 16-bit exponent.
pub const MAX_DIGIT_RUN: usize = 32767;

/// How many decimal digits immediately precede position `i` of `s`.
pub open spec fn digit_run(s: Seq<char>, i: int) -> nat
    decreases i,
{
    if i <= 0 || i > s.len() {
        0
    } else if is_digit(s[i - 1]) {
        digit_run(s, i - 1) + 1
    } else {
        0
    }
}

/// No run of decimal digits in `s` is longer than `MAX_DIGIT_RUN`.
pub open spec fn digit_runs_bounded(s: Seq<char>) -> bool {
    forall|i: int| 0 <= i <= s.len() ==> #[trigger] digit_run(s, i) <= MAX_DIGIT_RUN
}

/// Whether no run of decimal digits in `s` is longer than `MAX_DIGIT_RUN`.
pub fn digit_runs_ok(s: &str) -> (r: bool)
    ensures
        r == digit_runs_bounded(s@),
{
    broadcast use vstd::string::axiom_spec_iter, vstd::string::next_postcondition;

    let mut it = s.chars();
    let ghost n = s@.len() as int;
    let ghost i: int = 0;
    let mut run: usize = 0;
    assert(s@.subrange(0, n) == s@);
    loop
        invariant
            n == s@.len(),
            0 <= i <= n,
            it.obeys_prophetic_iter_laws(),
            it.remaining() == s@.subrange(i, n),
            run == digit_run(s@, i),
            forall|j: int| 0 <= j <= i ==> #[trigger] digit_run(s@, j) <= MAX_DIGIT_RUN,
        decreases n - i,
    {
        match it.next() {
            None => {
                assert(i == n);
                return true;
            },
            Some(c) => {
                assert(c == s@[i]);
                assert(it.remaining() =~= s@.subrange(i + 1, n));
                if '0' <= c && c <= '9' {
                    run = run + 1;
                } else {
                    run = 0;
                }
                proof {
                    i = i + 1;
                    assert(run == digit_run(s@, i));
                }
                if run > MAX_DIGIT_RUN {
                    assert(digit_run(s@, i) > MAX_DIGIT_RUN);
                    return false;
                }
            },
        }
    }
}

} // verus!
