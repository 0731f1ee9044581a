//! Decimal text to fixed-point integers (scale 1e-6), truncating.

use vstd::prelude::*;

verus! {

/// Units per whole: a fixed-point value `v` stands for `v / 1_000_000`.
pub const SCALE: u64 = 1_000_000;

pub open spec fn is_digit(c: char) -> bool {
    '0' <= c && c <= '9'
}

pub open spec fn digit_val(c: char) -> nat {
    (c as int - '0' as int) as nat
}

/// The number that a string of decimal digits spells, most significant first.
pub open spec fn digits_value(s: Seq<char>) -> nat
    decreases s.len(),
{
    if s.len() == 0 {
        0
    } else {
        digits_value(s.drop_last()) * 10 + digit_val(s.last())
    }
}

/// Digits with at most one decimal point, and at least one digit.
pub open spec fn is_decimal_text(s: Seq<char>) -> bool {
    &&& forall|i: int| 0 <= i < s.len() ==> is_digit(#[trigger] s[i]) || s[i] == '.'
    &&& forall|i: int, j: int|
        0 <= i < s.len() && 0 <= j < s.len() && #[trigger] s[i] == '.' && #[trigger] s[j] == '.'
            ==> i == j
    &&& s.len() >= 1
    &&& s != seq!['.']
}

/// Where the decimal point stands, or the length when there is none.
pub open spec fn point_index(s: Seq<char>) -> int {
    if exists|k: int| 0 <= k < s.len() && s[k] == '.' {
        choose|k: int| 0 <= k < s.len() && s[k] == '.'
    } else {
        s.len() as int
    }
}

/// The integer digits followed by exactly six fraction digits: the first six
/// after the point, padded with zeros.
pub open spec fn micro_digits(s: Seq<char>) -> Seq<char> {
    let k = point_index(s);
    s.take(k) + Seq::new(6, |j: int| if k + 1 + j < s.len() { s[k + 1 + j] } else { '0' })
}

/// The fixed-point value of decimal text: the decimal times 1e6, truncated,
/// saturating at `u64::MAX`; text that is not a plain decimal gives zero.
pub open spec fn fixed_of(s: Seq<char>) -> u64 {
    if is_decimal_text(s) {
        let v = digits_value(micro_digits(s));
        if v > u64::MAX { u64::MAX } else { v as u64 }
    } else {
        0
    }
}

/// The fixed-point value of plain decimal text, or `None` for other text.
pub open spec fn parsed_fixed(s: Seq<char>) -> Option<u64> {
    if is_decimal_text(s) {
        Some(saturate(digits_value(micro_digits(s))))
    } else {
        None
    }
}

pub open spec fn saturate(v: nat) -> u64 {
    if v > u64::MAX { u64::MAX } else { v as u64 }
}

proof fn lemma_push_digit(v: nat, d: nat, acc: u64)
    requires
        acc == saturate(v),
        d <= 9,
    ensures
        saturate(v * 10 + d) == (if acc as int > (u64::MAX as int - d) / 10 { u64::MAX as int } else {
            acc as int * 10 + d
        }),
{
    if v > u64::MAX {
        assert(v * 10 + d > u64::MAX) by (nonlinear_arith)
            requires v > u64::MAX;
    } else {
        assert(acc as int > (u64::MAX as int - d) / 10 <==> v * 10 + d > u64::MAX) by (nonlinear_arith)
            requires acc == v, d <= 9, v <= u64::MAX;
    }
}

fn push_digit(acc: u64, c: char, Ghost(v): Ghost<nat>) -> (r: u64)
    requires
        acc == saturate(v),
        is_digit(c),
    ensures
        r == saturate(v * 10 + digit_val(c)),
{
    let d: u64 = (c as u32 - '0' as u32) as u64;
    proof {
        lemma_push_digit(v, digit_val(c), acc);
    }
    if acc > (u64::MAX - d) / 10 {
        u64::MAX
    } else {
        acc * 10 + d
    }
}

/// Reads decimal text such as `"145.85"` as fixed-point (`145_850_000`): the
/// value times 1e6, truncated, saturating at `u64::MAX`. Text that is not
/// digits with at most one point (and at least one digit) gives `None`.
pub fn parse_fixed(s: &str) -> (r: Option<u64>)
    ensures
        r == parsed_fixed(s@),
{
    let n = s.unicode_len();
    let mut dot: usize = n;
    let mut i: usize = 0;
    while i < n
        invariant
            n == s@.len(),
            i <= n,
            dot == n || (dot < i && s@[dot as int] == '.'),
            forall|j: int| 0 <= j < i ==> is_digit(#[trigger] s@[j]) || s@[j] == '.',
            forall|j: int| 0 <= j < i && #[trigger] s@[j] == '.' ==> j == dot,
        decreases n - i,
    {
        let c = s.get_char(i);
        if c == '.' {
            if dot < n {
                return None;
            }
            dot = i;
        } else if !('0' <= c && c <= '9') {
            return None;
        }
        i = i + 1;
    }
    if n == 0 || (n == 1 && dot == 0) {
        proof {
            if n == 1 {
                assert(s@ =~= seq!['.']);
            }
        }
        return None;
    }
    let ghost t = s@;
    assert(is_decimal_text(t)) by {
        if t =~= seq!['.'] {
            assert(t[0] == '.');
        }
    }
    proof {
        if dot < n {
            assert(t[dot as int] == '.');
        } else {
            assert(!(exists|k: int| 0 <= k < t.len() && t[k] == '.'));
        }
    }
    assert(point_index(t) == dot as int);
    let ghost m = micro_digits(t);
    assert(forall|j: int| 0 <= j < dot ==> is_digit(#[trigger] t[j]) && m[j] == t[j]);
    let mut acc: u64 = 0;
    let mut k: usize = 0;
    assert(m.take(0) =~= Seq::<char>::empty());
    while k < dot
        invariant
            n == t.len(),
            dot <= n,
            k <= dot,
            m == micro_digits(t),
            point_index(t) == dot as int,
            forall|j: int| 0 <= j < dot ==> is_digit(#[trigger] t[j]) && m[j] == t[j],
            acc == saturate(digits_value(m.take(k as int))),
            t == s@,
        decreases dot - k,
    {
        let c = s.get_char(k);
        assert(m.take(k + 1).drop_last() =~= m.take(k as int));
        acc = push_digit(acc, c, Ghost(digits_value(m.take(k as int))));
        k = k + 1;
    }
    let mut j: usize = 0;
    while j < 6
        invariant
            n == t.len(),
            dot <= n,
            j <= 6,
            m == micro_digits(t),
            point_index(t) == dot as int,
            is_decimal_text(t),
            acc == saturate(digits_value(m.take(dot + j))),
            t == s@,
        decreases 6 - j,
    {
        let c = if dot < n && j < n - dot - 1 {
            s.get_char(dot + 1 + j)
        } else {
            '0'
        };
        assert(m[dot + j] == c);
        assert(dot < n && j < n - dot - 1 ==> t[dot + 1 + j] != '.');
        assert(m.take(dot + j + 1).drop_last() =~= m.take(dot + j));
        acc = push_digit(acc, c, Ghost(digits_value(m.take(dot + j))));
        j = j + 1;
    }
    assert(m.take(dot + 6) =~= m);
    Some(acc)
}

/// Converts decimal text to fixed-point, reading anything else as zero.
pub fn to_fixed(s: &str) -> (r: u64)
    ensures
        r == fixed_of(s@),
{
    match parse_fixed(s) {
        Some(v) => v,
        None => 0,
    }
}

} // verus!
