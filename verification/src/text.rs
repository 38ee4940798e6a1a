//! Text helpers shared by the rest of the library: comparison, decimal
//! rendering and decimal parsing, each with an exact contract over `Seq<char>`.
use vstd::prelude::*;

verus! {

/// Equality of two string slices: `str`'s own `==`, which std documents as
/// comparing the two slices character by character.
#[verifier::external_body]
pub(crate) fn str_eq(a: &str, b: &str) -> (r: bool)
    ensures
        r == (a@ == b@),
{
    a == b
}

/// What `str::trim` leaves of a text: the text without its leading and trailing
/// whitespace, whitespace being the Unicode property `White_Space`.
pub uninterp spec fn spec_trim(s: Seq<char>) -> Seq<char>;

/// `str::trim`: the result is the argument's `spec_trim`.
#[verifier::external_body]
pub(crate) fn trim(s: &str) -> (r: &str)
    ensures
        r@ == spec_trim(s@),
{
    s.trim()
}

/// A text is blank when nothing is left after trimming it.
pub open spec fn spec_is_blank(s: Seq<char>) -> bool {
    spec_trim(s).len() == 0
}

pub fn is_blank(s: &str) -> (r: bool)
    ensures
        r == spec_is_blank(s@),
{
    trim(s).is_empty()
}

/// The characters of a string slice, in order.
pub fn to_chars(s: &str) -> (r: Vec<char>)
    ensures
        r@ == s@,
{
    let mut out: Vec<char> = Vec::new();
    for c in it: s.chars()
        invariant
            out@ == it.seq().take(it.index() as int),
            it.seq() == s@,
    {
        out.push(c);
    }
    out
}

pub fn clone_opt_string(o: &Option<String>) -> (r: Option<String>)
    ensures
        r.deep_view() == o.deep_view(),
{
    match o {
        Some(s) => Some(s.clone()),
        None => None,
    }
}

/// The text of an optional string, or the empty text.
pub open spec fn spec_or_empty(o: Option<Seq<char>>) -> Seq<char> {
    match o {
        Some(s) => s,
        None => Seq::empty(),
    }
}

pub fn or_empty(o: &Option<String>) -> (r: &str)
    ensures
        r@ == spec_or_empty(o.deep_view()),
{
    match o {
        Some(s) => s.as_str(),
        None => {
            proof {
                reveal_strlit("");
            }
            ""
        },
    }
}

// ---------------------------------------------------------------------------
// Decimal digits
// ---------------------------------------------------------------------------

pub open spec fn digit_char(d: int) -> char {
    if d == 0 {
        '0'
    } else if d == 1 {
        '1'
    } else if d == 2 {
        '2'
    } else if d == 3 {
        '3'
    } else if d == 4 {
        '4'
    } else if d == 5 {
        '5'
    } else if d == 6 {
        '6'
    } else if d == 7 {
        '7'
    } else if d == 8 {
        '8'
    } else {
        '9'
    }
}

pub open spec fn is_digit(c: char) -> bool {
    '0' <= c && c <= '9'
}

pub open spec fn digit_value(c: char) -> int {
    c as int - '0' as int
}

/// Decimal digits of a natural number, most significant first, no padding.
pub open spec fn spec_decimal_nat(n: nat) -> Seq<char>
    decreases n,
{
    if n < 10 {
        seq![digit_char(n as int)]
    } else {
        spec_decimal_nat(n / 10).push(digit_char((n % 10) as int))
    }
}

/// Decimal text of an integer: a minus sign for negatives, then the digits.
pub open spec fn spec_decimal(v: int) -> Seq<char> {
    if v < 0 {
        seq!['-'] + spec_decimal_nat((-v) as nat)
    } else {
        spec_decimal_nat(v as nat)
    }
}

fn digit_str(d: u8) -> (r: &'static str)
    requires
        d < 10,
    ensures
        r@ == seq![digit_char(d as int)],
{
    proof {
        reveal_strlit("0");
        reveal_strlit("1");
        reveal_strlit("2");
        reveal_strlit("3");
        reveal_strlit("4");
        reveal_strlit("5");
        reveal_strlit("6");
        reveal_strlit("7");
        reveal_strlit("8");
        reveal_strlit("9");
    }
    let r = if d == 0 {
        "0"
    } else if d == 1 {
        "1"
    } else if d == 2 {
        "2"
    } else if d == 3 {
        "3"
    } else if d == 4 {
        "4"
    } else if d == 5 {
        "5"
    } else if d == 6 {
        "6"
    } else if d == 7 {
        "7"
    } else if d == 8 {
        "8"
    } else {
        "9"
    };
    r
}

/// Digits of `n`, least significant first.
spec fn spec_digits_rev(n: nat) -> Seq<u8>
    decreases n,
{
    if n < 10 {
        seq![n as u8]
    } else {
        seq![(n % 10) as u8] + spec_digits_rev(n / 10)
    }
}

/// Text made of the last `k` entries of `rev`, read backwards.
spec fn spec_render_rev(rev: Seq<u8>, k: nat) -> Seq<char>
    decreases k,
{
    if k == 0 || k > rev.len() {
        Seq::empty()
    } else {
        seq![digit_char(rev[rev.len() - 1] as int)] + spec_render_rev(rev.drop_last(), (k - 1) as nat)
    }
}

proof fn lemma_render_rev(n: nat)
    ensures
        spec_render_rev(spec_digits_rev(n), spec_digits_rev(n).len()) == spec_decimal_nat(n),
        spec_digits_rev(n).len() >= 1,
    decreases n,
{
    let rev = spec_digits_rev(n);
    if n < 10 {
        assert(spec_render_rev(rev.drop_last(), 0) =~= Seq::<char>::empty());
    } else {
        lemma_render_rev(n / 10);
        let hi = spec_digits_rev(n / 10);
        lemma_render_prepend((n % 10) as u8, hi, hi.len());
    }
}

/// Rendering the last `k` entries ignores whatever stands before them.
proof fn lemma_render_prepend(d: u8, hi: Seq<u8>, k: nat)
    requires
        k <= hi.len(),
        d < 10,
    ensures
        spec_render_rev(seq![d] + hi, k) == spec_render_rev(hi, k),
        k == hi.len() ==> spec_render_rev(seq![d] + hi, k + 1) == spec_render_rev(hi, k).push(
            digit_char(d as int),
        ),
    decreases k,
{
    let all = seq![d] + hi;
    if k == 0 {
        if hi.len() == 0 {
            assert(spec_render_rev(all, 1) =~= seq![digit_char(d as int)] + spec_render_rev(
                all.drop_last(),
                0,
            ));
        }
    } else {
        assert(all.drop_last() =~= seq![d] + hi.drop_last());
        lemma_render_prepend(d, hi.drop_last(), (k - 1) as nat);
    }
}

/// Decimal text of an integer.
pub fn decimal_string(v: i128) -> (r: String)
    requires
        v > i128::MIN,
    ensures
        r@ == spec_decimal(v as int),
{
    let mut rest: u128 = if v < 0 {
        (-v) as u128
    } else {
        v as u128
    };
    let ghost n: nat = rest as nat;
    let mut rev: Vec<u8> = Vec::new();
    rev.push((rest % 10) as u8);
    rest = rest / 10;
    while rest > 0
        invariant
            rev@.len() >= 1,
            rest == 0 ==> rev@ == spec_digits_rev(n),
            rest > 0 ==> rev@ + spec_digits_rev(rest as nat) == spec_digits_rev(n),
            forall|i: int| 0 <= i < rev@.len() ==> rev@[i] < 10,
        decreases rest,
    {
        let ghost before = rev@;
        rev.push((rest % 10) as u8);
        rest = rest / 10;
    }
    proof {
        lemma_render_rev(n);
    }
    let mut out = String::new();
    if v < 0 {
        out.append("-");
        proof {
            reveal_strlit("-");
        }
    }
    let ghost sign = out@;
    let mut k: usize = rev.len();
    assert(rev@.take(k as int) =~= rev@);
    while k > 0
        invariant
            k <= rev@.len(),
            forall|i: int| 0 <= i < rev@.len() ==> rev@[i] < 10,
            out@ + spec_render_rev(rev@.take(k as int), k as nat) == sign + spec_render_rev(
                rev@,
                rev@.len(),
            ),
        decreases k,
    {
        let ghost cur = rev@.take(k as int);
        let ghost before = out@;
        k = k - 1;
        let d = rev[k];
        out.append(digit_str(d));
        proof {
            assert(cur.drop_last() =~= rev@.take(k as int));
            assert(out@ + spec_render_rev(rev@.take(k as int), k as nat) =~= before
                + spec_render_rev(cur, (k + 1) as nat));
        }
    }
    out
}

// ---------------------------------------------------------------------------
// Parsing decimals
// ---------------------------------------------------------------------------

pub open spec fn all_digits(s: Seq<char>) -> bool {
    forall|i: int| 0 <= i < s.len() ==> is_digit(#[trigger] s[i])
}

/// Value of a run of decimal digits (0 for the empty run).
pub open spec fn spec_digits_value(s: Seq<char>) -> nat
    decreases s.len(),
{
    if s.len() == 0 {
        0
    } else {
        (spec_digits_value(s.drop_last()) * 10 + digit_value(s.last())) as nat
    }
}

/// A decimal integer as `str::parse` of the integer types reads it: an
/// optional sign (`-` only where `signed`), then one or more ASCII digits, and
/// the value within `min ..= max`. Anything else is `None`.
pub open spec fn spec_parse_int(s: Seq<char>, signed: bool, min: int, max: int) -> Option<int> {
    if s.len() == 0 {
        None
    } else {
        let negative = signed && s[0] == '-';
        let body = if s[0] == '+' || negative {
            s.skip(1)
        } else {
            s
        };
        if body.len() == 0 || !all_digits(body) {
            None
        } else {
            let magnitude = spec_digits_value(body) as int;
            let value = if negative {
                -magnitude
            } else {
                magnitude
            };
            if min <= value <= max {
                Some(value)
            } else {
                None
            }
        }
    }
}

proof fn lemma_digits_value_grows(s: Seq<char>, k: int)
    requires
        0 <= k <= s.len(),
        all_digits(s),
    ensures
        spec_digits_value(s.take(k)) <= spec_digits_value(s),
    decreases s.len() - k,
{
    if k == s.len() {
        assert(s.take(k) =~= s);
    } else {
        lemma_digits_value_grows(s, k + 1);
        assert(s.take(k + 1).drop_last() =~= s.take(k));
    }
}

/// Reads `chars[from..to]` as a decimal integer within `min ..= max`.
#[verifier::loop_isolation(false)]
pub fn parse_int_in(chars: &Vec<char>, from: usize, to: usize, signed: bool, min: i128, max: i128) -> (r:
    Option<i128>)
    requires
        from <= to <= chars@.len(),
        -0x8000_0000_0000_0000_0000_0000 <= min <= 0,
        0 <= max <= 0x8000_0000_0000_0000_0000_0000,
    ensures
        r.deep_view() == (match spec_parse_int(
            chars@.subrange(from as int, to as int),
            signed,
            min as int,
            max as int,
        ) {
            Some(v) => Some(v as i128),
            None => None,
        }),
{
    let ghost s = chars@.subrange(from as int, to as int);
    if from == to {
        return None;
    }
    let first = chars[from];
    let negative = signed && first == '-';
    let start: usize = if first == '+' || negative {
        from + 1
    } else {
        from
    };
    let ghost body = chars@.subrange(start as int, to as int);
    assert(body =~= if s[0] == '+' || negative {
        s.skip(1)
    } else {
        s
    });
    if start == to {
        return None;
    }
    let bound: i128 = if negative {
        -min
    } else {
        max
    };
    let mut acc: i128 = 0;
    let mut i: usize = start;
    while i < to
        invariant
            start <= i <= to,
            to <= chars@.len(),
            body == chars@.subrange(start as int, to as int),
            all_digits(body.take(i - start)),
            acc == spec_digits_value(body.take(i - start)),
            0 <= acc <= bound,
            0 <= bound <= 0x8000_0000_0000_0000_0000_0000,
        decreases to - i,
    {
        let c = chars[i];
        if !('0' <= c && c <= '9') {
            assert(!is_digit(body[i - start]));
            return None;
        }
        let d: i128 = (c as u32 - '0' as u32) as i128;
        proof {
            assert(body.take(i - start + 1).drop_last() =~= body.take(i - start));
        }
        let next: i128 = acc * 10 + d;
        if next > bound {
            proof {
                if all_digits(body) {
                    lemma_digits_value_grows(body, i - start + 1);
                }
            }
            return None;
        }
        acc = next;
        i = i + 1;
    }
    assert(body.take(to - start) =~= body);
    if negative {
        Some(-acc)
    } else {
        Some(acc)
    }
}

/// The decimal digits of a number are digits, and their value is the
/// number.
pub proof fn lemma_decimal_nat(n: nat)
    ensures
        spec_decimal_nat(n).len() >= 1,
        all_digits(spec_decimal_nat(n)),
        spec_digits_value(spec_decimal_nat(n)) == n,
    decreases n,
{
    let s = spec_decimal_nat(n);
    if n < 10 {
        assert(spec_digits_value(s.drop_last()) == 0);
    } else {
        lemma_decimal_nat(n / 10);
        let front = spec_decimal_nat(n / 10);
        assert(s.drop_last() =~= front);
    }
}

/// A number that is printed and read back is the number: the decimal text
/// of an `i64` reads as that `i64`.
pub proof fn law_decimal_round_trip(v: i64)
    ensures
        spec_parse_i64(spec_decimal(v as int)) == Some(v),
{
    let s = spec_decimal(v as int);
    if v < 0 {
        let digits = spec_decimal_nat((-v) as nat);
        lemma_decimal_nat((-v) as nat);
        assert(s.skip(1) =~= digits);
    } else {
        lemma_decimal_nat(v as nat);
    }
}

/// Text to `i64`, as `str::parse::<i64>` reads it.
pub open spec fn spec_parse_i64(s: Seq<char>) -> Option<i64> {
    match spec_parse_int(s, true, i64::MIN as int, i64::MAX as int) {
        Some(v) => Some(v as i64),
        None => None,
    }
}

pub fn parse_i64(s: &str) -> (r: Option<i64>)
    ensures
        r == spec_parse_i64(s@),
{
    let chars = to_chars(s);
    assert(chars@.subrange(0, chars@.len() as int) =~= s@);
    match parse_int_in(&chars, 0, chars.len(), true, i64::MIN as i128, i64::MAX as i128) {
        Some(v) => Some(v as i64),
        None => None,
    }
}


/// Whether a text ends in `suffix`.
pub open spec fn spec_ends_with(s: Seq<char>, suffix: Seq<char>) -> bool {
    s.len() >= suffix.len() && s.skip(s.len() - suffix.len()) == suffix
}

#[verifier::loop_isolation(false)]
pub fn ends_with(s: &str, suffix: &str) -> (r: bool)
    ensures
        r == spec_ends_with(s@, suffix@),
{
    let text = to_chars(s);
    let tail = to_chars(suffix);
    if text.len() < tail.len() {
        return false;
    }
    let offset: usize = text.len() - tail.len();
    let ghost end = text@.skip(offset as int);
    let mut i: usize = 0;
    while i < tail.len()
        invariant
            i <= tail@.len(),
            offset + tail@.len() == text@.len(),
            end == text@.skip(offset as int),
            forall|j: int| 0 <= j < i ==> end[j] == tail@[j],
        decreases tail.len() - i,
    {
        if text[offset + i] != tail[i] {
            return false;
        }
        i = i + 1;
    }
    assert(end =~= tail@);
    true
}

/// A text without the run of `c` that it starts with.
pub open spec fn spec_strip_leading(s: Seq<char>, c: char) -> Seq<char>
    decreases s.len(),
{
    if s.len() > 0 && s[0] == c {
        spec_strip_leading(s.drop_first(), c)
    } else {
        s
    }
}

proof fn lemma_strip_leading(s: Seq<char>, c: char, k: int)
    requires
        0 <= k <= s.len(),
        forall|j: int| 0 <= j < k ==> s[j] == c,
        k < s.len() ==> s[k] != c,
    ensures
        spec_strip_leading(s, c) == s.skip(k),
    decreases k,
{
    if k > 0 {
        lemma_strip_leading(s.drop_first(), c, k - 1);
    }
}

pub fn strip_leading(s: &str, c: char) -> (r: String)
    ensures
        r@ == spec_strip_leading(s@, c),
{
    let chars = to_chars(s);
    let mut k: usize = 0;
    while k < chars.len() && chars[k] == c
        invariant
            k <= chars@.len(),
            forall|j: int| 0 <= j < k ==> chars@[j] == c,
        decreases chars.len() - k,
    {
        k = k + 1;
    }
    proof {
        lemma_strip_leading(s@, c, k as int);
    }
    String::from_str(s.substring_char(k, chars.len()))
}

} // verus!
