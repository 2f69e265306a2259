use vstd::prelude::*;

verus! {

/// Whether `c` is an ASCII decimal digit.
pub open spec fn is_digit(c: char) -> bool {
    '0' <= c && c <= '9'
}

/// Whether every character of `s` is an ASCII decimal digit.
pub open spec fn all_digits(s: Seq<char>) -> bool {
    forall|i: int| 0 <= i < s.len() ==> is_digit(#[trigger] s[i])
}

/// The value of a digit character.
pub open spec fn digit_value(c: char) -> nat {
    (c as nat - '0' as nat) as nat
}

/// The digit character for a value below ten.
pub open spec fn digit_char(d: nat) -> char {
    (d + '0' as nat) as char
}

/// The number that a run of decimal digits denotes, most significant first.
pub open spec fn digits_value(s: Seq<char>) -> nat
    decreases s.len(),
{
    if s.len() == 0 {
        0
    } else {
        digits_value(s.drop_last()) * 10 + digit_value(s.last())
    }
}

/// The shortest decimal rendering of `n`.
pub open spec fn decimal(n: nat) -> Seq<char>
    decreases n,
{
    if n < 10 {
        seq![digit_char(n)]
    } else {
        decimal(n / 10).push(digit_char(n % 10))
    }
}

/// The digits of an unsigned number's text: one leading `+` is allowed.
pub open spec fn unsigned_digits(s: Seq<char>) -> Seq<char> {
    if s.len() > 0 && s[0] == '+' {
        s.skip(1)
    } else {
        s
    }
}

/// The value of `s` read as an unsigned decimal number no greater than `max`,
/// as Rust's `str::parse` reads unsigned integers.
pub open spec fn parse_unsigned(s: Seq<char>, max: nat) -> Option<nat> {
    let d = unsigned_digits(s);
    if d.len() > 0 && all_digits(d) && digits_value(d) <= max {
        Some(digits_value(d))
    } else {
        None
    }
}

/// The value of `s` read as a boolean: exactly `true` or `false`.
pub open spec fn parse_bool(s: Seq<char>) -> Option<bool> {
    if s == "true"@ {
        Some(true)
    } else if s == "false"@ {
        Some(false)
    } else {
        None
    }
}

/// The text of a boolean.
pub open spec fn bool_text(b: bool) -> Seq<char> {
    if b {
        "true"@
    } else {
        "false"@
    }
}

pub proof fn lemma_digits_value_prefix(s: Seq<char>, k: int)
    requires
        all_digits(s),
        0 <= k <= s.len(),
    ensures
        digits_value(s.take(k)) <= digits_value(s),
    decreases s.len(),
{
    if k < s.len() {
        assert(s.drop_last().take(k) =~= s.take(k));
        lemma_digits_value_prefix(s.drop_last(), k);
    } else {
        assert(s.take(k) =~= s);
    }
}

pub proof fn lemma_digit_char(k: nat)
    requires
        k < 10,
    ensures
        is_digit(digit_char(k)),
        digit_value(digit_char(k)) == k,
{
}

pub proof fn lemma_decimal_digits(n: nat)
    ensures
        decimal(n).len() > 0,
        all_digits(decimal(n)),
        digits_value(decimal(n)) == n,
    decreases n,
{
    lemma_digit_char(n % 10);
    if n >= 10 {
        lemma_decimal_digits(n / 10);
        let d = decimal(n);
        assert(d.last() == digit_char(n % 10));
        assert(digits_value(d) == digits_value(d.drop_last()) * 10 + digit_value(d.last()));
        assert((n / 10) * 10 + n % 10 == n);
        assert(d.drop_last() =~= decimal(n / 10));
        assert forall|i: int| 0 <= i < d.len() implies is_digit(#[trigger] d[i]) by {
            if i < d.len() - 1 {
                assert(d[i] == decimal(n / 10)[i]);
            }
        }
    } else {
        let d = decimal(n);
        assert(n % 10 == n);
        assert(d.drop_last() =~= Seq::<char>::empty());
        assert(d.last() == digit_char(n));
        assert(digits_value(d) == digits_value(d.drop_last()) * 10 + digit_value(d.last()));
    }
}

/// A decimal rendering reads back as the number it renders.
pub proof fn lemma_parse_decimal(n: nat, max: nat)
    requires
        n <= max,
    ensures
        parse_unsigned(decimal(n), max) == Some(n),
{
    lemma_decimal_digits(n);
    assert(is_digit(decimal(n)[0]));
}

/// Relies on String::push: appends one character.
#[verifier::external_body]
pub(crate) fn push_char(s: &mut String, c: char)
    ensures
        final(s)@ == old(s)@.push(c),
{
    s.push(c)
}

/// The characters of `s`, in order.
pub fn chars_of(s: &str) -> (r: Vec<char>)
    ensures
        r@ == s@,
{
    let mut v: Vec<char> = Vec::new();
    for c in it: s.chars()
        invariant
            v@ == it.seq().take(it.index() as int),
            it.seq() == s@,
    {
        v.push(c);
    }
    v
}

/// The text made of the characters `v[lo..hi]`.
pub fn string_of(v: &Vec<char>, lo: usize, hi: usize) -> (r: String)
    requires
        lo <= hi <= v.len(),
    ensures
        r@ == v@.subrange(lo as int, hi as int),
{
    let mut s = String::new();
    let mut i: usize = lo;
    while i < hi
        invariant
            lo <= i <= hi <= v.len(),
            s@ == v@.subrange(lo as int, i as int),
        decreases hi - i,
    {
        push_char(&mut s, v[i]);
        i = i + 1;
        assert(s@ =~= v@.subrange(lo as int, i as int));
    }
    s
}

/// Appends the decimal rendering of `n` to `s`.
pub fn push_decimal(s: &mut String, n: u32)
    ensures
        final(s)@ == old(s)@ + decimal(n as nat),
    decreases n,
{
    if n >= 10 {
        push_decimal(s, n / 10);
    }
    let d: u32 = n % 10;
    let c: char = ((d as u8) + 48u8) as char;
    push_char(s, c);
    proof {
        if n >= 10 {
            assert(decimal(n as nat) == decimal((n / 10) as nat).push(digit_char((n % 10) as nat)));
        }
    }
    assert(final(s)@ =~= old(s)@ + decimal(n as nat));
}

/// Reads `v[lo..hi]` as an unsigned decimal number no greater than `max`, as
/// Rust's `str::parse` reads unsigned integers.
pub fn parse_unsigned_range(v: &Vec<char>, lo: usize, hi: usize, max: u64) -> (r: Option<u64>)
    requires
        lo <= hi <= v.len(),
    ensures
        match r {
            Some(n) => parse_unsigned(v@.subrange(lo as int, hi as int), max as nat) == Some(n as nat),
            None => parse_unsigned(v@.subrange(lo as int, hi as int), max as nat) is None,
        },
{
    let ghost s = v@.subrange(lo as int, hi as int);
    let mut start: usize = lo;
    if lo < hi && v[lo] == '+' {
        start = lo + 1;
    }
    let ghost d = v@.subrange(start as int, hi as int);
    assert(d =~= unsigned_digits(s));
    if start == hi {
        return None;
    }
    let mut val: u64 = 0;
    let mut i: usize = start;
    while i < hi
        invariant
            lo <= start <= i <= hi <= v.len(),
            d == v@.subrange(start as int, hi as int),
            d == unsigned_digits(v@.subrange(lo as int, hi as int)),
            start < hi,
            all_digits(d.take(i - start)),
            val as nat == digits_value(d.take(i - start)),
            val <= max,
        decreases hi - i,
    {
        let c = v[i];
        assert(d[i - start] == c);
        if !('0' <= c && c <= '9') {
            assert(!is_digit(d[i - start]));
            assert(!all_digits(d));
            return None;
        }
        let dv: u64 = (c as u32 - 48) as u64;
        assert(d.take(i + 1 - start).drop_last() =~= d.take(i - start));
        assert(d.take(i + 1 - start).last() == c);
        assert(digit_value(c) == dv);
        if dv > max || val > (max - dv) / 10 {
            proof {
                assert(val * 10 + dv > max) by (nonlinear_arith)
                    requires dv > max || val > (max - dv) / 10;
                if all_digits(d) {
                    lemma_digits_value_prefix(d, i + 1 - start);
                }
            }
            return None;
        }
        assert(val * 10 + dv <= max) by (nonlinear_arith)
            requires val <= (max - dv) / 10, dv <= max;
        val = val * 10 + dv;
        i = i + 1;
    }
    assert(d.take(i - start) =~= d);
    Some(val)
}

} // verus!
