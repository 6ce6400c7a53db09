use vstd::prelude::*;

verus! {

/// `String::push` appends one character to the end of the string.
pub assume_specification[ String::push ](s: &mut String, ch: char)
    ensures
        final(s)@ == old(s)@.push(ch),
;

/// The ASCII character of a decimal digit `d`, `0 <= d < 10`.
pub open spec fn digit_char(d: int) -> char {
    (d + 48) as char
}

/// Whether `c` is one of the ASCII digits `0` to `9`.
pub open spec fn is_digit(c: char) -> bool {
    '0' <= c && c <= '9'
}

/// The value of an ASCII digit character.
pub open spec fn digit_value(c: char) -> nat {
    (c as int - 48) as nat
}

/// The decimal form of a natural number, most significant digit first,
/// without leading zeros (zero itself is written `0`).
pub open spec fn decimal(n: nat) -> Seq<char>
    decreases n,
{
    if n < 10 {
        seq![digit_char(n as int)]
    } else {
        decimal(n / 10).push(digit_char((n % 10) as int))
    }
}

/// The decimal form of an integer: a minus sign in front of negative values.
pub open spec fn signed_decimal(n: int) -> Seq<char> {
    if n < 0 {
        seq!['-'] + decimal((-n) as nat)
    } else {
        decimal(n as nat)
    }
}

/// The number that a sequence of digit characters denotes.
pub open spec fn digits_value(d: Seq<char>) -> nat
    decreases d.len(),
{
    if d.len() == 0 {
        0
    } else {
        digits_value(d.drop_last()) * 10 + digit_value(d.last())
    }
}

/// The part of a number's text that must be digits: an optional leading `+`
/// is not part of it.
pub open spec fn unsigned_digits(s: Seq<char>) -> Seq<char> {
    if s.len() > 0 && s[0] == '+' {
        s.drop_first()
    } else {
        s
    }
}

/// What parsing `s` as an unsigned integer no greater than `max` gives: an
/// optional `+` followed by at least one ASCII digit and nothing else, whose
/// value does not exceed `max`.
pub open spec fn parse_unsigned(s: Seq<char>, max: nat) -> Option<nat> {
    let d = unsigned_digits(s);
    if d.len() > 0 && (forall|i: int| 0 <= i < d.len() ==> is_digit(#[trigger] d[i]))
        && digits_value(d) <= max {
        Some(digits_value(d))
    } else {
        None
    }
}

fn digit_to_char(d: u64) -> (c: char)
    requires
        d < 10,
    ensures
        c == digit_char(d as int),
{
    let b: u8 = 48u8 + (d as u8);
    b as char
}

/// Appends the decimal form of `n` to `s`.
fn push_decimal(s: &mut String, n: u64)
    ensures
        final(s)@ == old(s)@ + decimal(n as nat),
    decreases n,
{
    if n >= 10 {
        push_decimal(s, n / 10);
    }
    let c = digit_to_char(n % 10);
    s.push(c);
    proof {
        if n >= 10 {
            assert(decimal(n as nat) == decimal((n / 10) as nat).push(digit_char((n % 10) as int)));
        }
    }
    assert(s@ =~= old(s)@ + decimal(n as nat));
}

/// The decimal text of an unsigned integer.
pub fn u64_to_decimal(n: u64) -> (res: String)
    ensures
        res@ == decimal(n as nat),
{
    let mut s = String::new();
    push_decimal(&mut s, n);
    assert(s@ =~= decimal(n as nat));
    s
}

/// The decimal text of a signed integer.
pub fn i64_to_decimal(n: i64) -> (res: String)
    ensures
        res@ == signed_decimal(n as int),
{
    let mut s = String::new();
    if n < 0 {
        s.push('-');
        let m: u64 = (0i128 - (n as i128)) as u64;
        push_decimal(&mut s, m);
    } else {
        push_decimal(&mut s, n as u64);
    }
    assert(s@ =~= signed_decimal(n as int));
    s
}

/// Parses `text` as an unsigned integer no greater than `max`, in the manner
/// of the standard library's integer parsing: an optional `+`, then one or
/// more ASCII digits, and no other character.
pub fn parse_decimal(text: &str, max: u64) -> (res: Option<u64>)
    ensures
        res matches Some(n) ==> parse_unsigned(text@, max as nat) == Some(n as nat),
        res is None ==> parse_unsigned(text@, max as nat) is None,
{
    let ghost s = text@;
    let ghost d = unsigned_digits(s);
    let ghost skip: int = if s.len() > 0 && s[0] == '+' { 1 } else { 0 };
    let mut value: u64 = 0;
    let ghost mut count: int = 0;
    let mut seen_digit = false;
    let mut first = true;
    let mut ok = true;
    for c in it: text.chars()
        invariant
            it.seq() == s,
            d == unsigned_digits(s),
            skip == (if s.len() > 0 && s[0] == '+' { 1int } else { 0int }),
            first == (it.index() == 0),
            seen_digit == (count > 0),
            ok ==> it.index() >= skip ==> count == it.index() - skip,
            ok ==> it.index() < skip ==> count == 0,
            ok ==> forall|j: int| 0 <= j < count ==> is_digit(#[trigger] d[j]),
            ok ==> value == digits_value(d.take(count)),
            ok ==> value <= max,
            !ok ==> parse_unsigned(s, max as nat) is None,
    {
        if ok {
            if first && c == '+' {
            } else if '0' <= c && c <= '9' {
                let digit: u64 = (c as u64) - 48;
                proof {
                    assert(d[count] == c);
                    assert(d.take(count + 1).drop_last() =~= d.take(count));
                }
                match value.checked_mul(10) {
                    Some(v10) => {
                        match v10.checked_add(digit) {
                            Some(v) => {
                                if v <= max {
                                    value = v;
                                    seen_digit = true;
                                    proof { count = count + 1; }
                                } else {
                                    ok = false;
                                    proof { lemma_prefix_bound(d, count + 1, max as nat); }
                                }
                            },
                            None => {
                                ok = false;
                                proof { lemma_prefix_bound(d, count + 1, max as nat); }
                            },
                        }
                    },
                    None => {
                        ok = false;
                        proof { lemma_prefix_bound(d, count + 1, max as nat); }
                    },
                }
            } else {
                ok = false;
                proof {
                    if it.index() >= skip {
                        assert(d[count] == c);
                    }
                }
            }
        }
        first = false;
    }
    if ok && seen_digit {
        proof {
            assert(d.take(count) =~= d);
        }
        Some(value)
    } else {
        None
    }
}

/// The value of a digit string is at least the value of any of its prefixes,
/// so a prefix that exceeds `max` rules the whole string out.
proof fn lemma_prefix_bound(d: Seq<char>, k: int, max: nat)
    requires
        0 < k <= d.len(),
        digits_value(d.take(k)) > max,
    ensures
        digits_value(d) > max,
    decreases d.len() - k,
{
    if k < d.len() {
        assert(d.take(k + 1).drop_last() =~= d.take(k));
        lemma_prefix_bound(d, k + 1, max);
    } else {
        assert(d.take(k) =~= d);
    }
}

/// Decimal text is made of digits only, the first of them never `+`.
proof fn lemma_decimal_digits(n: nat)
    ensures
        decimal(n).len() > 0,
        forall|i: int| 0 <= i < decimal(n).len() ==> is_digit(#[trigger] decimal(n)[i]),
        digits_value(decimal(n)) == n,
    decreases n,
{
    if n >= 10 {
        lemma_decimal_digits(n / 10);
        let d = decimal(n);
        assert(d.drop_last() =~= decimal(n / 10));
        assert(d.last() == digit_char((n % 10) as int));
        assert(digit_value(digit_char((n % 10) as int)) == n % 10);
        assert(digits_value(d) == digits_value(decimal(n / 10)) * 10 + n % 10);
        assert(n == (n / 10) * 10 + n % 10);
    } else {
        let d = decimal(n);
        assert(digit_value(digit_char(n as int)) == n);
        assert(d.drop_last() =~= Seq::<char>::empty());
        assert(digits_value(d) == digits_value(d.drop_last()) * 10 + digit_value(d.last()));
    }
}

/// Reading back the decimal text of a number gives the number: the
/// configuration parser accepts every value the bot writes out.
pub proof fn lemma_parse_decimal_round_trip(n: nat, max: nat)
    requires
        n <= max,
    ensures
        parse_unsigned(decimal(n), max) == Some(n),
{
    lemma_decimal_digits(n);
    let d = decimal(n);
    assert(is_digit(d[0]));
    assert(unsigned_digits(d) == d);
}

/// A leading `+` does not change the number that is read.
pub proof fn lemma_parse_plus_sign(s: Seq<char>, max: nat)
    requires
        s.len() == 0 || s[0] != '+',
    ensures
        parse_unsigned(seq!['+'] + s, max) == parse_unsigned(s, max),
{
    assert((seq!['+'] + s).drop_first() =~= s);
}

/// Different numbers have different decimal forms.
pub proof fn lemma_decimal_injective(a: nat, b: nat)
    requires
        a != b,
    ensures
        decimal(a) != decimal(b),
{
    lemma_decimal_digits(a);
    lemma_decimal_digits(b);
}

} // verus!
