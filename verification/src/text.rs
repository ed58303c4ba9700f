//! Text building blocks shared by the modules: decimal and hexadecimal
//! renderings and string concatenation, each with its mathematical meaning.
use vstd::prelude::*;

verus! {

/// The character that stands for a digit value below 16, lower case.
pub open spec fn digit_char(d: nat) -> char {
    if d == 0 { '0' }
    else if d == 1 { '1' }
    else if d == 2 { '2' }
    else if d == 3 { '3' }
    else if d == 4 { '4' }
    else if d == 5 { '5' }
    else if d == 6 { '6' }
    else if d == 7 { '7' }
    else if d == 8 { '8' }
    else if d == 9 { '9' }
    else if d == 10 { 'a' }
    else if d == 11 { 'b' }
    else if d == 12 { 'c' }
    else if d == 13 { 'd' }
    else if d == 14 { 'e' }
    else { 'f' }
}

/// The decimal rendering of a natural number, without sign or leading zeros.
pub open spec fn decimal(n: nat) -> Seq<char>
    decreases n,
{
    if n < 10 {
        seq![digit_char(n)]
    } else {
        decimal(n / 10).push(digit_char(n % 10))
    }
}

/// Lower-case hexadecimal rendering of bytes, two digits per byte, most
/// significant nibble first.
pub open spec fn lower_hex(bytes: Seq<u8>) -> Seq<char>
    decreases bytes.len(),
{
    if bytes.len() == 0 {
        Seq::empty()
    } else {
        lower_hex(bytes.drop_last()) + seq![
            digit_char((bytes.last() / 16) as nat),
            digit_char((bytes.last() % 16) as nat),
        ]
    }
}

/// Two hex digits per byte.
pub proof fn lemma_lower_hex_len(bytes: Seq<u8>)
    ensures
        lower_hex(bytes).len() == 2 * bytes.len(),
    decreases bytes.len(),
{
    if bytes.len() > 0 {
        lemma_lower_hex_len(bytes.drop_last());
    }
}

/// Whether `c` is a lower-case hexadecimal digit.
pub open spec fn is_lower_hex_digit(c: char) -> bool {
    ||| c == '0' ||| c == '1' ||| c == '2' ||| c == '3'
    ||| c == '4' ||| c == '5' ||| c == '6' ||| c == '7'
    ||| c == '8' ||| c == '9' ||| c == 'a' ||| c == 'b'
    ||| c == 'c' ||| c == 'd' ||| c == 'e' ||| c == 'f'
}

/// Whether every character of `s` is a lower-case hexadecimal digit.
pub open spec fn all_lower_hex(s: Seq<char>) -> bool {
    forall|i: int| 0 <= i < s.len() ==> #[trigger] is_lower_hex_digit(s[i])
}

/// Every character of a hex rendering is a lower-case hex digit.
pub proof fn lemma_lower_hex_digits(bytes: Seq<u8>)
    ensures
        all_lower_hex(lower_hex(bytes)),
    decreases bytes.len(),
{
    if bytes.len() > 0 {
        lemma_lower_hex_digits(bytes.drop_last());
        let hi = digit_char((bytes.last() / 16) as nat);
        let lo = digit_char((bytes.last() % 16) as nat);
        assert(is_lower_hex_digit(hi) && is_lower_hex_digit(lo));
        let prev = lower_hex(bytes.drop_last());
        assert forall|i: int| 0 <= i < lower_hex(bytes).len() implies #[trigger] is_lower_hex_digit(
            lower_hex(bytes)[i],
        ) by {
            if i < prev.len() {
                assert(lower_hex(bytes)[i] == prev[i]);
            }
        }
    }
}

/// The character for a digit value below 16.
pub fn digit(d: u8) -> (c: char)
    requires
        d < 16,
    ensures
        c == digit_char(d as nat),
{
    match d {
        0 => '0',
        1 => '1',
        2 => '2',
        3 => '3',
        4 => '4',
        5 => '5',
        6 => '6',
        7 => '7',
        8 => '8',
        9 => '9',
        10 => 'a',
        11 => 'b',
        12 => 'c',
        13 => 'd',
        14 => 'e',
        _ => 'f',
    }
}

/// `String::push`: appends one character.
#[verifier::external_body]
pub(crate) fn push_char(s: &mut String, c: char)
    ensures
        final(s)@ == old(s)@.push(c),
{
    s.push(c);
}

/// `a` followed by `b`.
pub fn joined(a: &str, b: &str) -> (r: String)
    ensures
        r@ == a@ + b@,
{
    let mut r = a.to_owned();
    r.append(b);
    r
}

/// The decimal digits of `n`, as `{}` prints an unsigned integer.
pub fn decimal_string(n: u64) -> (r: String)
    ensures
        r@ == decimal(n as nat),
{
    // Collect the digits least significant first.
    let mut digits: Vec<char> = Vec::new();
    let mut m: u64 = n;
    let ghost mut rest: Seq<char> = Seq::empty();
    while m >= 10
        invariant
            decimal(n as nat) == decimal(m as nat) + rest,
            digits@.reverse() == rest,
        decreases m,
    {
        let d = (m % 10) as u8;
        proof {
            assert(decimal(m as nat) == decimal((m / 10) as nat).push(digit_char((m % 10) as nat)));
            assert(decimal((m / 10) as nat).push(digit_char(d as nat)) + rest
                =~= decimal((m / 10) as nat) + (seq![digit_char(d as nat)] + rest));
            rest = seq![digit_char(d as nat)] + rest;
        }
        digits.push(digit(d));
        assert(digits@.reverse() =~= rest);
        m = m / 10;
    }
    let mut r = String::new();
    push_char(&mut r, digit(m as u8));
    assert(r@ =~= decimal(m as nat));
    let mut i: usize = digits.len();
    while i > 0
        invariant
            i <= digits.len(),
            decimal(n as nat) == decimal(m as nat) + digits@.reverse(),
            r@ == decimal(m as nat) + digits@.subrange(i as int, digits.len() as int).reverse(),
        decreases i,
    {
        i = i - 1;
        push_char(&mut r, digits[i]);
        assert(digits@.subrange(i as int, digits.len() as int).reverse()
            =~= digits@.subrange(i + 1, digits.len() as int).reverse().push(digits@[i as int]));
    }
    assert(digits@.subrange(0, digits.len() as int) =~= digits@);
    r
}

/// Lower-case hexadecimal rendering of `bytes`, as `{:x}` prints a digest.
pub fn lower_hex_string(bytes: &[u8]) -> (r: String)
    ensures
        r@ == lower_hex(bytes@),
{
    let mut r = String::new();
    let n = bytes.len();
    for i in 0..n
        invariant
            n == bytes@.len(),
            r@ == lower_hex(bytes@.subrange(0, i as int)),
    {
        let b = bytes[i];
        push_char(&mut r, digit(b / 16));
        push_char(&mut r, digit(b % 16));
        assert(bytes@.subrange(0, i + 1).drop_last() =~= bytes@.subrange(0, i as int));
    }
    assert(bytes@.subrange(0, n as int) =~= bytes@);
    r
}

} // verus!
