//! Numerals and small pieces of text.

use vstd::prelude::*;
use vstd::utf8::encode_utf8;

verus! {

/// `String::push` appends one character to the end of the string.
pub assume_specification[ std::string::String::push ](s: &mut std::string::String, ch: char)
    ensures
        final(s)@ == old(s)@.push(ch),
;

/// Making a `String` from a string slice keeps the characters.
pub assume_specification<'a>[ <std::string::String as std::convert::From<&'a str>>::from ](
    s: &str,
) -> (r: std::string::String)
    ensures
        r@ == s@,
;

/// Converting a value to its own type gives it back.
pub assume_specification<Any>[ <Any as std::convert::From<Any>>::from ](a: Any) -> (r: Any)
    ensures
        r == a,
;

/// What an optional text holds.
pub open spec fn opt_text(s: Option<String>) -> Option<Seq<char>> {
    match s {
        Some(t) => Some(t@),
        None => None,
    }
}

/// A copy of an optional text.
pub(crate) fn clone_text(s: &Option<String>) -> (r: Option<String>)
    ensures
        opt_text(r) == opt_text(*s),
{
    match s {
        Some(t) => Some(t.clone()),
        None => None,
    }
}

/// What optional bytes are.
pub open spec fn opt_bytes(v: Option<Vec<u8>>) -> Option<Seq<u8>> {
    match v {
        Some(b) => Some(b@),
        None => None,
    }
}

/// The character for a digit below sixteen, in lower case.
pub open spec fn digit_char(d: nat) -> char {
    if d < 10 {
        (48 + d) as char
    } else {
        (87 + d) as char
    }
}

/// The numeral of `n` in the given radix, most significant digit first and
/// without leading zeros.
pub open spec fn numeral(n: nat, radix: nat) -> Seq<char>
    decreases n,
{
    if radix < 2 || n < radix {
        seq![digit_char(n)]
    } else {
        proof {
            vstd::arithmetic::div_mod::lemma_div_decreases(n as int, radix as int);
        }
        numeral(n / radix, radix).push(digit_char(n % radix))
    }
}

/// The decimal numeral of `n`.
pub open spec fn decimal(n: nat) -> Seq<char> {
    numeral(n, 10)
}

/// The lower-case hexadecimal numeral of `n`.
pub open spec fn lower_hex(n: nat) -> Seq<char> {
    numeral(n, 16)
}

fn push_numeral(out: &mut String, n: u128, radix: u128)
    requires
        2 <= radix <= 16,
    ensures
        final(out)@ == old(out)@ + numeral(n as nat, radix as nat),
    decreases n,
{
    if n >= radix {
        proof {
            vstd::arithmetic::div_mod::lemma_div_decreases(n as int, radix as int);
        }
        push_numeral(out, n / radix, radix);
    }
    proof {
        vstd::arithmetic::div_mod::lemma_mod_bound(n as int, radix as int);
        if n < radix {
            vstd::arithmetic::div_mod::lemma_small_mod(n as nat, radix as nat);
        }
    }
    let d: u8 = (n % radix) as u8;
    if d < 10 {
        out.push((48u8 + d) as char);
    } else {
        out.push((87u8 + d) as char);
    }
}

/// Appends the decimal numeral of `n` to `out`.
pub fn push_decimal(out: &mut String, n: usize)
    ensures
        final(out)@ == old(out)@ + decimal(n as nat),
{
    push_numeral(out, n as u128, 10);
}

/// The lower-case hexadecimal numeral of `n`.
pub fn to_lower_hex(n: u128) -> (r: String)
    ensures
        r@ == lower_hex(n as nat),
{
    let mut out = String::new();
    push_numeral(&mut out, n, 16);
    out
}

/// Two numbers with the same numeral are the same number.
pub proof fn lemma_numeral_injective(a: nat, b: nat, radix: nat)
    requires
        2 <= radix <= 16,
        numeral(a, radix) == numeral(b, radix),
    ensures
        a == b,
    decreases a,
{
    let x = numeral(a, radix);
    let y = numeral(b, radix);
    if a < radix && b < radix {
        assert(x[0] == y[0]);
        assert(digit_char(a) as int == digit_char(b) as int);
    } else if a >= radix && b >= radix {
        assert(x.drop_last() =~= numeral(a / radix, radix));
        assert(y.drop_last() =~= numeral(b / radix, radix));
        assert(a / radix < a) by (nonlinear_arith) requires a >= radix, radix >= 2;
        lemma_numeral_injective(a / radix, b / radix, radix);
        assert(x.last() == y.last());
        assert(a % radix < radix && b % radix < radix) by (nonlinear_arith) requires radix >= 2;
        assert(a == radix * (a / radix) + a % radix) by (nonlinear_arith) requires radix >= 2;
        assert(b == radix * (b / radix) + b % radix) by (nonlinear_arith) requires radix >= 2;
    } else {
        lemma_numeral_len(a, radix);
        lemma_numeral_len(b, radix);
        assert(x.len() == y.len());
    }
}

proof fn lemma_numeral_len(n: nat, radix: nat)
    requires
        2 <= radix <= 16,
    ensures
        numeral(n, radix).len() >= 1,
        n < radix <==> numeral(n, radix).len() == 1,
    decreases n,
{
    if n >= radix {
        assert(n / radix < n) by (nonlinear_arith) requires n >= radix, radix >= 2;
        lemma_numeral_len(n / radix, radix);
    }
}

/// Text of visible ASCII characters, spaces and tabs.
pub open spec fn is_plain(s: Seq<char>) -> bool {
    forall|i: int| 0 <= i < s.len() ==> ' ' <= #[trigger] s[i] <= '~' || s[i] == '\t'
}

pub(crate) proof fn lemma_numeral_plain(n: nat, radix: nat)
    requires
        2 <= radix <= 16,
    ensures
        is_plain(numeral(n, radix)),
    decreases n,
{
    if n >= radix {
        assert(n / radix < n) by (nonlinear_arith) requires n >= radix, radix >= 2;
        assert(n % radix < radix) by (nonlinear_arith) requires radix >= 2;
        lemma_numeral_plain(n / radix, radix);
    }
}

pub(crate) proof fn lemma_encode_concat(a: Seq<char>, b: Seq<char>)
    ensures
        encode_utf8(a + b) == encode_utf8(a) + encode_utf8(b),
    decreases a.len(),
{
    if a.len() == 0 {
        assert(a + b =~= b);
        assert(encode_utf8(a) + encode_utf8(b) =~= encode_utf8(b));
    } else {
        lemma_encode_concat(a.drop_first(), b);
        assert((a + b).drop_first() =~= a.drop_first() + b);
        assert(encode_utf8(a + b) =~= encode_utf8(a) + encode_utf8(b));
    }
}

/// The number that digits stand for.
pub open spec fn value_of(digits: Seq<char>, radix: nat) -> int
    decreases digits.len(),
{
    if digits.len() == 0 {
        0
    } else {
        value_of(digits.drop_last(), radix) * radix + digit_value(digits.last())
    }
}

/// The number that a digit stands for: `0` to `9`, and `a` to `f` for ten and
/// more.
pub open spec fn digit_value(c: char) -> int {
    if '0' <= c <= '9' {
        c as int - '0' as int
    } else {
        c as int - 'a' as int + 10
    }
}

/// A numeral stands for its number, is of digits below the radix alone, and does
/// not start with a zero unless it is one.
pub proof fn lemma_numeral_stands_for_its_number(n: nat, radix: nat)
    requires
        2 <= radix <= 16,
    ensures
        value_of(numeral(n, radix), radix) == n,
        numeral(n, radix).len() >= 1,
        n > 0 ==> numeral(n, radix)[0] != '0',
        n == 0 ==> numeral(n, radix) == seq!['0'],
        forall|i: int|
            0 <= i < numeral(n, radix).len() ==> {
                let c = #[trigger] numeral(n, radix)[i];
                ('0' <= c <= '9' || 'a' <= c <= 'f') && digit_value(c) < radix
            },
    decreases n,
{
    let s = numeral(n, radix);
    if n < radix {
        assert(s.drop_last() =~= Seq::empty());
        assert(value_of(s.drop_last(), radix) * radix == 0) by (nonlinear_arith)
            requires
                value_of(s.drop_last(), radix) == 0,
        ;
    } else {
        assert(n / radix < n && n / radix > 0) by (nonlinear_arith)
            requires
                n >= radix,
                radix >= 2,
        ;
        assert(n % radix < radix) by (nonlinear_arith)
            requires
                radix >= 2,
        ;
        assert(n == (n / radix) * radix + n % radix) by (nonlinear_arith)
            requires
                radix >= 2,
        ;
        lemma_numeral_stands_for_its_number(n / radix, radix);
        assert(s.drop_last() =~= numeral(n / radix, radix));
        assert(s[0] == numeral(n / radix, radix)[0]);
        assert forall|i: int| 0 <= i < s.len() implies {
            let c = #[trigger] s[i];
            ('0' <= c <= '9' || 'a' <= c <= 'f') && digit_value(c) < radix
        } by {
            if i < s.len() - 1 {
                assert(s[i] == numeral(n / radix, radix)[i]);
            }
        }
    }
}

/// A number is written in hexadecimal by what stands for it in radix sixteen, and
/// in decimal behind what was there by what stands for it in radix ten.
pub proof fn lemma_numbers_are_written(n: u128, r: String, out: &mut String, m: usize)
    requires
        call_ensures(to_lower_hex, (n,), r),
        call_ensures(push_decimal, (out, m), ()),
    ensures
        value_of(r@, 16) == n,
        r@.len() >= 1,
        n > 0 ==> r@[0] != '0',
        final(out)@.len() > old(out)@.len(),
        final(out)@.take(old(out)@.len() as int) == old(out)@,
        value_of(final(out)@.skip(old(out)@.len() as int), 10) == m,
{
    lemma_numeral_stands_for_its_number(n as nat, 16);
    lemma_numeral_stands_for_its_number(m as nat, 10);
    assert(final(out)@.skip(old(out)@.len() as int) =~= numeral(m as nat, 10));
    assert(final(out)@.take(old(out)@.len() as int) =~= old(out)@);
}

} // verus!
