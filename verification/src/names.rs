//! The names that wrapping gives to parameters: `arg_` followed by the
//! parameter's position in decimal.

use vstd::prelude::*;
use crate::tokens::{is_plain_ident, is_ident_char};

verus! {

/// The decimal digit of `d` (for `d < 10`).
pub open spec fn digit_char(d: nat) -> char {
    if d == 0 { '0' }
    else if d == 1 { '1' }
    else if d == 2 { '2' }
    else if d == 3 { '3' }
    else if d == 4 { '4' }
    else if d == 5 { '5' }
    else if d == 6 { '6' }
    else if d == 7 { '7' }
    else if d == 8 { '8' }
    else { '9' }
}

/// `n` written in decimal, most significant digit first, with no leading zero.
pub open spec fn decimal(n: nat) -> Seq<char>
    decreases n,
{
    if n < 10 {
        seq![digit_char(n)]
    } else {
        decimal(n / 10).push(digit_char(n % 10))
    }
}

/// The prefix `arg_`.
pub open spec fn arg_prefix() -> Seq<char> {
    seq!['a', 'r', 'g', '_']
}

/// Whether a name starts with `arg_`.
pub open spec fn has_arg_prefix(name: Seq<char>) -> bool {
    name.len() >= 4 && name.subrange(0, 4) == arg_prefix()
}

/// The name given to the parameter at position `n`: `arg_{n}`.
pub open spec fn arg_name(n: nat) -> Seq<char> {
    arg_prefix() + decimal(n)
}

pub proof fn lemma_decimal_digits(n: nat)
    ensures
        decimal(n).len() >= 1,
        forall|i: int| 0 <= i < decimal(n).len() ==> '0' <= #[trigger] decimal(n)[i] <= '9',
    decreases n,
{
    if n >= 10 {
        lemma_decimal_digits(n / 10);
    }
}

/// The number that a string of decimal digits denotes, most significant
/// digit first: each character counts as its code minus the code of `'0'`.
pub open spec fn digits_value(s: Seq<char>) -> int
    decreases s.len(),
{
    if s.len() == 0 {
        0
    } else {
        digits_value(s.drop_last()) * 10 + (s.last() as int - '0' as int)
    }
}

/// `decimal(n)` is the standard decimal writing of `n`: one character or
/// more, each a digit from `'0'` to `'9'`, reading back as `n`, with no
/// leading zero.
pub proof fn lemma_decimal_is_standard(n: nat)
    ensures
        decimal(n).len() >= 1,
        forall|i: int| 0 <= i < decimal(n).len() ==> '0' <= #[trigger] decimal(n)[i] <= '9',
        digits_value(decimal(n)) == n,
        decimal(n).len() > 1 ==> decimal(n)[0] != '0',
    decreases n,
{
    lemma_decimal_digits(n);
    let d = n % 10;
    assert(digit_char(d) as int == '0' as int + d) by {
        assert('1' as int == '0' as int + 1);
        assert('2' as int == '0' as int + 2);
        assert('3' as int == '0' as int + 3);
        assert('4' as int == '0' as int + 4);
        assert('5' as int == '0' as int + 5);
        assert('6' as int == '0' as int + 6);
        assert('7' as int == '0' as int + 7);
        assert('8' as int == '0' as int + 8);
        assert('9' as int == '0' as int + 9);
    }
    if n < 10 {
        assert(decimal(n).drop_last() =~= Seq::<char>::empty());
        assert(digits_value(decimal(n)) == digits_value(decimal(n).drop_last()) * 10 + (digit_char(n) as int
            - '0' as int));
    } else {
        lemma_decimal_is_standard(n / 10);
        let s = decimal(n);
        assert(s.drop_last() =~= decimal(n / 10));
        assert(s.last() == digit_char(d));
        assert(digits_value(s) == digits_value(decimal(n / 10)) * 10 + (digit_char(d) as int - '0' as int));
        assert((n / 10) * 10 + n % 10 == n) by (nonlinear_arith);
        assert(s[0] == decimal(n / 10)[0]);
        if decimal(n / 10).len() == 1 {
            assert(n / 10 < 10) by {
                if n / 10 >= 10 {
                    lemma_decimal_digits((n / 10) / 10);
                }
            }
            assert(n / 10 >= 1);
        }
    }
}

/// The name given to the parameter at position `n` is `arg_` followed by
/// the standard decimal writing of `n`.
pub proof fn lemma_arg_name_is_decimal(n: nat)
    ensures
        arg_name(n).subrange(0, 4) == seq!['a', 'r', 'g', '_'],
        digits_value(arg_name(n).subrange(4, arg_name(n).len() as int)) == n,
        forall|i: int| 4 <= i < arg_name(n).len() ==> '0' <= #[trigger] arg_name(n)[i] <= '9',
        arg_name(n).len() > 5 ==> arg_name(n)[4] != '0',
{
    lemma_decimal_is_standard(n);
    assert(arg_name(n).subrange(0, 4) =~= seq!['a', 'r', 'g', '_']);
    assert(arg_name(n).subrange(4, arg_name(n).len() as int) =~= decimal(n));
    assert forall|i: int| 4 <= i < arg_name(n).len() implies '0' <= #[trigger] arg_name(n)[i] <= '9' by {
        assert(arg_name(n)[i] == decimal(n)[i - 4]);
    }
}

/// A name `arg_{n}` is an identifier that `Ident::new` accepts, and it starts with `arg_`.
pub proof fn lemma_arg_name_is_ident(n: nat)
    ensures
        is_plain_ident(arg_name(n)),
        has_arg_prefix(arg_name(n)),
{
    lemma_decimal_digits(n);
    let s = arg_name(n);
    assert(s.subrange(0, 4) =~= arg_prefix());
    assert forall|i: int| 0 <= i < s.len() implies #[trigger] is_ident_char(s[i]) by {
        if i >= 4 {
            assert(s[i] == decimal(n)[i - 4]);
        }
    }
}

/// Distinct numbers have distinct decimal writings.
pub proof fn lemma_decimal_injective(a: nat, b: nat)
    requires
        decimal(a) == decimal(b),
    ensures
        a == b,
    decreases a,
{
    lemma_decimal_digits(a);
    lemma_decimal_digits(b);
    if a < 10 && b < 10 {
    } else if a < 10 {
        lemma_decimal_digits(b / 10);
        assert(decimal(b).len() >= 2);
    } else if b < 10 {
        lemma_decimal_digits(a / 10);
        assert(decimal(a).len() >= 2);
    } else {
        let da = decimal(a);
        let db = decimal(b);
        assert(da.last() == digit_char(a % 10));
        assert(db.last() == digit_char(b % 10));
        assert(decimal(a / 10) =~= da.drop_last());
        assert(decimal(b / 10) =~= db.drop_last());
        lemma_decimal_injective(a / 10, b / 10);
    }
}

/// Distinct positions are given distinct names.
pub proof fn lemma_arg_name_injective(a: nat, b: nat)
    requires
        arg_name(a) == arg_name(b),
    ensures
        a == b,
{
    assert(decimal(a) =~= arg_name(a).subrange(4, arg_name(a).len() as int));
    assert(decimal(b) =~= arg_name(b).subrange(4, arg_name(b).len() as int));
    lemma_decimal_injective(a, b);
}

fn digit_str(d: usize) -> (res: &'static str)
    requires
        d < 10,
    ensures
        res@ == seq![digit_char(d as nat)],
{
    if d == 0 { proof { reveal_strlit("0"); } "0" }
    else if d == 1 { proof { reveal_strlit("1"); } "1" }
    else if d == 2 { proof { reveal_strlit("2"); } "2" }
    else if d == 3 { proof { reveal_strlit("3"); } "3" }
    else if d == 4 { proof { reveal_strlit("4"); } "4" }
    else if d == 5 { proof { reveal_strlit("5"); } "5" }
    else if d == 6 { proof { reveal_strlit("6"); } "6" }
    else if d == 7 { proof { reveal_strlit("7"); } "7" }
    else if d == 8 { proof { reveal_strlit("8"); } "8" }
    else { proof { reveal_strlit("9"); } "9" }
}

fn push_decimal(s: &mut String, n: usize)
    ensures
        final(s)@ == old(s)@ + decimal(n as nat),
    decreases n,
{
    if n >= 10 {
        push_decimal(s, n / 10);
    }
    s.append(digit_str(n % 10));
    proof {
        if n >= 10 {
            assert(decimal(n as nat) == decimal((n / 10) as nat).push(digit_char((n % 10) as nat)));
        }
    }
}

/// The name `arg_{n}` that wrapping gives to the parameter at position `n`.
pub fn make_arg_name(n: usize) -> (res: String)
    ensures
        res@ == arg_name(n as nat),
{
    proof { reveal_strlit("arg_"); }
    let mut s = String::from_str("arg_");
    push_decimal(&mut s, n);
    s
}

/// Whether `name` starts with `arg_`.
pub fn starts_with_arg_prefix(name: &str) -> (res: bool)
    ensures
        res == has_arg_prefix(name@),
{
    if name.unicode_len() < 4 {
        return false;
    }
    let c0 = name.get_char(0);
    let c1 = name.get_char(1);
    let c2 = name.get_char(2);
    let c3 = name.get_char(3);
    let res = c0 == 'a' && c1 == 'r' && c2 == 'g' && c3 == '_';
    proof {
        if res {
            assert(name@.subrange(0, 4) =~= arg_prefix());
        } else {
            if name@.subrange(0, 4) == arg_prefix() {
                assert(name@.subrange(0, 4)[0] == 'a');
                assert(name@.subrange(0, 4)[1] == 'r');
                assert(name@.subrange(0, 4)[2] == 'g');
                assert(name@.subrange(0, 4)[3] == '_');
            }
        }
    }
    res
}

} // verus!
