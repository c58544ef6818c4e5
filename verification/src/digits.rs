//! Numbers as text.

use vstd::prelude::*;
use vstd::string::StringExecFns;
use vstd::string::StrSliceExecFns;

verus! {

/// The text of `n` in the given base, without leading zeros.
pub open spec fn digits(n: nat, base: nat) -> Seq<char>
    decreases n,
{
    if n < base || base < 2 {
        seq!["0123456789abcdef"@[n as int]]
    } else {
        proof {
            assert(n / base < n) by (nonlinear_arith)
                requires
                    n >= base,
                    base >= 2,
            ;
        }
        digits(n / base, base).push("0123456789abcdef"@[(n % base) as int])
    }
}

/// Appends the text of `n`.
pub(crate) fn push_digits(out: &mut String, n: usize, base: usize)
    requires
        2 <= base <= 16,
    ensures
        final(out)@ == old(out)@ + digits(n as nat, base as nat),
    decreases n,
{
    let last: usize = n % base;
    proof {
        reveal_strlit("0123456789abcdef");
        assert(n % base < base) by (nonlinear_arith)
            requires
                base >= 2,
        ;
    }
    if n >= base {
        proof {
            assert(n / base < n) by (nonlinear_arith)
                requires
                    n >= base,
                    base >= 2,
            ;
        }
        push_digits(out, n / base, base);
    } else {
        proof {
            vstd::arithmetic::div_mod::lemma_small_mod(n as nat, base as nat);
        }
    }
    out.append("0123456789abcdef".substring_ascii(last, last + 1));
}

/// The number that a digit stands for, and `16` for what is no digit.
pub open spec fn digit_value(digit: char) -> nat {
    if '0' <= digit <= '9' {
        (digit as int - '0' as int) as nat
    } else if 'a' <= digit <= 'f' {
        (digit as int - 'a' as int + 10) as nat
    } else {
        16
    }
}

/// The number that a text of digits stands for: each digit counts `base` times as much as the one
/// after it.
pub open spec fn number(text: Seq<char>, base: nat) -> nat
    decreases text.len(),
{
    if text.len() == 0 {
        0
    } else {
        number(text.drop_last(), base) * base + digit_value(text.last())
    }
}

/// The text of a number reads as that number, has digits of the base alone, and has no zero in
/// front.
pub proof fn digits_read_back(n: nat, base: nat)
    requires
        2 <= base <= 16,
    ensures
        number(digits(n, base), base) == n,
        digits(n, base).len() > 0,
        forall|i: int|
            0 <= i < digits(n, base).len() ==> digit_value(#[trigger] digits(n, base)[i]) < base,
        digits(n, base)[0] == '0' ==> n == 0 && digits(n, base).len() == 1,
    decreases n,
{
    reveal_strlit("0123456789abcdef");
    let text = digits(n, base);
    if n < base {
        assert(text.drop_last() =~= Seq::<char>::empty());
        assert(number(text.drop_last(), base) == 0);
        assert(text.last() == "0123456789abcdef"@[n as int]);
        assert(digit_value(text.last()) == n);
        assert(0 * base == 0) by (nonlinear_arith);
    } else {
        let before = digits(n / base, base);
        assert(n / base < n && n / base >= 1 && 0 <= n % base < base && n == (n / base) * base + n
            % base) by (nonlinear_arith)
            requires
                n >= base,
                base >= 2,
        ;
        digits_read_back(n / base, base);
        assert(text == before.push("0123456789abcdef"@[(n % base) as int]));
        assert(text.drop_last() =~= before);
        assert(digit_value(text.last()) == n % base);
        assert(text[0] == before[0]);
    }
}

/// A text of digits of the base, with no zero in front, is the text of the number that it reads as.
/// So every number has one such text.
pub proof fn reading_gives_digits_back(text: Seq<char>, base: nat)
    requires
        2 <= base <= 16,
        text.len() > 0,
        forall|i: int| 0 <= i < text.len() ==> digit_value(#[trigger] text[i]) < base,
        text[0] == '0' ==> text.len() == 1,
    ensures
        digits(number(text, base), base) == text,
    decreases text.len(),
{
    reveal_strlit("0123456789abcdef");
    let before = text.drop_last();
    let n = number(text, base);
    let last = digit_value(text.last());
    assert(text.last() == "0123456789abcdef"@[last as int]);
    assert(0 * base == 0) by (nonlinear_arith);
    if text.len() == 1 {
        assert(number(before, base) == 0);
        assert(digits(n, base) =~= text);
    } else {
        let m = number(before, base);
        assert(before[0] == text[0]);
        reading_gives_digits_back(before, base);
        if m == 0 {
            assert(digits(0, base) == before);
            assert(before[0] == '0');
        }
        assert(n / base == m && n % base == last && n >= base) by (nonlinear_arith)
            requires
                n == m * base + last,
                m >= 1,
                last < base,
                base >= 2,
        ;
        assert(digits(n, base) =~= text);
    }
}

} // verus!
