//! Decimal text of integers, for the messages and debug text of the guards.

use vstd::prelude::*;

verus! {

/// The character of the decimal digit `d`.
pub open spec fn digit_char(d: int) -> char {
    (48 + d) as char
}

/// The decimal text of `n`, most significant digit first, with no leading zero.
pub open spec fn decimal(n: nat) -> Seq<char>
    decreases n,
{
    if n < 10 {
        seq![digit_char(n as int)]
    } else {
        decimal(n / 10) + seq![digit_char((n % 10) as int)]
    }
}

/// The decimal text of `n`, with a minus sign in front when it is negative.
pub open spec fn signed_decimal(n: int) -> Seq<char> {
    if n < 0 {
        seq!['-'] + decimal((-n) as nat)
    } else {
        decimal(n as nat)
    }
}

/// Whether `c` is one of the characters `0` to `9`.
pub open spec fn is_digit(c: char) -> bool {
    48 <= (c as int) <= 57
}

/// The number that the digit character `c` stands for.
pub open spec fn digit_value(c: char) -> int {
    (c as int) - 48
}

/// The number that a text of digits stands for, read in base 10 with the
/// most significant digit first.
pub open spec fn value_of(t: Seq<char>) -> int
    decreases t.len(),
{
    if t.len() == 0 {
        0
    } else {
        value_of(t.drop_last()) * 10 + digit_value(t.last())
    }
}

/// Whether `t` is the usual base-10 text of `n`: one digit or more, digits
/// only, no leading zero, and read back it gives `n`.
pub open spec fn is_decimal_text_of(t: Seq<char>, n: int) -> bool {
    &&& t.len() > 0
    &&& forall|i: int| 0 <= i < t.len() ==> is_digit(#[trigger] t[i])
    &&& (t[0] == '0' ==> t.len() == 1)
    &&& value_of(t) == n
}

/// Whether `t` is the usual base-10 text of `n` with a minus sign in front
/// when `n` is negative.
pub open spec fn is_signed_decimal_text_of(t: Seq<char>, n: int) -> bool {
    if n < 0 {
        t.len() > 0 && t[0] == '-' && is_decimal_text_of(t.drop_first(), -n)
    } else {
        is_decimal_text_of(t, n)
    }
}

/// The decimal text of any natural number is its usual base-10 text: it
/// reads back as the same number, with no leading zero.
pub proof fn lemma_decimal_reads_back(n: nat)
    ensures
        is_decimal_text_of(decimal(n), n as int),
    decreases n,
{
    let t = decimal(n);
    if n < 10 {
        assert(t.drop_last() =~= Seq::<char>::empty());
        assert(value_of(t.drop_last()) == 0);
    } else {
        let head = decimal(n / 10);
        lemma_decimal_reads_back(n / 10);
        assert(t.drop_last() =~= head);
        assert(t.last() == digit_char((n % 10) as int));
        assert forall|i: int| 0 <= i < t.len() implies is_digit(#[trigger] t[i]) by {
            if i < head.len() {
                assert(t[i] == head[i]);
            }
        }
        assert(t[0] == head[0]);
        if head[0] == '0' {
            assert(head.len() == 1);
            assert(head.drop_last() =~= Seq::<char>::empty());
            assert(head.last() == head[0]);
            assert(value_of(head.drop_last()) == 0);
            assert(('0' as int) == 48);
            assert(value_of(head) == 0);
        }
    }
}

/// The signed decimal text of any integer is its usual signed base-10 text.
pub proof fn lemma_signed_decimal_reads_back(n: int)
    ensures
        is_signed_decimal_text_of(signed_decimal(n), n),
{
    if n < 0 {
        lemma_decimal_reads_back((-n) as nat);
        assert(signed_decimal(n).drop_first() =~= decimal((-n) as nat));
    } else {
        lemma_decimal_reads_back(n as nat);
    }
}

/// The text of one decimal digit.
fn digit_text(d: u32) -> (s: &'static str)
    requires
        d < 10,
    ensures
        s@ == seq![digit_char(d as int)],
{
    proof {
        reveal_strlit("0");
        reveal_strlit("1");
        reveal_strlit("2");
        reveal_strlit("3");
        reveal_strlit("4");
        reveal_strlit("5");
        reveal_strlit("6");
        reveal_strlit("7");
        reveal_strlit("8");
        reveal_strlit("9");
    }
    match d {
        0 => "0",
        1 => "1",
        2 => "2",
        3 => "3",
        4 => "4",
        5 => "5",
        6 => "6",
        7 => "7",
        8 => "8",
        _ => "9",
    }
}

/// Appends the decimal text of `n` to `s`.
pub fn append_decimal(s: &mut String, n: u64)
    ensures
        final(s)@ == old(s)@ + decimal(n as nat),
    decreases n,
{
    if n >= 10 {
        append_decimal(s, n / 10);
    }
    s.append(digit_text((n % 10) as u32));
    proof {
        if n < 10 {
            assert(n % 10 == n);
        }
    }
}

/// Appends the decimal text of `n`, signed, to `s`.
pub fn append_signed_decimal(s: &mut String, n: i32)
    ensures
        final(s)@ == old(s)@ + signed_decimal(n as int),
{
    if n < 0 {
        proof {
            reveal_strlit("-");
        }
        s.append("-");
        let magnitude: u32 = (0i64 - (n as i64)) as u32;
        append_decimal(s, magnitude as u64);
    } else {
        append_decimal(s, n as u64);
    }
}

} // verus!
