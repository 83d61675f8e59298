//! Text of numbers and byte strings, as the actions print them.
use vstd::prelude::*;

verus! {

/// Text of the decimal digit `d`.
pub open spec fn digit(d: nat) -> Seq<char> {
    if d == 0 {
        "0"@
    } else if d == 1 {
        "1"@
    } else if d == 2 {
        "2"@
    } else if d == 3 {
        "3"@
    } else if d == 4 {
        "4"@
    } else if d == 5 {
        "5"@
    } else if d == 6 {
        "6"@
    } else if d == 7 {
        "7"@
    } else if d == 8 {
        "8"@
    } else {
        "9"@
    }
}

/// Decimal text of `n`, without leading zeros.
pub open spec fn decimal(n: nat) -> Seq<char>
    decreases n,
{
    if n < 10 {
        digit(n)
    } else {
        decimal(n / 10) + digit(n % 10)
    }
}

/// Text of the hexadecimal digit `d`, in upper case.
pub open spec fn hex_digit(d: nat) -> Seq<char> {
    if d < 10 {
        digit(d)
    } else if d == 10 {
        "A"@
    } else if d == 11 {
        "B"@
    } else if d == 12 {
        "C"@
    } else if d == 13 {
        "D"@
    } else if d == 14 {
        "E"@
    } else {
        "F"@
    }
}

/// Upper case hexadecimal text of `bytes`, two digits a byte.
pub open spec fn hex(bytes: Seq<u8>) -> Seq<char>
    decreases bytes.len(),
{
    if bytes.len() == 0 {
        Seq::empty()
    } else {
        hex(bytes.drop_last()) + hex_digit((bytes.last() / 16) as nat) + hex_digit(
            (bytes.last() % 16) as nat,
        )
    }
}

/// Text of `flag`: `set` when it holds, a dash otherwise.
pub open spec fn flag_text(flag: bool, set: Seq<char>) -> Seq<char> {
    if flag {
        set
    } else {
        "-"@
    }
}

fn digit_str(d: u32) -> (r: &'static str)
    requires
        d < 10,
    ensures
        r@ == digit(d as nat),
{
    if d == 0 {
        "0"
    } else if d == 1 {
        "1"
    } else if d == 2 {
        "2"
    } else if d == 3 {
        "3"
    } else if d == 4 {
        "4"
    } else if d == 5 {
        "5"
    } else if d == 6 {
        "6"
    } else if d == 7 {
        "7"
    } else if d == 8 {
        "8"
    } else {
        "9"
    }
}

fn hex_digit_str(d: u8) -> (r: &'static str)
    requires
        d < 16,
    ensures
        r@ == hex_digit(d as nat),
{
    if d < 10 {
        digit_str(d as u32)
    } else if d == 10 {
        "A"
    } else if d == 11 {
        "B"
    } else if d == 12 {
        "C"
    } else if d == 13 {
        "D"
    } else if d == 14 {
        "E"
    } else {
        "F"
    }
}

/// Appends the decimal text of `n` to `s`.
pub fn push_decimal(s: &mut String, n: u32)
    ensures
        final(s)@ == old(s)@ + decimal(n as nat),
    decreases n,
{
    let ghost before = s@;
    if n >= 10 {
        push_decimal(s, n / 10);
    }
    s.append(digit_str(n % 10));
    assert(s@ =~= before + decimal(n as nat));
}

/// Appends the upper case hexadecimal text of `bytes` to `s`.
pub fn push_hex(s: &mut String, bytes: &[u8])
    ensures
        final(s)@ == old(s)@ + hex(bytes@),
{
    let ghost before = s@;
    let mut i: usize = 0;
    while i < bytes.len()
        invariant
            i <= bytes@.len(),
            s@ == before + hex(bytes@.subrange(0, i as int)),
        decreases bytes@.len() - i,
    {
        let b = bytes[i];
        proof {
            assert(bytes@.subrange(0, i + 1).drop_last() =~= bytes@.subrange(0, i as int));
            assert(bytes@.subrange(0, i + 1).last() == b);
        }
        s.append(hex_digit_str(b / 16));
        s.append(hex_digit_str(b % 16));
        i = i + 1;
        assert(s@ =~= before + hex(bytes@.subrange(0, i as int)));
    }
    assert(bytes@.subrange(0, bytes@.len() as int) =~= bytes@);
}

/// Appends `set` to `s` when `flag` holds, a dash otherwise.
pub fn push_flag(s: &mut String, flag: bool, set: &str)
    ensures
        final(s)@ == old(s)@ + flag_text(flag, set@),
{
    if flag {
        s.append(set);
    } else {
        s.append("-");
    }
}

/// The text of a decimal digit `d` is the single character `'0' + d`.
pub proof fn lemma_digit_char(d: nat)
    requires
        d < 10,
    ensures
        digit(d) == seq![(48 + d) as char],
{
    reveal_strlit("0");
    reveal_strlit("1");
    reveal_strlit("2");
    reveal_strlit("3");
    reveal_strlit("4");
    reveal_strlit("5");
    reveal_strlit("6");
    reveal_strlit("7");
    reveal_strlit("8");
    reveal_strlit("9");
    assert(digit(d) =~= seq![(48 + d) as char]);
}

/// The text of a hexadecimal digit `d` is the single character `'0' + d` below 10 and the upper
/// case letter `'A' + (d - 10)` (code 55 + d) from 10 on.
pub proof fn lemma_hex_digit_char(d: nat)
    requires
        d < 16,
    ensures
        hex_digit(d) == seq![(if d < 10 { 48 + d } else { 55 + d }) as char],
{
    if d < 10 {
        lemma_digit_char(d);
    } else {
        reveal_strlit("A");
        reveal_strlit("B");
        reveal_strlit("C");
        reveal_strlit("D");
        reveal_strlit("E");
        reveal_strlit("F");
        assert(hex_digit(d) =~= seq![(55 + d) as char]);
    }
}

/// The hexadecimal text of bytes has two characters a byte: the digits of its high and low
/// nibbles, in that order.
pub proof fn lemma_hex_chars(bytes: Seq<u8>)
    ensures
        hex(bytes).len() == 2 * bytes.len(),
        forall|i: int|
            0 <= i < bytes.len() ==> {
                &&& seq![hex(bytes)[2 * i]] == hex_digit((bytes[i] / 16) as nat)
                &&& seq![hex(bytes)[2 * i + 1]] == hex_digit((bytes[i] % 16) as nat)
            },
    decreases bytes.len(),
{
    if bytes.len() > 0 {
        let init = bytes.drop_last();
        lemma_hex_chars(init);
        lemma_hex_digit_char((bytes.last() / 16) as nat);
        lemma_hex_digit_char((bytes.last() % 16) as nat);
        assert forall|i: int| 0 <= i < bytes.len() implies {
            &&& seq![hex(bytes)[2 * i]] == hex_digit((bytes[i] / 16) as nat)
            &&& seq![hex(bytes)[2 * i + 1]] == hex_digit((bytes[i] % 16) as nat)
        } by {
            if i < init.len() {
                assert(bytes[i] == init[i]);
                lemma_hex_digit_char((bytes[i] / 16) as nat);
                lemma_hex_digit_char((bytes[i] % 16) as nat);
                assert(seq![hex(bytes)[2 * i]] =~= seq![hex(init)[2 * i]]);
                assert(seq![hex(bytes)[2 * i + 1]] =~= seq![hex(init)[2 * i + 1]]);
            } else {
                assert(seq![hex(bytes)[2 * i]] =~= hex_digit((bytes[i] / 16) as nat));
                assert(seq![hex(bytes)[2 * i + 1]] =~= hex_digit((bytes[i] % 16) as nat));
            }
        }
    }
}

/// Number written by a text of decimal digits.
pub open spec fn decimal_value(s: Seq<char>) -> int
    decreases s.len(),
{
    if s.len() == 0 {
        0
    } else {
        decimal_value(s.drop_last()) * 10 + (s.last() as int - 48)
    }
}

/// The decimal text of `n` is made of the digits `'0'` to `'9'`, starts with a digit other than
/// `'0'` unless `n` is 0, and reads back as `n`.
pub proof fn lemma_decimal_reads_back(n: nat)
    ensures
        decimal(n).len() >= 1,
        forall|i: int| 0 <= i < decimal(n).len() ==> 48 <= #[trigger] (decimal(n)[i] as int) < 58,
        n > 0 ==> decimal(n)[0] != '0',
        decimal_value(decimal(n)) == n,
    decreases n,
{
    lemma_digit_char(n % 10);
    if n < 10 {
        assert(decimal(n) == seq![(48 + n) as char]);
        assert(decimal(n).drop_last() =~= Seq::<char>::empty());
        assert(((48 + n) as char) as int == 48 + n);
        assert(decimal_value(decimal(n)) == decimal_value(Seq::<char>::empty()) * 10 + (((48
            + n) as char) as int - 48));
    } else {
        let high = decimal(n / 10);
        lemma_decimal_reads_back(n / 10);
        let d = digit(n % 10);
        assert(decimal(n) == high + d);
        assert((decimal(n)).drop_last() =~= high);
        assert(decimal(n).last() == (48 + n % 10) as char);
        assert(decimal(n)[0] == high[0]);
        assert(n == (n / 10) * 10 + n % 10);
        assert((((48 + n % 10) as char) as int) == 48 + n % 10);
        assert(decimal_value(decimal(n)) == decimal_value(high) * 10 + (((48 + n % 10) as char)
            as int - 48));
        assert forall|i: int| 0 <= i < decimal(n).len() implies 48 <= #[trigger] (decimal(
            n,
        )[i] as int) < 58 by {
            if i < high.len() {
                assert(decimal(n)[i] == high[i]);
            }
        }
    }
}

/// The text of a flag is the given text when it is set and a dash otherwise.
pub proof fn lemma_flag_text(set: Seq<char>)
    ensures
        flag_text(true, set) == set,
        flag_text(false, set) == seq!['-'],
{
    reveal_strlit("-");
}

} // verus!
