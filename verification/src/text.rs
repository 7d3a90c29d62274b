//! Text of numbers: the decimal text of an integer, as it stands in statements
//! and in field values, and the hyphenated text of an identifier.

use vstd::prelude::*;

verus! {

/// The character of one decimal digit.
pub open spec fn digit_char(d: nat) -> char {
    if d == 0 {
        '0'
    } else if d == 1 {
        '1'
    } else if d == 2 {
        '2'
    } else if d == 3 {
        '3'
    } else if d == 4 {
        '4'
    } else if d == 5 {
        '5'
    } else if d == 6 {
        '6'
    } else if d == 7 {
        '7'
    } else if d == 8 {
        '8'
    } else {
        '9'
    }
}

/// The decimal digits of `n`, most significant first, without leading zeros.
pub open spec fn decimal_digits(n: nat) -> Seq<char>
    decreases n,
{
    if n < 10 {
        seq![digit_char(n)]
    } else {
        decimal_digits(n / 10).push(digit_char(n % 10))
    }
}

/// The decimal text of `n`, with a minus sign before a negative number.
pub open spec fn signed_decimal_digits(n: int) -> Seq<char> {
    if n < 0 {
        seq!['-'] + decimal_digits((-n) as nat)
    } else {
        decimal_digits(n as nat)
    }
}

fn digit_text(d: u64) -> (text: &'static str)
    requires
        d < 10,
    ensures
        text@ == seq![digit_char(d as nat)],
{
    proof {
        reveal_strlit("0");
        reveal_strlit("1");
        reveal_strlit("2");
        reveal_strlit("3");
        reveal_strlit("4");
        reveal_strlit("5");
        reveal_strlit("6");
        reveal_strlit("7");
        reveal_strlit("8");
        reveal_strlit("9");
    }
    let text = if d == 0 {
        "0"
    } else if d == 1 {
        "1"
    } else if d == 2 {
        "2"
    } else if d == 3 {
        "3"
    } else if d == 4 {
        "4"
    } else if d == 5 {
        "5"
    } else if d == 6 {
        "6"
    } else if d == 7 {
        "7"
    } else if d == 8 {
        "8"
    } else {
        "9"
    };
    assert(text@ =~= seq![digit_char(d as nat)]);
    text
}

/// The decimal text of `n`.
pub fn decimal(n: u64) -> (text: String)
    ensures
        text@ == decimal_digits(n as nat),
{
    let mut rest: u64 = n;
    let mut low = String::new();
    while rest >= 10
        invariant
            decimal_digits(n as nat) == decimal_digits(rest as nat) + low@,
        decreases rest,
    {
        let digit = String::from_str(digit_text(rest % 10));
        proof {
            let high = decimal_digits((rest / 10) as nat);
            assert(decimal_digits(rest as nat) == high.push(digit_char((rest % 10) as nat)));
            assert(high.push(digit_char((rest % 10) as nat)) + low@ =~= high + (digit@ + low@));
        }
        low = digit.concat(low.as_str());
        rest = rest / 10;
    }
    String::from_str(digit_text(rest)).concat(low.as_str())
}

/// The decimal text of `n`, with a minus sign before a negative number.
pub fn signed_decimal(n: i64) -> (text: String)
    ensures
        text@ == signed_decimal_digits(n as int),
{
    if n < 0 {
        proof {
            reveal_strlit("-");
        }
        let magnitude: u64 = if n == i64::MIN {
            0x8000_0000_0000_0000u64
        } else {
            (-n) as u64
        };
        let digits = decimal(magnitude);
        let text = String::from_str("-").concat(digits.as_str());
        assert(text@ =~= seq!['-'] + decimal_digits((-n) as nat));
        text
    } else {
        decimal(n as u64)
    }
}

/// The character of one hexadecimal digit, in lower case.
pub open spec fn hex_char(d: nat) -> char {
    if d < 10 {
        digit_char(d)
    } else if d == 10 {
        'a'
    } else if d == 11 {
        'b'
    } else if d == 12 {
        'c'
    } else if d == 13 {
        'd'
    } else if d == 14 {
        'e'
    } else {
        'f'
    }
}

/// The last `width` hexadecimal digits of `n`, most significant first.
pub open spec fn hex_digits(n: nat, width: nat) -> Seq<char>
    decreases width,
{
    if width == 0 {
        Seq::empty()
    } else {
        hex_digits(n / 16, (width - 1) as nat).push(hex_char(n % 16))
    }
}

/// The text of an identifier: its 32 hexadecimal digits in lower case, in
/// groups of 8, 4, 4, 4 and 12 with a hyphen between two groups.
pub open spec fn hyphenated_digits(id: u128) -> Seq<char> {
    let digits = hex_digits(id as nat, 32);
    digits.subrange(0, 8) + seq!['-'] + digits.subrange(8, 12) + seq!['-'] + digits.subrange(12, 16)
        + seq!['-'] + digits.subrange(16, 20) + seq!['-'] + digits.subrange(20, 32)
}

/// `hex_digits` gives as many digits as asked for.
pub proof fn lemma_hex_digits_len(n: nat, width: nat)
    ensures
        hex_digits(n, width).len() == width,
    decreases width,
{
    if width > 0 {
        lemma_hex_digits_len(n / 16, (width - 1) as nat);
    }
}

fn hex_text(d: u128) -> (text: &'static str)
    requires
        d < 16,
    ensures
        text@ == seq![hex_char(d as nat)],
{
    proof {
        reveal_strlit("a");
        reveal_strlit("b");
        reveal_strlit("c");
        reveal_strlit("d");
        reveal_strlit("e");
        reveal_strlit("f");
    }
    let text = if d < 10 {
        digit_text(d as u64)
    } else if d == 10 {
        "a"
    } else if d == 11 {
        "b"
    } else if d == 12 {
        "c"
    } else if d == 13 {
        "d"
    } else if d == 14 {
        "e"
    } else {
        "f"
    };
    assert(text@ =~= seq![hex_char(d as nat)]);
    text
}

/// The text of an identifier, hyphenated and in lower case.
pub fn hyphenated(id: u128) -> (text: String)
    ensures
        text@ == hyphenated_digits(id),
{
    let mut rest: u128 = id;
    let mut digits = String::new();
    let mut width: usize = 0;
    while width < 32
        invariant
            width <= 32,
            hex_digits(id as nat, 32) == hex_digits(rest as nat, (32 - width) as nat) + digits@,
        decreases 32 - width,
    {
        let digit = String::from_str(hex_text(rest % 16));
        proof {
            let high = hex_digits((rest / 16) as nat, (31 - width) as nat);
            assert(hex_digits(rest as nat, (32 - width) as nat) == high.push(
                hex_char((rest % 16) as nat),
            ));
            assert(high.push(hex_char((rest % 16) as nat)) + digits@ =~= high + (digit@ + digits@));
        }
        digits = digit.concat(digits.as_str());
        rest = rest / 16;
        width += 1;
    }
    proof {
        lemma_hex_digits_len(id as nat, 32);
        reveal_strlit("-");
        assert(hex_digits(rest as nat, 0) + digits@ =~= digits@);
    }
    let all = digits.as_str();
    let mut text = String::from_str(all.substring_char(0, 8));
    text.append("-");
    text.append(all.substring_char(8, 12));
    text.append("-");
    text.append(all.substring_char(12, 16));
    text.append("-");
    text.append(all.substring_char(16, 20));
    text.append("-");
    text.append(all.substring_char(20, 32));
    assert(text@ =~= hyphenated_digits(id));
    text
}

} // verus!
