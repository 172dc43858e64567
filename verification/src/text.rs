//! Decimal digits, hexadecimal digits and comparison of texts.

use vstd::prelude::*;

verus! {

/// The character of one decimal digit.
pub open spec fn digit_char(digit: nat) -> char {
    (48 + digit) as char
}

/// A natural number in decimal digits, without leading zeros.
pub open spec fn digits(n: nat) -> Seq<char>
    decreases n,
{
    if n < 10 {
        seq![digit_char(n)]
    } else {
        digits(n / 10).push(digit_char(n % 10))
    }
}

/// A run of zeros.
pub open spec fn zeros(n: nat) -> Seq<char> {
    Seq::new(n, |i: int| '0')
}

/// A natural number in decimal digits, with leading zeros up to a width.
pub open spec fn padded(n: nat, width: nat) -> Seq<char> {
    if digits(n).len() < width {
        zeros((width - digits(n).len()) as nat) + digits(n)
    } else {
        digits(n)
    }
}

/// The character of one lower-case hexadecimal digit.
pub open spec fn hex_char(nibble: int) -> char {
    if nibble < 10 {
        (48 + nibble) as char
    } else {
        (87 + nibble) as char
    }
}

/// Bytes in lower-case hexadecimal digits, two to a byte, high half first.
pub open spec fn hex(bytes: Seq<u8>) -> Seq<char> {
    Seq::new(
        2 * bytes.len(),
        |i: int|
            hex_char(
                if i % 2 == 0 {
                    bytes[i / 2] / 16
                } else {
                    bytes[i / 2] % 16
                } as int,
            ),
    )
}

fn digit_text(digit: u8) -> (text: &'static str)
    requires
        digit < 16,
    ensures
        text@ == seq![hex_char(digit as int)],
        digit < 10 ==> text@ == seq![digit_char(digit as nat)],
{
    proof {
        reveal_strlit("0");
        reveal_strlit("1");
        reveal_strlit("2");
        reveal_strlit("3");
        reveal_strlit("4");
        reveal_strlit("5");
        reveal_strlit("6");
        reveal_strlit("7");
        reveal_strlit("8");
        reveal_strlit("9");
        reveal_strlit("a");
        reveal_strlit("b");
        reveal_strlit("c");
        reveal_strlit("d");
        reveal_strlit("e");
        reveal_strlit("f");
    }
    match digit {
        0 => "0",
        1 => "1",
        2 => "2",
        3 => "3",
        4 => "4",
        5 => "5",
        6 => "6",
        7 => "7",
        8 => "8",
        9 => "9",
        10 => "a",
        11 => "b",
        12 => "c",
        13 => "d",
        14 => "e",
        _ => "f",
    }
}

/// A natural number as text.
pub fn natural_text(n: u64) -> (text: String)
    ensures
        text@ == digits(n as nat),
    decreases n,
{
    if n < 10 {
        digit_text(n as u8).to_owned()
    } else {
        let mut text = natural_text(n / 10);
        text.append(digit_text((n % 10) as u8));
        text
    }
}

/// A natural number as text, with leading zeros up to a width.
pub fn padded_text(n: u64, width: usize) -> (text: String)
    ensures
        text@ == padded(n as nat, width as nat),
{
    let bare = natural_text(n);
    let length = bare.as_str().unicode_len();
    let mut text = String::new();
    let mut written: usize = length;
    while written < width
        invariant
            text@ == zeros((written - length) as nat),
            length <= written,
            length < width ==> written <= width,
            length >= width ==> written == length,
        decreases width - written,
    {
        proof {
            reveal_strlit("0");
        }
        text.append("0");
        written = written + 1;
        assert(text@ =~= zeros((written - length) as nat));
    }
    text.append(bare.as_str());
    assert(text@ =~= padded(n as nat, width as nat));
    text
}

/// A hexadecimal digit is told by its character.
proof fn lemma_hex_char_tells_the_digit(one: int, other: int)
    requires
        0 <= one < 16,
        0 <= other < 16,
        hex_char(one) == hex_char(other),
    ensures
        one == other,
{
    assert(hex_char(one) as int == if one < 10 {
        48 + one
    } else {
        87 + one
    });
    assert(hex_char(other) as int == if other < 10 {
        48 + other
    } else {
        87 + other
    });
}

/// Bytes are told by their hexadecimal digits.
pub proof fn lemma_hex_tells_the_bytes(one: Seq<u8>, other: Seq<u8>)
    requires
        hex(one) == hex(other),
    ensures
        one == other,
{
    assert(hex(one).len() == 2 * one.len());
    assert(hex(other).len() == 2 * other.len());
    assert forall|i: int| 0 <= i < one.len() implies one[i] == other[i] by {
        assert((2 * i) / 2 == i && (2 * i + 1) / 2 == i);
        assert((2 * i) % 2 == 0 && (2 * i + 1) % 2 == 1);
        assert(hex(one)[2 * i] == hex_char((one[i] / 16) as int));
        assert(hex(other)[2 * i] == hex_char((other[i] / 16) as int));
        assert(hex(one)[2 * i + 1] == hex_char((one[i] % 16) as int));
        assert(hex(other)[2 * i + 1] == hex_char((other[i] % 16) as int));
        lemma_hex_char_tells_the_digit((one[i] / 16) as int, (other[i] / 16) as int);
        lemma_hex_char_tells_the_digit((one[i] % 16) as int, (other[i] % 16) as int);
    }
    assert(one =~= other);
}

/// Bytes as lower-case hexadecimal text.
pub fn hex_text(bytes: &Vec<u8>) -> (text: String)
    ensures
        text@ == hex(bytes@),
{
    let mut text = String::new();
    let mut next: usize = 0;
    while next < bytes.len()
        invariant
            next <= bytes@.len(),
            text@ == hex(bytes@.take(next as int)),
        decreases bytes@.len() - next,
    {
        let byte: u8 = bytes[next];
        text.append(digit_text(byte / 16));
        text.append(digit_text(byte % 16));
        next = next + 1;
        assert(text@ =~= hex(bytes@.take(next as int)));
    }
    assert(bytes@.take(next as int) =~= bytes@);
    text
}

/// Whether two texts hold the same characters.
pub fn same_text(left: &str, right: &str) -> (same: bool)
    ensures
        same == (left@ == right@),
{
    left.to_owned() == right.to_owned()
}

/// The decimal digits of a number are those of its tenth with one digit behind them;
/// a number below ten is that digit alone.
pub proof fn law_a_digit_is_written_behind_the_others(n: nat, digit: nat)
    requires
        digit < 10,
    ensures
        digits(digit).len() == 1,
        digits(digit)[0] == "0123456789"@[digit as int],
        n > 0 ==> digits(10 * n + digit) == digits(n) + digits(digit),
{
    reveal_strlit("0123456789");
    if n > 0 {
        assert((10 * n + digit) / 10 == n) by (nonlinear_arith)
            requires
                digit < 10,
        ;
        assert((10 * n + digit) % 10 == digit) by (nonlinear_arith)
            requires
                digit < 10,
        ;
        assert(digits(10 * n + digit) =~= digits(n) + digits(digit));
    }
}

/// A padded number is as wide as was asked, or as its digits where they are wider: its
/// digits stand at the end, and zeros before them.
pub proof fn law_padding_is_zeros_in_front(n: nat, width: nat)
    ensures
        padded(n, width).len() == if digits(n).len() < width {
            width
        } else {
            digits(n).len()
        },
        padded(n, width).skip(padded(n, width).len() - digits(n).len()) == digits(n),
        forall|i: int|
            0 <= i < padded(n, width).len() - digits(n).len() ==> #[trigger] padded(n, width)[i]
                == '0',
{
    assert(padded(n, width).skip(padded(n, width).len() - digits(n).len()) =~= digits(n));
}

/// Every byte is written as two hexadecimal digits, the high half first.
pub proof fn law_a_byte_is_two_hexadecimal_digits(bytes: Seq<u8>, place: int)
    requires
        0 <= place < bytes.len(),
    ensures
        hex(bytes).len() == 2 * bytes.len(),
        hex(bytes)[2 * place] == "0123456789abcdef"@[bytes[place] as int / 16],
        hex(bytes)[2 * place + 1] == "0123456789abcdef"@[bytes[place] as int % 16],
{
    reveal_strlit("0123456789abcdef");
    assert((2 * place) / 2 == place && (2 * place + 1) / 2 == place);
    assert((2 * place) % 2 == 0 && (2 * place + 1) % 2 == 1);
}

} // verus!
