//! Fixed-width byte strings, big-endian integers and hexadecimal text.
use vstd::prelude::*;
use vstd::utf8::{encode_utf8, encode_utf8_decode_utf8, is_ascii_chars_encode_utf8};

verus! {

/// The `width` low-order base-256 digits of `value`, most significant first.
pub open spec fn be_bytes(value: nat, width: nat) -> Seq<u8>
    decreases width,
{
    if width == 0 {
        Seq::empty()
    } else {
        be_bytes(value / 256, (width - 1) as nat).push((value % 256) as u8)
    }
}

/// The number that a big-endian byte string denotes.
pub open spec fn be_value(bytes: Seq<u8>) -> nat
    decreases bytes.len(),
{
    if bytes.len() == 0 {
        0
    } else {
        be_value(bytes.drop_last()) * 256 + bytes.last() as nat
    }
}

/// 256 to the power `width`: how many big-endian strings have that width.
pub open spec fn pow256(width: nat) -> nat
    decreases width,
{
    if width == 0 {
        1
    } else {
        256 * pow256((width - 1) as nat)
    }
}

pub proof fn lemma_be_bytes_len(value: nat, width: nat)
    ensures
        be_bytes(value, width).len() == width,
    decreases width,
{
    if width > 0 {
        lemma_be_bytes_len(value / 256, (width - 1) as nat);
    }
}

pub proof fn lemma_be_value_bound(bytes: Seq<u8>)
    ensures
        be_value(bytes) < pow256(bytes.len()),
    decreases bytes.len(),
{
    if bytes.len() > 0 {
        lemma_be_value_bound(bytes.drop_last());
    }
}

/// Reading back a big-endian string gives the number it was written from.
pub proof fn be_value_of_be_bytes(value: nat, width: nat)
    requires
        value < pow256(width),
    ensures
        be_value(be_bytes(value, width)) == value,
        be_bytes(value, width).len() == width,
    decreases width,
{
    lemma_be_bytes_len(value, width);
    if width > 0 {
        let narrower = (width - 1) as nat;
        assert(value / 256 < pow256(narrower)) by (nonlinear_arith)
            requires
                value < 256 * pow256(narrower),
        ;
        be_value_of_be_bytes(value / 256, narrower);
        assert(be_bytes(value, width).drop_last() =~= be_bytes(value / 256, narrower));
    }
}

/// Every byte string is the big-endian form of the number it denotes.
pub proof fn be_bytes_of_be_value(bytes: Seq<u8>)
    ensures
        be_bytes(be_value(bytes), bytes.len()) == bytes,
    decreases bytes.len(),
{
    if bytes.len() > 0 {
        let front = bytes.drop_last();
        be_bytes_of_be_value(front);
        assert((be_value(front) * 256 + bytes.last() as nat) / 256 == be_value(front));
        assert((be_value(front) * 256 + bytes.last() as nat) % 256 == bytes.last() as nat);
        assert(be_bytes(be_value(bytes), bytes.len()) =~= bytes);
    } else {
        assert(be_bytes(be_value(bytes), bytes.len()) =~= bytes);
    }
}

pub proof fn lemma_pow256_values()
    ensures
        pow256(0) == 1,
        pow256(1) == 0x100,
        pow256(2) == 0x1_0000,
        pow256(4) == 0x1_0000_0000,
        pow256(8) == 0x1_0000_0000_0000_0000,
{
    reveal_with_fuel(pow256, 9);
}

/// Appends the big-endian form of `value`.
pub fn push_be(output: &mut Vec<u8>, value: u64, width: usize)
    ensures
        final(output)@ == old(output)@ + be_bytes(value as nat, width as nat),
    decreases width,
{
    if width > 0 {
        push_be(output, value / 256, width - 1);
        output.push((value % 256) as u8);
    }
    assert(output@ =~= old(output)@ + be_bytes(value as nat, width as nat));
}

/// Returns the number that at most eight big-endian bytes denote.
pub fn read_be(bytes: &[u8]) -> (res: u64)
    requires
        bytes@.len() <= 8,
    ensures
        res == be_value(bytes@),
{
    let mut value: u64 = 0;
    let mut index: usize = 0;
    assert(bytes@.subrange(0, 0) =~= Seq::<u8>::empty());
    while index < bytes.len()
        invariant
            index <= bytes@.len() <= 8,
            value == be_value(bytes@.subrange(0, index as int)),
        decreases bytes@.len() - index,
    {
        let ghost before = bytes@.subrange(0, index as int);
        let ghost after = bytes@.subrange(0, index + 1);
        proof {
            assert(after.drop_last() =~= before);
            lemma_be_value_bound(after);
            lemma_pow256_monotonic(index as nat + 1, 8);
            lemma_pow256_values();
        }
        value = value * 256 + bytes[index] as u64;
        index += 1;
    }
    assert(bytes@.subrange(0, index as int) =~= bytes@);
    value
}

proof fn lemma_pow256_monotonic(narrow: nat, wide: nat)
    requires
        narrow <= wide,
    ensures
        pow256(narrow) <= pow256(wide),
    decreases wide,
{
    if narrow < wide {
        lemma_pow256_monotonic(narrow, (wide - 1) as nat);
    }
}

/// Returns whether two byte strings are the same.
pub fn bytes_equal(left: &[u8], right: &[u8]) -> (res: bool)
    ensures
        res == (left@ == right@),
{
    if left.len() != right.len() {
        return false;
    }
    let mut index: usize = 0;
    while index < left.len()
        invariant
            left@.len() == right@.len(),
            index <= left@.len(),
            forall|seen: int| 0 <= seen < index ==> left@[seen] == right@[seen],
        decreases left@.len() - index,
    {
        if left[index] != right[index] {
            return false;
        }
        index += 1;
    }
    assert(left@ =~= right@);
    true
}

/// Returns whether two texts are the same.
pub fn same_text(left: &str, right: &str) -> (res: bool)
    ensures
        res == (left@ == right@),
{
    proof {
        encode_utf8_decode_utf8(left@);
        encode_utf8_decode_utf8(right@);
    }
    bytes_equal(left.as_bytes(), right.as_bytes())
}

/// Copies a byte string into an array of its exact length.
pub fn fixed_bytes<const N: usize>(bytes: &[u8]) -> (res: Option<[u8; N]>)
    ensures
        res is Some <==> bytes@.len() == N,
        res matches Some(array) ==> array@ == bytes@,
{
    if bytes.len() != N {
        return None;
    }
    let mut array: [u8; N] = [0u8; N];
    let mut index: usize = 0;
    while index < N
        invariant
            bytes@.len() == N,
            index <= N,
            forall|seen: int| 0 <= seen < index ==> array@[seen] == bytes@[seen],
        decreases N - index,
    {
        array[index] = bytes[index];
        index += 1;
    }
    assert(array@ =~= bytes@);
    Some(array)
}

/// The lowercase hexadecimal digit of a number below sixteen.
pub open spec fn hex_digit(value: int) -> char {
    if value < 10 {
        (('0' as int) + value) as char
    } else {
        (('a' as int) + value - 10) as char
    }
}

/// The lowercase hexadecimal text of a byte string: two digits a byte, high nibble first.
pub open spec fn hex_text(bytes: Seq<u8>) -> Seq<char> {
    Seq::new(
        2 * bytes.len(),
        |i: int|
            if i % 2 == 0 {
                hex_digit(bytes[i / 2] as int / 16)
            } else {
                hex_digit(bytes[i / 2] as int % 16)
            },
    )
}

/// The value of a hexadecimal digit of either case; nothing for any other character.
pub open spec fn hex_value(digit: char) -> Option<int> {
    if '0' <= digit <= '9' {
        Some(digit as int - '0' as int)
    } else if 'a' <= digit <= 'f' {
        Some(digit as int - 'a' as int + 10)
    } else if 'A' <= digit <= 'F' {
        Some(digit as int - 'A' as int + 10)
    } else {
        None
    }
}

/// Whether a text is hexadecimal for `count` bytes, in either case.
pub open spec fn is_hex(text: Seq<char>, count: nat) -> bool {
    &&& text.len() == 2 * count
    &&& forall|i: int| 0 <= i < text.len() ==> hex_value(#[trigger] text[i]) is Some
}

/// Whether a text is lowercase hexadecimal for `count` bytes.
pub open spec fn is_lower_hex_text(text: Seq<char>, count: nat) -> bool {
    &&& is_hex(text, count)
    &&& forall|i: int| 0 <= i < text.len() ==> !('A' <= #[trigger] text[i] <= 'F')
}

/// The bytes that a hexadecimal text stands for.
pub open spec fn hex_bytes(text: Seq<char>) -> Seq<u8> {
    Seq::new(
        text.len() / 2,
        |i: int| (hex_value(text[2 * i])->0 * 16 + hex_value(text[2 * i + 1])->0) as u8,
    )
}

/// Parsing the text of a byte string gives the byte string back.
pub proof fn hex_round_trip(bytes: Seq<u8>)
    ensures
        is_lower_hex_text(hex_text(bytes), bytes.len()),
        hex_bytes(hex_text(bytes)) == bytes,
{
    let text = hex_text(bytes);
    assert forall|i: int| 0 <= i < text.len() implies hex_value(#[trigger] text[i]) is Some
        && !('A' <= text[i] <= 'F') by {}
    assert forall|i: int| 0 <= i < bytes.len() implies hex_bytes(text)[i] == bytes[i] by {
        assert((2 * i + 1) / 2 == i);
        assert(hex_value(text[2 * i])->0 == bytes[i] as int / 16);
        assert(hex_value(text[2 * i + 1])->0 == bytes[i] as int % 16);
    }
    assert(hex_bytes(text) =~= bytes);
}

/// A lowercase text is the text of the bytes it parses to: no second spelling is accepted.
pub proof fn lower_hex_is_canonical(text: Seq<char>, count: nat)
    requires
        is_lower_hex_text(text, count),
    ensures
        hex_bytes(text).len() == count,
        hex_text(hex_bytes(text)) == text,
{
    let bytes = hex_bytes(text);
    assert forall|i: int| 0 <= i < text.len() implies hex_text(bytes)[i] == text[i] by {
        let pair = i / 2;
        assert(hex_value(text[2 * pair]) is Some);
        assert(hex_value(text[2 * pair + 1]) is Some);
        let high = hex_value(text[2 * pair])->0;
        let low = hex_value(text[2 * pair + 1])->0;
        assert(bytes[pair] as int == high * 16 + low);
        assert(bytes[pair] as int / 16 == high);
        assert(bytes[pair] as int % 16 == low);
        assert(i == 2 * pair || i == 2 * pair + 1);
    }
    assert(hex_text(bytes) =~= text);
}

fn hex_digit_str(value: u8) -> (res: &'static str)
    requires
        value < 16,
    ensures
        res@ == seq![hex_digit(value as int)],
{
    let digits: [&'static str; 16] = [
        "0", "1", "2", "3", "4", "5", "6", "7", "8", "9", "a", "b", "c", "d", "e", "f",
    ];
    proof {
        reveal_strlit("0");
        reveal_strlit("1");
        reveal_strlit("2");
        reveal_strlit("3");
        reveal_strlit("4");
        reveal_strlit("5");
        reveal_strlit("6");
        reveal_strlit("7");
        reveal_strlit("8");
        reveal_strlit("9");
        reveal_strlit("a");
        reveal_strlit("b");
        reveal_strlit("c");
        reveal_strlit("d");
        reveal_strlit("e");
        reveal_strlit("f");
    }
    let digit = digits[value as usize];
    assert(digit@ =~= seq![hex_digit(value as int)]);
    digit
}

/// Returns the lowercase hexadecimal text of a byte string.
pub fn hex_encode(value: &[u8]) -> (res: String)
    ensures
        res@ == hex_text(value@),
{
    let mut output = String::new();
    let mut index: usize = 0;
    while index < value.len()
        invariant
            index <= value@.len(),
            output@ == hex_text(value@.subrange(0, index as int)),
        decreases value@.len() - index,
    {
        let ghost before = output@;
        output.append(hex_digit_str(value[index] / 16));
        output.append(hex_digit_str(value[index] % 16));
        proof {
            let longer = value@.subrange(0, index + 1);
            assert forall|i: int| 0 <= i < 2 * longer.len() implies output@[i] == hex_text(longer)[i] by {
                if i < before.len() {
                    assert(i / 2 < index);
                }
            }
            assert(output@ =~= hex_text(longer));
        }
        index += 1;
    }
    assert(value@.subrange(0, index as int) =~= value@);
    output
}

/// Whether a byte string spells a text one byte a character.
spec fn spells(digits: Seq<u8>, text: Seq<char>) -> bool {
    &&& digits.len() == text.len()
    &&& forall|i: int| 0 <= i < text.len() ==> (#[trigger] text[i]) as int == digits[i] as int
}

proof fn lemma_ascii_spelling(text: Seq<char>)
    requires
        vstd::utf8::is_ascii_chars(text),
    ensures
        spells(encode_utf8(text), text),
{
    is_ascii_chars_encode_utf8(text);
    assert forall|i: int| 0 <= i < text.len() implies (#[trigger] text[i]) as int == encode_utf8(
        text,
    )[i] as int by {
        assert(text[i] as u8 == encode_utf8(text)[i]);
    }
}

fn hex_digit_value(digit: u8) -> (res: Option<u8>)
    ensures
        res is Some <==> hex_value(digit as char) is Some,
        res matches Some(value) ==> value < 16 && value == hex_value(digit as char)->0,
{
    if digit >= 48 && digit <= 57 {
        Some(digit - 48)
    } else if digit >= 97 && digit <= 102 {
        Some(digit - 87)
    } else if digit >= 65 && digit <= 70 {
        Some(digit - 55)
    } else {
        None
    }
}

/// Parses hexadecimal text of exactly `N` bytes, in either case.
pub fn hex_decode<const N: usize>(text: &str) -> (res: Option<[u8; N]>)
    ensures
        res is Some <==> is_hex(text@, N as nat),
        res matches Some(bytes) ==> bytes@ == hex_bytes(text@),
{
    if !text.is_ascii() {
        proof {
            let outside = choose|i: int| 0 <= i < text@.len() && !('\0' <= #[trigger] text@[i] <= '\u{7f}');
            assert(hex_value(text@[outside]) is None);
        }
        return None;
    }
    proof {
        lemma_ascii_spelling(text@);
    }
    let digits = text.as_bytes();
    let length: usize = digits.len();
    if length % 2 != 0 || length / 2 != N {
        return None;
    }
    let mut bytes: [u8; N] = [0u8; N];
    let mut index: usize = 0;
    while index < N
        invariant
            spells(digits@, text@),
            digits@.len() == length,
            length == 2 * N,
            index <= N,
            forall|i: int| 0 <= i < 2 * index ==> hex_value(#[trigger] text@[i]) is Some,
            forall|i: int| 0 <= i < index ==> bytes@[i] == hex_bytes(text@)[i],
        decreases N - index,
    {
        let ghost first = text@[2 * index];
        let ghost second = text@[2 * index + 1];
        let high = match hex_digit_value(digits[2 * index]) {
            Some(value) => value,
            None => {
                assert(hex_value(first) is None);
                return None;
            },
        };
        let low = match hex_digit_value(digits[2 * index + 1]) {
            Some(value) => value,
            None => {
                assert(hex_value(second) is None);
                return None;
            },
        };
        bytes[index] = high * 16 + low;
        index += 1;
    }
    assert(bytes@ =~= hex_bytes(text@));
    Some(bytes)
}

/// Parses lowercase hexadecimal text of exactly `N` bytes.
pub fn lower_hex_decode<const N: usize>(text: &str) -> (res: Option<[u8; N]>)
    ensures
        res is Some <==> is_lower_hex_text(text@, N as nat),
        res matches Some(bytes) ==> bytes@ == hex_bytes(text@),
{
    let bytes: Option<[u8; N]> = hex_decode(text);
    if bytes.is_none() {
        return None;
    }
    proof {
        assert forall|i: int| 0 <= i < text@.len() implies ('\0' <= #[trigger] text@[i] <= '\u{7f}') by {
            assert(hex_value(text@[i]) is Some);
        }
        lemma_ascii_spelling(text@);
    }
    let digits = text.as_bytes();
    let mut index: usize = 0;
    while index < digits.len()
        invariant
            spells(digits@, text@),
            is_hex(text@, N as nat),
            index <= digits@.len(),
            forall|i: int| 0 <= i < index ==> !('A' <= #[trigger] text@[i] <= 'F'),
        decreases digits@.len() - index,
    {
        assert(hex_value(text@[index as int]) is Some);
        if digits[index] >= 65 && digits[index] <= 70 {
            return None;
        }
        index += 1;
    }
    bytes
}

/// Returns whether a text is lowercase hexadecimal for `count` bytes.
pub fn is_lower_hex(value: &str, count: usize) -> (res: bool)
    ensures
        res == is_lower_hex_text(value@, count as nat),
{
    if !value.is_ascii() {
        proof {
            let outside = choose|i: int| 0 <= i < value@.len() && !('\0' <= #[trigger] value@[i] <= '\u{7f}');
            assert(hex_value(value@[outside]) is None);
        }
        return false;
    }
    proof {
        lemma_ascii_spelling(value@);
    }
    let digits = value.as_bytes();
    if digits.len() % 2 != 0 || digits.len() / 2 != count {
        return false;
    }
    let mut index: usize = 0;
    while index < digits.len()
        invariant
            spells(digits@, value@),
            digits@.len() == 2 * count,
            index <= digits@.len(),
            forall|i: int| 0 <= i < index ==> hex_value(#[trigger] value@[i]) is Some,
            forall|i: int| 0 <= i < index ==> !('A' <= #[trigger] value@[i] <= 'F'),
        decreases digits@.len() - index,
    {
        let ghost character = value@[index as int];
        if (digits[index] >= 65 && digits[index] <= 70) || hex_digit_value(digits[index]).is_none() {
            return false;
        }
        assert(hex_value(character) is Some);
        index += 1;
    }
    true
}

/// Byte strings stand for numbers with the most significant byte first.
pub proof fn the_first_byte_is_the_most_significant(bytes: Seq<u8>)
    ensures
        bytes.len() == 1 ==> be_value(bytes) == bytes[0],
        bytes.len() == 2 ==> be_value(bytes) == bytes[0] * 256 + bytes[1],
        bytes.len() == 4 ==> be_value(bytes) == bytes[0] * 16_777_216 + bytes[1] * 65_536 + bytes[2]
            * 256 + bytes[3],
        bytes.len() == 8 ==> be_value(bytes) == be_value(bytes.subrange(0, 4)) * 4_294_967_296
            + be_value(bytes.subrange(4, 8)),
{
    reveal_with_fuel(be_value, 9);
    if bytes.len() == 8 {
        let high = bytes.subrange(0, 4);
        let low = bytes.subrange(4, 8);
        assert(low.drop_last() =~= bytes.subrange(4, 7));
        assert(low.drop_last().drop_last() =~= bytes.subrange(4, 6));
        assert(low.drop_last().drop_last().drop_last() =~= bytes.subrange(4, 5));
        assert(low.drop_last().drop_last().drop_last().drop_last() =~= Seq::empty());
        assert(bytes.drop_last().drop_last().drop_last().drop_last() =~= high);
    }
}

/// Hexadecimal text spells each byte in two digits, the upper half first, in lowercase.
pub proof fn bytes_are_spelled_in_two_digits(bytes: Seq<u8>, i: int)
    requires
        0 <= i < bytes.len(),
    ensures
        hex_text(bytes).len() == 2 * bytes.len(),
        hex_text(bytes)[2 * i] == "0123456789abcdef"@[bytes[i] as int / 16],
        hex_text(bytes)[2 * i + 1] == "0123456789abcdef"@[bytes[i] as int % 16],
{
    reveal_strlit("0123456789abcdef");
    assert((2 * i) / 2 == i && (2 * i) % 2 == 0);
    assert((2 * i + 1) / 2 == i && (2 * i + 1) % 2 == 1);
}

/// A hexadecimal digit has its value in either case.
pub proof fn digits_have_their_value_in_either_case(digit: char, value: int)
    ensures
        hex_value(digit) == Some(value) <==> 0 <= value < 16 && (digit
            == "0123456789abcdef"@[value] || digit == "0123456789ABCDEF"@[value]),
{
    reveal_strlit("0123456789abcdef");
    reveal_strlit("0123456789ABCDEF");
}

} // verus!
