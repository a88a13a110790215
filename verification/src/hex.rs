//! Lowercase hexadecimal text for digests.

use vstd::prelude::*;

verus! {

/// The hexadecimal digit that stands for a value below sixteen.
pub open spec fn digit_char(n: int) -> char {
    if n < 10 {
        (n + 48) as char
    } else {
        (n + 87) as char
    }
}

/// The value of a hexadecimal digit, of either case; `None` for any other character.
pub open spec fn digit_value(c: char) -> Option<int> {
    let n = c as int;
    if 48 <= n <= 57 {
        Some(n - 48)
    } else if 97 <= n <= 102 {
        Some(n - 87)
    } else if 65 <= n <= 70 {
        Some(n - 55)
    } else {
        None
    }
}

/// Two lowercase digits per byte, the high half first.
pub open spec fn encode_spec(bytes: Seq<u8>) -> Seq<char> {
    Seq::new(
        2 * bytes.len(),
        |i: int|
            if i % 2 == 0 {
                digit_char(bytes[i / 2] as int / 16)
            } else {
                digit_char(bytes[i / 2] as int % 16)
            },
    )
}

/// Whether a text is made of hexadecimal digits and holds an even number of them.
pub open spec fn is_hex(text: Seq<char>) -> bool {
    &&& text.len() % 2 == 0
    &&& forall|i: int| 0 <= i < text.len() ==> (#[trigger] digit_value(text[i])) is Some
}

/// The bytes that a hexadecimal text stands for; `None` unless `is_hex`.
pub open spec fn decode_spec(text: Seq<char>) -> Option<Seq<u8>> {
    if is_hex(text) {
        Some(
            Seq::new(
                text.len() / 2,
                |i: int|
                    (16 * digit_value(text[2 * i])->0 + digit_value(text[2 * i + 1])->0) as u8,
            ),
        )
    } else {
        None
    }
}

/// Decoding undoes encoding, for every byte string.
pub proof fn lemma_decode_encode(bytes: Seq<u8>)
    ensures
        is_hex(encode_spec(bytes)),
        decode_spec(encode_spec(bytes)) == Some(bytes),
{
    let text = encode_spec(bytes);
    assert forall|i: int| 0 <= i < text.len() implies (#[trigger] digit_value(text[i])) is Some by {
        let b = bytes[i / 2] as int;
        assert(0 <= b / 16 < 16 && 0 <= b % 16 < 16);
    }
    assert(is_hex(text));
    let back = decode_spec(text)->0;
    assert(back.len() == bytes.len());
    assert forall|i: int| 0 <= i < bytes.len() implies back[i] == bytes[i] by {
        let b = bytes[i] as int;
        assert((2 * i) / 2 == i && (2 * i) % 2 == 0);
        assert((2 * i + 1) / 2 == i && (2 * i + 1) % 2 == 1);
        assert(0 <= b / 16 < 16 && 0 <= b % 16 < 16);
        assert(digit_value(text[2 * i]) == Some(b / 16));
        assert(digit_value(text[2 * i + 1]) == Some(b % 16));
        assert(16 * (b / 16) + b % 16 == b);
    }
    assert(back =~= bytes);
}

/// Encoded text has two digits per byte, and every character of it is a
/// lowercase hexadecimal digit.
pub proof fn lemma_encode_digits(bytes: Seq<u8>)
    ensures
        encode_spec(bytes).len() == 2 * bytes.len(),
        forall|i: int|
            0 <= i < encode_spec(bytes).len() ==> (#[trigger] digit_value(encode_spec(bytes)[i]))
                is Some,
{
    let text = encode_spec(bytes);
    assert forall|i: int| 0 <= i < text.len() implies (#[trigger] digit_value(text[i])) is Some by {
        let b = bytes[i / 2] as int;
        assert(0 <= b / 16 < 16 && 0 <= b % 16 < 16);
    }
}

fn digit(n: u8) -> (c: char)
    requires
        n < 16,
    ensures
        c == digit_char(n as int),
{
    if n < 10 {
        (n + 48) as char
    } else {
        (n + 87) as char
    }
}

fn value(c: char) -> (v: Option<u8>)
    ensures
        match v {
            Some(n) => digit_value(c) == Some(n as int) && n < 16,
            None => digit_value(c) is None,
        },
{
    let n: u32 = c as u32;
    if 48 <= n && n <= 57 {
        Some((n - 48) as u8)
    } else if 97 <= n && n <= 102 {
        Some((n - 87) as u8)
    } else if 65 <= n && n <= 70 {
        Some((n - 55) as u8)
    } else {
        None
    }
}

/// Writes the lowercase hexadecimal text of `bytes` at the end of `out`.
pub fn encode_into(bytes: &Vec<u8>, out: &mut Vec<char>)
    ensures
        final(out)@ == old(out)@ + encode_spec(bytes@),
{
    let mut i: usize = 0;
    while i < bytes.len()
        invariant
            i <= bytes.len(),
            out@ == old(out)@ + encode_spec(bytes@).take(2 * i),
        decreases bytes.len() - i,
    {
        let b: u8 = bytes[i];
        out.push(digit(b / 16));
        out.push(digit(b % 16));
        proof {
            let e = encode_spec(bytes@);
            assert((2 * i) / 2 == i && (2 * i) % 2 == 0);
            assert((2 * i + 1) / 2 == i && (2 * i + 1) % 2 == 1);
            assert(e.take(2 * (i + 1)) =~= e.take(2 * i).push(e[2 * i]).push(e[2 * i + 1]));
        }
        i += 1;
    }
    proof {
        let e = encode_spec(bytes@);
        assert(e.take(2 * i) =~= e);
    }
}

/// The lowercase hexadecimal text of `bytes`.
pub fn encode(bytes: &Vec<u8>) -> (text: Vec<char>)
    ensures
        text@ == encode_spec(bytes@),
{
    let mut text: Vec<char> = Vec::new();
    encode_into(bytes, &mut text);
    text
}

/// Reads the characters of `text` from `start` up to `end` as hexadecimal digits.
pub fn decode_range(text: &Vec<char>, start: usize, end: usize) -> (bytes: Option<Vec<u8>>)
    requires
        start <= end <= text.len(),
    ensures
        match bytes {
            Some(b) => decode_spec(text@.subrange(start as int, end as int)) == Some(b@),
            None => decode_spec(text@.subrange(start as int, end as int)) is None,
        },
{
    let ghost part = text@.subrange(start as int, end as int);
    if (end - start) % 2 != 0 {
        return None;
    }
    let mut bytes: Vec<u8> = Vec::new();
    let mut i: usize = start;
    while i < end
        invariant
            start <= i <= end <= text.len(),
            (end - start) % 2 == 0,
            (i - start) % 2 == 0,
            part == text@.subrange(start as int, end as int),
            bytes@.len() == (i - start) / 2,
            forall|k: int| 0 <= k < i - start ==> (#[trigger] digit_value(part[k])) is Some,
            forall|k: int|
                0 <= k < bytes@.len() ==> bytes@[k] == (16 * digit_value(part[2 * k])->0
                    + digit_value(part[2 * k + 1])->0) as u8,
        decreases end - i,
    {
        let hi = value(text[i]);
        let lo = value(text[i + 1]);
        proof {
            assert(part[i - start] == text@[i as int]);
            assert(part[i - start + 1] == text@[i + 1]);
        }
        match (hi, lo) {
            (Some(h), Some(l)) => {
                proof {
                    assert(2 * ((i - start) / 2) == i - start);
                }
                bytes.push(h * 16 + l);
            },
            _ => {
                proof {
                    assert(digit_value(part[i - start]) is None || digit_value(
                        part[i - start + 1],
                    ) is None);
                    assert(!is_hex(part));
                }
                return None;
            },
        }
        i += 2;
    }
    proof {
        assert(is_hex(part));
        assert(bytes@ =~= decode_spec(part)->0);
    }
    Some(bytes)
}

} // verus!
