//! The standard base64 encoding with padding, as a mathematical function on
//! byte sequences, and the executable encoder that computes it.

use vstd::prelude::*;

verus! {

/// The character that stands for the six-bit value `v` in the standard
/// alphabet: `A`-`Z`, `a`-`z`, `0`-`9`, `+`, `/`.
pub open spec fn symbol(v: int) -> char
    recommends
        0 <= v < 64,
{
    if v < 26 {
        ('A' as int + v) as char
    } else if v < 52 {
        ('a' as int + (v - 26)) as char
    } else if v < 62 {
        ('0' as int + (v - 52)) as char
    } else if v == 62 {
        '+'
    } else {
        '/'
    }
}

/// The six-bit value that a character of the standard alphabet stands for.
pub open spec fn symbol_value(c: char) -> Option<int> {
    if 'A' <= c <= 'Z' {
        Some(c as int - 'A' as int)
    } else if 'a' <= c <= 'z' {
        Some(c as int - 'a' as int + 26)
    } else if '0' <= c <= '9' {
        Some(c as int - '0' as int + 52)
    } else if c == '+' {
        Some(62)
    } else if c == '/' {
        Some(63)
    } else {
        None
    }
}

/// The 24-bit number that a group of up to three bytes forms, first byte
/// highest; a missing byte counts as zero.
pub open spec fn group_value(group: Seq<u8>) -> int {
    let b0: int = if group.len() > 0 { group[0] as int } else { 0 };
    let b1: int = if group.len() > 1 { group[1] as int } else { 0 };
    let b2: int = if group.len() > 2 { group[2] as int } else { 0 };
    b0 * 65536 + b1 * 256 + b2
}

/// The four characters that encode a group of one, two or three bytes: one
/// symbol for each six bits that hold input, then `=` up to four characters.
pub open spec fn encode_group(group: Seq<u8>) -> Seq<char>
    recommends
        1 <= group.len() <= 3,
{
    let n: int = group_value(group);
    seq![
        symbol(n / 262144),
        symbol(n / 4096 % 64),
        if group.len() > 1 { symbol(n / 64 % 64) } else { '=' },
        if group.len() > 2 { symbol(n % 64) } else { '=' },
    ]
}

/// The standard base64 encoding, with padding, of a byte sequence.
pub open spec fn base64_text(bytes: Seq<u8>) -> Seq<char>
    decreases bytes.len(),
{
    if bytes.len() == 0 {
        Seq::empty()
    } else if bytes.len() <= 3 {
        encode_group(bytes)
    } else {
        encode_group(bytes.take(3)) + base64_text(bytes.skip(3))
    }
}

/// The bytes that four characters encode: three for four symbols, two for
/// three symbols and one `=`, one for two symbols and two `=`. The bits of the
/// last symbol that hold no input must be zero.
pub open spec fn decode_group(quad: Seq<char>) -> Option<Seq<u8>>
    recommends
        quad.len() == 4,
{
    match (symbol_value(quad[0]), symbol_value(quad[1])) {
        (Some(a), Some(b)) => {
            let b0: u8 = (a * 4 + b / 16) as u8;
            if quad[2] == '=' && quad[3] == '=' {
                if b % 16 == 0 { Some(seq![b0]) } else { None }
            } else {
                match symbol_value(quad[2]) {
                    Some(c) => {
                        let b1: u8 = (b % 16 * 16 + c / 4) as u8;
                        if quad[3] == '=' {
                            if c % 4 == 0 { Some(seq![b0, b1]) } else { None }
                        } else {
                            match symbol_value(quad[3]) {
                                Some(d) => Some(seq![b0, b1, (c % 4 * 64 + d) as u8]),
                                None => None,
                            }
                        }
                    },
                    None => None,
                }
            }
        },
        _ => None,
    }
}

/// The byte sequence that a text is the padded base64 encoding of, if it is
/// one: its length is a multiple of four and only its last four characters
/// may hold padding.
pub open spec fn base64_bytes(text: Seq<char>) -> Option<Seq<u8>>
    decreases text.len(),
{
    if text.len() == 0 {
        Some(Seq::empty())
    } else if text.len() < 4 {
        None
    } else {
        match decode_group(text.take(4)) {
            Some(head) => {
                if text.len() == 4 {
                    Some(head)
                } else if head.len() < 3 {
                    None
                } else {
                    match base64_bytes(text.skip(4)) {
                        Some(rest) => Some(head + rest),
                        None => None,
                    }
                }
            },
            None => None,
        }
    }
}

/// The symbols are those of the standard alphabet, in its order.
pub proof fn lemma_symbol_in_alphabet(v: int)
    requires
        0 <= v < 64,
    ensures
        symbol(v) == "ABCDEFGHIJKLMNOPQRSTUVWXYZabcdefghijklmnopqrstuvwxyz0123456789+/"@[v],
{
    reveal_strlit("ABCDEFGHIJKLMNOPQRSTUVWXYZabcdefghijklmnopqrstuvwxyz0123456789+/");
}

/// Every six-bit value is recovered from its symbol.
pub proof fn lemma_symbol_value(v: int)
    requires
        0 <= v < 64,
    ensures
        symbol_value(symbol(v)) == Some(v),
        symbol(v) != '=',
{
}

/// The four six-bit digits of a 24-bit number made of three bytes give the
/// bytes back.
proof fn lemma_sextets(b0: u32, b1: u32, b2: u32)
    by (bit_vector)
    requires
        b0 < 256,
        b1 < 256,
        b2 < 256,
    ensures
        ({
            let n: u32 = (b0 * 65536 + b1 * 256 + b2) as u32;
            let a: u32 = n / 262144;
            let b: u32 = n / 4096 % 64;
            let c: u32 = n / 64 % 64;
            let d: u32 = n % 64;
            &&& a < 64
            &&& a * 4 + b / 16 == b0
            &&& b % 16 * 16 + c / 4 == b1
            &&& c % 4 * 64 + d == b2
            &&& (b1 == 0 && b2 == 0 ==> b % 16 == 0)
            &&& (b2 == 0 ==> c % 4 == 0)
        }),
{
}

/// A group of one to three bytes is recovered from its four characters.
pub proof fn lemma_group_round_trip(group: Seq<u8>)
    requires
        1 <= group.len() <= 3,
    ensures
        encode_group(group).len() == 4,
        decode_group(encode_group(group)) == Some(group),
{
    let b0: u32 = group[0] as u32;
    let b1: u32 = if group.len() > 1 { group[1] as u32 } else { 0 };
    let b2: u32 = if group.len() > 2 { group[2] as u32 } else { 0 };
    let n: int = group_value(group);
    let a: int = n / 262144;
    let b: int = n / 4096 % 64;
    let c: int = n / 64 % 64;
    let d: int = n % 64;
    lemma_sextets(b0, b1, b2);
    lemma_symbol_value(a);
    lemma_symbol_value(b);
    lemma_symbol_value(c);
    lemma_symbol_value(d);
    let quad = encode_group(group);
    assert(quad[0] == symbol(a) && quad[1] == symbol(b));
    if group.len() == 1 {
        assert(quad[2] == '=' && quad[3] == '=');
        assert(decode_group(quad) == Some(seq![b0 as u8]));
        assert(seq![b0 as u8] =~= group);
    } else if group.len() == 2 {
        assert(quad[2] == symbol(c) && quad[3] == '=');
        assert(decode_group(quad) == Some(seq![b0 as u8, b1 as u8]));
        assert(seq![b0 as u8, b1 as u8] =~= group);
    } else {
        assert(quad[2] == symbol(c) && quad[3] == symbol(d));
        assert(decode_group(quad) == Some(seq![b0 as u8, b1 as u8, b2 as u8]));
        assert(seq![b0 as u8, b1 as u8, b2 as u8] =~= group);
    }
}

/// The encoding has four characters for every three bytes begun.
pub proof fn lemma_base64_text_len(bytes: Seq<u8>)
    ensures
        base64_text(bytes).len() == (bytes.len() + 2) / 3 * 4,
    decreases bytes.len(),
{
    if bytes.len() > 3 {
        lemma_base64_text_len(bytes.skip(3));
    }
}

/// Decoding the encoding of a byte sequence gives the sequence back.
pub proof fn lemma_base64_round_trip(bytes: Seq<u8>)
    ensures
        base64_bytes(base64_text(bytes)) == Some(bytes),
    decreases bytes.len(),
{
    if bytes.len() == 0 {
    } else if bytes.len() <= 3 {
        lemma_group_round_trip(bytes);
        assert(base64_text(bytes).take(4) =~= encode_group(bytes));
    } else {
        let head = bytes.take(3);
        let tail = bytes.skip(3);
        let text = base64_text(bytes);
        lemma_group_round_trip(head);
        lemma_base64_round_trip(tail);
        assert(text.take(4) =~= encode_group(head));
        assert(text.skip(4) =~= base64_text(tail));
        assert(head + tail =~= bytes);
    }
}

/// Encodes bytes with `data_encoding::BASE64.encode`.
///
/// Trusted: the result is the padded base64 encoding of the input over the
/// standard alphabet, which is what the encoder's documentation promises.
/// The encoder panics on inputs longer than `usize::MAX / 512` bytes, so
/// those are excluded.
#[verifier::external_body]
pub(crate) fn base64_encode(bytes: &[u8]) -> (text: String)
    requires
        bytes@.len() <= usize::MAX / 512,
    ensures
        text@ == base64_text(bytes@),
{
    data_encoding::BASE64.encode(bytes)
}

} // verus!
