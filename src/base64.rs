//! Base64 decoding of the payloads embedded in data URIs.
//!
//! The alphabet is the standard one (`A`-`Z`, `a`-`z`, `0`-`9`, `+`, `/`);
//! any other byte where a symbol is needed makes the text malformed. A text is a run of
//! four-symbol groups, optionally ended by a group of two or three symbols,
//! which may be padded with `=` up to four characters.
use vstd::prelude::*;
use vstd::string::StringSliceAdditionalSpecFns;

use crate::error::GltfError;

verus! {

/// The padding character.
pub const PAD: u8 = 61;

/// The six-bit value of an alphabet symbol, or `None` for any other byte.
pub open spec fn symbol_value(b: u8) -> Option<u8> {
    if 65 <= b <= 90 {
        Some((b - 65) as u8)  // 'A'..='Z'
    } else if 97 <= b <= 122 {
        Some((b - 71) as u8)  // 'a'..='z'
    } else if 48 <= b <= 57 {
        Some((b + 4) as u8)  // '0'..='9'
    } else if b == 43 {
        Some(62u8)  // '+'
    } else if b == 47 {
        Some(63u8)  // '/'
    } else {
        None
    }
}

/// Whether a byte is a symbol of the alphabet.
pub open spec fn is_symbol(b: u8) -> bool {
    symbol_value(b) is Some
}

/// The value of a byte known to be a symbol.
pub open spec fn val(b: u8) -> u8 {
    symbol_value(b)->Some_0
}

/// The first byte of a group, from its first two symbols' values.
pub open spec fn first_byte(a: u8, b: u8) -> u8 {
    (a * 4 + b / 16) as u8
}

/// The second byte of a group, from its second and third symbols' values.
pub open spec fn second_byte(b: u8, c: u8) -> u8 {
    ((b % 16) * 16 + c / 4) as u8
}

/// The third byte of a group, from its third and fourth symbols' values.
pub open spec fn third_byte(c: u8, d: u8) -> u8 {
    ((c % 4) * 64 + d) as u8
}

/// The bytes that a base64 text stands for, or `None` where the text is not
/// base64.
pub open spec fn decoded(s: Seq<u8>) -> Option<Seq<u8>>
    decreases s.len(),
{
    if s.len() == 0 {
        Some(Seq::empty())
    } else if s.len() < 2 || !is_symbol(s[0]) || !is_symbol(s[1]) {
        None
    } else {
        let b0 = first_byte(val(s[0]), val(s[1]));
        if s.len() == 2 || (s.len() == 4 && s[2] == PAD && s[3] == PAD) {
            Some(seq![b0])
        } else if !is_symbol(s[2]) {
            None
        } else {
            let b1 = second_byte(val(s[1]), val(s[2]));
            if s.len() == 3 || (s.len() == 4 && s[3] == PAD) {
                Some(seq![b0, b1])
            } else if !is_symbol(s[3]) {
                None
            } else {
                let b2 = third_byte(val(s[2]), val(s[3]));
                match decoded(s.subrange(4, s.len() as int)) {
                    Some(rest) => Some(seq![b0, b1, b2] + rest),
                    None => None,
                }
            }
        }
    }
}

/// The number of `=` that end a text, up to two.
pub open spec fn padding(s: Seq<u8>) -> nat {
    if s.len() >= 2 && s[s.len() - 2] == PAD && s[s.len() - 1] == PAD {
        2
    } else if s.len() >= 1 && s[s.len() - 1] == PAD {
        1
    } else {
        0
    }
}

/// A base64 text made of whole four-character groups decodes to three
/// bytes per group, less one for each `=` of padding.
pub proof fn lemma_decoded_length(s: Seq<u8>)
    requires
        decoded(s) is Some,
        s.len() % 4 == 0,
    ensures
        decoded(s)->Some_0.len() == 3 * (s.len() / 4) - padding(s),
    decreases s.len(),
{
    let rest = s.subrange(4, s.len() as int);
    if s.len() > 4 {
        lemma_decoded_length(rest);
        assert(rest[rest.len() - 1] == s[s.len() - 1]);
        assert(rest[rest.len() - 2] == s[s.len() - 2]);
    } else if s.len() == 4 {
        assert(decoded(rest) == Some(Seq::<u8>::empty()));
    }
}

/// The symbol of the standard alphabet for a six-bit value.
pub open spec fn symbol_of(v: u8) -> u8 {
    if v < 26 {
        (v + 65) as u8
    } else if v < 52 {
        (v + 71) as u8
    } else if v < 62 {
        (v - 4) as u8
    } else if v == 62 {
        43u8
    } else {
        47u8
    }
}

/// The standard padded base64 text of a byte sequence: each three bytes
/// become four symbols, and a last one or two bytes become two or three
/// symbols padded with `=` to four.
pub open spec fn encoded(b: Seq<u8>) -> Seq<u8>
    decreases b.len(),
{
    if b.len() == 0 {
        Seq::empty()
    } else if b.len() == 1 {
        seq![symbol_of(b[0] / 4), symbol_of(((b[0] % 4) * 16) as u8), PAD, PAD]
    } else if b.len() == 2 {
        seq![
            symbol_of(b[0] / 4),
            symbol_of(((b[0] % 4) * 16 + b[1] / 16) as u8),
            symbol_of(((b[1] % 16) * 4) as u8),
            PAD,
        ]
    } else {
        seq![
            symbol_of(b[0] / 4),
            symbol_of(((b[0] % 4) * 16 + b[1] / 16) as u8),
            symbol_of(((b[1] % 16) * 4 + b[2] / 64) as u8),
            symbol_of(b[2] % 64),
        ] + encoded(b.subrange(3, b.len() as int))
    }
}

proof fn lemma_symbol_of(v: u8)
    requires
        v < 64,
    ensures
        is_symbol(symbol_of(v)),
        val(symbol_of(v)) == v,
        symbol_of(v) != PAD,
{
}

proof fn lemma_group_bytes(x: u8, y: u8, z: u8)
    ensures
        first_byte(x / 4, ((x % 4) * 16 + y / 16) as u8) == x,
        second_byte(((x % 4) * 16 + y / 16) as u8, ((y % 16) * 4 + z / 64) as u8) == y,
        third_byte(((y % 16) * 4 + z / 64) as u8, z % 64) == z,
{
    assert(first_byte(x / 4, ((x % 4) * 16 + y / 16) as u8) == x) by (bit_vector);
    assert(second_byte(((x % 4) * 16 + y / 16) as u8, ((y % 16) * 4 + z / 64) as u8) == y)
        by (bit_vector);
    assert(third_byte(((y % 16) * 4 + z / 64) as u8, z % 64) == z) by (bit_vector);
}

/// Decoding inverts the standard encoding: the padded base64 text of any
/// byte sequence decodes to exactly that sequence.
pub proof fn lemma_decodes_standard_encoding(b: Seq<u8>)
    ensures
        decoded(encoded(b)) == Some(b),
    decreases b.len(),
{
    if b.len() == 0 {
        return;
    }
    let x = b[0];
    let y: u8 = if b.len() >= 2 { b[1] } else { 0 };
    let z: u8 = if b.len() >= 3 { b[2] } else { 0 };
    lemma_group_bytes(x, y, z);
    lemma_symbol_of(x / 4);
    assert(((x % 4) * 16 + y / 16) < 64) by (bit_vector);
    lemma_symbol_of(((x % 4) * 16 + y / 16) as u8);
    assert(((y % 16) * 4 + z / 64) < 64) by (bit_vector);
    lemma_symbol_of(((y % 16) * 4 + z / 64) as u8);
    lemma_symbol_of(z % 64);
    let s = encoded(b);
    if b.len() == 1 {
        assert(((x % 4) * 16 + 0u8 / 16) as u8 == ((x % 4) * 16) as u8);
        assert(decoded(s) == Some(seq![x]));
        assert(seq![x] =~= b);
    } else if b.len() == 2 {
        assert(((y % 16) * 4 + 0u8 / 64) as u8 == ((y % 16) * 4) as u8);
        assert(decoded(s) == Some(seq![x, y]));
        assert(seq![x, y] =~= b);
    } else {
        let rest = b.subrange(3, b.len() as int);
        lemma_decodes_standard_encoding(rest);
        assert(s.subrange(4, s.len() as int) =~= encoded(rest));
        assert(seq![x, y, z] + rest =~= b);
        if rest.len() == 0 {
            assert(s.len() == 4);
        }
    }
}

/// The six-bit value of a symbol.
fn symbol(b: u8) -> (r: Option<u8>)
    ensures
        r == symbol_value(b),
{
    if 65 <= b && b <= 90 {
        Some(b - 65)
    } else if 97 <= b && b <= 122 {
        Some(b - 71)
    } else if 48 <= b && b <= 57 {
        Some(b + 4)
    } else if b == 43 {
        Some(62)
    } else if b == 47 {
        Some(63)
    } else {
        None
    }
}

/// Decodes the base64 text that fills `p` from `start` on.
pub fn decode_from(p: &[u8], start: usize) -> (r: Result<Vec<u8>, GltfError>)
    requires
        start <= p@.len(),
    ensures
        match decoded(p@.subrange(start as int, p@.len() as int)) {
            Some(v) => r matches Ok(out) && out@ == v,
            None => r == Err::<Vec<u8>, GltfError>(GltfError::MalformedBase64),
        },
{
    let n = p.len();
    let mut out: Vec<u8> = Vec::new();
    let mut i: usize = start;
    // Whole groups that are followed by more text.
    while n - i > 4
        invariant
            start <= i <= n,
            n == p@.len(),
            decoded(p@.subrange(start as int, n as int)) == (match decoded(
                p@.subrange(i as int, n as int),
            ) {
                Some(rest) => Some(out@ + rest),
                None => None,
            }),
        decreases n - i,
    {
        let ghost s = p@.subrange(i as int, n as int);
        let (a, b, c, d) = match (symbol(p[i]), symbol(p[i + 1]), symbol(p[i + 2]), symbol(p[i + 3])) {
            (Some(a), Some(b), Some(c), Some(d)) => (a, b, c, d),
            _ => {
                return Err(GltfError::MalformedBase64);
            },
        };
        proof {
            assert(s.subrange(4, s.len() as int) =~= p@.subrange(i + 4, n as int));
        }
        out.push(a * 4 + b / 16);
        out.push((b % 16) * 16 + c / 4);
        out.push((c % 4) * 64 + d);
        i = i + 4;
        proof {
            assert(out@ =~= out@.subrange(0, out@.len() - 3) + seq![
                first_byte(a, b),
                second_byte(b, c),
                third_byte(c, d),
            ]);
        }
    }
    let ghost s = p@.subrange(i as int, n as int);
    let ghost head = out@;
    let rem = n - i;
    if rem == 0 {
        proof {
            assert(out@ + Seq::<u8>::empty() =~= out@);
        }
        return Ok(out);
    }
    if rem == 1 {
        return Err(GltfError::MalformedBase64);
    }
    let (a, b) = match (symbol(p[i]), symbol(p[i + 1])) {
        (Some(a), Some(b)) => (a, b),
        _ => {
            return Err(GltfError::MalformedBase64);
        },
    };
    out.push(a * 4 + b / 16);
    if rem == 2 || (rem == 4 && p[i + 2] == PAD && p[i + 3] == PAD) {
        proof {
            assert(out@ =~= head + seq![first_byte(a, b)]);
        }
        return Ok(out);
    }
    let c = match symbol(p[i + 2]) {
        Some(c) => c,
        None => {
            return Err(GltfError::MalformedBase64);
        },
    };
    out.push((b % 16) * 16 + c / 4);
    if rem == 3 || p[i + 3] == PAD {
        proof {
            assert(out@ =~= head + seq![first_byte(a, b), second_byte(b, c)]);
        }
        return Ok(out);
    }
    let d = match symbol(p[i + 3]) {
        Some(d) => d,
        None => {
            return Err(GltfError::MalformedBase64);
        },
    };
    out.push((c % 4) * 64 + d);
    proof {
        assert(s.subrange(4, s.len() as int) =~= Seq::<u8>::empty());
        assert(decoded(s.subrange(4, s.len() as int)) == Some(Seq::<u8>::empty()));
        assert(out@ =~= head + (seq![first_byte(a, b), second_byte(b, c), third_byte(c, d)]
            + Seq::<u8>::empty()));
    }
    Ok(out)
}

/// Decodes a base64 text, read as its UTF-8 bytes.
pub fn decode(data: &str) -> (r: Result<Vec<u8>, GltfError>)
    ensures
        match decoded(data.spec_bytes()) {
            Some(v) => r matches Ok(out) && out@ == v,
            None => r == Err::<Vec<u8>, GltfError>(GltfError::MalformedBase64),
        },
{
    let p = data.as_bytes();
    proof {
        assert(p@.subrange(0, p@.len() as int) =~= p@);
    }
    decode_from(p, 0)
}

} // verus!
