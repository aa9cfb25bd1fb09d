//! UTF-8 text as a character stream: a verified decoder and encoder
//! connect byte buffers to character streams, so that later reads never
//! re-validate the text.

use vstd::prelude::*;
use vstd::slice::slice_index_get;
use vstd::utf8::{
    decode_first_codepoint, decode_first_scalar, decode_utf8, decode_utf8_encode_utf8,
    encode_scalar, encode_utf8, encode_utf8_decode_utf8, encode_utf8_valid_utf8, is_scalar,
    length_of_first_codepoint, length_of_first_scalar, pop_first_scalar, valid_first_scalar,
    valid_utf8,
};

use crate::input::{Input, ValueInput};
use crate::primitive::CharInput;

verus! {

/// Relies on `char::from_u32` of std: it returns the character with the given
/// code exactly when the value is a Unicode scalar, that is, not a surrogate
/// and at most 0x10FFFF.
pub assume_specification[ char::from_u32 ](v: u32) -> (r: Option<char>)
    ensures
        r == if is_scalar(v) {
            Some(v as char)
        } else {
            None::<char>
        },
;

/// Decode the scalar encoded at `at`: the character and the position just
/// past its encoding, or nothing when no well-formed scalar encoding starts
/// there.
fn decode_scalar_at(bytes: &[u8], at: usize) -> (r: Option<(char, usize)>)
    requires
        at < bytes@.len(),
    ensures
        ({
            let rest = bytes@.subrange(at as int, bytes@.len() as int);
            match r {
                Some(p) => valid_first_scalar(rest) && p.0 == decode_first_scalar(rest) as char
                    && p.1 == at + length_of_first_scalar(rest),
                None => !valid_first_scalar(rest),
            }
        }),
{
    let ghost rest = bytes@.subrange(at as int, bytes@.len() as int);
    let n = bytes.len();
    let b0 = *slice_index_get(bytes, at);
    proof {
        assert(rest[0] == b0);
    }
    let cp: u32;
    let len: usize;
    if b0 <= 0x7f {
        cp = (b0 & 0x7f) as u32;
        len = 1;
        proof {
            assert(cp == b0 && cp <= 0x7f) by (bit_vector)
                requires
                    cp == (b0 & 0x7f) as u32,
                    b0 <= 0x7f,
            ;
            assert(decode_first_codepoint(rest) == cp);
            assert(length_of_first_codepoint(rest) == 1);
        }
    } else if 0xc0 <= b0 && b0 <= 0xdf {
        if n - at < 2 {
            return None;
        }
        let b1 = *slice_index_get(bytes, at + 1);
        if !(0x80 <= b1 && b1 <= 0xbf) {
            return None;
        }
        cp = (((b0 & 0x1f) as u32) << 6) | ((b1 & 0x3f) as u32);
        len = 2;
        proof {
            assert(rest[1] == b1);
            assert(cp <= 0x7ff) by (bit_vector)
                requires
                    cp == (((b0 & 0x1f) as u32) << 6) | ((b1 & 0x3f) as u32),
            ;
            assert(decode_first_codepoint(rest) == cp);
            assert(length_of_first_codepoint(rest) == 2);
        }
    } else if 0xe0 <= b0 && b0 <= 0xef {
        if n - at < 3 {
            return None;
        }
        let b1 = *slice_index_get(bytes, at + 1);
        let b2 = *slice_index_get(bytes, at + 2);
        if !(0x80 <= b1 && b1 <= 0xbf) || !(0x80 <= b2 && b2 <= 0xbf) {
            return None;
        }
        cp = (((b0 & 0x0f) as u32) << 12) | (((b1 & 0x3f) as u32) << 6) | ((b2 & 0x3f) as u32);
        len = 3;
        proof {
            assert(rest[1] == b1);
            assert(rest[2] == b2);
            assert(cp <= 0xffff) by (bit_vector)
                requires
                    cp == (((b0 & 0x0f) as u32) << 12) | (((b1 & 0x3f) as u32) << 6) | ((b2
                        & 0x3f) as u32),
            ;
            assert(decode_first_codepoint(rest) == cp);
            assert(length_of_first_codepoint(rest) == 3);
        }
    } else if 0xf0 <= b0 && b0 <= 0xf7 {
        if n - at < 4 {
            return None;
        }
        let b1 = *slice_index_get(bytes, at + 1);
        let b2 = *slice_index_get(bytes, at + 2);
        let b3 = *slice_index_get(bytes, at + 3);
        if !(0x80 <= b1 && b1 <= 0xbf) || !(0x80 <= b2 && b2 <= 0xbf) || !(0x80 <= b3 && b3
            <= 0xbf) {
            return None;
        }
        cp = (((b0 & 0x07) as u32) << 18) | (((b1 & 0x3f) as u32) << 12) | (((b2 & 0x3f) as u32)
            << 6) | ((b3 & 0x3f) as u32);
        len = 4;
        proof {
            assert(rest[1] == b1);
            assert(rest[2] == b2);
            assert(rest[3] == b3);
            assert(decode_first_codepoint(rest) == cp);
            assert(length_of_first_codepoint(rest) == 4);
        }
    } else {
        return None;
    }
    // reject overlong encodings and values outside the scalar range
    if (len == 2 && cp < 0x80) || (len == 3 && cp < 0x800) || (len == 4 && (cp < 0x10000 || cp
        > 0x10ffff)) {
        return None;
    }
    // reject the surrogate range
    if 0xd800 <= cp && cp <= 0xdfff {
        return None;
    }
    proof {
        assert(is_scalar(cp));
        assert(valid_first_scalar(rest));
    }
    match char::from_u32(cp) {
        Some(c) => Some((c, at + len)),
        None => vstd::pervasive::unreached(),
    }
}

impl CharInput {
    /// Decode UTF-8 text into a character stream: the stream of the scalars
    /// the bytes encode, or nothing exactly when the bytes are not valid
    /// UTF-8. The validity of every character handed out later rests on this
    /// one check; no read re-validates the text.
    pub fn from_utf8(bytes: &[u8]) -> (r: Option<CharInput>)
        ensures
            match r {
                Some(s) => valid_utf8(bytes@) && s.tok_seq() == decode_utf8(bytes@) && encode_utf8(
                    s.tok_seq(),
                ) == bytes@,
                None => !valid_utf8(bytes@),
            },
    {
        let n = bytes.len();
        let mut chars: Vec<char> = Vec::new();
        let mut i: usize = 0;
        proof {
            assert(bytes@.subrange(0, n as int) =~= bytes@);
        }
        while i < n
            invariant
                i <= n,
                n == bytes@.len(),
                valid_utf8(bytes@) <==> valid_utf8(bytes@.subrange(i as int, n as int)),
                valid_utf8(bytes@) ==> decode_utf8(bytes@) == chars@ + decode_utf8(
                    bytes@.subrange(i as int, n as int),
                ),
            decreases n - i,
        {
            let ghost suffix = bytes@.subrange(i as int, n as int);
            match decode_scalar_at(bytes, i) {
                Some((c, next)) => {
                    proof {
                        assert(pop_first_scalar(suffix) =~= bytes@.subrange(next as int, n as int));
                        if valid_utf8(bytes@) {
                            assert(chars@.push(c) + decode_utf8(pop_first_scalar(suffix))
                                =~= chars@ + decode_utf8(suffix));
                        }
                    }
                    chars.push(c);
                    i = next;
                },
                None => {
                    proof {
                        assert(!valid_utf8(suffix));
                    }
                    return None;
                },
            }
        }
        proof {
            assert(bytes@.subrange(i as int, n as int) =~= Seq::<u8>::empty());
            assert(chars@ + decode_utf8(Seq::<u8>::empty()) =~= chars@);
            decode_utf8_encode_utf8(bytes@);
        }
        Some(CharInput::new(chars))
    }

    /// A character stream over the given text.
    pub fn from_text(s: &str) -> (r: CharInput)
        ensures
            r.tok_seq() == s@,
    {
        proof {
            encode_utf8_valid_utf8(s@);
            encode_utf8_decode_utf8(s@);
        }
        match Self::from_utf8(s.as_bytes()) {
            Some(inp) => inp,
            None => vstd::pervasive::unreached(),
        }
    }

    /// The UTF-8 encoding of this stream's characters.
    pub fn to_utf8(&self) -> (r: Vec<u8>)
        ensures
            r@ == encode_utf8(self.tok_seq()),
            valid_utf8(r@),
    {
        let ghost all = self.tok_seq();
        let mut out: Vec<u8> = Vec::new();
        let mut i: usize = 0;
        let n = self.len();
        while i < n
            invariant
                i <= n,
                n == all.len(),
                all == self.tok_seq(),
                out@ == encode_utf8(all.take(i as int)),
            decreases n - i,
        {
            let c = match self.next(i).1 {
                Some(c) => c,
                None => vstd::pervasive::unreached(),
            };
            proof {
                lemma_encode_utf8_snoc(all.take(i as int), c);
                assert(all.take(i as int).push(c) =~= all.take(i + 1));
            }
            encode_char_into(&mut out, c);
            i = i + 1;
        }
        proof {
            assert(all.take(n as int) =~= all);
            encode_utf8_valid_utf8(all);
        }
        out
    }
}

/// Appending a character to a text appends that character's encoding to the
/// text's encoding.
proof fn lemma_encode_utf8_snoc(chars: Seq<char>, c: char)
    ensures
        encode_utf8(chars.push(c)) == encode_utf8(chars) + encode_scalar(c as u32),
    decreases chars.len(),
{
    if chars.len() == 0 {
        let nothing = Seq::<char>::empty();
        assert(encode_utf8(nothing) =~= Seq::<u8>::empty());
        assert(chars =~= nothing);
        assert(chars.push(c)[0] == c);
        assert(chars.push(c).drop_first() =~= nothing);
        assert(encode_utf8(chars.push(c)) == encode_scalar(c as u32) + encode_utf8(nothing));
        assert(encode_scalar(c as u32) + encode_utf8(nothing) =~= encode_utf8(chars)
            + encode_scalar(c as u32));
    } else {
        let head = encode_scalar(chars[0] as u32);
        let rest = chars.drop_first();
        assert(chars.push(c)[0] == chars[0]);
        assert(chars.push(c).drop_first() =~= rest.push(c));
        lemma_encode_utf8_snoc(rest, c);
        assert(encode_utf8(chars.push(c)) == head + encode_utf8(rest.push(c)));
        assert(head + (encode_utf8(rest) + encode_scalar(c as u32)) =~= (head + encode_utf8(rest))
            + encode_scalar(c as u32));
    }
}

/// Append the UTF-8 encoding of one character.
fn encode_char_into(out: &mut Vec<u8>, c: char)
    ensures
        final(out)@ == old(out)@ + encode_scalar(c as u32),
{
    let ghost before = out@;
    let v = c as u32;
    proof {
        vstd::utf8::char_is_scalar(c);
    }
    if v <= 0x7f {
        out.push((v & 0x7f) as u8);
        proof {
            assert(final(out)@ =~= before + encode_scalar(c as u32));
        }
    } else if v <= 0x7ff {
        out.push(0xc0 | (((v >> 6) & 0x1f) as u8));
        out.push(0x80 | ((v & 0x3f) as u8));
        proof {
            assert(final(out)@ =~= before + encode_scalar(c as u32));
        }
    } else if v <= 0xffff {
        out.push(0xe0 | (((v >> 12) & 0x0f) as u8));
        out.push(0x80 | (((v >> 6) & 0x3f) as u8));
        out.push(0x80 | ((v & 0x3f) as u8));
        proof {
            assert(final(out)@ =~= before + encode_scalar(c as u32));
        }
    } else {
        out.push(0xf0 | (((v >> 18) & 0x7) as u8));
        out.push(0x80 | (((v >> 12) & 0x3f) as u8));
        out.push(0x80 | (((v >> 6) & 0x3f) as u8));
        out.push(0x80 | ((v & 0x3f) as u8));
        proof {
            assert(final(out)@ =~= before + encode_scalar(c as u32));
        }
    }
}

} // verus!
