//! Text handling for captured process streams.
//!
//! A child process hands back raw bytes on its standard output and standard
//! error. Turning those bytes into text can fail, and that failure is its own
//! outcome, distinct from the process having failed. The validity check is
//! verified against vstd's UTF-8 specification; only the final
//! materialisation of the `String` is taken on trust.

use vstd::prelude::*;
use vstd::string::StrSliceExecFns;
use vstd::utf8::*;

verus! {

/// Decides whether two string slices hold the same text.
pub fn str_eq(a: &str, b: &str) -> (r: bool)
    ensures
        r == (a@ == b@),
{
    let ab = a.as_bytes_vec();
    let bb = b.as_bytes_vec();
    if ab.len() != bb.len() {
        proof {
            if a@ == b@ {
                assert(encode_utf8(a@) == encode_utf8(b@));
            }
        }
        return false;
    }
    let n = ab.len();
    let mut i: usize = 0;
    while i < n
        invariant
            n == ab@.len(),
            ab@.len() == bb@.len(),
            ab@ == encode_utf8(a@),
            bb@ == encode_utf8(b@),
            i <= n,
            forall|j: int| 0 <= j < i ==> ab@[j] == bb@[j],
        decreases n - i,
    {
        if ab[i] != bb[i] {
            proof {
                if a@ == b@ {
                    assert(encode_utf8(a@) == encode_utf8(b@));
                }
            }
            return false;
        }
        i = i + 1;
    }
    proof {
        assert(ab@ =~= bb@);
        encode_utf8_decode_utf8(a@);
        encode_utf8_decode_utf8(b@);
    }
    true
}

/// Examines the encoding of a single scalar starting at position `i`:
/// its width in bytes when it is well formed, nothing when it is not.
fn first_scalar_width(bytes: &Vec<u8>, i: usize) -> (r: Option<usize>)
    requires
        i < bytes@.len(),
    ensures
        ({
            let sub = bytes@.subrange(i as int, bytes@.len() as int);
            match r {
                Some(w) => valid_first_scalar(sub) && w == length_of_first_scalar(sub) && 1 <= w
                    <= 4 && i + w <= bytes@.len(),
                None => !valid_first_scalar(sub),
            }
        }),
{
    let ghost sub = bytes@.subrange(i as int, bytes@.len() as int);
    let n = bytes.len();
    let b0 = bytes[i];
    proof {
        assert(sub.len() == n - i);
        assert(sub[0] == b0);
    }
    if b0 <= 0x7f {
        proof {
            assert(b0 & 0x7f == b0) by (bit_vector)
                requires
                    b0 <= 0x7f,
            ;
            assert(decode_first_codepoint(sub) == b0 as u32);
            assert(length_of_first_codepoint(sub) == 1);
        }
        Some(1)
    } else if 0xc0 <= b0 && b0 <= 0xdf {
        if n - i < 2 {
            proof {
                assert(!valid_leading_and_continuation_bytes_first_codepoint(sub));
            }
            return None;
        }
        let b1 = bytes[i + 1];
        proof {
            assert(sub[1] == b1);
        }
        if !(0x80 <= b1 && b1 <= 0xbf) {
            proof {
                assert(!valid_leading_and_continuation_bytes_first_codepoint(sub));
            }
            return None;
        }
        let cp: u32 = (((b0 & 0x1f) as u32) << 6u32) | ((b1 & 0x3f) as u32);
        proof {
            assert(cp == codepoint_width_2(b0, b1));
            assert(decode_first_codepoint(sub) == cp);
            assert(length_of_first_codepoint(sub) == 2);
            assert((((b0 & 0x1f) as u32) << 6u32) | ((b1 & 0x3f) as u32) <= 0x7ff) by (bit_vector);
        }
        if cp < 0x80 {
            proof {
                assert(!not_overlong_encoding(decode_first_codepoint(sub), 2));
            }
            return None;
        }
        Some(2)
    } else if 0xe0 <= b0 && b0 <= 0xef {
        if n - i < 3 {
            proof {
                assert(!valid_leading_and_continuation_bytes_first_codepoint(sub));
            }
            return None;
        }
        let b1 = bytes[i + 1];
        let b2 = bytes[i + 2];
        proof {
            assert(sub[1] == b1);
            assert(sub[2] == b2);
        }
        if !(0x80 <= b1 && b1 <= 0xbf) || !(0x80 <= b2 && b2 <= 0xbf) {
            proof {
                assert(!valid_leading_and_continuation_bytes_first_codepoint(sub));
            }
            return None;
        }
        let cp: u32 = (((b0 & 0x0f) as u32) << 12u32) | (((b1 & 0x3f) as u32) << 6u32) | ((b2
            & 0x3f) as u32);
        proof {
            assert(cp == codepoint_width_3(b0, b1, b2));
            assert(decode_first_codepoint(sub) == cp);
            assert(length_of_first_codepoint(sub) == 3);
        }
        if cp < 0x800 {
            proof {
                assert(!not_overlong_encoding(decode_first_codepoint(sub), 3));
            }
            return None;
        }
        if 0xd800 <= cp && cp <= 0xdfff {
            proof {
                assert(!not_surrogate(decode_first_codepoint(sub)));
            }
            return None;
        }
        Some(3)
    } else if 0xf0 <= b0 && b0 <= 0xf7 {
        if n - i < 4 {
            proof {
                assert(!valid_leading_and_continuation_bytes_first_codepoint(sub));
            }
            return None;
        }
        let b1 = bytes[i + 1];
        let b2 = bytes[i + 2];
        let b3 = bytes[i + 3];
        proof {
            assert(sub[1] == b1);
            assert(sub[2] == b2);
            assert(sub[3] == b3);
        }
        if !(0x80 <= b1 && b1 <= 0xbf) || !(0x80 <= b2 && b2 <= 0xbf) || !(0x80 <= b3 && b3
            <= 0xbf) {
            proof {
                assert(!valid_leading_and_continuation_bytes_first_codepoint(sub));
            }
            return None;
        }
        let cp: u32 = (((b0 & 0x07) as u32) << 18u32) | (((b1 & 0x3f) as u32) << 12u32) | (((b2
            & 0x3f) as u32) << 6u32) | ((b3 & 0x3f) as u32);
        proof {
            assert(cp == codepoint_width_4(b0, b1, b2, b3));
            assert(decode_first_codepoint(sub) == cp);
            assert(length_of_first_codepoint(sub) == 4);
        }
        if cp < 0x10000 || cp > 0x10ffff {
            proof {
                assert(!not_overlong_encoding(decode_first_codepoint(sub), 4));
            }
            return None;
        }
        Some(4)
    } else {
        proof {
            assert(!valid_leading_and_continuation_bytes_first_codepoint(sub));
        }
        None
    }
}

/// Decides whether the given bytes are a valid UTF-8 encoding.
pub fn utf8_valid(bytes: &Vec<u8>) -> (r: bool)
    ensures
        r == valid_utf8(bytes@),
{
    let n = bytes.len();
    let mut i: usize = 0;
    while i < n
        invariant
            n == bytes@.len(),
            i <= n,
            partial_valid_utf8(bytes@, i as int),
        decreases n - i,
    {
        match first_scalar_width(bytes, i) {
            Some(w) => {
                proof {
                    partial_valid_utf8_extend(bytes@, i as int);
                }
                i = i + w;
            },
            None => {
                proof {
                    let sub = bytes@.subrange(i as int, bytes@.len() as int);
                    assert(sub.len() > 0);
                    assert(!valid_utf8(sub));
                    partial_valid_partial_invalid_utf8(bytes@, i as int);
                }
                return false;
            },
        }
    }
    proof {
        assert(bytes@.subrange(0, bytes@.len() as int) =~= bytes@);
    }
    true
}

/// A non-empty valid byte sequence decodes to non-empty text.
pub proof fn lemma_decode_nonempty(bytes: Seq<u8>)
    requires
        valid_utf8(bytes),
        bytes.len() > 0,
    ensures
        decode_utf8(bytes).len() > 0,
{
}

/// Relies on `String::from_utf8`: bytes that are a valid UTF-8 encoding are
/// accepted and decode to the string they encode.
#[verifier::external_body]
fn utf8_into_string(bytes: Vec<u8>) -> (s: String)
    requires
        valid_utf8(bytes@),
    ensures
        s@ == decode_utf8(bytes@),
{
    match String::from_utf8(bytes) {
        Ok(s) => s,
        Err(_) => String::new(),
    }
}

/// Turns the captured bytes of a process stream into text, or reports that
/// they are not a valid encoding.
pub fn decode_stream(bytes: Vec<u8>) -> (r: Option<String>)
    ensures
        r is Some <==> valid_utf8(bytes@),
        r matches Some(s) ==> s@ == decode_utf8(bytes@),
{
    if utf8_valid(&bytes) {
        Some(utf8_into_string(bytes))
    } else {
        None
    }
}

} // verus!
