//! Strict UTF-8 to UTF-32 transcoding and exact length prediction.
//!
//! The decoder rejects overlong forms, surrogate code points, values above
//! 0x10FFFF, truncated sequences and stray continuation bytes.  Failure is
//! signalled by returning an empty sequence; the only legitimate empty
//! output belongs to an empty input.
use vstd::prelude::*;
use vstd::utf8::*;

verus! {

/// The code-point values of a character sequence.
pub open spec fn cps_of(s: Seq<char>) -> Seq<u32> {
    s.map(|_i: int, c: char| c as u32)
}

/// All values of the sequence are Unicode scalars (encodable in UTF-8).
pub open spec fn all_scalars(s: Seq<u32>) -> bool {
    forall|i: int| 0 <= i < s.len() ==> is_scalar(#[trigger] s[i])
}

/// The UTF-8 encoding of a sequence of scalar values.
pub open spec fn encode_cps(s: Seq<u32>) -> Seq<u8>
    decreases s.len(),
{
    if s.len() == 0 {
        seq![]
    } else {
        encode_scalar(s[0]) + encode_cps(s.drop_first())
    }
}

/// Number of UTF-8 bytes needed for one scalar value.
pub open spec fn utf8_len_of(cp: u32) -> int {
    1 + (if cp > 0x7F {
        1int
    } else {
        0int
    }) + (if cp > 0x7FF {
        1int
    } else {
        0int
    }) + (if cp > 0xFFFF {
        1int
    } else {
        0int
    })
}

/// Number of UTF-8 bytes needed for a sequence of scalar values.
pub open spec fn utf8_len_cps(s: Seq<u32>) -> int
    decreases s.len(),
{
    if s.len() == 0 {
        0
    } else {
        utf8_len_of(s[0]) + utf8_len_cps(s.drop_first())
    }
}

/// Number of bytes of the sequence that are not UTF-8 continuation bytes.
pub open spec fn non_continuation_count(s: Seq<u8>) -> int
    decreases s.len(),
{
    if s.len() == 0 {
        0
    } else {
        (if is_continuation_byte(s[0]) {
            0int
        } else {
            1int
        }) + non_continuation_count(s.drop_first())
    }
}

proof fn lemma_encode_cps_push(s: Seq<u32>, x: u32)
    ensures
        encode_cps(s.push(x)) == encode_cps(s) + encode_scalar(x),
    decreases s.len(),
{
    if s.len() == 0 {
        assert(s.push(x).drop_first() =~= s);
        assert(encode_cps(s.push(x)) =~= encode_cps(s) + encode_scalar(x));
    } else {
        assert(s.push(x).drop_first() =~= s.drop_first().push(x));
        lemma_encode_cps_push(s.drop_first(), x);
        assert(encode_cps(s.push(x)) =~= encode_cps(s) + encode_scalar(x));
    }
}

proof fn lemma_utf8_len_cps_push(s: Seq<u32>, x: u32)
    ensures
        utf8_len_cps(s.push(x)) == utf8_len_cps(s) + utf8_len_of(x),
    decreases s.len(),
{
    if s.len() == 0 {
        assert(s.push(x).drop_first() =~= s);
    } else {
        assert(s.push(x).drop_first() =~= s.drop_first().push(x));
        lemma_utf8_len_cps_push(s.drop_first(), x);
    }
}

/// The encoding of a scalar sequence takes exactly the predicted length.
pub proof fn lemma_encode_cps_len(s: Seq<u32>)
    requires
        all_scalars(s),
    ensures
        encode_cps(s).len() == utf8_len_cps(s),
    decreases s.len(),
{
    if s.len() == 0 {
    } else {
        assert(is_scalar(s[0]));
        assert(encode_scalar(s[0]).len() == utf8_len_of(s[0]));
        assert(all_scalars(s.drop_first()));
        lemma_encode_cps_len(s.drop_first());
    }
}

/// Encoding code points agrees with encoding the characters they came from.
pub proof fn lemma_encode_cps_chars(s: Seq<char>)
    ensures
        encode_cps(cps_of(s)) == encode_utf8(s),
    decreases s.len(),
{
    if s.len() == 0 {
        assert(encode_cps(cps_of(s)) =~= encode_utf8(s));
    } else {
        assert(cps_of(s).drop_first() =~= cps_of(s.drop_first()));
        lemma_encode_cps_chars(s.drop_first());
        assert(encode_cps(cps_of(s)) =~= encode_utf8(s));
    }
}

/// Values decoded from characters are scalars.
pub proof fn lemma_cps_of_scalars(s: Seq<char>)
    ensures
        all_scalars(cps_of(s)),
{
    assert forall|i: int| 0 <= i < cps_of(s).len() implies is_scalar(#[trigger] cps_of(s)[i]) by {
        char_is_scalar(s[i]);
    }
}

/// The characters with the given code-point values.
pub open spec fn chars_of(s: Seq<u32>) -> Seq<char>
    recommends
        all_scalars(s),
{
    s.map(|_i: int, v: u32| v as char)
}

/// Casting characters to code points and back is the identity.
pub proof fn lemma_chars_cps_id(s: Seq<char>)
    ensures
        chars_of(cps_of(s)) == s,
{
    assert forall|i: int| 0 <= i < s.len() implies chars_of(cps_of(s))[i] == s[i] by {
        char_u32_cast(s[i], s[i] as u32);
    }
    assert(chars_of(cps_of(s)) =~= s);
}

/// Casting scalar code points to characters and back is the identity.
pub proof fn lemma_cps_chars_id(s: Seq<u32>)
    requires
        all_scalars(s),
    ensures
        cps_of(chars_of(s)) == s,
{
    assert forall|i: int| 0 <= i < s.len() implies cps_of(chars_of(s))[i] == s[i] by {
        assert(is_scalar(s[i]));
    }
    assert(cps_of(chars_of(s)) =~= s);
}

/// The encoding of a scalar sequence is valid UTF-8 and decodes back to
/// the same values.
pub proof fn lemma_encode_cps_valid(s: Seq<u32>)
    requires
        all_scalars(s),
    ensures
        valid_utf8(encode_cps(s)),
        decode_utf8(encode_cps(s)) == chars_of(s),
{
    lemma_cps_chars_id(s);
    lemma_encode_cps_chars(chars_of(s));
    encode_utf8_valid_utf8(chars_of(s));
    encode_utf8_decode_utf8(chars_of(s));
}

/// Strict UTF-8 decoding.  On a valid input the result holds the scalar
/// value of each character in order; on any malformed input it is empty.
pub fn utf8_to_utf32(buf: &[u8]) -> (r: Vec<u32>)
    ensures
        valid_utf8(buf@) ==> r@ == cps_of(decode_utf8(buf@)),
        !valid_utf8(buf@) ==> r@.len() == 0,
{
    let len = buf.len();
    let mut pos: usize = 0;
    let mut out: Vec<u32> = Vec::new();
    while pos < len
        invariant
            pos <= len,
            len == buf@.len(),
            partial_valid_utf8(buf@, pos as int),
            out@ == cps_of(decode_utf8(buf@.subrange(0, pos as int))),
        decreases len - pos,
    {
        let ghost rem = buf@.subrange(pos as int, len as int);
        let b0 = buf[pos];
        let width: usize;
        let cp: u32;
        if b0 < 0x80 {
            width = 1;
            cp = (b0 & 0x7F) as u32;
            proof {
                assert(rem[0] == b0);
                assert(cp == b0 as u32) by (bit_vector)
                    requires
                        b0 < 0x80 && cp == (b0 & 0x7F) as u32,
                ;
                assert(valid_first_scalar(rem));
                assert(decode_first_scalar(rem) == cp);
                assert(length_of_first_scalar(rem) == 1);
            }
        } else if 0xC0 <= b0 && b0 < 0xE0 {
            if len - pos < 2 {
                proof {
                    lemma_reject(buf@, pos as int);
                }
                return Vec::new();
            }
            let b1 = buf[pos + 1];
            if !(0x80 <= b1 && b1 < 0xC0) {
                proof {
                    lemma_reject(buf@, pos as int);
                }
                return Vec::new();
            }
            cp = (((b0 & 0x1F) as u32) << 6u32) | ((b1 & 0x3F) as u32);
            if cp < 0x80 {
                proof {
                    assert(rem[0] == b0 && rem[1] == b1);
                    assert(decode_first_codepoint(rem) == cp);
                    lemma_reject(buf@, pos as int);
                }
                return Vec::new();
            }
            width = 2;
            proof {
                assert(rem[0] == b0 && rem[1] == b1);
                assert(cp <= 0x7FF) by (bit_vector)
                    requires
                        cp == (((b0 & 0x1F) as u32) << 6u32) | ((b1 & 0x3F) as u32),
                ;
                assert(valid_first_scalar(rem));
                assert(decode_first_scalar(rem) == cp);
                assert(length_of_first_scalar(rem) == 2);
            }
        } else if 0xE0 <= b0 && b0 < 0xF0 {
            if len - pos < 3 {
                proof {
                    lemma_reject(buf@, pos as int);
                }
                return Vec::new();
            }
            let b1 = buf[pos + 1];
            let b2 = buf[pos + 2];
            if !(0x80 <= b1 && b1 < 0xC0) || !(0x80 <= b2 && b2 < 0xC0) {
                proof {
                    lemma_reject(buf@, pos as int);
                }
                return Vec::new();
            }
            cp = (((b0 & 0x0F) as u32) << 12u32) | (((b1 & 0x3F) as u32) << 6u32) | ((b2
                & 0x3F) as u32);
            if cp < 0x800 || (0xD800 <= cp && cp < 0xE000) {
                proof {
                    assert(rem[0] == b0 && rem[1] == b1 && rem[2] == b2);
                    assert(decode_first_codepoint(rem) == cp);
                    lemma_reject(buf@, pos as int);
                }
                return Vec::new();
            }
            width = 3;
            proof {
                assert(rem[0] == b0 && rem[1] == b1 && rem[2] == b2);
                assert(cp <= 0xFFFF) by (bit_vector)
                    requires
                        cp == (((b0 & 0x0F) as u32) << 12u32) | (((b1 & 0x3F) as u32) << 6u32) | ((
                        b2 & 0x3F) as u32),
                ;
                assert(valid_first_scalar(rem));
                assert(decode_first_scalar(rem) == cp);
                assert(length_of_first_scalar(rem) == 3);
            }
        } else if 0xF0 <= b0 && b0 < 0xF8 {
            if len - pos < 4 {
                proof {
                    lemma_reject(buf@, pos as int);
                }
                return Vec::new();
            }
            let b1 = buf[pos + 1];
            let b2 = buf[pos + 2];
            let b3 = buf[pos + 3];
            if !(0x80 <= b1 && b1 < 0xC0) || !(0x80 <= b2 && b2 < 0xC0) || !(0x80 <= b3 && b3
                < 0xC0) {
                proof {
                    lemma_reject(buf@, pos as int);
                }
                return Vec::new();
            }
            cp = (((b0 & 0x07) as u32) << 18u32) | (((b1 & 0x3F) as u32) << 12u32) | (((b2
                & 0x3F) as u32) << 6u32) | ((b3 & 0x3F) as u32);
            if cp < 0x10000 || cp > 0x10FFFF {
                proof {
                    assert(rem[0] == b0 && rem[1] == b1 && rem[2] == b2 && rem[3] == b3);
                    assert(decode_first_codepoint(rem) == cp);
                    lemma_reject(buf@, pos as int);
                }
                return Vec::new();
            }
            width = 4;
            proof {
                assert(rem[0] == b0 && rem[1] == b1 && rem[2] == b2 && rem[3] == b3);
                assert(valid_first_scalar(rem));
                assert(decode_first_scalar(rem) == cp);
                assert(length_of_first_scalar(rem) == 4);
            }
        } else {
            proof {
                lemma_reject(buf@, pos as int);
            }
            return Vec::new();
        }
        proof {
            lemma_step(buf@, pos as int, width as int, cp);
        }
        out.push(cp);
        pos = pos + width;
        proof {
            assert(out@ == cps_of(decode_utf8(buf@.subrange(0, pos as int))));
        }
    }
    proof {
        assert(buf@.subrange(0, len as int) =~= buf@);
    }
    out
}

/// A prefix decodes cleanly but what follows does not begin a scalar:
/// the whole input is malformed.
proof fn lemma_reject(b: Seq<u8>, pos: int)
    requires
        0 <= pos <= b.len(),
        valid_utf8(b.subrange(0, pos)),
        !valid_first_scalar(b.subrange(pos, b.len() as int)),
        pos < b.len(),
    ensures
        !valid_utf8(b),
{
    let rem = b.subrange(pos, b.len() as int);
    assert(rem.len() > 0);
    assert(!valid_utf8(rem));
    partial_valid_partial_invalid_utf8(b, pos);
}

/// Consuming one well-formed scalar extends the valid prefix and appends
/// exactly the decoded value.
proof fn lemma_step(b: Seq<u8>, pos: int, width: int, cp: u32)
    requires
        0 <= pos,
        pos + width <= b.len(),
        valid_utf8(b.subrange(0, pos)),
        valid_first_scalar(b.subrange(pos, b.len() as int)),
        length_of_first_scalar(b.subrange(pos, b.len() as int)) == width,
        decode_first_scalar(b.subrange(pos, b.len() as int)) == cp,
        is_scalar(cp),
    ensures
        partial_valid_utf8(b, pos + width),
        cps_of(decode_utf8(b.subrange(0, pos + width))) == cps_of(
            decode_utf8(b.subrange(0, pos)),
        ).push(cp),
{
    let rem = b.subrange(pos, b.len() as int);
    partial_valid_utf8_extend(b, pos);
    let full = b.subrange(0, pos + width);
    let scal = b.subrange(pos, pos + width);
    assert(valid_utf8(full));
    // the single scalar on its own decodes to exactly one character
    assert(scal =~= take_first_scalar(rem));
    assert(scal =~= full.subrange(pos, pos + width));
    assert(full.subrange(0, pos) =~= b.subrange(0, pos));
    assert(valid_first_scalar(scal));
    assert(decode_first_scalar(scal) == cp);
    assert(length_of_first_scalar(scal) == width);
    assert(pop_first_scalar(scal) =~= Seq::<u8>::empty());
    assert(valid_utf8(scal)) by {
        reveal_with_fuel(valid_utf8, 2);
    }
    assert(decode_utf8(scal) =~= seq![cp as char]) by {
        reveal_with_fuel(decode_utf8, 2);
    }
    // split the extended prefix at the old boundary
    assert(!is_continuation_byte(full[pos])) by {
        assert(valid_leading_and_continuation_bytes_first_codepoint(rem));
        assert(full[pos] == rem[0]);
    }
    is_char_boundary_iff_not_is_continuation_byte(full, pos);
    decode_utf8_split(full, pos);
    assert(decode_utf8(full) =~= decode_utf8(b.subrange(0, pos)) + seq![cp as char]);
    assert((cp as char) as u32 == cp);
    assert(cps_of(decode_utf8(full)) =~= cps_of(decode_utf8(b.subrange(0, pos))).push(cp));
}

/// Strict UTF-8 encoding.  When every value is a Unicode scalar the result
/// is its UTF-8 serialization; otherwise the result is empty.
pub fn utf32_to_utf8(buf: &[u32]) -> (r: Vec<u8>)
    ensures
        all_scalars(buf@) ==> r@ == encode_cps(buf@),
        !all_scalars(buf@) ==> r@.len() == 0,
{
    let len = buf.len();
    let mut pos: usize = 0;
    let mut out: Vec<u8> = Vec::new();
    while pos < len
        invariant
            pos <= len,
            len == buf@.len(),
            all_scalars(buf@.subrange(0, pos as int)),
            out@ == encode_cps(buf@.subrange(0, pos as int)),
        decreases len - pos,
    {
        let cp = buf[pos];
        if 0xD800 <= cp && cp < 0xE000 {
            return Vec::new();
        }
        if cp > 0x10FFFF {
            return Vec::new();
        }
        push_utf8(&mut out, cp);
        proof {
            assert(buf@.subrange(0, pos + 1) =~= buf@.subrange(0, pos as int).push(cp));
            lemma_encode_cps_push(buf@.subrange(0, pos as int), cp);
        }
        pos = pos + 1;
    }
    proof {
        assert(buf@.subrange(0, len as int) =~= buf@);
    }
    out
}

/// Appends the UTF-8 encoding of one scalar value.
pub fn push_utf8(out: &mut Vec<u8>, cp: u32)
    requires
        is_scalar(cp),
    ensures
        final(out)@ == old(out)@ + encode_scalar(cp),
{
    if cp <= 0x7F {
        out.push((cp & 0x7F) as u8);
        assert(final(out)@ =~= old(out)@ + encode_scalar(cp));
    } else if cp <= 0x7FF {
        out.push(0xC0 | ((cp >> 6u32) & 0x1F) as u8);
        out.push(0x80 | (cp & 0x3F) as u8);
        assert(final(out)@ =~= old(out)@ + encode_scalar(cp));
    } else if cp <= 0xFFFF {
        out.push(0xE0 | ((cp >> 12u32) & 0x0F) as u8);
        out.push(0x80 | ((cp >> 6u32) & 0x3F) as u8);
        out.push(0x80 | (cp & 0x3F) as u8);
        assert(final(out)@ =~= old(out)@ + encode_scalar(cp));
    } else {
        out.push(0xF0 | ((cp >> 18u32) & 0x7) as u8);
        out.push(0x80 | ((cp >> 12u32) & 0x3F) as u8);
        out.push(0x80 | ((cp >> 6u32) & 0x3F) as u8);
        out.push(0x80 | (cp & 0x3F) as u8);
        assert(final(out)@ =~= old(out)@ + encode_scalar(cp));
    }
}

/// Exact number of UTF-8 bytes that `utf32_to_utf8` will produce.
pub fn utf8_length_from_utf32(buf: &[u32]) -> (r: usize)
    requires
        4 * buf@.len() <= usize::MAX,
    ensures
        r == utf8_len_cps(buf@),
{
    let len = buf.len();
    let mut pos: usize = 0;
    let mut counter: usize = 0;
    while pos < len
        invariant
            pos <= len,
            len == buf@.len(),
            4 * len <= usize::MAX,
            counter == utf8_len_cps(buf@.subrange(0, pos as int)),
            counter <= 4 * pos,
        decreases len - pos,
    {
        let cp = buf[pos];
        counter = counter + 1;
        if cp > 0x7F {
            counter = counter + 1;
        }
        if cp > 0x7FF {
            counter = counter + 1;
        }
        if cp > 0xFFFF {
            counter = counter + 1;
        }
        proof {
            assert(buf@.subrange(0, pos + 1) =~= buf@.subrange(0, pos as int).push(cp));
            lemma_utf8_len_cps_push(buf@.subrange(0, pos as int), cp);
        }
        pos = pos + 1;
    }
    proof {
        assert(buf@.subrange(0, len as int) =~= buf@);
    }
    counter
}

/// Exact number of code points that `utf8_to_utf32` will produce on valid
/// input: the count of bytes that are not continuation bytes.
pub fn utf32_length_from_utf8(buf: &[u8]) -> (r: usize)
    ensures
        r == non_continuation_count(buf@),
{
    let len = buf.len();
    let mut pos: usize = 0;
    let mut counter: usize = 0;
    while pos < len
        invariant
            pos <= len,
            len == buf@.len(),
            counter == non_continuation_count(buf@.subrange(0, pos as int)),
            counter <= pos,
        decreases len - pos,
    {
        let b = buf[pos];
        if b < 0x80 || b >= 0xC0 {
            counter = counter + 1;
        }
        proof {
            lemma_non_continuation_push(buf@.subrange(0, pos as int), b);
            assert(buf@.subrange(0, pos + 1) =~= buf@.subrange(0, pos as int).push(b));
        }
        pos = pos + 1;
    }
    proof {
        assert(buf@.subrange(0, len as int) =~= buf@);
    }
    counter
}

/// Exact number of code points that decoding will yield; same count as
/// `utf32_length_from_utf8`.
pub fn utf8_to_utf32_length(buf: &[u8]) -> (r: usize)
    ensures
        r == non_continuation_count(buf@),
{
    utf32_length_from_utf8(buf)
}

proof fn lemma_non_continuation_push(s: Seq<u8>, x: u8)
    ensures
        non_continuation_count(s.push(x)) == non_continuation_count(s) + (if is_continuation_byte(
            x,
        ) {
            0int
        } else {
            1int
        }),
    decreases s.len(),
{
    if s.len() == 0 {
        assert(s.push(x).drop_first() =~= s);
    } else {
        assert(s.push(x).drop_first() =~= s.drop_first().push(x));
        lemma_non_continuation_push(s.drop_first(), x);
    }
}

proof fn lemma_non_continuation_concat(a: Seq<u8>, b: Seq<u8>)
    ensures
        non_continuation_count(a + b) == non_continuation_count(a) + non_continuation_count(b),
    decreases a.len(),
{
    if a.len() == 0 {
        assert(a + b =~= b);
    } else {
        assert((a + b).drop_first() =~= a.drop_first() + b);
        lemma_non_continuation_concat(a.drop_first(), b);
    }
}

/// On valid UTF-8 input the non-continuation byte count equals the number
/// of decoded characters: each scalar contributes exactly one lead byte.
pub proof fn lemma_non_continuation_count_decode(b: Seq<u8>)
    requires
        valid_utf8(b),
    ensures
        non_continuation_count(b) == decode_utf8(b).len(),
    decreases b.len(),
{
    if b.len() == 0 {
    } else {
        let head = take_first_scalar(b);
        let tail = pop_first_scalar(b);
        assert(b =~= head + tail);
        lemma_non_continuation_concat(head, tail);
        assert(non_continuation_count(head) == 1) by {
            assert(valid_leading_and_continuation_bytes_first_codepoint(b));
            assert(head[0] == b[0]);
            assert(!is_continuation_byte(head[0]));
            assert forall|i: int| 1 <= i < head.len() implies is_continuation_byte(
                #[trigger] head[i],
            ) by {
                assert(head[i] == b[i]);
            }
            lemma_all_continuation_count(head.drop_first());
        }
        lemma_non_continuation_count_decode(tail);
    }
}

proof fn lemma_all_continuation_count(s: Seq<u8>)
    requires
        forall|i: int| 0 <= i < s.len() ==> is_continuation_byte(#[trigger] s[i]),
    ensures
        non_continuation_count(s) == 0,
    decreases s.len(),
{
    if s.len() == 0 {
    } else {
        lemma_all_continuation_count(s.drop_first());
    }
}

/// A sequence of ASCII bytes is valid UTF-8.
pub proof fn lemma_ascii_valid_utf8(b: Seq<u8>)
    requires
        forall|i: int| 0 <= i < b.len() ==> b[i] < 0x80,
    ensures
        valid_utf8(b),
{
    assert(b.subrange(0, 0) =~= Seq::<u8>::empty());
    assert(partial_valid_utf8(b, 0));
    partial_valid_utf8_extend_ascii_block(b, 0, b.len() as int);
    assert(b.subrange(0, b.len() as int) =~= b);
}

/// ASCII bytes decode to the characters with the same values.
pub proof fn lemma_ascii_decode(b: Seq<u8>)
    requires
        forall|i: int| 0 <= i < b.len() ==> b[i] < 0x80,
    ensures
        valid_utf8(b),
        decode_utf8(b) == b.map(|_i: int, x: u8| x as char),
    decreases b.len(),
{
    lemma_ascii_valid_utf8(b);
    if b.len() == 0 {
        assert(decode_utf8(b) =~= b.map(|_i: int, x: u8| x as char));
    } else {
        assert(valid_first_scalar(b));
        assert(is_leading_byte_width_1(b[0]));
        let b0 = b[0];
        assert((b0 & 0x7F) as u32 == b0 as u32) by (bit_vector)
            requires
                b0 < 0x80,
        ;
        assert(decode_first_scalar(b) == b0 as u32);
        assert(pop_first_scalar(b) =~= b.drop_first());
        lemma_ascii_decode(b.drop_first());
        assert((b[0] as u32) as char == b[0] as char);
        assert(decode_utf8(b) =~= b.map(|_i: int, x: u8| x as char));
    }
}

/// ASCII characters encode one byte each, with the same values.
pub proof fn lemma_encode_ascii_chars(s: Seq<char>)
    requires
        forall|i: int| 0 <= i < s.len() ==> (#[trigger] s[i] as u32) < 0x80,
    ensures
        encode_utf8(s).len() == s.len(),
        forall|i: int| 0 <= i < s.len() ==> #[trigger] encode_utf8(s)[i] == (s[i] as u32) as u8,
    decreases s.len(),
{
    if s.len() == 0 {
    } else {
        let cp = s[0] as u32;
        assert((cp & 0x7F) as u8 == cp as u8) by (bit_vector)
            requires
                cp < 0x80,
        ;
        assert(encode_scalar(cp) =~= seq![cp as u8]);
        assert(forall|i: int| 0 <= i < s.drop_first().len() ==> s.drop_first()[i] == s[i + 1]);
        lemma_encode_ascii_chars(s.drop_first());
        assert forall|i: int| 0 <= i < s.len() implies #[trigger] encode_utf8(s)[i] == (s[
        i] as u32) as u8 by {
            if i > 0 {
                assert(encode_utf8(s)[i] == encode_utf8(s.drop_first())[i - 1]);
            }
        }
    }
}

/// A position preceded only by ASCII bytes is a character boundary.
pub proof fn lemma_ascii_prefix_boundary(b: Seq<u8>, k: int)
    requires
        valid_utf8(b),
        0 <= k <= b.len(),
        forall|i: int| 0 <= i < k ==> b[i] < 0x80,
    ensures
        is_char_boundary(b, k),
    decreases k,
{
    if k == 0 {
    } else {
        assert(b.len() > 0);
        assert(valid_first_scalar(b));
        assert(b[0] < 0x80);
        assert(is_leading_byte_width_1(b[0]));
        assert(length_of_first_scalar(b) == 1);
        assert(pop_first_scalar(b) =~= b.subrange(1, b.len() as int));
        lemma_ascii_prefix_boundary(b.subrange(1, b.len() as int), k - 1);
    }
}

/// A UTF-8 encoding takes at most four bytes per character.
pub proof fn lemma_encode_utf8_len(s: Seq<char>)
    ensures
        encode_utf8(s).len() <= 4 * s.len(),
    decreases s.len(),
{
    if s.len() == 0 {
    } else {
        char_is_scalar(s[0]);
        lemma_encode_utf8_len(s.drop_first());
    }
}

/// Relies on char::from_u32: yields a character exactly for Unicode
/// scalar values, and that character carries the given value.
pub assume_specification[ char::from_u32 ](v: u32) -> (r: Option<char>)
    ensures
        is_scalar(v) <==> r is Some,
        r is Some ==> r->0 as u32 == v,
;

/// Relies on String::from_utf8: a vector of bytes that is valid UTF-8
/// becomes the string spelling exactly those bytes.
#[verifier::external_body]
pub(crate) fn string_from_utf8_bytes(v: Vec<u8>) -> (r: String)
    requires
        valid_utf8(v@),
    ensures
        r@ == decode_utf8(v@),
{
    String::from_utf8(v).unwrap_or_default()
}

/// The code-point values of the characters of a string.
pub fn decode_str_cps(s: &str) -> (r: Vec<u32>)
    ensures
        r@ == cps_of(s@),
        all_scalars(r@),
{
    let bytes = s.as_bytes();
    proof {
        encode_utf8_valid_utf8(s@);
        encode_utf8_decode_utf8(s@);
        lemma_cps_of_scalars(s@);
    }
    utf8_to_utf32(bytes)
}

/// The string spelling the given scalar values as characters.
pub fn cps_to_string(v: &[u32]) -> (r: String)
    requires
        all_scalars(v@),
    ensures
        r@ == chars_of(v@),
{
    let bytes = utf32_to_utf8(v);
    proof {
        lemma_encode_cps_valid(v@);
    }
    string_from_utf8_bytes(bytes)
}

/// Round trip: re-encoding the decoded code points of a valid UTF-8 input
/// reproduces the input bytes, and both length predictors are exact.
pub proof fn lemma_utf8_round_trip(b: Seq<u8>)
    requires
        valid_utf8(b),
    ensures
        encode_cps(cps_of(decode_utf8(b))) == b,
        utf8_len_cps(cps_of(decode_utf8(b))) == b.len(),
        non_continuation_count(b) == decode_utf8(b).len(),
{
    decode_utf8_encode_utf8(b);
    lemma_encode_cps_chars(decode_utf8(b));
    lemma_cps_of_scalars(decode_utf8(b));
    lemma_encode_cps_len(cps_of(decode_utf8(b)));
    lemma_non_continuation_count_decode(b);
}

} // verus!
