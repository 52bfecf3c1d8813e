//! Domain-name validation predicates: the forbidden code-point set of the
//! WHATWG host rules, the permitted name code points, and label validity.
use vstd::prelude::*;
use vstd::string::StringSliceAdditionalSpecFns;
use vstd::utf8::{encode_utf8, is_scalar};
use crate::mapping::map_chars;
use crate::normalization::{keep_scalars, nfc_cps};
use crate::punycode::{puny_decode, slice_starts_xn, starts_xn};
use crate::unicode::{all_scalars, chars_of, cps_of, decode_str_cps, encode_cps, lemma_ascii_prefix_boundary, lemma_encode_cps_valid, string_from_utf8_bytes, utf32_to_utf8};

verus! {

/// Code points that must not appear anywhere in a domain: controls
/// (up to 0x1F and 0x7F..=0x9F) and the explicit punctuation set.
pub open spec fn forbidden_cp(cp: u32) -> bool {
    ||| cp <= 0x1F
    ||| cp == 0x20
    ||| cp == 0x22
    ||| cp == 0x23
    ||| cp == 0x25
    ||| cp == 0x2F
    ||| cp == 0x3A
    ||| cp == 0x3C
    ||| cp == 0x3E
    ||| cp == 0x3F
    ||| cp == 0x40
    ||| cp == 0x5B
    ||| cp == 0x5C
    ||| cp == 0x5D
    ||| cp == 0x5E
    ||| cp == 0x7C
    ||| (0x7F <= cp && cp <= 0x9F)
}

/// Some character of the sequence is forbidden in a domain.
pub open spec fn has_forbidden_char(s: Seq<char>) -> bool {
    exists|i: int| 0 <= i < s.len() && forbidden_cp(#[trigger] s[i] as u32)
}

/// True when some code point of the input is forbidden in a domain,
/// judged code point by code point.
pub fn contains_forbidden_domain_code_point(input: &str) -> (r: bool)
    ensures
        r == has_forbidden_char(input@),
{
    let cps = decode_str_cps(input);
    let len = cps.len();
    let mut i: usize = 0;
    while i < len
        invariant
            i <= len,
            len == cps@.len(),
            cps@ == cps_of(input@),
            forall|j: int| 0 <= j < i ==> !forbidden_cp(#[trigger] input@[j] as u32),
        decreases len - i,
    {
        let cp = cps[i];
        if cp <= 0x1F || cp == 0x20 || cp == 0x22 || cp == 0x23 || cp == 0x25 || cp == 0x2F || cp
            == 0x3A || cp == 0x3C || cp == 0x3E || cp == 0x3F || cp == 0x40 || cp == 0x5B || cp
            == 0x5C || cp == 0x5D || cp == 0x5E || cp == 0x7C || (0x7F <= cp && cp <= 0x9F) {
            assert(forbidden_cp(input@[i as int] as u32));
            return true;
        }
        i = i + 1;
    }
    false
}

/// Code points permitted inside a domain label: lower-case ASCII letters,
/// digits, hyphen, and the broad letter and ideograph blocks.
pub open spec fn valid_name_cp(cp: u32) -> bool {
    if cp <= 0x7F {
        cp == 0x2D || (0x30 <= cp && cp <= 0x39) || (0x61 <= cp && cp <= 0x7A)
    } else {
        ||| cp == 0xB7
        ||| (0xC0 <= cp && cp <= 0xD6)
        ||| (0xD8 <= cp && cp <= 0xF6)
        ||| (0xF8 <= cp && cp <= 0x37D)
        ||| (0x37F <= cp && cp <= 0x1FFF)
        ||| cp == 0x200C
        ||| cp == 0x200D
        ||| cp == 0x203F
        ||| cp == 0x2040
        ||| (0x2070 <= cp && cp <= 0x218F)
        ||| (0x2C00 <= cp && cp <= 0x2FEF)
        ||| (0x3001 <= cp && cp <= 0xD7FF)
        ||| (0xF900 <= cp && cp <= 0xFDCF)
        ||| (0xFDF0 <= cp && cp <= 0xFFFD)
        ||| (0x10000 <= cp && cp <= 0xEFFFF)
    }
}

/// True when the code point may appear inside a domain label.
pub fn valid_name_code_point(cp: u32) -> (r: bool)
    ensures
        r == valid_name_cp(cp),
{
    if cp <= 0x7F {
        cp == 0x2D || (0x30 <= cp && cp <= 0x39) || (0x61 <= cp && cp <= 0x7A)
    } else {
        cp == 0xB7 || (0xC0 <= cp && cp <= 0xD6) || (0xD8 <= cp && cp <= 0xF6) || (0xF8 <= cp && cp
            <= 0x37D) || (0x37F <= cp && cp <= 0x1FFF) || cp == 0x200C || cp == 0x200D || cp
            == 0x203F || cp == 0x2040 || (0x2070 <= cp && cp <= 0x218F) || (0x2C00 <= cp && cp
            <= 0x2FEF) || (0x3001 <= cp && cp <= 0xD7FF) || (0xF900 <= cp && cp <= 0xFDCF) || (
        0xFDF0 <= cp && cp <= 0xFFFD) || (0x10000 <= cp && cp <= 0xEFFFF)
    }
}

/// The Greek block positions left unassigned, excluded from letters.
pub open spec fn greek_unassigned(cp: u32) -> bool {
    cp == 0x378 || cp == 0x379 || cp == 0x380 || cp == 0x381 || cp == 0x382 || cp == 0x383
}

/// Arabic-Indic digits, excluded from letters.
pub open spec fn arabic_indic_digit(cp: u32) -> bool {
    0x660 <= cp && cp <= 0x669
}

/// Letters of the supported scripts.
pub open spec fn letter_cp(cp: u32) -> bool {
    if cp <= 0x7A {
        (0x41 <= cp && cp <= 0x5A) || (0x61 <= cp && cp <= 0x7A)
    } else {
        ||| (0xC0 <= cp && cp <= 0xD6)
        ||| (0xD8 <= cp && cp <= 0xF6)
        ||| (0xF8 <= cp && cp <= 0xFF)
        ||| (0x100 <= cp && cp <= 0x24F)
        ||| (((0x370 <= cp && cp <= 0x373) || (0x376 <= cp && cp <= 0x377) || (0x37B <= cp && cp
            <= 0x37D) || (0x37F <= cp && cp <= 0x3FF)) && !greek_unassigned(cp))
        ||| (0x400 <= cp && cp <= 0x4FF)
        ||| (0x590 <= cp && cp <= 0x5FF)
        ||| ((0x600 <= cp && cp <= 0x6FF) && !arabic_indic_digit(cp))
        ||| (0x4E00 <= cp && cp <= 0x9FFF)
        ||| (0x3040 <= cp && cp <= 0x309F)
        ||| (0x30A0 <= cp && cp <= 0x30FF)
        ||| (0xAC00 <= cp && cp <= 0xD7AF)
        ||| (0xE00 <= cp && cp <= 0xE7F)
    }
}

fn is_letter(cp: u32) -> (r: bool)
    ensures
        r == letter_cp(cp),
{
    if cp <= 0x7A {
        (0x41 <= cp && cp <= 0x5A) || (0x61 <= cp && cp <= 0x7A)
    } else if (0x370 <= cp && cp <= 0x373) || (0x376 <= cp && cp <= 0x377) || (0x37B <= cp && cp
        <= 0x37D) || (0x37F <= cp && cp <= 0x3FF) {
        !(cp == 0x378 || cp == 0x379 || cp == 0x380 || cp == 0x381 || cp == 0x382 || cp == 0x383)
    } else if 0x600 <= cp && cp <= 0x6FF {
        !(0x660 <= cp && cp <= 0x669)
    } else {
        (0xC0 <= cp && cp <= 0xD6) || (0xD8 <= cp && cp <= 0xF6) || (0xF8 <= cp && cp <= 0xFF) || (
        0x100 <= cp && cp <= 0x24F) || (0x400 <= cp && cp <= 0x4FF) || (0x590 <= cp && cp <= 0x5FF)
            || (0x4E00 <= cp && cp <= 0x9FFF) || (0x3040 <= cp && cp <= 0x309F) || (0x30A0 <= cp
            && cp <= 0x30FF) || (0xAC00 <= cp && cp <= 0xD7AF) || (0xE00 <= cp && cp <= 0xE7F)
    }
}

/// Code points permitted at the first position of an identifier:
/// letters only, never a digit or hyphen.
pub open spec fn valid_first_cp(cp: u32) -> bool {
    if (0x30 <= cp && cp <= 0x39) || cp == 0x2D {
        false
    } else {
        letter_cp(cp)
    }
}

/// True when the code point may open an identifier.
pub fn valid_name_code_point_first_position(cp: u32) -> (r: bool)
    ensures
        r == valid_first_cp(cp),
{
    if (0x30 <= cp && cp <= 0x39) || cp == 0x2D {
        false
    } else {
        is_letter(cp)
    }
}

/// Code points permitted after the first position of an identifier:
/// letters, digits, or hyphen.
pub open spec fn valid_other_cp(cp: u32) -> bool {
    if (0x30 <= cp && cp <= 0x39) || cp == 0x2D {
        true
    } else {
        letter_cp(cp)
    }
}

/// True when the code point may continue an identifier.
pub fn valid_name_code_point_other_position(cp: u32) -> (r: bool)
    ensures
        r == valid_other_cp(cp),
{
    if (0x30 <= cp && cp <= 0x39) || cp == 0x2D {
        true
    } else {
        is_letter(cp)
    }
}

/// Every character of the sequence is ASCII.
pub open spec fn all_ascii_chars(s: Seq<char>) -> bool {
    forall|i: int| 0 <= i < s.len() ==> (#[trigger] s[i] as u32) < 0x80
}

/// True when every character of the input is ASCII.
pub fn is_ascii(input: &str) -> (r: bool)
    ensures
        r == all_ascii_chars(input@),
{
    let cps = decode_str_cps(input);
    let len = cps.len();
    let mut i: usize = 0;
    while i < len
        invariant
            i <= len,
            len == cps@.len(),
            cps@ == cps_of(input@),
            forall|j: int| 0 <= j < i ==> (#[trigger] input@[j] as u32) < 0x80,
        decreases len - i,
    {
        if cps[i] >= 0x80 {
            assert(input@[i as int] as u32 >= 0x80);
            return false;
        }
        i = i + 1;
    }
    true
}

/// What the decoded body of an `xn--` label must satisfy: not all ASCII,
/// only scalar values, a fixed point of mapping plus normalization,
/// non-empty, and made of permitted name code points.
pub open spec fn xn_body_valid(decoded: Seq<u32>) -> bool {
    if forall|i: int| 0 <= i < decoded.len() ==> #[trigger] decoded[i] < 0x80 {
        false
    } else if !all_scalars(decoded) {
        false
    } else {
        let norm = keep_scalars(nfc_cps(cps_of(map_chars(chars_of(decoded)))));
        &&& norm == decoded
        &&& norm.len() > 0
        &&& forall|i: int| 0 <= i < norm.len() ==> valid_name_cp(#[trigger] norm[i])
    }
}

/// A valid domain label: between one and 63 bytes, no hyphen at either
/// end; an `xn--` label must decode to a valid body, any other label
/// must hold permitted name code points only.
pub open spec fn label_valid(s: Seq<char>) -> bool {
    let b = encode_utf8(s);
    let cps = cps_of(s);
    if b.len() == 0 || b.len() > 63 {
        false
    } else if cps[0] == 0x2D || cps[cps.len() - 1] == 0x2D {
        false
    } else if starts_xn(b) {
        match puny_decode(b.subrange(4, b.len() as int)) {
            Option::None => false,
            Option::Some(decoded) => xn_body_valid(decoded),
        }
    } else {
        forall|i: int| 0 <= i < cps.len() ==> valid_name_cp(#[trigger] cps[i])
    }
}

/// True when two code-point buffers hold the same values.
pub(crate) fn cps_eq(a: &[u32], b: &[u32]) -> (r: bool)
    ensures
        r == (a@ == b@),
{
    if a.len() != b.len() {
        proof {
            assert(a@.len() != b@.len());
        }
        return false;
    }
    let len = a.len();
    let mut i: usize = 0;
    while i < len
        invariant
            i <= len,
            len == a@.len() == b@.len(),
            forall|j: int| 0 <= j < i ==> a@[j] == b@[j],
        decreases len - i,
    {
        if a[i] != b[i] {
            proof {
                assert(a@[i as int] != b@[i as int]);
            }
            return false;
        }
        i = i + 1;
    }
    proof {
        assert(a@ =~= b@);
    }
    true
}

/// True when every code point of the buffer is a permitted name code
/// point.
fn all_valid_name_cps(v: &[u32]) -> (r: bool)
    ensures
        r == (forall|i: int| 0 <= i < v@.len() ==> valid_name_cp(#[trigger] v@[i])),
{
    let len = v.len();
    let mut i: usize = 0;
    while i < len
        invariant
            i <= len,
            len == v@.len(),
            forall|j: int| 0 <= j < i ==> valid_name_cp(#[trigger] v@[j]),
        decreases len - i,
    {
        if !valid_name_code_point(v[i]) {
            return false;
        }
        i = i + 1;
    }
    true
}

/// True when the label may appear in a domain, exactly as `label_valid`
/// says: length and hyphen shape, and either a decodable, canonical
/// `xn--` body or permitted name code points throughout.
#[verifier::loop_isolation(false)]
pub fn is_label_valid(label: &str) -> (r: bool)
    ensures
        r == label_valid(label@),
{
    let bytes = label.as_bytes();
    let blen = bytes.len();
    if blen == 0 || blen > 63 {
        return false;
    }
    let cps = decode_str_cps(label);
    let clen = cps.len();
    proof {
        vstd::utf8::encode_utf8_valid_utf8(label@);
        if label@.len() == 0 {
            assert(encode_utf8(label@).len() == 0);
        }
    }
    if cps[0] == 0x2D || cps[clen - 1] == 0x2D {
        return false;
    }
    if slice_starts_xn(bytes) {
        proof {
            lemma_ascii_prefix_boundary(label.spec_bytes(), 4);
        }
        let body = label.split_at(4).1;
        proof {
            assert(body.spec_bytes() =~= label.spec_bytes().subrange(
                4,
                label.spec_bytes().len() as int,
            ));
        }
        let decoded = match crate::punycode::punycode_to_utf32(body) {
            Some(d) => d,
            None => {
                return false;
            },
        };
        let dlen = decoded.len();
        let mut all_ascii_body = true;
        let mut i: usize = 0;
        while i < dlen
            invariant
                i <= dlen,
                dlen == decoded@.len(),
                all_ascii_body == (forall|j: int| 0 <= j < i ==> #[trigger] decoded@[j] < 0x80),
            decreases dlen - i,
        {
            if decoded[i] >= 0x80 {
                all_ascii_body = false;
            }
            i = i + 1;
        }
        if all_ascii_body {
            return false;
        }
        let utf8_bytes = utf32_to_utf8(decoded.as_slice());
        if utf8_bytes.is_empty() {
            proof {
                if all_scalars(decoded@) {
                    crate::unicode::lemma_encode_cps_len(decoded@);
                    assert(encode_cps(decoded@).len() >= decoded@.len());
                    assert(decoded@.len() == 0);
                }
                assert(!xn_body_valid(decoded@));
            }
            return false;
        }
        proof {
            assert(all_scalars(decoded@));
            lemma_encode_cps_valid(decoded@);
        }
        let decoded_str = string_from_utf8_bytes(utf8_bytes);
        proof {
            assert(decoded_str@ == chars_of(decoded@));
        }
        let mapped = crate::mapping::map(&decoded_str);
        let normalized = crate::normalization::normalize(&mapped);
        let ncps = decode_str_cps(&normalized);
        if !cps_eq(ncps.as_slice(), decoded.as_slice()) {
            return false;
        }
        if ncps.is_empty() {
            return false;
        }
        let ok = all_valid_name_cps(ncps.as_slice());
        proof {
            assert(ncps@ == keep_scalars(nfc_cps(cps_of(map_chars(chars_of(decoded@))))));
        }
        ok
    } else {
        all_valid_name_cps(cps.as_slice())
    }
}

/// A valid all-ASCII label is made of hyphens, digits, and lower-case
/// letters only, with a sound length and no hyphen at either end.
pub proof fn lemma_label_valid_ascii(s: Seq<char>)
    requires
        label_valid(s),
        all_ascii_chars(s),
    ensures
        s.len() > 0,
        encode_utf8(s).len() == s.len() <= 63,
        cps_of(s)[0] != 0x2D,
        cps_of(s)[s.len() - 1] != 0x2D,
        forall|i: int|
            0 <= i < s.len() ==> (#[trigger] cps_of(s)[i] == 0x2D || (0x30 <= cps_of(s)[i]
                && cps_of(s)[i] <= 0x39) || (0x61 <= cps_of(s)[i] && cps_of(s)[i] <= 0x7A)),
{
    let b = encode_utf8(s);
    let cps = cps_of(s);
    crate::unicode::lemma_encode_ascii_chars(s);
    assert(forall|i: int| 0 <= i < s.len() ==> #[trigger] b[i] == (s[i] as u32) as u8);
    if b.len() == 0 {
        assert(s.len() == 0);
        assert(false);
    }
    if starts_xn(b) {
        let body = b.subrange(4, b.len() as int);
        let decoded = puny_decode(body)->0;
        crate::punycode::lemma_puny_decode_bytes(body);
        let dash = crate::punycode::rlast_dash(body);
        assert(xn_body_valid(decoded));
        assert(all_scalars(decoded) && decoded == keep_scalars(
            nfc_cps(cps_of(map_chars(chars_of(decoded)))),
        ));
        assert forall|i: int| 0 <= i < s.len() implies (#[trigger] cps[i] == 0x2D || (0x30
            <= cps[i] && cps[i] <= 0x39) || (0x61 <= cps[i] && cps[i] <= 0x7A)) by {
            assert(cps[i] == s[i] as u32);
            assert(b[i] == cps[i] as u8);
            assert(cps[i] < 0x80);
            assert(cps[i] == b[i] as u32);
            if i == 0 || i == 1 {
                assert(b[0] == 0x78 && b[1] == 0x6E);
            } else if i == 2 || i == 3 {
                assert(b[2] == 0x2D && b[3] == 0x2D);
            } else {
                let j = i - 4;
                assert(body[j] == b[i]);
                if j < dash {
                    assert(decoded.contains(body[j] as u32));
                    let w = choose|w: int| 0 <= w < decoded.len() && decoded[w] == body[j] as u32;
                    assert(valid_name_cp(decoded[w]));
                } else if j == dash {
                    assert(body[j] == 0x2D);
                } else {
                    assert(crate::punycode::digit_val(body[j]) >= 0);
                }
            }
        }
    } else {
        assert forall|i: int| 0 <= i < s.len() implies (#[trigger] cps[i] == 0x2D || (0x30
            <= cps[i] && cps[i] <= 0x39) || (0x61 <= cps[i] && cps[i] <= 0x7A)) by {
            assert(valid_name_cp(cps[i]));
            assert(cps[i] == s[i] as u32);
            assert(cps[i] < 0x80);
        }
    }
}

} // verus!
