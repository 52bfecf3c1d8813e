//! The label orchestrator: converts whole domain names between their
//! Unicode form and their ASCII (`xn--`) form, label by label.
use vstd::prelude::*;
use vstd::string::StringSliceAdditionalSpecFns;
use vstd::utf8::{decode_utf8, encode_utf8, encode_utf8_decode_utf8, encode_utf8_valid_utf8, is_scalar};
use std::borrow::Cow;
use crate::mapping::{ascii_lower_chars, map_chars};
use crate::normalization::{keep_scalars, nfc_cps};
use crate::punycode::{puny_decode, puny_encode, slice_starts_xn, starts_xn};
use crate::unicode::{all_scalars, chars_of, cps_of, cps_to_string, decode_str_cps, lemma_chars_cps_id, string_from_utf8_bytes};
use crate::validation::{all_ascii_chars, forbidden_cp, has_forbidden_char, label_valid, valid_name_cp};

pub use crate::validation::{contains_forbidden_domain_code_point, is_ascii};

verus! {

/// The closed set of failures; no payload.
#[derive(Debug)]
pub enum IdnaError {
    InvalidInput,
    LabelTooLong,
    EmptyLabel,
    InvalidCharacter,
    PunycodeError,
    ValidationError,
}

/// Some code point is an upper-case ASCII letter.
pub open spec fn has_upper_cps(cps: Seq<u32>) -> bool {
    exists|i: int| 0 <= i < cps.len() && 0x41 <= #[trigger] cps[i] && cps[i] <= 0x5A
}

/// Every code point is a lower-case ASCII letter, a digit, or a hyphen.
pub open spec fn lower_label_cps(cps: Seq<u32>) -> bool {
    forall|i: int|
        0 <= i < cps.len() ==> (#[trigger] cps[i] == 0x2D || (0x30 <= cps[i] && cps[i] <= 0x39) || (
        0x61 <= cps[i] && cps[i] <= 0x7A))
}

/// A label that to-ASCII passes through unchanged and borrowed: sound
/// length, no hyphen at either end, and already in `[a-z0-9-]`.
pub open spec fn lower_label_ok(s: Seq<char>) -> bool {
    let b = encode_utf8(s);
    let cps = cps_of(s);
    &&& b.len() > 0
    &&& b.len() <= 63
    &&& cps[0] != 0x2D
    &&& cps[cps.len() - 1] != 0x2D
    &&& lower_label_cps(cps)
}

/// What to-ASCII does with one non-empty label, stage by stage: length
/// and hyphen gates, the borrowed fast path, ASCII lowercasing, the
/// forbidden-code-point checks around mapping and normalization, and
/// Punycode encoding under the `xn--` marker.
#[verifier::opaque]
pub open spec fn label_to_ascii_spec(s: Seq<char>) -> Result<Seq<char>, IdnaError> {
    let b = encode_utf8(s);
    let cps = cps_of(s);
    if b.len() == 0 || b.len() > 63 {
        Err(IdnaError::LabelTooLong)
    } else if cps[0] == 0x2D || cps[cps.len() - 1] == 0x2D {
        Err(IdnaError::ValidationError)
    } else if lower_label_cps(cps) {
        Ok(s)
    } else if all_ascii_chars(s) && has_upper_cps(cps) {
        let m = ascii_lower_chars(s);
        if label_valid(m) {
            Ok(m)
        } else {
            Err(IdnaError::ValidationError)
        }
    } else if has_forbidden_char(s) {
        Err(IdnaError::InvalidCharacter)
    } else {
        let norm = keep_scalars(nfc_cps(cps_of(map_chars(s))));
        if exists|i: int| 0 <= i < norm.len() && forbidden_cp(#[trigger] norm[i]) {
            Err(IdnaError::InvalidCharacter)
        } else if norm.len() == 0 {
            Err(IdnaError::InvalidInput)
        } else if !(forall|i: int| 0 <= i < norm.len() ==> valid_name_cp(#[trigger] norm[i])) {
            Err(IdnaError::ValidationError)
        } else if forall|i: int| 0 <= i < norm.len() ==> #[trigger] norm[i] < 0x80 {
            if label_valid(chars_of(norm)) {
                Ok(chars_of(norm))
            } else {
                Err(IdnaError::ValidationError)
            }
        } else {
            match puny_encode(norm) {
                Option::None => Err(IdnaError::PunycodeError),
                Option::Some(enc) => {
                    if 4 + enc.len() > 63 {
                        Err(IdnaError::LabelTooLong)
                    } else {
                        Ok(seq!['x', 'n', '-', '-'] + decode_utf8(enc))
                    }
                },
            }
        }
    }
}

/// Converts one label to its ASCII form, exactly as
/// `label_to_ascii_spec` says; the result is borrowed precisely on the
/// already-canonical fast path.
#[verifier::loop_isolation(false)]
#[verifier::rlimit(100)]
pub fn process_label_to_ascii<'a>(label: &'a str) -> (r: Result<Cow<'a, str>, IdnaError>)
    ensures
        match r {
            Ok(c) => label_to_ascii_spec(label@) == Ok::<Seq<char>, IdnaError>(c@),
            Err(e) => label_to_ascii_spec(label@) == Err::<Seq<char>, IdnaError>(e),
        },
        r matches Ok(c) ==> (c is Borrowed <==> lower_label_ok(label@)),
{
    proof {
        reveal(label_to_ascii_spec);
    }
    let bytes = label.as_bytes();
    let blen = bytes.len();
    if blen == 0 || blen > 63 {
        return Err(IdnaError::LabelTooLong);
    }
    let cps = decode_str_cps(label);
    let clen = cps.len();
    proof {
        encode_utf8_valid_utf8(label@);
        if label@.len() == 0 {
            assert(encode_utf8(label@).len() == 0);
        }
    }
    if cps[0] == 0x2D || cps[clen - 1] == 0x2D {
        return Err(IdnaError::ValidationError);
    }
    let mut all_lower = true;
    let mut all_ascii = true;
    let mut has_upper = false;
    let mut i: usize = 0;
    while i < clen
        invariant
            i <= clen,
            clen == cps@.len(),
            cps@ == cps_of(label@),
            all_lower == (forall|j: int|
                0 <= j < i ==> (#[trigger] cps@[j] == 0x2D || (0x30 <= cps@[j] && cps@[j] <= 0x39)
                    || (0x61 <= cps@[j] && cps@[j] <= 0x7A))),
            all_ascii == (forall|j: int| 0 <= j < i ==> #[trigger] cps@[j] < 0x80),
            has_upper == (exists|j: int| 0 <= j < i && 0x41 <= #[trigger] cps@[j] && cps@[j] <= 0x5A),
        decreases clen - i,
    {
        let cp = cps[i];
        if !(cp == 0x2D || (0x30 <= cp && cp <= 0x39) || (0x61 <= cp && cp <= 0x7A)) {
            all_lower = false;
        }
        if cp >= 0x80 {
            all_ascii = false;
        }
        if 0x41 <= cp && cp <= 0x5A {
            has_upper = true;
        }
        i = i + 1;
    }
    proof {
        assert forall|k: int| 0 <= k < label@.len() implies #[trigger] cps_of(label@)[k] == (
        label@[k] as u32) by {}
        assert(all_ascii == all_ascii_chars(label@)) by {
            if all_ascii {
                assert forall|k: int| 0 <= k < label@.len() implies (#[trigger] label@[k] as u32)
                    < 0x80 by {
                    assert(cps_of(label@)[k] < 0x80);
                }
            } else {
                let w = choose|j: int| !(0 <= j < clen ==> #[trigger] cps@[j] < 0x80);
                assert((label@[w] as u32) >= 0x80);
                assert(!all_ascii_chars(label@));
            }
        }
    }
    if all_lower {
        proof {
            assert(lower_label_cps(cps_of(label@)));
            assert(lower_label_ok(label@));
        }
        return Ok(Cow::Borrowed(label));
    }
    proof {
        assert(has_upper == has_upper_cps(cps_of(label@)));
    }
    if all_ascii && has_upper {
        let mapped = crate::mapping::ascii_map(label);
        if !crate::validation::is_label_valid(mapped.as_str()) {
            return Err(IdnaError::ValidationError);
        }
        return Ok(Cow::Owned(mapped));
    }
    if crate::validation::contains_forbidden_domain_code_point(label) {
        return Err(IdnaError::InvalidCharacter);
    }
    let mapped = crate::mapping::map(label);
    let normalized = crate::normalization::normalize(mapped.as_str());
    let ghost norm = keep_scalars(nfc_cps(cps_of(map_chars(label@))));
    proof {
        assert(cps_of(normalized@) == norm);
    }
    if crate::validation::contains_forbidden_domain_code_point(normalized.as_str()) {
        proof {
            let w = choose|i: int|
                0 <= i < normalized@.len() && forbidden_cp(#[trigger] normalized@[i] as u32);
            assert(norm[w] == normalized@[w] as u32);
        }
        return Err(IdnaError::InvalidCharacter);
    }
    proof {
        assert forall|i: int| 0 <= i < norm.len() implies !forbidden_cp(#[trigger] norm[i]) by {
            assert(norm[i] == normalized@[i] as u32);
        }
    }
    let ncps = decode_str_cps(normalized.as_str());
    let nlen = ncps.len();
    if nlen == 0 {
        return Err(IdnaError::InvalidInput);
    }
    let mut all_valid = true;
    let mut ascii_again = true;
    let mut j: usize = 0;
    while j < nlen
        invariant
            j <= nlen,
            nlen == ncps@.len(),
            ncps@ == norm,
            all_valid == (forall|k: int| 0 <= k < j ==> valid_name_cp(#[trigger] ncps@[k])),
            ascii_again == (forall|k: int| 0 <= k < j ==> #[trigger] ncps@[k] < 0x80),
        decreases nlen - j,
    {
        let cp = ncps[j];
        if !crate::validation::valid_name_code_point(cp) {
            all_valid = false;
        }
        if cp >= 0x80 {
            ascii_again = false;
        }
        j = j + 1;
    }
    if !all_valid {
        return Err(IdnaError::ValidationError);
    }
    if ascii_again {
        if crate::validation::is_label_valid(normalized.as_str()) {
            proof {
                lemma_chars_cps_id(normalized@);
                assert(chars_of(norm) == normalized@);
            }
            return Ok(Cow::Owned(normalized));
        } else {
            proof {
                lemma_chars_cps_id(normalized@);
                assert(chars_of(norm) == normalized@);
            }
            return Err(IdnaError::ValidationError);
        }
    }
    match crate::punycode::utf32_to_punycode(ncps.as_slice()) {
        None => Err(IdnaError::PunycodeError),
        Some(enc) => {
            let elen = enc.as_str().as_bytes().len();
            proof {
                assert(elen == encode_utf8(enc@).len());
            }
            if elen > 59 {
                return Err(IdnaError::LabelTooLong);
            }
            let mut out_bytes: Vec<u8> = Vec::new();
            out_bytes.push(0x78);
            out_bytes.push(0x6E);
            out_bytes.push(0x2D);
            out_bytes.push(0x2D);
            out_bytes.extend_from_slice(enc.as_str().as_bytes());
            proof {
                encode_utf8_valid_utf8(enc@);
                assert(out_bytes@ =~= seq![0x78u8, 0x6Eu8, 0x2Du8, 0x2Du8] + encode_utf8(enc@));
                crate::unicode::lemma_ascii_valid_utf8(seq![0x78u8, 0x6Eu8, 0x2Du8, 0x2Du8]);
                vstd::utf8::valid_utf8_concat(
                    seq![0x78u8, 0x6Eu8, 0x2Du8, 0x2Du8],
                    encode_utf8(enc@),
                );
                crate::unicode::lemma_ascii_prefix_boundary(out_bytes@, 4);
                vstd::utf8::decode_utf8_split(out_bytes@, 4);
                assert(out_bytes@.subrange(0, 4) =~= seq![0x78u8, 0x6Eu8, 0x2Du8, 0x2Du8]);
                assert(out_bytes@.subrange(4, out_bytes@.len() as int) =~= encode_utf8(enc@));
                encode_utf8_decode_utf8(enc@);
                crate::unicode::lemma_ascii_decode(seq![0x78u8, 0x6Eu8, 0x2Du8, 0x2Du8]);
                assert(decode_utf8(seq![0x78u8, 0x6Eu8, 0x2Du8, 0x2Du8]) =~= seq![
                    'x',
                    'n',
                    '-',
                    '-',
                ]);
            }
            let out = string_from_utf8_bytes(out_bytes);
            proof {
                assert(out@ =~= seq!['x', 'n', '-', '-'] + decode_utf8(encode_utf8(enc@)));
                assert(out@ =~= seq!['x', 'n', '-', '-'] + enc@);
                assert(puny_encode(norm) == Some(encode_utf8(enc@)));
                assert(!(forall|i2: int| 0 <= i2 < norm.len() ==> #[trigger] norm[i2] < 0x80));
                assert(forall|i2: int| 0 <= i2 < norm.len() ==> valid_name_cp(#[trigger] norm[i2]));
                assert(norm.len() > 0);
                assert(!(exists|i2: int| 0 <= i2 < norm.len() && forbidden_cp(#[trigger] norm[i2])));
                assert(!has_forbidden_char(label@));
                assert(!(all_ascii_chars(label@) && has_upper_cps(cps_of(label@))));
                assert(!lower_label_cps(cps_of(label@)));
                assert(4 + encode_utf8(enc@).len() <= 63);
                assert(label_to_ascii_spec(label@) == Ok::<Seq<char>, IdnaError>(out@));
            }
            Ok(Cow::Owned(out))
        },
    }
}

/// What to-Unicode does with one label: a label without the `xn--`
/// marker must simply be valid; a marked label is decoded, mapped,
/// normalized, checked for forbidden code points, and re-encoded, and
/// the re-encoding must reproduce the original body byte for byte.
#[verifier::opaque]
pub open spec fn label_to_unicode_spec(s: Seq<char>) -> Result<Seq<char>, IdnaError> {
    let b = encode_utf8(s);
    if !starts_xn(b) {
        if label_valid(s) {
            Ok(s)
        } else {
            Err(IdnaError::ValidationError)
        }
    } else {
        let body = b.subrange(4, b.len() as int);
        match puny_decode(body) {
            Option::None => Err(IdnaError::PunycodeError),
            Option::Some(decoded) => {
                if decoded.len() == 0 || !all_scalars(decoded) {
                    Err(IdnaError::InvalidInput)
                } else {
                    let norm = keep_scalars(nfc_cps(cps_of(map_chars(chars_of(decoded)))));
                    if exists|i: int| 0 <= i < norm.len() && forbidden_cp(#[trigger] norm[i]) {
                        Err(IdnaError::InvalidCharacter)
                    } else {
                        match puny_encode(norm) {
                            Option::None => Err(IdnaError::PunycodeError),
                            Option::Some(enc) => {
                                if enc == body {
                                    Ok(chars_of(norm))
                                } else {
                                    Err(IdnaError::ValidationError)
                                }
                            },
                        }
                    }
                }
            },
        }
    }
}

/// True when two byte slices hold the same bytes.
fn bytes_eq(a: &[u8], b: &[u8]) -> (r: bool)
    ensures
        r == (a@ == b@),
{
    if a.len() != b.len() {
        proof {
            assert(a@.len() != b@.len());
        }
        return false;
    }
    let len = a.len();
    let mut i: usize = 0;
    while i < len
        invariant
            i <= len,
            len == a@.len() == b@.len(),
            forall|j: int| 0 <= j < i ==> a@[j] == b@[j],
        decreases len - i,
    {
        if a[i] != b[i] {
            proof {
                assert(a@[i as int] != b@[i as int]);
            }
            return false;
        }
        i = i + 1;
    }
    proof {
        assert(a@ =~= b@);
    }
    true
}

/// Converts one label to its Unicode form, exactly as
/// `label_to_unicode_spec` says.
#[verifier::loop_isolation(false)]
#[verifier::rlimit(100)]
pub fn process_label_to_unicode(label: &str) -> (r: Result<String, IdnaError>)
    ensures
        match r {
            Ok(c) => label_to_unicode_spec(label@) == Ok::<Seq<char>, IdnaError>(c@),
            Err(e) => label_to_unicode_spec(label@) == Err::<Seq<char>, IdnaError>(e),
        },
{
    proof {
        reveal(label_to_unicode_spec);
        encode_utf8_valid_utf8(label@);
    }
    let bytes = label.as_bytes();
    if !slice_starts_xn(bytes) {
        if !crate::validation::is_label_valid(label) {
            return Err(IdnaError::ValidationError);
        }
        return Ok(label.to_owned());
    }
    proof {
        crate::unicode::lemma_ascii_prefix_boundary(label.spec_bytes(), 4);
    }
    let body = label.split_at(4).1;
    let ghost bodyb = label.spec_bytes().subrange(4, label.spec_bytes().len() as int);
    proof {
        assert(body.spec_bytes() =~= bodyb);
    }
    let decoded = match crate::punycode::punycode_to_utf32(body) {
        Some(d) => d,
        None => {
            return Err(IdnaError::PunycodeError);
        },
    };
    let utf8_bytes = crate::unicode::utf32_to_utf8(decoded.as_slice());
    if utf8_bytes.is_empty() {
        proof {
            if all_scalars(decoded@) && decoded@.len() > 0 {
                crate::unicode::lemma_encode_cps_len(decoded@);
                assert(crate::unicode::encode_cps(decoded@).len() >= decoded@.len());
            }
        }
        return Err(IdnaError::InvalidInput);
    }
    proof {
        assert(all_scalars(decoded@));
        crate::unicode::lemma_encode_cps_valid(decoded@);
        if decoded@.len() == 0 {
            assert(crate::unicode::encode_cps(decoded@).len() == 0);
        }
    }
    let decoded_str = string_from_utf8_bytes(utf8_bytes);
    proof {
        assert(decoded_str@ == chars_of(decoded@));
    }
    let mapped = crate::mapping::map(decoded_str.as_str());
    let normalized = crate::normalization::normalize(mapped.as_str());
    let ghost norm = keep_scalars(nfc_cps(cps_of(map_chars(chars_of(decoded@)))));
    proof {
        assert(cps_of(normalized@) == norm);
    }
    if crate::validation::contains_forbidden_domain_code_point(normalized.as_str()) {
        proof {
            let w = choose|i: int|
                0 <= i < normalized@.len() && forbidden_cp(#[trigger] normalized@[i] as u32);
            assert(norm[w] == normalized@[w] as u32);
        }
        return Err(IdnaError::InvalidCharacter);
    }
    proof {
        assert forall|i: int| 0 <= i < norm.len() implies !forbidden_cp(#[trigger] norm[i]) by {
            assert(norm[i] == normalized@[i] as u32);
        }
    }
    let ncps = decode_str_cps(normalized.as_str());
    let re_encoded = match crate::punycode::utf32_to_punycode(ncps.as_slice()) {
        Some(e) => e,
        None => {
            return Err(IdnaError::PunycodeError);
        },
    };
    if !bytes_eq(re_encoded.as_str().as_bytes(), body.as_bytes()) {
        return Err(IdnaError::ValidationError);
    }
    proof {
        lemma_chars_cps_id(normalized@);
        assert(chars_of(norm) == normalized@);
    }
    Ok(normalized)
}

/// Index of the first '.' of the sequence, or -1.
pub open spec fn first_dot(s: Seq<char>) -> int
    decreases s.len(),
{
    if s.len() == 0 {
        -1
    } else if s[0] == '.' {
        0
    } else {
        let d = first_dot(s.drop_first());
        if d < 0 {
            -1
        } else {
            d + 1
        }
    }
}

pub proof fn lemma_first_dot(s: Seq<char>)
    ensures
        -1 <= first_dot(s) < s.len(),
        first_dot(s) >= 0 ==> s[first_dot(s)] == '.',
        forall|j: int| 0 <= j < first_dot(s) ==> s[j] != '.',
        first_dot(s) < 0 ==> forall|j: int| 0 <= j < s.len() ==> s[j] != '.',
    decreases s.len(),
{
    if s.len() == 0 {
    } else if s[0] == '.' {
    } else {
        lemma_first_dot(s.drop_first());
        assert(forall|j: int|
            0 <= j < s.drop_first().len() ==> #[trigger] s.drop_first()[j] == s[j + 1]);
        let d2 = first_dot(s.drop_first());
        if d2 >= 0 {
            assert(s.drop_first()[d2] == '.');
            assert(first_dot(s) == d2 + 1);
            assert(s[first_dot(s)] == '.');
            assert forall|j: int| 0 <= j < first_dot(s) implies s[j] != '.' by {
                if j > 0 {
                    assert(s.drop_first()[j - 1] != '.');
                }
            }
        } else {
            assert(first_dot(s) == -1);
            assert forall|j: int| 0 <= j < s.len() implies s[j] != '.' by {
                if j > 0 {
                    assert(s.drop_first()[j - 1] != '.');
                }
            }
        }
    }
}

/// The labels of a domain: the segments between full stops.
pub open spec fn split_dots(s: Seq<char>) -> Seq<Seq<char>>
    decreases s.len(),
    via split_dots_dec
{
    let d = first_dot(s);
    if d < 0 {
        seq![s]
    } else {
        seq![s.subrange(0, d)] + split_dots(s.subrange(d + 1, s.len() as int))
    }
}

#[via_fn]
proof fn split_dots_dec(s: Seq<char>) {
    lemma_first_dot(s);
}

/// The labels joined back with single full stops.
pub open spec fn join_dots(ls: Seq<Seq<char>>) -> Seq<char>
    decreases ls.len(),
{
    if ls.len() == 0 {
        seq![]
    } else if ls.len() == 1 {
        ls[0]
    } else {
        ls[0] + seq!['.'] + join_dots(ls.drop_first())
    }
}

/// Joining the split labels reproduces the domain.
pub proof fn lemma_join_split(s: Seq<char>)
    ensures
        join_dots(split_dots(s)) == s,
    decreases s.len(),
{
    lemma_first_dot(s);
    let d = first_dot(s);
    if d < 0 {
        assert(join_dots(split_dots(s)) =~= s);
    } else {
        let rest = s.subrange(d + 1, s.len() as int);
        lemma_join_split(rest);
        assert(split_dots(s).drop_first() =~= split_dots(rest));
        assert(split_dots(rest).len() >= 1) by {
            lemma_split_nonempty(rest);
        }
        assert(join_dots(split_dots(s)) =~= s.subrange(0, d) + seq!['.'] + join_dots(
            split_dots(rest),
        ));
        assert(s.subrange(0, d) + seq!['.'] + rest =~= s);
    }
}

pub proof fn lemma_split_nonempty(s: Seq<char>)
    ensures
        split_dots(s).len() >= 1,
{
    lemma_first_dot(s);
}

/// The outcome of to-ASCII over a list of labels, first failure first.
pub open spec fn ascii_labels(ls: Seq<Seq<char>>) -> Result<Seq<Seq<char>>, IdnaError>
    decreases ls.len(),
{
    if ls.len() == 0 {
        Ok(seq![])
    } else if ls[0].len() == 0 {
        Err(IdnaError::EmptyLabel)
    } else {
        match label_to_ascii_spec(ls[0]) {
            Err(e) => Err(e),
            Ok(a) => {
                match ascii_labels(ls.drop_first()) {
                    Err(e) => Err(e),
                    Ok(rest) => Ok(seq![a] + rest),
                }
            },
        }
    }
}

/// The outcome of to-Unicode over a list of labels.
pub open spec fn unicode_labels(ls: Seq<Seq<char>>) -> Result<Seq<Seq<char>>, IdnaError>
    decreases ls.len(),
{
    if ls.len() == 0 {
        Ok(seq![])
    } else if ls[0].len() == 0 {
        Err(IdnaError::EmptyLabel)
    } else {
        match label_to_unicode_spec(ls[0]) {
            Err(e) => Err(e),
            Ok(a) => {
                match unicode_labels(ls.drop_first()) {
                    Err(e) => Err(e),
                    Ok(rest) => Ok(seq![a] + rest),
                }
            },
        }
    }
}

/// What to-ASCII returns for a whole domain.
pub open spec fn to_ascii_spec(s: Seq<char>) -> Result<Seq<char>, IdnaError> {
    if s.len() == 0 {
        Err(IdnaError::EmptyLabel)
    } else {
        match ascii_labels(split_dots(s)) {
            Err(e) => Err(e),
            Ok(ls) => Ok(join_dots(ls)),
        }
    }
}

/// What to-Unicode returns for a whole domain.
pub open spec fn to_unicode_spec(s: Seq<char>) -> Result<Seq<char>, IdnaError> {
    if s.len() == 0 {
        Err(IdnaError::EmptyLabel)
    } else {
        match unicode_labels(split_dots(s)) {
            Err(e) => Err(e),
            Ok(ls) => Ok(join_dots(ls)),
        }
    }
}

/// Every label of the domain already has its canonical ASCII form.
pub open spec fn canonical_ascii_domain(s: Seq<char>) -> bool {
    s.len() > 0 && forall|k: int|
        0 <= k < split_dots(s).len() ==> lower_label_ok(#[trigger] split_dots(s)[k])
}

proof fn lemma_join_push(ls: Seq<Seq<char>>, a: Seq<char>)
    ensures
        join_dots(ls.push(a)) == if ls.len() == 0 {
            a
        } else {
            join_dots(ls) + seq!['.'] + a
        },
    decreases ls.len(),
{
    reveal_with_fuel(join_dots, 3);
    if ls.len() == 0 {
        assert(ls.push(a)[0] =~= a);
        assert(join_dots(ls.push(a)) =~= a);
    } else if ls.len() == 1 {
        assert(ls.push(a).drop_first() =~= seq![a]);
        assert(join_dots(ls.push(a)) =~= ls[0] + seq!['.'] + a);
        assert(join_dots(ls) + seq!['.'] + a =~= ls[0] + seq!['.'] + a);
    } else {
        assert(ls.push(a).drop_first() =~= ls.drop_first().push(a));
        lemma_join_push(ls.drop_first(), a);
        assert(join_dots(ls.push(a)) =~= join_dots(ls) + seq!['.'] + a);
    }
}


/// Finds the end of the label that starts at `start`: the position of
/// the next full stop, or the end of the domain.
#[verifier::loop_isolation(false)]
fn find_label_end(cps: &Vec<u32>, Ghost(s): Ghost<Seq<char>>, start: usize) -> (end: usize)
    requires
        cps@ == cps_of(s),
        start <= cps@.len(),
    ensures
        start <= end <= s.len(),
        end < s.len() ==> first_dot(s.subrange(start as int, s.len() as int)) == end - start,
        end == s.len() ==> first_dot(s.subrange(start as int, s.len() as int)) < 0,
{
    let total = cps.len();
    let ghost rem = s.subrange(start as int, s.len() as int);
    proof {
        lemma_first_dot(rem);
    }
    let mut end = start;
    while end < total && cps[end] != 0x2E
        invariant
            start <= end <= total,
            total == cps@.len(),
            cps@ == cps_of(s),
            forall|j: int| start <= j < end ==> cps@[j] != 0x2E,
        decreases total - end,
    {
        end = end + 1;
    }
    proof {
        let d = first_dot(rem);
        assert forall|j: int| 0 <= j < rem.len() implies (#[trigger] rem[j] == '.') == (cps@[start
            + j] == 0x2E) by {
            vstd::utf8::char_u32_cast(rem[j], rem[j] as u32);
            vstd::utf8::char_u32_cast('.', '.' as u32);
            assert(cps@[start + j] == s[start + j] as u32);
        }
        if end < total {
            assert(cps@[end as int] == 0x2E);
            assert(rem[end - start] == '.');
            assert(d == end - start) by {
                if 0 <= d < end - start {
                    assert(rem[d] == '.');
                    assert(cps@[start + d] != 0x2E);
                }
                if d > end - start || d < 0 {
                    assert(rem[end - start] != '.');
                }
            }
        } else {
            assert(d < 0) by {
                if d >= 0 {
                    assert(rem[d] == '.');
                    assert(cps@[start + d] != 0x2E);
                }
            }
        }
    }
    end
}

/// Appends a separator, when asked, and then the given code points.
fn push_label_cps(out: &mut Vec<u32>, conv: &Vec<u32>, sep: bool)
    ensures
        final(out)@ == old(out)@ + (if sep {
            seq![0x2Eu32]
        } else {
            seq![]
        }) + conv@,
{
    if sep {
        out.push(0x2E);
    }
    let len = conv.len();
    let mut i: usize = 0;
    while i < len
        invariant
            i <= len,
            len == conv@.len(),
            out@ == old(out)@ + (if sep {
                seq![0x2Eu32]
            } else {
                seq![]
            }) + conv@.subrange(0, i as int),
        decreases len - i,
    {
        out.push(conv[i]);
        proof {
            assert(conv@.subrange(0, i + 1) =~= conv@.subrange(0, i as int).push(conv@[i as int]));
            assert(out@ =~= old(out)@ + (if sep {
                seq![0x2Eu32]
            } else {
                seq![]
            }) + conv@.subrange(0, i + 1));
        }
        i = i + 1;
    }
    proof {
        assert(conv@.subrange(0, len as int) =~= conv@);
    }
}

/// Converts a whole domain to its ASCII form, label by label, exactly
/// as `to_ascii_spec` says; a domain already in canonical ASCII form is
/// returned borrowed and unchanged.
#[verifier::loop_isolation(false)]
#[verifier::rlimit(100)]
pub fn to_ascii<'a>(domain: &'a str) -> (r: Result<Cow<'a, str>, IdnaError>)
    ensures
        match r {
            Ok(c) => to_ascii_spec(domain@) == Ok::<Seq<char>, IdnaError>(c@),
            Err(e) => to_ascii_spec(domain@) == Err::<Seq<char>, IdnaError>(e),
        },
        r matches Ok(c) ==> ((c is Borrowed) <==> canonical_ascii_domain(domain@)),
{
    let cps = decode_str_cps(domain);
    let total = cps.len();
    if total == 0 {
        proof {
            assert(domain@.len() == 0);
        }
        return Err(IdnaError::EmptyLabel);
    }
    let ghost s = domain@;
    let mut out_cps: Vec<u32> = Vec::new();
    let ghost mut done: Seq<Seq<char>> = seq![];
    let ghost mut orig: Seq<Seq<char>> = seq![];
    let mut all_borrowed = true;
    let mut start: usize = 0;
    let mut first = true;
    let mut finished = false;
    proof {
        assert(s.subrange(0, s.len() as int) =~= s);
        assert(Seq::<Seq<char>>::empty() + split_dots(s) =~= split_dots(s));
        if ascii_labels(split_dots(s)) is Ok {
            let r0 = ascii_labels(split_dots(s))->Ok_0;
            assert(Seq::<Seq<char>>::empty() + r0 =~= r0);
        }
    }
    while !finished
        invariant
            start <= total,
            total == cps@.len(),
            cps@ == cps_of(s),
            s == domain@,
            s.len() == total,
            !finished ==> (first <==> done.len() == 0),
            done.len() == orig.len(),
            out_cps@ == cps_of(join_dots(done)),
            all_borrowed <==> (forall|k: int|
                0 <= k < orig.len() ==> lower_label_ok(#[trigger] orig[k])),
            all_borrowed ==> done =~= orig,
            !finished ==> split_dots(s) == orig + split_dots(
                s.subrange(start as int, s.len() as int),
            ),
            !finished ==> ascii_labels(split_dots(s)) == (match ascii_labels(
                split_dots(s.subrange(start as int, s.len() as int)),
            ) {
                Ok(rest) => Ok::<Seq<Seq<char>>, IdnaError>(done + rest),
                Err(e) => Err::<Seq<Seq<char>>, IdnaError>(e),
            }),
            finished ==> split_dots(s) == orig,
            finished ==> ascii_labels(split_dots(s)) == Ok::<Seq<Seq<char>>, IdnaError>(done),
        decreases total - start + (if finished {
            0int
        } else {
            1int
        }),
    {
        let ghost rem = s.subrange(start as int, s.len() as int);
        let ghost mut done0 = done;
        let ghost mut orig0 = orig;
        proof {
            lemma_first_dot(rem);
        }
        let end = find_label_end(&cps, Ghost(s), start);
        let ghost d = first_dot(rem);
        let ghost label_chars = if d < 0 {
            rem
        } else {
            rem.subrange(0, d)
        };
        proof {
            assert(label_chars =~= s.subrange(start as int, end as int));
            if d >= 0 {
                assert(split_dots(rem) == seq![label_chars] + split_dots(
                    rem.subrange(d + 1, rem.len() as int),
                ));
                assert(split_dots(rem)[0] == label_chars);
            } else {
                assert(split_dots(rem) =~= seq![label_chars]);
            }
        }
        if end == start {
            proof {
                assert(label_chars.len() == 0);
                assert(ascii_labels(split_dots(rem)) == Err::<Seq<Seq<char>>, IdnaError>(
                    IdnaError::EmptyLabel,
                ));
            }
            return Err(IdnaError::EmptyLabel);
        }
        let label_str = cps_to_string_slice(&cps, start, end);
        proof {
            assert(label_str@ =~= label_chars) by {
                assert(cps@.subrange(start as int, end as int) =~= cps_of(label_chars));
                lemma_chars_cps_id(label_chars);
            }
        }
        let converted: String;
        let was_borrowed: bool;
        match process_label_to_ascii(label_str.as_str()) {
            Err(e) => {
                proof {
                    assert(ascii_labels(split_dots(rem)) == Err::<Seq<Seq<char>>, IdnaError>(e));
                }
                return Err(e);
            },
            Ok(c) => {
                match c {
                    Cow::Borrowed(x) => {
                        was_borrowed = true;
                        converted = x.to_owned();
                    },
                    Cow::Owned(o) => {
                        was_borrowed = false;
                        converted = o;
                    },
                }
            },
        }
        proof {
            assert(label_to_ascii_spec(label_chars) == Ok::<Seq<char>, IdnaError>(converted@));
            assert(was_borrowed <==> lower_label_ok(label_chars));
            if was_borrowed {
                assert(converted@ == label_chars) by {
                    reveal(label_to_ascii_spec);
                }
            }
        }
        let ghost ab0 = all_borrowed;
        all_borrowed = all_borrowed && was_borrowed;
        let conv_cps = decode_str_cps(converted.as_str());
        push_label_cps(&mut out_cps, &conv_cps, !first);
        proof {
            lemma_join_push(done, converted@);
            vstd::utf8::char_u32_cast('.', '.' as u32);
            if done.len() == 0 {
                assert(cps_of(join_dots(done.push(converted@))) =~= cps_of(join_dots(done))
                    + seq![] + conv_cps@);
            } else {
                assert(join_dots(done.push(converted@)) == join_dots(done) + seq!['.']
                    + converted@);
                assert(cps_of(join_dots(done.push(converted@))) =~= cps_of(join_dots(done)) + seq![
                    0x2Eu32,
                ] + conv_cps@);
            }
            done0 = done;
            orig0 = orig;
            done = done.push(converted@);
            orig = orig.push(label_chars);
            assert(done0 + seq![converted@] =~= done);
            assert(orig0 + seq![label_chars] =~= orig);
            assert(orig[orig.len() - 1] == label_chars);
            assert(forall|k: int| 0 <= k < orig0.len() ==> #[trigger] orig[k] == orig0[k]);
            if ab0 && was_borrowed {
                assert forall|k: int| 0 <= k < orig.len() implies lower_label_ok(
                    #[trigger] orig[k],
                ) by {
                    if k < orig.len() - 1 {
                        assert(orig[k] == orig0[k]);
                        assert(lower_label_ok(orig0[k]));
                    }
                }
                assert(done =~= orig);
            } else if !ab0 {
                let w = choose|k: int|
                    !(0 <= k < orig0.len() ==> lower_label_ok(#[trigger] orig0[k]));
                assert(orig[w] == orig0[w]);
                assert(!lower_label_ok(orig[w]));
            } else {
                assert(!lower_label_ok(orig[orig.len() - 1]));
            }
        }
        if end == total {
            proof {
                assert(d < 0);
                assert(seq![label_chars].drop_first() =~= Seq::<Seq<char>>::empty());
                assert(seq![label_chars][0] == label_chars);
                assert(label_chars.len() > 0);
                assert(ascii_labels(Seq::<Seq<char>>::empty()) == Ok::<Seq<Seq<char>>, IdnaError>(
                    Seq::<Seq<char>>::empty(),
                ));
                assert(seq![converted@] + Seq::<Seq<char>>::empty() =~= seq![converted@]);
                assert(ascii_labels(split_dots(rem)) == Ok::<Seq<Seq<char>>, IdnaError>(seq![
                    converted@,
                ]));
                assert(split_dots(s) == orig);
                assert(ascii_labels(split_dots(s)) == Ok::<Seq<Seq<char>>, IdnaError>(done));
            }
            finished = true;
        } else {
            proof {
                let rem2 = rem.subrange(d + 1, rem.len() as int);
                assert(rem2 =~= s.subrange(end + 1, s.len() as int));
                assert(orig0 + (seq![label_chars] + split_dots(rem2)) =~= orig + split_dots(
                    rem2,
                ));
                assert((seq![label_chars] + split_dots(rem2)).drop_first() =~= split_dots(rem2));
                assert((seq![label_chars] + split_dots(rem2))[0] == label_chars);
                assert(label_chars.len() > 0);
                if ascii_labels(split_dots(rem2)) is Ok {
                    let r2 = ascii_labels(split_dots(rem2))->Ok_0;
                    assert(ascii_labels(split_dots(rem)) == Ok::<Seq<Seq<char>>, IdnaError>(
                        seq![converted@] + r2,
                    ));
                    assert(done0 + (seq![converted@] + r2) =~= done + r2);
                } else {
                    let e2 = ascii_labels(split_dots(rem2))->Err_0;
                    assert(ascii_labels(split_dots(rem)) == Err::<Seq<Seq<char>>, IdnaError>(e2));
                }
            }
            start = end + 1;
            first = false;
        }
    }
    proof {
        assert(to_ascii_spec(s) == Ok::<Seq<char>, IdnaError>(join_dots(done)));
    }
    if all_borrowed {
        proof {
            lemma_join_split(s);
            assert(done =~= split_dots(s));
            assert(join_dots(done) == s);
            assert(canonical_ascii_domain(s));
        }
        return Ok(Cow::Borrowed(domain));
    }
    proof {
        crate::unicode::lemma_cps_of_scalars(join_dots(done));
    }
    let out = cps_to_string(out_cps.as_slice());
    proof {
        lemma_chars_cps_id(join_dots(done));
        assert(out@ == join_dots(done));
        assert(!canonical_ascii_domain(s)) by {
            let w = choose|k: int| !(0 <= k < orig.len() ==> lower_label_ok(#[trigger] orig[k]));
            assert(split_dots(s)[w] == orig[w]);
        }
    }
    Ok(Cow::Owned(out))
}

/// The string spelling a run of scalar values of the buffer.
fn cps_to_string_slice(cps: &Vec<u32>, start: usize, end: usize) -> (r: String)
    requires
        start <= end <= cps@.len(),
        all_scalars(cps@),
    ensures
        r@ == chars_of(cps@.subrange(start as int, end as int)),
{
    let mut v: Vec<u32> = Vec::new();
    let mut i = start;
    while i < end
        invariant
            start <= i <= end <= cps@.len(),
            all_scalars(cps@),
            v@ == cps@.subrange(start as int, i as int),
        decreases end - i,
    {
        v.push(cps[i]);
        proof {
            assert(cps@.subrange(start as int, i + 1) =~= cps@.subrange(start as int, i as int).push(
                cps@[i as int],
            ));
        }
        i = i + 1;
    }
    proof {
        assert(all_scalars(v@));
    }
    cps_to_string(v.as_slice())
}

/// Converts a whole domain to its Unicode form, label by label, exactly
/// as `to_unicode_spec` says.
#[verifier::loop_isolation(false)]
#[verifier::rlimit(100)]
pub fn to_unicode(domain: &str) -> (r: Result<String, IdnaError>)
    ensures
        match r {
            Ok(c) => to_unicode_spec(domain@) == Ok::<Seq<char>, IdnaError>(c@),
            Err(e) => to_unicode_spec(domain@) == Err::<Seq<char>, IdnaError>(e),
        },
{
    let cps = decode_str_cps(domain);
    let total = cps.len();
    if total == 0 {
        proof {
            assert(domain@.len() == 0);
        }
        return Err(IdnaError::EmptyLabel);
    }
    let ghost s = domain@;
    let mut out_cps: Vec<u32> = Vec::new();
    let ghost mut done: Seq<Seq<char>> = seq![];
    let mut start: usize = 0;
    let mut first = true;
    let mut finished = false;
    proof {
        assert(s.subrange(0, s.len() as int) =~= s);
        if unicode_labels(split_dots(s)) is Ok {
            let r0 = unicode_labels(split_dots(s))->Ok_0;
            assert(Seq::<Seq<char>>::empty() + r0 =~= r0);
        }
    }
    while !finished
        invariant
            start <= total,
            total == cps@.len(),
            cps@ == cps_of(s),
            s == domain@,
            s.len() == total,
            !finished ==> (first <==> done.len() == 0),
            out_cps@ == cps_of(join_dots(done)),
            !finished ==> unicode_labels(split_dots(s)) == (match unicode_labels(
                split_dots(s.subrange(start as int, s.len() as int)),
            ) {
                Ok(rest) => Ok::<Seq<Seq<char>>, IdnaError>(done + rest),
                Err(e) => Err::<Seq<Seq<char>>, IdnaError>(e),
            }),
            finished ==> unicode_labels(split_dots(s)) == Ok::<Seq<Seq<char>>, IdnaError>(done),
        decreases total - start + (if finished {
            0int
        } else {
            1int
        }),
    {
        let ghost rem = s.subrange(start as int, s.len() as int);
        let ghost mut done0 = done;
        proof {
            lemma_first_dot(rem);
        }
        let end = find_label_end(&cps, Ghost(s), start);
        let ghost d = first_dot(rem);
        let ghost label_chars = if d < 0 {
            rem
        } else {
            rem.subrange(0, d)
        };
        proof {
            assert(label_chars =~= s.subrange(start as int, end as int));
            if d >= 0 {
                assert(split_dots(rem) == seq![label_chars] + split_dots(
                    rem.subrange(d + 1, rem.len() as int),
                ));
                assert(split_dots(rem)[0] == label_chars);
            } else {
                assert(split_dots(rem) =~= seq![label_chars]);
            }
        }
        if end == start {
            proof {
                assert(label_chars.len() == 0);
                assert(unicode_labels(split_dots(rem)) == Err::<Seq<Seq<char>>, IdnaError>(
                    IdnaError::EmptyLabel,
                ));
            }
            return Err(IdnaError::EmptyLabel);
        }
        let label_str = cps_to_string_slice(&cps, start, end);
        proof {
            assert(label_str@ =~= label_chars) by {
                assert(cps@.subrange(start as int, end as int) =~= cps_of(label_chars));
                lemma_chars_cps_id(label_chars);
            }
        }
        let converted: String;
        match process_label_to_unicode(label_str.as_str()) {
            Err(e) => {
                proof {
                    assert(unicode_labels(split_dots(rem)) == Err::<Seq<Seq<char>>, IdnaError>(e));
                }
                return Err(e);
            },
            Ok(o) => {
                converted = o;
            },
        }
        proof {
            assert(label_to_unicode_spec(label_chars) == Ok::<Seq<char>, IdnaError>(converted@));
        }
        let conv_cps = decode_str_cps(converted.as_str());
        push_label_cps(&mut out_cps, &conv_cps, !first);
        proof {
            lemma_join_push(done, converted@);
            vstd::utf8::char_u32_cast('.', '.' as u32);
            if done.len() == 0 {
                assert(cps_of(join_dots(done.push(converted@))) =~= cps_of(join_dots(done))
                    + seq![] + conv_cps@);
            } else {
                assert(join_dots(done.push(converted@)) == join_dots(done) + seq!['.']
                    + converted@);
                assert(cps_of(join_dots(done.push(converted@))) =~= cps_of(join_dots(done)) + seq![
                    0x2Eu32,
                ] + conv_cps@);
            }
            done0 = done;
            done = done.push(converted@);
            assert(done0 + seq![converted@] =~= done);
        }
        if end == total {
            proof {
                assert(d < 0);
                assert(seq![label_chars].drop_first() =~= Seq::<Seq<char>>::empty());
                assert(seq![label_chars][0] == label_chars);
                assert(label_chars.len() > 0);
                assert(unicode_labels(Seq::<Seq<char>>::empty()) == Ok::<
                    Seq<Seq<char>>,
                    IdnaError,
                >(Seq::<Seq<char>>::empty()));
                assert(seq![converted@] + Seq::<Seq<char>>::empty() =~= seq![converted@]);
                assert(unicode_labels(split_dots(rem)) == Ok::<Seq<Seq<char>>, IdnaError>(seq![
                    converted@,
                ]));
                assert(unicode_labels(split_dots(s)) == Ok::<Seq<Seq<char>>, IdnaError>(done));
            }
            finished = true;
        } else {
            proof {
                let rem2 = rem.subrange(d + 1, rem.len() as int);
                assert(rem2 =~= s.subrange(end + 1, s.len() as int));
                assert((seq![label_chars] + split_dots(rem2)).drop_first() =~= split_dots(rem2));
                assert((seq![label_chars] + split_dots(rem2))[0] == label_chars);
                assert(label_chars.len() > 0);
                if unicode_labels(split_dots(rem2)) is Ok {
                    let r2 = unicode_labels(split_dots(rem2))->Ok_0;
                    assert(unicode_labels(split_dots(rem)) == Ok::<Seq<Seq<char>>, IdnaError>(
                        seq![converted@] + r2,
                    ));
                    assert(done0 + (seq![converted@] + r2) =~= done + r2);
                } else {
                    let e2 = unicode_labels(split_dots(rem2))->Err_0;
                    assert(unicode_labels(split_dots(rem)) == Err::<Seq<Seq<char>>, IdnaError>(
                        e2,
                    ));
                }
            }
            start = end + 1;
            first = false;
        }
    }
    proof {
        assert(to_unicode_spec(s) == Ok::<Seq<char>, IdnaError>(join_dots(done)));
        crate::unicode::lemma_cps_of_scalars(join_dots(done));
    }
    let out = cps_to_string(out_cps.as_slice());
    proof {
        lemma_chars_cps_id(join_dots(done));
        assert(out@ == join_dots(done));
    }
    Ok(out)
}

/// A character that may appear in a converted ASCII domain: lower-case
/// letter, digit, hyphen, or the label separator.
pub open spec fn ascii_domain_char(c: char) -> bool {
    let cp = c as u32;
    cp == 0x2D || cp == 0x2E || (0x30 <= cp && cp <= 0x39) || (0x61 <= cp && cp <= 0x7A)
}

/// Every label that to-ASCII emits has the canonical shape: between one
/// and 63 bytes, no hyphen at either end, and only `[a-z0-9-]` inside.
pub proof fn lemma_label_to_ascii_shape(s: Seq<char>)
    requires
        label_to_ascii_spec(s) is Ok,
    ensures
        lower_label_ok(label_to_ascii_spec(s)->Ok_0),
{
    reveal(label_to_ascii_spec);
    let b = encode_utf8(s);
    let cps = cps_of(s);
    let a = label_to_ascii_spec(s)->Ok_0;
    if lower_label_cps(cps) {
    } else if all_ascii_chars(s) && has_upper_cps(cps) {
        let m = ascii_lower_chars(s);
        assert(all_ascii_chars(m)) by {
            assert forall|i: int| 0 <= i < m.len() implies (#[trigger] m[i] as u32) < 0x80 by {
                assert(m[i] == crate::mapping::ascii_lower_char(s[i]));
                assert((s[i] as u32) < 0x80);
                if 0x41 <= s[i] as u32 && s[i] as u32 <= 0x5A {
                    assert((((s[i] as u32) + 32) as char) as u32 == (s[i] as u32) + 32);
                }
            }
        }
        crate::validation::lemma_label_valid_ascii(m);
        assert(lower_label_ok(m));
    } else {
        let norm = keep_scalars(nfc_cps(cps_of(map_chars(s))));
        if forall|i: int| 0 <= i < norm.len() ==> #[trigger] norm[i] < 0x80 {
            let nc = chars_of(norm);
            assert(all_ascii_chars(nc)) by {
                crate::normalization::lemma_keep_scalars_all(nfc_cps(cps_of(map_chars(s))));
                assert forall|i: int| 0 <= i < nc.len() implies (#[trigger] nc[i] as u32)
                    < 0x80 by {
                    assert(is_scalar(norm[i]));
                    assert(nc[i] == norm[i] as char);
                    assert((norm[i] as char) as u32 == norm[i]);
                }
            }
            crate::validation::lemma_label_valid_ascii(nc);
            assert(lower_label_ok(nc));
        } else {
            let enc = puny_encode(norm)->0;
            assert(forall|j: int|
                0 <= j < norm.len() ==> ((#[trigger] norm[j]) < 0x80
                    ==> crate::punycode::puny_byte(norm[j] as u8))) by {
                assert forall|j: int|
                    0 <= j < norm.len() && (#[trigger] norm[j]) < 0x80 implies
                    crate::punycode::puny_byte(norm[j] as u8) by {
                    assert(valid_name_cp(norm[j]));
                }
            }
            crate::punycode::lemma_puny_encode_bytes(norm);
            let w = choose|j: int| !(0 <= j < norm.len() ==> #[trigger] norm[j] < 0x80);
            assert(0 <= w < norm.len() && norm[w] >= 0x80);
            assert(enc.len() > 0 && crate::punycode::puny_digit_byte(enc.last()));
            assert(forall|j: int| 0 <= j < enc.len() ==> enc[j] < 0x80);
            crate::unicode::lemma_ascii_decode(enc);
            let ec = enc.map(|_i: int, x: u8| x as char);
            assert(a == seq!['x', 'n', '-', '-'] + ec);
            assert(all_ascii_chars(a)) by {
                assert forall|i: int| 0 <= i < a.len() implies (#[trigger] a[i] as u32) < 0x80 by {
                    if i >= 4 {
                        assert(a[i] == ec[i - 4]);
                        assert(ec[i - 4] == enc[i - 4] as char);
                        assert((enc[i - 4] as char) as u32 == enc[i - 4] as u32);
                    }
                }
            }
            crate::unicode::lemma_encode_ascii_chars(a);
            assert(encode_utf8(a).len() == a.len());
            assert(a.len() == 4 + enc.len());
            assert(lower_label_ok(a)) by {
                assert(cps_of(a)[0] == 'x' as u32);
                assert(a[a.len() - 1] == enc[enc.len() - 1] as char);
                assert(cps_of(a)[a.len() - 1] == enc[enc.len() - 1] as u32);
                assert(crate::punycode::puny_digit_byte(enc[enc.len() - 1]));
                assert forall|i: int|
                    0 <= i < a.len() implies (#[trigger] cps_of(a)[i] == 0x2D || (0x30 <= cps_of(
                    a,
                )[i] && cps_of(a)[i] <= 0x39) || (0x61 <= cps_of(a)[i] && cps_of(a)[i]
                    <= 0x7A)) by {
                    assert(cps_of(a)[i] == a[i] as u32);
                    if i >= 4 {
                        assert(a[i] == enc[i - 4] as char);
                        assert(a[i] as u32 == enc[i - 4] as u32);
                        assert(crate::punycode::puny_byte(enc[i - 4]));
                    }
                }
            }
        }
    }
}

/// Every label in a successful to-ASCII conversion has the canonical
/// shape.
pub proof fn lemma_ascii_labels_shape(ls: Seq<Seq<char>>)
    requires
        ascii_labels(ls) is Ok,
    ensures
        ({
            let o = ascii_labels(ls)->Ok_0;
            &&& o.len() == ls.len()
            &&& forall|k: int| 0 <= k < o.len() ==> lower_label_ok(#[trigger] o[k])
        }),
    decreases ls.len(),
{
    if ls.len() == 0 {
    } else {
        lemma_label_to_ascii_shape(ls[0]);
        lemma_ascii_labels_shape(ls.drop_first());
        let a = label_to_ascii_spec(ls[0])->Ok_0;
        let rest = ascii_labels(ls.drop_first())->Ok_0;
        let o = ascii_labels(ls)->Ok_0;
        assert(o == seq![a] + rest);
        assert forall|k: int| 0 <= k < o.len() implies lower_label_ok(#[trigger] o[k]) by {
            if k == 0 {
                assert(o[0] == a);
            } else {
                assert(o[k] == rest[k - 1]);
            }
        }
    }
}

/// Joining canonical labels yields only `[a-z0-9.-]` characters.
pub proof fn lemma_join_chars(ls: Seq<Seq<char>>)
    requires
        forall|k: int| 0 <= k < ls.len() ==> lower_label_ok(#[trigger] ls[k]),
    ensures
        forall|i: int| 0 <= i < join_dots(ls).len() ==> ascii_domain_char(#[trigger] join_dots(ls)[i]),
    decreases ls.len(),
{
    if ls.len() == 0 {
    } else if ls.len() == 1 {
        assert(join_dots(ls) == ls[0]);
        assert forall|i: int| 0 <= i < join_dots(ls).len() implies ascii_domain_char(
            #[trigger] join_dots(ls)[i],
        ) by {
            assert(cps_of(ls[0])[i] == ls[0][i] as u32);
        }
    } else {
        assert(forall|k: int|
            0 <= k < ls.drop_first().len() ==> ls.drop_first()[k] == ls[k + 1]);
        lemma_join_chars(ls.drop_first());
        let j0 = ls[0];
        let jr = join_dots(ls.drop_first());
        assert(join_dots(ls) == j0 + seq!['.'] + jr);
        assert forall|i: int| 0 <= i < join_dots(ls).len() implies ascii_domain_char(
            #[trigger] join_dots(ls)[i],
        ) by {
            if i < j0.len() {
                assert(join_dots(ls)[i] == j0[i]);
                assert(cps_of(j0)[i] == j0[i] as u32);
            } else if i == j0.len() {
                assert(join_dots(ls)[i] == '.');
            } else {
                assert(join_dots(ls)[i] == jr[i - j0.len() - 1]);
            }
        }
    }
}

/// Shape of every successful to-ASCII conversion: the result is the
/// dot-join of labels that each have between one and 63 bytes, no
/// hyphen at either end, and only `[a-z0-9-]` inside; so every character
/// of the result is in `[a-z0-9.-]`.
pub proof fn lemma_to_ascii_shape(s: Seq<char>)
    requires
        to_ascii_spec(s) is Ok,
    ensures
        ({
            let o = to_ascii_spec(s)->Ok_0;
            let ls = ascii_labels(split_dots(s))->Ok_0;
            &&& ascii_labels(split_dots(s)) is Ok
            &&& o == join_dots(ls)
            &&& ls.len() >= 1
            &&& forall|k: int| 0 <= k < ls.len() ==> lower_label_ok(#[trigger] ls[k])
            &&& forall|i: int| 0 <= i < o.len() ==> ascii_domain_char(#[trigger] o[i])
        }),
{
    lemma_ascii_labels_shape(split_dots(s));
    lemma_split_nonempty(s);
    lemma_join_chars(ascii_labels(split_dots(s))->Ok_0);
}

/// A domain already in canonical ASCII form comes back unchanged.
pub proof fn lemma_to_ascii_canonical(s: Seq<char>)
    requires
        canonical_ascii_domain(s),
    ensures
        to_ascii_spec(s) == Ok::<Seq<char>, IdnaError>(s),
{
    lemma_canonical_labels(split_dots(s));
    lemma_join_split(s);
}

proof fn lemma_canonical_labels(ls: Seq<Seq<char>>)
    requires
        forall|k: int| 0 <= k < ls.len() ==> lower_label_ok(#[trigger] ls[k]),
    ensures
        ascii_labels(ls) == Ok::<Seq<Seq<char>>, IdnaError>(ls),
    decreases ls.len(),
{
    reveal(label_to_ascii_spec);
    if ls.len() == 0 {
        assert(ascii_labels(ls) == Ok::<Seq<Seq<char>>, IdnaError>(Seq::<Seq<char>>::empty()));
        assert(ls =~= Seq::<Seq<char>>::empty());
    } else {
        assert(lower_label_ok(ls[0]));
        assert(ls[0].len() > 0) by {
            if ls[0].len() == 0 {
                assert(encode_utf8(ls[0]).len() == 0);
            }
        }
        assert(label_to_ascii_spec(ls[0]) == Ok::<Seq<char>, IdnaError>(ls[0]));
        assert(forall|k: int|
            0 <= k < ls.drop_first().len() ==> ls.drop_first()[k] == ls[k + 1]);
        lemma_canonical_labels(ls.drop_first());
        assert(seq![ls[0]] + ls.drop_first() =~= ls);
    }
}

} // verus!
