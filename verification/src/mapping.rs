//! Per-character domain-name mapping: removal of ignorable format
//! characters, a small table of ligature and special expansions, and
//! lowercasing.
use vstd::prelude::*;
use vstd::utf8::{char_is_scalar, is_scalar};
use crate::unicode::{all_scalars, cps_of, cps_to_string, decode_str_cps, lemma_chars_cps_id};

verus! {

/// What `char::to_lowercase` yields for the character, as a sequence.
pub uninterp spec fn lower_of(c: char) -> Seq<char>;

/// Relies on char::to_lowercase: the full Unicode lowercase expansion,
/// one or more characters, a function of the character alone.
#[verifier::external_body]
fn to_lowercase_chars(c: char) -> (r: Vec<char>)
    ensures
        r@ == lower_of(c),
        r@.len() >= 1,
{
    c.to_lowercase().collect()
}

/// The mapping of one character: ignorable format characters vanish,
/// a few ligatures and letters expand, ASCII letters fold to lower case,
/// all other characters take their full Unicode lowercase expansion.
pub open spec fn map_char(c: char) -> Seq<char> {
    let cp = c as u32;
    if cp == 0xAD || cp == 0x200C || cp == 0x200D || cp == 0x200E || cp == 0x200F || (0x202A <= cp
        && cp <= 0x202E) {
        seq![]
    } else if cp == 0x130 {
        seq!['i', 0x307u32 as char]
    } else if cp == 0x587 {
        seq![0x565u32 as char, 0x582u32 as char]
    } else if cp == 0xFB00 {
        seq!['f', 'f']
    } else if cp == 0xFB01 {
        seq!['f', 'i']
    } else if cp == 0xFB02 {
        seq!['f', 'l']
    } else if cp == 0xFB03 {
        seq!['f', 'f', 'i']
    } else if cp == 0xFB04 {
        seq!['f', 'f', 'l']
    } else if cp == 0xFB05 || cp == 0xFB06 {
        seq!['s', 't']
    } else if cp == 0xFB13 {
        seq![0x574u32 as char, 0x576u32 as char]
    } else if cp == 0xFB14 {
        seq![0x574u32 as char, 0x565u32 as char]
    } else if cp == 0xFB15 {
        seq![0x574u32 as char, 0x56Bu32 as char]
    } else if cp == 0xFB16 {
        seq![0x57Eu32 as char, 0x576u32 as char]
    } else if cp == 0xFB17 {
        seq![0x574u32 as char, 0x56Du32 as char]
    } else if 0x41 <= cp && cp <= 0x5A {
        seq![(cp + 32) as char]
    } else if cp < 0x80 {
        seq![c]
    } else {
        lower_of(c)
    }
}

/// The mapping of a whole character sequence.
pub open spec fn map_chars(s: Seq<char>) -> Seq<char>
    decreases s.len(),
{
    if s.len() == 0 {
        seq![]
    } else {
        map_char(s[0]) + map_chars(s.drop_first())
    }
}

pub proof fn lemma_map_chars_push(s: Seq<char>, c: char)
    ensures
        map_chars(s.push(c)) == map_chars(s) + map_char(c),
    decreases s.len(),
{
    if s.len() == 0 {
        assert(s.push(c).drop_first() =~= s);
        assert(map_chars(s.push(c)) =~= map_chars(s) + map_char(c));
    } else {
        assert(s.push(c).drop_first() =~= s.drop_first().push(c));
        lemma_map_chars_push(s.drop_first(), c);
        assert(map_chars(s.push(c)) =~= map_chars(s) + map_char(c));
    }
}

/// ASCII lowercasing of one character; everything else is untouched.
pub open spec fn ascii_lower_char(c: char) -> char {
    if 0x41 <= c as u32 && c as u32 <= 0x5A {
        ((c as u32) + 32) as char
    } else {
        c
    }
}

/// ASCII lowercasing of a sequence, character by character.
pub open spec fn ascii_lower_chars(s: Seq<char>) -> Seq<char> {
    s.map(|_i: int, c: char| ascii_lower_char(c))
}

/// Lowercases ASCII letters and passes every other character through.
pub fn ascii_map(input: &str) -> (r: String)
    ensures
        r@ == ascii_lower_chars(input@),
{
    let cps = decode_str_cps(input);
    let len = cps.len();
    let mut out: Vec<u32> = Vec::new();
    let mut i: usize = 0;
    while i < len
        invariant
            i <= len,
            len == cps@.len(),
            cps@ == cps_of(input@),
            all_scalars(cps@),
            out@ == cps_of(ascii_lower_chars(input@.subrange(0, i as int))),
            all_scalars(out@),
        decreases len - i,
    {
        let cp = cps[i];
        let low: u32 = if 0x41 <= cp && cp <= 0x5A {
            cp + 32
        } else {
            cp
        };
        proof {
            assert(is_scalar(cp));
            assert(is_scalar(low));
            assert(low == ascii_lower_char(input@[i as int]) as u32);
            assert(input@.subrange(0, i + 1) =~= input@.subrange(0, i as int).push(
                input@[i as int],
            ));
            assert(cps_of(ascii_lower_chars(input@.subrange(0, i + 1))) =~= cps_of(
                ascii_lower_chars(input@.subrange(0, i as int)),
            ).push(low));
        }
        out.push(low);
        i = i + 1;
    }
    proof {
        assert(input@.subrange(0, len as int) =~= input@);
    }
    let r = cps_to_string(out.as_slice());
    proof {
        lemma_chars_cps_id(ascii_lower_chars(input@));
    }
    r
}

/// Applies the domain mapping to every character of the input.
pub fn map(input: &str) -> (r: String)
    ensures
        r@ == map_chars(input@),
{
    let cps = decode_str_cps(input);
    let len = cps.len();
    let mut out: Vec<u32> = Vec::new();
    let mut i: usize = 0;
    while i < len
        invariant
            i <= len,
            len == cps@.len(),
            cps@ == cps_of(input@),
            all_scalars(cps@),
            out@ == cps_of(map_chars(input@.subrange(0, i as int))),
            all_scalars(out@),
        decreases len - i,
    {
        let cp = cps[i];
        let ghost c = input@[i as int];
        proof {
            assert(cp == c as u32);
            assert(is_scalar(cp));
            vstd::utf8::char_u32_cast(c, cp);
        }
        if cp == 0xAD || cp == 0x200C || cp == 0x200D || cp == 0x200E || cp == 0x200F || (0x202A
            <= cp && cp <= 0x202E) {
            proof {
                assert(map_char(c) =~= Seq::<char>::empty());
            }
        } else if cp == 0x130 {
            out.push(0x69);
            out.push(0x307);
        } else if cp == 0x587 {
            out.push(0x565);
            out.push(0x582);
        } else if cp == 0xFB00 {
            out.push(0x66);
            out.push(0x66);
        } else if cp == 0xFB01 {
            out.push(0x66);
            out.push(0x69);
        } else if cp == 0xFB02 {
            out.push(0x66);
            out.push(0x6C);
        } else if cp == 0xFB03 {
            out.push(0x66);
            out.push(0x66);
            out.push(0x69);
        } else if cp == 0xFB04 {
            out.push(0x66);
            out.push(0x66);
            out.push(0x6C);
        } else if cp == 0xFB05 || cp == 0xFB06 {
            out.push(0x73);
            out.push(0x74);
        } else if cp == 0xFB13 {
            out.push(0x574);
            out.push(0x576);
        } else if cp == 0xFB14 {
            out.push(0x574);
            out.push(0x565);
        } else if cp == 0xFB15 {
            out.push(0x574);
            out.push(0x56B);
        } else if cp == 0xFB16 {
            out.push(0x57E);
            out.push(0x576);
        } else if cp == 0xFB17 {
            out.push(0x574);
            out.push(0x56D);
        } else if 0x41 <= cp && cp <= 0x5A {
            out.push(cp + 32);
        } else if cp < 0x80 {
            out.push(cp);
        } else {
            let c_exec = match char::from_u32(cp) {
                Some(ch) => ch,
                None => {
                    proof {
                        assert(false);
                    }
                    'a'
                },
            };
            proof {
                vstd::utf8::char_u32_cast(c_exec, cp);
                assert(c_exec == c);
            }
            let expansion = to_lowercase_chars(c_exec);
            let elen = expansion.len();
            let mut j: usize = 0;
            while j < elen
                invariant
                    j <= elen,
                    elen == expansion@.len(),
                    expansion@ == lower_of(c),
                    out@ == cps_of(map_chars(input@.subrange(0, i as int))) + cps_of(
                        lower_of(c).subrange(0, j as int),
                    ),
                    all_scalars(out@),
                decreases elen - j,
            {
                let ch = expansion[j];
                proof {
                    char_is_scalar(ch);
                    assert(lower_of(c).subrange(0, j + 1) =~= lower_of(c).subrange(
                        0,
                        j as int,
                    ).push(ch));
                    assert(cps_of(lower_of(c).subrange(0, j + 1)) =~= cps_of(
                        lower_of(c).subrange(0, j as int),
                    ).push(ch as u32));
                }
                out.push(ch as u32);
                j = j + 1;
            }
            proof {
                assert(lower_of(c).subrange(0, elen as int) =~= lower_of(c));
            }
        }
        proof {
            assert(input@.subrange(0, i + 1) =~= input@.subrange(0, i as int).push(c));
            lemma_map_chars_push(input@.subrange(0, i as int), c);
            assert(cps_of(map_chars(input@.subrange(0, i as int)) + map_char(c)) =~= cps_of(
                map_chars(input@.subrange(0, i as int)),
            ) + cps_of(map_char(c)));
            assert(out@ == cps_of(map_chars(input@.subrange(0, i + 1))));
        }
        i = i + 1;
    }
    proof {
        assert(input@.subrange(0, len as int) =~= input@);
    }
    let r = cps_to_string(out.as_slice());
    proof {
        lemma_chars_cps_id(map_chars(input@));
    }
    r
}

} // verus!
