//! Unicode Normalization Form C over code-point buffers: canonical
//! decomposition (tables plus algorithmic Hangul), canonical ordering of
//! combining marks, and canonical composition.
use vstd::prelude::*;
use vstd::utf8::is_scalar;
use crate::unicode::{all_scalars, cps_of, cps_to_string, decode_str_cps};
use crate::unicode_tables::{HANGUL_LBASE, HANGUL_LCOUNT, HANGUL_NCOUNT, HANGUL_SBASE, HANGUL_SCOUNT, HANGUL_TBASE, HANGUL_TCOUNT, HANGUL_VBASE, HANGUL_VCOUNT};
use crate::unicode_tables::{ccc_of, compose_of, compose_pair, decomp_len, decomp_of, get_ccc, push_decomp};

verus! {

/// A leading consonant jamo.
pub open spec fn is_hangul_l(cp: u32) -> bool {
    HANGUL_LBASE <= cp && cp < HANGUL_LBASE + HANGUL_LCOUNT
}

/// A vowel jamo.
pub open spec fn is_hangul_v(cp: u32) -> bool {
    HANGUL_VBASE <= cp && cp < HANGUL_VBASE + HANGUL_VCOUNT
}

/// A trailing consonant jamo, excluding the empty trailing position.
pub open spec fn is_hangul_t(cp: u32) -> bool {
    HANGUL_TBASE < cp && cp < HANGUL_TBASE + HANGUL_TCOUNT
}

/// A precomposed Hangul syllable.
pub open spec fn is_hangul_syllable(cp: u32) -> bool {
    HANGUL_SBASE <= cp && cp < HANGUL_SBASE + HANGUL_SCOUNT
}

/// A syllable without a trailing consonant.
pub open spec fn is_hangul_lv(cp: u32) -> bool {
    is_hangul_syllable(cp) && (cp - HANGUL_SBASE) % (HANGUL_TCOUNT as int) == 0
}

/// The syllable composed of a leading and a vowel jamo.
pub open spec fn hangul_lv(l: u32, v: u32) -> u32
    recommends
        is_hangul_l(l),
        is_hangul_v(v),
{
    (HANGUL_SBASE + ((l - HANGUL_LBASE) * HANGUL_VCOUNT + (v - HANGUL_VBASE))
        * HANGUL_TCOUNT) as u32
}

/// The canonical decomposition of one code point: algorithmic for a
/// Hangul syllable, by table otherwise.
pub open spec fn decomp_one(cp: u32) -> Seq<u32> {
    if is_hangul_syllable(cp) {
        let si = (cp - HANGUL_SBASE) as u32;
        let l = (HANGUL_LBASE + si / HANGUL_NCOUNT) as u32;
        let v = (HANGUL_VBASE + (si % HANGUL_NCOUNT) / HANGUL_TCOUNT) as u32;
        let t = (HANGUL_TBASE + si % HANGUL_TCOUNT) as u32;
        if si % HANGUL_TCOUNT == 0 {
            seq![l, v]
        } else {
            seq![l, v, t]
        }
    } else {
        decomp_of(cp)
    }
}

/// Canonical decomposition of a whole sequence.
pub open spec fn decompose_cps(s: Seq<u32>) -> Seq<u32>
    decreases s.len(),
{
    if s.len() == 0 {
        seq![]
    } else {
        decomp_one(s[0]) + decompose_cps(s.drop_first())
    }
}

pub proof fn lemma_decompose_cps_push(s: Seq<u32>, c: u32)
    ensures
        decompose_cps(s.push(c)) == decompose_cps(s) + decomp_one(c),
    decreases s.len(),
{
    if s.len() == 0 {
        assert(s.push(c).drop_first() =~= s);
        assert(decompose_cps(s.push(c)) =~= decompose_cps(s) + decomp_one(c));
    } else {
        assert(s.push(c).drop_first() =~= s.drop_first().push(c));
        lemma_decompose_cps_push(s.drop_first(), c);
        assert(decompose_cps(s.push(c)) =~= decompose_cps(s) + decomp_one(c));
    }
}

/// Where a combining mark lands: it moves left past every trailing
/// element of strictly greater combining class.
pub open spec fn insert_mark(s: Seq<u32>, c: u32) -> Seq<u32>
    decreases s.len(),
{
    if s.len() > 0 && ccc_of(s.last()) > ccc_of(c) {
        insert_mark(s.drop_last(), c).push(s.last())
    } else {
        s.push(c)
    }
}

/// Canonical ordering: a stable sort of combining marks by combining
/// class; starters stay in place.
pub open spec fn sort_marks_cps(s: Seq<u32>) -> Seq<u32>
    decreases s.len(),
{
    if s.len() == 0 {
        seq![]
    } else {
        let rest = sort_marks_cps(s.drop_last());
        if ccc_of(s.last()) == 0 {
            rest.push(s.last())
        } else {
            insert_mark(rest, s.last())
        }
    }
}

/// One step of canonical composition: the state is the output so far,
/// the position of the last starter in it (or -1), and the combining
/// class of the last code point kept since that starter (or -1 when the
/// starter is immediately preceding).
pub open spec fn compose_loop(s: Seq<u32>, i: int, out: Seq<u32>, st: int, last_ccc: int) -> Seq<
    u32,
>
    decreases s.len() - i,
{
    if i < 0 || i >= s.len() {
        out
    } else {
        let c = s[i];
        let cc = ccc_of(c) as int;
        if 0 <= st < out.len() && is_hangul_l(out[st]) && is_hangul_v(c) && last_ccc == -1 {
            compose_loop(s, i + 1, out.update(st, hangul_lv(out[st], c)), st, -1)
        } else if 0 <= st < out.len() && is_hangul_lv(out[st]) && is_hangul_t(c) && last_ccc
            == -1 {
            compose_loop(s, i + 1, out.update(st, (out[st] + c - HANGUL_TBASE) as u32), st, -1)
        } else if 0 <= st < out.len() && last_ccc < cc && compose_of(out[st], c) is Some {
            compose_loop(s, i + 1, out.update(st, compose_of(out[st], c)->0), st, last_ccc)
        } else if cc == 0 {
            compose_loop(s, i + 1, out.push(c), out.len() as int, -1)
        } else {
            compose_loop(s, i + 1, out.push(c), st, cc)
        }
    }
}

/// Canonical composition of a decomposed, canonically ordered sequence.
pub open spec fn compose_cps(s: Seq<u32>) -> Seq<u32> {
    compose_loop(s, 0, seq![], -1, -1)
}

/// Normalization Form C of a code-point sequence.
pub open spec fn nfc_cps(s: Seq<u32>) -> Seq<u32> {
    compose_cps(sort_marks_cps(decompose_cps(s)))
}

/// The subsequence of Unicode scalar values.
pub open spec fn keep_scalars(s: Seq<u32>) -> Seq<u32>
    decreases s.len(),
{
    if s.len() == 0 {
        seq![]
    } else {
        (if is_scalar(s[0]) {
            seq![s[0]]
        } else {
            seq![]
        }) + keep_scalars(s.drop_first())
    }
}

pub proof fn lemma_keep_scalars_push(s: Seq<u32>, c: u32)
    ensures
        keep_scalars(s.push(c)) == keep_scalars(s) + (if is_scalar(c) {
            seq![c]
        } else {
            seq![]
        }),
    decreases s.len(),
{
    if s.len() == 0 {
        assert(s.push(c).drop_first() =~= s);
        assert(keep_scalars(s.push(c)) =~= keep_scalars(s) + (if is_scalar(c) {
            seq![c]
        } else {
            seq![]
        }));
    } else {
        assert(s.push(c).drop_first() =~= s.drop_first().push(c));
        lemma_keep_scalars_push(s.drop_first(), c);
        assert(keep_scalars(s.push(c)) =~= keep_scalars(s) + (if is_scalar(c) {
            seq![c]
        } else {
            seq![]
        }));
    }
}

pub proof fn lemma_keep_scalars_all(s: Seq<u32>)
    ensures
        all_scalars(keep_scalars(s)),
    decreases s.len(),
{
    if s.len() == 0 {
    } else {
        lemma_keep_scalars_all(s.drop_first());
        assert forall|i: int| 0 <= i < keep_scalars(s).len() implies is_scalar(
            #[trigger] keep_scalars(s)[i],
        ) by {
            if is_scalar(s[0]) && i > 0 {
                assert(keep_scalars(s)[i] == keep_scalars(s.drop_first())[i - 1]);
            } else if !is_scalar(s[0]) {
                assert(keep_scalars(s)[i] == keep_scalars(s.drop_first())[i]);
            }
        }
    }
}

/// Exact length of the canonical decomposition of the buffer.
pub fn compute_decomposition_length(input: &[u32]) -> (r: usize)
    requires
        4 * input@.len() <= usize::MAX,
    ensures
        r == decompose_cps(input@).len(),
{
    let len = input.len();
    let mut total: usize = 0;
    let mut i: usize = 0;
    while i < len
        invariant
            i <= len,
            len == input@.len(),
            4 * len <= usize::MAX,
            total == decompose_cps(input@.subrange(0, i as int)).len(),
            total <= 4 * i,
        decreases len - i,
    {
        let cp = input[i];
        let dl: usize;
        if HANGUL_SBASE <= cp && cp < HANGUL_SBASE + HANGUL_SCOUNT {
            let si = cp - HANGUL_SBASE;
            if si % HANGUL_TCOUNT == 0 {
                dl = 2;
            } else {
                dl = 3;
            }
        } else {
            dl = decomp_len(cp);
        }
        proof {
            assert(dl == decomp_one(cp).len());
            lemma_decompose_cps_push(input@.subrange(0, i as int), cp);
            assert(input@.subrange(0, i + 1) =~= input@.subrange(0, i as int).push(cp));
        }
        total = total + dl;
        i = i + 1;
    }
    proof {
        assert(input@.subrange(0, len as int) =~= input@);
    }
    total
}

/// Replaces the buffer by its canonical decomposition.
pub fn decompose(input: &mut Vec<u32>)
    ensures
        final(input)@ == decompose_cps(old(input)@),
{
    let len = input.len();
    let mut out: Vec<u32> = Vec::new();
    let mut i: usize = 0;
    while i < len
        invariant
            i <= len,
            len == input@.len(),
            input@ == old(input)@,
            out@ == decompose_cps(input@.subrange(0, i as int)),
        decreases len - i,
    {
        let cp = input[i];
        if HANGUL_SBASE <= cp && cp < HANGUL_SBASE + HANGUL_SCOUNT {
            let si = cp - HANGUL_SBASE;
            out.push(HANGUL_LBASE + si / HANGUL_NCOUNT);
            out.push(HANGUL_VBASE + (si % HANGUL_NCOUNT) / HANGUL_TCOUNT);
            if si % HANGUL_TCOUNT != 0 {
                out.push(HANGUL_TBASE + si % HANGUL_TCOUNT);
            }
        } else {
            push_decomp(&mut out, cp);
        }
        proof {
            lemma_decompose_cps_push(input@.subrange(0, i as int), cp);
            assert(input@.subrange(0, i + 1) =~= input@.subrange(0, i as int).push(cp));
            assert(out@ =~= decompose_cps(input@.subrange(0, i + 1)));
        }
        i = i + 1;
    }
    proof {
        assert(input@.subrange(0, len as int) =~= input@);
    }
    *input = out;
}

/// Reorders combining marks into canonical order, stably by combining
/// class; starters keep their positions.
#[verifier::loop_isolation(false)]
pub fn sort_marks(input: &mut Vec<u32>)
    ensures
        final(input)@ == sort_marks_cps(old(input)@),
{
    let len = input.len();
    let mut out: Vec<u32> = Vec::new();
    let mut i: usize = 0;
    while i < len
        invariant
            i <= len,
            len == input@.len(),
            input@ == old(input)@,
            out@ == sort_marks_cps(input@.subrange(0, i as int)),
            out@.len() == i,
        decreases len - i,
    {
        let c = input[i];
        let cc = get_ccc(c);
        proof {
            assert(input@.subrange(0, i + 1).drop_last() =~= input@.subrange(0, i as int));
            assert(input@.subrange(0, i + 1).last() == c);
            lemma_sort_marks_len(input@.subrange(0, i as int));
        }
        if cc == 0 {
            out.push(c);
        } else {
            let mut pos = out.len();
            proof {
                assert(out@.subrange(0, out@.len() as int) =~= out@);
                assert(insert_mark(out@, c) + out@.subrange(
                    out@.len() as int,
                    out@.len() as int,
                ) =~= insert_mark(out@, c));
            }
            while pos > 0 && get_ccc(out[pos - 1]) > cc
                invariant
                    pos <= out@.len(),
                    insert_mark(out@, c) == insert_mark(out@.subrange(0, pos as int), c)
                        + out@.subrange(pos as int, out@.len() as int),
                decreases pos,
            {
                proof {
                    let pre = out@.subrange(0, pos as int);
                    assert(pre.len() == pos);
                    assert(pre.last() == out@[pos - 1]);
                    assert(ccc_of(pre.last()) > ccc_of(c));
                    assert(pre.drop_last() =~= out@.subrange(0, pos - 1));
                    assert(insert_mark(pre, c) == insert_mark(pre.drop_last(), c).push(pre.last()));
                    assert(insert_mark(pre, c) == insert_mark(out@.subrange(0, pos - 1), c).push(
                        out@[pos - 1],
                    ));
                    assert(insert_mark(out@.subrange(0, pos - 1), c).push(out@[pos - 1])
                        + out@.subrange(pos as int, out@.len() as int) =~= insert_mark(
                        out@.subrange(0, pos - 1),
                        c,
                    ) + out@.subrange(pos - 1, out@.len() as int));
                }
                pos = pos - 1;
            }
            proof {
                let pre = out@.subrange(0, pos as int);
                assert(pre.push(c) + out@.subrange(pos as int, out@.len() as int) =~= out@.insert(
                    pos as int,
                    c,
                ));
                assert(insert_mark(out@, c) == out@.insert(pos as int, c));
            }
            out.insert(pos, c);
        }
        proof {
            assert(out@ == sort_marks_cps(input@.subrange(0, i + 1)));
        }
        i = i + 1;
    }
    proof {
        assert(input@.subrange(0, len as int) =~= input@);
    }
    *input = out;
}

proof fn lemma_insert_mark_len(s: Seq<u32>, c: u32)
    ensures
        insert_mark(s, c).len() == s.len() + 1,
    decreases s.len(),
{
    if s.len() > 0 && ccc_of(s.last()) > ccc_of(c) {
        lemma_insert_mark_len(s.drop_last(), c);
    }
}

proof fn lemma_sort_marks_len(s: Seq<u32>)
    ensures
        sort_marks_cps(s).len() == s.len(),
    decreases s.len(),
{
    if s.len() > 0 {
        lemma_sort_marks_len(s.drop_last());
        if ccc_of(s.last()) != 0 {
            lemma_insert_mark_len(sort_marks_cps(s.drop_last()), s.last());
        }
    }
}

/// Canonical decomposition followed by canonical ordering.
pub fn decompose_nfc(input: &mut Vec<u32>)
    ensures
        final(input)@ == sort_marks_cps(decompose_cps(old(input)@)),
{
    decompose(input);
    sort_marks(input);
}

/// Replaces the buffer by its canonical composition.
#[verifier::loop_isolation(false)]
pub fn compose(input: &mut Vec<u32>)
    ensures
        final(input)@ == compose_cps(old(input)@),
{
    let len = input.len();
    let mut out: Vec<u32> = Vec::new();
    let mut st: usize = 0;
    let mut has_st: bool = false;
    let mut last_ccc: i32 = -1;
    let mut i: usize = 0;
    while i < len
        invariant
            i <= len,
            len == input@.len(),
            input@ == old(input)@,
            out@.len() <= i,
            has_st ==> st < out@.len(),
            -1 <= last_ccc <= 255,
            compose_cps(input@) == compose_loop(
                input@,
                i as int,
                out@,
                if has_st {
                    st as int
                } else {
                    -1
                },
                last_ccc as int,
            ),
        decreases len - i,
    {
        let ghost out0 = out@;
        let ghost st0: int = if has_st {
            st as int
        } else {
            -1
        };
        let ghost lc0: int = last_ccc as int;
        let c = input[i];
        let cc = get_ccc(c);
        let mut handled = false;
        if has_st {
            let sv = out[st];
            if HANGUL_LBASE <= sv && sv < HANGUL_LBASE + HANGUL_LCOUNT && HANGUL_VBASE <= c && c
                < HANGUL_VBASE + HANGUL_VCOUNT && last_ccc == -1 {
                let lv = HANGUL_SBASE + ((sv - HANGUL_LBASE) * HANGUL_VCOUNT + (c - HANGUL_VBASE))
                    * HANGUL_TCOUNT;
                out.remove(st);
                out.insert(st, lv);
                proof {
                    assert(out@ =~= out0.update(st as int, lv));
                    assert(lv == hangul_lv(sv, c));
                    assert(compose_loop(input@, i as int, out0, st0, lc0) == compose_loop(
                        input@,
                        i + 1,
                        out@,
                        st0,
                        -1,
                    ));
                }
                handled = true;
            } else if HANGUL_SBASE <= sv && sv < HANGUL_SBASE + HANGUL_SCOUNT && (sv - HANGUL_SBASE)
                % HANGUL_TCOUNT == 0 && HANGUL_TBASE < c && c < HANGUL_TBASE + HANGUL_TCOUNT
                && last_ccc == -1 {
                let lvt = sv + (c - HANGUL_TBASE);
                out.remove(st);
                out.insert(st, lvt);
                proof {
                    assert(out@ =~= out0.update(st as int, lvt));
                    assert(compose_loop(input@, i as int, out0, st0, lc0) == compose_loop(
                        input@,
                        i + 1,
                        out@,
                        st0,
                        -1,
                    ));
                }
                handled = true;
            } else if (last_ccc as i64) < (cc as i64) {
                match compose_pair(sv, c) {
                    Some(comp) => {
                        out.remove(st);
                        out.insert(st, comp);
                        proof {
                            assert(out@ =~= out0.update(st as int, comp));
                            assert(compose_loop(input@, i as int, out0, st0, lc0) == compose_loop(
                                input@,
                                i + 1,
                                out@,
                                st0,
                                lc0,
                            ));
                        }
                        handled = true;
                    },
                    None => {
                    },
                }
            }
        }
        if !handled {
            proof {
                if 0 <= st0 < out0.len() {
                    assert(!(is_hangul_l(out0[st0]) && is_hangul_v(c) && lc0 == -1));
                    assert(!(is_hangul_lv(out0[st0]) && is_hangul_t(c) && lc0 == -1));
                    assert(!(lc0 < ccc_of(c) as int && compose_of(out0[st0], c) is Some));
                }
            }
            if cc == 0 {
                st = out.len();
                has_st = true;
                last_ccc = -1;
                out.push(c);
                proof {
                    assert(compose_loop(input@, i as int, out0, st0, lc0) == compose_loop(
                        input@,
                        i + 1,
                        out@,
                        st as int,
                        -1,
                    ));
                }
            } else {
                last_ccc = cc as i32;
                out.push(c);
                proof {
                    assert(compose_loop(input@, i as int, out0, st0, lc0) == compose_loop(
                        input@,
                        i + 1,
                        out@,
                        st0,
                        cc as int,
                    ));
                }
            }
        }
        i = i + 1;
    }
    proof {
        assert(compose_loop(
            input@,
            len as int,
            out@,
            if has_st {
                st as int
            } else {
                -1
            },
            last_ccc as int,
        ) == out@);
    }
    *input = out;
}

/// Normalization Form C of a string: decompose canonically, reorder
/// combining marks, recompose, and keep the scalar values.
pub fn normalize(input: &str) -> (r: String)
    ensures
        cps_of(r@) == keep_scalars(nfc_cps(cps_of(input@))),
{
    let mut buf = decode_str_cps(input);
    decompose_nfc(&mut buf);
    compose(&mut buf);
    let len = buf.len();
    let mut out: Vec<u32> = Vec::new();
    let mut i: usize = 0;
    while i < len
        invariant
            i <= len,
            len == buf@.len(),
            buf@ == nfc_cps(cps_of(input@)),
            out@ == keep_scalars(buf@.subrange(0, i as int)),
            all_scalars(out@),
        decreases len - i,
    {
        let cp = buf[i];
        match char::from_u32(cp) {
            Some(_) => {
                out.push(cp);
            },
            None => {
            },
        }
        proof {
            lemma_keep_scalars_push(buf@.subrange(0, i as int), cp);
            assert(buf@.subrange(0, i + 1) =~= buf@.subrange(0, i as int).push(cp));
            assert(out@ =~= keep_scalars(buf@.subrange(0, i + 1)));
        }
        i = i + 1;
    }
    proof {
        assert(buf@.subrange(0, len as int) =~= buf@);
    }
    let r = cps_to_string(out.as_slice());
    proof {
        crate::unicode::lemma_cps_chars_id(out@);
    }
    r
}

} // verus!
