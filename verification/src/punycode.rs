//! Bootstring (Punycode) codec with the standard parameters: base 36,
//! tmin 1, tmax 26, skew 38, damp 700, initial bias 72, initial n 128.
//!
//! The decoder and the verifier are specified exactly by `puny_decode`;
//! the encoder by `puny_encode`.  Inputs that begin with the `xn--`
//! marker are rejected by both directions: that prefix is only legal as
//! an outer label marker and must be stripped before the codec runs.
use vstd::prelude::*;
use vstd::arithmetic::div_mod::lemma_fundamental_div_mod;
use vstd::arithmetic::mul::lemma_mul_inequality;
use vstd::string::StringSliceAdditionalSpecFns;

verus! {

/// Value of a base-36 digit byte: 'a'..='z' are 0..=25, '0'..='9' are
/// 26..=35, anything else is -1.
pub open spec fn digit_val(b: u8) -> int {
    if 0x61 <= b && b <= 0x7A {
        b - 0x61
    } else if 0x30 <= b && b <= 0x39 {
        b - 0x30 + 26
    } else {
        -1
    }
}

/// Byte spelling a base-36 digit value.
pub open spec fn digit_char(d: int) -> u8
    recommends
        0 <= d < 36,
{
    if d < 26 {
        (d + 0x61) as u8
    } else {
        (d + 0x30 - 26) as u8
    }
}

/// The digit bytes are lower-case letters and digits, and spell their
/// own value.
pub proof fn lemma_digit_char(d: int)
    requires
        0 <= d < 36,
    ensures
        (0x61 <= digit_char(d) <= 0x7A) || (0x30 <= digit_char(d) <= 0x39),
        digit_val(digit_char(d)) == d,
{
}

fn char_to_digit_value(value: u8) -> (r: i64)
    ensures
        r == digit_val(value),
{
    if 0x61 <= value && value <= 0x7A {
        (value - 0x61) as i64
    } else if 0x30 <= value && value <= 0x39 {
        (value - 0x30) as i64 + 26
    } else {
        -1
    }
}

fn digit_to_char(digit: i64) -> (r: u8)
    requires
        0 <= digit < 36,
    ensures
        r == digit_char(digit as int),
{
    if digit < 26 {
        (digit + 0x61) as u8
    } else {
        (digit + 0x30 - 26) as u8
    }
}

/// The halving chain of the bias adaptation: divide by 35 while the
/// value is still large, counting 36 per step.
pub open spec fn adapt_shift(d: int, k: int) -> (int, int)
    recommends
        d >= 0,
    decreases d,
{
    if d > 455 {
        adapt_shift(d / 35, k + 36)
    } else {
        (d, k)
    }
}

/// Bias adaptation after a delta has been consumed or produced.
pub open spec fn adapt_spec(delta: int, numpoints: int, firsttime: bool) -> int
    recommends
        0 <= delta,
        1 <= numpoints,
{
    let d1 = if firsttime {
        delta / 700
    } else {
        delta / 2
    };
    let d2 = d1 + d1 / numpoints;
    let (d3, k) = adapt_shift(d2, 0);
    k + (36 * d3) / (d3 + 38)
}

fn adapt(delta: i64, numpoints: i64, firsttime: bool) -> (r: i64)
    requires
        0 <= delta <= 0x7fffffff,
        1 <= numpoints,
    ensures
        r == adapt_spec(delta as int, numpoints as int, firsttime),
        0 <= r <= 611,
{
    let mut d: i64 = if firsttime {
        delta / 700
    } else {
        delta / 2
    };
    d = d + d / numpoints;
    let ghost d2 = d as int;
    let mut k: i64 = 0;
    while d > 455
        invariant
            0 <= d,
            k % 36 == 0,
            0 <= k <= 180,
            adapt_shift(d2, 0) == adapt_shift(d as int, k as int),
            k == 0 ==> d <= 0x7fffffff,
            k == 36 ==> d <= 61356675,
            k == 72 ==> d <= 1753047,
            k == 108 ==> d <= 50087,
            k == 144 ==> d <= 1431,
            k == 180 ==> d <= 40,
        decreases d,
    {
        d = d / 35;
        k = k + 36;
    }
    proof {
        assert(adapt_shift(d as int, k as int) == (d as int, k as int));
        assert((36 * d as int) / (d as int + 38) >= 0) by {
            vstd::arithmetic::div_mod::lemma_div_pos_is_pos(36 * d as int, d as int + 38);
        }
        assert((36 * d as int) / (d as int + 38) <= 431) by {
            vstd::arithmetic::div_mod::lemma_div_is_ordered(
                36 * d as int,
                36 * 455int,
                d as int + 38,
            );
            vstd::arithmetic::div_mod::lemma_div_is_ordered_by_denominator(
                36 * 455int,
                38,
                d as int + 38,
            );
        }
    }
    k + ((36 * d) / (d + 38))
}

/// The byte sequence begins with the `xn--` marker.
pub open spec fn starts_xn(b: Seq<u8>) -> bool {
    b.len() >= 4 && b[0] == 0x78 && b[1] == 0x6E && b[2] == 0x2D && b[3] == 0x2D
}

/// Index of the last '-' byte, or -1 when there is none.
pub open spec fn rlast_dash(b: Seq<u8>) -> int
    decreases b.len(),
{
    if b.len() == 0 {
        -1
    } else if b[b.len() - 1] == 0x2D {
        b.len() - 1
    } else {
        rlast_dash(b.drop_last())
    }
}

proof fn lemma_rlast_dash_range(b: Seq<u8>)
    ensures
        -1 <= rlast_dash(b) < b.len(),
        rlast_dash(b) >= 0 ==> b[rlast_dash(b)] == 0x2D,
        forall|j: int| rlast_dash(b) < j < b.len() ==> b[j] != 0x2D,
    decreases b.len(),
{
    if b.len() == 0 {
    } else if b[b.len() - 1] == 0x2D {
    } else {
        lemma_rlast_dash_range(b.drop_last());
        assert forall|j: int| rlast_dash(b) < j < b.len() implies b[j] != 0x2D by {
            if j < b.len() - 1 {
                assert(b.drop_last()[j] == b[j]);
            }
        }
    }
}

/// One variable-length integer read by the decoder: consumes digit bytes
/// from `pos`, accumulating into `i`, guarding every step against
/// overflow past 0x7fffffff.  Yields the new accumulator and position.
pub open spec fn read_vli(ext: Seq<u8>, pos: int, i: int, w: int, k: int, bias: int) -> Option<
    (int, int),
>
    recommends
        w >= 1,
    decreases ext.len() - pos,
{
    if pos < 0 || pos >= ext.len() {
        None
    } else {
        let digit = digit_val(ext[pos]);
        if digit < 0 {
            None
        } else if digit > (0x7fffffff - i) / w {
            None
        } else {
            let i2 = i + digit * w;
            let t = if k <= bias {
                1int
            } else if k >= bias + 26 {
                26int
            } else {
                k - bias
            };
            if digit < t {
                Some((i2, pos + 1))
            } else if w > 0x7fffffffint / (36 - t) {
                None
            } else {
                read_vli(ext, pos + 1, i2, w * (36 - t), k + 36, bias)
            }
        }
    }
}

proof fn lemma_read_vli_pos(ext: Seq<u8>, pos: int, i: int, w: int, k: int, bias: int)
    ensures
        read_vli(ext, pos, i, w, k, bias) matches Some(r) ==> pos < r.1 <= ext.len(),
    decreases ext.len() - pos,
{
    if pos < 0 || pos >= ext.len() {
    } else {
        lemma_read_vli_pos(ext, pos + 1, i + digit_val(ext[pos]) * w, w * (36 - (if k <= bias {
            1int
        } else if k >= bias + 26 {
            26int
        } else {
            k - bias
        })), k + 36, bias);
    }
}

/// The decoder's main loop over the extension bytes: reads one integer,
/// adapts the bias, derives the next code point and its insertion spot.
pub open spec fn decode_loop(
    ext: Seq<u8>,
    pos: int,
    out: Seq<u32>,
    n: int,
    i: int,
    bias: int,
) -> Option<Seq<u32>>
    decreases ext.len() - pos,
    via decode_loop_dec
{
    if pos < 0 || pos >= ext.len() {
        Some(out)
    } else {
        match read_vli(ext, pos, i, 1, 36, bias) {
            Option::None => None,
            Option::Some(r) => {
                let i2 = r.0;
                let pos2 = r.1;
                let bias2 = adapt_spec(i2 - i, out.len() as int + 1, i == 0);
                if i2 / (out.len() as int + 1) > 0x7fffffff - n {
                    None
                } else {
                    let n2 = n + i2 / (out.len() as int + 1);
                    let i3 = i2 % (out.len() as int + 1);
                    if n2 < 0x80 {
                        None
                    } else {
                        decode_loop(ext, pos2, out.insert(i3, n2 as u32), n2, i3 + 1, bias2)
                    }
                }
            },
        }
    }
}

#[via_fn]
proof fn decode_loop_dec(ext: Seq<u8>, pos: int, out: Seq<u32>, n: int, i: int, bias: int) {
    lemma_read_vli_pos(ext, pos, i, 1, 36, bias);
}

/// Some byte of the sequence is outside the ASCII range.
pub open spec fn has_high_byte(s: Seq<u8>) -> bool {
    exists|j: int| 0 <= j < s.len() && s[j] >= 0x80
}

/// Full decoding of a Punycode byte string: reject the `xn--` marker,
/// split at the last '-', take everything before it as literal ASCII,
/// then run the decoder loop on the rest.
pub open spec fn puny_decode(b: Seq<u8>) -> Option<Seq<u32>> {
    if b.len() > 0x40000000 {
        None
    } else if starts_xn(b) {
        None
    } else {
        let dash = rlast_dash(b);
        let basic = if dash >= 0 {
            b.subrange(0, dash)
        } else {
            Seq::<u8>::empty()
        };
        let ext = if dash >= 0 {
            b.subrange(dash + 1, b.len() as int)
        } else {
            b
        };
        if has_high_byte(basic) {
            None
        } else {
            decode_loop(ext, 0, basic.map(|_i: int, x: u8| x as u32), 128, 0, 72)
        }
    }
}

/// True when the byte slice begins with `xn--`.
pub(crate) fn slice_starts_xn(b: &[u8]) -> (r: bool)
    ensures
        r == starts_xn(b@),
{
    b.len() >= 4 && b[0] == 0x78 && b[1] == 0x6E && b[2] == 0x2D && b[3] == 0x2D
}

/// Position after the last '-' byte, or 0 when there is none: the start
/// of the extension part.
fn find_ext_start(b: &[u8]) -> (r: usize)
    ensures
        r == rlast_dash(b@) + 1,
{
    let mut idx: usize = b.len();
    while idx > 0
        invariant
            idx <= b@.len(),
            forall|j: int| idx <= j < b@.len() ==> b@[j] != 0x2D,
        decreases idx,
    {
        if b[idx - 1] == 0x2D {
            proof {
                lemma_rlast_dash_range(b@);
                assert(rlast_dash(b@) == idx - 1) by {
                    if rlast_dash(b@) > idx - 1 {
                        assert(b@[rlast_dash(b@)] == 0x2D);
                    }
                    if rlast_dash(b@) < idx - 1 {
                        assert(b@[idx - 1] != 0x2D);
                    }
                }
            }
            return idx;
        }
        idx = idx - 1;
    }
    proof {
        lemma_rlast_dash_range(b@);
        if rlast_dash(b@) >= 0 {
            assert(b@[rlast_dash(b@)] == 0x2D);
        }
    }
    0
}

proof fn lemma_mul_div_le(a: int, b: int, m: int)
    requires
        b >= 1,
        m >= 0,
        0 <= a <= m / b,
    ensures
        a * b <= m,
{
    lemma_mul_inequality(a, m / b, b);
    lemma_fundamental_div_mod(m, b);
}

/// Reads one variable-length integer of the extension part, starting at
/// absolute position `pos`; mirrors `read_vli` exactly.
#[verifier::loop_isolation(false)]
fn read_vli_exec(
    bytes: &[u8],
    ext_start: usize,
    pos: usize,
    i: i64,
    bias: i64,
    Ghost(ext): Ghost<Seq<u8>>,
) -> (r: Option<(i64, usize)>)
    requires
        ext_start <= pos <= bytes@.len() <= 0x40000000,
        ext.len() == bytes@.len() - ext_start,
        forall|j: int| 0 <= j < ext.len() ==> ext[j] == bytes@[ext_start + j],
        0 <= i <= 0x7fffffff,
        0 <= bias <= 611,
    ensures
        match r {
            Some(v) => {
                &&& read_vli(ext, pos - ext_start, i as int, 1, 36, bias as int) == Some(
                    (v.0 as int, v.1 - ext_start),
                )
                &&& pos < v.1 <= bytes@.len()
                &&& i <= v.0 <= 0x7fffffff
            },
            None => read_vli(ext, pos - ext_start, i as int, 1, 36, bias as int) is None,
        },
{
    let len = bytes.len();
    let mut p = pos;
    let mut ii = i;
    let mut w: i64 = 1;
    let mut k: i64 = 36;
    loop
        invariant
            ext_start <= p <= len,
            pos <= p,
            len == bytes@.len() <= 0x40000000,
            ext.len() == len - ext_start,
            forall|j: int| 0 <= j < ext.len() ==> ext[j] == bytes@[ext_start + j],
            0 <= bias <= 611,
            i <= ii <= 0x7fffffff,
            0 <= i,
            1 <= w <= 0x7fffffff,
            36 <= k <= 360,
            k % 36 == 0,
            k == 36 ==> w >= 1,
            k == 72 ==> w >= 10,
            k == 108 ==> w >= 100,
            k == 144 ==> w >= 1000,
            k == 180 ==> w >= 10000,
            k == 216 ==> w >= 100000,
            k == 252 ==> w >= 1000000,
            k == 288 ==> w >= 10000000,
            k == 324 ==> w >= 100000000,
            k == 360 ==> w >= 1000000000,
            read_vli(ext, pos - ext_start, i as int, 1, 36, bias as int) == read_vli(
                ext,
                p - ext_start,
                ii as int,
                w as int,
                k as int,
                bias as int,
            ),
        decreases len - p,
    {
        if p >= len {
            return None;
        }
        let b = bytes[p];
        proof {
            assert(ext[p - ext_start] == b);
        }
        p = p + 1;
        let digit = char_to_digit_value(b);
        if digit < 0 {
            return None;
        }
        if digit > (0x7fffffff - ii) / w {
            return None;
        }
        proof {
            lemma_mul_div_le(digit as int, w as int, 0x7fffffff - ii);
        }
        ii = ii + digit * w;
        let t: i64 = if k <= bias {
            1
        } else if k >= bias + 26 {
            26
        } else {
            k - bias
        };
        if digit < t {
            return Some((ii, p));
        }
        if w > 0x7fffffff / (36 - t) {
            return None;
        }
        proof {
            lemma_mul_div_le(w as int, 36 - t, 0x7fffffff);
            assert(w * (36 - t) >= 10 * w) by (nonlinear_arith)
                requires
                    1 <= t <= 26,
                    w >= 0,
            ;
        }
        w = w * (36 - t);
        k = k + 36;
        proof {
            if k > 360 {
                assert(w >= 10000000000i64);
                assert(false);
            }
        }
    }
}

/// Decodes a Punycode byte string to code points; `None` on any
/// malformed input, exactly as `puny_decode` says.
#[verifier::loop_isolation(false)]
#[verifier::rlimit(60)]
pub fn punycode_to_utf32(input: &str) -> (r: Option<Vec<u32>>)
    ensures
        match r {
            Some(v) => puny_decode(input.spec_bytes()) == Some(v@),
            None => puny_decode(input.spec_bytes()) is None,
        },
{
    let bytes = input.as_bytes();
    let len = bytes.len();
    if len > 0x40000000 {
        return None;
    }
    if slice_starts_xn(bytes) {
        return None;
    }
    let ext_start = find_ext_start(bytes);
    let ghost bv = bytes@;
    let ghost dash = rlast_dash(bv);
    let ghost basic = if dash >= 0 {
        bv.subrange(0, dash)
    } else {
        Seq::<u8>::empty()
    };
    let ghost ext = if dash >= 0 {
        bv.subrange(dash + 1, bv.len() as int)
    } else {
        bv
    };
    proof {
        lemma_rlast_dash_range(bv);
        if dash < 0 {
            assert(ext_start == 0);
            assert(ext =~= bv);
        }
    }
    let basic_len: usize = if ext_start > 0 {
        ext_start - 1
    } else {
        0
    };
    proof {
        assert(basic.len() == basic_len);
        assert(forall|j: int| 0 <= j < basic.len() ==> basic[j] == bv[j]);
        assert(ext.len() == len - ext_start);
        assert(forall|j: int| 0 <= j < ext.len() ==> ext[j] == bv[ext_start + j]);
    }
    let mut out: Vec<u32> = Vec::new();
    let mut bi: usize = 0;
    while bi < basic_len
        invariant
            bi <= basic_len,
            basic_len == basic.len(),
            basic_len < len || basic_len == 0,
            len == bv.len(),
            bv == bytes@,
            forall|j: int| 0 <= j < basic.len() ==> basic[j] == bv[j],
            forall|j: int| 0 <= j < bi ==> basic[j] < 0x80,
            out@ == basic.subrange(0, bi as int).map(|_i: int, x: u8| x as u32),
        decreases basic_len - bi,
    {
        let c = bytes[bi];
        proof {
            assert(basic[bi as int] == c);
        }
        if c >= 0x80 {
            proof {
                assert(!starts_xn(bv));
                assert(puny_decode(bv) is None) by {
                    assert(basic[bi as int] >= 0x80);
                    assert(has_high_byte(basic));
                }
            }
            return None;
        }
        out.push(c as u32);
        proof {
            assert(basic.subrange(0, bi + 1).map(|_i: int, x: u8| x as u32) =~= basic.subrange(
                0,
                bi as int,
            ).map(|_i: int, x: u8| x as u32).push(c as u32));
        }
        bi = bi + 1;
    }
    proof {
        assert(basic.subrange(0, basic_len as int) =~= basic);
        assert(puny_decode(bv) == decode_loop(
            ext,
            0,
            basic.map(|_i: int, x: u8| x as u32),
            128,
            0,
            72,
        ));
    }
    let mut n: i64 = 128;
    let mut i: i64 = 0;
    let mut bias: i64 = 72;
    let mut pos: usize = ext_start;
    while pos < len
        invariant
            ext_start <= pos <= len,
            len == bv.len() <= 0x40000000,
            bv == bytes@,
            ext.len() == len - ext_start,
            forall|j: int| 0 <= j < ext.len() ==> ext[j] == bv[ext_start + j],
            0 <= i <= 0x7fffffff,
            0x80 <= n <= 0x7fffffff,
            0 <= bias <= 611,
            out@.len() <= basic.len() + (pos - ext_start),
            puny_decode(bv) == decode_loop(
                ext,
                pos - ext_start,
                out@,
                n as int,
                i as int,
                bias as int,
            ),
        decreases len - pos,
    {
        match read_vli_exec(bytes, ext_start, pos, i, bias, Ghost(ext)) {
            None => {
                return None;
            },
            Some((i2, pos2)) => {
                let written_plus: i64 = out.len() as i64 + 1;
                let nbias = adapt(i2 - i, written_plus, i == 0);
                let q = i2 / written_plus;
                if q > 0x7fffffff - n {
                    return None;
                }
                let n2 = n + q;
                let im = i2 % written_plus;
                if n2 < 0x80 {
                    return None;
                }
                proof {
                    assert(0 <= im < written_plus);
                    assert(decode_loop(
                        ext,
                        pos - ext_start,
                        out@,
                        n as int,
                        i as int,
                        bias as int,
                    ) == decode_loop(
                        ext,
                        pos2 - ext_start,
                        out@.insert(im as int, n2 as u32),
                        n2 as int,
                        im + 1,
                        nbias as int,
                    ));
                }
                out.insert(im as usize, n2 as u32);
                n = n2;
                i = im + 1;
                bias = nbias;
                pos = pos2;
            },
        }
    }
    proof {
        assert(decode_loop(ext, pos - ext_start, out@, n as int, i as int, bias as int) == Some(
            out@,
        ));
    }
    Some(out)
}

/// Walks the decoder without materializing output: true exactly when
/// `puny_decode` yields a value.
#[verifier::loop_isolation(false)]
#[verifier::rlimit(60)]
pub fn verify_punycode(input: &str) -> (r: bool)
    ensures
        r == (puny_decode(input.spec_bytes()) is Some),
{
    let bytes = input.as_bytes();
    let len = bytes.len();
    if len > 0x40000000 {
        return false;
    }
    if slice_starts_xn(bytes) {
        return false;
    }
    let ext_start = find_ext_start(bytes);
    let ghost bv = bytes@;
    let ghost dash = rlast_dash(bv);
    let ghost basic = if dash >= 0 {
        bv.subrange(0, dash)
    } else {
        Seq::<u8>::empty()
    };
    let ghost ext = if dash >= 0 {
        bv.subrange(dash + 1, bv.len() as int)
    } else {
        bv
    };
    proof {
        lemma_rlast_dash_range(bv);
        if dash < 0 {
            assert(ext_start == 0);
            assert(ext =~= bv);
        }
    }
    let basic_len: usize = if ext_start > 0 {
        ext_start - 1
    } else {
        0
    };
    proof {
        assert(basic.len() == basic_len);
        assert(forall|j: int| 0 <= j < basic.len() ==> basic[j] == bv[j]);
        assert(ext.len() == len - ext_start);
        assert(forall|j: int| 0 <= j < ext.len() ==> ext[j] == bv[ext_start + j]);
    }
    let ghost gout = basic.map(|_i: int, x: u8| x as u32);
    let mut written: usize = 0;
    let mut bi: usize = 0;
    while bi < basic_len
        invariant
            bi <= basic_len,
            basic_len == basic.len(),
            len == bv.len(),
            bv == bytes@,
            forall|j: int| 0 <= j < basic.len() ==> basic[j] == bv[j],
            forall|j: int| 0 <= j < bi ==> basic[j] < 0x80,
        decreases basic_len - bi,
    {
        let c = bytes[bi];
        proof {
            assert(basic[bi as int] == c);
        }
        if c >= 0x80 {
            proof {
                assert(!starts_xn(bv));
                assert(puny_decode(bv) is None) by {
                    assert(basic[bi as int] >= 0x80);
                    assert(has_high_byte(basic));
                }
            }
            return false;
        }
        bi = bi + 1;
    }
    written = basic_len;
    proof {
        assert(gout.len() == written);
        assert(puny_decode(bv) == decode_loop(ext, 0, gout, 128, 0, 72));
    }
    let mut gout_cur: Ghost<Seq<u32>> = Ghost(gout);
    let mut n: i64 = 128;
    let mut i: i64 = 0;
    let mut bias: i64 = 72;
    let mut pos: usize = ext_start;
    while pos < len
        invariant
            ext_start <= pos <= len,
            len == bv.len() <= 0x40000000,
            bv == bytes@,
            ext.len() == len - ext_start,
            forall|j: int| 0 <= j < ext.len() ==> ext[j] == bv[ext_start + j],
            0 <= i <= 0x7fffffff,
            0x80 <= n <= 0x7fffffff,
            0 <= bias <= 611,
            written == gout_cur@.len(),
            written <= basic.len() + (pos - ext_start),
            basic.len() < len || basic.len() == 0,
            puny_decode(bv) == decode_loop(
                ext,
                pos - ext_start,
                gout_cur@,
                n as int,
                i as int,
                bias as int,
            ),
        decreases len - pos,
    {
        match read_vli_exec(bytes, ext_start, pos, i, bias, Ghost(ext)) {
            None => {
                return false;
            },
            Some((i2, pos2)) => {
                let written_plus: i64 = written as i64 + 1;
                let nbias = adapt(i2 - i, written_plus, i == 0);
                let q = i2 / written_plus;
                if q > 0x7fffffff - n {
                    return false;
                }
                let n2 = n + q;
                let im = i2 % written_plus;
                if n2 < 0x80 {
                    return false;
                }
                proof {
                    assert(0 <= im < written_plus);
                    assert(decode_loop(
                        ext,
                        pos - ext_start,
                        gout_cur@,
                        n as int,
                        i as int,
                        bias as int,
                    ) == decode_loop(
                        ext,
                        pos2 - ext_start,
                        gout_cur@.insert(im as int, n2 as u32),
                        n2 as int,
                        im + 1,
                        nbias as int,
                    ));
                }
                gout_cur = Ghost(gout_cur@.insert(im as int, n2 as u32));
                written = written + 1;
                n = n2;
                i = im + 1;
                bias = nbias;
                pos = pos2;
            },
        }
    }
    proof {
        assert(decode_loop(ext, pos - ext_start, gout_cur@, n as int, i as int, bias as int)
            == Some(gout_cur@));
    }
    true
}

/// The code-point sequence begins with the `xn--` marker.
pub open spec fn starts_xn_cps(cps: Seq<u32>) -> bool {
    cps.len() >= 4 && cps[0] == 0x78 && cps[1] == 0x6E && cps[2] == 0x2D && cps[3] == 0x2D
}

/// A value the encoder rejects: above the Unicode range or a surrogate.
pub open spec fn bad_cp(c: u32) -> bool {
    c > 0x10FFFF || (0xD800 <= c && c < 0xE000)
}

/// Some value of the sequence is rejected by the encoder.
pub open spec fn has_bad_cp(cps: Seq<u32>) -> bool {
    exists|j: int| 0 <= j < cps.len() && bad_cp(#[trigger] cps[j])
}

/// The basic segment: every code point below 0x80, in input order,
/// as bytes.
pub open spec fn basic_of(cps: Seq<u32>) -> Seq<u8>
    decreases cps.len(),
{
    if cps.len() == 0 {
        seq![]
    } else {
        (if cps[0] < 0x80 {
            seq![cps[0] as u8]
        } else {
            seq![]
        }) + basic_of(cps.drop_first())
    }
}

proof fn lemma_basic_of_push(cps: Seq<u32>, c: u32)
    ensures
        basic_of(cps.push(c)) == basic_of(cps) + (if c < 0x80 {
            seq![c as u8]
        } else {
            seq![]
        }),
    decreases cps.len(),
{
    if cps.len() == 0 {
        assert(cps.push(c).drop_first() =~= cps);
        assert(basic_of(cps.push(c)) =~= basic_of(cps) + (if c < 0x80 {
            seq![c as u8]
        } else {
            seq![]
        }));
    } else {
        assert(cps.push(c).drop_first() =~= cps.drop_first().push(c));
        lemma_basic_of_push(cps.drop_first(), c);
        assert(basic_of(cps.push(c)) =~= basic_of(cps) + (if c < 0x80 {
            seq![c as u8]
        } else {
            seq![]
        }));
    }
}

/// The basic segment is as long as the count of values below 0x80.
proof fn lemma_basic_of_count(cps: Seq<u32>)
    ensures
        basic_of(cps).len() == count_lt(cps, 0x80),
    decreases cps.len(),
{
    if cps.len() == 0 {
    } else {
        lemma_basic_of_count(cps.drop_first());
    }
}

/// Number of values of the sequence below `v`.
pub open spec fn count_lt(cps: Seq<u32>, v: int) -> int
    decreases cps.len(),
{
    if cps.len() == 0 {
        0
    } else {
        (if (cps[0] as int) < v {
            1int
        } else {
            0int
        }) + count_lt(cps.drop_first(), v)
    }
}

/// Number of values equal to `v` among the first `idx` entries.
pub open spec fn count_eq_pref(cps: Seq<u32>, v: int, idx: int) -> int
    decreases idx,
{
    if idx <= 0 || idx > cps.len() {
        0
    } else {
        count_eq_pref(cps, v, idx - 1) + (if cps[idx - 1] as int == v {
            1int
        } else {
            0int
        })
    }
}

proof fn lemma_count_lt_bounds(cps: Seq<u32>, v: int)
    ensures
        0 <= count_lt(cps, v) <= cps.len(),
    decreases cps.len(),
{
    if cps.len() == 0 {
    } else {
        lemma_count_lt_bounds(cps.drop_first(), v);
    }
}

/// Fewer values below `v` than entries: some entry is at least `v`.
proof fn lemma_count_lt_exists_ge(cps: Seq<u32>, v: int)
    requires
        count_lt(cps, v) < cps.len(),
    ensures
        exists|i: int| 0 <= i < cps.len() && cps[i] as int >= v,
    decreases cps.len(),
{
    lemma_count_lt_bounds(cps, v);
    if cps.len() == 0 {
    } else if cps[0] as int >= v {
        assert(cps[0] as int >= v);
    } else {
        lemma_count_lt_bounds(cps.drop_first(), v);
        lemma_count_lt_exists_ge(cps.drop_first(), v);
        let i0 = choose|i: int|
            0 <= i < cps.drop_first().len() && cps.drop_first()[i] as int >= v;
        assert(cps[i0 + 1] as int >= v);
    }
}

/// When no value lies in `[a, b)`, counting below `a` and below `b`
/// agree.
proof fn lemma_count_lt_gap(cps: Seq<u32>, a: int, b: int)
    requires
        a <= b,
        forall|i: int| 0 <= i < cps.len() ==> !(a <= #[trigger] cps[i] as int && (cps[i] as int) < b),
    ensures
        count_lt(cps, a) == count_lt(cps, b),
    decreases cps.len(),
{
    if cps.len() == 0 {
    } else {
        assert(forall|i: int|
            0 <= i < cps.drop_first().len() ==> cps.drop_first()[i] == cps[i + 1]);
        lemma_count_lt_gap(cps.drop_first(), a, b);
    }
}

/// Counting below `v + 1` splits into counting below `v` and the
/// occurrences of `v` itself.
proof fn lemma_count_lt_succ(cps: Seq<u32>, v: int)
    ensures
        count_lt(cps, v + 1) == count_lt(cps, v) + count_eq_pref(cps, v, cps.len() as int),
    decreases cps.len(),
{
    if cps.len() == 0 {
    } else {
        lemma_count_lt_succ(cps.drop_first(), v);
        lemma_count_eq_pref_drop(cps, v, cps.len() as int);
    }
}

/// Prefix equality counts transfer to the dropped-head sequence.
proof fn lemma_count_eq_pref_drop(cps: Seq<u32>, v: int, idx: int)
    requires
        1 <= idx <= cps.len(),
    ensures
        count_eq_pref(cps, v, idx) == (if cps[0] as int == v {
            1int
        } else {
            0int
        }) + count_eq_pref(cps.drop_first(), v, idx - 1),
    decreases idx,
{
    reveal_with_fuel(count_eq_pref, 3);
    if idx == 1 {
    } else {
        lemma_count_eq_pref_drop(cps, v, idx - 1);
        assert(cps.drop_first().len() == cps.len() - 1);
        assert(cps.drop_first()[idx - 2] == cps[idx - 1]);
        assert(count_eq_pref(cps, v, idx) == count_eq_pref(cps, v, idx - 1) + (if cps[idx
            - 1] as int == v {
            1int
        } else {
            0int
        }));
        assert(count_eq_pref(cps.drop_first(), v, idx - 1) == count_eq_pref(
            cps.drop_first(),
            v,
            idx - 2,
        ) + (if cps.drop_first()[idx - 2] as int == v {
            1int
        } else {
            0int
        }));
    }
}

proof fn lemma_count_eq_pref_bounds(cps: Seq<u32>, v: int, idx: int)
    ensures
        0 <= count_eq_pref(cps, v, idx) <= (if idx < 0 {
            0int
        } else {
            idx
        }),
    decreases idx,
{
    if idx <= 0 || idx > cps.len() {
    } else {
        lemma_count_eq_pref_bounds(cps, v, idx - 1);
    }
}

/// A value present in the sequence is counted at least once.
proof fn lemma_count_eq_pref_witness(cps: Seq<u32>, v: int, idx: int, w: int)
    requires
        0 <= w < idx <= cps.len(),
        cps[w] as int == v,
    ensures
        count_eq_pref(cps, v, idx) >= 1,
    decreases idx,
{
    lemma_count_eq_pref_bounds(cps, v, idx - 1);
    if w == idx - 1 {
    } else {
        lemma_count_eq_pref_witness(cps, v, idx - 1, w);
    }
}

/// The smallest value of the sequence that is at least `n`, folded left
/// from the running minimum `m`.
pub open spec fn min_at_least(cps: Seq<u32>, n: int, idx: int, m: int) -> int
    decreases cps.len() - idx,
{
    if idx < 0 || idx >= cps.len() {
        m
    } else {
        min_at_least(cps, n, idx + 1, if cps[idx] as int >= n && (cps[idx] as int) < m {
            cps[idx] as int
        } else {
            m
        })
    }
}

/// One digit run of the encoder: emits base-36 digits of `q` under the
/// current bias until the threshold ends the run.
pub open spec fn emit_digits(q: int, bias: int, k: int, out: Seq<u8>) -> Seq<u8>
    recommends
        0 <= q,
    decreases q + 1,
    via emit_digits_dec
{
    let t = if k <= bias {
        1int
    } else if k >= bias + 26 {
        26int
    } else {
        k - bias
    };
    if q < t {
        out.push(digit_char(q))
    } else {
        emit_digits((q - t) / (36 - t), bias, k + 36, out.push(digit_char(t + (q - t) % (36 - t))))
    }
}

#[via_fn]
proof fn emit_digits_dec(q: int, bias: int, k: int, out: Seq<u8>) {
    let t = if k <= bias {
        1int
    } else if k >= bias + 26 {
        26int
    } else {
        k - bias
    };
    if q >= t {
        assert(1 <= t <= 26);
        vstd::arithmetic::div_mod::lemma_div_pos_is_pos(q - t, 36 - t);
        if q - t > 0 {
            vstd::arithmetic::div_mod::lemma_div_is_ordered_by_denominator(q - t, 2, 36 - t);
            vstd::arithmetic::div_mod::lemma_div_decreases(q - t, 2);
            assert((q - t) / (36 - t) <= (q - t) / 2);
        } else {
            vstd::arithmetic::div_mod::lemma_div_of0(36 - t);
            assert((q - t) / (36 - t) == 0);
        }
    }
}

/// One pass of the encoder over the whole input at code point `n`:
/// counts up the delta at every smaller value and emits a digit run at
/// every occurrence of `n` itself.
pub open spec fn encode_pass(
    cps: Seq<u32>,
    idx: int,
    n: int,
    d: int,
    bias: int,
    h: int,
    b: int,
    out: Seq<u8>,
) -> Option<(int, int, int, Seq<u8>)>
    decreases cps.len() - idx,
{
    if idx < 0 || idx >= cps.len() {
        Some((d, bias, h, out))
    } else {
        let c = cps[idx] as int;
        if c < n {
            if d == 0x7fffffff {
                None
            } else {
                encode_pass(cps, idx + 1, n, d + 1, bias, h, b, out)
            }
        } else if c == n {
            encode_pass(
                cps,
                idx + 1,
                n,
                0,
                adapt_spec(d, h + 1, h == b),
                h + 1,
                b,
                emit_digits(d, bias, 36, out),
            )
        } else {
            encode_pass(cps, idx + 1, n, d, bias, h, b, out)
        }
    }
}

/// The encoder's outer loop: find the next code point to encode, widen
/// the delta, run one pass, and continue with the following value.
pub open spec fn encode_outer(
    cps: Seq<u32>,
    h: int,
    b: int,
    n: int,
    d: int,
    bias: int,
    out: Seq<u8>,
) -> Option<Seq<u8>>
    decreases cps.len() - h,
{
    if h >= cps.len() {
        Some(out)
    } else {
        let m = min_at_least(cps, n, 0, 0x10FFFF);
        if m < n {
            None
        } else if m - n > (0x7fffffff - d) / (h + 1) {
            None
        } else {
            match encode_pass(cps, 0, m, d + (m - n) * (h + 1), bias, h, b, out) {
                Option::None => None,
                Option::Some(st) => {
                    if st.2 > h && st.2 <= cps.len() && st.0 < 0x7fffffff {
                        encode_outer(cps, st.2, b, m + 1, st.0 + 1, st.1, st.3)
                    } else {
                        None
                    }
                },
            }
        }
    }
}

/// Full encoding of a code-point sequence: reject the `xn--` marker and
/// out-of-range values, emit the basic segment with its delimiter, then
/// encode the rest.
pub open spec fn puny_encode(cps: Seq<u32>) -> Option<Seq<u8>> {
    if cps.len() > 0x10000000 {
        None
    } else if starts_xn_cps(cps) {
        None
    } else if has_bad_cp(cps) {
        None
    } else {
        let basic = basic_of(cps);
        let out0 = if basic.len() > 0 {
            basic.push(0x2D)
        } else {
            basic
        };
        encode_outer(cps, basic.len() as int, basic.len() as int, 128, 0, 72, out0)
    }
}

/// Bound on the remaining digit value after the run has used `k`.
pub open spec fn q_cap(k: int) -> int {
    if k == 36 {
        0x7fffffff
    } else if k == 72 {
        214748364
    } else if k == 108 {
        21474836
    } else if k == 144 {
        2147483
    } else if k == 180 {
        214748
    } else if k == 216 {
        21474
    } else if k == 252 {
        2147
    } else if k == 288 {
        214
    } else if k == 324 {
        21
    } else if k == 360 {
        2
    } else {
        0
    }
}

proof fn lemma_digit_q_step(q: int, t: int, bound: int)
    requires
        1 <= t <= 26,
        t <= q,
        0 <= q <= bound,
    ensures
        0 <= (q - t) / (36 - t) <= bound / 10,
        (q - t) / (36 - t) < q,
{
    vstd::arithmetic::div_mod::lemma_div_pos_is_pos(q - t, 36 - t);
    vstd::arithmetic::div_mod::lemma_div_is_ordered_by_denominator(q - t, 10, 36 - t);
    vstd::arithmetic::div_mod::lemma_div_is_ordered(q - t, bound, 10);
    vstd::arithmetic::div_mod::lemma_div_nonincreasing(q - t, 36 - t);
}

proof fn lemma_count_eq_pref_mono(cps: Seq<u32>, v: int, i: int, j: int)
    requires
        i <= j <= cps.len(),
    ensures
        count_eq_pref(cps, v, i) <= count_eq_pref(cps, v, j),
    decreases j - i,
{
    if i < j {
        lemma_count_eq_pref_mono(cps, v, i, j - 1);
        lemma_count_eq_pref_bounds(cps, v, j - 1);
        lemma_count_eq_pref_bounds(cps, v, j);
    }
}

/// Finds the smallest code point of the input that is at least `n`.
#[verifier::loop_isolation(false)]
fn find_min_ge(input: &[u32], n: u32) -> (m: u32)
    requires
        forall|j: int| 0 <= j < input@.len() ==> !bad_cp(#[trigger] input@[j]),
        exists|i: int| 0 <= i < input@.len() && input@[i] >= n,
    ensures
        m as int == min_at_least(input@, n as int, 0, 0x10FFFF),
        n <= m <= 0x10FFFF,
        exists|i: int| 0 <= i < input@.len() && input@[i] == m,
        forall|j: int| 0 <= j < input@.len() ==> (#[trigger] input@[j] < n || input@[j] >= m),
{
    let len = input.len();
    let mut m: u32 = 0x10FFFF;
    let mut j: usize = 0;
    while j < len
        invariant
            j <= len,
            min_at_least(input@, n as int, 0, 0x10FFFF) == min_at_least(
                input@,
                n as int,
                j as int,
                m as int,
            ),
            m == 0x10FFFF || (n <= m && m < 0x10FFFF),
            m == 0x10FFFF || exists|j0: int| 0 <= j0 < j && input@[j0] == m,
            forall|j0: int| 0 <= j0 < j ==> (#[trigger] input@[j0] < n || input@[j0] >= m),
        decreases len - j,
    {
        let c = input[j];
        if c >= n && c < m {
            m = c;
        }
        j = j + 1;
    }
    proof {
        let wit = choose|i: int| 0 <= i < input@.len() && input@[i] >= n;
        assert(!bad_cp(input@[wit]));
        assert(input@[wit] >= m);
        assert(n <= m);
        assert(exists|i: int| 0 <= i < input@.len() && input@[i] == m) by {
            if m == 0x10FFFF {
                assert(input@[wit] == m);
            }
        }
    }
    m
}

/// Emits the digit run for one delta value `q0` under the given bias.
#[verifier::loop_isolation(false)]
fn emit_digit_run(out: &mut Vec<u8>, q0: i64, bias: i64)
    requires
        0 <= q0 <= 0x7fffffff,
        0 <= bias <= 611,
        forall|j: int| 0 <= j < old(out)@.len() ==> old(out)@[j] < 0x80,
    ensures
        final(out)@ == emit_digits(q0 as int, bias as int, 36, old(out)@),
        forall|j: int| 0 <= j < final(out)@.len() ==> final(out)@[j] < 0x80,
{
    let mut q: i64 = q0;
    let mut k: i64 = 36;
    loop
        invariant
            36 <= k <= 396,
            k % 36 == 0,
            0 <= q <= q_cap(k as int),
            forall|j0: int| 0 <= j0 < out@.len() ==> out@[j0] < 0x80,
            emit_digits(q0 as int, bias as int, 36, old(out)@) == emit_digits(
                q as int,
                bias as int,
                k as int,
                out@,
            ),
        decreases q,
    {
        let t: i64 = if k <= bias {
            1
        } else if k >= bias + 26 {
            26
        } else {
            k - bias
        };
        if q < t {
            out.push(digit_to_char(q));
            return;
        }
        proof {
            vstd::arithmetic::div_mod::lemma_mod_division_less_than_divisor(q - t, 36 - t);
            lemma_digit_q_step(q as int, t as int, q_cap(k as int));
            assert(q_cap(k as int) / 10 <= q_cap(k as int + 36));
        }
        out.push(digit_to_char(t + (q - t) % (36 - t)));
        q = (q - t) / (36 - t);
        k = k + 36;
    }
}

/// One pass of the encoder at code point `m`: mirrors `encode_pass` and
/// reports the updated delta, bias, and count of handled code points.
#[verifier::loop_isolation(false)]
#[verifier::rlimit(100)]
fn encode_pass_exec(
    input: &[u32],
    m: u32,
    d0: i64,
    bias0: i64,
    h0: usize,
    b: usize,
    out: &mut Vec<u8>,
) -> (r: Option<(i64, i64, usize)>)
    requires
        input@.len() <= 0x10000000,
        0 <= d0 <= 0x7fffffff,
        0 <= bias0 <= 611,
        h0 <= input@.len(),
        h0 == count_lt(input@, m as int),
        exists|i: int| 0 <= i < input@.len() && input@[i] == m,
        forall|j: int| 0 <= j < old(out)@.len() ==> old(out)@[j] < 0x80,
    ensures
        match r {
            Some(v) => {
                &&& encode_pass(input@, 0, m as int, d0 as int, bias0 as int, h0 as int, b as int, old(out)@)
                    == Some((v.0 as int, v.1 as int, v.2 as int, final(out)@))
                &&& 0 <= v.0 <= 0x7fffffff
                &&& 0 <= v.1 <= 611
                &&& v.2 == count_lt(input@, m as int + 1)
                &&& h0 < v.2 <= input@.len()
                &&& forall|j: int| 0 <= j < final(out)@.len() ==> final(out)@[j] < 0x80
            },
            None => encode_pass(
                input@,
                0,
                m as int,
                d0 as int,
                bias0 as int,
                h0 as int,
                b as int,
                old(out)@,
            ) is None,
        },
{
    let len = input.len();
    let mut d = d0;
    let mut bias = bias0;
    let mut h = h0;
    let mut idx2: usize = 0;
    while idx2 < len
        invariant
            idx2 <= len,
            0 <= d <= 0x7fffffff,
            0 <= bias <= 611,
            h <= len,
            forall|j0: int| 0 <= j0 < out@.len() ==> out@[j0] < 0x80,
            h == count_lt(input@, m as int) + count_eq_pref(input@, m as int, idx2 as int),
            encode_pass(
                input@,
                0,
                m as int,
                d0 as int,
                bias0 as int,
                h0 as int,
                b as int,
                old(out)@,
            ) == encode_pass(
                input@,
                idx2 as int,
                m as int,
                d as int,
                bias as int,
                h as int,
                b as int,
                out@,
            ),
        decreases len - idx2,
    {
        let c = input[idx2];
        if c < m {
            if d == 0x7fffffff {
                return None;
            }
            d = d + 1;
        } else if c == m {
            proof {
                lemma_count_eq_pref_mono(input@, m as int, idx2 as int + 1, len as int);
                lemma_count_lt_succ(input@, m as int);
                lemma_count_lt_bounds(input@, m as int + 1);
                lemma_count_eq_pref_bounds(input@, m as int, idx2 as int);
                lemma_count_lt_bounds(input@, m as int);
            }
            emit_digit_run(out, d, bias);
            let nbias = adapt(d, h as i64 + 1, h == b);
            bias = nbias;
            d = 0;
            h = h + 1;
        }
        proof {
            assert(count_eq_pref(input@, m as int, idx2 as int + 1) == count_eq_pref(
                input@,
                m as int,
                idx2 as int,
            ) + (if input@[idx2 as int] as int == m as int {
                1int
            } else {
                0int
            }));
        }
        idx2 = idx2 + 1;
    }
    proof {
        lemma_count_lt_succ(input@, m as int);
        lemma_count_lt_bounds(input@, m as int + 1);
        let wit = choose|i: int| 0 <= i < input@.len() && input@[i] == m;
        lemma_count_eq_pref_witness(input@, m as int, len as int, wit);
    }
    Some((d, bias, h))
}

/// Encodes a code-point sequence as Punycode ASCII; `None` exactly when
/// `puny_encode` rejects the input.
#[verifier::loop_isolation(false)]
#[verifier::rlimit(100)]
pub fn utf32_to_punycode(input: &[u32]) -> (r: Option<String>)
    ensures
        match r {
            Some(st) => puny_encode(input@) == Some(vstd::utf8::encode_utf8(st@)),
            None => puny_encode(input@) is None,
        },
{
    let len = input.len();
    if len > 0x10000000 {
        return None;
    }
    if len >= 4 && input[0] == 0x78 && input[1] == 0x6E && input[2] == 0x2D && input[3] == 0x2D {
        proof {
            assert(starts_xn_cps(input@));
        }
        return None;
    }
    let mut out: Vec<u8> = Vec::new();
    let mut h: usize = 0;
    let mut idx: usize = 0;
    while idx < len
        invariant
            idx <= len,
            out@ == basic_of(input@.subrange(0, idx as int)),
            h == out@.len(),
            h <= idx,
            forall|j: int| 0 <= j < idx ==> !bad_cp(#[trigger] input@[j]),
            forall|j: int| 0 <= j < out@.len() ==> out@[j] < 0x80,
        decreases len - idx,
    {
        let c = input[idx];
        if c < 0x80 {
            out.push(c as u8);
            h = h + 1;
        }
        if c > 0x10FFFF || (0xD800 <= c && c < 0xE000) {
            proof {
                assert(bad_cp(input@[idx as int]));
                assert(has_bad_cp(input@));
            }
            return None;
        }
        proof {
            lemma_basic_of_push(input@.subrange(0, idx as int), c);
            assert(input@.subrange(0, idx + 1) =~= input@.subrange(0, idx as int).push(c));
        }
        idx = idx + 1;
    }
    proof {
        assert(input@.subrange(0, len as int) =~= input@);
        assert(!has_bad_cp(input@));
        lemma_basic_of_count(input@);
        lemma_count_lt_bounds(input@, 0x80);
    }
    let b = h;
    if b > 0 {
        out.push(0x2D);
    }
    proof {
        assert(puny_encode(input@) == encode_outer(input@, b as int, b as int, 128, 0, 72, out@));
    }
    let mut n: u32 = 128;
    let mut d: i64 = 0;
    let mut bias: i64 = 72;
    while h < len
        invariant
            h <= len,
            b <= len,
            len == input@.len(),
            forall|j: int| 0 <= j < len ==> !bad_cp(#[trigger] input@[j]),
            128 <= n <= 0x110000,
            0 <= d <= 0x7fffffff,
            0 <= bias <= 611,
            h == count_lt(input@, n as int),
            forall|j: int| 0 <= j < out@.len() ==> out@[j] < 0x80,
            puny_encode(input@) == encode_outer(
                input@,
                h as int,
                b as int,
                n as int,
                d as int,
                bias as int,
                out@,
            ),
        decreases len - h,
    {
        proof {
            lemma_count_lt_exists_ge(input@, n as int);
            let wit = choose|i: int| 0 <= i < input@.len() && input@[i] as int >= n as int;
            assert(input@[wit] >= n);
        }
        let m = find_min_ge(input, n);
        let hp1: i64 = h as i64 + 1;
        let mn: i64 = (m - n) as i64;
        if mn > (0x7fffffff - d) / hp1 {
            return None;
        }
        proof {
            lemma_mul_div_le(mn as int, hp1 as int, 0x7fffffff - d);
            lemma_count_lt_gap(input@, n as int, m as int);
        }
        let d1 = d + mn * hp1;
        let ghost out_in = out@;
        match encode_pass_exec(input, m, d1, bias, h, b, &mut out) {
            None => {
                return None;
            },
            Some((d2, bias2, h2)) => {
                if d2 == 0x7fffffff {
                    return None;
                }
                proof {
                    lemma_count_lt_succ(input@, m as int);
                }
                d = d2 + 1;
                bias = bias2;
                h = h2;
                n = m + 1;
            },
        }
    }
    proof {
        assert(encode_outer(input@, h as int, b as int, n as int, d as int, bias as int, out@)
            == Some(out@));
        crate::unicode::lemma_ascii_valid_utf8(out@);
        vstd::utf8::decode_utf8_encode_utf8(out@);
    }
    let ghost outg = out@;
    let st = crate::unicode::string_from_utf8_bytes(out);
    proof {
        assert(vstd::utf8::encode_utf8(st@) == outg);
    }
    Some(st)
}
/// A byte the encoder may emit: hyphen, digit, or lower-case letter.
pub open spec fn puny_byte(b: u8) -> bool {
    b == 0x2D || (0x30 <= b && b <= 0x39) || (0x61 <= b && b <= 0x7A)
}

/// A digit byte: what a variable-length integer run is made of.
pub open spec fn puny_digit_byte(b: u8) -> bool {
    (0x30 <= b && b <= 0x39) || (0x61 <= b && b <= 0x7A)
}

proof fn lemma_emit_digits_bytes(q: int, bias: int, k: int, out: Seq<u8>)
    requires
        0 <= q,
    ensures
        ({
            let r = emit_digits(q, bias, k, out);
            &&& r.len() > out.len()
            &&& forall|j: int| 0 <= j < out.len() ==> #[trigger] r[j] == out[j]
            &&& forall|j: int| out.len() <= j < r.len() ==> puny_digit_byte(#[trigger] r[j])
            &&& puny_digit_byte(r.last())
        }),
    decreases q + 1,
{
    let t = if k <= bias {
        1int
    } else if k >= bias + 26 {
        26int
    } else {
        k - bias
    };
    if q < t {
        lemma_digit_char(q);
    } else {
        vstd::arithmetic::div_mod::lemma_mod_division_less_than_divisor(q - t, 36 - t);
        lemma_digit_char(t + (q - t) % (36 - t));
        vstd::arithmetic::div_mod::lemma_div_pos_is_pos(q - t, 36 - t);
        vstd::arithmetic::div_mod::lemma_div_nonincreasing(q - t, 36 - t);
        lemma_emit_digits_bytes(
            (q - t) / (36 - t),
            bias,
            k + 36,
            out.push(digit_char(t + (q - t) % (36 - t))),
        );
    }
}

proof fn lemma_encode_pass_bytes(
    cps: Seq<u32>,
    idx: int,
    n: int,
    d: int,
    bias: int,
    h: int,
    b: int,
    out: Seq<u8>,
)
    requires
        encode_pass(cps, idx, n, d, bias, h, b, out) is Some,
        0 <= d,
    ensures
        ({
            let st = encode_pass(cps, idx, n, d, bias, h, b, out)->0;
            &&& st.3.len() >= out.len()
            &&& forall|j: int| 0 <= j < out.len() ==> #[trigger] st.3[j] == out[j]
            &&& forall|j: int| out.len() <= j < st.3.len() ==> puny_digit_byte(#[trigger] st.3[j])
            &&& st.2 >= h
            &&& (st.2 > h ==> st.3.len() > out.len() && puny_digit_byte(st.3.last()))
            &&& st.0 >= 0
        }),
    decreases cps.len() - idx,
{
    if idx < 0 || idx >= cps.len() {
    } else {
        let c = cps[idx] as int;
        if c < n {
            if d == 0x7fffffff {
            } else {
                lemma_encode_pass_bytes(cps, idx + 1, n, d + 1, bias, h, b, out);
            }
        } else if c == n {
            let out2 = emit_digits(d, bias, 36, out);
            lemma_emit_digits_bytes(d, bias, 36, out);
            lemma_encode_pass_bytes(
                cps,
                idx + 1,
                n,
                0,
                adapt_spec(d, h + 1, h == b),
                h + 1,
                b,
                out2,
            );
            let st = encode_pass(cps, idx, n, d, bias, h, b, out)->0;
            assert(st.3.len() >= out2.len());
            if st.2 == h + 1 && st.3.len() == out2.len() {
                assert(st.3.last() == out2.last()) by {
                    assert(st.3[st.3.len() - 1] == out2[out2.len() - 1]);
                }
            }
        } else {
            lemma_encode_pass_bytes(cps, idx + 1, n, d, bias, h, b, out);
        }
    }
}

proof fn lemma_encode_outer_bytes(
    cps: Seq<u32>,
    h: int,
    b: int,
    n: int,
    d: int,
    bias: int,
    out: Seq<u8>,
)
    requires
        encode_outer(cps, h, b, n, d, bias, out) is Some,
        0 <= d,
        0 <= h,
    ensures
        ({
            let o = encode_outer(cps, h, b, n, d, bias, out)->0;
            &&& o.len() >= out.len()
            &&& forall|j: int| 0 <= j < out.len() ==> #[trigger] o[j] == out[j]
            &&& forall|j: int| out.len() <= j < o.len() ==> puny_digit_byte(#[trigger] o[j])
            &&& (h < cps.len() ==> o.len() > out.len() && puny_digit_byte(o.last()))
        }),
    decreases cps.len() - h,
{
    if h >= cps.len() {
    } else {
        let m = min_at_least(cps, n, 0, 0x10FFFF);
        let d2 = d + (m - n) * (h + 1);
        vstd::arithmetic::mul::lemma_mul_nonnegative(m - n, h + 1);
        lemma_encode_pass_bytes(cps, 0, m, d2, bias, h, b, out);
        let st = encode_pass(cps, 0, m, d2, bias, h, b, out)->0;
        lemma_encode_outer_bytes(cps, st.2, b, m + 1, st.0 + 1, st.1, st.3);
        let o = encode_outer(cps, h, b, n, d, bias, out)->0;
        if st.2 >= cps.len() {
            assert(o == st.3);
        } else {
            assert(o.len() > st.3.len());
        }
        assert(st.3.len() > out.len());
        if o.len() == st.3.len() {
            assert(o.last() == st.3.last()) by {
                assert(o[o.len() - 1] == st.3[st.3.len() - 1]);
            }
        }
    }
}

proof fn lemma_basic_of_bytes(cps: Seq<u32>)
    requires
        forall|j: int|
            0 <= j < cps.len() ==> ((#[trigger] cps[j]) < 0x80 ==> puny_byte(cps[j] as u8)),
    ensures
        forall|j: int| 0 <= j < basic_of(cps).len() ==> puny_byte(#[trigger] basic_of(cps)[j]),
    decreases cps.len(),
{
    if cps.len() == 0 {
    } else {
        assert(forall|j: int|
            0 <= j < cps.drop_first().len() ==> cps.drop_first()[j] == cps[j + 1]);
        lemma_basic_of_bytes(cps.drop_first());
        assert forall|j: int| 0 <= j < basic_of(cps).len() implies puny_byte(
            #[trigger] basic_of(cps)[j],
        ) by {
            if cps[0] < 0x80 {
                if j > 0 {
                    assert(basic_of(cps)[j] == basic_of(cps.drop_first())[j - 1]);
                }
            } else {
                assert(basic_of(cps)[j] == basic_of(cps.drop_first())[j]);
            }
        }
    }
}

proof fn lemma_count_lt_wit(cps: Seq<u32>, v: int, w: int)
    requires
        0 <= w < cps.len(),
        cps[w] as int >= v,
    ensures
        count_lt(cps, v) < cps.len(),
    decreases cps.len(),
{
    lemma_count_lt_bounds(cps, v);
    if w == 0 {
        lemma_count_lt_bounds(cps.drop_first(), v);
    } else {
        assert(cps.drop_first()[w - 1] == cps[w]);
        lemma_count_lt_wit(cps.drop_first(), v, w - 1);
    }
}

/// Shape of a successful encoding when every code point below 0x80 is a
/// hyphen, digit, or lower-case letter: every output byte is such a
/// byte too, and when some code point needed encoding the output is
/// non-empty and ends with a digit byte, never with a hyphen.
pub proof fn lemma_puny_encode_bytes(cps: Seq<u32>)
    requires
        puny_encode(cps) is Some,
        forall|j: int|
            0 <= j < cps.len() ==> ((#[trigger] cps[j]) < 0x80 ==> puny_byte(cps[j] as u8)),
    ensures
        ({
            let enc = puny_encode(cps)->0;
            &&& forall|j: int| 0 <= j < enc.len() ==> puny_byte(#[trigger] enc[j])
            &&& ((exists|i: int| 0 <= i < cps.len() && cps[i] >= 0x80) ==> enc.len() > 0
                && puny_digit_byte(enc.last()))
        }),
{
    let basic = basic_of(cps);
    let bl = basic.len() as int;
    let out0 = if basic.len() > 0 {
        basic.push(0x2D)
    } else {
        basic
    };
    lemma_basic_of_bytes(cps);
    assert(forall|j: int| 0 <= j < out0.len() ==> puny_byte(#[trigger] out0[j]));
    lemma_encode_outer_bytes(cps, bl, bl, 128, 0, 72, out0);
    let enc = puny_encode(cps)->0;
    assert forall|j: int| 0 <= j < enc.len() implies puny_byte(#[trigger] enc[j]) by {
        if j >= out0.len() {
            assert(puny_digit_byte(enc[j]));
        } else {
            assert(enc[j] == out0[j]);
        }
    }
    if exists|i: int| 0 <= i < cps.len() && cps[i] >= 0x80 {
        let w = choose|i: int| 0 <= i < cps.len() && cps[i] >= 0x80;
        lemma_basic_of_count(cps);
        lemma_count_lt_wit(cps, 0x80, w);
        assert(bl < cps.len());
    }
}

proof fn lemma_read_vli_digits(ext: Seq<u8>, pos: int, i: int, w: int, k: int, bias: int)
    ensures
        read_vli(ext, pos, i, w, k, bias) matches Some(r) ==> forall|j: int|
            pos <= j < r.1 ==> digit_val(#[trigger] ext[j]) >= 0,
    decreases ext.len() - pos,
{
    if pos < 0 || pos >= ext.len() {
    } else {
        let digit = digit_val(ext[pos]);
        let t = if k <= bias {
            1int
        } else if k >= bias + 26 {
            26int
        } else {
            k - bias
        };
        lemma_read_vli_digits(ext, pos + 1, i + digit * w, w * (36 - t), k + 36, bias);
        lemma_read_vli_pos(ext, pos, i, w, k, bias);
    }
}

proof fn lemma_decode_loop_facts(
    ext: Seq<u8>,
    pos: int,
    out: Seq<u32>,
    n: int,
    i: int,
    bias: int,
)
    requires
        pos >= 0,
    ensures
        decode_loop(ext, pos, out, n, i, bias) matches Some(v) ==> {
            &&& forall|j: int| pos <= j < ext.len() ==> digit_val(#[trigger] ext[j]) >= 0
            &&& forall|x: u32| out.contains(x) ==> v.contains(x)
        },
    decreases ext.len() - pos,
{
    if pos < 0 || pos >= ext.len() {
    } else {
        match read_vli(ext, pos, i, 1, 36, bias) {
            Option::None => {},
            Option::Some(r) => {
                let i2 = r.0;
                let pos2 = r.1;
                lemma_read_vli_pos(ext, pos, i, 1, 36, bias);
                lemma_read_vli_digits(ext, pos, i, 1, 36, bias);
                let bias2 = adapt_spec(i2 - i, out.len() as int + 1, i == 0);
                if i2 / (out.len() as int + 1) > 0x7fffffff - n {
                } else {
                    let n2 = n + i2 / (out.len() as int + 1);
                    let i3 = i2 % (out.len() as int + 1);
                    if n2 < 0x80 {
                    } else {
                        let out2 = out.insert(i3, n2 as u32);
                        vstd::arithmetic::div_mod::lemma_mod_division_less_than_divisor(
                            i2,
                            out.len() as int + 1,
                        );
                        lemma_decode_loop_facts(ext, pos2, out2, n2, i3 + 1, bias2);
                        assert forall|x: u32| out.contains(x) implies out2.contains(x) by {
                            let idx = choose|ii: int| 0 <= ii < out.len() && out[ii] == x;
                            if idx < i3 {
                                assert(out2[idx] == x);
                            } else {
                                assert(out2[idx + 1] == x);
                            }
                        }
                    }
                }
            },
        }
    }
}

/// Shape of a successfully decoded Punycode byte string: everything
/// before the delimiting hyphen is ASCII and appears among the decoded
/// code points, and everything after it is a digit byte.
pub proof fn lemma_puny_decode_bytes(b: Seq<u8>)
    requires
        puny_decode(b) is Some,
    ensures
        ({
            let v = puny_decode(b)->0;
            let dash = rlast_dash(b);
            &&& -1 <= dash < b.len()
            &&& (dash >= 0 ==> b[dash] == 0x2D)
            &&& forall|j: int|
                0 <= j < dash ==> #[trigger] b[j] < 0x80 && v.contains(b[j] as u32)
            &&& forall|j: int| dash < j < b.len() ==> digit_val(#[trigger] b[j]) >= 0
        }),
{
    let v = puny_decode(b)->0;
    let dash = rlast_dash(b);
    lemma_rlast_dash_range(b);
    let basic = if dash >= 0 {
        b.subrange(0, dash)
    } else {
        Seq::<u8>::empty()
    };
    let ext = if dash >= 0 {
        b.subrange(dash + 1, b.len() as int)
    } else {
        b
    };
    let out0 = basic.map(|_i: int, x: u8| x as u32);
    lemma_decode_loop_facts(ext, 0, out0, 128, 0, 72);
    assert forall|j: int| 0 <= j < dash implies #[trigger] b[j] < 0x80 && v.contains(
        b[j] as u32,
    ) by {
        assert(basic[j] == b[j]);
        assert(!(basic[j] >= 0x80));
        assert(out0[j] == b[j] as u32);
        assert(out0.contains(b[j] as u32));
    }
    assert forall|j: int| dash < j < b.len() implies digit_val(#[trigger] b[j]) >= 0 by {
        assert(ext[j - dash - 1] == b[j]);
    }
}

proof fn lemma_basic_of_ascii(cps: Seq<u32>)
    requires
        forall|i: int| 0 <= i < cps.len() ==> #[trigger] cps[i] < 0x80,
    ensures
        basic_of(cps).len() == cps.len(),
        forall|i: int| 0 <= i < cps.len() ==> #[trigger] basic_of(cps)[i] == cps[i] as u8,
    decreases cps.len(),
{
    if cps.len() == 0 {
    } else {
        assert(forall|i: int|
            0 <= i < cps.drop_first().len() ==> cps.drop_first()[i] == cps[i + 1]);
        lemma_basic_of_ascii(cps.drop_first());
        assert forall|i: int| 0 <= i < cps.len() implies #[trigger] basic_of(cps)[i] == cps[
        i] as u8 by {
            if i > 0 {
                assert(basic_of(cps)[i] == basic_of(cps.drop_first())[i - 1]);
            }
        }
    }
}

/// Round trip on the basic segment: a sequence of ASCII code points
/// that the encoder accepts decodes back from its encoding unchanged.
/// The one exception is the three code points spelling `xn-`, whose
/// encoding gains a delimiting hyphen and so collides with the rejected
/// `xn--` marker.
pub proof fn lemma_puny_round_trip_basic(cps: Seq<u32>)
    requires
        puny_encode(cps) is Some,
        forall|i: int| 0 <= i < cps.len() ==> #[trigger] cps[i] < 0x80,
        !(cps.len() == 3 && cps[0] == 0x78 && cps[1] == 0x6E && cps[2] == 0x2D),
    ensures
        puny_decode(puny_encode(cps)->0) == Some(cps),
{
    let basic = basic_of(cps);
    lemma_basic_of_ascii(cps);
    lemma_basic_of_count(cps);
    let out0 = if basic.len() > 0 {
        basic.push(0x2D)
    } else {
        basic
    };
    assert(puny_encode(cps)->0 == out0) by {
        lemma_count_lt_bounds(cps, 0x80);
        assert(count_lt(cps, 0x80) == cps.len()) by {
            if count_lt(cps, 0x80) < cps.len() {
                lemma_count_lt_exists_ge(cps, 0x80);
            }
        }
        assert(encode_outer(cps, basic.len() as int, basic.len() as int, 128, 0, 72, out0)
            == Some(out0));
    }
    if cps.len() == 0 {
        assert(out0.len() == 0);
        assert(rlast_dash(out0) == -1);
        assert(puny_decode(out0) == Some(Seq::<u32>::empty()));
        assert(cps =~= Seq::<u32>::empty());
    } else {
        assert(out0.len() == cps.len() + 1);
        assert(out0.last() == 0x2D);
        assert(rlast_dash(out0) == out0.len() - 1);
        assert(!starts_xn(out0)) by {
            if starts_xn(out0) {
                if cps.len() == 3 {
                    assert(out0[0] == cps[0] as u8 && out0[1] == cps[1] as u8 && out0[2] == cps[
                    2] as u8);
                    assert(cps[0] == 0x78 && cps[1] == 0x6E && cps[2] == 0x2D);
                } else {
                    assert(cps.len() >= 4);
                    assert(out0[0] == cps[0] as u8 && out0[1] == cps[1] as u8 && out0[2] == cps[
                    2] as u8 && out0[3] == cps[3] as u8);
                    assert(starts_xn_cps(cps));
                }
            }
        }
        let dash = rlast_dash(out0);
        let basic2 = out0.subrange(0, dash);
        let ext = out0.subrange(dash + 1, out0.len() as int);
        assert(basic2 =~= basic);
        assert(ext.len() == 0);
        assert(!has_high_byte(basic2)) by {
            if has_high_byte(basic2) {
                let w = choose|j: int| 0 <= j < basic2.len() && basic2[j] >= 0x80;
                assert(basic2[w] == cps[w] as u8);
            }
        }
        assert(decode_loop(ext, 0, basic2.map(|_i: int, x: u8| x as u32), 128, 0, 72) == Some(
            basic2.map(|_i: int, x: u8| x as u32),
        ));
        assert(basic2.map(|_i: int, x: u8| x as u32) =~= cps);
    }
}

} // verus!
