//! Unicode data for NFC normalization: canonical combining classes,
//! transitively expanded canonical decompositions, and primary
//! composition pairs, derived from the Unicode Character Database.
//! Each table is a pair of functions, one for contracts and one
//! executable, that dispatch on code-point ranges; Hangul syllables are
//! handled algorithmically by the normalizer and have no entries here.
use vstd::prelude::*;

verus! {

pub const HANGUL_SBASE: u32 = 0xAC00;

pub const HANGUL_LBASE: u32 = 0x1100;

pub const HANGUL_VBASE: u32 = 0x1161;

pub const HANGUL_TBASE: u32 = 0x11A7;

pub const HANGUL_SCOUNT: u32 = 11172;

pub const HANGUL_LCOUNT: u32 = 19;

pub const HANGUL_VCOUNT: u32 = 21;

pub const HANGUL_TCOUNT: u32 = 28;

pub const HANGUL_NCOUNT: u32 = 588;

/// Canonical combining class of a code point; 0 for starters.
pub open spec fn ccc_of(cp: u32) -> u8 {
    if 0x300 <= cp && cp <= 0x314 {
        230
    } else if cp == 0x315 {
        232
    } else if 0x316 <= cp && cp <= 0x319 {
        220
    } else if cp == 0x31a {
        232
    } else if cp == 0x31b {
        216
    } else if 0x31c <= cp && cp <= 0x320 {
        220
    } else if 0x321 <= cp && cp <= 0x322 {
        202
    } else if 0x323 <= cp && cp <= 0x326 {
        220
    } else if 0x327 <= cp && cp <= 0x328 {
        202
    } else if 0x329 <= cp && cp <= 0x333 {
        220
    } else if 0x334 <= cp && cp <= 0x338 {
        1
    } else if 0x339 <= cp && cp <= 0x33c {
        220
    } else if 0x33d <= cp && cp <= 0x344 {
        230
    } else if cp == 0x345 {
        240
    } else if cp == 0x346 {
        230
    } else if 0x347 <= cp && cp <= 0x349 {
        220
    } else if 0x34a <= cp && cp <= 0x34c {
        230
    } else if 0x34d <= cp && cp <= 0x34e {
        220
    } else if 0x350 <= cp && cp <= 0x352 {
        230
    } else if 0x353 <= cp && cp <= 0x356 {
        220
    } else if cp == 0x357 {
        230
    } else if cp == 0x358 {
        232
    } else if 0x359 <= cp && cp <= 0x35a {
        220
    } else if cp == 0x35b {
        230
    } else if cp == 0x35c {
        233
    } else if 0x35d <= cp && cp <= 0x35e {
        234
    } else if cp == 0x35f {
        233
    } else if 0x360 <= cp && cp <= 0x361 {
        234
    } else if cp == 0x362 {
        233
    } else if 0x363 <= cp && cp <= 0x36f {
        230
    } else if 0x483 <= cp && cp <= 0x487 {
        230
    } else if cp == 0x591 {
        220
    } else if 0x592 <= cp && cp <= 0x595 {
        230
    } else if cp == 0x596 {
        220
    } else if 0x597 <= cp && cp <= 0x599 {
        230
    } else if cp == 0x59a {
        222
    } else if cp == 0x59b {
        220
    } else if 0x59c <= cp && cp <= 0x5a1 {
        230
    } else if 0x5a2 <= cp && cp <= 0x5a7 {
        220
    } else if 0x5a8 <= cp && cp <= 0x5a9 {
        230
    } else if cp == 0x5aa {
        220
    } else if 0x5ab <= cp && cp <= 0x5ac {
        230
    } else if cp == 0x5ad {
        222
    } else if cp == 0x5ae {
        228
    } else if cp == 0x5af {
        230
    } else if cp == 0x5b0 {
        10
    } else if cp == 0x5b1 {
        11
    } else if cp == 0x5b2 {
        12
    } else if cp == 0x5b3 {
        13
    } else if cp == 0x5b4 {
        14
    } else if cp == 0x5b5 {
        15
    } else if cp == 0x5b6 {
        16
    } else if cp == 0x5b7 {
        17
    } else if cp == 0x5b8 {
        18
    } else if 0x5b9 <= cp && cp <= 0x5ba {
        19
    } else if cp == 0x5bb {
        20
    } else if cp == 0x5bc {
        21
    } else if cp == 0x5bd {
        22
    } else if cp == 0x5bf {
        23
    } else if cp == 0x5c1 {
        24
    } else if cp == 0x5c2 {
        25
    } else if cp == 0x5c4 {
        230
    } else if cp == 0x5c5 {
        220
    } else if cp == 0x5c7 {
        18
    } else if 0x610 <= cp && cp <= 0x617 {
        230
    } else if cp == 0x618 {
        30
    } else if cp == 0x619 {
        31
    } else if cp == 0x61a {
        32
    } else if cp == 0x64b {
        27
    } else if cp == 0x64c {
        28
    } else if cp == 0x64d {
        29
    } else if cp == 0x64e {
        30
    } else if cp == 0x64f {
        31
    } else if cp == 0x650 {
        32
    } else if cp == 0x651 {
        33
    } else if cp == 0x652 {
        34
    } else if 0x653 <= cp && cp <= 0x654 {
        230
    } else if 0x655 <= cp && cp <= 0x656 {
        220
    } else if 0x657 <= cp && cp <= 0x65b {
        230
    } else if cp == 0x65c {
        220
    } else if 0x65d <= cp && cp <= 0x65e {
        230
    } else if cp == 0x65f {
        220
    } else if cp == 0x670 {
        35
    } else if 0x6d6 <= cp && cp <= 0x6dc {
        230
    } else if 0x6df <= cp && cp <= 0x6e2 {
        230
    } else if cp == 0x6e3 {
        220
    } else if cp == 0x6e4 {
        230
    } else if 0x6e7 <= cp && cp <= 0x6e8 {
        230
    } else if cp == 0x6ea {
        220
    } else if 0x6eb <= cp && cp <= 0x6ec {
        230
    } else if cp == 0x6ed {
        220
    } else if cp == 0x711 {
        36
    } else if cp == 0x730 {
        230
    } else if cp == 0x731 {
        220
    } else if 0x732 <= cp && cp <= 0x733 {
        230
    } else if cp == 0x734 {
        220
    } else if 0x735 <= cp && cp <= 0x736 {
        230
    } else if 0x737 <= cp && cp <= 0x739 {
        220
    } else if cp == 0x73a {
        230
    } else if 0x73b <= cp && cp <= 0x73c {
        220
    } else if cp == 0x73d {
        230
    } else if cp == 0x73e {
        220
    } else if 0x73f <= cp && cp <= 0x741 {
        230
    } else if cp == 0x742 {
        220
    } else if cp == 0x743 {
        230
    } else if cp == 0x744 {
        220
    } else if cp == 0x745 {
        230
    } else if cp == 0x746 {
        220
    } else if cp == 0x747 {
        230
    } else if cp == 0x748 {
        220
    } else if 0x749 <= cp && cp <= 0x74a {
        230
    } else if 0x7eb <= cp && cp <= 0x7f1 {
        230
    } else if cp == 0x7f2 {
        220
    } else if cp == 0x7f3 {
        230
    } else if cp == 0x7fd {
        220
    } else if 0x816 <= cp && cp <= 0x819 {
        230
    } else if 0x81b <= cp && cp <= 0x823 {
        230
    } else if 0x825 <= cp && cp <= 0x827 {
        230
    } else if 0x829 <= cp && cp <= 0x82d {
        230
    } else if 0x859 <= cp && cp <= 0x85b {
        220
    } else if cp == 0x898 {
        230
    } else if 0x899 <= cp && cp <= 0x89b {
        220
    } else if 0x89c <= cp && cp <= 0x89f {
        230
    } else if 0x8ca <= cp && cp <= 0x8ce {
        230
    } else if 0x8cf <= cp && cp <= 0x8d3 {
        220
    } else if 0x8d4 <= cp && cp <= 0x8e1 {
        230
    } else if cp == 0x8e3 {
        220
    } else if 0x8e4 <= cp && cp <= 0x8e5 {
        230
    } else if cp == 0x8e6 {
        220
    } else if 0x8e7 <= cp && cp <= 0x8e8 {
        230
    } else if cp == 0x8e9 {
        220
    } else if 0x8ea <= cp && cp <= 0x8ec {
        230
    } else if 0x8ed <= cp && cp <= 0x8ef {
        220
    } else if cp == 0x8f0 {
        27
    } else if cp == 0x8f1 {
        28
    } else if cp == 0x8f2 {
        29
    } else if 0x8f3 <= cp && cp <= 0x8f5 {
        230
    } else if cp == 0x8f6 {
        220
    } else if 0x8f7 <= cp && cp <= 0x8f8 {
        230
    } else if 0x8f9 <= cp && cp <= 0x8fa {
        220
    } else if 0x8fb <= cp && cp <= 0x8ff {
        230
    } else if cp == 0x93c {
        7
    } else if cp == 0x94d {
        9
    } else if cp == 0x951 {
        230
    } else if cp == 0x952 {
        220
    } else if 0x953 <= cp && cp <= 0x954 {
        230
    } else if cp == 0x9bc {
        7
    } else if cp == 0x9cd {
        9
    } else if cp == 0x9fe {
        230
    } else if cp == 0xa3c {
        7
    } else if cp == 0xa4d {
        9
    } else if cp == 0xabc {
        7
    } else if cp == 0xacd {
        9
    } else if cp == 0xb3c {
        7
    } else if cp == 0xb4d {
        9
    } else if cp == 0xbcd {
        9
    } else if cp == 0xc3c {
        7
    } else if cp == 0xc4d {
        9
    } else if cp == 0xc55 {
        84
    } else if cp == 0xc56 {
        91
    } else if cp == 0xcbc {
        7
    } else if cp == 0xccd {
        9
    } else if 0xd3b <= cp && cp <= 0xd3c {
        9
    } else if cp == 0xd4d {
        9
    } else if cp == 0xdca {
        9
    } else if 0xe38 <= cp && cp <= 0xe39 {
        103
    } else if cp == 0xe3a {
        9
    } else if 0xe48 <= cp && cp <= 0xe4b {
        107
    } else if 0xeb8 <= cp && cp <= 0xeb9 {
        118
    } else if cp == 0xeba {
        9
    } else if 0xec8 <= cp && cp <= 0xecb {
        122
    } else if 0xf18 <= cp && cp <= 0xf19 {
        220
    } else if cp == 0xf35 {
        220
    } else if cp == 0xf37 {
        220
    } else if cp == 0xf39 {
        216
    } else if cp == 0xf71 {
        129
    } else if cp == 0xf72 {
        130
    } else if cp == 0xf74 {
        132
    } else if 0xf7a <= cp && cp <= 0xf7d {
        130
    } else if cp == 0xf80 {
        130
    } else if 0xf82 <= cp && cp <= 0xf83 {
        230
    } else if cp == 0xf84 {
        9
    } else if 0xf86 <= cp && cp <= 0xf87 {
        230
    } else if cp == 0xfc6 {
        220
    } else if cp == 0x1037 {
        7
    } else if 0x1039 <= cp && cp <= 0x103a {
        9
    } else if cp == 0x108d {
        220
    } else if 0x135d <= cp && cp <= 0x135f {
        230
    } else if 0x1714 <= cp && cp <= 0x1715 {
        9
    } else if cp == 0x1734 {
        9
    } else if cp == 0x17d2 {
        9
    } else if cp == 0x17dd {
        230
    } else if cp == 0x18a9 {
        228
    } else if cp == 0x1939 {
        222
    } else if cp == 0x193a {
        230
    } else if cp == 0x193b {
        220
    } else if cp == 0x1a17 {
        230
    } else if cp == 0x1a18 {
        220
    } else if cp == 0x1a60 {
        9
    } else if 0x1a75 <= cp && cp <= 0x1a7c {
        230
    } else if cp == 0x1a7f {
        220
    } else if 0x1ab0 <= cp && cp <= 0x1ab4 {
        230
    } else if 0x1ab5 <= cp && cp <= 0x1aba {
        220
    } else if 0x1abb <= cp && cp <= 0x1abc {
        230
    } else if cp == 0x1abd {
        220
    } else if 0x1abf <= cp && cp <= 0x1ac0 {
        220
    } else if 0x1ac1 <= cp && cp <= 0x1ac2 {
        230
    } else if 0x1ac3 <= cp && cp <= 0x1ac4 {
        220
    } else if 0x1ac5 <= cp && cp <= 0x1ac9 {
        230
    } else if cp == 0x1aca {
        220
    } else if 0x1acb <= cp && cp <= 0x1ace {
        230
    } else if cp == 0x1b34 {
        7
    } else if cp == 0x1b44 {
        9
    } else if cp == 0x1b6b {
        230
    } else if cp == 0x1b6c {
        220
    } else if 0x1b6d <= cp && cp <= 0x1b73 {
        230
    } else if 0x1baa <= cp && cp <= 0x1bab {
        9
    } else if cp == 0x1be6 {
        7
    } else if 0x1bf2 <= cp && cp <= 0x1bf3 {
        9
    } else if cp == 0x1c37 {
        7
    } else if 0x1cd0 <= cp && cp <= 0x1cd2 {
        230
    } else if cp == 0x1cd4 {
        1
    } else if 0x1cd5 <= cp && cp <= 0x1cd9 {
        220
    } else if 0x1cda <= cp && cp <= 0x1cdb {
        230
    } else if 0x1cdc <= cp && cp <= 0x1cdf {
        220
    } else if cp == 0x1ce0 {
        230
    } else if 0x1ce2 <= cp && cp <= 0x1ce8 {
        1
    } else if cp == 0x1ced {
        220
    } else if cp == 0x1cf4 {
        230
    } else if 0x1cf8 <= cp && cp <= 0x1cf9 {
        230
    } else if 0x1dc0 <= cp && cp <= 0x1dc1 {
        230
    } else if cp == 0x1dc2 {
        220
    } else if 0x1dc3 <= cp && cp <= 0x1dc9 {
        230
    } else if cp == 0x1dca {
        220
    } else if 0x1dcb <= cp && cp <= 0x1dcc {
        230
    } else if cp == 0x1dcd {
        234
    } else if cp == 0x1dce {
        214
    } else if cp == 0x1dcf {
        220
    } else if cp == 0x1dd0 {
        202
    } else if 0x1dd1 <= cp && cp <= 0x1df5 {
        230
    } else if cp == 0x1df6 {
        232
    } else if 0x1df7 <= cp && cp <= 0x1df8 {
        228
    } else if cp == 0x1df9 {
        220
    } else if cp == 0x1dfa {
        218
    } else if cp == 0x1dfb {
        230
    } else if cp == 0x1dfc {
        233
    } else if cp == 0x1dfd {
        220
    } else if cp == 0x1dfe {
        230
    } else if cp == 0x1dff {
        220
    } else if 0x20d0 <= cp && cp <= 0x20d1 {
        230
    } else if 0x20d2 <= cp && cp <= 0x20d3 {
        1
    } else if 0x20d4 <= cp && cp <= 0x20d7 {
        230
    } else if 0x20d8 <= cp && cp <= 0x20da {
        1
    } else if 0x20db <= cp && cp <= 0x20dc {
        230
    } else if cp == 0x20e1 {
        230
    } else if 0x20e5 <= cp && cp <= 0x20e6 {
        1
    } else if cp == 0x20e7 {
        230
    } else if cp == 0x20e8 {
        220
    } else if cp == 0x20e9 {
        230
    } else if 0x20ea <= cp && cp <= 0x20eb {
        1
    } else if 0x20ec <= cp && cp <= 0x20ef {
        220
    } else if cp == 0x20f0 {
        230
    } else if 0x2cef <= cp && cp <= 0x2cf1 {
        230
    } else if cp == 0x2d7f {
        9
    } else if 0x2de0 <= cp && cp <= 0x2dff {
        230
    } else if cp == 0x302a {
        218
    } else if cp == 0x302b {
        228
    } else if cp == 0x302c {
        232
    } else if cp == 0x302d {
        222
    } else if 0x302e <= cp && cp <= 0x302f {
        224
    } else if 0x3099 <= cp && cp <= 0x309a {
        8
    } else if cp == 0xa66f {
        230
    } else if 0xa674 <= cp && cp <= 0xa67d {
        230
    } else if 0xa69e <= cp && cp <= 0xa69f {
        230
    } else if 0xa6f0 <= cp && cp <= 0xa6f1 {
        230
    } else if cp == 0xa806 {
        9
    } else if cp == 0xa82c {
        9
    } else if cp == 0xa8c4 {
        9
    } else if 0xa8e0 <= cp && cp <= 0xa8f1 {
        230
    } else if 0xa92b <= cp && cp <= 0xa92d {
        220
    } else if cp == 0xa953 {
        9
    } else if cp == 0xa9b3 {
        7
    } else if cp == 0xa9c0 {
        9
    } else if cp == 0xaab0 {
        230
    } else if 0xaab2 <= cp && cp <= 0xaab3 {
        230
    } else if cp == 0xaab4 {
        220
    } else if 0xaab7 <= cp && cp <= 0xaab8 {
        230
    } else if 0xaabe <= cp && cp <= 0xaabf {
        230
    } else if cp == 0xaac1 {
        230
    } else if cp == 0xaaf6 {
        9
    } else if cp == 0xabed {
        9
    } else if cp == 0xfb1e {
        26
    } else if 0xfe20 <= cp && cp <= 0xfe26 {
        230
    } else if 0xfe27 <= cp && cp <= 0xfe2d {
        220
    } else if 0xfe2e <= cp && cp <= 0xfe2f {
        230
    } else if cp == 0x101fd {
        220
    } else if cp == 0x102e0 {
        220
    } else if 0x10376 <= cp && cp <= 0x1037a {
        230
    } else if cp == 0x10a0d {
        220
    } else if cp == 0x10a0f {
        230
    } else if cp == 0x10a38 {
        230
    } else if cp == 0x10a39 {
        1
    } else if cp == 0x10a3a {
        220
    } else if cp == 0x10a3f {
        9
    } else if cp == 0x10ae5 {
        230
    } else if cp == 0x10ae6 {
        220
    } else if 0x10d24 <= cp && cp <= 0x10d27 {
        230
    } else if 0x10eab <= cp && cp <= 0x10eac {
        230
    } else if 0x10f46 <= cp && cp <= 0x10f47 {
        220
    } else if 0x10f48 <= cp && cp <= 0x10f4a {
        230
    } else if cp == 0x10f4b {
        220
    } else if cp == 0x10f4c {
        230
    } else if 0x10f4d <= cp && cp <= 0x10f50 {
        220
    } else if cp == 0x10f82 {
        230
    } else if cp == 0x10f83 {
        220
    } else if cp == 0x10f84 {
        230
    } else if cp == 0x10f85 {
        220
    } else if cp == 0x11046 {
        9
    } else if cp == 0x11070 {
        9
    } else if cp == 0x1107f {
        9
    } else if cp == 0x110b9 {
        9
    } else if cp == 0x110ba {
        7
    } else if 0x11100 <= cp && cp <= 0x11102 {
        230
    } else if 0x11133 <= cp && cp <= 0x11134 {
        9
    } else if cp == 0x11173 {
        7
    } else if cp == 0x111c0 {
        9
    } else if cp == 0x111ca {
        7
    } else if cp == 0x11235 {
        9
    } else if cp == 0x11236 {
        7
    } else if cp == 0x112e9 {
        7
    } else if cp == 0x112ea {
        9
    } else if 0x1133b <= cp && cp <= 0x1133c {
        7
    } else if cp == 0x1134d {
        9
    } else if 0x11366 <= cp && cp <= 0x1136c {
        230
    } else if 0x11370 <= cp && cp <= 0x11374 {
        230
    } else if cp == 0x11442 {
        9
    } else if cp == 0x11446 {
        7
    } else if cp == 0x1145e {
        230
    } else if cp == 0x114c2 {
        9
    } else if cp == 0x114c3 {
        7
    } else if cp == 0x115bf {
        9
    } else if cp == 0x115c0 {
        7
    } else if cp == 0x1163f {
        9
    } else if cp == 0x116b6 {
        9
    } else if cp == 0x116b7 {
        7
    } else if cp == 0x1172b {
        9
    } else if cp == 0x11839 {
        9
    } else if cp == 0x1183a {
        7
    } else if 0x1193d <= cp && cp <= 0x1193e {
        9
    } else if cp == 0x11943 {
        7
    } else if cp == 0x119e0 {
        9
    } else if cp == 0x11a34 {
        9
    } else if cp == 0x11a47 {
        9
    } else if cp == 0x11a99 {
        9
    } else if cp == 0x11c3f {
        9
    } else if cp == 0x11d42 {
        7
    } else if 0x11d44 <= cp && cp <= 0x11d45 {
        9
    } else if cp == 0x11d97 {
        9
    } else if 0x16af0 <= cp && cp <= 0x16af4 {
        1
    } else if 0x16b30 <= cp && cp <= 0x16b36 {
        230
    } else if 0x16ff0 <= cp && cp <= 0x16ff1 {
        6
    } else if cp == 0x1bc9e {
        1
    } else if 0x1d165 <= cp && cp <= 0x1d166 {
        216
    } else if 0x1d167 <= cp && cp <= 0x1d169 {
        1
    } else if cp == 0x1d16d {
        226
    } else if 0x1d16e <= cp && cp <= 0x1d172 {
        216
    } else if 0x1d17b <= cp && cp <= 0x1d182 {
        220
    } else if 0x1d185 <= cp && cp <= 0x1d189 {
        230
    } else if 0x1d18a <= cp && cp <= 0x1d18b {
        220
    } else if 0x1d1aa <= cp && cp <= 0x1d1ad {
        230
    } else if 0x1d242 <= cp && cp <= 0x1d244 {
        230
    } else if 0x1e000 <= cp && cp <= 0x1e006 {
        230
    } else if 0x1e008 <= cp && cp <= 0x1e018 {
        230
    } else if 0x1e01b <= cp && cp <= 0x1e021 {
        230
    } else if 0x1e023 <= cp && cp <= 0x1e024 {
        230
    } else if 0x1e026 <= cp && cp <= 0x1e02a {
        230
    } else if 0x1e130 <= cp && cp <= 0x1e136 {
        230
    } else if cp == 0x1e2ae {
        230
    } else if 0x1e2ec <= cp && cp <= 0x1e2ef {
        230
    } else if 0x1e8d0 <= cp && cp <= 0x1e8d6 {
        220
    } else if 0x1e944 <= cp && cp <= 0x1e949 {
        230
    } else if cp == 0x1e94a {
        7
    } else {
        0
    }
}

/// Canonical combining class of a code point.
pub fn get_ccc(cp: u32) -> (r: u8)
    ensures
        r == ccc_of(cp),
{
    if 0x300 <= cp && cp <= 0x314 {
        230
    } else if cp == 0x315 {
        232
    } else if 0x316 <= cp && cp <= 0x319 {
        220
    } else if cp == 0x31a {
        232
    } else if cp == 0x31b {
        216
    } else if 0x31c <= cp && cp <= 0x320 {
        220
    } else if 0x321 <= cp && cp <= 0x322 {
        202
    } else if 0x323 <= cp && cp <= 0x326 {
        220
    } else if 0x327 <= cp && cp <= 0x328 {
        202
    } else if 0x329 <= cp && cp <= 0x333 {
        220
    } else if 0x334 <= cp && cp <= 0x338 {
        1
    } else if 0x339 <= cp && cp <= 0x33c {
        220
    } else if 0x33d <= cp && cp <= 0x344 {
        230
    } else if cp == 0x345 {
        240
    } else if cp == 0x346 {
        230
    } else if 0x347 <= cp && cp <= 0x349 {
        220
    } else if 0x34a <= cp && cp <= 0x34c {
        230
    } else if 0x34d <= cp && cp <= 0x34e {
        220
    } else if 0x350 <= cp && cp <= 0x352 {
        230
    } else if 0x353 <= cp && cp <= 0x356 {
        220
    } else if cp == 0x357 {
        230
    } else if cp == 0x358 {
        232
    } else if 0x359 <= cp && cp <= 0x35a {
        220
    } else if cp == 0x35b {
        230
    } else if cp == 0x35c {
        233
    } else if 0x35d <= cp && cp <= 0x35e {
        234
    } else if cp == 0x35f {
        233
    } else if 0x360 <= cp && cp <= 0x361 {
        234
    } else if cp == 0x362 {
        233
    } else if 0x363 <= cp && cp <= 0x36f {
        230
    } else if 0x483 <= cp && cp <= 0x487 {
        230
    } else if cp == 0x591 {
        220
    } else if 0x592 <= cp && cp <= 0x595 {
        230
    } else if cp == 0x596 {
        220
    } else if 0x597 <= cp && cp <= 0x599 {
        230
    } else if cp == 0x59a {
        222
    } else if cp == 0x59b {
        220
    } else if 0x59c <= cp && cp <= 0x5a1 {
        230
    } else if 0x5a2 <= cp && cp <= 0x5a7 {
        220
    } else if 0x5a8 <= cp && cp <= 0x5a9 {
        230
    } else if cp == 0x5aa {
        220
    } else if 0x5ab <= cp && cp <= 0x5ac {
        230
    } else if cp == 0x5ad {
        222
    } else if cp == 0x5ae {
        228
    } else if cp == 0x5af {
        230
    } else if cp == 0x5b0 {
        10
    } else if cp == 0x5b1 {
        11
    } else if cp == 0x5b2 {
        12
    } else if cp == 0x5b3 {
        13
    } else if cp == 0x5b4 {
        14
    } else if cp == 0x5b5 {
        15
    } else if cp == 0x5b6 {
        16
    } else if cp == 0x5b7 {
        17
    } else if cp == 0x5b8 {
        18
    } else if 0x5b9 <= cp && cp <= 0x5ba {
        19
    } else if cp == 0x5bb {
        20
    } else if cp == 0x5bc {
        21
    } else if cp == 0x5bd {
        22
    } else if cp == 0x5bf {
        23
    } else if cp == 0x5c1 {
        24
    } else if cp == 0x5c2 {
        25
    } else if cp == 0x5c4 {
        230
    } else if cp == 0x5c5 {
        220
    } else if cp == 0x5c7 {
        18
    } else if 0x610 <= cp && cp <= 0x617 {
        230
    } else if cp == 0x618 {
        30
    } else if cp == 0x619 {
        31
    } else if cp == 0x61a {
        32
    } else if cp == 0x64b {
        27
    } else if cp == 0x64c {
        28
    } else if cp == 0x64d {
        29
    } else if cp == 0x64e {
        30
    } else if cp == 0x64f {
        31
    } else if cp == 0x650 {
        32
    } else if cp == 0x651 {
        33
    } else if cp == 0x652 {
        34
    } else if 0x653 <= cp && cp <= 0x654 {
        230
    } else if 0x655 <= cp && cp <= 0x656 {
        220
    } else if 0x657 <= cp && cp <= 0x65b {
        230
    } else if cp == 0x65c {
        220
    } else if 0x65d <= cp && cp <= 0x65e {
        230
    } else if cp == 0x65f {
        220
    } else if cp == 0x670 {
        35
    } else if 0x6d6 <= cp && cp <= 0x6dc {
        230
    } else if 0x6df <= cp && cp <= 0x6e2 {
        230
    } else if cp == 0x6e3 {
        220
    } else if cp == 0x6e4 {
        230
    } else if 0x6e7 <= cp && cp <= 0x6e8 {
        230
    } else if cp == 0x6ea {
        220
    } else if 0x6eb <= cp && cp <= 0x6ec {
        230
    } else if cp == 0x6ed {
        220
    } else if cp == 0x711 {
        36
    } else if cp == 0x730 {
        230
    } else if cp == 0x731 {
        220
    } else if 0x732 <= cp && cp <= 0x733 {
        230
    } else if cp == 0x734 {
        220
    } else if 0x735 <= cp && cp <= 0x736 {
        230
    } else if 0x737 <= cp && cp <= 0x739 {
        220
    } else if cp == 0x73a {
        230
    } else if 0x73b <= cp && cp <= 0x73c {
        220
    } else if cp == 0x73d {
        230
    } else if cp == 0x73e {
        220
    } else if 0x73f <= cp && cp <= 0x741 {
        230
    } else if cp == 0x742 {
        220
    } else if cp == 0x743 {
        230
    } else if cp == 0x744 {
        220
    } else if cp == 0x745 {
        230
    } else if cp == 0x746 {
        220
    } else if cp == 0x747 {
        230
    } else if cp == 0x748 {
        220
    } else if 0x749 <= cp && cp <= 0x74a {
        230
    } else if 0x7eb <= cp && cp <= 0x7f1 {
        230
    } else if cp == 0x7f2 {
        220
    } else if cp == 0x7f3 {
        230
    } else if cp == 0x7fd {
        220
    } else if 0x816 <= cp && cp <= 0x819 {
        230
    } else if 0x81b <= cp && cp <= 0x823 {
        230
    } else if 0x825 <= cp && cp <= 0x827 {
        230
    } else if 0x829 <= cp && cp <= 0x82d {
        230
    } else if 0x859 <= cp && cp <= 0x85b {
        220
    } else if cp == 0x898 {
        230
    } else if 0x899 <= cp && cp <= 0x89b {
        220
    } else if 0x89c <= cp && cp <= 0x89f {
        230
    } else if 0x8ca <= cp && cp <= 0x8ce {
        230
    } else if 0x8cf <= cp && cp <= 0x8d3 {
        220
    } else if 0x8d4 <= cp && cp <= 0x8e1 {
        230
    } else if cp == 0x8e3 {
        220
    } else if 0x8e4 <= cp && cp <= 0x8e5 {
        230
    } else if cp == 0x8e6 {
        220
    } else if 0x8e7 <= cp && cp <= 0x8e8 {
        230
    } else if cp == 0x8e9 {
        220
    } else if 0x8ea <= cp && cp <= 0x8ec {
        230
    } else if 0x8ed <= cp && cp <= 0x8ef {
        220
    } else if cp == 0x8f0 {
        27
    } else if cp == 0x8f1 {
        28
    } else if cp == 0x8f2 {
        29
    } else if 0x8f3 <= cp && cp <= 0x8f5 {
        230
    } else if cp == 0x8f6 {
        220
    } else if 0x8f7 <= cp && cp <= 0x8f8 {
        230
    } else if 0x8f9 <= cp && cp <= 0x8fa {
        220
    } else if 0x8fb <= cp && cp <= 0x8ff {
        230
    } else if cp == 0x93c {
        7
    } else if cp == 0x94d {
        9
    } else if cp == 0x951 {
        230
    } else if cp == 0x952 {
        220
    } else if 0x953 <= cp && cp <= 0x954 {
        230
    } else if cp == 0x9bc {
        7
    } else if cp == 0x9cd {
        9
    } else if cp == 0x9fe {
        230
    } else if cp == 0xa3c {
        7
    } else if cp == 0xa4d {
        9
    } else if cp == 0xabc {
        7
    } else if cp == 0xacd {
        9
    } else if cp == 0xb3c {
        7
    } else if cp == 0xb4d {
        9
    } else if cp == 0xbcd {
        9
    } else if cp == 0xc3c {
        7
    } else if cp == 0xc4d {
        9
    } else if cp == 0xc55 {
        84
    } else if cp == 0xc56 {
        91
    } else if cp == 0xcbc {
        7
    } else if cp == 0xccd {
        9
    } else if 0xd3b <= cp && cp <= 0xd3c {
        9
    } else if cp == 0xd4d {
        9
    } else if cp == 0xdca {
        9
    } else if 0xe38 <= cp && cp <= 0xe39 {
        103
    } else if cp == 0xe3a {
        9
    } else if 0xe48 <= cp && cp <= 0xe4b {
        107
    } else if 0xeb8 <= cp && cp <= 0xeb9 {
        118
    } else if cp == 0xeba {
        9
    } else if 0xec8 <= cp && cp <= 0xecb {
        122
    } else if 0xf18 <= cp && cp <= 0xf19 {
        220
    } else if cp == 0xf35 {
        220
    } else if cp == 0xf37 {
        220
    } else if cp == 0xf39 {
        216
    } else if cp == 0xf71 {
        129
    } else if cp == 0xf72 {
        130
    } else if cp == 0xf74 {
        132
    } else if 0xf7a <= cp && cp <= 0xf7d {
        130
    } else if cp == 0xf80 {
        130
    } else if 0xf82 <= cp && cp <= 0xf83 {
        230
    } else if cp == 0xf84 {
        9
    } else if 0xf86 <= cp && cp <= 0xf87 {
        230
    } else if cp == 0xfc6 {
        220
    } else if cp == 0x1037 {
        7
    } else if 0x1039 <= cp && cp <= 0x103a {
        9
    } else if cp == 0x108d {
        220
    } else if 0x135d <= cp && cp <= 0x135f {
        230
    } else if 0x1714 <= cp && cp <= 0x1715 {
        9
    } else if cp == 0x1734 {
        9
    } else if cp == 0x17d2 {
        9
    } else if cp == 0x17dd {
        230
    } else if cp == 0x18a9 {
        228
    } else if cp == 0x1939 {
        222
    } else if cp == 0x193a {
        230
    } else if cp == 0x193b {
        220
    } else if cp == 0x1a17 {
        230
    } else if cp == 0x1a18 {
        220
    } else if cp == 0x1a60 {
        9
    } else if 0x1a75 <= cp && cp <= 0x1a7c {
        230
    } else if cp == 0x1a7f {
        220
    } else if 0x1ab0 <= cp && cp <= 0x1ab4 {
        230
    } else if 0x1ab5 <= cp && cp <= 0x1aba {
        220
    } else if 0x1abb <= cp && cp <= 0x1abc {
        230
    } else if cp == 0x1abd {
        220
    } else if 0x1abf <= cp && cp <= 0x1ac0 {
        220
    } else if 0x1ac1 <= cp && cp <= 0x1ac2 {
        230
    } else if 0x1ac3 <= cp && cp <= 0x1ac4 {
        220
    } else if 0x1ac5 <= cp && cp <= 0x1ac9 {
        230
    } else if cp == 0x1aca {
        220
    } else if 0x1acb <= cp && cp <= 0x1ace {
        230
    } else if cp == 0x1b34 {
        7
    } else if cp == 0x1b44 {
        9
    } else if cp == 0x1b6b {
        230
    } else if cp == 0x1b6c {
        220
    } else if 0x1b6d <= cp && cp <= 0x1b73 {
        230
    } else if 0x1baa <= cp && cp <= 0x1bab {
        9
    } else if cp == 0x1be6 {
        7
    } else if 0x1bf2 <= cp && cp <= 0x1bf3 {
        9
    } else if cp == 0x1c37 {
        7
    } else if 0x1cd0 <= cp && cp <= 0x1cd2 {
        230
    } else if cp == 0x1cd4 {
        1
    } else if 0x1cd5 <= cp && cp <= 0x1cd9 {
        220
    } else if 0x1cda <= cp && cp <= 0x1cdb {
        230
    } else if 0x1cdc <= cp && cp <= 0x1cdf {
        220
    } else if cp == 0x1ce0 {
        230
    } else if 0x1ce2 <= cp && cp <= 0x1ce8 {
        1
    } else if cp == 0x1ced {
        220
    } else if cp == 0x1cf4 {
        230
    } else if 0x1cf8 <= cp && cp <= 0x1cf9 {
        230
    } else if 0x1dc0 <= cp && cp <= 0x1dc1 {
        230
    } else if cp == 0x1dc2 {
        220
    } else if 0x1dc3 <= cp && cp <= 0x1dc9 {
        230
    } else if cp == 0x1dca {
        220
    } else if 0x1dcb <= cp && cp <= 0x1dcc {
        230
    } else if cp == 0x1dcd {
        234
    } else if cp == 0x1dce {
        214
    } else if cp == 0x1dcf {
        220
    } else if cp == 0x1dd0 {
        202
    } else if 0x1dd1 <= cp && cp <= 0x1df5 {
        230
    } else if cp == 0x1df6 {
        232
    } else if 0x1df7 <= cp && cp <= 0x1df8 {
        228
    } else if cp == 0x1df9 {
        220
    } else if cp == 0x1dfa {
        218
    } else if cp == 0x1dfb {
        230
    } else if cp == 0x1dfc {
        233
    } else if cp == 0x1dfd {
        220
    } else if cp == 0x1dfe {
        230
    } else if cp == 0x1dff {
        220
    } else if 0x20d0 <= cp && cp <= 0x20d1 {
        230
    } else if 0x20d2 <= cp && cp <= 0x20d3 {
        1
    } else if 0x20d4 <= cp && cp <= 0x20d7 {
        230
    } else if 0x20d8 <= cp && cp <= 0x20da {
        1
    } else if 0x20db <= cp && cp <= 0x20dc {
        230
    } else if cp == 0x20e1 {
        230
    } else if 0x20e5 <= cp && cp <= 0x20e6 {
        1
    } else if cp == 0x20e7 {
        230
    } else if cp == 0x20e8 {
        220
    } else if cp == 0x20e9 {
        230
    } else if 0x20ea <= cp && cp <= 0x20eb {
        1
    } else if 0x20ec <= cp && cp <= 0x20ef {
        220
    } else if cp == 0x20f0 {
        230
    } else if 0x2cef <= cp && cp <= 0x2cf1 {
        230
    } else if cp == 0x2d7f {
        9
    } else if 0x2de0 <= cp && cp <= 0x2dff {
        230
    } else if cp == 0x302a {
        218
    } else if cp == 0x302b {
        228
    } else if cp == 0x302c {
        232
    } else if cp == 0x302d {
        222
    } else if 0x302e <= cp && cp <= 0x302f {
        224
    } else if 0x3099 <= cp && cp <= 0x309a {
        8
    } else if cp == 0xa66f {
        230
    } else if 0xa674 <= cp && cp <= 0xa67d {
        230
    } else if 0xa69e <= cp && cp <= 0xa69f {
        230
    } else if 0xa6f0 <= cp && cp <= 0xa6f1 {
        230
    } else if cp == 0xa806 {
        9
    } else if cp == 0xa82c {
        9
    } else if cp == 0xa8c4 {
        9
    } else if 0xa8e0 <= cp && cp <= 0xa8f1 {
        230
    } else if 0xa92b <= cp && cp <= 0xa92d {
        220
    } else if cp == 0xa953 {
        9
    } else if cp == 0xa9b3 {
        7
    } else if cp == 0xa9c0 {
        9
    } else if cp == 0xaab0 {
        230
    } else if 0xaab2 <= cp && cp <= 0xaab3 {
        230
    } else if cp == 0xaab4 {
        220
    } else if 0xaab7 <= cp && cp <= 0xaab8 {
        230
    } else if 0xaabe <= cp && cp <= 0xaabf {
        230
    } else if cp == 0xaac1 {
        230
    } else if cp == 0xaaf6 {
        9
    } else if cp == 0xabed {
        9
    } else if cp == 0xfb1e {
        26
    } else if 0xfe20 <= cp && cp <= 0xfe26 {
        230
    } else if 0xfe27 <= cp && cp <= 0xfe2d {
        220
    } else if 0xfe2e <= cp && cp <= 0xfe2f {
        230
    } else if cp == 0x101fd {
        220
    } else if cp == 0x102e0 {
        220
    } else if 0x10376 <= cp && cp <= 0x1037a {
        230
    } else if cp == 0x10a0d {
        220
    } else if cp == 0x10a0f {
        230
    } else if cp == 0x10a38 {
        230
    } else if cp == 0x10a39 {
        1
    } else if cp == 0x10a3a {
        220
    } else if cp == 0x10a3f {
        9
    } else if cp == 0x10ae5 {
        230
    } else if cp == 0x10ae6 {
        220
    } else if 0x10d24 <= cp && cp <= 0x10d27 {
        230
    } else if 0x10eab <= cp && cp <= 0x10eac {
        230
    } else if 0x10f46 <= cp && cp <= 0x10f47 {
        220
    } else if 0x10f48 <= cp && cp <= 0x10f4a {
        230
    } else if cp == 0x10f4b {
        220
    } else if cp == 0x10f4c {
        230
    } else if 0x10f4d <= cp && cp <= 0x10f50 {
        220
    } else if cp == 0x10f82 {
        230
    } else if cp == 0x10f83 {
        220
    } else if cp == 0x10f84 {
        230
    } else if cp == 0x10f85 {
        220
    } else if cp == 0x11046 {
        9
    } else if cp == 0x11070 {
        9
    } else if cp == 0x1107f {
        9
    } else if cp == 0x110b9 {
        9
    } else if cp == 0x110ba {
        7
    } else if 0x11100 <= cp && cp <= 0x11102 {
        230
    } else if 0x11133 <= cp && cp <= 0x11134 {
        9
    } else if cp == 0x11173 {
        7
    } else if cp == 0x111c0 {
        9
    } else if cp == 0x111ca {
        7
    } else if cp == 0x11235 {
        9
    } else if cp == 0x11236 {
        7
    } else if cp == 0x112e9 {
        7
    } else if cp == 0x112ea {
        9
    } else if 0x1133b <= cp && cp <= 0x1133c {
        7
    } else if cp == 0x1134d {
        9
    } else if 0x11366 <= cp && cp <= 0x1136c {
        230
    } else if 0x11370 <= cp && cp <= 0x11374 {
        230
    } else if cp == 0x11442 {
        9
    } else if cp == 0x11446 {
        7
    } else if cp == 0x1145e {
        230
    } else if cp == 0x114c2 {
        9
    } else if cp == 0x114c3 {
        7
    } else if cp == 0x115bf {
        9
    } else if cp == 0x115c0 {
        7
    } else if cp == 0x1163f {
        9
    } else if cp == 0x116b6 {
        9
    } else if cp == 0x116b7 {
        7
    } else if cp == 0x1172b {
        9
    } else if cp == 0x11839 {
        9
    } else if cp == 0x1183a {
        7
    } else if 0x1193d <= cp && cp <= 0x1193e {
        9
    } else if cp == 0x11943 {
        7
    } else if cp == 0x119e0 {
        9
    } else if cp == 0x11a34 {
        9
    } else if cp == 0x11a47 {
        9
    } else if cp == 0x11a99 {
        9
    } else if cp == 0x11c3f {
        9
    } else if cp == 0x11d42 {
        7
    } else if 0x11d44 <= cp && cp <= 0x11d45 {
        9
    } else if cp == 0x11d97 {
        9
    } else if 0x16af0 <= cp && cp <= 0x16af4 {
        1
    } else if 0x16b30 <= cp && cp <= 0x16b36 {
        230
    } else if 0x16ff0 <= cp && cp <= 0x16ff1 {
        6
    } else if cp == 0x1bc9e {
        1
    } else if 0x1d165 <= cp && cp <= 0x1d166 {
        216
    } else if 0x1d167 <= cp && cp <= 0x1d169 {
        1
    } else if cp == 0x1d16d {
        226
    } else if 0x1d16e <= cp && cp <= 0x1d172 {
        216
    } else if 0x1d17b <= cp && cp <= 0x1d182 {
        220
    } else if 0x1d185 <= cp && cp <= 0x1d189 {
        230
    } else if 0x1d18a <= cp && cp <= 0x1d18b {
        220
    } else if 0x1d1aa <= cp && cp <= 0x1d1ad {
        230
    } else if 0x1d242 <= cp && cp <= 0x1d244 {
        230
    } else if 0x1e000 <= cp && cp <= 0x1e006 {
        230
    } else if 0x1e008 <= cp && cp <= 0x1e018 {
        230
    } else if 0x1e01b <= cp && cp <= 0x1e021 {
        230
    } else if 0x1e023 <= cp && cp <= 0x1e024 {
        230
    } else if 0x1e026 <= cp && cp <= 0x1e02a {
        230
    } else if 0x1e130 <= cp && cp <= 0x1e136 {
        230
    } else if cp == 0x1e2ae {
        230
    } else if 0x1e2ec <= cp && cp <= 0x1e2ef {
        230
    } else if 0x1e8d0 <= cp && cp <= 0x1e8d6 {
        220
    } else if 0x1e944 <= cp && cp <= 0x1e949 {
        230
    } else if cp == 0x1e94a {
        7
    } else {
        0
    }
}

pub open spec fn decomp_000(cp: u32) -> Seq<u32> {
    if cp == 0xc0 {
        seq![0x41u32, 0x300u32]
    } else if cp == 0xc1 {
        seq![0x41u32, 0x301u32]
    } else if cp == 0xc2 {
        seq![0x41u32, 0x302u32]
    } else if cp == 0xc3 {
        seq![0x41u32, 0x303u32]
    } else if cp == 0xc4 {
        seq![0x41u32, 0x308u32]
    } else if cp == 0xc5 {
        seq![0x41u32, 0x30au32]
    } else if cp == 0xc7 {
        seq![0x43u32, 0x327u32]
    } else if cp == 0xc8 {
        seq![0x45u32, 0x300u32]
    } else if cp == 0xc9 {
        seq![0x45u32, 0x301u32]
    } else if cp == 0xca {
        seq![0x45u32, 0x302u32]
    } else if cp == 0xcb {
        seq![0x45u32, 0x308u32]
    } else if cp == 0xcc {
        seq![0x49u32, 0x300u32]
    } else if cp == 0xcd {
        seq![0x49u32, 0x301u32]
    } else if cp == 0xce {
        seq![0x49u32, 0x302u32]
    } else if cp == 0xcf {
        seq![0x49u32, 0x308u32]
    } else if cp == 0xd1 {
        seq![0x4eu32, 0x303u32]
    } else if cp == 0xd2 {
        seq![0x4fu32, 0x300u32]
    } else if cp == 0xd3 {
        seq![0x4fu32, 0x301u32]
    } else if cp == 0xd4 {
        seq![0x4fu32, 0x302u32]
    } else if cp == 0xd5 {
        seq![0x4fu32, 0x303u32]
    } else if cp == 0xd6 {
        seq![0x4fu32, 0x308u32]
    } else if cp == 0xd9 {
        seq![0x55u32, 0x300u32]
    } else if cp == 0xda {
        seq![0x55u32, 0x301u32]
    } else if cp == 0xdb {
        seq![0x55u32, 0x302u32]
    } else if cp == 0xdc {
        seq![0x55u32, 0x308u32]
    } else if cp == 0xdd {
        seq![0x59u32, 0x301u32]
    } else if cp == 0xe0 {
        seq![0x61u32, 0x300u32]
    } else if cp == 0xe1 {
        seq![0x61u32, 0x301u32]
    } else if cp == 0xe2 {
        seq![0x61u32, 0x302u32]
    } else if cp == 0xe3 {
        seq![0x61u32, 0x303u32]
    } else if cp == 0xe4 {
        seq![0x61u32, 0x308u32]
    } else if cp == 0xe5 {
        seq![0x61u32, 0x30au32]
    } else if cp == 0xe7 {
        seq![0x63u32, 0x327u32]
    } else if cp == 0xe8 {
        seq![0x65u32, 0x300u32]
    } else if cp == 0xe9 {
        seq![0x65u32, 0x301u32]
    } else if cp == 0xea {
        seq![0x65u32, 0x302u32]
    } else if cp == 0xeb {
        seq![0x65u32, 0x308u32]
    } else if cp == 0xec {
        seq![0x69u32, 0x300u32]
    } else if cp == 0xed {
        seq![0x69u32, 0x301u32]
    } else if cp == 0xee {
        seq![0x69u32, 0x302u32]
    } else if cp == 0xef {
        seq![0x69u32, 0x308u32]
    } else if cp == 0xf1 {
        seq![0x6eu32, 0x303u32]
    } else if cp == 0xf2 {
        seq![0x6fu32, 0x300u32]
    } else if cp == 0xf3 {
        seq![0x6fu32, 0x301u32]
    } else if cp == 0xf4 {
        seq![0x6fu32, 0x302u32]
    } else if cp == 0xf5 {
        seq![0x6fu32, 0x303u32]
    } else if cp == 0xf6 {
        seq![0x6fu32, 0x308u32]
    } else if cp == 0xf9 {
        seq![0x75u32, 0x300u32]
    } else if cp == 0xfa {
        seq![0x75u32, 0x301u32]
    } else if cp == 0xfb {
        seq![0x75u32, 0x302u32]
    } else if cp == 0xfc {
        seq![0x75u32, 0x308u32]
    } else if cp == 0xfd {
        seq![0x79u32, 0x301u32]
    } else if cp == 0xff {
        seq![0x79u32, 0x308u32]
    } else {
        seq![cp]
    }
}

fn push_decomp_000(r: &mut Vec<u32>, cp: u32)
    ensures
        final(r)@ == old(r)@ + decomp_000(cp),
{
    if cp == 0xc0 {
        r.push(0x41);
        r.push(0x300);
    } else if cp == 0xc1 {
        r.push(0x41);
        r.push(0x301);
    } else if cp == 0xc2 {
        r.push(0x41);
        r.push(0x302);
    } else if cp == 0xc3 {
        r.push(0x41);
        r.push(0x303);
    } else if cp == 0xc4 {
        r.push(0x41);
        r.push(0x308);
    } else if cp == 0xc5 {
        r.push(0x41);
        r.push(0x30a);
    } else if cp == 0xc7 {
        r.push(0x43);
        r.push(0x327);
    } else if cp == 0xc8 {
        r.push(0x45);
        r.push(0x300);
    } else if cp == 0xc9 {
        r.push(0x45);
        r.push(0x301);
    } else if cp == 0xca {
        r.push(0x45);
        r.push(0x302);
    } else if cp == 0xcb {
        r.push(0x45);
        r.push(0x308);
    } else if cp == 0xcc {
        r.push(0x49);
        r.push(0x300);
    } else if cp == 0xcd {
        r.push(0x49);
        r.push(0x301);
    } else if cp == 0xce {
        r.push(0x49);
        r.push(0x302);
    } else if cp == 0xcf {
        r.push(0x49);
        r.push(0x308);
    } else if cp == 0xd1 {
        r.push(0x4e);
        r.push(0x303);
    } else if cp == 0xd2 {
        r.push(0x4f);
        r.push(0x300);
    } else if cp == 0xd3 {
        r.push(0x4f);
        r.push(0x301);
    } else if cp == 0xd4 {
        r.push(0x4f);
        r.push(0x302);
    } else if cp == 0xd5 {
        r.push(0x4f);
        r.push(0x303);
    } else if cp == 0xd6 {
        r.push(0x4f);
        r.push(0x308);
    } else if cp == 0xd9 {
        r.push(0x55);
        r.push(0x300);
    } else if cp == 0xda {
        r.push(0x55);
        r.push(0x301);
    } else if cp == 0xdb {
        r.push(0x55);
        r.push(0x302);
    } else if cp == 0xdc {
        r.push(0x55);
        r.push(0x308);
    } else if cp == 0xdd {
        r.push(0x59);
        r.push(0x301);
    } else if cp == 0xe0 {
        r.push(0x61);
        r.push(0x300);
    } else if cp == 0xe1 {
        r.push(0x61);
        r.push(0x301);
    } else if cp == 0xe2 {
        r.push(0x61);
        r.push(0x302);
    } else if cp == 0xe3 {
        r.push(0x61);
        r.push(0x303);
    } else if cp == 0xe4 {
        r.push(0x61);
        r.push(0x308);
    } else if cp == 0xe5 {
        r.push(0x61);
        r.push(0x30a);
    } else if cp == 0xe7 {
        r.push(0x63);
        r.push(0x327);
    } else if cp == 0xe8 {
        r.push(0x65);
        r.push(0x300);
    } else if cp == 0xe9 {
        r.push(0x65);
        r.push(0x301);
    } else if cp == 0xea {
        r.push(0x65);
        r.push(0x302);
    } else if cp == 0xeb {
        r.push(0x65);
        r.push(0x308);
    } else if cp == 0xec {
        r.push(0x69);
        r.push(0x300);
    } else if cp == 0xed {
        r.push(0x69);
        r.push(0x301);
    } else if cp == 0xee {
        r.push(0x69);
        r.push(0x302);
    } else if cp == 0xef {
        r.push(0x69);
        r.push(0x308);
    } else if cp == 0xf1 {
        r.push(0x6e);
        r.push(0x303);
    } else if cp == 0xf2 {
        r.push(0x6f);
        r.push(0x300);
    } else if cp == 0xf3 {
        r.push(0x6f);
        r.push(0x301);
    } else if cp == 0xf4 {
        r.push(0x6f);
        r.push(0x302);
    } else if cp == 0xf5 {
        r.push(0x6f);
        r.push(0x303);
    } else if cp == 0xf6 {
        r.push(0x6f);
        r.push(0x308);
    } else if cp == 0xf9 {
        r.push(0x75);
        r.push(0x300);
    } else if cp == 0xfa {
        r.push(0x75);
        r.push(0x301);
    } else if cp == 0xfb {
        r.push(0x75);
        r.push(0x302);
    } else if cp == 0xfc {
        r.push(0x75);
        r.push(0x308);
    } else if cp == 0xfd {
        r.push(0x79);
        r.push(0x301);
    } else if cp == 0xff {
        r.push(0x79);
        r.push(0x308);
    } else {
        r.push(cp);
    }
}

pub open spec fn decomp_001(cp: u32) -> Seq<u32> {
    if cp == 0x100 {
        seq![0x41u32, 0x304u32]
    } else if cp == 0x101 {
        seq![0x61u32, 0x304u32]
    } else if cp == 0x102 {
        seq![0x41u32, 0x306u32]
    } else if cp == 0x103 {
        seq![0x61u32, 0x306u32]
    } else if cp == 0x104 {
        seq![0x41u32, 0x328u32]
    } else if cp == 0x105 {
        seq![0x61u32, 0x328u32]
    } else if cp == 0x106 {
        seq![0x43u32, 0x301u32]
    } else if cp == 0x107 {
        seq![0x63u32, 0x301u32]
    } else if cp == 0x108 {
        seq![0x43u32, 0x302u32]
    } else if cp == 0x109 {
        seq![0x63u32, 0x302u32]
    } else if cp == 0x10a {
        seq![0x43u32, 0x307u32]
    } else if cp == 0x10b {
        seq![0x63u32, 0x307u32]
    } else if cp == 0x10c {
        seq![0x43u32, 0x30cu32]
    } else if cp == 0x10d {
        seq![0x63u32, 0x30cu32]
    } else if cp == 0x10e {
        seq![0x44u32, 0x30cu32]
    } else if cp == 0x10f {
        seq![0x64u32, 0x30cu32]
    } else if cp == 0x112 {
        seq![0x45u32, 0x304u32]
    } else if cp == 0x113 {
        seq![0x65u32, 0x304u32]
    } else if cp == 0x114 {
        seq![0x45u32, 0x306u32]
    } else if cp == 0x115 {
        seq![0x65u32, 0x306u32]
    } else if cp == 0x116 {
        seq![0x45u32, 0x307u32]
    } else if cp == 0x117 {
        seq![0x65u32, 0x307u32]
    } else if cp == 0x118 {
        seq![0x45u32, 0x328u32]
    } else if cp == 0x119 {
        seq![0x65u32, 0x328u32]
    } else if cp == 0x11a {
        seq![0x45u32, 0x30cu32]
    } else if cp == 0x11b {
        seq![0x65u32, 0x30cu32]
    } else if cp == 0x11c {
        seq![0x47u32, 0x302u32]
    } else if cp == 0x11d {
        seq![0x67u32, 0x302u32]
    } else if cp == 0x11e {
        seq![0x47u32, 0x306u32]
    } else if cp == 0x11f {
        seq![0x67u32, 0x306u32]
    } else if cp == 0x120 {
        seq![0x47u32, 0x307u32]
    } else if cp == 0x121 {
        seq![0x67u32, 0x307u32]
    } else if cp == 0x122 {
        seq![0x47u32, 0x327u32]
    } else if cp == 0x123 {
        seq![0x67u32, 0x327u32]
    } else if cp == 0x124 {
        seq![0x48u32, 0x302u32]
    } else if cp == 0x125 {
        seq![0x68u32, 0x302u32]
    } else if cp == 0x128 {
        seq![0x49u32, 0x303u32]
    } else if cp == 0x129 {
        seq![0x69u32, 0x303u32]
    } else if cp == 0x12a {
        seq![0x49u32, 0x304u32]
    } else if cp == 0x12b {
        seq![0x69u32, 0x304u32]
    } else if cp == 0x12c {
        seq![0x49u32, 0x306u32]
    } else if cp == 0x12d {
        seq![0x69u32, 0x306u32]
    } else if cp == 0x12e {
        seq![0x49u32, 0x328u32]
    } else if cp == 0x12f {
        seq![0x69u32, 0x328u32]
    } else if cp == 0x130 {
        seq![0x49u32, 0x307u32]
    } else if cp == 0x134 {
        seq![0x4au32, 0x302u32]
    } else if cp == 0x135 {
        seq![0x6au32, 0x302u32]
    } else if cp == 0x136 {
        seq![0x4bu32, 0x327u32]
    } else if cp == 0x137 {
        seq![0x6bu32, 0x327u32]
    } else if cp == 0x139 {
        seq![0x4cu32, 0x301u32]
    } else if cp == 0x13a {
        seq![0x6cu32, 0x301u32]
    } else if cp == 0x13b {
        seq![0x4cu32, 0x327u32]
    } else if cp == 0x13c {
        seq![0x6cu32, 0x327u32]
    } else if cp == 0x13d {
        seq![0x4cu32, 0x30cu32]
    } else if cp == 0x13e {
        seq![0x6cu32, 0x30cu32]
    } else if cp == 0x143 {
        seq![0x4eu32, 0x301u32]
    } else if cp == 0x144 {
        seq![0x6eu32, 0x301u32]
    } else if cp == 0x145 {
        seq![0x4eu32, 0x327u32]
    } else if cp == 0x146 {
        seq![0x6eu32, 0x327u32]
    } else if cp == 0x147 {
        seq![0x4eu32, 0x30cu32]
    } else if cp == 0x148 {
        seq![0x6eu32, 0x30cu32]
    } else if cp == 0x14c {
        seq![0x4fu32, 0x304u32]
    } else if cp == 0x14d {
        seq![0x6fu32, 0x304u32]
    } else if cp == 0x14e {
        seq![0x4fu32, 0x306u32]
    } else if cp == 0x14f {
        seq![0x6fu32, 0x306u32]
    } else if cp == 0x150 {
        seq![0x4fu32, 0x30bu32]
    } else if cp == 0x151 {
        seq![0x6fu32, 0x30bu32]
    } else if cp == 0x154 {
        seq![0x52u32, 0x301u32]
    } else if cp == 0x155 {
        seq![0x72u32, 0x301u32]
    } else if cp == 0x156 {
        seq![0x52u32, 0x327u32]
    } else if cp == 0x157 {
        seq![0x72u32, 0x327u32]
    } else if cp == 0x158 {
        seq![0x52u32, 0x30cu32]
    } else if cp == 0x159 {
        seq![0x72u32, 0x30cu32]
    } else if cp == 0x15a {
        seq![0x53u32, 0x301u32]
    } else if cp == 0x15b {
        seq![0x73u32, 0x301u32]
    } else if cp == 0x15c {
        seq![0x53u32, 0x302u32]
    } else if cp == 0x15d {
        seq![0x73u32, 0x302u32]
    } else if cp == 0x15e {
        seq![0x53u32, 0x327u32]
    } else if cp == 0x15f {
        seq![0x73u32, 0x327u32]
    } else if cp == 0x160 {
        seq![0x53u32, 0x30cu32]
    } else if cp == 0x161 {
        seq![0x73u32, 0x30cu32]
    } else if cp == 0x162 {
        seq![0x54u32, 0x327u32]
    } else if cp == 0x163 {
        seq![0x74u32, 0x327u32]
    } else if cp == 0x164 {
        seq![0x54u32, 0x30cu32]
    } else if cp == 0x165 {
        seq![0x74u32, 0x30cu32]
    } else if cp == 0x168 {
        seq![0x55u32, 0x303u32]
    } else if cp == 0x169 {
        seq![0x75u32, 0x303u32]
    } else if cp == 0x16a {
        seq![0x55u32, 0x304u32]
    } else if cp == 0x16b {
        seq![0x75u32, 0x304u32]
    } else if cp == 0x16c {
        seq![0x55u32, 0x306u32]
    } else if cp == 0x16d {
        seq![0x75u32, 0x306u32]
    } else if cp == 0x16e {
        seq![0x55u32, 0x30au32]
    } else if cp == 0x16f {
        seq![0x75u32, 0x30au32]
    } else if cp == 0x170 {
        seq![0x55u32, 0x30bu32]
    } else if cp == 0x171 {
        seq![0x75u32, 0x30bu32]
    } else if cp == 0x172 {
        seq![0x55u32, 0x328u32]
    } else if cp == 0x173 {
        seq![0x75u32, 0x328u32]
    } else if cp == 0x174 {
        seq![0x57u32, 0x302u32]
    } else if cp == 0x175 {
        seq![0x77u32, 0x302u32]
    } else if cp == 0x176 {
        seq![0x59u32, 0x302u32]
    } else if cp == 0x177 {
        seq![0x79u32, 0x302u32]
    } else if cp == 0x178 {
        seq![0x59u32, 0x308u32]
    } else if cp == 0x179 {
        seq![0x5au32, 0x301u32]
    } else if cp == 0x17a {
        seq![0x7au32, 0x301u32]
    } else if cp == 0x17b {
        seq![0x5au32, 0x307u32]
    } else if cp == 0x17c {
        seq![0x7au32, 0x307u32]
    } else if cp == 0x17d {
        seq![0x5au32, 0x30cu32]
    } else if cp == 0x17e {
        seq![0x7au32, 0x30cu32]
    } else if cp == 0x1a0 {
        seq![0x4fu32, 0x31bu32]
    } else if cp == 0x1a1 {
        seq![0x6fu32, 0x31bu32]
    } else if cp == 0x1af {
        seq![0x55u32, 0x31bu32]
    } else if cp == 0x1b0 {
        seq![0x75u32, 0x31bu32]
    } else if cp == 0x1cd {
        seq![0x41u32, 0x30cu32]
    } else if cp == 0x1ce {
        seq![0x61u32, 0x30cu32]
    } else if cp == 0x1cf {
        seq![0x49u32, 0x30cu32]
    } else if cp == 0x1d0 {
        seq![0x69u32, 0x30cu32]
    } else if cp == 0x1d1 {
        seq![0x4fu32, 0x30cu32]
    } else if cp == 0x1d2 {
        seq![0x6fu32, 0x30cu32]
    } else if cp == 0x1d3 {
        seq![0x55u32, 0x30cu32]
    } else if cp == 0x1d4 {
        seq![0x75u32, 0x30cu32]
    } else if cp == 0x1d5 {
        seq![0x55u32, 0x308u32, 0x304u32]
    } else if cp == 0x1d6 {
        seq![0x75u32, 0x308u32, 0x304u32]
    } else if cp == 0x1d7 {
        seq![0x55u32, 0x308u32, 0x301u32]
    } else if cp == 0x1d8 {
        seq![0x75u32, 0x308u32, 0x301u32]
    } else if cp == 0x1d9 {
        seq![0x55u32, 0x308u32, 0x30cu32]
    } else if cp == 0x1da {
        seq![0x75u32, 0x308u32, 0x30cu32]
    } else if cp == 0x1db {
        seq![0x55u32, 0x308u32, 0x300u32]
    } else if cp == 0x1dc {
        seq![0x75u32, 0x308u32, 0x300u32]
    } else if cp == 0x1de {
        seq![0x41u32, 0x308u32, 0x304u32]
    } else if cp == 0x1df {
        seq![0x61u32, 0x308u32, 0x304u32]
    } else if cp == 0x1e0 {
        seq![0x41u32, 0x307u32, 0x304u32]
    } else if cp == 0x1e1 {
        seq![0x61u32, 0x307u32, 0x304u32]
    } else if cp == 0x1e2 {
        seq![0xc6u32, 0x304u32]
    } else if cp == 0x1e3 {
        seq![0xe6u32, 0x304u32]
    } else if cp == 0x1e6 {
        seq![0x47u32, 0x30cu32]
    } else if cp == 0x1e7 {
        seq![0x67u32, 0x30cu32]
    } else if cp == 0x1e8 {
        seq![0x4bu32, 0x30cu32]
    } else if cp == 0x1e9 {
        seq![0x6bu32, 0x30cu32]
    } else if cp == 0x1ea {
        seq![0x4fu32, 0x328u32]
    } else if cp == 0x1eb {
        seq![0x6fu32, 0x328u32]
    } else if cp == 0x1ec {
        seq![0x4fu32, 0x328u32, 0x304u32]
    } else if cp == 0x1ed {
        seq![0x6fu32, 0x328u32, 0x304u32]
    } else if cp == 0x1ee {
        seq![0x1b7u32, 0x30cu32]
    } else if cp == 0x1ef {
        seq![0x292u32, 0x30cu32]
    } else if cp == 0x1f0 {
        seq![0x6au32, 0x30cu32]
    } else if cp == 0x1f4 {
        seq![0x47u32, 0x301u32]
    } else if cp == 0x1f5 {
        seq![0x67u32, 0x301u32]
    } else if cp == 0x1f8 {
        seq![0x4eu32, 0x300u32]
    } else if cp == 0x1f9 {
        seq![0x6eu32, 0x300u32]
    } else if cp == 0x1fa {
        seq![0x41u32, 0x30au32, 0x301u32]
    } else if cp == 0x1fb {
        seq![0x61u32, 0x30au32, 0x301u32]
    } else if cp == 0x1fc {
        seq![0xc6u32, 0x301u32]
    } else if cp == 0x1fd {
        seq![0xe6u32, 0x301u32]
    } else if cp == 0x1fe {
        seq![0xd8u32, 0x301u32]
    } else if cp == 0x1ff {
        seq![0xf8u32, 0x301u32]
    } else {
        seq![cp]
    }
}

fn push_decomp_001(r: &mut Vec<u32>, cp: u32)
    ensures
        final(r)@ == old(r)@ + decomp_001(cp),
{
    if cp == 0x100 {
        r.push(0x41);
        r.push(0x304);
    } else if cp == 0x101 {
        r.push(0x61);
        r.push(0x304);
    } else if cp == 0x102 {
        r.push(0x41);
        r.push(0x306);
    } else if cp == 0x103 {
        r.push(0x61);
        r.push(0x306);
    } else if cp == 0x104 {
        r.push(0x41);
        r.push(0x328);
    } else if cp == 0x105 {
        r.push(0x61);
        r.push(0x328);
    } else if cp == 0x106 {
        r.push(0x43);
        r.push(0x301);
    } else if cp == 0x107 {
        r.push(0x63);
        r.push(0x301);
    } else if cp == 0x108 {
        r.push(0x43);
        r.push(0x302);
    } else if cp == 0x109 {
        r.push(0x63);
        r.push(0x302);
    } else if cp == 0x10a {
        r.push(0x43);
        r.push(0x307);
    } else if cp == 0x10b {
        r.push(0x63);
        r.push(0x307);
    } else if cp == 0x10c {
        r.push(0x43);
        r.push(0x30c);
    } else if cp == 0x10d {
        r.push(0x63);
        r.push(0x30c);
    } else if cp == 0x10e {
        r.push(0x44);
        r.push(0x30c);
    } else if cp == 0x10f {
        r.push(0x64);
        r.push(0x30c);
    } else if cp == 0x112 {
        r.push(0x45);
        r.push(0x304);
    } else if cp == 0x113 {
        r.push(0x65);
        r.push(0x304);
    } else if cp == 0x114 {
        r.push(0x45);
        r.push(0x306);
    } else if cp == 0x115 {
        r.push(0x65);
        r.push(0x306);
    } else if cp == 0x116 {
        r.push(0x45);
        r.push(0x307);
    } else if cp == 0x117 {
        r.push(0x65);
        r.push(0x307);
    } else if cp == 0x118 {
        r.push(0x45);
        r.push(0x328);
    } else if cp == 0x119 {
        r.push(0x65);
        r.push(0x328);
    } else if cp == 0x11a {
        r.push(0x45);
        r.push(0x30c);
    } else if cp == 0x11b {
        r.push(0x65);
        r.push(0x30c);
    } else if cp == 0x11c {
        r.push(0x47);
        r.push(0x302);
    } else if cp == 0x11d {
        r.push(0x67);
        r.push(0x302);
    } else if cp == 0x11e {
        r.push(0x47);
        r.push(0x306);
    } else if cp == 0x11f {
        r.push(0x67);
        r.push(0x306);
    } else if cp == 0x120 {
        r.push(0x47);
        r.push(0x307);
    } else if cp == 0x121 {
        r.push(0x67);
        r.push(0x307);
    } else if cp == 0x122 {
        r.push(0x47);
        r.push(0x327);
    } else if cp == 0x123 {
        r.push(0x67);
        r.push(0x327);
    } else if cp == 0x124 {
        r.push(0x48);
        r.push(0x302);
    } else if cp == 0x125 {
        r.push(0x68);
        r.push(0x302);
    } else if cp == 0x128 {
        r.push(0x49);
        r.push(0x303);
    } else if cp == 0x129 {
        r.push(0x69);
        r.push(0x303);
    } else if cp == 0x12a {
        r.push(0x49);
        r.push(0x304);
    } else if cp == 0x12b {
        r.push(0x69);
        r.push(0x304);
    } else if cp == 0x12c {
        r.push(0x49);
        r.push(0x306);
    } else if cp == 0x12d {
        r.push(0x69);
        r.push(0x306);
    } else if cp == 0x12e {
        r.push(0x49);
        r.push(0x328);
    } else if cp == 0x12f {
        r.push(0x69);
        r.push(0x328);
    } else if cp == 0x130 {
        r.push(0x49);
        r.push(0x307);
    } else if cp == 0x134 {
        r.push(0x4a);
        r.push(0x302);
    } else if cp == 0x135 {
        r.push(0x6a);
        r.push(0x302);
    } else if cp == 0x136 {
        r.push(0x4b);
        r.push(0x327);
    } else if cp == 0x137 {
        r.push(0x6b);
        r.push(0x327);
    } else if cp == 0x139 {
        r.push(0x4c);
        r.push(0x301);
    } else if cp == 0x13a {
        r.push(0x6c);
        r.push(0x301);
    } else if cp == 0x13b {
        r.push(0x4c);
        r.push(0x327);
    } else if cp == 0x13c {
        r.push(0x6c);
        r.push(0x327);
    } else if cp == 0x13d {
        r.push(0x4c);
        r.push(0x30c);
    } else if cp == 0x13e {
        r.push(0x6c);
        r.push(0x30c);
    } else if cp == 0x143 {
        r.push(0x4e);
        r.push(0x301);
    } else if cp == 0x144 {
        r.push(0x6e);
        r.push(0x301);
    } else if cp == 0x145 {
        r.push(0x4e);
        r.push(0x327);
    } else if cp == 0x146 {
        r.push(0x6e);
        r.push(0x327);
    } else if cp == 0x147 {
        r.push(0x4e);
        r.push(0x30c);
    } else if cp == 0x148 {
        r.push(0x6e);
        r.push(0x30c);
    } else if cp == 0x14c {
        r.push(0x4f);
        r.push(0x304);
    } else if cp == 0x14d {
        r.push(0x6f);
        r.push(0x304);
    } else if cp == 0x14e {
        r.push(0x4f);
        r.push(0x306);
    } else if cp == 0x14f {
        r.push(0x6f);
        r.push(0x306);
    } else if cp == 0x150 {
        r.push(0x4f);
        r.push(0x30b);
    } else if cp == 0x151 {
        r.push(0x6f);
        r.push(0x30b);
    } else if cp == 0x154 {
        r.push(0x52);
        r.push(0x301);
    } else if cp == 0x155 {
        r.push(0x72);
        r.push(0x301);
    } else if cp == 0x156 {
        r.push(0x52);
        r.push(0x327);
    } else if cp == 0x157 {
        r.push(0x72);
        r.push(0x327);
    } else if cp == 0x158 {
        r.push(0x52);
        r.push(0x30c);
    } else if cp == 0x159 {
        r.push(0x72);
        r.push(0x30c);
    } else if cp == 0x15a {
        r.push(0x53);
        r.push(0x301);
    } else if cp == 0x15b {
        r.push(0x73);
        r.push(0x301);
    } else if cp == 0x15c {
        r.push(0x53);
        r.push(0x302);
    } else if cp == 0x15d {
        r.push(0x73);
        r.push(0x302);
    } else if cp == 0x15e {
        r.push(0x53);
        r.push(0x327);
    } else if cp == 0x15f {
        r.push(0x73);
        r.push(0x327);
    } else if cp == 0x160 {
        r.push(0x53);
        r.push(0x30c);
    } else if cp == 0x161 {
        r.push(0x73);
        r.push(0x30c);
    } else if cp == 0x162 {
        r.push(0x54);
        r.push(0x327);
    } else if cp == 0x163 {
        r.push(0x74);
        r.push(0x327);
    } else if cp == 0x164 {
        r.push(0x54);
        r.push(0x30c);
    } else if cp == 0x165 {
        r.push(0x74);
        r.push(0x30c);
    } else if cp == 0x168 {
        r.push(0x55);
        r.push(0x303);
    } else if cp == 0x169 {
        r.push(0x75);
        r.push(0x303);
    } else if cp == 0x16a {
        r.push(0x55);
        r.push(0x304);
    } else if cp == 0x16b {
        r.push(0x75);
        r.push(0x304);
    } else if cp == 0x16c {
        r.push(0x55);
        r.push(0x306);
    } else if cp == 0x16d {
        r.push(0x75);
        r.push(0x306);
    } else if cp == 0x16e {
        r.push(0x55);
        r.push(0x30a);
    } else if cp == 0x16f {
        r.push(0x75);
        r.push(0x30a);
    } else if cp == 0x170 {
        r.push(0x55);
        r.push(0x30b);
    } else if cp == 0x171 {
        r.push(0x75);
        r.push(0x30b);
    } else if cp == 0x172 {
        r.push(0x55);
        r.push(0x328);
    } else if cp == 0x173 {
        r.push(0x75);
        r.push(0x328);
    } else if cp == 0x174 {
        r.push(0x57);
        r.push(0x302);
    } else if cp == 0x175 {
        r.push(0x77);
        r.push(0x302);
    } else if cp == 0x176 {
        r.push(0x59);
        r.push(0x302);
    } else if cp == 0x177 {
        r.push(0x79);
        r.push(0x302);
    } else if cp == 0x178 {
        r.push(0x59);
        r.push(0x308);
    } else if cp == 0x179 {
        r.push(0x5a);
        r.push(0x301);
    } else if cp == 0x17a {
        r.push(0x7a);
        r.push(0x301);
    } else if cp == 0x17b {
        r.push(0x5a);
        r.push(0x307);
    } else if cp == 0x17c {
        r.push(0x7a);
        r.push(0x307);
    } else if cp == 0x17d {
        r.push(0x5a);
        r.push(0x30c);
    } else if cp == 0x17e {
        r.push(0x7a);
        r.push(0x30c);
    } else if cp == 0x1a0 {
        r.push(0x4f);
        r.push(0x31b);
    } else if cp == 0x1a1 {
        r.push(0x6f);
        r.push(0x31b);
    } else if cp == 0x1af {
        r.push(0x55);
        r.push(0x31b);
    } else if cp == 0x1b0 {
        r.push(0x75);
        r.push(0x31b);
    } else if cp == 0x1cd {
        r.push(0x41);
        r.push(0x30c);
    } else if cp == 0x1ce {
        r.push(0x61);
        r.push(0x30c);
    } else if cp == 0x1cf {
        r.push(0x49);
        r.push(0x30c);
    } else if cp == 0x1d0 {
        r.push(0x69);
        r.push(0x30c);
    } else if cp == 0x1d1 {
        r.push(0x4f);
        r.push(0x30c);
    } else if cp == 0x1d2 {
        r.push(0x6f);
        r.push(0x30c);
    } else if cp == 0x1d3 {
        r.push(0x55);
        r.push(0x30c);
    } else if cp == 0x1d4 {
        r.push(0x75);
        r.push(0x30c);
    } else if cp == 0x1d5 {
        r.push(0x55);
        r.push(0x308);
        r.push(0x304);
    } else if cp == 0x1d6 {
        r.push(0x75);
        r.push(0x308);
        r.push(0x304);
    } else if cp == 0x1d7 {
        r.push(0x55);
        r.push(0x308);
        r.push(0x301);
    } else if cp == 0x1d8 {
        r.push(0x75);
        r.push(0x308);
        r.push(0x301);
    } else if cp == 0x1d9 {
        r.push(0x55);
        r.push(0x308);
        r.push(0x30c);
    } else if cp == 0x1da {
        r.push(0x75);
        r.push(0x308);
        r.push(0x30c);
    } else if cp == 0x1db {
        r.push(0x55);
        r.push(0x308);
        r.push(0x300);
    } else if cp == 0x1dc {
        r.push(0x75);
        r.push(0x308);
        r.push(0x300);
    } else if cp == 0x1de {
        r.push(0x41);
        r.push(0x308);
        r.push(0x304);
    } else if cp == 0x1df {
        r.push(0x61);
        r.push(0x308);
        r.push(0x304);
    } else if cp == 0x1e0 {
        r.push(0x41);
        r.push(0x307);
        r.push(0x304);
    } else if cp == 0x1e1 {
        r.push(0x61);
        r.push(0x307);
        r.push(0x304);
    } else if cp == 0x1e2 {
        r.push(0xc6);
        r.push(0x304);
    } else if cp == 0x1e3 {
        r.push(0xe6);
        r.push(0x304);
    } else if cp == 0x1e6 {
        r.push(0x47);
        r.push(0x30c);
    } else if cp == 0x1e7 {
        r.push(0x67);
        r.push(0x30c);
    } else if cp == 0x1e8 {
        r.push(0x4b);
        r.push(0x30c);
    } else if cp == 0x1e9 {
        r.push(0x6b);
        r.push(0x30c);
    } else if cp == 0x1ea {
        r.push(0x4f);
        r.push(0x328);
    } else if cp == 0x1eb {
        r.push(0x6f);
        r.push(0x328);
    } else if cp == 0x1ec {
        r.push(0x4f);
        r.push(0x328);
        r.push(0x304);
    } else if cp == 0x1ed {
        r.push(0x6f);
        r.push(0x328);
        r.push(0x304);
    } else if cp == 0x1ee {
        r.push(0x1b7);
        r.push(0x30c);
    } else if cp == 0x1ef {
        r.push(0x292);
        r.push(0x30c);
    } else if cp == 0x1f0 {
        r.push(0x6a);
        r.push(0x30c);
    } else if cp == 0x1f4 {
        r.push(0x47);
        r.push(0x301);
    } else if cp == 0x1f5 {
        r.push(0x67);
        r.push(0x301);
    } else if cp == 0x1f8 {
        r.push(0x4e);
        r.push(0x300);
    } else if cp == 0x1f9 {
        r.push(0x6e);
        r.push(0x300);
    } else if cp == 0x1fa {
        r.push(0x41);
        r.push(0x30a);
        r.push(0x301);
    } else if cp == 0x1fb {
        r.push(0x61);
        r.push(0x30a);
        r.push(0x301);
    } else if cp == 0x1fc {
        r.push(0xc6);
        r.push(0x301);
    } else if cp == 0x1fd {
        r.push(0xe6);
        r.push(0x301);
    } else if cp == 0x1fe {
        r.push(0xd8);
        r.push(0x301);
    } else if cp == 0x1ff {
        r.push(0xf8);
        r.push(0x301);
    } else {
        r.push(cp);
    }
}

pub open spec fn decomp_002(cp: u32) -> Seq<u32> {
    if cp == 0x200 {
        seq![0x41u32, 0x30fu32]
    } else if cp == 0x201 {
        seq![0x61u32, 0x30fu32]
    } else if cp == 0x202 {
        seq![0x41u32, 0x311u32]
    } else if cp == 0x203 {
        seq![0x61u32, 0x311u32]
    } else if cp == 0x204 {
        seq![0x45u32, 0x30fu32]
    } else if cp == 0x205 {
        seq![0x65u32, 0x30fu32]
    } else if cp == 0x206 {
        seq![0x45u32, 0x311u32]
    } else if cp == 0x207 {
        seq![0x65u32, 0x311u32]
    } else if cp == 0x208 {
        seq![0x49u32, 0x30fu32]
    } else if cp == 0x209 {
        seq![0x69u32, 0x30fu32]
    } else if cp == 0x20a {
        seq![0x49u32, 0x311u32]
    } else if cp == 0x20b {
        seq![0x69u32, 0x311u32]
    } else if cp == 0x20c {
        seq![0x4fu32, 0x30fu32]
    } else if cp == 0x20d {
        seq![0x6fu32, 0x30fu32]
    } else if cp == 0x20e {
        seq![0x4fu32, 0x311u32]
    } else if cp == 0x20f {
        seq![0x6fu32, 0x311u32]
    } else if cp == 0x210 {
        seq![0x52u32, 0x30fu32]
    } else if cp == 0x211 {
        seq![0x72u32, 0x30fu32]
    } else if cp == 0x212 {
        seq![0x52u32, 0x311u32]
    } else if cp == 0x213 {
        seq![0x72u32, 0x311u32]
    } else if cp == 0x214 {
        seq![0x55u32, 0x30fu32]
    } else if cp == 0x215 {
        seq![0x75u32, 0x30fu32]
    } else if cp == 0x216 {
        seq![0x55u32, 0x311u32]
    } else if cp == 0x217 {
        seq![0x75u32, 0x311u32]
    } else if cp == 0x218 {
        seq![0x53u32, 0x326u32]
    } else if cp == 0x219 {
        seq![0x73u32, 0x326u32]
    } else if cp == 0x21a {
        seq![0x54u32, 0x326u32]
    } else if cp == 0x21b {
        seq![0x74u32, 0x326u32]
    } else if cp == 0x21e {
        seq![0x48u32, 0x30cu32]
    } else if cp == 0x21f {
        seq![0x68u32, 0x30cu32]
    } else if cp == 0x226 {
        seq![0x41u32, 0x307u32]
    } else if cp == 0x227 {
        seq![0x61u32, 0x307u32]
    } else if cp == 0x228 {
        seq![0x45u32, 0x327u32]
    } else if cp == 0x229 {
        seq![0x65u32, 0x327u32]
    } else if cp == 0x22a {
        seq![0x4fu32, 0x308u32, 0x304u32]
    } else if cp == 0x22b {
        seq![0x6fu32, 0x308u32, 0x304u32]
    } else if cp == 0x22c {
        seq![0x4fu32, 0x303u32, 0x304u32]
    } else if cp == 0x22d {
        seq![0x6fu32, 0x303u32, 0x304u32]
    } else if cp == 0x22e {
        seq![0x4fu32, 0x307u32]
    } else if cp == 0x22f {
        seq![0x6fu32, 0x307u32]
    } else if cp == 0x230 {
        seq![0x4fu32, 0x307u32, 0x304u32]
    } else if cp == 0x231 {
        seq![0x6fu32, 0x307u32, 0x304u32]
    } else if cp == 0x232 {
        seq![0x59u32, 0x304u32]
    } else if cp == 0x233 {
        seq![0x79u32, 0x304u32]
    } else {
        seq![cp]
    }
}

fn push_decomp_002(r: &mut Vec<u32>, cp: u32)
    ensures
        final(r)@ == old(r)@ + decomp_002(cp),
{
    if cp == 0x200 {
        r.push(0x41);
        r.push(0x30f);
    } else if cp == 0x201 {
        r.push(0x61);
        r.push(0x30f);
    } else if cp == 0x202 {
        r.push(0x41);
        r.push(0x311);
    } else if cp == 0x203 {
        r.push(0x61);
        r.push(0x311);
    } else if cp == 0x204 {
        r.push(0x45);
        r.push(0x30f);
    } else if cp == 0x205 {
        r.push(0x65);
        r.push(0x30f);
    } else if cp == 0x206 {
        r.push(0x45);
        r.push(0x311);
    } else if cp == 0x207 {
        r.push(0x65);
        r.push(0x311);
    } else if cp == 0x208 {
        r.push(0x49);
        r.push(0x30f);
    } else if cp == 0x209 {
        r.push(0x69);
        r.push(0x30f);
    } else if cp == 0x20a {
        r.push(0x49);
        r.push(0x311);
    } else if cp == 0x20b {
        r.push(0x69);
        r.push(0x311);
    } else if cp == 0x20c {
        r.push(0x4f);
        r.push(0x30f);
    } else if cp == 0x20d {
        r.push(0x6f);
        r.push(0x30f);
    } else if cp == 0x20e {
        r.push(0x4f);
        r.push(0x311);
    } else if cp == 0x20f {
        r.push(0x6f);
        r.push(0x311);
    } else if cp == 0x210 {
        r.push(0x52);
        r.push(0x30f);
    } else if cp == 0x211 {
        r.push(0x72);
        r.push(0x30f);
    } else if cp == 0x212 {
        r.push(0x52);
        r.push(0x311);
    } else if cp == 0x213 {
        r.push(0x72);
        r.push(0x311);
    } else if cp == 0x214 {
        r.push(0x55);
        r.push(0x30f);
    } else if cp == 0x215 {
        r.push(0x75);
        r.push(0x30f);
    } else if cp == 0x216 {
        r.push(0x55);
        r.push(0x311);
    } else if cp == 0x217 {
        r.push(0x75);
        r.push(0x311);
    } else if cp == 0x218 {
        r.push(0x53);
        r.push(0x326);
    } else if cp == 0x219 {
        r.push(0x73);
        r.push(0x326);
    } else if cp == 0x21a {
        r.push(0x54);
        r.push(0x326);
    } else if cp == 0x21b {
        r.push(0x74);
        r.push(0x326);
    } else if cp == 0x21e {
        r.push(0x48);
        r.push(0x30c);
    } else if cp == 0x21f {
        r.push(0x68);
        r.push(0x30c);
    } else if cp == 0x226 {
        r.push(0x41);
        r.push(0x307);
    } else if cp == 0x227 {
        r.push(0x61);
        r.push(0x307);
    } else if cp == 0x228 {
        r.push(0x45);
        r.push(0x327);
    } else if cp == 0x229 {
        r.push(0x65);
        r.push(0x327);
    } else if cp == 0x22a {
        r.push(0x4f);
        r.push(0x308);
        r.push(0x304);
    } else if cp == 0x22b {
        r.push(0x6f);
        r.push(0x308);
        r.push(0x304);
    } else if cp == 0x22c {
        r.push(0x4f);
        r.push(0x303);
        r.push(0x304);
    } else if cp == 0x22d {
        r.push(0x6f);
        r.push(0x303);
        r.push(0x304);
    } else if cp == 0x22e {
        r.push(0x4f);
        r.push(0x307);
    } else if cp == 0x22f {
        r.push(0x6f);
        r.push(0x307);
    } else if cp == 0x230 {
        r.push(0x4f);
        r.push(0x307);
        r.push(0x304);
    } else if cp == 0x231 {
        r.push(0x6f);
        r.push(0x307);
        r.push(0x304);
    } else if cp == 0x232 {
        r.push(0x59);
        r.push(0x304);
    } else if cp == 0x233 {
        r.push(0x79);
        r.push(0x304);
    } else {
        r.push(cp);
    }
}

pub open spec fn decomp_003(cp: u32) -> Seq<u32> {
    if cp == 0x340 {
        seq![0x300u32]
    } else if cp == 0x341 {
        seq![0x301u32]
    } else if cp == 0x343 {
        seq![0x313u32]
    } else if cp == 0x344 {
        seq![0x308u32, 0x301u32]
    } else if cp == 0x374 {
        seq![0x2b9u32]
    } else if cp == 0x37e {
        seq![0x3bu32]
    } else if cp == 0x385 {
        seq![0xa8u32, 0x301u32]
    } else if cp == 0x386 {
        seq![0x391u32, 0x301u32]
    } else if cp == 0x387 {
        seq![0xb7u32]
    } else if cp == 0x388 {
        seq![0x395u32, 0x301u32]
    } else if cp == 0x389 {
        seq![0x397u32, 0x301u32]
    } else if cp == 0x38a {
        seq![0x399u32, 0x301u32]
    } else if cp == 0x38c {
        seq![0x39fu32, 0x301u32]
    } else if cp == 0x38e {
        seq![0x3a5u32, 0x301u32]
    } else if cp == 0x38f {
        seq![0x3a9u32, 0x301u32]
    } else if cp == 0x390 {
        seq![0x3b9u32, 0x308u32, 0x301u32]
    } else if cp == 0x3aa {
        seq![0x399u32, 0x308u32]
    } else if cp == 0x3ab {
        seq![0x3a5u32, 0x308u32]
    } else if cp == 0x3ac {
        seq![0x3b1u32, 0x301u32]
    } else if cp == 0x3ad {
        seq![0x3b5u32, 0x301u32]
    } else if cp == 0x3ae {
        seq![0x3b7u32, 0x301u32]
    } else if cp == 0x3af {
        seq![0x3b9u32, 0x301u32]
    } else if cp == 0x3b0 {
        seq![0x3c5u32, 0x308u32, 0x301u32]
    } else if cp == 0x3ca {
        seq![0x3b9u32, 0x308u32]
    } else if cp == 0x3cb {
        seq![0x3c5u32, 0x308u32]
    } else if cp == 0x3cc {
        seq![0x3bfu32, 0x301u32]
    } else if cp == 0x3cd {
        seq![0x3c5u32, 0x301u32]
    } else if cp == 0x3ce {
        seq![0x3c9u32, 0x301u32]
    } else if cp == 0x3d3 {
        seq![0x3d2u32, 0x301u32]
    } else if cp == 0x3d4 {
        seq![0x3d2u32, 0x308u32]
    } else {
        seq![cp]
    }
}

fn push_decomp_003(r: &mut Vec<u32>, cp: u32)
    ensures
        final(r)@ == old(r)@ + decomp_003(cp),
{
    if cp == 0x340 {
        r.push(0x300);
    } else if cp == 0x341 {
        r.push(0x301);
    } else if cp == 0x343 {
        r.push(0x313);
    } else if cp == 0x344 {
        r.push(0x308);
        r.push(0x301);
    } else if cp == 0x374 {
        r.push(0x2b9);
    } else if cp == 0x37e {
        r.push(0x3b);
    } else if cp == 0x385 {
        r.push(0xa8);
        r.push(0x301);
    } else if cp == 0x386 {
        r.push(0x391);
        r.push(0x301);
    } else if cp == 0x387 {
        r.push(0xb7);
    } else if cp == 0x388 {
        r.push(0x395);
        r.push(0x301);
    } else if cp == 0x389 {
        r.push(0x397);
        r.push(0x301);
    } else if cp == 0x38a {
        r.push(0x399);
        r.push(0x301);
    } else if cp == 0x38c {
        r.push(0x39f);
        r.push(0x301);
    } else if cp == 0x38e {
        r.push(0x3a5);
        r.push(0x301);
    } else if cp == 0x38f {
        r.push(0x3a9);
        r.push(0x301);
    } else if cp == 0x390 {
        r.push(0x3b9);
        r.push(0x308);
        r.push(0x301);
    } else if cp == 0x3aa {
        r.push(0x399);
        r.push(0x308);
    } else if cp == 0x3ab {
        r.push(0x3a5);
        r.push(0x308);
    } else if cp == 0x3ac {
        r.push(0x3b1);
        r.push(0x301);
    } else if cp == 0x3ad {
        r.push(0x3b5);
        r.push(0x301);
    } else if cp == 0x3ae {
        r.push(0x3b7);
        r.push(0x301);
    } else if cp == 0x3af {
        r.push(0x3b9);
        r.push(0x301);
    } else if cp == 0x3b0 {
        r.push(0x3c5);
        r.push(0x308);
        r.push(0x301);
    } else if cp == 0x3ca {
        r.push(0x3b9);
        r.push(0x308);
    } else if cp == 0x3cb {
        r.push(0x3c5);
        r.push(0x308);
    } else if cp == 0x3cc {
        r.push(0x3bf);
        r.push(0x301);
    } else if cp == 0x3cd {
        r.push(0x3c5);
        r.push(0x301);
    } else if cp == 0x3ce {
        r.push(0x3c9);
        r.push(0x301);
    } else if cp == 0x3d3 {
        r.push(0x3d2);
        r.push(0x301);
    } else if cp == 0x3d4 {
        r.push(0x3d2);
        r.push(0x308);
    } else {
        r.push(cp);
    }
}

pub open spec fn decomp_004(cp: u32) -> Seq<u32> {
    if cp == 0x400 {
        seq![0x415u32, 0x300u32]
    } else if cp == 0x401 {
        seq![0x415u32, 0x308u32]
    } else if cp == 0x403 {
        seq![0x413u32, 0x301u32]
    } else if cp == 0x407 {
        seq![0x406u32, 0x308u32]
    } else if cp == 0x40c {
        seq![0x41au32, 0x301u32]
    } else if cp == 0x40d {
        seq![0x418u32, 0x300u32]
    } else if cp == 0x40e {
        seq![0x423u32, 0x306u32]
    } else if cp == 0x419 {
        seq![0x418u32, 0x306u32]
    } else if cp == 0x439 {
        seq![0x438u32, 0x306u32]
    } else if cp == 0x450 {
        seq![0x435u32, 0x300u32]
    } else if cp == 0x451 {
        seq![0x435u32, 0x308u32]
    } else if cp == 0x453 {
        seq![0x433u32, 0x301u32]
    } else if cp == 0x457 {
        seq![0x456u32, 0x308u32]
    } else if cp == 0x45c {
        seq![0x43au32, 0x301u32]
    } else if cp == 0x45d {
        seq![0x438u32, 0x300u32]
    } else if cp == 0x45e {
        seq![0x443u32, 0x306u32]
    } else if cp == 0x476 {
        seq![0x474u32, 0x30fu32]
    } else if cp == 0x477 {
        seq![0x475u32, 0x30fu32]
    } else if cp == 0x4c1 {
        seq![0x416u32, 0x306u32]
    } else if cp == 0x4c2 {
        seq![0x436u32, 0x306u32]
    } else if cp == 0x4d0 {
        seq![0x410u32, 0x306u32]
    } else if cp == 0x4d1 {
        seq![0x430u32, 0x306u32]
    } else if cp == 0x4d2 {
        seq![0x410u32, 0x308u32]
    } else if cp == 0x4d3 {
        seq![0x430u32, 0x308u32]
    } else if cp == 0x4d6 {
        seq![0x415u32, 0x306u32]
    } else if cp == 0x4d7 {
        seq![0x435u32, 0x306u32]
    } else if cp == 0x4da {
        seq![0x4d8u32, 0x308u32]
    } else if cp == 0x4db {
        seq![0x4d9u32, 0x308u32]
    } else if cp == 0x4dc {
        seq![0x416u32, 0x308u32]
    } else if cp == 0x4dd {
        seq![0x436u32, 0x308u32]
    } else if cp == 0x4de {
        seq![0x417u32, 0x308u32]
    } else if cp == 0x4df {
        seq![0x437u32, 0x308u32]
    } else if cp == 0x4e2 {
        seq![0x418u32, 0x304u32]
    } else if cp == 0x4e3 {
        seq![0x438u32, 0x304u32]
    } else if cp == 0x4e4 {
        seq![0x418u32, 0x308u32]
    } else if cp == 0x4e5 {
        seq![0x438u32, 0x308u32]
    } else if cp == 0x4e6 {
        seq![0x41eu32, 0x308u32]
    } else if cp == 0x4e7 {
        seq![0x43eu32, 0x308u32]
    } else if cp == 0x4ea {
        seq![0x4e8u32, 0x308u32]
    } else if cp == 0x4eb {
        seq![0x4e9u32, 0x308u32]
    } else if cp == 0x4ec {
        seq![0x42du32, 0x308u32]
    } else if cp == 0x4ed {
        seq![0x44du32, 0x308u32]
    } else if cp == 0x4ee {
        seq![0x423u32, 0x304u32]
    } else if cp == 0x4ef {
        seq![0x443u32, 0x304u32]
    } else if cp == 0x4f0 {
        seq![0x423u32, 0x308u32]
    } else if cp == 0x4f1 {
        seq![0x443u32, 0x308u32]
    } else if cp == 0x4f2 {
        seq![0x423u32, 0x30bu32]
    } else if cp == 0x4f3 {
        seq![0x443u32, 0x30bu32]
    } else if cp == 0x4f4 {
        seq![0x427u32, 0x308u32]
    } else if cp == 0x4f5 {
        seq![0x447u32, 0x308u32]
    } else if cp == 0x4f8 {
        seq![0x42bu32, 0x308u32]
    } else if cp == 0x4f9 {
        seq![0x44bu32, 0x308u32]
    } else {
        seq![cp]
    }
}

fn push_decomp_004(r: &mut Vec<u32>, cp: u32)
    ensures
        final(r)@ == old(r)@ + decomp_004(cp),
{
    if cp == 0x400 {
        r.push(0x415);
        r.push(0x300);
    } else if cp == 0x401 {
        r.push(0x415);
        r.push(0x308);
    } else if cp == 0x403 {
        r.push(0x413);
        r.push(0x301);
    } else if cp == 0x407 {
        r.push(0x406);
        r.push(0x308);
    } else if cp == 0x40c {
        r.push(0x41a);
        r.push(0x301);
    } else if cp == 0x40d {
        r.push(0x418);
        r.push(0x300);
    } else if cp == 0x40e {
        r.push(0x423);
        r.push(0x306);
    } else if cp == 0x419 {
        r.push(0x418);
        r.push(0x306);
    } else if cp == 0x439 {
        r.push(0x438);
        r.push(0x306);
    } else if cp == 0x450 {
        r.push(0x435);
        r.push(0x300);
    } else if cp == 0x451 {
        r.push(0x435);
        r.push(0x308);
    } else if cp == 0x453 {
        r.push(0x433);
        r.push(0x301);
    } else if cp == 0x457 {
        r.push(0x456);
        r.push(0x308);
    } else if cp == 0x45c {
        r.push(0x43a);
        r.push(0x301);
    } else if cp == 0x45d {
        r.push(0x438);
        r.push(0x300);
    } else if cp == 0x45e {
        r.push(0x443);
        r.push(0x306);
    } else if cp == 0x476 {
        r.push(0x474);
        r.push(0x30f);
    } else if cp == 0x477 {
        r.push(0x475);
        r.push(0x30f);
    } else if cp == 0x4c1 {
        r.push(0x416);
        r.push(0x306);
    } else if cp == 0x4c2 {
        r.push(0x436);
        r.push(0x306);
    } else if cp == 0x4d0 {
        r.push(0x410);
        r.push(0x306);
    } else if cp == 0x4d1 {
        r.push(0x430);
        r.push(0x306);
    } else if cp == 0x4d2 {
        r.push(0x410);
        r.push(0x308);
    } else if cp == 0x4d3 {
        r.push(0x430);
        r.push(0x308);
    } else if cp == 0x4d6 {
        r.push(0x415);
        r.push(0x306);
    } else if cp == 0x4d7 {
        r.push(0x435);
        r.push(0x306);
    } else if cp == 0x4da {
        r.push(0x4d8);
        r.push(0x308);
    } else if cp == 0x4db {
        r.push(0x4d9);
        r.push(0x308);
    } else if cp == 0x4dc {
        r.push(0x416);
        r.push(0x308);
    } else if cp == 0x4dd {
        r.push(0x436);
        r.push(0x308);
    } else if cp == 0x4de {
        r.push(0x417);
        r.push(0x308);
    } else if cp == 0x4df {
        r.push(0x437);
        r.push(0x308);
    } else if cp == 0x4e2 {
        r.push(0x418);
        r.push(0x304);
    } else if cp == 0x4e3 {
        r.push(0x438);
        r.push(0x304);
    } else if cp == 0x4e4 {
        r.push(0x418);
        r.push(0x308);
    } else if cp == 0x4e5 {
        r.push(0x438);
        r.push(0x308);
    } else if cp == 0x4e6 {
        r.push(0x41e);
        r.push(0x308);
    } else if cp == 0x4e7 {
        r.push(0x43e);
        r.push(0x308);
    } else if cp == 0x4ea {
        r.push(0x4e8);
        r.push(0x308);
    } else if cp == 0x4eb {
        r.push(0x4e9);
        r.push(0x308);
    } else if cp == 0x4ec {
        r.push(0x42d);
        r.push(0x308);
    } else if cp == 0x4ed {
        r.push(0x44d);
        r.push(0x308);
    } else if cp == 0x4ee {
        r.push(0x423);
        r.push(0x304);
    } else if cp == 0x4ef {
        r.push(0x443);
        r.push(0x304);
    } else if cp == 0x4f0 {
        r.push(0x423);
        r.push(0x308);
    } else if cp == 0x4f1 {
        r.push(0x443);
        r.push(0x308);
    } else if cp == 0x4f2 {
        r.push(0x423);
        r.push(0x30b);
    } else if cp == 0x4f3 {
        r.push(0x443);
        r.push(0x30b);
    } else if cp == 0x4f4 {
        r.push(0x427);
        r.push(0x308);
    } else if cp == 0x4f5 {
        r.push(0x447);
        r.push(0x308);
    } else if cp == 0x4f8 {
        r.push(0x42b);
        r.push(0x308);
    } else if cp == 0x4f9 {
        r.push(0x44b);
        r.push(0x308);
    } else {
        r.push(cp);
    }
}

pub open spec fn decomp_006(cp: u32) -> Seq<u32> {
    if cp == 0x622 {
        seq![0x627u32, 0x653u32]
    } else if cp == 0x623 {
        seq![0x627u32, 0x654u32]
    } else if cp == 0x624 {
        seq![0x648u32, 0x654u32]
    } else if cp == 0x625 {
        seq![0x627u32, 0x655u32]
    } else if cp == 0x626 {
        seq![0x64au32, 0x654u32]
    } else if cp == 0x6c0 {
        seq![0x6d5u32, 0x654u32]
    } else if cp == 0x6c2 {
        seq![0x6c1u32, 0x654u32]
    } else if cp == 0x6d3 {
        seq![0x6d2u32, 0x654u32]
    } else {
        seq![cp]
    }
}

fn push_decomp_006(r: &mut Vec<u32>, cp: u32)
    ensures
        final(r)@ == old(r)@ + decomp_006(cp),
{
    if cp == 0x622 {
        r.push(0x627);
        r.push(0x653);
    } else if cp == 0x623 {
        r.push(0x627);
        r.push(0x654);
    } else if cp == 0x624 {
        r.push(0x648);
        r.push(0x654);
    } else if cp == 0x625 {
        r.push(0x627);
        r.push(0x655);
    } else if cp == 0x626 {
        r.push(0x64a);
        r.push(0x654);
    } else if cp == 0x6c0 {
        r.push(0x6d5);
        r.push(0x654);
    } else if cp == 0x6c2 {
        r.push(0x6c1);
        r.push(0x654);
    } else if cp == 0x6d3 {
        r.push(0x6d2);
        r.push(0x654);
    } else {
        r.push(cp);
    }
}

pub open spec fn decomp_009(cp: u32) -> Seq<u32> {
    if cp == 0x929 {
        seq![0x928u32, 0x93cu32]
    } else if cp == 0x931 {
        seq![0x930u32, 0x93cu32]
    } else if cp == 0x934 {
        seq![0x933u32, 0x93cu32]
    } else if cp == 0x958 {
        seq![0x915u32, 0x93cu32]
    } else if cp == 0x959 {
        seq![0x916u32, 0x93cu32]
    } else if cp == 0x95a {
        seq![0x917u32, 0x93cu32]
    } else if cp == 0x95b {
        seq![0x91cu32, 0x93cu32]
    } else if cp == 0x95c {
        seq![0x921u32, 0x93cu32]
    } else if cp == 0x95d {
        seq![0x922u32, 0x93cu32]
    } else if cp == 0x95e {
        seq![0x92bu32, 0x93cu32]
    } else if cp == 0x95f {
        seq![0x92fu32, 0x93cu32]
    } else if cp == 0x9cb {
        seq![0x9c7u32, 0x9beu32]
    } else if cp == 0x9cc {
        seq![0x9c7u32, 0x9d7u32]
    } else if cp == 0x9dc {
        seq![0x9a1u32, 0x9bcu32]
    } else if cp == 0x9dd {
        seq![0x9a2u32, 0x9bcu32]
    } else if cp == 0x9df {
        seq![0x9afu32, 0x9bcu32]
    } else {
        seq![cp]
    }
}

fn push_decomp_009(r: &mut Vec<u32>, cp: u32)
    ensures
        final(r)@ == old(r)@ + decomp_009(cp),
{
    if cp == 0x929 {
        r.push(0x928);
        r.push(0x93c);
    } else if cp == 0x931 {
        r.push(0x930);
        r.push(0x93c);
    } else if cp == 0x934 {
        r.push(0x933);
        r.push(0x93c);
    } else if cp == 0x958 {
        r.push(0x915);
        r.push(0x93c);
    } else if cp == 0x959 {
        r.push(0x916);
        r.push(0x93c);
    } else if cp == 0x95a {
        r.push(0x917);
        r.push(0x93c);
    } else if cp == 0x95b {
        r.push(0x91c);
        r.push(0x93c);
    } else if cp == 0x95c {
        r.push(0x921);
        r.push(0x93c);
    } else if cp == 0x95d {
        r.push(0x922);
        r.push(0x93c);
    } else if cp == 0x95e {
        r.push(0x92b);
        r.push(0x93c);
    } else if cp == 0x95f {
        r.push(0x92f);
        r.push(0x93c);
    } else if cp == 0x9cb {
        r.push(0x9c7);
        r.push(0x9be);
    } else if cp == 0x9cc {
        r.push(0x9c7);
        r.push(0x9d7);
    } else if cp == 0x9dc {
        r.push(0x9a1);
        r.push(0x9bc);
    } else if cp == 0x9dd {
        r.push(0x9a2);
        r.push(0x9bc);
    } else if cp == 0x9df {
        r.push(0x9af);
        r.push(0x9bc);
    } else {
        r.push(cp);
    }
}

pub open spec fn decomp_00a(cp: u32) -> Seq<u32> {
    if cp == 0xa33 {
        seq![0xa32u32, 0xa3cu32]
    } else if cp == 0xa36 {
        seq![0xa38u32, 0xa3cu32]
    } else if cp == 0xa59 {
        seq![0xa16u32, 0xa3cu32]
    } else if cp == 0xa5a {
        seq![0xa17u32, 0xa3cu32]
    } else if cp == 0xa5b {
        seq![0xa1cu32, 0xa3cu32]
    } else if cp == 0xa5e {
        seq![0xa2bu32, 0xa3cu32]
    } else {
        seq![cp]
    }
}

fn push_decomp_00a(r: &mut Vec<u32>, cp: u32)
    ensures
        final(r)@ == old(r)@ + decomp_00a(cp),
{
    if cp == 0xa33 {
        r.push(0xa32);
        r.push(0xa3c);
    } else if cp == 0xa36 {
        r.push(0xa38);
        r.push(0xa3c);
    } else if cp == 0xa59 {
        r.push(0xa16);
        r.push(0xa3c);
    } else if cp == 0xa5a {
        r.push(0xa17);
        r.push(0xa3c);
    } else if cp == 0xa5b {
        r.push(0xa1c);
        r.push(0xa3c);
    } else if cp == 0xa5e {
        r.push(0xa2b);
        r.push(0xa3c);
    } else {
        r.push(cp);
    }
}

pub open spec fn decomp_00b(cp: u32) -> Seq<u32> {
    if cp == 0xb48 {
        seq![0xb47u32, 0xb56u32]
    } else if cp == 0xb4b {
        seq![0xb47u32, 0xb3eu32]
    } else if cp == 0xb4c {
        seq![0xb47u32, 0xb57u32]
    } else if cp == 0xb5c {
        seq![0xb21u32, 0xb3cu32]
    } else if cp == 0xb5d {
        seq![0xb22u32, 0xb3cu32]
    } else if cp == 0xb94 {
        seq![0xb92u32, 0xbd7u32]
    } else if cp == 0xbca {
        seq![0xbc6u32, 0xbbeu32]
    } else if cp == 0xbcb {
        seq![0xbc7u32, 0xbbeu32]
    } else if cp == 0xbcc {
        seq![0xbc6u32, 0xbd7u32]
    } else {
        seq![cp]
    }
}

fn push_decomp_00b(r: &mut Vec<u32>, cp: u32)
    ensures
        final(r)@ == old(r)@ + decomp_00b(cp),
{
    if cp == 0xb48 {
        r.push(0xb47);
        r.push(0xb56);
    } else if cp == 0xb4b {
        r.push(0xb47);
        r.push(0xb3e);
    } else if cp == 0xb4c {
        r.push(0xb47);
        r.push(0xb57);
    } else if cp == 0xb5c {
        r.push(0xb21);
        r.push(0xb3c);
    } else if cp == 0xb5d {
        r.push(0xb22);
        r.push(0xb3c);
    } else if cp == 0xb94 {
        r.push(0xb92);
        r.push(0xbd7);
    } else if cp == 0xbca {
        r.push(0xbc6);
        r.push(0xbbe);
    } else if cp == 0xbcb {
        r.push(0xbc7);
        r.push(0xbbe);
    } else if cp == 0xbcc {
        r.push(0xbc6);
        r.push(0xbd7);
    } else {
        r.push(cp);
    }
}

pub open spec fn decomp_00c(cp: u32) -> Seq<u32> {
    if cp == 0xc48 {
        seq![0xc46u32, 0xc56u32]
    } else if cp == 0xcc0 {
        seq![0xcbfu32, 0xcd5u32]
    } else if cp == 0xcc7 {
        seq![0xcc6u32, 0xcd5u32]
    } else if cp == 0xcc8 {
        seq![0xcc6u32, 0xcd6u32]
    } else if cp == 0xcca {
        seq![0xcc6u32, 0xcc2u32]
    } else if cp == 0xccb {
        seq![0xcc6u32, 0xcc2u32, 0xcd5u32]
    } else {
        seq![cp]
    }
}

fn push_decomp_00c(r: &mut Vec<u32>, cp: u32)
    ensures
        final(r)@ == old(r)@ + decomp_00c(cp),
{
    if cp == 0xc48 {
        r.push(0xc46);
        r.push(0xc56);
    } else if cp == 0xcc0 {
        r.push(0xcbf);
        r.push(0xcd5);
    } else if cp == 0xcc7 {
        r.push(0xcc6);
        r.push(0xcd5);
    } else if cp == 0xcc8 {
        r.push(0xcc6);
        r.push(0xcd6);
    } else if cp == 0xcca {
        r.push(0xcc6);
        r.push(0xcc2);
    } else if cp == 0xccb {
        r.push(0xcc6);
        r.push(0xcc2);
        r.push(0xcd5);
    } else {
        r.push(cp);
    }
}

pub open spec fn decomp_00d(cp: u32) -> Seq<u32> {
    if cp == 0xd4a {
        seq![0xd46u32, 0xd3eu32]
    } else if cp == 0xd4b {
        seq![0xd47u32, 0xd3eu32]
    } else if cp == 0xd4c {
        seq![0xd46u32, 0xd57u32]
    } else if cp == 0xdda {
        seq![0xdd9u32, 0xdcau32]
    } else if cp == 0xddc {
        seq![0xdd9u32, 0xdcfu32]
    } else if cp == 0xddd {
        seq![0xdd9u32, 0xdcfu32, 0xdcau32]
    } else if cp == 0xdde {
        seq![0xdd9u32, 0xddfu32]
    } else {
        seq![cp]
    }
}

fn push_decomp_00d(r: &mut Vec<u32>, cp: u32)
    ensures
        final(r)@ == old(r)@ + decomp_00d(cp),
{
    if cp == 0xd4a {
        r.push(0xd46);
        r.push(0xd3e);
    } else if cp == 0xd4b {
        r.push(0xd47);
        r.push(0xd3e);
    } else if cp == 0xd4c {
        r.push(0xd46);
        r.push(0xd57);
    } else if cp == 0xdda {
        r.push(0xdd9);
        r.push(0xdca);
    } else if cp == 0xddc {
        r.push(0xdd9);
        r.push(0xdcf);
    } else if cp == 0xddd {
        r.push(0xdd9);
        r.push(0xdcf);
        r.push(0xdca);
    } else if cp == 0xdde {
        r.push(0xdd9);
        r.push(0xddf);
    } else {
        r.push(cp);
    }
}

pub open spec fn decomp_00f(cp: u32) -> Seq<u32> {
    if cp == 0xf43 {
        seq![0xf42u32, 0xfb7u32]
    } else if cp == 0xf4d {
        seq![0xf4cu32, 0xfb7u32]
    } else if cp == 0xf52 {
        seq![0xf51u32, 0xfb7u32]
    } else if cp == 0xf57 {
        seq![0xf56u32, 0xfb7u32]
    } else if cp == 0xf5c {
        seq![0xf5bu32, 0xfb7u32]
    } else if cp == 0xf69 {
        seq![0xf40u32, 0xfb5u32]
    } else if cp == 0xf73 {
        seq![0xf71u32, 0xf72u32]
    } else if cp == 0xf75 {
        seq![0xf71u32, 0xf74u32]
    } else if cp == 0xf76 {
        seq![0xfb2u32, 0xf80u32]
    } else if cp == 0xf78 {
        seq![0xfb3u32, 0xf80u32]
    } else if cp == 0xf81 {
        seq![0xf71u32, 0xf80u32]
    } else if cp == 0xf93 {
        seq![0xf92u32, 0xfb7u32]
    } else if cp == 0xf9d {
        seq![0xf9cu32, 0xfb7u32]
    } else if cp == 0xfa2 {
        seq![0xfa1u32, 0xfb7u32]
    } else if cp == 0xfa7 {
        seq![0xfa6u32, 0xfb7u32]
    } else if cp == 0xfac {
        seq![0xfabu32, 0xfb7u32]
    } else if cp == 0xfb9 {
        seq![0xf90u32, 0xfb5u32]
    } else {
        seq![cp]
    }
}

fn push_decomp_00f(r: &mut Vec<u32>, cp: u32)
    ensures
        final(r)@ == old(r)@ + decomp_00f(cp),
{
    if cp == 0xf43 {
        r.push(0xf42);
        r.push(0xfb7);
    } else if cp == 0xf4d {
        r.push(0xf4c);
        r.push(0xfb7);
    } else if cp == 0xf52 {
        r.push(0xf51);
        r.push(0xfb7);
    } else if cp == 0xf57 {
        r.push(0xf56);
        r.push(0xfb7);
    } else if cp == 0xf5c {
        r.push(0xf5b);
        r.push(0xfb7);
    } else if cp == 0xf69 {
        r.push(0xf40);
        r.push(0xfb5);
    } else if cp == 0xf73 {
        r.push(0xf71);
        r.push(0xf72);
    } else if cp == 0xf75 {
        r.push(0xf71);
        r.push(0xf74);
    } else if cp == 0xf76 {
        r.push(0xfb2);
        r.push(0xf80);
    } else if cp == 0xf78 {
        r.push(0xfb3);
        r.push(0xf80);
    } else if cp == 0xf81 {
        r.push(0xf71);
        r.push(0xf80);
    } else if cp == 0xf93 {
        r.push(0xf92);
        r.push(0xfb7);
    } else if cp == 0xf9d {
        r.push(0xf9c);
        r.push(0xfb7);
    } else if cp == 0xfa2 {
        r.push(0xfa1);
        r.push(0xfb7);
    } else if cp == 0xfa7 {
        r.push(0xfa6);
        r.push(0xfb7);
    } else if cp == 0xfac {
        r.push(0xfab);
        r.push(0xfb7);
    } else if cp == 0xfb9 {
        r.push(0xf90);
        r.push(0xfb5);
    } else {
        r.push(cp);
    }
}

pub open spec fn decomp_010(cp: u32) -> Seq<u32> {
    if cp == 0x1026 {
        seq![0x1025u32, 0x102eu32]
    } else {
        seq![cp]
    }
}

fn push_decomp_010(r: &mut Vec<u32>, cp: u32)
    ensures
        final(r)@ == old(r)@ + decomp_010(cp),
{
    if cp == 0x1026 {
        r.push(0x1025);
        r.push(0x102e);
    } else {
        r.push(cp);
    }
}

pub open spec fn decomp_01b(cp: u32) -> Seq<u32> {
    if cp == 0x1b06 {
        seq![0x1b05u32, 0x1b35u32]
    } else if cp == 0x1b08 {
        seq![0x1b07u32, 0x1b35u32]
    } else if cp == 0x1b0a {
        seq![0x1b09u32, 0x1b35u32]
    } else if cp == 0x1b0c {
        seq![0x1b0bu32, 0x1b35u32]
    } else if cp == 0x1b0e {
        seq![0x1b0du32, 0x1b35u32]
    } else if cp == 0x1b12 {
        seq![0x1b11u32, 0x1b35u32]
    } else if cp == 0x1b3b {
        seq![0x1b3au32, 0x1b35u32]
    } else if cp == 0x1b3d {
        seq![0x1b3cu32, 0x1b35u32]
    } else if cp == 0x1b40 {
        seq![0x1b3eu32, 0x1b35u32]
    } else if cp == 0x1b41 {
        seq![0x1b3fu32, 0x1b35u32]
    } else if cp == 0x1b43 {
        seq![0x1b42u32, 0x1b35u32]
    } else {
        seq![cp]
    }
}

fn push_decomp_01b(r: &mut Vec<u32>, cp: u32)
    ensures
        final(r)@ == old(r)@ + decomp_01b(cp),
{
    if cp == 0x1b06 {
        r.push(0x1b05);
        r.push(0x1b35);
    } else if cp == 0x1b08 {
        r.push(0x1b07);
        r.push(0x1b35);
    } else if cp == 0x1b0a {
        r.push(0x1b09);
        r.push(0x1b35);
    } else if cp == 0x1b0c {
        r.push(0x1b0b);
        r.push(0x1b35);
    } else if cp == 0x1b0e {
        r.push(0x1b0d);
        r.push(0x1b35);
    } else if cp == 0x1b12 {
        r.push(0x1b11);
        r.push(0x1b35);
    } else if cp == 0x1b3b {
        r.push(0x1b3a);
        r.push(0x1b35);
    } else if cp == 0x1b3d {
        r.push(0x1b3c);
        r.push(0x1b35);
    } else if cp == 0x1b40 {
        r.push(0x1b3e);
        r.push(0x1b35);
    } else if cp == 0x1b41 {
        r.push(0x1b3f);
        r.push(0x1b35);
    } else if cp == 0x1b43 {
        r.push(0x1b42);
        r.push(0x1b35);
    } else {
        r.push(cp);
    }
}

pub open spec fn decomp_01e(cp: u32) -> Seq<u32> {
    if cp == 0x1e00 {
        seq![0x41u32, 0x325u32]
    } else if cp == 0x1e01 {
        seq![0x61u32, 0x325u32]
    } else if cp == 0x1e02 {
        seq![0x42u32, 0x307u32]
    } else if cp == 0x1e03 {
        seq![0x62u32, 0x307u32]
    } else if cp == 0x1e04 {
        seq![0x42u32, 0x323u32]
    } else if cp == 0x1e05 {
        seq![0x62u32, 0x323u32]
    } else if cp == 0x1e06 {
        seq![0x42u32, 0x331u32]
    } else if cp == 0x1e07 {
        seq![0x62u32, 0x331u32]
    } else if cp == 0x1e08 {
        seq![0x43u32, 0x327u32, 0x301u32]
    } else if cp == 0x1e09 {
        seq![0x63u32, 0x327u32, 0x301u32]
    } else if cp == 0x1e0a {
        seq![0x44u32, 0x307u32]
    } else if cp == 0x1e0b {
        seq![0x64u32, 0x307u32]
    } else if cp == 0x1e0c {
        seq![0x44u32, 0x323u32]
    } else if cp == 0x1e0d {
        seq![0x64u32, 0x323u32]
    } else if cp == 0x1e0e {
        seq![0x44u32, 0x331u32]
    } else if cp == 0x1e0f {
        seq![0x64u32, 0x331u32]
    } else if cp == 0x1e10 {
        seq![0x44u32, 0x327u32]
    } else if cp == 0x1e11 {
        seq![0x64u32, 0x327u32]
    } else if cp == 0x1e12 {
        seq![0x44u32, 0x32du32]
    } else if cp == 0x1e13 {
        seq![0x64u32, 0x32du32]
    } else if cp == 0x1e14 {
        seq![0x45u32, 0x304u32, 0x300u32]
    } else if cp == 0x1e15 {
        seq![0x65u32, 0x304u32, 0x300u32]
    } else if cp == 0x1e16 {
        seq![0x45u32, 0x304u32, 0x301u32]
    } else if cp == 0x1e17 {
        seq![0x65u32, 0x304u32, 0x301u32]
    } else if cp == 0x1e18 {
        seq![0x45u32, 0x32du32]
    } else if cp == 0x1e19 {
        seq![0x65u32, 0x32du32]
    } else if cp == 0x1e1a {
        seq![0x45u32, 0x330u32]
    } else if cp == 0x1e1b {
        seq![0x65u32, 0x330u32]
    } else if cp == 0x1e1c {
        seq![0x45u32, 0x327u32, 0x306u32]
    } else if cp == 0x1e1d {
        seq![0x65u32, 0x327u32, 0x306u32]
    } else if cp == 0x1e1e {
        seq![0x46u32, 0x307u32]
    } else if cp == 0x1e1f {
        seq![0x66u32, 0x307u32]
    } else if cp == 0x1e20 {
        seq![0x47u32, 0x304u32]
    } else if cp == 0x1e21 {
        seq![0x67u32, 0x304u32]
    } else if cp == 0x1e22 {
        seq![0x48u32, 0x307u32]
    } else if cp == 0x1e23 {
        seq![0x68u32, 0x307u32]
    } else if cp == 0x1e24 {
        seq![0x48u32, 0x323u32]
    } else if cp == 0x1e25 {
        seq![0x68u32, 0x323u32]
    } else if cp == 0x1e26 {
        seq![0x48u32, 0x308u32]
    } else if cp == 0x1e27 {
        seq![0x68u32, 0x308u32]
    } else if cp == 0x1e28 {
        seq![0x48u32, 0x327u32]
    } else if cp == 0x1e29 {
        seq![0x68u32, 0x327u32]
    } else if cp == 0x1e2a {
        seq![0x48u32, 0x32eu32]
    } else if cp == 0x1e2b {
        seq![0x68u32, 0x32eu32]
    } else if cp == 0x1e2c {
        seq![0x49u32, 0x330u32]
    } else if cp == 0x1e2d {
        seq![0x69u32, 0x330u32]
    } else if cp == 0x1e2e {
        seq![0x49u32, 0x308u32, 0x301u32]
    } else if cp == 0x1e2f {
        seq![0x69u32, 0x308u32, 0x301u32]
    } else if cp == 0x1e30 {
        seq![0x4bu32, 0x301u32]
    } else if cp == 0x1e31 {
        seq![0x6bu32, 0x301u32]
    } else if cp == 0x1e32 {
        seq![0x4bu32, 0x323u32]
    } else if cp == 0x1e33 {
        seq![0x6bu32, 0x323u32]
    } else if cp == 0x1e34 {
        seq![0x4bu32, 0x331u32]
    } else if cp == 0x1e35 {
        seq![0x6bu32, 0x331u32]
    } else if cp == 0x1e36 {
        seq![0x4cu32, 0x323u32]
    } else if cp == 0x1e37 {
        seq![0x6cu32, 0x323u32]
    } else if cp == 0x1e38 {
        seq![0x4cu32, 0x323u32, 0x304u32]
    } else if cp == 0x1e39 {
        seq![0x6cu32, 0x323u32, 0x304u32]
    } else if cp == 0x1e3a {
        seq![0x4cu32, 0x331u32]
    } else if cp == 0x1e3b {
        seq![0x6cu32, 0x331u32]
    } else if cp == 0x1e3c {
        seq![0x4cu32, 0x32du32]
    } else if cp == 0x1e3d {
        seq![0x6cu32, 0x32du32]
    } else if cp == 0x1e3e {
        seq![0x4du32, 0x301u32]
    } else if cp == 0x1e3f {
        seq![0x6du32, 0x301u32]
    } else if cp == 0x1e40 {
        seq![0x4du32, 0x307u32]
    } else if cp == 0x1e41 {
        seq![0x6du32, 0x307u32]
    } else if cp == 0x1e42 {
        seq![0x4du32, 0x323u32]
    } else if cp == 0x1e43 {
        seq![0x6du32, 0x323u32]
    } else if cp == 0x1e44 {
        seq![0x4eu32, 0x307u32]
    } else if cp == 0x1e45 {
        seq![0x6eu32, 0x307u32]
    } else if cp == 0x1e46 {
        seq![0x4eu32, 0x323u32]
    } else if cp == 0x1e47 {
        seq![0x6eu32, 0x323u32]
    } else if cp == 0x1e48 {
        seq![0x4eu32, 0x331u32]
    } else if cp == 0x1e49 {
        seq![0x6eu32, 0x331u32]
    } else if cp == 0x1e4a {
        seq![0x4eu32, 0x32du32]
    } else if cp == 0x1e4b {
        seq![0x6eu32, 0x32du32]
    } else if cp == 0x1e4c {
        seq![0x4fu32, 0x303u32, 0x301u32]
    } else if cp == 0x1e4d {
        seq![0x6fu32, 0x303u32, 0x301u32]
    } else if cp == 0x1e4e {
        seq![0x4fu32, 0x303u32, 0x308u32]
    } else if cp == 0x1e4f {
        seq![0x6fu32, 0x303u32, 0x308u32]
    } else if cp == 0x1e50 {
        seq![0x4fu32, 0x304u32, 0x300u32]
    } else if cp == 0x1e51 {
        seq![0x6fu32, 0x304u32, 0x300u32]
    } else if cp == 0x1e52 {
        seq![0x4fu32, 0x304u32, 0x301u32]
    } else if cp == 0x1e53 {
        seq![0x6fu32, 0x304u32, 0x301u32]
    } else if cp == 0x1e54 {
        seq![0x50u32, 0x301u32]
    } else if cp == 0x1e55 {
        seq![0x70u32, 0x301u32]
    } else if cp == 0x1e56 {
        seq![0x50u32, 0x307u32]
    } else if cp == 0x1e57 {
        seq![0x70u32, 0x307u32]
    } else if cp == 0x1e58 {
        seq![0x52u32, 0x307u32]
    } else if cp == 0x1e59 {
        seq![0x72u32, 0x307u32]
    } else if cp == 0x1e5a {
        seq![0x52u32, 0x323u32]
    } else if cp == 0x1e5b {
        seq![0x72u32, 0x323u32]
    } else if cp == 0x1e5c {
        seq![0x52u32, 0x323u32, 0x304u32]
    } else if cp == 0x1e5d {
        seq![0x72u32, 0x323u32, 0x304u32]
    } else if cp == 0x1e5e {
        seq![0x52u32, 0x331u32]
    } else if cp == 0x1e5f {
        seq![0x72u32, 0x331u32]
    } else if cp == 0x1e60 {
        seq![0x53u32, 0x307u32]
    } else if cp == 0x1e61 {
        seq![0x73u32, 0x307u32]
    } else if cp == 0x1e62 {
        seq![0x53u32, 0x323u32]
    } else if cp == 0x1e63 {
        seq![0x73u32, 0x323u32]
    } else if cp == 0x1e64 {
        seq![0x53u32, 0x301u32, 0x307u32]
    } else if cp == 0x1e65 {
        seq![0x73u32, 0x301u32, 0x307u32]
    } else if cp == 0x1e66 {
        seq![0x53u32, 0x30cu32, 0x307u32]
    } else if cp == 0x1e67 {
        seq![0x73u32, 0x30cu32, 0x307u32]
    } else if cp == 0x1e68 {
        seq![0x53u32, 0x323u32, 0x307u32]
    } else if cp == 0x1e69 {
        seq![0x73u32, 0x323u32, 0x307u32]
    } else if cp == 0x1e6a {
        seq![0x54u32, 0x307u32]
    } else if cp == 0x1e6b {
        seq![0x74u32, 0x307u32]
    } else if cp == 0x1e6c {
        seq![0x54u32, 0x323u32]
    } else if cp == 0x1e6d {
        seq![0x74u32, 0x323u32]
    } else if cp == 0x1e6e {
        seq![0x54u32, 0x331u32]
    } else if cp == 0x1e6f {
        seq![0x74u32, 0x331u32]
    } else if cp == 0x1e70 {
        seq![0x54u32, 0x32du32]
    } else if cp == 0x1e71 {
        seq![0x74u32, 0x32du32]
    } else if cp == 0x1e72 {
        seq![0x55u32, 0x324u32]
    } else if cp == 0x1e73 {
        seq![0x75u32, 0x324u32]
    } else if cp == 0x1e74 {
        seq![0x55u32, 0x330u32]
    } else if cp == 0x1e75 {
        seq![0x75u32, 0x330u32]
    } else if cp == 0x1e76 {
        seq![0x55u32, 0x32du32]
    } else if cp == 0x1e77 {
        seq![0x75u32, 0x32du32]
    } else if cp == 0x1e78 {
        seq![0x55u32, 0x303u32, 0x301u32]
    } else if cp == 0x1e79 {
        seq![0x75u32, 0x303u32, 0x301u32]
    } else if cp == 0x1e7a {
        seq![0x55u32, 0x304u32, 0x308u32]
    } else if cp == 0x1e7b {
        seq![0x75u32, 0x304u32, 0x308u32]
    } else if cp == 0x1e7c {
        seq![0x56u32, 0x303u32]
    } else if cp == 0x1e7d {
        seq![0x76u32, 0x303u32]
    } else if cp == 0x1e7e {
        seq![0x56u32, 0x323u32]
    } else if cp == 0x1e7f {
        seq![0x76u32, 0x323u32]
    } else if cp == 0x1e80 {
        seq![0x57u32, 0x300u32]
    } else if cp == 0x1e81 {
        seq![0x77u32, 0x300u32]
    } else if cp == 0x1e82 {
        seq![0x57u32, 0x301u32]
    } else if cp == 0x1e83 {
        seq![0x77u32, 0x301u32]
    } else if cp == 0x1e84 {
        seq![0x57u32, 0x308u32]
    } else if cp == 0x1e85 {
        seq![0x77u32, 0x308u32]
    } else if cp == 0x1e86 {
        seq![0x57u32, 0x307u32]
    } else if cp == 0x1e87 {
        seq![0x77u32, 0x307u32]
    } else if cp == 0x1e88 {
        seq![0x57u32, 0x323u32]
    } else if cp == 0x1e89 {
        seq![0x77u32, 0x323u32]
    } else if cp == 0x1e8a {
        seq![0x58u32, 0x307u32]
    } else if cp == 0x1e8b {
        seq![0x78u32, 0x307u32]
    } else if cp == 0x1e8c {
        seq![0x58u32, 0x308u32]
    } else if cp == 0x1e8d {
        seq![0x78u32, 0x308u32]
    } else if cp == 0x1e8e {
        seq![0x59u32, 0x307u32]
    } else if cp == 0x1e8f {
        seq![0x79u32, 0x307u32]
    } else if cp == 0x1e90 {
        seq![0x5au32, 0x302u32]
    } else if cp == 0x1e91 {
        seq![0x7au32, 0x302u32]
    } else if cp == 0x1e92 {
        seq![0x5au32, 0x323u32]
    } else if cp == 0x1e93 {
        seq![0x7au32, 0x323u32]
    } else if cp == 0x1e94 {
        seq![0x5au32, 0x331u32]
    } else if cp == 0x1e95 {
        seq![0x7au32, 0x331u32]
    } else if cp == 0x1e96 {
        seq![0x68u32, 0x331u32]
    } else if cp == 0x1e97 {
        seq![0x74u32, 0x308u32]
    } else if cp == 0x1e98 {
        seq![0x77u32, 0x30au32]
    } else if cp == 0x1e99 {
        seq![0x79u32, 0x30au32]
    } else if cp == 0x1e9b {
        seq![0x17fu32, 0x307u32]
    } else if cp == 0x1ea0 {
        seq![0x41u32, 0x323u32]
    } else if cp == 0x1ea1 {
        seq![0x61u32, 0x323u32]
    } else if cp == 0x1ea2 {
        seq![0x41u32, 0x309u32]
    } else if cp == 0x1ea3 {
        seq![0x61u32, 0x309u32]
    } else if cp == 0x1ea4 {
        seq![0x41u32, 0x302u32, 0x301u32]
    } else if cp == 0x1ea5 {
        seq![0x61u32, 0x302u32, 0x301u32]
    } else if cp == 0x1ea6 {
        seq![0x41u32, 0x302u32, 0x300u32]
    } else if cp == 0x1ea7 {
        seq![0x61u32, 0x302u32, 0x300u32]
    } else if cp == 0x1ea8 {
        seq![0x41u32, 0x302u32, 0x309u32]
    } else if cp == 0x1ea9 {
        seq![0x61u32, 0x302u32, 0x309u32]
    } else if cp == 0x1eaa {
        seq![0x41u32, 0x302u32, 0x303u32]
    } else if cp == 0x1eab {
        seq![0x61u32, 0x302u32, 0x303u32]
    } else if cp == 0x1eac {
        seq![0x41u32, 0x323u32, 0x302u32]
    } else if cp == 0x1ead {
        seq![0x61u32, 0x323u32, 0x302u32]
    } else if cp == 0x1eae {
        seq![0x41u32, 0x306u32, 0x301u32]
    } else if cp == 0x1eaf {
        seq![0x61u32, 0x306u32, 0x301u32]
    } else if cp == 0x1eb0 {
        seq![0x41u32, 0x306u32, 0x300u32]
    } else if cp == 0x1eb1 {
        seq![0x61u32, 0x306u32, 0x300u32]
    } else if cp == 0x1eb2 {
        seq![0x41u32, 0x306u32, 0x309u32]
    } else if cp == 0x1eb3 {
        seq![0x61u32, 0x306u32, 0x309u32]
    } else if cp == 0x1eb4 {
        seq![0x41u32, 0x306u32, 0x303u32]
    } else if cp == 0x1eb5 {
        seq![0x61u32, 0x306u32, 0x303u32]
    } else if cp == 0x1eb6 {
        seq![0x41u32, 0x323u32, 0x306u32]
    } else if cp == 0x1eb7 {
        seq![0x61u32, 0x323u32, 0x306u32]
    } else if cp == 0x1eb8 {
        seq![0x45u32, 0x323u32]
    } else if cp == 0x1eb9 {
        seq![0x65u32, 0x323u32]
    } else if cp == 0x1eba {
        seq![0x45u32, 0x309u32]
    } else if cp == 0x1ebb {
        seq![0x65u32, 0x309u32]
    } else if cp == 0x1ebc {
        seq![0x45u32, 0x303u32]
    } else if cp == 0x1ebd {
        seq![0x65u32, 0x303u32]
    } else if cp == 0x1ebe {
        seq![0x45u32, 0x302u32, 0x301u32]
    } else if cp == 0x1ebf {
        seq![0x65u32, 0x302u32, 0x301u32]
    } else if cp == 0x1ec0 {
        seq![0x45u32, 0x302u32, 0x300u32]
    } else if cp == 0x1ec1 {
        seq![0x65u32, 0x302u32, 0x300u32]
    } else if cp == 0x1ec2 {
        seq![0x45u32, 0x302u32, 0x309u32]
    } else if cp == 0x1ec3 {
        seq![0x65u32, 0x302u32, 0x309u32]
    } else if cp == 0x1ec4 {
        seq![0x45u32, 0x302u32, 0x303u32]
    } else if cp == 0x1ec5 {
        seq![0x65u32, 0x302u32, 0x303u32]
    } else if cp == 0x1ec6 {
        seq![0x45u32, 0x323u32, 0x302u32]
    } else if cp == 0x1ec7 {
        seq![0x65u32, 0x323u32, 0x302u32]
    } else if cp == 0x1ec8 {
        seq![0x49u32, 0x309u32]
    } else if cp == 0x1ec9 {
        seq![0x69u32, 0x309u32]
    } else if cp == 0x1eca {
        seq![0x49u32, 0x323u32]
    } else if cp == 0x1ecb {
        seq![0x69u32, 0x323u32]
    } else if cp == 0x1ecc {
        seq![0x4fu32, 0x323u32]
    } else if cp == 0x1ecd {
        seq![0x6fu32, 0x323u32]
    } else if cp == 0x1ece {
        seq![0x4fu32, 0x309u32]
    } else if cp == 0x1ecf {
        seq![0x6fu32, 0x309u32]
    } else if cp == 0x1ed0 {
        seq![0x4fu32, 0x302u32, 0x301u32]
    } else if cp == 0x1ed1 {
        seq![0x6fu32, 0x302u32, 0x301u32]
    } else if cp == 0x1ed2 {
        seq![0x4fu32, 0x302u32, 0x300u32]
    } else if cp == 0x1ed3 {
        seq![0x6fu32, 0x302u32, 0x300u32]
    } else if cp == 0x1ed4 {
        seq![0x4fu32, 0x302u32, 0x309u32]
    } else if cp == 0x1ed5 {
        seq![0x6fu32, 0x302u32, 0x309u32]
    } else if cp == 0x1ed6 {
        seq![0x4fu32, 0x302u32, 0x303u32]
    } else if cp == 0x1ed7 {
        seq![0x6fu32, 0x302u32, 0x303u32]
    } else if cp == 0x1ed8 {
        seq![0x4fu32, 0x323u32, 0x302u32]
    } else if cp == 0x1ed9 {
        seq![0x6fu32, 0x323u32, 0x302u32]
    } else if cp == 0x1eda {
        seq![0x4fu32, 0x31bu32, 0x301u32]
    } else if cp == 0x1edb {
        seq![0x6fu32, 0x31bu32, 0x301u32]
    } else if cp == 0x1edc {
        seq![0x4fu32, 0x31bu32, 0x300u32]
    } else if cp == 0x1edd {
        seq![0x6fu32, 0x31bu32, 0x300u32]
    } else if cp == 0x1ede {
        seq![0x4fu32, 0x31bu32, 0x309u32]
    } else if cp == 0x1edf {
        seq![0x6fu32, 0x31bu32, 0x309u32]
    } else if cp == 0x1ee0 {
        seq![0x4fu32, 0x31bu32, 0x303u32]
    } else if cp == 0x1ee1 {
        seq![0x6fu32, 0x31bu32, 0x303u32]
    } else if cp == 0x1ee2 {
        seq![0x4fu32, 0x31bu32, 0x323u32]
    } else if cp == 0x1ee3 {
        seq![0x6fu32, 0x31bu32, 0x323u32]
    } else if cp == 0x1ee4 {
        seq![0x55u32, 0x323u32]
    } else if cp == 0x1ee5 {
        seq![0x75u32, 0x323u32]
    } else if cp == 0x1ee6 {
        seq![0x55u32, 0x309u32]
    } else if cp == 0x1ee7 {
        seq![0x75u32, 0x309u32]
    } else if cp == 0x1ee8 {
        seq![0x55u32, 0x31bu32, 0x301u32]
    } else if cp == 0x1ee9 {
        seq![0x75u32, 0x31bu32, 0x301u32]
    } else if cp == 0x1eea {
        seq![0x55u32, 0x31bu32, 0x300u32]
    } else if cp == 0x1eeb {
        seq![0x75u32, 0x31bu32, 0x300u32]
    } else if cp == 0x1eec {
        seq![0x55u32, 0x31bu32, 0x309u32]
    } else if cp == 0x1eed {
        seq![0x75u32, 0x31bu32, 0x309u32]
    } else if cp == 0x1eee {
        seq![0x55u32, 0x31bu32, 0x303u32]
    } else if cp == 0x1eef {
        seq![0x75u32, 0x31bu32, 0x303u32]
    } else if cp == 0x1ef0 {
        seq![0x55u32, 0x31bu32, 0x323u32]
    } else if cp == 0x1ef1 {
        seq![0x75u32, 0x31bu32, 0x323u32]
    } else if cp == 0x1ef2 {
        seq![0x59u32, 0x300u32]
    } else if cp == 0x1ef3 {
        seq![0x79u32, 0x300u32]
    } else if cp == 0x1ef4 {
        seq![0x59u32, 0x323u32]
    } else if cp == 0x1ef5 {
        seq![0x79u32, 0x323u32]
    } else if cp == 0x1ef6 {
        seq![0x59u32, 0x309u32]
    } else if cp == 0x1ef7 {
        seq![0x79u32, 0x309u32]
    } else if cp == 0x1ef8 {
        seq![0x59u32, 0x303u32]
    } else if cp == 0x1ef9 {
        seq![0x79u32, 0x303u32]
    } else {
        seq![cp]
    }
}

fn push_decomp_01e(r: &mut Vec<u32>, cp: u32)
    ensures
        final(r)@ == old(r)@ + decomp_01e(cp),
{
    if cp == 0x1e00 {
        r.push(0x41);
        r.push(0x325);
    } else if cp == 0x1e01 {
        r.push(0x61);
        r.push(0x325);
    } else if cp == 0x1e02 {
        r.push(0x42);
        r.push(0x307);
    } else if cp == 0x1e03 {
        r.push(0x62);
        r.push(0x307);
    } else if cp == 0x1e04 {
        r.push(0x42);
        r.push(0x323);
    } else if cp == 0x1e05 {
        r.push(0x62);
        r.push(0x323);
    } else if cp == 0x1e06 {
        r.push(0x42);
        r.push(0x331);
    } else if cp == 0x1e07 {
        r.push(0x62);
        r.push(0x331);
    } else if cp == 0x1e08 {
        r.push(0x43);
        r.push(0x327);
        r.push(0x301);
    } else if cp == 0x1e09 {
        r.push(0x63);
        r.push(0x327);
        r.push(0x301);
    } else if cp == 0x1e0a {
        r.push(0x44);
        r.push(0x307);
    } else if cp == 0x1e0b {
        r.push(0x64);
        r.push(0x307);
    } else if cp == 0x1e0c {
        r.push(0x44);
        r.push(0x323);
    } else if cp == 0x1e0d {
        r.push(0x64);
        r.push(0x323);
    } else if cp == 0x1e0e {
        r.push(0x44);
        r.push(0x331);
    } else if cp == 0x1e0f {
        r.push(0x64);
        r.push(0x331);
    } else if cp == 0x1e10 {
        r.push(0x44);
        r.push(0x327);
    } else if cp == 0x1e11 {
        r.push(0x64);
        r.push(0x327);
    } else if cp == 0x1e12 {
        r.push(0x44);
        r.push(0x32d);
    } else if cp == 0x1e13 {
        r.push(0x64);
        r.push(0x32d);
    } else if cp == 0x1e14 {
        r.push(0x45);
        r.push(0x304);
        r.push(0x300);
    } else if cp == 0x1e15 {
        r.push(0x65);
        r.push(0x304);
        r.push(0x300);
    } else if cp == 0x1e16 {
        r.push(0x45);
        r.push(0x304);
        r.push(0x301);
    } else if cp == 0x1e17 {
        r.push(0x65);
        r.push(0x304);
        r.push(0x301);
    } else if cp == 0x1e18 {
        r.push(0x45);
        r.push(0x32d);
    } else if cp == 0x1e19 {
        r.push(0x65);
        r.push(0x32d);
    } else if cp == 0x1e1a {
        r.push(0x45);
        r.push(0x330);
    } else if cp == 0x1e1b {
        r.push(0x65);
        r.push(0x330);
    } else if cp == 0x1e1c {
        r.push(0x45);
        r.push(0x327);
        r.push(0x306);
    } else if cp == 0x1e1d {
        r.push(0x65);
        r.push(0x327);
        r.push(0x306);
    } else if cp == 0x1e1e {
        r.push(0x46);
        r.push(0x307);
    } else if cp == 0x1e1f {
        r.push(0x66);
        r.push(0x307);
    } else if cp == 0x1e20 {
        r.push(0x47);
        r.push(0x304);
    } else if cp == 0x1e21 {
        r.push(0x67);
        r.push(0x304);
    } else if cp == 0x1e22 {
        r.push(0x48);
        r.push(0x307);
    } else if cp == 0x1e23 {
        r.push(0x68);
        r.push(0x307);
    } else if cp == 0x1e24 {
        r.push(0x48);
        r.push(0x323);
    } else if cp == 0x1e25 {
        r.push(0x68);
        r.push(0x323);
    } else if cp == 0x1e26 {
        r.push(0x48);
        r.push(0x308);
    } else if cp == 0x1e27 {
        r.push(0x68);
        r.push(0x308);
    } else if cp == 0x1e28 {
        r.push(0x48);
        r.push(0x327);
    } else if cp == 0x1e29 {
        r.push(0x68);
        r.push(0x327);
    } else if cp == 0x1e2a {
        r.push(0x48);
        r.push(0x32e);
    } else if cp == 0x1e2b {
        r.push(0x68);
        r.push(0x32e);
    } else if cp == 0x1e2c {
        r.push(0x49);
        r.push(0x330);
    } else if cp == 0x1e2d {
        r.push(0x69);
        r.push(0x330);
    } else if cp == 0x1e2e {
        r.push(0x49);
        r.push(0x308);
        r.push(0x301);
    } else if cp == 0x1e2f {
        r.push(0x69);
        r.push(0x308);
        r.push(0x301);
    } else if cp == 0x1e30 {
        r.push(0x4b);
        r.push(0x301);
    } else if cp == 0x1e31 {
        r.push(0x6b);
        r.push(0x301);
    } else if cp == 0x1e32 {
        r.push(0x4b);
        r.push(0x323);
    } else if cp == 0x1e33 {
        r.push(0x6b);
        r.push(0x323);
    } else if cp == 0x1e34 {
        r.push(0x4b);
        r.push(0x331);
    } else if cp == 0x1e35 {
        r.push(0x6b);
        r.push(0x331);
    } else if cp == 0x1e36 {
        r.push(0x4c);
        r.push(0x323);
    } else if cp == 0x1e37 {
        r.push(0x6c);
        r.push(0x323);
    } else if cp == 0x1e38 {
        r.push(0x4c);
        r.push(0x323);
        r.push(0x304);
    } else if cp == 0x1e39 {
        r.push(0x6c);
        r.push(0x323);
        r.push(0x304);
    } else if cp == 0x1e3a {
        r.push(0x4c);
        r.push(0x331);
    } else if cp == 0x1e3b {
        r.push(0x6c);
        r.push(0x331);
    } else if cp == 0x1e3c {
        r.push(0x4c);
        r.push(0x32d);
    } else if cp == 0x1e3d {
        r.push(0x6c);
        r.push(0x32d);
    } else if cp == 0x1e3e {
        r.push(0x4d);
        r.push(0x301);
    } else if cp == 0x1e3f {
        r.push(0x6d);
        r.push(0x301);
    } else if cp == 0x1e40 {
        r.push(0x4d);
        r.push(0x307);
    } else if cp == 0x1e41 {
        r.push(0x6d);
        r.push(0x307);
    } else if cp == 0x1e42 {
        r.push(0x4d);
        r.push(0x323);
    } else if cp == 0x1e43 {
        r.push(0x6d);
        r.push(0x323);
    } else if cp == 0x1e44 {
        r.push(0x4e);
        r.push(0x307);
    } else if cp == 0x1e45 {
        r.push(0x6e);
        r.push(0x307);
    } else if cp == 0x1e46 {
        r.push(0x4e);
        r.push(0x323);
    } else if cp == 0x1e47 {
        r.push(0x6e);
        r.push(0x323);
    } else if cp == 0x1e48 {
        r.push(0x4e);
        r.push(0x331);
    } else if cp == 0x1e49 {
        r.push(0x6e);
        r.push(0x331);
    } else if cp == 0x1e4a {
        r.push(0x4e);
        r.push(0x32d);
    } else if cp == 0x1e4b {
        r.push(0x6e);
        r.push(0x32d);
    } else if cp == 0x1e4c {
        r.push(0x4f);
        r.push(0x303);
        r.push(0x301);
    } else if cp == 0x1e4d {
        r.push(0x6f);
        r.push(0x303);
        r.push(0x301);
    } else if cp == 0x1e4e {
        r.push(0x4f);
        r.push(0x303);
        r.push(0x308);
    } else if cp == 0x1e4f {
        r.push(0x6f);
        r.push(0x303);
        r.push(0x308);
    } else if cp == 0x1e50 {
        r.push(0x4f);
        r.push(0x304);
        r.push(0x300);
    } else if cp == 0x1e51 {
        r.push(0x6f);
        r.push(0x304);
        r.push(0x300);
    } else if cp == 0x1e52 {
        r.push(0x4f);
        r.push(0x304);
        r.push(0x301);
    } else if cp == 0x1e53 {
        r.push(0x6f);
        r.push(0x304);
        r.push(0x301);
    } else if cp == 0x1e54 {
        r.push(0x50);
        r.push(0x301);
    } else if cp == 0x1e55 {
        r.push(0x70);
        r.push(0x301);
    } else if cp == 0x1e56 {
        r.push(0x50);
        r.push(0x307);
    } else if cp == 0x1e57 {
        r.push(0x70);
        r.push(0x307);
    } else if cp == 0x1e58 {
        r.push(0x52);
        r.push(0x307);
    } else if cp == 0x1e59 {
        r.push(0x72);
        r.push(0x307);
    } else if cp == 0x1e5a {
        r.push(0x52);
        r.push(0x323);
    } else if cp == 0x1e5b {
        r.push(0x72);
        r.push(0x323);
    } else if cp == 0x1e5c {
        r.push(0x52);
        r.push(0x323);
        r.push(0x304);
    } else if cp == 0x1e5d {
        r.push(0x72);
        r.push(0x323);
        r.push(0x304);
    } else if cp == 0x1e5e {
        r.push(0x52);
        r.push(0x331);
    } else if cp == 0x1e5f {
        r.push(0x72);
        r.push(0x331);
    } else if cp == 0x1e60 {
        r.push(0x53);
        r.push(0x307);
    } else if cp == 0x1e61 {
        r.push(0x73);
        r.push(0x307);
    } else if cp == 0x1e62 {
        r.push(0x53);
        r.push(0x323);
    } else if cp == 0x1e63 {
        r.push(0x73);
        r.push(0x323);
    } else if cp == 0x1e64 {
        r.push(0x53);
        r.push(0x301);
        r.push(0x307);
    } else if cp == 0x1e65 {
        r.push(0x73);
        r.push(0x301);
        r.push(0x307);
    } else if cp == 0x1e66 {
        r.push(0x53);
        r.push(0x30c);
        r.push(0x307);
    } else if cp == 0x1e67 {
        r.push(0x73);
        r.push(0x30c);
        r.push(0x307);
    } else if cp == 0x1e68 {
        r.push(0x53);
        r.push(0x323);
        r.push(0x307);
    } else if cp == 0x1e69 {
        r.push(0x73);
        r.push(0x323);
        r.push(0x307);
    } else if cp == 0x1e6a {
        r.push(0x54);
        r.push(0x307);
    } else if cp == 0x1e6b {
        r.push(0x74);
        r.push(0x307);
    } else if cp == 0x1e6c {
        r.push(0x54);
        r.push(0x323);
    } else if cp == 0x1e6d {
        r.push(0x74);
        r.push(0x323);
    } else if cp == 0x1e6e {
        r.push(0x54);
        r.push(0x331);
    } else if cp == 0x1e6f {
        r.push(0x74);
        r.push(0x331);
    } else if cp == 0x1e70 {
        r.push(0x54);
        r.push(0x32d);
    } else if cp == 0x1e71 {
        r.push(0x74);
        r.push(0x32d);
    } else if cp == 0x1e72 {
        r.push(0x55);
        r.push(0x324);
    } else if cp == 0x1e73 {
        r.push(0x75);
        r.push(0x324);
    } else if cp == 0x1e74 {
        r.push(0x55);
        r.push(0x330);
    } else if cp == 0x1e75 {
        r.push(0x75);
        r.push(0x330);
    } else if cp == 0x1e76 {
        r.push(0x55);
        r.push(0x32d);
    } else if cp == 0x1e77 {
        r.push(0x75);
        r.push(0x32d);
    } else if cp == 0x1e78 {
        r.push(0x55);
        r.push(0x303);
        r.push(0x301);
    } else if cp == 0x1e79 {
        r.push(0x75);
        r.push(0x303);
        r.push(0x301);
    } else if cp == 0x1e7a {
        r.push(0x55);
        r.push(0x304);
        r.push(0x308);
    } else if cp == 0x1e7b {
        r.push(0x75);
        r.push(0x304);
        r.push(0x308);
    } else if cp == 0x1e7c {
        r.push(0x56);
        r.push(0x303);
    } else if cp == 0x1e7d {
        r.push(0x76);
        r.push(0x303);
    } else if cp == 0x1e7e {
        r.push(0x56);
        r.push(0x323);
    } else if cp == 0x1e7f {
        r.push(0x76);
        r.push(0x323);
    } else if cp == 0x1e80 {
        r.push(0x57);
        r.push(0x300);
    } else if cp == 0x1e81 {
        r.push(0x77);
        r.push(0x300);
    } else if cp == 0x1e82 {
        r.push(0x57);
        r.push(0x301);
    } else if cp == 0x1e83 {
        r.push(0x77);
        r.push(0x301);
    } else if cp == 0x1e84 {
        r.push(0x57);
        r.push(0x308);
    } else if cp == 0x1e85 {
        r.push(0x77);
        r.push(0x308);
    } else if cp == 0x1e86 {
        r.push(0x57);
        r.push(0x307);
    } else if cp == 0x1e87 {
        r.push(0x77);
        r.push(0x307);
    } else if cp == 0x1e88 {
        r.push(0x57);
        r.push(0x323);
    } else if cp == 0x1e89 {
        r.push(0x77);
        r.push(0x323);
    } else if cp == 0x1e8a {
        r.push(0x58);
        r.push(0x307);
    } else if cp == 0x1e8b {
        r.push(0x78);
        r.push(0x307);
    } else if cp == 0x1e8c {
        r.push(0x58);
        r.push(0x308);
    } else if cp == 0x1e8d {
        r.push(0x78);
        r.push(0x308);
    } else if cp == 0x1e8e {
        r.push(0x59);
        r.push(0x307);
    } else if cp == 0x1e8f {
        r.push(0x79);
        r.push(0x307);
    } else if cp == 0x1e90 {
        r.push(0x5a);
        r.push(0x302);
    } else if cp == 0x1e91 {
        r.push(0x7a);
        r.push(0x302);
    } else if cp == 0x1e92 {
        r.push(0x5a);
        r.push(0x323);
    } else if cp == 0x1e93 {
        r.push(0x7a);
        r.push(0x323);
    } else if cp == 0x1e94 {
        r.push(0x5a);
        r.push(0x331);
    } else if cp == 0x1e95 {
        r.push(0x7a);
        r.push(0x331);
    } else if cp == 0x1e96 {
        r.push(0x68);
        r.push(0x331);
    } else if cp == 0x1e97 {
        r.push(0x74);
        r.push(0x308);
    } else if cp == 0x1e98 {
        r.push(0x77);
        r.push(0x30a);
    } else if cp == 0x1e99 {
        r.push(0x79);
        r.push(0x30a);
    } else if cp == 0x1e9b {
        r.push(0x17f);
        r.push(0x307);
    } else if cp == 0x1ea0 {
        r.push(0x41);
        r.push(0x323);
    } else if cp == 0x1ea1 {
        r.push(0x61);
        r.push(0x323);
    } else if cp == 0x1ea2 {
        r.push(0x41);
        r.push(0x309);
    } else if cp == 0x1ea3 {
        r.push(0x61);
        r.push(0x309);
    } else if cp == 0x1ea4 {
        r.push(0x41);
        r.push(0x302);
        r.push(0x301);
    } else if cp == 0x1ea5 {
        r.push(0x61);
        r.push(0x302);
        r.push(0x301);
    } else if cp == 0x1ea6 {
        r.push(0x41);
        r.push(0x302);
        r.push(0x300);
    } else if cp == 0x1ea7 {
        r.push(0x61);
        r.push(0x302);
        r.push(0x300);
    } else if cp == 0x1ea8 {
        r.push(0x41);
        r.push(0x302);
        r.push(0x309);
    } else if cp == 0x1ea9 {
        r.push(0x61);
        r.push(0x302);
        r.push(0x309);
    } else if cp == 0x1eaa {
        r.push(0x41);
        r.push(0x302);
        r.push(0x303);
    } else if cp == 0x1eab {
        r.push(0x61);
        r.push(0x302);
        r.push(0x303);
    } else if cp == 0x1eac {
        r.push(0x41);
        r.push(0x323);
        r.push(0x302);
    } else if cp == 0x1ead {
        r.push(0x61);
        r.push(0x323);
        r.push(0x302);
    } else if cp == 0x1eae {
        r.push(0x41);
        r.push(0x306);
        r.push(0x301);
    } else if cp == 0x1eaf {
        r.push(0x61);
        r.push(0x306);
        r.push(0x301);
    } else if cp == 0x1eb0 {
        r.push(0x41);
        r.push(0x306);
        r.push(0x300);
    } else if cp == 0x1eb1 {
        r.push(0x61);
        r.push(0x306);
        r.push(0x300);
    } else if cp == 0x1eb2 {
        r.push(0x41);
        r.push(0x306);
        r.push(0x309);
    } else if cp == 0x1eb3 {
        r.push(0x61);
        r.push(0x306);
        r.push(0x309);
    } else if cp == 0x1eb4 {
        r.push(0x41);
        r.push(0x306);
        r.push(0x303);
    } else if cp == 0x1eb5 {
        r.push(0x61);
        r.push(0x306);
        r.push(0x303);
    } else if cp == 0x1eb6 {
        r.push(0x41);
        r.push(0x323);
        r.push(0x306);
    } else if cp == 0x1eb7 {
        r.push(0x61);
        r.push(0x323);
        r.push(0x306);
    } else if cp == 0x1eb8 {
        r.push(0x45);
        r.push(0x323);
    } else if cp == 0x1eb9 {
        r.push(0x65);
        r.push(0x323);
    } else if cp == 0x1eba {
        r.push(0x45);
        r.push(0x309);
    } else if cp == 0x1ebb {
        r.push(0x65);
        r.push(0x309);
    } else if cp == 0x1ebc {
        r.push(0x45);
        r.push(0x303);
    } else if cp == 0x1ebd {
        r.push(0x65);
        r.push(0x303);
    } else if cp == 0x1ebe {
        r.push(0x45);
        r.push(0x302);
        r.push(0x301);
    } else if cp == 0x1ebf {
        r.push(0x65);
        r.push(0x302);
        r.push(0x301);
    } else if cp == 0x1ec0 {
        r.push(0x45);
        r.push(0x302);
        r.push(0x300);
    } else if cp == 0x1ec1 {
        r.push(0x65);
        r.push(0x302);
        r.push(0x300);
    } else if cp == 0x1ec2 {
        r.push(0x45);
        r.push(0x302);
        r.push(0x309);
    } else if cp == 0x1ec3 {
        r.push(0x65);
        r.push(0x302);
        r.push(0x309);
    } else if cp == 0x1ec4 {
        r.push(0x45);
        r.push(0x302);
        r.push(0x303);
    } else if cp == 0x1ec5 {
        r.push(0x65);
        r.push(0x302);
        r.push(0x303);
    } else if cp == 0x1ec6 {
        r.push(0x45);
        r.push(0x323);
        r.push(0x302);
    } else if cp == 0x1ec7 {
        r.push(0x65);
        r.push(0x323);
        r.push(0x302);
    } else if cp == 0x1ec8 {
        r.push(0x49);
        r.push(0x309);
    } else if cp == 0x1ec9 {
        r.push(0x69);
        r.push(0x309);
    } else if cp == 0x1eca {
        r.push(0x49);
        r.push(0x323);
    } else if cp == 0x1ecb {
        r.push(0x69);
        r.push(0x323);
    } else if cp == 0x1ecc {
        r.push(0x4f);
        r.push(0x323);
    } else if cp == 0x1ecd {
        r.push(0x6f);
        r.push(0x323);
    } else if cp == 0x1ece {
        r.push(0x4f);
        r.push(0x309);
    } else if cp == 0x1ecf {
        r.push(0x6f);
        r.push(0x309);
    } else if cp == 0x1ed0 {
        r.push(0x4f);
        r.push(0x302);
        r.push(0x301);
    } else if cp == 0x1ed1 {
        r.push(0x6f);
        r.push(0x302);
        r.push(0x301);
    } else if cp == 0x1ed2 {
        r.push(0x4f);
        r.push(0x302);
        r.push(0x300);
    } else if cp == 0x1ed3 {
        r.push(0x6f);
        r.push(0x302);
        r.push(0x300);
    } else if cp == 0x1ed4 {
        r.push(0x4f);
        r.push(0x302);
        r.push(0x309);
    } else if cp == 0x1ed5 {
        r.push(0x6f);
        r.push(0x302);
        r.push(0x309);
    } else if cp == 0x1ed6 {
        r.push(0x4f);
        r.push(0x302);
        r.push(0x303);
    } else if cp == 0x1ed7 {
        r.push(0x6f);
        r.push(0x302);
        r.push(0x303);
    } else if cp == 0x1ed8 {
        r.push(0x4f);
        r.push(0x323);
        r.push(0x302);
    } else if cp == 0x1ed9 {
        r.push(0x6f);
        r.push(0x323);
        r.push(0x302);
    } else if cp == 0x1eda {
        r.push(0x4f);
        r.push(0x31b);
        r.push(0x301);
    } else if cp == 0x1edb {
        r.push(0x6f);
        r.push(0x31b);
        r.push(0x301);
    } else if cp == 0x1edc {
        r.push(0x4f);
        r.push(0x31b);
        r.push(0x300);
    } else if cp == 0x1edd {
        r.push(0x6f);
        r.push(0x31b);
        r.push(0x300);
    } else if cp == 0x1ede {
        r.push(0x4f);
        r.push(0x31b);
        r.push(0x309);
    } else if cp == 0x1edf {
        r.push(0x6f);
        r.push(0x31b);
        r.push(0x309);
    } else if cp == 0x1ee0 {
        r.push(0x4f);
        r.push(0x31b);
        r.push(0x303);
    } else if cp == 0x1ee1 {
        r.push(0x6f);
        r.push(0x31b);
        r.push(0x303);
    } else if cp == 0x1ee2 {
        r.push(0x4f);
        r.push(0x31b);
        r.push(0x323);
    } else if cp == 0x1ee3 {
        r.push(0x6f);
        r.push(0x31b);
        r.push(0x323);
    } else if cp == 0x1ee4 {
        r.push(0x55);
        r.push(0x323);
    } else if cp == 0x1ee5 {
        r.push(0x75);
        r.push(0x323);
    } else if cp == 0x1ee6 {
        r.push(0x55);
        r.push(0x309);
    } else if cp == 0x1ee7 {
        r.push(0x75);
        r.push(0x309);
    } else if cp == 0x1ee8 {
        r.push(0x55);
        r.push(0x31b);
        r.push(0x301);
    } else if cp == 0x1ee9 {
        r.push(0x75);
        r.push(0x31b);
        r.push(0x301);
    } else if cp == 0x1eea {
        r.push(0x55);
        r.push(0x31b);
        r.push(0x300);
    } else if cp == 0x1eeb {
        r.push(0x75);
        r.push(0x31b);
        r.push(0x300);
    } else if cp == 0x1eec {
        r.push(0x55);
        r.push(0x31b);
        r.push(0x309);
    } else if cp == 0x1eed {
        r.push(0x75);
        r.push(0x31b);
        r.push(0x309);
    } else if cp == 0x1eee {
        r.push(0x55);
        r.push(0x31b);
        r.push(0x303);
    } else if cp == 0x1eef {
        r.push(0x75);
        r.push(0x31b);
        r.push(0x303);
    } else if cp == 0x1ef0 {
        r.push(0x55);
        r.push(0x31b);
        r.push(0x323);
    } else if cp == 0x1ef1 {
        r.push(0x75);
        r.push(0x31b);
        r.push(0x323);
    } else if cp == 0x1ef2 {
        r.push(0x59);
        r.push(0x300);
    } else if cp == 0x1ef3 {
        r.push(0x79);
        r.push(0x300);
    } else if cp == 0x1ef4 {
        r.push(0x59);
        r.push(0x323);
    } else if cp == 0x1ef5 {
        r.push(0x79);
        r.push(0x323);
    } else if cp == 0x1ef6 {
        r.push(0x59);
        r.push(0x309);
    } else if cp == 0x1ef7 {
        r.push(0x79);
        r.push(0x309);
    } else if cp == 0x1ef8 {
        r.push(0x59);
        r.push(0x303);
    } else if cp == 0x1ef9 {
        r.push(0x79);
        r.push(0x303);
    } else {
        r.push(cp);
    }
}

pub open spec fn decomp_01f(cp: u32) -> Seq<u32> {
    if cp == 0x1f00 {
        seq![0x3b1u32, 0x313u32]
    } else if cp == 0x1f01 {
        seq![0x3b1u32, 0x314u32]
    } else if cp == 0x1f02 {
        seq![0x3b1u32, 0x313u32, 0x300u32]
    } else if cp == 0x1f03 {
        seq![0x3b1u32, 0x314u32, 0x300u32]
    } else if cp == 0x1f04 {
        seq![0x3b1u32, 0x313u32, 0x301u32]
    } else if cp == 0x1f05 {
        seq![0x3b1u32, 0x314u32, 0x301u32]
    } else if cp == 0x1f06 {
        seq![0x3b1u32, 0x313u32, 0x342u32]
    } else if cp == 0x1f07 {
        seq![0x3b1u32, 0x314u32, 0x342u32]
    } else if cp == 0x1f08 {
        seq![0x391u32, 0x313u32]
    } else if cp == 0x1f09 {
        seq![0x391u32, 0x314u32]
    } else if cp == 0x1f0a {
        seq![0x391u32, 0x313u32, 0x300u32]
    } else if cp == 0x1f0b {
        seq![0x391u32, 0x314u32, 0x300u32]
    } else if cp == 0x1f0c {
        seq![0x391u32, 0x313u32, 0x301u32]
    } else if cp == 0x1f0d {
        seq![0x391u32, 0x314u32, 0x301u32]
    } else if cp == 0x1f0e {
        seq![0x391u32, 0x313u32, 0x342u32]
    } else if cp == 0x1f0f {
        seq![0x391u32, 0x314u32, 0x342u32]
    } else if cp == 0x1f10 {
        seq![0x3b5u32, 0x313u32]
    } else if cp == 0x1f11 {
        seq![0x3b5u32, 0x314u32]
    } else if cp == 0x1f12 {
        seq![0x3b5u32, 0x313u32, 0x300u32]
    } else if cp == 0x1f13 {
        seq![0x3b5u32, 0x314u32, 0x300u32]
    } else if cp == 0x1f14 {
        seq![0x3b5u32, 0x313u32, 0x301u32]
    } else if cp == 0x1f15 {
        seq![0x3b5u32, 0x314u32, 0x301u32]
    } else if cp == 0x1f18 {
        seq![0x395u32, 0x313u32]
    } else if cp == 0x1f19 {
        seq![0x395u32, 0x314u32]
    } else if cp == 0x1f1a {
        seq![0x395u32, 0x313u32, 0x300u32]
    } else if cp == 0x1f1b {
        seq![0x395u32, 0x314u32, 0x300u32]
    } else if cp == 0x1f1c {
        seq![0x395u32, 0x313u32, 0x301u32]
    } else if cp == 0x1f1d {
        seq![0x395u32, 0x314u32, 0x301u32]
    } else if cp == 0x1f20 {
        seq![0x3b7u32, 0x313u32]
    } else if cp == 0x1f21 {
        seq![0x3b7u32, 0x314u32]
    } else if cp == 0x1f22 {
        seq![0x3b7u32, 0x313u32, 0x300u32]
    } else if cp == 0x1f23 {
        seq![0x3b7u32, 0x314u32, 0x300u32]
    } else if cp == 0x1f24 {
        seq![0x3b7u32, 0x313u32, 0x301u32]
    } else if cp == 0x1f25 {
        seq![0x3b7u32, 0x314u32, 0x301u32]
    } else if cp == 0x1f26 {
        seq![0x3b7u32, 0x313u32, 0x342u32]
    } else if cp == 0x1f27 {
        seq![0x3b7u32, 0x314u32, 0x342u32]
    } else if cp == 0x1f28 {
        seq![0x397u32, 0x313u32]
    } else if cp == 0x1f29 {
        seq![0x397u32, 0x314u32]
    } else if cp == 0x1f2a {
        seq![0x397u32, 0x313u32, 0x300u32]
    } else if cp == 0x1f2b {
        seq![0x397u32, 0x314u32, 0x300u32]
    } else if cp == 0x1f2c {
        seq![0x397u32, 0x313u32, 0x301u32]
    } else if cp == 0x1f2d {
        seq![0x397u32, 0x314u32, 0x301u32]
    } else if cp == 0x1f2e {
        seq![0x397u32, 0x313u32, 0x342u32]
    } else if cp == 0x1f2f {
        seq![0x397u32, 0x314u32, 0x342u32]
    } else if cp == 0x1f30 {
        seq![0x3b9u32, 0x313u32]
    } else if cp == 0x1f31 {
        seq![0x3b9u32, 0x314u32]
    } else if cp == 0x1f32 {
        seq![0x3b9u32, 0x313u32, 0x300u32]
    } else if cp == 0x1f33 {
        seq![0x3b9u32, 0x314u32, 0x300u32]
    } else if cp == 0x1f34 {
        seq![0x3b9u32, 0x313u32, 0x301u32]
    } else if cp == 0x1f35 {
        seq![0x3b9u32, 0x314u32, 0x301u32]
    } else if cp == 0x1f36 {
        seq![0x3b9u32, 0x313u32, 0x342u32]
    } else if cp == 0x1f37 {
        seq![0x3b9u32, 0x314u32, 0x342u32]
    } else if cp == 0x1f38 {
        seq![0x399u32, 0x313u32]
    } else if cp == 0x1f39 {
        seq![0x399u32, 0x314u32]
    } else if cp == 0x1f3a {
        seq![0x399u32, 0x313u32, 0x300u32]
    } else if cp == 0x1f3b {
        seq![0x399u32, 0x314u32, 0x300u32]
    } else if cp == 0x1f3c {
        seq![0x399u32, 0x313u32, 0x301u32]
    } else if cp == 0x1f3d {
        seq![0x399u32, 0x314u32, 0x301u32]
    } else if cp == 0x1f3e {
        seq![0x399u32, 0x313u32, 0x342u32]
    } else if cp == 0x1f3f {
        seq![0x399u32, 0x314u32, 0x342u32]
    } else if cp == 0x1f40 {
        seq![0x3bfu32, 0x313u32]
    } else if cp == 0x1f41 {
        seq![0x3bfu32, 0x314u32]
    } else if cp == 0x1f42 {
        seq![0x3bfu32, 0x313u32, 0x300u32]
    } else if cp == 0x1f43 {
        seq![0x3bfu32, 0x314u32, 0x300u32]
    } else if cp == 0x1f44 {
        seq![0x3bfu32, 0x313u32, 0x301u32]
    } else if cp == 0x1f45 {
        seq![0x3bfu32, 0x314u32, 0x301u32]
    } else if cp == 0x1f48 {
        seq![0x39fu32, 0x313u32]
    } else if cp == 0x1f49 {
        seq![0x39fu32, 0x314u32]
    } else if cp == 0x1f4a {
        seq![0x39fu32, 0x313u32, 0x300u32]
    } else if cp == 0x1f4b {
        seq![0x39fu32, 0x314u32, 0x300u32]
    } else if cp == 0x1f4c {
        seq![0x39fu32, 0x313u32, 0x301u32]
    } else if cp == 0x1f4d {
        seq![0x39fu32, 0x314u32, 0x301u32]
    } else if cp == 0x1f50 {
        seq![0x3c5u32, 0x313u32]
    } else if cp == 0x1f51 {
        seq![0x3c5u32, 0x314u32]
    } else if cp == 0x1f52 {
        seq![0x3c5u32, 0x313u32, 0x300u32]
    } else if cp == 0x1f53 {
        seq![0x3c5u32, 0x314u32, 0x300u32]
    } else if cp == 0x1f54 {
        seq![0x3c5u32, 0x313u32, 0x301u32]
    } else if cp == 0x1f55 {
        seq![0x3c5u32, 0x314u32, 0x301u32]
    } else if cp == 0x1f56 {
        seq![0x3c5u32, 0x313u32, 0x342u32]
    } else if cp == 0x1f57 {
        seq![0x3c5u32, 0x314u32, 0x342u32]
    } else if cp == 0x1f59 {
        seq![0x3a5u32, 0x314u32]
    } else if cp == 0x1f5b {
        seq![0x3a5u32, 0x314u32, 0x300u32]
    } else if cp == 0x1f5d {
        seq![0x3a5u32, 0x314u32, 0x301u32]
    } else if cp == 0x1f5f {
        seq![0x3a5u32, 0x314u32, 0x342u32]
    } else if cp == 0x1f60 {
        seq![0x3c9u32, 0x313u32]
    } else if cp == 0x1f61 {
        seq![0x3c9u32, 0x314u32]
    } else if cp == 0x1f62 {
        seq![0x3c9u32, 0x313u32, 0x300u32]
    } else if cp == 0x1f63 {
        seq![0x3c9u32, 0x314u32, 0x300u32]
    } else if cp == 0x1f64 {
        seq![0x3c9u32, 0x313u32, 0x301u32]
    } else if cp == 0x1f65 {
        seq![0x3c9u32, 0x314u32, 0x301u32]
    } else if cp == 0x1f66 {
        seq![0x3c9u32, 0x313u32, 0x342u32]
    } else if cp == 0x1f67 {
        seq![0x3c9u32, 0x314u32, 0x342u32]
    } else if cp == 0x1f68 {
        seq![0x3a9u32, 0x313u32]
    } else if cp == 0x1f69 {
        seq![0x3a9u32, 0x314u32]
    } else if cp == 0x1f6a {
        seq![0x3a9u32, 0x313u32, 0x300u32]
    } else if cp == 0x1f6b {
        seq![0x3a9u32, 0x314u32, 0x300u32]
    } else if cp == 0x1f6c {
        seq![0x3a9u32, 0x313u32, 0x301u32]
    } else if cp == 0x1f6d {
        seq![0x3a9u32, 0x314u32, 0x301u32]
    } else if cp == 0x1f6e {
        seq![0x3a9u32, 0x313u32, 0x342u32]
    } else if cp == 0x1f6f {
        seq![0x3a9u32, 0x314u32, 0x342u32]
    } else if cp == 0x1f70 {
        seq![0x3b1u32, 0x300u32]
    } else if cp == 0x1f71 {
        seq![0x3b1u32, 0x301u32]
    } else if cp == 0x1f72 {
        seq![0x3b5u32, 0x300u32]
    } else if cp == 0x1f73 {
        seq![0x3b5u32, 0x301u32]
    } else if cp == 0x1f74 {
        seq![0x3b7u32, 0x300u32]
    } else if cp == 0x1f75 {
        seq![0x3b7u32, 0x301u32]
    } else if cp == 0x1f76 {
        seq![0x3b9u32, 0x300u32]
    } else if cp == 0x1f77 {
        seq![0x3b9u32, 0x301u32]
    } else if cp == 0x1f78 {
        seq![0x3bfu32, 0x300u32]
    } else if cp == 0x1f79 {
        seq![0x3bfu32, 0x301u32]
    } else if cp == 0x1f7a {
        seq![0x3c5u32, 0x300u32]
    } else if cp == 0x1f7b {
        seq![0x3c5u32, 0x301u32]
    } else if cp == 0x1f7c {
        seq![0x3c9u32, 0x300u32]
    } else if cp == 0x1f7d {
        seq![0x3c9u32, 0x301u32]
    } else if cp == 0x1f80 {
        seq![0x3b1u32, 0x313u32, 0x345u32]
    } else if cp == 0x1f81 {
        seq![0x3b1u32, 0x314u32, 0x345u32]
    } else if cp == 0x1f82 {
        seq![0x3b1u32, 0x313u32, 0x300u32, 0x345u32]
    } else if cp == 0x1f83 {
        seq![0x3b1u32, 0x314u32, 0x300u32, 0x345u32]
    } else if cp == 0x1f84 {
        seq![0x3b1u32, 0x313u32, 0x301u32, 0x345u32]
    } else if cp == 0x1f85 {
        seq![0x3b1u32, 0x314u32, 0x301u32, 0x345u32]
    } else if cp == 0x1f86 {
        seq![0x3b1u32, 0x313u32, 0x342u32, 0x345u32]
    } else if cp == 0x1f87 {
        seq![0x3b1u32, 0x314u32, 0x342u32, 0x345u32]
    } else if cp == 0x1f88 {
        seq![0x391u32, 0x313u32, 0x345u32]
    } else if cp == 0x1f89 {
        seq![0x391u32, 0x314u32, 0x345u32]
    } else if cp == 0x1f8a {
        seq![0x391u32, 0x313u32, 0x300u32, 0x345u32]
    } else if cp == 0x1f8b {
        seq![0x391u32, 0x314u32, 0x300u32, 0x345u32]
    } else if cp == 0x1f8c {
        seq![0x391u32, 0x313u32, 0x301u32, 0x345u32]
    } else if cp == 0x1f8d {
        seq![0x391u32, 0x314u32, 0x301u32, 0x345u32]
    } else if cp == 0x1f8e {
        seq![0x391u32, 0x313u32, 0x342u32, 0x345u32]
    } else if cp == 0x1f8f {
        seq![0x391u32, 0x314u32, 0x342u32, 0x345u32]
    } else if cp == 0x1f90 {
        seq![0x3b7u32, 0x313u32, 0x345u32]
    } else if cp == 0x1f91 {
        seq![0x3b7u32, 0x314u32, 0x345u32]
    } else if cp == 0x1f92 {
        seq![0x3b7u32, 0x313u32, 0x300u32, 0x345u32]
    } else if cp == 0x1f93 {
        seq![0x3b7u32, 0x314u32, 0x300u32, 0x345u32]
    } else if cp == 0x1f94 {
        seq![0x3b7u32, 0x313u32, 0x301u32, 0x345u32]
    } else if cp == 0x1f95 {
        seq![0x3b7u32, 0x314u32, 0x301u32, 0x345u32]
    } else if cp == 0x1f96 {
        seq![0x3b7u32, 0x313u32, 0x342u32, 0x345u32]
    } else if cp == 0x1f97 {
        seq![0x3b7u32, 0x314u32, 0x342u32, 0x345u32]
    } else if cp == 0x1f98 {
        seq![0x397u32, 0x313u32, 0x345u32]
    } else if cp == 0x1f99 {
        seq![0x397u32, 0x314u32, 0x345u32]
    } else if cp == 0x1f9a {
        seq![0x397u32, 0x313u32, 0x300u32, 0x345u32]
    } else if cp == 0x1f9b {
        seq![0x397u32, 0x314u32, 0x300u32, 0x345u32]
    } else if cp == 0x1f9c {
        seq![0x397u32, 0x313u32, 0x301u32, 0x345u32]
    } else if cp == 0x1f9d {
        seq![0x397u32, 0x314u32, 0x301u32, 0x345u32]
    } else if cp == 0x1f9e {
        seq![0x397u32, 0x313u32, 0x342u32, 0x345u32]
    } else if cp == 0x1f9f {
        seq![0x397u32, 0x314u32, 0x342u32, 0x345u32]
    } else if cp == 0x1fa0 {
        seq![0x3c9u32, 0x313u32, 0x345u32]
    } else if cp == 0x1fa1 {
        seq![0x3c9u32, 0x314u32, 0x345u32]
    } else if cp == 0x1fa2 {
        seq![0x3c9u32, 0x313u32, 0x300u32, 0x345u32]
    } else if cp == 0x1fa3 {
        seq![0x3c9u32, 0x314u32, 0x300u32, 0x345u32]
    } else if cp == 0x1fa4 {
        seq![0x3c9u32, 0x313u32, 0x301u32, 0x345u32]
    } else if cp == 0x1fa5 {
        seq![0x3c9u32, 0x314u32, 0x301u32, 0x345u32]
    } else if cp == 0x1fa6 {
        seq![0x3c9u32, 0x313u32, 0x342u32, 0x345u32]
    } else if cp == 0x1fa7 {
        seq![0x3c9u32, 0x314u32, 0x342u32, 0x345u32]
    } else if cp == 0x1fa8 {
        seq![0x3a9u32, 0x313u32, 0x345u32]
    } else if cp == 0x1fa9 {
        seq![0x3a9u32, 0x314u32, 0x345u32]
    } else if cp == 0x1faa {
        seq![0x3a9u32, 0x313u32, 0x300u32, 0x345u32]
    } else if cp == 0x1fab {
        seq![0x3a9u32, 0x314u32, 0x300u32, 0x345u32]
    } else if cp == 0x1fac {
        seq![0x3a9u32, 0x313u32, 0x301u32, 0x345u32]
    } else if cp == 0x1fad {
        seq![0x3a9u32, 0x314u32, 0x301u32, 0x345u32]
    } else if cp == 0x1fae {
        seq![0x3a9u32, 0x313u32, 0x342u32, 0x345u32]
    } else if cp == 0x1faf {
        seq![0x3a9u32, 0x314u32, 0x342u32, 0x345u32]
    } else if cp == 0x1fb0 {
        seq![0x3b1u32, 0x306u32]
    } else if cp == 0x1fb1 {
        seq![0x3b1u32, 0x304u32]
    } else if cp == 0x1fb2 {
        seq![0x3b1u32, 0x300u32, 0x345u32]
    } else if cp == 0x1fb3 {
        seq![0x3b1u32, 0x345u32]
    } else if cp == 0x1fb4 {
        seq![0x3b1u32, 0x301u32, 0x345u32]
    } else if cp == 0x1fb6 {
        seq![0x3b1u32, 0x342u32]
    } else if cp == 0x1fb7 {
        seq![0x3b1u32, 0x342u32, 0x345u32]
    } else if cp == 0x1fb8 {
        seq![0x391u32, 0x306u32]
    } else if cp == 0x1fb9 {
        seq![0x391u32, 0x304u32]
    } else if cp == 0x1fba {
        seq![0x391u32, 0x300u32]
    } else if cp == 0x1fbb {
        seq![0x391u32, 0x301u32]
    } else if cp == 0x1fbc {
        seq![0x391u32, 0x345u32]
    } else if cp == 0x1fbe {
        seq![0x3b9u32]
    } else if cp == 0x1fc1 {
        seq![0xa8u32, 0x342u32]
    } else if cp == 0x1fc2 {
        seq![0x3b7u32, 0x300u32, 0x345u32]
    } else if cp == 0x1fc3 {
        seq![0x3b7u32, 0x345u32]
    } else if cp == 0x1fc4 {
        seq![0x3b7u32, 0x301u32, 0x345u32]
    } else if cp == 0x1fc6 {
        seq![0x3b7u32, 0x342u32]
    } else if cp == 0x1fc7 {
        seq![0x3b7u32, 0x342u32, 0x345u32]
    } else if cp == 0x1fc8 {
        seq![0x395u32, 0x300u32]
    } else if cp == 0x1fc9 {
        seq![0x395u32, 0x301u32]
    } else if cp == 0x1fca {
        seq![0x397u32, 0x300u32]
    } else if cp == 0x1fcb {
        seq![0x397u32, 0x301u32]
    } else if cp == 0x1fcc {
        seq![0x397u32, 0x345u32]
    } else if cp == 0x1fcd {
        seq![0x1fbfu32, 0x300u32]
    } else if cp == 0x1fce {
        seq![0x1fbfu32, 0x301u32]
    } else if cp == 0x1fcf {
        seq![0x1fbfu32, 0x342u32]
    } else if cp == 0x1fd0 {
        seq![0x3b9u32, 0x306u32]
    } else if cp == 0x1fd1 {
        seq![0x3b9u32, 0x304u32]
    } else if cp == 0x1fd2 {
        seq![0x3b9u32, 0x308u32, 0x300u32]
    } else if cp == 0x1fd3 {
        seq![0x3b9u32, 0x308u32, 0x301u32]
    } else if cp == 0x1fd6 {
        seq![0x3b9u32, 0x342u32]
    } else if cp == 0x1fd7 {
        seq![0x3b9u32, 0x308u32, 0x342u32]
    } else if cp == 0x1fd8 {
        seq![0x399u32, 0x306u32]
    } else if cp == 0x1fd9 {
        seq![0x399u32, 0x304u32]
    } else if cp == 0x1fda {
        seq![0x399u32, 0x300u32]
    } else if cp == 0x1fdb {
        seq![0x399u32, 0x301u32]
    } else if cp == 0x1fdd {
        seq![0x1ffeu32, 0x300u32]
    } else if cp == 0x1fde {
        seq![0x1ffeu32, 0x301u32]
    } else if cp == 0x1fdf {
        seq![0x1ffeu32, 0x342u32]
    } else if cp == 0x1fe0 {
        seq![0x3c5u32, 0x306u32]
    } else if cp == 0x1fe1 {
        seq![0x3c5u32, 0x304u32]
    } else if cp == 0x1fe2 {
        seq![0x3c5u32, 0x308u32, 0x300u32]
    } else if cp == 0x1fe3 {
        seq![0x3c5u32, 0x308u32, 0x301u32]
    } else if cp == 0x1fe4 {
        seq![0x3c1u32, 0x313u32]
    } else if cp == 0x1fe5 {
        seq![0x3c1u32, 0x314u32]
    } else if cp == 0x1fe6 {
        seq![0x3c5u32, 0x342u32]
    } else if cp == 0x1fe7 {
        seq![0x3c5u32, 0x308u32, 0x342u32]
    } else if cp == 0x1fe8 {
        seq![0x3a5u32, 0x306u32]
    } else if cp == 0x1fe9 {
        seq![0x3a5u32, 0x304u32]
    } else if cp == 0x1fea {
        seq![0x3a5u32, 0x300u32]
    } else if cp == 0x1feb {
        seq![0x3a5u32, 0x301u32]
    } else if cp == 0x1fec {
        seq![0x3a1u32, 0x314u32]
    } else if cp == 0x1fed {
        seq![0xa8u32, 0x300u32]
    } else if cp == 0x1fee {
        seq![0xa8u32, 0x301u32]
    } else if cp == 0x1fef {
        seq![0x60u32]
    } else if cp == 0x1ff2 {
        seq![0x3c9u32, 0x300u32, 0x345u32]
    } else if cp == 0x1ff3 {
        seq![0x3c9u32, 0x345u32]
    } else if cp == 0x1ff4 {
        seq![0x3c9u32, 0x301u32, 0x345u32]
    } else if cp == 0x1ff6 {
        seq![0x3c9u32, 0x342u32]
    } else if cp == 0x1ff7 {
        seq![0x3c9u32, 0x342u32, 0x345u32]
    } else if cp == 0x1ff8 {
        seq![0x39fu32, 0x300u32]
    } else if cp == 0x1ff9 {
        seq![0x39fu32, 0x301u32]
    } else if cp == 0x1ffa {
        seq![0x3a9u32, 0x300u32]
    } else if cp == 0x1ffb {
        seq![0x3a9u32, 0x301u32]
    } else if cp == 0x1ffc {
        seq![0x3a9u32, 0x345u32]
    } else if cp == 0x1ffd {
        seq![0xb4u32]
    } else {
        seq![cp]
    }
}

fn push_decomp_01f(r: &mut Vec<u32>, cp: u32)
    ensures
        final(r)@ == old(r)@ + decomp_01f(cp),
{
    if cp == 0x1f00 {
        r.push(0x3b1);
        r.push(0x313);
    } else if cp == 0x1f01 {
        r.push(0x3b1);
        r.push(0x314);
    } else if cp == 0x1f02 {
        r.push(0x3b1);
        r.push(0x313);
        r.push(0x300);
    } else if cp == 0x1f03 {
        r.push(0x3b1);
        r.push(0x314);
        r.push(0x300);
    } else if cp == 0x1f04 {
        r.push(0x3b1);
        r.push(0x313);
        r.push(0x301);
    } else if cp == 0x1f05 {
        r.push(0x3b1);
        r.push(0x314);
        r.push(0x301);
    } else if cp == 0x1f06 {
        r.push(0x3b1);
        r.push(0x313);
        r.push(0x342);
    } else if cp == 0x1f07 {
        r.push(0x3b1);
        r.push(0x314);
        r.push(0x342);
    } else if cp == 0x1f08 {
        r.push(0x391);
        r.push(0x313);
    } else if cp == 0x1f09 {
        r.push(0x391);
        r.push(0x314);
    } else if cp == 0x1f0a {
        r.push(0x391);
        r.push(0x313);
        r.push(0x300);
    } else if cp == 0x1f0b {
        r.push(0x391);
        r.push(0x314);
        r.push(0x300);
    } else if cp == 0x1f0c {
        r.push(0x391);
        r.push(0x313);
        r.push(0x301);
    } else if cp == 0x1f0d {
        r.push(0x391);
        r.push(0x314);
        r.push(0x301);
    } else if cp == 0x1f0e {
        r.push(0x391);
        r.push(0x313);
        r.push(0x342);
    } else if cp == 0x1f0f {
        r.push(0x391);
        r.push(0x314);
        r.push(0x342);
    } else if cp == 0x1f10 {
        r.push(0x3b5);
        r.push(0x313);
    } else if cp == 0x1f11 {
        r.push(0x3b5);
        r.push(0x314);
    } else if cp == 0x1f12 {
        r.push(0x3b5);
        r.push(0x313);
        r.push(0x300);
    } else if cp == 0x1f13 {
        r.push(0x3b5);
        r.push(0x314);
        r.push(0x300);
    } else if cp == 0x1f14 {
        r.push(0x3b5);
        r.push(0x313);
        r.push(0x301);
    } else if cp == 0x1f15 {
        r.push(0x3b5);
        r.push(0x314);
        r.push(0x301);
    } else if cp == 0x1f18 {
        r.push(0x395);
        r.push(0x313);
    } else if cp == 0x1f19 {
        r.push(0x395);
        r.push(0x314);
    } else if cp == 0x1f1a {
        r.push(0x395);
        r.push(0x313);
        r.push(0x300);
    } else if cp == 0x1f1b {
        r.push(0x395);
        r.push(0x314);
        r.push(0x300);
    } else if cp == 0x1f1c {
        r.push(0x395);
        r.push(0x313);
        r.push(0x301);
    } else if cp == 0x1f1d {
        r.push(0x395);
        r.push(0x314);
        r.push(0x301);
    } else if cp == 0x1f20 {
        r.push(0x3b7);
        r.push(0x313);
    } else if cp == 0x1f21 {
        r.push(0x3b7);
        r.push(0x314);
    } else if cp == 0x1f22 {
        r.push(0x3b7);
        r.push(0x313);
        r.push(0x300);
    } else if cp == 0x1f23 {
        r.push(0x3b7);
        r.push(0x314);
        r.push(0x300);
    } else if cp == 0x1f24 {
        r.push(0x3b7);
        r.push(0x313);
        r.push(0x301);
    } else if cp == 0x1f25 {
        r.push(0x3b7);
        r.push(0x314);
        r.push(0x301);
    } else if cp == 0x1f26 {
        r.push(0x3b7);
        r.push(0x313);
        r.push(0x342);
    } else if cp == 0x1f27 {
        r.push(0x3b7);
        r.push(0x314);
        r.push(0x342);
    } else if cp == 0x1f28 {
        r.push(0x397);
        r.push(0x313);
    } else if cp == 0x1f29 {
        r.push(0x397);
        r.push(0x314);
    } else if cp == 0x1f2a {
        r.push(0x397);
        r.push(0x313);
        r.push(0x300);
    } else if cp == 0x1f2b {
        r.push(0x397);
        r.push(0x314);
        r.push(0x300);
    } else if cp == 0x1f2c {
        r.push(0x397);
        r.push(0x313);
        r.push(0x301);
    } else if cp == 0x1f2d {
        r.push(0x397);
        r.push(0x314);
        r.push(0x301);
    } else if cp == 0x1f2e {
        r.push(0x397);
        r.push(0x313);
        r.push(0x342);
    } else if cp == 0x1f2f {
        r.push(0x397);
        r.push(0x314);
        r.push(0x342);
    } else if cp == 0x1f30 {
        r.push(0x3b9);
        r.push(0x313);
    } else if cp == 0x1f31 {
        r.push(0x3b9);
        r.push(0x314);
    } else if cp == 0x1f32 {
        r.push(0x3b9);
        r.push(0x313);
        r.push(0x300);
    } else if cp == 0x1f33 {
        r.push(0x3b9);
        r.push(0x314);
        r.push(0x300);
    } else if cp == 0x1f34 {
        r.push(0x3b9);
        r.push(0x313);
        r.push(0x301);
    } else if cp == 0x1f35 {
        r.push(0x3b9);
        r.push(0x314);
        r.push(0x301);
    } else if cp == 0x1f36 {
        r.push(0x3b9);
        r.push(0x313);
        r.push(0x342);
    } else if cp == 0x1f37 {
        r.push(0x3b9);
        r.push(0x314);
        r.push(0x342);
    } else if cp == 0x1f38 {
        r.push(0x399);
        r.push(0x313);
    } else if cp == 0x1f39 {
        r.push(0x399);
        r.push(0x314);
    } else if cp == 0x1f3a {
        r.push(0x399);
        r.push(0x313);
        r.push(0x300);
    } else if cp == 0x1f3b {
        r.push(0x399);
        r.push(0x314);
        r.push(0x300);
    } else if cp == 0x1f3c {
        r.push(0x399);
        r.push(0x313);
        r.push(0x301);
    } else if cp == 0x1f3d {
        r.push(0x399);
        r.push(0x314);
        r.push(0x301);
    } else if cp == 0x1f3e {
        r.push(0x399);
        r.push(0x313);
        r.push(0x342);
    } else if cp == 0x1f3f {
        r.push(0x399);
        r.push(0x314);
        r.push(0x342);
    } else if cp == 0x1f40 {
        r.push(0x3bf);
        r.push(0x313);
    } else if cp == 0x1f41 {
        r.push(0x3bf);
        r.push(0x314);
    } else if cp == 0x1f42 {
        r.push(0x3bf);
        r.push(0x313);
        r.push(0x300);
    } else if cp == 0x1f43 {
        r.push(0x3bf);
        r.push(0x314);
        r.push(0x300);
    } else if cp == 0x1f44 {
        r.push(0x3bf);
        r.push(0x313);
        r.push(0x301);
    } else if cp == 0x1f45 {
        r.push(0x3bf);
        r.push(0x314);
        r.push(0x301);
    } else if cp == 0x1f48 {
        r.push(0x39f);
        r.push(0x313);
    } else if cp == 0x1f49 {
        r.push(0x39f);
        r.push(0x314);
    } else if cp == 0x1f4a {
        r.push(0x39f);
        r.push(0x313);
        r.push(0x300);
    } else if cp == 0x1f4b {
        r.push(0x39f);
        r.push(0x314);
        r.push(0x300);
    } else if cp == 0x1f4c {
        r.push(0x39f);
        r.push(0x313);
        r.push(0x301);
    } else if cp == 0x1f4d {
        r.push(0x39f);
        r.push(0x314);
        r.push(0x301);
    } else if cp == 0x1f50 {
        r.push(0x3c5);
        r.push(0x313);
    } else if cp == 0x1f51 {
        r.push(0x3c5);
        r.push(0x314);
    } else if cp == 0x1f52 {
        r.push(0x3c5);
        r.push(0x313);
        r.push(0x300);
    } else if cp == 0x1f53 {
        r.push(0x3c5);
        r.push(0x314);
        r.push(0x300);
    } else if cp == 0x1f54 {
        r.push(0x3c5);
        r.push(0x313);
        r.push(0x301);
    } else if cp == 0x1f55 {
        r.push(0x3c5);
        r.push(0x314);
        r.push(0x301);
    } else if cp == 0x1f56 {
        r.push(0x3c5);
        r.push(0x313);
        r.push(0x342);
    } else if cp == 0x1f57 {
        r.push(0x3c5);
        r.push(0x314);
        r.push(0x342);
    } else if cp == 0x1f59 {
        r.push(0x3a5);
        r.push(0x314);
    } else if cp == 0x1f5b {
        r.push(0x3a5);
        r.push(0x314);
        r.push(0x300);
    } else if cp == 0x1f5d {
        r.push(0x3a5);
        r.push(0x314);
        r.push(0x301);
    } else if cp == 0x1f5f {
        r.push(0x3a5);
        r.push(0x314);
        r.push(0x342);
    } else if cp == 0x1f60 {
        r.push(0x3c9);
        r.push(0x313);
    } else if cp == 0x1f61 {
        r.push(0x3c9);
        r.push(0x314);
    } else if cp == 0x1f62 {
        r.push(0x3c9);
        r.push(0x313);
        r.push(0x300);
    } else if cp == 0x1f63 {
        r.push(0x3c9);
        r.push(0x314);
        r.push(0x300);
    } else if cp == 0x1f64 {
        r.push(0x3c9);
        r.push(0x313);
        r.push(0x301);
    } else if cp == 0x1f65 {
        r.push(0x3c9);
        r.push(0x314);
        r.push(0x301);
    } else if cp == 0x1f66 {
        r.push(0x3c9);
        r.push(0x313);
        r.push(0x342);
    } else if cp == 0x1f67 {
        r.push(0x3c9);
        r.push(0x314);
        r.push(0x342);
    } else if cp == 0x1f68 {
        r.push(0x3a9);
        r.push(0x313);
    } else if cp == 0x1f69 {
        r.push(0x3a9);
        r.push(0x314);
    } else if cp == 0x1f6a {
        r.push(0x3a9);
        r.push(0x313);
        r.push(0x300);
    } else if cp == 0x1f6b {
        r.push(0x3a9);
        r.push(0x314);
        r.push(0x300);
    } else if cp == 0x1f6c {
        r.push(0x3a9);
        r.push(0x313);
        r.push(0x301);
    } else if cp == 0x1f6d {
        r.push(0x3a9);
        r.push(0x314);
        r.push(0x301);
    } else if cp == 0x1f6e {
        r.push(0x3a9);
        r.push(0x313);
        r.push(0x342);
    } else if cp == 0x1f6f {
        r.push(0x3a9);
        r.push(0x314);
        r.push(0x342);
    } else if cp == 0x1f70 {
        r.push(0x3b1);
        r.push(0x300);
    } else if cp == 0x1f71 {
        r.push(0x3b1);
        r.push(0x301);
    } else if cp == 0x1f72 {
        r.push(0x3b5);
        r.push(0x300);
    } else if cp == 0x1f73 {
        r.push(0x3b5);
        r.push(0x301);
    } else if cp == 0x1f74 {
        r.push(0x3b7);
        r.push(0x300);
    } else if cp == 0x1f75 {
        r.push(0x3b7);
        r.push(0x301);
    } else if cp == 0x1f76 {
        r.push(0x3b9);
        r.push(0x300);
    } else if cp == 0x1f77 {
        r.push(0x3b9);
        r.push(0x301);
    } else if cp == 0x1f78 {
        r.push(0x3bf);
        r.push(0x300);
    } else if cp == 0x1f79 {
        r.push(0x3bf);
        r.push(0x301);
    } else if cp == 0x1f7a {
        r.push(0x3c5);
        r.push(0x300);
    } else if cp == 0x1f7b {
        r.push(0x3c5);
        r.push(0x301);
    } else if cp == 0x1f7c {
        r.push(0x3c9);
        r.push(0x300);
    } else if cp == 0x1f7d {
        r.push(0x3c9);
        r.push(0x301);
    } else if cp == 0x1f80 {
        r.push(0x3b1);
        r.push(0x313);
        r.push(0x345);
    } else if cp == 0x1f81 {
        r.push(0x3b1);
        r.push(0x314);
        r.push(0x345);
    } else if cp == 0x1f82 {
        r.push(0x3b1);
        r.push(0x313);
        r.push(0x300);
        r.push(0x345);
    } else if cp == 0x1f83 {
        r.push(0x3b1);
        r.push(0x314);
        r.push(0x300);
        r.push(0x345);
    } else if cp == 0x1f84 {
        r.push(0x3b1);
        r.push(0x313);
        r.push(0x301);
        r.push(0x345);
    } else if cp == 0x1f85 {
        r.push(0x3b1);
        r.push(0x314);
        r.push(0x301);
        r.push(0x345);
    } else if cp == 0x1f86 {
        r.push(0x3b1);
        r.push(0x313);
        r.push(0x342);
        r.push(0x345);
    } else if cp == 0x1f87 {
        r.push(0x3b1);
        r.push(0x314);
        r.push(0x342);
        r.push(0x345);
    } else if cp == 0x1f88 {
        r.push(0x391);
        r.push(0x313);
        r.push(0x345);
    } else if cp == 0x1f89 {
        r.push(0x391);
        r.push(0x314);
        r.push(0x345);
    } else if cp == 0x1f8a {
        r.push(0x391);
        r.push(0x313);
        r.push(0x300);
        r.push(0x345);
    } else if cp == 0x1f8b {
        r.push(0x391);
        r.push(0x314);
        r.push(0x300);
        r.push(0x345);
    } else if cp == 0x1f8c {
        r.push(0x391);
        r.push(0x313);
        r.push(0x301);
        r.push(0x345);
    } else if cp == 0x1f8d {
        r.push(0x391);
        r.push(0x314);
        r.push(0x301);
        r.push(0x345);
    } else if cp == 0x1f8e {
        r.push(0x391);
        r.push(0x313);
        r.push(0x342);
        r.push(0x345);
    } else if cp == 0x1f8f {
        r.push(0x391);
        r.push(0x314);
        r.push(0x342);
        r.push(0x345);
    } else if cp == 0x1f90 {
        r.push(0x3b7);
        r.push(0x313);
        r.push(0x345);
    } else if cp == 0x1f91 {
        r.push(0x3b7);
        r.push(0x314);
        r.push(0x345);
    } else if cp == 0x1f92 {
        r.push(0x3b7);
        r.push(0x313);
        r.push(0x300);
        r.push(0x345);
    } else if cp == 0x1f93 {
        r.push(0x3b7);
        r.push(0x314);
        r.push(0x300);
        r.push(0x345);
    } else if cp == 0x1f94 {
        r.push(0x3b7);
        r.push(0x313);
        r.push(0x301);
        r.push(0x345);
    } else if cp == 0x1f95 {
        r.push(0x3b7);
        r.push(0x314);
        r.push(0x301);
        r.push(0x345);
    } else if cp == 0x1f96 {
        r.push(0x3b7);
        r.push(0x313);
        r.push(0x342);
        r.push(0x345);
    } else if cp == 0x1f97 {
        r.push(0x3b7);
        r.push(0x314);
        r.push(0x342);
        r.push(0x345);
    } else if cp == 0x1f98 {
        r.push(0x397);
        r.push(0x313);
        r.push(0x345);
    } else if cp == 0x1f99 {
        r.push(0x397);
        r.push(0x314);
        r.push(0x345);
    } else if cp == 0x1f9a {
        r.push(0x397);
        r.push(0x313);
        r.push(0x300);
        r.push(0x345);
    } else if cp == 0x1f9b {
        r.push(0x397);
        r.push(0x314);
        r.push(0x300);
        r.push(0x345);
    } else if cp == 0x1f9c {
        r.push(0x397);
        r.push(0x313);
        r.push(0x301);
        r.push(0x345);
    } else if cp == 0x1f9d {
        r.push(0x397);
        r.push(0x314);
        r.push(0x301);
        r.push(0x345);
    } else if cp == 0x1f9e {
        r.push(0x397);
        r.push(0x313);
        r.push(0x342);
        r.push(0x345);
    } else if cp == 0x1f9f {
        r.push(0x397);
        r.push(0x314);
        r.push(0x342);
        r.push(0x345);
    } else if cp == 0x1fa0 {
        r.push(0x3c9);
        r.push(0x313);
        r.push(0x345);
    } else if cp == 0x1fa1 {
        r.push(0x3c9);
        r.push(0x314);
        r.push(0x345);
    } else if cp == 0x1fa2 {
        r.push(0x3c9);
        r.push(0x313);
        r.push(0x300);
        r.push(0x345);
    } else if cp == 0x1fa3 {
        r.push(0x3c9);
        r.push(0x314);
        r.push(0x300);
        r.push(0x345);
    } else if cp == 0x1fa4 {
        r.push(0x3c9);
        r.push(0x313);
        r.push(0x301);
        r.push(0x345);
    } else if cp == 0x1fa5 {
        r.push(0x3c9);
        r.push(0x314);
        r.push(0x301);
        r.push(0x345);
    } else if cp == 0x1fa6 {
        r.push(0x3c9);
        r.push(0x313);
        r.push(0x342);
        r.push(0x345);
    } else if cp == 0x1fa7 {
        r.push(0x3c9);
        r.push(0x314);
        r.push(0x342);
        r.push(0x345);
    } else if cp == 0x1fa8 {
        r.push(0x3a9);
        r.push(0x313);
        r.push(0x345);
    } else if cp == 0x1fa9 {
        r.push(0x3a9);
        r.push(0x314);
        r.push(0x345);
    } else if cp == 0x1faa {
        r.push(0x3a9);
        r.push(0x313);
        r.push(0x300);
        r.push(0x345);
    } else if cp == 0x1fab {
        r.push(0x3a9);
        r.push(0x314);
        r.push(0x300);
        r.push(0x345);
    } else if cp == 0x1fac {
        r.push(0x3a9);
        r.push(0x313);
        r.push(0x301);
        r.push(0x345);
    } else if cp == 0x1fad {
        r.push(0x3a9);
        r.push(0x314);
        r.push(0x301);
        r.push(0x345);
    } else if cp == 0x1fae {
        r.push(0x3a9);
        r.push(0x313);
        r.push(0x342);
        r.push(0x345);
    } else if cp == 0x1faf {
        r.push(0x3a9);
        r.push(0x314);
        r.push(0x342);
        r.push(0x345);
    } else if cp == 0x1fb0 {
        r.push(0x3b1);
        r.push(0x306);
    } else if cp == 0x1fb1 {
        r.push(0x3b1);
        r.push(0x304);
    } else if cp == 0x1fb2 {
        r.push(0x3b1);
        r.push(0x300);
        r.push(0x345);
    } else if cp == 0x1fb3 {
        r.push(0x3b1);
        r.push(0x345);
    } else if cp == 0x1fb4 {
        r.push(0x3b1);
        r.push(0x301);
        r.push(0x345);
    } else if cp == 0x1fb6 {
        r.push(0x3b1);
        r.push(0x342);
    } else if cp == 0x1fb7 {
        r.push(0x3b1);
        r.push(0x342);
        r.push(0x345);
    } else if cp == 0x1fb8 {
        r.push(0x391);
        r.push(0x306);
    } else if cp == 0x1fb9 {
        r.push(0x391);
        r.push(0x304);
    } else if cp == 0x1fba {
        r.push(0x391);
        r.push(0x300);
    } else if cp == 0x1fbb {
        r.push(0x391);
        r.push(0x301);
    } else if cp == 0x1fbc {
        r.push(0x391);
        r.push(0x345);
    } else if cp == 0x1fbe {
        r.push(0x3b9);
    } else if cp == 0x1fc1 {
        r.push(0xa8);
        r.push(0x342);
    } else if cp == 0x1fc2 {
        r.push(0x3b7);
        r.push(0x300);
        r.push(0x345);
    } else if cp == 0x1fc3 {
        r.push(0x3b7);
        r.push(0x345);
    } else if cp == 0x1fc4 {
        r.push(0x3b7);
        r.push(0x301);
        r.push(0x345);
    } else if cp == 0x1fc6 {
        r.push(0x3b7);
        r.push(0x342);
    } else if cp == 0x1fc7 {
        r.push(0x3b7);
        r.push(0x342);
        r.push(0x345);
    } else if cp == 0x1fc8 {
        r.push(0x395);
        r.push(0x300);
    } else if cp == 0x1fc9 {
        r.push(0x395);
        r.push(0x301);
    } else if cp == 0x1fca {
        r.push(0x397);
        r.push(0x300);
    } else if cp == 0x1fcb {
        r.push(0x397);
        r.push(0x301);
    } else if cp == 0x1fcc {
        r.push(0x397);
        r.push(0x345);
    } else if cp == 0x1fcd {
        r.push(0x1fbf);
        r.push(0x300);
    } else if cp == 0x1fce {
        r.push(0x1fbf);
        r.push(0x301);
    } else if cp == 0x1fcf {
        r.push(0x1fbf);
        r.push(0x342);
    } else if cp == 0x1fd0 {
        r.push(0x3b9);
        r.push(0x306);
    } else if cp == 0x1fd1 {
        r.push(0x3b9);
        r.push(0x304);
    } else if cp == 0x1fd2 {
        r.push(0x3b9);
        r.push(0x308);
        r.push(0x300);
    } else if cp == 0x1fd3 {
        r.push(0x3b9);
        r.push(0x308);
        r.push(0x301);
    } else if cp == 0x1fd6 {
        r.push(0x3b9);
        r.push(0x342);
    } else if cp == 0x1fd7 {
        r.push(0x3b9);
        r.push(0x308);
        r.push(0x342);
    } else if cp == 0x1fd8 {
        r.push(0x399);
        r.push(0x306);
    } else if cp == 0x1fd9 {
        r.push(0x399);
        r.push(0x304);
    } else if cp == 0x1fda {
        r.push(0x399);
        r.push(0x300);
    } else if cp == 0x1fdb {
        r.push(0x399);
        r.push(0x301);
    } else if cp == 0x1fdd {
        r.push(0x1ffe);
        r.push(0x300);
    } else if cp == 0x1fde {
        r.push(0x1ffe);
        r.push(0x301);
    } else if cp == 0x1fdf {
        r.push(0x1ffe);
        r.push(0x342);
    } else if cp == 0x1fe0 {
        r.push(0x3c5);
        r.push(0x306);
    } else if cp == 0x1fe1 {
        r.push(0x3c5);
        r.push(0x304);
    } else if cp == 0x1fe2 {
        r.push(0x3c5);
        r.push(0x308);
        r.push(0x300);
    } else if cp == 0x1fe3 {
        r.push(0x3c5);
        r.push(0x308);
        r.push(0x301);
    } else if cp == 0x1fe4 {
        r.push(0x3c1);
        r.push(0x313);
    } else if cp == 0x1fe5 {
        r.push(0x3c1);
        r.push(0x314);
    } else if cp == 0x1fe6 {
        r.push(0x3c5);
        r.push(0x342);
    } else if cp == 0x1fe7 {
        r.push(0x3c5);
        r.push(0x308);
        r.push(0x342);
    } else if cp == 0x1fe8 {
        r.push(0x3a5);
        r.push(0x306);
    } else if cp == 0x1fe9 {
        r.push(0x3a5);
        r.push(0x304);
    } else if cp == 0x1fea {
        r.push(0x3a5);
        r.push(0x300);
    } else if cp == 0x1feb {
        r.push(0x3a5);
        r.push(0x301);
    } else if cp == 0x1fec {
        r.push(0x3a1);
        r.push(0x314);
    } else if cp == 0x1fed {
        r.push(0xa8);
        r.push(0x300);
    } else if cp == 0x1fee {
        r.push(0xa8);
        r.push(0x301);
    } else if cp == 0x1fef {
        r.push(0x60);
    } else if cp == 0x1ff2 {
        r.push(0x3c9);
        r.push(0x300);
        r.push(0x345);
    } else if cp == 0x1ff3 {
        r.push(0x3c9);
        r.push(0x345);
    } else if cp == 0x1ff4 {
        r.push(0x3c9);
        r.push(0x301);
        r.push(0x345);
    } else if cp == 0x1ff6 {
        r.push(0x3c9);
        r.push(0x342);
    } else if cp == 0x1ff7 {
        r.push(0x3c9);
        r.push(0x342);
        r.push(0x345);
    } else if cp == 0x1ff8 {
        r.push(0x39f);
        r.push(0x300);
    } else if cp == 0x1ff9 {
        r.push(0x39f);
        r.push(0x301);
    } else if cp == 0x1ffa {
        r.push(0x3a9);
        r.push(0x300);
    } else if cp == 0x1ffb {
        r.push(0x3a9);
        r.push(0x301);
    } else if cp == 0x1ffc {
        r.push(0x3a9);
        r.push(0x345);
    } else if cp == 0x1ffd {
        r.push(0xb4);
    } else {
        r.push(cp);
    }
}

pub open spec fn decomp_020(cp: u32) -> Seq<u32> {
    if cp == 0x2000 {
        seq![0x2002u32]
    } else if cp == 0x2001 {
        seq![0x2003u32]
    } else {
        seq![cp]
    }
}

fn push_decomp_020(r: &mut Vec<u32>, cp: u32)
    ensures
        final(r)@ == old(r)@ + decomp_020(cp),
{
    if cp == 0x2000 {
        r.push(0x2002);
    } else if cp == 0x2001 {
        r.push(0x2003);
    } else {
        r.push(cp);
    }
}

pub open spec fn decomp_021(cp: u32) -> Seq<u32> {
    if cp == 0x2126 {
        seq![0x3a9u32]
    } else if cp == 0x212a {
        seq![0x4bu32]
    } else if cp == 0x212b {
        seq![0x41u32, 0x30au32]
    } else if cp == 0x219a {
        seq![0x2190u32, 0x338u32]
    } else if cp == 0x219b {
        seq![0x2192u32, 0x338u32]
    } else if cp == 0x21ae {
        seq![0x2194u32, 0x338u32]
    } else if cp == 0x21cd {
        seq![0x21d0u32, 0x338u32]
    } else if cp == 0x21ce {
        seq![0x21d4u32, 0x338u32]
    } else if cp == 0x21cf {
        seq![0x21d2u32, 0x338u32]
    } else {
        seq![cp]
    }
}

fn push_decomp_021(r: &mut Vec<u32>, cp: u32)
    ensures
        final(r)@ == old(r)@ + decomp_021(cp),
{
    if cp == 0x2126 {
        r.push(0x3a9);
    } else if cp == 0x212a {
        r.push(0x4b);
    } else if cp == 0x212b {
        r.push(0x41);
        r.push(0x30a);
    } else if cp == 0x219a {
        r.push(0x2190);
        r.push(0x338);
    } else if cp == 0x219b {
        r.push(0x2192);
        r.push(0x338);
    } else if cp == 0x21ae {
        r.push(0x2194);
        r.push(0x338);
    } else if cp == 0x21cd {
        r.push(0x21d0);
        r.push(0x338);
    } else if cp == 0x21ce {
        r.push(0x21d4);
        r.push(0x338);
    } else if cp == 0x21cf {
        r.push(0x21d2);
        r.push(0x338);
    } else {
        r.push(cp);
    }
}

pub open spec fn decomp_022(cp: u32) -> Seq<u32> {
    if cp == 0x2204 {
        seq![0x2203u32, 0x338u32]
    } else if cp == 0x2209 {
        seq![0x2208u32, 0x338u32]
    } else if cp == 0x220c {
        seq![0x220bu32, 0x338u32]
    } else if cp == 0x2224 {
        seq![0x2223u32, 0x338u32]
    } else if cp == 0x2226 {
        seq![0x2225u32, 0x338u32]
    } else if cp == 0x2241 {
        seq![0x223cu32, 0x338u32]
    } else if cp == 0x2244 {
        seq![0x2243u32, 0x338u32]
    } else if cp == 0x2247 {
        seq![0x2245u32, 0x338u32]
    } else if cp == 0x2249 {
        seq![0x2248u32, 0x338u32]
    } else if cp == 0x2260 {
        seq![0x3du32, 0x338u32]
    } else if cp == 0x2262 {
        seq![0x2261u32, 0x338u32]
    } else if cp == 0x226d {
        seq![0x224du32, 0x338u32]
    } else if cp == 0x226e {
        seq![0x3cu32, 0x338u32]
    } else if cp == 0x226f {
        seq![0x3eu32, 0x338u32]
    } else if cp == 0x2270 {
        seq![0x2264u32, 0x338u32]
    } else if cp == 0x2271 {
        seq![0x2265u32, 0x338u32]
    } else if cp == 0x2274 {
        seq![0x2272u32, 0x338u32]
    } else if cp == 0x2275 {
        seq![0x2273u32, 0x338u32]
    } else if cp == 0x2278 {
        seq![0x2276u32, 0x338u32]
    } else if cp == 0x2279 {
        seq![0x2277u32, 0x338u32]
    } else if cp == 0x2280 {
        seq![0x227au32, 0x338u32]
    } else if cp == 0x2281 {
        seq![0x227bu32, 0x338u32]
    } else if cp == 0x2284 {
        seq![0x2282u32, 0x338u32]
    } else if cp == 0x2285 {
        seq![0x2283u32, 0x338u32]
    } else if cp == 0x2288 {
        seq![0x2286u32, 0x338u32]
    } else if cp == 0x2289 {
        seq![0x2287u32, 0x338u32]
    } else if cp == 0x22ac {
        seq![0x22a2u32, 0x338u32]
    } else if cp == 0x22ad {
        seq![0x22a8u32, 0x338u32]
    } else if cp == 0x22ae {
        seq![0x22a9u32, 0x338u32]
    } else if cp == 0x22af {
        seq![0x22abu32, 0x338u32]
    } else if cp == 0x22e0 {
        seq![0x227cu32, 0x338u32]
    } else if cp == 0x22e1 {
        seq![0x227du32, 0x338u32]
    } else if cp == 0x22e2 {
        seq![0x2291u32, 0x338u32]
    } else if cp == 0x22e3 {
        seq![0x2292u32, 0x338u32]
    } else if cp == 0x22ea {
        seq![0x22b2u32, 0x338u32]
    } else if cp == 0x22eb {
        seq![0x22b3u32, 0x338u32]
    } else if cp == 0x22ec {
        seq![0x22b4u32, 0x338u32]
    } else if cp == 0x22ed {
        seq![0x22b5u32, 0x338u32]
    } else {
        seq![cp]
    }
}

fn push_decomp_022(r: &mut Vec<u32>, cp: u32)
    ensures
        final(r)@ == old(r)@ + decomp_022(cp),
{
    if cp == 0x2204 {
        r.push(0x2203);
        r.push(0x338);
    } else if cp == 0x2209 {
        r.push(0x2208);
        r.push(0x338);
    } else if cp == 0x220c {
        r.push(0x220b);
        r.push(0x338);
    } else if cp == 0x2224 {
        r.push(0x2223);
        r.push(0x338);
    } else if cp == 0x2226 {
        r.push(0x2225);
        r.push(0x338);
    } else if cp == 0x2241 {
        r.push(0x223c);
        r.push(0x338);
    } else if cp == 0x2244 {
        r.push(0x2243);
        r.push(0x338);
    } else if cp == 0x2247 {
        r.push(0x2245);
        r.push(0x338);
    } else if cp == 0x2249 {
        r.push(0x2248);
        r.push(0x338);
    } else if cp == 0x2260 {
        r.push(0x3d);
        r.push(0x338);
    } else if cp == 0x2262 {
        r.push(0x2261);
        r.push(0x338);
    } else if cp == 0x226d {
        r.push(0x224d);
        r.push(0x338);
    } else if cp == 0x226e {
        r.push(0x3c);
        r.push(0x338);
    } else if cp == 0x226f {
        r.push(0x3e);
        r.push(0x338);
    } else if cp == 0x2270 {
        r.push(0x2264);
        r.push(0x338);
    } else if cp == 0x2271 {
        r.push(0x2265);
        r.push(0x338);
    } else if cp == 0x2274 {
        r.push(0x2272);
        r.push(0x338);
    } else if cp == 0x2275 {
        r.push(0x2273);
        r.push(0x338);
    } else if cp == 0x2278 {
        r.push(0x2276);
        r.push(0x338);
    } else if cp == 0x2279 {
        r.push(0x2277);
        r.push(0x338);
    } else if cp == 0x2280 {
        r.push(0x227a);
        r.push(0x338);
    } else if cp == 0x2281 {
        r.push(0x227b);
        r.push(0x338);
    } else if cp == 0x2284 {
        r.push(0x2282);
        r.push(0x338);
    } else if cp == 0x2285 {
        r.push(0x2283);
        r.push(0x338);
    } else if cp == 0x2288 {
        r.push(0x2286);
        r.push(0x338);
    } else if cp == 0x2289 {
        r.push(0x2287);
        r.push(0x338);
    } else if cp == 0x22ac {
        r.push(0x22a2);
        r.push(0x338);
    } else if cp == 0x22ad {
        r.push(0x22a8);
        r.push(0x338);
    } else if cp == 0x22ae {
        r.push(0x22a9);
        r.push(0x338);
    } else if cp == 0x22af {
        r.push(0x22ab);
        r.push(0x338);
    } else if cp == 0x22e0 {
        r.push(0x227c);
        r.push(0x338);
    } else if cp == 0x22e1 {
        r.push(0x227d);
        r.push(0x338);
    } else if cp == 0x22e2 {
        r.push(0x2291);
        r.push(0x338);
    } else if cp == 0x22e3 {
        r.push(0x2292);
        r.push(0x338);
    } else if cp == 0x22ea {
        r.push(0x22b2);
        r.push(0x338);
    } else if cp == 0x22eb {
        r.push(0x22b3);
        r.push(0x338);
    } else if cp == 0x22ec {
        r.push(0x22b4);
        r.push(0x338);
    } else if cp == 0x22ed {
        r.push(0x22b5);
        r.push(0x338);
    } else {
        r.push(cp);
    }
}

pub open spec fn decomp_023(cp: u32) -> Seq<u32> {
    if cp == 0x2329 {
        seq![0x3008u32]
    } else if cp == 0x232a {
        seq![0x3009u32]
    } else {
        seq![cp]
    }
}

fn push_decomp_023(r: &mut Vec<u32>, cp: u32)
    ensures
        final(r)@ == old(r)@ + decomp_023(cp),
{
    if cp == 0x2329 {
        r.push(0x3008);
    } else if cp == 0x232a {
        r.push(0x3009);
    } else {
        r.push(cp);
    }
}

pub open spec fn decomp_02a(cp: u32) -> Seq<u32> {
    if cp == 0x2adc {
        seq![0x2addu32, 0x338u32]
    } else {
        seq![cp]
    }
}

fn push_decomp_02a(r: &mut Vec<u32>, cp: u32)
    ensures
        final(r)@ == old(r)@ + decomp_02a(cp),
{
    if cp == 0x2adc {
        r.push(0x2add);
        r.push(0x338);
    } else {
        r.push(cp);
    }
}

pub open spec fn decomp_030(cp: u32) -> Seq<u32> {
    if cp == 0x304c {
        seq![0x304bu32, 0x3099u32]
    } else if cp == 0x304e {
        seq![0x304du32, 0x3099u32]
    } else if cp == 0x3050 {
        seq![0x304fu32, 0x3099u32]
    } else if cp == 0x3052 {
        seq![0x3051u32, 0x3099u32]
    } else if cp == 0x3054 {
        seq![0x3053u32, 0x3099u32]
    } else if cp == 0x3056 {
        seq![0x3055u32, 0x3099u32]
    } else if cp == 0x3058 {
        seq![0x3057u32, 0x3099u32]
    } else if cp == 0x305a {
        seq![0x3059u32, 0x3099u32]
    } else if cp == 0x305c {
        seq![0x305bu32, 0x3099u32]
    } else if cp == 0x305e {
        seq![0x305du32, 0x3099u32]
    } else if cp == 0x3060 {
        seq![0x305fu32, 0x3099u32]
    } else if cp == 0x3062 {
        seq![0x3061u32, 0x3099u32]
    } else if cp == 0x3065 {
        seq![0x3064u32, 0x3099u32]
    } else if cp == 0x3067 {
        seq![0x3066u32, 0x3099u32]
    } else if cp == 0x3069 {
        seq![0x3068u32, 0x3099u32]
    } else if cp == 0x3070 {
        seq![0x306fu32, 0x3099u32]
    } else if cp == 0x3071 {
        seq![0x306fu32, 0x309au32]
    } else if cp == 0x3073 {
        seq![0x3072u32, 0x3099u32]
    } else if cp == 0x3074 {
        seq![0x3072u32, 0x309au32]
    } else if cp == 0x3076 {
        seq![0x3075u32, 0x3099u32]
    } else if cp == 0x3077 {
        seq![0x3075u32, 0x309au32]
    } else if cp == 0x3079 {
        seq![0x3078u32, 0x3099u32]
    } else if cp == 0x307a {
        seq![0x3078u32, 0x309au32]
    } else if cp == 0x307c {
        seq![0x307bu32, 0x3099u32]
    } else if cp == 0x307d {
        seq![0x307bu32, 0x309au32]
    } else if cp == 0x3094 {
        seq![0x3046u32, 0x3099u32]
    } else if cp == 0x309e {
        seq![0x309du32, 0x3099u32]
    } else if cp == 0x30ac {
        seq![0x30abu32, 0x3099u32]
    } else if cp == 0x30ae {
        seq![0x30adu32, 0x3099u32]
    } else if cp == 0x30b0 {
        seq![0x30afu32, 0x3099u32]
    } else if cp == 0x30b2 {
        seq![0x30b1u32, 0x3099u32]
    } else if cp == 0x30b4 {
        seq![0x30b3u32, 0x3099u32]
    } else if cp == 0x30b6 {
        seq![0x30b5u32, 0x3099u32]
    } else if cp == 0x30b8 {
        seq![0x30b7u32, 0x3099u32]
    } else if cp == 0x30ba {
        seq![0x30b9u32, 0x3099u32]
    } else if cp == 0x30bc {
        seq![0x30bbu32, 0x3099u32]
    } else if cp == 0x30be {
        seq![0x30bdu32, 0x3099u32]
    } else if cp == 0x30c0 {
        seq![0x30bfu32, 0x3099u32]
    } else if cp == 0x30c2 {
        seq![0x30c1u32, 0x3099u32]
    } else if cp == 0x30c5 {
        seq![0x30c4u32, 0x3099u32]
    } else if cp == 0x30c7 {
        seq![0x30c6u32, 0x3099u32]
    } else if cp == 0x30c9 {
        seq![0x30c8u32, 0x3099u32]
    } else if cp == 0x30d0 {
        seq![0x30cfu32, 0x3099u32]
    } else if cp == 0x30d1 {
        seq![0x30cfu32, 0x309au32]
    } else if cp == 0x30d3 {
        seq![0x30d2u32, 0x3099u32]
    } else if cp == 0x30d4 {
        seq![0x30d2u32, 0x309au32]
    } else if cp == 0x30d6 {
        seq![0x30d5u32, 0x3099u32]
    } else if cp == 0x30d7 {
        seq![0x30d5u32, 0x309au32]
    } else if cp == 0x30d9 {
        seq![0x30d8u32, 0x3099u32]
    } else if cp == 0x30da {
        seq![0x30d8u32, 0x309au32]
    } else if cp == 0x30dc {
        seq![0x30dbu32, 0x3099u32]
    } else if cp == 0x30dd {
        seq![0x30dbu32, 0x309au32]
    } else if cp == 0x30f4 {
        seq![0x30a6u32, 0x3099u32]
    } else if cp == 0x30f7 {
        seq![0x30efu32, 0x3099u32]
    } else if cp == 0x30f8 {
        seq![0x30f0u32, 0x3099u32]
    } else if cp == 0x30f9 {
        seq![0x30f1u32, 0x3099u32]
    } else if cp == 0x30fa {
        seq![0x30f2u32, 0x3099u32]
    } else if cp == 0x30fe {
        seq![0x30fdu32, 0x3099u32]
    } else {
        seq![cp]
    }
}

fn push_decomp_030(r: &mut Vec<u32>, cp: u32)
    ensures
        final(r)@ == old(r)@ + decomp_030(cp),
{
    if cp == 0x304c {
        r.push(0x304b);
        r.push(0x3099);
    } else if cp == 0x304e {
        r.push(0x304d);
        r.push(0x3099);
    } else if cp == 0x3050 {
        r.push(0x304f);
        r.push(0x3099);
    } else if cp == 0x3052 {
        r.push(0x3051);
        r.push(0x3099);
    } else if cp == 0x3054 {
        r.push(0x3053);
        r.push(0x3099);
    } else if cp == 0x3056 {
        r.push(0x3055);
        r.push(0x3099);
    } else if cp == 0x3058 {
        r.push(0x3057);
        r.push(0x3099);
    } else if cp == 0x305a {
        r.push(0x3059);
        r.push(0x3099);
    } else if cp == 0x305c {
        r.push(0x305b);
        r.push(0x3099);
    } else if cp == 0x305e {
        r.push(0x305d);
        r.push(0x3099);
    } else if cp == 0x3060 {
        r.push(0x305f);
        r.push(0x3099);
    } else if cp == 0x3062 {
        r.push(0x3061);
        r.push(0x3099);
    } else if cp == 0x3065 {
        r.push(0x3064);
        r.push(0x3099);
    } else if cp == 0x3067 {
        r.push(0x3066);
        r.push(0x3099);
    } else if cp == 0x3069 {
        r.push(0x3068);
        r.push(0x3099);
    } else if cp == 0x3070 {
        r.push(0x306f);
        r.push(0x3099);
    } else if cp == 0x3071 {
        r.push(0x306f);
        r.push(0x309a);
    } else if cp == 0x3073 {
        r.push(0x3072);
        r.push(0x3099);
    } else if cp == 0x3074 {
        r.push(0x3072);
        r.push(0x309a);
    } else if cp == 0x3076 {
        r.push(0x3075);
        r.push(0x3099);
    } else if cp == 0x3077 {
        r.push(0x3075);
        r.push(0x309a);
    } else if cp == 0x3079 {
        r.push(0x3078);
        r.push(0x3099);
    } else if cp == 0x307a {
        r.push(0x3078);
        r.push(0x309a);
    } else if cp == 0x307c {
        r.push(0x307b);
        r.push(0x3099);
    } else if cp == 0x307d {
        r.push(0x307b);
        r.push(0x309a);
    } else if cp == 0x3094 {
        r.push(0x3046);
        r.push(0x3099);
    } else if cp == 0x309e {
        r.push(0x309d);
        r.push(0x3099);
    } else if cp == 0x30ac {
        r.push(0x30ab);
        r.push(0x3099);
    } else if cp == 0x30ae {
        r.push(0x30ad);
        r.push(0x3099);
    } else if cp == 0x30b0 {
        r.push(0x30af);
        r.push(0x3099);
    } else if cp == 0x30b2 {
        r.push(0x30b1);
        r.push(0x3099);
    } else if cp == 0x30b4 {
        r.push(0x30b3);
        r.push(0x3099);
    } else if cp == 0x30b6 {
        r.push(0x30b5);
        r.push(0x3099);
    } else if cp == 0x30b8 {
        r.push(0x30b7);
        r.push(0x3099);
    } else if cp == 0x30ba {
        r.push(0x30b9);
        r.push(0x3099);
    } else if cp == 0x30bc {
        r.push(0x30bb);
        r.push(0x3099);
    } else if cp == 0x30be {
        r.push(0x30bd);
        r.push(0x3099);
    } else if cp == 0x30c0 {
        r.push(0x30bf);
        r.push(0x3099);
    } else if cp == 0x30c2 {
        r.push(0x30c1);
        r.push(0x3099);
    } else if cp == 0x30c5 {
        r.push(0x30c4);
        r.push(0x3099);
    } else if cp == 0x30c7 {
        r.push(0x30c6);
        r.push(0x3099);
    } else if cp == 0x30c9 {
        r.push(0x30c8);
        r.push(0x3099);
    } else if cp == 0x30d0 {
        r.push(0x30cf);
        r.push(0x3099);
    } else if cp == 0x30d1 {
        r.push(0x30cf);
        r.push(0x309a);
    } else if cp == 0x30d3 {
        r.push(0x30d2);
        r.push(0x3099);
    } else if cp == 0x30d4 {
        r.push(0x30d2);
        r.push(0x309a);
    } else if cp == 0x30d6 {
        r.push(0x30d5);
        r.push(0x3099);
    } else if cp == 0x30d7 {
        r.push(0x30d5);
        r.push(0x309a);
    } else if cp == 0x30d9 {
        r.push(0x30d8);
        r.push(0x3099);
    } else if cp == 0x30da {
        r.push(0x30d8);
        r.push(0x309a);
    } else if cp == 0x30dc {
        r.push(0x30db);
        r.push(0x3099);
    } else if cp == 0x30dd {
        r.push(0x30db);
        r.push(0x309a);
    } else if cp == 0x30f4 {
        r.push(0x30a6);
        r.push(0x3099);
    } else if cp == 0x30f7 {
        r.push(0x30ef);
        r.push(0x3099);
    } else if cp == 0x30f8 {
        r.push(0x30f0);
        r.push(0x3099);
    } else if cp == 0x30f9 {
        r.push(0x30f1);
        r.push(0x3099);
    } else if cp == 0x30fa {
        r.push(0x30f2);
        r.push(0x3099);
    } else if cp == 0x30fe {
        r.push(0x30fd);
        r.push(0x3099);
    } else {
        r.push(cp);
    }
}

pub open spec fn decomp_0f9(cp: u32) -> Seq<u32> {
    if cp == 0xf900 {
        seq![0x8c48u32]
    } else if cp == 0xf901 {
        seq![0x66f4u32]
    } else if cp == 0xf902 {
        seq![0x8ecau32]
    } else if cp == 0xf903 {
        seq![0x8cc8u32]
    } else if cp == 0xf904 {
        seq![0x6ed1u32]
    } else if cp == 0xf905 {
        seq![0x4e32u32]
    } else if cp == 0xf906 {
        seq![0x53e5u32]
    } else if cp == 0xf907 {
        seq![0x9f9cu32]
    } else if cp == 0xf908 {
        seq![0x9f9cu32]
    } else if cp == 0xf909 {
        seq![0x5951u32]
    } else if cp == 0xf90a {
        seq![0x91d1u32]
    } else if cp == 0xf90b {
        seq![0x5587u32]
    } else if cp == 0xf90c {
        seq![0x5948u32]
    } else if cp == 0xf90d {
        seq![0x61f6u32]
    } else if cp == 0xf90e {
        seq![0x7669u32]
    } else if cp == 0xf90f {
        seq![0x7f85u32]
    } else if cp == 0xf910 {
        seq![0x863fu32]
    } else if cp == 0xf911 {
        seq![0x87bau32]
    } else if cp == 0xf912 {
        seq![0x88f8u32]
    } else if cp == 0xf913 {
        seq![0x908fu32]
    } else if cp == 0xf914 {
        seq![0x6a02u32]
    } else if cp == 0xf915 {
        seq![0x6d1bu32]
    } else if cp == 0xf916 {
        seq![0x70d9u32]
    } else if cp == 0xf917 {
        seq![0x73deu32]
    } else if cp == 0xf918 {
        seq![0x843du32]
    } else if cp == 0xf919 {
        seq![0x916au32]
    } else if cp == 0xf91a {
        seq![0x99f1u32]
    } else if cp == 0xf91b {
        seq![0x4e82u32]
    } else if cp == 0xf91c {
        seq![0x5375u32]
    } else if cp == 0xf91d {
        seq![0x6b04u32]
    } else if cp == 0xf91e {
        seq![0x721bu32]
    } else if cp == 0xf91f {
        seq![0x862du32]
    } else if cp == 0xf920 {
        seq![0x9e1eu32]
    } else if cp == 0xf921 {
        seq![0x5d50u32]
    } else if cp == 0xf922 {
        seq![0x6febu32]
    } else if cp == 0xf923 {
        seq![0x85cdu32]
    } else if cp == 0xf924 {
        seq![0x8964u32]
    } else if cp == 0xf925 {
        seq![0x62c9u32]
    } else if cp == 0xf926 {
        seq![0x81d8u32]
    } else if cp == 0xf927 {
        seq![0x881fu32]
    } else if cp == 0xf928 {
        seq![0x5ecau32]
    } else if cp == 0xf929 {
        seq![0x6717u32]
    } else if cp == 0xf92a {
        seq![0x6d6au32]
    } else if cp == 0xf92b {
        seq![0x72fcu32]
    } else if cp == 0xf92c {
        seq![0x90ceu32]
    } else if cp == 0xf92d {
        seq![0x4f86u32]
    } else if cp == 0xf92e {
        seq![0x51b7u32]
    } else if cp == 0xf92f {
        seq![0x52deu32]
    } else if cp == 0xf930 {
        seq![0x64c4u32]
    } else if cp == 0xf931 {
        seq![0x6ad3u32]
    } else if cp == 0xf932 {
        seq![0x7210u32]
    } else if cp == 0xf933 {
        seq![0x76e7u32]
    } else if cp == 0xf934 {
        seq![0x8001u32]
    } else if cp == 0xf935 {
        seq![0x8606u32]
    } else if cp == 0xf936 {
        seq![0x865cu32]
    } else if cp == 0xf937 {
        seq![0x8defu32]
    } else if cp == 0xf938 {
        seq![0x9732u32]
    } else if cp == 0xf939 {
        seq![0x9b6fu32]
    } else if cp == 0xf93a {
        seq![0x9dfau32]
    } else if cp == 0xf93b {
        seq![0x788cu32]
    } else if cp == 0xf93c {
        seq![0x797fu32]
    } else if cp == 0xf93d {
        seq![0x7da0u32]
    } else if cp == 0xf93e {
        seq![0x83c9u32]
    } else if cp == 0xf93f {
        seq![0x9304u32]
    } else if cp == 0xf940 {
        seq![0x9e7fu32]
    } else if cp == 0xf941 {
        seq![0x8ad6u32]
    } else if cp == 0xf942 {
        seq![0x58dfu32]
    } else if cp == 0xf943 {
        seq![0x5f04u32]
    } else if cp == 0xf944 {
        seq![0x7c60u32]
    } else if cp == 0xf945 {
        seq![0x807eu32]
    } else if cp == 0xf946 {
        seq![0x7262u32]
    } else if cp == 0xf947 {
        seq![0x78cau32]
    } else if cp == 0xf948 {
        seq![0x8cc2u32]
    } else if cp == 0xf949 {
        seq![0x96f7u32]
    } else if cp == 0xf94a {
        seq![0x58d8u32]
    } else if cp == 0xf94b {
        seq![0x5c62u32]
    } else if cp == 0xf94c {
        seq![0x6a13u32]
    } else if cp == 0xf94d {
        seq![0x6ddau32]
    } else if cp == 0xf94e {
        seq![0x6f0fu32]
    } else if cp == 0xf94f {
        seq![0x7d2fu32]
    } else if cp == 0xf950 {
        seq![0x7e37u32]
    } else if cp == 0xf951 {
        seq![0x964bu32]
    } else if cp == 0xf952 {
        seq![0x52d2u32]
    } else if cp == 0xf953 {
        seq![0x808bu32]
    } else if cp == 0xf954 {
        seq![0x51dcu32]
    } else if cp == 0xf955 {
        seq![0x51ccu32]
    } else if cp == 0xf956 {
        seq![0x7a1cu32]
    } else if cp == 0xf957 {
        seq![0x7dbeu32]
    } else if cp == 0xf958 {
        seq![0x83f1u32]
    } else if cp == 0xf959 {
        seq![0x9675u32]
    } else if cp == 0xf95a {
        seq![0x8b80u32]
    } else if cp == 0xf95b {
        seq![0x62cfu32]
    } else if cp == 0xf95c {
        seq![0x6a02u32]
    } else if cp == 0xf95d {
        seq![0x8afeu32]
    } else if cp == 0xf95e {
        seq![0x4e39u32]
    } else if cp == 0xf95f {
        seq![0x5be7u32]
    } else if cp == 0xf960 {
        seq![0x6012u32]
    } else if cp == 0xf961 {
        seq![0x7387u32]
    } else if cp == 0xf962 {
        seq![0x7570u32]
    } else if cp == 0xf963 {
        seq![0x5317u32]
    } else if cp == 0xf964 {
        seq![0x78fbu32]
    } else if cp == 0xf965 {
        seq![0x4fbfu32]
    } else if cp == 0xf966 {
        seq![0x5fa9u32]
    } else if cp == 0xf967 {
        seq![0x4e0du32]
    } else if cp == 0xf968 {
        seq![0x6cccu32]
    } else if cp == 0xf969 {
        seq![0x6578u32]
    } else if cp == 0xf96a {
        seq![0x7d22u32]
    } else if cp == 0xf96b {
        seq![0x53c3u32]
    } else if cp == 0xf96c {
        seq![0x585eu32]
    } else if cp == 0xf96d {
        seq![0x7701u32]
    } else if cp == 0xf96e {
        seq![0x8449u32]
    } else if cp == 0xf96f {
        seq![0x8aaau32]
    } else if cp == 0xf970 {
        seq![0x6bbau32]
    } else if cp == 0xf971 {
        seq![0x8fb0u32]
    } else if cp == 0xf972 {
        seq![0x6c88u32]
    } else if cp == 0xf973 {
        seq![0x62feu32]
    } else if cp == 0xf974 {
        seq![0x82e5u32]
    } else if cp == 0xf975 {
        seq![0x63a0u32]
    } else if cp == 0xf976 {
        seq![0x7565u32]
    } else if cp == 0xf977 {
        seq![0x4eaeu32]
    } else if cp == 0xf978 {
        seq![0x5169u32]
    } else if cp == 0xf979 {
        seq![0x51c9u32]
    } else if cp == 0xf97a {
        seq![0x6881u32]
    } else if cp == 0xf97b {
        seq![0x7ce7u32]
    } else if cp == 0xf97c {
        seq![0x826fu32]
    } else if cp == 0xf97d {
        seq![0x8ad2u32]
    } else if cp == 0xf97e {
        seq![0x91cfu32]
    } else if cp == 0xf97f {
        seq![0x52f5u32]
    } else if cp == 0xf980 {
        seq![0x5442u32]
    } else if cp == 0xf981 {
        seq![0x5973u32]
    } else if cp == 0xf982 {
        seq![0x5eecu32]
    } else if cp == 0xf983 {
        seq![0x65c5u32]
    } else if cp == 0xf984 {
        seq![0x6ffeu32]
    } else if cp == 0xf985 {
        seq![0x792au32]
    } else if cp == 0xf986 {
        seq![0x95adu32]
    } else if cp == 0xf987 {
        seq![0x9a6au32]
    } else if cp == 0xf988 {
        seq![0x9e97u32]
    } else if cp == 0xf989 {
        seq![0x9eceu32]
    } else if cp == 0xf98a {
        seq![0x529bu32]
    } else if cp == 0xf98b {
        seq![0x66c6u32]
    } else if cp == 0xf98c {
        seq![0x6b77u32]
    } else if cp == 0xf98d {
        seq![0x8f62u32]
    } else if cp == 0xf98e {
        seq![0x5e74u32]
    } else if cp == 0xf98f {
        seq![0x6190u32]
    } else if cp == 0xf990 {
        seq![0x6200u32]
    } else if cp == 0xf991 {
        seq![0x649au32]
    } else if cp == 0xf992 {
        seq![0x6f23u32]
    } else if cp == 0xf993 {
        seq![0x7149u32]
    } else if cp == 0xf994 {
        seq![0x7489u32]
    } else if cp == 0xf995 {
        seq![0x79cau32]
    } else if cp == 0xf996 {
        seq![0x7df4u32]
    } else if cp == 0xf997 {
        seq![0x806fu32]
    } else if cp == 0xf998 {
        seq![0x8f26u32]
    } else if cp == 0xf999 {
        seq![0x84eeu32]
    } else if cp == 0xf99a {
        seq![0x9023u32]
    } else if cp == 0xf99b {
        seq![0x934au32]
    } else if cp == 0xf99c {
        seq![0x5217u32]
    } else if cp == 0xf99d {
        seq![0x52a3u32]
    } else if cp == 0xf99e {
        seq![0x54bdu32]
    } else if cp == 0xf99f {
        seq![0x70c8u32]
    } else if cp == 0xf9a0 {
        seq![0x88c2u32]
    } else if cp == 0xf9a1 {
        seq![0x8aaau32]
    } else if cp == 0xf9a2 {
        seq![0x5ec9u32]
    } else if cp == 0xf9a3 {
        seq![0x5ff5u32]
    } else if cp == 0xf9a4 {
        seq![0x637bu32]
    } else if cp == 0xf9a5 {
        seq![0x6baeu32]
    } else if cp == 0xf9a6 {
        seq![0x7c3eu32]
    } else if cp == 0xf9a7 {
        seq![0x7375u32]
    } else if cp == 0xf9a8 {
        seq![0x4ee4u32]
    } else if cp == 0xf9a9 {
        seq![0x56f9u32]
    } else if cp == 0xf9aa {
        seq![0x5be7u32]
    } else if cp == 0xf9ab {
        seq![0x5dbau32]
    } else if cp == 0xf9ac {
        seq![0x601cu32]
    } else if cp == 0xf9ad {
        seq![0x73b2u32]
    } else if cp == 0xf9ae {
        seq![0x7469u32]
    } else if cp == 0xf9af {
        seq![0x7f9au32]
    } else if cp == 0xf9b0 {
        seq![0x8046u32]
    } else if cp == 0xf9b1 {
        seq![0x9234u32]
    } else if cp == 0xf9b2 {
        seq![0x96f6u32]
    } else if cp == 0xf9b3 {
        seq![0x9748u32]
    } else if cp == 0xf9b4 {
        seq![0x9818u32]
    } else if cp == 0xf9b5 {
        seq![0x4f8bu32]
    } else if cp == 0xf9b6 {
        seq![0x79aeu32]
    } else if cp == 0xf9b7 {
        seq![0x91b4u32]
    } else if cp == 0xf9b8 {
        seq![0x96b8u32]
    } else if cp == 0xf9b9 {
        seq![0x60e1u32]
    } else if cp == 0xf9ba {
        seq![0x4e86u32]
    } else if cp == 0xf9bb {
        seq![0x50dau32]
    } else if cp == 0xf9bc {
        seq![0x5beeu32]
    } else if cp == 0xf9bd {
        seq![0x5c3fu32]
    } else if cp == 0xf9be {
        seq![0x6599u32]
    } else if cp == 0xf9bf {
        seq![0x6a02u32]
    } else if cp == 0xf9c0 {
        seq![0x71ceu32]
    } else if cp == 0xf9c1 {
        seq![0x7642u32]
    } else if cp == 0xf9c2 {
        seq![0x84fcu32]
    } else if cp == 0xf9c3 {
        seq![0x907cu32]
    } else if cp == 0xf9c4 {
        seq![0x9f8du32]
    } else if cp == 0xf9c5 {
        seq![0x6688u32]
    } else if cp == 0xf9c6 {
        seq![0x962eu32]
    } else if cp == 0xf9c7 {
        seq![0x5289u32]
    } else if cp == 0xf9c8 {
        seq![0x677bu32]
    } else if cp == 0xf9c9 {
        seq![0x67f3u32]
    } else if cp == 0xf9ca {
        seq![0x6d41u32]
    } else if cp == 0xf9cb {
        seq![0x6e9cu32]
    } else if cp == 0xf9cc {
        seq![0x7409u32]
    } else if cp == 0xf9cd {
        seq![0x7559u32]
    } else if cp == 0xf9ce {
        seq![0x786bu32]
    } else if cp == 0xf9cf {
        seq![0x7d10u32]
    } else if cp == 0xf9d0 {
        seq![0x985eu32]
    } else if cp == 0xf9d1 {
        seq![0x516du32]
    } else if cp == 0xf9d2 {
        seq![0x622eu32]
    } else if cp == 0xf9d3 {
        seq![0x9678u32]
    } else if cp == 0xf9d4 {
        seq![0x502bu32]
    } else if cp == 0xf9d5 {
        seq![0x5d19u32]
    } else if cp == 0xf9d6 {
        seq![0x6deau32]
    } else if cp == 0xf9d7 {
        seq![0x8f2au32]
    } else if cp == 0xf9d8 {
        seq![0x5f8bu32]
    } else if cp == 0xf9d9 {
        seq![0x6144u32]
    } else if cp == 0xf9da {
        seq![0x6817u32]
    } else if cp == 0xf9db {
        seq![0x7387u32]
    } else if cp == 0xf9dc {
        seq![0x9686u32]
    } else if cp == 0xf9dd {
        seq![0x5229u32]
    } else if cp == 0xf9de {
        seq![0x540fu32]
    } else if cp == 0xf9df {
        seq![0x5c65u32]
    } else if cp == 0xf9e0 {
        seq![0x6613u32]
    } else if cp == 0xf9e1 {
        seq![0x674eu32]
    } else if cp == 0xf9e2 {
        seq![0x68a8u32]
    } else if cp == 0xf9e3 {
        seq![0x6ce5u32]
    } else if cp == 0xf9e4 {
        seq![0x7406u32]
    } else if cp == 0xf9e5 {
        seq![0x75e2u32]
    } else if cp == 0xf9e6 {
        seq![0x7f79u32]
    } else if cp == 0xf9e7 {
        seq![0x88cfu32]
    } else if cp == 0xf9e8 {
        seq![0x88e1u32]
    } else if cp == 0xf9e9 {
        seq![0x91ccu32]
    } else if cp == 0xf9ea {
        seq![0x96e2u32]
    } else if cp == 0xf9eb {
        seq![0x533fu32]
    } else if cp == 0xf9ec {
        seq![0x6ebau32]
    } else if cp == 0xf9ed {
        seq![0x541du32]
    } else if cp == 0xf9ee {
        seq![0x71d0u32]
    } else if cp == 0xf9ef {
        seq![0x7498u32]
    } else if cp == 0xf9f0 {
        seq![0x85fau32]
    } else if cp == 0xf9f1 {
        seq![0x96a3u32]
    } else if cp == 0xf9f2 {
        seq![0x9c57u32]
    } else if cp == 0xf9f3 {
        seq![0x9e9fu32]
    } else if cp == 0xf9f4 {
        seq![0x6797u32]
    } else if cp == 0xf9f5 {
        seq![0x6dcbu32]
    } else if cp == 0xf9f6 {
        seq![0x81e8u32]
    } else if cp == 0xf9f7 {
        seq![0x7acbu32]
    } else if cp == 0xf9f8 {
        seq![0x7b20u32]
    } else if cp == 0xf9f9 {
        seq![0x7c92u32]
    } else if cp == 0xf9fa {
        seq![0x72c0u32]
    } else if cp == 0xf9fb {
        seq![0x7099u32]
    } else if cp == 0xf9fc {
        seq![0x8b58u32]
    } else if cp == 0xf9fd {
        seq![0x4ec0u32]
    } else if cp == 0xf9fe {
        seq![0x8336u32]
    } else if cp == 0xf9ff {
        seq![0x523au32]
    } else {
        seq![cp]
    }
}

fn push_decomp_0f9(r: &mut Vec<u32>, cp: u32)
    ensures
        final(r)@ == old(r)@ + decomp_0f9(cp),
{
    if cp == 0xf900 {
        r.push(0x8c48);
    } else if cp == 0xf901 {
        r.push(0x66f4);
    } else if cp == 0xf902 {
        r.push(0x8eca);
    } else if cp == 0xf903 {
        r.push(0x8cc8);
    } else if cp == 0xf904 {
        r.push(0x6ed1);
    } else if cp == 0xf905 {
        r.push(0x4e32);
    } else if cp == 0xf906 {
        r.push(0x53e5);
    } else if cp == 0xf907 {
        r.push(0x9f9c);
    } else if cp == 0xf908 {
        r.push(0x9f9c);
    } else if cp == 0xf909 {
        r.push(0x5951);
    } else if cp == 0xf90a {
        r.push(0x91d1);
    } else if cp == 0xf90b {
        r.push(0x5587);
    } else if cp == 0xf90c {
        r.push(0x5948);
    } else if cp == 0xf90d {
        r.push(0x61f6);
    } else if cp == 0xf90e {
        r.push(0x7669);
    } else if cp == 0xf90f {
        r.push(0x7f85);
    } else if cp == 0xf910 {
        r.push(0x863f);
    } else if cp == 0xf911 {
        r.push(0x87ba);
    } else if cp == 0xf912 {
        r.push(0x88f8);
    } else if cp == 0xf913 {
        r.push(0x908f);
    } else if cp == 0xf914 {
        r.push(0x6a02);
    } else if cp == 0xf915 {
        r.push(0x6d1b);
    } else if cp == 0xf916 {
        r.push(0x70d9);
    } else if cp == 0xf917 {
        r.push(0x73de);
    } else if cp == 0xf918 {
        r.push(0x843d);
    } else if cp == 0xf919 {
        r.push(0x916a);
    } else if cp == 0xf91a {
        r.push(0x99f1);
    } else if cp == 0xf91b {
        r.push(0x4e82);
    } else if cp == 0xf91c {
        r.push(0x5375);
    } else if cp == 0xf91d {
        r.push(0x6b04);
    } else if cp == 0xf91e {
        r.push(0x721b);
    } else if cp == 0xf91f {
        r.push(0x862d);
    } else if cp == 0xf920 {
        r.push(0x9e1e);
    } else if cp == 0xf921 {
        r.push(0x5d50);
    } else if cp == 0xf922 {
        r.push(0x6feb);
    } else if cp == 0xf923 {
        r.push(0x85cd);
    } else if cp == 0xf924 {
        r.push(0x8964);
    } else if cp == 0xf925 {
        r.push(0x62c9);
    } else if cp == 0xf926 {
        r.push(0x81d8);
    } else if cp == 0xf927 {
        r.push(0x881f);
    } else if cp == 0xf928 {
        r.push(0x5eca);
    } else if cp == 0xf929 {
        r.push(0x6717);
    } else if cp == 0xf92a {
        r.push(0x6d6a);
    } else if cp == 0xf92b {
        r.push(0x72fc);
    } else if cp == 0xf92c {
        r.push(0x90ce);
    } else if cp == 0xf92d {
        r.push(0x4f86);
    } else if cp == 0xf92e {
        r.push(0x51b7);
    } else if cp == 0xf92f {
        r.push(0x52de);
    } else if cp == 0xf930 {
        r.push(0x64c4);
    } else if cp == 0xf931 {
        r.push(0x6ad3);
    } else if cp == 0xf932 {
        r.push(0x7210);
    } else if cp == 0xf933 {
        r.push(0x76e7);
    } else if cp == 0xf934 {
        r.push(0x8001);
    } else if cp == 0xf935 {
        r.push(0x8606);
    } else if cp == 0xf936 {
        r.push(0x865c);
    } else if cp == 0xf937 {
        r.push(0x8def);
    } else if cp == 0xf938 {
        r.push(0x9732);
    } else if cp == 0xf939 {
        r.push(0x9b6f);
    } else if cp == 0xf93a {
        r.push(0x9dfa);
    } else if cp == 0xf93b {
        r.push(0x788c);
    } else if cp == 0xf93c {
        r.push(0x797f);
    } else if cp == 0xf93d {
        r.push(0x7da0);
    } else if cp == 0xf93e {
        r.push(0x83c9);
    } else if cp == 0xf93f {
        r.push(0x9304);
    } else if cp == 0xf940 {
        r.push(0x9e7f);
    } else if cp == 0xf941 {
        r.push(0x8ad6);
    } else if cp == 0xf942 {
        r.push(0x58df);
    } else if cp == 0xf943 {
        r.push(0x5f04);
    } else if cp == 0xf944 {
        r.push(0x7c60);
    } else if cp == 0xf945 {
        r.push(0x807e);
    } else if cp == 0xf946 {
        r.push(0x7262);
    } else if cp == 0xf947 {
        r.push(0x78ca);
    } else if cp == 0xf948 {
        r.push(0x8cc2);
    } else if cp == 0xf949 {
        r.push(0x96f7);
    } else if cp == 0xf94a {
        r.push(0x58d8);
    } else if cp == 0xf94b {
        r.push(0x5c62);
    } else if cp == 0xf94c {
        r.push(0x6a13);
    } else if cp == 0xf94d {
        r.push(0x6dda);
    } else if cp == 0xf94e {
        r.push(0x6f0f);
    } else if cp == 0xf94f {
        r.push(0x7d2f);
    } else if cp == 0xf950 {
        r.push(0x7e37);
    } else if cp == 0xf951 {
        r.push(0x964b);
    } else if cp == 0xf952 {
        r.push(0x52d2);
    } else if cp == 0xf953 {
        r.push(0x808b);
    } else if cp == 0xf954 {
        r.push(0x51dc);
    } else if cp == 0xf955 {
        r.push(0x51cc);
    } else if cp == 0xf956 {
        r.push(0x7a1c);
    } else if cp == 0xf957 {
        r.push(0x7dbe);
    } else if cp == 0xf958 {
        r.push(0x83f1);
    } else if cp == 0xf959 {
        r.push(0x9675);
    } else if cp == 0xf95a {
        r.push(0x8b80);
    } else if cp == 0xf95b {
        r.push(0x62cf);
    } else if cp == 0xf95c {
        r.push(0x6a02);
    } else if cp == 0xf95d {
        r.push(0x8afe);
    } else if cp == 0xf95e {
        r.push(0x4e39);
    } else if cp == 0xf95f {
        r.push(0x5be7);
    } else if cp == 0xf960 {
        r.push(0x6012);
    } else if cp == 0xf961 {
        r.push(0x7387);
    } else if cp == 0xf962 {
        r.push(0x7570);
    } else if cp == 0xf963 {
        r.push(0x5317);
    } else if cp == 0xf964 {
        r.push(0x78fb);
    } else if cp == 0xf965 {
        r.push(0x4fbf);
    } else if cp == 0xf966 {
        r.push(0x5fa9);
    } else if cp == 0xf967 {
        r.push(0x4e0d);
    } else if cp == 0xf968 {
        r.push(0x6ccc);
    } else if cp == 0xf969 {
        r.push(0x6578);
    } else if cp == 0xf96a {
        r.push(0x7d22);
    } else if cp == 0xf96b {
        r.push(0x53c3);
    } else if cp == 0xf96c {
        r.push(0x585e);
    } else if cp == 0xf96d {
        r.push(0x7701);
    } else if cp == 0xf96e {
        r.push(0x8449);
    } else if cp == 0xf96f {
        r.push(0x8aaa);
    } else if cp == 0xf970 {
        r.push(0x6bba);
    } else if cp == 0xf971 {
        r.push(0x8fb0);
    } else if cp == 0xf972 {
        r.push(0x6c88);
    } else if cp == 0xf973 {
        r.push(0x62fe);
    } else if cp == 0xf974 {
        r.push(0x82e5);
    } else if cp == 0xf975 {
        r.push(0x63a0);
    } else if cp == 0xf976 {
        r.push(0x7565);
    } else if cp == 0xf977 {
        r.push(0x4eae);
    } else if cp == 0xf978 {
        r.push(0x5169);
    } else if cp == 0xf979 {
        r.push(0x51c9);
    } else if cp == 0xf97a {
        r.push(0x6881);
    } else if cp == 0xf97b {
        r.push(0x7ce7);
    } else if cp == 0xf97c {
        r.push(0x826f);
    } else if cp == 0xf97d {
        r.push(0x8ad2);
    } else if cp == 0xf97e {
        r.push(0x91cf);
    } else if cp == 0xf97f {
        r.push(0x52f5);
    } else if cp == 0xf980 {
        r.push(0x5442);
    } else if cp == 0xf981 {
        r.push(0x5973);
    } else if cp == 0xf982 {
        r.push(0x5eec);
    } else if cp == 0xf983 {
        r.push(0x65c5);
    } else if cp == 0xf984 {
        r.push(0x6ffe);
    } else if cp == 0xf985 {
        r.push(0x792a);
    } else if cp == 0xf986 {
        r.push(0x95ad);
    } else if cp == 0xf987 {
        r.push(0x9a6a);
    } else if cp == 0xf988 {
        r.push(0x9e97);
    } else if cp == 0xf989 {
        r.push(0x9ece);
    } else if cp == 0xf98a {
        r.push(0x529b);
    } else if cp == 0xf98b {
        r.push(0x66c6);
    } else if cp == 0xf98c {
        r.push(0x6b77);
    } else if cp == 0xf98d {
        r.push(0x8f62);
    } else if cp == 0xf98e {
        r.push(0x5e74);
    } else if cp == 0xf98f {
        r.push(0x6190);
    } else if cp == 0xf990 {
        r.push(0x6200);
    } else if cp == 0xf991 {
        r.push(0x649a);
    } else if cp == 0xf992 {
        r.push(0x6f23);
    } else if cp == 0xf993 {
        r.push(0x7149);
    } else if cp == 0xf994 {
        r.push(0x7489);
    } else if cp == 0xf995 {
        r.push(0x79ca);
    } else if cp == 0xf996 {
        r.push(0x7df4);
    } else if cp == 0xf997 {
        r.push(0x806f);
    } else if cp == 0xf998 {
        r.push(0x8f26);
    } else if cp == 0xf999 {
        r.push(0x84ee);
    } else if cp == 0xf99a {
        r.push(0x9023);
    } else if cp == 0xf99b {
        r.push(0x934a);
    } else if cp == 0xf99c {
        r.push(0x5217);
    } else if cp == 0xf99d {
        r.push(0x52a3);
    } else if cp == 0xf99e {
        r.push(0x54bd);
    } else if cp == 0xf99f {
        r.push(0x70c8);
    } else if cp == 0xf9a0 {
        r.push(0x88c2);
    } else if cp == 0xf9a1 {
        r.push(0x8aaa);
    } else if cp == 0xf9a2 {
        r.push(0x5ec9);
    } else if cp == 0xf9a3 {
        r.push(0x5ff5);
    } else if cp == 0xf9a4 {
        r.push(0x637b);
    } else if cp == 0xf9a5 {
        r.push(0x6bae);
    } else if cp == 0xf9a6 {
        r.push(0x7c3e);
    } else if cp == 0xf9a7 {
        r.push(0x7375);
    } else if cp == 0xf9a8 {
        r.push(0x4ee4);
    } else if cp == 0xf9a9 {
        r.push(0x56f9);
    } else if cp == 0xf9aa {
        r.push(0x5be7);
    } else if cp == 0xf9ab {
        r.push(0x5dba);
    } else if cp == 0xf9ac {
        r.push(0x601c);
    } else if cp == 0xf9ad {
        r.push(0x73b2);
    } else if cp == 0xf9ae {
        r.push(0x7469);
    } else if cp == 0xf9af {
        r.push(0x7f9a);
    } else if cp == 0xf9b0 {
        r.push(0x8046);
    } else if cp == 0xf9b1 {
        r.push(0x9234);
    } else if cp == 0xf9b2 {
        r.push(0x96f6);
    } else if cp == 0xf9b3 {
        r.push(0x9748);
    } else if cp == 0xf9b4 {
        r.push(0x9818);
    } else if cp == 0xf9b5 {
        r.push(0x4f8b);
    } else if cp == 0xf9b6 {
        r.push(0x79ae);
    } else if cp == 0xf9b7 {
        r.push(0x91b4);
    } else if cp == 0xf9b8 {
        r.push(0x96b8);
    } else if cp == 0xf9b9 {
        r.push(0x60e1);
    } else if cp == 0xf9ba {
        r.push(0x4e86);
    } else if cp == 0xf9bb {
        r.push(0x50da);
    } else if cp == 0xf9bc {
        r.push(0x5bee);
    } else if cp == 0xf9bd {
        r.push(0x5c3f);
    } else if cp == 0xf9be {
        r.push(0x6599);
    } else if cp == 0xf9bf {
        r.push(0x6a02);
    } else if cp == 0xf9c0 {
        r.push(0x71ce);
    } else if cp == 0xf9c1 {
        r.push(0x7642);
    } else if cp == 0xf9c2 {
        r.push(0x84fc);
    } else if cp == 0xf9c3 {
        r.push(0x907c);
    } else if cp == 0xf9c4 {
        r.push(0x9f8d);
    } else if cp == 0xf9c5 {
        r.push(0x6688);
    } else if cp == 0xf9c6 {
        r.push(0x962e);
    } else if cp == 0xf9c7 {
        r.push(0x5289);
    } else if cp == 0xf9c8 {
        r.push(0x677b);
    } else if cp == 0xf9c9 {
        r.push(0x67f3);
    } else if cp == 0xf9ca {
        r.push(0x6d41);
    } else if cp == 0xf9cb {
        r.push(0x6e9c);
    } else if cp == 0xf9cc {
        r.push(0x7409);
    } else if cp == 0xf9cd {
        r.push(0x7559);
    } else if cp == 0xf9ce {
        r.push(0x786b);
    } else if cp == 0xf9cf {
        r.push(0x7d10);
    } else if cp == 0xf9d0 {
        r.push(0x985e);
    } else if cp == 0xf9d1 {
        r.push(0x516d);
    } else if cp == 0xf9d2 {
        r.push(0x622e);
    } else if cp == 0xf9d3 {
        r.push(0x9678);
    } else if cp == 0xf9d4 {
        r.push(0x502b);
    } else if cp == 0xf9d5 {
        r.push(0x5d19);
    } else if cp == 0xf9d6 {
        r.push(0x6dea);
    } else if cp == 0xf9d7 {
        r.push(0x8f2a);
    } else if cp == 0xf9d8 {
        r.push(0x5f8b);
    } else if cp == 0xf9d9 {
        r.push(0x6144);
    } else if cp == 0xf9da {
        r.push(0x6817);
    } else if cp == 0xf9db {
        r.push(0x7387);
    } else if cp == 0xf9dc {
        r.push(0x9686);
    } else if cp == 0xf9dd {
        r.push(0x5229);
    } else if cp == 0xf9de {
        r.push(0x540f);
    } else if cp == 0xf9df {
        r.push(0x5c65);
    } else if cp == 0xf9e0 {
        r.push(0x6613);
    } else if cp == 0xf9e1 {
        r.push(0x674e);
    } else if cp == 0xf9e2 {
        r.push(0x68a8);
    } else if cp == 0xf9e3 {
        r.push(0x6ce5);
    } else if cp == 0xf9e4 {
        r.push(0x7406);
    } else if cp == 0xf9e5 {
        r.push(0x75e2);
    } else if cp == 0xf9e6 {
        r.push(0x7f79);
    } else if cp == 0xf9e7 {
        r.push(0x88cf);
    } else if cp == 0xf9e8 {
        r.push(0x88e1);
    } else if cp == 0xf9e9 {
        r.push(0x91cc);
    } else if cp == 0xf9ea {
        r.push(0x96e2);
    } else if cp == 0xf9eb {
        r.push(0x533f);
    } else if cp == 0xf9ec {
        r.push(0x6eba);
    } else if cp == 0xf9ed {
        r.push(0x541d);
    } else if cp == 0xf9ee {
        r.push(0x71d0);
    } else if cp == 0xf9ef {
        r.push(0x7498);
    } else if cp == 0xf9f0 {
        r.push(0x85fa);
    } else if cp == 0xf9f1 {
        r.push(0x96a3);
    } else if cp == 0xf9f2 {
        r.push(0x9c57);
    } else if cp == 0xf9f3 {
        r.push(0x9e9f);
    } else if cp == 0xf9f4 {
        r.push(0x6797);
    } else if cp == 0xf9f5 {
        r.push(0x6dcb);
    } else if cp == 0xf9f6 {
        r.push(0x81e8);
    } else if cp == 0xf9f7 {
        r.push(0x7acb);
    } else if cp == 0xf9f8 {
        r.push(0x7b20);
    } else if cp == 0xf9f9 {
        r.push(0x7c92);
    } else if cp == 0xf9fa {
        r.push(0x72c0);
    } else if cp == 0xf9fb {
        r.push(0x7099);
    } else if cp == 0xf9fc {
        r.push(0x8b58);
    } else if cp == 0xf9fd {
        r.push(0x4ec0);
    } else if cp == 0xf9fe {
        r.push(0x8336);
    } else if cp == 0xf9ff {
        r.push(0x523a);
    } else {
        r.push(cp);
    }
}

pub open spec fn decomp_0fa(cp: u32) -> Seq<u32> {
    if cp == 0xfa00 {
        seq![0x5207u32]
    } else if cp == 0xfa01 {
        seq![0x5ea6u32]
    } else if cp == 0xfa02 {
        seq![0x62d3u32]
    } else if cp == 0xfa03 {
        seq![0x7cd6u32]
    } else if cp == 0xfa04 {
        seq![0x5b85u32]
    } else if cp == 0xfa05 {
        seq![0x6d1eu32]
    } else if cp == 0xfa06 {
        seq![0x66b4u32]
    } else if cp == 0xfa07 {
        seq![0x8f3bu32]
    } else if cp == 0xfa08 {
        seq![0x884cu32]
    } else if cp == 0xfa09 {
        seq![0x964du32]
    } else if cp == 0xfa0a {
        seq![0x898bu32]
    } else if cp == 0xfa0b {
        seq![0x5ed3u32]
    } else if cp == 0xfa0c {
        seq![0x5140u32]
    } else if cp == 0xfa0d {
        seq![0x55c0u32]
    } else if cp == 0xfa10 {
        seq![0x585au32]
    } else if cp == 0xfa12 {
        seq![0x6674u32]
    } else if cp == 0xfa15 {
        seq![0x51deu32]
    } else if cp == 0xfa16 {
        seq![0x732au32]
    } else if cp == 0xfa17 {
        seq![0x76cau32]
    } else if cp == 0xfa18 {
        seq![0x793cu32]
    } else if cp == 0xfa19 {
        seq![0x795eu32]
    } else if cp == 0xfa1a {
        seq![0x7965u32]
    } else if cp == 0xfa1b {
        seq![0x798fu32]
    } else if cp == 0xfa1c {
        seq![0x9756u32]
    } else if cp == 0xfa1d {
        seq![0x7cbeu32]
    } else if cp == 0xfa1e {
        seq![0x7fbdu32]
    } else if cp == 0xfa20 {
        seq![0x8612u32]
    } else if cp == 0xfa22 {
        seq![0x8af8u32]
    } else if cp == 0xfa25 {
        seq![0x9038u32]
    } else if cp == 0xfa26 {
        seq![0x90fdu32]
    } else if cp == 0xfa2a {
        seq![0x98efu32]
    } else if cp == 0xfa2b {
        seq![0x98fcu32]
    } else if cp == 0xfa2c {
        seq![0x9928u32]
    } else if cp == 0xfa2d {
        seq![0x9db4u32]
    } else if cp == 0xfa2e {
        seq![0x90deu32]
    } else if cp == 0xfa2f {
        seq![0x96b7u32]
    } else if cp == 0xfa30 {
        seq![0x4faeu32]
    } else if cp == 0xfa31 {
        seq![0x50e7u32]
    } else if cp == 0xfa32 {
        seq![0x514du32]
    } else if cp == 0xfa33 {
        seq![0x52c9u32]
    } else if cp == 0xfa34 {
        seq![0x52e4u32]
    } else if cp == 0xfa35 {
        seq![0x5351u32]
    } else if cp == 0xfa36 {
        seq![0x559du32]
    } else if cp == 0xfa37 {
        seq![0x5606u32]
    } else if cp == 0xfa38 {
        seq![0x5668u32]
    } else if cp == 0xfa39 {
        seq![0x5840u32]
    } else if cp == 0xfa3a {
        seq![0x58a8u32]
    } else if cp == 0xfa3b {
        seq![0x5c64u32]
    } else if cp == 0xfa3c {
        seq![0x5c6eu32]
    } else if cp == 0xfa3d {
        seq![0x6094u32]
    } else if cp == 0xfa3e {
        seq![0x6168u32]
    } else if cp == 0xfa3f {
        seq![0x618eu32]
    } else if cp == 0xfa40 {
        seq![0x61f2u32]
    } else if cp == 0xfa41 {
        seq![0x654fu32]
    } else if cp == 0xfa42 {
        seq![0x65e2u32]
    } else if cp == 0xfa43 {
        seq![0x6691u32]
    } else if cp == 0xfa44 {
        seq![0x6885u32]
    } else if cp == 0xfa45 {
        seq![0x6d77u32]
    } else if cp == 0xfa46 {
        seq![0x6e1au32]
    } else if cp == 0xfa47 {
        seq![0x6f22u32]
    } else if cp == 0xfa48 {
        seq![0x716eu32]
    } else if cp == 0xfa49 {
        seq![0x722bu32]
    } else if cp == 0xfa4a {
        seq![0x7422u32]
    } else if cp == 0xfa4b {
        seq![0x7891u32]
    } else if cp == 0xfa4c {
        seq![0x793eu32]
    } else if cp == 0xfa4d {
        seq![0x7949u32]
    } else if cp == 0xfa4e {
        seq![0x7948u32]
    } else if cp == 0xfa4f {
        seq![0x7950u32]
    } else if cp == 0xfa50 {
        seq![0x7956u32]
    } else if cp == 0xfa51 {
        seq![0x795du32]
    } else if cp == 0xfa52 {
        seq![0x798du32]
    } else if cp == 0xfa53 {
        seq![0x798eu32]
    } else if cp == 0xfa54 {
        seq![0x7a40u32]
    } else if cp == 0xfa55 {
        seq![0x7a81u32]
    } else if cp == 0xfa56 {
        seq![0x7bc0u32]
    } else if cp == 0xfa57 {
        seq![0x7df4u32]
    } else if cp == 0xfa58 {
        seq![0x7e09u32]
    } else if cp == 0xfa59 {
        seq![0x7e41u32]
    } else if cp == 0xfa5a {
        seq![0x7f72u32]
    } else if cp == 0xfa5b {
        seq![0x8005u32]
    } else if cp == 0xfa5c {
        seq![0x81edu32]
    } else if cp == 0xfa5d {
        seq![0x8279u32]
    } else if cp == 0xfa5e {
        seq![0x8279u32]
    } else if cp == 0xfa5f {
        seq![0x8457u32]
    } else if cp == 0xfa60 {
        seq![0x8910u32]
    } else if cp == 0xfa61 {
        seq![0x8996u32]
    } else if cp == 0xfa62 {
        seq![0x8b01u32]
    } else if cp == 0xfa63 {
        seq![0x8b39u32]
    } else if cp == 0xfa64 {
        seq![0x8cd3u32]
    } else if cp == 0xfa65 {
        seq![0x8d08u32]
    } else if cp == 0xfa66 {
        seq![0x8fb6u32]
    } else if cp == 0xfa67 {
        seq![0x9038u32]
    } else if cp == 0xfa68 {
        seq![0x96e3u32]
    } else if cp == 0xfa69 {
        seq![0x97ffu32]
    } else if cp == 0xfa6a {
        seq![0x983bu32]
    } else if cp == 0xfa6b {
        seq![0x6075u32]
    } else if cp == 0xfa6c {
        seq![0x242eeu32]
    } else if cp == 0xfa6d {
        seq![0x8218u32]
    } else if cp == 0xfa70 {
        seq![0x4e26u32]
    } else if cp == 0xfa71 {
        seq![0x51b5u32]
    } else if cp == 0xfa72 {
        seq![0x5168u32]
    } else if cp == 0xfa73 {
        seq![0x4f80u32]
    } else if cp == 0xfa74 {
        seq![0x5145u32]
    } else if cp == 0xfa75 {
        seq![0x5180u32]
    } else if cp == 0xfa76 {
        seq![0x52c7u32]
    } else if cp == 0xfa77 {
        seq![0x52fau32]
    } else if cp == 0xfa78 {
        seq![0x559du32]
    } else if cp == 0xfa79 {
        seq![0x5555u32]
    } else if cp == 0xfa7a {
        seq![0x5599u32]
    } else if cp == 0xfa7b {
        seq![0x55e2u32]
    } else if cp == 0xfa7c {
        seq![0x585au32]
    } else if cp == 0xfa7d {
        seq![0x58b3u32]
    } else if cp == 0xfa7e {
        seq![0x5944u32]
    } else if cp == 0xfa7f {
        seq![0x5954u32]
    } else if cp == 0xfa80 {
        seq![0x5a62u32]
    } else if cp == 0xfa81 {
        seq![0x5b28u32]
    } else if cp == 0xfa82 {
        seq![0x5ed2u32]
    } else if cp == 0xfa83 {
        seq![0x5ed9u32]
    } else if cp == 0xfa84 {
        seq![0x5f69u32]
    } else if cp == 0xfa85 {
        seq![0x5fadu32]
    } else if cp == 0xfa86 {
        seq![0x60d8u32]
    } else if cp == 0xfa87 {
        seq![0x614eu32]
    } else if cp == 0xfa88 {
        seq![0x6108u32]
    } else if cp == 0xfa89 {
        seq![0x618eu32]
    } else if cp == 0xfa8a {
        seq![0x6160u32]
    } else if cp == 0xfa8b {
        seq![0x61f2u32]
    } else if cp == 0xfa8c {
        seq![0x6234u32]
    } else if cp == 0xfa8d {
        seq![0x63c4u32]
    } else if cp == 0xfa8e {
        seq![0x641cu32]
    } else if cp == 0xfa8f {
        seq![0x6452u32]
    } else if cp == 0xfa90 {
        seq![0x6556u32]
    } else if cp == 0xfa91 {
        seq![0x6674u32]
    } else if cp == 0xfa92 {
        seq![0x6717u32]
    } else if cp == 0xfa93 {
        seq![0x671bu32]
    } else if cp == 0xfa94 {
        seq![0x6756u32]
    } else if cp == 0xfa95 {
        seq![0x6b79u32]
    } else if cp == 0xfa96 {
        seq![0x6bbau32]
    } else if cp == 0xfa97 {
        seq![0x6d41u32]
    } else if cp == 0xfa98 {
        seq![0x6edbu32]
    } else if cp == 0xfa99 {
        seq![0x6ecbu32]
    } else if cp == 0xfa9a {
        seq![0x6f22u32]
    } else if cp == 0xfa9b {
        seq![0x701eu32]
    } else if cp == 0xfa9c {
        seq![0x716eu32]
    } else if cp == 0xfa9d {
        seq![0x77a7u32]
    } else if cp == 0xfa9e {
        seq![0x7235u32]
    } else if cp == 0xfa9f {
        seq![0x72afu32]
    } else if cp == 0xfaa0 {
        seq![0x732au32]
    } else if cp == 0xfaa1 {
        seq![0x7471u32]
    } else if cp == 0xfaa2 {
        seq![0x7506u32]
    } else if cp == 0xfaa3 {
        seq![0x753bu32]
    } else if cp == 0xfaa4 {
        seq![0x761du32]
    } else if cp == 0xfaa5 {
        seq![0x761fu32]
    } else if cp == 0xfaa6 {
        seq![0x76cau32]
    } else if cp == 0xfaa7 {
        seq![0x76dbu32]
    } else if cp == 0xfaa8 {
        seq![0x76f4u32]
    } else if cp == 0xfaa9 {
        seq![0x774au32]
    } else if cp == 0xfaaa {
        seq![0x7740u32]
    } else if cp == 0xfaab {
        seq![0x78ccu32]
    } else if cp == 0xfaac {
        seq![0x7ab1u32]
    } else if cp == 0xfaad {
        seq![0x7bc0u32]
    } else if cp == 0xfaae {
        seq![0x7c7bu32]
    } else if cp == 0xfaaf {
        seq![0x7d5bu32]
    } else if cp == 0xfab0 {
        seq![0x7df4u32]
    } else if cp == 0xfab1 {
        seq![0x7f3eu32]
    } else if cp == 0xfab2 {
        seq![0x8005u32]
    } else if cp == 0xfab3 {
        seq![0x8352u32]
    } else if cp == 0xfab4 {
        seq![0x83efu32]
    } else if cp == 0xfab5 {
        seq![0x8779u32]
    } else if cp == 0xfab6 {
        seq![0x8941u32]
    } else if cp == 0xfab7 {
        seq![0x8986u32]
    } else if cp == 0xfab8 {
        seq![0x8996u32]
    } else if cp == 0xfab9 {
        seq![0x8abfu32]
    } else if cp == 0xfaba {
        seq![0x8af8u32]
    } else if cp == 0xfabb {
        seq![0x8acbu32]
    } else if cp == 0xfabc {
        seq![0x8b01u32]
    } else if cp == 0xfabd {
        seq![0x8afeu32]
    } else if cp == 0xfabe {
        seq![0x8aedu32]
    } else if cp == 0xfabf {
        seq![0x8b39u32]
    } else if cp == 0xfac0 {
        seq![0x8b8au32]
    } else if cp == 0xfac1 {
        seq![0x8d08u32]
    } else if cp == 0xfac2 {
        seq![0x8f38u32]
    } else if cp == 0xfac3 {
        seq![0x9072u32]
    } else if cp == 0xfac4 {
        seq![0x9199u32]
    } else if cp == 0xfac5 {
        seq![0x9276u32]
    } else if cp == 0xfac6 {
        seq![0x967cu32]
    } else if cp == 0xfac7 {
        seq![0x96e3u32]
    } else if cp == 0xfac8 {
        seq![0x9756u32]
    } else if cp == 0xfac9 {
        seq![0x97dbu32]
    } else if cp == 0xfaca {
        seq![0x97ffu32]
    } else if cp == 0xfacb {
        seq![0x980bu32]
    } else if cp == 0xfacc {
        seq![0x983bu32]
    } else if cp == 0xfacd {
        seq![0x9b12u32]
    } else if cp == 0xface {
        seq![0x9f9cu32]
    } else if cp == 0xfacf {
        seq![0x2284au32]
    } else if cp == 0xfad0 {
        seq![0x22844u32]
    } else if cp == 0xfad1 {
        seq![0x233d5u32]
    } else if cp == 0xfad2 {
        seq![0x3b9du32]
    } else if cp == 0xfad3 {
        seq![0x4018u32]
    } else if cp == 0xfad4 {
        seq![0x4039u32]
    } else if cp == 0xfad5 {
        seq![0x25249u32]
    } else if cp == 0xfad6 {
        seq![0x25cd0u32]
    } else if cp == 0xfad7 {
        seq![0x27ed3u32]
    } else if cp == 0xfad8 {
        seq![0x9f43u32]
    } else if cp == 0xfad9 {
        seq![0x9f8eu32]
    } else {
        seq![cp]
    }
}

fn push_decomp_0fa(r: &mut Vec<u32>, cp: u32)
    ensures
        final(r)@ == old(r)@ + decomp_0fa(cp),
{
    if cp == 0xfa00 {
        r.push(0x5207);
    } else if cp == 0xfa01 {
        r.push(0x5ea6);
    } else if cp == 0xfa02 {
        r.push(0x62d3);
    } else if cp == 0xfa03 {
        r.push(0x7cd6);
    } else if cp == 0xfa04 {
        r.push(0x5b85);
    } else if cp == 0xfa05 {
        r.push(0x6d1e);
    } else if cp == 0xfa06 {
        r.push(0x66b4);
    } else if cp == 0xfa07 {
        r.push(0x8f3b);
    } else if cp == 0xfa08 {
        r.push(0x884c);
    } else if cp == 0xfa09 {
        r.push(0x964d);
    } else if cp == 0xfa0a {
        r.push(0x898b);
    } else if cp == 0xfa0b {
        r.push(0x5ed3);
    } else if cp == 0xfa0c {
        r.push(0x5140);
    } else if cp == 0xfa0d {
        r.push(0x55c0);
    } else if cp == 0xfa10 {
        r.push(0x585a);
    } else if cp == 0xfa12 {
        r.push(0x6674);
    } else if cp == 0xfa15 {
        r.push(0x51de);
    } else if cp == 0xfa16 {
        r.push(0x732a);
    } else if cp == 0xfa17 {
        r.push(0x76ca);
    } else if cp == 0xfa18 {
        r.push(0x793c);
    } else if cp == 0xfa19 {
        r.push(0x795e);
    } else if cp == 0xfa1a {
        r.push(0x7965);
    } else if cp == 0xfa1b {
        r.push(0x798f);
    } else if cp == 0xfa1c {
        r.push(0x9756);
    } else if cp == 0xfa1d {
        r.push(0x7cbe);
    } else if cp == 0xfa1e {
        r.push(0x7fbd);
    } else if cp == 0xfa20 {
        r.push(0x8612);
    } else if cp == 0xfa22 {
        r.push(0x8af8);
    } else if cp == 0xfa25 {
        r.push(0x9038);
    } else if cp == 0xfa26 {
        r.push(0x90fd);
    } else if cp == 0xfa2a {
        r.push(0x98ef);
    } else if cp == 0xfa2b {
        r.push(0x98fc);
    } else if cp == 0xfa2c {
        r.push(0x9928);
    } else if cp == 0xfa2d {
        r.push(0x9db4);
    } else if cp == 0xfa2e {
        r.push(0x90de);
    } else if cp == 0xfa2f {
        r.push(0x96b7);
    } else if cp == 0xfa30 {
        r.push(0x4fae);
    } else if cp == 0xfa31 {
        r.push(0x50e7);
    } else if cp == 0xfa32 {
        r.push(0x514d);
    } else if cp == 0xfa33 {
        r.push(0x52c9);
    } else if cp == 0xfa34 {
        r.push(0x52e4);
    } else if cp == 0xfa35 {
        r.push(0x5351);
    } else if cp == 0xfa36 {
        r.push(0x559d);
    } else if cp == 0xfa37 {
        r.push(0x5606);
    } else if cp == 0xfa38 {
        r.push(0x5668);
    } else if cp == 0xfa39 {
        r.push(0x5840);
    } else if cp == 0xfa3a {
        r.push(0x58a8);
    } else if cp == 0xfa3b {
        r.push(0x5c64);
    } else if cp == 0xfa3c {
        r.push(0x5c6e);
    } else if cp == 0xfa3d {
        r.push(0x6094);
    } else if cp == 0xfa3e {
        r.push(0x6168);
    } else if cp == 0xfa3f {
        r.push(0x618e);
    } else if cp == 0xfa40 {
        r.push(0x61f2);
    } else if cp == 0xfa41 {
        r.push(0x654f);
    } else if cp == 0xfa42 {
        r.push(0x65e2);
    } else if cp == 0xfa43 {
        r.push(0x6691);
    } else if cp == 0xfa44 {
        r.push(0x6885);
    } else if cp == 0xfa45 {
        r.push(0x6d77);
    } else if cp == 0xfa46 {
        r.push(0x6e1a);
    } else if cp == 0xfa47 {
        r.push(0x6f22);
    } else if cp == 0xfa48 {
        r.push(0x716e);
    } else if cp == 0xfa49 {
        r.push(0x722b);
    } else if cp == 0xfa4a {
        r.push(0x7422);
    } else if cp == 0xfa4b {
        r.push(0x7891);
    } else if cp == 0xfa4c {
        r.push(0x793e);
    } else if cp == 0xfa4d {
        r.push(0x7949);
    } else if cp == 0xfa4e {
        r.push(0x7948);
    } else if cp == 0xfa4f {
        r.push(0x7950);
    } else if cp == 0xfa50 {
        r.push(0x7956);
    } else if cp == 0xfa51 {
        r.push(0x795d);
    } else if cp == 0xfa52 {
        r.push(0x798d);
    } else if cp == 0xfa53 {
        r.push(0x798e);
    } else if cp == 0xfa54 {
        r.push(0x7a40);
    } else if cp == 0xfa55 {
        r.push(0x7a81);
    } else if cp == 0xfa56 {
        r.push(0x7bc0);
    } else if cp == 0xfa57 {
        r.push(0x7df4);
    } else if cp == 0xfa58 {
        r.push(0x7e09);
    } else if cp == 0xfa59 {
        r.push(0x7e41);
    } else if cp == 0xfa5a {
        r.push(0x7f72);
    } else if cp == 0xfa5b {
        r.push(0x8005);
    } else if cp == 0xfa5c {
        r.push(0x81ed);
    } else if cp == 0xfa5d {
        r.push(0x8279);
    } else if cp == 0xfa5e {
        r.push(0x8279);
    } else if cp == 0xfa5f {
        r.push(0x8457);
    } else if cp == 0xfa60 {
        r.push(0x8910);
    } else if cp == 0xfa61 {
        r.push(0x8996);
    } else if cp == 0xfa62 {
        r.push(0x8b01);
    } else if cp == 0xfa63 {
        r.push(0x8b39);
    } else if cp == 0xfa64 {
        r.push(0x8cd3);
    } else if cp == 0xfa65 {
        r.push(0x8d08);
    } else if cp == 0xfa66 {
        r.push(0x8fb6);
    } else if cp == 0xfa67 {
        r.push(0x9038);
    } else if cp == 0xfa68 {
        r.push(0x96e3);
    } else if cp == 0xfa69 {
        r.push(0x97ff);
    } else if cp == 0xfa6a {
        r.push(0x983b);
    } else if cp == 0xfa6b {
        r.push(0x6075);
    } else if cp == 0xfa6c {
        r.push(0x242ee);
    } else if cp == 0xfa6d {
        r.push(0x8218);
    } else if cp == 0xfa70 {
        r.push(0x4e26);
    } else if cp == 0xfa71 {
        r.push(0x51b5);
    } else if cp == 0xfa72 {
        r.push(0x5168);
    } else if cp == 0xfa73 {
        r.push(0x4f80);
    } else if cp == 0xfa74 {
        r.push(0x5145);
    } else if cp == 0xfa75 {
        r.push(0x5180);
    } else if cp == 0xfa76 {
        r.push(0x52c7);
    } else if cp == 0xfa77 {
        r.push(0x52fa);
    } else if cp == 0xfa78 {
        r.push(0x559d);
    } else if cp == 0xfa79 {
        r.push(0x5555);
    } else if cp == 0xfa7a {
        r.push(0x5599);
    } else if cp == 0xfa7b {
        r.push(0x55e2);
    } else if cp == 0xfa7c {
        r.push(0x585a);
    } else if cp == 0xfa7d {
        r.push(0x58b3);
    } else if cp == 0xfa7e {
        r.push(0x5944);
    } else if cp == 0xfa7f {
        r.push(0x5954);
    } else if cp == 0xfa80 {
        r.push(0x5a62);
    } else if cp == 0xfa81 {
        r.push(0x5b28);
    } else if cp == 0xfa82 {
        r.push(0x5ed2);
    } else if cp == 0xfa83 {
        r.push(0x5ed9);
    } else if cp == 0xfa84 {
        r.push(0x5f69);
    } else if cp == 0xfa85 {
        r.push(0x5fad);
    } else if cp == 0xfa86 {
        r.push(0x60d8);
    } else if cp == 0xfa87 {
        r.push(0x614e);
    } else if cp == 0xfa88 {
        r.push(0x6108);
    } else if cp == 0xfa89 {
        r.push(0x618e);
    } else if cp == 0xfa8a {
        r.push(0x6160);
    } else if cp == 0xfa8b {
        r.push(0x61f2);
    } else if cp == 0xfa8c {
        r.push(0x6234);
    } else if cp == 0xfa8d {
        r.push(0x63c4);
    } else if cp == 0xfa8e {
        r.push(0x641c);
    } else if cp == 0xfa8f {
        r.push(0x6452);
    } else if cp == 0xfa90 {
        r.push(0x6556);
    } else if cp == 0xfa91 {
        r.push(0x6674);
    } else if cp == 0xfa92 {
        r.push(0x6717);
    } else if cp == 0xfa93 {
        r.push(0x671b);
    } else if cp == 0xfa94 {
        r.push(0x6756);
    } else if cp == 0xfa95 {
        r.push(0x6b79);
    } else if cp == 0xfa96 {
        r.push(0x6bba);
    } else if cp == 0xfa97 {
        r.push(0x6d41);
    } else if cp == 0xfa98 {
        r.push(0x6edb);
    } else if cp == 0xfa99 {
        r.push(0x6ecb);
    } else if cp == 0xfa9a {
        r.push(0x6f22);
    } else if cp == 0xfa9b {
        r.push(0x701e);
    } else if cp == 0xfa9c {
        r.push(0x716e);
    } else if cp == 0xfa9d {
        r.push(0x77a7);
    } else if cp == 0xfa9e {
        r.push(0x7235);
    } else if cp == 0xfa9f {
        r.push(0x72af);
    } else if cp == 0xfaa0 {
        r.push(0x732a);
    } else if cp == 0xfaa1 {
        r.push(0x7471);
    } else if cp == 0xfaa2 {
        r.push(0x7506);
    } else if cp == 0xfaa3 {
        r.push(0x753b);
    } else if cp == 0xfaa4 {
        r.push(0x761d);
    } else if cp == 0xfaa5 {
        r.push(0x761f);
    } else if cp == 0xfaa6 {
        r.push(0x76ca);
    } else if cp == 0xfaa7 {
        r.push(0x76db);
    } else if cp == 0xfaa8 {
        r.push(0x76f4);
    } else if cp == 0xfaa9 {
        r.push(0x774a);
    } else if cp == 0xfaaa {
        r.push(0x7740);
    } else if cp == 0xfaab {
        r.push(0x78cc);
    } else if cp == 0xfaac {
        r.push(0x7ab1);
    } else if cp == 0xfaad {
        r.push(0x7bc0);
    } else if cp == 0xfaae {
        r.push(0x7c7b);
    } else if cp == 0xfaaf {
        r.push(0x7d5b);
    } else if cp == 0xfab0 {
        r.push(0x7df4);
    } else if cp == 0xfab1 {
        r.push(0x7f3e);
    } else if cp == 0xfab2 {
        r.push(0x8005);
    } else if cp == 0xfab3 {
        r.push(0x8352);
    } else if cp == 0xfab4 {
        r.push(0x83ef);
    } else if cp == 0xfab5 {
        r.push(0x8779);
    } else if cp == 0xfab6 {
        r.push(0x8941);
    } else if cp == 0xfab7 {
        r.push(0x8986);
    } else if cp == 0xfab8 {
        r.push(0x8996);
    } else if cp == 0xfab9 {
        r.push(0x8abf);
    } else if cp == 0xfaba {
        r.push(0x8af8);
    } else if cp == 0xfabb {
        r.push(0x8acb);
    } else if cp == 0xfabc {
        r.push(0x8b01);
    } else if cp == 0xfabd {
        r.push(0x8afe);
    } else if cp == 0xfabe {
        r.push(0x8aed);
    } else if cp == 0xfabf {
        r.push(0x8b39);
    } else if cp == 0xfac0 {
        r.push(0x8b8a);
    } else if cp == 0xfac1 {
        r.push(0x8d08);
    } else if cp == 0xfac2 {
        r.push(0x8f38);
    } else if cp == 0xfac3 {
        r.push(0x9072);
    } else if cp == 0xfac4 {
        r.push(0x9199);
    } else if cp == 0xfac5 {
        r.push(0x9276);
    } else if cp == 0xfac6 {
        r.push(0x967c);
    } else if cp == 0xfac7 {
        r.push(0x96e3);
    } else if cp == 0xfac8 {
        r.push(0x9756);
    } else if cp == 0xfac9 {
        r.push(0x97db);
    } else if cp == 0xfaca {
        r.push(0x97ff);
    } else if cp == 0xfacb {
        r.push(0x980b);
    } else if cp == 0xfacc {
        r.push(0x983b);
    } else if cp == 0xfacd {
        r.push(0x9b12);
    } else if cp == 0xface {
        r.push(0x9f9c);
    } else if cp == 0xfacf {
        r.push(0x2284a);
    } else if cp == 0xfad0 {
        r.push(0x22844);
    } else if cp == 0xfad1 {
        r.push(0x233d5);
    } else if cp == 0xfad2 {
        r.push(0x3b9d);
    } else if cp == 0xfad3 {
        r.push(0x4018);
    } else if cp == 0xfad4 {
        r.push(0x4039);
    } else if cp == 0xfad5 {
        r.push(0x25249);
    } else if cp == 0xfad6 {
        r.push(0x25cd0);
    } else if cp == 0xfad7 {
        r.push(0x27ed3);
    } else if cp == 0xfad8 {
        r.push(0x9f43);
    } else if cp == 0xfad9 {
        r.push(0x9f8e);
    } else {
        r.push(cp);
    }
}

pub open spec fn decomp_0fb(cp: u32) -> Seq<u32> {
    if cp == 0xfb1d {
        seq![0x5d9u32, 0x5b4u32]
    } else if cp == 0xfb1f {
        seq![0x5f2u32, 0x5b7u32]
    } else if cp == 0xfb2a {
        seq![0x5e9u32, 0x5c1u32]
    } else if cp == 0xfb2b {
        seq![0x5e9u32, 0x5c2u32]
    } else if cp == 0xfb2c {
        seq![0x5e9u32, 0x5bcu32, 0x5c1u32]
    } else if cp == 0xfb2d {
        seq![0x5e9u32, 0x5bcu32, 0x5c2u32]
    } else if cp == 0xfb2e {
        seq![0x5d0u32, 0x5b7u32]
    } else if cp == 0xfb2f {
        seq![0x5d0u32, 0x5b8u32]
    } else if cp == 0xfb30 {
        seq![0x5d0u32, 0x5bcu32]
    } else if cp == 0xfb31 {
        seq![0x5d1u32, 0x5bcu32]
    } else if cp == 0xfb32 {
        seq![0x5d2u32, 0x5bcu32]
    } else if cp == 0xfb33 {
        seq![0x5d3u32, 0x5bcu32]
    } else if cp == 0xfb34 {
        seq![0x5d4u32, 0x5bcu32]
    } else if cp == 0xfb35 {
        seq![0x5d5u32, 0x5bcu32]
    } else if cp == 0xfb36 {
        seq![0x5d6u32, 0x5bcu32]
    } else if cp == 0xfb38 {
        seq![0x5d8u32, 0x5bcu32]
    } else if cp == 0xfb39 {
        seq![0x5d9u32, 0x5bcu32]
    } else if cp == 0xfb3a {
        seq![0x5dau32, 0x5bcu32]
    } else if cp == 0xfb3b {
        seq![0x5dbu32, 0x5bcu32]
    } else if cp == 0xfb3c {
        seq![0x5dcu32, 0x5bcu32]
    } else if cp == 0xfb3e {
        seq![0x5deu32, 0x5bcu32]
    } else if cp == 0xfb40 {
        seq![0x5e0u32, 0x5bcu32]
    } else if cp == 0xfb41 {
        seq![0x5e1u32, 0x5bcu32]
    } else if cp == 0xfb43 {
        seq![0x5e3u32, 0x5bcu32]
    } else if cp == 0xfb44 {
        seq![0x5e4u32, 0x5bcu32]
    } else if cp == 0xfb46 {
        seq![0x5e6u32, 0x5bcu32]
    } else if cp == 0xfb47 {
        seq![0x5e7u32, 0x5bcu32]
    } else if cp == 0xfb48 {
        seq![0x5e8u32, 0x5bcu32]
    } else if cp == 0xfb49 {
        seq![0x5e9u32, 0x5bcu32]
    } else if cp == 0xfb4a {
        seq![0x5eau32, 0x5bcu32]
    } else if cp == 0xfb4b {
        seq![0x5d5u32, 0x5b9u32]
    } else if cp == 0xfb4c {
        seq![0x5d1u32, 0x5bfu32]
    } else if cp == 0xfb4d {
        seq![0x5dbu32, 0x5bfu32]
    } else if cp == 0xfb4e {
        seq![0x5e4u32, 0x5bfu32]
    } else {
        seq![cp]
    }
}

fn push_decomp_0fb(r: &mut Vec<u32>, cp: u32)
    ensures
        final(r)@ == old(r)@ + decomp_0fb(cp),
{
    if cp == 0xfb1d {
        r.push(0x5d9);
        r.push(0x5b4);
    } else if cp == 0xfb1f {
        r.push(0x5f2);
        r.push(0x5b7);
    } else if cp == 0xfb2a {
        r.push(0x5e9);
        r.push(0x5c1);
    } else if cp == 0xfb2b {
        r.push(0x5e9);
        r.push(0x5c2);
    } else if cp == 0xfb2c {
        r.push(0x5e9);
        r.push(0x5bc);
        r.push(0x5c1);
    } else if cp == 0xfb2d {
        r.push(0x5e9);
        r.push(0x5bc);
        r.push(0x5c2);
    } else if cp == 0xfb2e {
        r.push(0x5d0);
        r.push(0x5b7);
    } else if cp == 0xfb2f {
        r.push(0x5d0);
        r.push(0x5b8);
    } else if cp == 0xfb30 {
        r.push(0x5d0);
        r.push(0x5bc);
    } else if cp == 0xfb31 {
        r.push(0x5d1);
        r.push(0x5bc);
    } else if cp == 0xfb32 {
        r.push(0x5d2);
        r.push(0x5bc);
    } else if cp == 0xfb33 {
        r.push(0x5d3);
        r.push(0x5bc);
    } else if cp == 0xfb34 {
        r.push(0x5d4);
        r.push(0x5bc);
    } else if cp == 0xfb35 {
        r.push(0x5d5);
        r.push(0x5bc);
    } else if cp == 0xfb36 {
        r.push(0x5d6);
        r.push(0x5bc);
    } else if cp == 0xfb38 {
        r.push(0x5d8);
        r.push(0x5bc);
    } else if cp == 0xfb39 {
        r.push(0x5d9);
        r.push(0x5bc);
    } else if cp == 0xfb3a {
        r.push(0x5da);
        r.push(0x5bc);
    } else if cp == 0xfb3b {
        r.push(0x5db);
        r.push(0x5bc);
    } else if cp == 0xfb3c {
        r.push(0x5dc);
        r.push(0x5bc);
    } else if cp == 0xfb3e {
        r.push(0x5de);
        r.push(0x5bc);
    } else if cp == 0xfb40 {
        r.push(0x5e0);
        r.push(0x5bc);
    } else if cp == 0xfb41 {
        r.push(0x5e1);
        r.push(0x5bc);
    } else if cp == 0xfb43 {
        r.push(0x5e3);
        r.push(0x5bc);
    } else if cp == 0xfb44 {
        r.push(0x5e4);
        r.push(0x5bc);
    } else if cp == 0xfb46 {
        r.push(0x5e6);
        r.push(0x5bc);
    } else if cp == 0xfb47 {
        r.push(0x5e7);
        r.push(0x5bc);
    } else if cp == 0xfb48 {
        r.push(0x5e8);
        r.push(0x5bc);
    } else if cp == 0xfb49 {
        r.push(0x5e9);
        r.push(0x5bc);
    } else if cp == 0xfb4a {
        r.push(0x5ea);
        r.push(0x5bc);
    } else if cp == 0xfb4b {
        r.push(0x5d5);
        r.push(0x5b9);
    } else if cp == 0xfb4c {
        r.push(0x5d1);
        r.push(0x5bf);
    } else if cp == 0xfb4d {
        r.push(0x5db);
        r.push(0x5bf);
    } else if cp == 0xfb4e {
        r.push(0x5e4);
        r.push(0x5bf);
    } else {
        r.push(cp);
    }
}

pub open spec fn decomp_110(cp: u32) -> Seq<u32> {
    if cp == 0x1109a {
        seq![0x11099u32, 0x110bau32]
    } else if cp == 0x1109c {
        seq![0x1109bu32, 0x110bau32]
    } else if cp == 0x110ab {
        seq![0x110a5u32, 0x110bau32]
    } else {
        seq![cp]
    }
}

fn push_decomp_110(r: &mut Vec<u32>, cp: u32)
    ensures
        final(r)@ == old(r)@ + decomp_110(cp),
{
    if cp == 0x1109a {
        r.push(0x11099);
        r.push(0x110ba);
    } else if cp == 0x1109c {
        r.push(0x1109b);
        r.push(0x110ba);
    } else if cp == 0x110ab {
        r.push(0x110a5);
        r.push(0x110ba);
    } else {
        r.push(cp);
    }
}

pub open spec fn decomp_111(cp: u32) -> Seq<u32> {
    if cp == 0x1112e {
        seq![0x11131u32, 0x11127u32]
    } else if cp == 0x1112f {
        seq![0x11132u32, 0x11127u32]
    } else {
        seq![cp]
    }
}

fn push_decomp_111(r: &mut Vec<u32>, cp: u32)
    ensures
        final(r)@ == old(r)@ + decomp_111(cp),
{
    if cp == 0x1112e {
        r.push(0x11131);
        r.push(0x11127);
    } else if cp == 0x1112f {
        r.push(0x11132);
        r.push(0x11127);
    } else {
        r.push(cp);
    }
}

pub open spec fn decomp_113(cp: u32) -> Seq<u32> {
    if cp == 0x1134b {
        seq![0x11347u32, 0x1133eu32]
    } else if cp == 0x1134c {
        seq![0x11347u32, 0x11357u32]
    } else {
        seq![cp]
    }
}

fn push_decomp_113(r: &mut Vec<u32>, cp: u32)
    ensures
        final(r)@ == old(r)@ + decomp_113(cp),
{
    if cp == 0x1134b {
        r.push(0x11347);
        r.push(0x1133e);
    } else if cp == 0x1134c {
        r.push(0x11347);
        r.push(0x11357);
    } else {
        r.push(cp);
    }
}

pub open spec fn decomp_114(cp: u32) -> Seq<u32> {
    if cp == 0x114bb {
        seq![0x114b9u32, 0x114bau32]
    } else if cp == 0x114bc {
        seq![0x114b9u32, 0x114b0u32]
    } else if cp == 0x114be {
        seq![0x114b9u32, 0x114bdu32]
    } else {
        seq![cp]
    }
}

fn push_decomp_114(r: &mut Vec<u32>, cp: u32)
    ensures
        final(r)@ == old(r)@ + decomp_114(cp),
{
    if cp == 0x114bb {
        r.push(0x114b9);
        r.push(0x114ba);
    } else if cp == 0x114bc {
        r.push(0x114b9);
        r.push(0x114b0);
    } else if cp == 0x114be {
        r.push(0x114b9);
        r.push(0x114bd);
    } else {
        r.push(cp);
    }
}

pub open spec fn decomp_115(cp: u32) -> Seq<u32> {
    if cp == 0x115ba {
        seq![0x115b8u32, 0x115afu32]
    } else if cp == 0x115bb {
        seq![0x115b9u32, 0x115afu32]
    } else {
        seq![cp]
    }
}

fn push_decomp_115(r: &mut Vec<u32>, cp: u32)
    ensures
        final(r)@ == old(r)@ + decomp_115(cp),
{
    if cp == 0x115ba {
        r.push(0x115b8);
        r.push(0x115af);
    } else if cp == 0x115bb {
        r.push(0x115b9);
        r.push(0x115af);
    } else {
        r.push(cp);
    }
}

pub open spec fn decomp_119(cp: u32) -> Seq<u32> {
    if cp == 0x11938 {
        seq![0x11935u32, 0x11930u32]
    } else {
        seq![cp]
    }
}

fn push_decomp_119(r: &mut Vec<u32>, cp: u32)
    ensures
        final(r)@ == old(r)@ + decomp_119(cp),
{
    if cp == 0x11938 {
        r.push(0x11935);
        r.push(0x11930);
    } else {
        r.push(cp);
    }
}

pub open spec fn decomp_1d1(cp: u32) -> Seq<u32> {
    if cp == 0x1d15e {
        seq![0x1d157u32, 0x1d165u32]
    } else if cp == 0x1d15f {
        seq![0x1d158u32, 0x1d165u32]
    } else if cp == 0x1d160 {
        seq![0x1d158u32, 0x1d165u32, 0x1d16eu32]
    } else if cp == 0x1d161 {
        seq![0x1d158u32, 0x1d165u32, 0x1d16fu32]
    } else if cp == 0x1d162 {
        seq![0x1d158u32, 0x1d165u32, 0x1d170u32]
    } else if cp == 0x1d163 {
        seq![0x1d158u32, 0x1d165u32, 0x1d171u32]
    } else if cp == 0x1d164 {
        seq![0x1d158u32, 0x1d165u32, 0x1d172u32]
    } else if cp == 0x1d1bb {
        seq![0x1d1b9u32, 0x1d165u32]
    } else if cp == 0x1d1bc {
        seq![0x1d1bau32, 0x1d165u32]
    } else if cp == 0x1d1bd {
        seq![0x1d1b9u32, 0x1d165u32, 0x1d16eu32]
    } else if cp == 0x1d1be {
        seq![0x1d1bau32, 0x1d165u32, 0x1d16eu32]
    } else if cp == 0x1d1bf {
        seq![0x1d1b9u32, 0x1d165u32, 0x1d16fu32]
    } else if cp == 0x1d1c0 {
        seq![0x1d1bau32, 0x1d165u32, 0x1d16fu32]
    } else {
        seq![cp]
    }
}

fn push_decomp_1d1(r: &mut Vec<u32>, cp: u32)
    ensures
        final(r)@ == old(r)@ + decomp_1d1(cp),
{
    if cp == 0x1d15e {
        r.push(0x1d157);
        r.push(0x1d165);
    } else if cp == 0x1d15f {
        r.push(0x1d158);
        r.push(0x1d165);
    } else if cp == 0x1d160 {
        r.push(0x1d158);
        r.push(0x1d165);
        r.push(0x1d16e);
    } else if cp == 0x1d161 {
        r.push(0x1d158);
        r.push(0x1d165);
        r.push(0x1d16f);
    } else if cp == 0x1d162 {
        r.push(0x1d158);
        r.push(0x1d165);
        r.push(0x1d170);
    } else if cp == 0x1d163 {
        r.push(0x1d158);
        r.push(0x1d165);
        r.push(0x1d171);
    } else if cp == 0x1d164 {
        r.push(0x1d158);
        r.push(0x1d165);
        r.push(0x1d172);
    } else if cp == 0x1d1bb {
        r.push(0x1d1b9);
        r.push(0x1d165);
    } else if cp == 0x1d1bc {
        r.push(0x1d1ba);
        r.push(0x1d165);
    } else if cp == 0x1d1bd {
        r.push(0x1d1b9);
        r.push(0x1d165);
        r.push(0x1d16e);
    } else if cp == 0x1d1be {
        r.push(0x1d1ba);
        r.push(0x1d165);
        r.push(0x1d16e);
    } else if cp == 0x1d1bf {
        r.push(0x1d1b9);
        r.push(0x1d165);
        r.push(0x1d16f);
    } else if cp == 0x1d1c0 {
        r.push(0x1d1ba);
        r.push(0x1d165);
        r.push(0x1d16f);
    } else {
        r.push(cp);
    }
}

pub open spec fn decomp_2f8(cp: u32) -> Seq<u32> {
    if cp == 0x2f800 {
        seq![0x4e3du32]
    } else if cp == 0x2f801 {
        seq![0x4e38u32]
    } else if cp == 0x2f802 {
        seq![0x4e41u32]
    } else if cp == 0x2f803 {
        seq![0x20122u32]
    } else if cp == 0x2f804 {
        seq![0x4f60u32]
    } else if cp == 0x2f805 {
        seq![0x4faeu32]
    } else if cp == 0x2f806 {
        seq![0x4fbbu32]
    } else if cp == 0x2f807 {
        seq![0x5002u32]
    } else if cp == 0x2f808 {
        seq![0x507au32]
    } else if cp == 0x2f809 {
        seq![0x5099u32]
    } else if cp == 0x2f80a {
        seq![0x50e7u32]
    } else if cp == 0x2f80b {
        seq![0x50cfu32]
    } else if cp == 0x2f80c {
        seq![0x349eu32]
    } else if cp == 0x2f80d {
        seq![0x2063au32]
    } else if cp == 0x2f80e {
        seq![0x514du32]
    } else if cp == 0x2f80f {
        seq![0x5154u32]
    } else if cp == 0x2f810 {
        seq![0x5164u32]
    } else if cp == 0x2f811 {
        seq![0x5177u32]
    } else if cp == 0x2f812 {
        seq![0x2051cu32]
    } else if cp == 0x2f813 {
        seq![0x34b9u32]
    } else if cp == 0x2f814 {
        seq![0x5167u32]
    } else if cp == 0x2f815 {
        seq![0x518du32]
    } else if cp == 0x2f816 {
        seq![0x2054bu32]
    } else if cp == 0x2f817 {
        seq![0x5197u32]
    } else if cp == 0x2f818 {
        seq![0x51a4u32]
    } else if cp == 0x2f819 {
        seq![0x4eccu32]
    } else if cp == 0x2f81a {
        seq![0x51acu32]
    } else if cp == 0x2f81b {
        seq![0x51b5u32]
    } else if cp == 0x2f81c {
        seq![0x291dfu32]
    } else if cp == 0x2f81d {
        seq![0x51f5u32]
    } else if cp == 0x2f81e {
        seq![0x5203u32]
    } else if cp == 0x2f81f {
        seq![0x34dfu32]
    } else if cp == 0x2f820 {
        seq![0x523bu32]
    } else if cp == 0x2f821 {
        seq![0x5246u32]
    } else if cp == 0x2f822 {
        seq![0x5272u32]
    } else if cp == 0x2f823 {
        seq![0x5277u32]
    } else if cp == 0x2f824 {
        seq![0x3515u32]
    } else if cp == 0x2f825 {
        seq![0x52c7u32]
    } else if cp == 0x2f826 {
        seq![0x52c9u32]
    } else if cp == 0x2f827 {
        seq![0x52e4u32]
    } else if cp == 0x2f828 {
        seq![0x52fau32]
    } else if cp == 0x2f829 {
        seq![0x5305u32]
    } else if cp == 0x2f82a {
        seq![0x5306u32]
    } else if cp == 0x2f82b {
        seq![0x5317u32]
    } else if cp == 0x2f82c {
        seq![0x5349u32]
    } else if cp == 0x2f82d {
        seq![0x5351u32]
    } else if cp == 0x2f82e {
        seq![0x535au32]
    } else if cp == 0x2f82f {
        seq![0x5373u32]
    } else if cp == 0x2f830 {
        seq![0x537du32]
    } else if cp == 0x2f831 {
        seq![0x537fu32]
    } else if cp == 0x2f832 {
        seq![0x537fu32]
    } else if cp == 0x2f833 {
        seq![0x537fu32]
    } else if cp == 0x2f834 {
        seq![0x20a2cu32]
    } else if cp == 0x2f835 {
        seq![0x7070u32]
    } else if cp == 0x2f836 {
        seq![0x53cau32]
    } else if cp == 0x2f837 {
        seq![0x53dfu32]
    } else if cp == 0x2f838 {
        seq![0x20b63u32]
    } else if cp == 0x2f839 {
        seq![0x53ebu32]
    } else if cp == 0x2f83a {
        seq![0x53f1u32]
    } else if cp == 0x2f83b {
        seq![0x5406u32]
    } else if cp == 0x2f83c {
        seq![0x549eu32]
    } else if cp == 0x2f83d {
        seq![0x5438u32]
    } else if cp == 0x2f83e {
        seq![0x5448u32]
    } else if cp == 0x2f83f {
        seq![0x5468u32]
    } else if cp == 0x2f840 {
        seq![0x54a2u32]
    } else if cp == 0x2f841 {
        seq![0x54f6u32]
    } else if cp == 0x2f842 {
        seq![0x5510u32]
    } else if cp == 0x2f843 {
        seq![0x5553u32]
    } else if cp == 0x2f844 {
        seq![0x5563u32]
    } else if cp == 0x2f845 {
        seq![0x5584u32]
    } else if cp == 0x2f846 {
        seq![0x5584u32]
    } else if cp == 0x2f847 {
        seq![0x5599u32]
    } else if cp == 0x2f848 {
        seq![0x55abu32]
    } else if cp == 0x2f849 {
        seq![0x55b3u32]
    } else if cp == 0x2f84a {
        seq![0x55c2u32]
    } else if cp == 0x2f84b {
        seq![0x5716u32]
    } else if cp == 0x2f84c {
        seq![0x5606u32]
    } else if cp == 0x2f84d {
        seq![0x5717u32]
    } else if cp == 0x2f84e {
        seq![0x5651u32]
    } else if cp == 0x2f84f {
        seq![0x5674u32]
    } else if cp == 0x2f850 {
        seq![0x5207u32]
    } else if cp == 0x2f851 {
        seq![0x58eeu32]
    } else if cp == 0x2f852 {
        seq![0x57ceu32]
    } else if cp == 0x2f853 {
        seq![0x57f4u32]
    } else if cp == 0x2f854 {
        seq![0x580du32]
    } else if cp == 0x2f855 {
        seq![0x578bu32]
    } else if cp == 0x2f856 {
        seq![0x5832u32]
    } else if cp == 0x2f857 {
        seq![0x5831u32]
    } else if cp == 0x2f858 {
        seq![0x58acu32]
    } else if cp == 0x2f859 {
        seq![0x214e4u32]
    } else if cp == 0x2f85a {
        seq![0x58f2u32]
    } else if cp == 0x2f85b {
        seq![0x58f7u32]
    } else if cp == 0x2f85c {
        seq![0x5906u32]
    } else if cp == 0x2f85d {
        seq![0x591au32]
    } else if cp == 0x2f85e {
        seq![0x5922u32]
    } else if cp == 0x2f85f {
        seq![0x5962u32]
    } else if cp == 0x2f860 {
        seq![0x216a8u32]
    } else if cp == 0x2f861 {
        seq![0x216eau32]
    } else if cp == 0x2f862 {
        seq![0x59ecu32]
    } else if cp == 0x2f863 {
        seq![0x5a1bu32]
    } else if cp == 0x2f864 {
        seq![0x5a27u32]
    } else if cp == 0x2f865 {
        seq![0x59d8u32]
    } else if cp == 0x2f866 {
        seq![0x5a66u32]
    } else if cp == 0x2f867 {
        seq![0x36eeu32]
    } else if cp == 0x2f868 {
        seq![0x36fcu32]
    } else if cp == 0x2f869 {
        seq![0x5b08u32]
    } else if cp == 0x2f86a {
        seq![0x5b3eu32]
    } else if cp == 0x2f86b {
        seq![0x5b3eu32]
    } else if cp == 0x2f86c {
        seq![0x219c8u32]
    } else if cp == 0x2f86d {
        seq![0x5bc3u32]
    } else if cp == 0x2f86e {
        seq![0x5bd8u32]
    } else if cp == 0x2f86f {
        seq![0x5be7u32]
    } else if cp == 0x2f870 {
        seq![0x5bf3u32]
    } else if cp == 0x2f871 {
        seq![0x21b18u32]
    } else if cp == 0x2f872 {
        seq![0x5bffu32]
    } else if cp == 0x2f873 {
        seq![0x5c06u32]
    } else if cp == 0x2f874 {
        seq![0x5f53u32]
    } else if cp == 0x2f875 {
        seq![0x5c22u32]
    } else if cp == 0x2f876 {
        seq![0x3781u32]
    } else if cp == 0x2f877 {
        seq![0x5c60u32]
    } else if cp == 0x2f878 {
        seq![0x5c6eu32]
    } else if cp == 0x2f879 {
        seq![0x5cc0u32]
    } else if cp == 0x2f87a {
        seq![0x5c8du32]
    } else if cp == 0x2f87b {
        seq![0x21de4u32]
    } else if cp == 0x2f87c {
        seq![0x5d43u32]
    } else if cp == 0x2f87d {
        seq![0x21de6u32]
    } else if cp == 0x2f87e {
        seq![0x5d6eu32]
    } else if cp == 0x2f87f {
        seq![0x5d6bu32]
    } else if cp == 0x2f880 {
        seq![0x5d7cu32]
    } else if cp == 0x2f881 {
        seq![0x5de1u32]
    } else if cp == 0x2f882 {
        seq![0x5de2u32]
    } else if cp == 0x2f883 {
        seq![0x382fu32]
    } else if cp == 0x2f884 {
        seq![0x5dfdu32]
    } else if cp == 0x2f885 {
        seq![0x5e28u32]
    } else if cp == 0x2f886 {
        seq![0x5e3du32]
    } else if cp == 0x2f887 {
        seq![0x5e69u32]
    } else if cp == 0x2f888 {
        seq![0x3862u32]
    } else if cp == 0x2f889 {
        seq![0x22183u32]
    } else if cp == 0x2f88a {
        seq![0x387cu32]
    } else if cp == 0x2f88b {
        seq![0x5eb0u32]
    } else if cp == 0x2f88c {
        seq![0x5eb3u32]
    } else if cp == 0x2f88d {
        seq![0x5eb6u32]
    } else if cp == 0x2f88e {
        seq![0x5ecau32]
    } else if cp == 0x2f88f {
        seq![0x2a392u32]
    } else if cp == 0x2f890 {
        seq![0x5efeu32]
    } else if cp == 0x2f891 {
        seq![0x22331u32]
    } else if cp == 0x2f892 {
        seq![0x22331u32]
    } else if cp == 0x2f893 {
        seq![0x8201u32]
    } else if cp == 0x2f894 {
        seq![0x5f22u32]
    } else if cp == 0x2f895 {
        seq![0x5f22u32]
    } else if cp == 0x2f896 {
        seq![0x38c7u32]
    } else if cp == 0x2f897 {
        seq![0x232b8u32]
    } else if cp == 0x2f898 {
        seq![0x261dau32]
    } else if cp == 0x2f899 {
        seq![0x5f62u32]
    } else if cp == 0x2f89a {
        seq![0x5f6bu32]
    } else if cp == 0x2f89b {
        seq![0x38e3u32]
    } else if cp == 0x2f89c {
        seq![0x5f9au32]
    } else if cp == 0x2f89d {
        seq![0x5fcdu32]
    } else if cp == 0x2f89e {
        seq![0x5fd7u32]
    } else if cp == 0x2f89f {
        seq![0x5ff9u32]
    } else if cp == 0x2f8a0 {
        seq![0x6081u32]
    } else if cp == 0x2f8a1 {
        seq![0x393au32]
    } else if cp == 0x2f8a2 {
        seq![0x391cu32]
    } else if cp == 0x2f8a3 {
        seq![0x6094u32]
    } else if cp == 0x2f8a4 {
        seq![0x226d4u32]
    } else if cp == 0x2f8a5 {
        seq![0x60c7u32]
    } else if cp == 0x2f8a6 {
        seq![0x6148u32]
    } else if cp == 0x2f8a7 {
        seq![0x614cu32]
    } else if cp == 0x2f8a8 {
        seq![0x614eu32]
    } else if cp == 0x2f8a9 {
        seq![0x614cu32]
    } else if cp == 0x2f8aa {
        seq![0x617au32]
    } else if cp == 0x2f8ab {
        seq![0x618eu32]
    } else if cp == 0x2f8ac {
        seq![0x61b2u32]
    } else if cp == 0x2f8ad {
        seq![0x61a4u32]
    } else if cp == 0x2f8ae {
        seq![0x61afu32]
    } else if cp == 0x2f8af {
        seq![0x61deu32]
    } else if cp == 0x2f8b0 {
        seq![0x61f2u32]
    } else if cp == 0x2f8b1 {
        seq![0x61f6u32]
    } else if cp == 0x2f8b2 {
        seq![0x6210u32]
    } else if cp == 0x2f8b3 {
        seq![0x621bu32]
    } else if cp == 0x2f8b4 {
        seq![0x625du32]
    } else if cp == 0x2f8b5 {
        seq![0x62b1u32]
    } else if cp == 0x2f8b6 {
        seq![0x62d4u32]
    } else if cp == 0x2f8b7 {
        seq![0x6350u32]
    } else if cp == 0x2f8b8 {
        seq![0x22b0cu32]
    } else if cp == 0x2f8b9 {
        seq![0x633du32]
    } else if cp == 0x2f8ba {
        seq![0x62fcu32]
    } else if cp == 0x2f8bb {
        seq![0x6368u32]
    } else if cp == 0x2f8bc {
        seq![0x6383u32]
    } else if cp == 0x2f8bd {
        seq![0x63e4u32]
    } else if cp == 0x2f8be {
        seq![0x22bf1u32]
    } else if cp == 0x2f8bf {
        seq![0x6422u32]
    } else if cp == 0x2f8c0 {
        seq![0x63c5u32]
    } else if cp == 0x2f8c1 {
        seq![0x63a9u32]
    } else if cp == 0x2f8c2 {
        seq![0x3a2eu32]
    } else if cp == 0x2f8c3 {
        seq![0x6469u32]
    } else if cp == 0x2f8c4 {
        seq![0x647eu32]
    } else if cp == 0x2f8c5 {
        seq![0x649du32]
    } else if cp == 0x2f8c6 {
        seq![0x6477u32]
    } else if cp == 0x2f8c7 {
        seq![0x3a6cu32]
    } else if cp == 0x2f8c8 {
        seq![0x654fu32]
    } else if cp == 0x2f8c9 {
        seq![0x656cu32]
    } else if cp == 0x2f8ca {
        seq![0x2300au32]
    } else if cp == 0x2f8cb {
        seq![0x65e3u32]
    } else if cp == 0x2f8cc {
        seq![0x66f8u32]
    } else if cp == 0x2f8cd {
        seq![0x6649u32]
    } else if cp == 0x2f8ce {
        seq![0x3b19u32]
    } else if cp == 0x2f8cf {
        seq![0x6691u32]
    } else if cp == 0x2f8d0 {
        seq![0x3b08u32]
    } else if cp == 0x2f8d1 {
        seq![0x3ae4u32]
    } else if cp == 0x2f8d2 {
        seq![0x5192u32]
    } else if cp == 0x2f8d3 {
        seq![0x5195u32]
    } else if cp == 0x2f8d4 {
        seq![0x6700u32]
    } else if cp == 0x2f8d5 {
        seq![0x669cu32]
    } else if cp == 0x2f8d6 {
        seq![0x80adu32]
    } else if cp == 0x2f8d7 {
        seq![0x43d9u32]
    } else if cp == 0x2f8d8 {
        seq![0x6717u32]
    } else if cp == 0x2f8d9 {
        seq![0x671bu32]
    } else if cp == 0x2f8da {
        seq![0x6721u32]
    } else if cp == 0x2f8db {
        seq![0x675eu32]
    } else if cp == 0x2f8dc {
        seq![0x6753u32]
    } else if cp == 0x2f8dd {
        seq![0x233c3u32]
    } else if cp == 0x2f8de {
        seq![0x3b49u32]
    } else if cp == 0x2f8df {
        seq![0x67fau32]
    } else if cp == 0x2f8e0 {
        seq![0x6785u32]
    } else if cp == 0x2f8e1 {
        seq![0x6852u32]
    } else if cp == 0x2f8e2 {
        seq![0x6885u32]
    } else if cp == 0x2f8e3 {
        seq![0x2346du32]
    } else if cp == 0x2f8e4 {
        seq![0x688eu32]
    } else if cp == 0x2f8e5 {
        seq![0x681fu32]
    } else if cp == 0x2f8e6 {
        seq![0x6914u32]
    } else if cp == 0x2f8e7 {
        seq![0x3b9du32]
    } else if cp == 0x2f8e8 {
        seq![0x6942u32]
    } else if cp == 0x2f8e9 {
        seq![0x69a3u32]
    } else if cp == 0x2f8ea {
        seq![0x69eau32]
    } else if cp == 0x2f8eb {
        seq![0x6aa8u32]
    } else if cp == 0x2f8ec {
        seq![0x236a3u32]
    } else if cp == 0x2f8ed {
        seq![0x6adbu32]
    } else if cp == 0x2f8ee {
        seq![0x3c18u32]
    } else if cp == 0x2f8ef {
        seq![0x6b21u32]
    } else if cp == 0x2f8f0 {
        seq![0x238a7u32]
    } else if cp == 0x2f8f1 {
        seq![0x6b54u32]
    } else if cp == 0x2f8f2 {
        seq![0x3c4eu32]
    } else if cp == 0x2f8f3 {
        seq![0x6b72u32]
    } else if cp == 0x2f8f4 {
        seq![0x6b9fu32]
    } else if cp == 0x2f8f5 {
        seq![0x6bbau32]
    } else if cp == 0x2f8f6 {
        seq![0x6bbbu32]
    } else if cp == 0x2f8f7 {
        seq![0x23a8du32]
    } else if cp == 0x2f8f8 {
        seq![0x21d0bu32]
    } else if cp == 0x2f8f9 {
        seq![0x23afau32]
    } else if cp == 0x2f8fa {
        seq![0x6c4eu32]
    } else if cp == 0x2f8fb {
        seq![0x23cbcu32]
    } else if cp == 0x2f8fc {
        seq![0x6cbfu32]
    } else if cp == 0x2f8fd {
        seq![0x6ccdu32]
    } else if cp == 0x2f8fe {
        seq![0x6c67u32]
    } else if cp == 0x2f8ff {
        seq![0x6d16u32]
    } else {
        seq![cp]
    }
}

fn push_decomp_2f8(r: &mut Vec<u32>, cp: u32)
    ensures
        final(r)@ == old(r)@ + decomp_2f8(cp),
{
    if cp == 0x2f800 {
        r.push(0x4e3d);
    } else if cp == 0x2f801 {
        r.push(0x4e38);
    } else if cp == 0x2f802 {
        r.push(0x4e41);
    } else if cp == 0x2f803 {
        r.push(0x20122);
    } else if cp == 0x2f804 {
        r.push(0x4f60);
    } else if cp == 0x2f805 {
        r.push(0x4fae);
    } else if cp == 0x2f806 {
        r.push(0x4fbb);
    } else if cp == 0x2f807 {
        r.push(0x5002);
    } else if cp == 0x2f808 {
        r.push(0x507a);
    } else if cp == 0x2f809 {
        r.push(0x5099);
    } else if cp == 0x2f80a {
        r.push(0x50e7);
    } else if cp == 0x2f80b {
        r.push(0x50cf);
    } else if cp == 0x2f80c {
        r.push(0x349e);
    } else if cp == 0x2f80d {
        r.push(0x2063a);
    } else if cp == 0x2f80e {
        r.push(0x514d);
    } else if cp == 0x2f80f {
        r.push(0x5154);
    } else if cp == 0x2f810 {
        r.push(0x5164);
    } else if cp == 0x2f811 {
        r.push(0x5177);
    } else if cp == 0x2f812 {
        r.push(0x2051c);
    } else if cp == 0x2f813 {
        r.push(0x34b9);
    } else if cp == 0x2f814 {
        r.push(0x5167);
    } else if cp == 0x2f815 {
        r.push(0x518d);
    } else if cp == 0x2f816 {
        r.push(0x2054b);
    } else if cp == 0x2f817 {
        r.push(0x5197);
    } else if cp == 0x2f818 {
        r.push(0x51a4);
    } else if cp == 0x2f819 {
        r.push(0x4ecc);
    } else if cp == 0x2f81a {
        r.push(0x51ac);
    } else if cp == 0x2f81b {
        r.push(0x51b5);
    } else if cp == 0x2f81c {
        r.push(0x291df);
    } else if cp == 0x2f81d {
        r.push(0x51f5);
    } else if cp == 0x2f81e {
        r.push(0x5203);
    } else if cp == 0x2f81f {
        r.push(0x34df);
    } else if cp == 0x2f820 {
        r.push(0x523b);
    } else if cp == 0x2f821 {
        r.push(0x5246);
    } else if cp == 0x2f822 {
        r.push(0x5272);
    } else if cp == 0x2f823 {
        r.push(0x5277);
    } else if cp == 0x2f824 {
        r.push(0x3515);
    } else if cp == 0x2f825 {
        r.push(0x52c7);
    } else if cp == 0x2f826 {
        r.push(0x52c9);
    } else if cp == 0x2f827 {
        r.push(0x52e4);
    } else if cp == 0x2f828 {
        r.push(0x52fa);
    } else if cp == 0x2f829 {
        r.push(0x5305);
    } else if cp == 0x2f82a {
        r.push(0x5306);
    } else if cp == 0x2f82b {
        r.push(0x5317);
    } else if cp == 0x2f82c {
        r.push(0x5349);
    } else if cp == 0x2f82d {
        r.push(0x5351);
    } else if cp == 0x2f82e {
        r.push(0x535a);
    } else if cp == 0x2f82f {
        r.push(0x5373);
    } else if cp == 0x2f830 {
        r.push(0x537d);
    } else if cp == 0x2f831 {
        r.push(0x537f);
    } else if cp == 0x2f832 {
        r.push(0x537f);
    } else if cp == 0x2f833 {
        r.push(0x537f);
    } else if cp == 0x2f834 {
        r.push(0x20a2c);
    } else if cp == 0x2f835 {
        r.push(0x7070);
    } else if cp == 0x2f836 {
        r.push(0x53ca);
    } else if cp == 0x2f837 {
        r.push(0x53df);
    } else if cp == 0x2f838 {
        r.push(0x20b63);
    } else if cp == 0x2f839 {
        r.push(0x53eb);
    } else if cp == 0x2f83a {
        r.push(0x53f1);
    } else if cp == 0x2f83b {
        r.push(0x5406);
    } else if cp == 0x2f83c {
        r.push(0x549e);
    } else if cp == 0x2f83d {
        r.push(0x5438);
    } else if cp == 0x2f83e {
        r.push(0x5448);
    } else if cp == 0x2f83f {
        r.push(0x5468);
    } else if cp == 0x2f840 {
        r.push(0x54a2);
    } else if cp == 0x2f841 {
        r.push(0x54f6);
    } else if cp == 0x2f842 {
        r.push(0x5510);
    } else if cp == 0x2f843 {
        r.push(0x5553);
    } else if cp == 0x2f844 {
        r.push(0x5563);
    } else if cp == 0x2f845 {
        r.push(0x5584);
    } else if cp == 0x2f846 {
        r.push(0x5584);
    } else if cp == 0x2f847 {
        r.push(0x5599);
    } else if cp == 0x2f848 {
        r.push(0x55ab);
    } else if cp == 0x2f849 {
        r.push(0x55b3);
    } else if cp == 0x2f84a {
        r.push(0x55c2);
    } else if cp == 0x2f84b {
        r.push(0x5716);
    } else if cp == 0x2f84c {
        r.push(0x5606);
    } else if cp == 0x2f84d {
        r.push(0x5717);
    } else if cp == 0x2f84e {
        r.push(0x5651);
    } else if cp == 0x2f84f {
        r.push(0x5674);
    } else if cp == 0x2f850 {
        r.push(0x5207);
    } else if cp == 0x2f851 {
        r.push(0x58ee);
    } else if cp == 0x2f852 {
        r.push(0x57ce);
    } else if cp == 0x2f853 {
        r.push(0x57f4);
    } else if cp == 0x2f854 {
        r.push(0x580d);
    } else if cp == 0x2f855 {
        r.push(0x578b);
    } else if cp == 0x2f856 {
        r.push(0x5832);
    } else if cp == 0x2f857 {
        r.push(0x5831);
    } else if cp == 0x2f858 {
        r.push(0x58ac);
    } else if cp == 0x2f859 {
        r.push(0x214e4);
    } else if cp == 0x2f85a {
        r.push(0x58f2);
    } else if cp == 0x2f85b {
        r.push(0x58f7);
    } else if cp == 0x2f85c {
        r.push(0x5906);
    } else if cp == 0x2f85d {
        r.push(0x591a);
    } else if cp == 0x2f85e {
        r.push(0x5922);
    } else if cp == 0x2f85f {
        r.push(0x5962);
    } else if cp == 0x2f860 {
        r.push(0x216a8);
    } else if cp == 0x2f861 {
        r.push(0x216ea);
    } else if cp == 0x2f862 {
        r.push(0x59ec);
    } else if cp == 0x2f863 {
        r.push(0x5a1b);
    } else if cp == 0x2f864 {
        r.push(0x5a27);
    } else if cp == 0x2f865 {
        r.push(0x59d8);
    } else if cp == 0x2f866 {
        r.push(0x5a66);
    } else if cp == 0x2f867 {
        r.push(0x36ee);
    } else if cp == 0x2f868 {
        r.push(0x36fc);
    } else if cp == 0x2f869 {
        r.push(0x5b08);
    } else if cp == 0x2f86a {
        r.push(0x5b3e);
    } else if cp == 0x2f86b {
        r.push(0x5b3e);
    } else if cp == 0x2f86c {
        r.push(0x219c8);
    } else if cp == 0x2f86d {
        r.push(0x5bc3);
    } else if cp == 0x2f86e {
        r.push(0x5bd8);
    } else if cp == 0x2f86f {
        r.push(0x5be7);
    } else if cp == 0x2f870 {
        r.push(0x5bf3);
    } else if cp == 0x2f871 {
        r.push(0x21b18);
    } else if cp == 0x2f872 {
        r.push(0x5bff);
    } else if cp == 0x2f873 {
        r.push(0x5c06);
    } else if cp == 0x2f874 {
        r.push(0x5f53);
    } else if cp == 0x2f875 {
        r.push(0x5c22);
    } else if cp == 0x2f876 {
        r.push(0x3781);
    } else if cp == 0x2f877 {
        r.push(0x5c60);
    } else if cp == 0x2f878 {
        r.push(0x5c6e);
    } else if cp == 0x2f879 {
        r.push(0x5cc0);
    } else if cp == 0x2f87a {
        r.push(0x5c8d);
    } else if cp == 0x2f87b {
        r.push(0x21de4);
    } else if cp == 0x2f87c {
        r.push(0x5d43);
    } else if cp == 0x2f87d {
        r.push(0x21de6);
    } else if cp == 0x2f87e {
        r.push(0x5d6e);
    } else if cp == 0x2f87f {
        r.push(0x5d6b);
    } else if cp == 0x2f880 {
        r.push(0x5d7c);
    } else if cp == 0x2f881 {
        r.push(0x5de1);
    } else if cp == 0x2f882 {
        r.push(0x5de2);
    } else if cp == 0x2f883 {
        r.push(0x382f);
    } else if cp == 0x2f884 {
        r.push(0x5dfd);
    } else if cp == 0x2f885 {
        r.push(0x5e28);
    } else if cp == 0x2f886 {
        r.push(0x5e3d);
    } else if cp == 0x2f887 {
        r.push(0x5e69);
    } else if cp == 0x2f888 {
        r.push(0x3862);
    } else if cp == 0x2f889 {
        r.push(0x22183);
    } else if cp == 0x2f88a {
        r.push(0x387c);
    } else if cp == 0x2f88b {
        r.push(0x5eb0);
    } else if cp == 0x2f88c {
        r.push(0x5eb3);
    } else if cp == 0x2f88d {
        r.push(0x5eb6);
    } else if cp == 0x2f88e {
        r.push(0x5eca);
    } else if cp == 0x2f88f {
        r.push(0x2a392);
    } else if cp == 0x2f890 {
        r.push(0x5efe);
    } else if cp == 0x2f891 {
        r.push(0x22331);
    } else if cp == 0x2f892 {
        r.push(0x22331);
    } else if cp == 0x2f893 {
        r.push(0x8201);
    } else if cp == 0x2f894 {
        r.push(0x5f22);
    } else if cp == 0x2f895 {
        r.push(0x5f22);
    } else if cp == 0x2f896 {
        r.push(0x38c7);
    } else if cp == 0x2f897 {
        r.push(0x232b8);
    } else if cp == 0x2f898 {
        r.push(0x261da);
    } else if cp == 0x2f899 {
        r.push(0x5f62);
    } else if cp == 0x2f89a {
        r.push(0x5f6b);
    } else if cp == 0x2f89b {
        r.push(0x38e3);
    } else if cp == 0x2f89c {
        r.push(0x5f9a);
    } else if cp == 0x2f89d {
        r.push(0x5fcd);
    } else if cp == 0x2f89e {
        r.push(0x5fd7);
    } else if cp == 0x2f89f {
        r.push(0x5ff9);
    } else if cp == 0x2f8a0 {
        r.push(0x6081);
    } else if cp == 0x2f8a1 {
        r.push(0x393a);
    } else if cp == 0x2f8a2 {
        r.push(0x391c);
    } else if cp == 0x2f8a3 {
        r.push(0x6094);
    } else if cp == 0x2f8a4 {
        r.push(0x226d4);
    } else if cp == 0x2f8a5 {
        r.push(0x60c7);
    } else if cp == 0x2f8a6 {
        r.push(0x6148);
    } else if cp == 0x2f8a7 {
        r.push(0x614c);
    } else if cp == 0x2f8a8 {
        r.push(0x614e);
    } else if cp == 0x2f8a9 {
        r.push(0x614c);
    } else if cp == 0x2f8aa {
        r.push(0x617a);
    } else if cp == 0x2f8ab {
        r.push(0x618e);
    } else if cp == 0x2f8ac {
        r.push(0x61b2);
    } else if cp == 0x2f8ad {
        r.push(0x61a4);
    } else if cp == 0x2f8ae {
        r.push(0x61af);
    } else if cp == 0x2f8af {
        r.push(0x61de);
    } else if cp == 0x2f8b0 {
        r.push(0x61f2);
    } else if cp == 0x2f8b1 {
        r.push(0x61f6);
    } else if cp == 0x2f8b2 {
        r.push(0x6210);
    } else if cp == 0x2f8b3 {
        r.push(0x621b);
    } else if cp == 0x2f8b4 {
        r.push(0x625d);
    } else if cp == 0x2f8b5 {
        r.push(0x62b1);
    } else if cp == 0x2f8b6 {
        r.push(0x62d4);
    } else if cp == 0x2f8b7 {
        r.push(0x6350);
    } else if cp == 0x2f8b8 {
        r.push(0x22b0c);
    } else if cp == 0x2f8b9 {
        r.push(0x633d);
    } else if cp == 0x2f8ba {
        r.push(0x62fc);
    } else if cp == 0x2f8bb {
        r.push(0x6368);
    } else if cp == 0x2f8bc {
        r.push(0x6383);
    } else if cp == 0x2f8bd {
        r.push(0x63e4);
    } else if cp == 0x2f8be {
        r.push(0x22bf1);
    } else if cp == 0x2f8bf {
        r.push(0x6422);
    } else if cp == 0x2f8c0 {
        r.push(0x63c5);
    } else if cp == 0x2f8c1 {
        r.push(0x63a9);
    } else if cp == 0x2f8c2 {
        r.push(0x3a2e);
    } else if cp == 0x2f8c3 {
        r.push(0x6469);
    } else if cp == 0x2f8c4 {
        r.push(0x647e);
    } else if cp == 0x2f8c5 {
        r.push(0x649d);
    } else if cp == 0x2f8c6 {
        r.push(0x6477);
    } else if cp == 0x2f8c7 {
        r.push(0x3a6c);
    } else if cp == 0x2f8c8 {
        r.push(0x654f);
    } else if cp == 0x2f8c9 {
        r.push(0x656c);
    } else if cp == 0x2f8ca {
        r.push(0x2300a);
    } else if cp == 0x2f8cb {
        r.push(0x65e3);
    } else if cp == 0x2f8cc {
        r.push(0x66f8);
    } else if cp == 0x2f8cd {
        r.push(0x6649);
    } else if cp == 0x2f8ce {
        r.push(0x3b19);
    } else if cp == 0x2f8cf {
        r.push(0x6691);
    } else if cp == 0x2f8d0 {
        r.push(0x3b08);
    } else if cp == 0x2f8d1 {
        r.push(0x3ae4);
    } else if cp == 0x2f8d2 {
        r.push(0x5192);
    } else if cp == 0x2f8d3 {
        r.push(0x5195);
    } else if cp == 0x2f8d4 {
        r.push(0x6700);
    } else if cp == 0x2f8d5 {
        r.push(0x669c);
    } else if cp == 0x2f8d6 {
        r.push(0x80ad);
    } else if cp == 0x2f8d7 {
        r.push(0x43d9);
    } else if cp == 0x2f8d8 {
        r.push(0x6717);
    } else if cp == 0x2f8d9 {
        r.push(0x671b);
    } else if cp == 0x2f8da {
        r.push(0x6721);
    } else if cp == 0x2f8db {
        r.push(0x675e);
    } else if cp == 0x2f8dc {
        r.push(0x6753);
    } else if cp == 0x2f8dd {
        r.push(0x233c3);
    } else if cp == 0x2f8de {
        r.push(0x3b49);
    } else if cp == 0x2f8df {
        r.push(0x67fa);
    } else if cp == 0x2f8e0 {
        r.push(0x6785);
    } else if cp == 0x2f8e1 {
        r.push(0x6852);
    } else if cp == 0x2f8e2 {
        r.push(0x6885);
    } else if cp == 0x2f8e3 {
        r.push(0x2346d);
    } else if cp == 0x2f8e4 {
        r.push(0x688e);
    } else if cp == 0x2f8e5 {
        r.push(0x681f);
    } else if cp == 0x2f8e6 {
        r.push(0x6914);
    } else if cp == 0x2f8e7 {
        r.push(0x3b9d);
    } else if cp == 0x2f8e8 {
        r.push(0x6942);
    } else if cp == 0x2f8e9 {
        r.push(0x69a3);
    } else if cp == 0x2f8ea {
        r.push(0x69ea);
    } else if cp == 0x2f8eb {
        r.push(0x6aa8);
    } else if cp == 0x2f8ec {
        r.push(0x236a3);
    } else if cp == 0x2f8ed {
        r.push(0x6adb);
    } else if cp == 0x2f8ee {
        r.push(0x3c18);
    } else if cp == 0x2f8ef {
        r.push(0x6b21);
    } else if cp == 0x2f8f0 {
        r.push(0x238a7);
    } else if cp == 0x2f8f1 {
        r.push(0x6b54);
    } else if cp == 0x2f8f2 {
        r.push(0x3c4e);
    } else if cp == 0x2f8f3 {
        r.push(0x6b72);
    } else if cp == 0x2f8f4 {
        r.push(0x6b9f);
    } else if cp == 0x2f8f5 {
        r.push(0x6bba);
    } else if cp == 0x2f8f6 {
        r.push(0x6bbb);
    } else if cp == 0x2f8f7 {
        r.push(0x23a8d);
    } else if cp == 0x2f8f8 {
        r.push(0x21d0b);
    } else if cp == 0x2f8f9 {
        r.push(0x23afa);
    } else if cp == 0x2f8fa {
        r.push(0x6c4e);
    } else if cp == 0x2f8fb {
        r.push(0x23cbc);
    } else if cp == 0x2f8fc {
        r.push(0x6cbf);
    } else if cp == 0x2f8fd {
        r.push(0x6ccd);
    } else if cp == 0x2f8fe {
        r.push(0x6c67);
    } else if cp == 0x2f8ff {
        r.push(0x6d16);
    } else {
        r.push(cp);
    }
}

pub open spec fn decomp_2f9(cp: u32) -> Seq<u32> {
    if cp == 0x2f900 {
        seq![0x6d3eu32]
    } else if cp == 0x2f901 {
        seq![0x6d77u32]
    } else if cp == 0x2f902 {
        seq![0x6d41u32]
    } else if cp == 0x2f903 {
        seq![0x6d69u32]
    } else if cp == 0x2f904 {
        seq![0x6d78u32]
    } else if cp == 0x2f905 {
        seq![0x6d85u32]
    } else if cp == 0x2f906 {
        seq![0x23d1eu32]
    } else if cp == 0x2f907 {
        seq![0x6d34u32]
    } else if cp == 0x2f908 {
        seq![0x6e2fu32]
    } else if cp == 0x2f909 {
        seq![0x6e6eu32]
    } else if cp == 0x2f90a {
        seq![0x3d33u32]
    } else if cp == 0x2f90b {
        seq![0x6ecbu32]
    } else if cp == 0x2f90c {
        seq![0x6ec7u32]
    } else if cp == 0x2f90d {
        seq![0x23ed1u32]
    } else if cp == 0x2f90e {
        seq![0x6df9u32]
    } else if cp == 0x2f90f {
        seq![0x6f6eu32]
    } else if cp == 0x2f910 {
        seq![0x23f5eu32]
    } else if cp == 0x2f911 {
        seq![0x23f8eu32]
    } else if cp == 0x2f912 {
        seq![0x6fc6u32]
    } else if cp == 0x2f913 {
        seq![0x7039u32]
    } else if cp == 0x2f914 {
        seq![0x701eu32]
    } else if cp == 0x2f915 {
        seq![0x701bu32]
    } else if cp == 0x2f916 {
        seq![0x3d96u32]
    } else if cp == 0x2f917 {
        seq![0x704au32]
    } else if cp == 0x2f918 {
        seq![0x707du32]
    } else if cp == 0x2f919 {
        seq![0x7077u32]
    } else if cp == 0x2f91a {
        seq![0x70adu32]
    } else if cp == 0x2f91b {
        seq![0x20525u32]
    } else if cp == 0x2f91c {
        seq![0x7145u32]
    } else if cp == 0x2f91d {
        seq![0x24263u32]
    } else if cp == 0x2f91e {
        seq![0x719cu32]
    } else if cp == 0x2f91f {
        seq![0x243abu32]
    } else if cp == 0x2f920 {
        seq![0x7228u32]
    } else if cp == 0x2f921 {
        seq![0x7235u32]
    } else if cp == 0x2f922 {
        seq![0x7250u32]
    } else if cp == 0x2f923 {
        seq![0x24608u32]
    } else if cp == 0x2f924 {
        seq![0x7280u32]
    } else if cp == 0x2f925 {
        seq![0x7295u32]
    } else if cp == 0x2f926 {
        seq![0x24735u32]
    } else if cp == 0x2f927 {
        seq![0x24814u32]
    } else if cp == 0x2f928 {
        seq![0x737au32]
    } else if cp == 0x2f929 {
        seq![0x738bu32]
    } else if cp == 0x2f92a {
        seq![0x3eacu32]
    } else if cp == 0x2f92b {
        seq![0x73a5u32]
    } else if cp == 0x2f92c {
        seq![0x3eb8u32]
    } else if cp == 0x2f92d {
        seq![0x3eb8u32]
    } else if cp == 0x2f92e {
        seq![0x7447u32]
    } else if cp == 0x2f92f {
        seq![0x745cu32]
    } else if cp == 0x2f930 {
        seq![0x7471u32]
    } else if cp == 0x2f931 {
        seq![0x7485u32]
    } else if cp == 0x2f932 {
        seq![0x74cau32]
    } else if cp == 0x2f933 {
        seq![0x3f1bu32]
    } else if cp == 0x2f934 {
        seq![0x7524u32]
    } else if cp == 0x2f935 {
        seq![0x24c36u32]
    } else if cp == 0x2f936 {
        seq![0x753eu32]
    } else if cp == 0x2f937 {
        seq![0x24c92u32]
    } else if cp == 0x2f938 {
        seq![0x7570u32]
    } else if cp == 0x2f939 {
        seq![0x2219fu32]
    } else if cp == 0x2f93a {
        seq![0x7610u32]
    } else if cp == 0x2f93b {
        seq![0x24fa1u32]
    } else if cp == 0x2f93c {
        seq![0x24fb8u32]
    } else if cp == 0x2f93d {
        seq![0x25044u32]
    } else if cp == 0x2f93e {
        seq![0x3ffcu32]
    } else if cp == 0x2f93f {
        seq![0x4008u32]
    } else if cp == 0x2f940 {
        seq![0x76f4u32]
    } else if cp == 0x2f941 {
        seq![0x250f3u32]
    } else if cp == 0x2f942 {
        seq![0x250f2u32]
    } else if cp == 0x2f943 {
        seq![0x25119u32]
    } else if cp == 0x2f944 {
        seq![0x25133u32]
    } else if cp == 0x2f945 {
        seq![0x771eu32]
    } else if cp == 0x2f946 {
        seq![0x771fu32]
    } else if cp == 0x2f947 {
        seq![0x771fu32]
    } else if cp == 0x2f948 {
        seq![0x774au32]
    } else if cp == 0x2f949 {
        seq![0x4039u32]
    } else if cp == 0x2f94a {
        seq![0x778bu32]
    } else if cp == 0x2f94b {
        seq![0x4046u32]
    } else if cp == 0x2f94c {
        seq![0x4096u32]
    } else if cp == 0x2f94d {
        seq![0x2541du32]
    } else if cp == 0x2f94e {
        seq![0x784eu32]
    } else if cp == 0x2f94f {
        seq![0x788cu32]
    } else if cp == 0x2f950 {
        seq![0x78ccu32]
    } else if cp == 0x2f951 {
        seq![0x40e3u32]
    } else if cp == 0x2f952 {
        seq![0x25626u32]
    } else if cp == 0x2f953 {
        seq![0x7956u32]
    } else if cp == 0x2f954 {
        seq![0x2569au32]
    } else if cp == 0x2f955 {
        seq![0x256c5u32]
    } else if cp == 0x2f956 {
        seq![0x798fu32]
    } else if cp == 0x2f957 {
        seq![0x79ebu32]
    } else if cp == 0x2f958 {
        seq![0x412fu32]
    } else if cp == 0x2f959 {
        seq![0x7a40u32]
    } else if cp == 0x2f95a {
        seq![0x7a4au32]
    } else if cp == 0x2f95b {
        seq![0x7a4fu32]
    } else if cp == 0x2f95c {
        seq![0x2597cu32]
    } else if cp == 0x2f95d {
        seq![0x25aa7u32]
    } else if cp == 0x2f95e {
        seq![0x25aa7u32]
    } else if cp == 0x2f95f {
        seq![0x7aeeu32]
    } else if cp == 0x2f960 {
        seq![0x4202u32]
    } else if cp == 0x2f961 {
        seq![0x25babu32]
    } else if cp == 0x2f962 {
        seq![0x7bc6u32]
    } else if cp == 0x2f963 {
        seq![0x7bc9u32]
    } else if cp == 0x2f964 {
        seq![0x4227u32]
    } else if cp == 0x2f965 {
        seq![0x25c80u32]
    } else if cp == 0x2f966 {
        seq![0x7cd2u32]
    } else if cp == 0x2f967 {
        seq![0x42a0u32]
    } else if cp == 0x2f968 {
        seq![0x7ce8u32]
    } else if cp == 0x2f969 {
        seq![0x7ce3u32]
    } else if cp == 0x2f96a {
        seq![0x7d00u32]
    } else if cp == 0x2f96b {
        seq![0x25f86u32]
    } else if cp == 0x2f96c {
        seq![0x7d63u32]
    } else if cp == 0x2f96d {
        seq![0x4301u32]
    } else if cp == 0x2f96e {
        seq![0x7dc7u32]
    } else if cp == 0x2f96f {
        seq![0x7e02u32]
    } else if cp == 0x2f970 {
        seq![0x7e45u32]
    } else if cp == 0x2f971 {
        seq![0x4334u32]
    } else if cp == 0x2f972 {
        seq![0x26228u32]
    } else if cp == 0x2f973 {
        seq![0x26247u32]
    } else if cp == 0x2f974 {
        seq![0x4359u32]
    } else if cp == 0x2f975 {
        seq![0x262d9u32]
    } else if cp == 0x2f976 {
        seq![0x7f7au32]
    } else if cp == 0x2f977 {
        seq![0x2633eu32]
    } else if cp == 0x2f978 {
        seq![0x7f95u32]
    } else if cp == 0x2f979 {
        seq![0x7ffau32]
    } else if cp == 0x2f97a {
        seq![0x8005u32]
    } else if cp == 0x2f97b {
        seq![0x264dau32]
    } else if cp == 0x2f97c {
        seq![0x26523u32]
    } else if cp == 0x2f97d {
        seq![0x8060u32]
    } else if cp == 0x2f97e {
        seq![0x265a8u32]
    } else if cp == 0x2f97f {
        seq![0x8070u32]
    } else if cp == 0x2f980 {
        seq![0x2335fu32]
    } else if cp == 0x2f981 {
        seq![0x43d5u32]
    } else if cp == 0x2f982 {
        seq![0x80b2u32]
    } else if cp == 0x2f983 {
        seq![0x8103u32]
    } else if cp == 0x2f984 {
        seq![0x440bu32]
    } else if cp == 0x2f985 {
        seq![0x813eu32]
    } else if cp == 0x2f986 {
        seq![0x5ab5u32]
    } else if cp == 0x2f987 {
        seq![0x267a7u32]
    } else if cp == 0x2f988 {
        seq![0x267b5u32]
    } else if cp == 0x2f989 {
        seq![0x23393u32]
    } else if cp == 0x2f98a {
        seq![0x2339cu32]
    } else if cp == 0x2f98b {
        seq![0x8201u32]
    } else if cp == 0x2f98c {
        seq![0x8204u32]
    } else if cp == 0x2f98d {
        seq![0x8f9eu32]
    } else if cp == 0x2f98e {
        seq![0x446bu32]
    } else if cp == 0x2f98f {
        seq![0x8291u32]
    } else if cp == 0x2f990 {
        seq![0x828bu32]
    } else if cp == 0x2f991 {
        seq![0x829du32]
    } else if cp == 0x2f992 {
        seq![0x52b3u32]
    } else if cp == 0x2f993 {
        seq![0x82b1u32]
    } else if cp == 0x2f994 {
        seq![0x82b3u32]
    } else if cp == 0x2f995 {
        seq![0x82bdu32]
    } else if cp == 0x2f996 {
        seq![0x82e6u32]
    } else if cp == 0x2f997 {
        seq![0x26b3cu32]
    } else if cp == 0x2f998 {
        seq![0x82e5u32]
    } else if cp == 0x2f999 {
        seq![0x831du32]
    } else if cp == 0x2f99a {
        seq![0x8363u32]
    } else if cp == 0x2f99b {
        seq![0x83adu32]
    } else if cp == 0x2f99c {
        seq![0x8323u32]
    } else if cp == 0x2f99d {
        seq![0x83bdu32]
    } else if cp == 0x2f99e {
        seq![0x83e7u32]
    } else if cp == 0x2f99f {
        seq![0x8457u32]
    } else if cp == 0x2f9a0 {
        seq![0x8353u32]
    } else if cp == 0x2f9a1 {
        seq![0x83cau32]
    } else if cp == 0x2f9a2 {
        seq![0x83ccu32]
    } else if cp == 0x2f9a3 {
        seq![0x83dcu32]
    } else if cp == 0x2f9a4 {
        seq![0x26c36u32]
    } else if cp == 0x2f9a5 {
        seq![0x26d6bu32]
    } else if cp == 0x2f9a6 {
        seq![0x26cd5u32]
    } else if cp == 0x2f9a7 {
        seq![0x452bu32]
    } else if cp == 0x2f9a8 {
        seq![0x84f1u32]
    } else if cp == 0x2f9a9 {
        seq![0x84f3u32]
    } else if cp == 0x2f9aa {
        seq![0x8516u32]
    } else if cp == 0x2f9ab {
        seq![0x273cau32]
    } else if cp == 0x2f9ac {
        seq![0x8564u32]
    } else if cp == 0x2f9ad {
        seq![0x26f2cu32]
    } else if cp == 0x2f9ae {
        seq![0x455du32]
    } else if cp == 0x2f9af {
        seq![0x4561u32]
    } else if cp == 0x2f9b0 {
        seq![0x26fb1u32]
    } else if cp == 0x2f9b1 {
        seq![0x270d2u32]
    } else if cp == 0x2f9b2 {
        seq![0x456bu32]
    } else if cp == 0x2f9b3 {
        seq![0x8650u32]
    } else if cp == 0x2f9b4 {
        seq![0x865cu32]
    } else if cp == 0x2f9b5 {
        seq![0x8667u32]
    } else if cp == 0x2f9b6 {
        seq![0x8669u32]
    } else if cp == 0x2f9b7 {
        seq![0x86a9u32]
    } else if cp == 0x2f9b8 {
        seq![0x8688u32]
    } else if cp == 0x2f9b9 {
        seq![0x870eu32]
    } else if cp == 0x2f9ba {
        seq![0x86e2u32]
    } else if cp == 0x2f9bb {
        seq![0x8779u32]
    } else if cp == 0x2f9bc {
        seq![0x8728u32]
    } else if cp == 0x2f9bd {
        seq![0x876bu32]
    } else if cp == 0x2f9be {
        seq![0x8786u32]
    } else if cp == 0x2f9bf {
        seq![0x45d7u32]
    } else if cp == 0x2f9c0 {
        seq![0x87e1u32]
    } else if cp == 0x2f9c1 {
        seq![0x8801u32]
    } else if cp == 0x2f9c2 {
        seq![0x45f9u32]
    } else if cp == 0x2f9c3 {
        seq![0x8860u32]
    } else if cp == 0x2f9c4 {
        seq![0x8863u32]
    } else if cp == 0x2f9c5 {
        seq![0x27667u32]
    } else if cp == 0x2f9c6 {
        seq![0x88d7u32]
    } else if cp == 0x2f9c7 {
        seq![0x88deu32]
    } else if cp == 0x2f9c8 {
        seq![0x4635u32]
    } else if cp == 0x2f9c9 {
        seq![0x88fau32]
    } else if cp == 0x2f9ca {
        seq![0x34bbu32]
    } else if cp == 0x2f9cb {
        seq![0x278aeu32]
    } else if cp == 0x2f9cc {
        seq![0x27966u32]
    } else if cp == 0x2f9cd {
        seq![0x46beu32]
    } else if cp == 0x2f9ce {
        seq![0x46c7u32]
    } else if cp == 0x2f9cf {
        seq![0x8aa0u32]
    } else if cp == 0x2f9d0 {
        seq![0x8aedu32]
    } else if cp == 0x2f9d1 {
        seq![0x8b8au32]
    } else if cp == 0x2f9d2 {
        seq![0x8c55u32]
    } else if cp == 0x2f9d3 {
        seq![0x27ca8u32]
    } else if cp == 0x2f9d4 {
        seq![0x8cabu32]
    } else if cp == 0x2f9d5 {
        seq![0x8cc1u32]
    } else if cp == 0x2f9d6 {
        seq![0x8d1bu32]
    } else if cp == 0x2f9d7 {
        seq![0x8d77u32]
    } else if cp == 0x2f9d8 {
        seq![0x27f2fu32]
    } else if cp == 0x2f9d9 {
        seq![0x20804u32]
    } else if cp == 0x2f9da {
        seq![0x8dcbu32]
    } else if cp == 0x2f9db {
        seq![0x8dbcu32]
    } else if cp == 0x2f9dc {
        seq![0x8df0u32]
    } else if cp == 0x2f9dd {
        seq![0x208deu32]
    } else if cp == 0x2f9de {
        seq![0x8ed4u32]
    } else if cp == 0x2f9df {
        seq![0x8f38u32]
    } else if cp == 0x2f9e0 {
        seq![0x285d2u32]
    } else if cp == 0x2f9e1 {
        seq![0x285edu32]
    } else if cp == 0x2f9e2 {
        seq![0x9094u32]
    } else if cp == 0x2f9e3 {
        seq![0x90f1u32]
    } else if cp == 0x2f9e4 {
        seq![0x9111u32]
    } else if cp == 0x2f9e5 {
        seq![0x2872eu32]
    } else if cp == 0x2f9e6 {
        seq![0x911bu32]
    } else if cp == 0x2f9e7 {
        seq![0x9238u32]
    } else if cp == 0x2f9e8 {
        seq![0x92d7u32]
    } else if cp == 0x2f9e9 {
        seq![0x92d8u32]
    } else if cp == 0x2f9ea {
        seq![0x927cu32]
    } else if cp == 0x2f9eb {
        seq![0x93f9u32]
    } else if cp == 0x2f9ec {
        seq![0x9415u32]
    } else if cp == 0x2f9ed {
        seq![0x28bfau32]
    } else if cp == 0x2f9ee {
        seq![0x958bu32]
    } else if cp == 0x2f9ef {
        seq![0x4995u32]
    } else if cp == 0x2f9f0 {
        seq![0x95b7u32]
    } else if cp == 0x2f9f1 {
        seq![0x28d77u32]
    } else if cp == 0x2f9f2 {
        seq![0x49e6u32]
    } else if cp == 0x2f9f3 {
        seq![0x96c3u32]
    } else if cp == 0x2f9f4 {
        seq![0x5db2u32]
    } else if cp == 0x2f9f5 {
        seq![0x9723u32]
    } else if cp == 0x2f9f6 {
        seq![0x29145u32]
    } else if cp == 0x2f9f7 {
        seq![0x2921au32]
    } else if cp == 0x2f9f8 {
        seq![0x4a6eu32]
    } else if cp == 0x2f9f9 {
        seq![0x4a76u32]
    } else if cp == 0x2f9fa {
        seq![0x97e0u32]
    } else if cp == 0x2f9fb {
        seq![0x2940au32]
    } else if cp == 0x2f9fc {
        seq![0x4ab2u32]
    } else if cp == 0x2f9fd {
        seq![0x29496u32]
    } else if cp == 0x2f9fe {
        seq![0x980bu32]
    } else if cp == 0x2f9ff {
        seq![0x980bu32]
    } else {
        seq![cp]
    }
}

fn push_decomp_2f9(r: &mut Vec<u32>, cp: u32)
    ensures
        final(r)@ == old(r)@ + decomp_2f9(cp),
{
    if cp == 0x2f900 {
        r.push(0x6d3e);
    } else if cp == 0x2f901 {
        r.push(0x6d77);
    } else if cp == 0x2f902 {
        r.push(0x6d41);
    } else if cp == 0x2f903 {
        r.push(0x6d69);
    } else if cp == 0x2f904 {
        r.push(0x6d78);
    } else if cp == 0x2f905 {
        r.push(0x6d85);
    } else if cp == 0x2f906 {
        r.push(0x23d1e);
    } else if cp == 0x2f907 {
        r.push(0x6d34);
    } else if cp == 0x2f908 {
        r.push(0x6e2f);
    } else if cp == 0x2f909 {
        r.push(0x6e6e);
    } else if cp == 0x2f90a {
        r.push(0x3d33);
    } else if cp == 0x2f90b {
        r.push(0x6ecb);
    } else if cp == 0x2f90c {
        r.push(0x6ec7);
    } else if cp == 0x2f90d {
        r.push(0x23ed1);
    } else if cp == 0x2f90e {
        r.push(0x6df9);
    } else if cp == 0x2f90f {
        r.push(0x6f6e);
    } else if cp == 0x2f910 {
        r.push(0x23f5e);
    } else if cp == 0x2f911 {
        r.push(0x23f8e);
    } else if cp == 0x2f912 {
        r.push(0x6fc6);
    } else if cp == 0x2f913 {
        r.push(0x7039);
    } else if cp == 0x2f914 {
        r.push(0x701e);
    } else if cp == 0x2f915 {
        r.push(0x701b);
    } else if cp == 0x2f916 {
        r.push(0x3d96);
    } else if cp == 0x2f917 {
        r.push(0x704a);
    } else if cp == 0x2f918 {
        r.push(0x707d);
    } else if cp == 0x2f919 {
        r.push(0x7077);
    } else if cp == 0x2f91a {
        r.push(0x70ad);
    } else if cp == 0x2f91b {
        r.push(0x20525);
    } else if cp == 0x2f91c {
        r.push(0x7145);
    } else if cp == 0x2f91d {
        r.push(0x24263);
    } else if cp == 0x2f91e {
        r.push(0x719c);
    } else if cp == 0x2f91f {
        r.push(0x243ab);
    } else if cp == 0x2f920 {
        r.push(0x7228);
    } else if cp == 0x2f921 {
        r.push(0x7235);
    } else if cp == 0x2f922 {
        r.push(0x7250);
    } else if cp == 0x2f923 {
        r.push(0x24608);
    } else if cp == 0x2f924 {
        r.push(0x7280);
    } else if cp == 0x2f925 {
        r.push(0x7295);
    } else if cp == 0x2f926 {
        r.push(0x24735);
    } else if cp == 0x2f927 {
        r.push(0x24814);
    } else if cp == 0x2f928 {
        r.push(0x737a);
    } else if cp == 0x2f929 {
        r.push(0x738b);
    } else if cp == 0x2f92a {
        r.push(0x3eac);
    } else if cp == 0x2f92b {
        r.push(0x73a5);
    } else if cp == 0x2f92c {
        r.push(0x3eb8);
    } else if cp == 0x2f92d {
        r.push(0x3eb8);
    } else if cp == 0x2f92e {
        r.push(0x7447);
    } else if cp == 0x2f92f {
        r.push(0x745c);
    } else if cp == 0x2f930 {
        r.push(0x7471);
    } else if cp == 0x2f931 {
        r.push(0x7485);
    } else if cp == 0x2f932 {
        r.push(0x74ca);
    } else if cp == 0x2f933 {
        r.push(0x3f1b);
    } else if cp == 0x2f934 {
        r.push(0x7524);
    } else if cp == 0x2f935 {
        r.push(0x24c36);
    } else if cp == 0x2f936 {
        r.push(0x753e);
    } else if cp == 0x2f937 {
        r.push(0x24c92);
    } else if cp == 0x2f938 {
        r.push(0x7570);
    } else if cp == 0x2f939 {
        r.push(0x2219f);
    } else if cp == 0x2f93a {
        r.push(0x7610);
    } else if cp == 0x2f93b {
        r.push(0x24fa1);
    } else if cp == 0x2f93c {
        r.push(0x24fb8);
    } else if cp == 0x2f93d {
        r.push(0x25044);
    } else if cp == 0x2f93e {
        r.push(0x3ffc);
    } else if cp == 0x2f93f {
        r.push(0x4008);
    } else if cp == 0x2f940 {
        r.push(0x76f4);
    } else if cp == 0x2f941 {
        r.push(0x250f3);
    } else if cp == 0x2f942 {
        r.push(0x250f2);
    } else if cp == 0x2f943 {
        r.push(0x25119);
    } else if cp == 0x2f944 {
        r.push(0x25133);
    } else if cp == 0x2f945 {
        r.push(0x771e);
    } else if cp == 0x2f946 {
        r.push(0x771f);
    } else if cp == 0x2f947 {
        r.push(0x771f);
    } else if cp == 0x2f948 {
        r.push(0x774a);
    } else if cp == 0x2f949 {
        r.push(0x4039);
    } else if cp == 0x2f94a {
        r.push(0x778b);
    } else if cp == 0x2f94b {
        r.push(0x4046);
    } else if cp == 0x2f94c {
        r.push(0x4096);
    } else if cp == 0x2f94d {
        r.push(0x2541d);
    } else if cp == 0x2f94e {
        r.push(0x784e);
    } else if cp == 0x2f94f {
        r.push(0x788c);
    } else if cp == 0x2f950 {
        r.push(0x78cc);
    } else if cp == 0x2f951 {
        r.push(0x40e3);
    } else if cp == 0x2f952 {
        r.push(0x25626);
    } else if cp == 0x2f953 {
        r.push(0x7956);
    } else if cp == 0x2f954 {
        r.push(0x2569a);
    } else if cp == 0x2f955 {
        r.push(0x256c5);
    } else if cp == 0x2f956 {
        r.push(0x798f);
    } else if cp == 0x2f957 {
        r.push(0x79eb);
    } else if cp == 0x2f958 {
        r.push(0x412f);
    } else if cp == 0x2f959 {
        r.push(0x7a40);
    } else if cp == 0x2f95a {
        r.push(0x7a4a);
    } else if cp == 0x2f95b {
        r.push(0x7a4f);
    } else if cp == 0x2f95c {
        r.push(0x2597c);
    } else if cp == 0x2f95d {
        r.push(0x25aa7);
    } else if cp == 0x2f95e {
        r.push(0x25aa7);
    } else if cp == 0x2f95f {
        r.push(0x7aee);
    } else if cp == 0x2f960 {
        r.push(0x4202);
    } else if cp == 0x2f961 {
        r.push(0x25bab);
    } else if cp == 0x2f962 {
        r.push(0x7bc6);
    } else if cp == 0x2f963 {
        r.push(0x7bc9);
    } else if cp == 0x2f964 {
        r.push(0x4227);
    } else if cp == 0x2f965 {
        r.push(0x25c80);
    } else if cp == 0x2f966 {
        r.push(0x7cd2);
    } else if cp == 0x2f967 {
        r.push(0x42a0);
    } else if cp == 0x2f968 {
        r.push(0x7ce8);
    } else if cp == 0x2f969 {
        r.push(0x7ce3);
    } else if cp == 0x2f96a {
        r.push(0x7d00);
    } else if cp == 0x2f96b {
        r.push(0x25f86);
    } else if cp == 0x2f96c {
        r.push(0x7d63);
    } else if cp == 0x2f96d {
        r.push(0x4301);
    } else if cp == 0x2f96e {
        r.push(0x7dc7);
    } else if cp == 0x2f96f {
        r.push(0x7e02);
    } else if cp == 0x2f970 {
        r.push(0x7e45);
    } else if cp == 0x2f971 {
        r.push(0x4334);
    } else if cp == 0x2f972 {
        r.push(0x26228);
    } else if cp == 0x2f973 {
        r.push(0x26247);
    } else if cp == 0x2f974 {
        r.push(0x4359);
    } else if cp == 0x2f975 {
        r.push(0x262d9);
    } else if cp == 0x2f976 {
        r.push(0x7f7a);
    } else if cp == 0x2f977 {
        r.push(0x2633e);
    } else if cp == 0x2f978 {
        r.push(0x7f95);
    } else if cp == 0x2f979 {
        r.push(0x7ffa);
    } else if cp == 0x2f97a {
        r.push(0x8005);
    } else if cp == 0x2f97b {
        r.push(0x264da);
    } else if cp == 0x2f97c {
        r.push(0x26523);
    } else if cp == 0x2f97d {
        r.push(0x8060);
    } else if cp == 0x2f97e {
        r.push(0x265a8);
    } else if cp == 0x2f97f {
        r.push(0x8070);
    } else if cp == 0x2f980 {
        r.push(0x2335f);
    } else if cp == 0x2f981 {
        r.push(0x43d5);
    } else if cp == 0x2f982 {
        r.push(0x80b2);
    } else if cp == 0x2f983 {
        r.push(0x8103);
    } else if cp == 0x2f984 {
        r.push(0x440b);
    } else if cp == 0x2f985 {
        r.push(0x813e);
    } else if cp == 0x2f986 {
        r.push(0x5ab5);
    } else if cp == 0x2f987 {
        r.push(0x267a7);
    } else if cp == 0x2f988 {
        r.push(0x267b5);
    } else if cp == 0x2f989 {
        r.push(0x23393);
    } else if cp == 0x2f98a {
        r.push(0x2339c);
    } else if cp == 0x2f98b {
        r.push(0x8201);
    } else if cp == 0x2f98c {
        r.push(0x8204);
    } else if cp == 0x2f98d {
        r.push(0x8f9e);
    } else if cp == 0x2f98e {
        r.push(0x446b);
    } else if cp == 0x2f98f {
        r.push(0x8291);
    } else if cp == 0x2f990 {
        r.push(0x828b);
    } else if cp == 0x2f991 {
        r.push(0x829d);
    } else if cp == 0x2f992 {
        r.push(0x52b3);
    } else if cp == 0x2f993 {
        r.push(0x82b1);
    } else if cp == 0x2f994 {
        r.push(0x82b3);
    } else if cp == 0x2f995 {
        r.push(0x82bd);
    } else if cp == 0x2f996 {
        r.push(0x82e6);
    } else if cp == 0x2f997 {
        r.push(0x26b3c);
    } else if cp == 0x2f998 {
        r.push(0x82e5);
    } else if cp == 0x2f999 {
        r.push(0x831d);
    } else if cp == 0x2f99a {
        r.push(0x8363);
    } else if cp == 0x2f99b {
        r.push(0x83ad);
    } else if cp == 0x2f99c {
        r.push(0x8323);
    } else if cp == 0x2f99d {
        r.push(0x83bd);
    } else if cp == 0x2f99e {
        r.push(0x83e7);
    } else if cp == 0x2f99f {
        r.push(0x8457);
    } else if cp == 0x2f9a0 {
        r.push(0x8353);
    } else if cp == 0x2f9a1 {
        r.push(0x83ca);
    } else if cp == 0x2f9a2 {
        r.push(0x83cc);
    } else if cp == 0x2f9a3 {
        r.push(0x83dc);
    } else if cp == 0x2f9a4 {
        r.push(0x26c36);
    } else if cp == 0x2f9a5 {
        r.push(0x26d6b);
    } else if cp == 0x2f9a6 {
        r.push(0x26cd5);
    } else if cp == 0x2f9a7 {
        r.push(0x452b);
    } else if cp == 0x2f9a8 {
        r.push(0x84f1);
    } else if cp == 0x2f9a9 {
        r.push(0x84f3);
    } else if cp == 0x2f9aa {
        r.push(0x8516);
    } else if cp == 0x2f9ab {
        r.push(0x273ca);
    } else if cp == 0x2f9ac {
        r.push(0x8564);
    } else if cp == 0x2f9ad {
        r.push(0x26f2c);
    } else if cp == 0x2f9ae {
        r.push(0x455d);
    } else if cp == 0x2f9af {
        r.push(0x4561);
    } else if cp == 0x2f9b0 {
        r.push(0x26fb1);
    } else if cp == 0x2f9b1 {
        r.push(0x270d2);
    } else if cp == 0x2f9b2 {
        r.push(0x456b);
    } else if cp == 0x2f9b3 {
        r.push(0x8650);
    } else if cp == 0x2f9b4 {
        r.push(0x865c);
    } else if cp == 0x2f9b5 {
        r.push(0x8667);
    } else if cp == 0x2f9b6 {
        r.push(0x8669);
    } else if cp == 0x2f9b7 {
        r.push(0x86a9);
    } else if cp == 0x2f9b8 {
        r.push(0x8688);
    } else if cp == 0x2f9b9 {
        r.push(0x870e);
    } else if cp == 0x2f9ba {
        r.push(0x86e2);
    } else if cp == 0x2f9bb {
        r.push(0x8779);
    } else if cp == 0x2f9bc {
        r.push(0x8728);
    } else if cp == 0x2f9bd {
        r.push(0x876b);
    } else if cp == 0x2f9be {
        r.push(0x8786);
    } else if cp == 0x2f9bf {
        r.push(0x45d7);
    } else if cp == 0x2f9c0 {
        r.push(0x87e1);
    } else if cp == 0x2f9c1 {
        r.push(0x8801);
    } else if cp == 0x2f9c2 {
        r.push(0x45f9);
    } else if cp == 0x2f9c3 {
        r.push(0x8860);
    } else if cp == 0x2f9c4 {
        r.push(0x8863);
    } else if cp == 0x2f9c5 {
        r.push(0x27667);
    } else if cp == 0x2f9c6 {
        r.push(0x88d7);
    } else if cp == 0x2f9c7 {
        r.push(0x88de);
    } else if cp == 0x2f9c8 {
        r.push(0x4635);
    } else if cp == 0x2f9c9 {
        r.push(0x88fa);
    } else if cp == 0x2f9ca {
        r.push(0x34bb);
    } else if cp == 0x2f9cb {
        r.push(0x278ae);
    } else if cp == 0x2f9cc {
        r.push(0x27966);
    } else if cp == 0x2f9cd {
        r.push(0x46be);
    } else if cp == 0x2f9ce {
        r.push(0x46c7);
    } else if cp == 0x2f9cf {
        r.push(0x8aa0);
    } else if cp == 0x2f9d0 {
        r.push(0x8aed);
    } else if cp == 0x2f9d1 {
        r.push(0x8b8a);
    } else if cp == 0x2f9d2 {
        r.push(0x8c55);
    } else if cp == 0x2f9d3 {
        r.push(0x27ca8);
    } else if cp == 0x2f9d4 {
        r.push(0x8cab);
    } else if cp == 0x2f9d5 {
        r.push(0x8cc1);
    } else if cp == 0x2f9d6 {
        r.push(0x8d1b);
    } else if cp == 0x2f9d7 {
        r.push(0x8d77);
    } else if cp == 0x2f9d8 {
        r.push(0x27f2f);
    } else if cp == 0x2f9d9 {
        r.push(0x20804);
    } else if cp == 0x2f9da {
        r.push(0x8dcb);
    } else if cp == 0x2f9db {
        r.push(0x8dbc);
    } else if cp == 0x2f9dc {
        r.push(0x8df0);
    } else if cp == 0x2f9dd {
        r.push(0x208de);
    } else if cp == 0x2f9de {
        r.push(0x8ed4);
    } else if cp == 0x2f9df {
        r.push(0x8f38);
    } else if cp == 0x2f9e0 {
        r.push(0x285d2);
    } else if cp == 0x2f9e1 {
        r.push(0x285ed);
    } else if cp == 0x2f9e2 {
        r.push(0x9094);
    } else if cp == 0x2f9e3 {
        r.push(0x90f1);
    } else if cp == 0x2f9e4 {
        r.push(0x9111);
    } else if cp == 0x2f9e5 {
        r.push(0x2872e);
    } else if cp == 0x2f9e6 {
        r.push(0x911b);
    } else if cp == 0x2f9e7 {
        r.push(0x9238);
    } else if cp == 0x2f9e8 {
        r.push(0x92d7);
    } else if cp == 0x2f9e9 {
        r.push(0x92d8);
    } else if cp == 0x2f9ea {
        r.push(0x927c);
    } else if cp == 0x2f9eb {
        r.push(0x93f9);
    } else if cp == 0x2f9ec {
        r.push(0x9415);
    } else if cp == 0x2f9ed {
        r.push(0x28bfa);
    } else if cp == 0x2f9ee {
        r.push(0x958b);
    } else if cp == 0x2f9ef {
        r.push(0x4995);
    } else if cp == 0x2f9f0 {
        r.push(0x95b7);
    } else if cp == 0x2f9f1 {
        r.push(0x28d77);
    } else if cp == 0x2f9f2 {
        r.push(0x49e6);
    } else if cp == 0x2f9f3 {
        r.push(0x96c3);
    } else if cp == 0x2f9f4 {
        r.push(0x5db2);
    } else if cp == 0x2f9f5 {
        r.push(0x9723);
    } else if cp == 0x2f9f6 {
        r.push(0x29145);
    } else if cp == 0x2f9f7 {
        r.push(0x2921a);
    } else if cp == 0x2f9f8 {
        r.push(0x4a6e);
    } else if cp == 0x2f9f9 {
        r.push(0x4a76);
    } else if cp == 0x2f9fa {
        r.push(0x97e0);
    } else if cp == 0x2f9fb {
        r.push(0x2940a);
    } else if cp == 0x2f9fc {
        r.push(0x4ab2);
    } else if cp == 0x2f9fd {
        r.push(0x29496);
    } else if cp == 0x2f9fe {
        r.push(0x980b);
    } else if cp == 0x2f9ff {
        r.push(0x980b);
    } else {
        r.push(cp);
    }
}

pub open spec fn decomp_2fa(cp: u32) -> Seq<u32> {
    if cp == 0x2fa00 {
        seq![0x9829u32]
    } else if cp == 0x2fa01 {
        seq![0x295b6u32]
    } else if cp == 0x2fa02 {
        seq![0x98e2u32]
    } else if cp == 0x2fa03 {
        seq![0x4b33u32]
    } else if cp == 0x2fa04 {
        seq![0x9929u32]
    } else if cp == 0x2fa05 {
        seq![0x99a7u32]
    } else if cp == 0x2fa06 {
        seq![0x99c2u32]
    } else if cp == 0x2fa07 {
        seq![0x99feu32]
    } else if cp == 0x2fa08 {
        seq![0x4bceu32]
    } else if cp == 0x2fa09 {
        seq![0x29b30u32]
    } else if cp == 0x2fa0a {
        seq![0x9b12u32]
    } else if cp == 0x2fa0b {
        seq![0x9c40u32]
    } else if cp == 0x2fa0c {
        seq![0x9cfdu32]
    } else if cp == 0x2fa0d {
        seq![0x4cceu32]
    } else if cp == 0x2fa0e {
        seq![0x4cedu32]
    } else if cp == 0x2fa0f {
        seq![0x9d67u32]
    } else if cp == 0x2fa10 {
        seq![0x2a0ceu32]
    } else if cp == 0x2fa11 {
        seq![0x4cf8u32]
    } else if cp == 0x2fa12 {
        seq![0x2a105u32]
    } else if cp == 0x2fa13 {
        seq![0x2a20eu32]
    } else if cp == 0x2fa14 {
        seq![0x2a291u32]
    } else if cp == 0x2fa15 {
        seq![0x9ebbu32]
    } else if cp == 0x2fa16 {
        seq![0x4d56u32]
    } else if cp == 0x2fa17 {
        seq![0x9ef9u32]
    } else if cp == 0x2fa18 {
        seq![0x9efeu32]
    } else if cp == 0x2fa19 {
        seq![0x9f05u32]
    } else if cp == 0x2fa1a {
        seq![0x9f0fu32]
    } else if cp == 0x2fa1b {
        seq![0x9f16u32]
    } else if cp == 0x2fa1c {
        seq![0x9f3bu32]
    } else if cp == 0x2fa1d {
        seq![0x2a600u32]
    } else {
        seq![cp]
    }
}

fn push_decomp_2fa(r: &mut Vec<u32>, cp: u32)
    ensures
        final(r)@ == old(r)@ + decomp_2fa(cp),
{
    if cp == 0x2fa00 {
        r.push(0x9829);
    } else if cp == 0x2fa01 {
        r.push(0x295b6);
    } else if cp == 0x2fa02 {
        r.push(0x98e2);
    } else if cp == 0x2fa03 {
        r.push(0x4b33);
    } else if cp == 0x2fa04 {
        r.push(0x9929);
    } else if cp == 0x2fa05 {
        r.push(0x99a7);
    } else if cp == 0x2fa06 {
        r.push(0x99c2);
    } else if cp == 0x2fa07 {
        r.push(0x99fe);
    } else if cp == 0x2fa08 {
        r.push(0x4bce);
    } else if cp == 0x2fa09 {
        r.push(0x29b30);
    } else if cp == 0x2fa0a {
        r.push(0x9b12);
    } else if cp == 0x2fa0b {
        r.push(0x9c40);
    } else if cp == 0x2fa0c {
        r.push(0x9cfd);
    } else if cp == 0x2fa0d {
        r.push(0x4cce);
    } else if cp == 0x2fa0e {
        r.push(0x4ced);
    } else if cp == 0x2fa0f {
        r.push(0x9d67);
    } else if cp == 0x2fa10 {
        r.push(0x2a0ce);
    } else if cp == 0x2fa11 {
        r.push(0x4cf8);
    } else if cp == 0x2fa12 {
        r.push(0x2a105);
    } else if cp == 0x2fa13 {
        r.push(0x2a20e);
    } else if cp == 0x2fa14 {
        r.push(0x2a291);
    } else if cp == 0x2fa15 {
        r.push(0x9ebb);
    } else if cp == 0x2fa16 {
        r.push(0x4d56);
    } else if cp == 0x2fa17 {
        r.push(0x9ef9);
    } else if cp == 0x2fa18 {
        r.push(0x9efe);
    } else if cp == 0x2fa19 {
        r.push(0x9f05);
    } else if cp == 0x2fa1a {
        r.push(0x9f0f);
    } else if cp == 0x2fa1b {
        r.push(0x9f16);
    } else if cp == 0x2fa1c {
        r.push(0x9f3b);
    } else if cp == 0x2fa1d {
        r.push(0x2a600);
    } else {
        r.push(cp);
    }
}

/// The full canonical decomposition of a code point, already
/// transitively expanded; a code point with no canonical decomposition
/// expands to itself.  Hangul syllables are not covered here.
pub open spec fn decomp_of(cp: u32) -> Seq<u32> {
    if cp >> 8u32 == 0x0 {
        decomp_000(cp)
    } else if cp >> 8u32 == 0x1 {
        decomp_001(cp)
    } else if cp >> 8u32 == 0x2 {
        decomp_002(cp)
    } else if cp >> 8u32 == 0x3 {
        decomp_003(cp)
    } else if cp >> 8u32 == 0x4 {
        decomp_004(cp)
    } else if cp >> 8u32 == 0x6 {
        decomp_006(cp)
    } else if cp >> 8u32 == 0x9 {
        decomp_009(cp)
    } else if cp >> 8u32 == 0xa {
        decomp_00a(cp)
    } else if cp >> 8u32 == 0xb {
        decomp_00b(cp)
    } else if cp >> 8u32 == 0xc {
        decomp_00c(cp)
    } else if cp >> 8u32 == 0xd {
        decomp_00d(cp)
    } else if cp >> 8u32 == 0xf {
        decomp_00f(cp)
    } else if cp >> 8u32 == 0x10 {
        decomp_010(cp)
    } else if cp >> 8u32 == 0x1b {
        decomp_01b(cp)
    } else if cp >> 8u32 == 0x1e {
        decomp_01e(cp)
    } else if cp >> 8u32 == 0x1f {
        decomp_01f(cp)
    } else if cp >> 8u32 == 0x20 {
        decomp_020(cp)
    } else if cp >> 8u32 == 0x21 {
        decomp_021(cp)
    } else if cp >> 8u32 == 0x22 {
        decomp_022(cp)
    } else if cp >> 8u32 == 0x23 {
        decomp_023(cp)
    } else if cp >> 8u32 == 0x2a {
        decomp_02a(cp)
    } else if cp >> 8u32 == 0x30 {
        decomp_030(cp)
    } else if cp >> 8u32 == 0xf9 {
        decomp_0f9(cp)
    } else if cp >> 8u32 == 0xfa {
        decomp_0fa(cp)
    } else if cp >> 8u32 == 0xfb {
        decomp_0fb(cp)
    } else if cp >> 8u32 == 0x110 {
        decomp_110(cp)
    } else if cp >> 8u32 == 0x111 {
        decomp_111(cp)
    } else if cp >> 8u32 == 0x113 {
        decomp_113(cp)
    } else if cp >> 8u32 == 0x114 {
        decomp_114(cp)
    } else if cp >> 8u32 == 0x115 {
        decomp_115(cp)
    } else if cp >> 8u32 == 0x119 {
        decomp_119(cp)
    } else if cp >> 8u32 == 0x1d1 {
        decomp_1d1(cp)
    } else if cp >> 8u32 == 0x2f8 {
        decomp_2f8(cp)
    } else if cp >> 8u32 == 0x2f9 {
        decomp_2f9(cp)
    } else if cp >> 8u32 == 0x2fa {
        decomp_2fa(cp)
    } else {
        seq![cp]
    }
}

/// Appends the full canonical decomposition of `cp`.
pub fn push_decomp(r: &mut Vec<u32>, cp: u32)
    ensures
        final(r)@ == old(r)@ + decomp_of(cp),
{
    if cp >> 8u32 == 0x0 {
        push_decomp_000(r, cp);
    } else if cp >> 8u32 == 0x1 {
        push_decomp_001(r, cp);
    } else if cp >> 8u32 == 0x2 {
        push_decomp_002(r, cp);
    } else if cp >> 8u32 == 0x3 {
        push_decomp_003(r, cp);
    } else if cp >> 8u32 == 0x4 {
        push_decomp_004(r, cp);
    } else if cp >> 8u32 == 0x6 {
        push_decomp_006(r, cp);
    } else if cp >> 8u32 == 0x9 {
        push_decomp_009(r, cp);
    } else if cp >> 8u32 == 0xa {
        push_decomp_00a(r, cp);
    } else if cp >> 8u32 == 0xb {
        push_decomp_00b(r, cp);
    } else if cp >> 8u32 == 0xc {
        push_decomp_00c(r, cp);
    } else if cp >> 8u32 == 0xd {
        push_decomp_00d(r, cp);
    } else if cp >> 8u32 == 0xf {
        push_decomp_00f(r, cp);
    } else if cp >> 8u32 == 0x10 {
        push_decomp_010(r, cp);
    } else if cp >> 8u32 == 0x1b {
        push_decomp_01b(r, cp);
    } else if cp >> 8u32 == 0x1e {
        push_decomp_01e(r, cp);
    } else if cp >> 8u32 == 0x1f {
        push_decomp_01f(r, cp);
    } else if cp >> 8u32 == 0x20 {
        push_decomp_020(r, cp);
    } else if cp >> 8u32 == 0x21 {
        push_decomp_021(r, cp);
    } else if cp >> 8u32 == 0x22 {
        push_decomp_022(r, cp);
    } else if cp >> 8u32 == 0x23 {
        push_decomp_023(r, cp);
    } else if cp >> 8u32 == 0x2a {
        push_decomp_02a(r, cp);
    } else if cp >> 8u32 == 0x30 {
        push_decomp_030(r, cp);
    } else if cp >> 8u32 == 0xf9 {
        push_decomp_0f9(r, cp);
    } else if cp >> 8u32 == 0xfa {
        push_decomp_0fa(r, cp);
    } else if cp >> 8u32 == 0xfb {
        push_decomp_0fb(r, cp);
    } else if cp >> 8u32 == 0x110 {
        push_decomp_110(r, cp);
    } else if cp >> 8u32 == 0x111 {
        push_decomp_111(r, cp);
    } else if cp >> 8u32 == 0x113 {
        push_decomp_113(r, cp);
    } else if cp >> 8u32 == 0x114 {
        push_decomp_114(r, cp);
    } else if cp >> 8u32 == 0x115 {
        push_decomp_115(r, cp);
    } else if cp >> 8u32 == 0x119 {
        push_decomp_119(r, cp);
    } else if cp >> 8u32 == 0x1d1 {
        push_decomp_1d1(r, cp);
    } else if cp >> 8u32 == 0x2f8 {
        push_decomp_2f8(r, cp);
    } else if cp >> 8u32 == 0x2f9 {
        push_decomp_2f9(r, cp);
    } else if cp >> 8u32 == 0x2fa {
        push_decomp_2fa(r, cp);
    } else {
        r.push(cp);
    }
}

/// Length of the full canonical decomposition of `cp`.
pub fn decomp_len(cp: u32) -> (r: usize)
    ensures
        r == decomp_of(cp).len(),
        1 <= r <= 4,
{
    let mut v: Vec<u32> = Vec::new();
    push_decomp(&mut v, cp);
    proof {
        lemma_decomp_len(cp);
        assert(v@ =~= decomp_of(cp));
    }
    v.len()
}

/// Every decomposition expands to between one and four code points.
pub proof fn lemma_decomp_len(cp: u32)
    ensures
        1 <= decomp_of(cp).len() <= 4,
{
}

pub open spec fn compose_000(a: u32, b: u32) -> Option<u32> {
    if a == 0x3c {
        if b == 0x338 {
            Some(0x226eu32)
        } else {
            None
        }
    } else if a == 0x3d {
        if b == 0x338 {
            Some(0x2260u32)
        } else {
            None
        }
    } else if a == 0x3e {
        if b == 0x338 {
            Some(0x226fu32)
        } else {
            None
        }
    } else if a == 0x41 {
        if b == 0x300 {
            Some(0xc0u32)
        } else if b == 0x301 {
            Some(0xc1u32)
        } else if b == 0x302 {
            Some(0xc2u32)
        } else if b == 0x303 {
            Some(0xc3u32)
        } else if b == 0x304 {
            Some(0x100u32)
        } else if b == 0x306 {
            Some(0x102u32)
        } else if b == 0x307 {
            Some(0x226u32)
        } else if b == 0x308 {
            Some(0xc4u32)
        } else if b == 0x309 {
            Some(0x1ea2u32)
        } else if b == 0x30a {
            Some(0xc5u32)
        } else if b == 0x30c {
            Some(0x1cdu32)
        } else if b == 0x30f {
            Some(0x200u32)
        } else if b == 0x311 {
            Some(0x202u32)
        } else if b == 0x323 {
            Some(0x1ea0u32)
        } else if b == 0x325 {
            Some(0x1e00u32)
        } else if b == 0x328 {
            Some(0x104u32)
        } else {
            None
        }
    } else if a == 0x42 {
        if b == 0x307 {
            Some(0x1e02u32)
        } else if b == 0x323 {
            Some(0x1e04u32)
        } else if b == 0x331 {
            Some(0x1e06u32)
        } else {
            None
        }
    } else if a == 0x43 {
        if b == 0x301 {
            Some(0x106u32)
        } else if b == 0x302 {
            Some(0x108u32)
        } else if b == 0x307 {
            Some(0x10au32)
        } else if b == 0x30c {
            Some(0x10cu32)
        } else if b == 0x327 {
            Some(0xc7u32)
        } else {
            None
        }
    } else if a == 0x44 {
        if b == 0x307 {
            Some(0x1e0au32)
        } else if b == 0x30c {
            Some(0x10eu32)
        } else if b == 0x323 {
            Some(0x1e0cu32)
        } else if b == 0x327 {
            Some(0x1e10u32)
        } else if b == 0x32d {
            Some(0x1e12u32)
        } else if b == 0x331 {
            Some(0x1e0eu32)
        } else {
            None
        }
    } else if a == 0x45 {
        if b == 0x300 {
            Some(0xc8u32)
        } else if b == 0x301 {
            Some(0xc9u32)
        } else if b == 0x302 {
            Some(0xcau32)
        } else if b == 0x303 {
            Some(0x1ebcu32)
        } else if b == 0x304 {
            Some(0x112u32)
        } else if b == 0x306 {
            Some(0x114u32)
        } else if b == 0x307 {
            Some(0x116u32)
        } else if b == 0x308 {
            Some(0xcbu32)
        } else if b == 0x309 {
            Some(0x1ebau32)
        } else if b == 0x30c {
            Some(0x11au32)
        } else if b == 0x30f {
            Some(0x204u32)
        } else if b == 0x311 {
            Some(0x206u32)
        } else if b == 0x323 {
            Some(0x1eb8u32)
        } else if b == 0x327 {
            Some(0x228u32)
        } else if b == 0x328 {
            Some(0x118u32)
        } else if b == 0x32d {
            Some(0x1e18u32)
        } else if b == 0x330 {
            Some(0x1e1au32)
        } else {
            None
        }
    } else if a == 0x46 {
        if b == 0x307 {
            Some(0x1e1eu32)
        } else {
            None
        }
    } else if a == 0x47 {
        if b == 0x301 {
            Some(0x1f4u32)
        } else if b == 0x302 {
            Some(0x11cu32)
        } else if b == 0x304 {
            Some(0x1e20u32)
        } else if b == 0x306 {
            Some(0x11eu32)
        } else if b == 0x307 {
            Some(0x120u32)
        } else if b == 0x30c {
            Some(0x1e6u32)
        } else if b == 0x327 {
            Some(0x122u32)
        } else {
            None
        }
    } else if a == 0x48 {
        if b == 0x302 {
            Some(0x124u32)
        } else if b == 0x307 {
            Some(0x1e22u32)
        } else if b == 0x308 {
            Some(0x1e26u32)
        } else if b == 0x30c {
            Some(0x21eu32)
        } else if b == 0x323 {
            Some(0x1e24u32)
        } else if b == 0x327 {
            Some(0x1e28u32)
        } else if b == 0x32e {
            Some(0x1e2au32)
        } else {
            None
        }
    } else if a == 0x49 {
        if b == 0x300 {
            Some(0xccu32)
        } else if b == 0x301 {
            Some(0xcdu32)
        } else if b == 0x302 {
            Some(0xceu32)
        } else if b == 0x303 {
            Some(0x128u32)
        } else if b == 0x304 {
            Some(0x12au32)
        } else if b == 0x306 {
            Some(0x12cu32)
        } else if b == 0x307 {
            Some(0x130u32)
        } else if b == 0x308 {
            Some(0xcfu32)
        } else if b == 0x309 {
            Some(0x1ec8u32)
        } else if b == 0x30c {
            Some(0x1cfu32)
        } else if b == 0x30f {
            Some(0x208u32)
        } else if b == 0x311 {
            Some(0x20au32)
        } else if b == 0x323 {
            Some(0x1ecau32)
        } else if b == 0x328 {
            Some(0x12eu32)
        } else if b == 0x330 {
            Some(0x1e2cu32)
        } else {
            None
        }
    } else if a == 0x4a {
        if b == 0x302 {
            Some(0x134u32)
        } else {
            None
        }
    } else if a == 0x4b {
        if b == 0x301 {
            Some(0x1e30u32)
        } else if b == 0x30c {
            Some(0x1e8u32)
        } else if b == 0x323 {
            Some(0x1e32u32)
        } else if b == 0x327 {
            Some(0x136u32)
        } else if b == 0x331 {
            Some(0x1e34u32)
        } else {
            None
        }
    } else if a == 0x4c {
        if b == 0x301 {
            Some(0x139u32)
        } else if b == 0x30c {
            Some(0x13du32)
        } else if b == 0x323 {
            Some(0x1e36u32)
        } else if b == 0x327 {
            Some(0x13bu32)
        } else if b == 0x32d {
            Some(0x1e3cu32)
        } else if b == 0x331 {
            Some(0x1e3au32)
        } else {
            None
        }
    } else if a == 0x4d {
        if b == 0x301 {
            Some(0x1e3eu32)
        } else if b == 0x307 {
            Some(0x1e40u32)
        } else if b == 0x323 {
            Some(0x1e42u32)
        } else {
            None
        }
    } else if a == 0x4e {
        if b == 0x300 {
            Some(0x1f8u32)
        } else if b == 0x301 {
            Some(0x143u32)
        } else if b == 0x303 {
            Some(0xd1u32)
        } else if b == 0x307 {
            Some(0x1e44u32)
        } else if b == 0x30c {
            Some(0x147u32)
        } else if b == 0x323 {
            Some(0x1e46u32)
        } else if b == 0x327 {
            Some(0x145u32)
        } else if b == 0x32d {
            Some(0x1e4au32)
        } else if b == 0x331 {
            Some(0x1e48u32)
        } else {
            None
        }
    } else if a == 0x4f {
        if b == 0x300 {
            Some(0xd2u32)
        } else if b == 0x301 {
            Some(0xd3u32)
        } else if b == 0x302 {
            Some(0xd4u32)
        } else if b == 0x303 {
            Some(0xd5u32)
        } else if b == 0x304 {
            Some(0x14cu32)
        } else if b == 0x306 {
            Some(0x14eu32)
        } else if b == 0x307 {
            Some(0x22eu32)
        } else if b == 0x308 {
            Some(0xd6u32)
        } else if b == 0x309 {
            Some(0x1eceu32)
        } else if b == 0x30b {
            Some(0x150u32)
        } else if b == 0x30c {
            Some(0x1d1u32)
        } else if b == 0x30f {
            Some(0x20cu32)
        } else if b == 0x311 {
            Some(0x20eu32)
        } else if b == 0x31b {
            Some(0x1a0u32)
        } else if b == 0x323 {
            Some(0x1eccu32)
        } else if b == 0x328 {
            Some(0x1eau32)
        } else {
            None
        }
    } else if a == 0x50 {
        if b == 0x301 {
            Some(0x1e54u32)
        } else if b == 0x307 {
            Some(0x1e56u32)
        } else {
            None
        }
    } else if a == 0x52 {
        if b == 0x301 {
            Some(0x154u32)
        } else if b == 0x307 {
            Some(0x1e58u32)
        } else if b == 0x30c {
            Some(0x158u32)
        } else if b == 0x30f {
            Some(0x210u32)
        } else if b == 0x311 {
            Some(0x212u32)
        } else if b == 0x323 {
            Some(0x1e5au32)
        } else if b == 0x327 {
            Some(0x156u32)
        } else if b == 0x331 {
            Some(0x1e5eu32)
        } else {
            None
        }
    } else if a == 0x53 {
        if b == 0x301 {
            Some(0x15au32)
        } else if b == 0x302 {
            Some(0x15cu32)
        } else if b == 0x307 {
            Some(0x1e60u32)
        } else if b == 0x30c {
            Some(0x160u32)
        } else if b == 0x323 {
            Some(0x1e62u32)
        } else if b == 0x326 {
            Some(0x218u32)
        } else if b == 0x327 {
            Some(0x15eu32)
        } else {
            None
        }
    } else if a == 0x54 {
        if b == 0x307 {
            Some(0x1e6au32)
        } else if b == 0x30c {
            Some(0x164u32)
        } else if b == 0x323 {
            Some(0x1e6cu32)
        } else if b == 0x326 {
            Some(0x21au32)
        } else if b == 0x327 {
            Some(0x162u32)
        } else if b == 0x32d {
            Some(0x1e70u32)
        } else if b == 0x331 {
            Some(0x1e6eu32)
        } else {
            None
        }
    } else if a == 0x55 {
        if b == 0x300 {
            Some(0xd9u32)
        } else if b == 0x301 {
            Some(0xdau32)
        } else if b == 0x302 {
            Some(0xdbu32)
        } else if b == 0x303 {
            Some(0x168u32)
        } else if b == 0x304 {
            Some(0x16au32)
        } else if b == 0x306 {
            Some(0x16cu32)
        } else if b == 0x308 {
            Some(0xdcu32)
        } else if b == 0x309 {
            Some(0x1ee6u32)
        } else if b == 0x30a {
            Some(0x16eu32)
        } else if b == 0x30b {
            Some(0x170u32)
        } else if b == 0x30c {
            Some(0x1d3u32)
        } else if b == 0x30f {
            Some(0x214u32)
        } else if b == 0x311 {
            Some(0x216u32)
        } else if b == 0x31b {
            Some(0x1afu32)
        } else if b == 0x323 {
            Some(0x1ee4u32)
        } else if b == 0x324 {
            Some(0x1e72u32)
        } else if b == 0x328 {
            Some(0x172u32)
        } else if b == 0x32d {
            Some(0x1e76u32)
        } else if b == 0x330 {
            Some(0x1e74u32)
        } else {
            None
        }
    } else if a == 0x56 {
        if b == 0x303 {
            Some(0x1e7cu32)
        } else if b == 0x323 {
            Some(0x1e7eu32)
        } else {
            None
        }
    } else if a == 0x57 {
        if b == 0x300 {
            Some(0x1e80u32)
        } else if b == 0x301 {
            Some(0x1e82u32)
        } else if b == 0x302 {
            Some(0x174u32)
        } else if b == 0x307 {
            Some(0x1e86u32)
        } else if b == 0x308 {
            Some(0x1e84u32)
        } else if b == 0x323 {
            Some(0x1e88u32)
        } else {
            None
        }
    } else if a == 0x58 {
        if b == 0x307 {
            Some(0x1e8au32)
        } else if b == 0x308 {
            Some(0x1e8cu32)
        } else {
            None
        }
    } else if a == 0x59 {
        if b == 0x300 {
            Some(0x1ef2u32)
        } else if b == 0x301 {
            Some(0xddu32)
        } else if b == 0x302 {
            Some(0x176u32)
        } else if b == 0x303 {
            Some(0x1ef8u32)
        } else if b == 0x304 {
            Some(0x232u32)
        } else if b == 0x307 {
            Some(0x1e8eu32)
        } else if b == 0x308 {
            Some(0x178u32)
        } else if b == 0x309 {
            Some(0x1ef6u32)
        } else if b == 0x323 {
            Some(0x1ef4u32)
        } else {
            None
        }
    } else if a == 0x5a {
        if b == 0x301 {
            Some(0x179u32)
        } else if b == 0x302 {
            Some(0x1e90u32)
        } else if b == 0x307 {
            Some(0x17bu32)
        } else if b == 0x30c {
            Some(0x17du32)
        } else if b == 0x323 {
            Some(0x1e92u32)
        } else if b == 0x331 {
            Some(0x1e94u32)
        } else {
            None
        }
    } else if a == 0x61 {
        if b == 0x300 {
            Some(0xe0u32)
        } else if b == 0x301 {
            Some(0xe1u32)
        } else if b == 0x302 {
            Some(0xe2u32)
        } else if b == 0x303 {
            Some(0xe3u32)
        } else if b == 0x304 {
            Some(0x101u32)
        } else if b == 0x306 {
            Some(0x103u32)
        } else if b == 0x307 {
            Some(0x227u32)
        } else if b == 0x308 {
            Some(0xe4u32)
        } else if b == 0x309 {
            Some(0x1ea3u32)
        } else if b == 0x30a {
            Some(0xe5u32)
        } else if b == 0x30c {
            Some(0x1ceu32)
        } else if b == 0x30f {
            Some(0x201u32)
        } else if b == 0x311 {
            Some(0x203u32)
        } else if b == 0x323 {
            Some(0x1ea1u32)
        } else if b == 0x325 {
            Some(0x1e01u32)
        } else if b == 0x328 {
            Some(0x105u32)
        } else {
            None
        }
    } else if a == 0x62 {
        if b == 0x307 {
            Some(0x1e03u32)
        } else if b == 0x323 {
            Some(0x1e05u32)
        } else if b == 0x331 {
            Some(0x1e07u32)
        } else {
            None
        }
    } else if a == 0x63 {
        if b == 0x301 {
            Some(0x107u32)
        } else if b == 0x302 {
            Some(0x109u32)
        } else if b == 0x307 {
            Some(0x10bu32)
        } else if b == 0x30c {
            Some(0x10du32)
        } else if b == 0x327 {
            Some(0xe7u32)
        } else {
            None
        }
    } else if a == 0x64 {
        if b == 0x307 {
            Some(0x1e0bu32)
        } else if b == 0x30c {
            Some(0x10fu32)
        } else if b == 0x323 {
            Some(0x1e0du32)
        } else if b == 0x327 {
            Some(0x1e11u32)
        } else if b == 0x32d {
            Some(0x1e13u32)
        } else if b == 0x331 {
            Some(0x1e0fu32)
        } else {
            None
        }
    } else if a == 0x65 {
        if b == 0x300 {
            Some(0xe8u32)
        } else if b == 0x301 {
            Some(0xe9u32)
        } else if b == 0x302 {
            Some(0xeau32)
        } else if b == 0x303 {
            Some(0x1ebdu32)
        } else if b == 0x304 {
            Some(0x113u32)
        } else if b == 0x306 {
            Some(0x115u32)
        } else if b == 0x307 {
            Some(0x117u32)
        } else if b == 0x308 {
            Some(0xebu32)
        } else if b == 0x309 {
            Some(0x1ebbu32)
        } else if b == 0x30c {
            Some(0x11bu32)
        } else if b == 0x30f {
            Some(0x205u32)
        } else if b == 0x311 {
            Some(0x207u32)
        } else if b == 0x323 {
            Some(0x1eb9u32)
        } else if b == 0x327 {
            Some(0x229u32)
        } else if b == 0x328 {
            Some(0x119u32)
        } else if b == 0x32d {
            Some(0x1e19u32)
        } else if b == 0x330 {
            Some(0x1e1bu32)
        } else {
            None
        }
    } else if a == 0x66 {
        if b == 0x307 {
            Some(0x1e1fu32)
        } else {
            None
        }
    } else if a == 0x67 {
        if b == 0x301 {
            Some(0x1f5u32)
        } else if b == 0x302 {
            Some(0x11du32)
        } else if b == 0x304 {
            Some(0x1e21u32)
        } else if b == 0x306 {
            Some(0x11fu32)
        } else if b == 0x307 {
            Some(0x121u32)
        } else if b == 0x30c {
            Some(0x1e7u32)
        } else if b == 0x327 {
            Some(0x123u32)
        } else {
            None
        }
    } else if a == 0x68 {
        if b == 0x302 {
            Some(0x125u32)
        } else if b == 0x307 {
            Some(0x1e23u32)
        } else if b == 0x308 {
            Some(0x1e27u32)
        } else if b == 0x30c {
            Some(0x21fu32)
        } else if b == 0x323 {
            Some(0x1e25u32)
        } else if b == 0x327 {
            Some(0x1e29u32)
        } else if b == 0x32e {
            Some(0x1e2bu32)
        } else if b == 0x331 {
            Some(0x1e96u32)
        } else {
            None
        }
    } else if a == 0x69 {
        if b == 0x300 {
            Some(0xecu32)
        } else if b == 0x301 {
            Some(0xedu32)
        } else if b == 0x302 {
            Some(0xeeu32)
        } else if b == 0x303 {
            Some(0x129u32)
        } else if b == 0x304 {
            Some(0x12bu32)
        } else if b == 0x306 {
            Some(0x12du32)
        } else if b == 0x308 {
            Some(0xefu32)
        } else if b == 0x309 {
            Some(0x1ec9u32)
        } else if b == 0x30c {
            Some(0x1d0u32)
        } else if b == 0x30f {
            Some(0x209u32)
        } else if b == 0x311 {
            Some(0x20bu32)
        } else if b == 0x323 {
            Some(0x1ecbu32)
        } else if b == 0x328 {
            Some(0x12fu32)
        } else if b == 0x330 {
            Some(0x1e2du32)
        } else {
            None
        }
    } else if a == 0x6a {
        if b == 0x302 {
            Some(0x135u32)
        } else if b == 0x30c {
            Some(0x1f0u32)
        } else {
            None
        }
    } else if a == 0x6b {
        if b == 0x301 {
            Some(0x1e31u32)
        } else if b == 0x30c {
            Some(0x1e9u32)
        } else if b == 0x323 {
            Some(0x1e33u32)
        } else if b == 0x327 {
            Some(0x137u32)
        } else if b == 0x331 {
            Some(0x1e35u32)
        } else {
            None
        }
    } else if a == 0x6c {
        if b == 0x301 {
            Some(0x13au32)
        } else if b == 0x30c {
            Some(0x13eu32)
        } else if b == 0x323 {
            Some(0x1e37u32)
        } else if b == 0x327 {
            Some(0x13cu32)
        } else if b == 0x32d {
            Some(0x1e3du32)
        } else if b == 0x331 {
            Some(0x1e3bu32)
        } else {
            None
        }
    } else if a == 0x6d {
        if b == 0x301 {
            Some(0x1e3fu32)
        } else if b == 0x307 {
            Some(0x1e41u32)
        } else if b == 0x323 {
            Some(0x1e43u32)
        } else {
            None
        }
    } else if a == 0x6e {
        if b == 0x300 {
            Some(0x1f9u32)
        } else if b == 0x301 {
            Some(0x144u32)
        } else if b == 0x303 {
            Some(0xf1u32)
        } else if b == 0x307 {
            Some(0x1e45u32)
        } else if b == 0x30c {
            Some(0x148u32)
        } else if b == 0x323 {
            Some(0x1e47u32)
        } else if b == 0x327 {
            Some(0x146u32)
        } else if b == 0x32d {
            Some(0x1e4bu32)
        } else if b == 0x331 {
            Some(0x1e49u32)
        } else {
            None
        }
    } else if a == 0x6f {
        if b == 0x300 {
            Some(0xf2u32)
        } else if b == 0x301 {
            Some(0xf3u32)
        } else if b == 0x302 {
            Some(0xf4u32)
        } else if b == 0x303 {
            Some(0xf5u32)
        } else if b == 0x304 {
            Some(0x14du32)
        } else if b == 0x306 {
            Some(0x14fu32)
        } else if b == 0x307 {
            Some(0x22fu32)
        } else if b == 0x308 {
            Some(0xf6u32)
        } else if b == 0x309 {
            Some(0x1ecfu32)
        } else if b == 0x30b {
            Some(0x151u32)
        } else if b == 0x30c {
            Some(0x1d2u32)
        } else if b == 0x30f {
            Some(0x20du32)
        } else if b == 0x311 {
            Some(0x20fu32)
        } else if b == 0x31b {
            Some(0x1a1u32)
        } else if b == 0x323 {
            Some(0x1ecdu32)
        } else if b == 0x328 {
            Some(0x1ebu32)
        } else {
            None
        }
    } else if a == 0x70 {
        if b == 0x301 {
            Some(0x1e55u32)
        } else if b == 0x307 {
            Some(0x1e57u32)
        } else {
            None
        }
    } else if a == 0x72 {
        if b == 0x301 {
            Some(0x155u32)
        } else if b == 0x307 {
            Some(0x1e59u32)
        } else if b == 0x30c {
            Some(0x159u32)
        } else if b == 0x30f {
            Some(0x211u32)
        } else if b == 0x311 {
            Some(0x213u32)
        } else if b == 0x323 {
            Some(0x1e5bu32)
        } else if b == 0x327 {
            Some(0x157u32)
        } else if b == 0x331 {
            Some(0x1e5fu32)
        } else {
            None
        }
    } else if a == 0x73 {
        if b == 0x301 {
            Some(0x15bu32)
        } else if b == 0x302 {
            Some(0x15du32)
        } else if b == 0x307 {
            Some(0x1e61u32)
        } else if b == 0x30c {
            Some(0x161u32)
        } else if b == 0x323 {
            Some(0x1e63u32)
        } else if b == 0x326 {
            Some(0x219u32)
        } else if b == 0x327 {
            Some(0x15fu32)
        } else {
            None
        }
    } else if a == 0x74 {
        if b == 0x307 {
            Some(0x1e6bu32)
        } else if b == 0x308 {
            Some(0x1e97u32)
        } else if b == 0x30c {
            Some(0x165u32)
        } else if b == 0x323 {
            Some(0x1e6du32)
        } else if b == 0x326 {
            Some(0x21bu32)
        } else if b == 0x327 {
            Some(0x163u32)
        } else if b == 0x32d {
            Some(0x1e71u32)
        } else if b == 0x331 {
            Some(0x1e6fu32)
        } else {
            None
        }
    } else if a == 0x75 {
        if b == 0x300 {
            Some(0xf9u32)
        } else if b == 0x301 {
            Some(0xfau32)
        } else if b == 0x302 {
            Some(0xfbu32)
        } else if b == 0x303 {
            Some(0x169u32)
        } else if b == 0x304 {
            Some(0x16bu32)
        } else if b == 0x306 {
            Some(0x16du32)
        } else if b == 0x308 {
            Some(0xfcu32)
        } else if b == 0x309 {
            Some(0x1ee7u32)
        } else if b == 0x30a {
            Some(0x16fu32)
        } else if b == 0x30b {
            Some(0x171u32)
        } else if b == 0x30c {
            Some(0x1d4u32)
        } else if b == 0x30f {
            Some(0x215u32)
        } else if b == 0x311 {
            Some(0x217u32)
        } else if b == 0x31b {
            Some(0x1b0u32)
        } else if b == 0x323 {
            Some(0x1ee5u32)
        } else if b == 0x324 {
            Some(0x1e73u32)
        } else if b == 0x328 {
            Some(0x173u32)
        } else if b == 0x32d {
            Some(0x1e77u32)
        } else if b == 0x330 {
            Some(0x1e75u32)
        } else {
            None
        }
    } else if a == 0x76 {
        if b == 0x303 {
            Some(0x1e7du32)
        } else if b == 0x323 {
            Some(0x1e7fu32)
        } else {
            None
        }
    } else if a == 0x77 {
        if b == 0x300 {
            Some(0x1e81u32)
        } else if b == 0x301 {
            Some(0x1e83u32)
        } else if b == 0x302 {
            Some(0x175u32)
        } else if b == 0x307 {
            Some(0x1e87u32)
        } else if b == 0x308 {
            Some(0x1e85u32)
        } else if b == 0x30a {
            Some(0x1e98u32)
        } else if b == 0x323 {
            Some(0x1e89u32)
        } else {
            None
        }
    } else if a == 0x78 {
        if b == 0x307 {
            Some(0x1e8bu32)
        } else if b == 0x308 {
            Some(0x1e8du32)
        } else {
            None
        }
    } else if a == 0x79 {
        if b == 0x300 {
            Some(0x1ef3u32)
        } else if b == 0x301 {
            Some(0xfdu32)
        } else if b == 0x302 {
            Some(0x177u32)
        } else if b == 0x303 {
            Some(0x1ef9u32)
        } else if b == 0x304 {
            Some(0x233u32)
        } else if b == 0x307 {
            Some(0x1e8fu32)
        } else if b == 0x308 {
            Some(0xffu32)
        } else if b == 0x309 {
            Some(0x1ef7u32)
        } else if b == 0x30a {
            Some(0x1e99u32)
        } else if b == 0x323 {
            Some(0x1ef5u32)
        } else {
            None
        }
    } else if a == 0x7a {
        if b == 0x301 {
            Some(0x17au32)
        } else if b == 0x302 {
            Some(0x1e91u32)
        } else if b == 0x307 {
            Some(0x17cu32)
        } else if b == 0x30c {
            Some(0x17eu32)
        } else if b == 0x323 {
            Some(0x1e93u32)
        } else if b == 0x331 {
            Some(0x1e95u32)
        } else {
            None
        }
    } else if a == 0xa8 {
        if b == 0x300 {
            Some(0x1fedu32)
        } else if b == 0x301 {
            Some(0x385u32)
        } else if b == 0x342 {
            Some(0x1fc1u32)
        } else {
            None
        }
    } else if a == 0xc2 {
        if b == 0x300 {
            Some(0x1ea6u32)
        } else if b == 0x301 {
            Some(0x1ea4u32)
        } else if b == 0x303 {
            Some(0x1eaau32)
        } else if b == 0x309 {
            Some(0x1ea8u32)
        } else {
            None
        }
    } else if a == 0xc4 {
        if b == 0x304 {
            Some(0x1deu32)
        } else {
            None
        }
    } else if a == 0xc5 {
        if b == 0x301 {
            Some(0x1fau32)
        } else {
            None
        }
    } else if a == 0xc6 {
        if b == 0x301 {
            Some(0x1fcu32)
        } else if b == 0x304 {
            Some(0x1e2u32)
        } else {
            None
        }
    } else if a == 0xc7 {
        if b == 0x301 {
            Some(0x1e08u32)
        } else {
            None
        }
    } else if a == 0xca {
        if b == 0x300 {
            Some(0x1ec0u32)
        } else if b == 0x301 {
            Some(0x1ebeu32)
        } else if b == 0x303 {
            Some(0x1ec4u32)
        } else if b == 0x309 {
            Some(0x1ec2u32)
        } else {
            None
        }
    } else if a == 0xcf {
        if b == 0x301 {
            Some(0x1e2eu32)
        } else {
            None
        }
    } else if a == 0xd4 {
        if b == 0x300 {
            Some(0x1ed2u32)
        } else if b == 0x301 {
            Some(0x1ed0u32)
        } else if b == 0x303 {
            Some(0x1ed6u32)
        } else if b == 0x309 {
            Some(0x1ed4u32)
        } else {
            None
        }
    } else if a == 0xd5 {
        if b == 0x301 {
            Some(0x1e4cu32)
        } else if b == 0x304 {
            Some(0x22cu32)
        } else if b == 0x308 {
            Some(0x1e4eu32)
        } else {
            None
        }
    } else if a == 0xd6 {
        if b == 0x304 {
            Some(0x22au32)
        } else {
            None
        }
    } else if a == 0xd8 {
        if b == 0x301 {
            Some(0x1feu32)
        } else {
            None
        }
    } else if a == 0xdc {
        if b == 0x300 {
            Some(0x1dbu32)
        } else if b == 0x301 {
            Some(0x1d7u32)
        } else if b == 0x304 {
            Some(0x1d5u32)
        } else if b == 0x30c {
            Some(0x1d9u32)
        } else {
            None
        }
    } else if a == 0xe2 {
        if b == 0x300 {
            Some(0x1ea7u32)
        } else if b == 0x301 {
            Some(0x1ea5u32)
        } else if b == 0x303 {
            Some(0x1eabu32)
        } else if b == 0x309 {
            Some(0x1ea9u32)
        } else {
            None
        }
    } else if a == 0xe4 {
        if b == 0x304 {
            Some(0x1dfu32)
        } else {
            None
        }
    } else if a == 0xe5 {
        if b == 0x301 {
            Some(0x1fbu32)
        } else {
            None
        }
    } else if a == 0xe6 {
        if b == 0x301 {
            Some(0x1fdu32)
        } else if b == 0x304 {
            Some(0x1e3u32)
        } else {
            None
        }
    } else if a == 0xe7 {
        if b == 0x301 {
            Some(0x1e09u32)
        } else {
            None
        }
    } else if a == 0xea {
        if b == 0x300 {
            Some(0x1ec1u32)
        } else if b == 0x301 {
            Some(0x1ebfu32)
        } else if b == 0x303 {
            Some(0x1ec5u32)
        } else if b == 0x309 {
            Some(0x1ec3u32)
        } else {
            None
        }
    } else if a == 0xef {
        if b == 0x301 {
            Some(0x1e2fu32)
        } else {
            None
        }
    } else if a == 0xf4 {
        if b == 0x300 {
            Some(0x1ed3u32)
        } else if b == 0x301 {
            Some(0x1ed1u32)
        } else if b == 0x303 {
            Some(0x1ed7u32)
        } else if b == 0x309 {
            Some(0x1ed5u32)
        } else {
            None
        }
    } else if a == 0xf5 {
        if b == 0x301 {
            Some(0x1e4du32)
        } else if b == 0x304 {
            Some(0x22du32)
        } else if b == 0x308 {
            Some(0x1e4fu32)
        } else {
            None
        }
    } else if a == 0xf6 {
        if b == 0x304 {
            Some(0x22bu32)
        } else {
            None
        }
    } else if a == 0xf8 {
        if b == 0x301 {
            Some(0x1ffu32)
        } else {
            None
        }
    } else if a == 0xfc {
        if b == 0x300 {
            Some(0x1dcu32)
        } else if b == 0x301 {
            Some(0x1d8u32)
        } else if b == 0x304 {
            Some(0x1d6u32)
        } else if b == 0x30c {
            Some(0x1dau32)
        } else {
            None
        }
    } else {
        None
    }
}

fn compose_pair_000(a: u32, b: u32) -> (r: Option<u32>)
    ensures
        r == compose_000(a, b),
{
    if a == 0x3c {
        if b == 0x338 {
            Some(0x226e)
        } else {
            None
        }
    } else if a == 0x3d {
        if b == 0x338 {
            Some(0x2260)
        } else {
            None
        }
    } else if a == 0x3e {
        if b == 0x338 {
            Some(0x226f)
        } else {
            None
        }
    } else if a == 0x41 {
        if b == 0x300 {
            Some(0xc0)
        } else if b == 0x301 {
            Some(0xc1)
        } else if b == 0x302 {
            Some(0xc2)
        } else if b == 0x303 {
            Some(0xc3)
        } else if b == 0x304 {
            Some(0x100)
        } else if b == 0x306 {
            Some(0x102)
        } else if b == 0x307 {
            Some(0x226)
        } else if b == 0x308 {
            Some(0xc4)
        } else if b == 0x309 {
            Some(0x1ea2)
        } else if b == 0x30a {
            Some(0xc5)
        } else if b == 0x30c {
            Some(0x1cd)
        } else if b == 0x30f {
            Some(0x200)
        } else if b == 0x311 {
            Some(0x202)
        } else if b == 0x323 {
            Some(0x1ea0)
        } else if b == 0x325 {
            Some(0x1e00)
        } else if b == 0x328 {
            Some(0x104)
        } else {
            None
        }
    } else if a == 0x42 {
        if b == 0x307 {
            Some(0x1e02)
        } else if b == 0x323 {
            Some(0x1e04)
        } else if b == 0x331 {
            Some(0x1e06)
        } else {
            None
        }
    } else if a == 0x43 {
        if b == 0x301 {
            Some(0x106)
        } else if b == 0x302 {
            Some(0x108)
        } else if b == 0x307 {
            Some(0x10a)
        } else if b == 0x30c {
            Some(0x10c)
        } else if b == 0x327 {
            Some(0xc7)
        } else {
            None
        }
    } else if a == 0x44 {
        if b == 0x307 {
            Some(0x1e0a)
        } else if b == 0x30c {
            Some(0x10e)
        } else if b == 0x323 {
            Some(0x1e0c)
        } else if b == 0x327 {
            Some(0x1e10)
        } else if b == 0x32d {
            Some(0x1e12)
        } else if b == 0x331 {
            Some(0x1e0e)
        } else {
            None
        }
    } else if a == 0x45 {
        if b == 0x300 {
            Some(0xc8)
        } else if b == 0x301 {
            Some(0xc9)
        } else if b == 0x302 {
            Some(0xca)
        } else if b == 0x303 {
            Some(0x1ebc)
        } else if b == 0x304 {
            Some(0x112)
        } else if b == 0x306 {
            Some(0x114)
        } else if b == 0x307 {
            Some(0x116)
        } else if b == 0x308 {
            Some(0xcb)
        } else if b == 0x309 {
            Some(0x1eba)
        } else if b == 0x30c {
            Some(0x11a)
        } else if b == 0x30f {
            Some(0x204)
        } else if b == 0x311 {
            Some(0x206)
        } else if b == 0x323 {
            Some(0x1eb8)
        } else if b == 0x327 {
            Some(0x228)
        } else if b == 0x328 {
            Some(0x118)
        } else if b == 0x32d {
            Some(0x1e18)
        } else if b == 0x330 {
            Some(0x1e1a)
        } else {
            None
        }
    } else if a == 0x46 {
        if b == 0x307 {
            Some(0x1e1e)
        } else {
            None
        }
    } else if a == 0x47 {
        if b == 0x301 {
            Some(0x1f4)
        } else if b == 0x302 {
            Some(0x11c)
        } else if b == 0x304 {
            Some(0x1e20)
        } else if b == 0x306 {
            Some(0x11e)
        } else if b == 0x307 {
            Some(0x120)
        } else if b == 0x30c {
            Some(0x1e6)
        } else if b == 0x327 {
            Some(0x122)
        } else {
            None
        }
    } else if a == 0x48 {
        if b == 0x302 {
            Some(0x124)
        } else if b == 0x307 {
            Some(0x1e22)
        } else if b == 0x308 {
            Some(0x1e26)
        } else if b == 0x30c {
            Some(0x21e)
        } else if b == 0x323 {
            Some(0x1e24)
        } else if b == 0x327 {
            Some(0x1e28)
        } else if b == 0x32e {
            Some(0x1e2a)
        } else {
            None
        }
    } else if a == 0x49 {
        if b == 0x300 {
            Some(0xcc)
        } else if b == 0x301 {
            Some(0xcd)
        } else if b == 0x302 {
            Some(0xce)
        } else if b == 0x303 {
            Some(0x128)
        } else if b == 0x304 {
            Some(0x12a)
        } else if b == 0x306 {
            Some(0x12c)
        } else if b == 0x307 {
            Some(0x130)
        } else if b == 0x308 {
            Some(0xcf)
        } else if b == 0x309 {
            Some(0x1ec8)
        } else if b == 0x30c {
            Some(0x1cf)
        } else if b == 0x30f {
            Some(0x208)
        } else if b == 0x311 {
            Some(0x20a)
        } else if b == 0x323 {
            Some(0x1eca)
        } else if b == 0x328 {
            Some(0x12e)
        } else if b == 0x330 {
            Some(0x1e2c)
        } else {
            None
        }
    } else if a == 0x4a {
        if b == 0x302 {
            Some(0x134)
        } else {
            None
        }
    } else if a == 0x4b {
        if b == 0x301 {
            Some(0x1e30)
        } else if b == 0x30c {
            Some(0x1e8)
        } else if b == 0x323 {
            Some(0x1e32)
        } else if b == 0x327 {
            Some(0x136)
        } else if b == 0x331 {
            Some(0x1e34)
        } else {
            None
        }
    } else if a == 0x4c {
        if b == 0x301 {
            Some(0x139)
        } else if b == 0x30c {
            Some(0x13d)
        } else if b == 0x323 {
            Some(0x1e36)
        } else if b == 0x327 {
            Some(0x13b)
        } else if b == 0x32d {
            Some(0x1e3c)
        } else if b == 0x331 {
            Some(0x1e3a)
        } else {
            None
        }
    } else if a == 0x4d {
        if b == 0x301 {
            Some(0x1e3e)
        } else if b == 0x307 {
            Some(0x1e40)
        } else if b == 0x323 {
            Some(0x1e42)
        } else {
            None
        }
    } else if a == 0x4e {
        if b == 0x300 {
            Some(0x1f8)
        } else if b == 0x301 {
            Some(0x143)
        } else if b == 0x303 {
            Some(0xd1)
        } else if b == 0x307 {
            Some(0x1e44)
        } else if b == 0x30c {
            Some(0x147)
        } else if b == 0x323 {
            Some(0x1e46)
        } else if b == 0x327 {
            Some(0x145)
        } else if b == 0x32d {
            Some(0x1e4a)
        } else if b == 0x331 {
            Some(0x1e48)
        } else {
            None
        }
    } else if a == 0x4f {
        if b == 0x300 {
            Some(0xd2)
        } else if b == 0x301 {
            Some(0xd3)
        } else if b == 0x302 {
            Some(0xd4)
        } else if b == 0x303 {
            Some(0xd5)
        } else if b == 0x304 {
            Some(0x14c)
        } else if b == 0x306 {
            Some(0x14e)
        } else if b == 0x307 {
            Some(0x22e)
        } else if b == 0x308 {
            Some(0xd6)
        } else if b == 0x309 {
            Some(0x1ece)
        } else if b == 0x30b {
            Some(0x150)
        } else if b == 0x30c {
            Some(0x1d1)
        } else if b == 0x30f {
            Some(0x20c)
        } else if b == 0x311 {
            Some(0x20e)
        } else if b == 0x31b {
            Some(0x1a0)
        } else if b == 0x323 {
            Some(0x1ecc)
        } else if b == 0x328 {
            Some(0x1ea)
        } else {
            None
        }
    } else if a == 0x50 {
        if b == 0x301 {
            Some(0x1e54)
        } else if b == 0x307 {
            Some(0x1e56)
        } else {
            None
        }
    } else if a == 0x52 {
        if b == 0x301 {
            Some(0x154)
        } else if b == 0x307 {
            Some(0x1e58)
        } else if b == 0x30c {
            Some(0x158)
        } else if b == 0x30f {
            Some(0x210)
        } else if b == 0x311 {
            Some(0x212)
        } else if b == 0x323 {
            Some(0x1e5a)
        } else if b == 0x327 {
            Some(0x156)
        } else if b == 0x331 {
            Some(0x1e5e)
        } else {
            None
        }
    } else if a == 0x53 {
        if b == 0x301 {
            Some(0x15a)
        } else if b == 0x302 {
            Some(0x15c)
        } else if b == 0x307 {
            Some(0x1e60)
        } else if b == 0x30c {
            Some(0x160)
        } else if b == 0x323 {
            Some(0x1e62)
        } else if b == 0x326 {
            Some(0x218)
        } else if b == 0x327 {
            Some(0x15e)
        } else {
            None
        }
    } else if a == 0x54 {
        if b == 0x307 {
            Some(0x1e6a)
        } else if b == 0x30c {
            Some(0x164)
        } else if b == 0x323 {
            Some(0x1e6c)
        } else if b == 0x326 {
            Some(0x21a)
        } else if b == 0x327 {
            Some(0x162)
        } else if b == 0x32d {
            Some(0x1e70)
        } else if b == 0x331 {
            Some(0x1e6e)
        } else {
            None
        }
    } else if a == 0x55 {
        if b == 0x300 {
            Some(0xd9)
        } else if b == 0x301 {
            Some(0xda)
        } else if b == 0x302 {
            Some(0xdb)
        } else if b == 0x303 {
            Some(0x168)
        } else if b == 0x304 {
            Some(0x16a)
        } else if b == 0x306 {
            Some(0x16c)
        } else if b == 0x308 {
            Some(0xdc)
        } else if b == 0x309 {
            Some(0x1ee6)
        } else if b == 0x30a {
            Some(0x16e)
        } else if b == 0x30b {
            Some(0x170)
        } else if b == 0x30c {
            Some(0x1d3)
        } else if b == 0x30f {
            Some(0x214)
        } else if b == 0x311 {
            Some(0x216)
        } else if b == 0x31b {
            Some(0x1af)
        } else if b == 0x323 {
            Some(0x1ee4)
        } else if b == 0x324 {
            Some(0x1e72)
        } else if b == 0x328 {
            Some(0x172)
        } else if b == 0x32d {
            Some(0x1e76)
        } else if b == 0x330 {
            Some(0x1e74)
        } else {
            None
        }
    } else if a == 0x56 {
        if b == 0x303 {
            Some(0x1e7c)
        } else if b == 0x323 {
            Some(0x1e7e)
        } else {
            None
        }
    } else if a == 0x57 {
        if b == 0x300 {
            Some(0x1e80)
        } else if b == 0x301 {
            Some(0x1e82)
        } else if b == 0x302 {
            Some(0x174)
        } else if b == 0x307 {
            Some(0x1e86)
        } else if b == 0x308 {
            Some(0x1e84)
        } else if b == 0x323 {
            Some(0x1e88)
        } else {
            None
        }
    } else if a == 0x58 {
        if b == 0x307 {
            Some(0x1e8a)
        } else if b == 0x308 {
            Some(0x1e8c)
        } else {
            None
        }
    } else if a == 0x59 {
        if b == 0x300 {
            Some(0x1ef2)
        } else if b == 0x301 {
            Some(0xdd)
        } else if b == 0x302 {
            Some(0x176)
        } else if b == 0x303 {
            Some(0x1ef8)
        } else if b == 0x304 {
            Some(0x232)
        } else if b == 0x307 {
            Some(0x1e8e)
        } else if b == 0x308 {
            Some(0x178)
        } else if b == 0x309 {
            Some(0x1ef6)
        } else if b == 0x323 {
            Some(0x1ef4)
        } else {
            None
        }
    } else if a == 0x5a {
        if b == 0x301 {
            Some(0x179)
        } else if b == 0x302 {
            Some(0x1e90)
        } else if b == 0x307 {
            Some(0x17b)
        } else if b == 0x30c {
            Some(0x17d)
        } else if b == 0x323 {
            Some(0x1e92)
        } else if b == 0x331 {
            Some(0x1e94)
        } else {
            None
        }
    } else if a == 0x61 {
        if b == 0x300 {
            Some(0xe0)
        } else if b == 0x301 {
            Some(0xe1)
        } else if b == 0x302 {
            Some(0xe2)
        } else if b == 0x303 {
            Some(0xe3)
        } else if b == 0x304 {
            Some(0x101)
        } else if b == 0x306 {
            Some(0x103)
        } else if b == 0x307 {
            Some(0x227)
        } else if b == 0x308 {
            Some(0xe4)
        } else if b == 0x309 {
            Some(0x1ea3)
        } else if b == 0x30a {
            Some(0xe5)
        } else if b == 0x30c {
            Some(0x1ce)
        } else if b == 0x30f {
            Some(0x201)
        } else if b == 0x311 {
            Some(0x203)
        } else if b == 0x323 {
            Some(0x1ea1)
        } else if b == 0x325 {
            Some(0x1e01)
        } else if b == 0x328 {
            Some(0x105)
        } else {
            None
        }
    } else if a == 0x62 {
        if b == 0x307 {
            Some(0x1e03)
        } else if b == 0x323 {
            Some(0x1e05)
        } else if b == 0x331 {
            Some(0x1e07)
        } else {
            None
        }
    } else if a == 0x63 {
        if b == 0x301 {
            Some(0x107)
        } else if b == 0x302 {
            Some(0x109)
        } else if b == 0x307 {
            Some(0x10b)
        } else if b == 0x30c {
            Some(0x10d)
        } else if b == 0x327 {
            Some(0xe7)
        } else {
            None
        }
    } else if a == 0x64 {
        if b == 0x307 {
            Some(0x1e0b)
        } else if b == 0x30c {
            Some(0x10f)
        } else if b == 0x323 {
            Some(0x1e0d)
        } else if b == 0x327 {
            Some(0x1e11)
        } else if b == 0x32d {
            Some(0x1e13)
        } else if b == 0x331 {
            Some(0x1e0f)
        } else {
            None
        }
    } else if a == 0x65 {
        if b == 0x300 {
            Some(0xe8)
        } else if b == 0x301 {
            Some(0xe9)
        } else if b == 0x302 {
            Some(0xea)
        } else if b == 0x303 {
            Some(0x1ebd)
        } else if b == 0x304 {
            Some(0x113)
        } else if b == 0x306 {
            Some(0x115)
        } else if b == 0x307 {
            Some(0x117)
        } else if b == 0x308 {
            Some(0xeb)
        } else if b == 0x309 {
            Some(0x1ebb)
        } else if b == 0x30c {
            Some(0x11b)
        } else if b == 0x30f {
            Some(0x205)
        } else if b == 0x311 {
            Some(0x207)
        } else if b == 0x323 {
            Some(0x1eb9)
        } else if b == 0x327 {
            Some(0x229)
        } else if b == 0x328 {
            Some(0x119)
        } else if b == 0x32d {
            Some(0x1e19)
        } else if b == 0x330 {
            Some(0x1e1b)
        } else {
            None
        }
    } else if a == 0x66 {
        if b == 0x307 {
            Some(0x1e1f)
        } else {
            None
        }
    } else if a == 0x67 {
        if b == 0x301 {
            Some(0x1f5)
        } else if b == 0x302 {
            Some(0x11d)
        } else if b == 0x304 {
            Some(0x1e21)
        } else if b == 0x306 {
            Some(0x11f)
        } else if b == 0x307 {
            Some(0x121)
        } else if b == 0x30c {
            Some(0x1e7)
        } else if b == 0x327 {
            Some(0x123)
        } else {
            None
        }
    } else if a == 0x68 {
        if b == 0x302 {
            Some(0x125)
        } else if b == 0x307 {
            Some(0x1e23)
        } else if b == 0x308 {
            Some(0x1e27)
        } else if b == 0x30c {
            Some(0x21f)
        } else if b == 0x323 {
            Some(0x1e25)
        } else if b == 0x327 {
            Some(0x1e29)
        } else if b == 0x32e {
            Some(0x1e2b)
        } else if b == 0x331 {
            Some(0x1e96)
        } else {
            None
        }
    } else if a == 0x69 {
        if b == 0x300 {
            Some(0xec)
        } else if b == 0x301 {
            Some(0xed)
        } else if b == 0x302 {
            Some(0xee)
        } else if b == 0x303 {
            Some(0x129)
        } else if b == 0x304 {
            Some(0x12b)
        } else if b == 0x306 {
            Some(0x12d)
        } else if b == 0x308 {
            Some(0xef)
        } else if b == 0x309 {
            Some(0x1ec9)
        } else if b == 0x30c {
            Some(0x1d0)
        } else if b == 0x30f {
            Some(0x209)
        } else if b == 0x311 {
            Some(0x20b)
        } else if b == 0x323 {
            Some(0x1ecb)
        } else if b == 0x328 {
            Some(0x12f)
        } else if b == 0x330 {
            Some(0x1e2d)
        } else {
            None
        }
    } else if a == 0x6a {
        if b == 0x302 {
            Some(0x135)
        } else if b == 0x30c {
            Some(0x1f0)
        } else {
            None
        }
    } else if a == 0x6b {
        if b == 0x301 {
            Some(0x1e31)
        } else if b == 0x30c {
            Some(0x1e9)
        } else if b == 0x323 {
            Some(0x1e33)
        } else if b == 0x327 {
            Some(0x137)
        } else if b == 0x331 {
            Some(0x1e35)
        } else {
            None
        }
    } else if a == 0x6c {
        if b == 0x301 {
            Some(0x13a)
        } else if b == 0x30c {
            Some(0x13e)
        } else if b == 0x323 {
            Some(0x1e37)
        } else if b == 0x327 {
            Some(0x13c)
        } else if b == 0x32d {
            Some(0x1e3d)
        } else if b == 0x331 {
            Some(0x1e3b)
        } else {
            None
        }
    } else if a == 0x6d {
        if b == 0x301 {
            Some(0x1e3f)
        } else if b == 0x307 {
            Some(0x1e41)
        } else if b == 0x323 {
            Some(0x1e43)
        } else {
            None
        }
    } else if a == 0x6e {
        if b == 0x300 {
            Some(0x1f9)
        } else if b == 0x301 {
            Some(0x144)
        } else if b == 0x303 {
            Some(0xf1)
        } else if b == 0x307 {
            Some(0x1e45)
        } else if b == 0x30c {
            Some(0x148)
        } else if b == 0x323 {
            Some(0x1e47)
        } else if b == 0x327 {
            Some(0x146)
        } else if b == 0x32d {
            Some(0x1e4b)
        } else if b == 0x331 {
            Some(0x1e49)
        } else {
            None
        }
    } else if a == 0x6f {
        if b == 0x300 {
            Some(0xf2)
        } else if b == 0x301 {
            Some(0xf3)
        } else if b == 0x302 {
            Some(0xf4)
        } else if b == 0x303 {
            Some(0xf5)
        } else if b == 0x304 {
            Some(0x14d)
        } else if b == 0x306 {
            Some(0x14f)
        } else if b == 0x307 {
            Some(0x22f)
        } else if b == 0x308 {
            Some(0xf6)
        } else if b == 0x309 {
            Some(0x1ecf)
        } else if b == 0x30b {
            Some(0x151)
        } else if b == 0x30c {
            Some(0x1d2)
        } else if b == 0x30f {
            Some(0x20d)
        } else if b == 0x311 {
            Some(0x20f)
        } else if b == 0x31b {
            Some(0x1a1)
        } else if b == 0x323 {
            Some(0x1ecd)
        } else if b == 0x328 {
            Some(0x1eb)
        } else {
            None
        }
    } else if a == 0x70 {
        if b == 0x301 {
            Some(0x1e55)
        } else if b == 0x307 {
            Some(0x1e57)
        } else {
            None
        }
    } else if a == 0x72 {
        if b == 0x301 {
            Some(0x155)
        } else if b == 0x307 {
            Some(0x1e59)
        } else if b == 0x30c {
            Some(0x159)
        } else if b == 0x30f {
            Some(0x211)
        } else if b == 0x311 {
            Some(0x213)
        } else if b == 0x323 {
            Some(0x1e5b)
        } else if b == 0x327 {
            Some(0x157)
        } else if b == 0x331 {
            Some(0x1e5f)
        } else {
            None
        }
    } else if a == 0x73 {
        if b == 0x301 {
            Some(0x15b)
        } else if b == 0x302 {
            Some(0x15d)
        } else if b == 0x307 {
            Some(0x1e61)
        } else if b == 0x30c {
            Some(0x161)
        } else if b == 0x323 {
            Some(0x1e63)
        } else if b == 0x326 {
            Some(0x219)
        } else if b == 0x327 {
            Some(0x15f)
        } else {
            None
        }
    } else if a == 0x74 {
        if b == 0x307 {
            Some(0x1e6b)
        } else if b == 0x308 {
            Some(0x1e97)
        } else if b == 0x30c {
            Some(0x165)
        } else if b == 0x323 {
            Some(0x1e6d)
        } else if b == 0x326 {
            Some(0x21b)
        } else if b == 0x327 {
            Some(0x163)
        } else if b == 0x32d {
            Some(0x1e71)
        } else if b == 0x331 {
            Some(0x1e6f)
        } else {
            None
        }
    } else if a == 0x75 {
        if b == 0x300 {
            Some(0xf9)
        } else if b == 0x301 {
            Some(0xfa)
        } else if b == 0x302 {
            Some(0xfb)
        } else if b == 0x303 {
            Some(0x169)
        } else if b == 0x304 {
            Some(0x16b)
        } else if b == 0x306 {
            Some(0x16d)
        } else if b == 0x308 {
            Some(0xfc)
        } else if b == 0x309 {
            Some(0x1ee7)
        } else if b == 0x30a {
            Some(0x16f)
        } else if b == 0x30b {
            Some(0x171)
        } else if b == 0x30c {
            Some(0x1d4)
        } else if b == 0x30f {
            Some(0x215)
        } else if b == 0x311 {
            Some(0x217)
        } else if b == 0x31b {
            Some(0x1b0)
        } else if b == 0x323 {
            Some(0x1ee5)
        } else if b == 0x324 {
            Some(0x1e73)
        } else if b == 0x328 {
            Some(0x173)
        } else if b == 0x32d {
            Some(0x1e77)
        } else if b == 0x330 {
            Some(0x1e75)
        } else {
            None
        }
    } else if a == 0x76 {
        if b == 0x303 {
            Some(0x1e7d)
        } else if b == 0x323 {
            Some(0x1e7f)
        } else {
            None
        }
    } else if a == 0x77 {
        if b == 0x300 {
            Some(0x1e81)
        } else if b == 0x301 {
            Some(0x1e83)
        } else if b == 0x302 {
            Some(0x175)
        } else if b == 0x307 {
            Some(0x1e87)
        } else if b == 0x308 {
            Some(0x1e85)
        } else if b == 0x30a {
            Some(0x1e98)
        } else if b == 0x323 {
            Some(0x1e89)
        } else {
            None
        }
    } else if a == 0x78 {
        if b == 0x307 {
            Some(0x1e8b)
        } else if b == 0x308 {
            Some(0x1e8d)
        } else {
            None
        }
    } else if a == 0x79 {
        if b == 0x300 {
            Some(0x1ef3)
        } else if b == 0x301 {
            Some(0xfd)
        } else if b == 0x302 {
            Some(0x177)
        } else if b == 0x303 {
            Some(0x1ef9)
        } else if b == 0x304 {
            Some(0x233)
        } else if b == 0x307 {
            Some(0x1e8f)
        } else if b == 0x308 {
            Some(0xff)
        } else if b == 0x309 {
            Some(0x1ef7)
        } else if b == 0x30a {
            Some(0x1e99)
        } else if b == 0x323 {
            Some(0x1ef5)
        } else {
            None
        }
    } else if a == 0x7a {
        if b == 0x301 {
            Some(0x17a)
        } else if b == 0x302 {
            Some(0x1e91)
        } else if b == 0x307 {
            Some(0x17c)
        } else if b == 0x30c {
            Some(0x17e)
        } else if b == 0x323 {
            Some(0x1e93)
        } else if b == 0x331 {
            Some(0x1e95)
        } else {
            None
        }
    } else if a == 0xa8 {
        if b == 0x300 {
            Some(0x1fed)
        } else if b == 0x301 {
            Some(0x385)
        } else if b == 0x342 {
            Some(0x1fc1)
        } else {
            None
        }
    } else if a == 0xc2 {
        if b == 0x300 {
            Some(0x1ea6)
        } else if b == 0x301 {
            Some(0x1ea4)
        } else if b == 0x303 {
            Some(0x1eaa)
        } else if b == 0x309 {
            Some(0x1ea8)
        } else {
            None
        }
    } else if a == 0xc4 {
        if b == 0x304 {
            Some(0x1de)
        } else {
            None
        }
    } else if a == 0xc5 {
        if b == 0x301 {
            Some(0x1fa)
        } else {
            None
        }
    } else if a == 0xc6 {
        if b == 0x301 {
            Some(0x1fc)
        } else if b == 0x304 {
            Some(0x1e2)
        } else {
            None
        }
    } else if a == 0xc7 {
        if b == 0x301 {
            Some(0x1e08)
        } else {
            None
        }
    } else if a == 0xca {
        if b == 0x300 {
            Some(0x1ec0)
        } else if b == 0x301 {
            Some(0x1ebe)
        } else if b == 0x303 {
            Some(0x1ec4)
        } else if b == 0x309 {
            Some(0x1ec2)
        } else {
            None
        }
    } else if a == 0xcf {
        if b == 0x301 {
            Some(0x1e2e)
        } else {
            None
        }
    } else if a == 0xd4 {
        if b == 0x300 {
            Some(0x1ed2)
        } else if b == 0x301 {
            Some(0x1ed0)
        } else if b == 0x303 {
            Some(0x1ed6)
        } else if b == 0x309 {
            Some(0x1ed4)
        } else {
            None
        }
    } else if a == 0xd5 {
        if b == 0x301 {
            Some(0x1e4c)
        } else if b == 0x304 {
            Some(0x22c)
        } else if b == 0x308 {
            Some(0x1e4e)
        } else {
            None
        }
    } else if a == 0xd6 {
        if b == 0x304 {
            Some(0x22a)
        } else {
            None
        }
    } else if a == 0xd8 {
        if b == 0x301 {
            Some(0x1fe)
        } else {
            None
        }
    } else if a == 0xdc {
        if b == 0x300 {
            Some(0x1db)
        } else if b == 0x301 {
            Some(0x1d7)
        } else if b == 0x304 {
            Some(0x1d5)
        } else if b == 0x30c {
            Some(0x1d9)
        } else {
            None
        }
    } else if a == 0xe2 {
        if b == 0x300 {
            Some(0x1ea7)
        } else if b == 0x301 {
            Some(0x1ea5)
        } else if b == 0x303 {
            Some(0x1eab)
        } else if b == 0x309 {
            Some(0x1ea9)
        } else {
            None
        }
    } else if a == 0xe4 {
        if b == 0x304 {
            Some(0x1df)
        } else {
            None
        }
    } else if a == 0xe5 {
        if b == 0x301 {
            Some(0x1fb)
        } else {
            None
        }
    } else if a == 0xe6 {
        if b == 0x301 {
            Some(0x1fd)
        } else if b == 0x304 {
            Some(0x1e3)
        } else {
            None
        }
    } else if a == 0xe7 {
        if b == 0x301 {
            Some(0x1e09)
        } else {
            None
        }
    } else if a == 0xea {
        if b == 0x300 {
            Some(0x1ec1)
        } else if b == 0x301 {
            Some(0x1ebf)
        } else if b == 0x303 {
            Some(0x1ec5)
        } else if b == 0x309 {
            Some(0x1ec3)
        } else {
            None
        }
    } else if a == 0xef {
        if b == 0x301 {
            Some(0x1e2f)
        } else {
            None
        }
    } else if a == 0xf4 {
        if b == 0x300 {
            Some(0x1ed3)
        } else if b == 0x301 {
            Some(0x1ed1)
        } else if b == 0x303 {
            Some(0x1ed7)
        } else if b == 0x309 {
            Some(0x1ed5)
        } else {
            None
        }
    } else if a == 0xf5 {
        if b == 0x301 {
            Some(0x1e4d)
        } else if b == 0x304 {
            Some(0x22d)
        } else if b == 0x308 {
            Some(0x1e4f)
        } else {
            None
        }
    } else if a == 0xf6 {
        if b == 0x304 {
            Some(0x22b)
        } else {
            None
        }
    } else if a == 0xf8 {
        if b == 0x301 {
            Some(0x1ff)
        } else {
            None
        }
    } else if a == 0xfc {
        if b == 0x300 {
            Some(0x1dc)
        } else if b == 0x301 {
            Some(0x1d8)
        } else if b == 0x304 {
            Some(0x1d6)
        } else if b == 0x30c {
            Some(0x1da)
        } else {
            None
        }
    } else {
        None
    }
}

pub open spec fn compose_001(a: u32, b: u32) -> Option<u32> {
    if a == 0x102 {
        if b == 0x300 {
            Some(0x1eb0u32)
        } else if b == 0x301 {
            Some(0x1eaeu32)
        } else if b == 0x303 {
            Some(0x1eb4u32)
        } else if b == 0x309 {
            Some(0x1eb2u32)
        } else {
            None
        }
    } else if a == 0x103 {
        if b == 0x300 {
            Some(0x1eb1u32)
        } else if b == 0x301 {
            Some(0x1eafu32)
        } else if b == 0x303 {
            Some(0x1eb5u32)
        } else if b == 0x309 {
            Some(0x1eb3u32)
        } else {
            None
        }
    } else if a == 0x112 {
        if b == 0x300 {
            Some(0x1e14u32)
        } else if b == 0x301 {
            Some(0x1e16u32)
        } else {
            None
        }
    } else if a == 0x113 {
        if b == 0x300 {
            Some(0x1e15u32)
        } else if b == 0x301 {
            Some(0x1e17u32)
        } else {
            None
        }
    } else if a == 0x14c {
        if b == 0x300 {
            Some(0x1e50u32)
        } else if b == 0x301 {
            Some(0x1e52u32)
        } else {
            None
        }
    } else if a == 0x14d {
        if b == 0x300 {
            Some(0x1e51u32)
        } else if b == 0x301 {
            Some(0x1e53u32)
        } else {
            None
        }
    } else if a == 0x15a {
        if b == 0x307 {
            Some(0x1e64u32)
        } else {
            None
        }
    } else if a == 0x15b {
        if b == 0x307 {
            Some(0x1e65u32)
        } else {
            None
        }
    } else if a == 0x160 {
        if b == 0x307 {
            Some(0x1e66u32)
        } else {
            None
        }
    } else if a == 0x161 {
        if b == 0x307 {
            Some(0x1e67u32)
        } else {
            None
        }
    } else if a == 0x168 {
        if b == 0x301 {
            Some(0x1e78u32)
        } else {
            None
        }
    } else if a == 0x169 {
        if b == 0x301 {
            Some(0x1e79u32)
        } else {
            None
        }
    } else if a == 0x16a {
        if b == 0x308 {
            Some(0x1e7au32)
        } else {
            None
        }
    } else if a == 0x16b {
        if b == 0x308 {
            Some(0x1e7bu32)
        } else {
            None
        }
    } else if a == 0x17f {
        if b == 0x307 {
            Some(0x1e9bu32)
        } else {
            None
        }
    } else if a == 0x1a0 {
        if b == 0x300 {
            Some(0x1edcu32)
        } else if b == 0x301 {
            Some(0x1edau32)
        } else if b == 0x303 {
            Some(0x1ee0u32)
        } else if b == 0x309 {
            Some(0x1edeu32)
        } else if b == 0x323 {
            Some(0x1ee2u32)
        } else {
            None
        }
    } else if a == 0x1a1 {
        if b == 0x300 {
            Some(0x1eddu32)
        } else if b == 0x301 {
            Some(0x1edbu32)
        } else if b == 0x303 {
            Some(0x1ee1u32)
        } else if b == 0x309 {
            Some(0x1edfu32)
        } else if b == 0x323 {
            Some(0x1ee3u32)
        } else {
            None
        }
    } else if a == 0x1af {
        if b == 0x300 {
            Some(0x1eeau32)
        } else if b == 0x301 {
            Some(0x1ee8u32)
        } else if b == 0x303 {
            Some(0x1eeeu32)
        } else if b == 0x309 {
            Some(0x1eecu32)
        } else if b == 0x323 {
            Some(0x1ef0u32)
        } else {
            None
        }
    } else if a == 0x1b0 {
        if b == 0x300 {
            Some(0x1eebu32)
        } else if b == 0x301 {
            Some(0x1ee9u32)
        } else if b == 0x303 {
            Some(0x1eefu32)
        } else if b == 0x309 {
            Some(0x1eedu32)
        } else if b == 0x323 {
            Some(0x1ef1u32)
        } else {
            None
        }
    } else if a == 0x1b7 {
        if b == 0x30c {
            Some(0x1eeu32)
        } else {
            None
        }
    } else if a == 0x1ea {
        if b == 0x304 {
            Some(0x1ecu32)
        } else {
            None
        }
    } else if a == 0x1eb {
        if b == 0x304 {
            Some(0x1edu32)
        } else {
            None
        }
    } else {
        None
    }
}

fn compose_pair_001(a: u32, b: u32) -> (r: Option<u32>)
    ensures
        r == compose_001(a, b),
{
    if a == 0x102 {
        if b == 0x300 {
            Some(0x1eb0)
        } else if b == 0x301 {
            Some(0x1eae)
        } else if b == 0x303 {
            Some(0x1eb4)
        } else if b == 0x309 {
            Some(0x1eb2)
        } else {
            None
        }
    } else if a == 0x103 {
        if b == 0x300 {
            Some(0x1eb1)
        } else if b == 0x301 {
            Some(0x1eaf)
        } else if b == 0x303 {
            Some(0x1eb5)
        } else if b == 0x309 {
            Some(0x1eb3)
        } else {
            None
        }
    } else if a == 0x112 {
        if b == 0x300 {
            Some(0x1e14)
        } else if b == 0x301 {
            Some(0x1e16)
        } else {
            None
        }
    } else if a == 0x113 {
        if b == 0x300 {
            Some(0x1e15)
        } else if b == 0x301 {
            Some(0x1e17)
        } else {
            None
        }
    } else if a == 0x14c {
        if b == 0x300 {
            Some(0x1e50)
        } else if b == 0x301 {
            Some(0x1e52)
        } else {
            None
        }
    } else if a == 0x14d {
        if b == 0x300 {
            Some(0x1e51)
        } else if b == 0x301 {
            Some(0x1e53)
        } else {
            None
        }
    } else if a == 0x15a {
        if b == 0x307 {
            Some(0x1e64)
        } else {
            None
        }
    } else if a == 0x15b {
        if b == 0x307 {
            Some(0x1e65)
        } else {
            None
        }
    } else if a == 0x160 {
        if b == 0x307 {
            Some(0x1e66)
        } else {
            None
        }
    } else if a == 0x161 {
        if b == 0x307 {
            Some(0x1e67)
        } else {
            None
        }
    } else if a == 0x168 {
        if b == 0x301 {
            Some(0x1e78)
        } else {
            None
        }
    } else if a == 0x169 {
        if b == 0x301 {
            Some(0x1e79)
        } else {
            None
        }
    } else if a == 0x16a {
        if b == 0x308 {
            Some(0x1e7a)
        } else {
            None
        }
    } else if a == 0x16b {
        if b == 0x308 {
            Some(0x1e7b)
        } else {
            None
        }
    } else if a == 0x17f {
        if b == 0x307 {
            Some(0x1e9b)
        } else {
            None
        }
    } else if a == 0x1a0 {
        if b == 0x300 {
            Some(0x1edc)
        } else if b == 0x301 {
            Some(0x1eda)
        } else if b == 0x303 {
            Some(0x1ee0)
        } else if b == 0x309 {
            Some(0x1ede)
        } else if b == 0x323 {
            Some(0x1ee2)
        } else {
            None
        }
    } else if a == 0x1a1 {
        if b == 0x300 {
            Some(0x1edd)
        } else if b == 0x301 {
            Some(0x1edb)
        } else if b == 0x303 {
            Some(0x1ee1)
        } else if b == 0x309 {
            Some(0x1edf)
        } else if b == 0x323 {
            Some(0x1ee3)
        } else {
            None
        }
    } else if a == 0x1af {
        if b == 0x300 {
            Some(0x1eea)
        } else if b == 0x301 {
            Some(0x1ee8)
        } else if b == 0x303 {
            Some(0x1eee)
        } else if b == 0x309 {
            Some(0x1eec)
        } else if b == 0x323 {
            Some(0x1ef0)
        } else {
            None
        }
    } else if a == 0x1b0 {
        if b == 0x300 {
            Some(0x1eeb)
        } else if b == 0x301 {
            Some(0x1ee9)
        } else if b == 0x303 {
            Some(0x1eef)
        } else if b == 0x309 {
            Some(0x1eed)
        } else if b == 0x323 {
            Some(0x1ef1)
        } else {
            None
        }
    } else if a == 0x1b7 {
        if b == 0x30c {
            Some(0x1ee)
        } else {
            None
        }
    } else if a == 0x1ea {
        if b == 0x304 {
            Some(0x1ec)
        } else {
            None
        }
    } else if a == 0x1eb {
        if b == 0x304 {
            Some(0x1ed)
        } else {
            None
        }
    } else {
        None
    }
}

pub open spec fn compose_002(a: u32, b: u32) -> Option<u32> {
    if a == 0x226 {
        if b == 0x304 {
            Some(0x1e0u32)
        } else {
            None
        }
    } else if a == 0x227 {
        if b == 0x304 {
            Some(0x1e1u32)
        } else {
            None
        }
    } else if a == 0x228 {
        if b == 0x306 {
            Some(0x1e1cu32)
        } else {
            None
        }
    } else if a == 0x229 {
        if b == 0x306 {
            Some(0x1e1du32)
        } else {
            None
        }
    } else if a == 0x22e {
        if b == 0x304 {
            Some(0x230u32)
        } else {
            None
        }
    } else if a == 0x22f {
        if b == 0x304 {
            Some(0x231u32)
        } else {
            None
        }
    } else if a == 0x292 {
        if b == 0x30c {
            Some(0x1efu32)
        } else {
            None
        }
    } else {
        None
    }
}

fn compose_pair_002(a: u32, b: u32) -> (r: Option<u32>)
    ensures
        r == compose_002(a, b),
{
    if a == 0x226 {
        if b == 0x304 {
            Some(0x1e0)
        } else {
            None
        }
    } else if a == 0x227 {
        if b == 0x304 {
            Some(0x1e1)
        } else {
            None
        }
    } else if a == 0x228 {
        if b == 0x306 {
            Some(0x1e1c)
        } else {
            None
        }
    } else if a == 0x229 {
        if b == 0x306 {
            Some(0x1e1d)
        } else {
            None
        }
    } else if a == 0x22e {
        if b == 0x304 {
            Some(0x230)
        } else {
            None
        }
    } else if a == 0x22f {
        if b == 0x304 {
            Some(0x231)
        } else {
            None
        }
    } else if a == 0x292 {
        if b == 0x30c {
            Some(0x1ef)
        } else {
            None
        }
    } else {
        None
    }
}

pub open spec fn compose_003(a: u32, b: u32) -> Option<u32> {
    if a == 0x391 {
        if b == 0x300 {
            Some(0x1fbau32)
        } else if b == 0x301 {
            Some(0x386u32)
        } else if b == 0x304 {
            Some(0x1fb9u32)
        } else if b == 0x306 {
            Some(0x1fb8u32)
        } else if b == 0x313 {
            Some(0x1f08u32)
        } else if b == 0x314 {
            Some(0x1f09u32)
        } else if b == 0x345 {
            Some(0x1fbcu32)
        } else {
            None
        }
    } else if a == 0x395 {
        if b == 0x300 {
            Some(0x1fc8u32)
        } else if b == 0x301 {
            Some(0x388u32)
        } else if b == 0x313 {
            Some(0x1f18u32)
        } else if b == 0x314 {
            Some(0x1f19u32)
        } else {
            None
        }
    } else if a == 0x397 {
        if b == 0x300 {
            Some(0x1fcau32)
        } else if b == 0x301 {
            Some(0x389u32)
        } else if b == 0x313 {
            Some(0x1f28u32)
        } else if b == 0x314 {
            Some(0x1f29u32)
        } else if b == 0x345 {
            Some(0x1fccu32)
        } else {
            None
        }
    } else if a == 0x399 {
        if b == 0x300 {
            Some(0x1fdau32)
        } else if b == 0x301 {
            Some(0x38au32)
        } else if b == 0x304 {
            Some(0x1fd9u32)
        } else if b == 0x306 {
            Some(0x1fd8u32)
        } else if b == 0x308 {
            Some(0x3aau32)
        } else if b == 0x313 {
            Some(0x1f38u32)
        } else if b == 0x314 {
            Some(0x1f39u32)
        } else {
            None
        }
    } else if a == 0x39f {
        if b == 0x300 {
            Some(0x1ff8u32)
        } else if b == 0x301 {
            Some(0x38cu32)
        } else if b == 0x313 {
            Some(0x1f48u32)
        } else if b == 0x314 {
            Some(0x1f49u32)
        } else {
            None
        }
    } else if a == 0x3a1 {
        if b == 0x314 {
            Some(0x1fecu32)
        } else {
            None
        }
    } else if a == 0x3a5 {
        if b == 0x300 {
            Some(0x1feau32)
        } else if b == 0x301 {
            Some(0x38eu32)
        } else if b == 0x304 {
            Some(0x1fe9u32)
        } else if b == 0x306 {
            Some(0x1fe8u32)
        } else if b == 0x308 {
            Some(0x3abu32)
        } else if b == 0x314 {
            Some(0x1f59u32)
        } else {
            None
        }
    } else if a == 0x3a9 {
        if b == 0x300 {
            Some(0x1ffau32)
        } else if b == 0x301 {
            Some(0x38fu32)
        } else if b == 0x313 {
            Some(0x1f68u32)
        } else if b == 0x314 {
            Some(0x1f69u32)
        } else if b == 0x345 {
            Some(0x1ffcu32)
        } else {
            None
        }
    } else if a == 0x3ac {
        if b == 0x345 {
            Some(0x1fb4u32)
        } else {
            None
        }
    } else if a == 0x3ae {
        if b == 0x345 {
            Some(0x1fc4u32)
        } else {
            None
        }
    } else if a == 0x3b1 {
        if b == 0x300 {
            Some(0x1f70u32)
        } else if b == 0x301 {
            Some(0x3acu32)
        } else if b == 0x304 {
            Some(0x1fb1u32)
        } else if b == 0x306 {
            Some(0x1fb0u32)
        } else if b == 0x313 {
            Some(0x1f00u32)
        } else if b == 0x314 {
            Some(0x1f01u32)
        } else if b == 0x342 {
            Some(0x1fb6u32)
        } else if b == 0x345 {
            Some(0x1fb3u32)
        } else {
            None
        }
    } else if a == 0x3b5 {
        if b == 0x300 {
            Some(0x1f72u32)
        } else if b == 0x301 {
            Some(0x3adu32)
        } else if b == 0x313 {
            Some(0x1f10u32)
        } else if b == 0x314 {
            Some(0x1f11u32)
        } else {
            None
        }
    } else if a == 0x3b7 {
        if b == 0x300 {
            Some(0x1f74u32)
        } else if b == 0x301 {
            Some(0x3aeu32)
        } else if b == 0x313 {
            Some(0x1f20u32)
        } else if b == 0x314 {
            Some(0x1f21u32)
        } else if b == 0x342 {
            Some(0x1fc6u32)
        } else if b == 0x345 {
            Some(0x1fc3u32)
        } else {
            None
        }
    } else if a == 0x3b9 {
        if b == 0x300 {
            Some(0x1f76u32)
        } else if b == 0x301 {
            Some(0x3afu32)
        } else if b == 0x304 {
            Some(0x1fd1u32)
        } else if b == 0x306 {
            Some(0x1fd0u32)
        } else if b == 0x308 {
            Some(0x3cau32)
        } else if b == 0x313 {
            Some(0x1f30u32)
        } else if b == 0x314 {
            Some(0x1f31u32)
        } else if b == 0x342 {
            Some(0x1fd6u32)
        } else {
            None
        }
    } else if a == 0x3bf {
        if b == 0x300 {
            Some(0x1f78u32)
        } else if b == 0x301 {
            Some(0x3ccu32)
        } else if b == 0x313 {
            Some(0x1f40u32)
        } else if b == 0x314 {
            Some(0x1f41u32)
        } else {
            None
        }
    } else if a == 0x3c1 {
        if b == 0x313 {
            Some(0x1fe4u32)
        } else if b == 0x314 {
            Some(0x1fe5u32)
        } else {
            None
        }
    } else if a == 0x3c5 {
        if b == 0x300 {
            Some(0x1f7au32)
        } else if b == 0x301 {
            Some(0x3cdu32)
        } else if b == 0x304 {
            Some(0x1fe1u32)
        } else if b == 0x306 {
            Some(0x1fe0u32)
        } else if b == 0x308 {
            Some(0x3cbu32)
        } else if b == 0x313 {
            Some(0x1f50u32)
        } else if b == 0x314 {
            Some(0x1f51u32)
        } else if b == 0x342 {
            Some(0x1fe6u32)
        } else {
            None
        }
    } else if a == 0x3c9 {
        if b == 0x300 {
            Some(0x1f7cu32)
        } else if b == 0x301 {
            Some(0x3ceu32)
        } else if b == 0x313 {
            Some(0x1f60u32)
        } else if b == 0x314 {
            Some(0x1f61u32)
        } else if b == 0x342 {
            Some(0x1ff6u32)
        } else if b == 0x345 {
            Some(0x1ff3u32)
        } else {
            None
        }
    } else if a == 0x3ca {
        if b == 0x300 {
            Some(0x1fd2u32)
        } else if b == 0x301 {
            Some(0x390u32)
        } else if b == 0x342 {
            Some(0x1fd7u32)
        } else {
            None
        }
    } else if a == 0x3cb {
        if b == 0x300 {
            Some(0x1fe2u32)
        } else if b == 0x301 {
            Some(0x3b0u32)
        } else if b == 0x342 {
            Some(0x1fe7u32)
        } else {
            None
        }
    } else if a == 0x3ce {
        if b == 0x345 {
            Some(0x1ff4u32)
        } else {
            None
        }
    } else if a == 0x3d2 {
        if b == 0x301 {
            Some(0x3d3u32)
        } else if b == 0x308 {
            Some(0x3d4u32)
        } else {
            None
        }
    } else {
        None
    }
}

fn compose_pair_003(a: u32, b: u32) -> (r: Option<u32>)
    ensures
        r == compose_003(a, b),
{
    if a == 0x391 {
        if b == 0x300 {
            Some(0x1fba)
        } else if b == 0x301 {
            Some(0x386)
        } else if b == 0x304 {
            Some(0x1fb9)
        } else if b == 0x306 {
            Some(0x1fb8)
        } else if b == 0x313 {
            Some(0x1f08)
        } else if b == 0x314 {
            Some(0x1f09)
        } else if b == 0x345 {
            Some(0x1fbc)
        } else {
            None
        }
    } else if a == 0x395 {
        if b == 0x300 {
            Some(0x1fc8)
        } else if b == 0x301 {
            Some(0x388)
        } else if b == 0x313 {
            Some(0x1f18)
        } else if b == 0x314 {
            Some(0x1f19)
        } else {
            None
        }
    } else if a == 0x397 {
        if b == 0x300 {
            Some(0x1fca)
        } else if b == 0x301 {
            Some(0x389)
        } else if b == 0x313 {
            Some(0x1f28)
        } else if b == 0x314 {
            Some(0x1f29)
        } else if b == 0x345 {
            Some(0x1fcc)
        } else {
            None
        }
    } else if a == 0x399 {
        if b == 0x300 {
            Some(0x1fda)
        } else if b == 0x301 {
            Some(0x38a)
        } else if b == 0x304 {
            Some(0x1fd9)
        } else if b == 0x306 {
            Some(0x1fd8)
        } else if b == 0x308 {
            Some(0x3aa)
        } else if b == 0x313 {
            Some(0x1f38)
        } else if b == 0x314 {
            Some(0x1f39)
        } else {
            None
        }
    } else if a == 0x39f {
        if b == 0x300 {
            Some(0x1ff8)
        } else if b == 0x301 {
            Some(0x38c)
        } else if b == 0x313 {
            Some(0x1f48)
        } else if b == 0x314 {
            Some(0x1f49)
        } else {
            None
        }
    } else if a == 0x3a1 {
        if b == 0x314 {
            Some(0x1fec)
        } else {
            None
        }
    } else if a == 0x3a5 {
        if b == 0x300 {
            Some(0x1fea)
        } else if b == 0x301 {
            Some(0x38e)
        } else if b == 0x304 {
            Some(0x1fe9)
        } else if b == 0x306 {
            Some(0x1fe8)
        } else if b == 0x308 {
            Some(0x3ab)
        } else if b == 0x314 {
            Some(0x1f59)
        } else {
            None
        }
    } else if a == 0x3a9 {
        if b == 0x300 {
            Some(0x1ffa)
        } else if b == 0x301 {
            Some(0x38f)
        } else if b == 0x313 {
            Some(0x1f68)
        } else if b == 0x314 {
            Some(0x1f69)
        } else if b == 0x345 {
            Some(0x1ffc)
        } else {
            None
        }
    } else if a == 0x3ac {
        if b == 0x345 {
            Some(0x1fb4)
        } else {
            None
        }
    } else if a == 0x3ae {
        if b == 0x345 {
            Some(0x1fc4)
        } else {
            None
        }
    } else if a == 0x3b1 {
        if b == 0x300 {
            Some(0x1f70)
        } else if b == 0x301 {
            Some(0x3ac)
        } else if b == 0x304 {
            Some(0x1fb1)
        } else if b == 0x306 {
            Some(0x1fb0)
        } else if b == 0x313 {
            Some(0x1f00)
        } else if b == 0x314 {
            Some(0x1f01)
        } else if b == 0x342 {
            Some(0x1fb6)
        } else if b == 0x345 {
            Some(0x1fb3)
        } else {
            None
        }
    } else if a == 0x3b5 {
        if b == 0x300 {
            Some(0x1f72)
        } else if b == 0x301 {
            Some(0x3ad)
        } else if b == 0x313 {
            Some(0x1f10)
        } else if b == 0x314 {
            Some(0x1f11)
        } else {
            None
        }
    } else if a == 0x3b7 {
        if b == 0x300 {
            Some(0x1f74)
        } else if b == 0x301 {
            Some(0x3ae)
        } else if b == 0x313 {
            Some(0x1f20)
        } else if b == 0x314 {
            Some(0x1f21)
        } else if b == 0x342 {
            Some(0x1fc6)
        } else if b == 0x345 {
            Some(0x1fc3)
        } else {
            None
        }
    } else if a == 0x3b9 {
        if b == 0x300 {
            Some(0x1f76)
        } else if b == 0x301 {
            Some(0x3af)
        } else if b == 0x304 {
            Some(0x1fd1)
        } else if b == 0x306 {
            Some(0x1fd0)
        } else if b == 0x308 {
            Some(0x3ca)
        } else if b == 0x313 {
            Some(0x1f30)
        } else if b == 0x314 {
            Some(0x1f31)
        } else if b == 0x342 {
            Some(0x1fd6)
        } else {
            None
        }
    } else if a == 0x3bf {
        if b == 0x300 {
            Some(0x1f78)
        } else if b == 0x301 {
            Some(0x3cc)
        } else if b == 0x313 {
            Some(0x1f40)
        } else if b == 0x314 {
            Some(0x1f41)
        } else {
            None
        }
    } else if a == 0x3c1 {
        if b == 0x313 {
            Some(0x1fe4)
        } else if b == 0x314 {
            Some(0x1fe5)
        } else {
            None
        }
    } else if a == 0x3c5 {
        if b == 0x300 {
            Some(0x1f7a)
        } else if b == 0x301 {
            Some(0x3cd)
        } else if b == 0x304 {
            Some(0x1fe1)
        } else if b == 0x306 {
            Some(0x1fe0)
        } else if b == 0x308 {
            Some(0x3cb)
        } else if b == 0x313 {
            Some(0x1f50)
        } else if b == 0x314 {
            Some(0x1f51)
        } else if b == 0x342 {
            Some(0x1fe6)
        } else {
            None
        }
    } else if a == 0x3c9 {
        if b == 0x300 {
            Some(0x1f7c)
        } else if b == 0x301 {
            Some(0x3ce)
        } else if b == 0x313 {
            Some(0x1f60)
        } else if b == 0x314 {
            Some(0x1f61)
        } else if b == 0x342 {
            Some(0x1ff6)
        } else if b == 0x345 {
            Some(0x1ff3)
        } else {
            None
        }
    } else if a == 0x3ca {
        if b == 0x300 {
            Some(0x1fd2)
        } else if b == 0x301 {
            Some(0x390)
        } else if b == 0x342 {
            Some(0x1fd7)
        } else {
            None
        }
    } else if a == 0x3cb {
        if b == 0x300 {
            Some(0x1fe2)
        } else if b == 0x301 {
            Some(0x3b0)
        } else if b == 0x342 {
            Some(0x1fe7)
        } else {
            None
        }
    } else if a == 0x3ce {
        if b == 0x345 {
            Some(0x1ff4)
        } else {
            None
        }
    } else if a == 0x3d2 {
        if b == 0x301 {
            Some(0x3d3)
        } else if b == 0x308 {
            Some(0x3d4)
        } else {
            None
        }
    } else {
        None
    }
}

pub open spec fn compose_004(a: u32, b: u32) -> Option<u32> {
    if a == 0x406 {
        if b == 0x308 {
            Some(0x407u32)
        } else {
            None
        }
    } else if a == 0x410 {
        if b == 0x306 {
            Some(0x4d0u32)
        } else if b == 0x308 {
            Some(0x4d2u32)
        } else {
            None
        }
    } else if a == 0x413 {
        if b == 0x301 {
            Some(0x403u32)
        } else {
            None
        }
    } else if a == 0x415 {
        if b == 0x300 {
            Some(0x400u32)
        } else if b == 0x306 {
            Some(0x4d6u32)
        } else if b == 0x308 {
            Some(0x401u32)
        } else {
            None
        }
    } else if a == 0x416 {
        if b == 0x306 {
            Some(0x4c1u32)
        } else if b == 0x308 {
            Some(0x4dcu32)
        } else {
            None
        }
    } else if a == 0x417 {
        if b == 0x308 {
            Some(0x4deu32)
        } else {
            None
        }
    } else if a == 0x418 {
        if b == 0x300 {
            Some(0x40du32)
        } else if b == 0x304 {
            Some(0x4e2u32)
        } else if b == 0x306 {
            Some(0x419u32)
        } else if b == 0x308 {
            Some(0x4e4u32)
        } else {
            None
        }
    } else if a == 0x41a {
        if b == 0x301 {
            Some(0x40cu32)
        } else {
            None
        }
    } else if a == 0x41e {
        if b == 0x308 {
            Some(0x4e6u32)
        } else {
            None
        }
    } else if a == 0x423 {
        if b == 0x304 {
            Some(0x4eeu32)
        } else if b == 0x306 {
            Some(0x40eu32)
        } else if b == 0x308 {
            Some(0x4f0u32)
        } else if b == 0x30b {
            Some(0x4f2u32)
        } else {
            None
        }
    } else if a == 0x427 {
        if b == 0x308 {
            Some(0x4f4u32)
        } else {
            None
        }
    } else if a == 0x42b {
        if b == 0x308 {
            Some(0x4f8u32)
        } else {
            None
        }
    } else if a == 0x42d {
        if b == 0x308 {
            Some(0x4ecu32)
        } else {
            None
        }
    } else if a == 0x430 {
        if b == 0x306 {
            Some(0x4d1u32)
        } else if b == 0x308 {
            Some(0x4d3u32)
        } else {
            None
        }
    } else if a == 0x433 {
        if b == 0x301 {
            Some(0x453u32)
        } else {
            None
        }
    } else if a == 0x435 {
        if b == 0x300 {
            Some(0x450u32)
        } else if b == 0x306 {
            Some(0x4d7u32)
        } else if b == 0x308 {
            Some(0x451u32)
        } else {
            None
        }
    } else if a == 0x436 {
        if b == 0x306 {
            Some(0x4c2u32)
        } else if b == 0x308 {
            Some(0x4ddu32)
        } else {
            None
        }
    } else if a == 0x437 {
        if b == 0x308 {
            Some(0x4dfu32)
        } else {
            None
        }
    } else if a == 0x438 {
        if b == 0x300 {
            Some(0x45du32)
        } else if b == 0x304 {
            Some(0x4e3u32)
        } else if b == 0x306 {
            Some(0x439u32)
        } else if b == 0x308 {
            Some(0x4e5u32)
        } else {
            None
        }
    } else if a == 0x43a {
        if b == 0x301 {
            Some(0x45cu32)
        } else {
            None
        }
    } else if a == 0x43e {
        if b == 0x308 {
            Some(0x4e7u32)
        } else {
            None
        }
    } else if a == 0x443 {
        if b == 0x304 {
            Some(0x4efu32)
        } else if b == 0x306 {
            Some(0x45eu32)
        } else if b == 0x308 {
            Some(0x4f1u32)
        } else if b == 0x30b {
            Some(0x4f3u32)
        } else {
            None
        }
    } else if a == 0x447 {
        if b == 0x308 {
            Some(0x4f5u32)
        } else {
            None
        }
    } else if a == 0x44b {
        if b == 0x308 {
            Some(0x4f9u32)
        } else {
            None
        }
    } else if a == 0x44d {
        if b == 0x308 {
            Some(0x4edu32)
        } else {
            None
        }
    } else if a == 0x456 {
        if b == 0x308 {
            Some(0x457u32)
        } else {
            None
        }
    } else if a == 0x474 {
        if b == 0x30f {
            Some(0x476u32)
        } else {
            None
        }
    } else if a == 0x475 {
        if b == 0x30f {
            Some(0x477u32)
        } else {
            None
        }
    } else if a == 0x4d8 {
        if b == 0x308 {
            Some(0x4dau32)
        } else {
            None
        }
    } else if a == 0x4d9 {
        if b == 0x308 {
            Some(0x4dbu32)
        } else {
            None
        }
    } else if a == 0x4e8 {
        if b == 0x308 {
            Some(0x4eau32)
        } else {
            None
        }
    } else if a == 0x4e9 {
        if b == 0x308 {
            Some(0x4ebu32)
        } else {
            None
        }
    } else {
        None
    }
}

fn compose_pair_004(a: u32, b: u32) -> (r: Option<u32>)
    ensures
        r == compose_004(a, b),
{
    if a == 0x406 {
        if b == 0x308 {
            Some(0x407)
        } else {
            None
        }
    } else if a == 0x410 {
        if b == 0x306 {
            Some(0x4d0)
        } else if b == 0x308 {
            Some(0x4d2)
        } else {
            None
        }
    } else if a == 0x413 {
        if b == 0x301 {
            Some(0x403)
        } else {
            None
        }
    } else if a == 0x415 {
        if b == 0x300 {
            Some(0x400)
        } else if b == 0x306 {
            Some(0x4d6)
        } else if b == 0x308 {
            Some(0x401)
        } else {
            None
        }
    } else if a == 0x416 {
        if b == 0x306 {
            Some(0x4c1)
        } else if b == 0x308 {
            Some(0x4dc)
        } else {
            None
        }
    } else if a == 0x417 {
        if b == 0x308 {
            Some(0x4de)
        } else {
            None
        }
    } else if a == 0x418 {
        if b == 0x300 {
            Some(0x40d)
        } else if b == 0x304 {
            Some(0x4e2)
        } else if b == 0x306 {
            Some(0x419)
        } else if b == 0x308 {
            Some(0x4e4)
        } else {
            None
        }
    } else if a == 0x41a {
        if b == 0x301 {
            Some(0x40c)
        } else {
            None
        }
    } else if a == 0x41e {
        if b == 0x308 {
            Some(0x4e6)
        } else {
            None
        }
    } else if a == 0x423 {
        if b == 0x304 {
            Some(0x4ee)
        } else if b == 0x306 {
            Some(0x40e)
        } else if b == 0x308 {
            Some(0x4f0)
        } else if b == 0x30b {
            Some(0x4f2)
        } else {
            None
        }
    } else if a == 0x427 {
        if b == 0x308 {
            Some(0x4f4)
        } else {
            None
        }
    } else if a == 0x42b {
        if b == 0x308 {
            Some(0x4f8)
        } else {
            None
        }
    } else if a == 0x42d {
        if b == 0x308 {
            Some(0x4ec)
        } else {
            None
        }
    } else if a == 0x430 {
        if b == 0x306 {
            Some(0x4d1)
        } else if b == 0x308 {
            Some(0x4d3)
        } else {
            None
        }
    } else if a == 0x433 {
        if b == 0x301 {
            Some(0x453)
        } else {
            None
        }
    } else if a == 0x435 {
        if b == 0x300 {
            Some(0x450)
        } else if b == 0x306 {
            Some(0x4d7)
        } else if b == 0x308 {
            Some(0x451)
        } else {
            None
        }
    } else if a == 0x436 {
        if b == 0x306 {
            Some(0x4c2)
        } else if b == 0x308 {
            Some(0x4dd)
        } else {
            None
        }
    } else if a == 0x437 {
        if b == 0x308 {
            Some(0x4df)
        } else {
            None
        }
    } else if a == 0x438 {
        if b == 0x300 {
            Some(0x45d)
        } else if b == 0x304 {
            Some(0x4e3)
        } else if b == 0x306 {
            Some(0x439)
        } else if b == 0x308 {
            Some(0x4e5)
        } else {
            None
        }
    } else if a == 0x43a {
        if b == 0x301 {
            Some(0x45c)
        } else {
            None
        }
    } else if a == 0x43e {
        if b == 0x308 {
            Some(0x4e7)
        } else {
            None
        }
    } else if a == 0x443 {
        if b == 0x304 {
            Some(0x4ef)
        } else if b == 0x306 {
            Some(0x45e)
        } else if b == 0x308 {
            Some(0x4f1)
        } else if b == 0x30b {
            Some(0x4f3)
        } else {
            None
        }
    } else if a == 0x447 {
        if b == 0x308 {
            Some(0x4f5)
        } else {
            None
        }
    } else if a == 0x44b {
        if b == 0x308 {
            Some(0x4f9)
        } else {
            None
        }
    } else if a == 0x44d {
        if b == 0x308 {
            Some(0x4ed)
        } else {
            None
        }
    } else if a == 0x456 {
        if b == 0x308 {
            Some(0x457)
        } else {
            None
        }
    } else if a == 0x474 {
        if b == 0x30f {
            Some(0x476)
        } else {
            None
        }
    } else if a == 0x475 {
        if b == 0x30f {
            Some(0x477)
        } else {
            None
        }
    } else if a == 0x4d8 {
        if b == 0x308 {
            Some(0x4da)
        } else {
            None
        }
    } else if a == 0x4d9 {
        if b == 0x308 {
            Some(0x4db)
        } else {
            None
        }
    } else if a == 0x4e8 {
        if b == 0x308 {
            Some(0x4ea)
        } else {
            None
        }
    } else if a == 0x4e9 {
        if b == 0x308 {
            Some(0x4eb)
        } else {
            None
        }
    } else {
        None
    }
}

pub open spec fn compose_006(a: u32, b: u32) -> Option<u32> {
    if a == 0x627 {
        if b == 0x653 {
            Some(0x622u32)
        } else if b == 0x654 {
            Some(0x623u32)
        } else if b == 0x655 {
            Some(0x625u32)
        } else {
            None
        }
    } else if a == 0x648 {
        if b == 0x654 {
            Some(0x624u32)
        } else {
            None
        }
    } else if a == 0x64a {
        if b == 0x654 {
            Some(0x626u32)
        } else {
            None
        }
    } else if a == 0x6c1 {
        if b == 0x654 {
            Some(0x6c2u32)
        } else {
            None
        }
    } else if a == 0x6d2 {
        if b == 0x654 {
            Some(0x6d3u32)
        } else {
            None
        }
    } else if a == 0x6d5 {
        if b == 0x654 {
            Some(0x6c0u32)
        } else {
            None
        }
    } else {
        None
    }
}

fn compose_pair_006(a: u32, b: u32) -> (r: Option<u32>)
    ensures
        r == compose_006(a, b),
{
    if a == 0x627 {
        if b == 0x653 {
            Some(0x622)
        } else if b == 0x654 {
            Some(0x623)
        } else if b == 0x655 {
            Some(0x625)
        } else {
            None
        }
    } else if a == 0x648 {
        if b == 0x654 {
            Some(0x624)
        } else {
            None
        }
    } else if a == 0x64a {
        if b == 0x654 {
            Some(0x626)
        } else {
            None
        }
    } else if a == 0x6c1 {
        if b == 0x654 {
            Some(0x6c2)
        } else {
            None
        }
    } else if a == 0x6d2 {
        if b == 0x654 {
            Some(0x6d3)
        } else {
            None
        }
    } else if a == 0x6d5 {
        if b == 0x654 {
            Some(0x6c0)
        } else {
            None
        }
    } else {
        None
    }
}

pub open spec fn compose_009(a: u32, b: u32) -> Option<u32> {
    if a == 0x928 {
        if b == 0x93c {
            Some(0x929u32)
        } else {
            None
        }
    } else if a == 0x930 {
        if b == 0x93c {
            Some(0x931u32)
        } else {
            None
        }
    } else if a == 0x933 {
        if b == 0x93c {
            Some(0x934u32)
        } else {
            None
        }
    } else if a == 0x9c7 {
        if b == 0x9be {
            Some(0x9cbu32)
        } else if b == 0x9d7 {
            Some(0x9ccu32)
        } else {
            None
        }
    } else {
        None
    }
}

fn compose_pair_009(a: u32, b: u32) -> (r: Option<u32>)
    ensures
        r == compose_009(a, b),
{
    if a == 0x928 {
        if b == 0x93c {
            Some(0x929)
        } else {
            None
        }
    } else if a == 0x930 {
        if b == 0x93c {
            Some(0x931)
        } else {
            None
        }
    } else if a == 0x933 {
        if b == 0x93c {
            Some(0x934)
        } else {
            None
        }
    } else if a == 0x9c7 {
        if b == 0x9be {
            Some(0x9cb)
        } else if b == 0x9d7 {
            Some(0x9cc)
        } else {
            None
        }
    } else {
        None
    }
}

pub open spec fn compose_00b(a: u32, b: u32) -> Option<u32> {
    if a == 0xb47 {
        if b == 0xb3e {
            Some(0xb4bu32)
        } else if b == 0xb56 {
            Some(0xb48u32)
        } else if b == 0xb57 {
            Some(0xb4cu32)
        } else {
            None
        }
    } else if a == 0xb92 {
        if b == 0xbd7 {
            Some(0xb94u32)
        } else {
            None
        }
    } else if a == 0xbc6 {
        if b == 0xbbe {
            Some(0xbcau32)
        } else if b == 0xbd7 {
            Some(0xbccu32)
        } else {
            None
        }
    } else if a == 0xbc7 {
        if b == 0xbbe {
            Some(0xbcbu32)
        } else {
            None
        }
    } else {
        None
    }
}

fn compose_pair_00b(a: u32, b: u32) -> (r: Option<u32>)
    ensures
        r == compose_00b(a, b),
{
    if a == 0xb47 {
        if b == 0xb3e {
            Some(0xb4b)
        } else if b == 0xb56 {
            Some(0xb48)
        } else if b == 0xb57 {
            Some(0xb4c)
        } else {
            None
        }
    } else if a == 0xb92 {
        if b == 0xbd7 {
            Some(0xb94)
        } else {
            None
        }
    } else if a == 0xbc6 {
        if b == 0xbbe {
            Some(0xbca)
        } else if b == 0xbd7 {
            Some(0xbcc)
        } else {
            None
        }
    } else if a == 0xbc7 {
        if b == 0xbbe {
            Some(0xbcb)
        } else {
            None
        }
    } else {
        None
    }
}

pub open spec fn compose_00c(a: u32, b: u32) -> Option<u32> {
    if a == 0xc46 {
        if b == 0xc56 {
            Some(0xc48u32)
        } else {
            None
        }
    } else if a == 0xcbf {
        if b == 0xcd5 {
            Some(0xcc0u32)
        } else {
            None
        }
    } else if a == 0xcc6 {
        if b == 0xcc2 {
            Some(0xccau32)
        } else if b == 0xcd5 {
            Some(0xcc7u32)
        } else if b == 0xcd6 {
            Some(0xcc8u32)
        } else {
            None
        }
    } else if a == 0xcca {
        if b == 0xcd5 {
            Some(0xccbu32)
        } else {
            None
        }
    } else {
        None
    }
}

fn compose_pair_00c(a: u32, b: u32) -> (r: Option<u32>)
    ensures
        r == compose_00c(a, b),
{
    if a == 0xc46 {
        if b == 0xc56 {
            Some(0xc48)
        } else {
            None
        }
    } else if a == 0xcbf {
        if b == 0xcd5 {
            Some(0xcc0)
        } else {
            None
        }
    } else if a == 0xcc6 {
        if b == 0xcc2 {
            Some(0xcca)
        } else if b == 0xcd5 {
            Some(0xcc7)
        } else if b == 0xcd6 {
            Some(0xcc8)
        } else {
            None
        }
    } else if a == 0xcca {
        if b == 0xcd5 {
            Some(0xccb)
        } else {
            None
        }
    } else {
        None
    }
}

pub open spec fn compose_00d(a: u32, b: u32) -> Option<u32> {
    if a == 0xd46 {
        if b == 0xd3e {
            Some(0xd4au32)
        } else if b == 0xd57 {
            Some(0xd4cu32)
        } else {
            None
        }
    } else if a == 0xd47 {
        if b == 0xd3e {
            Some(0xd4bu32)
        } else {
            None
        }
    } else if a == 0xdd9 {
        if b == 0xdca {
            Some(0xddau32)
        } else if b == 0xdcf {
            Some(0xddcu32)
        } else if b == 0xddf {
            Some(0xddeu32)
        } else {
            None
        }
    } else if a == 0xddc {
        if b == 0xdca {
            Some(0xdddu32)
        } else {
            None
        }
    } else {
        None
    }
}

fn compose_pair_00d(a: u32, b: u32) -> (r: Option<u32>)
    ensures
        r == compose_00d(a, b),
{
    if a == 0xd46 {
        if b == 0xd3e {
            Some(0xd4a)
        } else if b == 0xd57 {
            Some(0xd4c)
        } else {
            None
        }
    } else if a == 0xd47 {
        if b == 0xd3e {
            Some(0xd4b)
        } else {
            None
        }
    } else if a == 0xdd9 {
        if b == 0xdca {
            Some(0xdda)
        } else if b == 0xdcf {
            Some(0xddc)
        } else if b == 0xddf {
            Some(0xdde)
        } else {
            None
        }
    } else if a == 0xddc {
        if b == 0xdca {
            Some(0xddd)
        } else {
            None
        }
    } else {
        None
    }
}

pub open spec fn compose_010(a: u32, b: u32) -> Option<u32> {
    if a == 0x1025 {
        if b == 0x102e {
            Some(0x1026u32)
        } else {
            None
        }
    } else {
        None
    }
}

fn compose_pair_010(a: u32, b: u32) -> (r: Option<u32>)
    ensures
        r == compose_010(a, b),
{
    if a == 0x1025 {
        if b == 0x102e {
            Some(0x1026)
        } else {
            None
        }
    } else {
        None
    }
}

pub open spec fn compose_01b(a: u32, b: u32) -> Option<u32> {
    if a == 0x1b05 {
        if b == 0x1b35 {
            Some(0x1b06u32)
        } else {
            None
        }
    } else if a == 0x1b07 {
        if b == 0x1b35 {
            Some(0x1b08u32)
        } else {
            None
        }
    } else if a == 0x1b09 {
        if b == 0x1b35 {
            Some(0x1b0au32)
        } else {
            None
        }
    } else if a == 0x1b0b {
        if b == 0x1b35 {
            Some(0x1b0cu32)
        } else {
            None
        }
    } else if a == 0x1b0d {
        if b == 0x1b35 {
            Some(0x1b0eu32)
        } else {
            None
        }
    } else if a == 0x1b11 {
        if b == 0x1b35 {
            Some(0x1b12u32)
        } else {
            None
        }
    } else if a == 0x1b3a {
        if b == 0x1b35 {
            Some(0x1b3bu32)
        } else {
            None
        }
    } else if a == 0x1b3c {
        if b == 0x1b35 {
            Some(0x1b3du32)
        } else {
            None
        }
    } else if a == 0x1b3e {
        if b == 0x1b35 {
            Some(0x1b40u32)
        } else {
            None
        }
    } else if a == 0x1b3f {
        if b == 0x1b35 {
            Some(0x1b41u32)
        } else {
            None
        }
    } else if a == 0x1b42 {
        if b == 0x1b35 {
            Some(0x1b43u32)
        } else {
            None
        }
    } else {
        None
    }
}

fn compose_pair_01b(a: u32, b: u32) -> (r: Option<u32>)
    ensures
        r == compose_01b(a, b),
{
    if a == 0x1b05 {
        if b == 0x1b35 {
            Some(0x1b06)
        } else {
            None
        }
    } else if a == 0x1b07 {
        if b == 0x1b35 {
            Some(0x1b08)
        } else {
            None
        }
    } else if a == 0x1b09 {
        if b == 0x1b35 {
            Some(0x1b0a)
        } else {
            None
        }
    } else if a == 0x1b0b {
        if b == 0x1b35 {
            Some(0x1b0c)
        } else {
            None
        }
    } else if a == 0x1b0d {
        if b == 0x1b35 {
            Some(0x1b0e)
        } else {
            None
        }
    } else if a == 0x1b11 {
        if b == 0x1b35 {
            Some(0x1b12)
        } else {
            None
        }
    } else if a == 0x1b3a {
        if b == 0x1b35 {
            Some(0x1b3b)
        } else {
            None
        }
    } else if a == 0x1b3c {
        if b == 0x1b35 {
            Some(0x1b3d)
        } else {
            None
        }
    } else if a == 0x1b3e {
        if b == 0x1b35 {
            Some(0x1b40)
        } else {
            None
        }
    } else if a == 0x1b3f {
        if b == 0x1b35 {
            Some(0x1b41)
        } else {
            None
        }
    } else if a == 0x1b42 {
        if b == 0x1b35 {
            Some(0x1b43)
        } else {
            None
        }
    } else {
        None
    }
}

pub open spec fn compose_01e(a: u32, b: u32) -> Option<u32> {
    if a == 0x1e36 {
        if b == 0x304 {
            Some(0x1e38u32)
        } else {
            None
        }
    } else if a == 0x1e37 {
        if b == 0x304 {
            Some(0x1e39u32)
        } else {
            None
        }
    } else if a == 0x1e5a {
        if b == 0x304 {
            Some(0x1e5cu32)
        } else {
            None
        }
    } else if a == 0x1e5b {
        if b == 0x304 {
            Some(0x1e5du32)
        } else {
            None
        }
    } else if a == 0x1e62 {
        if b == 0x307 {
            Some(0x1e68u32)
        } else {
            None
        }
    } else if a == 0x1e63 {
        if b == 0x307 {
            Some(0x1e69u32)
        } else {
            None
        }
    } else if a == 0x1ea0 {
        if b == 0x302 {
            Some(0x1eacu32)
        } else if b == 0x306 {
            Some(0x1eb6u32)
        } else {
            None
        }
    } else if a == 0x1ea1 {
        if b == 0x302 {
            Some(0x1eadu32)
        } else if b == 0x306 {
            Some(0x1eb7u32)
        } else {
            None
        }
    } else if a == 0x1eb8 {
        if b == 0x302 {
            Some(0x1ec6u32)
        } else {
            None
        }
    } else if a == 0x1eb9 {
        if b == 0x302 {
            Some(0x1ec7u32)
        } else {
            None
        }
    } else if a == 0x1ecc {
        if b == 0x302 {
            Some(0x1ed8u32)
        } else {
            None
        }
    } else if a == 0x1ecd {
        if b == 0x302 {
            Some(0x1ed9u32)
        } else {
            None
        }
    } else {
        None
    }
}

fn compose_pair_01e(a: u32, b: u32) -> (r: Option<u32>)
    ensures
        r == compose_01e(a, b),
{
    if a == 0x1e36 {
        if b == 0x304 {
            Some(0x1e38)
        } else {
            None
        }
    } else if a == 0x1e37 {
        if b == 0x304 {
            Some(0x1e39)
        } else {
            None
        }
    } else if a == 0x1e5a {
        if b == 0x304 {
            Some(0x1e5c)
        } else {
            None
        }
    } else if a == 0x1e5b {
        if b == 0x304 {
            Some(0x1e5d)
        } else {
            None
        }
    } else if a == 0x1e62 {
        if b == 0x307 {
            Some(0x1e68)
        } else {
            None
        }
    } else if a == 0x1e63 {
        if b == 0x307 {
            Some(0x1e69)
        } else {
            None
        }
    } else if a == 0x1ea0 {
        if b == 0x302 {
            Some(0x1eac)
        } else if b == 0x306 {
            Some(0x1eb6)
        } else {
            None
        }
    } else if a == 0x1ea1 {
        if b == 0x302 {
            Some(0x1ead)
        } else if b == 0x306 {
            Some(0x1eb7)
        } else {
            None
        }
    } else if a == 0x1eb8 {
        if b == 0x302 {
            Some(0x1ec6)
        } else {
            None
        }
    } else if a == 0x1eb9 {
        if b == 0x302 {
            Some(0x1ec7)
        } else {
            None
        }
    } else if a == 0x1ecc {
        if b == 0x302 {
            Some(0x1ed8)
        } else {
            None
        }
    } else if a == 0x1ecd {
        if b == 0x302 {
            Some(0x1ed9)
        } else {
            None
        }
    } else {
        None
    }
}

pub open spec fn compose_01f(a: u32, b: u32) -> Option<u32> {
    if a == 0x1f00 {
        if b == 0x300 {
            Some(0x1f02u32)
        } else if b == 0x301 {
            Some(0x1f04u32)
        } else if b == 0x342 {
            Some(0x1f06u32)
        } else if b == 0x345 {
            Some(0x1f80u32)
        } else {
            None
        }
    } else if a == 0x1f01 {
        if b == 0x300 {
            Some(0x1f03u32)
        } else if b == 0x301 {
            Some(0x1f05u32)
        } else if b == 0x342 {
            Some(0x1f07u32)
        } else if b == 0x345 {
            Some(0x1f81u32)
        } else {
            None
        }
    } else if a == 0x1f02 {
        if b == 0x345 {
            Some(0x1f82u32)
        } else {
            None
        }
    } else if a == 0x1f03 {
        if b == 0x345 {
            Some(0x1f83u32)
        } else {
            None
        }
    } else if a == 0x1f04 {
        if b == 0x345 {
            Some(0x1f84u32)
        } else {
            None
        }
    } else if a == 0x1f05 {
        if b == 0x345 {
            Some(0x1f85u32)
        } else {
            None
        }
    } else if a == 0x1f06 {
        if b == 0x345 {
            Some(0x1f86u32)
        } else {
            None
        }
    } else if a == 0x1f07 {
        if b == 0x345 {
            Some(0x1f87u32)
        } else {
            None
        }
    } else if a == 0x1f08 {
        if b == 0x300 {
            Some(0x1f0au32)
        } else if b == 0x301 {
            Some(0x1f0cu32)
        } else if b == 0x342 {
            Some(0x1f0eu32)
        } else if b == 0x345 {
            Some(0x1f88u32)
        } else {
            None
        }
    } else if a == 0x1f09 {
        if b == 0x300 {
            Some(0x1f0bu32)
        } else if b == 0x301 {
            Some(0x1f0du32)
        } else if b == 0x342 {
            Some(0x1f0fu32)
        } else if b == 0x345 {
            Some(0x1f89u32)
        } else {
            None
        }
    } else if a == 0x1f0a {
        if b == 0x345 {
            Some(0x1f8au32)
        } else {
            None
        }
    } else if a == 0x1f0b {
        if b == 0x345 {
            Some(0x1f8bu32)
        } else {
            None
        }
    } else if a == 0x1f0c {
        if b == 0x345 {
            Some(0x1f8cu32)
        } else {
            None
        }
    } else if a == 0x1f0d {
        if b == 0x345 {
            Some(0x1f8du32)
        } else {
            None
        }
    } else if a == 0x1f0e {
        if b == 0x345 {
            Some(0x1f8eu32)
        } else {
            None
        }
    } else if a == 0x1f0f {
        if b == 0x345 {
            Some(0x1f8fu32)
        } else {
            None
        }
    } else if a == 0x1f10 {
        if b == 0x300 {
            Some(0x1f12u32)
        } else if b == 0x301 {
            Some(0x1f14u32)
        } else {
            None
        }
    } else if a == 0x1f11 {
        if b == 0x300 {
            Some(0x1f13u32)
        } else if b == 0x301 {
            Some(0x1f15u32)
        } else {
            None
        }
    } else if a == 0x1f18 {
        if b == 0x300 {
            Some(0x1f1au32)
        } else if b == 0x301 {
            Some(0x1f1cu32)
        } else {
            None
        }
    } else if a == 0x1f19 {
        if b == 0x300 {
            Some(0x1f1bu32)
        } else if b == 0x301 {
            Some(0x1f1du32)
        } else {
            None
        }
    } else if a == 0x1f20 {
        if b == 0x300 {
            Some(0x1f22u32)
        } else if b == 0x301 {
            Some(0x1f24u32)
        } else if b == 0x342 {
            Some(0x1f26u32)
        } else if b == 0x345 {
            Some(0x1f90u32)
        } else {
            None
        }
    } else if a == 0x1f21 {
        if b == 0x300 {
            Some(0x1f23u32)
        } else if b == 0x301 {
            Some(0x1f25u32)
        } else if b == 0x342 {
            Some(0x1f27u32)
        } else if b == 0x345 {
            Some(0x1f91u32)
        } else {
            None
        }
    } else if a == 0x1f22 {
        if b == 0x345 {
            Some(0x1f92u32)
        } else {
            None
        }
    } else if a == 0x1f23 {
        if b == 0x345 {
            Some(0x1f93u32)
        } else {
            None
        }
    } else if a == 0x1f24 {
        if b == 0x345 {
            Some(0x1f94u32)
        } else {
            None
        }
    } else if a == 0x1f25 {
        if b == 0x345 {
            Some(0x1f95u32)
        } else {
            None
        }
    } else if a == 0x1f26 {
        if b == 0x345 {
            Some(0x1f96u32)
        } else {
            None
        }
    } else if a == 0x1f27 {
        if b == 0x345 {
            Some(0x1f97u32)
        } else {
            None
        }
    } else if a == 0x1f28 {
        if b == 0x300 {
            Some(0x1f2au32)
        } else if b == 0x301 {
            Some(0x1f2cu32)
        } else if b == 0x342 {
            Some(0x1f2eu32)
        } else if b == 0x345 {
            Some(0x1f98u32)
        } else {
            None
        }
    } else if a == 0x1f29 {
        if b == 0x300 {
            Some(0x1f2bu32)
        } else if b == 0x301 {
            Some(0x1f2du32)
        } else if b == 0x342 {
            Some(0x1f2fu32)
        } else if b == 0x345 {
            Some(0x1f99u32)
        } else {
            None
        }
    } else if a == 0x1f2a {
        if b == 0x345 {
            Some(0x1f9au32)
        } else {
            None
        }
    } else if a == 0x1f2b {
        if b == 0x345 {
            Some(0x1f9bu32)
        } else {
            None
        }
    } else if a == 0x1f2c {
        if b == 0x345 {
            Some(0x1f9cu32)
        } else {
            None
        }
    } else if a == 0x1f2d {
        if b == 0x345 {
            Some(0x1f9du32)
        } else {
            None
        }
    } else if a == 0x1f2e {
        if b == 0x345 {
            Some(0x1f9eu32)
        } else {
            None
        }
    } else if a == 0x1f2f {
        if b == 0x345 {
            Some(0x1f9fu32)
        } else {
            None
        }
    } else if a == 0x1f30 {
        if b == 0x300 {
            Some(0x1f32u32)
        } else if b == 0x301 {
            Some(0x1f34u32)
        } else if b == 0x342 {
            Some(0x1f36u32)
        } else {
            None
        }
    } else if a == 0x1f31 {
        if b == 0x300 {
            Some(0x1f33u32)
        } else if b == 0x301 {
            Some(0x1f35u32)
        } else if b == 0x342 {
            Some(0x1f37u32)
        } else {
            None
        }
    } else if a == 0x1f38 {
        if b == 0x300 {
            Some(0x1f3au32)
        } else if b == 0x301 {
            Some(0x1f3cu32)
        } else if b == 0x342 {
            Some(0x1f3eu32)
        } else {
            None
        }
    } else if a == 0x1f39 {
        if b == 0x300 {
            Some(0x1f3bu32)
        } else if b == 0x301 {
            Some(0x1f3du32)
        } else if b == 0x342 {
            Some(0x1f3fu32)
        } else {
            None
        }
    } else if a == 0x1f40 {
        if b == 0x300 {
            Some(0x1f42u32)
        } else if b == 0x301 {
            Some(0x1f44u32)
        } else {
            None
        }
    } else if a == 0x1f41 {
        if b == 0x300 {
            Some(0x1f43u32)
        } else if b == 0x301 {
            Some(0x1f45u32)
        } else {
            None
        }
    } else if a == 0x1f48 {
        if b == 0x300 {
            Some(0x1f4au32)
        } else if b == 0x301 {
            Some(0x1f4cu32)
        } else {
            None
        }
    } else if a == 0x1f49 {
        if b == 0x300 {
            Some(0x1f4bu32)
        } else if b == 0x301 {
            Some(0x1f4du32)
        } else {
            None
        }
    } else if a == 0x1f50 {
        if b == 0x300 {
            Some(0x1f52u32)
        } else if b == 0x301 {
            Some(0x1f54u32)
        } else if b == 0x342 {
            Some(0x1f56u32)
        } else {
            None
        }
    } else if a == 0x1f51 {
        if b == 0x300 {
            Some(0x1f53u32)
        } else if b == 0x301 {
            Some(0x1f55u32)
        } else if b == 0x342 {
            Some(0x1f57u32)
        } else {
            None
        }
    } else if a == 0x1f59 {
        if b == 0x300 {
            Some(0x1f5bu32)
        } else if b == 0x301 {
            Some(0x1f5du32)
        } else if b == 0x342 {
            Some(0x1f5fu32)
        } else {
            None
        }
    } else if a == 0x1f60 {
        if b == 0x300 {
            Some(0x1f62u32)
        } else if b == 0x301 {
            Some(0x1f64u32)
        } else if b == 0x342 {
            Some(0x1f66u32)
        } else if b == 0x345 {
            Some(0x1fa0u32)
        } else {
            None
        }
    } else if a == 0x1f61 {
        if b == 0x300 {
            Some(0x1f63u32)
        } else if b == 0x301 {
            Some(0x1f65u32)
        } else if b == 0x342 {
            Some(0x1f67u32)
        } else if b == 0x345 {
            Some(0x1fa1u32)
        } else {
            None
        }
    } else if a == 0x1f62 {
        if b == 0x345 {
            Some(0x1fa2u32)
        } else {
            None
        }
    } else if a == 0x1f63 {
        if b == 0x345 {
            Some(0x1fa3u32)
        } else {
            None
        }
    } else if a == 0x1f64 {
        if b == 0x345 {
            Some(0x1fa4u32)
        } else {
            None
        }
    } else if a == 0x1f65 {
        if b == 0x345 {
            Some(0x1fa5u32)
        } else {
            None
        }
    } else if a == 0x1f66 {
        if b == 0x345 {
            Some(0x1fa6u32)
        } else {
            None
        }
    } else if a == 0x1f67 {
        if b == 0x345 {
            Some(0x1fa7u32)
        } else {
            None
        }
    } else if a == 0x1f68 {
        if b == 0x300 {
            Some(0x1f6au32)
        } else if b == 0x301 {
            Some(0x1f6cu32)
        } else if b == 0x342 {
            Some(0x1f6eu32)
        } else if b == 0x345 {
            Some(0x1fa8u32)
        } else {
            None
        }
    } else if a == 0x1f69 {
        if b == 0x300 {
            Some(0x1f6bu32)
        } else if b == 0x301 {
            Some(0x1f6du32)
        } else if b == 0x342 {
            Some(0x1f6fu32)
        } else if b == 0x345 {
            Some(0x1fa9u32)
        } else {
            None
        }
    } else if a == 0x1f6a {
        if b == 0x345 {
            Some(0x1faau32)
        } else {
            None
        }
    } else if a == 0x1f6b {
        if b == 0x345 {
            Some(0x1fabu32)
        } else {
            None
        }
    } else if a == 0x1f6c {
        if b == 0x345 {
            Some(0x1facu32)
        } else {
            None
        }
    } else if a == 0x1f6d {
        if b == 0x345 {
            Some(0x1fadu32)
        } else {
            None
        }
    } else if a == 0x1f6e {
        if b == 0x345 {
            Some(0x1faeu32)
        } else {
            None
        }
    } else if a == 0x1f6f {
        if b == 0x345 {
            Some(0x1fafu32)
        } else {
            None
        }
    } else if a == 0x1f70 {
        if b == 0x345 {
            Some(0x1fb2u32)
        } else {
            None
        }
    } else if a == 0x1f74 {
        if b == 0x345 {
            Some(0x1fc2u32)
        } else {
            None
        }
    } else if a == 0x1f7c {
        if b == 0x345 {
            Some(0x1ff2u32)
        } else {
            None
        }
    } else if a == 0x1fb6 {
        if b == 0x345 {
            Some(0x1fb7u32)
        } else {
            None
        }
    } else if a == 0x1fbf {
        if b == 0x300 {
            Some(0x1fcdu32)
        } else if b == 0x301 {
            Some(0x1fceu32)
        } else if b == 0x342 {
            Some(0x1fcfu32)
        } else {
            None
        }
    } else if a == 0x1fc6 {
        if b == 0x345 {
            Some(0x1fc7u32)
        } else {
            None
        }
    } else if a == 0x1ff6 {
        if b == 0x345 {
            Some(0x1ff7u32)
        } else {
            None
        }
    } else if a == 0x1ffe {
        if b == 0x300 {
            Some(0x1fddu32)
        } else if b == 0x301 {
            Some(0x1fdeu32)
        } else if b == 0x342 {
            Some(0x1fdfu32)
        } else {
            None
        }
    } else {
        None
    }
}

fn compose_pair_01f(a: u32, b: u32) -> (r: Option<u32>)
    ensures
        r == compose_01f(a, b),
{
    if a == 0x1f00 {
        if b == 0x300 {
            Some(0x1f02)
        } else if b == 0x301 {
            Some(0x1f04)
        } else if b == 0x342 {
            Some(0x1f06)
        } else if b == 0x345 {
            Some(0x1f80)
        } else {
            None
        }
    } else if a == 0x1f01 {
        if b == 0x300 {
            Some(0x1f03)
        } else if b == 0x301 {
            Some(0x1f05)
        } else if b == 0x342 {
            Some(0x1f07)
        } else if b == 0x345 {
            Some(0x1f81)
        } else {
            None
        }
    } else if a == 0x1f02 {
        if b == 0x345 {
            Some(0x1f82)
        } else {
            None
        }
    } else if a == 0x1f03 {
        if b == 0x345 {
            Some(0x1f83)
        } else {
            None
        }
    } else if a == 0x1f04 {
        if b == 0x345 {
            Some(0x1f84)
        } else {
            None
        }
    } else if a == 0x1f05 {
        if b == 0x345 {
            Some(0x1f85)
        } else {
            None
        }
    } else if a == 0x1f06 {
        if b == 0x345 {
            Some(0x1f86)
        } else {
            None
        }
    } else if a == 0x1f07 {
        if b == 0x345 {
            Some(0x1f87)
        } else {
            None
        }
    } else if a == 0x1f08 {
        if b == 0x300 {
            Some(0x1f0a)
        } else if b == 0x301 {
            Some(0x1f0c)
        } else if b == 0x342 {
            Some(0x1f0e)
        } else if b == 0x345 {
            Some(0x1f88)
        } else {
            None
        }
    } else if a == 0x1f09 {
        if b == 0x300 {
            Some(0x1f0b)
        } else if b == 0x301 {
            Some(0x1f0d)
        } else if b == 0x342 {
            Some(0x1f0f)
        } else if b == 0x345 {
            Some(0x1f89)
        } else {
            None
        }
    } else if a == 0x1f0a {
        if b == 0x345 {
            Some(0x1f8a)
        } else {
            None
        }
    } else if a == 0x1f0b {
        if b == 0x345 {
            Some(0x1f8b)
        } else {
            None
        }
    } else if a == 0x1f0c {
        if b == 0x345 {
            Some(0x1f8c)
        } else {
            None
        }
    } else if a == 0x1f0d {
        if b == 0x345 {
            Some(0x1f8d)
        } else {
            None
        }
    } else if a == 0x1f0e {
        if b == 0x345 {
            Some(0x1f8e)
        } else {
            None
        }
    } else if a == 0x1f0f {
        if b == 0x345 {
            Some(0x1f8f)
        } else {
            None
        }
    } else if a == 0x1f10 {
        if b == 0x300 {
            Some(0x1f12)
        } else if b == 0x301 {
            Some(0x1f14)
        } else {
            None
        }
    } else if a == 0x1f11 {
        if b == 0x300 {
            Some(0x1f13)
        } else if b == 0x301 {
            Some(0x1f15)
        } else {
            None
        }
    } else if a == 0x1f18 {
        if b == 0x300 {
            Some(0x1f1a)
        } else if b == 0x301 {
            Some(0x1f1c)
        } else {
            None
        }
    } else if a == 0x1f19 {
        if b == 0x300 {
            Some(0x1f1b)
        } else if b == 0x301 {
            Some(0x1f1d)
        } else {
            None
        }
    } else if a == 0x1f20 {
        if b == 0x300 {
            Some(0x1f22)
        } else if b == 0x301 {
            Some(0x1f24)
        } else if b == 0x342 {
            Some(0x1f26)
        } else if b == 0x345 {
            Some(0x1f90)
        } else {
            None
        }
    } else if a == 0x1f21 {
        if b == 0x300 {
            Some(0x1f23)
        } else if b == 0x301 {
            Some(0x1f25)
        } else if b == 0x342 {
            Some(0x1f27)
        } else if b == 0x345 {
            Some(0x1f91)
        } else {
            None
        }
    } else if a == 0x1f22 {
        if b == 0x345 {
            Some(0x1f92)
        } else {
            None
        }
    } else if a == 0x1f23 {
        if b == 0x345 {
            Some(0x1f93)
        } else {
            None
        }
    } else if a == 0x1f24 {
        if b == 0x345 {
            Some(0x1f94)
        } else {
            None
        }
    } else if a == 0x1f25 {
        if b == 0x345 {
            Some(0x1f95)
        } else {
            None
        }
    } else if a == 0x1f26 {
        if b == 0x345 {
            Some(0x1f96)
        } else {
            None
        }
    } else if a == 0x1f27 {
        if b == 0x345 {
            Some(0x1f97)
        } else {
            None
        }
    } else if a == 0x1f28 {
        if b == 0x300 {
            Some(0x1f2a)
        } else if b == 0x301 {
            Some(0x1f2c)
        } else if b == 0x342 {
            Some(0x1f2e)
        } else if b == 0x345 {
            Some(0x1f98)
        } else {
            None
        }
    } else if a == 0x1f29 {
        if b == 0x300 {
            Some(0x1f2b)
        } else if b == 0x301 {
            Some(0x1f2d)
        } else if b == 0x342 {
            Some(0x1f2f)
        } else if b == 0x345 {
            Some(0x1f99)
        } else {
            None
        }
    } else if a == 0x1f2a {
        if b == 0x345 {
            Some(0x1f9a)
        } else {
            None
        }
    } else if a == 0x1f2b {
        if b == 0x345 {
            Some(0x1f9b)
        } else {
            None
        }
    } else if a == 0x1f2c {
        if b == 0x345 {
            Some(0x1f9c)
        } else {
            None
        }
    } else if a == 0x1f2d {
        if b == 0x345 {
            Some(0x1f9d)
        } else {
            None
        }
    } else if a == 0x1f2e {
        if b == 0x345 {
            Some(0x1f9e)
        } else {
            None
        }
    } else if a == 0x1f2f {
        if b == 0x345 {
            Some(0x1f9f)
        } else {
            None
        }
    } else if a == 0x1f30 {
        if b == 0x300 {
            Some(0x1f32)
        } else if b == 0x301 {
            Some(0x1f34)
        } else if b == 0x342 {
            Some(0x1f36)
        } else {
            None
        }
    } else if a == 0x1f31 {
        if b == 0x300 {
            Some(0x1f33)
        } else if b == 0x301 {
            Some(0x1f35)
        } else if b == 0x342 {
            Some(0x1f37)
        } else {
            None
        }
    } else if a == 0x1f38 {
        if b == 0x300 {
            Some(0x1f3a)
        } else if b == 0x301 {
            Some(0x1f3c)
        } else if b == 0x342 {
            Some(0x1f3e)
        } else {
            None
        }
    } else if a == 0x1f39 {
        if b == 0x300 {
            Some(0x1f3b)
        } else if b == 0x301 {
            Some(0x1f3d)
        } else if b == 0x342 {
            Some(0x1f3f)
        } else {
            None
        }
    } else if a == 0x1f40 {
        if b == 0x300 {
            Some(0x1f42)
        } else if b == 0x301 {
            Some(0x1f44)
        } else {
            None
        }
    } else if a == 0x1f41 {
        if b == 0x300 {
            Some(0x1f43)
        } else if b == 0x301 {
            Some(0x1f45)
        } else {
            None
        }
    } else if a == 0x1f48 {
        if b == 0x300 {
            Some(0x1f4a)
        } else if b == 0x301 {
            Some(0x1f4c)
        } else {
            None
        }
    } else if a == 0x1f49 {
        if b == 0x300 {
            Some(0x1f4b)
        } else if b == 0x301 {
            Some(0x1f4d)
        } else {
            None
        }
    } else if a == 0x1f50 {
        if b == 0x300 {
            Some(0x1f52)
        } else if b == 0x301 {
            Some(0x1f54)
        } else if b == 0x342 {
            Some(0x1f56)
        } else {
            None
        }
    } else if a == 0x1f51 {
        if b == 0x300 {
            Some(0x1f53)
        } else if b == 0x301 {
            Some(0x1f55)
        } else if b == 0x342 {
            Some(0x1f57)
        } else {
            None
        }
    } else if a == 0x1f59 {
        if b == 0x300 {
            Some(0x1f5b)
        } else if b == 0x301 {
            Some(0x1f5d)
        } else if b == 0x342 {
            Some(0x1f5f)
        } else {
            None
        }
    } else if a == 0x1f60 {
        if b == 0x300 {
            Some(0x1f62)
        } else if b == 0x301 {
            Some(0x1f64)
        } else if b == 0x342 {
            Some(0x1f66)
        } else if b == 0x345 {
            Some(0x1fa0)
        } else {
            None
        }
    } else if a == 0x1f61 {
        if b == 0x300 {
            Some(0x1f63)
        } else if b == 0x301 {
            Some(0x1f65)
        } else if b == 0x342 {
            Some(0x1f67)
        } else if b == 0x345 {
            Some(0x1fa1)
        } else {
            None
        }
    } else if a == 0x1f62 {
        if b == 0x345 {
            Some(0x1fa2)
        } else {
            None
        }
    } else if a == 0x1f63 {
        if b == 0x345 {
            Some(0x1fa3)
        } else {
            None
        }
    } else if a == 0x1f64 {
        if b == 0x345 {
            Some(0x1fa4)
        } else {
            None
        }
    } else if a == 0x1f65 {
        if b == 0x345 {
            Some(0x1fa5)
        } else {
            None
        }
    } else if a == 0x1f66 {
        if b == 0x345 {
            Some(0x1fa6)
        } else {
            None
        }
    } else if a == 0x1f67 {
        if b == 0x345 {
            Some(0x1fa7)
        } else {
            None
        }
    } else if a == 0x1f68 {
        if b == 0x300 {
            Some(0x1f6a)
        } else if b == 0x301 {
            Some(0x1f6c)
        } else if b == 0x342 {
            Some(0x1f6e)
        } else if b == 0x345 {
            Some(0x1fa8)
        } else {
            None
        }
    } else if a == 0x1f69 {
        if b == 0x300 {
            Some(0x1f6b)
        } else if b == 0x301 {
            Some(0x1f6d)
        } else if b == 0x342 {
            Some(0x1f6f)
        } else if b == 0x345 {
            Some(0x1fa9)
        } else {
            None
        }
    } else if a == 0x1f6a {
        if b == 0x345 {
            Some(0x1faa)
        } else {
            None
        }
    } else if a == 0x1f6b {
        if b == 0x345 {
            Some(0x1fab)
        } else {
            None
        }
    } else if a == 0x1f6c {
        if b == 0x345 {
            Some(0x1fac)
        } else {
            None
        }
    } else if a == 0x1f6d {
        if b == 0x345 {
            Some(0x1fad)
        } else {
            None
        }
    } else if a == 0x1f6e {
        if b == 0x345 {
            Some(0x1fae)
        } else {
            None
        }
    } else if a == 0x1f6f {
        if b == 0x345 {
            Some(0x1faf)
        } else {
            None
        }
    } else if a == 0x1f70 {
        if b == 0x345 {
            Some(0x1fb2)
        } else {
            None
        }
    } else if a == 0x1f74 {
        if b == 0x345 {
            Some(0x1fc2)
        } else {
            None
        }
    } else if a == 0x1f7c {
        if b == 0x345 {
            Some(0x1ff2)
        } else {
            None
        }
    } else if a == 0x1fb6 {
        if b == 0x345 {
            Some(0x1fb7)
        } else {
            None
        }
    } else if a == 0x1fbf {
        if b == 0x300 {
            Some(0x1fcd)
        } else if b == 0x301 {
            Some(0x1fce)
        } else if b == 0x342 {
            Some(0x1fcf)
        } else {
            None
        }
    } else if a == 0x1fc6 {
        if b == 0x345 {
            Some(0x1fc7)
        } else {
            None
        }
    } else if a == 0x1ff6 {
        if b == 0x345 {
            Some(0x1ff7)
        } else {
            None
        }
    } else if a == 0x1ffe {
        if b == 0x300 {
            Some(0x1fdd)
        } else if b == 0x301 {
            Some(0x1fde)
        } else if b == 0x342 {
            Some(0x1fdf)
        } else {
            None
        }
    } else {
        None
    }
}

pub open spec fn compose_021(a: u32, b: u32) -> Option<u32> {
    if a == 0x2190 {
        if b == 0x338 {
            Some(0x219au32)
        } else {
            None
        }
    } else if a == 0x2192 {
        if b == 0x338 {
            Some(0x219bu32)
        } else {
            None
        }
    } else if a == 0x2194 {
        if b == 0x338 {
            Some(0x21aeu32)
        } else {
            None
        }
    } else if a == 0x21d0 {
        if b == 0x338 {
            Some(0x21cdu32)
        } else {
            None
        }
    } else if a == 0x21d2 {
        if b == 0x338 {
            Some(0x21cfu32)
        } else {
            None
        }
    } else if a == 0x21d4 {
        if b == 0x338 {
            Some(0x21ceu32)
        } else {
            None
        }
    } else {
        None
    }
}

fn compose_pair_021(a: u32, b: u32) -> (r: Option<u32>)
    ensures
        r == compose_021(a, b),
{
    if a == 0x2190 {
        if b == 0x338 {
            Some(0x219a)
        } else {
            None
        }
    } else if a == 0x2192 {
        if b == 0x338 {
            Some(0x219b)
        } else {
            None
        }
    } else if a == 0x2194 {
        if b == 0x338 {
            Some(0x21ae)
        } else {
            None
        }
    } else if a == 0x21d0 {
        if b == 0x338 {
            Some(0x21cd)
        } else {
            None
        }
    } else if a == 0x21d2 {
        if b == 0x338 {
            Some(0x21cf)
        } else {
            None
        }
    } else if a == 0x21d4 {
        if b == 0x338 {
            Some(0x21ce)
        } else {
            None
        }
    } else {
        None
    }
}

pub open spec fn compose_022(a: u32, b: u32) -> Option<u32> {
    if a == 0x2203 {
        if b == 0x338 {
            Some(0x2204u32)
        } else {
            None
        }
    } else if a == 0x2208 {
        if b == 0x338 {
            Some(0x2209u32)
        } else {
            None
        }
    } else if a == 0x220b {
        if b == 0x338 {
            Some(0x220cu32)
        } else {
            None
        }
    } else if a == 0x2223 {
        if b == 0x338 {
            Some(0x2224u32)
        } else {
            None
        }
    } else if a == 0x2225 {
        if b == 0x338 {
            Some(0x2226u32)
        } else {
            None
        }
    } else if a == 0x223c {
        if b == 0x338 {
            Some(0x2241u32)
        } else {
            None
        }
    } else if a == 0x2243 {
        if b == 0x338 {
            Some(0x2244u32)
        } else {
            None
        }
    } else if a == 0x2245 {
        if b == 0x338 {
            Some(0x2247u32)
        } else {
            None
        }
    } else if a == 0x2248 {
        if b == 0x338 {
            Some(0x2249u32)
        } else {
            None
        }
    } else if a == 0x224d {
        if b == 0x338 {
            Some(0x226du32)
        } else {
            None
        }
    } else if a == 0x2261 {
        if b == 0x338 {
            Some(0x2262u32)
        } else {
            None
        }
    } else if a == 0x2264 {
        if b == 0x338 {
            Some(0x2270u32)
        } else {
            None
        }
    } else if a == 0x2265 {
        if b == 0x338 {
            Some(0x2271u32)
        } else {
            None
        }
    } else if a == 0x2272 {
        if b == 0x338 {
            Some(0x2274u32)
        } else {
            None
        }
    } else if a == 0x2273 {
        if b == 0x338 {
            Some(0x2275u32)
        } else {
            None
        }
    } else if a == 0x2276 {
        if b == 0x338 {
            Some(0x2278u32)
        } else {
            None
        }
    } else if a == 0x2277 {
        if b == 0x338 {
            Some(0x2279u32)
        } else {
            None
        }
    } else if a == 0x227a {
        if b == 0x338 {
            Some(0x2280u32)
        } else {
            None
        }
    } else if a == 0x227b {
        if b == 0x338 {
            Some(0x2281u32)
        } else {
            None
        }
    } else if a == 0x227c {
        if b == 0x338 {
            Some(0x22e0u32)
        } else {
            None
        }
    } else if a == 0x227d {
        if b == 0x338 {
            Some(0x22e1u32)
        } else {
            None
        }
    } else if a == 0x2282 {
        if b == 0x338 {
            Some(0x2284u32)
        } else {
            None
        }
    } else if a == 0x2283 {
        if b == 0x338 {
            Some(0x2285u32)
        } else {
            None
        }
    } else if a == 0x2286 {
        if b == 0x338 {
            Some(0x2288u32)
        } else {
            None
        }
    } else if a == 0x2287 {
        if b == 0x338 {
            Some(0x2289u32)
        } else {
            None
        }
    } else if a == 0x2291 {
        if b == 0x338 {
            Some(0x22e2u32)
        } else {
            None
        }
    } else if a == 0x2292 {
        if b == 0x338 {
            Some(0x22e3u32)
        } else {
            None
        }
    } else if a == 0x22a2 {
        if b == 0x338 {
            Some(0x22acu32)
        } else {
            None
        }
    } else if a == 0x22a8 {
        if b == 0x338 {
            Some(0x22adu32)
        } else {
            None
        }
    } else if a == 0x22a9 {
        if b == 0x338 {
            Some(0x22aeu32)
        } else {
            None
        }
    } else if a == 0x22ab {
        if b == 0x338 {
            Some(0x22afu32)
        } else {
            None
        }
    } else if a == 0x22b2 {
        if b == 0x338 {
            Some(0x22eau32)
        } else {
            None
        }
    } else if a == 0x22b3 {
        if b == 0x338 {
            Some(0x22ebu32)
        } else {
            None
        }
    } else if a == 0x22b4 {
        if b == 0x338 {
            Some(0x22ecu32)
        } else {
            None
        }
    } else if a == 0x22b5 {
        if b == 0x338 {
            Some(0x22edu32)
        } else {
            None
        }
    } else {
        None
    }
}

fn compose_pair_022(a: u32, b: u32) -> (r: Option<u32>)
    ensures
        r == compose_022(a, b),
{
    if a == 0x2203 {
        if b == 0x338 {
            Some(0x2204)
        } else {
            None
        }
    } else if a == 0x2208 {
        if b == 0x338 {
            Some(0x2209)
        } else {
            None
        }
    } else if a == 0x220b {
        if b == 0x338 {
            Some(0x220c)
        } else {
            None
        }
    } else if a == 0x2223 {
        if b == 0x338 {
            Some(0x2224)
        } else {
            None
        }
    } else if a == 0x2225 {
        if b == 0x338 {
            Some(0x2226)
        } else {
            None
        }
    } else if a == 0x223c {
        if b == 0x338 {
            Some(0x2241)
        } else {
            None
        }
    } else if a == 0x2243 {
        if b == 0x338 {
            Some(0x2244)
        } else {
            None
        }
    } else if a == 0x2245 {
        if b == 0x338 {
            Some(0x2247)
        } else {
            None
        }
    } else if a == 0x2248 {
        if b == 0x338 {
            Some(0x2249)
        } else {
            None
        }
    } else if a == 0x224d {
        if b == 0x338 {
            Some(0x226d)
        } else {
            None
        }
    } else if a == 0x2261 {
        if b == 0x338 {
            Some(0x2262)
        } else {
            None
        }
    } else if a == 0x2264 {
        if b == 0x338 {
            Some(0x2270)
        } else {
            None
        }
    } else if a == 0x2265 {
        if b == 0x338 {
            Some(0x2271)
        } else {
            None
        }
    } else if a == 0x2272 {
        if b == 0x338 {
            Some(0x2274)
        } else {
            None
        }
    } else if a == 0x2273 {
        if b == 0x338 {
            Some(0x2275)
        } else {
            None
        }
    } else if a == 0x2276 {
        if b == 0x338 {
            Some(0x2278)
        } else {
            None
        }
    } else if a == 0x2277 {
        if b == 0x338 {
            Some(0x2279)
        } else {
            None
        }
    } else if a == 0x227a {
        if b == 0x338 {
            Some(0x2280)
        } else {
            None
        }
    } else if a == 0x227b {
        if b == 0x338 {
            Some(0x2281)
        } else {
            None
        }
    } else if a == 0x227c {
        if b == 0x338 {
            Some(0x22e0)
        } else {
            None
        }
    } else if a == 0x227d {
        if b == 0x338 {
            Some(0x22e1)
        } else {
            None
        }
    } else if a == 0x2282 {
        if b == 0x338 {
            Some(0x2284)
        } else {
            None
        }
    } else if a == 0x2283 {
        if b == 0x338 {
            Some(0x2285)
        } else {
            None
        }
    } else if a == 0x2286 {
        if b == 0x338 {
            Some(0x2288)
        } else {
            None
        }
    } else if a == 0x2287 {
        if b == 0x338 {
            Some(0x2289)
        } else {
            None
        }
    } else if a == 0x2291 {
        if b == 0x338 {
            Some(0x22e2)
        } else {
            None
        }
    } else if a == 0x2292 {
        if b == 0x338 {
            Some(0x22e3)
        } else {
            None
        }
    } else if a == 0x22a2 {
        if b == 0x338 {
            Some(0x22ac)
        } else {
            None
        }
    } else if a == 0x22a8 {
        if b == 0x338 {
            Some(0x22ad)
        } else {
            None
        }
    } else if a == 0x22a9 {
        if b == 0x338 {
            Some(0x22ae)
        } else {
            None
        }
    } else if a == 0x22ab {
        if b == 0x338 {
            Some(0x22af)
        } else {
            None
        }
    } else if a == 0x22b2 {
        if b == 0x338 {
            Some(0x22ea)
        } else {
            None
        }
    } else if a == 0x22b3 {
        if b == 0x338 {
            Some(0x22eb)
        } else {
            None
        }
    } else if a == 0x22b4 {
        if b == 0x338 {
            Some(0x22ec)
        } else {
            None
        }
    } else if a == 0x22b5 {
        if b == 0x338 {
            Some(0x22ed)
        } else {
            None
        }
    } else {
        None
    }
}

pub open spec fn compose_030(a: u32, b: u32) -> Option<u32> {
    if a == 0x3046 {
        if b == 0x3099 {
            Some(0x3094u32)
        } else {
            None
        }
    } else if a == 0x304b {
        if b == 0x3099 {
            Some(0x304cu32)
        } else {
            None
        }
    } else if a == 0x304d {
        if b == 0x3099 {
            Some(0x304eu32)
        } else {
            None
        }
    } else if a == 0x304f {
        if b == 0x3099 {
            Some(0x3050u32)
        } else {
            None
        }
    } else if a == 0x3051 {
        if b == 0x3099 {
            Some(0x3052u32)
        } else {
            None
        }
    } else if a == 0x3053 {
        if b == 0x3099 {
            Some(0x3054u32)
        } else {
            None
        }
    } else if a == 0x3055 {
        if b == 0x3099 {
            Some(0x3056u32)
        } else {
            None
        }
    } else if a == 0x3057 {
        if b == 0x3099 {
            Some(0x3058u32)
        } else {
            None
        }
    } else if a == 0x3059 {
        if b == 0x3099 {
            Some(0x305au32)
        } else {
            None
        }
    } else if a == 0x305b {
        if b == 0x3099 {
            Some(0x305cu32)
        } else {
            None
        }
    } else if a == 0x305d {
        if b == 0x3099 {
            Some(0x305eu32)
        } else {
            None
        }
    } else if a == 0x305f {
        if b == 0x3099 {
            Some(0x3060u32)
        } else {
            None
        }
    } else if a == 0x3061 {
        if b == 0x3099 {
            Some(0x3062u32)
        } else {
            None
        }
    } else if a == 0x3064 {
        if b == 0x3099 {
            Some(0x3065u32)
        } else {
            None
        }
    } else if a == 0x3066 {
        if b == 0x3099 {
            Some(0x3067u32)
        } else {
            None
        }
    } else if a == 0x3068 {
        if b == 0x3099 {
            Some(0x3069u32)
        } else {
            None
        }
    } else if a == 0x306f {
        if b == 0x3099 {
            Some(0x3070u32)
        } else if b == 0x309a {
            Some(0x3071u32)
        } else {
            None
        }
    } else if a == 0x3072 {
        if b == 0x3099 {
            Some(0x3073u32)
        } else if b == 0x309a {
            Some(0x3074u32)
        } else {
            None
        }
    } else if a == 0x3075 {
        if b == 0x3099 {
            Some(0x3076u32)
        } else if b == 0x309a {
            Some(0x3077u32)
        } else {
            None
        }
    } else if a == 0x3078 {
        if b == 0x3099 {
            Some(0x3079u32)
        } else if b == 0x309a {
            Some(0x307au32)
        } else {
            None
        }
    } else if a == 0x307b {
        if b == 0x3099 {
            Some(0x307cu32)
        } else if b == 0x309a {
            Some(0x307du32)
        } else {
            None
        }
    } else if a == 0x309d {
        if b == 0x3099 {
            Some(0x309eu32)
        } else {
            None
        }
    } else if a == 0x30a6 {
        if b == 0x3099 {
            Some(0x30f4u32)
        } else {
            None
        }
    } else if a == 0x30ab {
        if b == 0x3099 {
            Some(0x30acu32)
        } else {
            None
        }
    } else if a == 0x30ad {
        if b == 0x3099 {
            Some(0x30aeu32)
        } else {
            None
        }
    } else if a == 0x30af {
        if b == 0x3099 {
            Some(0x30b0u32)
        } else {
            None
        }
    } else if a == 0x30b1 {
        if b == 0x3099 {
            Some(0x30b2u32)
        } else {
            None
        }
    } else if a == 0x30b3 {
        if b == 0x3099 {
            Some(0x30b4u32)
        } else {
            None
        }
    } else if a == 0x30b5 {
        if b == 0x3099 {
            Some(0x30b6u32)
        } else {
            None
        }
    } else if a == 0x30b7 {
        if b == 0x3099 {
            Some(0x30b8u32)
        } else {
            None
        }
    } else if a == 0x30b9 {
        if b == 0x3099 {
            Some(0x30bau32)
        } else {
            None
        }
    } else if a == 0x30bb {
        if b == 0x3099 {
            Some(0x30bcu32)
        } else {
            None
        }
    } else if a == 0x30bd {
        if b == 0x3099 {
            Some(0x30beu32)
        } else {
            None
        }
    } else if a == 0x30bf {
        if b == 0x3099 {
            Some(0x30c0u32)
        } else {
            None
        }
    } else if a == 0x30c1 {
        if b == 0x3099 {
            Some(0x30c2u32)
        } else {
            None
        }
    } else if a == 0x30c4 {
        if b == 0x3099 {
            Some(0x30c5u32)
        } else {
            None
        }
    } else if a == 0x30c6 {
        if b == 0x3099 {
            Some(0x30c7u32)
        } else {
            None
        }
    } else if a == 0x30c8 {
        if b == 0x3099 {
            Some(0x30c9u32)
        } else {
            None
        }
    } else if a == 0x30cf {
        if b == 0x3099 {
            Some(0x30d0u32)
        } else if b == 0x309a {
            Some(0x30d1u32)
        } else {
            None
        }
    } else if a == 0x30d2 {
        if b == 0x3099 {
            Some(0x30d3u32)
        } else if b == 0x309a {
            Some(0x30d4u32)
        } else {
            None
        }
    } else if a == 0x30d5 {
        if b == 0x3099 {
            Some(0x30d6u32)
        } else if b == 0x309a {
            Some(0x30d7u32)
        } else {
            None
        }
    } else if a == 0x30d8 {
        if b == 0x3099 {
            Some(0x30d9u32)
        } else if b == 0x309a {
            Some(0x30dau32)
        } else {
            None
        }
    } else if a == 0x30db {
        if b == 0x3099 {
            Some(0x30dcu32)
        } else if b == 0x309a {
            Some(0x30ddu32)
        } else {
            None
        }
    } else if a == 0x30ef {
        if b == 0x3099 {
            Some(0x30f7u32)
        } else {
            None
        }
    } else if a == 0x30f0 {
        if b == 0x3099 {
            Some(0x30f8u32)
        } else {
            None
        }
    } else if a == 0x30f1 {
        if b == 0x3099 {
            Some(0x30f9u32)
        } else {
            None
        }
    } else if a == 0x30f2 {
        if b == 0x3099 {
            Some(0x30fau32)
        } else {
            None
        }
    } else if a == 0x30fd {
        if b == 0x3099 {
            Some(0x30feu32)
        } else {
            None
        }
    } else {
        None
    }
}

fn compose_pair_030(a: u32, b: u32) -> (r: Option<u32>)
    ensures
        r == compose_030(a, b),
{
    if a == 0x3046 {
        if b == 0x3099 {
            Some(0x3094)
        } else {
            None
        }
    } else if a == 0x304b {
        if b == 0x3099 {
            Some(0x304c)
        } else {
            None
        }
    } else if a == 0x304d {
        if b == 0x3099 {
            Some(0x304e)
        } else {
            None
        }
    } else if a == 0x304f {
        if b == 0x3099 {
            Some(0x3050)
        } else {
            None
        }
    } else if a == 0x3051 {
        if b == 0x3099 {
            Some(0x3052)
        } else {
            None
        }
    } else if a == 0x3053 {
        if b == 0x3099 {
            Some(0x3054)
        } else {
            None
        }
    } else if a == 0x3055 {
        if b == 0x3099 {
            Some(0x3056)
        } else {
            None
        }
    } else if a == 0x3057 {
        if b == 0x3099 {
            Some(0x3058)
        } else {
            None
        }
    } else if a == 0x3059 {
        if b == 0x3099 {
            Some(0x305a)
        } else {
            None
        }
    } else if a == 0x305b {
        if b == 0x3099 {
            Some(0x305c)
        } else {
            None
        }
    } else if a == 0x305d {
        if b == 0x3099 {
            Some(0x305e)
        } else {
            None
        }
    } else if a == 0x305f {
        if b == 0x3099 {
            Some(0x3060)
        } else {
            None
        }
    } else if a == 0x3061 {
        if b == 0x3099 {
            Some(0x3062)
        } else {
            None
        }
    } else if a == 0x3064 {
        if b == 0x3099 {
            Some(0x3065)
        } else {
            None
        }
    } else if a == 0x3066 {
        if b == 0x3099 {
            Some(0x3067)
        } else {
            None
        }
    } else if a == 0x3068 {
        if b == 0x3099 {
            Some(0x3069)
        } else {
            None
        }
    } else if a == 0x306f {
        if b == 0x3099 {
            Some(0x3070)
        } else if b == 0x309a {
            Some(0x3071)
        } else {
            None
        }
    } else if a == 0x3072 {
        if b == 0x3099 {
            Some(0x3073)
        } else if b == 0x309a {
            Some(0x3074)
        } else {
            None
        }
    } else if a == 0x3075 {
        if b == 0x3099 {
            Some(0x3076)
        } else if b == 0x309a {
            Some(0x3077)
        } else {
            None
        }
    } else if a == 0x3078 {
        if b == 0x3099 {
            Some(0x3079)
        } else if b == 0x309a {
            Some(0x307a)
        } else {
            None
        }
    } else if a == 0x307b {
        if b == 0x3099 {
            Some(0x307c)
        } else if b == 0x309a {
            Some(0x307d)
        } else {
            None
        }
    } else if a == 0x309d {
        if b == 0x3099 {
            Some(0x309e)
        } else {
            None
        }
    } else if a == 0x30a6 {
        if b == 0x3099 {
            Some(0x30f4)
        } else {
            None
        }
    } else if a == 0x30ab {
        if b == 0x3099 {
            Some(0x30ac)
        } else {
            None
        }
    } else if a == 0x30ad {
        if b == 0x3099 {
            Some(0x30ae)
        } else {
            None
        }
    } else if a == 0x30af {
        if b == 0x3099 {
            Some(0x30b0)
        } else {
            None
        }
    } else if a == 0x30b1 {
        if b == 0x3099 {
            Some(0x30b2)
        } else {
            None
        }
    } else if a == 0x30b3 {
        if b == 0x3099 {
            Some(0x30b4)
        } else {
            None
        }
    } else if a == 0x30b5 {
        if b == 0x3099 {
            Some(0x30b6)
        } else {
            None
        }
    } else if a == 0x30b7 {
        if b == 0x3099 {
            Some(0x30b8)
        } else {
            None
        }
    } else if a == 0x30b9 {
        if b == 0x3099 {
            Some(0x30ba)
        } else {
            None
        }
    } else if a == 0x30bb {
        if b == 0x3099 {
            Some(0x30bc)
        } else {
            None
        }
    } else if a == 0x30bd {
        if b == 0x3099 {
            Some(0x30be)
        } else {
            None
        }
    } else if a == 0x30bf {
        if b == 0x3099 {
            Some(0x30c0)
        } else {
            None
        }
    } else if a == 0x30c1 {
        if b == 0x3099 {
            Some(0x30c2)
        } else {
            None
        }
    } else if a == 0x30c4 {
        if b == 0x3099 {
            Some(0x30c5)
        } else {
            None
        }
    } else if a == 0x30c6 {
        if b == 0x3099 {
            Some(0x30c7)
        } else {
            None
        }
    } else if a == 0x30c8 {
        if b == 0x3099 {
            Some(0x30c9)
        } else {
            None
        }
    } else if a == 0x30cf {
        if b == 0x3099 {
            Some(0x30d0)
        } else if b == 0x309a {
            Some(0x30d1)
        } else {
            None
        }
    } else if a == 0x30d2 {
        if b == 0x3099 {
            Some(0x30d3)
        } else if b == 0x309a {
            Some(0x30d4)
        } else {
            None
        }
    } else if a == 0x30d5 {
        if b == 0x3099 {
            Some(0x30d6)
        } else if b == 0x309a {
            Some(0x30d7)
        } else {
            None
        }
    } else if a == 0x30d8 {
        if b == 0x3099 {
            Some(0x30d9)
        } else if b == 0x309a {
            Some(0x30da)
        } else {
            None
        }
    } else if a == 0x30db {
        if b == 0x3099 {
            Some(0x30dc)
        } else if b == 0x309a {
            Some(0x30dd)
        } else {
            None
        }
    } else if a == 0x30ef {
        if b == 0x3099 {
            Some(0x30f7)
        } else {
            None
        }
    } else if a == 0x30f0 {
        if b == 0x3099 {
            Some(0x30f8)
        } else {
            None
        }
    } else if a == 0x30f1 {
        if b == 0x3099 {
            Some(0x30f9)
        } else {
            None
        }
    } else if a == 0x30f2 {
        if b == 0x3099 {
            Some(0x30fa)
        } else {
            None
        }
    } else if a == 0x30fd {
        if b == 0x3099 {
            Some(0x30fe)
        } else {
            None
        }
    } else {
        None
    }
}

pub open spec fn compose_110(a: u32, b: u32) -> Option<u32> {
    if a == 0x11099 {
        if b == 0x110ba {
            Some(0x1109au32)
        } else {
            None
        }
    } else if a == 0x1109b {
        if b == 0x110ba {
            Some(0x1109cu32)
        } else {
            None
        }
    } else if a == 0x110a5 {
        if b == 0x110ba {
            Some(0x110abu32)
        } else {
            None
        }
    } else {
        None
    }
}

fn compose_pair_110(a: u32, b: u32) -> (r: Option<u32>)
    ensures
        r == compose_110(a, b),
{
    if a == 0x11099 {
        if b == 0x110ba {
            Some(0x1109a)
        } else {
            None
        }
    } else if a == 0x1109b {
        if b == 0x110ba {
            Some(0x1109c)
        } else {
            None
        }
    } else if a == 0x110a5 {
        if b == 0x110ba {
            Some(0x110ab)
        } else {
            None
        }
    } else {
        None
    }
}

pub open spec fn compose_111(a: u32, b: u32) -> Option<u32> {
    if a == 0x11131 {
        if b == 0x11127 {
            Some(0x1112eu32)
        } else {
            None
        }
    } else if a == 0x11132 {
        if b == 0x11127 {
            Some(0x1112fu32)
        } else {
            None
        }
    } else {
        None
    }
}

fn compose_pair_111(a: u32, b: u32) -> (r: Option<u32>)
    ensures
        r == compose_111(a, b),
{
    if a == 0x11131 {
        if b == 0x11127 {
            Some(0x1112e)
        } else {
            None
        }
    } else if a == 0x11132 {
        if b == 0x11127 {
            Some(0x1112f)
        } else {
            None
        }
    } else {
        None
    }
}

pub open spec fn compose_113(a: u32, b: u32) -> Option<u32> {
    if a == 0x11347 {
        if b == 0x1133e {
            Some(0x1134bu32)
        } else if b == 0x11357 {
            Some(0x1134cu32)
        } else {
            None
        }
    } else {
        None
    }
}

fn compose_pair_113(a: u32, b: u32) -> (r: Option<u32>)
    ensures
        r == compose_113(a, b),
{
    if a == 0x11347 {
        if b == 0x1133e {
            Some(0x1134b)
        } else if b == 0x11357 {
            Some(0x1134c)
        } else {
            None
        }
    } else {
        None
    }
}

pub open spec fn compose_114(a: u32, b: u32) -> Option<u32> {
    if a == 0x114b9 {
        if b == 0x114b0 {
            Some(0x114bcu32)
        } else if b == 0x114ba {
            Some(0x114bbu32)
        } else if b == 0x114bd {
            Some(0x114beu32)
        } else {
            None
        }
    } else {
        None
    }
}

fn compose_pair_114(a: u32, b: u32) -> (r: Option<u32>)
    ensures
        r == compose_114(a, b),
{
    if a == 0x114b9 {
        if b == 0x114b0 {
            Some(0x114bc)
        } else if b == 0x114ba {
            Some(0x114bb)
        } else if b == 0x114bd {
            Some(0x114be)
        } else {
            None
        }
    } else {
        None
    }
}

pub open spec fn compose_115(a: u32, b: u32) -> Option<u32> {
    if a == 0x115b8 {
        if b == 0x115af {
            Some(0x115bau32)
        } else {
            None
        }
    } else if a == 0x115b9 {
        if b == 0x115af {
            Some(0x115bbu32)
        } else {
            None
        }
    } else {
        None
    }
}

fn compose_pair_115(a: u32, b: u32) -> (r: Option<u32>)
    ensures
        r == compose_115(a, b),
{
    if a == 0x115b8 {
        if b == 0x115af {
            Some(0x115ba)
        } else {
            None
        }
    } else if a == 0x115b9 {
        if b == 0x115af {
            Some(0x115bb)
        } else {
            None
        }
    } else {
        None
    }
}

pub open spec fn compose_119(a: u32, b: u32) -> Option<u32> {
    if a == 0x11935 {
        if b == 0x11930 {
            Some(0x11938u32)
        } else {
            None
        }
    } else {
        None
    }
}

fn compose_pair_119(a: u32, b: u32) -> (r: Option<u32>)
    ensures
        r == compose_119(a, b),
{
    if a == 0x11935 {
        if b == 0x11930 {
            Some(0x11938)
        } else {
            None
        }
    } else {
        None
    }
}

/// The primary composite of a starter and a following code point, if
/// the pair composes canonically; Hangul is not covered here.
pub open spec fn compose_of(a: u32, b: u32) -> Option<u32> {
    if a >> 8u32 == 0x0 {
        compose_000(a, b)
    } else if a >> 8u32 == 0x1 {
        compose_001(a, b)
    } else if a >> 8u32 == 0x2 {
        compose_002(a, b)
    } else if a >> 8u32 == 0x3 {
        compose_003(a, b)
    } else if a >> 8u32 == 0x4 {
        compose_004(a, b)
    } else if a >> 8u32 == 0x6 {
        compose_006(a, b)
    } else if a >> 8u32 == 0x9 {
        compose_009(a, b)
    } else if a >> 8u32 == 0xb {
        compose_00b(a, b)
    } else if a >> 8u32 == 0xc {
        compose_00c(a, b)
    } else if a >> 8u32 == 0xd {
        compose_00d(a, b)
    } else if a >> 8u32 == 0x10 {
        compose_010(a, b)
    } else if a >> 8u32 == 0x1b {
        compose_01b(a, b)
    } else if a >> 8u32 == 0x1e {
        compose_01e(a, b)
    } else if a >> 8u32 == 0x1f {
        compose_01f(a, b)
    } else if a >> 8u32 == 0x21 {
        compose_021(a, b)
    } else if a >> 8u32 == 0x22 {
        compose_022(a, b)
    } else if a >> 8u32 == 0x30 {
        compose_030(a, b)
    } else if a >> 8u32 == 0x110 {
        compose_110(a, b)
    } else if a >> 8u32 == 0x111 {
        compose_111(a, b)
    } else if a >> 8u32 == 0x113 {
        compose_113(a, b)
    } else if a >> 8u32 == 0x114 {
        compose_114(a, b)
    } else if a >> 8u32 == 0x115 {
        compose_115(a, b)
    } else if a >> 8u32 == 0x119 {
        compose_119(a, b)
    } else {
        None
    }
}

/// The primary composite of a starter and a following code point.
pub fn compose_pair(a: u32, b: u32) -> (r: Option<u32>)
    ensures
        r == compose_of(a, b),
{
    if a >> 8u32 == 0x0 {
        compose_pair_000(a, b)
    } else if a >> 8u32 == 0x1 {
        compose_pair_001(a, b)
    } else if a >> 8u32 == 0x2 {
        compose_pair_002(a, b)
    } else if a >> 8u32 == 0x3 {
        compose_pair_003(a, b)
    } else if a >> 8u32 == 0x4 {
        compose_pair_004(a, b)
    } else if a >> 8u32 == 0x6 {
        compose_pair_006(a, b)
    } else if a >> 8u32 == 0x9 {
        compose_pair_009(a, b)
    } else if a >> 8u32 == 0xb {
        compose_pair_00b(a, b)
    } else if a >> 8u32 == 0xc {
        compose_pair_00c(a, b)
    } else if a >> 8u32 == 0xd {
        compose_pair_00d(a, b)
    } else if a >> 8u32 == 0x10 {
        compose_pair_010(a, b)
    } else if a >> 8u32 == 0x1b {
        compose_pair_01b(a, b)
    } else if a >> 8u32 == 0x1e {
        compose_pair_01e(a, b)
    } else if a >> 8u32 == 0x1f {
        compose_pair_01f(a, b)
    } else if a >> 8u32 == 0x21 {
        compose_pair_021(a, b)
    } else if a >> 8u32 == 0x22 {
        compose_pair_022(a, b)
    } else if a >> 8u32 == 0x30 {
        compose_pair_030(a, b)
    } else if a >> 8u32 == 0x110 {
        compose_pair_110(a, b)
    } else if a >> 8u32 == 0x111 {
        compose_pair_111(a, b)
    } else if a >> 8u32 == 0x113 {
        compose_pair_113(a, b)
    } else if a >> 8u32 == 0x114 {
        compose_pair_114(a, b)
    } else if a >> 8u32 == 0x115 {
        compose_pair_115(a, b)
    } else if a >> 8u32 == 0x119 {
        compose_pair_119(a, b)
    } else {
        None
    }
}

} // verus!
