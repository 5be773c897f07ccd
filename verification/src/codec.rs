//! The canonical byte document a [`Config`](crate::config::Config) is
//! persisted as: a one-line JSON object with a fixed field order,
//!
//! ```text
//! {"lamp_on":B,"lamp_brightness":{"r":N,"g":N,"b":N},"significant_mode":B}
//! ```
//!
//! where `B` is `true` or `false` and `N` is a decimal channel value
//! without leading zeros.  The decoder accepts exactly this shape and the
//! encoder always produces it, so decoding inverts encoding
//! ([`lemma_config_round_trip`]).

use crate::config::Config;
use crate::pixel::Pixel;
use vstd::prelude::*;

verus! {

// The fixed byte runs of the document, as ASCII codes.
/// `{"lamp_on":`
pub open spec fn lit_open() -> Seq<u8> {
    seq![123u8, 34, 108, 97, 109, 112, 95, 111, 110, 34, 58]
}

/// `,"lamp_brightness":{"r":`
pub open spec fn lit_brightness() -> Seq<u8> {
    seq![
        44u8,
        34,
        108,
        97,
        109,
        112,
        95,
        98,
        114,
        105,
        103,
        104,
        116,
        110,
        101,
        115,
        115,
        34,
        58,
        123,
        34,
        114,
        34,
        58,
    ]
}

/// `,"g":`
pub open spec fn lit_green() -> Seq<u8> {
    seq![44u8, 34, 103, 34, 58]
}

/// `,"b":`
pub open spec fn lit_blue() -> Seq<u8> {
    seq![44u8, 34, 98, 34, 58]
}

/// `},"significant_mode":`
pub open spec fn lit_mode() -> Seq<u8> {
    seq![
        125u8,
        44,
        34,
        115,
        105,
        103,
        110,
        105,
        102,
        105,
        99,
        97,
        110,
        116,
        95,
        109,
        111,
        100,
        101,
        34,
        58,
    ]
}

/// `}`
pub open spec fn lit_close() -> Seq<u8> {
    seq![125u8]
}

/// `true`
pub open spec fn lit_true() -> Seq<u8> {
    seq![116u8, 114, 117, 101]
}

/// `false`
pub open spec fn lit_false() -> Seq<u8> {
    seq![102u8, 97, 108, 115, 101]
}

/// The bytes of a boolean value.
pub open spec fn spec_bool_bytes(b: bool) -> Seq<u8> {
    if b {
        lit_true()
    } else {
        lit_false()
    }
}

/// The decimal digits of a channel value, without leading zeros.
pub open spec fn spec_dec_bytes(n: u8) -> Seq<u8> {
    if n < 10 {
        seq![(48 + n) as u8]
    } else if n < 100 {
        seq![(48 + n / 10) as u8, (48 + n % 10) as u8]
    } else {
        seq![(48 + n / 100) as u8, (48 + (n / 10) % 10) as u8, (48 + n % 10) as u8]
    }
}

/// The canonical document of a configuration value.
pub open spec fn spec_encode_config(c: Config) -> Seq<u8> {
    lit_open() + spec_bool_bytes(c.lamp_on) + lit_brightness() + spec_dec_bytes(c.lamp_brightness.r)
        + lit_green() + spec_dec_bytes(c.lamp_brightness.g) + lit_blue() + spec_dec_bytes(
        c.lamp_brightness.b,
    ) + lit_mode() + spec_bool_bytes(c.significant_mode) + lit_close()
}

/// An ASCII decimal digit.
pub open spec fn is_digit(b: u8) -> bool {
    48 <= b && b <= 57
}

/// The bytes at `pos` are exactly `lit`.
pub open spec fn spec_match_at(bytes: Seq<u8>, pos: int, lit: Seq<u8>) -> bool {
    0 <= pos && pos + lit.len() <= bytes.len() && bytes.subrange(pos, pos + lit.len()) == lit
}

/// Parse `true` or `false` at `pos`: the value and the position after it.
pub open spec fn spec_parse_bool(bytes: Seq<u8>, pos: int) -> Option<(bool, int)> {
    if spec_match_at(bytes, pos, lit_true()) {
        Some((true, pos + 4))
    } else if spec_match_at(bytes, pos, lit_false()) {
        Some((false, pos + 5))
    } else {
        None
    }
}

/// Parse a channel value at `pos`: one to three decimal digits, no leading
/// zero, at most 255; the value and the position after it.
pub open spec fn spec_parse_u8(bytes: Seq<u8>, pos: int) -> Option<(u8, int)> {
    if 0 <= pos && pos < bytes.len() && is_digit(bytes[pos]) {
        let d0 = bytes[pos] - 48;
        if pos + 1 < bytes.len() && is_digit(bytes[pos + 1]) {
            if d0 == 0 {
                None
            } else {
                let d1 = bytes[pos + 1] - 48;
                if pos + 2 < bytes.len() && is_digit(bytes[pos + 2]) {
                    let d2 = bytes[pos + 2] - 48;
                    if pos + 3 < bytes.len() && is_digit(bytes[pos + 3]) {
                        None
                    } else if d0 * 100 + d1 * 10 + d2 <= 255 {
                        Some(((d0 * 100 + d1 * 10 + d2) as u8, pos + 3))
                    } else {
                        None
                    }
                } else {
                    Some(((d0 * 10 + d1) as u8, pos + 2))
                }
            }
        } else {
            Some((d0 as u8, pos + 1))
        }
    } else {
        None
    }
}

/// The configuration a document denotes: the strict parse of the canonical
/// shape, `None` on anything else.
pub open spec fn spec_decode_config(bytes: Seq<u8>) -> Option<Config> {
    if !spec_match_at(bytes, 0, lit_open()) {
        None
    } else {
        match spec_parse_bool(bytes, lit_open().len() as int) {
            None => None,
            Some((lamp_on, p1)) => if !spec_match_at(bytes, p1, lit_brightness()) {
                None
            } else {
                match spec_parse_u8(bytes, p1 + lit_brightness().len()) {
                    None => None,
                    Some((red, p2)) => if !spec_match_at(bytes, p2, lit_green()) {
                        None
                    } else {
                        match spec_parse_u8(bytes, p2 + lit_green().len()) {
                            None => None,
                            Some((green, p3)) => if !spec_match_at(bytes, p3, lit_blue()) {
                                None
                            } else {
                                match spec_parse_u8(bytes, p3 + lit_blue().len()) {
                                    None => None,
                                    Some((blue, p4)) => if !spec_match_at(bytes, p4, lit_mode()) {
                                        None
                                    } else {
                                        match spec_parse_bool(bytes, p4 + lit_mode().len()) {
                                            None => None,
                                            Some((significant_mode, p5)) => if spec_match_at(
                                                bytes,
                                                p5,
                                                lit_close(),
                                            ) && p5 + 1 == bytes.len() {
                                                Some(
                                                    Config {
                                                        lamp_on,
                                                        lamp_brightness: Pixel { r: red, g: green, b: blue },
                                                        significant_mode,
                                                    },
                                                )
                                            } else {
                                                None
                                            },
                                        }
                                    },
                                }
                            },
                        }
                    },
                }
            },
        }
    }
}

fn lit_open_vec() -> (result: Vec<u8>)
    ensures
        result@ == lit_open(),
{
    let mut v: Vec<u8> = Vec::new();
    v.push(123);
    v.push(34);
    v.push(108);
    v.push(97);
    v.push(109);
    v.push(112);
    v.push(95);
    v.push(111);
    v.push(110);
    v.push(34);
    v.push(58);
    proof {
        assert(v@ =~= lit_open());
    }
    v
}

fn lit_brightness_vec() -> (result: Vec<u8>)
    ensures
        result@ == lit_brightness(),
{
    let mut v: Vec<u8> = Vec::new();
    v.push(44);
    v.push(34);
    v.push(108);
    v.push(97);
    v.push(109);
    v.push(112);
    v.push(95);
    v.push(98);
    v.push(114);
    v.push(105);
    v.push(103);
    v.push(104);
    v.push(116);
    v.push(110);
    v.push(101);
    v.push(115);
    v.push(115);
    v.push(34);
    v.push(58);
    v.push(123);
    v.push(34);
    v.push(114);
    v.push(34);
    v.push(58);
    proof {
        assert(v@ =~= lit_brightness());
    }
    v
}

fn lit_green_vec() -> (result: Vec<u8>)
    ensures
        result@ == lit_green(),
{
    let mut v: Vec<u8> = Vec::new();
    v.push(44);
    v.push(34);
    v.push(103);
    v.push(34);
    v.push(58);
    proof {
        assert(v@ =~= lit_green());
    }
    v
}

fn lit_blue_vec() -> (result: Vec<u8>)
    ensures
        result@ == lit_blue(),
{
    let mut v: Vec<u8> = Vec::new();
    v.push(44);
    v.push(34);
    v.push(98);
    v.push(34);
    v.push(58);
    proof {
        assert(v@ =~= lit_blue());
    }
    v
}

fn lit_mode_vec() -> (result: Vec<u8>)
    ensures
        result@ == lit_mode(),
{
    let mut v: Vec<u8> = Vec::new();
    v.push(125);
    v.push(44);
    v.push(34);
    v.push(115);
    v.push(105);
    v.push(103);
    v.push(110);
    v.push(105);
    v.push(102);
    v.push(105);
    v.push(99);
    v.push(97);
    v.push(110);
    v.push(116);
    v.push(95);
    v.push(109);
    v.push(111);
    v.push(100);
    v.push(101);
    v.push(34);
    v.push(58);
    proof {
        assert(v@ =~= lit_mode());
    }
    v
}

fn push_bytes(out: &mut Vec<u8>, lit: &Vec<u8>)
    ensures
        final(out)@ == old(out)@ + lit@,
{
    let mut i: usize = 0;
    proof {
        assert(out@ =~= old(out)@ + lit@.subrange(0, 0));
    }
    while i < lit.len()
        invariant
            0 <= i <= lit@.len(),
            out@ == old(out)@ + lit@.subrange(0, i as int),
        decreases lit@.len() - i,
    {
        out.push(lit[i]);
        proof {
            assert(out@ =~= old(out)@ + lit@.subrange(0, i + 1 as int));
        }
        i = i + 1;
    }
    proof {
        assert(lit@.subrange(0, lit@.len() as int) =~= lit@);
    }
}

fn push_bool(out: &mut Vec<u8>, b: bool)
    ensures
        final(out)@ == old(out)@ + spec_bool_bytes(b),
{
    if b {
        out.push(116);
        out.push(114);
        out.push(117);
        out.push(101);
    } else {
        out.push(102);
        out.push(97);
        out.push(108);
        out.push(115);
        out.push(101);
    }
    proof {
        assert(out@ =~= old(out)@ + spec_bool_bytes(b));
    }
}

fn push_dec(out: &mut Vec<u8>, n: u8)
    ensures
        final(out)@ == old(out)@ + spec_dec_bytes(n),
{
    if n < 10 {
        out.push(48 + n);
    } else if n < 100 {
        out.push(48 + n / 10);
        out.push(48 + n % 10);
    } else {
        out.push(48 + n / 100);
        out.push(48 + (n / 10) % 10);
        out.push(48 + n % 10);
    }
    proof {
        assert(out@ =~= old(out)@ + spec_dec_bytes(n));
    }
}

/// Write a configuration as its canonical document.
pub fn encode_config(c: &Config) -> (result: Vec<u8>)
    ensures
        result@ == spec_encode_config(*c),
{
    let mut out: Vec<u8> = Vec::new();
    let open = lit_open_vec();
    let brightness = lit_brightness_vec();
    let green = lit_green_vec();
    let blue = lit_blue_vec();
    let mode = lit_mode_vec();
    push_bytes(&mut out, &open);
    push_bool(&mut out, c.lamp_on);
    push_bytes(&mut out, &brightness);
    push_dec(&mut out, c.lamp_brightness.r);
    push_bytes(&mut out, &green);
    push_dec(&mut out, c.lamp_brightness.g);
    push_bytes(&mut out, &blue);
    push_dec(&mut out, c.lamp_brightness.b);
    push_bytes(&mut out, &mode);
    push_bool(&mut out, c.significant_mode);
    out.push(125);
    proof {
        assert(out@ =~= spec_encode_config(*c));
    }
    out
}

fn match_at(bytes: &[u8], pos: usize, lit: &Vec<u8>) -> (result: bool)
    ensures
        result == spec_match_at(bytes@, pos as int, lit@),
        bytes@.len() <= usize::MAX,
{
    let n = bytes.len();
    if pos > n || lit.len() > n - pos {
        return false;
    }
    let mut i: usize = 0;
    while i < lit.len()
        invariant
            pos + lit@.len() <= n <= usize::MAX,
            n == bytes@.len(),
            0 <= i <= lit@.len(),
            forall|j: int| 0 <= j < i ==> bytes@[pos + j] == lit@[j],
        decreases lit@.len() - i,
    {
        if bytes[pos + i] != lit[i] {
            proof {
                if spec_match_at(bytes@, pos as int, lit@) {
                    assert(bytes@.subrange(pos as int, pos + lit@.len())[i as int] == bytes@[pos
                        + i]);
                }
            }
            return false;
        }
        i = i + 1;
    }
    proof {
        assert(bytes@.subrange(pos as int, pos + lit@.len()) =~= lit@);
    }
    true
}

fn parse_bool(bytes: &[u8], pos: usize) -> (result: Option<(bool, usize)>)
    ensures
        match result {
            Some(parsed) => spec_parse_bool(bytes@, pos as int) == Some(
                (parsed.0, parsed.1 as int),
            ),
            None => spec_parse_bool(bytes@, pos as int) is None,
        },
{
    let yes = true_vec();
    if match_at(bytes, pos, &yes) {
        return Some((true, pos + 4));
    }
    let no = false_vec();
    if match_at(bytes, pos, &no) {
        return Some((false, pos + 5));
    }
    None
}

fn true_vec() -> (result: Vec<u8>)
    ensures
        result@ == lit_true(),
{
    let mut v: Vec<u8> = Vec::new();
    v.push(116);
    v.push(114);
    v.push(117);
    v.push(101);
    proof {
        assert(v@ =~= lit_true());
    }
    v
}

fn false_vec() -> (result: Vec<u8>)
    ensures
        result@ == lit_false(),
{
    let mut v: Vec<u8> = Vec::new();
    v.push(102);
    v.push(97);
    v.push(108);
    v.push(115);
    v.push(101);
    proof {
        assert(v@ =~= lit_false());
    }
    v
}

fn digit_at(bytes: &[u8], pos: usize) -> (result: Option<u8>)
    ensures
        match result {
            Some(d) => pos < bytes@.len() && is_digit(bytes@[pos as int]) && d == bytes@[pos as int]
                - 48,
            None => !(pos < bytes@.len() && is_digit(bytes@[pos as int])),
        },
        bytes@.len() <= usize::MAX,
{
    if pos >= bytes.len() {
        return None;
    }
    let b = bytes[pos];
    if 48 <= b && b <= 57 {
        Some(b - 48)
    } else {
        None
    }
}

fn parse_u8(bytes: &[u8], pos: usize) -> (result: Option<(u8, usize)>)
    ensures
        match result {
            Some(parsed) => spec_parse_u8(bytes@, pos as int) == Some((parsed.0, parsed.1 as int)),
            None => spec_parse_u8(bytes@, pos as int) is None,
        },
{
    let d0 = match digit_at(bytes, pos) {
        Some(d) => d,
        None => {
            return None;
        },
    };
    let d1 = match digit_at(bytes, pos + 1) {
        Some(d) => d,
        None => {
            return Some((d0, pos + 1));
        },
    };
    if d0 == 0 {
        return None;
    }
    let d2 = match digit_at(bytes, pos + 2) {
        Some(d) => d,
        None => {
            return Some((d0 * 10 + d1, pos + 2));
        },
    };
    match digit_at(bytes, pos + 3) {
        Some(_) => None,
        None => {
            let value: u16 = d0 as u16 * 100 + d1 as u16 * 10 + d2 as u16;
            if value <= 255 {
                Some((value as u8, pos + 3))
            } else {
                None
            }
        },
    }
}

/// Recover a configuration from a stored document: exactly the canonical
/// shape is accepted, anything else yields `None`.
pub fn decode_config(bytes: &[u8]) -> (result: Option<Config>)
    ensures
        result == spec_decode_config(bytes@),
{
    let open = lit_open_vec();
    if !match_at(bytes, 0, &open) {
        return None;
    }
    let (lamp_on, p1) = match parse_bool(bytes, open.len()) {
        Some(parsed) => parsed,
        None => {
            return None;
        },
    };
    let brightness = lit_brightness_vec();
    if !match_at(bytes, p1, &brightness) {
        return None;
    }
    let (red, p2) = match parse_u8(bytes, p1 + brightness.len()) {
        Some(parsed) => parsed,
        None => {
            return None;
        },
    };
    let green = lit_green_vec();
    if !match_at(bytes, p2, &green) {
        return None;
    }
    let (green_val, p3) = match parse_u8(bytes, p2 + green.len()) {
        Some(parsed) => parsed,
        None => {
            return None;
        },
    };
    let blue = lit_blue_vec();
    if !match_at(bytes, p3, &blue) {
        return None;
    }
    let (blue_val, p4) = match parse_u8(bytes, p3 + blue.len()) {
        Some(parsed) => parsed,
        None => {
            return None;
        },
    };
    let mode = lit_mode_vec();
    if !match_at(bytes, p4, &mode) {
        return None;
    }
    let (significant_mode, p5) = match parse_bool(bytes, p4 + mode.len()) {
        Some(parsed) => parsed,
        None => {
            return None;
        },
    };
    if p5 < bytes.len() && bytes[p5] == 125 && p5 + 1 == bytes.len() {
        proof {
            assert(bytes@.subrange(p5 as int, p5 + 1) =~= lit_close());
        }
        Some(
            Config {
                lamp_on,
                lamp_brightness: Pixel { r: red, g: green_val, b: blue_val },
                significant_mode,
            },
        )
    } else {
        proof {
            if spec_match_at(bytes@, p5 as int, lit_close()) {
                assert(bytes@.subrange(p5 as int, p5 + 1)[0] == bytes@[p5 as int]);
            }
        }
        None
    }
}

proof fn lemma_match_extend(s: Seq<u8>, t: Seq<u8>)
    ensures
        forall|p: int, l: Seq<u8>|
            spec_match_at(s, p, l) ==> #[trigger] spec_match_at(s + t, p, l),
{
    assert forall|p: int, l: Seq<u8>| spec_match_at(s, p, l) implies #[trigger] spec_match_at(
        s + t,
        p,
        l,
    ) by {
        assert((s + t).subrange(p, p + l.len() as int) =~= s.subrange(p, p + l.len() as int));
    }
}

proof fn lemma_match_append(s: Seq<u8>, l: Seq<u8>)
    ensures
        spec_match_at(s + l, s.len() as int, l),
{
    assert((s + l).subrange(s.len() as int, s.len() + l.len() as int) =~= l);
}

proof fn lemma_parse_bool_canonical(bytes: Seq<u8>, pos: int, b: bool)
    requires
        spec_match_at(bytes, pos, spec_bool_bytes(b)),
    ensures
        spec_parse_bool(bytes, pos) == Some((b, pos + spec_bool_bytes(b).len())),
{
    if b {
        assert(spec_match_at(bytes, pos, lit_true()));
    } else {
        assert(bytes.subrange(pos, pos + 5)[0] == bytes[pos]);
        assert(bytes[pos] == 102);
        if spec_match_at(bytes, pos, lit_true()) {
            assert(bytes.subrange(pos, pos + 4)[0] == bytes[pos]);
            assert(false);
        }
    }
}

proof fn lemma_parse_u8_canonical(bytes: Seq<u8>, pos: int, n: u8)
    requires
        spec_match_at(bytes, pos, spec_dec_bytes(n)),
        pos + spec_dec_bytes(n).len() < bytes.len(),
        !is_digit(bytes[pos + spec_dec_bytes(n).len()]),
    ensures
        spec_parse_u8(bytes, pos) == Some((n, pos + spec_dec_bytes(n).len())),
{
    if n < 10 {
        assert(bytes.subrange(pos, pos + 1)[0] == bytes[pos]);
        assert(bytes[pos] == 48 + n);
    } else if n < 100 {
        assert(bytes.subrange(pos, pos + 2)[0] == bytes[pos]);
        assert(bytes.subrange(pos, pos + 2)[1] == bytes[pos + 1]);
        assert(bytes[pos] == 48 + n / 10);
        assert(bytes[pos + 1] == 48 + n % 10);
        assert(n / 10 >= 1);
        assert((n / 10) * 10 + n % 10 == n) by {
            vstd::arithmetic::div_mod::lemma_fundamental_div_mod(n as int, 10);
        }
    } else {
        assert(bytes.subrange(pos, pos + 3)[0] == bytes[pos]);
        assert(bytes.subrange(pos, pos + 3)[1] == bytes[pos + 1]);
        assert(bytes.subrange(pos, pos + 3)[2] == bytes[pos + 2]);
        assert(bytes[pos] == 48 + n / 100);
        assert(bytes[pos + 1] == 48 + (n / 10) % 10);
        assert(bytes[pos + 2] == 48 + n % 10);
        assert(n / 100 >= 1);
        assert((n / 100) * 100 + ((n / 10) % 10) * 10 + n % 10 == n) by {
            vstd::arithmetic::div_mod::lemma_fundamental_div_mod(n as int, 10);
            vstd::arithmetic::div_mod::lemma_fundamental_div_mod(n as int / 10, 10);
            vstd::arithmetic::div_mod::lemma_div_denominator(n as int, 10, 10);
        }
    }
}

/// Where each piece of the canonical document of `c` starts and what the
/// parser will see there.
#[verifier::rlimit(60)]
proof fn lemma_enc_layout(c: Config)
    ensures
        spec_match_at(spec_encode_config(c), 0, lit_open()),
        spec_match_at(
            spec_encode_config(c),
            lit_open().len() as int,
            spec_bool_bytes(c.lamp_on),
        ),
        spec_match_at(
            spec_encode_config(c),
            lit_open().len() as int + spec_bool_bytes(c.lamp_on).len(),
            lit_brightness(),
        ),
        spec_match_at(
            spec_encode_config(c),
            lit_open().len() as int + spec_bool_bytes(c.lamp_on).len() + lit_brightness().len(),
            spec_dec_bytes(c.lamp_brightness.r),
        ),
        spec_match_at(
            spec_encode_config(c),
            lit_open().len() as int + spec_bool_bytes(c.lamp_on).len() + lit_brightness().len()
                + spec_dec_bytes(c.lamp_brightness.r).len(),
            lit_green(),
        ),
        spec_match_at(
            spec_encode_config(c),
            lit_open().len() as int + spec_bool_bytes(c.lamp_on).len() + lit_brightness().len()
                + spec_dec_bytes(c.lamp_brightness.r).len() + lit_green().len(),
            spec_dec_bytes(c.lamp_brightness.g),
        ),
        spec_match_at(
            spec_encode_config(c),
            lit_open().len() as int + spec_bool_bytes(c.lamp_on).len() + lit_brightness().len()
                + spec_dec_bytes(c.lamp_brightness.r).len() + lit_green().len() + spec_dec_bytes(
                c.lamp_brightness.g,
            ).len(),
            lit_blue(),
        ),
        spec_match_at(
            spec_encode_config(c),
            lit_open().len() as int + spec_bool_bytes(c.lamp_on).len() + lit_brightness().len()
                + spec_dec_bytes(c.lamp_brightness.r).len() + lit_green().len() + spec_dec_bytes(
                c.lamp_brightness.g,
            ).len() + lit_blue().len(),
            spec_dec_bytes(c.lamp_brightness.b),
        ),
        spec_match_at(
            spec_encode_config(c),
            lit_open().len() as int + spec_bool_bytes(c.lamp_on).len() + lit_brightness().len()
                + spec_dec_bytes(c.lamp_brightness.r).len() + lit_green().len() + spec_dec_bytes(
                c.lamp_brightness.g,
            ).len() + lit_blue().len() + spec_dec_bytes(c.lamp_brightness.b).len(),
            lit_mode(),
        ),
        spec_match_at(
            spec_encode_config(c),
            lit_open().len() as int + spec_bool_bytes(c.lamp_on).len() + lit_brightness().len()
                + spec_dec_bytes(c.lamp_brightness.r).len() + lit_green().len() + spec_dec_bytes(
                c.lamp_brightness.g,
            ).len() + lit_blue().len() + spec_dec_bytes(c.lamp_brightness.b).len()
                + lit_mode().len(),
            spec_bool_bytes(c.significant_mode),
        ),
        spec_match_at(
            spec_encode_config(c),
            lit_open().len() as int + spec_bool_bytes(c.lamp_on).len() + lit_brightness().len()
                + spec_dec_bytes(c.lamp_brightness.r).len() + lit_green().len() + spec_dec_bytes(
                c.lamp_brightness.g,
            ).len() + lit_blue().len() + spec_dec_bytes(c.lamp_brightness.b).len()
                + lit_mode().len() + spec_bool_bytes(c.significant_mode).len(),
            lit_close(),
        ),
        spec_encode_config(c).len() == lit_open().len() + spec_bool_bytes(c.lamp_on).len()
            + lit_brightness().len() + spec_dec_bytes(c.lamp_brightness.r).len()
            + lit_green().len() + spec_dec_bytes(c.lamp_brightness.g).len() + lit_blue().len()
            + spec_dec_bytes(c.lamp_brightness.b).len() + lit_mode().len() + spec_bool_bytes(
            c.significant_mode,
        ).len() + 1,
{
    let a0 = lit_open();
    let b0 = spec_bool_bytes(c.lamp_on);
    let a1 = lit_brightness();
    let d0 = spec_dec_bytes(c.lamp_brightness.r);
    let a2 = lit_green();
    let d1 = spec_dec_bytes(c.lamp_brightness.g);
    let a3 = lit_blue();
    let d2 = spec_dec_bytes(c.lamp_brightness.b);
    let a4 = lit_mode();
    let b1 = spec_bool_bytes(c.significant_mode);
    let a5 = lit_close();

    let e1 = a0;
    let e2 = e1 + b0;
    let e3 = e2 + a1;
    let e4 = e3 + d0;
    let e5 = e4 + a2;
    let e6 = e5 + d1;
    let e7 = e6 + a3;
    let e8 = e7 + d2;
    let e9 = e8 + a4;
    let e10 = e9 + b1;
    let e11 = e10 + a5;

    assert(e1.subrange(0, a0.len() as int) =~= a0);
    assert(spec_match_at(e1, 0, a0));
    lemma_match_append(e1, b0);
    lemma_match_extend(e1, b0);
    lemma_match_append(e2, a1);
    lemma_match_extend(e2, a1);
    lemma_match_append(e3, d0);
    lemma_match_extend(e3, d0);
    lemma_match_append(e4, a2);
    lemma_match_extend(e4, a2);
    lemma_match_append(e5, d1);
    lemma_match_extend(e5, d1);
    lemma_match_append(e6, a3);
    lemma_match_extend(e6, a3);
    lemma_match_append(e7, d2);
    lemma_match_extend(e7, d2);
    lemma_match_append(e8, a4);
    lemma_match_extend(e8, a4);
    lemma_match_append(e9, b1);
    lemma_match_extend(e9, b1);
    lemma_match_append(e10, a5);
    lemma_match_extend(e10, a5);
    assert(spec_encode_config(c) == e11);
}

proof fn lemma_match_pointwise(bytes: Seq<u8>, pos: int, lit: Seq<u8>)
    requires
        spec_match_at(bytes, pos, lit),
    ensures
        forall|i: int| pos <= i < pos + lit.len() ==> #[trigger] bytes[i] == lit[i - pos],
{
    assert forall|i: int| pos <= i < pos + lit.len() implies #[trigger] bytes[i] == lit[i
        - pos] by {
        assert(bytes.subrange(pos, pos + lit.len() as int)[i - pos] == bytes[i]);
    }
}

proof fn lemma_parse_bool_complete(bytes: Seq<u8>, pos: int)
    requires
        spec_parse_bool(bytes, pos) is Some,
    ensures
        spec_match_at(bytes, pos, spec_bool_bytes(spec_parse_bool(bytes, pos)->Some_0.0)),
        spec_parse_bool(bytes, pos)->Some_0.1 == pos + spec_bool_bytes(
            spec_parse_bool(bytes, pos)->Some_0.0,
        ).len(),
{
}

proof fn lemma_parse_u8_complete(bytes: Seq<u8>, pos: int)
    requires
        spec_parse_u8(bytes, pos) is Some,
    ensures
        spec_match_at(bytes, pos, spec_dec_bytes(spec_parse_u8(bytes, pos)->Some_0.0)),
        spec_parse_u8(bytes, pos)->Some_0.1 == pos + spec_dec_bytes(
            spec_parse_u8(bytes, pos)->Some_0.0,
        ).len(),
{
    let v = spec_parse_u8(bytes, pos)->Some_0.0;
    let d0 = bytes[pos] - 48;
    if pos + 1 < bytes.len() && is_digit(bytes[pos + 1]) {
        let d1 = bytes[pos + 1] - 48;
        if pos + 2 < bytes.len() && is_digit(bytes[pos + 2]) {
            let d2 = bytes[pos + 2] - 48;
            vstd::arithmetic::div_mod::lemma_fundamental_div_mod_converse(
                v as int,
                100,
                d0,
                d1 * 10 + d2,
            );
            vstd::arithmetic::div_mod::lemma_fundamental_div_mod_converse(
                v as int,
                10,
                d0 * 10 + d1,
                d2,
            );
            vstd::arithmetic::div_mod::lemma_fundamental_div_mod_converse(
                d0 * 10 + d1,
                10,
                d0,
                d1,
            );
            assert(bytes.subrange(pos, pos + 3) =~= spec_dec_bytes(v));
        } else {
            vstd::arithmetic::div_mod::lemma_fundamental_div_mod_converse(v as int, 10, d0, d1);
            assert(bytes.subrange(pos, pos + 2) =~= spec_dec_bytes(v));
        }
    } else {
        assert(bytes.subrange(pos, pos + 1) =~= spec_dec_bytes(v));
    }
}

/// Only canonical documents decode: a document that parses back to a
/// configuration is, byte for byte, that configuration's encoding.  With
/// [`lemma_config_round_trip`] this makes the decoder succeed on exactly
/// the encoder's documents.
#[verifier::rlimit(100)]
pub proof fn lemma_decode_canonical(bytes: Seq<u8>)
    requires
        spec_decode_config(bytes) is Some,
    ensures
        bytes == spec_encode_config(spec_decode_config(bytes)->Some_0),
{
    let c = spec_decode_config(bytes)->Some_0;
    let q0 = lit_open().len() as int;
    let (lamp_on, q1) = spec_parse_bool(bytes, q0)->Some_0;
    let q2 = q1 + lit_brightness().len() as int;
    let (red, q3) = spec_parse_u8(bytes, q2)->Some_0;
    let q4 = q3 + lit_green().len() as int;
    let (green, q5) = spec_parse_u8(bytes, q4)->Some_0;
    let q6 = q5 + lit_blue().len() as int;
    let (blue, q7) = spec_parse_u8(bytes, q6)->Some_0;
    let q8 = q7 + lit_mode().len() as int;
    let (significant_mode, q9) = spec_parse_bool(bytes, q8)->Some_0;

    lemma_parse_bool_complete(bytes, q0);
    lemma_parse_u8_complete(bytes, q2);
    lemma_parse_u8_complete(bytes, q4);
    lemma_parse_u8_complete(bytes, q6);
    lemma_parse_bool_complete(bytes, q8);

    lemma_match_pointwise(bytes, 0, lit_open());
    lemma_match_pointwise(bytes, q0, spec_bool_bytes(lamp_on));
    lemma_match_pointwise(bytes, q1, lit_brightness());
    lemma_match_pointwise(bytes, q2, spec_dec_bytes(red));
    lemma_match_pointwise(bytes, q3, lit_green());
    lemma_match_pointwise(bytes, q4, spec_dec_bytes(green));
    lemma_match_pointwise(bytes, q5, lit_blue());
    lemma_match_pointwise(bytes, q6, spec_dec_bytes(blue));
    lemma_match_pointwise(bytes, q7, lit_mode());
    lemma_match_pointwise(bytes, q8, spec_bool_bytes(significant_mode));
    lemma_match_pointwise(bytes, q9, lit_close());

    let enc = spec_encode_config(c);
    lemma_enc_layout(c);
    lemma_match_pointwise(enc, 0, lit_open());
    lemma_match_pointwise(enc, q0, spec_bool_bytes(lamp_on));
    lemma_match_pointwise(enc, q1, lit_brightness());
    lemma_match_pointwise(enc, q2, spec_dec_bytes(red));
    lemma_match_pointwise(enc, q3, lit_green());
    lemma_match_pointwise(enc, q4, spec_dec_bytes(green));
    lemma_match_pointwise(enc, q5, lit_blue());
    lemma_match_pointwise(enc, q6, spec_dec_bytes(blue));
    lemma_match_pointwise(enc, q7, lit_mode());
    lemma_match_pointwise(enc, q8, spec_bool_bytes(significant_mode));
    lemma_match_pointwise(enc, q9, lit_close());

    assert(bytes =~= enc);
}

/// Decoding inverts encoding: the canonical document of any configuration
/// parses back to exactly that configuration.  With [`decode_config`] and
/// [`encode_config`] this is the persistence round-trip law: what was set
/// and stored is what a later load recovers.
#[verifier::rlimit(60)]
pub proof fn lemma_config_round_trip(c: Config)
    ensures
        spec_decode_config(spec_encode_config(c)) == Some(c),
{
    let enc = spec_encode_config(c);
    let a0 = lit_open();
    let b0 = spec_bool_bytes(c.lamp_on);
    let a1 = lit_brightness();
    let d0 = spec_dec_bytes(c.lamp_brightness.r);
    let a2 = lit_green();
    let d1 = spec_dec_bytes(c.lamp_brightness.g);
    let a3 = lit_blue();
    let d2 = spec_dec_bytes(c.lamp_brightness.b);
    let a4 = lit_mode();
    let b1 = spec_bool_bytes(c.significant_mode);

    let p0 = a0.len() as int;
    let p1 = p0 + b0.len() as int;
    let p2 = p1 + a1.len() as int;
    let p3 = p2 + d0.len() as int;
    let p4 = p3 + a2.len() as int;
    let p5 = p4 + d1.len() as int;
    let p6 = p5 + a3.len() as int;
    let p7 = p6 + d2.len() as int;
    let p8 = p7 + a4.len() as int;
    let p9 = p8 + b1.len() as int;

    lemma_enc_layout(c);

    lemma_parse_bool_canonical(enc, p0, c.lamp_on);
    assert(enc.subrange(p3, p3 + 5)[0] == enc[p3]);
    assert(!is_digit(enc[p3]));
    lemma_parse_u8_canonical(enc, p2, c.lamp_brightness.r);
    assert(enc.subrange(p5, p5 + 5)[0] == enc[p5]);
    assert(!is_digit(enc[p5]));
    lemma_parse_u8_canonical(enc, p4, c.lamp_brightness.g);
    assert(enc.subrange(p7, p7 + 21)[0] == enc[p7]);
    assert(!is_digit(enc[p7]));
    lemma_parse_u8_canonical(enc, p6, c.lamp_brightness.b);
    lemma_parse_bool_canonical(enc, p8, c.significant_mode);
    assert(p9 + 1 == enc.len());
}

} // verus!
