//! The persisted configuration record: one newline-terminated field per
//! line, in fixed schema order — fullscreen, frame cap, overlay flag,
//! V-Sync, both volumes, then the seven key bindings.  Booleans are spelled
//! `true`/`false`, the frame cap and key codes are unsigned decimal
//! integers, and volumes are decimals in the unit interval with three
//! fractional digits.
//!
//! Serialization is verified to produce exactly `record_of`; parsing is
//! verified to decide exactly the grammar `spec_parse_record`, and the two
//! are tied together by the round-trip lemma at the bottom.

use vstd::prelude::*;

use vstd::arithmetic::div_mod::lemma_div_denominator;

use crate::config::default_config;
use crate::config::GameData;
use crate::config::MAX_FPS_LIMIT;
use crate::config::MIN_FPS;
use crate::config::VOLUME_MAX;

verus! {

/// Line separator of the record.
pub const NEWLINE: u8 = 10;

/// A field followed by the line separator.
pub open spec fn line(b: Seq<u8>) -> Seq<u8> {
    b + seq![NEWLINE]
}

/// The bytes of the word `true`.
pub open spec fn true_bytes() -> Seq<u8> {
    seq![116u8, 114u8, 117u8, 101u8]
}

/// The bytes of the word `false`.
pub open spec fn false_bytes() -> Seq<u8> {
    seq![102u8, 97u8, 108u8, 115u8, 101u8]
}

/// How a boolean field is spelled.
pub open spec fn bool_bytes(b: bool) -> Seq<u8> {
    if b {
        true_bytes()
    } else {
        false_bytes()
    }
}

/// The shortest decimal spelling of `n`, most significant digit first.
pub open spec fn dec_digits(n: nat) -> Seq<u8>
    decreases n,
{
    if n < 10 {
        seq![(48 + n) as u8]
    } else {
        dec_digits(n / 10).push((48 + n % 10) as u8)
    }
}

/// How a fixed-point volume is spelled: integer part, a dot, and exactly
/// three fractional digits.
pub open spec fn volume_bytes(v: u32) -> Seq<u8> {
    dec_digits((v / 1000) as nat) + seq![46u8] + seq![
        (48 + (v / 100) % 10) as u8,
        (48 + (v / 10) % 10) as u8,
        (48 + v % 10) as u8,
    ]
}

/// The full persisted record of `c`: thirteen lines in schema order.
pub open spec fn record_of(c: GameData) -> Seq<u8> {
    line(bool_bytes(c.fullscreen)) + (line(dec_digits(c.max_fps as nat)) + (line(
        bool_bytes(c.show_fps),
    ) + (line(bool_bytes(c.vsync)) + (line(volume_bytes(c.bgm_volume)) + (line(
        volume_bytes(c.sfx_volume),
    ) + (line(dec_digits(c.key_up as nat)) + (line(dec_digits(c.key_down as nat)) + (line(
        dec_digits(c.key_left as nat),
    ) + (line(dec_digits(c.key_right as nat)) + (line(dec_digits(c.key_attack as nat)) + (line(
        dec_digits(c.key_bomb as nat),
    ) + line(dec_digits(c.key_slow as nat)))))))))))))
}

/// Appends the decimal spelling of `n`.
fn push_u32(out: &mut Vec<u8>, n: u32)
    ensures
        final(out)@ == old(out)@ + dec_digits(n as nat),
    decreases n,
{
    if n < 10 {
        out.push(48 + n as u8);
        assert(out@ =~= old(out)@ + dec_digits(n as nat));
    } else {
        push_u32(out, n / 10);
        out.push(48 + (n % 10) as u8);
        assert(out@ =~= old(out)@ + dec_digits(n as nat));
    }
}

/// Appends the spelling of a boolean field.
fn push_bool(out: &mut Vec<u8>, b: bool)
    ensures
        final(out)@ == old(out)@ + bool_bytes(b),
{
    if b {
        out.push(116);
        out.push(114);
        out.push(117);
        out.push(101);
    } else {
        out.push(102);
        out.push(97);
        out.push(108);
        out.push(115);
        out.push(101);
    }
    assert(out@ =~= old(out)@ + bool_bytes(b));
}

/// Appends the spelling of a fixed-point volume.
fn push_volume(out: &mut Vec<u8>, v: u32)
    ensures
        final(out)@ == old(out)@ + volume_bytes(v),
{
    push_u32(out, v / 1000);
    out.push(46);
    out.push(48 + ((v / 100) % 10) as u8);
    out.push(48 + ((v / 10) % 10) as u8);
    out.push(48 + (v % 10) as u8);
    assert(out@ =~= old(out)@ + volume_bytes(v));
}

/// Whether `b` is a decimal digit.
pub open spec fn is_digit(b: u8) -> bool {
    48 <= b <= 57
}

/// A non-empty run of decimal digits.
pub open spec fn is_digits(s: Seq<u8>) -> bool {
    s.len() > 0 && forall|i: int| 0 <= i < s.len() ==> is_digit(#[trigger] s[i])
}

/// The value of a digit run, most significant digit first.
pub open spec fn dec_val(s: Seq<u8>) -> int
    decreases s.len(),
{
    if s.len() == 0 {
        0
    } else {
        10 * dec_val(s.drop_last()) + (s.last() - 48)
    }
}

/// Ten to the `n`th.
pub open spec fn pow10(n: nat) -> int
    decreases n,
{
    if n == 0 {
        1
    } else {
        10 * pow10((n - 1) as nat)
    }
}

/// A digit run's value is non-negative and below ten to its length.
pub proof fn lemma_dec_val_bounds(s: Seq<u8>)
    requires
        forall|i: int| 0 <= i < s.len() ==> is_digit(#[trigger] s[i]),
    ensures
        0 <= dec_val(s) < pow10(s.len()),
    decreases s.len(),
{
    if s.len() > 0 {
        lemma_dec_val_bounds(s.drop_last());
    }
}

/// Extending a digit run on the right never decreases its value.
pub proof fn lemma_dec_val_prefix(s: Seq<u8>, k: int)
    requires
        forall|i: int| 0 <= i < s.len() ==> is_digit(#[trigger] s[i]),
        0 <= k <= s.len(),
    ensures
        dec_val(s.take(k)) <= dec_val(s),
    decreases s.len(),
{
    if k == s.len() {
        assert(s.take(k) =~= s);
    } else {
        assert(s.take(k) =~= s.drop_last().take(k));
        lemma_dec_val_prefix(s.drop_last(), k);
        lemma_dec_val_bounds(s.drop_last());
    }
}

/// The decimal spelling of `n` is a digit run.
pub proof fn lemma_dec_digits_are_digits(n: nat)
    ensures
        dec_digits(n).len() >= 1,
        forall|i: int| 0 <= i < dec_digits(n).len() ==> is_digit(#[trigger] dec_digits(n)[i]),
    decreases n,
{
    if n >= 10 {
        lemma_dec_digits_are_digits(n / 10);
    }
}

/// The decimal spelling of `n` evaluates back to `n`.
pub proof fn lemma_dec_val_dec_digits(n: nat)
    ensures
        dec_val(dec_digits(n)) == n,
    decreases n,
{
    if n < 10 {
        assert(((48 + n) as u8) == 48 + n);
        assert(dec_digits(n).drop_last() =~= Seq::<u8>::empty());
        assert(dec_val(Seq::<u8>::empty()) == 0);
        assert(dec_val(dec_digits(n)) == 10 * dec_val(dec_digits(n).drop_last()) + (dec_digits(
            n,
        ).last() - 48));
    } else {
        lemma_dec_val_dec_digits(n / 10);
        assert(((48 + n % 10) as u8) == 48 + n % 10);
        assert(dec_digits(n).drop_last() =~= dec_digits(n / 10));
        assert(dec_digits(n).last() == (48 + n % 10) as u8);
    }
}

/// The earliest occurrence of `b` in `s` at or after `i`.
pub open spec fn find_from(s: Seq<u8>, b: u8, i: int) -> Option<int>
    decreases s.len() - i,
{
    if i < 0 || i >= s.len() {
        None
    } else if s[i] == b {
        Some(i)
    } else {
        find_from(s, b, i + 1)
    }
}

/// The content of the line starting at `i` together with the index just
/// past its separator, if the line is terminated at all.
pub open spec fn take_line(s: Seq<u8>, i: int) -> Option<(Seq<u8>, int)> {
    match find_from(s, NEWLINE, i) {
        Some(m) => Some((s.subrange(i, m), m + 1)),
        None => None,
    }
}

/// A boolean field: exactly the word `true` or the word `false`.
pub open spec fn spec_parse_bool(s: Seq<u8>) -> Option<bool> {
    if s == true_bytes() {
        Some(true)
    } else if s == false_bytes() {
        Some(false)
    } else {
        None
    }
}

/// An unsigned field: a digit run whose value fits the type.
pub open spec fn spec_parse_u32(s: Seq<u8>) -> Option<u32> {
    if is_digits(s) && dec_val(s) <= u32::MAX {
        Some(dec_val(s) as u32)
    } else {
        None
    }
}

/// A volume field: a digit run, optionally followed by a dot and one to
/// three fractional digits, whose fixed-point value lies in the unit
/// interval.
pub open spec fn spec_parse_volume(s: Seq<u8>) -> Option<u32> {
    match find_from(s, 46, 0) {
        None => if is_digits(s) && dec_val(s) <= 1 {
            Some((dec_val(s) * 1000) as u32)
        } else {
            None
        },
        Some(d) => {
            let ip = s.subrange(0, d);
            let fp = s.subrange(d + 1, s.len() as int);
            if is_digits(ip) && is_digits(fp) && fp.len() <= 3 {
                let scale: int = if fp.len() == 1 {
                    100
                } else if fp.len() == 2 {
                    10
                } else {
                    1
                };
                let v = dec_val(ip) * 1000 + dec_val(fp) * scale;
                if v <= 1000 {
                    Some(v as u32)
                } else {
                    None
                }
            } else {
                None
            }
        },
    }
}

/// Finds the first line separator at or after `start`.
fn find_newline(bytes: &Vec<u8>, start: usize) -> (r: Option<usize>)
    requires
        start <= bytes@.len(),
    ensures
        match r {
            Some(m) => find_from(bytes@, NEWLINE, start as int) == Some(m as int) && start <= m
                < bytes@.len() && m < usize::MAX,
            None => find_from(bytes@, NEWLINE, start as int) is None,
        },
{
    let mut j: usize = start;
    while j < bytes.len()
        invariant
            start <= j <= bytes@.len(),
            find_from(bytes@, NEWLINE, start as int) == find_from(bytes@, NEWLINE, j as int),
        decreases bytes@.len() - j,
    {
        if bytes[j] == NEWLINE {
            return Some(j);
        }
        j = j + 1;
    }
    None
}

/// Finds the first occurrence of `b` strictly inside `[start, end)`,
/// reported against the start of that segment.
fn find_in_segment(bytes: &Vec<u8>, b: u8, start: usize, end: usize) -> (r: Option<usize>)
    requires
        start <= end <= bytes@.len(),
    ensures
        match r {
            Some(m) => start <= m < end && find_from(
                bytes@.subrange(start as int, end as int),
                b,
                0,
            ) == Some(m - start),
            None => find_from(bytes@.subrange(start as int, end as int), b, 0) is None,
        },
{
    let ghost l = bytes@.subrange(start as int, end as int);
    let mut j: usize = start;
    while j < end
        invariant
            start <= j <= end <= bytes@.len(),
            l == bytes@.subrange(start as int, end as int),
            find_from(l, b, 0) == find_from(l, b, j - start),
        decreases end - j,
    {
        if bytes[j] == b {
            return Some(j);
        }
        j = j + 1;
    }
    None
}

/// Parses the segment `[start, end)` as a boolean field.
fn parse_bool_seg(bytes: &Vec<u8>, start: usize, end: usize) -> (r: Option<bool>)
    requires
        start <= end <= bytes@.len(),
    ensures
        r == spec_parse_bool(bytes@.subrange(start as int, end as int)),
{
    let ghost l = bytes@.subrange(start as int, end as int);
    let n = end - start;
    if n == 4 && bytes[start] == 116 && bytes[start + 1] == 114 && bytes[start + 2] == 117
        && bytes[start + 3] == 101 {
        assert(l =~= true_bytes());
        Some(true)
    } else if n == 5 && bytes[start] == 102 && bytes[start + 1] == 97 && bytes[start + 2] == 108
        && bytes[start + 3] == 115 && bytes[start + 4] == 101 {
        assert(l =~= false_bytes());
        Some(false)
    } else {
        proof {
            if l == true_bytes() {
                assert(l.len() == 4);
                assert(l[0] == 116 && l[1] == 114 && l[2] == 117 && l[3] == 101);
            }
            if l == false_bytes() {
                assert(l.len() == 5);
                assert(l[0] == 102 && l[1] == 97 && l[2] == 108 && l[3] == 115 && l[4] == 101);
            }
        }
        None
    }
}

/// Parses the segment `[start, end)` as an unsigned decimal field.
fn parse_u32_seg(bytes: &Vec<u8>, start: usize, end: usize) -> (r: Option<u32>)
    requires
        start <= end <= bytes@.len(),
    ensures
        r == spec_parse_u32(bytes@.subrange(start as int, end as int)),
{
    let ghost l = bytes@.subrange(start as int, end as int);
    if start == end {
        return None;
    }
    let mut acc: u32 = 0;
    let mut j: usize = start;
    while j < end
        invariant
            start <= j <= end <= bytes@.len(),
            l == bytes@.subrange(start as int, end as int),
            forall|i: int| 0 <= i < j - start ==> is_digit(#[trigger] l[i]),
            acc == dec_val(l.take(j - start)),
        decreases end - j,
    {
        let b = bytes[j];
        if b < 48 || b > 57 {
            proof {
                assert(l[j - start] == b);
                assert(!is_digits(l));
            }
            return None;
        }
        let d = (b - 48) as u32;
        let wide: u64 = acc as u64 * 10 + d as u64;
        proof {
            assert(l.take(j + 1 - start).drop_last() =~= l.take(j - start));
            assert(l.take(j + 1 - start).last() == b);
        }
        if wide > u32::MAX as u64 {
            proof {
                assert(dec_val(l.take(j + 1 - start)) == wide);
                if is_digits(l) {
                    lemma_dec_val_prefix(l, j + 1 - start);
                    assert(dec_val(l) > u32::MAX);
                }
            }
            return None;
        }
        acc = wide as u32;
        j = j + 1;
    }
    proof {
        assert(l.take(end - start) =~= l);
    }
    Some(acc)
}

/// Parses the segment `[start, end)` as a volume field.
fn parse_volume_seg(bytes: &Vec<u8>, start: usize, end: usize) -> (r: Option<u32>)
    requires
        start <= end <= bytes@.len(),
    ensures
        r == spec_parse_volume(bytes@.subrange(start as int, end as int)),
        r matches Some(v) ==> v <= VOLUME_MAX,
{
    let ghost l = bytes@.subrange(start as int, end as int);
    match find_in_segment(bytes, 46, start, end) {
        None => {
            match parse_u32_seg(bytes, start, end) {
                Some(v) => {
                    proof {
                        if is_digits(l) {
                            lemma_dec_val_bounds(l);
                        }
                    }
                    if v <= 1 {
                        Some(v * 1000)
                    } else {
                        None
                    }
                },
                None => None,
            }
        },
        Some(dabs) => {
            let ghost d = dabs - start;
            let ghost ip = l.subrange(0, d);
            let ghost fp = l.subrange(d + 1, l.len() as int);
            proof {
                assert(ip =~= bytes@.subrange(start as int, dabs as int));
                assert(fp =~= bytes@.subrange(dabs as int + 1, end as int));
            }
            let fplen = end - dabs - 1;
            if fplen < 1 || fplen > 3 {
                return None;
            }
            match parse_u32_seg(bytes, start, dabs) {
                None => {
                    proof {
                        if is_digits(ip) && is_digits(fp) {
                            lemma_dec_val_bounds(fp);
                            assert(dec_val(ip) > u32::MAX);
                        }
                    }
                    None
                },
                Some(ipv) => {
                    proof {
                        if is_digits(ip) {
                            lemma_dec_val_bounds(ip);
                        }
                    }
                    if ipv > 1 {
                        proof {
                            if is_digits(fp) {
                                lemma_dec_val_bounds(fp);
                            }
                        }
                        None
                    } else {
                        match parse_u32_seg(bytes, dabs + 1, end) {
                            None => {
                                proof {
                                    if is_digits(fp) {
                                        lemma_dec_val_bounds(fp);
                                        assert(pow10(0) == 1);
                                        assert(pow10(1) == 10);
                                        assert(pow10(2) == 100);
                                        assert(pow10(3) == 1000);
                                    }
                                }
                                None
                            },
                            Some(fpv) => {
                                proof {
                                    lemma_dec_val_bounds(fp);
                                    lemma_dec_val_bounds(ip);
                                    assert(pow10(0) == 1);
                                    assert(pow10(1) == 10);
                                    assert(pow10(2) == 100);
                                    assert(pow10(3) == 1000);
                                }
                                let scale: u32 = if fplen == 1 {
                                    100
                                } else if fplen == 2 {
                                    10
                                } else {
                                    1
                                };
                                let v = ipv * 1000 + fpv * scale;
                                if v <= 1000 {
                                    Some(v)
                                } else {
                                    None
                                }
                            },
                        }
                    }
                },
            }
        },
    }
}

/// Outcome of bringing the persisted configuration in: the record is either
/// absent altogether or present but malformed.
#[derive(Clone, Copy, PartialEq, Eq, Structural, Debug)]
pub enum LoadError {
    MissingFile,
    MalformedData,
}

/// A boolean field line starting at `i`: the value and the index just past
/// the separator.
pub open spec fn bool_line(s: Seq<u8>, i: int) -> Option<(bool, int)> {
    match take_line(s, i) {
        Some((l, j)) => match spec_parse_bool(l) {
            Some(b) => Some((b, j)),
            None => None,
        },
        None => None,
    }
}

/// An unsigned field line starting at `i`.
pub open spec fn u32_line(s: Seq<u8>, i: int) -> Option<(u32, int)> {
    match take_line(s, i) {
        Some((l, j)) => match spec_parse_u32(l) {
            Some(v) => Some((v, j)),
            None => None,
        },
        None => None,
    }
}

/// A volume field line starting at `i`.
pub open spec fn volume_line(s: Seq<u8>, i: int) -> Option<(u32, int)> {
    match take_line(s, i) {
        Some((l, j)) => match spec_parse_volume(l) {
            Some(v) => Some((v, j)),
            None => None,
        },
        None => None,
    }
}

/// The whole record grammar: thirteen terminated lines in schema order,
/// with the frame cap confined to its accepted range.  Bytes after the
/// thirteenth line are ignored.  The close flag is never persisted, so a
/// parsed store always starts with it clear.
pub open spec fn spec_parse_record(s: Seq<u8>) -> Option<GameData> {
    match bool_line(s, 0) {
        None => None,
        Some((fullscreen, i1)) => match u32_line(s, i1) {
            None => None,
            Some((max_fps, i2)) => if !(MIN_FPS <= max_fps <= MAX_FPS_LIMIT) {
                None
            } else {
                match bool_line(s, i2) {
                    None => None,
                    Some((show_fps, i3)) => match bool_line(s, i3) {
                        None => None,
                        Some((vsync, i4)) => match volume_line(s, i4) {
                            None => None,
                            Some((bgm_volume, i5)) => match volume_line(s, i5) {
                                None => None,
                                Some((sfx_volume, i6)) => match u32_line(s, i6) {
                                    None => None,
                                    Some((key_up, i7)) => match u32_line(s, i7) {
                                        None => None,
                                        Some((key_down, i8)) => match u32_line(s, i8) {
                                            None => None,
                                            Some((key_left, i9)) => match u32_line(s, i9) {
                                                None => None,
                                                Some((key_right, i10)) => match u32_line(s, i10) {
                                                    None => None,
                                                    Some((key_attack, i11)) => match u32_line(
                                                        s,
                                                        i11,
                                                    ) {
                                                        None => None,
                                                        Some((key_bomb, i12)) => match u32_line(
                                                            s,
                                                            i12,
                                                        ) {
                                                            None => None,
                                                            Some((key_slow, _i13)) => Some(
                                                                GameData {
                                                                    window_should_close: false,
                                                                    fullscreen,
                                                                    max_fps,
                                                                    show_fps,
                                                                    vsync,
                                                                    bgm_volume,
                                                                    sfx_volume,
                                                                    key_up,
                                                                    key_down,
                                                                    key_left,
                                                                    key_right,
                                                                    key_attack,
                                                                    key_bomb,
                                                                    key_slow,
                                                                },
                                                            ),
                                                        },
                                                    },
                                                },
                                            },
                                        },
                                    },
                                },
                            },
                        },
                    },
                }
            },
        },
    }
}

/// Reads one boolean field line.
fn read_bool_line(bytes: &Vec<u8>, i: usize) -> (r: Option<(bool, usize)>)
    requires
        i <= bytes@.len(),
    ensures
        match r {
            Some((b, j)) => bool_line(bytes@, i as int) == Some((b, j as int)) && i < j
                <= bytes@.len(),
            None => bool_line(bytes@, i as int) is None,
        },
{
    match find_newline(bytes, i) {
        Some(m) => match parse_bool_seg(bytes, i, m) {
            Some(b) => Some((b, m + 1)),
            None => None,
        },
        None => None,
    }
}

/// Reads one unsigned field line.
fn read_u32_line(bytes: &Vec<u8>, i: usize) -> (r: Option<(u32, usize)>)
    requires
        i <= bytes@.len(),
    ensures
        match r {
            Some((v, j)) => u32_line(bytes@, i as int) == Some((v, j as int)) && i < j
                <= bytes@.len(),
            None => u32_line(bytes@, i as int) is None,
        },
{
    match find_newline(bytes, i) {
        Some(m) => match parse_u32_seg(bytes, i, m) {
            Some(v) => Some((v, m + 1)),
            None => None,
        },
        None => None,
    }
}

/// Reads one volume field line.
fn read_volume_line(bytes: &Vec<u8>, i: usize) -> (r: Option<(u32, usize)>)
    requires
        i <= bytes@.len(),
    ensures
        match r {
            Some((v, j)) => volume_line(bytes@, i as int) == Some((v, j as int)) && i < j
                <= bytes@.len() && v <= VOLUME_MAX,
            None => volume_line(bytes@, i as int) is None,
        },
{
    match find_newline(bytes, i) {
        Some(m) => match parse_volume_seg(bytes, i, m) {
            Some(v) => Some((v, m + 1)),
            None => None,
        },
        None => None,
    }
}

/// Parses a full persisted record.
#[verifier::rlimit(60)]
fn parse_record(bytes: &Vec<u8>) -> (r: Option<GameData>)
    ensures
        r == spec_parse_record(bytes@),
        r matches Some(c) ==> c.wf() && !c.window_should_close,
{
    let (fullscreen, i) = match read_bool_line(bytes, 0) {
        Some(x) => x,
        None => return None,
    };
    let (max_fps, i) = match read_u32_line(bytes, i) {
        Some(x) => x,
        None => return None,
    };
    if max_fps < MIN_FPS || max_fps > MAX_FPS_LIMIT {
        return None;
    }
    let (show_fps, i) = match read_bool_line(bytes, i) {
        Some(x) => x,
        None => return None,
    };
    let (vsync, i) = match read_bool_line(bytes, i) {
        Some(x) => x,
        None => return None,
    };
    let (bgm_volume, i) = match read_volume_line(bytes, i) {
        Some(x) => x,
        None => return None,
    };
    let (sfx_volume, i) = match read_volume_line(bytes, i) {
        Some(x) => x,
        None => return None,
    };
    let (key_up, i) = match read_u32_line(bytes, i) {
        Some(x) => x,
        None => return None,
    };
    let (key_down, i) = match read_u32_line(bytes, i) {
        Some(x) => x,
        None => return None,
    };
    let (key_left, i) = match read_u32_line(bytes, i) {
        Some(x) => x,
        None => return None,
    };
    let (key_right, i) = match read_u32_line(bytes, i) {
        Some(x) => x,
        None => return None,
    };
    let (key_attack, i) = match read_u32_line(bytes, i) {
        Some(x) => x,
        None => return None,
    };
    let (key_bomb, i) = match read_u32_line(bytes, i) {
        Some(x) => x,
        None => return None,
    };
    let (key_slow, _i) = match read_u32_line(bytes, i) {
        Some(x) => x,
        None => return None,
    };
    Some(
        GameData {
            window_should_close: false,
            fullscreen,
            max_fps,
            show_fps,
            vsync,
            bgm_volume,
            sfx_volume,
            key_up,
            key_down,
            key_left,
            key_right,
            key_attack,
            key_bomb,
            key_slow,
        },
    )
}

impl GameData {
    /// Decodes a persisted record, or reports why there is none: absent
    /// contents are the missing-file case, contents outside the grammar are
    /// the malformed case.
    pub fn from_record(contents: Option<&Vec<u8>>) -> (r: Result<GameData, LoadError>)
        ensures
            match contents {
                None => r == Err::<GameData, LoadError>(LoadError::MissingFile),
                Some(b) => match spec_parse_record(b@) {
                    Some(c) => r == Ok::<GameData, LoadError>(c),
                    None => r == Err::<GameData, LoadError>(LoadError::MalformedData),
                },
            },
            r matches Ok(c) ==> c.wf() && !c.window_should_close,
    {
        match contents {
            None => Err(LoadError::MissingFile),
            Some(b) => match parse_record(b) {
                Some(c) => Ok(c),
                None => Err(LoadError::MalformedData),
            },
        }
    }

    /// Brings the configuration in at startup.  An absent record is the one
    /// recoverable failure: the defaults are synthesized and the second
    /// component asks the host to persist them at once.  A present but
    /// malformed record is fatal and propagated.
    pub fn load_config(contents: Option<&Vec<u8>>) -> (r: Result<(GameData, bool), LoadError>)
        ensures
            match contents {
                None => r == Ok::<(GameData, bool), LoadError>((default_config(), true)),
                Some(b) => match spec_parse_record(b@) {
                    Some(c) => r == Ok::<(GameData, bool), LoadError>((c, false)),
                    None => r == Err::<(GameData, bool), LoadError>(LoadError::MalformedData),
                },
            },
            r matches Ok((c, _)) ==> c.wf() && !c.window_should_close,
    {
        match GameData::from_record(contents) {
            Ok(c) => Ok((c, false)),
            Err(LoadError::MissingFile) => Ok((GameData::new(), true)),
            Err(LoadError::MalformedData) => Err(LoadError::MalformedData),
        }
    }

    /// Renders the persisted record of this store; the host writes these
    /// bytes out after any mutation.
    pub fn save_config(&self) -> (r: Vec<u8>)
        ensures
            r@ == record_of(*self),
    {
        let mut out: Vec<u8> = Vec::new();
        push_bool_line(&mut out, self.fullscreen);
        push_u32_line(&mut out, self.max_fps);
        push_bool_line(&mut out, self.show_fps);
        push_bool_line(&mut out, self.vsync);
        push_volume_line(&mut out, self.bgm_volume);
        push_volume_line(&mut out, self.sfx_volume);
        push_u32_line(&mut out, self.key_up);
        push_u32_line(&mut out, self.key_down);
        push_u32_line(&mut out, self.key_left);
        push_u32_line(&mut out, self.key_right);
        push_u32_line(&mut out, self.key_attack);
        push_u32_line(&mut out, self.key_bomb);
        push_u32_line(&mut out, self.key_slow);
        proof {
            let l1 = line(bool_bytes(self.fullscreen));
            let l2 = line(dec_digits(self.max_fps as nat));
            let l3 = line(bool_bytes(self.show_fps));
            let l4 = line(bool_bytes(self.vsync));
            let l5 = line(volume_bytes(self.bgm_volume));
            let l6 = line(volume_bytes(self.sfx_volume));
            let l7 = line(dec_digits(self.key_up as nat));
            let l8 = line(dec_digits(self.key_down as nat));
            let l9 = line(dec_digits(self.key_left as nat));
            let l10 = line(dec_digits(self.key_right as nat));
            let l11 = line(dec_digits(self.key_attack as nat));
            let l12 = line(dec_digits(self.key_bomb as nat));
            let l13 = line(dec_digits(self.key_slow as nat));
            assert(Seq::<u8>::empty() + l1 =~= l1);
            let p1 = l1;
            let p2 = p1 + l2;
            let p3 = p2 + l3;
            let p4 = p3 + l4;
            let p5 = p4 + l5;
            let p6 = p5 + l6;
            let p7 = p6 + l7;
            let p8 = p7 + l8;
            let p9 = p8 + l9;
            let p10 = p9 + l10;
            let p11 = p10 + l11;
            let p12 = p11 + l12;
            let p13 = p12 + l13;
            assert(out@ == p13);
            let t13 = l13;
            let t12 = l12 + t13;
            let t11 = l11 + t12;
            let t10 = l10 + t11;
            let t9 = l9 + t10;
            let t8 = l8 + t9;
            let t7 = l7 + t8;
            let t6 = l6 + t7;
            let t5 = l5 + t6;
            let t4 = l4 + t5;
            let t3 = l3 + t4;
            let t2 = l2 + t3;
            let t1 = l1 + t2;
            lemma_add_assoc(p11, l12, t13);
            lemma_add_assoc(p10, l11, t12);
            lemma_add_assoc(p9, l10, t11);
            lemma_add_assoc(p8, l9, t10);
            lemma_add_assoc(p7, l8, t9);
            lemma_add_assoc(p6, l7, t8);
            lemma_add_assoc(p5, l6, t7);
            lemma_add_assoc(p4, l5, t6);
            lemma_add_assoc(p3, l4, t5);
            lemma_add_assoc(p2, l3, t4);
            lemma_add_assoc(p1, l2, t3);
            assert(p1 + t2 =~= l1 + t2);
            assert(out@ == t1);
            assert(t1 == record_of(*self));
        }
        out
    }
}

/// Appends one boolean field line.
fn push_bool_line(out: &mut Vec<u8>, b: bool)
    ensures
        final(out)@ == old(out)@ + line(bool_bytes(b)),
{
    push_bool(out, b);
    out.push(NEWLINE);
    assert(out@ =~= old(out)@ + line(bool_bytes(b)));
}

/// Appends one unsigned field line.
fn push_u32_line(out: &mut Vec<u8>, n: u32)
    ensures
        final(out)@ == old(out)@ + line(dec_digits(n as nat)),
{
    push_u32(out, n);
    out.push(NEWLINE);
    assert(out@ =~= old(out)@ + line(dec_digits(n as nat)));
}

/// Appends one volume field line.
fn push_volume_line(out: &mut Vec<u8>, v: u32)
    ensures
        final(out)@ == old(out)@ + line(volume_bytes(v)),
{
    push_volume(out, v);
    out.push(NEWLINE);
    assert(out@ =~= old(out)@ + line(volume_bytes(v)));
}

/// Concatenation of byte sequences is associative.
proof fn lemma_add_assoc(a: Seq<u8>, b: Seq<u8>, c: Seq<u8>)
    ensures
        (a + b) + c == a + (b + c),
{
    assert((a + b) + c =~= a + (b + c));
}

/// A region whose first occurrence of `b` is at `m` is found there.
proof fn lemma_find_from_at(s: Seq<u8>, b: u8, i: int, m: int)
    requires
        0 <= i <= m < s.len(),
        s[m] == b,
        forall|j: int| i <= j < m ==> s[j] != b,
    ensures
        find_from(s, b, i) == Some(m),
    decreases m - i,
{
    if i < m {
        lemma_find_from_at(s, b, i + 1, m);
    }
}

/// A line whose content and separator sit at `i` is taken whole, leaving
/// the rest of the suffix.
proof fn lemma_line_at(s: Seq<u8>, i: int, c: Seq<u8>, rest: Seq<u8>)
    requires
        0 <= i <= s.len(),
        s.subrange(i, s.len() as int) == line(c) + rest,
        forall|k: int| 0 <= k < c.len() ==> c[k] != NEWLINE,
    ensures
        take_line(s, i) == Some((c, i + c.len() + 1)),
        i + c.len() + 1 <= s.len(),
        s.subrange(i + c.len() + 1, s.len() as int) == rest,
{
    let suf = s.subrange(i, s.len() as int);
    assert(suf.len() == c.len() + 1 + rest.len());
    assert forall|k: int| 0 <= k < c.len() implies suf[k] == c[k] by {
        assert(suf[k] == (line(c) + rest)[k]);
    }
    assert(suf[c.len() as int] == NEWLINE);
    assert(s[i + c.len()] == NEWLINE);
    assert forall|j: int| i <= j < i + c.len() implies s[j] != NEWLINE by {
        assert(suf[j - i] == c[j - i]);
        assert(s[j] == suf[j - i]);
    }
    lemma_find_from_at(s, NEWLINE, i, i + c.len());
    assert(s.subrange(i, i + c.len()) =~= c);
    let tail = s.subrange(i + c.len() + 1, s.len() as int);
    assert forall|k: int| 0 <= k < rest.len() implies tail[k] == rest[k] by {
        assert(suf[c.len() + 1 + k] == (line(c) + rest)[c.len() + 1 + k]);
        assert((line(c) + rest)[c.len() + 1 + k] == rest[k]);
        assert(tail[k] == s[i + c.len() + 1 + k]);
        assert(s[i + c.len() + 1 + k] == suf[c.len() + 1 + k]);
    }
    assert(tail =~= rest);
}

/// The canonical spelling of a boolean parses back to it.
proof fn lemma_parse_bool_canonical(b: bool)
    ensures
        spec_parse_bool(bool_bytes(b)) == Some(b),
{
    assert(true_bytes().len() == 4);
    assert(false_bytes().len() == 5);
}

/// The canonical spelling of an unsigned value parses back to it.
proof fn lemma_parse_u32_canonical(n: u32)
    ensures
        spec_parse_u32(dec_digits(n as nat)) == Some(n),
{
    lemma_dec_digits_are_digits(n as nat);
    lemma_dec_val_dec_digits(n as nat);
}

/// The canonical spelling of a boolean holds no separator.
proof fn lemma_bool_bytes_no_newline(b: bool)
    ensures
        forall|k: int| 0 <= k < bool_bytes(b).len() ==> bool_bytes(b)[k] != NEWLINE,
{
    assert forall|k: int| 0 <= k < bool_bytes(b).len() implies bool_bytes(b)[k] != NEWLINE by {
        if b {
            assert(bool_bytes(b) == true_bytes());
        } else {
            assert(bool_bytes(b) == false_bytes());
        }
    }
}

/// The decimal spelling of a value holds no separator.
proof fn lemma_dec_digits_no_newline(n: nat)
    ensures
        forall|k: int| 0 <= k < dec_digits(n).len() ==> dec_digits(n)[k] != NEWLINE,
{
    lemma_dec_digits_are_digits(n);
}

/// The canonical spelling of a volume holds no separator.
proof fn lemma_volume_bytes_no_newline(v: u32)
    ensures
        forall|k: int| 0 <= k < volume_bytes(v).len() ==> volume_bytes(v)[k] != NEWLINE,
{
    lemma_dec_digits_are_digits((v / 1000) as nat);
    let s = volume_bytes(v);
    let ipd = dec_digits((v / 1000) as nat);
    assert forall|k: int| 0 <= k < s.len() implies s[k] != NEWLINE by {
        if k < ipd.len() {
            assert(s[k] == ipd[k]);
            assert(is_digit(ipd[k]));
        }
    }
}

/// The canonical spelling of a volume parses back to it.
proof fn lemma_parse_volume_canonical(v: u32)
    requires
        v <= VOLUME_MAX,
    ensures
        spec_parse_volume(volume_bytes(v)) == Some(v),
{
    let s = volume_bytes(v);
    let q = (v / 1000) as nat;
    let ipd = dec_digits(q);
    lemma_dec_digits_are_digits(q);
    lemma_dec_val_dec_digits(q);
    assert(q < 10);
    assert(ipd == seq![(48 + q) as u8]);
    let h = (48 + (v / 100) % 10) as u8;
    let t = (48 + (v / 10) % 10) as u8;
    let o = (48 + v % 10) as u8;
    assert(s.len() == 5);
    assert(s[0] == ipd[0] && s[1] == 46 && s[2] == h && s[3] == t && s[4] == o);
    assert(is_digit(s[0]));
    assert(s[0] != 46);
    lemma_find_from_at(s, 46, 0, 1);
    let ip = s.subrange(0, 1);
    let fp = s.subrange(2, 5);
    assert(ip =~= ipd);
    assert(fp =~= seq![h, t, o]);
    assert(h == 48 + (v / 100) % 10 && t == 48 + (v / 10) % 10 && o == 48 + v % 10);
    assert(is_digits(fp));
    assert(fp.drop_last() =~= seq![h, t]);
    assert(seq![h, t].drop_last() =~= seq![h]);
    assert(seq![h].drop_last() =~= Seq::<u8>::empty());
    assert(dec_val(Seq::<u8>::empty()) == 0);
    assert(dec_val(seq![h]) == (v / 100) % 10);
    assert(dec_val(seq![h, t]) == 10 * ((v / 100) % 10) + (v / 10) % 10);
    assert(dec_val(fp) == 100 * ((v / 100) % 10) + 10 * ((v / 10) % 10) + v % 10);
    lemma_div_denominator(v as int, 10, 10);
    lemma_div_denominator(v as int, 100, 10);
    assert((v as int) / 10 / 10 == (v as int) / 100);
    assert((v as int) / 100 / 10 == (v as int) / 1000);
    assert(1000 * ((v as int) / 1000) + 100 * (((v as int) / 100) % 10) + 10 * (((v as int) / 10)
        % 10) + (v as int) % 10 == v as int);
    assert(dec_val(ip) * 1000 + dec_val(fp) * 1 == v as int);
}

/// Peels one canonical boolean line off the record.
proof fn lemma_bool_line_peel(s: Seq<u8>, i: int, b: bool, rest: Seq<u8>)
    requires
        0 <= i <= s.len(),
        s.subrange(i, s.len() as int) == line(bool_bytes(b)) + rest,
    ensures
        bool_line(s, i) == Some((b, i + bool_bytes(b).len() + 1)),
        i + bool_bytes(b).len() + 1 <= s.len(),
        s.subrange(i + bool_bytes(b).len() + 1, s.len() as int) == rest,
{
    lemma_bool_bytes_no_newline(b);
    lemma_line_at(s, i, bool_bytes(b), rest);
    lemma_parse_bool_canonical(b);
}

/// Peels one canonical unsigned line off the record.
proof fn lemma_u32_line_peel(s: Seq<u8>, i: int, n: u32, rest: Seq<u8>)
    requires
        0 <= i <= s.len(),
        s.subrange(i, s.len() as int) == line(dec_digits(n as nat)) + rest,
    ensures
        u32_line(s, i) == Some((n, i + dec_digits(n as nat).len() + 1)),
        i + dec_digits(n as nat).len() + 1 <= s.len(),
        s.subrange(i + dec_digits(n as nat).len() + 1, s.len() as int) == rest,
{
    lemma_dec_digits_no_newline(n as nat);
    lemma_line_at(s, i, dec_digits(n as nat), rest);
    lemma_parse_u32_canonical(n);
}

/// Peels one canonical volume line off the record.
proof fn lemma_volume_line_peel(s: Seq<u8>, i: int, v: u32, rest: Seq<u8>)
    requires
        v <= VOLUME_MAX,
        0 <= i <= s.len(),
        s.subrange(i, s.len() as int) == line(volume_bytes(v)) + rest,
    ensures
        volume_line(s, i) == Some((v, i + volume_bytes(v).len() + 1)),
        i + volume_bytes(v).len() + 1 <= s.len(),
        s.subrange(i + volume_bytes(v).len() + 1, s.len() as int) == rest,
{
    lemma_volume_bytes_no_newline(v);
    lemma_line_at(s, i, volume_bytes(v), rest);
    lemma_parse_volume_canonical(v);
}

/// Persisting and re-loading reproduces the configuration exactly: parsing
/// the rendered record of any well-formed store yields the same store, with
/// the (never persisted) close flag clear.
#[verifier::rlimit(100)]
pub proof fn lemma_record_round_trip(c: GameData)
    requires
        c.wf(),
    ensures
        spec_parse_record(record_of(c)) == Some(
            GameData { window_should_close: false, ..c },
        ),
{
    let f1 = bool_bytes(c.fullscreen);
    let f2 = dec_digits(c.max_fps as nat);
    let f3 = bool_bytes(c.show_fps);
    let f4 = bool_bytes(c.vsync);
    let f5 = volume_bytes(c.bgm_volume);
    let f6 = volume_bytes(c.sfx_volume);
    let f7 = dec_digits(c.key_up as nat);
    let f8 = dec_digits(c.key_down as nat);
    let f9 = dec_digits(c.key_left as nat);
    let f10 = dec_digits(c.key_right as nat);
    let f11 = dec_digits(c.key_attack as nat);
    let f12 = dec_digits(c.key_bomb as nat);
    let f13 = dec_digits(c.key_slow as nat);
    let r13 = line(f13);
    let r12 = line(f12) + r13;
    let r11 = line(f11) + r12;
    let r10 = line(f10) + r11;
    let r9 = line(f9) + r10;
    let r8 = line(f8) + r9;
    let r7 = line(f7) + r8;
    let r6 = line(f6) + r7;
    let r5 = line(f5) + r6;
    let r4 = line(f4) + r5;
    let r3 = line(f3) + r4;
    let r2 = line(f2) + r3;
    let r1 = line(f1) + r2;
    let s = record_of(c);
    assert(s == r1);
    assert(s.subrange(0, s.len() as int) =~= s);
    let o1: int = 0;
    lemma_bool_line_peel(s, o1, c.fullscreen, r2);
    let o2 = o1 + f1.len() + 1;
    lemma_u32_line_peel(s, o2, c.max_fps, r3);
    let o3 = o2 + f2.len() + 1;
    lemma_bool_line_peel(s, o3, c.show_fps, r4);
    let o4 = o3 + f3.len() + 1;
    lemma_bool_line_peel(s, o4, c.vsync, r5);
    let o5 = o4 + f4.len() + 1;
    lemma_volume_line_peel(s, o5, c.bgm_volume, r6);
    let o6 = o5 + f5.len() + 1;
    lemma_volume_line_peel(s, o6, c.sfx_volume, r7);
    let o7 = o6 + f6.len() + 1;
    lemma_u32_line_peel(s, o7, c.key_up, r8);
    let o8 = o7 + f7.len() + 1;
    lemma_u32_line_peel(s, o8, c.key_down, r9);
    let o9 = o8 + f8.len() + 1;
    lemma_u32_line_peel(s, o9, c.key_left, r10);
    let o10 = o9 + f9.len() + 1;
    lemma_u32_line_peel(s, o10, c.key_right, r11);
    let o11 = o10 + f10.len() + 1;
    lemma_u32_line_peel(s, o11, c.key_attack, r12);
    let o12 = o11 + f11.len() + 1;
    lemma_u32_line_peel(s, o12, c.key_bomb, r13);
    let o13 = o12 + f12.len() + 1;
    assert(r13 =~= line(f13) + Seq::<u8>::empty());
    lemma_u32_line_peel(s, o13, c.key_slow, Seq::<u8>::empty());
    assert(bool_line(s, o1) == Some((c.fullscreen, o2)));
    assert(u32_line(s, o2) == Some((c.max_fps, o3)));
    assert(bool_line(s, o3) == Some((c.show_fps, o4)));
    assert(bool_line(s, o4) == Some((c.vsync, o5)));
    assert(volume_line(s, o5) == Some((c.bgm_volume, o6)));
    assert(volume_line(s, o6) == Some((c.sfx_volume, o7)));
    assert(u32_line(s, o7) == Some((c.key_up, o8)));
    assert(u32_line(s, o8) == Some((c.key_down, o9)));
    assert(u32_line(s, o9) == Some((c.key_left, o10)));
    assert(u32_line(s, o10) == Some((c.key_right, o11)));
    assert(u32_line(s, o11) == Some((c.key_attack, o12)));
    assert(u32_line(s, o12) == Some((c.key_bomb, o13)));
    assert(u32_line(s, o13) is Some);
}

} // verus!
