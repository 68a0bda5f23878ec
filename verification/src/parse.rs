//! Manifest text parser.
//!
//! The manifest is XML-like text: the records are the `<SubTexture ...>`
//! elements, each a run of `key="value"` attributes closed by `/>`. The
//! grammar is defined once, as the recursive spec functions below, and the
//! executable parser returns exactly what the grammar denotes:
//!
//! - an optional UTF-8 byte-order mark is stripped before parsing;
//! - text outside `<SubTexture` elements (the surrounding document markup)
//!   is ignored; records are collected in document order;
//! - `name`, `x`, `y`, `width`, `height` are required; `frameX` and
//!   `frameY` (signed) and `frameWidth` and `frameHeight` default to 0;
//!   unknown attributes are skipped; if an attribute repeats, the last
//!   occurrence wins;
//! - a malformed attribute list, a missing required attribute, or a numeric
//!   value that does not fit its type is a `ParseError`.

use vstd::prelude::*;

use crate::manifest::ParseError;
use crate::manifest::SubTexRec;
use crate::manifest::SubTexture;
use crate::manifest::XML;

verus! {

/// A whitespace byte: space, tab, line feed, or carriage return.
pub open spec fn is_ws(b: u8) -> bool {
    b == 32 || b == 9 || b == 10 || b == 13
}

/// An ASCII decimal digit.
pub open spec fn is_digit(b: u8) -> bool {
    48 <= b <= 57
}

/// A byte that may appear in an attribute or tag name: anything but
/// whitespace and the five markup bytes `=` `"` `/` `>` `<`.
pub open spec fn is_key_byte(b: u8) -> bool {
    !is_ws(b) && b != 61 && b != 34 && b != 47 && b != 62 && b != 60
}

/// The first position at or after `i` holding a non-whitespace byte (or the
/// end of the input).
pub open spec fn spec_skip_ws(s: Seq<u8>, i: int) -> int
    decreases s.len() - i,
{
    if 0 <= i < s.len() && is_ws(s[i]) {
        spec_skip_ws(s, i + 1)
    } else {
        i
    }
}

/// The first position at or after `i` holding a non-name byte (or the end
/// of the input).
pub open spec fn spec_key_end(s: Seq<u8>, i: int) -> int
    decreases s.len() - i,
{
    if 0 <= i < s.len() && is_key_byte(s[i]) {
        spec_key_end(s, i + 1)
    } else {
        i
    }
}

/// The position of the first `"` at or after `i`, if any.
pub open spec fn spec_find_quote(s: Seq<u8>, i: int) -> Option<int>
    decreases s.len() - i,
{
    if 0 <= i < s.len() {
        if s[i] == 34 {
            Some(i)
        } else {
            spec_find_quote(s, i + 1)
        }
    } else {
        None
    }
}

/// `spec_key_end` never moves backwards or past the end.
proof fn lemma_key_end_bounds(s: Seq<u8>, i: int)
    requires
        0 <= i <= s.len(),
    ensures
        i <= spec_key_end(s, i) <= s.len(),
    decreases s.len() - i,
{
    if i < s.len() && is_key_byte(s[i]) {
        lemma_key_end_bounds(s, i + 1);
    }
}

/// The value of a digit string, most significant digit first.
pub open spec fn spec_digits_val(v: Seq<u8>) -> int
    decreases v.len(),
{
    if v.len() == 0 {
        0
    } else {
        spec_digits_val(v.drop_last()) * 10 + (v.last() - 48)
    }
}

/// Every byte is a decimal digit.
pub open spec fn all_digits(v: Seq<u8>) -> bool {
    forall|i: int| 0 <= i < v.len() ==> is_digit(v[i])
}

/// An unsigned decimal attribute value: one or more digits whose value fits
/// a `u32`.
pub open spec fn spec_parse_u32(v: Seq<u8>) -> Option<u32> {
    if v.len() >= 1 && all_digits(v) && spec_digits_val(v) <= u32::MAX {
        Some(spec_digits_val(v) as u32)
    } else {
        None
    }
}

/// A signed decimal attribute value: an optional leading `-`, then one or
/// more digits, whose value fits an `i32`.
pub open spec fn spec_parse_i32(v: Seq<u8>) -> Option<i32> {
    if v.len() >= 1 && v[0] == 45 {
        let d = v.subrange(1, v.len() as int);
        if d.len() >= 1 && all_digits(d) && spec_digits_val(d) <= 0x8000_0000 {
            Some((-spec_digits_val(d)) as i32)
        } else {
            None
        }
    } else {
        if v.len() >= 1 && all_digits(v) && spec_digits_val(v) <= i32::MAX {
            Some(spec_digits_val(v) as i32)
        } else {
            None
        }
    }
}

/// The value of a digit string is non-negative.
proof fn lemma_digits_val_nonneg(v: Seq<u8>)
    requires
        all_digits(v),
    ensures
        spec_digits_val(v) >= 0,
    decreases v.len(),
{
    if v.len() > 0 {
        assert(all_digits(v.drop_last()));
        lemma_digits_val_nonneg(v.drop_last());
    }
}

/// The value of a digit string is at least the value of any of its
/// prefixes.
proof fn lemma_digits_val_prefix_mono(v: Seq<u8>, k: int)
    requires
        all_digits(v),
        0 <= k <= v.len(),
    ensures
        spec_digits_val(v.take(k)) <= spec_digits_val(v),
    decreases v.len() - k,
{
    if k < v.len() {
        lemma_digits_val_prefix_mono(v, k + 1);
        assert(v.take(k + 1).drop_last() =~= v.take(k));
        assert(all_digits(v.take(k)));
        lemma_digits_val_nonneg(v.take(k));
    } else {
        assert(v.take(k) =~= v);
    }
}

/// Parses a digit string bounded by `cap`: returns its value exactly when
/// the bytes are one or more digits and the value is at most `cap`.
fn parse_digits(v: &Vec<u8>, cap: u64) -> (r: Option<u64>)
    requires
        1 <= cap <= 0x1_0000_0000u64,
    ensures
        match r {
            Some(n) => v@.len() >= 1 && all_digits(v@) && spec_digits_val(v@) == n && n <= cap,
            None => !(v@.len() >= 1 && all_digits(v@) && spec_digits_val(v@) <= cap),
        },
{
    if v.len() == 0 {
        return None;
    }
    let mut acc: u64 = 0;
    let mut i: usize = 0;
    while i < v.len()
        invariant
            i <= v@.len(),
            cap <= 0x1_0000_0000u64,
            forall|j: int| 0 <= j < i ==> is_digit(v@[j]),
            acc == spec_digits_val(v@.take(i as int)),
            acc <= cap,
        decreases v@.len() - i,
    {
        let b = v[i];
        if b < 48 || b > 57 {
            return None;
        }
        let d: u64 = (b - 48) as u64;
        let next: u64 = acc * 10 + d;
        proof {
            assert(v@.take(i as int + 1).drop_last() =~= v@.take(i as int));
        }
        if next > cap {
            proof {
                if all_digits(v@) && spec_digits_val(v@) <= cap {
                    lemma_digits_val_prefix_mono(v@, i as int + 1);
                }
            }
            return None;
        }
        acc = next;
        i += 1;
    }
    proof {
        assert(v@.take(v@.len() as int) =~= v@);
    }
    Some(acc)
}

/// Copies `v[start..end]` into a fresh byte string.
fn sub_vec(v: &Vec<u8>, start: usize, end: usize) -> (r: Vec<u8>)
    requires
        start <= end <= v@.len(),
    ensures
        r@ == v@.subrange(start as int, end as int),
{
    let mut r: Vec<u8> = Vec::new();
    let mut i: usize = start;
    while i < end
        invariant
            start <= i <= end <= v@.len(),
            r@ == v@.subrange(start as int, i as int),
        decreases end - i,
    {
        r.push(v[i]);
        proof {
            assert(v@.subrange(start as int, i as int + 1) =~= v@.subrange(
                start as int,
                i as int,
            ).push(v@[i as int]));
        }
        i += 1;
    }
    r
}

/// Executable form of `spec_parse_u32`.
fn parse_u32(v: &Vec<u8>) -> (r: Option<u32>)
    ensures
        r == spec_parse_u32(v@),
{
    match parse_digits(v, 0xFFFF_FFFFu64) {
        Some(n) => Some(n as u32),
        None => None,
    }
}

/// Executable form of `spec_parse_i32`.
fn parse_i32(v: &Vec<u8>) -> (r: Option<i32>)
    ensures
        r == spec_parse_i32(v@),
{
    if v.len() >= 1 && v[0] == 45 {
        let d = sub_vec(v, 1, v.len());
        match parse_digits(&d, 0x8000_0000u64) {
            Some(n) => Some((-(n as i64)) as i32),
            None => None,
        }
    } else {
        match parse_digits(v, 0x7FFF_FFFFu64) {
            Some(n) => Some(n as i32),
            None => None,
        }
    }
}

/// The attribute names a record understands.
pub enum AttrKey {
    Name,
    X,
    Y,
    Width,
    Height,
    FrameX,
    FrameY,
    FrameWidth,
    FrameHeight,
    Other,
}

/// `name` as bytes.
pub open spec fn lit_name() -> Seq<u8> {
    seq![110u8, 97u8, 109u8, 101u8]
}

/// `x` as bytes.
pub open spec fn lit_x() -> Seq<u8> {
    seq![120u8]
}

/// `y` as bytes.
pub open spec fn lit_y() -> Seq<u8> {
    seq![121u8]
}

/// `width` as bytes.
pub open spec fn lit_width() -> Seq<u8> {
    seq![119u8, 105u8, 100u8, 116u8, 104u8]
}

/// `height` as bytes.
pub open spec fn lit_height() -> Seq<u8> {
    seq![104u8, 101u8, 105u8, 103u8, 104u8, 116u8]
}

/// `frameX` as bytes.
pub open spec fn lit_frame_x() -> Seq<u8> {
    seq![102u8, 114u8, 97u8, 109u8, 101u8, 88u8]
}

/// `frameY` as bytes.
pub open spec fn lit_frame_y() -> Seq<u8> {
    seq![102u8, 114u8, 97u8, 109u8, 101u8, 89u8]
}

/// `frameWidth` as bytes.
pub open spec fn lit_frame_width() -> Seq<u8> {
    seq![102u8, 114u8, 97u8, 109u8, 101u8, 87u8, 105u8, 100u8, 116u8, 104u8]
}

/// `frameHeight` as bytes.
pub open spec fn lit_frame_height() -> Seq<u8> {
    seq![102u8, 114u8, 97u8, 109u8, 101u8, 72u8, 101u8, 105u8, 103u8, 104u8, 116u8]
}

/// Which record field an attribute name addresses.
pub open spec fn spec_classify(k: Seq<u8>) -> AttrKey {
    if k == lit_name() {
        AttrKey::Name
    } else if k == lit_x() {
        AttrKey::X
    } else if k == lit_y() {
        AttrKey::Y
    } else if k == lit_width() {
        AttrKey::Width
    } else if k == lit_height() {
        AttrKey::Height
    } else if k == lit_frame_x() {
        AttrKey::FrameX
    } else if k == lit_frame_y() {
        AttrKey::FrameY
    } else if k == lit_frame_width() {
        AttrKey::FrameWidth
    } else if k == lit_frame_height() {
        AttrKey::FrameHeight
    } else {
        AttrKey::Other
    }
}

/// Executable form of `spec_classify`.
fn classify(key: &Vec<u8>) -> (r: AttrKey)
    ensures
        r == spec_classify(key@),
{
    let n = key.len();
    if n == 4 && key[0] == 110 && key[1] == 97 && key[2] == 109 && key[3] == 101 {
        proof {
            assert(key@ =~= lit_name());
        }
        AttrKey::Name
    } else if n == 1 && key[0] == 120 {
        proof {
            assert(key@ =~= lit_x());
        }
        AttrKey::X
    } else if n == 1 && key[0] == 121 {
        proof {
            assert(key@ =~= lit_y());
        }
        AttrKey::Y
    } else if n == 5 && key[0] == 119 && key[1] == 105 && key[2] == 100 && key[3] == 116 && key[4]
        == 104 {
        proof {
            assert(key@ =~= lit_width());
        }
        AttrKey::Width
    } else if n == 6 && key[0] == 104 && key[1] == 101 && key[2] == 105 && key[3] == 103 && key[4]
        == 104 && key[5] == 116 {
        proof {
            assert(key@ =~= lit_height());
        }
        AttrKey::Height
    } else if n == 6 && key[0] == 102 && key[1] == 114 && key[2] == 97 && key[3] == 109 && key[4]
        == 101 && key[5] == 88 {
        proof {
            assert(key@ =~= lit_frame_x());
        }
        AttrKey::FrameX
    } else if n == 6 && key[0] == 102 && key[1] == 114 && key[2] == 97 && key[3] == 109 && key[4]
        == 101 && key[5] == 89 {
        proof {
            assert(key@ =~= lit_frame_y());
        }
        AttrKey::FrameY
    } else if n == 10 && key[0] == 102 && key[1] == 114 && key[2] == 97 && key[3] == 109 && key[4]
        == 101 && key[5] == 87 && key[6] == 105 && key[7] == 100 && key[8] == 116 && key[9] == 104 {
        proof {
            assert(key@ =~= lit_frame_width());
        }
        AttrKey::FrameWidth
    } else if n == 11 && key[0] == 102 && key[1] == 114 && key[2] == 97 && key[3] == 109 && key[4]
        == 101 && key[5] == 72 && key[6] == 101 && key[7] == 105 && key[8] == 103 && key[9] == 104
        && key[10] == 116 {
        proof {
            assert(key@ =~= lit_frame_height());
        }
        AttrKey::FrameHeight
    } else {
        AttrKey::Other
    }
}

/// The fields of one record while its attribute list is being read.
pub struct PartialRec {
    pub name: Option<Seq<u8>>,
    pub x: Option<u32>,
    pub y: Option<u32>,
    pub width: Option<u32>,
    pub height: Option<u32>,
    pub frame_x: Option<i32>,
    pub frame_y: Option<i32>,
    pub frame_width: Option<u32>,
    pub frame_height: Option<u32>,
}

/// Executable accumulator for one record's attributes.
pub struct PartialSub {
    pub name: Option<Vec<u8>>,
    pub x: Option<u32>,
    pub y: Option<u32>,
    pub width: Option<u32>,
    pub height: Option<u32>,
    pub frame_x: Option<i32>,
    pub frame_y: Option<i32>,
    pub frame_width: Option<u32>,
    pub frame_height: Option<u32>,
}

impl View for PartialSub {
    type V = PartialRec;

    open spec fn view(&self) -> PartialRec {
        PartialRec {
            name: match self.name {
                Some(v) => Some(v@),
                None => None,
            },
            x: self.x,
            y: self.y,
            width: self.width,
            height: self.height,
            frame_x: self.frame_x,
            frame_y: self.frame_y,
            frame_width: self.frame_width,
            frame_height: self.frame_height,
        }
    }
}

/// A record with no attribute seen yet.
pub open spec fn spec_empty_partial() -> PartialRec {
    PartialRec {
        name: None,
        x: None,
        y: None,
        width: None,
        height: None,
        frame_x: None,
        frame_y: None,
        frame_width: None,
        frame_height: None,
    }
}

/// Folds one `key="value"` attribute into the record being read: known
/// numeric keys must parse (else the record is malformed), unknown keys are
/// skipped, a repeated key overwrites the earlier value.
pub open spec fn spec_apply_attr(p: PartialRec, key: Seq<u8>, val: Seq<u8>) -> Option<PartialRec> {
    match spec_classify(key) {
        AttrKey::Name => Some(PartialRec { name: Some(val), ..p }),
        AttrKey::X => match spec_parse_u32(val) {
            Some(n) => Some(PartialRec { x: Some(n), ..p }),
            None => None,
        },
        AttrKey::Y => match spec_parse_u32(val) {
            Some(n) => Some(PartialRec { y: Some(n), ..p }),
            None => None,
        },
        AttrKey::Width => match spec_parse_u32(val) {
            Some(n) => Some(PartialRec { width: Some(n), ..p }),
            None => None,
        },
        AttrKey::Height => match spec_parse_u32(val) {
            Some(n) => Some(PartialRec { height: Some(n), ..p }),
            None => None,
        },
        AttrKey::FrameX => match spec_parse_i32(val) {
            Some(n) => Some(PartialRec { frame_x: Some(n), ..p }),
            None => None,
        },
        AttrKey::FrameY => match spec_parse_i32(val) {
            Some(n) => Some(PartialRec { frame_y: Some(n), ..p }),
            None => None,
        },
        AttrKey::FrameWidth => match spec_parse_u32(val) {
            Some(n) => Some(PartialRec { frame_width: Some(n), ..p }),
            None => None,
        },
        AttrKey::FrameHeight => match spec_parse_u32(val) {
            Some(n) => Some(PartialRec { frame_height: Some(n), ..p }),
            None => None,
        },
        AttrKey::Other => Some(p),
    }
}

/// Executable form of `spec_apply_attr`.
fn apply_attr(p: PartialSub, key: &Vec<u8>, val: Vec<u8>) -> (r: Result<PartialSub, ParseError>)
    ensures
        match r {
            Ok(p2) => spec_apply_attr(p@, key@, val@) == Some(p2@),
            Err(e) => spec_apply_attr(p@, key@, val@) is None,
        },
{
    let mut p = p;
    match classify(key) {
        AttrKey::Name => {
            p.name = Some(val);
            Ok(p)
        },
        AttrKey::X => match parse_u32(&val) {
            Some(n) => {
                p.x = Some(n);
                Ok(p)
            },
            None => Err(ParseError),
        },
        AttrKey::Y => match parse_u32(&val) {
            Some(n) => {
                p.y = Some(n);
                Ok(p)
            },
            None => Err(ParseError),
        },
        AttrKey::Width => match parse_u32(&val) {
            Some(n) => {
                p.width = Some(n);
                Ok(p)
            },
            None => Err(ParseError),
        },
        AttrKey::Height => match parse_u32(&val) {
            Some(n) => {
                p.height = Some(n);
                Ok(p)
            },
            None => Err(ParseError),
        },
        AttrKey::FrameX => match parse_i32(&val) {
            Some(n) => {
                p.frame_x = Some(n);
                Ok(p)
            },
            None => Err(ParseError),
        },
        AttrKey::FrameY => match parse_i32(&val) {
            Some(n) => {
                p.frame_y = Some(n);
                Ok(p)
            },
            None => Err(ParseError),
        },
        AttrKey::FrameWidth => match parse_u32(&val) {
            Some(n) => {
                p.frame_width = Some(n);
                Ok(p)
            },
            None => Err(ParseError),
        },
        AttrKey::FrameHeight => match parse_u32(&val) {
            Some(n) => {
                p.frame_height = Some(n);
                Ok(p)
            },
            None => Err(ParseError),
        },
        AttrKey::Other => Ok(p),
    }
}

/// Closes a record: the five required fields must be present; the frame
/// offset and size default to 0.
pub open spec fn spec_finish(p: PartialRec) -> Option<SubTexRec> {
    match (p.name, p.x, p.y, p.width, p.height) {
        (Some(n), Some(x), Some(y), Some(w), Some(h)) => Some(
            SubTexRec {
                name: n,
                x: x,
                y: y,
                width: w,
                height: h,
                frame_x: match p.frame_x {
                    Some(v) => v,
                    None => 0,
                },
                frame_y: match p.frame_y {
                    Some(v) => v,
                    None => 0,
                },
                frame_width: match p.frame_width {
                    Some(v) => v,
                    None => 0,
                },
                frame_height: match p.frame_height {
                    Some(v) => v,
                    None => 0,
                },
            },
        ),
        _ => None,
    }
}

/// Executable form of `spec_finish`.
fn finish(p: PartialSub) -> (r: Result<SubTexture, ParseError>)
    ensures
        match r {
            Ok(t) => spec_finish(p@) == Some(t@),
            Err(e) => spec_finish(p@) is None,
        },
{
    let frame_x: i32 = match p.frame_x {
        Some(v) => v,
        None => 0,
    };
    let frame_y: i32 = match p.frame_y {
        Some(v) => v,
        None => 0,
    };
    let frame_width: u32 = match p.frame_width {
        Some(v) => v,
        None => 0,
    };
    let frame_height: u32 = match p.frame_height {
        Some(v) => v,
        None => 0,
    };
    match (p.name, p.x, p.y, p.width, p.height) {
        (Some(n), Some(x), Some(y), Some(w), Some(h)) => Ok(
            SubTexture {
                name: n,
                x: x,
                y: y,
                width: w,
                height: h,
                frame_x,
                frame_y,
                frame_width,
                frame_height,
            },
        ),
        _ => Err(ParseError),
    }
}

/// Executable form of `spec_skip_ws`.
fn skip_ws(s: &Vec<u8>, i: usize) -> (r: usize)
    requires
        i <= s@.len(),
    ensures
        r as int == spec_skip_ws(s@, i as int),
        i <= r <= s@.len(),
    decreases s@.len() - i,
{
    if i < s.len() {
        let b = s[i];
        if b == 32 || b == 9 || b == 10 || b == 13 {
            return skip_ws(s, i + 1);
        }
    }
    i
}

/// Executable form of `spec_key_end`.
fn key_end(s: &Vec<u8>, i: usize) -> (r: usize)
    requires
        i <= s@.len(),
    ensures
        r as int == spec_key_end(s@, i as int),
        i <= r <= s@.len(),
    decreases s@.len() - i,
{
    if i < s.len() {
        let b = s[i];
        if !(b == 32 || b == 9 || b == 10 || b == 13 || b == 61 || b == 34 || b == 47 || b == 62
            || b == 60) {
            return key_end(s, i + 1);
        }
    }
    i
}

/// Executable form of `spec_find_quote`.
fn find_quote(s: &Vec<u8>, i: usize) -> (r: Option<usize>)
    requires
        i <= s@.len(),
    ensures
        match r {
            Some(q) => Some(q as int) == spec_find_quote(s@, i as int) && i <= q < s@.len(),
            None => spec_find_quote(s@, i as int) is None,
        },
    decreases s@.len() - i,
{
    if i < s.len() {
        if s[i] == 34 {
            return Some(i);
        }
        return find_quote(s, i + 1);
    }
    None
}

/// A `<SubTexture` tag opens at position `j`: the eleven tag bytes,
/// followed by the end of the input or a non-name byte (so that a longer
/// tag name does not match).
pub open spec fn spec_tag_at(s: Seq<u8>, j: int) -> bool {
    &&& 0 <= j
    &&& j + 11 <= s.len()
    &&& s[j] == 60
    &&& s[j + 1] == 83
    &&& s[j + 2] == 117
    &&& s[j + 3] == 98
    &&& s[j + 4] == 84
    &&& s[j + 5] == 101
    &&& s[j + 6] == 120
    &&& s[j + 7] == 116
    &&& s[j + 8] == 117
    &&& s[j + 9] == 114
    &&& s[j + 10] == 101
    &&& (j + 11 == s.len() || !is_key_byte(s[j + 11]))
}

/// Executable form of `spec_tag_at`.
fn tag_at(s: &Vec<u8>, j: usize) -> (r: bool)
    requires
        j <= s@.len(),
    ensures
        r == spec_tag_at(s@, j as int),
{
    if s.len() - j < 11 {
        return false;
    }
    if !(s[j] == 60 && s[j + 1] == 83 && s[j + 2] == 117 && s[j + 3] == 98 && s[j + 4] == 84 && s[j
        + 5] == 101 && s[j + 6] == 120 && s[j + 7] == 116 && s[j + 8] == 117 && s[j + 9] == 114
        && s[j + 10] == 101) {
        return false;
    }
    if j + 11 == s.len() {
        return true;
    }
    let b = s[j + 11];
    b == 32 || b == 9 || b == 10 || b == 13 || b == 61 || b == 34 || b == 47 || b == 62 || b == 60
}

/// The position of the first `<SubTexture` tag at or after `i`, if any.
pub open spec fn spec_find_tag(s: Seq<u8>, i: int) -> Option<int>
    decreases s.len() - i,
{
    if 0 <= i <= s.len() {
        if spec_tag_at(s, i) {
            Some(i)
        } else if i < s.len() {
            spec_find_tag(s, i + 1)
        } else {
            None
        }
    } else {
        None
    }
}

/// Executable form of `spec_find_tag`.
fn find_tag(s: &Vec<u8>, i: usize) -> (r: Option<usize>)
    requires
        i <= s@.len(),
    ensures
        match r {
            Some(j) => Some(j as int) == spec_find_tag(s@, i as int) && i <= j && j + 11 <= s@.len(),
            None => spec_find_tag(s@, i as int) is None,
        },
    decreases s@.len() - i,
{
    if tag_at(s, i) {
        return Some(i);
    }
    if i < s.len() {
        return find_tag(s, i + 1);
    }
    None
}

/// Reads a record's attribute list starting at `i` (just past the tag
/// name) into `p`, up to and including the closing `/>`; yields the closed
/// record and the position just past the `/>`. `None` is a malformed list:
/// a bad token, an unterminated value, the end of the input before `/>`, a
/// numeric attribute that does not parse, or a missing required field.
pub open spec fn spec_attrs(s: Seq<u8>, i: int, p: PartialRec) -> Option<(SubTexRec, int)>
    decreases s.len() - i,
{
    if !(0 <= i <= s.len()) {
        None
    } else {
        let j = spec_skip_ws(s, i);
        if j < s.len() && s[j] == 47 {
            if j + 1 < s.len() && s[j + 1] == 62 {
                match spec_finish(p) {
                    Some(r) => Some((r, j + 2)),
                    None => None,
                }
            } else {
                None
            }
        } else if j < s.len() && is_key_byte(s[j]) {
            let ke = spec_key_end(s, j);
            let key = s.subrange(j, ke);
            let j2 = spec_skip_ws(s, ke);
            if j2 < s.len() && s[j2] == 61 {
                let j3 = spec_skip_ws(s, j2 + 1);
                if j3 < s.len() && s[j3] == 34 {
                    match spec_find_quote(s, j3 + 1) {
                        Some(q) => {
                            let val = s.subrange(j3 + 1, q);
                            match spec_apply_attr(p, key, val) {
                                Some(p2) => if i < q + 1 && q + 1 <= s.len() {
                                    spec_attrs(s, q + 1, p2)
                                } else {
                                    None
                                },
                                None => None,
                            }
                        },
                        None => None,
                    }
                } else {
                    None
                }
            } else {
                None
            }
        } else {
            None
        }
    }
}

/// Executable form of `spec_attrs`.
fn parse_attrs(s: &Vec<u8>, i: usize, p: PartialSub) -> (r: Result<(SubTexture, usize), ParseError>)
    requires
        i <= s@.len(),
    ensures
        match r {
            Ok(te) => spec_attrs(s@, i as int, p@) == Some((te.0@, te.1 as int)) && i < te.1
                && te.1 <= s@.len(),
            Err(e) => spec_attrs(s@, i as int, p@) is None,
        },
    decreases s@.len() - i,
{
    let j = skip_ws(s, i);
    if j < s.len() && s[j] == 47 {
        if j + 1 < s.len() && s[j + 1] == 62 {
            match finish(p) {
                Ok(t) => Ok((t, j + 2)),
                Err(e) => Err(e),
            }
        } else {
            Err(ParseError)
        }
    } else if j < s.len() {
        let b = s[j];
        if !(b == 32 || b == 9 || b == 10 || b == 13 || b == 61 || b == 34 || b == 47 || b == 62
            || b == 60) {
            let ke = key_end(s, j);
            proof {
                lemma_key_end_bounds(s@, j as int + 1);
            }
            let key = sub_vec(s, j, ke);
            let j2 = skip_ws(s, ke);
            if j2 < s.len() && s[j2] == 61 {
                let j3 = skip_ws(s, j2 + 1);
                if j3 < s.len() && s[j3] == 34 {
                    match find_quote(s, j3 + 1) {
                        Some(q) => {
                            let val = sub_vec(s, j3 + 1, q);
                            match apply_attr(p, &key, val) {
                                Ok(p2) => parse_attrs(s, q + 1, p2),
                                Err(e) => Err(e),
                            }
                        },
                        None => Err(ParseError),
                    }
                } else {
                    Err(ParseError)
                }
            } else {
                Err(ParseError)
            }
        } else {
            Err(ParseError)
        }
    } else {
        Err(ParseError)
    }
}

/// The records of the manifest text from position `i` on: each opening
/// `<SubTexture` tag must be followed by a well-formed attribute list, and
/// the records appear in document order. `None` is a parse failure.
pub open spec fn spec_records(s: Seq<u8>, i: int) -> Option<Seq<SubTexRec>>
    decreases s.len() - i,
{
    if !(0 <= i <= s.len()) {
        None
    } else {
        match spec_find_tag(s, i) {
            None => Some(Seq::empty()),
            Some(j) => match spec_attrs(s, j + 11, spec_empty_partial()) {
                None => None,
                Some(re) => if i < re.1 && re.1 <= s.len() {
                    match spec_records(s, re.1) {
                        None => None,
                        Some(rest) => Some(seq![re.0] + rest),
                    }
                } else {
                    None
                },
            },
        }
    }
}

/// The start of the text proper: 3 when the input opens with the UTF-8
/// byte-order mark, else 0.
pub open spec fn spec_strip_bom(s: Seq<u8>) -> int {
    if s.len() >= 3 && s[0] == 239 && s[1] == 187 && s[2] == 191 {
        3
    } else {
        0
    }
}

/// What a manifest text denotes: its record sequence, after stripping an
/// optional byte-order mark, or a parse failure.
pub open spec fn spec_parse_manifest(s: Seq<u8>) -> Option<Seq<SubTexRec>> {
    spec_records(s, spec_strip_bom(s))
}

/// Parses every record from position `i` on, appending to `recs`.
fn parse_records_into(s: &Vec<u8>, i: usize, recs: &mut Vec<SubTexture>) -> (r: Result<
    (),
    ParseError,
>)
    requires
        i <= s@.len(),
    ensures
        match r {
            Ok(u) => spec_records(s@, i as int) matches Some(t) && final(recs)@.map_values(
                |st: SubTexture| st@,
            ) == old(recs)@.map_values(|st: SubTexture| st@) + t,
            Err(e) => spec_records(s@, i as int) is None,
        },
    decreases s@.len() - i,
{
    let n: usize = s.len();
    match find_tag(s, i) {
        None => {
            proof {
                assert(old(recs)@.map_values(|st: SubTexture| st@) + Seq::<SubTexRec>::empty()
                    =~= old(recs)@.map_values(|st: SubTexture| st@));
            }
            Ok(())
        },
        Some(j) => {
            let p0 = PartialSub {
                name: None,
                x: None,
                y: None,
                width: None,
                height: None,
                frame_x: None,
                frame_y: None,
                frame_width: None,
                frame_height: None,
            };
            match parse_attrs(s, j + 11, p0) {
                Ok(te) => {
                    let (t, e) = te;
                    let ghost mid = recs@.push(t);
                    recs.push(t);
                    let res = parse_records_into(s, e, recs);
                    match res {
                        Ok(u) => {
                            proof {
                                let f = |st: SubTexture| st@;
                                let rest = spec_records(s@, e as int).unwrap();
                                assert(mid.map_values(f) =~= old(recs)@.map_values(f).push(t@));
                                assert(old(recs)@.map_values(f).push(t@) + rest =~= old(
                                    recs,
                                )@.map_values(f) + (seq![t@] + rest));
                            }
                            Ok(())
                        },
                        Err(e2) => Err(e2),
                    }
                },
                Err(e2) => Err(e2),
            }
        },
    }
}

impl XML {
    /// Parses manifest text. Returns the manifest exactly when the text,
    /// after stripping an optional byte-order mark, matches the record
    /// grammar (`spec_parse_manifest`); every malformed text is a
    /// `ParseError`.
    pub fn parse(bytes: &Vec<u8>) -> (r: Result<XML, ParseError>)
        ensures
            match r {
                Ok(x) => spec_parse_manifest(bytes@) == Some(x@),
                Err(e) => spec_parse_manifest(bytes@) is None,
            },
    {
        let start: usize = if bytes.len() >= 3 && bytes[0] == 239 && bytes[1] == 187 && bytes[2]
            == 191 {
            3
        } else {
            0
        };
        let mut recs: Vec<SubTexture> = Vec::new();
        match parse_records_into(bytes, start, &mut recs) {
            Ok(u) => {
                proof {
                    let f = |st: SubTexture| st@;
                    let t = spec_records(bytes@, start as int).unwrap();
                    assert(Seq::<SubTexture>::empty().map_values(f) + t =~= t);
                }
                Ok(XML { subtexture: recs })
            },
            Err(e) => Err(e),
        }
    }
}

} // verus!
