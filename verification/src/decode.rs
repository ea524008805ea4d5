//! Wire-payload decoding. A notification payload is a single flat object in
//! a JSON-like text form: `{ "key": value, ... }` where every value is a
//! decimal number (optionally negative, optionally with a fraction) or
//! `null`. Fractional values are decoded to fixed-point thousandths; the
//! first three fraction digits are kept and further digits are truncated.
//! Unknown keys are tolerated and ignored; anything else is a decode error.
//!
//! Decode errors are non-fatal to a session: the subscription loop logs them
//! and continues.

use vstd::prelude::*;

use crate::climate_data::{ClimateData, Timestamp};

verus! {

// The byte values the grammar treats specially.
pub const B_SPACE: u8 = 32;

pub const B_TAB: u8 = 9;

pub const B_LF: u8 = 10;

pub const B_CR: u8 = 13;

pub const B_QUOTE: u8 = 34;

pub const B_BACKSLASH: u8 = 92;

pub const B_LBRACE: u8 = 123;

pub const B_RBRACE: u8 = 125;

pub const B_COLON: u8 = 58;

pub const B_COMMA: u8 = 44;

pub const B_MINUS: u8 = 45;

pub const B_DOT: u8 = 46;

pub const B_ZERO: u8 = 48;

pub const B_NINE: u8 = 57;

/// Largest integer part a number may carry; keeps every fixed-point value,
/// after scaling by 1000 and adding three fraction digits, inside `i64`.
pub const MAX_INTEGER_PART: u64 = 9_000_000_000_000_000;

/// JSON-style insignificant whitespace.
pub open spec fn is_ws(b: u8) -> bool {
    b == B_SPACE || b == B_TAB || b == B_LF || b == B_CR
}

/// An ASCII decimal digit.
pub open spec fn is_digit(b: u8) -> bool {
    B_ZERO <= b <= B_NINE
}

/// First index at or after `i` holding a non-whitespace byte (or the end).
pub open spec fn spec_skip_ws(s: Seq<u8>, i: int) -> int
    decreases s.len() - i,
{
    if 0 <= i < s.len() && is_ws(s[i]) {
        spec_skip_ws(s, i + 1)
    } else {
        i
    }
}

/// First index at or after `i` holding a non-digit byte (or the end).
pub open spec fn spec_skip_digits(s: Seq<u8>, i: int) -> int
    decreases s.len() - i,
{
    if 0 <= i < s.len() && is_digit(s[i]) {
        spec_skip_digits(s, i + 1)
    } else {
        i
    }
}

/// Accumulates the digit run starting at `i` onto `acc`; fails once the
/// accumulated integer part would pass `MAX_INTEGER_PART`.
pub open spec fn spec_parse_digits(s: Seq<u8>, i: int, acc: int) -> Option<(int, int)>
    decreases s.len() - i,
{
    if 0 <= i < s.len() && is_digit(s[i]) {
        let next = acc * 10 + (s[i] - B_ZERO);
        if next > MAX_INTEGER_PART {
            None
        } else {
            spec_parse_digits(s, i + 1, next)
        }
    } else {
        Some((acc, i))
    }
}

/// The value, in thousandths, of the first three fraction digits of the
/// digit run `b..e`; digits past the third are truncated away.
pub open spec fn spec_frac_milli(s: Seq<u8>, b: int, e: int) -> int {
    (s[b] - B_ZERO) * 100 + (if b + 1 < e {
        (s[b + 1] - B_ZERO) * 10
    } else {
        0
    }) + (if b + 2 < e {
        (s[b + 2] - B_ZERO) as int
    } else {
        0
    })
}

/// A parsed number in sign-magnitude fixed-point form: the value is
/// `int_mag + frac/1000`, negated when `neg` holds.
#[derive(Debug, Clone, Copy, PartialEq, Eq, Structural)]
pub struct RawNum {
    pub neg: bool,
    pub int_mag: u64,
    pub frac: u16,
}

impl RawNum {
    /// What the parser guarantees of every number it yields.
    pub open spec fn wf(&self) -> bool {
        self.int_mag <= MAX_INTEGER_PART && self.frac <= 999
    }
}

/// The number's value in thousandths.
pub open spec fn raw_milli(n: RawNum) -> int {
    if n.neg {
        -(n.int_mag * 1000 + n.frac)
    } else {
        n.int_mag * 1000 + n.frac
    }
}

/// Parses a number at `i`: optional minus, at least one integer digit, and
/// an optional fraction of at least one digit (only the first three count).
pub open spec fn spec_parse_number(s: Seq<u8>, i: int) -> Option<(RawNum, int)> {
    let neg = 0 <= i < s.len() && s[i] == B_MINUS;
    let i0 = if neg {
        i + 1
    } else {
        i
    };
    if !(0 <= i0 < s.len() && is_digit(s[i0])) {
        None
    } else {
        match spec_parse_digits(s, i0, 0) {
            None => None,
            Some((ip, i1)) => {
                if i1 < s.len() && s[i1] == B_DOT {
                    if i1 + 1 < s.len() && is_digit(s[i1 + 1]) {
                        let i2 = spec_skip_digits(s, i1 + 1);
                        Some(
                            (
                                RawNum {
                                    neg,
                                    int_mag: ip as u64,
                                    frac: spec_frac_milli(s, i1 + 1, i2) as u16,
                                },
                                i2,
                            ),
                        )
                    } else {
                        None
                    }
                } else {
                    Some((RawNum { neg, int_mag: ip as u64, frac: 0 }, i1))
                }
            },
        }
    }
}

/// Index of the byte that ends a string body started at `j`: the first
/// quote, backslash, or control byte (escapes are not part of the grammar).
pub open spec fn spec_string_end(s: Seq<u8>, j: int) -> int
    decreases s.len() - j,
{
    if 0 <= j < s.len() && s[j] != B_QUOTE && s[j] != B_BACKSLASH && s[j] >= B_SPACE {
        spec_string_end(s, j + 1)
    } else {
        j
    }
}

/// Parses a quoted string at `i`; returns the index of the closing quote
/// (the content is `i+1 .. end`) and the index just past it.
pub open spec fn spec_parse_string(s: Seq<u8>, i: int) -> Option<(int, int)> {
    if !(0 <= i < s.len() && s[i] == B_QUOTE) {
        None
    } else {
        let e = spec_string_end(s, i + 1);
        if e < s.len() && s[e] == B_QUOTE {
            Some((e, e + 1))
        } else {
            None
        }
    }
}

/// Every byte strictly before the index where a digit run ends is a digit.
proof fn lemma_skip_digits_all(s: Seq<u8>, i: int)
    requires
        0 <= i,
    ensures
        forall|k: int| i <= k < spec_skip_digits(s, i) ==> is_digit(#[trigger] s[k]),
        spec_skip_digits(s, i) <= s.len() || spec_skip_digits(s, i) == i,
    decreases s.len() - i,
{
    if 0 <= i < s.len() && is_digit(s[i]) {
        lemma_skip_digits_all(s, i + 1);
    }
}

/// Skips whitespace from `i` on.
fn skip_ws(v: &[u8], i: usize) -> (r: usize)
    requires
        i <= v.len(),
    ensures
        r == spec_skip_ws(v@, i as int),
        i <= r <= v.len(),
{
    let mut j = i;
    while j < v.len() && (v[j] == B_SPACE || v[j] == B_TAB || v[j] == B_LF || v[j] == B_CR)
        invariant
            i <= j <= v.len(),
            spec_skip_ws(v@, i as int) == spec_skip_ws(v@, j as int),
        decreases v.len() - j,
    {
        j = j + 1;
    }
    j
}

/// Skips a digit run from `i` on.
fn skip_digits(v: &[u8], i: usize) -> (r: usize)
    requires
        i <= v.len(),
    ensures
        r == spec_skip_digits(v@, i as int),
        i <= r <= v.len(),
{
    let mut j = i;
    while j < v.len() && B_ZERO <= v[j] && v[j] <= B_NINE
        invariant
            i <= j <= v.len(),
            spec_skip_digits(v@, i as int) == spec_skip_digits(v@, j as int),
        decreases v.len() - j,
    {
        j = j + 1;
    }
    j
}

/// Accumulates a digit run, rejecting integer parts past `MAX_INTEGER_PART`.
fn parse_digits(v: &[u8], i: usize, acc: u64) -> (r: Option<(u64, usize)>)
    requires
        i <= v.len(),
        acc <= MAX_INTEGER_PART,
    ensures
        match r {
            Some((val, j)) => {
                &&& spec_parse_digits(v@, i as int, acc as int) == Some((val as int, j as int))
                &&& val <= MAX_INTEGER_PART
                &&& i <= j <= v.len()
            },
            None => spec_parse_digits(v@, i as int, acc as int) is None,
        },
{
    let mut j = i;
    let mut a = acc;
    loop
        invariant
            i <= j <= v.len(),
            a <= MAX_INTEGER_PART,
            spec_parse_digits(v@, i as int, acc as int) == spec_parse_digits(v@, j as int, a as int),
        decreases v.len() - j,
    {
        if j < v.len() && B_ZERO <= v[j] && v[j] <= B_NINE {
            let next = a * 10 + ((v[j] - B_ZERO) as u64);
            if next > MAX_INTEGER_PART {
                return None;
            }
            a = next;
            j = j + 1;
        } else {
            return Some((a, j));
        }
    }
}

/// Finds the end of a string body.
fn string_end(v: &[u8], j: usize) -> (r: usize)
    requires
        j <= v.len(),
    ensures
        r == spec_string_end(v@, j as int),
        j <= r <= v.len(),
{
    let mut k = j;
    while k < v.len() && v[k] != B_QUOTE && v[k] != B_BACKSLASH && v[k] >= B_SPACE
        invariant
            j <= k <= v.len(),
            spec_string_end(v@, j as int) == spec_string_end(v@, k as int),
        decreases v.len() - k,
    {
        k = k + 1;
    }
    k
}

/// Parses a quoted, escape-free string.
fn parse_string(v: &[u8], i: usize) -> (r: Option<(usize, usize)>)
    requires
        i <= v.len(),
    ensures
        match r {
            Some((e, j)) => {
                &&& spec_parse_string(v@, i as int) == Some((e as int, j as int))
                &&& i < e < j <= v.len()
            },
            None => spec_parse_string(v@, i as int) is None,
        },
{
    if !(i < v.len() && v[i] == B_QUOTE) {
        return None;
    }
    let e = string_end(v, i + 1);
    if e < v.len() && v[e] == B_QUOTE {
        Some((e, e + 1))
    } else {
        None
    }
}

/// Parses a fixed-point number.
fn parse_number(v: &[u8], i: usize) -> (r: Option<(RawNum, usize)>)
    requires
        i <= v.len(),
    ensures
        match r {
            Some((n, j)) => {
                &&& spec_parse_number(v@, i as int) == Some((n, j as int))
                &&& n.wf()
                &&& i <= j <= v.len()
            },
            None => spec_parse_number(v@, i as int) is None,
        },
{
    let neg = i < v.len() && v[i] == B_MINUS;
    let i0 = if neg {
        i + 1
    } else {
        i
    };
    if !(i0 < v.len() && B_ZERO <= v[i0] && v[i0] <= B_NINE) {
        return None;
    }
    match parse_digits(v, i0, 0) {
        None => None,
        Some((ip, i1)) => {
            if i1 < v.len() && v[i1] == B_DOT {
                if i1 + 1 < v.len() && B_ZERO <= v[i1 + 1] && v[i1 + 1] <= B_NINE {
                    let i2 = skip_digits(v, i1 + 1);
                    proof {
                        lemma_skip_digits_all(v@, i1 + 1);
                    }
                    let frac_digits = i2 - (i1 + 1);
                    let mut frac: u16 = ((v[i1 + 1] - B_ZERO) as u16) * 100;
                    if frac_digits >= 2 {
                        frac = frac + ((v[i1 + 2] - B_ZERO) as u16) * 10;
                    }
                    if frac_digits >= 3 {
                        frac = frac + ((v[i1 + 3] - B_ZERO) as u16);
                    }
                    proof {
                        assert(frac == spec_frac_milli(v@, i1 + 1, i2 as int));
                    }
                    Some((RawNum { neg, int_mag: ip, frac }, i2))
                } else {
                    None
                }
            } else {
                Some((RawNum { neg, int_mag: ip, frac: 0 }, i1))
            }
        },
    }
}


/// The known payload fields; anything else is carried as `Unknown` and
/// ignored.
#[derive(Debug, Clone, Copy, PartialEq, Eq, Structural)]
pub enum FieldKey {
    Co2,
    Temperature,
    Eco2,
    Etvoc,
    Pressure,
    Humidity,
    Light,
    TimestampMs,
    Unknown,
}

/// Why a payload failed to decode.
#[derive(Debug, Clone, Copy, PartialEq, Eq, Structural)]
pub enum DecodeError {
    /// The payload is not a flat object of number-or-null fields.
    Syntax,
    /// A required field is absent.
    MissingField(FieldKey),
    /// A field value does not fit its schema type.
    OutOfRange(FieldKey),
}

/// The bytes of the key `"co2"`.
pub open spec fn key_co2() -> Seq<u8> {
    seq![99u8, 111u8, 50u8]
}

/// The bytes of the key `"temperature"`.
pub open spec fn key_temperature() -> Seq<u8> {
    seq![116u8, 101u8, 109u8, 112u8, 101u8, 114u8, 97u8, 116u8, 117u8, 114u8, 101u8]
}

/// The bytes of the key `"eco2"`.
pub open spec fn key_eco2() -> Seq<u8> {
    seq![101u8, 99u8, 111u8, 50u8]
}

/// The bytes of the key `"etvoc"`.
pub open spec fn key_etvoc() -> Seq<u8> {
    seq![101u8, 116u8, 118u8, 111u8, 99u8]
}

/// The bytes of the key `"pressure"`.
pub open spec fn key_pressure() -> Seq<u8> {
    seq![112u8, 114u8, 101u8, 115u8, 115u8, 117u8, 114u8, 101u8]
}

/// The bytes of the key `"humidity"`.
pub open spec fn key_humidity() -> Seq<u8> {
    seq![104u8, 117u8, 109u8, 105u8, 100u8, 105u8, 116u8, 121u8]
}

/// The bytes of the key `"light"`.
pub open spec fn key_light() -> Seq<u8> {
    seq![108u8, 105u8, 103u8, 104u8, 116u8]
}

/// The bytes of the key `"timestamp"`.
pub open spec fn key_timestamp() -> Seq<u8> {
    seq![116u8, 105u8, 109u8, 101u8, 115u8, 116u8, 97u8, 109u8, 112u8]
}

/// Which field a key names.
pub open spec fn spec_key_kind(k: Seq<u8>) -> FieldKey {
    if k == key_co2() {
        FieldKey::Co2
    } else if k == key_temperature() {
        FieldKey::Temperature
    } else if k == key_eco2() {
        FieldKey::Eco2
    } else if k == key_etvoc() {
        FieldKey::Etvoc
    } else if k == key_pressure() {
        FieldKey::Pressure
    } else if k == key_humidity() {
        FieldKey::Humidity
    } else if k == key_light() {
        FieldKey::Light
    } else if k == key_timestamp() {
        FieldKey::TimestampMs
    } else {
        FieldKey::Unknown
    }
}

/// Compares the byte range `start..end` of `v` with `pat`.
pub(crate) fn range_matches(v: &[u8], start: usize, end: usize, pat: &[u8]) -> (r: bool)
    requires
        start <= end <= v.len(),
    ensures
        r == (v@.subrange(start as int, end as int) == pat@),
{
    if end - start != pat.len() {
        proof {
            assert(v@.subrange(start as int, end as int).len() != pat@.len());
        }
        return false;
    }
    let n = pat.len();
    let mut i: usize = 0;
    while i < n
        invariant
            0 <= i <= n,
            n == pat@.len(),
            start + n == end <= v.len(),
            forall|j: int| 0 <= j < i ==> v@[start + j] == pat@[j],
        decreases n - i,
    {
        if v[start + i] != pat[i] {
            proof {
                assert(v@.subrange(start as int, end as int)[i as int] != pat@[i as int]);
            }
            return false;
        }
        i = i + 1;
    }
    proof {
        assert(v@.subrange(start as int, end as int) =~= pat@);
    }
    true
}

/// Classifies the key spelled in the byte range `start..end` of `v`.
fn key_kind(v: &[u8], start: usize, end: usize) -> (k: FieldKey)
    requires
        start <= end <= v.len(),
    ensures
        k == spec_key_kind(v@.subrange(start as int, end as int)),
{
    proof {
        assert(key_co2() =~= [99u8, 111u8, 50u8]@);
        assert(key_temperature() =~= [
            116u8,
            101u8,
            109u8,
            112u8,
            101u8,
            114u8,
            97u8,
            116u8,
            117u8,
            114u8,
            101u8,
        ]@);
        assert(key_eco2() =~= [101u8, 99u8, 111u8, 50u8]@);
        assert(key_etvoc() =~= [101u8, 116u8, 118u8, 111u8, 99u8]@);
        assert(key_pressure() =~= [112u8, 114u8, 101u8, 115u8, 115u8, 117u8, 114u8, 101u8]@);
        assert(key_humidity() =~= [104u8, 117u8, 109u8, 105u8, 100u8, 105u8, 116u8, 121u8]@);
        assert(key_light() =~= [108u8, 105u8, 103u8, 104u8, 116u8]@);
        assert(key_timestamp() =~= [116u8, 105u8, 109u8, 101u8, 115u8, 116u8, 97u8, 109u8, 112u8]@);
    }
    if range_matches(v, start, end, &[99u8, 111u8, 50u8]) {
        FieldKey::Co2
    } else if range_matches(
        v,
        start,
        end,
        &[116u8, 101u8, 109u8, 112u8, 101u8, 114u8, 97u8, 116u8, 117u8, 114u8, 101u8],
    ) {
        FieldKey::Temperature
    } else if range_matches(v, start, end, &[101u8, 99u8, 111u8, 50u8]) {
        FieldKey::Eco2
    } else if range_matches(v, start, end, &[101u8, 116u8, 118u8, 111u8, 99u8]) {
        FieldKey::Etvoc
    } else if range_matches(
        v,
        start,
        end,
        &[112u8, 114u8, 101u8, 115u8, 115u8, 117u8, 114u8, 101u8],
    ) {
        FieldKey::Pressure
    } else if range_matches(
        v,
        start,
        end,
        &[104u8, 117u8, 109u8, 105u8, 100u8, 105u8, 116u8, 121u8],
    ) {
        FieldKey::Humidity
    } else if range_matches(v, start, end, &[108u8, 105u8, 103u8, 104u8, 116u8]) {
        FieldKey::Light
    } else if range_matches(
        v,
        start,
        end,
        &[116u8, 105u8, 109u8, 101u8, 115u8, 116u8, 97u8, 109u8, 112u8],
    ) {
        FieldKey::TimestampMs
    } else {
        FieldKey::Unknown
    }
}


/// One parsed field value: a fixed-point number in thousandths, or `null`.
#[derive(Debug, Clone, Copy, PartialEq, Eq, Structural)]
pub enum JsonValue {
    Num(RawNum),
    Null,
}

/// The fields seen so far while walking a payload, each still in raw
/// thousandths form.
#[derive(Debug, Clone, Copy, PartialEq, Eq, Structural)]
pub struct RawRecord {
    pub co2: Option<RawNum>,
    pub temperature: Option<RawNum>,
    pub eco2: Option<RawNum>,
    pub etvoc: Option<RawNum>,
    pub pressure: Option<RawNum>,
    pub humidity: Option<RawNum>,
    pub light: Option<RawNum>,
    pub timestamp: Option<RawNum>,
}

/// Every field a record holds came from the parser.
pub open spec fn record_wf(rec: RawRecord) -> bool {
    &&& (rec.co2 is Some ==> rec.co2->0.wf())
    &&& (rec.temperature is Some ==> rec.temperature->0.wf())
    &&& (rec.eco2 is Some ==> rec.eco2->0.wf())
    &&& (rec.etvoc is Some ==> rec.etvoc->0.wf())
    &&& (rec.pressure is Some ==> rec.pressure->0.wf())
    &&& (rec.humidity is Some ==> rec.humidity->0.wf())
    &&& (rec.light is Some ==> rec.light->0.wf())
    &&& (rec.timestamp is Some ==> rec.timestamp->0.wf())
}

/// A record with no field seen yet.
pub open spec fn spec_empty_record() -> RawRecord {
    RawRecord {
        co2: None,
        temperature: None,
        eco2: None,
        etvoc: None,
        pressure: None,
        humidity: None,
        light: None,
        timestamp: None,
    }
}

/// Records one field. A later duplicate overwrites an earlier one. `null` is
/// accepted only where the schema allows absence (`co2`, `light`) and leaves
/// the field unset; on any other known field it fails. Unknown keys are
/// ignored.
pub open spec fn spec_apply_field(rec: RawRecord, key: FieldKey, val: JsonValue) -> Option<
    RawRecord,
> {
    match key {
        FieldKey::Unknown => Some(rec),
        FieldKey::Co2 => match val {
            JsonValue::Num(x) => Some(RawRecord { co2: Some(x), ..rec }),
            JsonValue::Null => Some(RawRecord { co2: None, ..rec }),
        },
        FieldKey::Light => match val {
            JsonValue::Num(x) => Some(RawRecord { light: Some(x), ..rec }),
            JsonValue::Null => Some(RawRecord { light: None, ..rec }),
        },
        FieldKey::Temperature => match val {
            JsonValue::Num(x) => Some(RawRecord { temperature: Some(x), ..rec }),
            JsonValue::Null => None,
        },
        FieldKey::Eco2 => match val {
            JsonValue::Num(x) => Some(RawRecord { eco2: Some(x), ..rec }),
            JsonValue::Null => None,
        },
        FieldKey::Etvoc => match val {
            JsonValue::Num(x) => Some(RawRecord { etvoc: Some(x), ..rec }),
            JsonValue::Null => None,
        },
        FieldKey::Pressure => match val {
            JsonValue::Num(x) => Some(RawRecord { pressure: Some(x), ..rec }),
            JsonValue::Null => None,
        },
        FieldKey::Humidity => match val {
            JsonValue::Num(x) => Some(RawRecord { humidity: Some(x), ..rec }),
            JsonValue::Null => None,
        },
        FieldKey::TimestampMs => match val {
            JsonValue::Num(x) => Some(RawRecord { timestamp: Some(x), ..rec }),
            JsonValue::Null => None,
        },
    }
}

/// Parses a value at `i`: a number or the literal `null`.
pub open spec fn spec_parse_value(s: Seq<u8>, i: int) -> Option<(JsonValue, int)> {
    if 0 <= i < s.len() && (s[i] == B_MINUS || is_digit(s[i])) {
        match spec_parse_number(s, i) {
            None => None,
            Some((x, j)) => Some((JsonValue::Num(x), j)),
        }
    } else if 0 <= i && i + 4 <= s.len() && s[i] == 110 && s[i + 1] == 117 && s[i + 2] == 108 && s[
        i + 3
    ] == 108 {
        Some((JsonValue::Null, i + 4))
    } else {
        None
    }
}

/// Parses the member list of a payload object starting at a key, folding
/// each field into `rec`. `fuel` bounds the recursion; one more unit than
/// the payload has bytes is always enough, since every member consumes at
/// least one byte.
pub open spec fn spec_parse_members(s: Seq<u8>, i: int, rec: RawRecord, fuel: nat) -> Option<
    (RawRecord, int),
>
    decreases fuel,
{
    if fuel == 0 {
        None
    } else {
        match spec_parse_string(s, i) {
            None => None,
            Some((kend, j)) => {
                let key = spec_key_kind(s.subrange(i + 1, kend));
                let j1 = spec_skip_ws(s, j);
                if !(j1 < s.len() && s[j1] == B_COLON) {
                    None
                } else {
                    let j2 = spec_skip_ws(s, j1 + 1);
                    match spec_parse_value(s, j2) {
                        None => None,
                        Some((val, j3)) => match spec_apply_field(rec, key, val) {
                            None => None,
                            Some(rec2) => {
                                let j4 = spec_skip_ws(s, j3);
                                if j4 < s.len() && s[j4] == B_COMMA {
                                    spec_parse_members(
                                        s,
                                        spec_skip_ws(s, j4 + 1),
                                        rec2,
                                        (fuel - 1) as nat,
                                    )
                                } else {
                                    Some((rec2, j4))
                                }
                            },
                        },
                    }
                }
            },
        }
    }
}

/// Parses a whole payload: one object, nothing but whitespace around it.
pub open spec fn spec_parse_payload(s: Seq<u8>) -> Option<RawRecord> {
    let i0 = spec_skip_ws(s, 0);
    if !(i0 < s.len() && s[i0] == B_LBRACE) {
        None
    } else {
        let i1 = spec_skip_ws(s, i0 + 1);
        if i1 < s.len() && s[i1] == B_RBRACE {
            if spec_skip_ws(s, i1 + 1) == s.len() {
                Some(spec_empty_record())
            } else {
                None
            }
        } else {
            match spec_parse_members(s, i1, spec_empty_record(), (s.len() + 1) as nat) {
                None => None,
                Some((rec, j)) => {
                    if j < s.len() && s[j] == B_RBRACE && spec_skip_ws(s, j + 1) == s.len() {
                        Some(rec)
                    } else {
                        None
                    }
                },
            }
        }
    }
}

/// An integer field value representable as `int16`: no fraction, magnitude
/// within bounds.
pub open spec fn int16_ok(n: RawNum) -> bool {
    n.frac == 0 && (if n.neg {
        n.int_mag <= 32768
    } else {
        n.int_mag <= 32767
    })
}

/// An integer field value representable as `int32`.
pub open spec fn int32_ok(n: RawNum) -> bool {
    n.frac == 0 && (if n.neg {
        n.int_mag <= 2147483648
    } else {
        n.int_mag <= 2147483647
    })
}

/// The integer a fraction-free number denotes.
pub open spec fn int_value(n: RawNum) -> i64 {
    if n.neg {
        (-(n.int_mag as int)) as i64
    } else {
        n.int_mag as i64
    }
}

/// The fixed-point value of a number, in thousandths.
pub open spec fn milli_value(n: RawNum) -> i64 {
    raw_milli(n) as i64
}

/// Validates a raw record against the schema and builds the reading:
/// `temperature`, `eco2`, `etvoc`, `pressure` and `humidity` are required;
/// `co2` must be an integer within `int32` range and `eco2`, `etvoc`
/// integers within `int16` range; a `timestamp` must be a non-negative
/// millisecond count (its fraction is truncated away), and when absent it
/// defaults to the decode-time wall clock `now`.
pub open spec fn spec_finish_record(rec: RawRecord, now: i64) -> Result<ClimateData, DecodeError> {
    if rec.temperature is None {
        Err(DecodeError::MissingField(FieldKey::Temperature))
    } else if rec.eco2 is None {
        Err(DecodeError::MissingField(FieldKey::Eco2))
    } else if rec.etvoc is None {
        Err(DecodeError::MissingField(FieldKey::Etvoc))
    } else if rec.pressure is None {
        Err(DecodeError::MissingField(FieldKey::Pressure))
    } else if rec.humidity is None {
        Err(DecodeError::MissingField(FieldKey::Humidity))
    } else if !int16_ok(rec.eco2->0) {
        Err(DecodeError::OutOfRange(FieldKey::Eco2))
    } else if !int16_ok(rec.etvoc->0) {
        Err(DecodeError::OutOfRange(FieldKey::Etvoc))
    } else if rec.co2 is Some && !int32_ok(rec.co2->0) {
        Err(DecodeError::OutOfRange(FieldKey::Co2))
    } else if rec.timestamp is Some && rec.timestamp->0.neg {
        Err(DecodeError::OutOfRange(FieldKey::TimestampMs))
    } else {
        Ok(
            ClimateData {
                co2: match rec.co2 {
                    Some(n) => Some(int_value(n)),
                    None => None,
                },
                temperature: milli_value(rec.temperature->0),
                eco2: int_value(rec.eco2->0),
                etvoc: int_value(rec.etvoc->0),
                pressure: milli_value(rec.pressure->0),
                humidity: milli_value(rec.humidity->0),
                light: match rec.light {
                    Some(n) => Some(milli_value(n)),
                    None => None,
                },
                timestamp: Timestamp(
                    match rec.timestamp {
                        Some(n) => n.int_mag as i64,
                        None => now,
                    },
                ),
            },
        )
    }
}

/// What decoding a payload yields: the reading, or the first error in
/// schema order.
pub open spec fn spec_decode_climate(s: Seq<u8>, now: i64) -> Result<ClimateData, DecodeError> {
    match spec_parse_payload(s) {
        None => Err(DecodeError::Syntax),
        Some(rec) => spec_finish_record(rec, now),
    }
}


/// Builds the record with no field seen yet.
fn empty_record() -> (r: RawRecord)
    ensures
        r == spec_empty_record(),
        record_wf(r),
{
    RawRecord {
        co2: None,
        temperature: None,
        eco2: None,
        etvoc: None,
        pressure: None,
        humidity: None,
        light: None,
        timestamp: None,
    }
}

/// Folds one parsed field into the record.
fn apply_field(rec: RawRecord, key: FieldKey, val: JsonValue) -> (r: Option<RawRecord>)
    ensures
        r == spec_apply_field(rec, key, val),
        (record_wf(rec) && (val matches JsonValue::Num(n) ==> n.wf()) && r is Some) ==> record_wf(
            r->0,
        ),
{
    match key {
        FieldKey::Unknown => Some(rec),
        FieldKey::Co2 => match val {
            JsonValue::Num(x) => Some(RawRecord { co2: Some(x), ..rec }),
            JsonValue::Null => Some(RawRecord { co2: None, ..rec }),
        },
        FieldKey::Light => match val {
            JsonValue::Num(x) => Some(RawRecord { light: Some(x), ..rec }),
            JsonValue::Null => Some(RawRecord { light: None, ..rec }),
        },
        FieldKey::Temperature => match val {
            JsonValue::Num(x) => Some(RawRecord { temperature: Some(x), ..rec }),
            JsonValue::Null => None,
        },
        FieldKey::Eco2 => match val {
            JsonValue::Num(x) => Some(RawRecord { eco2: Some(x), ..rec }),
            JsonValue::Null => None,
        },
        FieldKey::Etvoc => match val {
            JsonValue::Num(x) => Some(RawRecord { etvoc: Some(x), ..rec }),
            JsonValue::Null => None,
        },
        FieldKey::Pressure => match val {
            JsonValue::Num(x) => Some(RawRecord { pressure: Some(x), ..rec }),
            JsonValue::Null => None,
        },
        FieldKey::Humidity => match val {
            JsonValue::Num(x) => Some(RawRecord { humidity: Some(x), ..rec }),
            JsonValue::Null => None,
        },
        FieldKey::TimestampMs => match val {
            JsonValue::Num(x) => Some(RawRecord { timestamp: Some(x), ..rec }),
            JsonValue::Null => None,
        },
    }
}

/// Parses a value: a number or the literal `null`.
fn parse_value(v: &[u8], i: usize) -> (r: Option<(JsonValue, usize)>)
    requires
        i <= v.len(),
    ensures
        match r {
            Some((val, j)) => {
                &&& spec_parse_value(v@, i as int) == Some((val, j as int))
                &&& (val matches JsonValue::Num(n) ==> n.wf())
                &&& i <= j <= v.len()
            },
            None => spec_parse_value(v@, i as int) is None,
        },
{
    if i < v.len() && (v[i] == B_MINUS || (B_ZERO <= v[i] && v[i] <= B_NINE)) {
        match parse_number(v, i) {
            None => None,
            Some((n, j)) => Some((JsonValue::Num(n), j)),
        }
    } else if i < v.len() && v.len() - i >= 4 && v[i] == 110 && v[i + 1] == 117 && v[i + 2] == 108
        && v[i + 3] == 108 {
        Some((JsonValue::Null, i + 4))
    } else {
        None
    }
}

/// Parses the member list of a payload object, folding each field into
/// `rec`; `fuel` bounds the recursion depth.
fn parse_members(v: &[u8], i: usize, rec: RawRecord, fuel: usize) -> (r: Option<(RawRecord, usize)>)
    requires
        i <= v.len(),
    ensures
        match r {
            Some((rec2, j)) => {
                &&& spec_parse_members(v@, i as int, rec, fuel as nat) == Some((rec2, j as int))
                &&& (record_wf(rec) ==> record_wf(rec2))
                &&& j <= v.len()
            },
            None => spec_parse_members(v@, i as int, rec, fuel as nat) is None,
        },
    decreases fuel,
{
    if fuel == 0 {
        return None;
    }
    match parse_string(v, i) {
        None => None,
        Some((kend, j)) => {
            let key = key_kind(v, i + 1, kend);
            let j1 = skip_ws(v, j);
            if !(j1 < v.len() && v[j1] == B_COLON) {
                return None;
            }
            let j2 = skip_ws(v, j1 + 1);
            match parse_value(v, j2) {
                None => None,
                Some((val, j3)) => match apply_field(rec, key, val) {
                    None => None,
                    Some(rec2) => {
                        let j4 = skip_ws(v, j3);
                        if j4 < v.len() && v[j4] == B_COMMA {
                            let j5 = skip_ws(v, j4 + 1);
                            parse_members(v, j5, rec2, fuel - 1)
                        } else {
                            Some((rec2, j4))
                        }
                    },
                },
            }
        },
    }
}

/// Turns a fraction-free number into the integer it denotes.
fn int_value_of(n: RawNum) -> (r: i64)
    requires
        n.wf(),
    ensures
        r == int_value(n),
{
    if n.neg {
        -(n.int_mag as i64)
    } else {
        n.int_mag as i64
    }
}

/// Turns a number into its fixed-point value in thousandths.
fn milli_value_of(n: RawNum) -> (r: i64)
    requires
        n.wf(),
    ensures
        r == milli_value(n),
{
    let mag: u64 = n.int_mag * 1000 + (n.frac as u64);
    if n.neg {
        -(mag as i64)
    } else {
        mag as i64
    }
}

/// Validates a parsed record against the schema and builds the reading.
fn finish_record(rec: RawRecord, now: i64) -> (r: Result<ClimateData, DecodeError>)
    requires
        record_wf(rec),
    ensures
        r == spec_finish_record(rec, now),
{
    let temperature = match rec.temperature {
        Some(n) => n,
        None => {
            return Err(DecodeError::MissingField(FieldKey::Temperature));
        },
    };
    let eco2 = match rec.eco2 {
        Some(n) => n,
        None => {
            return Err(DecodeError::MissingField(FieldKey::Eco2));
        },
    };
    let etvoc = match rec.etvoc {
        Some(n) => n,
        None => {
            return Err(DecodeError::MissingField(FieldKey::Etvoc));
        },
    };
    let pressure = match rec.pressure {
        Some(n) => n,
        None => {
            return Err(DecodeError::MissingField(FieldKey::Pressure));
        },
    };
    let humidity = match rec.humidity {
        Some(n) => n,
        None => {
            return Err(DecodeError::MissingField(FieldKey::Humidity));
        },
    };
    if !(eco2.frac == 0 && (if eco2.neg {
        eco2.int_mag <= 32768
    } else {
        eco2.int_mag <= 32767
    })) {
        return Err(DecodeError::OutOfRange(FieldKey::Eco2));
    }
    if !(etvoc.frac == 0 && (if etvoc.neg {
        etvoc.int_mag <= 32768
    } else {
        etvoc.int_mag <= 32767
    })) {
        return Err(DecodeError::OutOfRange(FieldKey::Etvoc));
    }
    let co2 = match rec.co2 {
        Some(n) => {
            if !(n.frac == 0 && (if n.neg {
                n.int_mag <= 2147483648
            } else {
                n.int_mag <= 2147483647
            })) {
                return Err(DecodeError::OutOfRange(FieldKey::Co2));
            }
            Some(int_value_of(n))
        },
        None => None,
    };
    let timestamp_ms = match rec.timestamp {
        Some(n) => {
            if n.neg {
                return Err(DecodeError::OutOfRange(FieldKey::TimestampMs));
            }
            n.int_mag as i64
        },
        None => now,
    };
    Ok(
        ClimateData {
            co2,
            temperature: milli_value_of(temperature),
            eco2: int_value_of(eco2),
            etvoc: int_value_of(etvoc),
            pressure: milli_value_of(pressure),
            humidity: milli_value_of(humidity),
            light: match rec.light {
                Some(n) => Some(milli_value_of(n)),
                None => None,
            },
            timestamp: Timestamp(timestamp_ms),
        },
    )
}

/// Decodes one notification or read payload into a reading; `now` is the
/// decode-time wall clock used when the payload carries no timestamp.
pub fn decode_climate(bytes: &[u8], now: i64) -> (r: Result<ClimateData, DecodeError>)
    requires
        bytes@.len() < usize::MAX,
    ensures
        r == spec_decode_climate(bytes@, now),
{
    let i0 = skip_ws(bytes, 0);
    if !(i0 < bytes.len() && bytes[i0] == B_LBRACE) {
        return Err(DecodeError::Syntax);
    }
    let i1 = skip_ws(bytes, i0 + 1);
    if i1 < bytes.len() && bytes[i1] == B_RBRACE {
        if skip_ws(bytes, i1 + 1) == bytes.len() {
            return finish_record(empty_record(), now);
        } else {
            return Err(DecodeError::Syntax);
        }
    }
    match parse_members(bytes, i1, empty_record(), bytes.len() + 1) {
        None => Err(DecodeError::Syntax),
        Some((rec, j)) => {
            if j < bytes.len() && bytes[j] == B_RBRACE && skip_ws(bytes, j + 1) == bytes.len() {
                finish_record(rec, now)
            } else {
                Err(DecodeError::Syntax)
            }
        },
    }
}

/// Decoding of values received over the wireless link.
pub trait FromBleData: Sized {
    /// What decoding yields on the given bytes, with `now` as the
    /// decode-time wall clock.
    spec fn spec_from_bytes(data: Seq<u8>, now: i64) -> Result<Self, DecodeError>;

    /// Decodes a payload.
    fn from_bytes(data: &[u8], now: i64) -> (r: Result<Self, DecodeError>)
        requires
            data@.len() < usize::MAX,
        ensures
            r == Self::spec_from_bytes(data@, now),
    ;
}

impl FromBleData for ClimateData {
    open spec fn spec_from_bytes(data: Seq<u8>, now: i64) -> Result<Self, DecodeError> {
        spec_decode_climate(data, now)
    }

    fn from_bytes(data: &[u8], now: i64) -> (r: Result<Self, DecodeError>) {
        decode_climate(data, now)
    }
}

} // verus!
