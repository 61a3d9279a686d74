//! The type-tag dispatch table and the per-kind decode routines.
//!
//! `dispatch` reads the `type` field of a datagram's JSON tree and routes
//! it to exactly one decode routine. A missing, non-string or unknown tag
//! is an `UnknownType` error; a structural mismatch inside a known kind
//! (a required field missing or of the wrong shape) is a `Malformed`
//! error. Either way the datagram is discarded and the cache untouched.

use vstd::prelude::*;

use crate::data::EventType;
use crate::events::DeviceStatusEvent;
use crate::events::HubStatusEvent;
use crate::events::LightningStrikeEvent;
use crate::events::RainStartEvent;
use crate::events::RapidWindEvent;
use crate::json::JsonNum;
use crate::json::JsonValue;
use crate::json::spec_field;
use crate::obs::ObservationAirEvent;
use crate::obs::ObservationEvent;
use crate::obs::ObservationSkyEvent;
use crate::strutil::str_eq;

verus! {

/// Why a datagram was discarded: its type tag is missing or unknown, or
/// a known kind failed to decode structurally.
#[derive(Clone, Copy, Debug, PartialEq, Eq, Structural)]
pub enum DecodeError {
    UnknownType,
    Malformed,
}

/// The string under `key` of object `v`, if `v` has it as a string.
pub open spec fn spec_str_field(v: JsonValue, key: Seq<char>) -> Option<String> {
    match spec_field(v, key) {
        Some(JsonValue::Str(s)) => Some(s),
        _ => None,
    }
}

/// The number under `key` of object `v`, if `v` has it as a number.
pub open spec fn spec_num_field(v: JsonValue, key: Seq<char>) -> Option<JsonNum> {
    match spec_field(v, key) {
        Some(JsonValue::Num(n)) => Some(n),
        _ => None,
    }
}

/// Reads a string field.
fn str_field(v: &JsonValue, key: &str) -> (r: Option<String>)
    ensures
        r == spec_str_field(*v, key@),
{
    match v.get(key) {
        Some(JsonValue::Str(s)) => Some(s.clone()),
        _ => None,
    }
}

/// Reads a number field.
fn num_field(v: &JsonValue, key: &str) -> (r: Option<JsonNum>)
    ensures
        r == spec_num_field(*v, key@),
{
    match v.get(key) {
        Some(JsonValue::Num(n)) => Some(*n),
        _ => None,
    }
}

/// The exact unsigned 64-bit integer under `key`, if the field is one.
pub open spec fn spec_u64_field(v: JsonValue, key: Seq<char>) -> Option<u64> {
    match spec_num_field(v, key) {
        Some(n) => n.spec_as_u64(),
        None => None,
    }
}

/// Reads an exact unsigned 64-bit integer field.
fn u64_field(v: &JsonValue, key: &str) -> (r: Option<u64>)
    ensures
        r == spec_u64_field(*v, key@),
{
    match num_field(v, key) {
        Some(n) => n.as_u64(),
        None => None,
    }
}

/// The exact unsigned 32-bit integer under `key`, if the field is one.
pub open spec fn spec_u32_field(v: JsonValue, key: Seq<char>) -> Option<u32> {
    match spec_num_field(v, key) {
        Some(n) => n.spec_as_u32(),
        None => None,
    }
}

/// Reads an exact unsigned 32-bit integer field.
fn u32_field(v: &JsonValue, key: &str) -> (r: Option<u32>)
    ensures
        r == spec_u32_field(*v, key@),
{
    match num_field(v, key) {
        Some(n) => n.as_u32(),
        None => None,
    }
}

/// The exact unsigned 16-bit integer under `key`, if the field is one.
pub open spec fn spec_u16_field(v: JsonValue, key: Seq<char>) -> Option<u16> {
    match spec_num_field(v, key) {
        Some(n) => n.spec_as_u16(),
        None => None,
    }
}

/// Reads an exact unsigned 16-bit integer field.
fn u16_field(v: &JsonValue, key: &str) -> (r: Option<u16>)
    ensures
        r == spec_u16_field(*v, key@),
{
    match num_field(v, key) {
        Some(n) => n.as_u16(),
        None => None,
    }
}

/// The exact unsigned 8-bit integer under `key`, if the field is one.
pub open spec fn spec_u8_field(v: JsonValue, key: Seq<char>) -> Option<u8> {
    match spec_num_field(v, key) {
        Some(n) => n.spec_as_u8(),
        None => None,
    }
}

/// Reads an exact unsigned 8-bit integer field.
fn u8_field(v: &JsonValue, key: &str) -> (r: Option<u8>)
    ensures
        r == spec_u8_field(*v, key@),
{
    match num_field(v, key) {
        Some(n) => n.as_u8(),
        None => None,
    }
}

/// The exact signed 16-bit integer under `key`, if the field is one.
pub open spec fn spec_i16_field(v: JsonValue, key: Seq<char>) -> Option<i16> {
    match spec_num_field(v, key) {
        Some(n) => n.spec_as_i16(),
        None => None,
    }
}

/// Reads an exact signed 16-bit integer field.
fn i16_field(v: &JsonValue, key: &str) -> (r: Option<i16>)
    ensures
        r == spec_i16_field(*v, key@),
{
    match num_field(v, key) {
        Some(n) => n.as_i16(),
        None => None,
    }
}

/// The elements of `a` as numbers, if every element fits.
pub open spec fn spec_nums_of(a: Seq<JsonValue>) -> Option<Seq<JsonNum>>
    decreases a.len(),
{
    if a.len() == 0 {
        Some(Seq::empty())
    } else {
        match spec_nums_of(a.drop_last()) {
            Some(pre) => match a.last() {
                JsonValue::Num(n) => Some(pre.push(n)),
                _ => None,
            },
            None => None,
        }
    }
}

/// Once a prefix of `a` fails to read, the whole of `a` fails.
proof fn lemma_nums_none_tail(a: Seq<JsonValue>, i: int)
    requires
        0 <= i <= a.len(),
        spec_nums_of(a.take(i)) is None,
    ensures
        spec_nums_of(a) is None,
    decreases a.len() - i,
{
    if i == a.len() {
        assert(a.take(i) =~= a);
    } else {
        assert(a.take(i + 1).drop_last() =~= a.take(i));
        lemma_nums_none_tail(a, i + 1);
    }
}

/// Reads an array of numbers.
fn nums_of(a: &Vec<JsonValue>) -> (r: Option<Vec<JsonNum>>)
    ensures
        match r {
            Some(nums) => spec_nums_of(a@) == Some(nums@),
            None => spec_nums_of(a@) is None,
        },
{
    let mut nums: Vec<JsonNum> = Vec::new();
    let n = a.len();
    let mut i: usize = 0;
    proof {
        assert(a@.take(0int) =~= Seq::<JsonValue>::empty());
    }
    while i < n
        invariant
            n == a@.len(),
            0 <= i <= n,
            spec_nums_of(a@.take(i as int)) == Some(nums@),
        decreases n - i,
    {
        proof {
            assert(a@.take(i + 1).drop_last() =~= a@.take(i as int));
            assert(a@.take(i + 1).last() == a@[i as int]);
        }
        let u: Option<JsonNum> = match &a[i] {
            JsonValue::Num(num) => Some(*num),
            _ => None,
        };
        match u {
            Some(u) => {
                nums.push(u);
            },
            None => {
                proof {
                    lemma_nums_none_tail(a@, i + 1);
                }
                return None;
            },
        }
        i += 1;
    }
    proof {
        assert(a@.take(n as int) =~= a@);
    }
    Some(nums)
}

/// The elements of `a` as exact unsigned 64-bit integers, if every element fits.
pub open spec fn spec_u64s_of(a: Seq<JsonValue>) -> Option<Seq<u64>>
    decreases a.len(),
{
    if a.len() == 0 {
        Some(Seq::empty())
    } else {
        match spec_u64s_of(a.drop_last()) {
            Some(pre) => match a.last() {
                JsonValue::Num(n) => match n.spec_as_u64() {
                    Some(u) => Some(pre.push(u)),
                    None => None,
                },
                _ => None,
            },
            None => None,
        }
    }
}

/// Once a prefix of `a` fails to read, the whole of `a` fails.
proof fn lemma_u64s_none_tail(a: Seq<JsonValue>, i: int)
    requires
        0 <= i <= a.len(),
        spec_u64s_of(a.take(i)) is None,
    ensures
        spec_u64s_of(a) is None,
    decreases a.len() - i,
{
    if i == a.len() {
        assert(a.take(i) =~= a);
    } else {
        assert(a.take(i + 1).drop_last() =~= a.take(i));
        lemma_u64s_none_tail(a, i + 1);
    }
}

/// Reads an array of exact unsigned 64-bit integers.
fn u64s_of(a: &Vec<JsonValue>) -> (r: Option<Vec<u64>>)
    ensures
        match r {
            Some(nums) => spec_u64s_of(a@) == Some(nums@),
            None => spec_u64s_of(a@) is None,
        },
{
    let mut nums: Vec<u64> = Vec::new();
    let n = a.len();
    let mut i: usize = 0;
    proof {
        assert(a@.take(0int) =~= Seq::<JsonValue>::empty());
    }
    while i < n
        invariant
            n == a@.len(),
            0 <= i <= n,
            spec_u64s_of(a@.take(i as int)) == Some(nums@),
        decreases n - i,
    {
        proof {
            assert(a@.take(i + 1).drop_last() =~= a@.take(i as int));
            assert(a@.take(i + 1).last() == a@[i as int]);
        }
        let u: Option<u64> = match &a[i] {
            JsonValue::Num(num) => num.as_u64(),
            _ => None,
        };
        match u {
            Some(u) => {
                nums.push(u);
            },
            None => {
                proof {
                    lemma_u64s_none_tail(a@, i + 1);
                }
                return None;
            },
        }
        i += 1;
    }
    proof {
        assert(a@.take(n as int) =~= a@);
    }
    Some(nums)
}

/// The elements of `a` as exact unsigned 32-bit integers, if every element fits.
pub open spec fn spec_u32s_of(a: Seq<JsonValue>) -> Option<Seq<u32>>
    decreases a.len(),
{
    if a.len() == 0 {
        Some(Seq::empty())
    } else {
        match spec_u32s_of(a.drop_last()) {
            Some(pre) => match a.last() {
                JsonValue::Num(n) => match n.spec_as_u32() {
                    Some(u) => Some(pre.push(u)),
                    None => None,
                },
                _ => None,
            },
            None => None,
        }
    }
}

/// Once a prefix of `a` fails to read, the whole of `a` fails.
proof fn lemma_u32s_none_tail(a: Seq<JsonValue>, i: int)
    requires
        0 <= i <= a.len(),
        spec_u32s_of(a.take(i)) is None,
    ensures
        spec_u32s_of(a) is None,
    decreases a.len() - i,
{
    if i == a.len() {
        assert(a.take(i) =~= a);
    } else {
        assert(a.take(i + 1).drop_last() =~= a.take(i));
        lemma_u32s_none_tail(a, i + 1);
    }
}

/// Reads an array of exact unsigned 32-bit integers.
fn u32s_of(a: &Vec<JsonValue>) -> (r: Option<Vec<u32>>)
    ensures
        match r {
            Some(nums) => spec_u32s_of(a@) == Some(nums@),
            None => spec_u32s_of(a@) is None,
        },
{
    let mut nums: Vec<u32> = Vec::new();
    let n = a.len();
    let mut i: usize = 0;
    proof {
        assert(a@.take(0int) =~= Seq::<JsonValue>::empty());
    }
    while i < n
        invariant
            n == a@.len(),
            0 <= i <= n,
            spec_u32s_of(a@.take(i as int)) == Some(nums@),
        decreases n - i,
    {
        proof {
            assert(a@.take(i + 1).drop_last() =~= a@.take(i as int));
            assert(a@.take(i + 1).last() == a@[i as int]);
        }
        let u: Option<u32> = match &a[i] {
            JsonValue::Num(num) => num.as_u32(),
            _ => None,
        };
        match u {
            Some(u) => {
                nums.push(u);
            },
            None => {
                proof {
                    lemma_u32s_none_tail(a@, i + 1);
                }
                return None;
            },
        }
        i += 1;
    }
    proof {
        assert(a@.take(n as int) =~= a@);
    }
    Some(nums)
}

/// The elements of `a` as exact unsigned 16-bit integers, if every element fits.
pub open spec fn spec_u16s_of(a: Seq<JsonValue>) -> Option<Seq<u16>>
    decreases a.len(),
{
    if a.len() == 0 {
        Some(Seq::empty())
    } else {
        match spec_u16s_of(a.drop_last()) {
            Some(pre) => match a.last() {
                JsonValue::Num(n) => match n.spec_as_u16() {
                    Some(u) => Some(pre.push(u)),
                    None => None,
                },
                _ => None,
            },
            None => None,
        }
    }
}

/// Once a prefix of `a` fails to read, the whole of `a` fails.
proof fn lemma_u16s_none_tail(a: Seq<JsonValue>, i: int)
    requires
        0 <= i <= a.len(),
        spec_u16s_of(a.take(i)) is None,
    ensures
        spec_u16s_of(a) is None,
    decreases a.len() - i,
{
    if i == a.len() {
        assert(a.take(i) =~= a);
    } else {
        assert(a.take(i + 1).drop_last() =~= a.take(i));
        lemma_u16s_none_tail(a, i + 1);
    }
}

/// Reads an array of exact unsigned 16-bit integers.
fn u16s_of(a: &Vec<JsonValue>) -> (r: Option<Vec<u16>>)
    ensures
        match r {
            Some(nums) => spec_u16s_of(a@) == Some(nums@),
            None => spec_u16s_of(a@) is None,
        },
{
    let mut nums: Vec<u16> = Vec::new();
    let n = a.len();
    let mut i: usize = 0;
    proof {
        assert(a@.take(0int) =~= Seq::<JsonValue>::empty());
    }
    while i < n
        invariant
            n == a@.len(),
            0 <= i <= n,
            spec_u16s_of(a@.take(i as int)) == Some(nums@),
        decreases n - i,
    {
        proof {
            assert(a@.take(i + 1).drop_last() =~= a@.take(i as int));
            assert(a@.take(i + 1).last() == a@[i as int]);
        }
        let u: Option<u16> = match &a[i] {
            JsonValue::Num(num) => num.as_u16(),
            _ => None,
        };
        match u {
            Some(u) => {
                nums.push(u);
            },
            None => {
                proof {
                    lemma_u16s_none_tail(a@, i + 1);
                }
                return None;
            },
        }
        i += 1;
    }
    proof {
        assert(a@.take(n as int) =~= a@);
    }
    Some(nums)
}

/// The elements of `a` as exact unsigned 8-bit integers, if every element fits.
pub open spec fn spec_u8s_of(a: Seq<JsonValue>) -> Option<Seq<u8>>
    decreases a.len(),
{
    if a.len() == 0 {
        Some(Seq::empty())
    } else {
        match spec_u8s_of(a.drop_last()) {
            Some(pre) => match a.last() {
                JsonValue::Num(n) => match n.spec_as_u8() {
                    Some(u) => Some(pre.push(u)),
                    None => None,
                },
                _ => None,
            },
            None => None,
        }
    }
}

/// Once a prefix of `a` fails to read, the whole of `a` fails.
proof fn lemma_u8s_none_tail(a: Seq<JsonValue>, i: int)
    requires
        0 <= i <= a.len(),
        spec_u8s_of(a.take(i)) is None,
    ensures
        spec_u8s_of(a) is None,
    decreases a.len() - i,
{
    if i == a.len() {
        assert(a.take(i) =~= a);
    } else {
        assert(a.take(i + 1).drop_last() =~= a.take(i));
        lemma_u8s_none_tail(a, i + 1);
    }
}

/// Reads an array of exact unsigned 8-bit integers.
fn u8s_of(a: &Vec<JsonValue>) -> (r: Option<Vec<u8>>)
    ensures
        match r {
            Some(nums) => spec_u8s_of(a@) == Some(nums@),
            None => spec_u8s_of(a@) is None,
        },
{
    let mut nums: Vec<u8> = Vec::new();
    let n = a.len();
    let mut i: usize = 0;
    proof {
        assert(a@.take(0int) =~= Seq::<JsonValue>::empty());
    }
    while i < n
        invariant
            n == a@.len(),
            0 <= i <= n,
            spec_u8s_of(a@.take(i as int)) == Some(nums@),
        decreases n - i,
    {
        proof {
            assert(a@.take(i + 1).drop_last() =~= a@.take(i as int));
            assert(a@.take(i + 1).last() == a@[i as int]);
        }
        let u: Option<u8> = match &a[i] {
            JsonValue::Num(num) => num.as_u8(),
            _ => None,
        };
        match u {
            Some(u) => {
                nums.push(u);
            },
            None => {
                proof {
                    lemma_u8s_none_tail(a@, i + 1);
                }
                return None;
            },
        }
        i += 1;
    }
    proof {
        assert(a@.take(n as int) =~= a@);
    }
    Some(nums)
}

/// The elements of `a` as numbers and nulls (a null reads as absent), if every element fits.
pub open spec fn spec_opt_nums_of(a: Seq<JsonValue>) -> Option<Seq<Option<JsonNum>>>
    decreases a.len(),
{
    if a.len() == 0 {
        Some(Seq::empty())
    } else {
        match spec_opt_nums_of(a.drop_last()) {
            Some(pre) => match a.last() {
                JsonValue::Num(n) => Some(pre.push(Some(n))),
                JsonValue::Null => Some(pre.push(None)),
                _ => None,
            },
            None => None,
        }
    }
}

/// Once a prefix of `a` fails to read, the whole of `a` fails.
proof fn lemma_opt_nums_none_tail(a: Seq<JsonValue>, i: int)
    requires
        0 <= i <= a.len(),
        spec_opt_nums_of(a.take(i)) is None,
    ensures
        spec_opt_nums_of(a) is None,
    decreases a.len() - i,
{
    if i == a.len() {
        assert(a.take(i) =~= a);
    } else {
        assert(a.take(i + 1).drop_last() =~= a.take(i));
        lemma_opt_nums_none_tail(a, i + 1);
    }
}

/// Reads an array of numbers and nulls (a null reads as absent).
fn opt_nums_of(a: &Vec<JsonValue>) -> (r: Option<Vec<Option<JsonNum>>>)
    ensures
        match r {
            Some(nums) => spec_opt_nums_of(a@) == Some(nums@),
            None => spec_opt_nums_of(a@) is None,
        },
{
    let mut nums: Vec<Option<JsonNum>> = Vec::new();
    let n = a.len();
    let mut i: usize = 0;
    proof {
        assert(a@.take(0int) =~= Seq::<JsonValue>::empty());
    }
    while i < n
        invariant
            n == a@.len(),
            0 <= i <= n,
            spec_opt_nums_of(a@.take(i as int)) == Some(nums@),
        decreases n - i,
    {
        proof {
            assert(a@.take(i + 1).drop_last() =~= a@.take(i as int));
            assert(a@.take(i + 1).last() == a@[i as int]);
        }
        let u: Option<Option<JsonNum>> = match &a[i] {
            JsonValue::Num(num) => Some(Some(*num)),
            JsonValue::Null => Some(None),
            _ => None,
        };
        match u {
            Some(u) => {
                nums.push(u);
            },
            None => {
                proof {
                    lemma_opt_nums_none_tail(a@, i + 1);
                }
                return None;
            },
        }
        i += 1;
    }
    proof {
        assert(a@.take(n as int) =~= a@);
    }
    Some(nums)
}

/// The elements of `a` as rows of numbers, if every element is such a row.
pub open spec fn spec_num_rows_of(a: Seq<JsonValue>) -> Option<Seq<Seq<JsonNum>>>
    decreases a.len(),
{
    if a.len() == 0 {
        Some(Seq::empty())
    } else {
        match spec_num_rows_of(a.drop_last()) {
            Some(pre) => match a.last() {
                JsonValue::Arr(row) => match spec_nums_of(row@) {
                    Some(nums) => Some(pre.push(nums)),
                    None => None,
                },
                _ => None,
            },
            None => None,
        }
    }
}

/// Once a prefix of `a` fails to read, the whole of `a` fails.
proof fn lemma_num_rows_none_tail(a: Seq<JsonValue>, i: int)
    requires
        0 <= i <= a.len(),
        spec_num_rows_of(a.take(i)) is None,
    ensures
        spec_num_rows_of(a) is None,
    decreases a.len() - i,
{
    if i == a.len() {
        assert(a.take(i) =~= a);
    } else {
        assert(a.take(i + 1).drop_last() =~= a.take(i));
        lemma_num_rows_none_tail(a, i + 1);
    }
}

/// The rows in `table` hold the same values as `rows`.
pub open spec fn num_rows_match(table: Vec<Vec<JsonNum>>, rows: Seq<Seq<JsonNum>>) -> bool {
    table@.len() == rows.len() && forall|k: int| 0 <= k < rows.len() ==> table@[k]@ == rows[k]
}

/// Reads an array of rows of numbers.
fn num_rows_of(a: &Vec<JsonValue>) -> (r: Option<Vec<Vec<JsonNum>>>)
    ensures
        match r {
            Some(table) => spec_num_rows_of(a@) matches Some(rows) && num_rows_match(table, rows),
            None => spec_num_rows_of(a@) is None,
        },
{
    let mut table: Vec<Vec<JsonNum>> = Vec::new();
    let n = a.len();
    let mut i: usize = 0;
    proof {
        assert(a@.take(0int) =~= Seq::<JsonValue>::empty());
    }
    while i < n
        invariant
            n == a@.len(),
            0 <= i <= n,
            spec_num_rows_of(a@.take(i as int)) matches Some(rows) && num_rows_match(table, rows),
        decreases n - i,
    {
        proof {
            assert(a@.take(i + 1).drop_last() =~= a@.take(i as int));
            assert(a@.take(i + 1).last() == a@[i as int]);
        }
        let row: Option<Vec<JsonNum>> = match &a[i] {
            JsonValue::Arr(row) => nums_of(row),
            _ => None,
        };
        match row {
            Some(row) => {
                table.push(row);
            },
            None => {
                proof {
                    lemma_num_rows_none_tail(a@, i + 1);
                }
                return None;
            },
        }
        i += 1;
    }
    proof {
        assert(a@.take(n as int) =~= a@);
    }
    Some(table)
}

/// The elements of `a` as rows of numbers and nulls, if every element is such a row.
pub open spec fn spec_opt_num_rows_of(a: Seq<JsonValue>) -> Option<Seq<Seq<Option<JsonNum>>>>
    decreases a.len(),
{
    if a.len() == 0 {
        Some(Seq::empty())
    } else {
        match spec_opt_num_rows_of(a.drop_last()) {
            Some(pre) => match a.last() {
                JsonValue::Arr(row) => match spec_opt_nums_of(row@) {
                    Some(nums) => Some(pre.push(nums)),
                    None => None,
                },
                _ => None,
            },
            None => None,
        }
    }
}

/// Once a prefix of `a` fails to read, the whole of `a` fails.
proof fn lemma_opt_num_rows_none_tail(a: Seq<JsonValue>, i: int)
    requires
        0 <= i <= a.len(),
        spec_opt_num_rows_of(a.take(i)) is None,
    ensures
        spec_opt_num_rows_of(a) is None,
    decreases a.len() - i,
{
    if i == a.len() {
        assert(a.take(i) =~= a);
    } else {
        assert(a.take(i + 1).drop_last() =~= a.take(i));
        lemma_opt_num_rows_none_tail(a, i + 1);
    }
}

/// The rows in `table` hold the same values as `rows`.
pub open spec fn opt_num_rows_match(table: Vec<Vec<Option<JsonNum>>>, rows: Seq<Seq<Option<JsonNum>>>) -> bool {
    table@.len() == rows.len() && forall|k: int| 0 <= k < rows.len() ==> table@[k]@ == rows[k]
}

/// Reads an array of rows of numbers and nulls.
fn opt_num_rows_of(a: &Vec<JsonValue>) -> (r: Option<Vec<Vec<Option<JsonNum>>>>)
    ensures
        match r {
            Some(table) => spec_opt_num_rows_of(a@) matches Some(rows) && opt_num_rows_match(table, rows),
            None => spec_opt_num_rows_of(a@) is None,
        },
{
    let mut table: Vec<Vec<Option<JsonNum>>> = Vec::new();
    let n = a.len();
    let mut i: usize = 0;
    proof {
        assert(a@.take(0int) =~= Seq::<JsonValue>::empty());
    }
    while i < n
        invariant
            n == a@.len(),
            0 <= i <= n,
            spec_opt_num_rows_of(a@.take(i as int)) matches Some(rows) && opt_num_rows_match(table, rows),
        decreases n - i,
    {
        proof {
            assert(a@.take(i + 1).drop_last() =~= a@.take(i as int));
            assert(a@.take(i + 1).last() == a@[i as int]);
        }
        let row: Option<Vec<Option<JsonNum>>> = match &a[i] {
            JsonValue::Arr(row) => opt_nums_of(row),
            _ => None,
        };
        match row {
            Some(row) => {
                table.push(row);
            },
            None => {
                proof {
                    lemma_opt_num_rows_none_tail(a@, i + 1);
                }
                return None;
            },
        }
        i += 1;
    }
    proof {
        assert(a@.take(n as int) =~= a@);
    }
    Some(table)
}

/// The array under `key` read as exact unsigned 64-bit integers.
pub open spec fn spec_u64_array_field(v: JsonValue, key: Seq<char>) -> Option<Seq<u64>> {
    match spec_field(v, key) {
        Some(JsonValue::Arr(a)) => spec_u64s_of(a@),
        _ => None,
    }
}

/// Reads an array field of exact unsigned 64-bit integers.
fn u64_array_field(v: &JsonValue, key: &str) -> (r: Option<Vec<u64>>)
    ensures
        match r {
            Some(nums) => spec_u64_array_field(*v, key@) == Some(nums@),
            None => spec_u64_array_field(*v, key@) is None,
        },
{
    match v.get(key) {
        Some(JsonValue::Arr(a)) => u64s_of(a),
        _ => None,
    }
}

/// The array under `key` read as exact unsigned 16-bit integers.
pub open spec fn spec_u16_array_field(v: JsonValue, key: Seq<char>) -> Option<Seq<u16>> {
    match spec_field(v, key) {
        Some(JsonValue::Arr(a)) => spec_u16s_of(a@),
        _ => None,
    }
}

/// Reads an array field of exact unsigned 16-bit integers.
fn u16_array_field(v: &JsonValue, key: &str) -> (r: Option<Vec<u16>>)
    ensures
        match r {
            Some(nums) => spec_u16_array_field(*v, key@) == Some(nums@),
            None => spec_u16_array_field(*v, key@) is None,
        },
{
    match v.get(key) {
        Some(JsonValue::Arr(a)) => u16s_of(a),
        _ => None,
    }
}

/// The array under `key` read as exact unsigned 8-bit integers.
pub open spec fn spec_u8_array_field(v: JsonValue, key: Seq<char>) -> Option<Seq<u8>> {
    match spec_field(v, key) {
        Some(JsonValue::Arr(a)) => spec_u8s_of(a@),
        _ => None,
    }
}

/// Reads an array field of exact unsigned 8-bit integers.
fn u8_array_field(v: &JsonValue, key: &str) -> (r: Option<Vec<u8>>)
    ensures
        match r {
            Some(nums) => spec_u8_array_field(*v, key@) == Some(nums@),
            None => spec_u8_array_field(*v, key@) is None,
        },
{
    match v.get(key) {
        Some(JsonValue::Arr(a)) => u8s_of(a),
        _ => None,
    }
}

/// The array under `key` read as numbers.
pub open spec fn spec_num_array_field(v: JsonValue, key: Seq<char>) -> Option<Seq<JsonNum>> {
    match spec_field(v, key) {
        Some(JsonValue::Arr(a)) => spec_nums_of(a@),
        _ => None,
    }
}

/// Reads an array field of numbers.
fn num_array_field(v: &JsonValue, key: &str) -> (r: Option<Vec<JsonNum>>)
    ensures
        match r {
            Some(nums) => spec_num_array_field(*v, key@) == Some(nums@),
            None => spec_num_array_field(*v, key@) is None,
        },
{
    match v.get(key) {
        Some(JsonValue::Arr(a)) => nums_of(a),
        _ => None,
    }
}

/// The row table under `key`, if the field is an array of arrays of
/// numbers.
pub open spec fn spec_num_rows_field(v: JsonValue, key: Seq<char>) -> Option<Seq<Seq<JsonNum>>> {
    match spec_field(v, key) {
        Some(JsonValue::Arr(a)) => spec_num_rows_of(a@),
        _ => None,
    }
}

/// Reads a row table field of numbers.
fn num_rows_field(v: &JsonValue, key: &str) -> (r: Option<Vec<Vec<JsonNum>>>)
    ensures
        match r {
            Some(table) => spec_num_rows_field(*v, key@) matches Some(rows) && num_rows_match(
                table,
                rows,
            ),
            None => spec_num_rows_field(*v, key@) is None,
        },
{
    match v.get(key) {
        Some(JsonValue::Arr(a)) => num_rows_of(a),
        _ => None,
    }
}

/// The row table under `key`, if the field is an array of arrays of
/// numbers and nulls.
pub open spec fn spec_opt_num_rows_field(v: JsonValue, key: Seq<char>) -> Option<
    Seq<Seq<Option<JsonNum>>>,
> {
    match spec_field(v, key) {
        Some(JsonValue::Arr(a)) => spec_opt_num_rows_of(a@),
        _ => None,
    }
}

/// Reads a row table field of numbers and nulls.
fn opt_num_rows_field(v: &JsonValue, key: &str) -> (r: Option<Vec<Vec<Option<JsonNum>>>>)
    ensures
        match r {
            Some(table) => spec_opt_num_rows_field(*v, key@) matches Some(rows)
                && opt_num_rows_match(table, rows),
            None => spec_opt_num_rows_field(*v, key@) is None,
        },
{
    match v.get(key) {
        Some(JsonValue::Arr(a)) => opt_num_rows_of(a),
        _ => None,
    }
}

/// The optional array under `key` read as exact unsigned 32-bit
/// integers: an absent or `null` field reads as `None`, an array of
/// fitting integers as `Some`, and anything else fails.
pub open spec fn spec_opt_u32_array_field(v: JsonValue, key: Seq<char>) -> Option<
    Option<Seq<u32>>,
> {
    match spec_field(v, key) {
        Some(JsonValue::Arr(a)) => match spec_u32s_of(a@) {
            Some(nums) => Some(Some(nums)),
            None => None,
        },
        Some(JsonValue::Null) => Some(None),
        Some(_) => None,
        None => Some(None),
    }
}

/// Reads an optional array field of exact unsigned 32-bit integers.
fn opt_u32_array_field(v: &JsonValue, key: &str) -> (r: Option<Option<Vec<u32>>>)
    ensures
        match r {
            Some(Some(nums)) => spec_opt_u32_array_field(*v, key@) == Some(Some(nums@)),
            Some(None::<Vec<u32>>) => spec_opt_u32_array_field(*v, key@) == Some(
                None::<Seq<u32>>,
            ),
            None => spec_opt_u32_array_field(*v, key@) is None,
        },
{
    match v.get(key) {
        Some(JsonValue::Arr(a)) => match u32s_of(a) {
            Some(nums) => Some(Some(nums)),
            None => None,
        },
        Some(JsonValue::Null) => Some(None),
        Some(_) => None,
        None => Some(None),
    }
}


/// Every structural requirement of a rain start datagram: the three
/// identity strings and an `evt` array of unsigned integers holding at
/// least the timestamp.
pub open spec fn spec_rain_ok(v: JsonValue) -> bool {
    &&& spec_str_field(v, "serial_number"@) is Some
    &&& spec_str_field(v, "type"@) is Some
    &&& spec_str_field(v, "hub_sn"@) is Some
    &&& spec_u64_array_field(v, "evt"@) matches Some(a) && a.len() >= 1
}

/// The rain start event `e` is the decoding of datagram `v`.
pub open spec fn rain_decoded(v: JsonValue, e: RainStartEvent) -> bool {
    &&& Some(e.serial_number) == spec_str_field(v, "serial_number"@)
    &&& Some(e.event_type) == spec_str_field(v, "type"@)
    &&& Some(e.hub_sn) == spec_str_field(v, "hub_sn"@)
    &&& Some(e.evt@) == spec_u64_array_field(v, "evt"@)
}

/// Decodes a rain start datagram.
pub fn decode_rain(v: &JsonValue) -> (r: Result<RainStartEvent, DecodeError>)
    ensures
        spec_rain_ok(*v) ==> (r matches Ok(e) && rain_decoded(*v, e)),
        !spec_rain_ok(*v) ==> r == Err::<RainStartEvent, DecodeError>(DecodeError::Malformed),
{
    let serial_number = match str_field(v, "serial_number") {
        Some(s) => s,
        None => return Err(DecodeError::Malformed),
    };
    let event_type = match str_field(v, "type") {
        Some(s) => s,
        None => return Err(DecodeError::Malformed),
    };
    let hub_sn = match str_field(v, "hub_sn") {
        Some(s) => s,
        None => return Err(DecodeError::Malformed),
    };
    let evt = match u64_array_field(v, "evt") {
        Some(a) => a,
        None => return Err(DecodeError::Malformed),
    };
    if evt.len() < 1 {
        return Err(DecodeError::Malformed);
    }
    Ok(RainStartEvent { serial_number, event_type, hub_sn, evt })
}

/// Every structural requirement of a lightning strike datagram: the
/// three identity strings and an `evt` array of unsigned integers
/// holding timestamp, distance and energy.
pub open spec fn spec_lightning_ok(v: JsonValue) -> bool {
    &&& spec_str_field(v, "serial_number"@) is Some
    &&& spec_str_field(v, "type"@) is Some
    &&& spec_str_field(v, "hub_sn"@) is Some
    &&& spec_u64_array_field(v, "evt"@) matches Some(a) && a.len() >= 3
}

/// The lightning strike event `e` is the decoding of datagram `v`.
pub open spec fn lightning_decoded(v: JsonValue, e: LightningStrikeEvent) -> bool {
    &&& Some(e.serial_number) == spec_str_field(v, "serial_number"@)
    &&& Some(e.event_type) == spec_str_field(v, "type"@)
    &&& Some(e.hub_sn) == spec_str_field(v, "hub_sn"@)
    &&& Some(e.evt@) == spec_u64_array_field(v, "evt"@)
}

/// Decodes a lightning strike datagram.
pub fn decode_lightning(v: &JsonValue) -> (r: Result<LightningStrikeEvent, DecodeError>)
    ensures
        spec_lightning_ok(*v) ==> (r matches Ok(e) && lightning_decoded(*v, e)),
        !spec_lightning_ok(*v) ==> r == Err::<LightningStrikeEvent, DecodeError>(
            DecodeError::Malformed,
        ),
{
    let serial_number = match str_field(v, "serial_number") {
        Some(s) => s,
        None => return Err(DecodeError::Malformed),
    };
    let event_type = match str_field(v, "type") {
        Some(s) => s,
        None => return Err(DecodeError::Malformed),
    };
    let hub_sn = match str_field(v, "hub_sn") {
        Some(s) => s,
        None => return Err(DecodeError::Malformed),
    };
    let evt = match u64_array_field(v, "evt") {
        Some(a) => a,
        None => return Err(DecodeError::Malformed),
    };
    if evt.len() < 3 {
        return Err(DecodeError::Malformed);
    }
    Ok(LightningStrikeEvent { serial_number, event_type, hub_sn, evt })
}

/// Every structural requirement of a rapid wind datagram: the three
/// identity strings and an `ob` array of numbers holding timestamp,
/// speed and direction.
pub open spec fn spec_rapid_wind_ok(v: JsonValue) -> bool {
    &&& spec_str_field(v, "serial_number"@) is Some
    &&& spec_str_field(v, "type"@) is Some
    &&& spec_str_field(v, "hub_sn"@) is Some
    &&& spec_num_array_field(v, "ob"@) matches Some(a) && a.len() >= 3
}

/// The rapid wind event `e` is the decoding of datagram `v`.
pub open spec fn rapid_wind_decoded(v: JsonValue, e: RapidWindEvent) -> bool {
    &&& Some(e.serial_number) == spec_str_field(v, "serial_number"@)
    &&& Some(e.event_type) == spec_str_field(v, "type"@)
    &&& Some(e.hub_sn) == spec_str_field(v, "hub_sn"@)
    &&& Some(e.ob@) == spec_num_array_field(v, "ob"@)
}

/// Decodes a rapid wind datagram.
pub fn decode_rapid_wind(v: &JsonValue) -> (r: Result<RapidWindEvent, DecodeError>)
    ensures
        spec_rapid_wind_ok(*v) ==> (r matches Ok(e) && rapid_wind_decoded(*v, e)),
        !spec_rapid_wind_ok(*v) ==> r == Err::<RapidWindEvent, DecodeError>(
            DecodeError::Malformed,
        ),
{
    let serial_number = match str_field(v, "serial_number") {
        Some(s) => s,
        None => return Err(DecodeError::Malformed),
    };
    let event_type = match str_field(v, "type") {
        Some(s) => s,
        None => return Err(DecodeError::Malformed),
    };
    let hub_sn = match str_field(v, "hub_sn") {
        Some(s) => s,
        None => return Err(DecodeError::Malformed),
    };
    let ob = match num_array_field(v, "ob") {
        Some(a) => a,
        None => return Err(DecodeError::Malformed),
    };
    if ob.len() < 3 {
        return Err(DecodeError::Malformed);
    }
    Ok(RapidWindEvent { serial_number, event_type, hub_sn, ob })
}

/// Every structural requirement of a combined observation datagram: the
/// identity strings, an `obs` table of number rows and a firmware
/// revision.
pub open spec fn spec_observation_ok(v: JsonValue) -> bool {
    &&& spec_str_field(v, "serial_number"@) is Some
    &&& spec_str_field(v, "type"@) is Some
    &&& spec_str_field(v, "hub_sn"@) is Some
    &&& spec_num_rows_field(v, "obs"@) is Some
    &&& spec_u16_field(v, "firmware_revision"@) is Some
}

/// The combined observation event `e` is the decoding of datagram `v`.
pub open spec fn observation_decoded(v: JsonValue, e: ObservationEvent) -> bool {
    &&& Some(e.serial_number) == spec_str_field(v, "serial_number"@)
    &&& Some(e.event_type) == spec_str_field(v, "type"@)
    &&& Some(e.hub_sn) == spec_str_field(v, "hub_sn"@)
    &&& spec_num_rows_field(v, "obs"@) matches Some(rows) && num_rows_match(e.obs, rows)
    &&& Some(e.firmware_revision) == spec_u16_field(v, "firmware_revision"@)
}

/// Decodes a combined observation datagram.
pub fn decode_observation(v: &JsonValue) -> (r: Result<ObservationEvent, DecodeError>)
    ensures
        spec_observation_ok(*v) ==> (r matches Ok(e) && observation_decoded(*v, e)),
        !spec_observation_ok(*v) ==> r == Err::<ObservationEvent, DecodeError>(
            DecodeError::Malformed,
        ),
{
    let serial_number = match str_field(v, "serial_number") {
        Some(s) => s,
        None => return Err(DecodeError::Malformed),
    };
    let event_type = match str_field(v, "type") {
        Some(s) => s,
        None => return Err(DecodeError::Malformed),
    };
    let hub_sn = match str_field(v, "hub_sn") {
        Some(s) => s,
        None => return Err(DecodeError::Malformed),
    };
    let obs = match num_rows_field(v, "obs") {
        Some(t) => t,
        None => return Err(DecodeError::Malformed),
    };
    let firmware_revision = match u16_field(v, "firmware_revision") {
        Some(f) => f,
        None => return Err(DecodeError::Malformed),
    };
    Ok(ObservationEvent { serial_number, event_type, hub_sn, obs, firmware_revision })
}

/// Every structural requirement of an air observation datagram.
pub open spec fn spec_air_ok(v: JsonValue) -> bool {
    &&& spec_str_field(v, "serial_number"@) is Some
    &&& spec_str_field(v, "type"@) is Some
    &&& spec_str_field(v, "hub_sn"@) is Some
    &&& spec_num_rows_field(v, "obs"@) is Some
    &&& spec_u16_field(v, "firmware_revision"@) is Some
}

/// The air observation event `e` is the decoding of datagram `v`.
pub open spec fn air_decoded(v: JsonValue, e: ObservationAirEvent) -> bool {
    &&& Some(e.serial_number) == spec_str_field(v, "serial_number"@)
    &&& Some(e.event_type) == spec_str_field(v, "type"@)
    &&& Some(e.hub_sn) == spec_str_field(v, "hub_sn"@)
    &&& spec_num_rows_field(v, "obs"@) matches Some(rows) && num_rows_match(e.obs, rows)
    &&& Some(e.firmware_revision) == spec_u16_field(v, "firmware_revision"@)
}

/// Decodes an air observation datagram.
pub fn decode_air(v: &JsonValue) -> (r: Result<ObservationAirEvent, DecodeError>)
    ensures
        spec_air_ok(*v) ==> (r matches Ok(e) && air_decoded(*v, e)),
        !spec_air_ok(*v) ==> r == Err::<ObservationAirEvent, DecodeError>(DecodeError::Malformed),
{
    let serial_number = match str_field(v, "serial_number") {
        Some(s) => s,
        None => return Err(DecodeError::Malformed),
    };
    let event_type = match str_field(v, "type") {
        Some(s) => s,
        None => return Err(DecodeError::Malformed),
    };
    let hub_sn = match str_field(v, "hub_sn") {
        Some(s) => s,
        None => return Err(DecodeError::Malformed),
    };
    let obs = match num_rows_field(v, "obs") {
        Some(t) => t,
        None => return Err(DecodeError::Malformed),
    };
    let firmware_revision = match u16_field(v, "firmware_revision") {
        Some(f) => f,
        None => return Err(DecodeError::Malformed),
    };
    Ok(ObservationAirEvent { serial_number, event_type, hub_sn, obs, firmware_revision })
}

/// Every structural requirement of a sky observation datagram.
pub open spec fn spec_sky_ok(v: JsonValue) -> bool {
    &&& spec_str_field(v, "serial_number"@) is Some
    &&& spec_str_field(v, "type"@) is Some
    &&& spec_str_field(v, "hub_sn"@) is Some
    &&& spec_opt_num_rows_field(v, "obs"@) is Some
    &&& spec_u16_field(v, "firmware_revision"@) is Some
}

/// The sky observation event `e` is the decoding of datagram `v`.
pub open spec fn sky_decoded(v: JsonValue, e: ObservationSkyEvent) -> bool {
    &&& Some(e.serial_number) == spec_str_field(v, "serial_number"@)
    &&& Some(e.event_type) == spec_str_field(v, "type"@)
    &&& Some(e.hub_sn) == spec_str_field(v, "hub_sn"@)
    &&& spec_opt_num_rows_field(v, "obs"@) matches Some(rows) && opt_num_rows_match(e.obs, rows)
    &&& Some(e.firmware_revision) == spec_u16_field(v, "firmware_revision"@)
}

/// Decodes a sky observation datagram.
pub fn decode_sky(v: &JsonValue) -> (r: Result<ObservationSkyEvent, DecodeError>)
    ensures
        spec_sky_ok(*v) ==> (r matches Ok(e) && sky_decoded(*v, e)),
        !spec_sky_ok(*v) ==> r == Err::<ObservationSkyEvent, DecodeError>(DecodeError::Malformed),
{
    let serial_number = match str_field(v, "serial_number") {
        Some(s) => s,
        None => return Err(DecodeError::Malformed),
    };
    let event_type = match str_field(v, "type") {
        Some(s) => s,
        None => return Err(DecodeError::Malformed),
    };
    let hub_sn = match str_field(v, "hub_sn") {
        Some(s) => s,
        None => return Err(DecodeError::Malformed),
    };
    let obs = match opt_num_rows_field(v, "obs") {
        Some(t) => t,
        None => return Err(DecodeError::Malformed),
    };
    let firmware_revision = match u16_field(v, "firmware_revision") {
        Some(f) => f,
        None => return Err(DecodeError::Malformed),
    };
    Ok(ObservationSkyEvent { serial_number, event_type, hub_sn, obs, firmware_revision })
}

/// Every structural requirement of a device status datagram.
pub open spec fn spec_device_ok(v: JsonValue) -> bool {
    &&& spec_str_field(v, "serial_number"@) is Some
    &&& spec_str_field(v, "type"@) is Some
    &&& spec_str_field(v, "hub_sn"@) is Some
    &&& spec_u64_field(v, "timestamp"@) is Some
    &&& spec_u64_field(v, "uptime"@) is Some
    &&& spec_num_field(v, "voltage"@) is Some
    &&& spec_u16_field(v, "firmware_revision"@) is Some
    &&& spec_i16_field(v, "rssi"@) is Some
    &&& spec_i16_field(v, "hub_rssi"@) is Some
    &&& spec_u32_field(v, "sensor_status"@) is Some
    &&& spec_u8_field(v, "debug"@) is Some
}

/// The device status event `e` is the decoding of datagram `v`. The
/// battery voltage is kept as the f32 bits of the `voltage` number.
pub open spec fn device_decoded(v: JsonValue, e: DeviceStatusEvent) -> bool {
    &&& Some(e.serial_number) == spec_str_field(v, "serial_number"@)
    &&& Some(e.event_type) == spec_str_field(v, "type"@)
    &&& Some(e.hub_sn) == spec_str_field(v, "hub_sn"@)
    &&& Some(e.timestamp) == spec_u64_field(v, "timestamp"@)
    &&& Some(e.uptime) == spec_u64_field(v, "uptime"@)
    &&& spec_num_field(v, "voltage"@) matches Some(n) && e.voltage == n.bits32
    &&& Some(e.firmware_revision) == spec_u16_field(v, "firmware_revision"@)
    &&& Some(e.rssi) == spec_i16_field(v, "rssi"@)
    &&& Some(e.hub_rssi) == spec_i16_field(v, "hub_rssi"@)
    &&& Some(e.sensor_status) == spec_u32_field(v, "sensor_status"@)
    &&& Some(e.debug) == spec_u8_field(v, "debug"@)
}

/// Decodes a device status datagram.
pub fn decode_device(v: &JsonValue) -> (r: Result<DeviceStatusEvent, DecodeError>)
    ensures
        spec_device_ok(*v) ==> (r matches Ok(e) && device_decoded(*v, e)),
        !spec_device_ok(*v) ==> r == Err::<DeviceStatusEvent, DecodeError>(
            DecodeError::Malformed,
        ),
{
    let serial_number = match str_field(v, "serial_number") {
        Some(s) => s,
        None => return Err(DecodeError::Malformed),
    };
    let event_type = match str_field(v, "type") {
        Some(s) => s,
        None => return Err(DecodeError::Malformed),
    };
    let hub_sn = match str_field(v, "hub_sn") {
        Some(s) => s,
        None => return Err(DecodeError::Malformed),
    };
    let timestamp = match u64_field(v, "timestamp") {
        Some(x) => x,
        None => return Err(DecodeError::Malformed),
    };
    let uptime = match u64_field(v, "uptime") {
        Some(x) => x,
        None => return Err(DecodeError::Malformed),
    };
    let voltage = match num_field(v, "voltage") {
        Some(n) => n.bits32,
        None => return Err(DecodeError::Malformed),
    };
    let firmware_revision = match u16_field(v, "firmware_revision") {
        Some(x) => x,
        None => return Err(DecodeError::Malformed),
    };
    let rssi = match i16_field(v, "rssi") {
        Some(x) => x,
        None => return Err(DecodeError::Malformed),
    };
    let hub_rssi = match i16_field(v, "hub_rssi") {
        Some(x) => x,
        None => return Err(DecodeError::Malformed),
    };
    let sensor_status = match u32_field(v, "sensor_status") {
        Some(x) => x,
        None => return Err(DecodeError::Malformed),
    };
    let debug = match u8_field(v, "debug") {
        Some(x) => x,
        None => return Err(DecodeError::Malformed),
    };
    Ok(DeviceStatusEvent {
        serial_number,
        event_type,
        hub_sn,
        timestamp,
        uptime,
        voltage,
        firmware_revision,
        rssi,
        hub_rssi,
        sensor_status,
        debug,
    })
}

/// Every structural requirement of a hub status datagram. The radio
/// stats array must hold its five positional slots.
pub open spec fn spec_hub_status_ok(v: JsonValue) -> bool {
    &&& spec_str_field(v, "serial_number"@) is Some
    &&& spec_str_field(v, "type"@) is Some
    &&& spec_str_field(v, "firmware_revision"@) is Some
    &&& spec_u64_field(v, "uptime"@) is Some
    &&& spec_i16_field(v, "rssi"@) is Some
    &&& spec_u64_field(v, "timestamp"@) is Some
    &&& spec_str_field(v, "reset_flags"@) is Some
    &&& spec_u32_field(v, "seq"@) is Some
    &&& spec_opt_u32_array_field(v, "fs"@) is Some
    &&& spec_u16_array_field(v, "radio_stats"@) matches Some(a) && a.len() >= 5
    &&& spec_u8_array_field(v, "mqtt_stats"@) is Some
}

/// The hub status event `e` is the decoding of datagram `v`.
pub open spec fn hub_status_decoded(v: JsonValue, e: HubStatusEvent) -> bool {
    &&& Some(e.serial_number) == spec_str_field(v, "serial_number"@)
    &&& Some(e.event_type) == spec_str_field(v, "type"@)
    &&& Some(e.firmware_revision) == spec_str_field(v, "firmware_revision"@)
    &&& Some(e.uptime) == spec_u64_field(v, "uptime"@)
    &&& Some(e.rssi) == spec_i16_field(v, "rssi"@)
    &&& Some(e.timestamp) == spec_u64_field(v, "timestamp"@)
    &&& Some(e.reset_flags) == spec_str_field(v, "reset_flags"@)
    &&& Some(e.seq) == spec_u32_field(v, "seq"@)
    &&& match e.fs {
        Some(f) => spec_opt_u32_array_field(v, "fs"@) == Some(Some(f@)),
        None => spec_opt_u32_array_field(v, "fs"@) == Some(None::<Seq<u32>>),
    }
    &&& Some(e.radio_stats@) == spec_u16_array_field(v, "radio_stats"@)
    &&& Some(e.mqtt_stats@) == spec_u8_array_field(v, "mqtt_stats"@)
}

/// Decodes a hub status datagram.
pub fn decode_hub_status(v: &JsonValue) -> (r: Result<HubStatusEvent, DecodeError>)
    ensures
        spec_hub_status_ok(*v) ==> (r matches Ok(e) && hub_status_decoded(*v, e)),
        !spec_hub_status_ok(*v) ==> r == Err::<HubStatusEvent, DecodeError>(
            DecodeError::Malformed,
        ),
{
    let serial_number = match str_field(v, "serial_number") {
        Some(s) => s,
        None => return Err(DecodeError::Malformed),
    };
    let event_type = match str_field(v, "type") {
        Some(s) => s,
        None => return Err(DecodeError::Malformed),
    };
    let firmware_revision = match str_field(v, "firmware_revision") {
        Some(s) => s,
        None => return Err(DecodeError::Malformed),
    };
    let uptime = match u64_field(v, "uptime") {
        Some(x) => x,
        None => return Err(DecodeError::Malformed),
    };
    let rssi = match i16_field(v, "rssi") {
        Some(x) => x,
        None => return Err(DecodeError::Malformed),
    };
    let timestamp = match u64_field(v, "timestamp") {
        Some(x) => x,
        None => return Err(DecodeError::Malformed),
    };
    let reset_flags = match str_field(v, "reset_flags") {
        Some(s) => s,
        None => return Err(DecodeError::Malformed),
    };
    let seq = match u32_field(v, "seq") {
        Some(x) => x,
        None => return Err(DecodeError::Malformed),
    };
    let fs = match opt_u32_array_field(v, "fs") {
        Some(f) => f,
        None => return Err(DecodeError::Malformed),
    };
    let radio_stats = match u16_array_field(v, "radio_stats") {
        Some(a) => a,
        None => return Err(DecodeError::Malformed),
    };
    if radio_stats.len() < 5 {
        return Err(DecodeError::Malformed);
    }
    let mqtt_stats = match u8_array_field(v, "mqtt_stats") {
        Some(a) => a,
        None => return Err(DecodeError::Malformed),
    };
    Ok(HubStatusEvent {
        serial_number,
        event_type,
        firmware_revision,
        uptime,
        rssi,
        timestamp,
        reset_flags,
        seq,
        fs,
        radio_stats,
        mqtt_stats,
    })
}

/// The datagram's type tag: its `type` field, when that is a string.
pub open spec fn spec_type_tag(v: JsonValue) -> Option<String> {
    spec_str_field(v, "type"@)
}

/// What `dispatch` returns for a combined observation tag.
pub open spec fn observation_dispatched(v: JsonValue, r: Result<EventType, DecodeError>) -> bool {
    if spec_observation_ok(v) {
        r matches Ok(ev) && ev matches EventType::Observation(e) && observation_decoded(v, e)
    } else {
        r == Err::<EventType, DecodeError>(DecodeError::Malformed)
    }
}

/// What `dispatch` returns for an air observation tag.
pub open spec fn air_dispatched(v: JsonValue, r: Result<EventType, DecodeError>) -> bool {
    if spec_air_ok(v) {
        r matches Ok(ev) && ev matches EventType::Air(e) && air_decoded(v, e)
    } else {
        r == Err::<EventType, DecodeError>(DecodeError::Malformed)
    }
}

/// What `dispatch` returns for a sky observation tag.
pub open spec fn sky_dispatched(v: JsonValue, r: Result<EventType, DecodeError>) -> bool {
    if spec_sky_ok(v) {
        r matches Ok(ev) && ev matches EventType::Sky(e) && sky_decoded(v, e)
    } else {
        r == Err::<EventType, DecodeError>(DecodeError::Malformed)
    }
}

/// What `dispatch` returns for a hub status tag.
pub open spec fn hub_status_dispatched(v: JsonValue, r: Result<EventType, DecodeError>) -> bool {
    if spec_hub_status_ok(v) {
        r matches Ok(ev) && ev matches EventType::HubStatus(e) && hub_status_decoded(v, e)
    } else {
        r == Err::<EventType, DecodeError>(DecodeError::Malformed)
    }
}

/// What `dispatch` returns for a rapid wind tag.
pub open spec fn rapid_wind_dispatched(v: JsonValue, r: Result<EventType, DecodeError>) -> bool {
    if spec_rapid_wind_ok(v) {
        r matches Ok(ev) && ev matches EventType::RapidWind(e) && rapid_wind_decoded(v, e)
    } else {
        r == Err::<EventType, DecodeError>(DecodeError::Malformed)
    }
}

/// What `dispatch` returns for a rain start tag.
pub open spec fn rain_dispatched(v: JsonValue, r: Result<EventType, DecodeError>) -> bool {
    if spec_rain_ok(v) {
        r matches Ok(ev) && ev matches EventType::Rain(e) && rain_decoded(v, e)
    } else {
        r == Err::<EventType, DecodeError>(DecodeError::Malformed)
    }
}

/// What `dispatch` returns for a lightning strike tag.
pub open spec fn lightning_dispatched(v: JsonValue, r: Result<EventType, DecodeError>) -> bool {
    if spec_lightning_ok(v) {
        r matches Ok(ev) && ev matches EventType::Lightning(e) && lightning_decoded(v, e)
    } else {
        r == Err::<EventType, DecodeError>(DecodeError::Malformed)
    }
}

/// What `dispatch` returns for a device status tag.
pub open spec fn device_dispatched(v: JsonValue, r: Result<EventType, DecodeError>) -> bool {
    if spec_device_ok(v) {
        r matches Ok(ev) && ev matches EventType::DeviceStatus(e) && device_decoded(v, e)
    } else {
        r == Err::<EventType, DecodeError>(DecodeError::Malformed)
    }
}

/// Classifies the datagram by its `type` tag and decodes it into one
/// event: `obs_st` to a combined observation, `obs_air` to an air
/// observation, `obs_sky` to a sky observation, `hub_status` to a hub
/// status report, `rapid_wind` to a rapid wind event, `evt_precip` to a
/// rain start, `evt_strike` to a lightning strike and `device_status`
/// to a device status report. A missing or unknown tag is
/// `UnknownType`; a structural mismatch inside a known kind is
/// `Malformed`.
pub fn dispatch(v: &JsonValue) -> (r: Result<EventType, DecodeError>)
    ensures
        spec_type_tag(*v) is None ==> r == Err::<EventType, DecodeError>(DecodeError::UnknownType),
        spec_type_tag(*v) matches Some(tag) ==> {
            if tag@ == "obs_st"@ {
                observation_dispatched(*v, r)
            } else if tag@ == "obs_air"@ {
                air_dispatched(*v, r)
            } else if tag@ == "obs_sky"@ {
                sky_dispatched(*v, r)
            } else if tag@ == "hub_status"@ {
                hub_status_dispatched(*v, r)
            } else if tag@ == "rapid_wind"@ {
                rapid_wind_dispatched(*v, r)
            } else if tag@ == "evt_precip"@ {
                rain_dispatched(*v, r)
            } else if tag@ == "evt_strike"@ {
                lightning_dispatched(*v, r)
            } else if tag@ == "device_status"@ {
                device_dispatched(*v, r)
            } else {
                r == Err::<EventType, DecodeError>(DecodeError::UnknownType)
            }
        },
{
    let tag = match str_field(v, "type") {
        Some(t) => t,
        None => return Err(DecodeError::UnknownType),
    };
    if str_eq(tag.as_str(), "obs_st") {
        match decode_observation(v) {
            Ok(e) => Ok(EventType::Observation(e)),
            Err(er) => Err(er),
        }
    } else if str_eq(tag.as_str(), "obs_air") {
        match decode_air(v) {
            Ok(e) => Ok(EventType::Air(e)),
            Err(er) => Err(er),
        }
    } else if str_eq(tag.as_str(), "obs_sky") {
        match decode_sky(v) {
            Ok(e) => Ok(EventType::Sky(e)),
            Err(er) => Err(er),
        }
    } else if str_eq(tag.as_str(), "hub_status") {
        match decode_hub_status(v) {
            Ok(e) => Ok(EventType::HubStatus(e)),
            Err(er) => Err(er),
        }
    } else if str_eq(tag.as_str(), "rapid_wind") {
        match decode_rapid_wind(v) {
            Ok(e) => Ok(EventType::RapidWind(e)),
            Err(er) => Err(er),
        }
    } else if str_eq(tag.as_str(), "evt_precip") {
        match decode_rain(v) {
            Ok(e) => Ok(EventType::Rain(e)),
            Err(er) => Err(er),
        }
    } else if str_eq(tag.as_str(), "evt_strike") {
        match decode_lightning(v) {
            Ok(e) => Ok(EventType::Lightning(e)),
            Err(er) => Err(er),
        }
    } else if str_eq(tag.as_str(), "device_status") {
        match decode_device(v) {
            Ok(e) => Ok(EventType::DeviceStatus(e)),
            Err(er) => Err(er),
        }
    } else {
        Err(DecodeError::UnknownType)
    }
}

} // verus!
