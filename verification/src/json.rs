//! A generic JSON tree, the shape in which datagrams reach the decoder.
//!
//! The tokenizer that turns raw bytes into this tree lives outside the
//! verified core. Each number arrives pre-rendered in every reading the
//! decoder may need: its IEEE-754 bit patterns at both widths, its exact
//! integer value when it has one, and its truncation toward zero. The
//! functions here only select among those readings; they never do
//! floating-point arithmetic.

use vstd::prelude::*;

verus! {

/// One JSON number, carried as plain values.
///
/// `uint_val` / `int_val` are `Some` exactly when the number is an exact
/// integer representable in the corresponding type. `bits32` and `bits64`
/// are the IEEE-754 bit patterns of the value at single and double width.
/// `trunc` is the value rounded toward zero, saturated to the `i64` range,
/// with 0 standing in for NaN.
#[derive(Clone, Copy, Debug, PartialEq, Eq)]
pub struct JsonNum {
    pub uint_val: Option<u64>,
    pub int_val: Option<i64>,
    pub bits32: u32,
    pub bits64: u64,
    pub trunc: i64,
}

/// A generic JSON value. Object members keep the order in which the
/// tokenizer handed them over; lookups take the first member with a
/// matching key.
#[derive(Debug, PartialEq)]
pub enum JsonValue {
    Null,
    Bool(bool),
    Num(JsonNum),
    Str(String),
    Arr(Vec<JsonValue>),
    Obj(Vec<(String, JsonValue)>),
}

impl JsonNum {
    /// The value rounded toward zero as an unsigned 64-bit count;
    /// negative values floor at zero.
    pub open spec fn spec_trunc_u64(self) -> u64 {
        if self.trunc < 0 {
            0
        } else {
            self.trunc as u64
        }
    }

    /// Rounds toward zero into the `u64` range.
    pub fn trunc_u64(&self) -> (r: u64)
        ensures
            r == self.spec_trunc_u64(),
    {
        if self.trunc < 0 {
            0
        } else {
            self.trunc as u64
        }
    }

    /// The value rounded toward zero, saturated to the `u16` range.
    pub open spec fn spec_trunc_u16(self) -> u16 {
        if self.trunc < 0 {
            0
        } else if self.trunc > 65535 {
            65535
        } else {
            self.trunc as u16
        }
    }

    /// Rounds toward zero into the `u16` range, saturating at its bounds.
    pub fn trunc_u16(&self) -> (r: u16)
        ensures
            r == self.spec_trunc_u16(),
    {
        if self.trunc < 0 {
            0
        } else if self.trunc > 65535 {
            65535
        } else {
            self.trunc as u16
        }
    }

    /// The number as an exact `u64`, if it is one.
    pub open spec fn spec_as_u64(self) -> Option<u64> {
        self.uint_val
    }

    /// The number as an exact `u32`, if it is one and fits.
    pub open spec fn spec_as_u32(self) -> Option<u32> {
        match self.uint_val {
            Some(u) => if u <= u32::MAX as u64 {
                Some(u as u32)
            } else {
                None
            },
            None => None,
        }
    }

    /// The number as an exact `u16`, if it is one and fits.
    pub open spec fn spec_as_u16(self) -> Option<u16> {
        match self.uint_val {
            Some(u) => if u <= u16::MAX as u64 {
                Some(u as u16)
            } else {
                None
            },
            None => None,
        }
    }

    /// The number as an exact `u8`, if it is one and fits.
    pub open spec fn spec_as_u8(self) -> Option<u8> {
        match self.uint_val {
            Some(u) => if u <= u8::MAX as u64 {
                Some(u as u8)
            } else {
                None
            },
            None => None,
        }
    }

    /// The number as an exact `i16`, if it is one and fits.
    pub open spec fn spec_as_i16(self) -> Option<i16> {
        match self.int_val {
            Some(i) => if i16::MIN as i64 <= i <= i16::MAX as i64 {
                Some(i as i16)
            } else {
                None
            },
            None => None,
        }
    }

    /// Reads the number as an exact `u64`.
    pub fn as_u64(&self) -> (r: Option<u64>)
        ensures
            r == self.spec_as_u64(),
    {
        self.uint_val
    }

    /// Reads the number as an exact `u32`.
    pub fn as_u32(&self) -> (r: Option<u32>)
        ensures
            r == self.spec_as_u32(),
    {
        match self.uint_val {
            Some(u) => if u <= u32::MAX as u64 {
                Some(u as u32)
            } else {
                None
            },
            None => None,
        }
    }

    /// Reads the number as an exact `u16`.
    pub fn as_u16(&self) -> (r: Option<u16>)
        ensures
            r == self.spec_as_u16(),
    {
        match self.uint_val {
            Some(u) => if u <= u16::MAX as u64 {
                Some(u as u16)
            } else {
                None
            },
            None => None,
        }
    }

    /// Reads the number as an exact `u8`.
    pub fn as_u8(&self) -> (r: Option<u8>)
        ensures
            r == self.spec_as_u8(),
    {
        match self.uint_val {
            Some(u) => if u <= u8::MAX as u64 {
                Some(u as u8)
            } else {
                None
            },
            None => None,
        }
    }

    /// Reads the number as an exact `i16`.
    pub fn as_i16(&self) -> (r: Option<i16>)
        ensures
            r == self.spec_as_i16(),
    {
        match self.int_val {
            Some(i) => if i16::MIN as i64 <= i && i <= i16::MAX as i64 {
                Some(i as i16)
            } else {
                None
            },
            None => None,
        }
    }
}

/// First value among `members` whose key reads `key`, if any.
pub open spec fn spec_member_lookup(
    members: Seq<(String, JsonValue)>,
    key: Seq<char>,
) -> Option<JsonValue>
    decreases members.len(),
{
    if members.len() == 0 {
        None
    } else if members[0].0@ == key {
        Some(members[0].1)
    } else {
        spec_member_lookup(members.drop_first(), key)
    }
}

/// Field `key` of `v`, when `v` is an object that has it.
pub open spec fn spec_field(v: JsonValue, key: Seq<char>) -> Option<JsonValue> {
    match v {
        JsonValue::Obj(members) => spec_member_lookup(members@, key),
        _ => None,
    }
}

proof fn lemma_member_lookup_prefix(
    members: Seq<(String, JsonValue)>,
    key: Seq<char>,
    i: int,
)
    requires
        0 <= i <= members.len(),
        forall|k: int| 0 <= k < i ==> members[k].0@ != key,
    ensures
        spec_member_lookup(members, key) == spec_member_lookup(members.skip(i), key),
    decreases i,
{
    if i > 0 {
        assert(members.skip(i - 1).drop_first() =~= members.skip(i));
        lemma_member_lookup_prefix(members, key, i - 1);
    } else {
        assert(members.skip(0) =~= members);
    }
}

impl JsonValue {
    /// Looks the field `key` up in an object, first match first.
    pub fn get<'a>(&'a self, key: &str) -> (r: Option<&'a JsonValue>)
        ensures
            match r {
                Some(f) => spec_field(*self, key@) == Some(*f),
                None => spec_field(*self, key@) is None,
            },
    {
        match self {
            JsonValue::Obj(members) => {
                let n = members.len();
                let mut i: usize = 0;
                while i < n
                    invariant
                        *self is Obj && (*self)->Obj_0 == *members,
                        n == members@.len(),
                        0 <= i <= n,
                        forall|k: int| 0 <= k < i ==> members@[k].0@ != key@,
                    decreases n - i,
                {
                    if crate::strutil::str_eq(members[i].0.as_str(), key) {
                        proof {
                            assert((*self)->Obj_0 == *members);
                            lemma_member_lookup_prefix(members@, key@, i as int);
                            assert(members@.skip(i as int)[0] == members@[i as int]);
                            assert(members@.skip(i as int).len() > 0);
                            assert(spec_member_lookup(members@.skip(i as int), key@) == Some(
                                members@[i as int].1,
                            ));
                        }
                        return Some(&members[i].1);
                    }
                    i += 1;
                }
                proof {
                    lemma_member_lookup_prefix(members@, key@, n as int);
                }
                None
            },
            _ => None,
        }
    }
}

} // verus!
