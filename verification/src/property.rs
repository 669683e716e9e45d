//! Reading a window property that holds one integer.

use crate::error::XError;
use vstd::prelude::*;

verus! {

/// The property type that accepts a property of any type.
pub const ANY_PROPERTY_TYPE: u64 = 0;

/// The longest length that a read can ask for, in units of 32 bits.
pub const WHOLE_PROPERTY: i64 = 0xFFFF_FFFF;

/// One read of a window property.
#[derive(Clone, Copy, Debug, PartialEq, Eq, Structural)]
pub struct GetWindowProperty {
    /// The window that carries the property.
    pub window: u64,
    /// The atom of the property.
    pub property: u64,
    /// Where in the value the read starts, in units of 32 bits.
    pub long_offset: i64,
    /// How much of the value is wanted at most, in units of 32 bits.
    pub long_length: i64,
    /// Whether the server deletes the property once it has been read.
    pub delete: bool,
    /// The type that the property must have, or [`ANY_PROPERTY_TYPE`].
    pub req_type: u64,
}

impl GetWindowProperty {
    /// A read that takes the whole value, of whatever type, and leaves the
    /// property in place.
    pub open spec fn reads_everything(&self) -> bool {
        &&& self.long_offset == 0
        &&& self.long_length == WHOLE_PROPERTY
        &&& !self.delete
        &&& self.req_type == ANY_PROPERTY_TYPE
    }
}

/// What a read of a window property came back with.
#[derive(Debug, PartialEq, Eq)]
pub struct PropertyReply {
    /// The atom of the type that the property has; zero when there is none.
    pub actual_type: u64,
    /// The width of one item in bits: 8, 16 or 32; zero when there is none.
    pub actual_format: i32,
    /// How many bytes of the value the read left behind.
    pub bytes_after: u64,
    /// The items, each widened to 64 bits; `None` when the read filled in
    /// no buffer at all.
    pub items: Option<Vec<u64>>,
}

impl PropertyReply {
    /// The items that the reply holds; none when no buffer was filled in.
    pub open spec fn values(&self) -> Seq<u64> {
        match self.items {
            Some(v) => v@,
            None => Seq::empty(),
        }
    }

    /// The one integer that the property holds, or the count that it holds
    /// instead of one.
    pub open spec fn scalar(&self) -> Result<u64, XError> {
        if self.values().len() == 1 {
            Ok(self.values()[0])
        } else {
            Err(XError::ItemCount { count: self.values().len() as usize })
        }
    }

    /// The number of desktops that the reply stands for: its one integer,
    /// cut to eight bits.
    pub open spec fn number_of_desktops(&self) -> Result<u8, XError> {
        match self.scalar() {
            Ok(value) => Ok(low_byte(value)),
            Err(e) => Err(e),
        }
    }

    /// The index of the active desktop that the reply stands for: its one
    /// integer, cut to the width of a `usize`.
    pub open spec fn current_desktop(&self) -> Result<usize, XError> {
        match self.scalar() {
            Ok(value) => Ok(low_word(value)),
            Err(e) => Err(e),
        }
    }

    /// The reply to the read of a property that the window does not have:
    /// no type, no format, and no buffer.
    pub fn absent() -> (reply: PropertyReply)
        ensures
            reply == absent_reply(),
            reply.actual_type == 0,
            reply.actual_format == 0,
            reply.bytes_after == 0,
            reply.items is None,
    {
        PropertyReply { actual_type: 0, actual_format: 0, bytes_after: 0, items: None }
    }

    /// The integer of a property that holds exactly one. A property with no
    /// item or with several is refused, whatever its items are.
    pub fn single_integer(&self) -> (r: Result<u64, XError>)
        ensures
            r == self.scalar(),
            r is Ok <==> self.values().len() == 1,
            r matches Ok(v) ==> v == self.values()[0],
            r matches Err(e) ==> e == (XError::ItemCount { count: self.values().len() as usize }),
    {
        match &self.items {
            Some(v) => {
                if v.len() == 1 {
                    Ok(v[0])
                } else {
                    Err(XError::ItemCount { count: v.len() })
                }
            },
            None => Err(XError::ItemCount { count: 0 }),
        }
    }
}

/// What [`PropertyReply::absent`] returns.
pub open spec fn absent_reply() -> PropertyReply {
    PropertyReply { actual_type: 0, actual_format: 0, bytes_after: 0, items: None }
}

/// The low eight bits of `value`.
pub open spec fn low_byte(value: u64) -> u8 {
    (value % 256) as u8
}

/// `value` cut down to as many low bits as a `usize` has: `value` itself
/// where it fits.
pub open spec fn low_word(value: u64) -> usize {
    if value <= usize::MAX {
        value as usize
    } else {
        (value as int % (usize::MAX as int + 1)) as usize
    }
}

/// Cutting down to a `usize` leaves the remainder modulo the number of
/// values that a `usize` has.
pub proof fn low_word_is_remainder(value: u64)
    ensures
        low_word(value) as int == value as int % (usize::MAX as int + 1),
{
    if value <= usize::MAX {
        vstd::arithmetic::div_mod::lemma_small_mod(value as nat, (usize::MAX as int + 1) as nat);
    }
}

/// Narrows to eight bits by dropping the high ones.
pub fn narrow_to_u8(value: u64) -> (r: u8)
    ensures
        r == low_byte(value),
        r as int == value as int % 256,
{
    let r: u8 = #[verifier::truncate] (value as u8);
    assert(r == value % 256) by (bit_vector)
        requires
            r == value as u8,
    ;
    r
}

/// Narrows to the width of a `usize` by dropping the bits above it.
pub fn narrow_to_usize(value: u64) -> (r: usize)
    ensures
        r == low_word(value),
        r as int == value as int % (usize::MAX as int + 1),
{
    proof {
        low_word_is_remainder(value);
    }
    if value <= usize::MAX as u64 {
        value as usize
    } else {
        (value % (usize::MAX as u64 + 1)) as usize
    }
}

} // verus!
