//! The eight bytes in which a counter value travels to and from the kernel.
//!
//! The kernel exchanges a value as a 64-bit unsigned integer in the byte
//! order of the machine. Both orders are written out here, and the order of
//! the machine is asked for once, so that nothing reinterprets memory.

use vstd::prelude::*;

verus! {

/// How many bytes carry one counter value.
pub const VALUE_BYTES: usize = 8;

/// The order in which the bytes of an integer are laid out.
#[derive(Clone, Copy, Debug, PartialEq, Eq, Hash, Structural)]
pub enum ByteOrder {
    /// Least significant byte first.
    Little,
    /// Most significant byte first.
    Big,
}

/// The number that eight bytes spell when the least significant comes first.
pub open spec fn little_endian_value(bytes: Seq<u8>) -> int
    recommends
        bytes.len() == 8,
{
    bytes[0] + bytes[1] * 0x100 + bytes[2] * 0x1_0000 + bytes[3] * 0x100_0000 + bytes[4]
        * 0x1_0000_0000 + bytes[5] * 0x100_0000_0000 + bytes[6] * 0x1_0000_0000_0000 + bytes[7]
        * 0x100_0000_0000_0000
}

/// The number that eight bytes spell in the given order.
pub open spec fn value_of(order: ByteOrder, bytes: Seq<u8>) -> int
    recommends
        bytes.len() == 8,
{
    match order {
        ByteOrder::Little => little_endian_value(bytes),
        ByteOrder::Big => little_endian_value(bytes.reverse()),
    }
}

/// The eight bytes of `value`, least significant first.
pub open spec fn little_endian_bytes(value: u64) -> Seq<u8> {
    seq![
        (value % 0x100) as u8,
        (value / 0x100 % 0x100) as u8,
        (value / 0x1_0000 % 0x100) as u8,
        (value / 0x100_0000 % 0x100) as u8,
        (value / 0x1_0000_0000 % 0x100) as u8,
        (value / 0x100_0000_0000 % 0x100) as u8,
        (value / 0x1_0000_0000_0000 % 0x100) as u8,
        (value / 0x100_0000_0000_0000 % 0x100) as u8,
    ]
}

/// The eight bytes of `value` in the given order.
pub open spec fn bytes_of(order: ByteOrder, value: u64) -> Seq<u8> {
    match order {
        ByteOrder::Little => little_endian_bytes(value),
        ByteOrder::Big => little_endian_bytes(value).reverse(),
    }
}

/// What a run of bytes spells in the given order: exactly eight bytes spell
/// a value, any other number of bytes spells none.
pub open spec fn decoded(order: ByteOrder, bytes: Seq<u8>) -> Option<u64> {
    if bytes.len() == 8 {
        Some(value_of(order, bytes) as u64)
    } else {
        None
    }
}

/// The bytes that the divisions cut out of a value add up to it again.
proof fn lemma_split_then_join(v: u64)
    by (bit_vector)
    ensures
        v % 0x100 + (v / 0x100 % 0x100) * 0x100 + (v / 0x1_0000 % 0x100) * 0x1_0000 + (v
            / 0x100_0000 % 0x100) * 0x100_0000 + (v / 0x1_0000_0000 % 0x100) * 0x1_0000_0000 + (v
            / 0x100_0000_0000 % 0x100) * 0x100_0000_0000 + (v / 0x1_0000_0000_0000 % 0x100)
            * 0x1_0000_0000_0000 + (v / 0x100_0000_0000_0000 % 0x100) * 0x100_0000_0000_0000 == v,
{
}

/// The divisions cut out of a sum of weighted bytes the bytes it was made of.
proof fn lemma_join_then_split(
    b0: u8,
    b1: u8,
    b2: u8,
    b3: u8,
    b4: u8,
    b5: u8,
    b6: u8,
    b7: u8,
    v: u64,
)
    by (bit_vector)
    requires
        v == b0 + b1 * 0x100 + b2 * 0x1_0000 + b3 * 0x100_0000 + b4 * 0x1_0000_0000 + b5
            * 0x100_0000_0000 + b6 * 0x1_0000_0000_0000 + b7 * 0x100_0000_0000_0000,
    ensures
        v % 0x100 == b0,
        v / 0x100 % 0x100 == b1,
        v / 0x1_0000 % 0x100 == b2,
        v / 0x100_0000 % 0x100 == b3,
        v / 0x1_0000_0000 % 0x100 == b4,
        v / 0x100_0000_0000 % 0x100 == b5,
        v / 0x1_0000_0000_0000 % 0x100 == b6,
        v / 0x100_0000_0000_0000 % 0x100 == b7,
{
}

/// Eight bytes spell a number that fits in 64 bits.
pub proof fn lemma_value_in_range(order: ByteOrder, bytes: Seq<u8>)
    requires
        bytes.len() == 8,
    ensures
        0 <= value_of(order, bytes) <= u64::MAX,
{
    let b = bytes.reverse();
    assert(b.len() == 8);
}

/// Decoding what was encoded gives the value back, in either order.
pub proof fn lemma_decode_encode(order: ByteOrder, value: u64)
    ensures
        bytes_of(order, value).len() == 8,
        value_of(order, bytes_of(order, value)) == value,
        decoded(order, bytes_of(order, value)) == Some(value),
{
    let le = little_endian_bytes(value);
    assert(le.len() == 8);
    lemma_split_then_join(value);
    assert(little_endian_value(le) == value);
    assert(le.reverse().reverse() =~= le);
}

/// Encoding what was decoded gives the eight bytes back, in either order.
pub proof fn lemma_encode_decode(order: ByteOrder, bytes: Seq<u8>)
    requires
        bytes.len() == 8,
    ensures
        bytes_of(order, value_of(order, bytes) as u64) == bytes,
{
    lemma_value_in_range(order, bytes);
    let b = match order {
        ByteOrder::Little => bytes,
        ByteOrder::Big => bytes.reverse(),
    };
    assert(b.len() == 8);
    let v = little_endian_value(b) as u64;
    lemma_join_then_split(b[0], b[1], b[2], b[3], b[4], b[5], b[6], b[7], v);
    assert(little_endian_bytes(v) =~= b);
    assert(bytes.reverse().reverse() =~= bytes);
}

/// The bytes of `value` in the byte order of the machine, through
/// `u16::to_ne_bytes` of std. Its documentation promises the memory
/// representation in native byte order and leaves the order to the target,
/// so the contract claims only that the two bytes spell `value` in one of
/// the two orders.
#[verifier::external_body]
fn native_bytes(value: u16) -> (r: [u8; 2])
    ensures
        r@[0] + r@[1] * 0x100 == value || r@[1] + r@[0] * 0x100 == value,
{
    value.to_ne_bytes()
}

impl ByteOrder {
    /// The byte order in which the number 1 is laid out as the two bytes
    /// `probe`: little where the first byte holds the 1, big otherwise.
    pub fn from_probe(probe: [u8; 2]) -> (order: ByteOrder)
        ensures
            order == if probe@[0] == 1 {
                ByteOrder::Little
            } else {
                ByteOrder::Big
            },
    {
        if probe[0] == 1 {
            ByteOrder::Little
        } else {
            ByteOrder::Big
        }
    }

    /// The byte order of the machine that runs this code: the order in
    /// which it lays out the 16-bit number 1.
    pub fn native() -> ByteOrder {
        ByteOrder::from_probe(native_bytes(1))
    }
}

/// Lays `value` out in eight bytes in the given order.
pub fn encode(order: ByteOrder, value: u64) -> (bytes: Vec<u8>)
    ensures
        bytes@ == bytes_of(order, value),
{
    let b0: u8 = (value % 0x100) as u8;
    let b1: u8 = (value / 0x100 % 0x100) as u8;
    let b2: u8 = (value / 0x1_0000 % 0x100) as u8;
    let b3: u8 = (value / 0x100_0000 % 0x100) as u8;
    let b4: u8 = (value / 0x1_0000_0000 % 0x100) as u8;
    let b5: u8 = (value / 0x100_0000_0000 % 0x100) as u8;
    let b6: u8 = (value / 0x1_0000_0000_0000 % 0x100) as u8;
    let b7: u8 = (value / 0x100_0000_0000_0000 % 0x100) as u8;
    let bytes = match order {
        ByteOrder::Little => vec![b0, b1, b2, b3, b4, b5, b6, b7],
        ByteOrder::Big => vec![b7, b6, b5, b4, b3, b2, b1, b0],
    };
    assert(bytes@ =~= bytes_of(order, value));
    bytes
}

/// Reads a value from bytes in the given order: exactly eight bytes spell a
/// value, any other number of bytes spells none.
pub fn decode(order: ByteOrder, bytes: &[u8]) -> (r: Option<u64>)
    ensures
        r == decoded(order, bytes@),
{
    if bytes.len() != VALUE_BYTES {
        return None;
    }
    let ghost b = match order {
        ByteOrder::Little => bytes@,
        ByteOrder::Big => bytes@.reverse(),
    };
    let (b0, b1, b2, b3, b4, b5, b6, b7) = match order {
        ByteOrder::Little => (
            bytes[0],
            bytes[1],
            bytes[2],
            bytes[3],
            bytes[4],
            bytes[5],
            bytes[6],
            bytes[7],
        ),
        ByteOrder::Big => (
            bytes[7],
            bytes[6],
            bytes[5],
            bytes[4],
            bytes[3],
            bytes[2],
            bytes[1],
            bytes[0],
        ),
    };
    assert(b.len() == 8);
    assert(b[0] == b0 && b[1] == b1 && b[2] == b2 && b[3] == b3);
    assert(b[4] == b4 && b[5] == b5 && b[6] == b6 && b[7] == b7);
    let low: u64 = (b0 as u64) + (b1 as u64) * 0x100 + (b2 as u64) * 0x1_0000 + (b3 as u64)
        * 0x100_0000;
    let high: u64 = (b4 as u64) + (b5 as u64) * 0x100 + (b6 as u64) * 0x1_0000 + (b7 as u64)
        * 0x100_0000;
    Some(low + high * 0x1_0000_0000)
}

} // verus!
