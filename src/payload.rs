//! Values exchanged through request buffers, and the checked cast of a byte buffer to one.
use vstd::prelude::*;

verus! {

/// Why a byte buffer is not a value of the expected type.
#[derive(Debug, Clone, Copy, PartialEq, Eq, Structural)]
pub enum CastError {
    /// The buffer's length differs from the type's size.
    SizeMismatch,
    /// The bytes have the right length but form no valid value (e.g. an unknown enum tag).
    InvalidBitPattern,
}

/// A fixed-size value whose byte representation can be checked before it is read: not every
/// bit pattern need be valid.
///
/// The spec functions describe the representation to the verifier. Their provided bodies say
/// nothing of it; implementations that are verified override them, and the contracts of the
/// executable methods then hold of the implementation.
pub trait IoctlPayload: Sized {
    /// The size of the representation, in bytes.
    closed spec fn byte_size() -> nat {
        arbitrary()
    }

    /// Whether `bytes`, of length `byte_size()`, represent a value.
    closed spec fn bits_valid(bytes: Seq<u8>) -> bool {
        arbitrary()
    }

    /// The value that valid `bytes` represent.
    closed spec fn from_bits(bytes: Seq<u8>) -> Self {
        arbitrary()
    }

    /// The representation of a value.
    closed spec fn to_bits(v: Self) -> Seq<u8> {
        arbitrary()
    }

    fn size() -> (r: usize)
        ensures
            r == Self::byte_size(),
    ;

    fn is_valid_bit_pattern(bytes: &[u8]) -> (r: bool)
        requires
            bytes@.len() == Self::byte_size(),
        ensures
            r == Self::bits_valid(bytes@),
    ;

    fn read_bits(bytes: &[u8]) -> (r: Self)
        requires
            bytes@.len() == Self::byte_size(),
            Self::bits_valid(bytes@),
        ensures
            r == Self::from_bits(bytes@),
    ;

    fn write_bits(&self) -> (r: Vec<u8>)
        ensures
            r@ == Self::to_bits(*self),
            r@.len() == Self::byte_size(),
    ;
}

/// What the checked cast of `bytes` to `T` gives.
pub open spec fn cast_outcome<T: IoctlPayload>(bytes: Seq<u8>) -> Result<T, CastError> {
    if bytes.len() != T::byte_size() {
        Err(CastError::SizeMismatch)
    } else if !T::bits_valid(bytes) {
        Err(CastError::InvalidBitPattern)
    } else {
        Ok(T::from_bits(bytes))
    }
}

/// Reads a `T` from `bytes`, which must be exactly as long as `T` and form a valid value.
pub fn try_from_bytes<T: IoctlPayload>(bytes: &[u8]) -> (r: Result<T, CastError>)
    ensures
        r == cast_outcome::<T>(bytes@),
{
    if bytes.len() != T::size() {
        Err(CastError::SizeMismatch)
    } else if !T::is_valid_bit_pattern(bytes) {
        Err(CastError::InvalidBitPattern)
    } else {
        Ok(T::read_bits(bytes))
    }
}

/// The little-endian value of four bytes.
pub open spec fn le_u32(b: Seq<u8>) -> u32 {
    (b[0] as u32) | ((b[1] as u32) << 8u32) | ((b[2] as u32) << 16u32) | ((b[3] as u32) << 24u32)
}

/// The four little-endian bytes of a value.
pub open spec fn le_bytes_u32(v: u32) -> Seq<u8> {
    seq![v as u8, (v >> 8u32) as u8, (v >> 16u32) as u8, (v >> 24u32) as u8]
}

/// Nothing: an empty buffer, which is never retrieved.
impl IoctlPayload for () {
    open spec fn byte_size() -> nat {
        0
    }

    open spec fn bits_valid(bytes: Seq<u8>) -> bool {
        true
    }

    open spec fn from_bits(bytes: Seq<u8>) -> () {
        ()
    }

    open spec fn to_bits(v: ()) -> Seq<u8> {
        Seq::empty()
    }

    fn size() -> (r: usize) {
        0
    }

    fn is_valid_bit_pattern(bytes: &[u8]) -> (r: bool) {
        true
    }

    fn read_bits(bytes: &[u8]) -> (r: ()) {
    }

    fn write_bits(&self) -> (r: Vec<u8>) {
        Vec::new()
    }
}

/// One byte; every pattern is valid.
impl IoctlPayload for u8 {
    open spec fn byte_size() -> nat {
        1
    }

    open spec fn bits_valid(bytes: Seq<u8>) -> bool {
        true
    }

    open spec fn from_bits(bytes: Seq<u8>) -> u8 {
        bytes[0]
    }

    open spec fn to_bits(v: u8) -> Seq<u8> {
        seq![v]
    }

    fn size() -> (r: usize) {
        1
    }

    fn is_valid_bit_pattern(bytes: &[u8]) -> (r: bool) {
        true
    }

    fn read_bits(bytes: &[u8]) -> (r: u8) {
        bytes[0]
    }

    fn write_bits(&self) -> (r: Vec<u8>) {
        let mut v: Vec<u8> = Vec::new();
        v.push(*self);
        assert(v@ =~= seq![*self]);
        v
    }
}

/// Four bytes, little-endian; every pattern is valid.
impl IoctlPayload for u32 {
    open spec fn byte_size() -> nat {
        4
    }

    open spec fn bits_valid(bytes: Seq<u8>) -> bool {
        true
    }

    open spec fn from_bits(bytes: Seq<u8>) -> u32 {
        le_u32(bytes)
    }

    open spec fn to_bits(v: u32) -> Seq<u8> {
        le_bytes_u32(v)
    }

    fn size() -> (r: usize) {
        4
    }

    fn is_valid_bit_pattern(bytes: &[u8]) -> (r: bool) {
        true
    }

    fn read_bits(bytes: &[u8]) -> (r: u32) {
        (bytes[0] as u32) | ((bytes[1] as u32) << 8u32) | ((bytes[2] as u32) << 16u32) | ((
        bytes[3] as u32) << 24u32)
    }

    fn write_bits(&self) -> (r: Vec<u8>) {
        let v = *self;
        let mut out: Vec<u8> = Vec::new();
        out.push(v as u8);
        out.push((v >> 8u32) as u8);
        out.push((v >> 16u32) as u8);
        out.push((v >> 24u32) as u8);
        assert(out@ =~= le_bytes_u32(v));
        out
    }
}

/// Reading the bytes written for a value gives the value back.
pub proof fn lemma_u32_bytes_round_trip(v: u32)
    ensures
        le_u32(le_bytes_u32(v)) == v,
{
    let b = le_bytes_u32(v);
    assert(b[0] == v as u8 && b[1] == (v >> 8u32) as u8 && b[2] == (v >> 16u32) as u8 && b[3]
        == (v >> 24u32) as u8);
    assert(((v as u8) as u32) | ((((v >> 8u32) as u8) as u32) << 8u32) | ((((v >> 16u32) as u8)
        as u32) << 16u32) | ((((v >> 24u32) as u8) as u32) << 24u32) == v) by (bit_vector);
}

} // verus!
