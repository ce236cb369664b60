//! I/O control codes: device type, access rights, function number and transfer method packed
//! into 32 bits.
use core::marker::PhantomData;
use vstd::prelude::*;

verus! {

/// The method of transferring data to or from a device (the two lowest bits of a code).
#[derive(Debug, Clone, Copy, PartialEq, Eq, Structural)]
pub enum IoCtlTransferType {
    Buffered,
    /// Also known as `METHOD_DIRECT_TO_HARDWARE`.
    InDirect,
    /// Also known as `METHOD_DIRECT_FROM_HARDWARE`.
    OutDirect,
    Neither,
}

impl IoCtlTransferType {
    /// The two-bit field value of this method.
    pub open spec fn bits(self) -> u32 {
        match self {
            IoCtlTransferType::Buffered => 0,
            IoCtlTransferType::InDirect => 1,
            IoCtlTransferType::OutDirect => 2,
            IoCtlTransferType::Neither => 3,
        }
    }

    /// The two-bit field value of this method.
    pub fn to_bits(self) -> (r: u32)
        ensures
            r == self.bits(),
            r < 4,
    {
        match self {
            IoCtlTransferType::Buffered => 0,
            IoCtlTransferType::InDirect => 1,
            IoCtlTransferType::OutDirect => 2,
            IoCtlTransferType::Neither => 3,
        }
    }

    /// The method whose two-bit field value is `value`; all four patterns are methods.
    fn from_raw(value: u8) -> (r: IoCtlTransferType)
        requires
            value < 4,
        ensures
            r.bits() == value,
    {
        match value {
            0 => IoCtlTransferType::Buffered,
            1 => IoCtlTransferType::InDirect,
            2 => IoCtlTransferType::OutDirect,
            _ => IoCtlTransferType::Neither,
        }
    }
}

/// `FILE_ANY_ACCESS`.
pub const FILE_ANY_ACCESS: u8 = 0;

/// `FILE_READ_DATA`.
pub const FILE_READ_DATA: u8 = 1;

/// `FILE_WRITE_DATA`.
pub const FILE_WRITE_DATA: u8 = 2;

/// The access rights a caller needs to issue a control code: a set of the two flags
/// `FILE_READ_DATA` and `FILE_WRITE_DATA`.
#[derive(Debug, Clone, Copy, PartialEq, Eq, Structural)]
pub struct IoCtlAccess {
    bits: u8,
}

impl IoCtlAccess {
    /// The raw flag bits; only the two lowest can be set.
    pub closed spec fn spec_bits(self) -> u8 {
        self.bits
    }

    #[verifier::type_invariant]
    spec fn inv(self) -> bool {
        self.bits < 4
    }

    pub fn bits(&self) -> (r: u8)
        ensures
            r == self.spec_bits(),
            r < 4,
    {
        proof {
            use_type_invariant(self);
        }
        self.bits
    }

    /// The empty set.
    pub fn empty() -> (r: IoCtlAccess)
        ensures
            r.spec_bits() == 0,
    {
        IoCtlAccess { bits: 0 }
    }

    /// `FILE_ANY_ACCESS`, which is the empty set.
    pub fn any_access() -> (r: IoCtlAccess)
        ensures
            r.spec_bits() == FILE_ANY_ACCESS,
            r.spec_bits() == 0,
    {
        IoCtlAccess::empty()
    }

    /// The set holding only `FILE_READ_DATA`.
    pub fn read_data() -> (r: IoCtlAccess)
        ensures
            r.spec_bits() == FILE_READ_DATA,
    {
        IoCtlAccess { bits: FILE_READ_DATA }
    }

    /// The set holding only `FILE_WRITE_DATA`.
    pub fn write_data() -> (r: IoCtlAccess)
        ensures
            r.spec_bits() == FILE_WRITE_DATA,
    {
        IoCtlAccess { bits: FILE_WRITE_DATA }
    }

    /// The set of both flags.
    pub fn all() -> (r: IoCtlAccess)
        ensures
            r.spec_bits() == 3,
    {
        IoCtlAccess { bits: 3 }
    }

    /// The flags of `bits` that are known; the others are dropped.
    pub fn from_bits_truncate(bits: u8) -> (r: IoCtlAccess)
        ensures
            r.spec_bits() == bits & 3,
    {
        assert(bits & 3 < 4) by (bit_vector);
        IoCtlAccess { bits: bits & 3 }
    }

    /// The union of two sets.
    pub fn union(self, other: IoCtlAccess) -> (r: IoCtlAccess)
        ensures
            r.spec_bits() == self.spec_bits() | other.spec_bits(),
    {
        proof {
            use_type_invariant(&self);
            use_type_invariant(&other);
        }
        let a = self.bits;
        let b = other.bits;
        assert(a < 4 && b < 4 ==> a | b < 4) by (bit_vector);
        IoCtlAccess { bits: a | b }
    }

    /// Whether every flag of `other` is in this set.
    pub fn contains(self, other: IoCtlAccess) -> (r: bool)
        ensures
            r == (self.spec_bits() & other.spec_bits() == other.spec_bits()),
    {
        self.bits & other.bits == other.bits
    }
}

/// The packed layout: device_type(16) | access(2) | function(12) | method(2).
pub open spec fn ctl_code(device_type: u16, function: u16, method: u32, access: u8) -> u32 {
    ((device_type as u32) << 16u32) | ((access as u32) << 14u32) | ((function as u32) << 2u32)
        | method
}

pub open spec fn device_type_of(raw: u32) -> u16 {
    (raw >> 16u32) as u16
}

pub open spec fn function_of(raw: u32) -> u16 {
    ((raw >> 2u32) & 0xFFFu32) as u16
}

pub open spec fn access_of(raw: u32) -> u8 {
    ((raw >> 14u32) & 3u32) as u8
}

pub open spec fn method_of(raw: u32) -> u32 {
    raw & 3u32
}

/// Whether a device type and function number are free for custom codes: device types
/// below `0x8000` and function numbers below `0x800` are reserved for the platform vendor,
/// and function numbers have twelve bits.
pub open spec fn custom_code_allowed(device_type: u16, function: u16) -> bool {
    device_type >= 0x8000 && 0x800 <= function <= 0xFFF
}

/// Why a custom control code cannot be built.
#[derive(Debug, Clone, Copy, PartialEq, Eq, Structural)]
pub enum IoControlCodeError {
    /// The device type is below `0x8000`.
    ReservedDeviceType,
    /// The function number is below `0x800`.
    ReservedFunction,
    /// The function number is above `0xFFF`.
    FunctionOutOfRange,
}

/// An I/O control code.
#[derive(Debug, Clone, Copy, PartialEq, Eq, Structural, Hash)]
pub struct IoControlCode(pub u32);

impl IoControlCode {
    /// Packs a custom (non-vendor) control code; the inputs must be outside the reserved ranges.
    pub fn new_custom(
        device_type: u16,
        function: u16,
        method: IoCtlTransferType,
        access: IoCtlAccess,
    ) -> (r: IoControlCode)
        requires
            custom_code_allowed(device_type, function),
        ensures
            r.0 == ctl_code(device_type, function, method.bits(), access.spec_bits()),
            device_type_of(r.0) == device_type,
            function_of(r.0) == function,
            method_of(r.0) == method.bits(),
            access_of(r.0) == access.spec_bits(),
    {
        let m = method.to_bits();
        let a = access.bits();
        proof {
            lemma_ctl_code_fields(device_type, function, m, a);
        }
        IoControlCode(
            ((device_type as u32) << 16u32) | ((a as u32) << 14u32) | ((function as u32) << 2u32)
                | m,
        )
    }

    /// Packs a custom control code, or says which field lies in a reserved range. The device
    /// type is checked first, then the lower and the upper bound of the function number.
    pub fn try_new_custom(
        device_type: u16,
        function: u16,
        method: IoCtlTransferType,
        access: IoCtlAccess,
    ) -> (r: Result<IoControlCode, IoControlCodeError>)
        ensures
            match r {
                Ok(c) => custom_code_allowed(device_type, function) && c.0 == ctl_code(
                    device_type,
                    function,
                    method.bits(),
                    access.spec_bits(),
                ),
                Err(e) => e == (if device_type < 0x8000 {
                    IoControlCodeError::ReservedDeviceType
                } else if function < 0x800 {
                    IoControlCodeError::ReservedFunction
                } else {
                    IoControlCodeError::FunctionOutOfRange
                }) && !custom_code_allowed(device_type, function),
            },
    {
        if device_type < 0x8000 {
            Err(IoControlCodeError::ReservedDeviceType)
        } else if function < 0x800 {
            Err(IoControlCodeError::ReservedFunction)
        } else if function > 0xFFF {
            Err(IoControlCodeError::FunctionOutOfRange)
        } else {
            Ok(IoControlCode::new_custom(device_type, function, method, access))
        }
    }

    /// Bits 31 to 16.
    pub fn device_type(self) -> (r: u16)
        ensures
            r == device_type_of(self.0),
    {
        (self.0 >> 16u32) as u16
    }

    /// Bits 13 to 2.
    pub fn function(self) -> (r: u16)
        ensures
            r == function_of(self.0),
            r <= 0xFFF,
    {
        let raw = self.0;
        assert((raw >> 2u32) & 0xFFFu32 <= 0xFFF) by (bit_vector);
        ((self.0 >> 2u32) & 0xFFFu32) as u16
    }

    /// Bits 15 and 14.
    pub fn access(self) -> (r: IoCtlAccess)
        ensures
            r.spec_bits() == access_of(self.0),
    {
        let raw = self.0;
        assert(((raw >> 14u32) & 3u32) as u8 & 3u8 == ((raw >> 14u32) & 3u32) as u8)
            by (bit_vector);
        IoCtlAccess::from_bits_truncate(((self.0 >> 14u32) & 3u32) as u8)
    }

    /// Bits 1 and 0.
    pub fn method(self) -> (r: IoCtlTransferType)
        ensures
            r.bits() == method_of(self.0),
    {
        let raw = self.0;
        assert((raw & 3u32) < 4 && ((raw & 3u32) as u8) as u32 == raw & 3u32) by (bit_vector);
        IoCtlTransferType::from_raw((self.0 & 3u32) as u8)
    }
}

proof fn lemma_ctl_code_fields(device_type: u16, function: u16, method: u32, access: u8)
    requires
        function <= 0xFFF,
        method < 4,
        access < 4,
    ensures
        device_type_of(ctl_code(device_type, function, method, access)) == device_type,
        function_of(ctl_code(device_type, function, method, access)) == function,
        method_of(ctl_code(device_type, function, method, access)) == method,
        access_of(ctl_code(device_type, function, method, access)) == access,
{
    assert(((((device_type as u32) << 16u32) | ((access as u32) << 14u32) | ((function as u32)
        << 2u32) | method) >> 16u32) as u16 == device_type) by (bit_vector)
        requires
            function <= 0xFFF,
            method < 4,
            access < 4,
    ;
    assert((((((device_type as u32) << 16u32) | ((access as u32) << 14u32) | ((function as u32)
        << 2u32) | method) >> 2u32) & 0xFFFu32) as u16 == function) by (bit_vector)
        requires
            function <= 0xFFF,
            method < 4,
            access < 4,
    ;
    assert(((((device_type as u32) << 16u32) | ((access as u32) << 14u32) | ((function as u32)
        << 2u32) | method) & 3u32) == method) by (bit_vector)
        requires
            function <= 0xFFF,
            method < 4,
            access < 4,
    ;
    assert((((((device_type as u32) << 16u32) | ((access as u32) << 14u32) | ((function as u32)
        << 2u32) | method) >> 14u32) & 3u32) as u8 == access) by (bit_vector)
        requires
            function <= 0xFFF,
            method < 4,
            access < 4,
    ;
}

/// Splitting a raw control code into its fields and packing them again gives back the raw value.
pub proof fn lemma_control_code_round_trip(v: u32)
    ensures
        ctl_code(device_type_of(v), function_of(v), method_of(v), access_of(v)) == v,
{
    assert(((((v >> 16u32) as u16) as u32) << 16u32) | (((((v >> 14u32) & 3u32) as u8) as u32)
        << 14u32) | (((((v >> 2u32) & 0xFFFu32) as u16) as u32) << 2u32) | (v & 3u32) == v)
        by (bit_vector);
}

/// Every custom code that may be built is built, and its fields read back unchanged.
pub proof fn lemma_control_code_fields_preserved(
    device_type: u16,
    function: u16,
    method: IoCtlTransferType,
    access: IoCtlAccess,
)
    requires
        custom_code_allowed(device_type, function),
        access.spec_bits() < 4,
    ensures
        device_type_of(ctl_code(device_type, function, method.bits(), access.spec_bits()))
            == device_type,
        function_of(ctl_code(device_type, function, method.bits(), access.spec_bits()))
            == function,
        method_of(ctl_code(device_type, function, method.bits(), access.spec_bits()))
            == method.bits(),
        access_of(ctl_code(device_type, function, method.bits(), access.spec_bits()))
            == access.spec_bits(),
{
    lemma_ctl_code_fields(device_type, function, method.bits(), access.spec_bits());
}

/// A control code paired, at the type level only, with the input type `I` and output type `O`
/// of the requests that carry it.
pub struct TypedIoControlCode<I, O> {
    pub code: IoControlCode,
    pub _phantom: PhantomData<(I, O)>,
}

impl<I, O> TypedIoControlCode<I, O> {
    pub fn new(code: IoControlCode) -> (r: TypedIoControlCode<I, O>)
        ensures
            r.code == code,
    {
        TypedIoControlCode { code, _phantom: PhantomData }
    }

    /// Whether this code equals the plain code `other`, by numeric value.
    pub fn eq_code(&self, other: &IoControlCode) -> (r: bool)
        ensures
            r == (self.code.0 == other.0),
    {
        self.code.0 == other.0
    }
}

impl<I, O> PartialEq<IoControlCode> for TypedIoControlCode<I, O> {
    fn eq(&self, other: &IoControlCode) -> (r: bool) {
        self.code.0 == other.0
    }
}

impl<I, O> vstd::std_specs::cmp::PartialEqSpecImpl<IoControlCode> for TypedIoControlCode<I, O> {
    open spec fn obeys_eq_spec() -> bool {
        true
    }

    open spec fn eq_spec(&self, other: &IoControlCode) -> bool {
        self.code.0 == other.0
    }
}

impl<I, O> PartialEq<TypedIoControlCode<I, O>> for IoControlCode {
    fn eq(&self, other: &TypedIoControlCode<I, O>) -> (r: bool) {
        self.0 == other.code.0
    }
}

impl<I, O> vstd::std_specs::cmp::PartialEqSpecImpl<TypedIoControlCode<I, O>> for IoControlCode {
    open spec fn obeys_eq_spec() -> bool {
        true
    }

    open spec fn eq_spec(&self, other: &TypedIoControlCode<I, O>) -> bool {
        self.0 == other.code.0
    }
}

} // verus!
