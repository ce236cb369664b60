//! `NTSTATUS` values: a 32-bit code packing severity, a custom flag, a facility and a code.
use vstd::prelude::*;
use vstd::string::{StrSliceExecFns, StringExecFns};

verus! {

/// Represents the severity of an `NTSTATUS` value (its two top bits).
#[derive(Debug, Clone, Copy, PartialEq, Eq, Structural)]
pub enum Severity {
    Success,
    Information,
    Warning,
    Error,
}

impl Severity {
    /// The two-bit field value of this severity.
    pub open spec fn bits(self) -> u32 {
        match self {
            Severity::Success => 0,
            Severity::Information => 1,
            Severity::Warning => 2,
            Severity::Error => 3,
        }
    }

    /// The severity whose two-bit field value is `b`.
    pub open spec fn from_bits(b: u32) -> Severity {
        if b == 0 {
            Severity::Success
        } else if b == 1 {
            Severity::Information
        } else if b == 2 {
            Severity::Warning
        } else {
            Severity::Error
        }
    }

    /// The two-bit field value of this severity.
    pub fn to_bits(self) -> (r: u32)
        ensures
            r == self.bits(),
            r < 4,
    {
        match self {
            Severity::Success => 0,
            Severity::Information => 1,
            Severity::Warning => 2,
            Severity::Error => 3,
        }
    }
}

/// The 32 raw bits of a status value.
pub open spec fn raw_bits(v: i32) -> u32 {
    v as u32
}

/// The packed layout: severity(2) | custom(1) | facility(13) | code(16).
pub open spec fn pack_status(custom: bool, severity: Severity, facility: u16, code: u16) -> u32 {
    (severity.bits() << 30u32) | ((if custom { 1u32 } else { 0u32 }) << 29u32) | ((
    facility as u32) << 16u32) | (code as u32)
}

pub open spec fn severity_of(raw: u32) -> Severity {
    Severity::from_bits(raw >> 30u32)
}

pub open spec fn custom_of(raw: u32) -> bool {
    raw & 0x2000_0000u32 != 0
}

pub open spec fn facility_of(raw: u32) -> u16 {
    ((raw >> 16u32) & 0x1FFFu32) as u16
}

pub open spec fn code_of(raw: u32) -> u16 {
    (raw & 0xFFFFu32) as u16
}

/// Whether a status of this severity is a failure. Warnings count as failures exactly when
/// `warnings_are_errors` holds (the development setting); errors always do.
pub open spec fn is_failure(severity: Severity, warnings_are_errors: bool) -> bool {
    severity == Severity::Error || (warnings_are_errors && severity == Severity::Warning)
}

/// A failing status: its raw value is never zero.
#[derive(Debug, Clone, Copy, PartialEq, Eq, Structural)]
pub struct NtStatusError {
    status: i32,
}

impl NtStatusError {
    #[verifier::type_invariant]
    spec fn inv(self) -> bool {
        self.status != 0
    }

    /// The raw status this error carries.
    pub closed spec fn raw(self) -> i32 {
        self.status
    }

    /// The failing status; its raw value is never zero.
    pub fn status(&self) -> (r: NtStatus)
        ensures
            r.0 == self.raw(),
            r.0 != 0,
    {
        proof {
            use_type_invariant(self);
        }
        NtStatus(self.status)
    }
}

impl NtStatusError {
    /// The failure with raw value `status`, which must have error severity.
    pub fn from_u32(status: u32) -> (r: NtStatusError)
        requires
            severity_of(status) == Severity::Error,
        ensures
            raw_bits(r.raw()) == status,
    {
        proof {
            lemma_u32_i32_u32(status);
        }
        assert(status >> 30u32 < 4) by (bit_vector);
        assert(status >> 30u32 == 3 ==> (status as i32) != 0) by (bit_vector);
        NtStatusError { status: status as i32 }
    }
}

/// `STATUS_SUCCESS`.
pub const STATUS_SUCCESS: u32 = 0x0000_0000;

/// `STATUS_UNSUCCESSFUL`.
pub const STATUS_UNSUCCESSFUL: u32 = 0xC000_0001;

/// `STATUS_INVALID_PARAMETER`.
pub const STATUS_INVALID_PARAMETER: u32 = 0xC000_000D;

/// `STATUS_INVALID_DEVICE_REQUEST`.
pub const STATUS_INVALID_DEVICE_REQUEST: u32 = 0xC000_0010;

/// `STATUS_ACCESS_DENIED`.
pub const STATUS_ACCESS_DENIED: u32 = 0xC000_0022;

/// `STATUS_BUFFER_TOO_SMALL`.
pub const STATUS_BUFFER_TOO_SMALL: u32 = 0xC000_0023;

/// `STATUS_INSUFFICIENT_RESOURCES`.
pub const STATUS_INSUFFICIENT_RESOURCES: u32 = 0xC000_009A;

/// `STATUS_INTERNAL_ERROR`.
pub const STATUS_INTERNAL_ERROR: u32 = 0xC000_00E5;

/// Represents an `NTSTATUS` success/error value.
#[derive(Debug, Clone, Copy, PartialEq, Eq, Structural)]
pub struct NtStatus(pub i32);

impl NtStatus {
    /// The 32 raw bits of this status.
    pub open spec fn raw(self) -> u32 {
        raw_bits(self.0)
    }

    pub open spec fn spec_severity(self) -> Severity {
        severity_of(self.raw())
    }

    /// Packs the four fields into a status. The facility has 13 bits.
    pub fn new(custom: bool, severity: Severity, facility: u16, code: u16) -> (r: NtStatus)
        requires
            facility <= 0x1FFF,
        ensures
            r.raw() == pack_status(custom, severity, facility, code),
            r.spec_severity() == severity,
            custom_of(r.raw()) == custom,
            facility_of(r.raw()) == facility,
            code_of(r.raw()) == code,
    {
        let sev: u32 = severity.to_bits();
        let c: u32 = if custom {
            1
        } else {
            0
        };
        let status: u32 = (sev << 30u32) | (c << 29u32) | ((facility as u32) << 16u32) | (
        code as u32);
        proof {
            lemma_pack_fields(custom, severity, facility, code);
            lemma_u32_i32_u32(status);
        }
        NtStatus(status as i32)
    }

    /// Reinterprets the bits of `status`.
    pub fn from_u32(status: u32) -> (r: NtStatus)
        ensures
            r.raw() == status,
            r.0 == status as i32,
    {
        proof {
            lemma_u32_i32_u32(status);
        }
        NtStatus(status as i32)
    }

    /// The two top bits, as a severity.
    pub fn severity(self) -> (r: Severity)
        ensures
            r == self.spec_severity(),
    {
        let raw: u32 = self.0 as u32;
        let top: u32 = raw >> 30u32;
        assert(raw >> 30u32 < 4) by (bit_vector);
        match top {
            0 => Severity::Success,
            1 => Severity::Information,
            2 => Severity::Warning,
            _ => Severity::Error,
        }
    }

    /// Bit 29: whether the status is customer-defined.
    pub fn custom(self) -> (r: bool)
        ensures
            r == custom_of(self.raw()),
    {
        (self.0 as u32) & 0x2000_0000u32 != 0
    }

    /// Bits 28 to 16.
    pub fn facility(self) -> (r: u16)
        ensures
            r == facility_of(self.raw()),
            r <= 0x1FFF,
    {
        let raw: u32 = self.0 as u32;
        assert(((raw << 3u32) >> 19u32) == ((raw >> 16u32) & 0x1FFFu32)) by (bit_vector);
        assert(((raw >> 16u32) & 0x1FFFu32) <= 0x1FFF) by (bit_vector);
        ((raw << 3u32) >> 19u32) as u16
    }

    /// Bits 15 to 0.
    pub fn code(self) -> (r: u16)
        ensures
            r == code_of(self.raw()),
    {
        let v: i32 = self.0;
        assert((v as u16) == (((v as u32) & 0xFFFFu32) as u16)) by (bit_vector);
        self.0 as u16
    }

    /// Converts to a `Result` the way the platform does: errors fail, warnings pass.
    pub fn result(self) -> (r: Result<NtStatus, NtStatusError>)
        ensures
            match r {
                Ok(s) => s == self && !is_failure(self.spec_severity(), false),
                Err(e) => is_failure(self.spec_severity(), false) && e.raw() == self.0,
            },
    {
        self.result_with(false)
    }

    /// Converts to a `Result` with warnings escalated to errors, to surface latent faults
    /// during development.
    pub fn result_strict(self) -> (r: Result<NtStatus, NtStatusError>)
        ensures
            match r {
                Ok(s) => s == self && !is_failure(self.spec_severity(), true),
                Err(e) => is_failure(self.spec_severity(), true) && e.raw() == self.0,
            },
    {
        self.result_with(true)
    }

    fn result_with(self, warnings_are_errors: bool) -> (r: Result<NtStatus, NtStatusError>)
        ensures
            match r {
                Ok(s) => s == self && !is_failure(self.spec_severity(), warnings_are_errors),
                Err(e) => is_failure(self.spec_severity(), warnings_are_errors) && e.raw()
                    == self.0,
            },
    {
        let sev = self.severity();
        let fails = match sev {
            Severity::Error => true,
            Severity::Warning => warnings_are_errors,
            _ => false,
        };
        if fails {
            let v: i32 = self.0;
            assert((v as u32) >> 30u32 >= 2 ==> v != 0) by (bit_vector);
            Err(NtStatusError { status: self.0 })
        } else {
            Ok(self)
        }
    }
}

/// The sixteen hexadecimal digits, upper case.
pub open spec fn hex_digits() -> Seq<char> {
    seq!['0', '1', '2', '3', '4', '5', '6', '7', '8', '9', 'A', 'B', 'C', 'D', 'E', 'F']
}

/// The eight upper-case hexadecimal digits of `v`, most significant first.
pub open spec fn hex8(v: u32) -> Seq<char> {
    Seq::new(8, |i: int| hex_digits()[((v >> ((28 - 4 * i) as u32)) & 0xFu32) as int])
}

impl NtStatus {
    /// The status as eight upper-case hexadecimal digits, the way status codes are shown.
    pub fn to_hex_string(&self) -> (r: String)
        ensures
            r@ == hex8(self.raw()),
    {
        let digits = "0123456789ABCDEF";
        proof {
            reveal_strlit("0123456789ABCDEF");
        }
        assert(digits@ == hex_digits());
        let raw: u32 = self.0 as u32;
        let mut out = String::new();
        let mut i: u32 = 0;
        while i < 8
            invariant
                i <= 8,
                raw == self.raw(),
                digits@ == hex_digits(),
                out@ == hex8(raw).subrange(0, i as int),
            decreases 8 - i,
        {
            let shift: u32 = 28 - 4 * i;
            let d: u32 = (raw >> shift) & 0xFu32;
            assert((raw >> shift) & 0xFu32 < 16) by (bit_vector);
            let digit = digits.substring_char(d as usize, d as usize + 1);
            out.append(digit);
            assert(out@ =~= hex8(raw).subrange(0, i + 1));
            i = i + 1;
        }
        assert(out@ =~= hex8(raw));
        out
    }
}

impl From<NtStatus> for i32 {
    fn from(status: NtStatus) -> (r: i32) {
        status.0
    }
}

impl vstd::std_specs::convert::FromSpecImpl<NtStatus> for i32 {
    open spec fn obeys_from_spec() -> bool {
        true
    }

    open spec fn from_spec(status: NtStatus) -> i32 {
        status.0
    }
}

impl From<i32> for NtStatus {
    fn from(status: i32) -> (r: NtStatus) {
        NtStatus(status)
    }
}

impl vstd::std_specs::convert::FromSpecImpl<i32> for NtStatus {
    open spec fn obeys_from_spec() -> bool {
        true
    }

    open spec fn from_spec(status: i32) -> NtStatus {
        NtStatus(status)
    }
}

impl From<u32> for NtStatus {
    fn from(status: u32) -> (r: NtStatus) {
        NtStatus::from_u32(status)
    }
}

impl vstd::std_specs::convert::FromSpecImpl<u32> for NtStatus {
    open spec fn obeys_from_spec() -> bool {
        true
    }

    open spec fn from_spec(status: u32) -> NtStatus {
        NtStatus(status as i32)
    }
}

proof fn lemma_u32_i32_u32(x: u32)
    ensures
        raw_bits(x as i32) == x,
{
    assert(((x as i32) as u32) == x) by (bit_vector);
}

proof fn lemma_pack_fields(custom: bool, severity: Severity, facility: u16, code: u16)
    requires
        facility <= 0x1FFF,
    ensures
        severity_of(pack_status(custom, severity, facility, code)) == severity,
        custom_of(pack_status(custom, severity, facility, code)) == custom,
        facility_of(pack_status(custom, severity, facility, code)) == facility,
        code_of(pack_status(custom, severity, facility, code)) == code,
{
    let s = severity.bits();
    let c: u32 = if custom { 1 } else { 0 };
    let p = pack_status(custom, severity, facility, code);
    assert(p == (s << 30u32) | (c << 29u32) | ((facility as u32) << 16u32) | (code as u32));
    assert(((s << 30u32) | (c << 29u32) | ((facility as u32) << 16u32) | (code as u32)) >> 30u32
        == s) by (bit_vector)
        requires
            s < 4,
            c < 2,
            facility <= 0x1FFF,
    ;
    assert((((s << 30u32) | (c << 29u32) | ((facility as u32) << 16u32) | (code as u32))
        & 0x2000_0000u32 != 0) == (c == 1)) by (bit_vector)
        requires
            s < 4,
            c < 2,
            facility <= 0x1FFF,
    ;
    assert(((((s << 30u32) | (c << 29u32) | ((facility as u32) << 16u32) | (code as u32))
        >> 16u32) & 0x1FFFu32) as u16 == facility) by (bit_vector)
        requires
            s < 4,
            c < 2,
            facility <= 0x1FFF,
    ;
    assert((((s << 30u32) | (c << 29u32) | ((facility as u32) << 16u32) | (code as u32))
        & 0xFFFFu32) as u16 == code) by (bit_vector)
        requires
            s < 4,
            c < 2,
            facility <= 0x1FFF,
    ;
}

/// Splitting a raw status into its fields and packing them again gives back the raw value.
pub proof fn lemma_status_round_trip(v: u32)
    ensures
        pack_status(custom_of(v), severity_of(v), facility_of(v), code_of(v)) == v,
{
    let s = v >> 30u32;
    assert(s < 4) by (bit_vector)
        requires
            s == v >> 30u32,
    ;
    assert(severity_of(v).bits() == s);
    let c: u32 = if custom_of(v) { 1 } else { 0 };
    assert(c == (v >> 29u32) & 1u32) by (bit_vector)
        requires
            c == (if v & 0x2000_0000u32 != 0 { 1u32 } else { 0u32 }),
    ;
    let f = facility_of(v);
    let k = code_of(v);
    assert((s << 30u32) | (c << 29u32) | ((f as u32) << 16u32) | (k as u32) == v) by (bit_vector)
        requires
            s == v >> 30u32,
            c == (v >> 29u32) & 1u32,
            f == ((v >> 16u32) & 0x1FFFu32) as u16,
            k == (v & 0xFFFFu32) as u16,
    ;
}

/// Fields written by `new` are read back unchanged.
pub proof fn lemma_status_fields_preserved(
    custom: bool,
    severity: Severity,
    facility: u16,
    code: u16,
)
    requires
        facility <= 0x1FFF,
    ensures
        severity_of(pack_status(custom, severity, facility, code)) == severity,
        custom_of(pack_status(custom, severity, facility, code)) == custom,
        facility_of(pack_status(custom, severity, facility, code)) == facility,
        code_of(pack_status(custom, severity, facility, code)) == code,
{
    lemma_pack_fields(custom, severity, facility, code);
}

} // verus!
