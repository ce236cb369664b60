use km::ioctl::{
    IoControlCode, IoControlCodeError, IoCtlAccess, IoCtlTransferType, TypedIoControlCode,
};
use km::ntstatus::{
    NtStatus, NtStatusError, Severity, STATUS_ACCESS_DENIED, STATUS_BUFFER_TOO_SMALL,
    STATUS_INSUFFICIENT_RESOURCES, STATUS_INTERNAL_ERROR, STATUS_INVALID_DEVICE_REQUEST,
    STATUS_INVALID_PARAMETER, STATUS_SUCCESS, STATUS_UNSUCCESSFUL,
};

#[test]
fn status_zero_is_success() {
    let s = NtStatus::from_u32(0);
    assert_eq!(s.severity(), Severity::Success);
    assert_eq!(s.result(), Ok(s));
    assert_eq!(s.result_strict(), Ok(s));
}

#[test]
fn status_error_severity_fails() {
    for raw in [0xC000_0000u32, 0xC000_0001, 0xFFFF_FFFF, 0xDEAD_BEEF] {
        let s = NtStatus::from_u32(raw);
        assert_eq!(s.severity(), Severity::Error);
        let e = s.result().unwrap_err();
        assert_eq!(e.status().0 as u32, raw);
        assert_eq!(s.result_strict().unwrap_err().status(), s);
    }
}

#[test]
fn status_warning_depends_on_escalation() {
    let s = NtStatus::from_u32(0x8000_0005);
    assert_eq!(s.severity(), Severity::Warning);
    assert_eq!(s.result(), Ok(s));
    assert_eq!(s.result_strict().unwrap_err().status(), s);
}

#[test]
fn status_information_passes() {
    let s = NtStatus::from_u32(0x4000_0003);
    assert_eq!(s.severity(), Severity::Information);
    assert_eq!(s.result(), Ok(s));
    assert_eq!(s.result_strict(), Ok(s));
}

#[test]
fn status_new_packs_fields() {
    let s = NtStatus::new(true, Severity::Warning, 0x1FFF, 0xBEEF);
    assert_eq!(s.0 as u32, 0xBFFF_BEEF);
    assert!(s.custom());
    assert_eq!(s.severity(), Severity::Warning);
    assert_eq!(s.facility(), 0x1FFF);
    assert_eq!(s.code(), 0xBEEF);

    let t = NtStatus::new(false, Severity::Information, 0x0007, 0x0001);
    assert_eq!(t.0 as u32, 0x4007_0001);
    assert!(!t.custom());
    assert_eq!(t.facility(), 7);
    assert_eq!(t.code(), 1);
}

#[test]
fn status_fields_round_trip() {
    for raw in [0u32, 1, 0x2000_0000, 0x4007_0001, 0x8000_0005, 0xBFFF_BEEF, 0xC000_0022, 0xFFFF_FFFF] {
        let s = NtStatus::from_u32(raw);
        let packed = NtStatus::new(s.custom(), s.severity(), s.facility(), s.code());
        assert_eq!(packed, s);
    }
}

#[test]
fn status_error_constants() {
    assert_eq!(STATUS_SUCCESS, 0);
    let table = [
        (STATUS_ACCESS_DENIED, 0xC000_0022u32),
        (STATUS_BUFFER_TOO_SMALL, 0xC000_0023),
        (STATUS_INSUFFICIENT_RESOURCES, 0xC000_009A),
        (STATUS_INTERNAL_ERROR, 0xC000_00E5),
        (STATUS_INVALID_DEVICE_REQUEST, 0xC000_0010),
        (STATUS_INVALID_PARAMETER, 0xC000_000D),
        (STATUS_UNSUCCESSFUL, 0xC000_0001),
    ];
    for (c, v) in table {
        assert_eq!(c, v);
        let e = NtStatusError::from_u32(c);
        assert_eq!(e.status().0 as u32, v);
        assert_eq!(e.status().severity(), Severity::Error);
    }
}

#[test]
fn control_code_packs_fields() {
    let c = IoControlCode::new_custom(0x8000, 0x800, IoCtlTransferType::Buffered, IoCtlAccess::any_access());
    assert_eq!(c.0, 0x8000_2000);

    let access = IoCtlAccess::read_data().union(IoCtlAccess::write_data());
    let d = IoControlCode::new_custom(0xFFFF, 0xFFF, IoCtlTransferType::Neither, access);
    assert_eq!(d.0, 0xFFFF_FFFF);

    let e = IoControlCode::new_custom(0x9C40, 0x801, IoCtlTransferType::OutDirect, IoCtlAccess::read_data());
    assert_eq!(e.0, (0x9C40 << 16) | (1 << 14) | (0x801 << 2) | 2);
    assert_eq!(e.device_type(), 0x9C40);
    assert_eq!(e.function(), 0x801);
    assert_eq!(e.method(), IoCtlTransferType::OutDirect);
    assert_eq!(e.access(), IoCtlAccess::read_data());
}

#[test]
fn control_code_unpack_recovers_inputs() {
    let methods = [
        IoCtlTransferType::Buffered,
        IoCtlTransferType::InDirect,
        IoCtlTransferType::OutDirect,
        IoCtlTransferType::Neither,
    ];
    for dt in [0x8000u16, 0x8001, 0xABCD, 0xFFFF] {
        for f in [0x800u16, 0x9AB, 0xFFF] {
            for m in methods {
                for bits in 0u8..4 {
                    let a = IoCtlAccess::from_bits_truncate(bits);
                    let c = IoControlCode::new_custom(dt, f, m, a);
                    assert_eq!(c.device_type(), dt);
                    assert_eq!(c.function(), f);
                    assert_eq!(c.method(), m);
                    assert_eq!(c.access().bits(), bits);
                    assert_eq!(IoControlCode::try_new_custom(dt, f, m, a), Ok(c));
                }
            }
        }
    }
}

#[test]
fn control_code_rejects_reserved_values() {
    let m = IoCtlTransferType::Buffered;
    let a = IoCtlAccess::any_access();
    assert_eq!(
        IoControlCode::try_new_custom(0x1234, 0x800, m, a),
        Err(IoControlCodeError::ReservedDeviceType)
    );
    assert_eq!(
        IoControlCode::try_new_custom(0x8000, 0x100, m, a),
        Err(IoControlCodeError::ReservedFunction)
    );
    assert_eq!(
        IoControlCode::try_new_custom(0x8000, 0x1000, m, a),
        Err(IoControlCodeError::FunctionOutOfRange)
    );
    assert_eq!(
        IoControlCode::try_new_custom(0x7FFF, 0x7FF, m, a),
        Err(IoControlCodeError::ReservedDeviceType)
    );
}

#[test]
fn control_code_raw_round_trip() {
    for raw in [0u32, 0x8000_2000, 0x0022_2004, 0xFFFF_FFFF, 0x1234_5678] {
        let c = IoControlCode(raw);
        let packed = ((c.device_type() as u32) << 16)
            | ((c.access().bits() as u32) << 14)
            | ((c.function() as u32) << 2)
            | match c.method() {
                IoCtlTransferType::Buffered => 0,
                IoCtlTransferType::InDirect => 1,
                IoCtlTransferType::OutDirect => 2,
                IoCtlTransferType::Neither => 3,
            };
        assert_eq!(packed, raw);
    }
}

#[test]
fn access_flags() {
    assert_eq!(IoCtlAccess::any_access().bits(), 0);
    assert_eq!(IoCtlAccess::empty(), IoCtlAccess::any_access());
    assert_eq!(IoCtlAccess::read_data().bits(), 1);
    assert_eq!(IoCtlAccess::write_data().bits(), 2);
    assert_eq!(IoCtlAccess::all().bits(), 3);
    assert_eq!(IoCtlAccess::from_bits_truncate(0xFE).bits(), 2);
    assert!(IoCtlAccess::all().contains(IoCtlAccess::read_data()));
    assert!(!IoCtlAccess::read_data().contains(IoCtlAccess::write_data()));
}

#[test]
fn typed_code_compares_by_value() {
    let c = IoControlCode::new_custom(0x8000, 0x800, IoCtlTransferType::Buffered, IoCtlAccess::any_access());
    let t: TypedIoControlCode<u32, u8> = TypedIoControlCode::new(c);
    assert!(t == c);
    assert!(c == t);
    assert!(t.eq_code(&c));
    let other = IoControlCode(c.0 + 4);
    assert!(t != other);
    assert!(!t.eq_code(&other));
}

#[test]
fn status_hex_text() {
    assert_eq!(NtStatus::from_u32(0xC000_0022).to_hex_string(), "C0000022");
    assert_eq!(NtStatus::from_u32(0x10).to_hex_string(), "00000010");
    assert_eq!(NtStatus::from_u32(0xABCD_EF09).to_hex_string(), "ABCDEF09");
}

#[test]
fn status_integer_conversions() {
    let s = NtStatus::from(-1i32);
    assert_eq!(s.0 as u32, 0xFFFF_FFFF);
    assert_eq!(i32::from(s), -1);
    assert_eq!(NtStatus::from(0xC000_0001u32), NtStatus::from_u32(0xC000_0001));
}
