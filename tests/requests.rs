use km::ioctl::{IoControlCode, IoCtlAccess, IoCtlTransferType, TypedIoControlCode};
use km::mode::ProcessorMode;
use km::ntstatus::{NtStatus, STATUS_BUFFER_TOO_SMALL, STATUS_INVALID_PARAMETER};
use km::object::{Framework, FrameworkCall, OwnedWdfObject, RawWdfRequest};
use km::payload::{try_from_bytes, CastError, IoctlPayload};
use km::request::{
    accept_buffer, BufferKind, IoCtlError, Request, RetrieveOutputBufferError,
};
use km::strings::make_const_unicode_string;
use std::cell::Cell;

const REQUEST: usize = 0x1000;

fn request() -> Request {
    Request::new(OwnedWdfObject::<RawWdfRequest>::from_new_raw(REQUEST))
}

fn code() -> IoControlCode {
    IoControlCode::new_custom(0x8000, 0x800, IoCtlTransferType::Buffered, IoCtlAccess::any_access())
}

/// A four-byte value whose tag must be 0 or 1.
#[derive(Debug, Clone, Copy, PartialEq, Eq)]
enum Switch {
    Off,
    On,
}

impl IoctlPayload for Switch {
    fn size() -> usize {
        4
    }

    fn is_valid_bit_pattern(bytes: &[u8]) -> bool {
        u32::from_le_bytes([bytes[0], bytes[1], bytes[2], bytes[3]]) < 2
    }

    fn read_bits(bytes: &[u8]) -> Self {
        if bytes[0] == 0 {
            Switch::Off
        } else {
            Switch::On
        }
    }

    fn write_bits(&self) -> Vec<u8> {
        match self {
            Switch::Off => vec![0, 0, 0, 0],
            Switch::On => vec![1, 0, 0, 0],
        }
    }
}

#[test]
fn output_buffer_is_lent_once() {
    let mut req = request();
    let fetch = |_k: BufferKind, _n: usize| (NtStatus::from_u32(0), vec![0u8; 8]);
    let first = req.retrieve_output_buffer(4, &fetch).unwrap();
    assert!(req.is_output_buffer_borrowed());
    assert_eq!(
        req.retrieve_output_buffer(4, &fetch).unwrap_err(),
        RetrieveOutputBufferError::OutputBufferAlreadyBorrowed
    );
    req.return_output_buffer(first);
    assert!(!req.is_output_buffer_borrowed());
    let second = req.retrieve_output_buffer(4, &fetch).unwrap();
    assert_eq!(second.len(), 8);
}

#[test]
fn borrowed_output_is_not_asked_for() {
    let mut req = request();
    let asked = Cell::new(0u32);
    let fetch = |_k: BufferKind, _n: usize| {
        asked.set(asked.get() + 1);
        (NtStatus::from_u32(0), vec![0u8; 4])
    };
    let _held = req.retrieve_output_buffer(4, &fetch).unwrap();
    assert!(req.retrieve_output_buffer(4, &fetch).is_err());
    assert_eq!(asked.get(), 1);
}

#[test]
fn output_retrieval_failure_keeps_buffer_free() {
    let mut req = request();
    let fetch = |_k: BufferKind, _n: usize| (NtStatus::from_u32(STATUS_INVALID_PARAMETER), Vec::new());
    match req.retrieve_output_buffer(4, &fetch) {
        Err(RetrieveOutputBufferError::NtStatus { source }) => {
            assert_eq!(source.status().0 as u32, STATUS_INVALID_PARAMETER)
        }
        _ => panic!("expected a status error"),
    }
    assert!(!req.is_output_buffer_borrowed());
}

#[test]
fn input_buffer_errors() {
    let req = request();
    let failing = |_k: BufferKind, _n: usize| (NtStatus::from_u32(STATUS_INVALID_PARAMETER), Vec::new());
    let e = req.retrieve_input_buffer(4, &failing).err().unwrap();
    assert_eq!(e.status().0 as u32, STATUS_INVALID_PARAMETER);

    let short = |_k: BufferKind, _n: usize| (NtStatus::from_u32(0), vec![1u8, 2]);
    let e = req.retrieve_input_buffer(4, &short).err().unwrap();
    assert_eq!(e.status().0 as u32, STATUS_BUFFER_TOO_SMALL);

    let fine = |_k: BufferKind, _n: usize| (NtStatus::from_u32(0), vec![1u8, 2, 3, 4, 5]);
    let b = req.retrieve_input_buffer(4, &fine).ok().unwrap();
    assert_eq!(b.as_slice(), &[1u8, 2, 3, 4, 5][..]);
    let again = req.retrieve_input_buffer(4, &fine).ok().unwrap();
    assert_eq!(again.len(), 5);
}

#[test]
fn accept_buffer_outcomes() {
    assert_eq!(accept_buffer(NtStatus::from_u32(0), vec![9u8; 3], 3).unwrap(), vec![9u8; 3]);
    assert_eq!(
        accept_buffer(NtStatus::from_u32(0x8000_0005), vec![9u8; 3], 2).unwrap(),
        vec![9u8; 3]
    );
    let e = accept_buffer(NtStatus::from_u32(0), vec![9u8; 1], 3).unwrap_err();
    assert_eq!(e.status().0 as u32, STATUS_BUFFER_TOO_SMALL);
    let e = accept_buffer(NtStatus::from_u32(0xC000_0001), vec![9u8; 8], 3).unwrap_err();
    assert_eq!(e.status().0 as u32, 0xC000_0001);
}

#[test]
fn invalid_input_tag_is_a_cast_error() {
    let mut req = request();
    let mut fw = Framework::new();
    let output_asked = Cell::new(false);
    let fetch = |k: BufferKind, _n: usize| match k {
        BufferKind::Input => (NtStatus::from_u32(0), vec![7u8, 0, 0, 0]),
        BufferKind::Output => {
            output_asked.set(true);
            (NtStatus::from_u32(0), vec![0u8; 4])
        }
    };
    let typed: TypedIoControlCode<Switch, u32> = TypedIoControlCode::new(code());
    let r = req.handle_ioctl(&mut fw, typed, &fetch, |i: Switch, o: u32| (i, o));
    match r {
        Err(IoCtlError::Cast { output_buffer, inner }) => {
            assert!(!output_buffer);
            assert_eq!(inner, CastError::InvalidBitPattern);
        }
        _ => panic!("expected an input cast error"),
    }
    assert!(!output_asked.get());
    assert_eq!(fw.len(), 0);
    assert!(!req.is_output_buffer_borrowed());
}

#[test]
fn invalid_output_tag_is_a_cast_error() {
    let mut req = request();
    let mut fw = Framework::new();
    let fetch = |k: BufferKind, _n: usize| match k {
        BufferKind::Input => (NtStatus::from_u32(0), vec![1u8, 0, 0, 0]),
        BufferKind::Output => (NtStatus::from_u32(0), vec![5u8, 0, 0, 0]),
    };
    let typed: TypedIoControlCode<u32, Switch> = TypedIoControlCode::new(code());
    let r = req.handle_ioctl(&mut fw, typed, &fetch, |i: u32, o: Switch| (i, o));
    assert_eq!(
        r.err(),
        Some(IoCtlError::Cast { output_buffer: true, inner: CastError::InvalidBitPattern })
    );
    assert_eq!(fw.len(), 0);
    assert!(!req.is_output_buffer_borrowed());
}

#[test]
fn typed_handling_writes_output_and_size() {
    let mut req = request();
    let mut fw = Framework::new();
    let fetch = |k: BufferKind, _n: usize| match k {
        BufferKind::Input => (NtStatus::from_u32(0), vec![0x01u8, 0x02, 0x00, 0x00]),
        BufferKind::Output => (NtStatus::from_u32(0), vec![0u8; 4]),
    };
    let typed: TypedIoControlCode<u32, u32> = TypedIoControlCode::new(code());
    let r = req.handle_ioctl(&mut fw, typed, &fetch, |i: u32, _o: u32| (i + 1, i * 2));
    assert_eq!(r.ok(), Some(0x0202));
    assert!(!req.is_output_buffer_borrowed());
    let calls = fw.take_calls();
    assert_eq!(calls.len(), 2);
    match &calls[0] {
        FrameworkCall::WriteOutput { request, bytes } => {
            assert_eq!(*request, REQUEST);
            assert_eq!(bytes, &vec![0x02u8, 0x04, 0x00, 0x00]);
        }
        _ => panic!("expected the output to be stored"),
    }
    assert!(matches!(
        calls[1],
        FrameworkCall::SetInformation { request: REQUEST, information: 4 }
    ));
    assert_eq!(fw.len(), 0);
}

#[test]
fn typed_handling_without_buffers() {
    let mut req = request();
    let mut fw = Framework::new();
    let asked = Cell::new(0u32);
    let fetch = |_k: BufferKind, _n: usize| {
        asked.set(asked.get() + 1);
        (NtStatus::from_u32(0), Vec::new())
    };
    let typed: TypedIoControlCode<(), ()> = TypedIoControlCode::new(code());
    let r = req.handle_ioctl(&mut fw, typed, &fetch, |_i: (), o: ()| (42u8, o));
    assert_eq!(r.ok(), Some(42));
    assert_eq!(asked.get(), 0);
    assert_eq!(fw.len(), 0);
}

#[test]
fn typed_handling_input_too_long() {
    let mut req = request();
    let mut fw = Framework::new();
    let fetch = |_k: BufferKind, _n: usize| (NtStatus::from_u32(0), vec![0u8; 6]);
    let typed: TypedIoControlCode<u32, u32> = TypedIoControlCode::new(code());
    let r = req.handle_ioctl(&mut fw, typed, &fetch, |i: u32, o: u32| (i, o));
    assert_eq!(
        r.err(),
        Some(IoCtlError::Cast { output_buffer: false, inner: CastError::SizeMismatch })
    );
}

#[test]
fn typed_handling_output_borrowed_or_failing() {
    let mut req = request();
    let mut fw = Framework::new();
    let fetch = |_k: BufferKind, _n: usize| (NtStatus::from_u32(0), vec![0u8; 4]);
    let held = req.retrieve_output_buffer(4, &fetch).unwrap();
    let typed: TypedIoControlCode<u32, u32> = TypedIoControlCode::new(code());
    let r = req.handle_ioctl(&mut fw, typed, &fetch, |i: u32, o: u32| (i, o));
    assert_eq!(r.err(), Some(IoCtlError::OutputBufferAlreadyBorrowed));
    assert!(req.is_output_buffer_borrowed());
    req.return_output_buffer(held);

    let failing = |k: BufferKind, _n: usize| match k {
        BufferKind::Input => (NtStatus::from_u32(0), vec![0u8; 4]),
        BufferKind::Output => (NtStatus::from_u32(STATUS_INVALID_PARAMETER), Vec::new()),
    };
    let typed: TypedIoControlCode<u32, u32> = TypedIoControlCode::new(code());
    match req.handle_ioctl(&mut fw, typed, &failing, |i: u32, o: u32| (i, o)) {
        Err(IoCtlError::NtStatus { source }) => {
            assert_eq!(source.status().0 as u32, STATUS_INVALID_PARAMETER)
        }
        _ => panic!("expected a status error"),
    }
    assert_eq!(fw.len(), 0);
}

#[test]
fn commit_output_records_bytes() {
    let mut req = request();
    let mut fw = Framework::new();
    let fetch = |_k: BufferKind, _n: usize| (NtStatus::from_u32(0), vec![0u8; 6]);
    let mut out = req.retrieve_output_buffer(2, &fetch).unwrap();
    out.write_at(2, &[7u8, 8, 9]);
    assert_eq!(out.as_slice(), &[0u8, 0, 7, 8, 9, 0][..]);
    req.commit_output_buffer(&mut fw, out);
    assert!(!req.is_output_buffer_borrowed());
    let calls = fw.take_calls();
    match &calls[0] {
        FrameworkCall::WriteOutput { request, bytes } => {
            assert_eq!(*request, REQUEST);
            assert_eq!(bytes, &vec![0u8, 0, 7, 8, 9, 0]);
        }
        _ => panic!("expected the output to be stored"),
    }
}

#[test]
fn completion_and_mode() {
    let req = request();
    let mut fw = Framework::new();
    assert_eq!(req.requestor_mode(&|_h: usize| 1i8), ProcessorMode::UserMode);
    assert_eq!(req.requestor_mode(&|_h: usize| 0i8), ProcessorMode::KernelMode);
    req.set_information(&mut fw, 12);
    req.complete(&mut fw, NtStatus::from_u32(0));
    let calls = fw.take_calls();
    assert_eq!(calls.len(), 3);
    assert!(matches!(calls[0], FrameworkCall::SetInformation { request: REQUEST, information: 12 }));
    assert!(matches!(calls[1], FrameworkCall::Complete { request: REQUEST, status: NtStatus(0) }));
    assert!(matches!(calls[2], FrameworkCall::Dereference { object: REQUEST }));
}

#[test]
fn processor_mode_encoding() {
    assert_eq!(ProcessorMode::from_kprocessor_mode_unchecked(0), ProcessorMode::KernelMode);
    assert_eq!(ProcessorMode::from_kprocessor_mode_unchecked(1), ProcessorMode::UserMode);
    assert_eq!(ProcessorMode::KernelMode.to_kprocessor_mode(), 0);
    assert_eq!(ProcessorMode::UserMode.to_kprocessor_mode(), 1);
}

#[test]
fn payload_casts() {
    assert_eq!(try_from_bytes::<u32>(&[0x78, 0x56, 0x34, 0x12]), Ok(0x1234_5678));
    assert_eq!(try_from_bytes::<u32>(&[1, 2, 3]), Err(CastError::SizeMismatch));
    assert_eq!(try_from_bytes::<u8>(&[0xAB]), Ok(0xAB));
    assert_eq!(try_from_bytes::<()>(&[]), Ok(()));
    assert_eq!(try_from_bytes::<Switch>(&[1, 0, 0, 0]), Ok(Switch::On));
    assert_eq!(try_from_bytes::<Switch>(&[2, 0, 0, 0]), Err(CastError::InvalidBitPattern));
    assert_eq!(0xA1B2_C3D4u32.write_bits(), vec![0xD4, 0xC3, 0xB2, 0xA1]);
    assert_eq!(7u8.write_bits(), vec![7]);
}

#[test]
fn unicode_string_lengths() {
    let s = make_const_unicode_string(&[0x68, 0x69, 0]);
    assert_eq!(s.maximum_length, 6);
    assert_eq!(s.length, 4);
    assert_eq!(s.buffer, vec![0x68u16, 0x69, 0]);
    let empty = make_const_unicode_string(&[0]);
    assert_eq!(empty.length, 0);
    assert_eq!(empty.maximum_length, 2);
}
