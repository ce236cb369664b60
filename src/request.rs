//! One in-flight I/O control request: its input and output buffers, the single live borrow
//! of the output buffer, typed handling, and completion.
use crate::ioctl::TypedIoControlCode;
use crate::mode::{ProcessorMode, KERNEL_MODE, USER_MODE};
use crate::ntstatus::{is_failure, raw_bits, NtStatus, NtStatusError, STATUS_BUFFER_TOO_SMALL};
use crate::object::{
    AsWdfReference, Framework, FrameworkCall, OwnedWdfObject, RawWdfRequest, WdfObjectReference,
};
use crate::payload::{cast_outcome, try_from_bytes, CastError, IoctlPayload};
use vstd::prelude::*;

verus! {

/// Which of a request's two buffers the runtime is asked for.
#[derive(Debug, Clone, Copy, PartialEq, Eq, Structural)]
pub enum BufferKind {
    Input,
    Output,
}

/// Whether the runtime's answer `(status, bytes)` to a request for at least `min_len` bytes
/// yields a buffer: the status is no failure and the buffer is long enough.
pub open spec fn buffer_accepted(status: NtStatus, bytes: Seq<u8>, min_len: nat) -> bool {
    !is_failure(status.spec_severity(), false) && bytes.len() >= min_len
}

/// The raw status reported when an answer yields no buffer: the runtime's own failure, or
/// `STATUS_BUFFER_TOO_SMALL` for a buffer shorter than asked for.
pub open spec fn buffer_error_raw(status: NtStatus) -> u32 {
    if is_failure(status.spec_severity(), false) {
        status.raw()
    } else {
        STATUS_BUFFER_TOO_SMALL
    }
}

/// Turns the runtime's answer to a buffer retrieval into the buffer or the failure.
pub fn accept_buffer(status: NtStatus, bytes: Vec<u8>, min_len: usize) -> (r: Result<
    Vec<u8>,
    NtStatusError,
>)
    ensures
        match r {
            Ok(b) => buffer_accepted(status, bytes@, min_len as nat) && b@ == bytes@,
            Err(e) => !buffer_accepted(status, bytes@, min_len as nat) && raw_bits(e.raw())
                == buffer_error_raw(status),
        },
{
    match status.result() {
        Err(e) => Err(e),
        Ok(_) => {
            if bytes.len() < min_len {
                assert(STATUS_BUFFER_TOO_SMALL >> 30u32 == 3) by (bit_vector);
                Err(NtStatusError::from_u32(STATUS_BUFFER_TOO_SMALL))
            } else {
                Ok(bytes)
            }
        },
    }
}

/// A failure of [`Request::handle_ioctl`], as a plain value.
#[derive(Debug, Clone, Copy, PartialEq, Eq, Structural)]
pub enum IoctlFailure {
    AlreadyBorrowed,
    Status(u32),
    Cast { output_buffer: bool, inner: CastError },
}

/// An error of [`Request::handle_ioctl`].
#[derive(Debug, Clone, Copy, PartialEq, Eq, Structural)]
pub enum IoCtlError {
    /// The output buffer of the request is already borrowed.
    OutputBufferAlreadyBorrowed,
    /// The runtime failed to hand out a buffer.
    NtStatus { source: NtStatusError },
    /// A buffer's bytes are not a value of the expected type.
    Cast { output_buffer: bool, inner: CastError },
}

impl IoCtlError {
    /// This error as a plain value.
    pub open spec fn failure(self) -> IoctlFailure {
        match self {
            IoCtlError::OutputBufferAlreadyBorrowed => IoctlFailure::AlreadyBorrowed,
            IoCtlError::NtStatus { source } => IoctlFailure::Status(raw_bits(source.raw())),
            IoCtlError::Cast { output_buffer, inner } => IoctlFailure::Cast { output_buffer, inner },
        }
    }
}

/// What typed handling of a request does, given the runtime's answers for the input and the
/// output buffer (each asked for only when its type has bytes, the output buffer only when it
/// was not lent out and the input stage succeeded): `r` and the calls recorded from `before`
/// to `after` follow the first failing stage, or `body`'s result on the two values.
pub open spec fn ioctl_outcome<I, O, R, F, B>(
    fetch: &F,
    body: B,
    borrowed: bool,
    request: usize,
    before: Seq<FrameworkCall>,
    after: Seq<FrameworkCall>,
    r: Result<R, IoCtlError>,
    in_reply: (NtStatus, Vec<u8>),
    out_reply: (NtStatus, Vec<u8>),
) -> bool where
    I: IoctlPayload,
    O: IoctlPayload,
    F: Fn(BufferKind, usize) -> (NtStatus, Vec<u8>),
    B: FnOnce(I, O) -> (R, O),
 {
    &&& I::byte_size() > 0 ==> fetch.ensures(
        (BufferKind::Input, I::byte_size() as usize),
        in_reply,
    )
    &&& match input_stage::<I>((in_reply.0, in_reply.1@)) {
        Err(f) => failed_with(r, f) && after == before,
        Ok(iv) => {
            &&& (O::byte_size() > 0 && !borrowed) ==> fetch.ensures(
                (BufferKind::Output, O::byte_size() as usize),
                out_reply,
            )
            &&& match output_stage::<O>(borrowed, (out_reply.0, out_reply.1@)) {
                Err(f) => failed_with(r, f) && after == before,
                Ok(ov) => exists|ro: (R, O)|
                    #[trigger] body.ensures((iv, ov), ro) && r == Ok::<R, IoCtlError>(ro.0)
                        && ioctl_output_recorded::<O>(before, after, request, ro.1),
            }
        },
    }
}

/// Whether `r` is an error that is the failure `f`.
pub open spec fn failed_with<R>(r: Result<R, IoCtlError>, f: IoctlFailure) -> bool {
    match r {
        Err(e) => e.failure() == f,
        Ok(_) => false,
    }
}

/// An error of [`Request::retrieve_output_buffer`].
#[derive(Debug, Clone, Copy, PartialEq, Eq, Structural)]
pub enum RetrieveOutputBufferError {
    /// The output buffer of the request is already borrowed.
    OutputBufferAlreadyBorrowed,
    /// The runtime failed to hand out the buffer.
    NtStatus { source: NtStatusError },
}

/// The input stage of typed handling, given the runtime's answer for the input buffer (not
/// asked for when `I` has no bytes).
pub open spec fn input_stage<I: IoctlPayload>(reply: (NtStatus, Seq<u8>)) -> Result<
    I,
    IoctlFailure,
> {
    if I::byte_size() > 0 && !buffer_accepted(reply.0, reply.1, I::byte_size()) {
        Err(IoctlFailure::Status(buffer_error_raw(reply.0)))
    } else {
        match cast_outcome::<I>(
            if I::byte_size() > 0 {
                reply.1
            } else {
                Seq::empty()
            },
        ) {
            Ok(v) => Ok(v),
            Err(c) => Err(IoctlFailure::Cast { output_buffer: false, inner: c }),
        }
    }
}

/// The output stage of typed handling, given whether the output buffer was borrowed and the
/// runtime's answer for it (not asked for when borrowed or when `O` has no bytes).
pub open spec fn output_stage<O: IoctlPayload>(borrowed: bool, reply: (NtStatus, Seq<u8>)) -> Result<
    O,
    IoctlFailure,
> {
    if O::byte_size() > 0 && borrowed {
        Err(IoctlFailure::AlreadyBorrowed)
    } else if O::byte_size() > 0 && !buffer_accepted(reply.0, reply.1, O::byte_size()) {
        Err(IoctlFailure::Status(buffer_error_raw(reply.0)))
    } else {
        match cast_outcome::<O>(
            if O::byte_size() > 0 {
                reply.1
            } else {
                Seq::empty()
            },
        ) {
            Ok(v) => Ok(v),
            Err(c) => Err(IoctlFailure::Cast { output_buffer: true, inner: c }),
        }
    }
}

/// Whether `call` stores `bytes` in the output buffer of `request`.
pub open spec fn is_write_output(call: FrameworkCall, request: usize, bytes: Seq<u8>) -> bool {
    match call {
        FrameworkCall::WriteOutput { request: q, bytes: b } => q == request && b@ == bytes,
        _ => false,
    }
}

/// The calls typed handling records on success: the output value's bytes stored in the
/// output buffer of `request`, then its size reported; none when `O` has no bytes.
pub open spec fn ioctl_output_recorded<O: IoctlPayload>(
    before: Seq<FrameworkCall>,
    after: Seq<FrameworkCall>,
    request: usize,
    output: O,
) -> bool {
    if O::byte_size() > 0 {
        &&& after.len() == before.len() + 2
        &&& after.subrange(0, before.len() as int) == before
        &&& is_write_output(after[before.len() as int], request, O::to_bits(output))
        &&& after[before.len() + 1int] == FrameworkCall::SetInformation {
            request,
            information: O::byte_size() as u64,
        }
    } else {
        after == before
    }
}

/// An input buffer: a read-only copy of the request's input region.
#[derive(Debug)]
pub struct InputBuffer {
    bytes: Vec<u8>,
}

impl InputBuffer {
    pub closed spec fn view(&self) -> Seq<u8> {
        self.bytes@
    }

    pub fn as_slice(&self) -> (r: &[u8])
        ensures
            r@ == self.view(),
    {
        self.bytes.as_slice()
    }

    pub fn len(&self) -> (r: usize)
        ensures
            r == self.view().len(),
    {
        self.bytes.len()
    }
}

/// The output buffer of a request, lent out by [`Request::retrieve_output_buffer`]; while it is
/// lent, the request refuses to lend it again. It goes back through
/// [`Request::commit_output_buffer`] (its bytes are stored) or
/// [`Request::return_output_buffer`] (they are dropped).
#[derive(Debug)]
pub struct OutputBuffer {
    request: usize,
    bytes: Vec<u8>,
}

impl OutputBuffer {
    pub closed spec fn view(&self) -> Seq<u8> {
        self.bytes@
    }

    /// The handle of the request this buffer belongs to.
    pub closed spec fn request_handle(&self) -> usize {
        self.request
    }

    pub fn as_slice(&self) -> (r: &[u8])
        ensures
            r@ == self.view(),
    {
        self.bytes.as_slice()
    }

    pub fn len(&self) -> (r: usize)
        ensures
            r == self.view().len(),
    {
        self.bytes.len()
    }

    /// Overwrites the bytes from `offset` on with `data`.
    pub fn write_at(&mut self, offset: usize, data: &[u8])
        requires
            offset + data@.len() <= old(self).view().len(),
        ensures
            final(self).request_handle() == old(self).request_handle(),
            final(self).view() == old(self).view().subrange(0, offset as int) + data@
                + old(self).view().subrange(offset + data@.len(), old(self).view().len() as int),
    {
        let n: usize = self.bytes.len();
        let mut i: usize = 0;
        while i < data.len()
            invariant
                offset + data@.len() <= old(self).view().len(),
                n == old(self).view().len(),
                self.request == old(self).request,
                self.bytes@.len() == old(self).view().len(),
                i <= data@.len(),
                forall|k: int| 0 <= k < offset ==> self.bytes@[k] == old(self).view()[k],
                forall|k: int| 0 <= k < i ==> self.bytes@[offset + k] == data@[k],
                forall|k: int|
                    offset + i <= k < self.bytes@.len() ==> self.bytes@[k] == old(self).view()[k],
            decreases data@.len() - i,
        {
            self.bytes.set(offset + i, data[i]);
            i = i + 1;
        }
        let ghost before = old(self).view();
        assert(self.bytes@ =~= before.subrange(0, offset as int) + data@ + before.subrange(
            offset + data@.len(),
            before.len() as int,
        ));
    }
}

/// One in-flight I/O control request. It holds an owned reference to the runtime's request
/// object and the flag that tracks the single live borrow of its output buffer. Two values for
/// the same runtime request are not told apart: the runtime hands each request to one callback.
pub struct Request {
    obj: OwnedWdfObject<RawWdfRequest>,
    output_buffer_borrowed: bool,
}

impl Request {
    /// The runtime's handle of the request.
    pub closed spec fn handle(&self) -> usize {
        self.obj.handle()
    }

    /// Whether an output buffer of this request is lent out.
    pub closed spec fn output_borrowed(&self) -> bool {
        self.output_buffer_borrowed
    }

    /// A request delivered by the runtime, with its output buffer not lent out.
    pub fn new(obj: OwnedWdfObject<RawWdfRequest>) -> (r: Request)
        ensures
            r.handle() == obj.handle(),
            !r.output_borrowed(),
    {
        Request { obj, output_buffer_borrowed: false }
    }

    /// Whether an output buffer of this request is lent out.
    pub fn is_output_buffer_borrowed(&self) -> (r: bool)
        ensures
            r == self.output_borrowed(),
    {
        self.output_buffer_borrowed
    }

    /// Asks the runtime, through `fetch`, for the input buffer of at least `min_len` bytes.
    /// Input buffers are not tracked: several may coexist.
    pub fn retrieve_input_buffer<F>(&self, min_len: usize, fetch: &F) -> (r: Result<
        InputBuffer,
        NtStatusError,
    >) where F: Fn(BufferKind, usize) -> (NtStatus, Vec<u8>)
        requires
            fetch.requires((BufferKind::Input, min_len)),
        ensures
            exists|reply: (NtStatus, Vec<u8>)|
                #[trigger] fetch.ensures((BufferKind::Input, min_len), reply) && match r {
                    Ok(b) => buffer_accepted(reply.0, reply.1@, min_len as nat) && b.view()
                        == reply.1@,
                    Err(e) => !buffer_accepted(reply.0, reply.1@, min_len as nat) && raw_bits(
                        e.raw(),
                    ) == buffer_error_raw(reply.0),
                },
    {
        let reply = fetch(BufferKind::Input, min_len);
        let (status, bytes) = reply;
        match accept_buffer(status, bytes, min_len) {
            Ok(b) => Ok(InputBuffer { bytes: b }),
            Err(e) => Err(e),
        }
    }

    /// Lends out the output buffer of at least `min_len` bytes, asked from the runtime through
    /// `fetch`. Fails without asking while an earlier output buffer of this request is lent out.
    pub fn retrieve_output_buffer<F>(&mut self, min_len: usize, fetch: &F) -> (r: Result<
        OutputBuffer,
        RetrieveOutputBufferError,
    >) where F: Fn(BufferKind, usize) -> (NtStatus, Vec<u8>)
        requires
            fetch.requires((BufferKind::Output, min_len)),
        ensures
            final(self).handle() == old(self).handle(),
            final(self).output_borrowed() == (old(self).output_borrowed() || r.is_ok()),
            old(self).output_borrowed() ==> r == Err::<OutputBuffer, _>(
                RetrieveOutputBufferError::OutputBufferAlreadyBorrowed,
            ) && final(self).output_borrowed(),
            !old(self).output_borrowed() ==> exists|reply: (NtStatus, Vec<u8>)|
                #[trigger] fetch.ensures((BufferKind::Output, min_len), reply) && match r {
                    Ok(b) => buffer_accepted(reply.0, reply.1@, min_len as nat) && b.view()
                        == reply.1@ && b.request_handle() == old(self).handle() && final(self).output_borrowed(),
                    Err(RetrieveOutputBufferError::NtStatus { source }) => !buffer_accepted(
                        reply.0,
                        reply.1@,
                        min_len as nat,
                    ) && raw_bits(source.raw()) == buffer_error_raw(reply.0) && !final(self).output_borrowed(),
                    Err(RetrieveOutputBufferError::OutputBufferAlreadyBorrowed) => false,
                },
    {
        if self.output_buffer_borrowed {
            return Err(RetrieveOutputBufferError::OutputBufferAlreadyBorrowed);
        }
        let reply = fetch(BufferKind::Output, min_len);
        let (status, bytes) = reply;
        match accept_buffer(status, bytes, min_len) {
            Ok(b) => {
                self.output_buffer_borrowed = true;
                Ok(OutputBuffer { request: self.obj.as_ref().raw(), bytes: b })
            },
            Err(e) => Err(RetrieveOutputBufferError::NtStatus { source: e }),
        }
    }

    /// Takes back a lent output buffer and drops its bytes.
    pub fn return_output_buffer(&mut self, buffer: OutputBuffer)
        ensures
            final(self).handle() == old(self).handle(),
            final(self).output_borrowed() == (old(self).output_borrowed()
                && buffer.request_handle() != old(self).handle()),
    {
        if buffer.request == self.obj.as_ref().raw() {
            self.output_buffer_borrowed = false;
        }
    }

    /// Takes back a lent output buffer and records that its bytes are stored in the
    /// runtime's output region.
    pub fn commit_output_buffer(&mut self, framework: &mut Framework, buffer: OutputBuffer)
        ensures
            final(self).handle() == old(self).handle(),
            final(self).output_borrowed() == (old(self).output_borrowed()
                && buffer.request_handle() != old(self).handle()),
            final(framework).pending().len() == old(framework).pending().len() + 1,
            final(framework).pending().drop_last() == old(framework).pending(),
            is_write_output(
                final(framework).pending().last(),
                buffer.request_handle(),
                buffer.view(),
            ),
    {
        if buffer.request == self.obj.as_ref().raw() {
            self.output_buffer_borrowed = false;
        }
        let OutputBuffer { request, bytes } = buffer;
        framework.record(FrameworkCall::WriteOutput { request, bytes });
        assert(final(framework).pending().drop_last() =~= old(framework).pending());
    }

    /// Handles the request as one of type `ioctl`: reads the input as an `I` from the input
    /// buffer of exactly `I`'s size (not asked for when `I` has no bytes), views the output
    /// buffer of `O`'s size as an `O` (likewise), runs `body` on both, stores the `O` it hands
    /// back and reports `O`'s size as the bytes produced (only when `O` has bytes). Fails with the
    /// first of: a runtime failure or a cast failure of the input, then the output buffer already
    /// lent out, a runtime failure or a cast failure of the output. A failure records no call.
    pub fn handle_ioctl<I, O, R, F, B>(
        &mut self,
        framework: &mut Framework,
        _ioctl: TypedIoControlCode<I, O>,
        fetch: &F,
        body: B,
    ) -> (r: Result<R, IoCtlError>) where
        I: IoctlPayload,
        O: IoctlPayload,
        F: Fn(BufferKind, usize) -> (NtStatus, Vec<u8>),
        B: FnOnce(I, O) -> (R, O),

        requires
            forall|k: BufferKind, n: usize| #[trigger] fetch.requires((k, n)),
            forall|i: I, o: O| #[trigger] body.requires((i, o)),
        ensures
            final(self).handle() == old(self).handle(),
            final(self).output_borrowed() == old(self).output_borrowed(),
            exists|in_reply: (NtStatus, Vec<u8>), out_reply: (NtStatus, Vec<u8>)|
                #[trigger] ioctl_outcome::<I, O, R, F, B>(
                    fetch,
                    body,
                    old(self).output_borrowed(),
                    old(self).handle(),
                    old(framework).pending(),
                    final(framework).pending(),
                    r,
                    in_reply,
                    out_reply,
                ),
    {
        let in_size = I::size();
        let ghost borrowed = old(self).output_borrowed();
        let ghost request = old(self).handle();
        let ghost before = old(framework).pending();
        let ghost mut w_in: (NtStatus, Vec<u8>) = arbitrary();
        let ghost mut w_out: (NtStatus, Vec<u8>) = arbitrary();
        let input_bytes: Vec<u8> = if in_size > 0 {
            let res = self.retrieve_input_buffer(in_size, fetch);
            proof {
                w_in = choose|reply: (NtStatus, Vec<u8>)|
                    #[trigger] fetch.ensures((BufferKind::Input, in_size), reply) && match res {
                        Ok(b) => buffer_accepted(reply.0, reply.1@, in_size as nat) && b.view()
                            == reply.1@,
                        Err(e) => !buffer_accepted(reply.0, reply.1@, in_size as nat)
                            && raw_bits(e.raw()) == buffer_error_raw(reply.0),
                    };
            }
            match res {
                Ok(b) => b.bytes,
                Err(e) => {
                    let r = Err(IoCtlError::NtStatus { source: e });
                    assert(ioctl_outcome::<I, O, R, F, B>(
                        fetch,
                        body,
                        borrowed,
                        request,
                        before,
                        framework.pending(),
                        r,
                        w_in,
                        w_out,
                    ));
                    return r;
                },
            }
        } else {
            Vec::new()
        };
        assert(input_stage::<I>((w_in.0, w_in.1@)) == match cast_outcome::<I>(input_bytes@) {
            Ok(v) => Ok(v),
            Err(c) => Err(IoctlFailure::Cast { output_buffer: false, inner: c }),
        });
        let input = match try_from_bytes::<I>(input_bytes.as_slice()) {
            Ok(v) => v,
            Err(c) => {
                let r = Err(IoCtlError::Cast { output_buffer: false, inner: c });
                assert(ioctl_outcome::<I, O, R, F, B>(
                    fetch,
                    body,
                    borrowed,
                    request,
                    before,
                    framework.pending(),
                    r,
                    w_in,
                    w_out,
                ));
                return r;
            },
        };
        let out_size = O::size();
        if out_size > 0 {
            let res = self.retrieve_output_buffer(out_size, fetch);
            proof {
                if !borrowed {
                    w_out = choose|reply: (NtStatus, Vec<u8>)|
                        #[trigger] fetch.ensures((BufferKind::Output, out_size), reply)
                            && match res {
                            Ok(b) => buffer_accepted(reply.0, reply.1@, out_size as nat)
                                && b.view() == reply.1@ && b.request_handle() == request
                                && self.output_borrowed(),
                            Err(RetrieveOutputBufferError::NtStatus {
                                source,
                            }) => !buffer_accepted(reply.0, reply.1@, out_size as nat)
                                && raw_bits(source.raw()) == buffer_error_raw(reply.0)
                                && !self.output_borrowed(),
                            Err(RetrieveOutputBufferError::OutputBufferAlreadyBorrowed) => false,
                        };
                }
            }
            let mut out_buf = match res {
                Ok(b) => b,
                Err(RetrieveOutputBufferError::OutputBufferAlreadyBorrowed) => {
                    let r = Err(IoCtlError::OutputBufferAlreadyBorrowed);
                    assert(ioctl_outcome::<I, O, R, F, B>(
                        fetch,
                        body,
                        borrowed,
                        request,
                        before,
                        framework.pending(),
                        r,
                        w_in,
                        w_out,
                    ));
                    return r;
                },
                Err(RetrieveOutputBufferError::NtStatus { source }) => {
                    let r = Err(IoCtlError::NtStatus { source });
                    assert(ioctl_outcome::<I, O, R, F, B>(
                        fetch,
                        body,
                        borrowed,
                        request,
                        before,
                        framework.pending(),
                        r,
                        w_in,
                        w_out,
                    ));
                    return r;
                },
            };
            let output = match try_from_bytes::<O>(out_buf.as_slice()) {
                Ok(v) => v,
                Err(c) => {
                    self.return_output_buffer(out_buf);
                    let r = Err(IoCtlError::Cast { output_buffer: true, inner: c });
                    assert(ioctl_outcome::<I, O, R, F, B>(
                        fetch,
                        body,
                        borrowed,
                        request,
                        before,
                        framework.pending(),
                        r,
                        w_in,
                        w_out,
                    ));
                    return r;
                },
            };
            let ghost ov = output;
            assert(input_stage::<I>((w_in.0, w_in.1@)) == Ok::<I, IoctlFailure>(input));
            assert(output_stage::<O>(borrowed, (w_out.0, w_out.1@)) == Ok::<O, IoctlFailure>(
                output,
            ));
            let pair = body(input, output);
            let ghost ro = pair;
            let (res, out_val) = pair;
            let encoded = out_val.write_bits();
            out_buf.write_at(0, encoded.as_slice());
            self.commit_output_buffer(framework, out_buf);
            self.set_information(framework, out_size as u64);
            let r = Ok(res);
            proof {
                assert(out_buf.view() =~= O::to_bits(out_val));
                assert(framework.pending().subrange(0, before.len() as int) =~= before);
                assert(body.ensures((input, ov), ro));
                assert(ioctl_outcome::<I, O, R, F, B>(
                    fetch,
                    body,
                    borrowed,
                    request,
                    before,
                    framework.pending(),
                    r,
                    w_in,
                    w_out,
                ));
            }
            r
        } else {
            let empty: Vec<u8> = Vec::new();
            let output = match try_from_bytes::<O>(empty.as_slice()) {
                Ok(v) => v,
                Err(c) => {
                    let r = Err(IoCtlError::Cast { output_buffer: true, inner: c });
                    assert(ioctl_outcome::<I, O, R, F, B>(
                        fetch,
                        body,
                        borrowed,
                        request,
                        before,
                        framework.pending(),
                        r,
                        w_in,
                        w_out,
                    ));
                    return r;
                },
            };
            let ghost ov = output;
            assert(input_stage::<I>((w_in.0, w_in.1@)) == Ok::<I, IoctlFailure>(input));
            assert(output_stage::<O>(borrowed, (w_out.0, w_out.1@)) == Ok::<O, IoctlFailure>(
                output,
            ));
            let pair = body(input, output);
            let ghost ro = pair;
            let (res, out_val) = pair;
            let r = Ok(res);
            proof {
                assert(body.ensures((input, ov), ro));
                assert(r == Ok::<R, IoCtlError>(ro.0));
                assert(ioctl_output_recorded::<O>(before, framework.pending(), request, ro.1));
                assert(I::byte_size() > 0 ==> fetch.ensures(
                    (BufferKind::Input, I::byte_size() as usize),
                    w_in,
                ));
                assert(exists|ro2: (R, O)|
                    #[trigger] body.ensures((input, ov), ro2) && r == Ok::<R, IoCtlError>(ro2.0)
                        && ioctl_output_recorded::<O>(before, framework.pending(), request, ro2.1));
                assert(match output_stage::<O>(borrowed, (w_out.0, w_out.1@)) {
                    Err(f) => false,
                    Ok(ov2) => exists|ro2: (R, O)|
                        #[trigger] body.ensures((input, ov2), ro2) && r == Ok::<R, IoCtlError>(ro2.0)
                            && ioctl_output_recorded::<O>(before, framework.pending(), request, ro2.1),
                });
                assert(match input_stage::<I>((w_in.0, w_in.1@)) {
                    Err(f) => false,
                    Ok(iv) => match output_stage::<O>(borrowed, (w_out.0, w_out.1@)) {
                        Err(f) => false,
                        Ok(ov2) => exists|ro2: (R, O)|
                            #[trigger] body.ensures((iv, ov2), ro2) && r == Ok::<R, IoCtlError>(ro2.0)
                                && ioctl_output_recorded::<O>(before, framework.pending(), request, ro2.1),
                    }
                });
                assert(ioctl_outcome::<I, O, R, F, B>(
                    fetch,
                    body,
                    borrowed,
                    request,
                    before,
                    framework.pending(),
                    r,
                    w_in,
                    w_out,
                ));
            }
            r
        }
    }

    /// Reports the number of bytes written to the output buffer.
    pub fn set_information(&self, framework: &mut Framework, information: u64)
        ensures
            final(framework).pending() == old(framework).pending().push(
                FrameworkCall::SetInformation { request: self.handle(), information },
            ),
    {
        framework.record(
            FrameworkCall::SetInformation { request: self.obj.as_ref().raw(), information },
        );
    }

    /// Asks the runtime, through `query`, which processor mode the request came from. The
    /// runtime answers with one of the two modes only.
    pub fn requestor_mode<Q>(&self, query: &Q) -> (r: ProcessorMode) where Q: Fn(usize) -> i8
        requires
            query.requires((self.handle(),)),
            forall|h: usize, m: i8|
                #[trigger] query.ensures((h,), m) ==> m == KERNEL_MODE || m == USER_MODE,
        ensures
            exists|m: i8| #[trigger] query.ensures((self.handle(),), m) && r.raw() == m,
    {
        let m = query(self.obj.as_ref().raw());
        ProcessorMode::from_kprocessor_mode_unchecked(m)
    }

    /// Completes the request with `status`, and gives back the request's reference. The
    /// request is consumed: it cannot be completed twice.
    pub fn complete(self, framework: &mut Framework, status: NtStatus)
        ensures
            final(framework).pending() == old(framework).pending().push(
                FrameworkCall::Complete { request: self.handle(), status },
            ).push(FrameworkCall::Dereference { object: self.handle() }),
    {
        let request = self.obj.as_ref().raw();
        framework.record(FrameworkCall::Complete { request, status });
        self.obj.release(framework);
    }
}

impl AsWdfReference for Request {
    type ObjectType = RawWdfRequest;

    open spec fn wdf_handle(&self) -> usize {
        self.handle()
    }

    fn as_wdf_ref(&self) -> (r: WdfObjectReference<'_, RawWdfRequest>) {
        self.obj.as_ref()
    }
}

} // verus!
