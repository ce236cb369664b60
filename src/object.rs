//! Handles to framework objects: borrowed references, owned references that hold one count
//! of the runtime's reference count, and the journal of calls the runtime is owed.
use crate::ntstatus::NtStatus;
use core::marker::PhantomData;
use vstd::prelude::*;

verus! {

/// Kind tag of an object whose concrete kind is not known to the type ("any object").
pub struct RawWdfObject;

/// Kind tag of a device object.
pub struct RawWdfDevice;

/// Kind tag of a driver object.
pub struct RawWdfDriver;

/// Kind tag of an I/O queue object.
pub struct RawWdfQueue;

/// Kind tag of a request object.
pub struct RawWdfRequest;

/// Kind tag of a file object.
pub struct RawWdfFileObject;

/// A call this layer makes into the framework runtime that needs no answer. The calls are
/// collected in a [`Framework`] journal, in order, and handed to the runtime by the host.
#[derive(Debug)]
pub enum FrameworkCall {
    /// Increment the reference count of `object`.
    Reference { object: usize },
    /// Decrement the reference count of `object`; the runtime frees it when the count
    /// reaches zero.
    Dereference { object: usize },
    /// Store `bytes` at the start of the output buffer of `request`.
    WriteOutput { request: usize, bytes: Vec<u8> },
    /// Report `information` bytes produced by `request`.
    SetInformation { request: usize, information: u64 },
    /// Complete `request` with final `status`.
    Complete { request: usize, status: NtStatus },
}

/// How much a call changes the reference count of `object`.
pub open spec fn reference_delta(call: FrameworkCall, object: usize) -> int {
    match call {
        FrameworkCall::Reference { object: o } => if o == object {
            1int
        } else {
            0int
        },
        FrameworkCall::Dereference { object: o } => if o == object {
            -1int
        } else {
            0int
        },
        _ => 0int,
    }
}

/// The net change of the reference count of `object` made by a sequence of calls.
pub open spec fn net_references(calls: Seq<FrameworkCall>, object: usize) -> int
    decreases calls.len(),
{
    if calls.len() == 0 {
        0
    } else {
        net_references(calls.drop_last(), object) + reference_delta(calls.last(), object)
    }
}

/// The journal of calls owed to the runtime, oldest first.
pub struct Framework {
    calls: Vec<FrameworkCall>,
}

impl Framework {
    /// The calls recorded and not yet taken, oldest first.
    pub closed spec fn pending(&self) -> Seq<FrameworkCall> {
        self.calls@
    }

    /// An empty journal.
    pub fn new() -> (r: Framework)
        ensures
            r.pending() == Seq::<FrameworkCall>::empty(),
    {
        Framework { calls: Vec::new() }
    }

    /// Appends one call.
    pub(crate) fn record(&mut self, call: FrameworkCall)
        ensures
            final(self).pending() == old(self).pending().push(call),
    {
        self.calls.push(call);
    }

    /// The number of calls not yet taken.
    pub fn len(&self) -> (r: usize)
        ensures
            r == self.pending().len(),
    {
        self.calls.len()
    }

    /// Hands out the recorded calls, oldest first, and empties the journal.
    pub fn take_calls(&mut self) -> (r: Vec<FrameworkCall>)
        ensures
            r@ == old(self).pending(),
            final(self).pending() == Seq::<FrameworkCall>::empty(),
    {
        let mut taken: Vec<FrameworkCall> = Vec::new();
        std::mem::swap(&mut taken, &mut self.calls);
        taken
    }
}

/// A borrowed, non-owning reference to a framework object of kind `T`, valid for the scope
/// `'a` in which the runtime handed it out. It never changes the reference count.
pub struct WdfObjectReference<'a, T> {
    handle: usize,
    _kind: PhantomData<&'a T>,
}

impl<'a, T> Clone for WdfObjectReference<'a, T> {
    fn clone(&self) -> (r: Self)
        ensures
            r.handle() == self.handle(),
    {
        WdfObjectReference { handle: self.handle, _kind: PhantomData }
    }
}

impl<'a, T> Copy for WdfObjectReference<'a, T> {

}

impl<'a, T> WdfObjectReference<'a, T> {
    /// The runtime's opaque handle of the object.
    pub closed spec fn handle(&self) -> usize {
        self.handle
    }

    /// Wraps a handle the runtime passed in.
    pub fn from_raw(handle: usize) -> (r: WdfObjectReference<'a, T>)
        ensures
            r.handle() == handle,
    {
        WdfObjectReference { handle, _kind: PhantomData }
    }

    /// The runtime's opaque handle of the object.
    pub fn raw(&self) -> (r: usize)
        ensures
            r == self.handle(),
    {
        self.handle
    }

    /// Takes one count of the object's reference count and returns it as an owned reference.
    pub fn to_owned(&self, framework: &mut Framework) -> (r: OwnedWdfObject<T>)
        ensures
            r.handle() == self.handle(),
            final(framework).pending() == old(framework).pending().push(
                FrameworkCall::Reference { object: self.handle() },
            ),
    {
        framework.record(FrameworkCall::Reference { object: self.handle });
        OwnedWdfObject { handle: self.handle, _kind: PhantomData }
    }

    /// The same object as one of unknown kind.
    pub fn upcast(&self) -> (r: WdfObjectReference<'a, RawWdfObject>)
        ensures
            r.handle() == self.handle(),
    {
        WdfObjectReference { handle: self.handle, _kind: PhantomData }
    }
}

impl<'a> WdfObjectReference<'a, RawWdfObject> {
    /// The same object as one of kind `U`. Nothing checks the kind: the caller must know that
    /// the object truly is of kind `U`, and operations of the wrong kind misbehave in the
    /// runtime.
    pub fn downcast<U>(&self) -> (r: WdfObjectReference<'a, U>)
        ensures
            r.handle() == self.handle(),
    {
        WdfObjectReference { handle: self.handle, _kind: PhantomData }
    }
}

/// An owned reference to a framework object of kind `T`: it stands for exactly one
/// outstanding count of the runtime's reference count, given back by [`OwnedWdfObject::release`].
pub struct OwnedWdfObject<T> {
    handle: usize,
    _kind: PhantomData<T>,
}

impl<T> OwnedWdfObject<T> {
    /// The runtime's opaque handle of the object.
    pub closed spec fn handle(&self) -> usize {
        self.handle
    }

    /// Takes ownership of a handle a creation call just returned; that call already counted
    /// it, so no increment is made.
    pub fn from_new_raw(handle: usize) -> (r: OwnedWdfObject<T>)
        ensures
            r.handle() == handle,
    {
        OwnedWdfObject { handle, _kind: PhantomData }
    }

    /// A borrowed reference to the object, valid while this owned reference lives.
    pub fn as_ref(&self) -> (r: WdfObjectReference<'_, T>)
        ensures
            r.handle() == self.handle(),
    {
        WdfObjectReference { handle: self.handle, _kind: PhantomData }
    }

    /// A second, independent owned reference: takes one more count.
    pub fn clone(&self, framework: &mut Framework) -> (r: OwnedWdfObject<T>)
        ensures
            r.handle() == self.handle(),
            final(framework).pending() == old(framework).pending().push(
                FrameworkCall::Reference { object: self.handle() },
            ),
    {
        self.as_ref().to_owned(framework)
    }

    /// Gives the count back: the runtime frees the object when its count reaches zero.
    pub fn release(self, framework: &mut Framework)
        ensures
            final(framework).pending() == old(framework).pending().push(
                FrameworkCall::Dereference { object: self.handle() },
            ),
    {
        framework.record(FrameworkCall::Dereference { object: self.handle });
    }
}

/// Types that hold a reference to a framework object.
pub trait AsWdfReference {
    type ObjectType;

    /// The runtime's opaque handle of the object.
    spec fn wdf_handle(&self) -> usize;

    fn as_wdf_ref(&self) -> (r: WdfObjectReference<'_, Self::ObjectType>)
        ensures
            r.handle() == self.wdf_handle(),
    ;
}

impl<'a, T> AsWdfReference for WdfObjectReference<'a, T> {
    type ObjectType = T;

    open spec fn wdf_handle(&self) -> usize {
        self.handle()
    }

    fn as_wdf_ref(&self) -> (r: WdfObjectReference<'_, T>) {
        WdfObjectReference { handle: self.handle, _kind: PhantomData }
    }
}

impl<T> AsWdfReference for OwnedWdfObject<T> {
    type ObjectType = T;

    open spec fn wdf_handle(&self) -> usize {
        self.handle()
    }

    fn as_wdf_ref(&self) -> (r: WdfObjectReference<'_, T>) {
        self.as_ref()
    }
}

/// A device object.
pub struct Device(OwnedWdfObject<RawWdfDevice>);

/// A driver object.
pub struct Driver(OwnedWdfObject<RawWdfDriver>);

/// An I/O queue object.
pub struct IoQueue(OwnedWdfObject<RawWdfQueue>);

impl Device {
    pub closed spec fn handle(&self) -> usize {
        self.0.handle()
    }

    /// The device a creation call or lookup handed over; the caller vouches that the handle is
    /// a device.
    pub fn new(handle: OwnedWdfObject<RawWdfDevice>) -> (r: Device)
        ensures
            r.handle() == handle.handle(),
    {
        Device(handle)
    }

    /// A second owned reference to the device: takes one more count.
    pub fn clone(&self, framework: &mut Framework) -> (r: Device)
        ensures
            r.handle() == self.handle(),
            final(framework).pending() == old(framework).pending().push(
                FrameworkCall::Reference { object: self.handle() },
            ),
    {
        Device(self.0.clone(framework))
    }

    /// Gives the device's count back.
    pub fn release(self, framework: &mut Framework)
        ensures
            final(framework).pending() == old(framework).pending().push(
                FrameworkCall::Dereference { object: self.handle() },
            ),
    {
        self.0.release(framework);
    }
}

impl Driver {
    pub closed spec fn handle(&self) -> usize {
        self.0.handle()
    }

    /// The driver behind a borrowed reference, taking one count of it.
    pub fn from_ref(raw: WdfObjectReference<'_, RawWdfDriver>, framework: &mut Framework) -> (r:
        Driver)
        ensures
            r.handle() == raw.handle(),
            final(framework).pending() == old(framework).pending().push(
                FrameworkCall::Reference { object: raw.handle() },
            ),
    {
        Driver(raw.to_owned(framework))
    }

    /// Gives the driver's count back.
    pub fn release(self, framework: &mut Framework)
        ensures
            final(framework).pending() == old(framework).pending().push(
                FrameworkCall::Dereference { object: self.handle() },
            ),
    {
        self.0.release(framework);
    }
}

impl IoQueue {
    pub closed spec fn handle(&self) -> usize {
        self.0.handle()
    }

    /// The queue a creation call handed over.
    pub fn new(handle: OwnedWdfObject<RawWdfQueue>) -> (r: IoQueue)
        ensures
            r.handle() == handle.handle(),
    {
        IoQueue(handle)
    }

    /// The device the queue belongs to, as the runtime reports it through `query`, taking one
    /// count of it.
    pub fn device<Q>(&self, framework: &mut Framework, query: &Q) -> (r: Device) where
        Q: Fn(usize) -> usize,

        requires
            query.requires((self.handle(),)),
        ensures
            exists|d: usize|
                #[trigger] query.ensures((self.handle(),), d) && r.handle() == d && final(framework).pending() == old(framework).pending().push(FrameworkCall::Reference { object: d }),
    {
        let d = query(self.0.as_ref().raw());
        let device: WdfObjectReference<'_, RawWdfDevice> = WdfObjectReference::from_raw(d);
        Device(device.to_owned(framework))
    }

    /// A second owned reference to the queue: takes one more count.
    pub fn clone(&self, framework: &mut Framework) -> (r: IoQueue)
        ensures
            r.handle() == self.handle(),
            final(framework).pending() == old(framework).pending().push(
                FrameworkCall::Reference { object: self.handle() },
            ),
    {
        IoQueue(self.0.clone(framework))
    }

    /// Gives the queue's count back.
    pub fn release(self, framework: &mut Framework)
        ensures
            final(framework).pending() == old(framework).pending().push(
                FrameworkCall::Dereference { object: self.handle() },
            ),
    {
        self.0.release(framework);
    }
}

impl AsWdfReference for Device {
    type ObjectType = RawWdfDevice;

    open spec fn wdf_handle(&self) -> usize {
        self.handle()
    }

    fn as_wdf_ref(&self) -> (r: WdfObjectReference<'_, RawWdfDevice>) {
        self.0.as_ref()
    }
}

impl AsWdfReference for Driver {
    type ObjectType = RawWdfDriver;

    open spec fn wdf_handle(&self) -> usize {
        self.handle()
    }

    fn as_wdf_ref(&self) -> (r: WdfObjectReference<'_, RawWdfDriver>) {
        self.0.as_ref()
    }
}

impl AsWdfReference for IoQueue {
    type ObjectType = RawWdfQueue;

    open spec fn wdf_handle(&self) -> usize {
        self.handle()
    }

    fn as_wdf_ref(&self) -> (r: WdfObjectReference<'_, RawWdfQueue>) {
        self.0.as_ref()
    }
}

/// Appending one call changes the net count of `object` by that call's own change.
pub proof fn lemma_net_references_push(calls: Seq<FrameworkCall>, call: FrameworkCall, object: usize)
    ensures
        net_references(calls.push(call), object) == net_references(calls, object)
            + reference_delta(call, object),
{
    assert(calls.push(call).drop_last() == calls);
}

/// Cloning an owned reference and releasing both clones changes the object's reference count
/// exactly as releasing the original alone: one increment for the clone, one decrement for each
/// release.
pub proof fn lemma_clone_release_net_effect(calls: Seq<FrameworkCall>, object: usize)
    ensures
        net_references(
            calls.push(FrameworkCall::Reference { object }).push(
                FrameworkCall::Dereference { object },
            ).push(FrameworkCall::Dereference { object }),
            object,
        ) == net_references(calls.push(FrameworkCall::Dereference { object }), object),
        net_references(calls.push(FrameworkCall::Dereference { object }), object)
            == net_references(calls, object) - 1,
{
    let r = FrameworkCall::Reference { object };
    let d = FrameworkCall::Dereference { object };
    lemma_net_references_push(calls, r, object);
    lemma_net_references_push(calls.push(r), d, object);
    lemma_net_references_push(calls.push(r).push(d), d, object);
    lemma_net_references_push(calls, d, object);
}

} // verus!
