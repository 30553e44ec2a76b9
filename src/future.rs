//! A one-shot handoff of a value from a producer (possibly on another
//! thread) to a consumer running in the event loop.
use std::sync::Arc;
use vstd::prelude::*;
use vstd::rwlock::{RwLock, RwLockPredicate};
use vstd::string::StringExecFns;

verus! {

#[verifier::external_type_specification]
#[verifier::external_body]
pub struct ExNotifier(rotor::Notifier);

/// Relies on rotor's `Notifier::wakeup`: sends a wakeup for the bound
/// machine to the loop; `true` when it was queued.
#[verifier::external_body]
fn notify_loop(notifier: &rotor::Notifier) -> (woke: bool) {
    notifier.wakeup().is_ok()
}

/// Relies on `Arc::strong_count`: how many handles share the slot now,
/// `a` among them.
#[verifier::external_body]
fn handles<T>(a: &Arc<T>) -> (n: usize)
    ensures
        n >= 1,
{
    Arc::strong_count(a)
}

/// Relies on `format!` with `Debug`: the debug form of `v`.
#[verifier::external_body]
fn debug_form<T: std::fmt::Debug>(v: &T) -> (shown: String) {
    format!("{:?}", v)
}

/// A capability to make the loop deliver a transition to a machine.
pub trait WakeHandle {
    /// What a wake answering `r` promises; a handle that promises nothing
    /// keeps the default.
    open spec fn wake_post(&self, r: bool) -> bool {
        true
    }

    /// Asks the loop to wake the machine; `true` when the request was taken.
    fn wake(&self) -> (r: bool)
        ensures
            self.wake_post(r),
    ;
}

impl WakeHandle for rotor::Notifier {
    fn wake(&self) -> bool {
        notify_loop(self)
    }
}

/// What the shared slot may hold: nothing yet, or a value that `ok` accepts.
#[verifier::reject_recursive_types(T)]
pub struct SlotInv<T> {
    pub ok: spec_fn(T) -> bool,
}

impl<T> RwLockPredicate<Option<T>> for SlotInv<T> {
    open spec fn inv(self, v: Option<T>) -> bool {
        v matches Some(x) ==> (self.ok)(x)
    }
}

type Slot<T> = Arc<RwLock<Option<T>, SlotInv<T>>>;

/// The reading side of a handoff.
#[verifier::reject_recursive_types(T)]
pub struct Future<T> {
    slot: Slot<T>,
}

/// The writing side of a handoff: turns the produced value with `convert`,
/// stores it and wakes the loop.
#[verifier::reject_recursive_types(O)]
pub struct FutureImpl<I, O, F: FnOnce(I) -> O, W: WakeHandle> {
    slot: Slot<O>,
    convert: F,
    notifier: W,
    marker: std::marker::PhantomData<I>,
}

/// Whether a put reached its reader: some handle besides the writer's
/// still shares the slot (`readers` counts them all) and the loop took the
/// wakeup.
pub open spec fn delivery_spec(readers: usize, woke: bool) -> bool {
    woke && readers > 1
}

/// Whether a put reached its reader, as `delivery_spec` states it.
pub fn delivery(readers: usize, woke: bool) -> (delivered: bool)
    ensures
        delivered == delivery_spec(readers, woke),
{
    woke && readers > 1
}

/// The values a handoff whose transform is `convert` may deliver.
pub open spec fn produced_by<I, O, F: FnOnce(I) -> O>(convert: F, o: O) -> bool {
    exists|i: I| convert.requires((i,)) && convert.ensures((i,), o)
}

impl<T> Future<T> {
    /// The values this future may deliver.
    pub closed spec fn accepts(&self, v: T) -> bool {
        (self.slot.pred().ok)(v)
    }

    /// Whether a value has been stored and not yet taken. Another thread
    /// may store one at any time, so the answer is only a snapshot.
    pub fn is_done(&self) -> (r: bool) {
        let handle = self.slot.acquire_read();
        let done = handle.borrow().is_some();
        handle.release_read();
        done
    }

    /// A description of the future for debugging: the stored value, or
    /// that it is still waiting for one.
    pub fn describe(&self) -> (shown: String)
        where T: std::fmt::Debug
        ensures
            shown@ == "Future(<Waiting>)"@
                || exists|d: Seq<char>| shown@ == "Future("@ + d + ")"@,
    {
        let handle = self.slot.acquire_read();
        let shown = match handle.borrow() {
            Some(v) => {
                let d = debug_form(v);
                let framed = "Future(".to_owned().concat(d.as_str()).concat(")");
                assert(framed@ == "Future("@ + d@ + ")"@);
                framed
            },
            None => "Future(<Waiting>)".to_owned(),
        };
        handle.release_read();
        shown
    }

    /// Takes the stored value, or hands the future back unchanged when
    /// nothing has been stored yet, so the call can be retried.
    pub fn consume(self) -> (r: Result<T, Self>)
        ensures
            match r {
                Ok(v) => self.accepts(v),
                Err(f) => f == self,
            },
    {
        let (content, handle) = self.slot.acquire_write();
        handle.release_write(None);
        match content {
            Some(v) => Ok(v),
            None => Err(self),
        }
    }
}

/// Something a `Future` can be made from.
pub trait MakeFuture<T> {
    /// Whether `f` is a future this source may make.
    spec fn makes(&self, f: &Future<T>) -> bool;

    fn make_future(&self) -> (f: Future<T>)
        ensures
            self.makes(&f),
    ;
}

impl<I, O, F: FnOnce(I) -> O, W: WakeHandle> FutureImpl<I, O, F, W> {
    /// The slot accepts exactly the values the transform can produce.
    #[verifier::type_invariant]
    spec fn wf(&self) -> bool {
        forall|o: O| #[trigger] (self.slot.pred().ok)(o) == produced_by(self.convert, o)
    }

    /// Whether `f` reads the slot this side writes, which holds only what
    /// the transform produces.
    pub closed spec fn feeds(&self, f: &Future<O>) -> bool {
        &&& f.slot == self.slot
        &&& forall|o: O| f.accepts(o) == produced_by(self.convert, o)
    }

    /// A reading side for this handoff.
    pub fn future(&self) -> (f: Future<O>)
        ensures
            self.feeds(&f),
    {
        proof {
            use_type_invariant(self);
        }
        let f = Future { slot: self.slot.clone() };
        assert(f.slot == self.slot);
        f
    }

    pub closed spec fn transform(&self) -> F {
        self.convert
    }

    /// The handle the loop is woken through.
    pub closed spec fn notifier(&self) -> W {
        self.notifier
    }

    /// An empty handoff whose values are produced by `fun` and announced
    /// through `notify`.
    pub fn new(fun: F, notify: W) -> (r: Self)
        ensures
            r.transform() == fun,
            r.notifier() == notify,
    {
        let inv = Ghost(SlotInv { ok: |o: O| produced_by(fun, o) });
        let slot = Arc::new(RwLock::new(None, inv));
        FutureImpl { slot, convert: fun, notifier: notify, marker: std::marker::PhantomData }
    }

    /// Converts `value`, stores the result and then wakes the loop, so a
    /// reader woken by it finds the value. Returns whether a reader still
    /// holds the future and the loop took the wakeup; the value is stored
    /// either way.
    pub fn put(self, value: I) -> (delivered: bool)
        requires
            self.transform().requires((value,)),
        ensures
            exists|readers: usize, woke: bool|
                #![trigger self.notifier().wake_post(woke), delivery_spec(readers, woke)]
                readers >= 1 && self.notifier().wake_post(woke) && delivered == delivery_spec(
                    readers,
                    woke,
                ),
    {
        proof {
            use_type_invariant(&self);
        }
        let ghost writer = self;
        let FutureImpl { slot, convert, notifier, marker: _ } = self;
        let out = convert(value);
        assert(produced_by(convert, out));
        let (_old, handle) = slot.acquire_write();
        handle.release_write(Some(out));
        let readers = handles(&slot);
        let woke = notifier.wake();
        let delivered = delivery(readers, woke);
        assert(writer.notifier() == notifier);
        assert(writer.notifier().wake_post(woke) && delivered == delivery_spec(readers, woke));
        delivered
    }
}

impl<I, O, F: FnOnce(I) -> O, W: WakeHandle> MakeFuture<O> for FutureImpl<I, O, F, W> {
    /// The future reads the slot this side writes.
    open spec fn makes(&self, f: &Future<O>) -> bool {
        self.feeds(f)
    }

    fn make_future(&self) -> Future<O> {
        self.future()
    }
}

/// An empty handoff announced through `notifier`, whose values are `fun`
/// of what the producer puts.
pub fn new<I, O, F: FnOnce(I) -> O, W: WakeHandle>(notifier: W, fun: F) -> (r: FutureImpl<I, O, F, W>)
    ensures
        r.transform() == fun,
        r.notifier() == notifier,
{
    FutureImpl::new(fun, notifier)
}

/// A future fed by a handoff delivers only what the handoff's transform
/// produces from some value put into it, never the raw value itself.
pub proof fn lemma_delivers_transformed<I, O, F: FnOnce(I) -> O, W: WakeHandle>(
    writer: &FutureImpl<I, O, F, W>,
    f: &Future<O>,
    v: O,
)
    requires
        writer.feeds(f),
        f.accepts(v),
    ensures
        exists|i: I| writer.transform().requires((i,)) && writer.transform().ensures((i,), v),
{
    assert(produced_by(writer.transform(), v));
}

} // verus!
