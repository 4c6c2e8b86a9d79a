//! Wrappers that own one object of the native side, known only by its handle.
use vstd::prelude::*;

verus! {

/// Address of an object that the native side owns.
pub type RawHandle = usize;

/// How many times `h` stands in `log`.
pub open spec fn times_in(log: Seq<RawHandle>, h: RawHandle) -> nat
    decreases log.len(),
{
    if log.len() == 0 {
        0
    } else {
        times_in(log.drop_last(), h) + if log.last() == h {
            1nat
        } else {
            0nat
        }
    }
}

/// The native destructor calls made so far, in order, each by the handle that it released.
#[derive(Debug)]
pub struct ReleaseLog {
    released: Vec<RawHandle>,
}

impl View for ReleaseLog {
    type V = Seq<RawHandle>;

    closed spec fn view(&self) -> Seq<RawHandle> {
        self.released@
    }
}

impl ReleaseLog {
    /// A log of no release.
    pub fn new() -> (r: ReleaseLog)
        ensures
            r@ == Seq::<RawHandle>::empty(),
    {
        ReleaseLog { released: Vec::new() }
    }

    /// Notes that the native destructor ran on `h`.
    pub fn record(&mut self, h: RawHandle)
        ensures
            final(self)@ == old(self)@.push(h),
    {
        self.released.push(h);
    }

    /// How many times the native destructor ran on `h`.
    pub fn times_released(&self, h: RawHandle) -> (n: usize)
        ensures
            n == times_in(self@, h),
    {
        let mut n: usize = 0;
        let mut i: usize = 0;
        while i < self.released.len()
            invariant
                i <= self.released@.len(),
                n == times_in(self.released@.take(i as int), h),
                n <= i,
            decreases self.released@.len() - i,
        {
            assert(self.released@.take(i as int + 1).drop_last() == self.released@.take(i as int));
            if self.released[i] == h {
                n = n + 1;
            }
            i = i + 1;
        }
        assert(self.released@.take(i as int) == self.released@);
        n
    }
}

/// An owning wrapper of one native object. It cannot be copied: one wrapper, one object,
/// and one release of it, which consumes the wrapper.
pub trait Boxed: Sized {
    /// The handle of the object that the wrapper owns.
    spec fn handle(&self) -> RawHandle;

    /// Takes ownership of the object behind `h`, which a native factory returned.
    fn from_raw(h: RawHandle) -> (r: Self)
        ensures
            r.handle() == h,
    ;

    /// Gives up ownership without releasing: the object is the native side's again.
    fn into_raw(self) -> (r: RawHandle)
        ensures
            r == self.handle(),
    ;

    /// Lends the handle to a call that only reads the object.
    fn as_raw(&self) -> (r: RawHandle)
        ensures
            r == self.handle(),
    ;

    /// Lends the handle to a call that may change the object.
    fn as_raw_mut(&mut self) -> (r: RawHandle)
        ensures
            r == old(self).handle(),
            final(self).handle() == old(self).handle(),
    ;

    /// Ends the wrapper's life: the native destructor runs on its handle.
    fn release(self, log: &mut ReleaseLog)
        ensures
            final(log)@ == old(log)@.push(self.handle()),
    {
        let h = self.into_raw();
        log.record(h);
    }
}

/// Over a wrapper's life the native destructor runs on its object exactly once. Lending the
/// handle, however often, leaves the log alone; the release consumes the wrapper and adds
/// its handle once. So a handle that the log did not hold is there once after the release.
pub proof fn single_release<T: Boxed>(w: T, before: Seq<RawHandle>, after: Seq<RawHandle>)
    requires
        times_in(before, w.handle()) == 0,
        after == before.push(w.handle()),
    ensures
        times_in(after, w.handle()) == 1,
{
    assert(after.drop_last() == before);
}

} // verus!
