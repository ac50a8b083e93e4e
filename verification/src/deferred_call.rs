//! Software-triggered "soft interrupt" scheduling for bottom-half work.
//!
//! A capsule registers once at boot and receives a [`DeferredCallHandle`]:
//! an index into a fixed-size registry of pending flags. From any context —
//! including an interrupt handler — the capsule marks its slot pending with
//! [`DynamicDeferredCall::set`]. Whenever the kernel is not running a
//! process, it takes one scan pass over the registry: every slot pending at
//! the start of the pass fires exactly once, and its flag is cleared before
//! the client runs, so a client that re-arms itself from inside its own
//! callback is observed on the next pass — neither lost nor double-fired.
//! The mechanism never blocks and never recurses into process execution.

use vstd::prelude::*;

verus! {

/// Index of one client's slot in the deferred-call registry, returned at
//  registration and used to mark the slot pending.
#[derive(Clone, Copy, Debug, PartialEq, Eq, Structural)]
pub struct DeferredCallHandle {
    /// The slot index.
    pub index: usize,
}

/// The fixed-size registry of deferred-call clients: a pending flag per
/// registered slot.
pub struct DynamicDeferredCall {
    /// Pending flag for each slot; the vector's length is the registry's
    /// capacity, fixed at construction.
    pub pending: Vec<bool>,
    /// Slots `0..registered` have been handed out to clients.
    pub registered: usize,
}

/// The handles a scan pass over the flags `p` fires, considering slots
/// `0..n`: the pending indices, in increasing order, each exactly once.
pub open spec fn scan_result_up_to(p: Seq<bool>, n: int) -> Seq<DeferredCallHandle>
    decreases n,
{
    if n <= 0 {
        Seq::empty()
    } else {
        let rest = scan_result_up_to(p, n - 1);
        if p[n - 1] {
            rest.push(DeferredCallHandle { index: (n - 1) as usize })
        } else {
            rest
        }
    }
}

impl DynamicDeferredCall {
    /// Registered slots never exceed the registry's capacity, and a slot
    /// not yet handed out is never pending.
    pub open spec fn wf(&self) -> bool {
        &&& self.registered <= self.pending@.len()
        &&& forall|i: int|
            self.registered <= i < self.pending@.len() ==> !(#[trigger] self.pending@[i])
    }

    /// The registry's capacity, fixed at construction.
    pub open spec fn capacity(&self) -> int {
        self.pending@.len() as int
    }

    /// Whether `h` names a slot that has been handed out.
    pub open spec fn valid_handle(&self, h: DeferredCallHandle) -> bool {
        h.index < self.registered
    }

    /// Whether `h`'s slot is marked pending.
    pub open spec fn is_pending(&self, h: DeferredCallHandle) -> bool {
        0 <= h.index < self.pending@.len() && self.pending@[h.index as int]
    }

    /// The handles one scan pass fires from the current flags.
    pub open spec fn scan_result(&self) -> Seq<DeferredCallHandle> {
        scan_result_up_to(self.pending@, self.pending@.len() as int)
    }

    /// An empty registry with room for `capacity` clients.
    pub fn new(capacity: usize) -> (r: DynamicDeferredCall)
        ensures
            r.wf(),
            r.capacity() == capacity,
            r.registered == 0,
            forall|i: int| 0 <= i < capacity ==> !(#[trigger] r.pending@[i]),
    {
        let mut pending: Vec<bool> = Vec::new();
        let mut i: usize = 0;
        while i < capacity
            invariant
                i <= capacity,
                pending@.len() == i,
                forall|j: int| 0 <= j < i ==> !(#[trigger] pending@[j]),
            decreases capacity - i,
        {
            pending.push(false);
            i = i + 1;
        }
        DynamicDeferredCall { pending, registered: 0 }
    }

    /// Assign the next free slot to a client. Returns `None` when the
    /// registry is full — resource exhaustion, surfaced as a value; the
    /// registration simply does not happen.
    pub fn register(&mut self) -> (r: Option<DeferredCallHandle>)
        requires
            old(self).wf(),
        ensures
            final(self).wf(),
            final(self).capacity() == old(self).capacity(),
            final(self).pending@ == old(self).pending@,
            r matches Some(h) ==> {
                &&& old(self).registered < old(self).capacity()
                &&& h.index == old(self).registered
                &&& final(self).registered == old(self).registered + 1
                &&& !old(self).is_pending(h)
            },
            r is None ==> old(self).registered == old(self).capacity() && *final(self) == *old(
                self,
            ),
    {
        if self.registered < self.pending.len() {
            let h = DeferredCallHandle { index: self.registered };
            self.registered = self.registered + 1;
            Some(h)
        } else {
            None
        }
    }

    /// Mark `h`'s slot pending. Callable from any context, including the
    /// top half of an interrupt handler; the work happens on the kernel's
    /// next idle scan pass.
    pub fn set(&mut self, h: DeferredCallHandle)
        requires
            old(self).wf(),
            old(self).valid_handle(h),
        ensures
            final(self).wf(),
            final(self).registered == old(self).registered,
            final(self).pending@ == old(self).pending@.update(h.index as int, true),
            final(self).is_pending(h),
    {
        self.pending.set(h.index, true);
    }

    /// Whether some deferred call is outstanding; the kernel checks this
    /// before letting the core idle.
    pub fn has_pending(&self) -> (r: bool)
        ensures
            r == exists|i: int| 0 <= i < self.capacity() && (#[trigger] self.pending@[i]),
    {
        let n = self.pending.len();
        let mut i: usize = 0;
        while i < n
            invariant
                i <= n,
                n == self.pending@.len(),
                forall|j: int| 0 <= j < i ==> !(#[trigger] self.pending@[j]),
            decreases n - i,
        {
            if self.pending[i] {
                return true;
            }
            i = i + 1;
        }
        false
    }

    /// Take one scan pass: clear every pending flag and hand back the
    /// handles that were pending, in increasing slot order, each exactly
    /// once. The flags are cleared before any client runs, so a client that
    /// re-arms its slot during the pass is seen on the next pass.
    pub fn scan_pass(&mut self) -> (fired: Vec<DeferredCallHandle>)
        requires
            old(self).wf(),
        ensures
            final(self).wf(),
            final(self).capacity() == old(self).capacity(),
            final(self).registered == old(self).registered,
            forall|i: int| 0 <= i < final(self).capacity() ==> !(#[trigger] final(self).pending@[i]),
            fired@ == old(self).scan_result(),
            forall|k: int| 0 <= k < fired@.len() ==> old(self).valid_handle(#[trigger] fired@[k]),
    {
        let n = self.pending.len();
        let mut fired: Vec<DeferredCallHandle> = Vec::new();
        let mut i: usize = 0;
        while i < n
            invariant
                i <= n,
                n == self.pending@.len(),
                n == old(self).pending@.len(),
                old(self).wf(),
                self.registered == old(self).registered,
                forall|k: int|
                    0 <= k < fired@.len() ==> old(self).valid_handle(#[trigger] fired@[k]),
                forall|j: int| 0 <= j < i ==> !(#[trigger] self.pending@[j]),
                forall|j: int| i <= j < n ==> self.pending@[j] == old(self).pending@[j],
                fired@ == scan_result_up_to(old(self).pending@, i as int),
            decreases n - i,
        {
            if self.pending[i] {
                proof {
                    assert(old(self).pending@[i as int]);
                    assert(i < old(self).registered);
                }
                fired.push(DeferredCallHandle { index: i });
                self.pending.set(i, false);
            }
            i = i + 1;
        }
        fired
    }
}

/// A capsule that asked for bottom-half time. The kernel's idle loop hands
/// the registry back in so the client may legally re-arm itself — or any
/// other slot it owns — from inside its own callback.
pub trait DeferredCallClient {
    /// Run the bottom half for the slot `handle`. The pending flag was
    /// cleared before this call.
    fn call(&mut self, handle: DeferredCallHandle, caller: &mut DynamicDeferredCall)
        requires
            old(caller).wf(),
            old(caller).valid_handle(handle),
        ensures
            final(caller).wf(),
            final(caller).capacity() == old(caller).capacity(),
            final(caller).registered == old(caller).registered,
    ;
}

/// How many times `h` occurs in `s`.
pub open spec fn handle_count(s: Seq<DeferredCallHandle>, h: DeferredCallHandle) -> int
    decreases s.len(),
{
    if s.len() == 0 {
        0
    } else {
        handle_count(s.drop_last(), h) + if s.last() == h {
            1int
        } else {
            0int
        }
    }
}

proof fn lemma_scan_result_count_up_to(p: Seq<bool>, n: int, h: DeferredCallHandle)
    requires
        0 <= n <= p.len(),
        n <= usize::MAX,
    ensures
        handle_count(scan_result_up_to(p, n), h) == if h.index < n && p[h.index as int] {
            1int
        } else {
            0int
        },
    decreases n,
{
    if n > 0 {
        lemma_scan_result_count_up_to(p, n - 1, h);
        if p[n - 1] {
            let rest = scan_result_up_to(p, n - 1);
            let x = DeferredCallHandle { index: (n - 1) as usize };
            assert(scan_result_up_to(p, n) == rest.push(x));
            assert(rest.push(x).drop_last() =~= rest);
            assert(rest.push(x).last() == x);
            assert(handle_count(rest.push(x), h) == handle_count(rest, h) + if x == h {
                1int
            } else {
                0int
            });
            if h.index == n - 1 {
                assert(x == h);
                assert(handle_count(rest, h) == 0);
                assert(handle_count(scan_result_up_to(p, n), h) == 1);
            } else {
                assert(x != h);
                assert(handle_count(scan_result_up_to(p, n), h) == handle_count(rest, h));
            }
        } else {
            assert(scan_result_up_to(p, n) == scan_result_up_to(p, n - 1));
        }
    }
}

/// One scan pass fires a pending slot exactly once and a non-pending slot
/// not at all: the pass's fired list contains each handle `h` once exactly
/// when `h` was pending when the pass began.
pub proof fn lemma_scan_fires_exactly_once(dc: DynamicDeferredCall, h: DeferredCallHandle)
    requires
        h.index < dc.capacity(),
        dc.capacity() <= usize::MAX,
    ensures
        dc.is_pending(h) ==> handle_count(dc.scan_result(), h) == 1,
        !dc.is_pending(h) ==> handle_count(dc.scan_result(), h) == 0,
{
    lemma_scan_result_count_up_to(dc.pending@, dc.pending@.len() as int, h);
}

/// Re-arming survives a pass: a pass leaves every flag clear, and a `set`
/// made after the pass began — for example by a client from inside its own
/// callback — is pending again afterwards, so the next pass fires it once
/// more instead of losing it or firing it twice in one pass.
pub proof fn lemma_rearm_observed_next_pass(
    after_pass: DynamicDeferredCall,
    rearmed: DynamicDeferredCall,
    h: DeferredCallHandle,
)
    requires
        after_pass.wf(),
        after_pass.valid_handle(h),
        after_pass.capacity() <= usize::MAX,
        rearmed.pending@ == after_pass.pending@.update(h.index as int, true),
        rearmed.registered == after_pass.registered,
    ensures
        rearmed.is_pending(h),
        handle_count(rearmed.scan_result(), h) == 1,
{
    lemma_scan_result_count_up_to(rearmed.pending@, rearmed.pending@.len() as int, h);
}

} // verus!
