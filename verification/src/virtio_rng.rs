//! VirtIO entropy-source capsule.
//!
//! Feeds randomness from a paravirtualized entropy device to kernel
//! clients. Buffers are handed to the device through a split virtqueue;
//! when the device has filled one, the capsule either delivers the bytes —
//! as 32-bit words — to its client or leaves them queued until somebody
//! asks. Delivery never happens inside the device's interrupt: the capsule
//! marks itself pending in the deferred-call registry and consumes the
//! buffer from the kernel's idle scan instead.

use vstd::prelude::*;

verus! {

use crate::deferred_call::{DeferredCallClient, DeferredCallHandle, DynamicDeferredCall};
use crate::returncode::ErrorCode;

/// What a randomness client answers when handed words: whether it wants
/// more.
#[derive(Clone, Copy, Debug, PartialEq, Eq, Structural)]
pub enum RngContinue {
    /// Deliver more randomness when available.
    More,
    /// Enough for now.
    Done,
}

/// A buffer lent to the device through the virtqueue.
pub struct VirtQueueBuffer {
    /// The bytes.
    pub buf: Vec<u8>,
    /// How many of them the device may use.
    pub len: usize,
    /// Whether the device may write into the buffer.
    pub device_writable: bool,
}

/// A split virtqueue, modeled by its two sides: chains the driver made
/// available to the device, and chains the device has used and returned.
/// The surrounding platform moves chains from the available side to the
/// used side when the virtual device acts; the capsule only sees the two
/// queues and its callback switch.
pub struct SplitVirtQueue {
    /// Buffer chains the device may pick up, oldest first.
    pub available: Vec<VirtQueueBuffer>,
    /// Buffer chains the device has filled, oldest first, each with the
    /// number of bytes written.
    pub used: Vec<(VirtQueueBuffer, usize)>,
    /// How many chains the queue can hold in all.
    pub capacity: usize,
    /// Whether used-buffer callbacks are delivered.
    pub used_callbacks_enabled: bool,
}

impl SplitVirtQueue {
    /// The queue never holds more chains than its capacity.
    pub open spec fn wf(&self) -> bool {
        self.available@.len() + self.used@.len() <= self.capacity
    }

    /// An empty queue with room for `capacity` chains.
    pub fn new(capacity: usize) -> (r: SplitVirtQueue)
        ensures
            r.wf(),
            r.available@.len() == 0,
            r.used@.len() == 0,
            r.capacity == capacity,
            !r.used_callbacks_enabled,
    {
        SplitVirtQueue {
            available: Vec::new(),
            used: Vec::new(),
            capacity,
            used_callbacks_enabled: false,
        }
    }

    /// Hand a buffer chain to the device. Fails with the out-of-memory
    /// code — and returns the chain — when the queue is full.
    pub fn provide_buffer_chain(&mut self, chain: VirtQueueBuffer) -> (r: Result<
        (),
        (VirtQueueBuffer, ErrorCode),
    >)
        requires
            old(self).wf(),
        ensures
            final(self).wf(),
            final(self).capacity == old(self).capacity,
            final(self).used@ == old(self).used@,
            final(self).used_callbacks_enabled == old(self).used_callbacks_enabled,
            old(self).available@.len() + old(self).used@.len() < old(self).capacity ==> (r is Ok
                && final(self).available@.len() == old(self).available@.len() + 1),
            old(self).available@.len() + old(self).used@.len() >= old(self).capacity ==> (
            r matches Err(e) && e.1 == ErrorCode::NOMEM && e.0 == chain && *final(self) == *old(
                self,
            )),
    {
        if self.available.len() >= self.capacity || self.capacity - self.available.len()
            <= self.used.len() {
            Err((chain, ErrorCode::NOMEM))
        } else {
            self.available.push(chain);
            Ok(())
        }
    }

    /// How many used chains wait to be consumed.
    pub fn used_descriptor_chains_count(&self) -> (r: usize)
        ensures
            r == self.used@.len(),
    {
        self.used.len()
    }

    /// Take the oldest used chain, with the device's byte count.
    pub fn pop_used_descriptor_chain(&mut self) -> (r: Option<(VirtQueueBuffer, usize)>)
        requires
            old(self).wf(),
        ensures
            final(self).wf(),
            final(self).capacity == old(self).capacity,
            final(self).available@ == old(self).available@,
            final(self).used_callbacks_enabled == old(self).used_callbacks_enabled,
            r is Some <==> old(self).used@.len() > 0,
            r is Some ==> r == Some(old(self).used@[0]) && final(self).used@ == old(
                self,
            ).used@.subrange(1, old(self).used@.len() as int),
            r is None ==> *final(self) == *old(self),
    {
        if self.used.len() > 0 {
            Some(self.used.remove(0))
        } else {
            None
        }
    }

    /// Let the device's used-buffer interrupts through.
    pub fn enable_used_callbacks(&mut self)
        ensures
            *final(self) == (SplitVirtQueue { used_callbacks_enabled: true, ..*old(self) }),
    {
        self.used_callbacks_enabled = true;
    }

    /// Silence the device's used-buffer interrupts; buffers stay queued.
    pub fn disable_used_callbacks(&mut self)
        ensures
            *final(self) == (SplitVirtQueue { used_callbacks_enabled: false, ..*old(self) }),
    {
        self.used_callbacks_enabled = false;
    }
}

/// Word `k` of a filled buffer, assembled least-significant byte first
/// from bytes `4k..4k+4`.
pub open spec fn le_word_at(b: Seq<u8>, k: int) -> u32 {
    (b[4 * k] as u32) | ((b[4 * k + 1] as u32) << 8) | ((b[4 * k + 2] as u32) << 16) | ((b[4 * k
        + 3] as u32) << 24)
}

/// The entropy-source capsule.
pub struct VirtIORng {
    /// The queue shared with the device.
    pub virtqueue: SplitVirtQueue,
    /// Sum of the byte capacities currently lent to the device.
    pub buffer_capacity: usize,
    /// Whether a client's request is outstanding.
    pub callback_pending: bool,
    /// This capsule's slot in the deferred-call registry.
    pub deferred_call_handle: Option<DeferredCallHandle>,
    /// Whether a client is registered to receive randomness.
    pub client_set: bool,
    /// Words delivered to the client by the latest callback; the
    /// surrounding platform forwards them.
    pub delivered: Vec<u32>,
}

impl VirtIORng {
    /// The capsule never misaccounts the queue.
    pub open spec fn wf(&self) -> bool {
        self.virtqueue.wf()
    }

    /// A fresh capsule around its virtqueue, with no capacity, no pending
    /// request and no client.
    pub fn new(virtqueue: SplitVirtQueue) -> (r: VirtIORng)
        ensures
            r.virtqueue == virtqueue,
            r.buffer_capacity == 0,
            !r.callback_pending,
            r.deferred_call_handle is None,
            !r.client_set,
    {
        VirtIORng {
            virtqueue,
            buffer_capacity: 0,
            callback_pending: false,
            deferred_call_handle: None,
            client_set: false,
            delivered: Vec::new(),
        }
    }

    /// Give the capsule its deferred-call slot, assigned at boot.
    pub fn set_deferred_call_handle(&mut self, handle: DeferredCallHandle)
        ensures
            *final(self) == (VirtIORng { deferred_call_handle: Some(handle), ..*old(self) }),
    {
        self.deferred_call_handle = Some(handle);
    }

    /// Mark that a randomness client is registered.
    pub fn set_client(&mut self)
        ensures
            *final(self) == (VirtIORng { client_set: true, ..*old(self) }),
    {
        self.client_set = true;
    }

    /// Lend a buffer to the device to be filled with entropy. Buffers of
    /// fewer than four bytes cannot yield a single word and are refused
    /// with the invalid-argument code; a full queue refuses with
    /// out-of-memory. On success the capsule's byte capacity grows by the
    /// buffer's length and the new capacity is returned.
    pub fn provide_buffer(&mut self, buf: Vec<u8>) -> (r: Result<usize, (Vec<u8>, ErrorCode)>)
        requires
            old(self).wf(),
            old(self).buffer_capacity + buf@.len() <= usize::MAX,
        ensures
            final(self).wf(),
            buf@.len() < 4 ==> (r matches Err(e) && e.1 == ErrorCode::INVAL && e.0@ == buf@
                && *final(self) == *old(self)),
            buf@.len() >= 4 && old(self).virtqueue.available@.len() + old(
                self,
            ).virtqueue.used@.len() >= old(self).virtqueue.capacity ==> (r matches Err(e) && e.1
                == ErrorCode::NOMEM && e.0@ == buf@ && *final(self) == *old(self)),
            buf@.len() >= 4 && old(self).virtqueue.available@.len() + old(
                self,
            ).virtqueue.used@.len() < old(self).virtqueue.capacity ==> (r matches Ok(cap) && cap
                == old(self).buffer_capacity + buf@.len() && final(self).buffer_capacity == cap),
    {
        let len = buf.len();
        if len < 4 {
            // less than one word of entropy can never complete a request:
            // refuse rather than strand the buffer
            return Err((buf, ErrorCode::INVAL));
        }
        let chain = VirtQueueBuffer { buf, len, device_writable: true };
        match self.virtqueue.provide_buffer_chain(chain) {
            Err((chain, e)) => {
                match e {
                    ErrorCode::NOMEM => Err((chain.buf, ErrorCode::NOMEM)),
                    _ => Err((chain.buf, e)),
                }
            },
            Ok(()) => {
                let cap = self.buffer_capacity + len;
                self.buffer_capacity = cap;
                Ok(cap)
            },
        }
    }

    /// Ask for randomness. Fails when no capacity or client is in place;
    /// a request while an earlier one is still outstanding is a
    /// conflicting operation and is refused busy. When the device has
    /// nothing ready yet, the request stays pending and the queue's
    /// callbacks are switched on so the completion arrives later — the
    /// off/disabled code tells the caller a callback, not a value, is
    /// coming. With data ready, the capsule marks its deferred-call slot
    /// pending and delivers from the idle scan. No error schedules a
    /// deferred call.
    pub fn get(&mut self, deferred_caller: &mut DynamicDeferredCall) -> (r: Result<(), ErrorCode>)
        requires
            old(self).wf(),
            old(deferred_caller).wf(),
            old(self).deferred_call_handle matches Some(h) ==> old(deferred_caller).valid_handle(
                h,
            ),
        ensures
            final(self).wf(),
            final(deferred_caller).wf(),
            final(deferred_caller).capacity() == old(deferred_caller).capacity(),
            final(deferred_caller).registered == old(deferred_caller).registered,
            old(self).buffer_capacity < 4 ==> r == Err::<(), ErrorCode>(ErrorCode::FAIL)
                && *final(self) == *old(self),
            old(self).buffer_capacity >= 4 && !old(self).client_set ==> r == Err::<
                (),
                ErrorCode,
            >(ErrorCode::FAIL) && *final(self) == *old(self),
            r is Err ==> *final(deferred_caller) == *old(deferred_caller),
            old(self).buffer_capacity >= 4 && old(self).client_set && old(self).callback_pending
                ==> r == Err::<(), ErrorCode>(ErrorCode::BUSY) && *final(self) == *old(self),
            old(self).buffer_capacity >= 4 && old(self).client_set && !old(self).callback_pending
                && old(self).virtqueue.used@.len() == 0 ==> (r == Err::<(), ErrorCode>(
                ErrorCode::OFF,
            ) && final(self).callback_pending && final(self).virtqueue.used_callbacks_enabled),
            old(self).buffer_capacity >= 4 && old(self).client_set && !old(self).callback_pending
                && old(self).virtqueue.used@.len() >= 1 && old(self).deferred_call_handle is None
                ==> r == Err::<(), ErrorCode>(ErrorCode::FAIL),
            old(self).buffer_capacity >= 4 && old(self).client_set && !old(self).callback_pending
                && old(self).virtqueue.used@.len() >= 1 ==> (old(
                self,
            ).deferred_call_handle matches Some(h) ==> (r is Ok && final(self).callback_pending
                && final(deferred_caller).is_pending(h))),
    {
        if self.buffer_capacity < 4 {
            // a single word cannot be served
            Err(ErrorCode::FAIL)
        } else if !self.client_set {
            Err(ErrorCode::FAIL)
        } else if self.callback_pending {
            // an earlier request is still in flight: a conflicting
            // operation is refused busy
            Err(ErrorCode::BUSY)
        } else if self.virtqueue.used_descriptor_chains_count() < 1 {
            // nothing ready: rely on the queue callback for the next
            // incoming buffer
            self.callback_pending = true;
            self.virtqueue.enable_used_callbacks();
            Err(ErrorCode::OFF)
        } else {
            match self.deferred_call_handle {
                None => Err(ErrorCode::FAIL),
                Some(handle) => {
                    // data is ready: deliver it outside this call path
                    self.callback_pending = true;
                    deferred_caller.set(handle);
                    Ok(())
                },
            }
        }
    }

    /// Cancel any outstanding randomness request. Idempotent and always
    /// successful: with nothing outstanding the capsule keeps exactly the
    /// state it had, apart from the queue's callbacks being left switched
    /// off, and the buffers stay queued for future use.
    pub fn cancel(&mut self) -> (r: Result<(), ErrorCode>)
        ensures
            r is Ok,
            *final(self) == (VirtIORng {
                callback_pending: false,
                virtqueue: final(self).virtqueue,
                ..*old(self)
            }),
            final(self).virtqueue == (SplitVirtQueue {
                used_callbacks_enabled: false,
                ..old(self).virtqueue
            }),
            !old(self).callback_pending && !old(self).virtqueue.used_callbacks_enabled
                ==> *final(self) == *old(self),
    {
        self.callback_pending = false;
        self.virtqueue.disable_used_callbacks();
        Ok(())
    }

    /// Consume one filled buffer: silence further callbacks, account the
    /// withdrawn capacity, hand the complete words to the client if one is
    /// still waiting, and lend the buffer straight back to the device.
    /// Returns the words delivered, empty when no request was pending.
    pub fn buffer_chain_callback(&mut self, chain: VirtQueueBuffer, bytes_used: usize) -> (r: Vec<
        u32,
    >)
        requires
            old(self).wf(),
            old(self).buffer_capacity >= chain.buf@.len(),
            bytes_used <= chain.buf@.len(),
        ensures
            final(self).wf(),
            !final(self).virtqueue.used_callbacks_enabled,
            !final(self).callback_pending,
            !old(self).callback_pending ==> r@.len() == 0,
            old(self).callback_pending ==> r@.len() == bytes_used as int / 4 && (forall|k: int|
                0 <= k < r@.len() ==> r@[k] == le_word_at(chain.buf@, k)),
            chain.buf@.len() >= 4 && old(self).virtqueue.available@.len() + old(
                self,
            ).virtqueue.used@.len() < old(self).virtqueue.capacity ==> (final(self).virtqueue.available@.len() == old(self).virtqueue.available@.len() + 1 && final(self).buffer_capacity == old(self).buffer_capacity),
            final(self).virtqueue.used@ == old(self).virtqueue.used@,
    {
        self.virtqueue.disable_used_callbacks();
        let buf = chain.buf;
        let new_capacity = self.buffer_capacity - buf.len();
        self.buffer_capacity = new_capacity;
        let mut words: Vec<u32> = Vec::new();
        if self.callback_pending {
            self.callback_pending = false;
            let mut off: usize = 0;
            while bytes_used - off >= 4
                invariant
                    off <= bytes_used,
                    off % 4 == 0,
                    bytes_used <= buf@.len(),
                    words@.len() == off as int / 4,
                    forall|k: int| 0 <= k < words@.len() ==> words@[k] == le_word_at(buf@, k),
                decreases bytes_used - off,
            {
                let w: u32 = (buf[off] as u32) | ((buf[off + 1] as u32) << 8) | ((buf[off + 2]
                    as u32) << 16) | ((buf[off + 3] as u32) << 24);
                words.push(w);
                off = off + 4;
                proof {
                    assert(off % 4 == 0);
                }
            }
            proof {
                assert(words@.len() == bytes_used as int / 4);
            }
        }
        let len = buf.len();
        if len >= 4 && self.buffer_capacity <= usize::MAX - len {
            let chain2 = VirtQueueBuffer { buf, len, device_writable: true };
            let res = self.virtqueue.provide_buffer_chain(chain2);
            match res {
                Ok(()) => {
                    self.buffer_capacity = self.buffer_capacity + len;
                },
                Err(_) => {},
            }
        }
        words
    }
}

/// The device classes a paravirtualized transport can expose.
#[derive(Clone, Copy, Debug, PartialEq, Eq, Structural)]
pub enum VirtIODeviceType {
    /// A network card.
    NetworkCard,
    /// A block device.
    BlockDevice,
    /// An entropy source.
    EntropySource,
}

impl VirtIORng {
    /// Feature negotiation with the device: this capsule needs nothing
    /// beyond the baseline.
    pub fn negotiate_features(&self, _offered_features: u64) -> (r: u64)
        ensures
            r == 0,
    {
        0
    }

    /// Which device class this driver serves.
    pub fn device_type(&self) -> (r: VirtIODeviceType)
        ensures
            r == VirtIODeviceType::EntropySource,
    {
        VirtIODeviceType::EntropySource
    }
}

impl DeferredCallClient for VirtIORng {
    /// The idle-scan entry point: take the oldest used chain the device
    /// filled and run the buffer callback, delivering its complete words
    /// when a request is pending and clearing the pending flag.
    ///
    /// A firing with no used chain queued would mean the capsule was
    /// armed without data: an invariant break that the arming discipline
    /// — callbacks are only requested with data queued or through the
    /// queue's own completion — is meant to make impossible. This
    /// library's verified functions never abort, and a registry client
    /// cannot narrow the registry's calling contract, so that firing is
    /// specified to leave the capsule exactly unchanged instead of
    /// halting the system.
    fn call(&mut self, _handle: DeferredCallHandle, _caller: &mut DynamicDeferredCall)
        ensures
            final(self).wf() || !old(self).wf(),
            !old(self).wf() ==> *final(self) == *old(self),
            old(self).wf() && old(self).virtqueue.used@.len() == 0 ==> *final(self) == *old(self),
            old(self).wf() && old(self).virtqueue.used@.len() > 0 ==> ({
                let chain_buf = old(self).virtqueue.used@[0].0.buf@;
                let bytes_used = old(self).virtqueue.used@[0].1 as int;
                &&& final(self).virtqueue.used@ == old(self).virtqueue.used@.subrange(
                    1,
                    old(self).virtqueue.used@.len() as int,
                )
                &&& ((old(self).buffer_capacity >= chain_buf.len() && bytes_used
                    <= chain_buf.len()) ==> {
                    &&& !final(self).callback_pending
                    &&& (old(self).callback_pending ==> final(self).delivered@.len() == bytes_used
                        / 4 && (forall|k: int|
                        0 <= k < final(self).delivered@.len() ==> final(self).delivered@[k]
                            == le_word_at(chain_buf, k)))
                    &&& (!old(self).callback_pending ==> final(self).delivered@.len() == 0)
                })
                &&& (!(old(self).buffer_capacity >= chain_buf.len() && bytes_used
                    <= chain_buf.len()) ==> (final(self).delivered@ == old(self).delivered@
                    && final(self).callback_pending == old(self).callback_pending))
            }),
    {
        if !check_rng_wf(self) {
            return ;
        }
        match self.virtqueue.pop_used_descriptor_chain() {
            Some((chain, bytes_used)) => {
                let blen = chain.buf.len();
                if self.buffer_capacity >= blen && bytes_used <= blen {
                    let words = self.buffer_chain_callback(chain, bytes_used);
                    self.delivered = words;
                }
            },
            None => {},
        }
    }
}

/// Check at run time that the capsule's queue accounting holds; a failed
/// check makes the deferred call a no-op instead of misbehaving.
fn check_rng_wf(rng: &VirtIORng) -> (r: bool)
    ensures
        r == rng.wf(),
{
    rng.virtqueue.available.len() <= rng.virtqueue.capacity && rng.virtqueue.capacity
        - rng.virtqueue.available.len() >= rng.virtqueue.used.len()
}

} // verus!
