//! Compression contexts for 6LoWPAN header compression.
//!
//! Header compression replaces long address prefixes with small context
//! ids. A [`ContextStore`] resolves between the two directions: from an
//! address to the context that covers it, from an id back to the context,
//! and from a prefix to the matching context. [`DummyStore`] is the
//! simplest store — exactly one context, the mesh-local prefix with id 0.

use vstd::prelude::*;

verus! {

/// Whether the first `prefix_len` bits of `a` and `b` agree. Both slices
/// must actually hold that many bits.
pub open spec fn prefix_matches(a: Seq<u8>, b: Seq<u8>, prefix_len: int) -> bool {
    let full = prefix_len / 8;
    let rem = prefix_len % 8;
    let needed = full + if rem != 0 {
        1int
    } else {
        0int
    };
    &&& needed <= a.len()
    &&& needed <= b.len()
    &&& (forall|i: int| 0 <= i < full ==> a[i] == b[i])
    &&& (rem != 0 ==> (a[full] >> ((8 - rem) as u8)) == (b[full] >> ((8 - rem) as u8)))
}

/// Compare the first `prefix_len` bits of two byte strings: whole bytes
/// first, then the high bits of the one partial byte. Returns `false`
/// when either string is too short to hold the prefix.
pub fn matches_prefix(buf: &[u8], prefix: &[u8], prefix_len: u8) -> (r: bool)
    ensures
        r == prefix_matches(buf@, prefix@, prefix_len as int),
{
    let full_bytes: usize = (prefix_len / 8) as usize;
    let remaining_bits: u8 = prefix_len % 8;
    let needed: usize = full_bytes + if remaining_bits != 0 {
        1usize
    } else {
        0usize
    };
    if needed > buf.len() || needed > prefix.len() {
        return false;
    }
    let mut i: usize = 0;
    while i < full_bytes
        invariant
            i <= full_bytes,
            full_bytes == prefix_len as int / 8,
            full_bytes <= buf@.len(),
            full_bytes <= prefix@.len(),
            forall|j: int| 0 <= j < i ==> buf@[j] == prefix@[j],
        decreases full_bytes - i,
    {
        if *slice_get(buf, i) != *slice_get(prefix, i) {
            return false;
        }
        i = i + 1;
    }
    if remaining_bits != 0 {
        let shift: u8 = 8 - remaining_bits;
        if (*slice_get(buf, full_bytes) >> shift) != (*slice_get(prefix, full_bytes) >> shift) {
            return false;
        }
    }
    true
}

/// Read one slice element by index.
fn slice_get<T>(s: &[T], i: usize) -> (r: &T)
    requires
        0 <= i < s@.len(),
    ensures
        *r == s@[i as int],
{
    &s[i]
}

/// One compression context: a prefix, its bit length, the id it
/// compresses to, and whether compression with it is enabled.
pub struct Context {
    /// The prefix bytes.
    pub prefix: Vec<u8>,
    /// How many bits of the prefix are significant.
    pub prefix_len: u8,
    /// The context id.
    pub id: u8,
    /// Whether this context may be used for compression.
    pub compress: bool,
}

impl Context {
    /// An independent copy of this context.
    pub fn duplicate(&self) -> (r: Context)
        ensures
            r.prefix@ == self.prefix@,
            r.prefix_len == self.prefix_len,
            r.id == self.id,
            r.compress == self.compress,
    {
        let mut prefix: Vec<u8> = Vec::new();
        let n = self.prefix.len();
        let mut i: usize = 0;
        while i < n
            invariant
                i <= n,
                n == self.prefix@.len(),
                prefix@ =~= self.prefix@.subrange(0, i as int),
            decreases n - i,
        {
            let byte = self.prefix[i];
            prefix.push(byte);
            i = i + 1;
        }
        proof {
            assert(prefix@ =~= self.prefix@);
        }
        Context { prefix, prefix_len: self.prefix_len, id: self.id, compress: self.compress }
    }
}

/// Resolves compression contexts in all three directions. The mesh-local
/// context — id 0 — must always be among the answers a store can give.
pub trait ContextStore {
    /// The context covering `ip_addr`, if any.
    fn get_context_from_addr(&self, ip_addr: &[u8; 16]) -> Option<Context>;

    /// The context registered under `ctx_id`, if any.
    fn get_context_from_id(&self, ctx_id: u8) -> Option<Context>;

    /// The context whose prefix agrees with `prefix` for `prefix_len`
    /// bits, if any.
    fn get_context_from_prefix(&self, prefix: &[u8], prefix_len: u8) -> Option<Context>;
}

/// The one-context store: only the mesh-local prefix, as context 0.
pub struct DummyStore {
    /// The single context served.
    pub context0: Context,
}

impl DummyStore {
    /// A store serving exactly `context0`.
    pub fn new(context0: Context) -> (r: DummyStore)
        ensures
            r.context0 == context0,
    {
        DummyStore { context0 }
    }
}

impl ContextStore for DummyStore {
    /// The context is returned exactly for addresses under its prefix.
    fn get_context_from_addr(&self, ip_addr: &[u8; 16]) -> (r: Option<Context>)
        ensures
            r is Some <==> prefix_matches(
                ip_addr@,
                self.context0.prefix@,
                self.context0.prefix_len as int,
            ),
            r matches Some(c) ==> c.prefix@ == self.context0.prefix@ && c.prefix_len
                == self.context0.prefix_len && c.id == self.context0.id && c.compress
                == self.context0.compress,
    {
        if matches_prefix(
            ip_addr.as_slice(),
            self.context0.prefix.as_slice(),
            self.context0.prefix_len,
        ) {
            Some(self.context0.duplicate())
        } else {
            None
        }
    }

    /// The context is returned exactly for id 0.
    fn get_context_from_id(&self, ctx_id: u8) -> (r: Option<Context>)
        ensures
            r is Some <==> ctx_id == 0,
            r matches Some(c) ==> c.prefix@ == self.context0.prefix@ && c.prefix_len
                == self.context0.prefix_len && c.id == self.context0.id && c.compress
                == self.context0.compress,
    {
        if ctx_id == 0 {
            Some(self.context0.duplicate())
        } else {
            None
        }
    }

    /// The context is returned exactly for its own prefix length and a
    /// prefix that agrees bit for bit.
    fn get_context_from_prefix(&self, prefix: &[u8], prefix_len: u8) -> (r: Option<Context>)
        ensures
            r is Some <==> (prefix_len == self.context0.prefix_len && prefix_matches(
                prefix@,
                self.context0.prefix@,
                prefix_len as int,
            )),
            r matches Some(c) ==> c.prefix@ == self.context0.prefix@ && c.prefix_len
                == self.context0.prefix_len && c.id == self.context0.id && c.compress
                == self.context0.compress,
    {
        if prefix_len == self.context0.prefix_len && matches_prefix(
            prefix,
            self.context0.prefix.as_slice(),
            prefix_len,
        ) {
            Some(self.context0.duplicate())
        } else {
            None
        }
    }
}

} // verus!
