//! The runtime half of the Wi-Fi framework: a pool of message nodes, the
//! FIFO of posted messages and the worker's bookkeeping.
//!
//! Nodes are known by address. The pool is an array of fixed-size nodes; a
//! node's pool index follows from its address.
use vstd::prelude::*;
use crate::osal_queue::ring_index;

verus! {

/// Nodes in the pool (the node's pool index field has four bits).
pub const POOL_LEN: usize = 16;
/// Posted messages not yet dispatched.
pub const FIFO_LEN: usize = 32;
/// Status: done.
pub const FRW_OK: i32 = 0;
/// Status: refused.
pub const FRW_NOK: i32 = 1;

/// A host/device message: buffers by address, lengths and packed flags
/// (`sync:1 | type:7 | rsv:8`).
#[derive(Clone, Copy, Debug, PartialEq, Eq, Structural)]
pub struct FrwMsg {
    pub data: usize,
    pub rsp: usize,
    pub data_len: u16,
    pub rsp_buf_len: u16,
    pub rsp_len: u16,
    pub flags: u16,
}

/// The flag byte of pool node `i`: the in-use bit (0x08) plus the index in
/// the high nibble.
pub open spec fn node_bits(i: int) -> u8 {
    (8 + (i % 16) * 16) as u8
}

/// Pool index of the node at `node`, for a pool at `base` with nodes of
/// `stride` bytes: at or after the base, on a node boundary, inside the pool.
pub open spec fn spec_pool_index(node: usize, base: usize, stride: usize) -> Option<usize> {
    if node < base || stride == 0 {
        None
    } else if (node - base) % (stride as int) == 0 && (node - base) / (stride as int) < POOL_LEN {
        Some(((node - base) / (stride as int)) as usize)
    } else {
        None
    }
}

/// [`spec_pool_index`].
pub fn pool_index(node: usize, base: usize, stride: usize) -> (r: Option<usize>)
    ensures
        r == spec_pool_index(node, base, stride),
{
    if node < base || stride == 0 {
        return None;
    }
    let offset = node - base;
    let idx = offset / stride;
    if idx < POOL_LEN && offset % stride == 0 {
        Some(idx)
    } else {
        None
    }
}

/// Pool, FIFO and worker state.
pub struct FrwRuntime {
    pool_used: Vec<bool>,
    fifo: Vec<usize>,
    fifo_head: usize,
    fifo_count: usize,
    device_handler: usize,
    running: bool,
    dispatched: u32,
}

/// Abstract state.
pub struct FrwView {
    pub pool_used: Seq<bool>,
    /// Posted nodes, oldest first.
    pub queue: Seq<usize>,
    /// Address of the device handler, 0 for none.
    pub device_handler: usize,
    pub running: bool,
    pub dispatched: u32,
}

impl FrwRuntime {
    /// Abstract state.
    pub closed spec fn view(&self) -> FrwView {
        FrwView {
            pool_used: self.pool_used@,
            queue: Seq::new(
                self.fifo_count as nat,
                |k: int| self.fifo@[ring_index(self.fifo_head as int, k, FIFO_LEN as int)],
            ),
            device_handler: self.device_handler,
            running: self.running,
            dispatched: self.dispatched,
        }
    }

    /// Shape: a pool of [`POOL_LEN`] flags and a ring of [`FIFO_LEN`] slots.
    pub closed spec fn wf(&self) -> bool {
        &&& self.pool_used@.len() == POOL_LEN
        &&& self.fifo@.len() == FIFO_LEN
        &&& self.fifo_head < FIFO_LEN
        &&& self.fifo_count <= FIFO_LEN
    }

    /// Empty pool and FIFO, no handler, not running.
    pub fn new() -> (r: Self)
        ensures
            r.wf(),
            r@.pool_used == Seq::new(POOL_LEN as nat, |i: int| false),
            r@.queue.len() == 0,
            r@.device_handler == 0,
            !r@.running,
            r@.dispatched == 0,
    {
        let mut pool_used: Vec<bool> = Vec::new();
        let mut i: usize = 0;
        while i < POOL_LEN
            invariant
                i <= POOL_LEN,
                pool_used@ == Seq::new(i as nat, |k: int| false),
            decreases POOL_LEN - i,
        {
            pool_used.push(false);
            i += 1;
            assert(pool_used@ =~= Seq::new(i as nat, |k: int| false));
        }
        let mut fifo: Vec<usize> = Vec::new();
        let mut j: usize = 0;
        while j < FIFO_LEN
            invariant
                j <= FIFO_LEN,
                fifo@.len() == j,
            decreases FIFO_LEN - j,
        {
            fifo.push(0);
            j += 1;
        }
        let r = FrwRuntime {
            pool_used,
            fifo,
            fifo_head: 0,
            fifo_count: 0,
            device_handler: 0,
            running: false,
            dispatched: 0,
        };
        assert(r@.queue =~= Seq::<usize>::empty());
        r
    }

    /// Take the first free pool node: its index and the flag byte the node
    /// starts with. `None` when the pool is exhausted.
    pub fn fetch_msg_node(&mut self) -> (r: Option<(usize, u8)>)
        requires
            old(self).wf(),
        ensures
            final(self).wf(),
            r is None <==> forall|i: int| 0 <= i < POOL_LEN ==> old(self)@.pool_used[i],
            r is None ==> final(self)@ == old(self)@,
            r matches Some((i, bits)) ==> {
                &&& i < POOL_LEN
                &&& !old(self)@.pool_used[i as int]
                &&& forall|j: int| 0 <= j < i ==> old(self)@.pool_used[j]
                &&& bits == node_bits(i as int)
                &&& final(self)@ == (FrwView { pool_used: old(self)@.pool_used.update(i as int, true), ..old(self)@ })
            },
    {
        let mut i: usize = 0;
        while i < POOL_LEN
            invariant
                i <= POOL_LEN,
                self.wf(),
                self@ == old(self)@,
                forall|j: int| 0 <= j < i ==> self@.pool_used[j],
            decreases POOL_LEN - i,
        {
            if !self.pool_used[i] {
                self.pool_used.set(i, true);
                let bits: u8 = 0x08 | (((i as u8) & 0x0f) << 4u8);
                assert(bits == 8 + i * 16) by (bit_vector)
                    requires
                        i < 16,
                        bits == 0x08 | (((i as u8) & 0x0f) << 4u8),
                ;
                proof {
                    assert(self@ =~= (FrwView { pool_used: old(self)@.pool_used.update(i as int, true), ..old(self)@ }));
                }
                return Some((i, bits));
            }
            i += 1;
        }
        None
    }

    /// Return the node at `node` (pool at `base`, nodes of `stride` bytes) to
    /// the pool; addresses outside the pool are ignored.
    pub fn free_msg_node(&mut self, node: usize, base: usize, stride: usize)
        requires
            old(self).wf(),
        ensures
            final(self).wf(),
            spec_pool_index(node, base, stride) is None ==> final(self)@ == old(self)@,
            spec_pool_index(node, base, stride) matches Some(i) ==> final(self)@ == (FrwView {
                pool_used: old(self)@.pool_used.update(i as int, false),
                ..old(self)@
            }),
    {
        match pool_index(node, base, stride) {
            Some(i) => {
                self.pool_used.set(i, false);
                assert(self@ =~= (FrwView { pool_used: old(self)@.pool_used.update(i as int, false), ..old(self)@ }));
            },
            None => {},
        }
    }

    /// Post a node to the worker: `FRW_OK`, or `FRW_NOK` when the FIFO is full.
    pub fn post(&mut self, node: usize) -> (status: i32)
        requires
            old(self).wf(),
        ensures
            final(self).wf(),
            old(self)@.queue.len() >= FIFO_LEN ==> status == FRW_NOK && final(self)@ == old(self)@,
            old(self)@.queue.len() < FIFO_LEN ==> status == FRW_OK && final(self)@ == (FrwView {
                queue: old(self)@.queue.push(node),
                ..old(self)@
            }),
    {
        if self.fifo_count >= FIFO_LEN {
            return FRW_NOK;
        }
        let ghost q0 = self@.queue;
        let mut tail = self.fifo_head + self.fifo_count;
        if tail >= FIFO_LEN {
            tail = tail - FIFO_LEN;
        }
        self.fifo.set(tail, node);
        self.fifo_count = self.fifo_count + 1;
        proof {
            let q = self@.queue;
            assert forall|k: int| 0 <= k < q0.len() implies q[k] == q0[k] by {
                assert(ring_index(self.fifo_head as int, k, FIFO_LEN as int) != tail);
            }
            assert(q =~= q0.push(node));
            assert(self@ =~= (FrwView { queue: q0.push(node), ..old(self)@ }));
        }
        FRW_OK
    }

    /// Send one local self-test message: a null message is refused, any
    /// other is posted to the worker FIFO.
    pub fn send_local(&mut self, msg: usize) -> (status: i32)
        requires
            old(self).wf(),
        ensures
            final(self).wf(),
            msg == 0 ==> status == FRW_NOK && final(self)@ == old(self)@,
            msg != 0 && old(self)@.queue.len() >= FIFO_LEN ==> status == FRW_NOK && final(self)@ == old(self)@,
            msg != 0 && old(self)@.queue.len() < FIFO_LEN ==> status == FRW_OK && final(self)@ == (FrwView {
                queue: old(self)@.queue.push(msg),
                ..old(self)@
            }),
    {
        if msg == 0 {
            return FRW_NOK;
        }
        self.post(msg)
    }

    /// Take the oldest posted node, if any.
    pub fn fifo_pop(&mut self) -> (r: Option<usize>)
        requires
            old(self).wf(),
        ensures
            final(self).wf(),
            old(self)@.queue.len() == 0 ==> r is None && final(self)@ == old(self)@,
            old(self)@.queue.len() > 0 ==> r == Some(old(self)@.queue[0]) && final(self)@ == (FrwView {
                queue: old(self)@.queue.drop_first(),
                ..old(self)@
            }),
    {
        if self.fifo_count == 0 {
            return None;
        }
        let ghost q0 = self@.queue;
        let head = self.fifo_head;
        let node = self.fifo[head];
        self.fifo_head = if head + 1 < FIFO_LEN { head + 1 } else { 0 };
        self.fifo_count = self.fifo_count - 1;
        proof {
            let q = self@.queue;
            assert forall|k: int| 0 <= k < q.len() implies q[k] == q0[k + 1] by {
                assert(ring_index(self.fifo_head as int, k, FIFO_LEN as int) == ring_index(
                    head as int,
                    k + 1,
                    FIFO_LEN as int,
                ));
            }
            assert(q =~= q0.drop_first());
            assert(self@ =~= (FrwView { queue: q0.drop_first(), ..old(self)@ }));
        }
        Some(node)
    }

    /// Register the device handler (0 for none).
    pub fn set_device_handler(&mut self, handler: usize)
        ensures
            final(self)@ == (FrwView { device_handler: handler, ..old(self)@ }),
            final(self).wf() == old(self).wf(),
    {
        self.device_handler = handler;
        assert(self@ =~= (FrwView { device_handler: handler, ..old(self)@ }));
    }

    /// The device handler (0 for none).
    pub fn device_handler(&self) -> (h: usize)
        ensures
            h == self@.device_handler,
    {
        self.device_handler
    }

    /// Mark the worker running or stopped.
    pub fn set_running(&mut self, running: bool)
        ensures
            final(self)@ == (FrwView { running, ..old(self)@ }),
            final(self).wf() == old(self).wf(),
    {
        self.running = running;
        assert(self@ =~= (FrwView { running, ..old(self)@ }));
    }

    /// Whether the worker runs.
    pub fn is_running(&self) -> (r: bool)
        ensures
            r == self@.running,
    {
        self.running
    }

    /// Count one dispatched message (wrapping).
    pub fn count_dispatch(&mut self)
        ensures
            final(self)@ == (FrwView { dispatched: vstd::wrapping::u32_specs::wrapping_add(old(self)@.dispatched, 1), ..old(self)@ }),
            final(self).wf() == old(self).wf(),
    {
        self.dispatched = self.dispatched.wrapping_add(1);
        assert(self@ =~= (FrwView { dispatched: vstd::wrapping::u32_specs::wrapping_add(old(self)@.dispatched, 1), ..old(self)@ }));
    }

    /// Messages dispatched.
    pub fn dispatched(&self) -> (n: u32)
        ensures
            n == self@.dispatched,
    {
        self.dispatched
    }
}

/// Posting into a FIFO with room and popping from one that held nothing
/// gives the node back: the FIFO hands nodes to the worker in posting order.
pub proof fn lemma_fifo_order(queue: Seq<usize>, node: usize)
    ensures
        queue.push(node).drop_first() == (if queue.len() > 0 { queue.drop_first().push(node) } else { Seq::empty() }),
        queue.push(node)[0] == (if queue.len() > 0 { queue[0] } else { node }),
{
    if queue.len() > 0 {
        assert(queue.push(node).drop_first() =~= queue.drop_first().push(node));
    } else {
        assert(queue.push(node).drop_first() =~= Seq::<usize>::empty());
    }
}

} // verus!
