//! Fixed-capacity FIFO event queue.
//!
//! The queue keeps the shape of the interrupt-driven ring buffer it stands
//! for: three forever-increasing 64-bit counters (`read`, `write`,
//! `available`) over a contiguous backing store, with slot index = counter
//! mod capacity. `write` reserves a slot and `available` publishes it; with
//! one producer at a time the two agree whenever the queue is at rest, which
//! is the discipline this sequential model verifies. The counters wrap at
//! 2^64; ghost counters carry the unbounded values they stand for.

use vstd::prelude::*;

verus! {

use vstd::arithmetic::div_mod::{
    lemma_add_mod_noop, lemma_mod_division_less_than_divisor, lemma_mod_mod,
    lemma_mod_multiples_vanish, lemma_mod_self_0, lemma_small_mod,
};
use vstd::pervasive::unreached;

/// Number of slots in every queue: a power of two, so that slot indices stay
/// consistent even across counter wraparound.
pub const QUEUE_CAPACITY: usize = 32;

/// The modulus at which the concrete counters wrap.
pub open spec fn counter_modulus() -> int {
    u64::MAX + 1
}

/// The slot that an (unbounded) counter value addresses.
pub open spec fn slot_of(counter: int) -> int {
    counter % (QUEUE_CAPACITY as int)
}

/// Returned by `push` when every slot is occupied: the item was dropped and
/// the caller decides what to do about it.
#[derive(Clone, Copy, Debug, PartialEq, Eq, Structural)]
pub struct Full {}

/// One push against the abstract queue: the new pending sequence, and whether
/// the value was accepted.
pub open spec fn model_push<T>(pending: Seq<T>, value: T) -> (Seq<T>, bool) {
    if pending.len() < QUEUE_CAPACITY {
        (pending.push(value), true)
    } else {
        (pending, false)
    }
}

/// One pop against the abstract queue: the remaining pending sequence, and
/// the value handed out.
pub open spec fn model_pop<T>(pending: Seq<T>) -> (Seq<T>, Option<T>) {
    if pending.len() == 0 {
        (pending, None)
    } else {
        (pending.drop_first(), Some(pending[0]))
    }
}

/// The pending sequence after pushing each element of `values` in order.
pub open spec fn model_push_all<T>(pending: Seq<T>, values: Seq<T>) -> Seq<T>
    decreases values.len(),
{
    if values.len() == 0 {
        pending
    } else {
        model_push_all(model_push(pending, values[0]).0, values.drop_first())
    }
}

/// Whether every push of `values`, in order, is accepted.
pub open spec fn model_pushes_accepted<T>(pending: Seq<T>, values: Seq<T>) -> bool
    decreases values.len(),
{
    if values.len() == 0 {
        true
    } else {
        model_push(pending, values[0]).1 && model_pushes_accepted(
            model_push(pending, values[0]).0,
            values.drop_first(),
        )
    }
}

/// A fixed-capacity FIFO queue of `Copy` values, driven by three monotonic
/// counters. The name records its role: the concrete firmware artifact it
/// models publishes slots to interrupt handlers through atomic counters.
pub struct AtomicQueue<T: Copy> {
    /// Backing store; a slot is `None` until first written.
    data: Vec<Option<T>>,
    /// Counter of the next item to pop.
    read: u64,
    /// Counter of the next slot to reserve for a push.
    write: u64,
    /// Counter up to which pushed items are published to readers.
    available: u64,
    /// Unbounded value that the wrapped `read` counter stands for.
    vread: Ghost<nat>,
    /// Unbounded value that the wrapped `write` counter stands for.
    vwrite: Ghost<nat>,
}

impl<T: Copy> AtomicQueue<T> {
    /// Well-formedness: the concrete counters are the wrapped images of the
    /// unbounded ghost counters, at most `QUEUE_CAPACITY` items are pending,
    /// the producer is at rest (`available == write`), and every slot written
    /// so far is occupied.
    pub closed spec fn wf(self) -> bool {
        &&& self.data@.len() == QUEUE_CAPACITY
        &&& self.vread@ <= self.vwrite@ <= self.vread@ + QUEUE_CAPACITY
        &&& self.read as int == (self.vread@ as int) % counter_modulus()
        &&& self.write as int == (self.vwrite@ as int) % counter_modulus()
        &&& self.available == self.write
        &&& forall|j: int|
            0 <= j < self.data@.len() && j < self.vwrite@ ==> (#[trigger] self.data@[j]) is Some
    }

    /// The pending items, oldest first.
    pub closed spec fn pending(self) -> Seq<T> {
        Seq::new(
            (self.vwrite@ - self.vread@) as nat,
            |j: int| self.data@[slot_of(self.vread@ + j)].unwrap(),
        )
    }

    /// A fresh, empty queue.
    pub fn new() -> (q: Self)
        ensures
            q.wf(),
            q@ == Seq::<T>::empty(),
    {
        let mut data: Vec<Option<T>> = Vec::new();
        let mut i: usize = 0;
        while i < QUEUE_CAPACITY
            invariant
                i <= QUEUE_CAPACITY,
                data@.len() == i,
            decreases QUEUE_CAPACITY - i,
        {
            data.push(None);
            i = i + 1;
        }
        let q = AtomicQueue { data, read: 0, write: 0, available: 0, vread: Ghost(0), vwrite: Ghost(0) };
        proof {
            assert(q@ =~= Seq::<T>::empty());
        }
        q
    }

    /// The queue's capacity. No slot is held in reserve: a queue of length
    /// `n` really holds up to `n` items.
    pub fn length(&self) -> (n: usize)
        requires
            self.wf(),
        ensures
            n == QUEUE_CAPACITY,
    {
        self.data.len()
    }

    /// Counters address slots modulo the backing store's length.
    fn counter_to_idx(&self, counter: u64) -> (idx: usize)
        requires
            self.data@.len() == QUEUE_CAPACITY,
        ensures
            idx == slot_of(counter as int),
            idx < QUEUE_CAPACITY,
    {
        (counter % (QUEUE_CAPACITY as u64)) as usize
    }

    /// Add an item to the queue. When every slot is occupied the item is
    /// dropped and `Full` is returned; the queue is unchanged. Only one
    /// producer may be mid-push at a time: the counter reservation is a plain
    /// load-then-store, which is exactly what this sequential model checks.
    pub fn push(&mut self, value: T) -> (r: Result<(), Full>)
        requires
            old(self).wf(),
        ensures
            final(self).wf(),
            final(self)@ == model_push(old(self)@, value).0,
            r == (if model_push(old(self)@, value).1 {
                Ok::<(), Full>(())
            } else {
                Err::<(), Full>(Full {})
            }),
    {
        let read = self.read;
        let write = self.write;
        proof {
            lemma_counter_distance(self.vread@, self.vwrite@);
        }
        if write.wrapping_sub(read) >= self.length() as u64 {
            return Err(Full {});
        }
        let ghost old_self = *self;
        self.write = write.wrapping_add(1);
        self.vwrite = Ghost(self.vwrite@ + 1);
        let idx = self.counter_to_idx(write);
        self.data[idx] = Some(value);
        self.available = self.write;
        proof {
            let vr = old_self.vread@ as int;
            let vw = old_self.vwrite@ as int;
            lemma_counter_increment(old_self.vwrite@);
            lemma_slot_of_exec(old_self.vwrite@);
            lemma_mod_division_less_than_divisor(vw, QUEUE_CAPACITY as int);
            if vw < QUEUE_CAPACITY {
                lemma_small_mod(old_self.vwrite@, QUEUE_CAPACITY as nat);
            }
            assert forall|j: int| 0 <= j < self@.len() implies self@[j] == old_self@.push(
                value,
            )[j] by {
                if j < self@.len() - 1 {
                    lemma_slot_distinct(vr + j, vw);
                }
            }
            assert(self@ =~= old_self@.push(value));
        }
        Ok(())
    }

    /// Take the oldest item off the queue; `None`, and no change, when the
    /// queue is empty. Never blocks: the caller is expected to idle until
    /// more work arrives.
    pub fn pop(&mut self) -> (r: Option<T>)
        requires
            old(self).wf(),
        ensures
            final(self).wf(),
            final(self)@ == model_pop(old(self)@).0,
            r == model_pop(old(self)@).1,
    {
        let available = self.available;
        let read = self.read;
        proof {
            lemma_counter_distance(self.vread@, self.vwrite@);
        }
        if available.wrapping_sub(read) == 0 {
            return None;
        }
        let idx = self.counter_to_idx(read);
        proof {
            lemma_slot_of_exec(self.vread@);
            lemma_mod_division_less_than_divisor(self.vread@ as int, QUEUE_CAPACITY as int);
            if self.vwrite@ < QUEUE_CAPACITY {
                lemma_small_mod(self.vread@, QUEUE_CAPACITY as nat);
            }
        }
        let slot = self.data[idx];
        let value = match slot {
            Some(v) => v,
            None => unreached(),
        };
        let ghost old_self = *self;
        self.read = read.wrapping_add(1);
        self.vread = Ghost(self.vread@ + 1);
        proof {
            let vr = old_self.vread@ as int;
            lemma_counter_increment(old_self.vread@);
            assert forall|j: int| 0 <= j < self@.len() implies self@[j]
                == old_self@.drop_first()[j] by {
                assert(self.vread@ + j == vr + (j + 1));
            }
            assert(self@ =~= old_self@.drop_first());
            assert(value == old_self@[0]);
        }
        Some(value)
    }
}

impl<T: Copy> View for AtomicQueue<T> {
    type V = Seq<T>;

    closed spec fn view(&self) -> Seq<T> {
        self.pending()
    }
}

/// The wrapped distance between two counters that are at most
/// `QUEUE_CAPACITY` apart is their true distance.
proof fn lemma_counter_distance(vr: nat, vw: nat)
    requires
        vr <= vw <= vr + QUEUE_CAPACITY,
    ensures
        ({
            let re = (vr as int) % counter_modulus();
            let we = (vw as int) % counter_modulus();
            &&& 0 <= re < counter_modulus()
            &&& 0 <= we < counter_modulus()
            &&& (if we >= re {
                we - re
            } else {
                we - re + counter_modulus()
            }) == vw - vr
        }),
{
    let m = counter_modulus();
    let d = vw - vr;
    let re = (vr as int) % m;
    lemma_mod_division_less_than_divisor(vr as int, m);
    lemma_mod_division_less_than_divisor(vw as int, m);
    lemma_add_mod_noop(vr as int, d, m);
    lemma_small_mod(d as nat, m as nat);
    if re + d < m {
        lemma_small_mod((re + d) as nat, m as nat);
    } else {
        lemma_mod_multiples_vanish(-1, re + d, m);
        lemma_small_mod((re + d - m) as nat, m as nat);
    }
}

/// Incrementing a counter wraps exactly when its concrete image is at the
/// modulus' edge.
proof fn lemma_counter_increment(v: nat)
    ensures
        ({
            let e = (v as int) % counter_modulus();
            let e2 = ((v + 1) as int) % counter_modulus();
            e2 == (if e + 1 < counter_modulus() {
                e + 1
            } else {
                0
            })
        }),
{
    let m = counter_modulus();
    let e = (v as int) % m;
    lemma_mod_division_less_than_divisor(v as int, m);
    lemma_add_mod_noop(v as int, 1, m);
    lemma_small_mod(1, m as nat);
    if e + 1 < m {
        lemma_small_mod((e + 1) as nat, m as nat);
    } else {
        lemma_mod_self_0(m);
    }
}

/// Wrapping a counter does not change the slot it addresses, because the
/// capacity divides the modulus.
proof fn lemma_slot_of_exec(v: nat)
    ensures
        slot_of((v as int) % counter_modulus()) == slot_of(v as int),
{
    assert((QUEUE_CAPACITY as int) * 0x0800_0000_0000_0000 == counter_modulus());
    lemma_mod_mod(v as int, QUEUE_CAPACITY as int, 0x0800_0000_0000_0000);
}

/// Two counters less than a capacity apart address distinct slots.
proof fn lemma_slot_distinct(a: int, b: int)
    requires
        0 <= a < b,
        b - a < QUEUE_CAPACITY,
    ensures
        slot_of(a) != slot_of(b),
{
    let c = QUEUE_CAPACITY as int;
    let d = b - a;
    lemma_add_mod_noop(a, d, c);
    lemma_small_mod(d as nat, c as nat);
    lemma_mod_division_less_than_divisor(a, c);
    let ra = a % c;
    if ra + d < c {
        lemma_small_mod((ra + d) as nat, c as nat);
    } else {
        lemma_mod_multiples_vanish(-1, ra + d, c);
        lemma_small_mod((ra + d - c) as nat, c as nat);
    }
}

/// Pushing a batch that fits below capacity is accepted in full and appends
/// the batch in order.
proof fn lemma_push_all_within_capacity<T>(pending: Seq<T>, values: Seq<T>)
    requires
        pending.len() + values.len() <= QUEUE_CAPACITY,
    ensures
        model_pushes_accepted(pending, values),
        model_push_all(pending, values) == pending + values,
    decreases values.len(),
{
    if values.len() == 0 {
        assert(pending + values =~= pending);
    } else {
        let stepped = model_push(pending, values[0]).0;
        lemma_push_all_within_capacity(stepped, values.drop_first());
        assert(pending.push(values[0]) + values.drop_first() =~= pending + values);
    }
}

/// FIFO round trip: pushing up to `QUEUE_CAPACITY` values into an empty
/// queue accepts every one and leaves exactly those values pending, in
/// order; popping then hands the same values back, oldest first, and once
/// all are gone a further pop finds the queue empty.
pub proof fn lemma_queue_round_trip<T>(values: Seq<T>)
    requires
        values.len() <= QUEUE_CAPACITY,
    ensures
        model_pushes_accepted(Seq::<T>::empty(), values),
        model_push_all(Seq::<T>::empty(), values) == values,
        forall|k: int|
            0 <= k < values.len() ==> (#[trigger] model_pop(values.skip(k))).1 == Some(values[k])
                && model_pop(values.skip(k)).0 == values.skip(k + 1),
        model_pop(values.skip(values.len() as int)).1 is None,
{
    lemma_push_all_within_capacity(Seq::<T>::empty(), values);
    assert(Seq::<T>::empty() + values =~= values);
    assert forall|k: int| 0 <= k < values.len() implies (#[trigger] model_pop(values.skip(k))).1
        == Some(values[k]) && model_pop(values.skip(k)).0 == values.skip(k + 1) by {
        assert(values.skip(k)[0] == values[k]);
        assert(values.skip(k).drop_first() =~= values.skip(k + 1));
    }
}

/// Saturation: after filling an empty queue with `QUEUE_CAPACITY` values,
/// one more push is refused and changes nothing; the first `QUEUE_CAPACITY`
/// values are still pending, in order, exactly as the round-trip law hands
/// them out.
pub proof fn lemma_queue_saturation<T>(values: Seq<T>)
    requires
        values.len() == QUEUE_CAPACITY + 1,
    ensures
        model_pushes_accepted(Seq::<T>::empty(), values.take(QUEUE_CAPACITY as int)),
        model_push_all(Seq::<T>::empty(), values.take(QUEUE_CAPACITY as int)) == values.take(
            QUEUE_CAPACITY as int,
        ),
        !model_push(values.take(QUEUE_CAPACITY as int), values[QUEUE_CAPACITY as int]).1,
        model_push(values.take(QUEUE_CAPACITY as int), values[QUEUE_CAPACITY as int]).0
            == values.take(QUEUE_CAPACITY as int),
{
    lemma_queue_round_trip(values.take(QUEUE_CAPACITY as int));
}

/// Popping an already-empty queue is idempotent: it returns nothing and
/// leaves the queue empty, however often it is repeated; the executable
/// `pop` is verified never to block or panic.
pub proof fn lemma_empty_pop_idempotent<T>()
    ensures
        model_pop(Seq::<T>::empty()).1 is None,
        model_pop(Seq::<T>::empty()).0 == Seq::<T>::empty(),
{
}

} // verus!
