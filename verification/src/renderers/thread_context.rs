use vstd::prelude::*;

use crate::renderers::{RendererError, RendererResult};

verus! {

/// Selects the integer type used as a thread context bitmask.
pub trait MaskType {
    type Type;
}

/// Selects the optimal `ThreadContextMask` type for a number of bits.
pub struct MaskSelector<const BITS: usize>;

impl MaskType for MaskSelector<128> {
    type Type = u128;
}

impl MaskType for MaskSelector<64> {
    type Type = u64;
}

impl MaskType for MaskSelector<32> {
    type Type = u32;
}

impl MaskType for MaskSelector<16> {
    type Type = u16;
}

impl MaskType for MaskSelector<8> {
    type Type = u8;
}

/// The type used as a bitmask to track thread context allocation states.
pub type ThreadContextMask = <MaskSelector<128> as MaskType>::Type;

/// The size of the `ThreadContextMask` in bits.
pub const THREAD_CONTEXT_MASK_BIT_SIZE: usize = 128;

/// Indicates that the thread context index is invalid.
pub const INVALID_THREAD_CONTEXT_INDEX: usize = usize::MAX;

/// The maximum number of threads that we can concurrently operate including the main thread.
pub const THREAD_CONTEXT_COUNT: usize = 128;

/// The number of mask variables needed to track `THREAD_CONTEXT_COUNT` concurrent threads.
pub const THREAD_CONTEXT_MASK_COUNT: usize = 1;

/// The index reserved for the main thread.
pub const MAIN_THREAD_CONTEXT_INDEX: usize = 127;

/// The index of the mask that contains the index reserved for the main thread.
pub const MAIN_THREAD_CONTEXT_MASK_INDEX: usize = 0;

/// A static array of [`ThreadContextMask`].
pub type ThreadContextMaskArray = [ThreadContextMask; 1];

/// Whether the context slot `k` is marked as in use in `masks`.
pub open spec fn slot_taken(masks: Seq<u128>, k: int) -> bool {
    (masks[k / 128] >> ((k % 128) as u128)) & 1u128 == 1u128
}

/// `masks` with the slot `k` marked as in use.
pub open spec fn take_slot(masks: Seq<u128>, k: int) -> Seq<u128> {
    masks.update(k / 128, masks[k / 128] | (1u128 << ((k % 128) as u128)))
}

/// `masks` with the slot `k` marked as available.
pub open spec fn release_slot(masks: Seq<u128>, k: int) -> Seq<u128> {
    masks.update(k / 128, masks[k / 128] & !(1u128 << ((k % 128) as u128)))
}

/// Whether `k` is the lowest slot that a worker thread can take in `masks`.
pub open spec fn lowest_free_worker_slot(masks: Seq<u128>, k: int) -> bool {
    &&& 0 <= k < MAIN_THREAD_CONTEXT_INDEX
    &&& !slot_taken(masks, k)
    &&& forall|j: int| 0 <= j < k ==> slot_taken(masks, j)
}

/// Whether every slot that a worker thread can take is in use.
pub open spec fn worker_slots_full(masks: Seq<u128>) -> bool {
    forall|j: int| 0 <= j < MAIN_THREAD_CONTEXT_INDEX ==> slot_taken(masks, j)
}

/// The type used as a thread-local index to track the location of the current thread's context.
#[derive(Debug, Clone, Copy, PartialEq, Eq, Structural)]
pub struct ThreadContextIndex(pub usize);

impl ThreadContextIndex {
    /// Creates a new instance and sets it to `INVALID_THREAD_CONTEXT_INDEX`.
    pub fn new() -> (i: Self)
        ensures
            i.0 == INVALID_THREAD_CONTEXT_INDEX,
    {
        Self(INVALID_THREAD_CONTEXT_INDEX)
    }

    /// Gets the stored index, valid or not.
    pub fn get(&self) -> (i: usize)
        ensures
            i == self.0,
    {
        self.0
    }

    /// Gets the index if vaild, otherwise returns an error.
    pub fn try_get(&self) -> (r: RendererResult<usize>)
        ensures
            self.0 == INVALID_THREAD_CONTEXT_INDEX ==> (r matches Err(
                RendererError::InvalidOperation(m),
            ) && m@ == "Current thread is not initialized."@),
            self.0 != INVALID_THREAD_CONTEXT_INDEX ==> r == Ok::<usize, RendererError>(self.0),
    {
        let index = self.0;
        if index == INVALID_THREAD_CONTEXT_INDEX {
            Err(RendererError::invalid_operation("Current thread is not initialized."))
        } else {
            Ok(index)
        }
    }
}

/// Counts the trailing one bits of `x` (`u128::trailing_ones`).
#[verifier::external_body]
fn trailing_ones(x: u128) -> (r: u32)
    ensures
        r <= 128,
        forall|j: u32| j < r ==> #[trigger] ((x >> (j as u128)) & 1u128) == 1u128,
        r < 128 ==> (x >> (r as u128)) & 1u128 == 0u128,
{
    x.trailing_ones()
}

proof fn lemma_or_bit(m: u128, a: u128, j: u128)
    requires
        a < 128,
        j < 128,
    ensures
        ((m | (1u128 << a)) >> j) & 1u128 == 1u128 <==> (((m >> j) & 1u128 == 1u128) || a == j),
{
    assert(((m | (1u128 << a)) >> j) & 1u128 == 1u128 <==> (((m >> j) & 1u128 == 1u128) || a
        == j)) by (bit_vector)
        requires
            a < 128,
            j < 128,
    ;
}

proof fn lemma_clear_set_bit(m: u128, a: u128)
    requires
        a < 128,
        (m >> a) & 1u128 == 0u128,
    ensures
        (m | (1u128 << a)) & !(1u128 << a) == m,
{
    assert((m | (1u128 << a)) & !(1u128 << a) == m) by (bit_vector)
        requires
            a < 128,
            (m >> a) & 1u128 == 0u128,
    ;
}

/// Marks the calling thread's context slot as in use and stores it in `index`.
///
/// The main thread always gets `MAIN_THREAD_CONTEXT_INDEX`. A worker gets the
/// lowest available slot below it, or an error when every such slot is in use.
pub fn register(
    index: &mut ThreadContextIndex,
    masks: &mut ThreadContextMaskArray,
    is_main_thread: bool,
) -> (r: RendererResult<()>)
    ensures
        is_main_thread ==> {
            &&& r is Ok
            &&& final(index).0 == MAIN_THREAD_CONTEXT_INDEX
            &&& final(masks)@ == take_slot(old(masks)@, MAIN_THREAD_CONTEXT_INDEX as int)
        },
        !is_main_thread ==> {
            &&& r is Ok <==> !worker_slots_full(old(masks)@)
            &&& r is Ok ==> {
                &&& lowest_free_worker_slot(old(masks)@, final(index).0 as int)
                &&& final(masks)@ == take_slot(old(masks)@, final(index).0 as int)
            }
            &&& r is Err ==> {
                &&& r matches Err(RendererError::Fail(m))
                &&& m@ == "Failed to initialize frames: maximum threads reached"@
                &&& final(index).0 == INVALID_THREAD_CONTEXT_INDEX
                &&& final(masks)@ == old(masks)@
            }
        },
{
    if is_main_thread {
        let m = masks[MAIN_THREAD_CONTEXT_MASK_INDEX];
        masks[MAIN_THREAD_CONTEXT_MASK_INDEX] = m | (1u128 << (MAIN_THREAD_CONTEXT_INDEX % 128) as u128);
        index.0 = MAIN_THREAD_CONTEXT_INDEX;
        proof {
            assert(masks@ =~= take_slot(old(masks)@, MAIN_THREAD_CONTEXT_INDEX as int));
        }
        return Ok(());
    }
    let ghost m0 = masks@;
    let mask = masks[0];
    let main_bit: u128 = 1u128 << 127u128;
    let current_mask_index = trailing_ones(mask | main_bit) as usize;
    let mut new_index: usize = current_mask_index;
    proof {
        assert forall|j: int| 0 <= j < 127 && j < current_mask_index implies slot_taken(m0, j) by {
            assert(((mask | main_bit) >> (j as u32 as u128)) & 1u128 == 1u128);
            lemma_or_bit(mask, 127, j as u128);
        }
    }
    if new_index >= THREAD_CONTEXT_COUNT {
        proof {
            assert forall|j: int| 0 <= j < MAIN_THREAD_CONTEXT_INDEX implies slot_taken(m0, j) by {
            }
        }
        index.0 = INVALID_THREAD_CONTEXT_INDEX;
        return Err(RendererError::Fail(String::from_str("Failed to initialize frames: maximum threads reached")));
    }
    proof {
        lemma_or_bit(mask, 127, current_mask_index as u128);
        assert(current_mask_index != 127);
        assert(!slot_taken(m0, current_mask_index as int));
    }
    masks[0] = mask | (1u128 << current_mask_index as u128);
    index.0 = new_index;
    proof {
        assert(masks@ =~= take_slot(m0, new_index as int));
        assert(!worker_slots_full(m0));
    }
    Ok(())
}

/// Marks the slot stored in `index` as available and invalidates `index`.
pub fn unregister(index: &mut ThreadContextIndex, masks: &mut ThreadContextMaskArray)
    requires
        old(index).0 < THREAD_CONTEXT_COUNT,
    ensures
        final(index).0 == INVALID_THREAD_CONTEXT_INDEX,
        final(masks)@ == release_slot(old(masks)@, old(index).0 as int),
{
    let index_val = index.0;
    let mask_index = index_val / THREAD_CONTEXT_MASK_BIT_SIZE;
    let bit = (index_val % THREAD_CONTEXT_MASK_BIT_SIZE) as u128;
    let mask = masks[mask_index];
    masks[mask_index] = mask & !(1u128 << bit);
    index.0 = INVALID_THREAD_CONTEXT_INDEX;
    proof {
        assert(masks@ =~= release_slot(old(masks)@, index_val as int));
    }
}

/// Whether no thread holds a context slot.
pub fn no_thread_registered(masks: &ThreadContextMaskArray) -> (b: bool)
    ensures
        b <==> forall|k: int| 0 <= k < THREAD_CONTEXT_COUNT ==> !slot_taken(masks@, k),
{
    let m = masks[0];
    let t = trailing_ones(!m);
    proof {
        assert forall|k: int| 0 <= k < THREAD_CONTEXT_COUNT implies (!slot_taken(masks@, k) <==> (
        (!m >> (k as u32 as u128)) & 1u128 == 1u128)) by {
            assert(k / 128 == 0 && k % 128 == k);
            let j = k as u128;
            assert(((!m >> j) & 1u128 == 1u128) <==> ((m >> j) & 1u128 != 1u128)) by (bit_vector)
                requires
                    j < 128,
            ;
        }
        if t < 128 {
            assert(!slot_taken(masks@, t as int) <==> ((!m >> (t as u128)) & 1u128 == 1u128));
        }
    }
    t >= 128
}

/// The error for a thread that registers a second time.
pub fn already_registered_error(index: usize) -> (e: RendererError)
    ensures
        e matches RendererError::InvalidOperation(m) && m@ == "Current thread ("@
            + crate::text::decimal(index as nat) + ") already has a worker."@,
{
    let mut s = String::from_str("Current thread (");
    crate::text::push_decimal(&mut s, index as u64);
    crate::text::push_str(&mut s, ") already has a worker.");
    RendererError::InvalidOperation(s)
}

/// Gets the maximum number of threads that can execute concurrently.
pub fn thread_context_count() -> (n: usize)
    ensures
        n == THREAD_CONTEXT_COUNT,
{
    THREAD_CONTEXT_COUNT
}

/// Releasing a slot that a worker has just taken gives back the masks as they
/// were: `unregister` undoes a successful `register` of a worker thread.
pub proof fn lemma_register_unregister(masks: Seq<u128>, k: int)
    requires
        masks.len() == THREAD_CONTEXT_MASK_COUNT,
        lowest_free_worker_slot(masks, k),
    ensures
        release_slot(take_slot(masks, k), k) == masks,
{
    let m = masks[0];
    let a = k as u128;
    assert(k / 128 == 0 && k % 128 == k);
    assert((m >> a) & 1u128 != 1u128 ==> (m >> a) & 1u128 == 0u128) by (bit_vector);
    lemma_clear_set_bit(m, a);
    assert(release_slot(take_slot(masks, k), k) =~= masks);
}

/// A slot that a worker has taken is in use afterwards and no other slot
/// changes: two workers never share a slot, and the main thread's slot is
/// never given to a worker.
pub proof fn lemma_register_takes_only_its_slot(masks: Seq<u128>, k: int, j: int)
    requires
        masks.len() == THREAD_CONTEXT_MASK_COUNT,
        lowest_free_worker_slot(masks, k),
        0 <= j < THREAD_CONTEXT_COUNT,
    ensures
        slot_taken(take_slot(masks, k), j) <==> (slot_taken(masks, j) || j == k),
        k != MAIN_THREAD_CONTEXT_INDEX,
{
    lemma_or_bit(masks[0], k as u128, j as u128);
}

/// The number of worker threads (`false`: not the main thread) among `calls`.
pub open spec fn worker_count(calls: Seq<bool>) -> nat
    decreases calls.len(),
{
    if calls.len() == 0 {
        0
    } else {
        worker_count(calls.drop_last()) + if calls.last() {
            0nat
        } else {
            1nat
        }
    }
}

/// What one call of `register` does to the masks, as its contract states it:
/// the main thread takes its reserved slot; a worker takes the lowest free
/// slot, or leaves the masks as they were when every worker slot is in use.
pub open spec fn register_step(before: Seq<u128>, after: Seq<u128>, is_main: bool, slot: int) -> bool {
    if is_main {
        slot == MAIN_THREAD_CONTEXT_INDEX && after == take_slot(before, MAIN_THREAD_CONTEXT_INDEX as int)
    } else if worker_slots_full(before) {
        after == before
    } else {
        lowest_free_worker_slot(before, slot) && after == take_slot(before, slot)
    }
}

/// Whether `states` and `slots` follow a run of `register` calls, one per entry
/// of `calls` (`true` for the main thread), starting from masks with no slot
/// in use.
pub open spec fn registration_run(calls: Seq<bool>, states: Seq<Seq<u128>>, slots: Seq<int>) -> bool {
    &&& states.len() == calls.len() + 1
    &&& slots.len() == calls.len()
    &&& states[0] == seq![0u128]
    &&& forall|i: int| 0 <= i < calls.len() ==> #[trigger] register_step(states[i], states[i + 1], calls[i], slots[i])
}

proof fn lemma_worker_count_take(calls: Seq<bool>, i: int, j: int)
    requires
        0 <= i <= j <= calls.len(),
    ensures
        worker_count(calls.take(i)) <= worker_count(calls.take(j)),
        j < calls.len() && !calls[j] ==> worker_count(calls.take(j + 1)) == worker_count(calls.take(j)) + 1,
        j < calls.len() && calls[j] ==> worker_count(calls.take(j + 1)) == worker_count(calls.take(j)),
    decreases j - i,
{
    if j < calls.len() {
        assert(calls.take(j + 1).drop_last() =~= calls.take(j));
    }
    if i < j {
        assert(calls.take(j).drop_last() =~= calls.take(j - 1));
        lemma_worker_count_take(calls, i, j - 1);
    }
}

proof fn lemma_worker_count_bounds(calls: Seq<bool>)
    ensures
        worker_count(calls) <= calls.len(),
        (forall|i: int, j: int| 0 <= i < j < calls.len() && calls[i] ==> !calls[j])
            ==> worker_count(calls) + 1 >= calls.len(),
    decreases calls.len(),
{
    if calls.len() > 0 {
        let prefix = calls.drop_last();
        lemma_worker_count_bounds(prefix);
        if forall|i: int, j: int| 0 <= i < j < calls.len() && calls[i] ==> !calls[j] {
            if calls.last() {
                assert forall|i: int| 0 <= i < prefix.len() implies !prefix[i] by {
                    assert(prefix[i] == calls[i]);
                }
                lemma_worker_count_all(prefix);
            } else {
                assert forall|i: int, j: int| 0 <= i < j < prefix.len() && prefix[i] implies !prefix[j] by {
                    assert(prefix[i] == calls[i] && prefix[j] == calls[j]);
                }
            }
        }
    }
}

proof fn lemma_worker_count_all(calls: Seq<bool>)
    requires
        forall|i: int| 0 <= i < calls.len() ==> !calls[i],
    ensures
        worker_count(calls) == calls.len(),
    decreases calls.len(),
{
    if calls.len() > 0 {
        let prefix = calls.drop_last();
        assert forall|i: int| 0 <= i < prefix.len() implies !prefix[i] by {
            assert(prefix[i] == calls[i]);
        }
        lemma_worker_count_all(prefix);
    }
}

/// Whether the slots in use in `masks` are those below `w`, and the main
/// thread's slot when `main` holds.
spec fn taken_as_expected(masks: Seq<u128>, w: int, main: bool) -> bool {
    forall|k: int|
        0 <= k < THREAD_CONTEXT_COUNT ==> (#[trigger] slot_taken(masks, k) <==> (k < w || (k
            == MAIN_THREAD_CONTEXT_INDEX && main)))
}

/// Whether the main thread is among the first `i` calls.
spec fn main_before(calls: Seq<bool>, i: int) -> bool {
    exists|t: int| 0 <= t < i && #[trigger] calls[t]
}

proof fn lemma_take_worker(m: Seq<u128>, w: int, main: bool)
    requires
        m.len() == THREAD_CONTEXT_MASK_COUNT,
        taken_as_expected(m, w, main),
        0 <= w < MAIN_THREAD_CONTEXT_INDEX,
    ensures
        take_slot(m, w).len() == THREAD_CONTEXT_MASK_COUNT,
        taken_as_expected(take_slot(m, w), w + 1, main),
{
    assert(w / 128 == 0 && w % 128 == w);
    assert forall|k: int| 0 <= k < THREAD_CONTEXT_COUNT implies (#[trigger] slot_taken(
        take_slot(m, w),
        k,
    ) <==> (k < w + 1 || (k == MAIN_THREAD_CONTEXT_INDEX && main))) by {
        assert(k / 128 == 0 && k % 128 == k);
        lemma_or_bit(m[0], w as u128, k as u128);
        assert(slot_taken(m, k) <==> (k < w || (k == MAIN_THREAD_CONTEXT_INDEX && main)));
    }
}

proof fn lemma_take_main(m: Seq<u128>, w: int, main: bool)
    requires
        m.len() == THREAD_CONTEXT_MASK_COUNT,
        taken_as_expected(m, w, main),
        0 <= w <= MAIN_THREAD_CONTEXT_INDEX,
    ensures
        take_slot(m, MAIN_THREAD_CONTEXT_INDEX as int).len() == THREAD_CONTEXT_MASK_COUNT,
        taken_as_expected(take_slot(m, MAIN_THREAD_CONTEXT_INDEX as int), w, true),
{
    let a = MAIN_THREAD_CONTEXT_INDEX as int;
    assert(a / 128 == 0 && a % 128 == a);
    assert forall|k: int| 0 <= k < THREAD_CONTEXT_COUNT implies (#[trigger] slot_taken(
        take_slot(m, a),
        k,
    ) <==> (k < w || (k == MAIN_THREAD_CONTEXT_INDEX && true))) by {
        assert(k / 128 == 0 && k % 128 == k);
        lemma_or_bit(m[0], a as u128, k as u128);
        assert(slot_taken(m, k) <==> (k < w || (k == MAIN_THREAD_CONTEXT_INDEX && main)));
    }
}

/// After the first `i` calls of a run, the slots in use are those below the
/// number of workers so far, and the main thread's slot once it registered;
/// each earlier worker got its position among the workers as its slot.
proof fn lemma_registration_prefix(calls: Seq<bool>, states: Seq<Seq<u128>>, slots: Seq<int>, i: int)
    requires
        registration_run(calls, states, slots),
        worker_count(calls) <= MAIN_THREAD_CONTEXT_INDEX,
        0 <= i <= calls.len(),
    ensures
        states[i].len() == THREAD_CONTEXT_MASK_COUNT,
        taken_as_expected(states[i], worker_count(calls.take(i)) as int, main_before(calls, i)),
        forall|t: int|
            0 <= t < i ==> #[trigger] slots[t] == if calls[t] {
                MAIN_THREAD_CONTEXT_INDEX as int
            } else {
                worker_count(calls.take(t)) as int
            },
        forall|t: int| 0 <= t < i && !calls[t] ==> !#[trigger] worker_slots_full(states[t]),
    decreases i,
{
    if i == 0 {
        assert forall|k: int| 0 <= k < THREAD_CONTEXT_COUNT implies !#[trigger] slot_taken(
            states[0],
            k,
        ) by {
            let j = k as u128;
            assert(k / 128 == 0 && k % 128 == k);
            assert((0u128 >> j) & 1u128 == 0u128) by (bit_vector);
        }
        assert(calls.take(0) =~= Seq::<bool>::empty());
    } else {
        let p = i - 1;
        lemma_registration_prefix(calls, states, slots, p);
        lemma_worker_count_take(calls, p, p);
        lemma_worker_count_take(calls, i, calls.len() as int);
        assert(calls.take(calls.len() as int) =~= calls);
        let w = worker_count(calls.take(p)) as int;
        let main = main_before(calls, p);
        assert(register_step(states[p], states[i], calls[p], slots[p]));
        let m = states[p];
        if calls[p] {
            lemma_take_main(m, w, main);
            assert(main_before(calls, i));
        } else {
            assert(main_before(calls, i) == main) by {
                if main_before(calls, i) {
                    let t = choose|t: int| 0 <= t < i && #[trigger] calls[t];
                    assert(t != p);
                }
            }
            assert(w < MAIN_THREAD_CONTEXT_INDEX);
            assert(!slot_taken(m, w));
            assert(!worker_slots_full(m));
            let k0 = slots[p];
            assert(lowest_free_worker_slot(m, k0));
            if k0 < w {
                assert(slot_taken(m, k0));
            }
            if k0 > w {
                assert(slot_taken(m, w));
            }
            assert(k0 == w);
            lemma_take_worker(m, w, main);
        }
    }
}

/// A run of registrations from masks with no slot in use, with at most one
/// call from the main thread and at most as many worker calls as there are
/// worker slots: every worker's `register` succeeds (its slots are never all
/// in use), no slot is handed out twice, the main thread's slot goes only to
/// the main thread, and after all `THREAD_CONTEXT_COUNT` threads have
/// registered every slot is in use.
pub proof fn lemma_registrations_distinct(calls: Seq<bool>, states: Seq<Seq<u128>>, slots: Seq<int>)
    requires
        registration_run(calls, states, slots),
        forall|i: int, j: int| 0 <= i < j < calls.len() && calls[i] ==> !calls[j],
        worker_count(calls) <= MAIN_THREAD_CONTEXT_INDEX,
    ensures
        forall|i: int| 0 <= i < calls.len() && !calls[i] ==> !#[trigger] worker_slots_full(states[i]),
        forall|i: int| 0 <= i < calls.len() ==> 0 <= #[trigger] slots[i] < THREAD_CONTEXT_COUNT,
        forall|i: int| 0 <= i < calls.len() && !calls[i] ==> #[trigger] slots[i] != MAIN_THREAD_CONTEXT_INDEX,
        forall|i: int, j: int| 0 <= i < j < calls.len() ==> #[trigger] slots[i] != #[trigger] slots[j],
        calls.len() == THREAD_CONTEXT_COUNT ==> forall|k: int|
            0 <= k < THREAD_CONTEXT_COUNT ==> #[trigger] slot_taken(states[calls.len() as int], k),
{
    let n = calls.len() as int;
    lemma_registration_prefix(calls, states, slots, n);
    assert(calls.take(n) =~= calls);
    assert forall|i: int| 0 <= i < n && !calls[i] implies #[trigger] slots[i] < MAIN_THREAD_CONTEXT_INDEX by {
        lemma_worker_count_take(calls, i, i);
        lemma_worker_count_take(calls, i + 1, n);
    }
    assert forall|i: int, j: int| 0 <= i < j < n implies #[trigger] slots[i] != #[trigger] slots[j] by {
        if !calls[i] && !calls[j] {
            lemma_worker_count_take(calls, i, i);
            lemma_worker_count_take(calls, i + 1, j);
        } else if !calls[i] {
            assert(slots[i] < MAIN_THREAD_CONTEXT_INDEX);
        } else if !calls[j] {
            assert(slots[j] < MAIN_THREAD_CONTEXT_INDEX);
        }
    }
    if n == THREAD_CONTEXT_COUNT {
        lemma_worker_count_bounds(calls);
        assert(worker_count(calls) == MAIN_THREAD_CONTEXT_INDEX);
        if !main_before(calls, n) {
            assert forall|i: int| 0 <= i < n implies !calls[i] by {
                if calls[i] {
                    assert(main_before(calls, n));
                }
            }
            lemma_worker_count_all(calls);
        }
        assert forall|k: int| 0 <= k < THREAD_CONTEXT_COUNT implies #[trigger] slot_taken(states[n], k) by {
            assert(taken_as_expected(states[n], worker_count(calls) as int, true));
        }
    }
}

} // verus!
