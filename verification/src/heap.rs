//! The CPU's object heap: numbered word arrays with id reuse.
use vstd::prelude::*;
use crate::word::Word;

verus! {

/// Why a heap request was refused.
#[derive(Debug, Clone, Copy, PartialEq, Eq, Structural)]
pub enum HeapError {
    /// The id names no slot that was ever allocated.
    InvalidId(u32),
    /// The id names a slot whose object was already deallocated (on `dealloc`).
    DoubleFree(u32),
    /// The id names a slot whose object has been deallocated (on `get`).
    Deallocated(u32),
}

/// The abstract state of a heap: every slot ever allocated, in id order, with
/// its object if it is live, and the ids free for reuse, most recent last.
#[verifier::ext_equal]
pub struct HeapView {
    pub slots: Seq<Option<Seq<Word>>>,
    pub free_list: Seq<u32>,
}

impl HeapView {
    /// The empty heap.
    pub open spec fn empty() -> HeapView {
        HeapView { slots: Seq::empty(), free_list: Seq::empty() }
    }

    /// The free list holds exactly the ids of the dead slots, each once, and
    /// every slot has a `u32` id.
    pub open spec fn wf(self) -> bool {
        &&& self.slots.len() <= u32::MAX as nat + 1
        &&& forall|i: int| 0 <= i < self.free_list.len() ==> #[trigger] self.free_list[i] < self.slots.len()
        &&& forall|i: int| 0 <= i < self.free_list.len() ==> self.slots[#[trigger] self.free_list[i] as int] is None
        &&& forall|i: int, j: int|
            0 <= i < j < self.free_list.len() ==> self.free_list[i] != self.free_list[j]
        &&& forall|id: int|
            0 <= id < self.slots.len() && self.slots[id] is None ==> #[trigger] self.free_list.contains(
                id as u32,
            )
    }

    /// Whether `alloc` can hand out an id: a freed id is waiting, or a new
    /// slot still has a `u32` id.
    pub open spec fn can_alloc(self) -> bool {
        self.free_list.len() > 0 || self.slots.len() <= u32::MAX
    }

    /// The id that the next allocation receives: the most recently freed id,
    /// else the next new slot.
    pub open spec fn next_id(self) -> u32 {
        if self.free_list.len() > 0 {
            self.free_list.last()
        } else {
            self.slots.len() as u32
        }
    }

    /// The heap after allocating `values`.
    pub open spec fn after_alloc(self, values: Seq<Word>) -> HeapView {
        if self.free_list.len() > 0 {
            HeapView {
                slots: self.slots.update(self.free_list.last() as int, Some(values)),
                free_list: self.free_list.drop_last(),
            }
        } else {
            HeapView { slots: self.slots.push(Some(values)), free_list: self.free_list }
        }
    }

    /// The heap after deallocating `id`, or why that is refused.
    pub open spec fn after_dealloc(self, id: u32) -> Result<HeapView, HeapError> {
        if id >= self.slots.len() {
            Err(HeapError::InvalidId(id))
        } else if self.slots[id as int] is None {
            Err(HeapError::DoubleFree(id))
        } else {
            Ok(
                HeapView {
                    slots: self.slots.update(id as int, None),
                    free_list: self.free_list.push(id),
                },
            )
        }
    }

    /// The live object with id `id`, or why there is none.
    pub open spec fn lookup(self, id: u32) -> Result<Seq<Word>, HeapError> {
        if id >= self.slots.len() {
            Err(HeapError::InvalidId(id))
        } else {
            match self.slots[id as int] {
                Some(values) => Ok(values),
                None => Err(HeapError::Deallocated(id)),
            }
        }
    }
}

/// A heap of word arrays addressed by `u32` ids; deallocated ids are reused,
/// the most recently freed first.
#[derive(Debug, Clone)]
pub struct Heap {
    slots: Vec<Option<Vec<Word>>>,
    free_list: Vec<u32>,
}

impl View for Heap {
    type V = HeapView;

    closed spec fn view(&self) -> HeapView {
        HeapView {
            slots: Seq::new(self.slots@.len(), |i: int| match self.slots@[i] {
                Some(v) => Some(v@),
                None => None,
            }),
            free_list: self.free_list@,
        }
    }
}

impl Heap {
    /// An empty heap.
    pub fn new() -> (heap: Heap)
        ensures
            heap@ == HeapView::empty(),
            heap@.wf(),
    {
        let heap = Heap { slots: Vec::new(), free_list: Vec::new() };
        assert(heap@.slots =~= Seq::<Option<Seq<Word>>>::empty());
        heap
    }

    /// Stores `values` as a new object and returns its id: the most recently
    /// freed id if there is one, else a fresh one.
    pub fn allocate(&mut self, values: Vec<Word>) -> (id: u32)
        requires
            old(self)@.wf(),
            old(self)@.can_alloc(),
        ensures
            id == old(self)@.next_id(),
            final(self)@ == old(self)@.after_alloc(values@),
            final(self)@.wf(),
    {
        let ghost old_view = self@;
        if let Some(id) = self.free_list.pop() {
            proof {
                assert(old_view.free_list.contains(id)) by {
                    assert(old_view.free_list[old_view.free_list.len() - 1] == id);
                }
            }
            self.slots.set(id as usize, Some(values));
            proof {
                let v = self@;
                let target = old_view.after_alloc(values@);
                assert(v.slots =~= target.slots);
                assert(v.free_list =~= target.free_list);
                assert forall|k: int| 0 <= k < v.slots.len() && v.slots[k] is None implies #[trigger] v.free_list.contains(k as u32) by {
                    assert(k != id as int);
                    assert(old_view.slots[k] is None);
                    assert(old_view.free_list.contains(k as u32));
                    let j = choose|j: int| 0 <= j < old_view.free_list.len() && old_view.free_list[j] == k as u32;
                    assert(j != old_view.free_list.len() - 1);
                    assert(v.free_list[j] == k as u32);
                }
            }
            id
        } else {
            let id = self.slots.len() as u32;
            self.slots.push(Some(values));
            proof {
                let v = self@;
                let target = old_view.after_alloc(values@);
                assert(v.slots =~= target.slots);
                assert(v.free_list =~= target.free_list);
            }
            id
        }
    }

    /// Deallocates the object `id`, making its id free for reuse.
    pub fn dealloc(&mut self, id: u32) -> (r: Result<(), HeapError>)
        requires
            old(self)@.wf(),
        ensures
            match old(self)@.after_dealloc(id) {
                Ok(h) => r is Ok && final(self)@ == h,
                Err(e) => r == Err::<(), HeapError>(e) && final(self)@ == old(self)@,
            },
            final(self)@.wf(),
    {
        let ghost old_view = self@;
        if (id as usize) >= self.slots.len() {
            return Err(HeapError::InvalidId(id));
        }
        if self.slots[id as usize].is_none() {
            return Err(HeapError::DoubleFree(id));
        }
        self.slots.set(id as usize, None);
        self.free_list.push(id);
        proof {
            let v = self@;
            let target = old_view.after_dealloc(id)->Ok_0;
            assert(v.slots =~= target.slots);
            assert(v.free_list =~= target.free_list);
            assert forall|k: int| 0 <= k < v.slots.len() && v.slots[k] is None implies #[trigger] v.free_list.contains(k as u32) by {
                if k == id as int {
                    assert(v.free_list[v.free_list.len() - 1] == id);
                } else {
                    assert(old_view.free_list.contains(k as u32));
                    let j = choose|j: int| 0 <= j < old_view.free_list.len() && old_view.free_list[j] == k as u32;
                    assert(v.free_list[j] == k as u32);
                }
            }
            assert forall|i: int, j: int| 0 <= i < j < v.free_list.len() implies v.free_list[i] != v.free_list[j] by {
                if j == v.free_list.len() - 1 {
                    assert(old_view.slots[old_view.free_list[i] as int] is None);
                }
            }
        }
        Ok(())
    }

    /// The words of the live object `id`.
    pub fn get(&self, id: u32) -> (r: Result<&[Word], HeapError>)
        requires
            self@.wf(),
        ensures
            match self@.lookup(id) {
                Ok(values) => r is Ok && r->Ok_0@ == values,
                Err(e) => r == Err::<&[Word], HeapError>(e),
            },
    {
        if (id as usize) >= self.slots.len() {
            return Err(HeapError::InvalidId(id));
        }
        match &self.slots[id as usize] {
            Some(values) => Ok(values.as_slice()),
            None => Err(HeapError::Deallocated(id)),
        }
    }

    /// Removes every object and forgets every id.
    pub fn clear(&mut self)
        ensures
            final(self)@ == HeapView::empty(),
            final(self)@.wf(),
    {
        self.slots.clear();
        self.free_list.clear();
        assert(self@.slots =~= Seq::<Option<Seq<Word>>>::empty());
    }

    /// Whether another object can be allocated: an id is free for reuse, or
    /// a fresh id remains.
    pub fn can_allocate(&self) -> (b: bool)
        ensures
            b == self@.can_alloc(),
    {
        self.free_list.len() > 0 || self.slots.len() <= u32::MAX as usize
    }

    /// Whether no slot was ever allocated since the heap was made or cleared.
    pub fn is_empty(&self) -> (b: bool)
        ensures
            b == (self@.slots.len() == 0),
    {
        self.slots.len() == 0
    }
}

/// An allocated object can be read back with the id that `alloc` returned.
pub proof fn lemma_alloc_then_get(heap: HeapView, values: Seq<Word>)
    requires
        heap.wf(),
        heap.can_alloc(),
    ensures
        heap.after_alloc(values).lookup(heap.next_id()) == Ok::<Seq<Word>, HeapError>(values),
{
    if heap.free_list.len() > 0 {
        assert(heap.free_list[heap.free_list.len() - 1] < heap.slots.len());
    }
}

/// Allocating keeps every other live object as it was.
pub proof fn lemma_alloc_preserves_others(heap: HeapView, values: Seq<Word>, other: u32)
    requires
        heap.wf(),
        heap.can_alloc(),
        heap.lookup(other) is Ok,
    ensures
        heap.after_alloc(values).lookup(other) == heap.lookup(other),
        other != heap.next_id(),
{
    if heap.free_list.len() > 0 {
        let last = heap.free_list[heap.free_list.len() - 1];
        assert(heap.slots[last as int] is None);
    }
}

/// A live object can be deallocated once; a second deallocation is refused as
/// a double free, and reading it afterwards is refused as deallocated.
pub proof fn lemma_dealloc_twice(heap: HeapView, id: u32)
    requires
        heap.wf(),
        heap.lookup(id) is Ok,
    ensures
        heap.after_dealloc(id) is Ok,
        heap.after_dealloc(id)->Ok_0.after_dealloc(id) == Err::<HeapView, HeapError>(HeapError::DoubleFree(id)),
        heap.after_dealloc(id)->Ok_0.lookup(id) == Err::<Seq<Word>, HeapError>(HeapError::Deallocated(id)),
{
}

/// The id freed last is the id handed out next.
pub proof fn lemma_dealloc_then_alloc_reuses(heap: HeapView, id: u32, values: Seq<Word>)
    requires
        heap.wf(),
        heap.lookup(id) is Ok,
    ensures
        heap.after_dealloc(id)->Ok_0.next_id() == id,
        heap.after_dealloc(id)->Ok_0.after_alloc(values).lookup(id) == Ok::<Seq<Word>, HeapError>(values),
{
}

/// Allocation keeps the heap consistent.
pub proof fn lemma_alloc_preserves_wf(heap: HeapView, values: Seq<Word>)
    requires
        heap.wf(),
        heap.can_alloc(),
    ensures
        heap.after_alloc(values).wf(),
{
    let v = heap.after_alloc(values);
    if heap.free_list.len() > 0 {
        let id = heap.free_list.last();
        assert forall|k: int| 0 <= k < v.slots.len() && v.slots[k] is None implies #[trigger] v.free_list.contains(k as u32) by {
            assert(k != id as int);
            assert(heap.free_list.contains(k as u32));
            let j = choose|j: int| 0 <= j < heap.free_list.len() && heap.free_list[j] == k as u32;
            assert(j != heap.free_list.len() - 1);
            assert(v.free_list[j] == k as u32);
        }
    }
}

/// Deallocation keeps the heap consistent.
pub proof fn lemma_dealloc_preserves_wf(heap: HeapView, id: u32)
    requires
        heap.wf(),
    ensures
        heap.after_dealloc(id) is Ok ==> heap.after_dealloc(id)->Ok_0.wf(),
{
    if let Ok(v) = heap.after_dealloc(id) {
        assert forall|k: int| 0 <= k < v.slots.len() && v.slots[k] is None implies #[trigger] v.free_list.contains(k as u32) by {
            if k == id as int {
                assert(v.free_list[v.free_list.len() - 1] == id);
            } else {
                assert(heap.free_list.contains(k as u32));
                let j = choose|j: int| 0 <= j < heap.free_list.len() && heap.free_list[j] == k as u32;
                assert(v.free_list[j] == k as u32);
            }
        }
        assert forall|i: int, j: int| 0 <= i < j < v.free_list.len() implies v.free_list[i] != v.free_list[j] by {
            if j == v.free_list.len() - 1 {
                assert(heap.slots[heap.free_list[i] as int] is None);
            }
        }
    }
}

/// One heap operation, as the history law below replays it.
pub enum HeapEvent {
    Alloc(Seq<Word>),
    Dealloc(u32),
    Clear,
}

/// The heap after `events`, applied in order to the empty heap. A refused
/// deallocation leaves the heap as it was.
pub open spec fn replay(events: Seq<HeapEvent>) -> HeapView
    decreases events.len(),
{
    if events.len() == 0 {
        HeapView::empty()
    } else {
        let before = replay(events.drop_last());
        match events.last() {
            HeapEvent::Alloc(values) => before.after_alloc(values),
            HeapEvent::Dealloc(id) => match before.after_dealloc(id) {
                Ok(h) => h,
                Err(_) => before,
            },
            HeapEvent::Clear => HeapView::empty(),
        }
    }
}

/// Every allocation of `events` happens while the heap can still hand out
/// an id, as `allocate` requires.
pub open spec fn allocations_fit(events: Seq<HeapEvent>) -> bool {
    forall|k: int|
        0 <= k < events.len() && (#[trigger] events[k]) is Alloc ==> replay(events.take(k)).can_alloc()
}

/// The object that id `id` holds after `events`: the values of the last
/// allocation that returned `id`, unless a deallocation of `id` or a clear
/// came after it.
pub open spec fn live_object(events: Seq<HeapEvent>, id: u32) -> Option<Seq<Word>>
    decreases events.len(),
{
    if events.len() == 0 {
        None
    } else {
        let prev = events.drop_last();
        match events.last() {
            HeapEvent::Alloc(values) => if replay(prev).next_id() == id {
                Some(values)
            } else {
                live_object(prev, id)
            },
            HeapEvent::Dealloc(d) => if d == id {
                None
            } else {
                live_object(prev, id)
            },
            HeapEvent::Clear => None,
        }
    }
}

/// Every replayed history keeps the heap consistent.
pub proof fn lemma_replay_wf(events: Seq<HeapEvent>)
    requires
        allocations_fit(events),
    ensures
        replay(events).wf(),
    decreases events.len(),
{
    if events.len() > 0 {
        let prev = events.drop_last();
        assert forall|k: int| 0 <= k < prev.len() && (#[trigger] prev[k]) is Alloc implies replay(prev.take(k)).can_alloc() by {
            assert(prev.take(k) == events.take(k));
            assert(events[k] == prev[k]);
        }
        lemma_replay_wf(prev);
        match events.last() {
            HeapEvent::Alloc(values) => {
                assert(events.take(events.len() - 1) == prev);
                assert(events[events.len() - 1] is Alloc);
                lemma_alloc_preserves_wf(replay(prev), values);
            },
            HeapEvent::Dealloc(id) => {
                lemma_dealloc_preserves_wf(replay(prev), id);
            },
            HeapEvent::Clear => {},
        }
    }
}

/// Reading id `id` after any history of allocations, deallocations and
/// clears gives the values of the last allocation that returned `id`, when
/// no deallocation of `id` and no clear followed it; otherwise it is
/// refused, as an invalid id when no slot has it and as deallocated when
/// its slot is free.
pub proof fn lemma_heap_history(events: Seq<HeapEvent>, id: u32)
    requires
        allocations_fit(events),
    ensures
        replay(events).lookup(id) == (match live_object(events, id) {
            Some(values) => Ok::<Seq<Word>, HeapError>(values),
            None => if id >= replay(events).slots.len() {
                Err::<Seq<Word>, HeapError>(HeapError::InvalidId(id))
            } else {
                Err::<Seq<Word>, HeapError>(HeapError::Deallocated(id))
            },
        }),
    decreases events.len(),
{
    if events.len() > 0 {
        let prev = events.drop_last();
        assert forall|k: int| 0 <= k < prev.len() && (#[trigger] prev[k]) is Alloc implies replay(prev.take(k)).can_alloc() by {
            assert(prev.take(k) == events.take(k));
            assert(events[k] == prev[k]);
        }
        lemma_heap_history(prev, id);
        lemma_replay_wf(prev);
        let before = replay(prev);
        match events.last() {
            HeapEvent::Alloc(values) => {
                assert(events.take(events.len() - 1) == prev);
                assert(events[events.len() - 1] is Alloc);
                if before.next_id() == id {
                    lemma_alloc_then_get(before, values);
                } else if before.free_list.len() > 0 {
                    let last = before.free_list.last();
                    assert(before.slots[last as int] is None);
                }
            },
            HeapEvent::Dealloc(d) => {},
            HeapEvent::Clear => {},
        }
    }
}

} // verus!
