use vstd::prelude::*;

verus! {

/// Number of entries in the frame list.
pub const FRAME_COUNT: usize = 1024;

/// Frame-pointer value of an empty slot: Terminate set.
pub const TERMINATE: u32 = 1;

/// The slot a new transfer is scheduled into when the controller is at frame
/// `frnum`: two frames ahead, so the entry is visible before it is fetched.
pub open spec fn slot_for_spec(frnum: u16) -> int {
    (frnum + 2) % 1024
}

/// An entry that points at a schedule element: Terminate clear.
pub open spec fn is_pointer(entry: u32) -> bool {
    entry & 1 == 0
}

/// The slots that hold a transfer.
pub open spec fn in_flight(entries: Seq<u32>) -> Set<int> {
    Set::new(|i: int| 0 <= i < entries.len() && entries[i] != 1)
}

/// The frame list after `entry` is scheduled at frame `frnum`.
pub open spec fn reserved(entries: Seq<u32>, frnum: u16, entry: u32) -> Seq<u32> {
    entries.update(slot_for_spec(frnum), entry)
}

/// The frame list after `slot` is released.
pub open spec fn released(entries: Seq<u32>, slot: int) -> Seq<u32> {
    entries.update(slot, 1)
}

/// The 1024-entry schedule that the controller walks once per millisecond.
pub struct FrameList {
    entries: Vec<u32>,
}

/// Computes the slot for frame number `frnum`.
pub fn slot_for(frnum: u16) -> (r: u16)
    ensures
        r as int == slot_for_spec(frnum),
        r < 1024,
{
    let x: u32 = frnum as u32 + 2;
    let r = x & 0x3ff;
    assert(x & 0x3ff == x % 1024) by (bit_vector);
    r as u16
}

impl FrameList {
    pub open spec fn wf(&self) -> bool {
        self@.len() == FRAME_COUNT
    }

    pub closed spec fn view(&self) -> Seq<u32> {
        self.entries@
    }

    /// A frame list with every slot empty.
    pub fn new() -> (r: FrameList)
        ensures
            r.wf(),
            r@ == Seq::new(1024, |i: int| 1u32),
            in_flight(r@).is_empty(),
    {
        let mut entries: Vec<u32> = Vec::new();
        let mut i: usize = 0;
        while i < FRAME_COUNT
            invariant
                i <= FRAME_COUNT,
                entries@ == Seq::new(i as nat, |j: int| 1u32),
            decreases FRAME_COUNT - i,
        {
            entries.push(TERMINATE);
            i += 1;
            assert(entries@ =~= Seq::new(i as nat, |j: int| 1u32));
        }
        let r = FrameList { entries };
        assert(in_flight(r@) =~= Set::empty());
        r
    }

    /// The entry of slot `i`.
    pub fn get(&self, i: u16) -> (r: u32)
        requires
            self.wf(),
            i < 1024,
        ensures
            r == self@[i as int],
    {
        self.entries[i as usize]
    }

    /// Schedules `entry` at the slot for frame `frnum` and returns the slot.
    /// The caller holds the frame-list lock across the FRNUM read and this call.
    pub fn reserve_slot(&mut self, frnum: u16, entry: u32) -> (r: u16)
        requires
            old(self).wf(),
        ensures
            final(self).wf(),
            r as int == slot_for_spec(frnum),
            final(self)@ == reserved(old(self)@, frnum, entry),
    {
        let slot = slot_for(frnum);
        self.entries.set(slot as usize, entry);
        slot
    }

    /// Empties slot `slot` (writes Terminate).
    pub fn release_slot(&mut self, slot: u16)
        requires
            old(self).wf(),
            slot < 1024,
        ensures
            final(self).wf(),
            final(self)@ == released(old(self)@, slot as int),
    {
        self.entries.set(slot as usize, TERMINATE);
    }
}

/// The slot picked for a transfer is `(f + 2) mod 1024` for every frame number `f`.
pub proof fn lemma_slot_pick(entries: Seq<u32>, frnum: u16, entry: u32)
    requires
        entries.len() == 1024,
    ensures
        0 <= slot_for_spec(frnum) < 1024,
        slot_for_spec(frnum) == (frnum as int + 2) % 1024,
        reserved(entries, frnum, entry)[slot_for_spec(frnum)] == entry,
{
}

/// Reserving a free slot for a pointer adds exactly that slot to the set in
/// flight, so it is shared with no transfer already in flight; releasing it
/// removes exactly that slot, and a second release changes nothing more.
pub proof fn lemma_reserve_release(entries: Seq<u32>, frnum: u16, entry: u32)
    requires
        entries.len() == 1024,
        is_pointer(entry),
        !in_flight(entries).contains(slot_for_spec(frnum)),
    ensures
        in_flight(reserved(entries, frnum, entry)) == in_flight(entries).insert(
            slot_for_spec(frnum),
        ),
        in_flight(released(reserved(entries, frnum, entry), slot_for_spec(frnum))) == in_flight(
            entries,
        ),
        released(released(reserved(entries, frnum, entry), slot_for_spec(frnum)), slot_for_spec(
            frnum,
        )) == released(reserved(entries, frnum, entry), slot_for_spec(frnum)),
{
    let s = slot_for_spec(frnum);
    assert(entry != 1) by (bit_vector)
        requires
            entry & 1 == 0,
    ;
    let r = reserved(entries, frnum, entry);
    assert(in_flight(r) =~= in_flight(entries).insert(s));
    assert(in_flight(released(r, s)) =~= in_flight(entries));
    assert(released(released(r, s), s) =~= released(r, s));
}

/// Every slot outside the set in flight reads as Terminate.
pub open spec fn unused_slots_terminate(entries: Seq<u32>) -> bool {
    forall|i: int|
        0 <= i < entries.len() && !in_flight(entries).contains(i) ==> #[trigger] entries[i] == 1
}

/// Every slot that holds no transfer reads as Terminate, at every step:
/// on a new list, after any reservation, and after any release.
pub proof fn lemma_unused_slots_terminate(entries: Seq<u32>, frnum: u16, entry: u32, slot: int)
    requires
        entries.len() == 1024,
        0 <= slot < 1024,
    ensures
        unused_slots_terminate(Seq::new(1024, |j: int| 1u32)),
        unused_slots_terminate(entries),
        unused_slots_terminate(reserved(entries, frnum, entry)),
        unused_slots_terminate(released(entries, slot)),
        !in_flight(released(entries, slot)).contains(slot),
{
}

} // verus!
