//! The component envelope: one allocation that holds the four capability tables, the
//! allocator reference and the addin; how a table's "this" pointer leads back to it; its
//! lifecycle; and what each table entry does before and after it reaches the addin.
use vstd::prelude::*;

use crate::addin::{Addin, Connection};
use crate::memory::{HostCall, MemoryManager, str_request};
use crate::names::is_first_match;
use crate::variant::{
    committed, decode, decode_slot, held_block, lemma_failed_request, needs_block, spec_tag, usable_block, Slot,
    SlotWrite, TVariant, Value, Variant,
};

verus! {

/// Position of the lifecycle table (init, memory manager, version, done).
pub const INIT_DONE_TABLE: usize = 0;

/// Position of the extension table (names, properties, methods, calls).
pub const LANGUAGE_EXTENDER_TABLE: usize = 1;

/// Position of the locale table.
pub const LOCALE_TABLE: usize = 2;

/// Position of the user interface language table.
pub const USER_LANGUAGE_TABLE: usize = 3;

/// Number of capability tables at the head of the envelope.
pub const TABLE_COUNT: usize = 4;

/// Address of the table pointer at position `index` of the envelope at `envelope`: the
/// "this" pointer the host passes to that table's entries.
pub open spec fn spec_table_address(envelope: int, index: int) -> int {
    envelope + index * size_of::<usize>()
}

/// The envelope that a "this" pointer of the table at position `index` belongs to.
pub open spec fn spec_envelope_address(this: int, index: int) -> int {
    this - index * size_of::<usize>()
}

/// Whether an envelope at `envelope` lies where all its table pointers have addresses.
pub open spec fn envelope_fits(envelope: int) -> bool {
    0 <= envelope && envelope + TABLE_COUNT * size_of::<usize>() <= usize::MAX
}

/// The "this" pointer of the table at position `index` of the envelope at `envelope`.
pub fn table_address(envelope: usize, index: usize) -> (r: usize)
    requires
        index < TABLE_COUNT,
        envelope_fits(envelope as int),
    ensures
        r == spec_table_address(envelope as int, index as int),
{
    let size = core::mem::size_of::<usize>();
    assert(index * size <= TABLE_COUNT * size) by (nonlinear_arith)
        requires
            index < TABLE_COUNT,
    ;
    envelope + index * size
}

/// Recovers the envelope from the "this" pointer that an entry of the table at position
/// `index` received, by stepping back over the table pointers before it.
pub fn envelope_address(this: usize, index: usize) -> (r: usize)
    requires
        index < TABLE_COUNT,
        this >= index * size_of::<usize>(),
    ensures
        r == spec_envelope_address(this as int, index as int),
{
    let size = core::mem::size_of::<usize>();
    assert(index * size <= this);
    this - index * size
}

/// Recovering the envelope from the "this" pointer of any of its four tables gives the
/// same envelope address.
pub proof fn lemma_this_recovery(envelope: usize, i: usize, j: usize)
    requires
        envelope_fits(envelope as int),
        i < TABLE_COUNT,
        j < TABLE_COUNT,
    ensures
        spec_envelope_address(spec_table_address(envelope as int, i as int), i as int) == envelope,
        spec_envelope_address(spec_table_address(envelope as int, i as int), i as int)
            == spec_envelope_address(spec_table_address(envelope as int, j as int), j as int),
        0 <= spec_table_address(envelope as int, i as int) <= usize::MAX,
{
    assert(0 <= i * size_of::<usize>() <= TABLE_COUNT * size_of::<usize>()) by (nonlinear_arith)
        requires
            i < TABLE_COUNT,
    ;
}

/// Where a component stands between its creation and its destruction.
#[derive(Clone, Copy, PartialEq, Eq, Structural, Debug)]
pub enum Lifecycle {
    /// Created; no memory manager yet.
    Unattached,
    /// The memory manager is attached.
    MemoryReady,
    /// Initialised with the host's connection.
    Active,
    /// `done` was called; only destruction follows.
    Quiescent,
}

/// What the host does to a component's lifecycle.
#[derive(Clone, Copy, PartialEq, Eq, Structural, Debug)]
pub enum LifecycleEvent {
    SetMemoryManager,
    /// `init`, with whether the addin accepted it.
    Init(bool),
    Done,
}

/// The lifecycle state after `event` in state `s`. An event out of order leaves the
/// state as it is.
pub open spec fn spec_next_state(s: Lifecycle, event: LifecycleEvent) -> Lifecycle {
    match (s, event) {
        (Lifecycle::Unattached, LifecycleEvent::SetMemoryManager) => Lifecycle::MemoryReady,
        (Lifecycle::MemoryReady, LifecycleEvent::Init(true)) => Lifecycle::Active,
        (Lifecycle::Active, LifecycleEvent::Done) => Lifecycle::Quiescent,
        _ => s,
    }
}

/// The lifecycle state after `event` in state `s`.
pub fn next_state(s: Lifecycle, event: LifecycleEvent) -> (r: Lifecycle)
    ensures
        r == spec_next_state(s, event),
{
    match (s, event) {
        (Lifecycle::Unattached, LifecycleEvent::SetMemoryManager) => Lifecycle::MemoryReady,
        (Lifecycle::MemoryReady, LifecycleEvent::Init(true)) => Lifecycle::Active,
        (Lifecycle::Active, LifecycleEvent::Done) => Lifecycle::Quiescent,
        _ => s,
    }
}

/// The value the host receives for a count.
pub open spec fn spec_count_to_long(n: usize) -> i64 {
    if n <= i64::MAX {
        n as i64
    } else {
        i64::MAX
    }
}

/// A count as the host's `long`; a count beyond its range is cut to the largest.
pub fn count_to_long(n: usize) -> (r: i64)
    ensures
        r == spec_count_to_long(n),
{
    if n as u64 <= i64::MAX as u64 {
        n as i64
    } else {
        i64::MAX
    }
}

/// The value the host receives for a lookup.
pub open spec fn spec_index_to_long(r: Option<usize>) -> i64 {
    match r {
        Some(i) => if i <= i64::MAX {
            i as i64
        } else {
            -1i64
        },
        None => -1i64,
    }
}

/// A lookup result as the host's `long`: the index, or -1 when nothing was found.
pub fn index_to_long(r: Option<usize>) -> (res: i64)
    ensures
        res == spec_index_to_long(r),
{
    match r {
        Some(i) => if i as u64 <= i64::MAX as u64 {
            i as i64
        } else {
            -1
        },
        None => -1,
    }
}

/// A name lookup matches units exactly, terminator and case included: a name that no
/// entry carries unit for unit is not found, and the host receives -1 for it; a name that
/// is found is the first entry equal to it.
pub proof fn lemma_lookup_sentinel(names: Seq<Seq<u16>>, name: Seq<u16>, r: Option<usize>)
    requires
        is_first_match(names, name, r),
    ensures
        (forall|j: int| 0 <= j < names.len() ==> names[j] != name) ==> r is None
            && spec_index_to_long(r) == -1,
        r matches Some(i) ==> names[i as int] == name && (i <= i64::MAX ==> spec_index_to_long(r) == i),
{
    if let Some(i) = r {
        assert(names[i as int] == name);
    }
}

/// An index the host passed as a `long`: `None` when it is negative or beyond the
/// address space.
pub fn to_index(n: i64) -> (r: Option<usize>)
    ensures
        0 <= n <= usize::MAX ==> r == Some(n as usize),
        !(0 <= n <= usize::MAX) ==> r is None,
{
    if n >= 0 && n as u64 <= usize::MAX as u64 {
        Some(n as usize)
    } else {
        None
    }
}

/// A name to be copied into a fresh host block: the request for the block, and the
/// UTF-16 units to copy into it, terminator included.
pub struct NameCopy {
    pub request: HostCall,
    pub units: Vec<u16>,
}

/// The copy of the name `units`, as the addin gave it, into a fresh host block served
/// by `mem`; `None` when the block's size in bytes does not fit in `usize`.
pub fn name_copy(mem: MemoryManager, units: Vec<u16>) -> (r: Option<NameCopy>)
    ensures
        r matches Some(c) ==> c.units@ == units@ && str_request(units@.len()) == Some(c.request),
        r is None ==> str_request(units@.len()) is None,
{
    match mem.alloc_str(units.len()) {
        Some(request) => Some(NameCopy { request, units }),
        None => None,
    }
}

/// Whether `ws` pairs each of the host slots `slots`, in order, with what was written
/// into it, all served by `mem`.
pub open spec fn pairs_slots(ws: Seq<SlotWrite>, slots: Seq<TVariant>, mem: MemoryManager) -> bool {
    ws.len() == slots.len() && forall|i: int|
        0 <= i < ws.len() ==> #[trigger] ws[i].slot() == slots[i]@ && ws[i].manager() == mem
}

/// Whether nothing was written into any of the slots.
pub open spec fn none_written(ws: Seq<SlotWrite>) -> bool {
    forall|i: int| 0 <= i < ws.len() ==> (#[trigger] ws[i]).written() is None
}

/// The values of the host's parameter slots, handed over for reading.
fn open_params(params: &Vec<TVariant>) -> (r: Vec<Variant>)
    ensures
        r@.len() == params@.len(),
        forall|i: int|
            0 <= i < r@.len() ==> (#[trigger] r@[i]).written() is None && r@[i].value() == decode(params@[i]@),
{
    let mut vals: Vec<Variant> = Vec::new();
    let mut i: usize = 0;
    while i < params.len()
        invariant
            i <= params@.len(),
            vals@.len() == i,
            forall|j: int|
                0 <= j < i ==> (#[trigger] vals@[j]).written() is None && vals@[j].value() == decode(params@[j]@),
        decreases params@.len() - i,
    {
        vals.push(Variant::from_slot(&params[i]));
        i = i + 1;
    }
    vals
}

/// Pairs each host parameter slot with what was written through the value handed over
/// for it; a slot with no value left for it was not written.
fn close_params(mem: MemoryManager, params: &Vec<TVariant>, vals: &Vec<Variant>) -> (r: Vec<SlotWrite>)
    ensures
        pairs_slots(r@, params@, mem),
        forall|i: int|
            0 <= i < r@.len() ==> (#[trigger] r@[i]).written() == (if i < vals@.len() {
                vals@[i].written()
            } else {
                None
            }),
{
    let mut ws: Vec<SlotWrite> = Vec::new();
    let mut i: usize = 0;
    while i < params.len()
        invariant
            i <= params@.len(),
            ws@.len() == i,
            forall|j: int|
                0 <= j < i ==> (#[trigger] ws@[j]).slot() == params@[j]@ && ws@[j].manager() == mem
                    && ws@[j].written() == (if j < vals@.len() {
                    vals@[j].written()
                } else {
                    None
                }),
        decreases params@.len() - i,
    {
        let slot = params[i].duplicate();
        let w = if i < vals.len() {
            SlotWrite::new(mem, slot, &vals[i])
        } else {
            SlotWrite::untouched(mem, slot)
        };
        ws.push(w);
        i = i + 1;
    }
    ws
}

/// The result the host receives for a call that wrote into its slots: the addin's
/// answer, and whether every write was granted.
pub fn settled_result(handler_ok: bool, writes_ok: bool) -> (r: bool)
    ensures
        r == (handler_ok && writes_ok),
{
    handler_ok && writes_ok
}

/// When the addin writes a string or bytes into a host slot that held no block and the
/// host refuses the block, the entry fails whatever the addin answered, and the slot goes
/// back to the host with the tag and value it had.
pub proof fn lemma_refused_write_keeps_slot(slot: Slot, written: Value, block: Option<usize>, handler_ok: bool)
    requires
        needs_block(written),
        !usable_block(block),
        held_block(slot) is None,
    ensures
        !(handler_ok && committed(slot, Some(written), block).1),
        committed(slot, Some(written), block).0 == slot,
        spec_tag(committed(slot, Some(written), block).0) == spec_tag(slot),
{
    lemma_failed_request(slot, written, block);
}

/// The state that the four tables of one envelope share: the allocator reference, the
/// lifecycle state and the addin, which the envelope owns.
pub struct Component<T> {
    memory: Option<MemoryManager>,
    state: Lifecycle,
    addin: T,
}

impl<T: Addin> Component<T> {
    /// The memory manager, once attached.
    pub closed spec fn memory(&self) -> Option<MemoryManager> {
        self.memory
    }

    /// The lifecycle state.
    pub closed spec fn state(&self) -> Lifecycle {
        self.state
    }

    /// The addin.
    pub closed spec fn addin(&self) -> T {
        self.addin
    }

    /// A new component around `addin`, with no memory manager yet.
    pub fn new(addin: T) -> (r: Self)
        ensures
            r.memory() is None,
            r.state() == Lifecycle::Unattached,
            r.addin() == addin,
    {
        Component { memory: None, state: Lifecycle::Unattached, addin }
    }

    /// The lifecycle state.
    pub fn lifecycle(&self) -> (r: Lifecycle)
        ensures
            r == self.state(),
    {
        self.state
    }

    /// Lifecycle table: hands the host's connection to the addin; its answer is the
    /// result.
    pub fn init(&mut self, connection: Connection) -> (r: bool)
        ensures
            final(self).memory() == old(self).memory(),
            final(self).state() == spec_next_state(old(self).state(), LifecycleEvent::Init(r)),
    {
        let ok = self.addin.init(connection);
        self.state = next_state(self.state, LifecycleEvent::Init(ok));
        ok
    }

    /// Lifecycle table: attaches the host's memory manager.
    pub fn set_mem_manager(&mut self, mem: MemoryManager) -> (r: bool)
        ensures
            r,
            final(self).memory() == Some(mem),
            final(self).state() == spec_next_state(old(self).state(), LifecycleEvent::SetMemoryManager),
            final(self).addin() == old(self).addin(),
    {
        self.memory = Some(mem);
        self.state = next_state(self.state, LifecycleEvent::SetMemoryManager);
        true
    }

    /// Lifecycle table: the protocol version the addin follows.
    pub fn get_info(&mut self) -> (r: i64)
        ensures
            0 <= r <= u16::MAX,
            final(self).memory() == old(self).memory(),
            final(self).state() == old(self).state(),
    {
        self.addin.get_info() as i64
    }

    /// Lifecycle table: the host is about to destroy the component.
    pub fn done(&mut self)
        ensures
            final(self).memory() == old(self).memory(),
            final(self).state() == spec_next_state(old(self).state(), LifecycleEvent::Done),
    {
        self.addin.done();
        self.state = next_state(self.state, LifecycleEvent::Done);
    }

    /// Extension table: the extension's name, to be copied into a fresh host block.
    /// `None`, before the addin is asked, when no memory manager is attached; `None` too
    /// when the name's size does not fit in `usize`.
    pub fn register_extension_as(&mut self) -> (r: Option<NameCopy>)
        ensures
            final(self).memory() == old(self).memory(),
            final(self).state() == old(self).state(),
            old(self).memory() is None ==> r is None && final(self).addin() == old(self).addin(),
            r matches Some(c) ==> str_request(c.units@.len()) == Some(c.request),
    {
        match self.memory {
            None => None,
            Some(mem) => {
                let name = self.addin.register_extension_as();
                name_copy(mem, name)
            },
        }
    }

    /// Extension table: number of properties.
    pub fn get_n_props(&mut self) -> (r: i64)
        ensures
            r >= 0,
            final(self).memory() == old(self).memory(),
            final(self).state() == old(self).state(),
    {
        count_to_long(self.addin.get_n_props())
    }

    /// Extension table: index of the property named `name`, or -1.
    pub fn find_prop(&mut self, name: &[u16]) -> (r: i64)
        ensures
            r >= -1,
            final(self).memory() == old(self).memory(),
            final(self).state() == old(self).state(),
    {
        index_to_long(self.addin.find_prop(name))
    }

    /// Extension table: name of property `num`, to be copied into a fresh host block.
    /// `None`, before the addin is asked, when no memory manager is attached or an index
    /// is negative.
    pub fn get_prop_name(&mut self, num: i64, alias: i64) -> (r: Option<NameCopy>)
        ensures
            final(self).memory() == old(self).memory(),
            final(self).state() == old(self).state(),
            old(self).memory() is None || num < 0 ==> r is None && final(self).addin()
                == old(self).addin(),
            r matches Some(c) ==> str_request(c.units@.len()) == Some(c.request),
    {
        let Some(mem) = self.memory else {
            return None;
        };
        let Some(num) = to_index(num) else {
            return None;
        };
        let alias = match to_index(alias) {
            Some(a) => a,
            None => 0,
        };
        match self.addin.get_prop_name(num, alias) {
            Some(name) => name_copy(mem, name),
            None => None,
        }
    }

    /// The attached memory manager, if any.
    pub fn memory_manager(&self) -> (r: Option<MemoryManager>)
        ensures
            r == self.memory(),
    {
        self.memory
    }

    /// Extension table: writes the value of property `num` into the host slot `slot`.
    /// Without a memory manager it fails before the addin is asked, and the slot is left
    /// to the host as it is; a negative index fails the same way, with the slot returned
    /// untouched. Otherwise the slot comes back paired with what the addin wrote.
    pub fn get_prop_val(&mut self, num: i64, slot: TVariant) -> (r: (bool, Option<SlotWrite>))
        ensures
            final(self).memory() == old(self).memory(),
            final(self).state() == old(self).state(),
            old(self).memory() is None ==> !r.0 && r.1 is None && final(self).addin() == old(self).addin(),
            old(self).memory() matches Some(mem) ==> (r.1 matches Some(w) && w.slot() == slot@ && w.manager()
                == mem),
            num < 0 ==> !r.0 && final(self).addin() == old(self).addin() && (r.1 matches Some(w) ==> w.written() is None),
    {
        let Some(mem) = self.memory else {
            return (false, None);
        };
        let mut val = Variant::from_slot(&slot);
        let ok = match to_index(num) {
            Some(i) => self.addin.get_prop_val(i, &mut val),
            None => false,
        };
        (ok, Some(SlotWrite::new(mem, slot, &val)))
    }

    /// Extension table: sets property `num` to the value the host slot `val` holds,
    /// decoded. A negative index fails before the addin is asked.
    pub fn set_prop_val(&mut self, num: i64, val: &TVariant) -> (r: bool)
        ensures
            final(self).memory() == old(self).memory(),
            final(self).state() == old(self).state(),
            num < 0 ==> !r && final(self).addin() == old(self).addin(),
    {
        match to_index(num) {
            Some(i) => {
                let param = decode_slot(val);
                self.addin.set_prop_val(i, &param)
            },
            None => false,
        }
    }

    /// Extension table: whether property `num` can be read; never for a negative index.
    pub fn is_prop_readable(&mut self, num: i64) -> (r: bool)
        ensures
            final(self).memory() == old(self).memory(),
            final(self).state() == old(self).state(),
            num < 0 ==> !r,
    {
        match to_index(num) {
            Some(i) => self.addin.is_prop_readable(i),
            None => false,
        }
    }

    /// Extension table: whether property `num` can be written; never for a negative
    /// index.
    pub fn is_prop_writable(&mut self, num: i64) -> (r: bool)
        ensures
            final(self).memory() == old(self).memory(),
            final(self).state() == old(self).state(),
            num < 0 ==> !r,
    {
        match to_index(num) {
            Some(i) => self.addin.is_prop_writable(i),
            None => false,
        }
    }

    /// Extension table: number of methods.
    pub fn get_n_methods(&mut self) -> (r: i64)
        ensures
            r >= 0,
            final(self).memory() == old(self).memory(),
            final(self).state() == old(self).state(),
    {
        count_to_long(self.addin.get_n_methods())
    }

    /// Extension table: index of the method named `name`, or -1.
    pub fn find_method(&mut self, name: &[u16]) -> (r: i64)
        ensures
            r >= -1,
            final(self).memory() == old(self).memory(),
            final(self).state() == old(self).state(),
    {
        index_to_long(self.addin.find_method(name))
    }

    /// Extension table: name of method `num`, to be copied into a fresh host block.
    /// `None`, before the addin is asked, when no memory manager is attached or an index
    /// is negative.
    pub fn get_method_name(&mut self, num: i64, alias: i64) -> (r: Option<NameCopy>)
        ensures
            final(self).memory() == old(self).memory(),
            final(self).state() == old(self).state(),
            old(self).memory() is None || num < 0 ==> r is None && final(self).addin()
                == old(self).addin(),
            r matches Some(c) ==> str_request(c.units@.len()) == Some(c.request),
    {
        let Some(mem) = self.memory else {
            return None;
        };
        let Some(num) = to_index(num) else {
            return None;
        };
        let alias = match to_index(alias) {
            Some(a) => a,
            None => 0,
        };
        match self.addin.get_method_name(num, alias) {
            Some(name) => name_copy(mem, name),
            None => None,
        }
    }

    /// Extension table: number of parameters of method `num`; 0 for a negative index.
    pub fn get_n_params(&mut self, num: i64) -> (r: i64)
        ensures
            r >= 0,
            final(self).memory() == old(self).memory(),
            final(self).state() == old(self).state(),
            num < 0 ==> r == 0,
    {
        match to_index(num) {
            Some(i) => count_to_long(self.addin.get_n_params(i)),
            None => 0,
        }
    }

    /// Extension table: writes the default value of parameter `param_num` of method
    /// `method_num` into the host slot `slot`. Without a memory manager it fails before
    /// the addin is asked, and the slot is left to the host as it is; a negative index
    /// fails the same way, with the slot returned untouched.
    pub fn get_param_def_value(&mut self, method_num: i64, param_num: i64, slot: TVariant) -> (r: (
        bool,
        Option<SlotWrite>,
    ))
        ensures
            final(self).memory() == old(self).memory(),
            final(self).state() == old(self).state(),
            old(self).memory() is None ==> !r.0 && r.1 is None && final(self).addin() == old(self).addin(),
            old(self).memory() matches Some(mem) ==> (r.1 matches Some(w) && w.slot() == slot@ && w.manager()
                == mem),
            method_num < 0 || param_num < 0 ==> !r.0 && final(self).addin() == old(self).addin() && (
            r.1 matches Some(w) ==> w.written() is None),
    {
        let Some(mem) = self.memory else {
            return (false, None);
        };
        let mut val = Variant::from_slot(&slot);
        let ok = match (to_index(method_num), to_index(param_num)) {
            (Some(m), Some(p)) => self.addin.get_param_def_value(m, p, &mut val),
            _ => false,
        };
        (ok, Some(SlotWrite::new(mem, slot, &val)))
    }

    /// Extension table: whether method `num` returns a value; never for a negative index.
    pub fn has_ret_val(&mut self, num: i64) -> (r: bool)
        ensures
            final(self).memory() == old(self).memory(),
            final(self).state() == old(self).state(),
            num < 0 ==> !r,
    {
        match to_index(num) {
            Some(i) => self.addin.has_ret_val(i),
            None => false,
        }
    }

    /// Extension table: calls method `num` as a procedure on the host's parameter
    /// slots. There is no result slot to write. Without a memory manager it fails before
    /// the addin is asked and the slots are left to the host as they are; a negative
    /// index fails the same way, with the slots returned untouched. Otherwise each slot
    /// comes back, in order, paired with what the addin wrote into it.
    pub fn call_as_proc(&mut self, num: i64, params: Vec<TVariant>) -> (r: (bool, Option<Vec<SlotWrite>>))
        ensures
            final(self).memory() == old(self).memory(),
            final(self).state() == old(self).state(),
            old(self).memory() is None ==> !r.0 && r.1 is None && final(self).addin() == old(self).addin(),
            old(self).memory() matches Some(mem) ==> (r.1 matches Some(ws) && pairs_slots(ws@, params@, mem)),
            num < 0 ==> !r.0 && final(self).addin() == old(self).addin() && (r.1 matches Some(ws) ==> none_written(ws@)),
    {
        let Some(mem) = self.memory else {
            return (false, None);
        };
        let mut vals = open_params(&params);
        let ok = match to_index(num) {
            Some(i) => self.addin.call_as_proc(i, vals.as_mut_slice()),
            None => false,
        };
        (ok, Some(close_params(mem, &params, &vals)))
    }

    /// Extension table: calls method `num` as a function on the host's parameter slots,
    /// its result going into the host slot `ret`. Without a memory manager it fails
    /// before the addin is asked and the slots are left to the host as they are; a
    /// negative index fails the same way, with the slots returned untouched. Otherwise
    /// each slot comes back, in order, paired with what the addin wrote into it.
    pub fn call_as_func(&mut self, num: i64, params: Vec<TVariant>, ret: TVariant) -> (r: (
        bool,
        Option<(Vec<SlotWrite>, SlotWrite)>,
    ))
        ensures
            final(self).memory() == old(self).memory(),
            final(self).state() == old(self).state(),
            old(self).memory() is None ==> !r.0 && r.1 is None && final(self).addin() == old(self).addin(),
            old(self).memory() matches Some(mem) ==> (r.1 matches Some((ws, w)) && pairs_slots(ws@, params@, mem)
                && w.slot() == ret@ && w.manager() == mem),
            num < 0 ==> !r.0 && final(self).addin() == old(self).addin() && (r.1 matches Some((ws, w)) ==> none_written(ws@)
                && w.written() is None),
    {
        let Some(mem) = self.memory else {
            return (false, None);
        };
        let mut vals = open_params(&params);
        let mut val = Variant::from_slot(&ret);
        let ok = match to_index(num) {
            Some(i) => self.addin.call_as_func(i, vals.as_mut_slice(), &mut val),
            None => false,
        };
        (ok, Some((close_params(mem, &params, &vals), SlotWrite::new(mem, ret, &val))))
    }

    /// Locale table: the host's locale.
    pub fn set_locale(&mut self, loc: &[u16])
        ensures
            final(self).memory() == old(self).memory(),
            final(self).state() == old(self).state(),
    {
        self.addin.set_locale(loc)
    }

    /// User interface language table: the host's interface language.
    pub fn set_user_interface_language_code(&mut self, lang: &[u16])
        ensures
            final(self).memory() == old(self).memory(),
            final(self).state() == old(self).state(),
    {
        self.addin.set_user_interface_language_code(lang)
    }
}

/// How the host may attach the module.
#[derive(Clone, Copy, PartialEq, Eq, Structural, Debug)]
pub enum AttachType {
    NotIsolated,
    Isolated,
    Any,
}

impl AttachType {
    /// The value the host expects for this attach mode.
    pub fn code(&self) -> (r: i32)
        ensures
            *self == AttachType::NotIsolated ==> r == 1,
            *self == AttachType::Isolated ==> r == 2,
            *self == AttachType::Any ==> r == 3,
    {
        match self {
            AttachType::NotIsolated => 1,
            AttachType::Isolated => 2,
            AttachType::Any => 3,
        }
    }
}

/// The answer a module gives when the host reports its platform capabilities.
pub const PLATFORM_CAPABILITIES_ACK: i32 = 3;

/// The platform capability value before the host has reported one.
pub const CAPABILITIES_UNKNOWN: i32 = -1;

} // verus!
