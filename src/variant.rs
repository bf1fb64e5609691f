//! The tagged value that crosses the boundary: its wire tags, the host-owned slot and
//! the decoded value handed to addin code.
use vstd::prelude::*;

use crate::memory::{HostCall, MemoryManager, str_bytes};

verus! {

/// Wire tag of an empty value.
pub const VTYPE_EMPTY: u16 = 0;

/// Wire tag of a 32-bit signed integer.
pub const VTYPE_I4: u16 = 3;

/// Wire tag of a 64-bit float.
pub const VTYPE_R8: u16 = 5;

/// Wire tag of a broken-down calendar time.
pub const VTYPE_TM: u16 = 7;

/// Wire tag of a boolean.
pub const VTYPE_BOOL: u16 = 11;

/// Wire tag of a UTF-16 string held in host memory.
pub const VTYPE_PWSTR: u16 = 22;

/// Wire tag of a byte block held in host memory.
pub const VTYPE_BLOB: u16 = 23;

/// Broken-down calendar time in the layout of the host's `struct tm`.
#[derive(Clone, Copy, PartialEq, Eq, Structural, Debug)]
pub struct Tm {
    /// Seconds after the minute, 0 to 60.
    pub sec: i32,
    /// Minutes after the hour, 0 to 59.
    pub min: i32,
    /// Hours since midnight, 0 to 23.
    pub hour: i32,
    /// Day of the month, 1 to 31.
    pub mday: i32,
    /// Months since January, 0 to 11.
    pub mon: i32,
    /// Years since 1900.
    pub year: i32,
    /// Days since Sunday, 0 to 6.
    pub wday: i32,
    /// Days since January 1, 0 to 365.
    pub yday: i32,
    /// Daylight saving time flag.
    pub isdst: i32,
    /// Seconds east of UTC, where the platform has the field.
    pub gmtoff: i64,
    /// First character of the time zone abbreviation, where the platform has the field.
    pub zone: i8,
}

impl Tm {
    /// The all-zero time.
    pub open spec fn zero() -> Tm {
        Tm {
            sec: 0,
            min: 0,
            hour: 0,
            mday: 0,
            mon: 0,
            year: 0,
            wday: 0,
            yday: 0,
            isdst: 0,
            gmtoff: 0,
            zone: 0,
        }
    }
}

impl Default for Tm {
    fn default() -> (r: Tm)
        ensures
            r == Tm::zero(),
    {
        Tm {
            sec: 0,
            min: 0,
            hour: 0,
            mday: 0,
            mon: 0,
            year: 0,
            wday: 0,
            yday: 0,
            isdst: 0,
            gmtoff: 0,
            zone: 0,
        }
    }
}

/// What a value is, as a mathematical object.
pub enum Value {
    Empty,
    Bool(bool),
    I32(i32),
    /// A 64-bit float, by its IEEE 754 bits.
    F64(u64),
    Date(Tm),
    Str(Seq<u16>),
    Blob(Seq<u8>),
}

/// A value decoded from a slot, or about to be written into one.
#[derive(Clone, Debug, PartialEq)]
pub enum ParamValue {
    Empty,
    Bool(bool),
    I32(i32),
    /// A 64-bit float, by its IEEE 754 bits (`f64::to_bits`).
    F64(u64),
    Date(Tm),
    Str(Vec<u16>),
    Blob(Vec<u8>),
}

impl View for ParamValue {
    type V = Value;

    open spec fn view(&self) -> Value {
        match self {
            ParamValue::Empty => Value::Empty,
            ParamValue::Bool(b) => Value::Bool(*b),
            ParamValue::I32(i) => Value::I32(*i),
            ParamValue::F64(f) => Value::F64(*f),
            ParamValue::Date(t) => Value::Date(*t),
            ParamValue::Str(s) => Value::Str(s@),
            ParamValue::Blob(b) => Value::Blob(b@),
        }
    }
}

impl ParamValue {
    /// A copy of this value.
    pub fn duplicate(&self) -> (r: ParamValue)
        ensures
            r@ == self@,
    {
        match self {
            ParamValue::Empty => ParamValue::Empty,
            ParamValue::Bool(b) => ParamValue::Bool(*b),
            ParamValue::I32(i) => ParamValue::I32(*i),
            ParamValue::F64(f) => ParamValue::F64(*f),
            ParamValue::Date(t) => ParamValue::Date(*t),
            ParamValue::Str(d) => {
                let c = d.clone();
                assert(c@ =~= d@);
                ParamValue::Str(c)
            },
            ParamValue::Blob(d) => {
                let c = d.clone();
                assert(c@ =~= d@);
                ParamValue::Blob(c)
            },
        }
    }
}

/// The kind of value that a wire tag announces.
#[derive(Clone, Copy, PartialEq, Eq, Structural, Debug)]
pub enum VariantKind {
    Empty,
    Bool,
    I32,
    F64,
    Date,
    Str,
    Blob,
    /// A tag that this binding does not read; it decodes as empty.
    Unsupported,
}

/// The kind that wire tag `vt` announces.
pub open spec fn spec_kind_of_tag(vt: u16) -> VariantKind {
    if vt == VTYPE_EMPTY {
        VariantKind::Empty
    } else if vt == VTYPE_BOOL {
        VariantKind::Bool
    } else if vt == VTYPE_I4 {
        VariantKind::I32
    } else if vt == VTYPE_R8 {
        VariantKind::F64
    } else if vt == VTYPE_TM {
        VariantKind::Date
    } else if vt == VTYPE_PWSTR {
        VariantKind::Str
    } else if vt == VTYPE_BLOB {
        VariantKind::Blob
    } else {
        VariantKind::Unsupported
    }
}

/// Classifies a wire tag: which payload field of the host's slot holds the value.
pub fn kind_of_tag(vt: u16) -> (r: VariantKind)
    ensures
        r == spec_kind_of_tag(vt),
{
    if vt == VTYPE_EMPTY {
        VariantKind::Empty
    } else if vt == VTYPE_BOOL {
        VariantKind::Bool
    } else if vt == VTYPE_I4 {
        VariantKind::I32
    } else if vt == VTYPE_R8 {
        VariantKind::F64
    } else if vt == VTYPE_TM {
        VariantKind::Date
    } else if vt == VTYPE_PWSTR {
        VariantKind::Str
    } else if vt == VTYPE_BLOB {
        VariantKind::Blob
    } else {
        VariantKind::Unsupported
    }
}

/// A host-owned slot, as a mathematical object.
pub enum Slot {
    Empty,
    Bool(bool),
    I32(i32),
    F64(u64),
    Date(Tm),
    /// A string in the host block at the given address.
    Str(usize, Seq<u16>),
    /// Bytes in the host block at the given address.
    Blob(usize, Seq<u8>),
    /// A value of a kind this binding does not read, by its wire tag.
    Other(u16),
}

/// A slot of the host: the tag together with the payload it announces.
#[allow(inconsistent_fields)]
#[derive(Debug, PartialEq)]
pub enum TVariant {
    Empty,
    Bool(bool),
    I32(i32),
    /// A 64-bit float, by its IEEE 754 bits.
    F64(u64),
    Date(Tm),
    /// A string in the host block at `ptr`.
    Str { ptr: usize, data: Vec<u16> },
    /// Bytes in the host block at `ptr`.
    Blob { ptr: usize, data: Vec<u8> },
    /// A value of a kind this binding does not read, by its wire tag.
    Other(u16),
}

impl View for TVariant {
    type V = Slot;

    open spec fn view(&self) -> Slot {
        match self {
            TVariant::Empty => Slot::Empty,
            TVariant::Bool(b) => Slot::Bool(*b),
            TVariant::I32(i) => Slot::I32(*i),
            TVariant::F64(f) => Slot::F64(*f),
            TVariant::Date(t) => Slot::Date(*t),
            TVariant::Str { ptr, data } => Slot::Str(*ptr, data@),
            TVariant::Blob { ptr, data } => Slot::Blob(*ptr, data@),
            TVariant::Other(vt) => Slot::Other(*vt),
        }
    }
}

/// The wire tag of a slot.
pub open spec fn spec_tag(s: Slot) -> u16 {
    match s {
        Slot::Empty => VTYPE_EMPTY,
        Slot::Bool(_) => VTYPE_BOOL,
        Slot::I32(_) => VTYPE_I4,
        Slot::F64(_) => VTYPE_R8,
        Slot::Date(_) => VTYPE_TM,
        Slot::Str(_, _) => VTYPE_PWSTR,
        Slot::Blob(_, _) => VTYPE_BLOB,
        Slot::Other(vt) => vt,
    }
}

/// A slot is well formed when a kind it does not read carries a tag it does not read.
pub open spec fn slot_wf(s: Slot) -> bool {
    s matches Slot::Other(vt) ==> spec_kind_of_tag(vt) == VariantKind::Unsupported
}

/// The kind of payload a slot carries.
pub open spec fn slot_kind(s: Slot) -> VariantKind {
    match s {
        Slot::Empty => VariantKind::Empty,
        Slot::Bool(_) => VariantKind::Bool,
        Slot::I32(_) => VariantKind::I32,
        Slot::F64(_) => VariantKind::F64,
        Slot::Date(_) => VariantKind::Date,
        Slot::Str(_, _) => VariantKind::Str,
        Slot::Blob(_, _) => VariantKind::Blob,
        Slot::Other(_) => VariantKind::Unsupported,
    }
}

/// In a well-formed slot the tag announces the payload the slot carries, so reading the
/// payload its tag names reads the payload that is there.
pub proof fn lemma_tag_announces_payload(s: Slot)
    requires
        slot_wf(s),
    ensures
        spec_kind_of_tag(spec_tag(s)) == slot_kind(s),
{
}

/// The host block that a slot holds, if any: the one to give back before it is
/// overwritten.
pub open spec fn held_block(s: Slot) -> Option<usize> {
    match s {
        Slot::Str(ptr, _) => Some(ptr),
        Slot::Blob(ptr, _) => Some(ptr),
        _ => None,
    }
}

/// What a slot holds, read by its tag; a kind this binding does not read is empty.
pub open spec fn decode(s: Slot) -> Value {
    match s {
        Slot::Empty => Value::Empty,
        Slot::Bool(b) => Value::Bool(b),
        Slot::I32(i) => Value::I32(i),
        Slot::F64(f) => Value::F64(f),
        Slot::Date(t) => Value::Date(t),
        Slot::Str(_, d) => Value::Str(d),
        Slot::Blob(_, d) => Value::Blob(d),
        Slot::Other(_) => Value::Empty,
    }
}

impl TVariant {
    /// A copy of this slot.
    pub fn duplicate(&self) -> (r: TVariant)
        ensures
            r@ == self@,
    {
        match self {
            TVariant::Empty => TVariant::Empty,
            TVariant::Bool(b) => TVariant::Bool(*b),
            TVariant::I32(i) => TVariant::I32(*i),
            TVariant::F64(f) => TVariant::F64(*f),
            TVariant::Date(t) => TVariant::Date(*t),
            TVariant::Str { ptr, data } => {
                let d = data.clone();
                assert(d@ =~= data@);
                TVariant::Str { ptr: *ptr, data: d }
            },
            TVariant::Blob { ptr, data } => {
                let d = data.clone();
                assert(d@ =~= data@);
                TVariant::Blob { ptr: *ptr, data: d }
            },
            TVariant::Other(vt) => TVariant::Other(*vt),
        }
    }

    /// The wire tag of this slot.
    pub fn tag(&self) -> (r: u16)
        ensures
            r == spec_tag(self@),
    {
        match self {
            TVariant::Empty => VTYPE_EMPTY,
            TVariant::Bool(_) => VTYPE_BOOL,
            TVariant::I32(_) => VTYPE_I4,
            TVariant::F64(_) => VTYPE_R8,
            TVariant::Date(_) => VTYPE_TM,
            TVariant::Str { .. } => VTYPE_PWSTR,
            TVariant::Blob { .. } => VTYPE_BLOB,
            TVariant::Other(vt) => *vt,
        }
    }

    /// A slot whose tag this binding does not read.
    pub fn unsupported(vt: u16) -> (r: TVariant)
        ensures
            spec_kind_of_tag(vt) == VariantKind::Unsupported ==> r@ == Slot::Other(vt),
            spec_kind_of_tag(vt) != VariantKind::Unsupported ==> r@ == Slot::Empty,
            slot_wf(r@),
    {
        if kind_of_tag(vt) == VariantKind::Unsupported {
            TVariant::Other(vt)
        } else {
            TVariant::Empty
        }
    }
}

/// Decodes a slot into the value that addin code receives; an unread kind is empty.
pub fn decode_slot(slot: &TVariant) -> (r: ParamValue)
    ensures
        r@ == decode(slot@),
{
    match slot {
        TVariant::Empty => ParamValue::Empty,
        TVariant::Bool(b) => ParamValue::Bool(*b),
        TVariant::I32(i) => ParamValue::I32(*i),
        TVariant::F64(f) => ParamValue::F64(*f),
        TVariant::Date(t) => ParamValue::Date(*t),
        TVariant::Str { data, .. } => {
            let d = data.clone();
            assert(d@ =~= data@);
            ParamValue::Str(d)
        },
        TVariant::Blob { data, .. } => {
            let d = data.clone();
            assert(d@ =~= data@);
            ParamValue::Blob(d)
        },
        TVariant::Other(_) => ParamValue::Empty,
    }
}

/// The calls that give back the block a slot holds, if it holds one.
pub open spec fn release_calls(s: Slot) -> Seq<HostCall> {
    match held_block(s) {
        Some(ptr) => seq![HostCall::Free { ptr }],
        None => seq![],
    }
}

/// Bytes of host memory that a value needs, for the kinds stored in a host block; `None`
/// for the other kinds, and for a string whose size does not fit in `usize`. (The length
/// of a byte block in memory already fits.)
pub open spec fn block_bytes(v: Value) -> Option<usize> {
    match v {
        Value::Str(d) => if str_bytes(d.len()) <= usize::MAX {
            Some(str_bytes(d.len()) as usize)
        } else {
            None
        },
        Value::Blob(d) => Some(d.len() as usize),
        _ => None,
    }
}

/// Whether a value is stored in a host block.
pub open spec fn needs_block(v: Value) -> bool {
    v is Str || v is Blob
}

/// The calls that ask for a block for a value, if it needs one.
pub open spec fn request_calls(v: Value) -> Seq<HostCall> {
    match block_bytes(v) {
        Some(bytes) => seq![HostCall::Alloc { bytes }],
        None => seq![],
    }
}

/// The host calls that writing `w` over slot `s` takes, in order: nothing when nothing
/// was written; else the release of the block the slot holds, then the request for a
/// block for the new value.
pub open spec fn write_calls(s: Slot, w: Option<Value>) -> Seq<HostCall> {
    match w {
        None => seq![],
        Some(v) => release_calls(s) + request_calls(v),
    }
}

/// The slot after a write that failed for want of memory: empty if its block was given
/// back, else untouched.
pub open spec fn failed_slot(s: Slot) -> Slot {
    if held_block(s) is Some {
        Slot::Empty
    } else {
        s
    }
}

/// Whether an answer to a block request names a block.
pub open spec fn usable_block(block: Option<usize>) -> bool {
    match block {
        Some(p) => p != 0,
        None => false,
    }
}

/// The slot, and whether the write succeeded, after `w` is written over `s` and the host
/// answered the block request with `block`.
pub open spec fn committed(s: Slot, w: Option<Value>, block: Option<usize>) -> (Slot, bool) {
    match w {
        None => (s, true),
        Some(v) => match v {
            Value::Empty => (Slot::Empty, true),
            Value::Bool(b) => (Slot::Bool(b), true),
            Value::I32(i) => (Slot::I32(i), true),
            Value::F64(f) => (Slot::F64(f), true),
            Value::Date(t) => (Slot::Date(t), true),
            Value::Str(d) => if block_bytes(v) is Some && usable_block(block) {
                (Slot::Str(block->0, d), true)
            } else {
                (failed_slot(s), false)
            },
            Value::Blob(d) => if block_bytes(v) is Some && usable_block(block) {
                (Slot::Blob(block->0, d), true)
            } else {
                (failed_slot(s), false)
            },
        },
    }
}

/// A value handed to addin code for one call: it reads the value and may write a new
/// one. It holds no host memory: the host slot stays with the caller, which pairs it
/// with what was written through a `SlotWrite` once the call returns.
pub struct Variant {
    current: ParamValue,
    modified: bool,
}

impl Variant {
    /// The value the addin sees now.
    pub closed spec fn value(&self) -> Value {
        self.current@
    }

    /// The value written during this call, if any.
    pub closed spec fn written(&self) -> Option<Value> {
        if self.modified {
            Some(self.current@)
        } else {
            None
        }
    }

    /// A value handed over for reading, not yet written.
    pub fn new(value: ParamValue) -> (r: Variant)
        ensures
            r.value() == value@,
            r.written() is None,
    {
        Variant { current: value, modified: false }
    }

    /// The value a host slot holds, handed over for reading.
    pub fn from_slot(slot: &TVariant) -> (r: Variant)
        ensures
            r.value() == decode(slot@),
            r.written() is None,
    {
        Variant::new(decode_slot(slot))
    }

    /// Whether a value was written during this call.
    pub fn is_modified(&self) -> (r: bool)
        ensures
            r == self.written() is Some,
    {
        self.modified
    }

    /// The value the addin sees now.
    pub fn get(&self) -> (r: ParamValue)
        ensures
            r@ == self.value(),
    {
        self.current.duplicate()
    }

    /// A copy of the value written during this call, if any.
    pub fn written_value(&self) -> (r: Option<ParamValue>)
        ensures
            r matches Some(v) ==> self.written() == Some(v@),
            r is None ==> self.written() is None,
    {
        if self.modified {
            Some(self.current.duplicate())
        } else {
            None
        }
    }

    /// Writes the value `v`.
    pub fn set(&mut self, v: ParamValue)
        ensures
            final(self).value() == v@,
            final(self).written() == Some(v@),
    {
        self.current = v;
        self.modified = true;
    }

    /// Writes an empty value.
    pub fn set_empty(&mut self)
        ensures
            final(self).written() == Some(Value::Empty),
    {
        self.set(ParamValue::Empty);
    }

    /// Writes a 32-bit integer.
    pub fn set_i32(&mut self, val: i32)
        ensures
            final(self).written() == Some(Value::I32(val)),
    {
        self.set(ParamValue::I32(val));
    }

    /// Writes a boolean.
    pub fn set_bool(&mut self, val: bool)
        ensures
            final(self).written() == Some(Value::Bool(val)),
    {
        self.set(ParamValue::Bool(val));
    }

    /// Writes a 64-bit float, given by its IEEE 754 bits.
    pub fn set_f64(&mut self, bits: u64)
        ensures
            final(self).written() == Some(Value::F64(bits)),
    {
        self.set(ParamValue::F64(bits));
    }

    /// Writes a calendar time.
    pub fn set_date(&mut self, val: Tm)
        ensures
            final(self).written() == Some(Value::Date(val)),
    {
        self.set(ParamValue::Date(val));
    }

    /// Writes a copy of the UTF-16 string `val`. Whether the host grants the block for
    /// it is known when the call's writes are settled.
    pub fn set_str(&mut self, val: &[u16])
        ensures
            final(self).written() == Some(Value::Str(val@)),
    {
        self.set(ParamValue::Str(vstd::slice::slice_to_vec(val)));
    }

    /// Writes a copy of the bytes `val`. Whether the host grants the block for them is
    /// known when the call's writes are settled.
    pub fn set_blob(&mut self, val: &[u8])
        ensures
            final(self).written() == Some(Value::Blob(val@)),
    {
        self.set(ParamValue::Blob(vstd::slice::slice_to_vec(val)));
    }

    /// Writes a string of `len` zero units and hands out its units to be filled.
    pub fn alloc_str(&mut self, len: usize) -> (buf: &mut [u16])
        ensures
            buf@ == Seq::new(len as nat, |i: int| 0u16),
            final(self).written() == Some(Value::Str(final(buf)@)),
    {
        self.current = ParamValue::Str(vec![0u16; len]);
        self.modified = true;
        match &mut self.current {
            ParamValue::Str(v) => {
                assert(v@ =~= Seq::new(len as nat, |i: int| 0u16));
                v.as_mut_slice()
            },
            _ => unreached(),
        }
    }

    /// Writes `len` zero bytes and hands them out to be filled.
    pub fn alloc_blob(&mut self, len: usize) -> (buf: &mut [u8])
        ensures
            buf@ == Seq::new(len as nat, |i: int| 0u8),
            final(self).written() == Some(Value::Blob(final(buf)@)),
    {
        self.current = ParamValue::Blob(vec![0u8; len]);
        self.modified = true;
        match &mut self.current {
            ParamValue::Blob(v) => {
                assert(v@ =~= Seq::new(len as nat, |i: int| 0u8));
                v.as_mut_slice()
            },
            _ => unreached(),
        }
    }
}

/// A host slot together with what a call wrote into it, to be settled with the host.
///
/// The host calls it takes are made in the order `host_calls` gives, and `finish` turns
/// the host's answer into the slot that goes back to the host.
pub struct SlotWrite {
    mem: MemoryManager,
    slot: TVariant,
    written: Option<ParamValue>,
}

impl SlotWrite {
    /// The memory manager that serves the slot.
    pub closed spec fn manager(&self) -> MemoryManager {
        self.mem
    }

    /// The slot as the host handed it over.
    pub closed spec fn slot(&self) -> Slot {
        self.slot@
    }

    /// The value written into it, if any.
    pub closed spec fn written(&self) -> Option<Value> {
        match self.written {
            Some(v) => Some(v@),
            None => None,
        }
    }

    /// Pairs the host slot `slot`, served by `mem`, with what was written through `val`.
    pub fn new(mem: MemoryManager, slot: TVariant, val: &Variant) -> (r: SlotWrite)
        ensures
            r.manager() == mem,
            r.slot() == slot@,
            r.written() == val.written(),
    {
        SlotWrite { mem, slot, written: val.written_value() }
    }

    /// A host slot that nothing was written into.
    pub fn untouched(mem: MemoryManager, slot: TVariant) -> (r: SlotWrite)
        ensures
            r.manager() == mem,
            r.slot() == slot@,
            r.written() is None,
    {
        SlotWrite { mem, slot, written: None }
    }

    /// Whether anything was written into the slot.
    pub fn is_modified(&self) -> (r: bool)
        ensures
            r == self.written() is Some,
    {
        self.written.is_some()
    }

    /// The host calls that the write takes, in the order they are to be made.
    pub fn host_calls(&self) -> (r: Vec<HostCall>)
        ensures
            r@ == write_calls(self.slot(), self.written()),
    {
        let mut calls: Vec<HostCall> = Vec::new();
        match &self.written {
            None => {},
            Some(v) => {
                match &self.slot {
                    TVariant::Str { ptr, .. } => calls.push(self.mem.free_str(*ptr)),
                    TVariant::Blob { ptr, .. } => calls.push(self.mem.free_blob(*ptr)),
                    _ => {},
                }
                match v {
                    ParamValue::Str(d) => {
                        if let Some(call) = self.mem.alloc_str(d.len()) {
                            calls.push(call);
                        }
                    },
                    ParamValue::Blob(d) => calls.push(self.mem.alloc_blob(d.len())),
                    _ => {},
                }
            },
        }
        assert(calls@ =~= write_calls(self.slot(), self.written()));
        calls
    }

    /// Closes the write once the host calls are made: `block` is the host's answer to
    /// the block request, if one was made. Gives the slot to hand back to the host, and
    /// whether the write succeeded.
    pub fn finish(self, block: Option<usize>) -> (r: (TVariant, bool))
        ensures
            (r.0@, r.1) == committed(self.slot(), self.written(), block),
    {
        let SlotWrite { mem, slot, written } = self;
        let usable = match block {
            Some(p) => p != 0,
            None => false,
        };
        match written {
            None => (slot, true),
            Some(ParamValue::Empty) => (TVariant::Empty, true),
            Some(ParamValue::Bool(b)) => (TVariant::Bool(b), true),
            Some(ParamValue::I32(i)) => (TVariant::I32(i), true),
            Some(ParamValue::F64(f)) => (TVariant::F64(f), true),
            Some(ParamValue::Date(t)) => (TVariant::Date(t), true),
            Some(ParamValue::Str(d)) => {
                if mem.alloc_str(d.len()).is_some() && usable {
                    (TVariant::Str { ptr: block.unwrap(), data: d }, true)
                } else {
                    (failed(slot), false)
                }
            },
            Some(ParamValue::Blob(d)) => {
                if usable {
                    (TVariant::Blob { ptr: block.unwrap(), data: d }, true)
                } else {
                    (failed(slot), false)
                }
            },
        }
    }
}

/// The slot after a write that failed for want of memory.
fn failed(slot: TVariant) -> (r: TVariant)
    ensures
        r@ == failed_slot(slot@),
{
    match slot {
        TVariant::Str { .. } => TVariant::Empty,
        TVariant::Blob { .. } => TVariant::Empty,
        _ => slot,
    }
}

/// A value of a fixed-size kind (empty, boolean, integer, float, time) written into any
/// slot reads back as the same value, whatever the host answered: no block is involved.
pub proof fn lemma_fixed_value_round_trip(s: Slot, v: Value, block: Option<usize>)
    requires
        !needs_block(v),
    ensures
        committed(s, Some(v), block).1,
        decode(committed(s, Some(v), block).0) == v,
{
}

/// A string or byte value written into any slot reads back with the same contents, once
/// the host granted a block for it.
pub proof fn lemma_block_value_round_trip(s: Slot, v: Value, block: usize)
    requires
        needs_block(v),
        block_bytes(v) is Some,
        block != 0,
    ensures
        committed(s, Some(v), Some(block)).1,
        decode(committed(s, Some(v), Some(block)).0) == v,
        held_block(committed(s, Some(v), Some(block)).0) == Some(block),
{
}

/// Overwriting a slot that holds a string or bytes gives its block back to the host
/// exactly once, before any block is requested for the new value.
pub proof fn lemma_release_once_before_request(s: Slot, v: Value)
    requires
        held_block(s) is Some,
    ensures
        write_calls(s, Some(v))[0] == (HostCall::Free { ptr: held_block(s)->0 }),
        forall|i: int|
            1 <= i < write_calls(s, Some(v)).len() ==> #[trigger] write_calls(s, Some(v))[i] is Alloc,
        needs_block(v) && block_bytes(v) is Some ==> write_calls(s, Some(v)) == seq![
            HostCall::Free { ptr: held_block(s)->0 },
            HostCall::Alloc { bytes: block_bytes(v)->0 },
        ],
{
    assert(write_calls(s, Some(v)) == seq![HostCall::Free { ptr: held_block(s)->0 }] + request_calls(v));
    if needs_block(v) && block_bytes(v) is Some {
        assert(write_calls(s, Some(v)) =~= seq![
            HostCall::Free { ptr: held_block(s)->0 },
            HostCall::Alloc { bytes: block_bytes(v)->0 },
        ]);
    }
}

/// A write that asks for a block and does not get one fails, and leaves the slot as it
/// was, unless the slot's own block was already given back: then the slot is empty.
pub proof fn lemma_failed_request(s: Slot, v: Value, block: Option<usize>)
    requires
        needs_block(v),
        !usable_block(block),
    ensures
        !committed(s, Some(v), block).1,
        held_block(s) is None ==> committed(s, Some(v), block).0 == s,
        held_block(s) is Some ==> committed(s, Some(v), block).0 == Slot::Empty,
{
}

} // verus!
