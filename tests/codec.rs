use addin1c::memory::accept_block;
use addin1c::variant::{decode_slot, kind_of_tag, SlotWrite, VariantKind};
use addin1c::{HostCall, MemoryManager, ParamValue, TVariant, Tm, Variant};

fn mem() -> MemoryManager {
    MemoryManager { addr: 0x40 }
}

fn sample_tm() -> Tm {
    Tm {
        sec: 5,
        min: 4,
        hour: 3,
        mday: 17,
        mon: 9,
        year: 126,
        wday: 6,
        yday: 289,
        isdst: 0,
        gmtoff: 10800,
        zone: 77,
    }
}

/// Opens `old` for reading, lets `f` write through it, and pairs the slot with the write.
fn write(old: TVariant, f: impl FnOnce(&mut Variant)) -> SlotWrite {
    let mut v = Variant::from_slot(&old);
    f(&mut v);
    SlotWrite::new(mem(), old, &v)
}

fn round_trip(old: TVariant, value: ParamValue) -> (TVariant, bool) {
    write(old, |v| v.set(value)).finish(Some(0x5000))
}

#[test]
fn fixed_values_round_trip() {
    let values = vec![
        ParamValue::Empty,
        ParamValue::Bool(true),
        ParamValue::Bool(false),
        ParamValue::I32(i32::MIN),
        ParamValue::I32(-1),
        ParamValue::I32(i32::MAX),
        ParamValue::F64(333.33f64.to_bits()),
        ParamValue::F64(f64::NAN.to_bits()),
        ParamValue::Date(sample_tm()),
        ParamValue::Date(Tm::default()),
    ];
    for v in values {
        let (slot, ok) = round_trip(TVariant::Empty, v.clone());
        assert!(ok);
        assert_eq!(decode_slot(&slot), v);
        let fresh = write(TVariant::Empty, |w| w.set(v.clone()));
        assert!(fresh.host_calls().is_empty());
        assert_eq!(fresh.finish(None).0, slot);
    }
}

#[test]
fn float_round_trip_keeps_value() {
    let (slot, ok) = write(TVariant::Empty, |v| v.set_f64(2.5f64.to_bits())).finish(None);
    assert!(ok);
    match decode_slot(&slot) {
        ParamValue::F64(bits) => assert_eq!(f64::from_bits(bits), 2.5),
        other => panic!("unexpected {:?}", other),
    }
}

#[test]
fn strings_and_blobs_round_trip_by_contents() {
    let text: Vec<u16> = "Привет".encode_utf16().collect();
    let (slot, ok) = round_trip(TVariant::I32(1), ParamValue::Str(text.clone()));
    assert!(ok);
    assert_eq!(slot, TVariant::Str { ptr: 0x5000, data: text.clone() });
    assert_eq!(decode_slot(&slot), ParamValue::Str(text));

    let bytes = vec![0u8, 1, 2, 255];
    let (slot, ok) = round_trip(TVariant::Empty, ParamValue::Blob(bytes.clone()));
    assert!(ok);
    assert_eq!(decode_slot(&slot), ParamValue::Blob(bytes));

    let (slot, ok) = round_trip(TVariant::Empty, ParamValue::Str(vec![]));
    assert!(ok);
    assert_eq!(decode_slot(&slot), ParamValue::Str(vec![]));
}

#[test]
fn string_request_is_sized_in_bytes() {
    let w = write(TVariant::Empty, |v| v.set_str(&[65, 66, 67]));
    assert_eq!(w.host_calls(), vec![HostCall::Alloc { bytes: 6 }]);
    let b = write(TVariant::Empty, |v| v.set_blob(&[1, 2, 3]));
    assert_eq!(b.host_calls(), vec![HostCall::Alloc { bytes: 3 }]);
    assert_eq!(mem().alloc_str(4), Some(HostCall::Alloc { bytes: 8 }));
    assert_eq!(mem().alloc_str(usize::MAX), None);
    assert_eq!(mem().alloc_blob(4), HostCall::Alloc { bytes: 4 });
}

#[test]
fn overwriting_a_string_frees_exactly_once_first() {
    let old = TVariant::Str { ptr: 0x7000, data: vec![1, 2] };
    let w = write(old, |v| {
        v.set_str(&[9, 9, 9]);
        v.set_str(&[8]);
    });
    let calls = w.host_calls();
    assert_eq!(calls, vec![HostCall::Free { ptr: 0x7000 }, HostCall::Alloc { bytes: 2 }]);
    let frees = calls.iter().filter(|c| matches!(c, HostCall::Free { .. })).count();
    assert_eq!(frees, 1);

    let old = TVariant::Blob { ptr: 0x7100, data: vec![1] };
    let w = write(old, |v| v.set_i32(4));
    assert_eq!(w.host_calls(), vec![HostCall::Free { ptr: 0x7100 }]);
    assert_eq!(w.finish(None), (TVariant::I32(4), true));
}

#[test]
fn untouched_slot_makes_no_calls() {
    let old = TVariant::Str { ptr: 0x7000, data: vec![1, 2] };
    let v = Variant::from_slot(&old);
    assert_eq!(v.get(), ParamValue::Str(vec![1, 2]));
    let w = SlotWrite::new(mem(), old, &v);
    assert!(!w.is_modified());
    assert!(w.host_calls().is_empty());
    assert_eq!(w.finish(None), (TVariant::Str { ptr: 0x7000, data: vec![1, 2] }, true));
    let u = SlotWrite::untouched(mem(), TVariant::I32(3));
    assert!(u.host_calls().is_empty());
    assert_eq!(u.finish(None), (TVariant::I32(3), true));
}

#[test]
fn failed_request_after_free_leaves_slot_empty() {
    let old = TVariant::Str { ptr: 0x7000, data: vec![1, 2] };
    let (slot, ok) = write(old, |v| v.set_blob(&[1])).finish(accept_block(false, 0));
    assert!(!ok);
    assert_eq!(slot, TVariant::Empty);

    let (slot, ok) = write(TVariant::Bool(true), |v| v.set_str(&[1])).finish(accept_block(true, 0));
    assert!(!ok);
    assert_eq!(slot, TVariant::Bool(true));
}

#[test]
fn in_place_buffers_are_zeroed_and_writable() {
    let mut v = Variant::new(ParamValue::Empty);
    let buf = v.alloc_str(3);
    assert_eq!(buf, &[0, 0, 0]);
    buf[1] = 42;
    assert_eq!(v.get(), ParamValue::Str(vec![0, 42, 0]));
    let b = write(TVariant::Empty, |v| v.alloc_blob(2)[0] = 7);
    assert_eq!(b.host_calls(), vec![HostCall::Alloc { bytes: 2 }]);
    assert_eq!(b.finish(Some(0x9000)), (TVariant::Blob { ptr: 0x9000, data: vec![7, 0] }, true));
}

#[test]
fn unknown_tags_decode_as_empty() {
    assert_eq!(kind_of_tag(0), VariantKind::Empty);
    assert_eq!(kind_of_tag(3), VariantKind::I32);
    assert_eq!(kind_of_tag(5), VariantKind::F64);
    assert_eq!(kind_of_tag(7), VariantKind::Date);
    assert_eq!(kind_of_tag(11), VariantKind::Bool);
    assert_eq!(kind_of_tag(22), VariantKind::Str);
    assert_eq!(kind_of_tag(23), VariantKind::Blob);
    assert_eq!(kind_of_tag(2), VariantKind::Unsupported);
    assert_eq!(kind_of_tag(0xFFFF), VariantKind::Unsupported);
    let slot = TVariant::unsupported(2);
    assert_eq!(slot, TVariant::Other(2));
    assert_eq!(slot.tag(), 2);
    assert_eq!(decode_slot(&slot), ParamValue::Empty);
    assert_eq!(TVariant::unsupported(3), TVariant::Empty);
    assert_eq!(slot.duplicate(), slot);
}

#[test]
fn allocation_answers() {
    assert_eq!(accept_block(true, 0x10), Some(0x10));
    assert_eq!(accept_block(true, 0), None);
    assert_eq!(accept_block(false, 0x10), None);
    assert_eq!(mem().free_str(0x10), HostCall::Free { ptr: 0x10 });
    assert_eq!(mem().free_blob(0x20), HostCall::Free { ptr: 0x20 });
}

#[test]
fn modification_is_reported() {
    let mut v = Variant::from_slot(&TVariant::I32(1));
    assert!(!v.is_modified());
    assert_eq!(v.written_value(), None);
    v.set_empty();
    assert!(v.is_modified());
    assert_eq!(v.get(), ParamValue::Empty);
    assert_eq!(v.written_value(), Some(ParamValue::Empty));
}
