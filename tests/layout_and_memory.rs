use emscripten_abi::bootstrap::{emscripten_set_up_memory, write_dynamictop};
use emscripten_abi::layout::{
    align_memory, dynamic_base, dynamictop_ptr, stack_max, stacktop, LayoutConstants, LayoutError,
    STATIC_BUMP, TOTAL_STACK,
};
use emscripten_abi::memory::{GuestMemory, GuestRange};

#[test]
fn align_rounds_up_to_sixteen() {
    assert_eq!(align_memory(0), 0);
    assert_eq!(align_memory(1), 16);
    assert_eq!(align_memory(16), 16);
    assert_eq!(align_memory(17), 32);
    assert_eq!(align_memory(216_628), 216_640);
}

#[test]
fn default_layout_values() {
    assert_eq!(dynamictop_ptr(STATIC_BUMP), 216_624);
    assert_eq!(stacktop(STATIC_BUMP), 216_640);
    assert_eq!(stack_max(STATIC_BUMP), 216_640 + TOTAL_STACK);
    assert_eq!(dynamic_base(STATIC_BUMP), 5_459_520);
}

#[test]
fn layout_is_ordered_and_aligned() {
    for b in [0u32, 1, 15, 1000, 215_536, 1_000_001, 4_000_000_000] {
        let l = LayoutConstants::new(b).unwrap();
        assert!(l.dynamic_base >= l.stack_max);
        assert!(l.stack_max >= l.stack_top);
        assert!(l.stack_top >= l.dynamictop_ptr + 4);
        assert_eq!(l.stack_top % 16, 0);
        assert_eq!(l.stack_max % 16, 0);
        assert_eq!(l.dynamic_base % 16, 0);
        assert_eq!(l.dynamictop_ptr, b + 1088);
    }
}

#[test]
fn layout_overflow_is_refused() {
    assert_eq!(LayoutConstants::new(u32::MAX), Err(LayoutError::Overflow));
    assert_eq!(LayoutConstants::new(u32::MAX - 5_000_000), Err(LayoutError::Overflow));
}

#[test]
fn bootstrap_writes_heap_start_little_endian() {
    let mut m = GuestMemory::new(216_628);
    emscripten_set_up_memory(&mut m);
    let s = m.as_slice();
    let base: u32 = 5_459_520;
    assert_eq!(&s[216_624..216_628], &base.to_le_bytes());
    assert_eq!(m.read_u32(216_624), Some(base));
    assert!(s[..216_624].iter().all(|b| *b == 0));
}

#[test]
fn bootstrap_twice_gives_same_bytes() {
    let mut m = GuestMemory::new(300_000);
    emscripten_set_up_memory(&mut m);
    let once = m.as_slice().to_vec();
    emscripten_set_up_memory(&mut m);
    assert_eq!(m.as_slice(), &once[..]);
}

#[test]
fn bootstrap_on_short_memory_is_no_op() {
    let mut m = GuestMemory::from_bytes(vec![7u8; 216_627]);
    emscripten_set_up_memory(&mut m);
    assert_eq!(m.len(), 216_627);
    assert!(m.as_slice().iter().all(|b| *b == 7));

    let l = LayoutConstants::new(100).unwrap();
    let mut small = GuestMemory::new(10);
    assert!(!write_dynamictop(&mut small, &l));
    assert_eq!(small.as_slice(), &[0u8; 10]);
}

#[test]
fn write_dynamictop_for_a_given_layout() {
    let l = LayoutConstants::new(0).unwrap();
    let mut m = GuestMemory::new(2000);
    assert!(write_dynamictop(&mut m, &l));
    assert_eq!(m.read_u32(1088), Some(l.dynamic_base));
}

#[test]
fn translate_accepts_spans_inside() {
    let m = GuestMemory::new(100);
    assert_eq!(m.translate(0, 100), Some(GuestRange { start: 0, end: 100 }));
    assert_eq!(m.translate(96, 4), Some(GuestRange { start: 96, end: 100 }));
    assert_eq!(m.translate(100, 0), Some(GuestRange { start: 100, end: 100 }));
}

#[test]
fn translate_rejects_spans_outside_or_overflowing() {
    let m = GuestMemory::new(100);
    assert_eq!(m.translate(97, 4), None);
    assert_eq!(m.translate(101, 0), None);
    assert_eq!(m.translate(0, 101), None);
    assert_eq!(m.translate(u32::MAX, 1), None);
    assert_eq!(m.translate(1, u32::MAX), None);
    assert_eq!(m.translate(u32::MAX, u32::MAX), None);
    assert_eq!(m.read_u32(97), None);
    assert_eq!(m.read_bytes(90, 11), None);
}

#[test]
fn grown_memory_is_seen_by_later_checks() {
    let mut m = GuestMemory::new(64);
    assert_eq!(m.translate(100, 4), None);
    m.grow(64);
    assert_eq!(m.len(), 128);
    assert_eq!(m.translate(100, 4), Some(GuestRange { start: 100, end: 104 }));
    assert!(m.write_u32(100, 0xdead_beef));
    assert_eq!(m.read_u32(100), Some(0xdead_beef));
}

#[test]
fn words_are_little_endian() {
    let mut m = GuestMemory::new(8);
    assert!(m.write_u32(2, 0x0102_0304));
    assert_eq!(m.as_slice(), &[0, 0, 4, 3, 2, 1, 0, 0]);
    assert_eq!(m.read_u32(2), Some(0x0102_0304));
    assert!(!m.write_u32(5, 1));
    assert_eq!(m.as_slice(), &[0, 0, 4, 3, 2, 1, 0, 0]);
}

#[test]
fn read_and_write_bytes() {
    let mut m = GuestMemory::new(6);
    assert!(m.write_bytes(1, &vec![9, 8, 7]));
    assert_eq!(m.read_bytes(1, 3), Some(vec![9, 8, 7]));
    assert!(!m.write_bytes(4, &vec![1, 2, 3]));
    assert_eq!(m.as_slice(), &[0, 9, 8, 7, 0, 0]);
}

#[test]
fn c_strings_end_at_nul() {
    let m = GuestMemory::from_bytes(b"xab\0cd".to_vec());
    assert_eq!(m.read_cstr(1), Some(b"ab".to_vec()));
    assert_eq!(m.read_cstr(3), Some(Vec::new()));
    assert_eq!(m.read_cstr(4), None);
    assert_eq!(m.read_cstr(40), None);
}
