use dbgeng::instruction::DebugInstruction;
use dbgeng::memory::{expect_exact_read, terminated_string_bytes, EmptyString, ShortRead};
use dbgeng::segment::{gdt_entry_address, GdtError, Seg};
use dbgeng::value::{known_type, u128_from_debugvalue, u64_from_debugvalue, u64_parts, DebugValue, UnexpectedValueType};

#[test]
fn flat_code_segment_descriptor() {
    let s = Seg::from_descriptor(0x10, 0x00cf_9b00_0000_ffff);
    assert_eq!(s, Seg { present: true, selector: 0x10, base: 0, limit: 0xfffff, attr: 0xcf9b });
}

#[test]
fn system_descriptor_takes_upper_base() {
    let s = Seg::from_descriptor(0x40, 0xffff_f801_2300_8945_6000_0067);
    assert_eq!(s.base, 0xffff_f801_2345_6000);
    assert_eq!(s.limit, 0x67);
    assert!(s.present);
    assert_eq!(s.attr, 0x0089);
    assert_eq!(s.selector, 0x40);
}

#[test]
fn non_system_descriptor_ignores_upper_half() {
    let s = Seg::from_descriptor(0x1_0018, 0xffff_ffff_0000_0000_00cf_9300_0000_ffff);
    assert_eq!(s.base, 0);
    assert_eq!(s.selector, 0x18);
    assert_eq!(s.attr, 0xcf93);
}

#[test]
fn absent_descriptor() {
    let s = Seg::from_descriptor(0, 0);
    assert_eq!(s, Seg::default());
}

#[test]
fn gdt_entry_addresses() {
    assert_eq!(gdt_entry_address(0x1000, 0x7f, 0x10), Ok(0x1010));
    assert_eq!(gdt_entry_address(0x1000, 0x7f, 0x13), Ok(0x1010));
    assert_eq!(gdt_entry_address(0x1000, 0x7f, 0x78), Ok(0x1078));
    assert_eq!(gdt_entry_address(0x1000, 0x7f, 0x14), Err(GdtError::LocalTableSelector));
    assert_eq!(gdt_entry_address(0x1000, 0x7f, 0x80), Err(GdtError::IndexOutOfRange { index: 16, max_index: 16 }));
    assert_eq!(gdt_entry_address(u64::MAX - 8, 0x7f, 0x10), Err(GdtError::AddressOverflow));
}

#[test]
fn u64_readings() {
    assert_eq!(u64_from_debugvalue(&DebugValue::Int64 { low: 0x89ab_cdef, high: 0x0123_4567 }), Ok(0x0123_4567_89ab_cdef));
    assert_eq!(u64_from_debugvalue(&DebugValue::Int32 { value: 0xdead_beef }), Ok(0xdead_beef));
    assert_eq!(u64_from_debugvalue(&DebugValue::Int16 { value: 0xbeef }), Ok(0xbeef));
    assert_eq!(u64_from_debugvalue(&DebugValue::Int8 { value: 0xff }), Ok(0xff));
    assert_eq!(u64_from_debugvalue(&DebugValue::Vector64 { bytes: [1, 2, 3, 4, 5, 6, 7, 8] }), Ok(0x0807_0605_0403_0201));
    assert_eq!(u64_from_debugvalue(&DebugValue::Float64 { bits: 0x3ff0_0000_0000_0000 }), Ok(0x3ff0_0000_0000_0000));
    assert_eq!(u64_from_debugvalue(&DebugValue::Float32 { widened: 1.5f64.to_bits() }), Ok(0x3ff8_0000_0000_0000));
}

#[test]
fn u64_reading_of_wide_types_fails() {
    assert_eq!(u64_from_debugvalue(&DebugValue::Float128 { bytes: [0; 16] }), Err(UnexpectedValueType { value_type: 9 }));
    assert_eq!(u64_from_debugvalue(&DebugValue::Vector128 { bytes: [0; 16] }), Err(UnexpectedValueType { value_type: 11 }));
    assert_eq!(u64_from_debugvalue(&DebugValue::Float80 { bytes: [0; 10] }), Err(UnexpectedValueType { value_type: 7 }));
    assert_eq!(u64_from_debugvalue(&DebugValue::Other { value_type: 0 }), Err(UnexpectedValueType { value_type: 0 }));
}

#[test]
fn u128_readings() {
    assert_eq!(
        u128_from_debugvalue(&DebugValue::Float80 { bytes: [1, 2, 3, 4, 5, 6, 7, 8, 9, 10] }),
        Ok(0x0a09_0807_0605_0403_0201)
    );
    let bytes: [u8; 16] = [0x10, 0x0f, 0x0e, 0x0d, 0x0c, 0x0b, 0x0a, 0x09, 8, 7, 6, 5, 4, 3, 2, 0xff];
    assert_eq!(u128_from_debugvalue(&DebugValue::Vector128 { bytes }), Ok(0xff02_0304_0506_0708_090a_0b0c_0d0e_0f10));
    assert_eq!(u128_from_debugvalue(&DebugValue::Float128 { bytes }), Ok(u128::from_le_bytes(bytes)));
    assert_eq!(u128_from_debugvalue(&DebugValue::Float128 { bytes: [0xff; 16] }), Ok(u128::MAX));
}

#[test]
fn u128_reading_of_narrow_types_fails() {
    assert_eq!(u128_from_debugvalue(&DebugValue::Int64 { low: 1, high: 0 }), Err(UnexpectedValueType { value_type: 4 }));
    assert_eq!(u128_from_debugvalue(&DebugValue::Vector64 { bytes: [0; 8] }), Err(UnexpectedValueType { value_type: 10 }));
    assert_eq!(u128_from_debugvalue(&DebugValue::Other { value_type: 8 }), Err(UnexpectedValueType { value_type: 8 }));
}

#[test]
fn value_parts_round_trip() {
    assert_eq!(u64_parts(0x0123_4567_89ab_cdef), (0x0123_4567, 0x89ab_cdef));
    let (high, low) = u64_parts(0xffff_ffff_0000_0001);
    assert_eq!(u64_from_debugvalue(&DebugValue::Int64 { low, high }), Ok(0xffff_ffff_0000_0001));
}

#[test]
fn instruction_status_codes() {
    assert_eq!(DebugInstruction::NoChange.as_status(), 0);
    assert_eq!(DebugInstruction::Go.as_status(), 1);
    assert_eq!(DebugInstruction::GoHandled.as_status(), 2);
    assert_eq!(DebugInstruction::GoNotHandled.as_status(), 3);
    assert_eq!(DebugInstruction::StepOver.as_status(), 4);
    assert_eq!(DebugInstruction::StepInto.as_status(), 5);
    assert_eq!(DebugInstruction::Break.as_status(), 6);
    assert_eq!(DebugInstruction::StepBranch.as_status(), 8);
    assert_eq!(DebugInstruction::IgnoreEvent.as_status(), 9);
    assert_eq!(DebugInstruction::Restart.as_status(), 10);
    assert_eq!(DebugInstruction::default(), DebugInstruction::NoChange);
}

#[test]
fn exact_reads() {
    assert_eq!(expect_exact_read(16, 16), Ok(()));
    assert_eq!(expect_exact_read(16, 8), Err(ShortRead { expected: 16, read: 8 }));
}

#[test]
fn terminated_strings() {
    let mut buffer = b"abc\0".to_vec();
    buffer.resize(100, 0);
    assert_eq!(terminated_string_bytes(buffer.clone(), 4), Ok(b"abc".to_vec()));
    assert_eq!(terminated_string_bytes(buffer.clone(), 1), Ok(Vec::new()));
    assert_eq!(terminated_string_bytes(buffer, 0), Err(EmptyString));
    assert_eq!(terminated_string_bytes(vec![1, 2], 5), Ok(vec![1, 2, 0, 0]));
}

#[test]
fn other_values_carry_unknown_codes_only() {
    assert!(DebugValue::Other { value_type: 0 }.valid());
    assert!(DebugValue::Other { value_type: 8 }.valid());
    assert!(DebugValue::Other { value_type: 12 }.valid());
    assert!(!DebugValue::Other { value_type: 4 }.valid());
    assert!(!DebugValue::Other { value_type: 11 }.valid());
    assert!(DebugValue::Int8 { value: 1 }.valid());
    assert!(known_type(1) && known_type(7) && known_type(9) && !known_type(8) && !known_type(0));
}
