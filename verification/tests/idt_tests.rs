use capora_kernel::gdt::{PrivilegeLevel, SegmentSelector};
use capora_kernel::idt::{
    InterruptDescriptor, InterruptDescriptorOptions, InterruptDescriptorTable, IstSetting,
    NoReturnHandlerFuncErrorCode,
};
use capora_kernel::memory::VirtualAddress;

#[test]
fn options_encoding() {
    let options = InterruptDescriptorOptions::new(
        true,
        IstSetting::NoSwitch,
        true,
        PrivilegeLevel::Ring0,
    );
    assert!(options.present());
    assert!(options.disables_interrupts());
    assert_eq!(options.ist(), IstSetting::NoSwitch);
    assert_eq!(options.privilege_level(), PrivilegeLevel::Ring0);

    let missing = InterruptDescriptorOptions::missing();
    assert!(!missing.present());
    assert!(missing.disables_interrupts());
}

#[test]
fn options_field_roundtrip() {
    let options = InterruptDescriptorOptions::new(
        false,
        IstSetting::Ist3,
        false,
        PrivilegeLevel::Ring3,
    );
    assert!(!options.present());
    assert!(!options.disables_interrupts());
    assert_eq!(options.ist(), IstSetting::Ist3);
    assert_eq!(options.privilege_level(), PrivilegeLevel::Ring3);
}

#[test]
fn descriptor_encoding_roundtrip() {
    // The handler address is split across three fields and reconstructed
    // exactly.
    for &address in &[0u64, 0x1234, 0x0000_7FFF_FFFF_F000, 0xFFFF_FFFF_8000_1234, u64::MAX] {
        let handler = VirtualAddress::new_canonical(address);
        let mut descriptor: InterruptDescriptor<NoReturnHandlerFuncErrorCode> =
            InterruptDescriptor::missing();
        descriptor.set_handler_fn(handler);
        assert_eq!(descriptor.func_ptr(), handler);
    }
}

#[test]
fn descriptor_handler_defaults() {
    let handler = VirtualAddress::new_canonical(0xFFFF_8000_0000_2000);
    let mut descriptor: InterruptDescriptor<NoReturnHandlerFuncErrorCode> =
        InterruptDescriptor::missing();
    descriptor.set_handler_fn(handler);
    assert!(descriptor.options.present());
    assert!(descriptor.options.disables_interrupts());
    assert_eq!(descriptor.options.ist(), IstSetting::NoSwitch);
    assert_eq!(descriptor.options.privilege_level(), PrivilegeLevel::Ring0);
    assert_eq!(descriptor.code_segment.index(), 2);
    assert_eq!(descriptor.code_segment.privilege_level(), PrivilegeLevel::Ring0);
}

#[test]
fn descriptor_new_and_setters() {
    let address = VirtualAddress::new(0x1234_5000).unwrap();
    let selector = SegmentSelector::new(3, PrivilegeLevel::Ring1);
    let options = InterruptDescriptorOptions::new(
        true,
        IstSetting::Ist1,
        false,
        PrivilegeLevel::Ring2,
    );
    let mut descriptor: InterruptDescriptor<NoReturnHandlerFuncErrorCode> =
        InterruptDescriptor::new(address, selector, options);
    assert_eq!(descriptor.func_ptr(), address);
    assert_eq!(descriptor.code_segment, selector);
    assert_eq!(descriptor.options, options);

    let other = SegmentSelector::new(4, PrivilegeLevel::Ring0);
    descriptor.set_code_segment(other);
    assert_eq!(descriptor.code_segment, other);
    let missing = InterruptDescriptorOptions::missing();
    descriptor.set_options(missing);
    assert_eq!(descriptor.options, missing);
    assert_eq!(descriptor.func_ptr(), address);
}

#[test]
fn table_starts_all_missing() {
    let table = InterruptDescriptorTable::new();
    assert!(!table.divide_error.options.present());
    assert!(!table.double_fault.options.present());
    assert!(!table.page_fault.options.present());
    assert!(!table.general_interrupts[0].options.present());
    assert!(!table.general_interrupts[223].options.present());
    assert_eq!(table.double_fault.func_ptr(), VirtualAddress::zero());
}

#[test]
fn install_double_fault_wires_only_that_vector() {
    let mut table = InterruptDescriptorTable::new();
    let handler = VirtualAddress::new_canonical(0xFFFF_FFFF_8111_0000);
    capora_kernel::idt::install_double_fault_handler(&mut table, handler);
    assert!(table.double_fault.options.present());
    assert_eq!(table.double_fault.func_ptr(), handler);
    assert!(!table.divide_error.options.present());
    assert!(!table.machine_check.options.present());
    assert!(!table.general_interrupts[100].options.present());
}

#[test]
fn ist_setting_values() {
    assert_eq!(IstSetting::NoSwitch.value(), 0);
    assert_eq!(IstSetting::Ist7.value(), 7);
    assert_eq!(IstSetting::from_bits(5), IstSetting::Ist5);
    assert_eq!(IstSetting::from_bits(8), IstSetting::NoSwitch);
}

#[test]
fn segment_selector_encoding() {
    // index << 3 | privilege.
    let selector = SegmentSelector::new(2, PrivilegeLevel::Ring0);
    assert_eq!(selector.0, 16);
    assert_eq!(selector.index(), 2);
    assert_eq!(selector.privilege_level(), PrivilegeLevel::Ring0);

    let selector = SegmentSelector::new(5, PrivilegeLevel::Ring3);
    assert_eq!(selector.0, 5 << 3 | 3);
    assert_eq!(selector.index(), 5);
    assert_eq!(selector.privilege_level(), PrivilegeLevel::Ring3);

    assert_eq!(SegmentSelector::null().0, 0);
}

#[test]
fn segment_selector_set_privilege_level() {
    let mut selector = SegmentSelector::new(5, PrivilegeLevel::Ring3);
    selector.set_privilege_level(PrivilegeLevel::Ring1);
    assert_eq!(selector.index(), 5);
    assert_eq!(selector.privilege_level(), PrivilegeLevel::Ring1);
}
