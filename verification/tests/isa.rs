use winch::isa::{
    lookup, Arch, ArchFlags, CallConvId, Endianness, Flags, Os, SettingsBuilder, Triple,
};
use winch::types::{LookupError, SetError};

fn triple(arch: Arch, os: Os) -> Triple {
    Triple { arch, os }
}

#[test]
fn lookup_finds_builders_for_both_architectures() {
    assert!(lookup(triple(Arch::X86_64, Os::Linux)).is_ok());
    assert!(lookup(triple(Arch::Aarch64, Os::Darwin)).is_ok());
    assert_eq!(
        lookup(triple(Arch::Other, Os::Linux)).unwrap_err(),
        LookupError::Unsupported
    );
}

#[test]
fn target_specific_flags_are_set_by_name() {
    let mut b = lookup(triple(Arch::X86_64, Os::Linux)).unwrap();
    assert!(b.set("has_sse3", "true").is_ok());
    assert!(b.enable("has_avx").is_ok());
    assert_eq!(b.set("use_bti", "true").unwrap_err(), SetError::BadName);
    assert_eq!(b.set("has_sse3", "maybe").unwrap_err(), SetError::BadValue);
    let isa = b.build(Flags::new(SettingsBuilder::new()));
    match isa.isa_flags {
        ArchFlags::X64(f) => {
            assert!(f.has_sse3);
            assert!(f.has_avx);
        }
        ArchFlags::Aarch64(_) => panic!("wrong architecture"),
    }
}

#[test]
fn branch_protection_follows_the_bti_flag() {
    let mut b = lookup(triple(Arch::Aarch64, Os::Linux)).unwrap();
    b.enable("use_bti").unwrap();
    let isa = b.build(Flags::new(SettingsBuilder::new()));
    assert!(isa.is_branch_protection_enabled());
    let plain = lookup(triple(Arch::Aarch64, Os::Linux))
        .unwrap()
        .build(Flags::new(SettingsBuilder::new()));
    assert!(!plain.is_branch_protection_enabled());
}

#[test]
fn code_section_alignment_depends_on_the_triple() {
    let x = lookup(triple(Arch::X86_64, Os::Linux)).unwrap().build(Flags::new(
        SettingsBuilder::new(),
    ));
    assert_eq!(x.code_section_alignment(), 0x1000);
    let mac_arm = lookup(triple(Arch::Aarch64, Os::Darwin)).unwrap().build(Flags::new(
        SettingsBuilder::new(),
    ));
    assert_eq!(mac_arm.code_section_alignment(), 0x4000);
    let linux_arm = lookup(triple(Arch::Aarch64, Os::Linux)).unwrap().build(Flags::new(
        SettingsBuilder::new(),
    ));
    assert_eq!(linux_arm.code_section_alignment(), 0x10000);
}

#[test]
fn target_queries_report_identity_and_defaults() {
    let isa = lookup(triple(Arch::X86_64, Os::Linux)).unwrap().build(Flags::new(
        SettingsBuilder::new(),
    ));
    assert_eq!(isa.name(), "x64");
    assert_eq!(isa.endianness(), Endianness::Little);
    assert_eq!(isa.call_conv(), CallConvId::SystemV);
    assert_eq!(isa.function_alignment(), 16);
    let arm = lookup(triple(Arch::Aarch64, Os::Darwin)).unwrap().build(Flags::new(
        SettingsBuilder::new(),
    ));
    assert_eq!(arm.name(), "aarch64");
    assert_eq!(arm.call_conv(), CallConvId::AppleAarch64);
    assert_eq!(arm.function_alignment(), 32);
    let win = lookup(triple(Arch::X86_64, Os::Windows)).unwrap().build(Flags::new(
        SettingsBuilder::new(),
    ));
    assert_eq!(win.call_conv(), CallConvId::WindowsFastcall);
}
