use winch::builder::builder;
use winch::isa::{Arch, Os, SettingKind, Triple};
use winch::types::SetError;

#[test]
fn the_default_builder_avoids_division_traps() {
    let b = builder();
    assert!(b.shared_flags.avoid_div_traps);
    assert_eq!(b.triple(), Triple { arch: Arch::X86_64, os: Os::Linux });
}

#[test]
fn unknown_shared_names_fall_through_to_target_flags() {
    let mut b = builder();
    // A shared flag.
    assert!(b.set("avoid_div_traps", "false").is_ok());
    // A target-specific flag reached through the fall-through.
    assert!(b.set("has_sse3", "true").is_ok());
    assert!(b.enable("has_avx").is_ok());
    // A name neither set declares.
    assert_eq!(b.set("no_such_flag", "true").unwrap_err(), SetError::BadName);
    assert_eq!(b.enable("no_such_flag").unwrap_err(), SetError::BadName);
}

#[test]
fn opt_level_accepts_its_declared_values_only() {
    let mut b = builder();
    assert!(b.set("opt_level", "none").is_ok());
    assert!(b.set("opt_level", "speed").is_ok());
    assert!(b.set("opt_level", "speed_and_size").is_ok());
    assert_eq!(b.set("opt_level", "fastest").unwrap_err(), SetError::BadValue);
}

#[test]
fn settings_lists_the_target_specific_flags() {
    let b = builder();
    let settings = b.settings();
    assert_eq!(settings.len(), 2);
    for s in settings.iter() {
        assert_eq!(s.kind, SettingKind::Bool);
    }
}

#[test]
fn retargeting_looks_the_isa_up_anew() {
    let mut b = builder();
    b.target(Triple { arch: Arch::Aarch64, os: Os::Linux }).unwrap();
    assert!(b.enable("use_bti").is_ok());
    assert!(b
        .target(Triple { arch: Arch::Other, os: Os::Linux })
        .is_err());
}

#[test]
fn build_freezes_the_shared_flags() {
    let mut b = builder();
    b.set("avoid_div_traps", "false").unwrap();
    let c = b.build();
    assert!(!c.flags().avoid_div_traps);
    assert_eq!(c.triple(), b.triple());
}
