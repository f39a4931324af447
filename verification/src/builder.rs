//! The compiler builder: the embedder-facing configuration surface.
//!
//! Shared flags and target-specific flags are settable by name; a name
//! the shared set does not declare falls through to the target-specific
//! set before failing.  `build` freezes the flags into an immutable
//! compiler for the chosen triple.

use vstd::prelude::*;
use vstd::string::StringSliceAdditionalSpecFns;

use crate::compiler::Compiler;
use crate::isa::{
    lookup, str_eq, Arch, Flags, Os, OptLevel, Setting, SettingKind, SettingsBuilder, Triple,
};
use crate::types::{LookupError, SetError};

verus! {

/// The compiler builder: the target triple, the shared flags under
/// construction, and the target-specific ISA builder.
#[derive(Clone, Copy, Debug, PartialEq, Eq)]
pub struct Builder {
    pub triple: Triple,
    pub shared_flags: SettingsBuilder,
    pub isa_builder: crate::isa::Builder,
}

/// Creates a compiler builder for the default target, with division
/// traps avoided as the baseline generator expects.
pub fn builder() -> (r: Builder)
    ensures
        r.triple == (Triple { arch: Arch::X86_64, os: Os::Linux }),
        r.shared_flags.avoid_div_traps,
        r.isa_builder.triple == r.triple,
{
    let triple = Triple { arch: Arch::X86_64, os: Os::Linux };
    let mut flags = SettingsBuilder::new();
    flags.avoid_div_traps = true;
    let isa_builder = match lookup(triple) {
        Ok(b) => b,
        Err(_) => {
            proof {
                assert(false);
            }
            crate::isa::x64::isa_builder(triple)
        },
    };
    Builder { triple, shared_flags: flags, isa_builder }
}

impl Builder {
    /// The triple this builder targets.
    pub fn triple(&self) -> (r: Triple)
        ensures
            r == self.triple,
    {
        self.triple
    }

    /// Retargets the builder: the ISA builder is looked up anew for the
    /// given triple.
    pub fn target(&mut self, target: Triple) -> (r: Result<(), LookupError>)
        ensures
            match r {
                Ok(_) => final(self).triple == target && final(self).shared_flags == old(self).shared_flags,
                Err(e) => e == LookupError::Unsupported && *final(self) == *old(self),
            },
    {
        let isa_builder = match lookup(target) {
            Ok(b) => b,
            Err(e) => {
                return Err(e);
            },
        };
        self.triple = target;
        self.isa_builder = isa_builder;
        Ok(())
    }

    /// Sets the flag `name` to `value`: the shared set is consulted
    /// first, and an unrecognized name falls through to the
    /// target-specific set before failing.
    pub fn set(&mut self, name: &str, value: &str) -> (r: Result<(), SetError>)
        ensures
            final(self).triple == old(self).triple,
            match r {
                Ok(_) => {
                    ||| (name.spec_bytes() =~= "avoid_div_traps".spec_bytes() && (
                    value.spec_bytes() =~= "true".spec_bytes() || value.spec_bytes()
                        =~= "false".spec_bytes()) && final(self).shared_flags == (SettingsBuilder {
                        avoid_div_traps: value.spec_bytes() =~= "true".spec_bytes(),
                        ..old(self).shared_flags
                    }) && final(self).isa_builder == old(self).isa_builder)
                    ||| (name.spec_bytes() =~= "opt_level".spec_bytes() && final(self).isa_builder
                        == old(self).isa_builder && final(self).shared_flags.avoid_div_traps
                        == old(self).shared_flags.avoid_div_traps && ((value.spec_bytes()
                        =~= "none".spec_bytes() && final(self).shared_flags.opt_level
                        == OptLevel::OptNone) || (value.spec_bytes() =~= "speed".spec_bytes()
                        && final(self).shared_flags.opt_level == OptLevel::Speed) || (
                    value.spec_bytes() =~= "speed_and_size".spec_bytes() && final(self).shared_flags.opt_level == OptLevel::SpeedAndSize)))
                    ||| (!(name.spec_bytes() =~= "avoid_div_traps".spec_bytes()) && !(
                    name.spec_bytes() =~= "opt_level".spec_bytes()) && final(self).shared_flags
                        == old(self).shared_flags && (value.spec_bytes() =~= "true".spec_bytes()
                        || value.spec_bytes() =~= "false".spec_bytes())
                        && crate::isa::spec_set_flag(
                        old(self).isa_builder.settings,
                        name.spec_bytes(),
                        value.spec_bytes() =~= "true".spec_bytes(),
                    ) == Some(final(self).isa_builder.settings))
                },
                Err(e) => {
                    &&& (e == SetError::BadName || e == SetError::BadValue)
                    &&& *final(self) == *old(self)
                    &&& (e == SetError::BadName <==> !(name.spec_bytes()
                        =~= "avoid_div_traps".spec_bytes()) && !(name.spec_bytes()
                        =~= "opt_level".spec_bytes()) && crate::isa::spec_set_flag(
                        old(self).isa_builder.settings,
                        name.spec_bytes(),
                        true,
                    ) is None)
                },
            },
    {
        if str_eq(name, "avoid_div_traps") {
            let b = match crate::isa::parse_bool(value) {
                Ok(b) => b,
                Err(e) => {
                    return Err(e);
                },
            };
            self.shared_flags.avoid_div_traps = b;
            Ok(())
        } else if str_eq(name, "opt_level") {
            if str_eq(value, "none") {
                self.shared_flags.opt_level = OptLevel::OptNone;
                Ok(())
            } else if str_eq(value, "speed") {
                self.shared_flags.opt_level = OptLevel::Speed;
                Ok(())
            } else if str_eq(value, "speed_and_size") {
                self.shared_flags.opt_level = OptLevel::SpeedAndSize;
                Ok(())
            } else {
                Err(SetError::BadValue)
            }
        } else {
            // Fall through to the target-specific flags.
            self.isa_builder.set(name, value)
        }
    }

    /// Enables the boolean flag `name`, shared first, target-specific on
    /// fall-through.
    pub fn enable(&mut self, name: &str) -> (r: Result<(), SetError>)
        ensures
            final(self).triple == old(self).triple,
            match r {
                Ok(_) => {
                    ||| (name.spec_bytes() =~= "avoid_div_traps".spec_bytes() && final(self).shared_flags == (SettingsBuilder {
                        avoid_div_traps: true,
                        ..old(self).shared_flags
                    }) && final(self).isa_builder == old(self).isa_builder)
                    ||| (!(name.spec_bytes() =~= "avoid_div_traps".spec_bytes()) && final(self).shared_flags == old(self).shared_flags && crate::isa::spec_set_flag(
                        old(self).isa_builder.settings,
                        name.spec_bytes(),
                        true,
                    ) == Some(final(self).isa_builder.settings))
                },
                Err(e) => {
                    &&& e == SetError::BadName
                    &&& *final(self) == *old(self)
                    &&& !(name.spec_bytes() =~= "avoid_div_traps".spec_bytes())
                    &&& crate::isa::spec_set_flag(
                        old(self).isa_builder.settings,
                        name.spec_bytes(),
                        true,
                    ) is None
                },
            },
    {
        if str_eq(name, "avoid_div_traps") {
            self.shared_flags.avoid_div_traps = true;
            Ok(())
        } else {
            self.isa_builder.enable(name)
        }
    }

    /// The target-specific settings this builder exposes.
    pub fn settings(&self) -> (r: Vec<Setting>)
        ensures
            r@.len() == 2,
            self.isa_builder.settings is X64 ==> r@[0].name@ == "has_sse3"@ && r@[1].name@
                == "has_avx"@,
            self.isa_builder.settings is Aarch64 ==> r@[0].name@ == "use_bti"@ && r@[1].name@
                == "sign_return_address"@,
            forall|i: int| 0 <= i < 2 ==> (#[trigger] r@[i]).kind == SettingKind::Bool,
    {
        self.isa_builder.iter()
    }

    /// Freezes the flags and builds the compiler for this target.
    pub fn build(&self) -> (r: Compiler)
        ensures
            r.isa.triple == self.isa_builder.triple,
            r.isa.isa_flags == self.isa_builder.settings,
            r.isa.shared_flags == (Flags {
                avoid_div_traps: self.shared_flags.avoid_div_traps,
                opt_level: self.shared_flags.opt_level,
            }),
    {
        let flags = Flags::new(self.shared_flags);
        let isa = self.isa_builder.build(flags);
        Compiler::new(isa)
    }
}

} // verus!
