//! Target-architecture dispatch: the triple model, the configuration
//! surface of shared and target-specific flags, the ISA builder, and the
//! immutable target object the rest of the compiler queries.
//!
//! Architecture selection happens once, from a triple; afterwards a single
//! tagged target value dispatches every architecture-specific operation.
//! The target object carries no mutable state after construction, so
//! concurrent compilations may share it freely.

use vstd::prelude::*;
use vstd::string::StringSliceAdditionalSpecFns;

use crate::codegen::{FuncEnv, Op};
use crate::frame::DefinedLocals;
use crate::masm::MachBufferFinalized;
use crate::types::{CodegenError, LookupError, SetError, Signature};

pub mod aarch64;
pub mod x64;

verus! {

/// The instruction-set architectures this compiler can target.
#[derive(Clone, Copy, Debug, PartialEq, Eq, Structural)]
pub enum Arch {
    X86_64,
    Aarch64,
    Other,
}

/// The operating systems the triple model distinguishes; only the choices
/// that change code-section layout or the default calling convention are
/// separated.
#[derive(Clone, Copy, Debug, PartialEq, Eq, Structural)]
pub enum Os {
    Linux,
    Darwin,
    Windows,
    Other,
}

/// A target triple, reduced to what the compiler reads from it.
#[derive(Clone, Copy, Debug, PartialEq, Eq, Structural)]
pub struct Triple {
    pub arch: Arch,
    pub os: Os,
}

/// Byte order of the target.
#[derive(Clone, Copy, Debug, PartialEq, Eq, Structural)]
pub enum Endianness {
    Little,
    Big,
}

/// The default native calling convention of a triple.
#[derive(Clone, Copy, Debug, PartialEq, Eq, Structural)]
pub enum CallConvId {
    SystemV,
    WindowsFastcall,
    AppleAarch64,
}

/// Optimization level carried by the shared flags; the baseline generator
/// reads none of it but reports it to the embedder.
#[derive(Clone, Copy, Debug, PartialEq, Eq, Structural)]
pub enum OptLevel {
    OptNone,
    Speed,
    SpeedAndSize,
}

/// The shared, architecture-independent flags.
#[derive(Clone, Copy, Debug, PartialEq, Eq, Structural)]
pub struct Flags {
    pub avoid_div_traps: bool,
    pub opt_level: OptLevel,
}

/// Builder for the shared flags.
#[derive(Clone, Copy, Debug, PartialEq, Eq, Structural)]
pub struct SettingsBuilder {
    pub avoid_div_traps: bool,
    pub opt_level: OptLevel,
}

impl SettingsBuilder {
    pub fn new() -> (r: SettingsBuilder)
        ensures
            r.avoid_div_traps == false,
            r.opt_level == OptLevel::OptNone,
    {
        SettingsBuilder { avoid_div_traps: false, opt_level: OptLevel::OptNone }
    }
}

impl Flags {
    /// Finalizes a shared-flags builder into the immutable flag set.
    pub fn new(builder: SettingsBuilder) -> (r: Flags)
        ensures
            r.avoid_div_traps == builder.avoid_div_traps,
            r.opt_level == builder.opt_level,
    {
        Flags { avoid_div_traps: builder.avoid_div_traps, opt_level: builder.opt_level }
    }
}

/// The x86-64 specific flags.
#[derive(Clone, Copy, Debug, PartialEq, Eq, Structural)]
pub struct X64Flags {
    pub has_sse3: bool,
    pub has_avx: bool,
}

/// The aarch64 specific flags.
#[derive(Clone, Copy, Debug, PartialEq, Eq, Structural)]
pub struct Aarch64Flags {
    pub use_bti: bool,
    pub sign_return_address: bool,
}

/// The target-specific flag set of one architecture.
#[derive(Clone, Copy, Debug, PartialEq, Eq, Structural)]
pub enum ArchFlags {
    X64(X64Flags),
    Aarch64(Aarch64Flags),
}

/// What kind of value one named setting takes.
#[derive(Clone, Copy, Debug, PartialEq, Eq, Structural)]
pub enum SettingKind {
    Bool,
    Enum,
    Num,
    Preset,
}

/// One named setting a builder exposes.
#[derive(Clone, Copy, Debug, PartialEq, Eq)]
pub struct Setting {
    pub name: &'static str,
    pub kind: SettingKind,
}

/// One named flag with its chosen value, as the target reports its
/// configuration to the embedder.
#[derive(Clone, Copy, Debug, PartialEq, Eq)]
pub enum FlagValue {
    Bool(bool),
    Num(u8),
    Enum(&'static str),
}

/// A flag name paired with its value.
#[derive(Clone, Copy, Debug, PartialEq, Eq)]
pub struct FlagPair {
    pub name: &'static str,
    pub value: FlagValue,
}

/// Byte-wise equality of two slices.
pub fn bytes_eq(a: &[u8], b: &[u8]) -> (r: bool)
    ensures
        r == (a@ =~= b@),
{
    if a.len() != b.len() {
        return false;
    }
    let n = a.len();
    let mut i: usize = 0;
    while i < n
        invariant
            n == a@.len(),
            n == b@.len(),
            i <= n,
            forall|j: int| 0 <= j < i ==> a@[j] == b@[j],
        decreases n - i,
    {
        if a[i] != b[i] {
            return false;
        }
        i = i + 1;
    }
    proof {
        assert(a@ =~= b@);
    }
    true
}

/// Whether two strings hold the same bytes.
pub fn str_eq(a: &str, b: &str) -> (r: bool)
    ensures
        r == (a.spec_bytes() =~= b.spec_bytes()),
{
    bytes_eq(a.as_bytes(), b.as_bytes())
}

/// Parses a boolean flag value: `true`, or `false`; anything else is
/// rejected at the flag's kind.
pub fn parse_bool(value: &str) -> (r: Result<bool, SetError>)
    ensures
        match r {
            Ok(b) => (b == (value.spec_bytes() =~= "true".spec_bytes())) && (value.spec_bytes()
                =~= "true".spec_bytes() || value.spec_bytes() =~= "false".spec_bytes()),
            Err(e) => e == SetError::BadValue && !(value.spec_bytes() =~= "true".spec_bytes())
                && !(value.spec_bytes() =~= "false".spec_bytes()),
        },
{
    if str_eq(value, "true") {
        Ok(true)
    } else if str_eq(value, "false") {
        Ok(false)
    } else {
        Err(SetError::BadValue)
    }
}

/// What setting the named target-specific flag to `on` does to a flag
/// set: the updated set, or nothing when the architecture does not
/// declare the name.
pub open spec fn spec_set_flag(s: ArchFlags, name: Seq<u8>, on: bool) -> Option<ArchFlags> {
    match s {
        ArchFlags::X64(f) => if name =~= "has_sse3".spec_bytes() {
            Some(ArchFlags::X64(X64Flags { has_sse3: on, ..f }))
        } else if name =~= "has_avx".spec_bytes() {
            Some(ArchFlags::X64(X64Flags { has_avx: on, ..f }))
        } else {
            None
        },
        ArchFlags::Aarch64(f) => if name =~= "use_bti".spec_bytes() {
            Some(ArchFlags::Aarch64(Aarch64Flags { use_bti: on, ..f }))
        } else if name =~= "sign_return_address".spec_bytes() {
            Some(ArchFlags::Aarch64(Aarch64Flags { sign_return_address: on, ..f }))
        } else {
            None
        },
    }
}

/// The target ISA builder: the triple it was looked up for and the
/// architecture's flag set under construction.
#[derive(Clone, Copy, Debug, PartialEq, Eq, Structural)]
pub struct Builder {
    pub triple: Triple,
    pub settings: ArchFlags,
}

impl Builder {
    /// Sets the target-specific flag `name` to `value`.  A name the
    /// architecture does not declare is reported, not ignored.
    pub fn set(&mut self, name: &str, value: &str) -> (r: Result<(), SetError>)
        ensures
            final(self).triple == old(self).triple,
            match r {
                Ok(_) => (value.spec_bytes() =~= "true".spec_bytes() || value.spec_bytes()
                    =~= "false".spec_bytes()) && spec_set_flag(
                    old(self).settings,
                    name.spec_bytes(),
                    value.spec_bytes() =~= "true".spec_bytes(),
                ) == Some(final(self).settings),
                Err(e) => {
                    &&& (e == SetError::BadName || e == SetError::BadValue)
                    &&& *final(self) == *old(self)
                    &&& (e == SetError::BadName <==> spec_set_flag(
                        old(self).settings,
                        name.spec_bytes(),
                        true,
                    ) is None)
                },
            },
    {
        match self.settings {
            ArchFlags::X64(flags) => {
                if str_eq(name, "has_sse3") {
                    let b = parse_bool(value)?;
                    self.settings = ArchFlags::X64(X64Flags { has_sse3: b, ..flags });
                    Ok(())
                } else if str_eq(name, "has_avx") {
                    let b = parse_bool(value)?;
                    self.settings = ArchFlags::X64(X64Flags { has_avx: b, ..flags });
                    Ok(())
                } else {
                    Err(SetError::BadName)
                }
            },
            ArchFlags::Aarch64(flags) => {
                if str_eq(name, "use_bti") {
                    let b = parse_bool(value)?;
                    self.settings = ArchFlags::Aarch64(Aarch64Flags { use_bti: b, ..flags });
                    Ok(())
                } else if str_eq(name, "sign_return_address") {
                    let b = parse_bool(value)?;
                    self.settings = ArchFlags::Aarch64(
                        Aarch64Flags { sign_return_address: b, ..flags },
                    );
                    Ok(())
                } else {
                    Err(SetError::BadName)
                }
            },
        }
    }

    /// Enables the boolean target-specific flag `name`.
    pub fn enable(&mut self, name: &str) -> (r: Result<(), SetError>)
        ensures
            final(self).triple == old(self).triple,
            match r {
                Ok(_) => spec_set_flag(old(self).settings, name.spec_bytes(), true) == Some(
                    final(self).settings,
                ),
                Err(e) => e == SetError::BadName && *final(self) == *old(self) && spec_set_flag(
                    old(self).settings,
                    name.spec_bytes(),
                    true,
                ) is None,
            },
    {
        match self.settings {
            ArchFlags::X64(flags) => {
                if str_eq(name, "has_sse3") {
                    self.settings = ArchFlags::X64(X64Flags { has_sse3: true, ..flags });
                    Ok(())
                } else if str_eq(name, "has_avx") {
                    self.settings = ArchFlags::X64(X64Flags { has_avx: true, ..flags });
                    Ok(())
                } else {
                    Err(SetError::BadName)
                }
            },
            ArchFlags::Aarch64(flags) => {
                if str_eq(name, "use_bti") {
                    self.settings = ArchFlags::Aarch64(Aarch64Flags { use_bti: true, ..flags });
                    Ok(())
                } else if str_eq(name, "sign_return_address") {
                    self.settings = ArchFlags::Aarch64(
                        Aarch64Flags { sign_return_address: true, ..flags },
                    );
                    Ok(())
                } else {
                    Err(SetError::BadName)
                }
            },
        }
    }

    /// The settings this builder exposes, with their kinds.
    pub fn iter(&self) -> (r: Vec<Setting>)
        ensures
            r@.len() == 2,
            self.settings is X64 ==> r@[0].name@ == "has_sse3"@ && r@[1].name@ == "has_avx"@,
            self.settings is Aarch64 ==> r@[0].name@ == "use_bti"@ && r@[1].name@
                == "sign_return_address"@,
            forall|i: int| 0 <= i < 2 ==> (#[trigger] r@[i]).kind == SettingKind::Bool,
    {
        let mut v: Vec<Setting> = Vec::new();
        match self.settings {
            ArchFlags::X64(_) => {
                v.push(Setting { name: "has_sse3", kind: SettingKind::Bool });
                v.push(Setting { name: "has_avx", kind: SettingKind::Bool });
            },
            ArchFlags::Aarch64(_) => {
                v.push(Setting { name: "use_bti", kind: SettingKind::Bool });
                v.push(Setting { name: "sign_return_address", kind: SettingKind::Bool });
            },
        }
        v
    }

    /// Finalizes the builder into an immutable target object by combining
    /// its architecture flags with the provided shared flags.
    pub fn build(self, shared_flags: Flags) -> (r: TargetIsa)
        ensures
            r.triple == self.triple,
            r.shared_flags == shared_flags,
            r.isa_flags == self.settings,
    {
        TargetIsa { triple: self.triple, shared_flags, isa_flags: self.settings }
    }
}

/// Looks up an ISA builder for the given target triple.  An unsupported
/// architecture is reported as a lookup failure, never a fault.
pub fn lookup(triple: Triple) -> (r: Result<Builder, LookupError>)
    ensures
        match r {
            Ok(b) => b.triple == triple && (triple.arch == Arch::X86_64 || triple.arch
                == Arch::Aarch64) && (b.settings is X64 <==> triple.arch == Arch::X86_64),
            Err(e) => e == LookupError::Unsupported && triple.arch == Arch::Other,
        },
{
    match triple.arch {
        Arch::X86_64 => Ok(x64::isa_builder(triple)),
        Arch::Aarch64 => Ok(aarch64::isa_builder(triple)),
        Arch::Other => Err(LookupError::Unsupported),
    }
}

/// The immutable target object: architecture identity, triple, and the
/// flag sets chosen at build time.  Everything architecture-specific the
/// compiler does is dispatched through it.
#[derive(Clone, Copy, Debug, PartialEq, Eq, Structural)]
pub struct TargetIsa {
    pub triple: Triple,
    pub shared_flags: Flags,
    pub isa_flags: ArchFlags,
}

impl TargetIsa {
    /// The name of the ISA.
    pub fn name(&self) -> (r: &'static str)
        ensures
            self.isa_flags is X64 ==> r@ == "x64"@,
            self.isa_flags is Aarch64 ==> r@ == "aarch64"@,
    {
        match self.isa_flags {
            ArchFlags::X64(_) => "x64",
            ArchFlags::Aarch64(_) => "aarch64",
        }
    }

    /// The target triple of the ISA.
    pub fn triple(&self) -> (r: Triple)
        ensures
            r == self.triple,
    {
        self.triple
    }

    /// The architecture-independent flags this target was built with.
    pub fn flags(&self) -> (r: Flags)
        ensures
            r == self.shared_flags,
    {
        self.shared_flags
    }

    /// The architecture-specific flag values this target was built with.
    pub fn isa_flags(&self) -> (r: Vec<FlagPair>)
        ensures
            r@.len() == 2,
            self.isa_flags matches ArchFlags::X64(f) ==> r@[0].name@ == "has_sse3"@ && r@[0].value
                == FlagValue::Bool(f.has_sse3) && r@[1].name@ == "has_avx"@ && r@[1].value
                == FlagValue::Bool(f.has_avx),
            self.isa_flags matches ArchFlags::Aarch64(f) ==> r@[0].name@ == "use_bti"@ && r@[
                0
            ].value == FlagValue::Bool(f.use_bti) && r@[1].name@ == "sign_return_address"@ && r@[
                1
            ].value == FlagValue::Bool(f.sign_return_address),
    {
        let mut v: Vec<FlagPair> = Vec::new();
        match self.isa_flags {
            ArchFlags::X64(f) => {
                v.push(FlagPair { name: "has_sse3", value: FlagValue::Bool(f.has_sse3) });
                v.push(FlagPair { name: "has_avx", value: FlagValue::Bool(f.has_avx) });
            },
            ArchFlags::Aarch64(f) => {
                v.push(FlagPair { name: "use_bti", value: FlagValue::Bool(f.use_bti) });
                v.push(
                    FlagPair {
                        name: "sign_return_address",
                        value: FlagValue::Bool(f.sign_return_address),
                    },
                );
            },
        }
        v
    }

    /// Whether branch protection is enabled: only the aarch64 branch
    /// target identification flag switches it on.
    pub fn is_branch_protection_enabled(&self) -> (r: bool)
        ensures
            r == (self.isa_flags matches ArchFlags::Aarch64(f) && f.use_bti),
    {
        match self.isa_flags {
            ArchFlags::X64(_) => false,
            ArchFlags::Aarch64(f) => f.use_bti,
        }
    }

    /// The function alignment the ISA requires.
    pub fn function_alignment(&self) -> (r: u32)
        ensures
            r == spec_function_alignment(*self),
            self.isa_flags is X64 ==> r == 16,
            self.isa_flags is Aarch64 ==> r == 32,
            0 < r <= 32,
    {
        match self.isa_flags {
            ArchFlags::X64(_) => 16,
            ArchFlags::Aarch64(_) => 32,
        }
    }

    /// The default calling convention of the underlying triple.
    pub fn call_conv(&self) -> (r: CallConvId)
        ensures
            r == spec_call_conv(self.triple),
    {
        match (self.triple.os, self.triple.arch) {
            (Os::Windows, _) => CallConvId::WindowsFastcall,
            (Os::Darwin, Arch::Aarch64) => CallConvId::AppleAarch64,
            _ => CallConvId::SystemV,
        }
    }

    /// The byte order of the underlying triple; both supported
    /// architectures run little-endian.
    pub fn endianness(&self) -> (r: Endianness)
        ensures
            r == Endianness::Little,
    {
        Endianness::Little
    }

    /// The alignment required for the code section: the page size of the
    /// platform's memory translation granule.
    pub fn code_section_alignment(&self) -> (r: u64)
        ensures
            r == spec_code_section_alignment(self.triple),
    {
        match (self.triple.os, self.triple.arch) {
            (Os::Darwin, Arch::Aarch64) => 0x4000,
            (_, Arch::Aarch64) => 0x10000,
            _ => 0x1000,
        }
    }

    /// Compiles one function body for this target.
    pub fn compile_function(
        &self,
        sig: &Signature,
        defined: &DefinedLocals,
        ops: &Vec<Op>,
        env: &FuncEnv,
    ) -> (r: Result<MachBufferFinalized, CodegenError>)
        requires
            sig.params@.len() <= 0x1000,
            defined.locals@.len() <= 0x1000,
            ops@.len() <= 0x10_0000,
            env.wf(),
        ensures
            r is Ok ==> crate::obj::buffer_records_in_range(r->Ok_0)
                && r->Ok_0.stack_maps@.len() == 0,
            sig.results@.len() > 1 ==> r == Err::<
                MachBufferFinalized,
                CodegenError,
            >(CodegenError::UnsupportedMultiValue),
    {
        match self.isa_flags {
            ArchFlags::X64(_) => x64::compile_function(sig, defined, ops, env),
            ArchFlags::Aarch64(_) => aarch64::compile_function(sig, defined, ops, env),
        }
    }

    /// Builds the host-to-wasm trampoline for a function of signature
    /// `ty` on this target.  The resulting buffer carries no trap records.
    pub fn compile_trampoline(&self, ty: &Signature) -> (r: Result<
        MachBufferFinalized,
        CodegenError,
    >)
        requires
            ty.params@.len() <= 0x1000,
        ensures
            r is Err <==> ty.results@.len() > 1,
            r is Err ==> r->Err_0 == CodegenError::UnsupportedMultiValue,
            r is Ok ==> crate::obj::buffer_records_in_range(r->Ok_0) && r->Ok_0.traps@.len() == 0
                && r->Ok_0.relocs@.len() == 0 && r->Ok_0.data@.len() > 0
                && r->Ok_0.stack_maps@.len() == 0,
    {
        match self.isa_flags {
            ArchFlags::X64(_) => x64::compile_trampoline(ty),
            ArchFlags::Aarch64(_) => aarch64::compile_trampoline(ty),
        }
    }
}

/// The function alignment a target lays code out at.
pub open spec fn spec_function_alignment(isa: TargetIsa) -> u32 {
    if isa.isa_flags is X64 {
        16u32
    } else {
        32u32
    }
}

/// The default calling convention a triple implies.
pub open spec fn spec_call_conv(t: Triple) -> CallConvId {
    if t.os == Os::Windows {
        CallConvId::WindowsFastcall
    } else if t.os == Os::Darwin && t.arch == Arch::Aarch64 {
        CallConvId::AppleAarch64
    } else {
        CallConvId::SystemV
    }
}

/// The code-section alignment a triple implies.
pub open spec fn spec_code_section_alignment(t: Triple) -> u64 {
    if t.arch == Arch::Aarch64 {
        if t.os == Os::Darwin {
            0x4000
        } else {
            0x10000
        }
    } else {
        0x1000
    }
}

} // verus!
