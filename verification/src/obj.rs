//! Text-section layout and relocation resolution.
//!
//! Each compiled function's bytes are appended, at the target's function
//! alignment, into one contiguous text region; every relocation that
//! targets a module-local function index is resolved to the target's final
//! offset once all functions are laid out.  An unresolvable one is a hard
//! build fault, not a runtime trap.  Relocations against runtime library
//! calls are not resolved here: they are returned to the embedder
//! unpatched, as dynamic relocations against the final object.

use vstd::prelude::*;

use crate::masm::MachBufferFinalized;
use crate::types::{ObjectError, RelocationKind, RelocationTarget};
use crate::CompiledFunction;

verus! {

/// Every reloc names a 4-byte patch field inside the body, and every trap
/// offset lies inside the body.
pub open spec fn buffer_records_in_range(buf: MachBufferFinalized) -> bool {
    &&& forall|k: int|
        0 <= k < buf.relocs@.len() ==> (#[trigger] buf.relocs@[k]).offset + 4 <= buf.data@.len()
            && -16 <= buf.relocs@[k].addend <= 16
    &&& forall|k: int|
        0 <= k < buf.traps@.len() ==> (#[trigger] buf.traps@[k]).offset < buf.data@.len()
}

/// One pending or dynamic relocation against the text region: the
/// absolute byte offset of its patch field, its shape, its target, and
/// its addend.
#[derive(Clone, Copy, Debug, PartialEq, Eq, Structural)]
pub struct TextReloc {
    pub site: u32,
    pub kind: RelocationKind,
    pub target: RelocationTarget,
    pub addend: i64,
}

/// The finished text region: its bytes and the relocations left for the
/// embedder — those against runtime library calls.
#[derive(Clone, Debug, PartialEq, Eq)]
pub struct TextSection {
    pub bytes: Vec<u8>,
    pub dynamic_relocs: Vec<TextReloc>,
}

/// Whether some pending relocation names a module-local function that was
/// never laid out.
pub open spec fn has_unresolved(pending: Seq<TextReloc>, nfuncs: int) -> bool {
    exists|k: int|
        0 <= k < pending.len() && ((#[trigger] pending[k]).target matches RelocationTarget::UserFunc(
            t,
        ) && t >= nfuncs)
}

/// The module-local function index a relocation names.
pub open spec fn spec_user_target(r: TextReloc) -> u32 {
    r.target->UserFunc_0
}

/// Byte `j` of the little-endian 32-bit field holding `v`.
pub open spec fn spec_le_byte(v: u32, j: int) -> u8 {
    if j == 0 {
        (v & 0xFF) as u8
    } else if j == 1 {
        ((v >> 8u32) & 0xFF) as u8
    } else if j == 2 {
        ((v >> 16u32) & 0xFF) as u8
    } else {
        ((v >> 24u32) & 0xFF) as u8
    }
}

/// The 32-bit value a resolved patch field holds: on x86-64 the
/// displacement from the end of the field, via the addend; on aarch64 the
/// branch-and-link word with the word displacement in its low 26 bits.
pub open spec fn spec_patch_value(
    kind: RelocationKind,
    target_start: u32,
    addend: i64,
    site: u32,
) -> u32 {
    match kind {
        RelocationKind::X86CallPcRel4 => (target_start + addend - site) as u32,
        RelocationKind::Arm64Call => 0x9400_0000u32 | ((((target_start + addend - site) as u32)
            >> 2u32) & 0x03FF_FFFF),
    }
}

/// Whether byte `b` lies inside the patch field of one of the first
/// `upto` relocations that name a module-local function.
pub open spec fn patch_covers_upto(pending: Seq<TextReloc>, upto: int, b: int) -> bool {
    exists|k: int|
        0 <= k < upto && ((#[trigger] pending[k]).target is UserFunc) && pending[k].site <= b
            < pending[k].site + 4
}

/// Whether byte `b` lies inside any module-local patch field.
pub open spec fn patch_covers(pending: Seq<TextReloc>, b: int) -> bool {
    patch_covers_upto(pending, pending.len() as int, b)
}

/// Builds the text region of one module: functions are appended at the
/// target's function alignment, and the relocations recorded during their
/// compilation are resolved against the final layout when the region is
/// finished.
pub struct ModuleTextBuilder {
    alignment: u32,
    expected: usize,
    text: Vec<u8>,
    starts: Vec<u32>,
    ends: Vec<u32>,
    pending: Vec<TextReloc>,
}

impl ModuleTextBuilder {
    /// The bytes laid out so far.
    pub closed spec fn spec_text(self) -> Seq<u8> {
        self.text@
    }

    /// The start offset of each appended function.
    pub closed spec fn spec_starts(self) -> Seq<u32> {
        self.starts@
    }

    /// The end offset of each appended function.
    pub closed spec fn spec_ends(self) -> Seq<u32> {
        self.ends@
    }

    /// The relocations recorded so far, at absolute text offsets.
    pub closed spec fn spec_pending(self) -> Seq<TextReloc> {
        self.pending@
    }

    /// The builder invariant: the alignment is a power the target allows,
    /// every function's range and every patch field lies inside the text,
    /// and the bookkeeping vectors agree.
    pub closed spec fn wf(self) -> bool {
        &&& 0 < self.alignment <= 0x1000
        &&& self.text@.len() <= 0x4000_0000
        &&& self.starts@.len() == self.ends@.len()
        &&& forall|k: int|
            0 <= k < self.starts@.len() ==> (#[trigger] self.starts@[k]) <= self.ends@[k]
                && self.ends@[k] <= self.text@.len()
        &&& forall|k: int|
            0 <= k < self.pending@.len() ==> (#[trigger] self.pending@[k]).site + 4
                <= self.text@.len() && -16 <= self.pending@[k].addend <= 16
        &&& forall|k1: int, k2: int|
            0 <= k1 < k2 < self.pending@.len() ==> (#[trigger] self.pending@[k1]).site + 4 <= (
            #[trigger] self.pending@[k2]).site
    }

    /// How many functions this builder was announced for.
    pub closed spec fn spec_expected(self) -> int {
        self.expected as int
    }

    /// How many functions have been appended.
    pub fn func_count(&self) -> (r: usize)
        ensures
            r == self.spec_starts().len(),
    {
        self.starts.len()
    }

    /// Creates a builder for the text region of one module, laying
    /// functions out at `alignment`.  `num_funcs` announces how many
    /// functions will be appended.
    pub fn new(alignment: u32, num_funcs: usize) -> (r: Result<ModuleTextBuilder, ObjectError>)
        ensures
            match r {
                Ok(b) => {
                    &&& b.wf()
                    &&& 0 < alignment <= 0x1000
                    &&& b.spec_text().len() == 0
                    &&& b.spec_starts().len() == 0
                    &&& b.spec_pending().len() == 0
                    &&& b.spec_expected() == num_funcs
                    &&& b.spec_alignment() == alignment
                },
                Err(e) => e == ObjectError::TextTooLarge && (alignment == 0 || alignment > 0x1000),
            },
    {
        if alignment == 0 || alignment > 0x1000 {
            return Err(ObjectError::TextTooLarge);
        }
        Ok(
            ModuleTextBuilder {
                alignment,
                expected: num_funcs,
                text: Vec::new(),
                starts: Vec::new(),
                ends: Vec::new(),
                pending: Vec::new(),
            },
        )
    }

    /// Appends one compiled function: the text is padded up to the
    /// function alignment, the body's bytes follow, and the function's
    /// relocations are recorded at their absolute offsets.  Returns the
    /// function's index and its byte range within the text region.
    #[verifier::rlimit(100)]
    pub fn append_func(&mut self, func: &CompiledFunction) -> (r: Result<
        (usize, (u32, u32)),
        ObjectError,
    >)
        requires
            old(self).wf(),
            func.wf(),
        ensures
            final(self).wf(),
            match r {
                Ok(pair) => {
                    &&& pair.0 == old(self).spec_starts().len()
                    &&& final(self).spec_starts() == old(self).spec_starts().push(pair.1.0)
                    &&& final(self).spec_ends() == old(self).spec_ends().push(pair.1.1)
                    &&& pair.1.0 % old(self).spec_alignment() == 0
                    &&& pair.1.0 + func.body@.len() == pair.1.1
                    &&& pair.1.1 <= 0x4000_0000
                    &&& final(self).spec_text().len() == pair.1.1
                    &&& final(self).spec_text().subrange(pair.1.0 as int, pair.1.1 as int)
                        == func.body@
                    &&& final(self).spec_pending().len() == old(self).spec_pending().len()
                        + func.relocations@.len()
                    &&& forall|k: int|
                        0 <= k < func.relocations@.len() ==> (#[trigger] final(self).spec_pending()[old(self).spec_pending().len() + k]) == (TextReloc {
                            site: (pair.1.0 + func.relocations@[k].offset) as u32,
                            kind: func.relocations@[k].kind,
                            target: func.relocations@[k].target,
                            addend: func.relocations@[k].addend,
                        })
                    &&& forall|k: int|
                        0 <= k < old(self).spec_pending().len() ==> (#[trigger] final(self).spec_pending()[k]) == old(self).spec_pending()[k]
                    &&& old(self).spec_text().len() <= pair.1.0 < old(self).spec_text().len()
                        + old(self).spec_alignment()
                    &&& forall|b: int|
                        0 <= b < old(self).spec_text().len() ==> final(self).spec_text()[b] == old(
                            self,
                        ).spec_text()[b]
                    &&& forall|b: int|
                        old(self).spec_text().len() <= b < pair.1.0 ==> final(self).spec_text()[b]
                            == 0
                },
                Err(e) => e == ObjectError::TextTooLarge && *final(self) == *old(self),
            },
            final(self).spec_expected() == old(self).spec_expected(),
            final(self).spec_alignment() == old(self).spec_alignment(),
            func.body@.len() <= 0x1000_0000 && old(self).spec_text().len() <= 0x2000_0000
                ==> r is Ok,
    {
        if func.body.len() > 0x1000_0000 {
            return Err(ObjectError::TextTooLarge);
        }
        if self.text.len() > 0x2000_0000 {
            return Err(ObjectError::TextTooLarge);
        }
        // Pad to the function alignment.
        let rem: u32 = (self.text.len() as u32) % self.alignment;
        let pad: u32 = if rem == 0 {
            0
        } else {
            self.alignment - rem
        };
        let mut z: u32 = 0;
        while z < pad
            invariant
                z <= pad,
                pad < 0x1000,
                self.text@.len() == old(self).spec_text().len() + z,
                self.alignment == old(self).spec_alignment(),
                self.expected == old(self).expected,
                self.starts == old(self).starts,
                self.ends == old(self).ends,
                self.pending == old(self).pending,
                old(self).spec_text().len() <= 0x2000_0000 + 1,
                forall|b: int|
                    0 <= b < old(self).spec_text().len() ==> self.text@[b] == old(
                        self,
                    ).spec_text()[b],
                forall|b: int|
                    old(self).spec_text().len() <= b < self.text@.len() ==> self.text@[b] == 0,
            decreases pad - z,
        {
            self.text.push(0x00);
            z = z + 1;
        }
        let off: u32 = self.text.len() as u32;
        proof {
            crate::abi::lemma_align_rem(old(self).spec_text().len() as int, pad as int, self.alignment as int, rem as int);
        }
        // Append the body.
        let n = func.body.len();
        let mut i: usize = 0;
        while i < n
            invariant
                i <= n,
                n == func.body@.len(),
                n <= 0x1000_0000,
                off + n <= 0x2000_2000 + 0x1000_0000,
                self.text@.len() == off + i,
                off <= self.text@.len(),
                off >= old(self).spec_text().len(),
                forall|j: int| 0 <= j < i ==> self.text@[off + j] == func.body@[j],
                forall|b: int|
                    0 <= b < old(self).spec_text().len() ==> self.text@[b] == old(
                        self,
                    ).spec_text()[b],
                forall|b: int| old(self).spec_text().len() <= b < off ==> self.text@[b] == 0,
                self.alignment == old(self).spec_alignment(),
                self.expected == old(self).expected,
                self.starts == old(self).starts,
                self.ends == old(self).ends,
                self.pending == old(self).pending,
            decreases n - i,
        {
            self.text.push(func.body[i]);
            i = i + 1;
        }
        let end: u32 = self.text.len() as u32;
        // Record the relocations at absolute offsets.
        let nr = func.relocations.len();
        let mut k: usize = 0;
        while k < nr
            invariant
                k <= nr,
                nr == func.relocations@.len(),
                func.wf(),
                n == func.body@.len(),
                end == off + n,
                end <= self.text@.len(),
                self.text@.len() == end,
                self.pending@.len() == old(self).spec_pending().len() + k,
                forall|j: int|
                    0 <= j < old(self).spec_pending().len() ==> (#[trigger] self.pending@[j]) == old(self).spec_pending()[j],
                forall|j: int|
                    0 <= j < k ==> (#[trigger] self.pending@[old(self).spec_pending().len() + j])
                        == (TextReloc {
                        site: (off + func.relocations@[j].offset) as u32,
                        kind: func.relocations@[j].kind,
                        target: func.relocations@[j].target,
                        addend: func.relocations@[j].addend,
                    }),
                forall|j: int|
                    0 <= j < self.pending@.len() ==> (#[trigger] self.pending@[j]).site + 4
                        <= self.text@.len() && -16 <= self.pending@[j].addend <= 16,
                forall|j1: int, j2: int|
                    0 <= j1 < j2 < self.pending@.len() ==> (#[trigger] self.pending@[j1]).site + 4
                        <= (#[trigger] self.pending@[j2]).site,
                off >= old(self).spec_text().len(),
                forall|j: int|
                    0 <= j < old(self).spec_pending().len() ==> (#[trigger] old(
                        self,
                    ).spec_pending()[j]).site + 4 <= old(self).spec_text().len(),
                self.alignment == old(self).spec_alignment(),
                self.expected == old(self).expected,
                self.starts == old(self).starts,
                self.ends == old(self).ends,
                forall|j: int| 0 <= j < i ==> self.text@[off + j] == func.body@[j],
                forall|b: int|
                    0 <= b < old(self).spec_text().len() ==> self.text@[b] == old(
                        self,
                    ).spec_text()[b],
                forall|b: int| old(self).spec_text().len() <= b < off ==> self.text@[b] == 0,
            decreases nr - k,
        {
            let rl = func.relocations[k];
            proof {
                assert forall|j: int|
                    0 <= j < self.pending@.len() implies (#[trigger] self.pending@[j]).site + 4
                    <= off + rl.offset by {
                    if j < old(self).spec_pending().len() {
                        assert(self.pending@[j] == old(self).spec_pending()[j]);
                        assert(self.pending@[j].site + 4 <= old(self).spec_text().len());
                    } else {
                        let jj = j - old(self).spec_pending().len();
                        assert(self.pending@[old(self).spec_pending().len() + jj] == (TextReloc {
                            site: (off + func.relocations@[jj].offset) as u32,
                            kind: func.relocations@[jj].kind,
                            target: func.relocations@[jj].target,
                            addend: func.relocations@[jj].addend,
                        }));
                        assert(self.pending@[j].site == (off + func.relocations@[jj].offset)
                            as u32);
                        assert(func.relocations@[jj].offset + 4 <= func.relocations@[
                            k as int
                        ].offset);
                    }
                }
            }
            self.pending.push(
                TextReloc {
                    site: off + rl.offset,
                    kind: rl.kind,
                    target: rl.target,
                    addend: rl.addend,
                },
            );
            k = k + 1;
        }
        let idx = self.starts.len();
        self.starts.push(off);
        self.ends.push(end);
        proof {
            assert(self.text@.subrange(off as int, end as int) =~= func.body@);
            assert forall|q: int|
                0 <= q < self.pending@.len() implies (#[trigger] self.pending@[q]).site + 4
                <= self.text@.len() && -16 <= self.pending@[q].addend <= 16 by {
                if q >= old(self).spec_pending().len() {
                    let j = q - old(self).spec_pending().len();
                    assert(func.relocations@[j].offset + 4 <= func.body@.len());
                    assert(-16 <= func.relocations@[j].addend <= 16);
                }
            }
            assert forall|q: int|
                0 <= q < self.starts@.len() implies (#[trigger] self.starts@[q]) <= self.ends@[q]
                && self.ends@[q] <= self.text@.len() by {
                if q < old(self).spec_starts().len() {
                    assert(old(self).spec_starts()[q] <= old(self).spec_ends()[q]);
                    assert(old(self).spec_ends()[q] <= old(self).spec_text().len());
                }
            }
        }
        Ok((idx, (off, end)))
    }

    /// The function alignment this builder lays out at.
    pub closed spec fn spec_alignment(self) -> u32 {
        self.alignment
    }

    /// Finishes the text region.
    ///
    /// The announced function count must have been met; then every
    /// relocation that names a module-local function is resolved against
    /// that function's final start offset, and the four bytes of its patch
    /// field are rewritten to the little-endian patch value for its shape.
    /// Every byte outside a patch field is exactly as appended.  A
    /// relocation whose function index was never laid out is a build
    /// fault.  Library-call relocations are handed back unpatched.
    #[verifier::rlimit(100)]
    pub fn finish(self) -> (r: Result<TextSection, ObjectError>)
        requires
            self.wf(),
        ensures
            match r {
                Ok(out) => {
                    &&& self.spec_starts().len() == self.spec_expected()
                    &&& !has_unresolved(self.spec_pending(), self.spec_starts().len() as int)
                    &&& out.bytes@.len() == self.spec_text().len()
                    &&& forall|k: int|
                        0 <= k < self.spec_pending().len() && ((#[trigger] self.spec_pending()[k]).target is UserFunc) ==> forall|q: int|
                            0 <= q < 4 ==> out.bytes@[self.spec_pending()[k].site + q]
                                == spec_le_byte(
                                spec_patch_value(
                                    self.spec_pending()[k].kind,
                                    self.spec_starts()[spec_user_target(
                                        self.spec_pending()[k],
                                    ) as int],
                                    self.spec_pending()[k].addend,
                                    self.spec_pending()[k].site,
                                ),
                                q,
                            )
                    &&& forall|b: int|
                        0 <= b < self.spec_text().len() && !patch_covers(self.spec_pending(), b)
                            ==> out.bytes@[b] == self.spec_text()[b]
                    &&& forall|k: int|
                        0 <= k < out.dynamic_relocs@.len() ==> (
                        #[trigger] out.dynamic_relocs@[k]).target is LibCall
                },
                Err(e) => {
                    &&& (e == ObjectError::FunctionCountMismatch || e
                        == ObjectError::UnresolvedRelocation)
                    &&& (e == ObjectError::FunctionCountMismatch <==> self.spec_starts().len()
                        != self.spec_expected())
                    &&& (e == ObjectError::UnresolvedRelocation <==> self.spec_starts().len()
                        == self.spec_expected() && has_unresolved(
                        self.spec_pending(),
                        self.spec_starts().len() as int,
                    ))
                },
            },
    {
        let ghost g_pend = self.spec_pending();
        let ghost g_nfuncs = self.spec_starts().len();
        let ghost g_text = self.spec_text();
        let ghost g_starts_seq = self.spec_starts();
        let ModuleTextBuilder { alignment: _, expected, mut text, starts, ends: _, mut pending } =
            self;
        let nfuncs = starts.len();
        if nfuncs != expected {
            return Err(ObjectError::FunctionCountMismatch);
        }
        let npend = pending.len();
        proof {
            assert(pending@ == g_pend);
            assert(starts@ == g_starts_seq);
        }
        let mut dynamic_relocs: Vec<TextReloc> = Vec::new();
        let ghost pend0 = pending@;
        let mut k: usize = 0;
        while k < npend
            invariant
                k <= npend,
                npend == pend0.len(),
                pending@ == pend0,
                pend0 == g_pend,
                nfuncs == g_nfuncs,
                g_pend == self.spec_pending(),
                g_nfuncs == self.spec_starts().len(),
                g_text == self.spec_text(),
                g_starts_seq == self.spec_starts(),
                nfuncs == starts@.len(),
                nfuncs as int == self.spec_expected(),
                starts@ == g_starts_seq,
                text@.len() == g_text.len(),
                forall|j: int| 0 <= j < npend ==> (#[trigger] pend0[j]).site + 4 <= text@.len() && -16 <= pend0[j].addend <= 16,
                forall|j1: int, j2: int|
                    0 <= j1 < j2 < npend ==> (#[trigger] pend0[j1]).site + 4 <= (
                    #[trigger] pend0[j2]).site,
                forall|j: int|
                    0 <= j < nfuncs ==> (#[trigger] starts@[j]) <= text@.len(),
                forall|j: int|
                    0 <= j < k ==> !((#[trigger] pend0[j]).target matches
                    RelocationTarget::UserFunc(t) && t >= nfuncs),
                forall|j: int|
                    0 <= j < k && ((#[trigger] pend0[j]).target is UserFunc) ==> forall|q: int|
                        0 <= q < 4 ==> text@[pend0[j].site + q] == spec_le_byte(
                            spec_patch_value(
                                pend0[j].kind,
                                starts@[spec_user_target(pend0[j]) as int],
                                pend0[j].addend,
                                pend0[j].site,
                            ),
                            q,
                        ),
                forall|b: int|
                    0 <= b < text@.len() && !patch_covers_upto(pend0, k as int, b) ==> text@[b]
                        == g_text[b],
                forall|j: int|
                    0 <= j < dynamic_relocs@.len() ==> (
                    #[trigger] dynamic_relocs@[j]).target is LibCall,
            decreases npend - k,
        {
            let rl = pending[k];
            match rl.target {
                RelocationTarget::UserFunc(t) => {
                    if t as usize >= nfuncs {
                        proof {
                            assert(0 <= k < g_pend.len());
                            assert(g_pend[k as int].target == RelocationTarget::UserFunc(t));
                            assert(has_unresolved(g_pend, g_nfuncs as int));
                        }
                        return Err(ObjectError::UnresolvedRelocation);
                    }
                    let target_start: u32 = starts[t as usize];
                    let site = rl.site as usize;
                    let text_len = text.len();
                    proof {
                        assert(rl.site + 4 <= text@.len());
                        assert(site + 4 <= text_len);
                    }
                    let site1 = site + 1;
                    let site2 = site + 2;
                    let site3 = site + 3;
                    let rel: i64 = target_start as i64 + rl.addend - rl.site as i64;
                    let bits: u32 = rel as u32;
                    let word: u32 = match rl.kind {
                        RelocationKind::X86CallPcRel4 => bits,
                        RelocationKind::Arm64Call => 0x9400_0000u32 | ((bits >> 2) & 0x03FF_FFFF),
                    };
                    let ghost pre_text = text@;
                    text.set(site, (word & 0xFF) as u8);
                    text.set(site1, ((word >> 8) & 0xFF) as u8);
                    text.set(site2, ((word >> 16) & 0xFF) as u8);
                    text.set(site3, ((word >> 24) & 0xFF) as u8);
                    proof {
                        assert(word == spec_patch_value(
                            rl.kind,
                            target_start,
                            rl.addend,
                            rl.site,
                        ));
                        assert(forall|b: int|
                            0 <= b < text@.len() && !(site <= b < site + 4) ==> text@[b]
                                == pre_text[b]);
                        assert forall|b: int|
                            0 <= b < text@.len() && !patch_covers_upto(pend0, k + 1, b) implies
                            text@[b] == g_text[b] by {
                            assert(!(site <= b < site + 4)) by {
                                if site <= b < site + 4 {
                                    assert(patch_covers_upto(pend0, k + 1, b));
                                }
                            }
                            assert(!patch_covers_upto(pend0, k as int, b)) by {
                                if patch_covers_upto(pend0, k as int, b) {
                                    let j = choose|j: int|
                                        0 <= j < k && ((#[trigger] pend0[j]).target is UserFunc)
                                            && pend0[j].site <= b < pend0[j].site + 4;
                                    assert(patch_covers_upto(pend0, k + 1, b));
                                }
                            }
                        }
                        assert forall|j: int|
                            0 <= j < k + 1 && ((#[trigger] pend0[j]).target is UserFunc) implies
                            forall|q: int|
                                0 <= q < 4 ==> text@[pend0[j].site + q] == spec_le_byte(
                                    spec_patch_value(
                                        pend0[j].kind,
                                        starts@[spec_user_target(pend0[j]) as int],
                                        pend0[j].addend,
                                        pend0[j].site,
                                    ),
                                    q,
                                ) by {
                            if j < k {
                                assert(pend0[j].site + 4 <= pend0[k as int].site);
                                assert(forall|q: int|
                                    0 <= q < 4 ==> #[trigger] text@[pend0[j].site + q]
                                        == pre_text[pend0[j].site + q]);
                            }
                        }
                    }
                },
                RelocationTarget::LibCall(_) => {
                    dynamic_relocs.push(rl);
                    proof {
                        assert forall|b: int|
                            0 <= b < text@.len() && !patch_covers_upto(pend0, k + 1, b) implies
                            text@[b] == g_text[b] by {
                            if patch_covers_upto(pend0, k as int, b) {
                                let j = choose|j: int|
                                    0 <= j < k && ((#[trigger] pend0[j]).target is UserFunc)
                                        && pend0[j].site <= b < pend0[j].site + 4;
                                assert(patch_covers_upto(pend0, k + 1, b));
                            }
                        }
                    }
                },
            }
            k = k + 1;
        }
        proof {
            assert(!has_unresolved(pend0, nfuncs as int));
            assert forall|b: int|
                0 <= b < text@.len() && !patch_covers(pend0, b) implies text@[b] == g_text[b] by {
                if patch_covers_upto(pend0, npend as int, b) {
                    let j = choose|j: int|
                        0 <= j < npend && ((#[trigger] pend0[j]).target is UserFunc) && pend0[
                            j
                        ].site <= b < pend0[j].site + 4;
                    assert(patch_covers(pend0, b));
                }
            }
        }
        Ok(TextSection { bytes: text, dynamic_relocs })
    }
}

} // verus!
