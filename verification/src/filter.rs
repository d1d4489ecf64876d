//! The executable filter handle: sole owner of one compiled artifact.
//!
//! A handle is created only from a successful run of the native
//! compiler, matches buffers for as long as it lives, can be duplicated
//! into a fully independent handle without recompiling, and releases
//! its memory region exactly once — the release consumes the handle, so
//! a second release, or a match after release, cannot be written.

use vstd::prelude::*;

use crate::region::ExecutableRegion;

verus! {

/// Owning handle over one compiled filter artifact: a sealed executable
/// memory region holding the generated routine. The handle is the
/// region's sole owner for its whole lifetime; two handles never share
/// a region.
pub struct BpfJitFilter {
    region: ExecutableRegion,
}

/// Whether a verdict returned by the generated routine counts as a
/// match: any value strictly above zero does.
pub open spec fn decides_match(verdict: u32) -> bool {
    verdict > 0
}

impl BpfJitFilter {
    /// The machine code backing the handle, byte for byte.
    pub closed spec fn view(&self) -> Seq<u8> {
        self.region@
    }

    /// Wrap the outcome of the native compile call. The caller runs the
    /// compiler on an instruction sequence; on success it hands in the
    /// generated code, whose region becomes the handle's sole property,
    /// and on failure — a rejected or empty program, or the compiler's
    /// own resource exhaustion — it hands in nothing, and no handle and
    /// no resources exist. This is the only way a handle comes to be
    /// from bytecode.
    pub fn compile(outcome: Option<Vec<u8>>) -> (r: Option<BpfJitFilter>)
        ensures
            r is Some <==> outcome is Some,
            outcome is Some ==> r->0@ == outcome->0@,
    {
        match outcome {
            Some(code) => Some(BpfJitFilter { region: ExecutableRegion::adopt(code) }),
            None => None,
        }
    }

    /// Decide a match from the verdict the generated routine returned
    /// for a buffer: true exactly when the verdict is strictly greater
    /// than zero. The caller invokes the routine on the buffer and
    /// hands the returned value in; the decision may be drawn any
    /// number of times while the handle lives.
    pub fn matched(&self, verdict: u32) -> (r: bool)
        ensures
            r == decides_match(verdict),
    {
        verdict > 0
    }

    /// Size in bytes of the generated code region.
    pub fn size(&self) -> (r: usize)
        ensures
            r == self@.len(),
    {
        self.region.len()
    }

    /// The machine code backing the handle, copied out byte for byte.
    pub fn code(&self) -> (r: Vec<u8>)
        ensures
            r@ == self@,
    {
        self.region.contents()
    }

    /// Duplicate the handle without re-running the compiler: a fresh
    /// region of the same size is mapped writable, the machine code is
    /// copied byte for byte, and the copy is sealed read+execute. The
    /// result owns its own region, shares nothing with the source, and
    /// has a fully independent lifetime.
    pub fn duplicate(&self) -> (r: BpfJitFilter)
        ensures
            r@ == self@,
    {
        BpfJitFilter { region: self.region.duplicate() }
    }

    /// Release the handle's region back to the operating system and
    /// report how many bytes were freed: always exactly the region's
    /// size. The handle is consumed, so releasing twice, or matching or
    /// duplicating after release, cannot be written.
    pub fn release(self) -> (freed: usize)
        ensures
            freed == self@.len(),
    {
        self.region.release()
    }
}

/// The two length arguments handed to the generated routine when it is
/// invoked on `buf`: the captured length and the original length are
/// both the buffer's actual length.
pub fn entry_lengths(buf: &[u8]) -> (r: (u32, u32))
    requires
        buf@.len() <= u32::MAX,
    ensures
        r.0 == buf@.len(),
        r.1 == buf@.len(),
{
    let n = buf.len() as u32;
    (n, n)
}

/// Duplication law: a duplicate matches exactly as its source, on every
/// buffer. The generated routine's verdict is a function of the machine
/// code and the buffer alone — here `routine`, universally quantified —
/// and the match decision is a function of the verdict alone; a
/// duplicate carries byte-identical code, so source and duplicate reach
/// the same decision on every buffer. The statement speaks only of the
/// two handles' code, so it is untouched by either handle's later
/// release.
pub proof fn lemma_duplicate_matches_alike(
    source: &BpfJitFilter,
    dup: &BpfJitFilter,
    routine: spec_fn(Seq<u8>, Seq<u8>) -> u32,
    buf: Seq<u8>,
)
    requires
        dup@ == source@,
    ensures
        decides_match(routine(dup@, buf)) == decides_match(routine(source@, buf)),
{
}

} // verus!
