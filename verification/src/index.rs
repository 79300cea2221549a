//! The compilation environment and its single-disposal lifecycle.

use vstd::prelude::*;

verus! {

/// An `Index` is an environment for a set of translation units that will
/// typically end up linked together in one final binary.
///
/// It models ownership of exactly one native compilation-environment
/// handle. The handle is stored as an opaque number and is never
/// dereferenced here; the unverified shell that talks to the front-end
/// obtains the handle, seals it into an `Index`, and gets it back exactly
/// once, from [`Index::dispose`].
///
/// Disposal is exactly-once by construction: `Index` is neither `Clone`
/// nor `Copy`, and `dispose` consumes the value, so no second disposal of
/// the same environment can be written, and no query on a disposed
/// environment can be written either.
pub struct Index {
    /// The native environment handle, as an opaque number.
    handle: u64,
    /// Whether declarations from precompiled headers are included when
    /// enumerating a translation unit's "locals". A "local" declaration
    /// is one that belongs to the translation unit itself and not to a
    /// precompiled header that the translation unit used.
    allow_pch_locals: bool,
    /// Whether the front-end's internal diagnostics are emitted.
    diagnostics_enabled: bool,
}

impl Index {
    /// The native environment handle this `Index` owns.
    pub closed spec fn spec_handle(self) -> u64 {
        self.handle
    }

    /// Whether precompiled-header declarations count as locals.
    pub closed spec fn spec_allow_pch_locals(self) -> bool {
        self.allow_pch_locals
    }

    /// Whether internal diagnostics are emitted.
    pub closed spec fn spec_diagnostics_enabled(self) -> bool {
        self.diagnostics_enabled
    }

    /// Construct a new `Index` owning the freshly created native
    /// environment `handle`.
    ///
    /// The `pch` parameter controls whether declarations in precompiled
    /// headers are included when enumerating a translation unit's
    /// "locals"; the `diag` parameter controls whether debugging
    /// diagnostics are enabled. Both are fixed for the lifetime of the
    /// environment.
    pub fn new(pch: bool, diag: bool, handle: u64) -> (ix: Index)
        ensures
            ix.spec_handle() == handle,
            ix.spec_allow_pch_locals() == pch,
            ix.spec_diagnostics_enabled() == diag,
    {
        Index { handle, allow_pch_locals: pch, diagnostics_enabled: diag }
    }

    /// Whether precompiled-header declarations count as locals.
    pub fn allow_pch_locals(&self) -> (r: bool)
        ensures
            r == self.spec_allow_pch_locals(),
    {
        self.allow_pch_locals
    }

    /// Whether internal diagnostics are emitted.
    pub fn diagnostics_enabled(&self) -> (r: bool)
        ensures
            r == self.spec_diagnostics_enabled(),
    {
        self.diagnostics_enabled
    }

    /// The placeholder rendering of an `Index`: besides identity there
    /// is nothing meaningfully printable, and no internal field — the
    /// handle above all — is exposed.
    pub fn debug_text(&self) -> (s: String)
        ensures
            s@ == "Index { }"@,
    {
        "Index { }".to_owned()
    }

    /// End the environment's lifetime, yielding the owned native handle
    /// so that the caller can release it.
    ///
    /// This consumes the `Index`: the handle leaves the model exactly
    /// once, and nothing can be asked of the environment afterwards.
    pub fn dispose(self) -> (h: u64)
        ensures
            h == self.spec_handle(),
    {
        self.handle
    }
}

} // verus!
