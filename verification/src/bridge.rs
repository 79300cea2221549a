//! The string bridge: externally allocated text becomes an owned string,
//! and the external buffer is released exactly once.

use vstd::prelude::*;

verus! {

/// Decide what the string bridge does with one external text buffer.
///
/// The front-end hands out text in buffers that it allocates and that
/// must be released explicitly, exactly once, even when the conversion
/// returns early. The unverified shell reads the buffer — `None` for a
/// null buffer, `Some` of the decoded text otherwise — and this function
/// fixes the outcome: the owned string, and whether a release call must
/// be made.
///
/// A null buffer yields the empty string and no release call; a non-null
/// buffer yields exactly its decoded text and exactly one release call.
/// The shell performs the release if and only if the flag says so, which
/// keeps this the only place that decides the fate of such buffers.
pub fn bridge_external_text(decoded: Option<String>) -> (r: (String, bool))
    ensures
        decoded is None ==> r.0@ == Seq::<char>::empty() && r.1 == false,
        decoded matches Some(text) ==> r.0 == text && r.1 == true,
{
    match decoded {
        None => (String::new(), false),
        Some(text) => (text, true),
    }
}

} // verus!
