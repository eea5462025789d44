//! The critical-section guard. All shared queue state is protected by the
//! one global mutual-exclusion mechanism (interrupt masking on the target;
//! whatever `critical_section`'s host implementation provides elsewhere).
//! A `critical_section::CriticalSection` token is the proof of holding it:
//! every device or callback operation that touches a queue demands one, so
//! none can be called outside `critical_section::with`. The token is
//! declared here; the library never acquires or releases the section
//! itself, which keeps the held scope in the caller's hands and as short
//! as the caller makes it.

use vstd::prelude::*;

verus! {

/// Declares `critical_section::CriticalSection`: the crate's zero-sized,
/// non-reentrant proof of exclusion, obtainable only inside
/// `critical_section::with` (or from the crate's unsafe constructor,
/// which this library never uses). Opaque here: holding a value of it is
/// all that matters.
#[verifier::external_type_specification]
#[verifier::external_body]
pub struct ExCriticalSection<'a>(critical_section::CriticalSection<'a>);

} // verus!
