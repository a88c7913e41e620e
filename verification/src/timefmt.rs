//! Durations in words, as shown to the user.

use vstd::prelude::*;

verus! {

/// The text that `humantime` prints for a duration of `secs` whole seconds
/// (for instance `1h 19m 59s`). The crate treats the wording as given and
/// only passes it on.
pub uninterp spec fn duration_text(secs: u64) -> Seq<char>;

/// Calls `humantime::format_duration` on a duration of `secs` whole seconds and
/// renders what it returns.
///
/// Trusted: the only claim is that the rendered text depends on `secs` alone,
/// which is what [`duration_text`] names. The formatter reads nothing but the
/// duration it is given.
#[verifier::external_body]
pub fn humantime_secs(secs: u64) -> (text: String)
    ensures
        text@ == duration_text(secs),
{
    humantime::format_duration(std::time::Duration::from_secs(secs)).to_string()
}

} // verus!
