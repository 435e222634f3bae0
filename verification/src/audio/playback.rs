//! Playback belongs to the receiver; the sender has none.

use vstd::prelude::*;
use vstd::string::StringExecFns;

verus! {

/// Starts playback of a received stream. The sender does not play: the call
/// always fails, and says so.
pub fn start_playback() -> (started: Result<(), String>)
    ensures
        started.is_err(),
        started.unwrap_err()@ == "Playback not implemented in sender app"@,
{
    Err(String::from_str("Playback not implemented in sender app"))
}

} // verus!
