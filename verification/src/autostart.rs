//! Start at login: the entry the tool keeps under the user's `Run` registry
//! key, and how a stored entry is recognised as this program's.
use vstd::prelude::*;

verus! {

/// The registry key, under the current user, that lists programs started at
/// login.
pub const RUN_KEY: &'static str = "Software\\Microsoft\\Windows\\CurrentVersion\\Run";

/// The name of the tool's value under `RUN_KEY`.
pub const APP_NAME: &'static str = "VoiceType2";

/// The program's path in double quotes, as stored in the registry.
pub open spec fn quoted_path(path: Seq<char>) -> Seq<char> {
    "\""@ + path + "\""@
}

/// The value stored for the program at `exe_path`: the path in double quotes.
pub fn quoted_exe_path(exe_path: &str) -> (q: String)
    ensures
        q@ == quoted_path(exe_path@),
{
    let mut q = "\"".to_owned();
    q.append(exe_path);
    q.append("\"");
    q
}

/// Whether start at login is on: only when the program's path is known, a
/// value is stored, and that value is the quoted path of this very program.
pub fn autostart_enabled(exe_path: Option<&str>, stored: Option<&str>) -> (b: bool)
    ensures
        b == (exe_path is Some && stored is Some && stored->0@ == quoted_path(exe_path->0@)),
{
    match (exe_path, stored) {
        (Some(p), Some(v)) => {
            let q = quoted_exe_path(p);
            let v = v.to_owned();
            q == v
        },
        _ => false,
    }
}

} // verus!
