//! The daemon as a service of the system.

use crate::{json_value, text};
use vstd::prelude::*;

verus! {

/// What describes the service to `systemd`: the template, with the path of the program
/// and the user that runs it filled in, the superuser where none is named.
pub fn systemd_service(template: &str, binary: &str, user: Option<&str>) -> (r: String)
    ensures
        r@ == text::replaced(
            text::replaced(template@, "{{BINARY_PATH}}"@, binary@),
            "{{USER}}"@,
            match user {
                Some(u) => u@,
                None => "root"@,
            },
        ),
{
    proof {
        reveal_strlit("{{BINARY_PATH}}");
        reveal_strlit("{{USER}}");
    }
    let with_binary = text::replace(template, "{{BINARY_PATH}}", binary);
    let user = match user {
        Some(u) => u,
        None => "root",
    };
    text::replace(with_binary.as_str(), "{{USER}}", user)
}

/// What describes the service to `launchd`: the template, with the path of the program
/// filled in.
pub fn launchd_plist(template: &str, binary: &str) -> (r: String)
    ensures
        r@ == text::replaced(template@, "{{BINARY_PATH}}"@, binary@),
{
    proof {
        reveal_strlit("{{BINARY_PATH}}");
    }
    text::replace(template, "{{BINARY_PATH}}", binary)
}

/// What is said where a command failed, and with it what the command said.
pub fn failure_text(failed: &str, said: &str) -> (r: String)
    ensures
        r@ == failed@ + ": "@ + said@,
{
    failed.to_owned().concat(": ").concat(said)
}

/// What is said where a command failed, given what the command wrote.
pub fn command_failure(failed: &str, written: &[u8]) -> (r: String)
    ensures
        r@ == failed@ + ": "@ + json_value::lossy_chars(written@),
{
    failure_text(failed, json_value::lossy_text(written).as_str())
}

} // verus!
