//! Trusted access to the clock and the terminal.

use vstd::prelude::*;
use std::io::Write;

verus! {

/// Relies on std::time::SystemTime::now: a clock reading, converted to
/// milliseconds since the Unix epoch. Contracts treat the value as
/// arbitrary; callers take it as an argument and promise nothing of it.
#[verifier::external_body]
pub(crate) fn now_millis() -> u64 {
    match std::time::SystemTime::now().duration_since(std::time::SystemTime::UNIX_EPOCH) {
        Ok(d) => d.as_millis() as u64,
        Err(_) => 0,
    }
}

/// Relies on std::io::stderr: prints one status line for a human watching
/// the run.
#[verifier::external_body]
pub(crate) fn emit_status(line: &str) {
    let _ = writeln!(std::io::stderr(), "{}", line);
}

/// Relies on std::io::stdout: prints one notice line.
#[verifier::external_body]
pub(crate) fn emit_note(line: &str) {
    let _ = writeln!(std::io::stdout(), "{}", line);
}

} // verus!
