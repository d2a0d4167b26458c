//! The console front end: alerts and the notice about a running instance.
use vstd::prelude::*;
use std::io::Write;
use crate::text::{decimal, decimal_string};

verus! {

/// Writes one line to standard output (`writeln!` on `std::io::stdout()`),
/// as `println!` does. Nothing is claimed of it.
#[verifier::external_body]
fn print_line(line: &str) {
    let _ = writeln!(std::io::stdout(), "{}", line);
}

/// Shows an alert: in the console front end, the message as one line.
pub fn create_alert_window(message: &str) {
    print_line(message);
}

/// The lines that tell of an instance already running as process `pid`.
pub fn instance_manager_lines(pid: u32) -> (lines: Vec<String>)
    ensures
        lines@.len() == 2,
        lines@[0]@ == "Another instance is already running with PID: "@ + decimal(pid as nat),
        lines@[1]@ == "Use --status, --stop, or --reload to manage it."@,
{
    let digits = decimal_string(pid);
    let mut first = String::from_str("Another instance is already running with PID: ");
    first.append(digits.as_str());
    let second = String::from_str("Use --status, --stop, or --reload to manage it.");
    vec![first, second]
}

/// Tells the user that an instance already runs as process `pid`, and how to
/// manage it.
pub fn show_instance_manager_window(pid: u32) {
    let lines = instance_manager_lines(pid);
    let mut i: usize = 0;
    while i < lines.len()
        invariant
            i <= lines@.len(),
        decreases lines.len() - i,
    {
        print_line(lines[i].as_str());
        i = i + 1;
    }
}

} // verus!
