//! The start-up decision: export the schema once and exit, or serve.

use vstd::prelude::*;
use vstd::string::*;

verus! {

/// How the process is to start.
#[derive(Debug, Clone, Copy, PartialEq, Eq, Structural)]
pub enum StartupMode {
    /// Write the schema of commands and events for the client, then exit.
    ExportSchema,
    /// Export the schema, then accept invocations until the process ends.
    Serve,
}

/// Whether the export flag, `--specta`, is among the command-line arguments.
pub open spec fn export_requested(arguments: Seq<String>) -> bool {
    exists|i: int| 0 <= i < arguments.len() && (#[trigger] arguments[i])@ == "--specta"@
}

/// Decides the start-up mode from the command-line arguments: the one-shot
/// export exactly when one of them, whichever, is `--specta`.
pub fn startup_mode(arguments: &Vec<String>) -> (mode: StartupMode)
    ensures
        mode == if export_requested(arguments@) {
            StartupMode::ExportSchema
        } else {
            StartupMode::Serve
        },
{
    let flag = String::from_str("--specta");
    let mut i: usize = 0;
    while i < arguments.len()
        invariant
            0 <= i <= arguments.len(),
            flag@ == "--specta"@,
            forall|j: int| 0 <= j < i ==> (#[trigger] arguments@[j])@ != "--specta"@,
        decreases arguments.len() - i,
    {
        if arguments[i] == flag {
            return StartupMode::ExportSchema;
        }
        i += 1;
    }
    StartupMode::Serve
}

} // verus!
