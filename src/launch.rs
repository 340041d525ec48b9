use vstd::prelude::*;

verus! {

/// The instrumentation host's executable.
pub const HOST_PROGRAM: &'static str = "lldb";

/// The environment variable that hands the host the target's process identifier.
pub const PID_ENV_VAR: &'static str = "STARCRAFT_PID";

/// The prefix of the temporary script file's name.
pub const SCRIPT_PREFIX: &'static str = "starplug_";

/// The suffix of the temporary script file's name.
pub const SCRIPT_SUFFIX: &'static str = ".py";

/// The host's arguments: batch mode, quiet sourcing, and one command that imports
/// the script at `script_path`.
pub fn host_arguments(script_path: &str) -> (r: Vec<String>)
    ensures
        r@.len() == 4,
        r@[0]@ == "--batch"@,
        r@[1]@ == "--source-quietly"@,
        r@[2]@ == "--one-line"@,
        r@[3]@ == "command script import '"@ + script_path@ + "'"@,
{
    let mut import = String::from_str("command script import '");
    import.append(script_path);
    import.append("'");
    let mut r: Vec<String> = Vec::new();
    r.push(String::from_str("--batch"));
    r.push(String::from_str("--source-quietly"));
    r.push(String::from_str("--one-line"));
    r.push(import);
    r
}

} // verus!
