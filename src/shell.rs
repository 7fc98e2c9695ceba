use vstd::prelude::*;
use vstd::string::StringExecFns;

verus! {

/// Relies on which::which: looks `name` up on the search path and gives the
/// full path of the executable found, if any. What it finds depends on the
/// environment and the disk; a path found is a search directory joined with
/// `name`, so it is never empty.
#[verifier::external_body]
fn find_on_path(name: &str) -> (r: Option<String>)
    ensures
        r matches Some(p) ==> p@.len() > 0,
{
    which::which(name).ok().map(|p| p.to_string_lossy().into_owned())
}

/// The shell a new pane runs, from what the search path gave for `pwsh`
/// and for `cmd`: the first one found, else the literal `pwsh.exe`.
pub open spec fn shell_choice(pwsh: Option<Seq<char>>, cmd: Option<Seq<char>>) -> Seq<char> {
    match pwsh {
        Some(p) => p,
        None => match cmd {
            Some(c) => c,
            None => "pwsh.exe"@,
        },
    }
}

pub open spec fn opt_view(o: Option<String>) -> Option<Seq<char>> {
    match o {
        Some(s) => Some(s@),
        None => None,
    }
}

/// Picks the shell from the results of the two path lookups.
pub fn choose_shell(pwsh: Option<String>, cmd: Option<String>) -> (r: String)
    ensures
        r@ == shell_choice(opt_view(pwsh), opt_view(cmd)),
{
    match pwsh {
        Some(p) => p,
        None => match cmd {
            Some(c) => c,
            None => String::from_str("pwsh.exe"),
        },
    }
}

/// The programs looked for on the search path, in order of preference:
/// `pwsh`, then `cmd`.
pub fn shell_probes() -> (r: (&'static str, &'static str))
    ensures
        r.0@ == "pwsh"@,
        r.1@ == "cmd"@,
{
    ("pwsh", "cmd")
}

/// Finds the shell to run in a new pane: `pwsh` on the search path, then
/// `cmd`, then the bare name `pwsh.exe`.
pub fn detect_shell() -> (r: String)
    ensures
        r@.len() > 0,
{
    let (first, second) = shell_probes();
    let pwsh = find_on_path(first);
    let cmd = find_on_path(second);
    let r = choose_shell(pwsh, cmd);
    proof {
        reveal_strlit("pwsh.exe");
    }
    r
}

} // verus!
