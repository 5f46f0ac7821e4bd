use vstd::prelude::*;
use crate::decimal::{decimal, decimal_of};
use crate::platform::{owned_strings, strings_view, LaunchCommand, Platform};
use crate::probe::{BACKEND_HOST, BACKEND_PORT};

verus! {

/// How many globally installed command lines are tried before the embedded
/// backend.
pub const GLOBAL_COMMAND_COUNT: usize = 2;

/// The globally installed command lines, most preferred first: the CLI itself,
/// then the CLI through the package runner. On Windows both go through the
/// command interpreter.
pub open spec fn global_commands_spec(p: Platform) -> Seq<(Seq<char>, Seq<Seq<char>>)> {
    if p == Platform::Windows {
        seq![
            ("cmd"@, seq!["/C"@, "wqbot"@, "serve"@]),
            ("cmd"@, seq!["/C"@, "npx"@, "wqbot"@, "serve"@]),
        ]
    } else {
        seq![("wqbot"@, seq!["serve"@]), ("npx"@, seq!["wqbot"@, "serve"@])]
    }
}

/// The `i`-th globally installed command line to try.
pub fn global_command(p: Platform, i: usize) -> (r: LaunchCommand)
    requires
        i < GLOBAL_COMMAND_COUNT,
    ensures
        r.view_parts() == global_commands_spec(p)[i as int],
{
    let windows = match p {
        Platform::Windows => true,
        _ => false,
    };
    if windows {
        let program = String::from_str("cmd");
        if i == 0 {
            let args = owned_strings(&["/C", "wqbot", "serve"]);
            assert(strings_view(args@) =~= seq!["/C"@, "wqbot"@, "serve"@]);
            LaunchCommand { program, args }
        } else {
            let args = owned_strings(&["/C", "npx", "wqbot", "serve"]);
            assert(strings_view(args@) =~= seq!["/C"@, "npx"@, "wqbot"@, "serve"@]);
            LaunchCommand { program, args }
        }
    } else if i == 0 {
        let args = owned_strings(&["serve"]);
        assert(strings_view(args@) =~= seq!["serve"@]);
        LaunchCommand { program: String::from_str("wqbot"), args }
    } else {
        let args = owned_strings(&["wqbot", "serve"]);
        assert(strings_view(args@) =~= seq!["wqbot"@, "serve"@]);
        LaunchCommand { program: String::from_str("npx"), args }
    }
}

/// Where a candidate resource directory is looked for.
#[derive(Clone, Copy, Debug, PartialEq, Eq, Structural)]
pub enum RootBase {
    /// The directory that holds the host executable.
    ExecutableDir,
    /// The parent of the directory that holds the host executable.
    ExecutableParent,
    /// The path is absolute.
    Absolute,
}

/// A candidate resource directory: a path under a base.
#[derive(Debug)]
pub struct ResourceRoot {
    pub base: RootBase,
    pub path: String,
}

/// The candidate resource directories, most preferred first: an adjacent
/// `resources` folder on Windows and Linux, with a system-wide fallback on
/// Linux, and the bundle's sibling `Resources` folder on macOS.
pub open spec fn resource_roots_spec(p: Platform) -> Seq<(RootBase, Seq<char>)> {
    match p {
        Platform::Windows => seq![(RootBase::ExecutableDir, "resources"@)],
        Platform::MacOs => seq![(RootBase::ExecutableParent, "Resources"@)],
        Platform::Linux => seq![
            (RootBase::ExecutableDir, "resources"@),
            (RootBase::Absolute, "/usr/share/wqbot/resources"@),
        ],
        Platform::Other => seq![],
    }
}

/// The candidate resource directories of the platform, in order.
pub fn resource_roots(p: Platform) -> (r: Vec<ResourceRoot>)
    ensures
        r@.map_values(|c: ResourceRoot| (c.base, c.path@)) == resource_roots_spec(p),
{
    let mut r: Vec<ResourceRoot> = Vec::new();
    match p {
        Platform::Windows => {
            r.push(ResourceRoot { base: RootBase::ExecutableDir, path: String::from_str("resources") });
        },
        Platform::MacOs => {
            r.push(ResourceRoot { base: RootBase::ExecutableParent, path: String::from_str("Resources") });
        },
        Platform::Linux => {
            r.push(ResourceRoot { base: RootBase::ExecutableDir, path: String::from_str("resources") });
            r.push(
                ResourceRoot {
                    base: RootBase::Absolute,
                    path: String::from_str("/usr/share/wqbot/resources"),
                },
            );
        },
        Platform::Other => {},
    }
    assert(r@.map_values(|c: ResourceRoot| (c.base, c.path@)) =~= resource_roots_spec(p));
    r
}

/// `present[i]` is the first true entry.
pub open spec fn is_first_true(present: Seq<bool>, i: int) -> bool {
    &&& 0 <= i < present.len()
    &&& present[i]
    &&& forall|j: int| 0 <= j < i ==> !#[trigger] present[j]
}

/// Picks the first candidate that was found; `None` when none was.
pub fn first_present(present: &Vec<bool>) -> (r: Option<usize>)
    ensures
        match r {
            Some(i) => is_first_true(present@, i as int),
            None => forall|j: int| 0 <= j < present@.len() ==> !#[trigger] present@[j],
        },
{
    let mut i: usize = 0;
    while i < present.len()
        invariant
            i <= present@.len(),
            forall|j: int| 0 <= j < i ==> !#[trigger] present@[j],
        decreases present@.len() - i,
    {
        if present[i] {
            return Some(i);
        }
        i = i + 1;
    }
    None
}

/// The relative path of the backend's entry script under the resource
/// directory, one segment per element.
pub open spec fn backend_entry_spec() -> Seq<Seq<char>> {
    seq!["packages"@, "backend"@, "dist"@, "index.js"@]
}

/// The segments of the backend's entry script path under the resource
/// directory.
pub fn backend_entry_segments() -> (r: Vec<String>)
    ensures
        strings_view(r@) == backend_entry_spec(),
{
    let r = owned_strings(&["packages", "backend", "dist", "index.js"]);
    assert(strings_view(r@) =~= backend_entry_spec());
    r
}

/// The runtime executables to look for, most preferred first: a bare name to
/// be resolved on the search path, then well-known install locations.
pub open spec fn runtime_candidates_spec(p: Platform) -> Seq<Seq<char>> {
    if p == Platform::Windows {
        seq![
            "node.exe"@,
            "C:\\Program Files\\nodejs\\node.exe"@,
            "C:\\Program Files (x86)\\nodejs\\node.exe"@,
        ]
    } else {
        seq!["node"@, "/usr/local/bin/node"@, "/usr/bin/node"@, "/opt/homebrew/bin/node"@]
    }
}

/// The runtime executables to look for on the platform, in order.
pub fn runtime_candidates(p: Platform) -> (r: Vec<String>)
    ensures
        strings_view(r@) == runtime_candidates_spec(p),
{
    if p == Platform::Windows {
        let r = owned_strings(
            &[
                "node.exe",
                "C:\\Program Files\\nodejs\\node.exe",
                "C:\\Program Files (x86)\\nodejs\\node.exe",
            ],
        );
        assert(strings_view(r@) =~= runtime_candidates_spec(p));
        r
    } else {
        let r = owned_strings(&["node", "/usr/local/bin/node", "/usr/bin/node", "/opt/homebrew/bin/node"]);
        assert(strings_view(r@) =~= runtime_candidates_spec(p));
        r
    }
}

/// The program that tells whether a command resolves on the search path.
pub open spec fn path_search_program_spec(p: Platform) -> Seq<char> {
    if p == Platform::Windows { "where"@ } else { "which"@ }
}

/// The program that tells whether a command resolves on the search path.
pub fn path_search_program(p: Platform) -> (r: String)
    ensures
        r@ == path_search_program_spec(p),
{
    if p == Platform::Windows {
        String::from_str("where")
    } else {
        String::from_str("which")
    }
}

/// What the host found out about one runtime candidate.
#[derive(Clone, Copy, Debug, PartialEq, Eq, Structural)]
pub struct RuntimeProbe {
    /// The path search program resolved it.
    pub on_path: bool,
    /// A file exists at that path.
    pub on_disk: bool,
}

/// A runtime candidate is usable when either check found it.
pub open spec fn runtime_found(probe: RuntimeProbe) -> bool {
    probe.on_path || probe.on_disk
}

/// Picks the first runtime candidate that either check found; `None` when
/// none was.
pub fn select_runtime(probes: &Vec<RuntimeProbe>) -> (r: Option<usize>)
    ensures
        match r {
            Some(i) => {
                &&& i < probes@.len()
                &&& runtime_found(probes@[i as int])
                &&& forall|j: int| 0 <= j < i ==> !runtime_found(#[trigger] probes@[j])
            },
            None => forall|j: int| 0 <= j < probes@.len() ==> !runtime_found(#[trigger] probes@[j]),
        },
{
    let mut i: usize = 0;
    while i < probes.len()
        invariant
            i <= probes@.len(),
            forall|j: int| 0 <= j < i ==> !runtime_found(#[trigger] probes@[j]),
        decreases probes@.len() - i,
    {
        let probe = probes[i];
        if probe.on_path || probe.on_disk {
            return Some(i);
        }
        i = i + 1;
    }
    None
}

/// The arguments given to the bundled companion executable: the port and
/// host to listen on.
pub open spec fn sidecar_args_spec() -> Seq<Seq<char>> {
    seq!["--port"@, decimal_of(BACKEND_PORT as nat), "--host"@, BACKEND_HOST@]
}

/// The arguments given to the bundled companion executable in sidecar mode.
pub fn sidecar_args() -> (r: Vec<String>)
    ensures
        strings_view(r@) == sidecar_args_spec(),
{
    let mut r: Vec<String> = Vec::new();
    r.push(String::from_str("--port"));
    r.push(decimal(BACKEND_PORT as u32));
    r.push(String::from_str("--host"));
    r.push(String::from_str(BACKEND_HOST));
    assert(strings_view(r@) =~= sidecar_args_spec());
    r
}

} // verus!
