use vstd::prelude::*;

verus! {

/// One `key: value` line of the diagnostic text.
pub open spec fn info_line(key: Seq<char>, value: Seq<char>) -> Seq<char> {
    key + ": "@ + value + "\n"@
}

/// A located path, or `not found`.
pub open spec fn found_or_not(v: Option<&str>) -> Seq<char> {
    match v {
        Some(s) => s@,
        None => "not found"@,
    }
}

/// The liveness status as shown to the operator.
pub open spec fn status_text(running: bool) -> Seq<char> {
    if running { "running"@ } else { "not running"@ }
}

/// The diagnostic text: operating system, CPU architecture, resource
/// directory, runtime location and liveness, one line each.
pub open spec fn backend_info_spec(
    os: Seq<char>,
    arch: Seq<char>,
    resource_dir: Option<&str>,
    runtime: Option<&str>,
    running: bool,
) -> Seq<char> {
    info_line("platform"@, os) + info_line("arch"@, arch) + info_line(
        "resource dir"@,
        found_or_not(resource_dir),
    ) + info_line("node"@, found_or_not(runtime)) + info_line("backend"@, status_text(running))
}

fn push_line(s: &mut String, key: &str, value: &str)
    ensures
        final(s)@ == old(s)@ + info_line(key@, value@),
{
    s.append(key);
    s.append(": ");
    s.append(value);
    s.append("\n");
    assert(final(s)@ =~= old(s)@ + info_line(key@, value@));
}

/// Assembles the diagnostic text shown by the host's info operation.
pub fn backend_info(
    os: &str,
    arch: &str,
    resource_dir: Option<&str>,
    runtime: Option<&str>,
    running: bool,
) -> (r: String)
    ensures
        r@ == backend_info_spec(os@, arch@, resource_dir, runtime, running),
{
    let mut s = String::new();
    push_line(&mut s, "platform", os);
    push_line(&mut s, "arch", arch);
    let dir = match resource_dir {
        Some(d) => d,
        None => "not found",
    };
    push_line(&mut s, "resource dir", dir);
    let node = match runtime {
        Some(n) => n,
        None => "not found",
    };
    push_line(&mut s, "node", node);
    let status = if running { "running" } else { "not running" };
    push_line(&mut s, "backend", status);
    assert(s@ =~= backend_info_spec(os@, arch@, resource_dir, runtime, running));
    s
}

} // verus!
