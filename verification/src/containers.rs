//! Container lifecycle edge: the runtime's query, kill and remove
//! commands, status interpretation, and image URL parsing.
//!
//! Issuing the commands is external work; this module builds them and
//! interprets what comes back.  The bounded wait loops around the
//! status query are driven by [`crate::monitor::Monitor`].

use vstd::prelude::*;
use vstd::string::StrSliceExecFns;
use vstd::string::StringExecFns;

use crate::chars::find_char;
use crate::chars::find_char_from;
use crate::chars::rfind_char;
use crate::chars::rfind_char_in;
use crate::chars::str_eq;
use crate::errors::UtilError;
use crate::script::Command;
use crate::script::CommandLine;
use crate::script::str_ref_views;
use crate::script::str_views;

verus! {

/// An interrogative, optional command for the container runtime.
fn runtime_query(args: &Vec<&str>) -> (c: Command)
    ensures
        !c.mandatory,
        !c.imperative,
        c.cmd.program@ == "docker"@,
        str_views(c.cmd.args@) == str_ref_views(args@),
        c.cmd.env@.len() == 0,
        c.timeout_ms is None,
{
    let mut cmd = CommandLine::new();
    cmd.set_cmd("docker", args);
    Command { mandatory: false, imperative: false, timeout_ms: None, cmd }
}

/// The boolean-style run-state query: `inspect -f {{.State.Running}} <name>`.
pub fn inspect_running_command(name: &str) -> (c: Command)
    ensures
        !c.mandatory,
        !c.imperative,
        c.cmd.program@ == "docker"@,
        str_views(c.cmd.args@) == seq!["inspect"@, "-f"@, "{{.State.Running}}"@, name@],
        c.cmd.env@.len() == 0,
{
    let args: Vec<&str> = vec!["inspect", "-f", "{{.State.Running}}", name];
    let c = runtime_query(&args);
    proof {
        assert(str_ref_views(args@) =~= seq!["inspect"@, "-f"@, "{{.State.Running}}"@, name@]);
    }
    c
}

/// The status-string query: `container inspect -f {{.State.Status}} <name>`.
pub fn inspect_status_command(name: &str) -> (c: Command)
    ensures
        !c.mandatory,
        !c.imperative,
        c.cmd.program@ == "docker"@,
        str_views(c.cmd.args@) == seq![
            "container"@,
            "inspect"@,
            "-f"@,
            "{{.State.Status}}"@,
            name@,
        ],
        c.cmd.env@.len() == 0,
{
    let args: Vec<&str> = vec!["container", "inspect", "-f", "{{.State.Status}}", name];
    let c = runtime_query(&args);
    proof {
        assert(str_ref_views(args@) =~= seq![
            "container"@,
            "inspect"@,
            "-f"@,
            "{{.State.Status}}"@,
            name@,
        ]);
    }
    c
}

/// The best-effort stop request: `kill <name>`.
pub fn kill_command(name: &str) -> (c: Command)
    ensures
        !c.mandatory,
        c.cmd.program@ == "docker"@,
        str_views(c.cmd.args@) == seq!["kill"@, name@],
        c.cmd.env@.len() == 0,
{
    let args: Vec<&str> = vec!["kill", name];
    let c = runtime_query(&args);
    proof {
        assert(str_ref_views(args@) =~= seq!["kill"@, name@]);
    }
    c
}

/// The best-effort removal request: `rm <name>`.
pub fn rm_command(name: &str) -> (c: Command)
    ensures
        !c.mandatory,
        c.cmd.program@ == "docker"@,
        str_views(c.cmd.args@) == seq!["rm"@, name@],
        c.cmd.env@.len() == 0,
{
    let args: Vec<&str> = vec!["rm", name];
    let c = runtime_query(&args);
    proof {
        assert(str_ref_views(args@) =~= seq!["rm"@, name@]);
    }
    c
}

/// Whether a status query's outcome means "running": the query must
/// have succeeded and its output must be exactly `"running"`.  Every
/// other outcome — another status string, an absent unit, a failed
/// query — counts as not running.
pub fn status_indicates_running(query_succeeded: bool, status: &str) -> (r: bool)
    ensures
        r == (query_succeeded && status@ == "running"@),
{
    query_succeeded && str_eq(status, "running")
}

/// The version of an image reference's final path segment: the text
/// between the first `':'` and the next `':'` or the end, or `"latest"`
/// when the segment has no `':'`.
pub open spec fn image_version_of(rest: Seq<char>) -> Seq<char> {
    match find_char_from(rest, ':', 0) {
        None => "latest"@,
        Some(i) => match find_char_from(rest, ':', i + 1) {
            None => rest.skip(i + 1),
            Some(j) => rest.subrange(i + 1, j),
        },
    }
}

/// The name part of an image reference's final path segment: the text
/// before the first `':'`, or the whole segment.
pub open spec fn image_name_of(rest: Seq<char>) -> Seq<char> {
    match find_char_from(rest, ':', 0) {
        None => rest,
        Some(i) => rest.take(i),
    }
}

/// An image URL taken apart: everything up to the image name, and the
/// version tag.
pub struct ParsedImage {
    pub base_url: String,
    pub version: String,
}

impl ParsedImage {
    /// Parse `<registry>/<path>/<name>[:<version>]`.  The URL must have
    /// at least two `'/'`-separated segments; the base URL is the part
    /// before the last `'/'` rejoined with the image name (the version
    /// tag stripped), and a missing version tag means `"latest"`.
    pub fn from_url(url: &str) -> (r: Result<ParsedImage, UtilError>)
        ensures
            match r {
                Ok(p) => {
                    &&& rfind_char_in(url@, '/') is Some
                    &&& p.base_url@ == url@.take(rfind_char_in(url@, '/')->Some_0) + seq!['/']
                        + image_name_of(url@.skip(rfind_char_in(url@, '/')->Some_0 + 1))
                    &&& p.version@ == image_version_of(
                        url@.skip(rfind_char_in(url@, '/')->Some_0 + 1),
                    )
                },
                Err(e) => e is StructureMismatch && rfind_char_in(url@, '/') is None,
            },
    {
        let slash = match rfind_char(url, '/') {
            Some(s) => s,
            None => {
                return Err(UtilError::StructureMismatch);
            },
        };
        let n = url.unicode_len();
        let rest = url.substring_char(slash + 1, n);
        proof {
            assert(rest@ =~= url@.skip(slash + 1));
        }
        let rest_len = rest.unicode_len();
        let first_colon = find_char(rest, ':', 0);
        let image_name = match first_colon {
            None => rest,
            Some(i) => rest.substring_char(0, i),
        };
        proof {
            assert(image_name@ =~= image_name_of(rest@));
        }
        let version: String = match first_colon {
            None => "latest".to_owned(),
            Some(i) => match find_char(rest, ':', i + 1) {
                None => rest.substring_char(i + 1, rest_len).to_owned(),
                Some(j) => rest.substring_char(i + 1, j).to_owned(),
            },
        };
        proof {
            assert(version@ =~= image_version_of(rest@));
        }
        let mut base_url = url.substring_char(0, slash).to_owned();
        base_url.append("/");
        base_url.append(image_name);
        proof {
            reveal_strlit("/");
            assert("/"@ =~= seq!['/']);
            assert(base_url@ =~= url@.take(slash as int) + seq!['/'] + image_name_of(url@.skip(
                slash + 1,
            )));
        }
        Ok(ParsedImage { base_url, version })
    }
}

/// Best-effort cleanup is advisory: failures of the stop and removal
/// requests are observed here and deliberately never propagated to the
/// caller's flow.
pub struct CleanupAdvisory {
    pub kill_succeeded: bool,
    pub remove_succeeded: bool,
}

impl CleanupAdvisory {
    /// Record what the two cleanup requests reported.
    pub fn new(kill_succeeded: bool, remove_succeeded: bool) -> (r: CleanupAdvisory)
        ensures
            r.kill_succeeded == kill_succeeded,
            r.remove_succeeded == remove_succeeded,
    {
        CleanupAdvisory { kill_succeeded, remove_succeeded }
    }

    /// Whether both steps went through — informational only.
    pub fn fully_clean(&self) -> (r: bool)
        ensures
            r == (self.kill_succeeded && self.remove_succeeded),
    {
        self.kill_succeeded && self.remove_succeeded
    }
}

} // verus!
