//! Privileged command executor: execution contexts, commands, outcomes,
//! and the dry-run / real-execution duality.
//!
//! A [`Context`] carries the caller's environment overlay, extra search
//! path entries, an OS/architecture snapshot and the `really_execute`
//! flag.  A [`Command`] is a program, its arguments, an environment
//! overlay and two caller-interpreted tags.  Spawning a child process is
//! external work, so [`Command::plan`] decides what execution does: a
//! dry run renders the command and yields a synthetic success, a real
//! run tells the caller to spawn; the caller builds the
//! [`CommandOutcome`] from the raw results with
//! [`CommandOutcome::from_raw`].

use vstd::prelude::*;
use vstd::string::StrSliceExecFns;
use vstd::string::StringExecFns;

use crate::chars::find_char_from;
use crate::chars::find_char;
use crate::errors::UtilError;

verus! {

/// The views of a list of string pairs.
pub open spec fn pair_views(v: Seq<(String, String)>) -> Seq<(Seq<char>, Seq<char>)> {
    Seq::new(v.len(), |i: int| (v[i].0@, v[i].1@))
}

/// The views of a list of strings.
pub open spec fn str_views(v: Seq<String>) -> Seq<Seq<char>> {
    Seq::new(v.len(), |i: int| v[i]@)
}

/// The views of a list of borrowed strings.
pub open spec fn str_ref_views(v: Seq<&str>) -> Seq<Seq<char>> {
    Seq::new(v.len(), |i: int| v[i]@)
}

/// Last-write-wins lookup in an ordered overlay of variable bindings.
pub open spec fn env_lookup(m: Seq<(Seq<char>, Seq<char>)>, k: Seq<char>) -> Option<Seq<char>>
    decreases m.len(),
{
    if m.len() == 0 {
        None
    } else if m.last().0 == k {
        Some(m.last().1)
    } else {
        env_lookup(m.drop_last(), k)
    }
}

/// The human-readable rendering of a command: the program followed by
/// each argument, each preceded by a single space.
pub open spec fn rendered_command(program: Seq<char>, args: Seq<Seq<char>>) -> Seq<char>
    decreases args.len(),
{
    if args.len() == 0 {
        program
    } else {
        rendered_command(program, args.drop_last()) + seq![' '] + args.last()
    }
}

/// The search path rebuilt for a child process: the inherited path
/// followed by each appended entry, each preceded by `':'`.
pub open spec fn joined_path(inherited: Seq<char>, appends: Seq<Seq<char>>) -> Seq<char>
    decreases appends.len(),
{
    if appends.len() == 0 {
        inherited
    } else {
        joined_path(inherited, appends.drop_last()) + seq![':'] + appends.last()
    }
}

/// The `KEY=VALUE` lines of an OS metadata file, split on the first
/// `'='` only; lines without `'='` contribute nothing.
pub open spec fn parsed_os_lines(lines: Seq<Seq<char>>) -> Seq<(Seq<char>, Seq<char>)>
    decreases lines.len(),
{
    if lines.len() == 0 {
        Seq::empty()
    } else {
        let rest = parsed_os_lines(lines.drop_last());
        let l = lines.last();
        match find_char_from(l, '=', 0) {
            Some(i) => rest.push((l.take(i), l.skip(i + 1))),
            None => rest,
        }
    }
}

/// A program, its ordered arguments, and an environment overlay for the
/// child process (later entries win on key collision).
pub struct CommandLine {
    pub program: String,
    pub args: Vec<String>,
    pub env: Vec<(String, String)>,
}

impl CommandLine {
    /// An empty command line.
    pub fn new() -> (r: CommandLine)
        ensures
            r.program@.len() == 0,
            r.args@.len() == 0,
            r.env@.len() == 0,
    {
        CommandLine { program: String::new(), args: Vec::new(), env: Vec::new() }
    }

    /// Set the target program and its argument list.
    pub fn set_cmd(&mut self, program: &str, args: &Vec<&str>)
        ensures
            final(self).program@ == program@,
            str_views(final(self).args@) == str_ref_views(args@),
            final(self).env == old(self).env,
    {
        self.program = program.to_owned();
        let mut owned: Vec<String> = Vec::new();
        let mut i: usize = 0;
        while i < args.len()
            invariant
                i <= args@.len(),
                owned@.len() == i as int,
                str_views(owned@) =~= str_ref_views(args@).take(i as int),
            decreases args@.len() - i,
        {
            let ghost pre = owned@;
            owned.push(args[i].to_owned());
            proof {
                assert forall|j: int| 0 <= j < owned@.len() implies str_views(owned@)[j]
                    == str_ref_views(args@).take(i + 1)[j] by {
                    if j < i as int {
                        assert(str_views(pre)[j] == str_ref_views(args@).take(i as int)[j]);
                    }
                }
                assert(str_views(owned@) =~= str_ref_views(args@).take(i + 1));
            }
            i = i + 1;
        }
        proof {
            assert(str_ref_views(args@).take(args@.len() as int) =~= str_ref_views(args@));
        }
        self.args = owned;
    }

    /// Add one environment variable for the child process.
    pub fn env_var(&mut self, name: &str, val: &str)
        ensures
            final(self).program == old(self).program,
            final(self).args == old(self).args,
            pair_views(final(self).env@) == pair_views(old(self).env@).push((name@, val@)),
    {
        self.env.push((name.to_owned(), val.to_owned()));
        proof {
            assert(pair_views(self.env@) =~= pair_views(old(self).env@).push((name@, val@)));
        }
    }

    /// Render the command as one line of text.
    pub fn describe_command(&self) -> (r: String)
        ensures
            r@ == rendered_command(self.program@, str_views(self.args@)),
    {
        let mut s = self.program.clone();
        let mut i: usize = 0;
        while i < self.args.len()
            invariant
                i <= self.args@.len(),
                s@ == rendered_command(self.program@, str_views(self.args@).take(i as int)),
            decreases self.args@.len() - i,
        {
            s.append(" ");
            s.append(self.args[i].as_str());
            proof {
                reveal_strlit(" ");
                let sv = str_views(self.args@);
                assert(" "@ =~= seq![' ']);
                assert(sv.take(i + 1).drop_last() =~= sv.take(i as int));
                assert(sv.take(i + 1).last() == sv[i as int]);
            }
            i = i + 1;
        }
        proof {
            assert(str_views(self.args@).take(self.args@.len() as int) =~= str_views(self.args@));
        }
        s
    }
}

/// Exit status and fully buffered output of one execution, with the
/// derived success flag.  Produced fresh per execution, never mutated.
pub struct CommandOutcome {
    pub status_code: i32,
    pub stdout: String,
    pub stderr: String,
    pub success: bool,
}

impl CommandOutcome {
    /// The success flag means exactly "the exit status was zero".
    pub open spec fn well_formed(self) -> bool {
        self.success <==> self.status_code == 0
    }

    /// The outcome of a real execution, from the raw exit status and the
    /// captured output.
    pub fn from_raw(status_code: i32, stdout: String, stderr: String) -> (r: CommandOutcome)
        ensures
            r.well_formed(),
            r.status_code == status_code,
            r.stdout == stdout,
            r.stderr == stderr,
            r.success == (status_code == 0),
    {
        CommandOutcome { status_code, stdout, stderr, success: status_code == 0 }
    }

    /// The synthetic outcome of a dry run: success, exit status zero,
    /// no output — the same shape a successful real run returns.
    pub fn dry() -> (r: CommandOutcome)
        ensures
            r.well_formed(),
            r.success,
            r.status_code == 0,
            r.stdout@.len() == 0,
            r.stderr@.len() == 0,
    {
        CommandOutcome { status_code: 0, stdout: String::new(), stderr: String::new(), success: true }
    }

    /// The caller-selectable strict mode: surface a non-zero exit as
    /// `ExecutionFailure` instead of a normal return.
    pub fn require_success(self) -> (r: Result<CommandOutcome, UtilError>)
        ensures
            self.success ==> r == Ok::<CommandOutcome, UtilError>(self),
            !self.success ==> r == Err::<CommandOutcome, UtilError>(UtilError::ExecutionFailure),
    {
        if self.success {
            Ok(self)
        } else {
            Err(UtilError::ExecutionFailure)
        }
    }
}

/// What execution does under a given context: render and succeed
/// without side effect, or really spawn the child.
pub enum ExecutionPlan {
    /// No process is spawned; the rendered command is reported and the
    /// caller takes the synthetic [`CommandOutcome::dry`] outcome.
    DryRun(String),
    /// The caller spawns the child with the command's program,
    /// arguments and environment overlay, and captures its output.
    Spawn,
}

/// A command with its two caller-interpreted tags: is failure fatal to
/// the caller's flow (`mandatory`), and does it change state
/// (`imperative`)?  Neither tag is enforced by the executor.
pub struct Command {
    pub mandatory: bool,
    pub imperative: bool,
    /// How long a real execution may run, in milliseconds; `None`
    /// leaves the child unbounded.  A deliberate hardening addition:
    /// without it a hung child blocks its caller indefinitely.
    pub timeout_ms: Option<u64>,
    pub cmd: CommandLine,
}

impl Command {
    /// An empty, optional, interrogative command.
    pub fn new() -> (r: Result<Command, UtilError>)
        ensures
            (r matches Ok(c) && !c.mandatory && !c.imperative && c.timeout_ms is None
                && c.cmd.program@.len() == 0 && c.cmd.args@.len() == 0 && c.cmd.env@.len() == 0),
    {
        Ok(Command { mandatory: false, imperative: false, timeout_ms: None, cmd: CommandLine::new() })
    }

    /// A privilege-elevated command: the argv is prefixed by the
    /// elevation program, and the command is mandatory and imperative.
    pub fn as_root(args: &Vec<&str>) -> (r: Result<Command, UtilError>)
        ensures
            (r matches Ok(c) && c.mandatory && c.imperative && c.cmd.program@ == "sudo"@
                && str_views(c.cmd.args@) == str_ref_views(args@) && c.cmd.env@.len() == 0),
    {
        Ok(Command::rooted(args))
    }

    /// The privilege-elevated command itself.
    fn rooted(args: &Vec<&str>) -> (c: Command)
        ensures
            c.mandatory,
            c.imperative,
            c.cmd.program@ == "sudo"@,
            str_views(c.cmd.args@) == str_ref_views(args@),
            c.cmd.env@.len() == 0,
            c.timeout_ms is None,
    {
        let mut cmd = CommandLine::new();
        cmd.set_cmd("sudo", args);
        Command { mandatory: true, imperative: true, timeout_ms: None, cmd }
    }

    /// An unprivileged mandatory, imperative command, unwrapped.
    fn built(cmd_str: &str, args: &Vec<&str>) -> (c: Command)
        ensures
            c.mandatory,
            c.imperative,
            c.cmd.program@ == cmd_str@,
            str_views(c.cmd.args@) == str_ref_views(args@),
            c.cmd.env@.len() == 0,
            c.timeout_ms is None,
    {
        let mut cmd = CommandLine::new();
        cmd.set_cmd(cmd_str, args);
        Command { mandatory: true, imperative: true, timeout_ms: None, cmd }
    }

    /// An unprivileged mandatory, imperative command.
    pub fn build(cmd_str: &str, args: &Vec<&str>) -> (r: Result<Command, UtilError>)
        ensures
            (r matches Ok(c) && c.mandatory && c.imperative && c.cmd.program@ == cmd_str@
                && str_views(c.cmd.args@) == str_ref_views(args@) && c.cmd.env@.len() == 0
                && c.timeout_ms is None),
    {
        Ok(Command::built(cmd_str, args))
    }

    /// Decide what execution does under `ctx`.  When `really_execute`
    /// is false no process is spawned: the command is only rendered,
    /// and the caller sees the synthetic successful outcome — the
    /// identical success shape of a real run.
    pub fn plan(&self, ctx: &Context) -> (p: ExecutionPlan)
        ensures
            ctx.really_execute ==> p is Spawn,
            !ctx.really_execute ==> (p matches ExecutionPlan::DryRun(d)
                && d@ == rendered_command(self.cmd.program@, str_views(self.cmd.args@))),
    {
        if ctx.really_execute {
            ExecutionPlan::Spawn
        } else {
            ExecutionPlan::DryRun(self.cmd.describe_command())
        }
    }

    /// Mutable access to the underlying command line.
    pub fn builder(&mut self) -> (r: &mut CommandLine)
        ensures
            *r == old(self).cmd,
            final(self).cmd == *final(r),
            final(self).mandatory == old(self).mandatory,
            final(self).imperative == old(self).imperative,
            final(self).timeout_ms == old(self).timeout_ms,
    {
        &mut self.cmd
    }

    /// Tag the command as fatal-on-failure.
    pub fn mandatory(&mut self) -> (r: &mut Command)
        ensures
            r.mandatory && r.imperative == old(self).imperative && r.cmd == old(self).cmd && r.timeout_ms == old(self).timeout_ms,
            *final(self) == *final(r),
    {
        self.mandatory = true;
        self
    }

    /// Tag the command as state-changing.
    pub fn imperative(&mut self) -> (r: &mut Command)
        ensures
            r.imperative && r.mandatory == old(self).mandatory && r.cmd == old(self).cmd && r.timeout_ms == old(self).timeout_ms,
            *final(self) == *final(r),
    {
        self.imperative = true;
        self
    }

    /// Tag the command as a pure query.
    pub fn interrogative(&mut self) -> (r: &mut Command)
        ensures
            !r.imperative && r.mandatory == old(self).mandatory && r.cmd == old(self).cmd && r.timeout_ms == old(self).timeout_ms,
            *final(self) == *final(r),
    {
        self.imperative = false;
        self
    }

    /// Bound a real execution to the given number of milliseconds.
    pub fn with_timeout(&mut self, ms: u64) -> (r: &mut Command)
        ensures
            (r.timeout_ms matches Some(m) && m == ms) && r.mandatory == old(self).mandatory
                && r.imperative == old(self).imperative && r.cmd == old(self).cmd,
            *final(self) == *final(r),
    {
        self.timeout_ms = Some(ms);
        self
    }

    /// Tag the command as non-fatal on failure.
    pub fn optional(&mut self) -> (r: &mut Command)
        ensures
            !r.mandatory && r.imperative == old(self).imperative && r.cmd == old(self).cmd && r.timeout_ms == old(self).timeout_ms,
            *final(self) == *final(r),
    {
        self.mandatory = false;
        self
    }
}

/// The execution context one provisioning run owns: the variable
/// overlay, the extra search path entries, and the OS/architecture
/// snapshot captured once at creation.
pub struct Context {
    /// Dry run or really execute?
    pub really_execute: bool,
    pub vars: Vec<(String, String)>,
    pub append_paths: Vec<String>,
    pub os_params: Vec<(String, String)>,
    pub arch: String,
}

impl Context {
    /// A context from an architecture snapshot and parsed OS
    /// parameters, with an empty overlay.
    pub fn from_parts(really_execute: bool, arch: String, os_params: Vec<(String, String)>) -> (r:
        Context)
        ensures
            r.really_execute == really_execute,
            r.arch == arch,
            r.os_params == os_params,
            r.vars@.len() == 0,
            r.append_paths@.len() == 0,
    {
        Context { really_execute, vars: Vec::new(), append_paths: Vec::new(), os_params, arch }
    }

    /// Append one search path entry.
    pub fn add_to_path(&mut self, path_str: &str)
        ensures
            str_views(final(self).append_paths@) == str_views(old(self).append_paths@).push(
                path_str@,
            ),
            final(self).vars == old(self).vars,
            final(self).os_params == old(self).os_params,
            final(self).arch == old(self).arch,
            final(self).really_execute == old(self).really_execute,
    {
        self.append_paths.push(path_str.to_owned());
        proof {
            assert(str_views(self.append_paths@) =~= str_views(old(self).append_paths@).push(
                path_str@,
            ));
        }
    }

    /// Set one variable in the overlay; the last write for a name wins.
    pub fn add_to_env(&mut self, name: &str, val: &str)
        ensures
            pair_views(final(self).vars@) == pair_views(old(self).vars@).push((name@, val@)),
            env_lookup(pair_views(final(self).vars@), name@) == Some(val@),
            final(self).append_paths == old(self).append_paths,
            final(self).os_params == old(self).os_params,
            final(self).arch == old(self).arch,
            final(self).really_execute == old(self).really_execute,
    {
        self.vars.push((name.to_owned(), val.to_owned()));
        proof {
            assert(pair_views(self.vars@) =~= pair_views(old(self).vars@).push((name@, val@)));
        }
    }

    /// Overlay this context onto a command line: `PATH` is rebuilt as
    /// the inherited path followed by each appended entry, then the
    /// explicit variables are laid on top, so they win on collision.
    pub fn modify_context(&self, builder: &mut CommandLine, inherited_path: &str)
        ensures
            final(builder).program == old(builder).program,
            final(builder).args == old(builder).args,
            pair_views(final(builder).env@) == pair_views(old(builder).env@).push(
                ("PATH"@, joined_path(inherited_path@, str_views(self.append_paths@))),
            ) + pair_views(self.vars@),
    {
        let mut joined = inherited_path.to_owned();
        let mut i: usize = 0;
        while i < self.append_paths.len()
            invariant
                i <= self.append_paths@.len(),
                joined@ == joined_path(inherited_path@, str_views(self.append_paths@).take(i as int)),
            decreases self.append_paths@.len() - i,
        {
            joined.append(":");
            joined.append(self.append_paths[i].as_str());
            proof {
                reveal_strlit(":");
                let pv = str_views(self.append_paths@);
                assert(":"@ =~= seq![':']);
                assert(pv.take(i + 1).drop_last() =~= pv.take(i as int));
                assert(pv.take(i + 1).last() == pv[i as int]);
            }
            i = i + 1;
        }
        proof {
            assert(str_views(self.append_paths@).take(self.append_paths@.len() as int)
                =~= str_views(self.append_paths@));
        }
        builder.env_var("PATH", joined.as_str());
        let ghost base = pair_views(old(builder).env@).push(
            ("PATH"@, joined_path(inherited_path@, str_views(self.append_paths@))),
        );
        let mut k: usize = 0;
        while k < self.vars.len()
            invariant
                k <= self.vars@.len(),
                pair_views(builder.env@) == base + pair_views(self.vars@).take(k as int),
                builder.program == old(builder).program,
                builder.args == old(builder).args,
            decreases self.vars@.len() - k,
        {
            let name = self.vars[k].0.as_str();
            let val = self.vars[k].1.as_str();
            builder.env_var(name, val);
            proof {
                let vv = pair_views(self.vars@);
                assert((base + vv.take(k as int)).push(vv[k as int]) =~= base + vv.take(k + 1));
            }
            k = k + 1;
        }
        proof {
            assert(base + pair_views(self.vars@).take(self.vars@.len() as int) =~= base
                + pair_views(self.vars@));
        }
    }

    /// Parse the lines of an OS metadata file (`KEY=VALUE`, split on
    /// the first `'='` only) into a flat mapping.
    pub fn parse_os_params(lines: &Vec<String>) -> (r: Vec<(String, String)>)
        ensures
            pair_views(r@) == parsed_os_lines(str_views(lines@)),
    {
        let mut result: Vec<(String, String)> = Vec::new();
        let mut i: usize = 0;
        while i < lines.len()
            invariant
                i <= lines@.len(),
                pair_views(result@) == parsed_os_lines(str_views(lines@).take(i as int)),
            decreases lines@.len() - i,
        {
            let line = lines[i].as_str();
            proof {
                assert(str_views(lines@).take(i + 1).drop_last() =~= str_views(lines@).take(
                    i as int,
                ));
                assert(str_views(lines@).take(i + 1).last() == str_views(lines@)[i as int]);
                assert(str_views(lines@)[i as int] == line@);
            }
            match find_char(line, '=', 0) {
                Some(v) => {
                    let n = line.unicode_len();
                    let variable = line.substring_char(0, v).to_owned();
                    let val = line.substring_char(v + 1, n).to_owned();
                    let ghost pre = result@;
                    result.push((variable, val));
                    proof {
                        assert(pair_views(pre).len() == pre.len());
                        assert(pair_views(result@).len() == result@.len());
                        assert(variable@ =~= line@.take(v as int));
                        assert(val@ =~= line@.skip(v as int + 1));
                        assert(find_char_from(line@, '=', 0) == Some(v as int));
                        assert(pair_views(result@) =~= parsed_os_lines(
                            str_views(lines@).take(i as int),
                        ).push((line@.take(v as int), line@.skip(v as int + 1))));
                        assert(parsed_os_lines(str_views(lines@).take(i + 1))
                            == parsed_os_lines(str_views(lines@).take(i as int)).push(
                            (line@.take(v as int), line@.skip(v as int + 1)),
                        ));
                    }
                },
                None => {
                    proof {
                        assert(find_char_from(line@, '=', 0) is None);
                        assert(parsed_os_lines(str_views(lines@).take(i + 1)) == parsed_os_lines(
                            str_views(lines@).take(i as int),
                        ));
                    }
                },
            }
            i = i + 1;
        }
        proof {
            assert(str_views(lines@).take(lines@.len() as int) =~= str_views(lines@));
        }
        result
    }

    /// The environment this context gives a fresh command: the rebuilt
    /// `PATH`, then the explicit variables.
    pub open spec fn applied_env(self, inherited: Seq<char>) -> Seq<(Seq<char>, Seq<char>)> {
        Seq::empty().push(("PATH"@, joined_path(inherited, str_views(self.append_paths@))))
            + pair_views(self.vars@)
    }

    /// The privileged package-index refresh, with this context applied.
    pub fn apt_update_command(&self, inherited_path: &str) -> (c: Command)
        ensures
            c.mandatory && c.imperative && c.cmd.program@ == "sudo"@,
            str_views(c.cmd.args@) == seq!["apt"@, "update"@],
            pair_views(c.cmd.env@) == self.applied_env(inherited_path@),
    {
        let args: Vec<&str> = vec!["apt", "update"];
        let mut c = Command::rooted(&args);
        self.modify_context(&mut c.cmd, inherited_path);
        proof {
            assert(str_ref_views(args@) =~= seq!["apt"@, "update"@]);
            assert(pair_views(c.cmd.env@) =~= self.applied_env(inherited_path@));
        }
        c
    }

    /// The privileged full upgrade, with this context applied.
    pub fn apt_upgrade_command(&self, inherited_path: &str) -> (c: Command)
        ensures
            c.mandatory && c.imperative && c.cmd.program@ == "sudo"@,
            str_views(c.cmd.args@) == seq!["apt"@, "dist-upgrade"@],
            pair_views(c.cmd.env@) == self.applied_env(inherited_path@),
    {
        let args: Vec<&str> = vec!["apt", "dist-upgrade"];
        let mut c = Command::rooted(&args);
        self.modify_context(&mut c.cmd, inherited_path);
        proof {
            assert(str_ref_views(args@) =~= seq!["apt"@, "dist-upgrade"@]);
            assert(pair_views(c.cmd.env@) =~= self.applied_env(inherited_path@));
        }
        c
    }

    /// The privileged quiet removal of the given packages, with the
    /// non-interactive frontend and this context applied.
    pub fn apt_remove_command<'a>(&self, pkgs: &Vec<&'a str>, inherited_path: &str) -> (c: Command)
        ensures
            c.mandatory && c.imperative && c.cmd.program@ == "sudo"@,
            str_views(c.cmd.args@) == seq!["apt"@, "remove"@, "-q"@, "-y"@] + str_ref_views(pkgs@),
            pair_views(c.cmd.env@) == Seq::empty().push(
                ("DEBIAN_FRONTEND"@, "noninteractive"@),
            ) + self.applied_env(inherited_path@),
    {
        self.apt_packages_command("remove", pkgs, inherited_path)
    }

    /// The privileged quiet installation of the given packages, with
    /// the non-interactive frontend and this context applied.
    pub fn apt_install_command<'a>(&self, pkgs: &Vec<&'a str>, inherited_path: &str) -> (c:
        Command)
        ensures
            c.mandatory && c.imperative && c.cmd.program@ == "sudo"@,
            str_views(c.cmd.args@) == seq!["apt"@, "install"@, "-q"@, "-y"@] + str_ref_views(
                pkgs@,
            ),
            pair_views(c.cmd.env@) == Seq::empty().push(
                ("DEBIAN_FRONTEND"@, "noninteractive"@),
            ) + self.applied_env(inherited_path@),
    {
        self.apt_packages_command("install", pkgs, inherited_path)
    }

    /// A privileged quiet package-manager action over a package list.
    fn apt_packages_command<'a>(&self, action: &'a str, pkgs: &Vec<&'a str>, inherited_path: &str)
        -> (c: Command)
        ensures
            c.mandatory && c.imperative && c.cmd.program@ == "sudo"@,
            str_views(c.cmd.args@) == seq!["apt"@, action@, "-q"@, "-y"@] + str_ref_views(pkgs@),
            pair_views(c.cmd.env@) == Seq::empty().push(
                ("DEBIAN_FRONTEND"@, "noninteractive"@),
            ) + self.applied_env(inherited_path@),
    {
        let mut args: Vec<&str> = vec!["apt", action, "-q", "-y"];
        proof {
            assert(str_ref_views(args@) =~= seq!["apt"@, action@, "-q"@, "-y"@]);
        }
        let mut i: usize = 0;
        while i < pkgs.len()
            invariant
                i <= pkgs@.len(),
                args@.len() == 4 + i as int,
                str_ref_views(args@) =~= seq!["apt"@, action@, "-q"@, "-y"@] + str_ref_views(
                    pkgs@,
                ).take(i as int),
            decreases pkgs@.len() - i,
        {
            let ghost pre = args@;
            args.push(pkgs[i]);
            proof {
                assert forall|j: int| 0 <= j < args@.len() implies str_ref_views(args@)[j] == (
                seq!["apt"@, action@, "-q"@, "-y"@] + str_ref_views(pkgs@).take(i + 1))[j] by {
                    if j < 4 + i as int {
                        assert(str_ref_views(pre)[j] == (seq!["apt"@, action@, "-q"@, "-y"@]
                            + str_ref_views(pkgs@).take(i as int))[j]);
                    }
                }
                assert(str_ref_views(args@) =~= seq!["apt"@, action@, "-q"@, "-y"@]
                    + str_ref_views(pkgs@).take(i + 1));
            }
            i = i + 1;
        }
        proof {
            assert(str_ref_views(pkgs@).take(pkgs@.len() as int) =~= str_ref_views(pkgs@));
        }
        let mut c = Command::rooted(&args);
        c.cmd.env_var("DEBIAN_FRONTEND", "noninteractive");
        self.modify_context(&mut c.cmd, inherited_path);
        proof {
            assert(pair_views(c.cmd.env@) =~= Seq::empty().push(
                ("DEBIAN_FRONTEND"@, "noninteractive"@),
            ) + self.applied_env(inherited_path@));
        }
        c
    }

    /// Any privileged command, with this context applied.
    pub fn as_root_command(&self, cmd_args: &Vec<&str>, inherited_path: &str) -> (c: Command)
        ensures
            c.mandatory && c.imperative && c.cmd.program@ == "sudo"@,
            str_views(c.cmd.args@) == str_ref_views(cmd_args@),
            pair_views(c.cmd.env@) == self.applied_env(inherited_path@),
    {
        let mut c = Command::rooted(cmd_args);
        self.modify_context(&mut c.cmd, inherited_path);
        proof {
            assert(pair_views(c.cmd.env@) =~= self.applied_env(inherited_path@));
        }
        c
    }

    /// One shell line run through an interactive shell, so the user's
    /// profile is sourced, with this context applied.
    pub fn shell_command(&self, cmd: &str, inherited_path: &str) -> (c: Command)
        ensures
            c.mandatory && c.imperative && c.cmd.program@ == "bash"@,
            str_views(c.cmd.args@) == seq!["-c"@, cmd@],
            pair_views(c.cmd.env@) == self.applied_env(inherited_path@),
    {
        let args: Vec<&str> = vec!["-c", cmd];
        let mut c = Command::built("bash", &args);
        self.modify_context(&mut c.cmd, inherited_path);
        proof {
            assert(str_ref_views(args@) =~= seq!["-c"@, cmd@]);
            assert(pair_views(c.cmd.env@) =~= self.applied_env(inherited_path@));
        }
        c
    }

    /// The tunnelled copy between a local path and a machine of a
    /// project and zone.
    pub fn gcloud_copy_command(&self, project: &str, zone: &str, src: &str, tgt: &str) -> (c:
        Command)
        ensures
            c.mandatory && c.imperative && c.cmd.program@ == "gcloud"@,
            str_views(c.cmd.args@) == seq![
                "compute"@,
                "scp"@,
                "--project"@,
                project@,
                "--zone"@,
                zone@,
                "--tunnel-through-iap"@,
                src@,
                tgt@,
            ],
            c.cmd.env@.len() == 0,
    {
        let args: Vec<&str> = vec![
            "compute",
            "scp",
            "--project",
            project,
            "--zone",
            zone,
            "--tunnel-through-iap",
            src,
            tgt,
        ];
        let c = Command::built("gcloud", &args);
        proof {
            assert(str_ref_views(args@) =~= seq![
                "compute"@,
                "scp"@,
                "--project"@,
                project@,
                "--zone"@,
                zone@,
                "--tunnel-through-iap"@,
                src@,
                tgt@,
            ]);
        }
        c
    }

    /// The de-armor step of a keyring installation: feed the downloaded
    /// key text to `gpg` and write the binary keyring to `name_path`.
    pub fn gpg_dearmor_command(name_path: &str) -> (c: Command)
        ensures
            c.mandatory && c.imperative && c.cmd.program@ == "gpg"@,
            str_views(c.cmd.args@) == seq!["--dearmor"@, "-o"@, name_path@],
            c.cmd.env@.len() == 0,
    {
        let args: Vec<&str> = vec!["--dearmor", "-o", name_path];
        let c = Command::built("gpg", &args);
        proof {
            assert(str_ref_views(args@) =~= seq!["--dearmor"@, "-o"@, name_path@]);
        }
        c
    }
}

} // verus!
