use vstd::prelude::*;
use vstd::string::StringExecFns;
use crate::chars::{chars_of, clone_opt_string, string_of_chars};
use crate::errors::NodeError;
use crate::paths::{join_path_spec, NodePaths, NodePathsView};
use crate::platform::Os;
use crate::proxy::{remap_proxy, remap_proxy_spec};

verus! {

/// A fully resolved plan for one subprocess invocation: everything the
/// runner needs, with no ambient state left implicit. The inherited
/// environment is always cleared and rebuilt from `env` alone.
pub struct CommandPlan {
    /// The program to execute.
    pub program: String,
    /// Whether the inherited process environment is cleared first.
    pub clear_env: bool,
    /// The arguments, in order.
    pub args: Vec<String>,
    /// Environment variables set after the clear, in order.
    pub env: Vec<(String, String)>,
    /// The working directory, when one is requested.
    pub cwd: Option<String>,
    /// Whether all standard streams are discarded (the validity probe).
    pub discard_io: bool,
    /// Whether the subprocess's console window is suppressed.
    pub hide_console: bool,
}

/// The mathematical value of a `CommandPlan`.
#[verifier::ext_equal]
pub struct CommandPlanView {
    pub program: Seq<char>,
    pub clear_env: bool,
    pub args: Seq<Seq<char>>,
    pub env: Seq<(Seq<char>, Seq<char>)>,
    pub cwd: Option<Seq<char>>,
    pub discard_io: bool,
    pub hide_console: bool,
}

impl View for CommandPlan {
    type V = CommandPlanView;

    open spec fn view(&self) -> CommandPlanView {
        CommandPlanView {
            program: self.program@,
            clear_env: self.clear_env,
            args: self.args.deep_view(),
            env: self.env.deep_view(),
            cwd: self.cwd.deep_view(),
            discard_io: self.discard_io,
            hide_console: self.hide_console,
        }
    }
}

/// An invocation of the bare runtime binary with a cleared environment and
/// nothing else.
pub open spec fn node_command_spec(p: NodePathsView) -> CommandPlanView {
    CommandPlanView {
        program: p.node,
        clear_env: true,
        args: Seq::empty(),
        env: Seq::empty(),
        cwd: None,
        discard_io: false,
        hide_console: false,
    }
}

/// The fixed leading arguments of every package-manager invocation: the
/// entry point itself, then the cache directory and both blank placeholder
/// config files pinned to cache-relative paths.
pub open spec fn npm_base_args_spec(p: NodePathsView) -> Seq<Seq<char>> {
    seq![
        p.npm,
        "--cache"@,
        p.cache,
        "--userconfig"@,
        join_path_spec(p.cache, "blank_user_npmrc"@),
        "--globalconfig"@,
        join_path_spec(p.cache, "blank_global_npmrc"@),
    ]
}

/// An invocation of the package manager through the runtime binary, with the
/// cache pinned and ambient configuration masked.
pub open spec fn npm_command_spec(p: NodePathsView) -> CommandPlanView {
    CommandPlanView {
        program: p.node,
        clear_env: true,
        args: npm_base_args_spec(p),
        env: Seq::empty(),
        cwd: None,
        discard_io: false,
        hide_console: false,
    }
}

/// Appends one argument, tracking the argument list's mathematical value.
pub(crate) fn push_arg(args: &mut Vec<String>, s: String)
    ensures
        final(args).deep_view() == old(args).deep_view().push(s@),
{
    let ghost sv = s@;
    let ghost prev = args@;
    let ghost pred = args.deep_view();
    args.push(s);
    proof {
        assert(args@.len() == prev.len() + 1);
        assert(forall|j: int| 0 <= j < prev.len() ==> args@[j] == prev[j]);
        assert(forall|j: int| 0 <= j < prev.len() ==> args.deep_view()[j] == pred[j]);
        assert(args.deep_view()[prev.len() as int] == sv);
        assert(args.deep_view() =~= pred.push(sv));
    }
}

/// Appends one environment binding, tracking the environment's mathematical
/// value.
fn push_env(env: &mut Vec<(String, String)>, k: String, v: String)
    ensures
        final(env).deep_view() == old(env).deep_view().push((k@, v@)),
{
    let ghost kv = (k@, v@);
    let ghost prev = env@;
    let ghost pred = env.deep_view();
    env.push((k, v));
    proof {
        assert(env@.len() == prev.len() + 1);
        assert(forall|j: int| 0 <= j < prev.len() ==> env@[j] == prev[j]);
        assert(forall|j: int| 0 <= j < prev.len() ==> env.deep_view()[j] == pred[j]);
        assert(env.deep_view()[prev.len() as int] == kv);
        assert(env.deep_view() =~= pred.push(kv));
    }
}

impl NodePaths {
    /// Builds the invocation of the bare runtime binary, clearing the
    /// inherited environment.
    pub fn create_node_command(&self) -> (r: CommandPlan)
        ensures
            r@ == node_command_spec(self@),
    {
        let r = CommandPlan {
            program: String::from_str(self.node.as_str()),
            clear_env: true,
            args: Vec::new(),
            env: Vec::new(),
            cwd: None,
            discard_io: false,
            hide_console: false,
        };
        proof {
            assert(r@ =~~= node_command_spec(self@));
        }
        r
    }

    /// Builds the package-manager invocation: the runtime binary running the
    /// package-manager entry point, with `--cache`, `--userconfig` and
    /// `--globalconfig` pinned to the private cache-relative paths.
    pub fn create_npm_command(&self) -> (r: CommandPlan)
        ensures
            r@ == npm_command_spec(self@),
    {
        let mut plan = self.create_node_command();
        push_arg(&mut plan.args, String::from_str(self.npm.as_str()));
        push_arg(&mut plan.args, String::from_str("--cache"));
        push_arg(&mut plan.args, String::from_str(self.cache.as_str()));
        push_arg(&mut plan.args, String::from_str("--userconfig"));
        push_arg(&mut plan.args, self.user_rc());
        push_arg(&mut plan.args, String::from_str("--globalconfig"));
        push_arg(&mut plan.args, self.global_rc());
        proof {
            assert(plan@.args =~= npm_base_args_spec(self@));
            assert(plan@ =~= npm_command_spec(self@));
        }
        plan
    }
}

/// The validity probe: the package-manager invocation asked only for its
/// version, with every standard stream discarded. A zero exit status means
/// the installation is runnable.
pub open spec fn probe_plan_spec(p: NodePathsView, os: Os) -> CommandPlanView {
    CommandPlanView {
        program: p.node,
        clear_env: true,
        args: npm_base_args_spec(p).push("--version"@),
        env: Seq::empty(),
        cwd: None,
        discard_io: true,
        hide_console: os == Os::Windows,
    }
}

/// Builds the validity probe for an installation.
pub fn build_probe_plan(paths: &NodePaths, os: Os) -> (r: CommandPlan)
    ensures
        r@ == probe_plan_spec(paths@, os),
{
    let mut plan = paths.create_npm_command();
    push_arg(&mut plan.args, String::from_str("--version"));
    plan.discard_io = true;
    plan.hide_console = os == Os::Windows;
    proof {
        assert(plan@ =~= probe_plan_spec(paths@, os));
    }
    plan
}

/// The directory containing a path: its prefix before the last slash, empty
/// when the path has no slash.
pub open spec fn parent_of(s: Seq<char>) -> Seq<char>
    decreases s.len(),
{
    if s.len() == 0 {
        s
    } else if s[s.len() - 1] == '/' {
        s.take(s.len() - 1)
    } else {
        parent_of(s.take(s.len() - 1))
    }
}

/// Returns the directory containing a path.
pub fn parent_dir(path: &str) -> (r: String)
    ensures
        r@ == parent_of(path@),
{
    let v = chars_of(path);
    let mut i: usize = v.len();
    proof {
        assert(path@.take(v@.len() as int) =~= path@);
    }
    while i > 0
        invariant
            i <= v@.len(),
            v@ == path@,
            parent_of(path@) == parent_of(path@.take(i as int)),
        decreases i,
    {
        if v[i - 1] == '/' {
            let mut prefix: Vec<char> = Vec::new();
            let mut j: usize = 0;
            while j < i - 1
                invariant
                    j <= i - 1,
                    i <= v@.len(),
                    v@ == path@,
                    prefix@ =~= path@.take(i as int).take(i as int - 1).take(j as int),
                decreases i - 1 - j,
            {
                prefix.push(v[j]);
                j = j + 1;
                proof {
                    assert(prefix@ =~= path@.take(i as int).take(i as int - 1).take(j as int));
                }
            }
            proof {
                let t = path@.take(i as int);
                assert(t[t.len() - 1] == '/');
                assert(parent_of(t) == t.take(t.len() - 1));
                assert(prefix@ =~= t.take(t.len() - 1));
            }
            return string_of_chars(&prefix);
        }
        i = i - 1;
        proof {
            let t = path@.take(i as int + 1);
            assert(t.len() > 0 && t[t.len() - 1] != '/');
            assert(t.take(t.len() - 1) =~= path@.take(i as int));
        }
    }
    proof {
        assert(path@.take(0) =~= Seq::<char>::empty());
        assert(parent_of(Seq::<char>::empty()).len() == 0);
    }
    let empty: Vec<char> = Vec::new();
    string_of_chars(&empty)
}

/// Appends a copy of every element of `src` to `dst`, in order.
fn append_all(dst: &mut Vec<String>, src: &Vec<String>)
    ensures
        final(dst).deep_view() == old(dst).deep_view() + src.deep_view(),
{
    let ghost base = dst.deep_view();
    let mut i: usize = 0;
    proof {
        assert(dst.deep_view() =~= base + src.deep_view().take(0));
    }
    while i < src.len()
        invariant
            i <= src@.len(),
            dst.deep_view() =~= base + src.deep_view().take(i as int),
        decreases src@.len() - i,
    {
        let ghost pred = dst.deep_view();
        push_arg(dst, String::from_str(src[i].as_str()));
        i = i + 1;
        proof {
            assert(dst.deep_view() == pred.push(src@[i - 1]@));
            assert(src.deep_view()[i - 1] == src@[i - 1]@);
            assert(pred.push(src@[i - 1]@) =~= base + src.deep_view().take(i as int));
        }
    }
    proof {
        assert(src.deep_view().take(src@.len() as int) =~= src.deep_view());
        assert(base == old(dst).deep_view());
    }
}

/// The search path handed to a subcommand: the runtime binary's directory
/// and the package-manager entry's directory, prepended to the existing
/// process search path so the managed binaries take precedence while system
/// lookups still work as a fallback.
pub open spec fn search_path_spec(p: NodePathsView, existing: Seq<Seq<char>>) -> Seq<Seq<char>> {
    seq![parent_of(p.node), parent_of(p.npm)] + existing
}

/// Builds the search-path entries for a subcommand invocation.
pub fn search_path_entries(paths: &NodePaths, existing: &Vec<String>) -> (r: Vec<String>)
    ensures
        r.deep_view() == search_path_spec(paths@, existing.deep_view()),
{
    let mut r: Vec<String> = Vec::new();
    push_arg(&mut r, parent_dir(paths.node.as_str()));
    push_arg(&mut r, parent_dir(paths.npm.as_str()));
    proof {
        assert(r.deep_view() =~= seq![parent_of(paths@.node), parent_of(paths@.npm)]);
    }
    append_all(&mut r, existing);
    proof {
        assert(r.deep_view() =~= search_path_spec(paths@, existing.deep_view()));
    }
    r
}

/// Fails with a missing-managed-binary error when either managed file is
/// absent on disk, naming the absent path: distinct from a spawn failure,
/// to aid diagnosis. The runtime binary is checked first.
pub fn check_binaries_present(paths: &NodePaths, node_exists: bool, npm_exists: bool) -> (r: Result<
    (),
    NodeError,
>)
    ensures
        (node_exists && npm_exists) ==> r is Ok,
        !node_exists ==> (r matches Err(e) && e matches NodeError::MissingManagedBinary { path }
            && path@ == paths@.node),
        (node_exists && !npm_exists) ==> (r matches Err(e) && e
            matches NodeError::MissingManagedBinary { path } && path@ == paths@.npm),
{
    if !node_exists {
        Err(NodeError::MissingManagedBinary { path: String::from_str(paths.node.as_str()) })
    } else if !npm_exists {
        Err(NodeError::MissingManagedBinary { path: String::from_str(paths.npm.as_str()) })
    } else {
        Ok(())
    }
}

/// The arguments of one package-manager subcommand invocation: the fixed
/// base arguments, the subcommand, the caller's arguments, then `--prefix`
/// when a working directory is given (the package manager does not reliably
/// infer it on every platform), then `--proxy` with the remapped proxy when
/// one is configured.
pub open spec fn subcommand_args_spec(
    p: NodePathsView,
    subcommand: Seq<char>,
    extra: Seq<Seq<char>>,
    directory: Option<Seq<char>>,
    proxy: Option<Seq<char>>,
) -> Seq<Seq<char>> {
    npm_base_args_spec(p) + seq![subcommand] + extra + (match directory {
        Some(d) => seq!["--prefix"@, d],
        None => Seq::empty(),
    }) + (match proxy {
        Some(x) => seq!["--proxy"@, remap_proxy_spec(x)],
        None => Seq::empty(),
    })
}

/// The environment of one subcommand invocation, set after the clear: the
/// rebuilt search path, and on Windows the two ambient variables subprocess
/// creation needs, when they are present.
pub open spec fn subcommand_env_spec(
    os: Os,
    path_env: Seq<char>,
    systemroot: Option<Seq<char>>,
    comspec: Option<Seq<char>>,
) -> Seq<(Seq<char>, Seq<char>)> {
    seq![("PATH"@, path_env)] + (if os == Os::Windows {
        (match systemroot {
            Some(v) => seq![("SYSTEMROOT"@, v)],
            None => Seq::empty(),
        }) + (match comspec {
            Some(v) => seq![("ComSpec"@, v)],
            None => Seq::empty(),
        })
    } else {
        Seq::empty()
    })
}

/// One fully built package-manager subcommand invocation.
pub open spec fn subcommand_plan_spec(
    p: NodePathsView,
    os: Os,
    subcommand: Seq<char>,
    extra: Seq<Seq<char>>,
    directory: Option<Seq<char>>,
    proxy: Option<Seq<char>>,
    path_env: Seq<char>,
    systemroot: Option<Seq<char>>,
    comspec: Option<Seq<char>>,
) -> CommandPlanView {
    CommandPlanView {
        program: p.node,
        clear_env: true,
        args: subcommand_args_spec(p, subcommand, extra, directory, proxy),
        env: subcommand_env_spec(os, path_env, systemroot, comspec),
        cwd: directory,
        discard_io: false,
        hide_console: os == Os::Windows,
    }
}

/// Builds one attempt at a package-manager subcommand: the npm invocation
/// with the caller's arguments, working directory, remapped proxy, rebuilt
/// search path and platform passthrough applied.
pub fn build_subcommand_plan(
    paths: &NodePaths,
    os: Os,
    subcommand: &str,
    extra_args: &Vec<String>,
    directory: &Option<String>,
    proxy: &Option<String>,
    path_env: &str,
    systemroot: &Option<String>,
    comspec: &Option<String>,
) -> (r: CommandPlan)
    ensures
        r@ == subcommand_plan_spec(
            paths@,
            os,
            subcommand@,
            extra_args.deep_view(),
            directory.deep_view(),
            proxy.deep_view(),
            path_env@,
            systemroot.deep_view(),
            comspec.deep_view(),
        ),
{
    let ghost base = npm_base_args_spec(paths@);
    let mut plan = paths.create_npm_command();
    push_arg(&mut plan.args, String::from_str(subcommand));
    proof {
        assert(plan.args.deep_view() =~= base + seq![subcommand@]);
    }
    let ghost with_sub = base + seq![subcommand@];
    append_all(&mut plan.args, extra_args);
    let ghost with_extra = with_sub + extra_args.deep_view();
    match directory {
        Some(d) => {
            push_arg(&mut plan.args, String::from_str("--prefix"));
            push_arg(&mut plan.args, String::from_str(d.as_str()));
            proof {
                assert(plan.args.deep_view() =~= with_extra + seq!["--prefix"@, d@]);
            }
        },
        None => {},
    }
    let ghost with_dir = with_extra + (match directory.deep_view() {
        Some(d) => seq!["--prefix"@, d],
        None => Seq::empty(),
    });
    proof {
        assert(plan.args.deep_view() =~= with_dir);
    }
    match proxy {
        Some(x) => {
            push_arg(&mut plan.args, String::from_str("--proxy"));
            push_arg(&mut plan.args, remap_proxy(x.as_str()));
            proof {
                assert(plan.args.deep_view() =~= with_dir + seq!["--proxy"@, remap_proxy_spec(x@)]);
            }
        },
        None => {},
    }
    push_env(&mut plan.env, String::from_str("PATH"), String::from_str(path_env));
    if os == Os::Windows {
        match systemroot {
            Some(v) => {
                push_env(&mut plan.env, String::from_str("SYSTEMROOT"), String::from_str(v.as_str()));
            },
            None => {},
        }
        match comspec {
            Some(v) => {
                push_env(&mut plan.env, String::from_str("ComSpec"), String::from_str(v.as_str()));
            },
            None => {},
        }
    }
    plan.cwd = clone_opt_string(directory);
    plan.hide_console = os == Os::Windows;
    proof {
        assert(plan@.args =~= subcommand_args_spec(
            paths@,
            subcommand@,
            extra_args.deep_view(),
            directory.deep_view(),
            proxy.deep_view(),
        ));
        assert(plan@.env =~= subcommand_env_spec(
            os,
            path_env@,
            systemroot.deep_view(),
            comspec.deep_view(),
        ));
        assert(plan@ =~= subcommand_plan_spec(
            paths@,
            os,
            subcommand@,
            extra_args.deep_view(),
            directory.deep_view(),
            proxy.deep_view(),
            path_env@,
            systemroot.deep_view(),
            comspec.deep_view(),
        ));
    }
    plan
}

/// What one executed attempt produced: the exit status and the captured
/// output streams.
#[derive(Debug)]
pub struct ProcessOutput {
    /// Whether the process exited with status zero.
    pub success: bool,
    /// The captured standard output.
    pub stdout: Vec<u8>,
    /// The captured standard error.
    pub stderr: Vec<u8>,
}

/// Resolves the retry policy of a subcommand run. A failure to produce any
/// output (a spawn failure, a failed installation, a missing managed file)
/// is given exactly one second attempt; if that fails too the result is a
/// spawn-failure error naming the subcommand and carrying the second
/// attempt's error. A process that ran but exited non-zero is never
/// retried — that is an application-level failure — and becomes a non-zero
/// exit error carrying the captured output.
pub fn resolve_subcommand_outcome(
    subcommand: &str,
    first: Result<ProcessOutput, NodeError>,
    second: Option<Result<ProcessOutput, NodeError>>,
) -> (r: Result<ProcessOutput, NodeError>)
    requires
        (first is Err) <==> (second is Some),
    ensures
        first matches Ok(o) ==> ((o.success ==> (r matches Ok(p) && p == o)) && (!o.success ==> (r
            matches Err(e) && e matches NodeError::NonZeroExit { subcommand: sc, stdout, stderr }
            && sc@ == subcommand@ && stdout@ == o.stdout@ && stderr@ == o.stderr@))),
        second matches Some(s2) ==> ((s2 matches Ok(o) ==> ((o.success ==> (r matches Ok(p) && p
            == o)) && (!o.success ==> (r matches Err(e) && e matches NodeError::NonZeroExit {
            subcommand: sc,
            stdout,
            stderr,
        } && sc@ == subcommand@ && stdout@ == o.stdout@ && stderr@ == o.stderr@)))) && (s2
            matches Err(e2) ==> (r matches Err(e) && e matches NodeError::SpawnFailed {
            subcommand: sc,
            cause,
        } && sc@ == subcommand@ && *cause == e2))),
{
    let outcome = match first {
        Ok(o) => Ok(o),
        Err(_) => match second {
            Some(s) => s,
            None => Err(NodeError::MetadataNotFound { package: String::new() }),
        },
    };
    match outcome {
        Ok(o) => {
            if o.success {
                Ok(o)
            } else {
                Err(
                    NodeError::NonZeroExit {
                        subcommand: String::from_str(subcommand),
                        stdout: o.stdout,
                        stderr: o.stderr,
                    },
                )
            }
        },
        Err(e2) => Err(
            NodeError::SpawnFailed {
                subcommand: String::from_str(subcommand),
                cause: Box::new(e2),
            },
        ),
    }
}

} // verus!
