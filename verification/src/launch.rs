//! The launch strategy chain: an ordered list of concrete launch attempts,
//! built once from what the locator found, and handed to the host shell one
//! entry at a time until a spawn succeeds.

use vstd::prelude::*;
use crate::paths::FsPath;
use crate::paths::parent_view;

verus! {

/// The package-manager tool a dev-mode launch runs through.
#[derive(Debug, PartialEq, Eq, Clone, Copy)]
pub enum PmTool {
    Bun,
    Npm,
}

/// One concrete way of starting the server.
#[derive(Debug, PartialEq, Eq, Clone, Copy)]
pub enum LaunchMethod {
    /// The located bundled runtime binary runs the located script.
    BundledRuntime,
    /// The system-installed runtime, by its well-known command name, runs
    /// the located script.
    SystemRuntime,
    /// A package manager runs the project's dev command in the current
    /// directory.
    PackageManagerDev(PmTool),
}

/// What the host shell executes: a located path, or a command name left to
/// the execution environment's lookup of installed tools.
#[derive(Debug, PartialEq, Eq)]
pub enum LaunchProgram {
    Located(FsPath),
    Named(String),
}

/// One environment variable handed to the spawned process.
#[derive(Debug, PartialEq, Eq)]
pub struct EnvVar {
    pub key: String,
    pub value: String,
}

/// One step of the launch strategy chain, fully spelled out for the host
/// shell: what to execute, with which arguments, where, and with which
/// environment.
#[derive(Debug, PartialEq, Eq)]
pub struct LaunchAttempt {
    pub method: LaunchMethod,
    pub program: LaunchProgram,
    /// The script handed to the runtime as its sole positional argument.
    pub script_arg: Option<FsPath>,
    /// Arguments following the program name, for package-manager launches.
    pub extra_args: Vec<String>,
    pub working_directory: FsPath,
    pub env: Vec<EnvVar>,
}

/// The environment entries as pairs of key and value views.
pub open spec fn env_view(e: Seq<EnvVar>) -> Seq<(Seq<char>, Seq<char>)> {
    e.map_values(|v: EnvVar| (v.key@, v.value@))
}

/// The argument views.
pub open spec fn args_view(a: Seq<String>) -> Seq<Seq<char>> {
    a.map_values(|s: String| s@)
}

/// The environment of a bundled-runtime launch: port, bind host, and
/// production mode.
pub open spec fn bundled_env_view() -> Seq<(Seq<char>, Seq<char>)> {
    seq![("PORT"@, "3000"@), ("HOSTNAME"@, "0.0.0.0"@), ("NODE_ENV"@, "production"@)]
}

/// The environment of a system-runtime launch: the port alone; the server
/// keeps its own defaults for the rest.
pub open spec fn system_env_view() -> Seq<(Seq<char>, Seq<char>)> {
    seq![("PORT"@, "3000"@)]
}

/// The arguments of a package-manager dev launch.
pub open spec fn dev_args_view() -> Seq<Seq<char>> {
    seq!["run"@, "dev"@]
}

/// The command name of a package-manager tool.
pub open spec fn tool_name_view(tool: PmTool) -> Seq<char> {
    match tool {
        PmTool::Bun => "bun"@,
        PmTool::Npm => "npm"@,
    }
}

/// The attempt that runs the located runtime binary on the located script,
/// from the script's directory, with the full production environment.
pub open spec fn is_bundled_attempt(
    a: LaunchAttempt,
    runtime: Seq<Seq<char>>,
    script: Seq<Seq<char>>,
) -> bool {
    &&& a.method == LaunchMethod::BundledRuntime
    &&& a.program matches LaunchProgram::Located(p) && p@ == runtime
    &&& a.script_arg matches Some(s) && s@ == script
    &&& a.extra_args@.len() == 0
    &&& a.working_directory@ == parent_view(script)
    &&& env_view(a.env@) == bundled_env_view()
}

/// The attempt that runs the well-known runtime command on the located
/// script, from the script's directory, with the port set.
pub open spec fn is_system_attempt(a: LaunchAttempt, script: Seq<Seq<char>>) -> bool {
    &&& a.method == LaunchMethod::SystemRuntime
    &&& a.program matches LaunchProgram::Named(n) && n@ == "node"@
    &&& a.script_arg matches Some(s) && s@ == script
    &&& a.extra_args@.len() == 0
    &&& a.working_directory@ == parent_view(script)
    &&& env_view(a.env@) == system_env_view()
}

/// The attempt that runs a package manager's dev command in the current
/// directory, with the environment left alone.
pub open spec fn is_pm_attempt(a: LaunchAttempt, tool: PmTool, cwd: Seq<Seq<char>>) -> bool {
    &&& a.method == LaunchMethod::PackageManagerDev(tool)
    &&& a.program matches LaunchProgram::Named(n) && n@ == tool_name_view(tool)
    &&& a.script_arg is None
    &&& args_view(a.extra_args@) == dev_args_view()
    &&& a.working_directory@ == cwd
    &&& env_view(a.env@).len() == 0
}

/// The environment handed to a bundled-runtime launch.
fn bundled_env() -> (e: Vec<EnvVar>)
    ensures
        env_view(e@) == bundled_env_view(),
{
    let mut e: Vec<EnvVar> = Vec::new();
    e.push(EnvVar { key: "PORT".to_owned(), value: "3000".to_owned() });
    e.push(EnvVar { key: "HOSTNAME".to_owned(), value: "0.0.0.0".to_owned() });
    e.push(EnvVar { key: "NODE_ENV".to_owned(), value: "production".to_owned() });
    proof {
        assert(env_view(e@) =~= bundled_env_view());
    }
    e
}

/// The environment handed to a system-runtime launch.
fn system_env() -> (e: Vec<EnvVar>)
    ensures
        env_view(e@) == system_env_view(),
{
    let mut e: Vec<EnvVar> = Vec::new();
    e.push(EnvVar { key: "PORT".to_owned(), value: "3000".to_owned() });
    proof {
        assert(env_view(e@) =~= system_env_view());
    }
    e
}

/// The dev-command arguments of a package-manager launch.
fn dev_args() -> (a: Vec<String>)
    ensures
        args_view(a@) == dev_args_view(),
{
    let mut a: Vec<String> = Vec::new();
    a.push("run".to_owned());
    a.push("dev".to_owned());
    proof {
        assert(args_view(a@) =~= dev_args_view());
    }
    a
}

/// One package-manager attempt.
fn pm_attempt(tool: PmTool, cwd: &FsPath) -> (a: LaunchAttempt)
    ensures
        is_pm_attempt(a, tool, cwd@),
{
    let name = match tool {
        PmTool::Bun => "bun",
        PmTool::Npm => "npm",
    };
    let a = LaunchAttempt {
        method: LaunchMethod::PackageManagerDev(tool),
        program: LaunchProgram::Named(name.to_owned()),
        script_arg: None,
        extra_args: dev_args(),
        working_directory: cwd.clone_path(),
        env: Vec::new(),
    };
    proof {
        assert(env_view(a.env@) =~= Seq::<(Seq<char>, Seq<char>)>::empty());
    }
    a
}

/// Builds the launch strategy chain, in strict priority order:
/// the bundled runtime with the located script where both were found; then
/// the system runtime with the located script where the script was found;
/// then, where a project manifest sits in the current directory, the dev
/// command through the first tool and, as a last resort, the second.
pub fn build_plan(
    runtime: &Option<FsPath>,
    script: &Option<FsPath>,
    cwd: &FsPath,
    manifest_present: bool,
) -> (plan: Vec<LaunchAttempt>)
    ensures
        ({
            let nb: int = if runtime is Some && script is Some {
                1
            } else {
                0
            };
            let ns: int = if script is Some {
                1
            } else {
                0
            };
            let nm: int = if manifest_present {
                2
            } else {
                0
            };
            &&& plan@.len() == nb + ns + nm
            &&& runtime matches Some(rt) ==> (script matches Some(sc) ==> is_bundled_attempt(
                plan@[0],
                rt@,
                sc@,
            ))
            &&& script matches Some(sc) ==> is_system_attempt(plan@[nb], sc@)
            &&& manifest_present ==> is_pm_attempt(plan@[nb + ns], PmTool::Bun, cwd@)
            &&& manifest_present ==> is_pm_attempt(plan@[nb + ns + 1], PmTool::Npm, cwd@)
        }),
{
    let mut plan: Vec<LaunchAttempt> = Vec::new();
    if let Some(sc) = script {
        if let Some(rt) = runtime {
            plan.push(
                LaunchAttempt {
                    method: LaunchMethod::BundledRuntime,
                    program: LaunchProgram::Located(rt.clone_path()),
                    script_arg: Some(sc.clone_path()),
                    extra_args: Vec::new(),
                    working_directory: sc.parent(),
                    env: bundled_env(),
                },
            );
        }
        plan.push(
            LaunchAttempt {
                method: LaunchMethod::SystemRuntime,
                program: LaunchProgram::Named("node".to_owned()),
                script_arg: Some(sc.clone_path()),
                extra_args: Vec::new(),
                working_directory: sc.parent(),
                env: system_env(),
            },
        );
    }
    if manifest_present {
        plan.push(pm_attempt(PmTool::Bun, cwd));
        plan.push(pm_attempt(PmTool::Npm, cwd));
    }
    plan
}

} // verus!
