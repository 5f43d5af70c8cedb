use server_bootstrap::launch::LaunchAttempt;
use server_bootstrap::launch::LaunchMethod;
use server_bootstrap::launch::LaunchProgram;
use server_bootstrap::launch::PmTool;
use server_bootstrap::launch::build_plan;
use server_bootstrap::paths::FsPath;

fn path(segs: &[&str]) -> FsPath {
    FsPath { segments: segs.iter().map(|s| s.to_string()).collect() }
}

fn env_pairs(a: &LaunchAttempt) -> Vec<(String, String)> {
    a.env.iter().map(|v| (v.key.clone(), v.value.clone())).collect()
}

#[test]
fn full_chain_in_priority_order() {
    let runtime = Some(path(&["res", "bundled", "node", "bin", "node"]));
    let script = Some(path(&["res", "bundled", "server", "server.js"]));
    let cwd = path(&["cwd"]);
    let plan = build_plan(&runtime, &script, &cwd, true);
    assert_eq!(plan.len(), 4);
    assert_eq!(plan[0].method, LaunchMethod::BundledRuntime);
    assert_eq!(plan[1].method, LaunchMethod::SystemRuntime);
    assert_eq!(plan[2].method, LaunchMethod::PackageManagerDev(PmTool::Bun));
    assert_eq!(plan[3].method, LaunchMethod::PackageManagerDev(PmTool::Npm));
}

#[test]
fn bundled_attempt_is_fully_specified() {
    let runtime = Some(path(&["res", "bundled", "node", "bin", "node"]));
    let script = Some(path(&["res", "bundled", "server", "server.js"]));
    let plan = build_plan(&runtime, &script, &path(&["cwd"]), false);
    let a = &plan[0];
    assert_eq!(a.program, LaunchProgram::Located(path(&["res", "bundled", "node", "bin", "node"])));
    assert_eq!(a.script_arg, Some(path(&["res", "bundled", "server", "server.js"])));
    assert_eq!(a.extra_args.len(), 0);
    assert_eq!(a.working_directory, path(&["res", "bundled", "server"]));
    assert_eq!(
        env_pairs(a),
        vec![
            ("PORT".to_string(), "3000".to_string()),
            ("HOSTNAME".to_string(), "0.0.0.0".to_string()),
            ("NODE_ENV".to_string(), "production".to_string()),
        ]
    );
}

#[test]
fn system_attempt_uses_command_name_and_port_only() {
    let script = Some(path(&["res", "bundled", "server", "server.js"]));
    let plan = build_plan(&None, &script, &path(&["cwd"]), false);
    assert_eq!(plan.len(), 1);
    let a = &plan[0];
    assert_eq!(a.method, LaunchMethod::SystemRuntime);
    assert_eq!(a.program, LaunchProgram::Named("node".to_string()));
    assert_eq!(a.script_arg, Some(path(&["res", "bundled", "server", "server.js"])));
    assert_eq!(a.working_directory, path(&["res", "bundled", "server"]));
    assert_eq!(env_pairs(a), vec![("PORT".to_string(), "3000".to_string())]);
}

#[test]
fn dev_attempts_run_in_current_directory() {
    let plan = build_plan(&None, &None, &path(&["cwd"]), true);
    assert_eq!(plan.len(), 2);
    for (a, name) in plan.iter().zip(["bun", "npm"]) {
        assert_eq!(a.program, LaunchProgram::Named(name.to_string()));
        assert_eq!(a.script_arg, None);
        assert_eq!(a.extra_args, vec!["run".to_string(), "dev".to_string()]);
        assert_eq!(a.working_directory, path(&["cwd"]));
        assert_eq!(a.env.len(), 0);
    }
}

#[test]
fn missing_script_disables_runtime_steps() {
    let runtime = Some(path(&["res", "bundled", "node", "bin", "node"]));
    let plan = build_plan(&runtime, &None, &path(&["cwd"]), true);
    assert_eq!(plan.len(), 2);
    assert_eq!(plan[0].method, LaunchMethod::PackageManagerDev(PmTool::Bun));
}

#[test]
fn no_findings_and_no_manifest_yield_empty_plan() {
    let plan = build_plan(&None, &None, &path(&["cwd"]), false);
    assert_eq!(plan.len(), 0);
}
