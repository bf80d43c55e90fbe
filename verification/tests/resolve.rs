use bastion::BeamNGInstall;
use bastion::CommonArgs;
use bastion::ExecError;
use bastion::ExecMethod;
use bastion::LinuxArgs;
use bastion::check_executable;
use bastion::join_path;
use bastion::resolve;
use bastion::spawn_outcome;

/// Create a directory with exactly the given name under `parent`.
fn make_dir_named(parent: &std::path::Path, name: &str) -> tempfile::TempDir {
    tempfile::Builder::new()
        .prefix(name)
        .rand_bytes(0)
        .tempdir_in(parent)
        .unwrap()
}

/// Create a regular file with exactly the given name under `parent`.
fn make_file_named(parent: &std::path::Path, name: &str) -> tempfile::NamedTempFile {
    tempfile::Builder::new()
        .prefix(name)
        .rand_bytes(0)
        .tempfile_in(parent)
        .unwrap()
}

#[test]
fn join_path_inserts_separator() {
    assert_eq!(join_path(&"/opt/game".to_string(), "Bin64/BeamNG.x64.exe"), "/opt/game/Bin64/BeamNG.x64.exe");
}

#[test]
fn steam_default_plan() {
    let plan = resolve(ExecMethod::Steam { steam_path: None }).unwrap();
    assert_eq!(plan.program, "steam");
    assert_eq!(plan.args, vec!["steam://rungameid/284160".to_string()]);
}

#[test]
fn steam_override_plan() {
    let plan = resolve(ExecMethod::Steam { steam_path: Some("/usr/games/steam".to_string()) })
        .unwrap();
    assert_eq!(plan.program, "/usr/games/steam");
    assert_eq!(plan.args, vec!["steam://rungameid/284160".to_string()]);
}

#[test]
fn windows_missing_executable() {
    let dir = tempfile::tempdir().unwrap();
    let root = dir.path().to_str().unwrap().to_string();
    let install = BeamNGInstall::init(root.clone());
    let args = CommonArgs { console: false, gfx_api: None };
    let r = resolve(ExecMethod::Windows { install, args });
    match r {
        Err(ExecError::FileNotFound(p)) => {
            assert_eq!(p, format!("{root}/Bin64/BeamNG.x64.exe"));
        }
        other => panic!("expected a missing-executable failure, got {:?}", kind_of(&other)),
    }
}

#[test]
fn linux_directory_at_executable() {
    let dir = tempfile::tempdir().unwrap();
    let bin = make_dir_named(dir.path(), "BinLinux");
    let _exe = make_dir_named(bin.path(), "BeamNG.x64");
    let root = dir.path().to_str().unwrap().to_string();
    let install = BeamNGInstall::init(root.clone());
    let args = LinuxArgs { gfx_api: None };
    let r = resolve(ExecMethod::Linux { install, args });
    match r {
        Err(ExecError::DirectoryAtExecutable(p)) => {
            assert_eq!(p, format!("{root}/BinLinux/BeamNG.x64"));
        }
        other => panic!("expected a wrong-kind failure, got {:?}", kind_of(&other)),
    }
}

#[test]
fn linux_direct_plan() {
    let dir = tempfile::tempdir().unwrap();
    let bin = make_dir_named(dir.path(), "BinLinux");
    let _exe = make_file_named(bin.path(), "BeamNG.x64");
    let root = dir.path().to_str().unwrap().to_string();
    let install = BeamNGInstall::init(root.clone());
    let args = LinuxArgs { gfx_api: Some("vulkan".to_string()) };
    let plan = resolve(ExecMethod::Linux { install, args }).unwrap();
    assert_eq!(plan.program, format!("{root}/BinLinux/BeamNG.x64"));
    assert_eq!(plan.args, vec!["-gfx".to_string(), "vulkan".to_string()]);
}

#[test]
fn windows_direct_plan_goes_through_shell() {
    let dir = tempfile::tempdir().unwrap();
    let bin = make_dir_named(dir.path(), "Bin64");
    let _exe = make_file_named(bin.path(), "BeamNG.x64.exe");
    let root = dir.path().to_str().unwrap().to_string();
    let install = BeamNGInstall::init(root.clone());
    let args = CommonArgs { console: true, gfx_api: Some("dx11".to_string()) };
    let plan = resolve(ExecMethod::Windows { install, args }).unwrap();
    assert_eq!(plan.program, "cmd.exe");
    assert_eq!(
        plan.args,
        vec![
            "/C".to_string(),
            format!("{root}/Bin64/BeamNG.x64.exe"),
            "-console".to_string(),
            "-gfx".to_string(),
            "dx11".to_string(),
        ]
    );
}

#[test]
fn windows_indirect_plan_has_no_option_tokens() {
    let dir = tempfile::tempdir().unwrap();
    let _exe = make_file_named(dir.path(), "BeamNG.drive.exe");
    let root = dir.path().to_str().unwrap().to_string();
    let install = BeamNGInstall::init(root.clone());
    let plan = resolve(ExecMethod::WindowsIndirect { install }).unwrap();
    assert_eq!(plan.program, "cmd.exe");
    assert_eq!(plan.args, vec!["/C".to_string(), format!("{root}/BeamNG.drive.exe")]);
}

#[test]
fn mac_gptk_plan_delegates_through_wine() {
    let dir = tempfile::tempdir().unwrap();
    let bin = make_dir_named(dir.path(), "Bin64");
    let _exe = make_file_named(bin.path(), "BeamNG.x64.exe");
    let root = dir.path().to_str().unwrap().to_string();
    let install = BeamNGInstall::init(root.clone());
    let args = CommonArgs { console: false, gfx_api: Some("mtl".to_string()) };
    let gptk = "/Applications/PortingKit.app".to_string();
    let plan = resolve(ExecMethod::MacGPTK { install, args, gptk_path: gptk }).unwrap();
    assert_eq!(plan.program, "/Applications/PortingKit.app/Contents/Resources/wine/bin/wine");
    assert_eq!(
        plan.args,
        vec![
            format!("{root}/Bin64/BeamNG.x64.exe"),
            "-gfx".to_string(),
            "mtl".to_string(),
        ]
    );
}

#[test]
fn mac_gptk_indirect_plan() {
    let dir = tempfile::tempdir().unwrap();
    let _exe = make_file_named(dir.path(), "BeamNG.drive.exe");
    let root = dir.path().to_str().unwrap().to_string();
    let install = BeamNGInstall::init(root.clone());
    let gptk = "/Applications/PortingKit.app".to_string();
    let plan = resolve(ExecMethod::MacGPTKIndirect { install, gptk_path: gptk }).unwrap();
    assert_eq!(plan.program, "/Applications/PortingKit.app/Contents/Resources/wine/bin/wine");
    assert_eq!(plan.args, vec![format!("{root}/BeamNG.drive.exe")]);
}

#[test]
fn resolution_is_repeatable_on_an_unchanged_filesystem() {
    let dir = tempfile::tempdir().unwrap();
    let root = dir.path().to_str().unwrap().to_string();
    let method = || ExecMethod::Windows {
        install: BeamNGInstall::init(root.clone()),
        args: CommonArgs { console: false, gfx_api: None },
    };
    let first = resolve(method());
    let second = resolve(method());
    match (first, second) {
        (Err(ExecError::FileNotFound(p1)), Err(ExecError::FileNotFound(p2))) => {
            assert_eq!(p1, p2);
        }
        (a, b) => panic!(
            "expected the same missing-executable failure twice, got {:?} and {:?}",
            kind_of(&a),
            kind_of(&b)
        ),
    }
}

#[test]
fn check_executable_rejects_missing_path_first() {
    let r = check_executable("/a/b".to_string(), false, false);
    match r {
        Err(ExecError::FileNotFound(p)) => assert_eq!(p, "/a/b"),
        other => panic!("expected a missing-executable failure, got {:?}", kind_of(&other)),
    }
    let r = check_executable("/a/b".to_string(), false, true);
    assert!(matches!(r, Err(ExecError::FileNotFound(_))));
}

#[test]
fn check_executable_rejects_directories() {
    let r = check_executable("/a/b".to_string(), true, true);
    match r {
        Err(ExecError::DirectoryAtExecutable(p)) => assert_eq!(p, "/a/b"),
        other => panic!("expected a wrong-kind failure, got {:?}", kind_of(&other)),
    }
}

#[test]
fn check_executable_passes_files_through() {
    let r = check_executable("/a/b".to_string(), true, false);
    match r {
        Ok(p) => assert_eq!(p, "/a/b"),
        other => panic!("expected the path back, got {:?}", kind_of(&other)),
    }
}

#[test]
fn spawn_outcome_keeps_success() {
    assert!(spawn_outcome(Ok(())).is_ok());
}

#[test]
fn spawn_outcome_wraps_os_refusals() {
    let r = spawn_outcome(Err("permission denied".to_string()));
    match r {
        Err(ExecError::ProcessFailed(msg)) => assert_eq!(msg, "permission denied"),
        _ => panic!("expected a process failure"),
    }
}

/// A short description of a resolution result, for failure messages.
fn kind_of<T>(r: &Result<T, ExecError>) -> &'static str {
    match r {
        Ok(_) => "a plan",
        Err(ExecError::FileNotFound(_)) => "a missing-executable failure",
        Err(ExecError::DirectoryAtExecutable(_)) => "a wrong-kind failure",
        Err(ExecError::ProcessFailed(_)) => "a process failure",
    }
}
