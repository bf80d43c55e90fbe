use bastion::BeamNGInstall;

#[test]
fn missing_path_does_not_exist() {
    let install = BeamNGInstall::init("/no/such/game/install/anywhere".to_string());
    assert!(!install.exists_on_disk());
}

#[test]
fn directory_exists() {
    let dir = tempfile::tempdir().unwrap();
    let install = BeamNGInstall::init(dir.path().to_str().unwrap().to_string());
    assert!(install.exists_on_disk());
}

#[test]
fn regular_file_does_not_count_as_install() {
    let file = tempfile::NamedTempFile::new().unwrap();
    let install = BeamNGInstall::init(file.path().to_str().unwrap().to_string());
    assert!(!install.exists_on_disk());
}

#[test]
fn init_keeps_the_path() {
    let install = BeamNGInstall::init("/opt/games/beamng".to_string());
    assert_eq!(install.path().as_str(), "/opt/games/beamng");
}
