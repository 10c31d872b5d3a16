use projutil::ConfigError;
use projutil::Project;
use projutil::bootstrap::Action;
use projutil::bootstrap::Event;
use projutil::bootstrap::Phase;
use projutil::bootstrap::WriteOutcome;
use projutil::project;

#[test]
fn test_from_root_paths() {
    let p = Project::from_root("/home/u/.config", String::from("myproj"));
    assert_eq!(p.project_name, "myproj");
    assert_eq!(p.config_dir, "/home/u/.config/myproj");
    assert_eq!(p.config_path(), "/home/u/.config/myproj/config.toml");
}

#[test]
fn test_project_keeps_name() {
    match project(String::from("someproj")) {
        Ok(p) => {
            assert_eq!(p.project_name, "someproj");
            assert!(p.config_dir.ends_with("/someproj"));
        },
        Err(e) => assert_eq!(e, ConfigError::NoConfigRoot),
    }
}

#[test]
fn test_first_load_writes_defaults() {
    // A fresh configuration directory: the protocol creates the directory,
    // writes the serialized defaults, and loads them back.
    let p = Project::from_root("/tmp/cfgroot", String::from("fresh"));
    let mut l = p.config();
    assert_eq!(l.config_dir, "/tmp/cfgroot/fresh");
    assert_eq!(l.config_path, "/tmp/cfgroot/fresh/config.toml");
    assert_eq!(l.action(), Action::CreateDir);
    assert_eq!(l.step(Event::DirMade(true)), Action::CheckFile);
    assert_eq!(l.step(Event::FileChecked(false)), Action::WriteDefault);
    assert_eq!(l.step(Event::WriteDone(WriteOutcome::Written)), Action::LoadFile);
    assert_eq!(l.step(Event::LoadDone(true)), Action::Finish);
    assert_eq!(l.phase, Phase::Done);
}

#[test]
fn test_second_load_never_rewrites() {
    // The file already exists: the protocol never asks for a write, it goes
    // straight from the existence check to loading.
    let p = Project::from_root("/tmp/cfgroot", String::from("again"));
    let mut l = p.config();
    assert_eq!(l.step(Event::DirMade(true)), Action::CheckFile);
    let a = l.step(Event::FileChecked(true));
    assert_ne!(a, Action::WriteDefault);
    assert_eq!(a, Action::LoadFile);
    assert_eq!(l.step(Event::LoadDone(true)), Action::Finish);
    assert_eq!(l.phase, Phase::Done);
}

#[test]
fn test_bootstrap_failures_are_fatal() {
    let p = Project::from_root("/tmp/cfgroot", String::from("bad"));

    let mut l = p.config();
    assert_eq!(l.step(Event::DirMade(false)), Action::Fail(ConfigError::CreateDirFailed));
    assert_eq!(l.phase, Phase::Failed(ConfigError::CreateDirFailed));
    // No later event moves the protocol out of a failure.
    assert_eq!(l.step(Event::LoadDone(true)), Action::Fail(ConfigError::CreateDirFailed));
    assert_eq!(l.phase, Phase::Failed(ConfigError::CreateDirFailed));

    let mut l = p.config();
    l.step(Event::DirMade(true));
    l.step(Event::FileChecked(false));
    assert_eq!(
        l.step(Event::WriteDone(WriteOutcome::SerializeFailed)),
        Action::Fail(ConfigError::SerializeFailed)
    );

    let mut l = p.config();
    l.step(Event::DirMade(true));
    l.step(Event::FileChecked(false));
    assert_eq!(
        l.step(Event::WriteDone(WriteOutcome::WriteFailed)),
        Action::Fail(ConfigError::WriteFailed)
    );

    let mut l = p.config();
    l.step(Event::DirMade(true));
    l.step(Event::FileChecked(true));
    assert_eq!(l.step(Event::LoadDone(false)), Action::Fail(ConfigError::ParseFailed));
}
