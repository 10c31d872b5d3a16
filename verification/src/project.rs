//! Project identity: a name, and the configuration directory it determines
//! under the platform's standard configuration root.

use vstd::prelude::*;
use vstd::string::StringExecFns;

verus! {

/// The path of the entry `name` inside the directory `dir`: the two joined
/// by the path separator.
pub open spec fn path_join(dir: Seq<char>, name: Seq<char>) -> Seq<char> {
    dir + seq!['/'] + name
}

/// The name of the configuration file inside a project's configuration
/// directory.
pub open spec fn config_file_name() -> Seq<char> {
    "config.toml"@
}

/// Why establishing a configuration failed. Every one of these is an
/// environment problem serious enough that the caller should stop, not fall
/// back to silent defaults.
#[derive(Clone, Copy, PartialEq, Eq, Debug)]
pub enum ConfigError {
    /// The platform has no standard configuration root.
    NoConfigRoot,
    /// The configuration directory could not be created.
    CreateDirFailed,
    /// The default configuration could not be serialized.
    SerializeFailed,
    /// The default configuration file could not be written.
    WriteFailed,
    /// The configuration file could not be parsed or deserialized.
    ParseFailed,
}

/// A project identity: the name that namespaces the configuration, and the
/// configuration directory resolved from it. Several independent instances
/// with different names may coexist in one process.
pub struct Project {
    pub project_name: String,
    pub config_dir: String,
}

/// Relies on dirs::config_dir: the platform's standard configuration root,
/// if it has one. The answer depends on the environment, so nothing is
/// promised of it; the path is handed on as a string.
#[verifier::external_body]
fn platform_config_root() -> (r: Option<String>) {
    dirs::config_dir().map(|p| p.to_string_lossy().into_owned())
}

impl Project {
    /// Build the identity for `project_name` under a known configuration
    /// root: the configuration directory is the project's own subdirectory
    /// of the root.
    pub fn from_root(config_root: &str, project_name: String) -> (p: Project)
        ensures
            p.project_name@ == project_name@,
            p.config_dir@ == path_join(config_root@, project_name@),
    {
        proof {
            reveal_strlit("/");
            assert("/"@ =~= seq!['/']);
        }
        let mut dir = config_root.to_owned();
        dir.append("/");
        dir.append(project_name.as_str());
        Project { project_name, config_dir: dir }
    }

    /// Resolve the identity for `project_name` under the platform's standard
    /// configuration root. Fails exactly when the platform offers no such
    /// root — the one environment this system cannot work in.
    pub fn new(project_name: String) -> (r: Result<Project, ConfigError>)
        ensures
            r matches Ok(p) ==> p.project_name@ == project_name@ && exists|root: Seq<char>|
                p.config_dir@ == path_join(root, project_name@),
            r is Err ==> r == Result::<Project, ConfigError>::Err(ConfigError::NoConfigRoot),
    {
        match platform_config_root() {
            Some(root) => {
                let p = Project::from_root(root.as_str(), project_name);
                proof {
                    assert(p.config_dir@ == path_join(root@, p.project_name@));
                }
                Ok(p)
            },
            None => Err(ConfigError::NoConfigRoot),
        }
    }

    /// The path of this project's configuration file: `config.toml` inside
    /// the configuration directory.
    pub fn config_path(&self) -> (r: String)
        ensures
            r@ == path_join(self.config_dir@, config_file_name()),
    {
        proof {
            reveal_strlit("/");
            assert("/"@ =~= seq!['/']);
        }
        let mut p = self.config_dir.clone();
        p.append("/");
        p.append("config.toml");
        p
    }
}

/// The free-function spelling of `Project::new`.
pub fn project(project_name: String) -> (r: Result<Project, ConfigError>)
    ensures
        r matches Ok(p) ==> p.project_name@ == project_name@ && exists|root: Seq<char>|
            p.config_dir@ == path_join(root, project_name@),
        r is Err ==> r == Result::<Project, ConfigError>::Err(ConfigError::NoConfigRoot),
{
    Project::new(project_name)
}

} // verus!
