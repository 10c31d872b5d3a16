//! The configuration bootstrap-and-load protocol: guarantee a valid, typed
//! configuration for a project, writing defaults on first use and never
//! touching an existing file.
//!
//! The protocol is a state machine. The caller performs each returned
//! `Action` against the real file system and serializer — the two things
//! this library does not touch — and reports the outcome as an `Event`. The
//! machine decides what happens next; its transition relation `next` is the
//! specification the step function is proved against.

use crate::project::ConfigError;
use crate::project::Project;
use vstd::prelude::*;

verus! {

/// Where the protocol stands.
#[derive(Clone, Copy, PartialEq, Eq, Debug)]
pub enum Phase {
    /// The configuration directory is being created.
    CreatingDir,
    /// The directory exists; the configuration file is being looked for.
    CheckingFile,
    /// The file was absent; the serialized defaults are being written.
    WritingDefault,
    /// The file exists; it is being read and deserialized.
    Loading,
    /// The configuration was loaded.
    Done,
    /// The protocol stopped: an environment error, fatal by design.
    Failed(ConfigError),
}

/// How writing the default configuration file went.
#[derive(Clone, Copy, PartialEq, Eq, Debug)]
pub enum WriteOutcome {
    /// Serialized and written in full.
    Written,
    /// The default value could not be serialized.
    SerializeFailed,
    /// The serialized text could not be written.
    WriteFailed,
}

/// What the caller reports back after carrying out an action.
#[derive(Clone, Copy, PartialEq, Eq, Debug)]
pub enum Event {
    /// Whether creating the configuration directory (with any missing
    /// parents; no error if already present) succeeded.
    DirMade(bool),
    /// Whether the configuration file exists.
    FileChecked(bool),
    /// How writing the serialized defaults went.
    WriteDone(WriteOutcome),
    /// Whether reading, parsing and deserializing the file succeeded.
    LoadDone(bool),
}

/// What the caller must do next.
#[derive(Clone, Copy, PartialEq, Eq, Debug)]
pub enum Action {
    /// Create the configuration directory and any missing parents.
    CreateDir,
    /// Test whether the configuration file exists.
    CheckFile,
    /// Serialize the caller's default configuration value and write it to
    /// the configuration file.
    WriteDefault,
    /// Read the configuration file, parse it and deserialize it.
    LoadFile,
    /// Nothing: the loaded value is the configuration.
    Finish,
    /// Nothing: stop with this error.
    Fail(ConfigError),
}

/// The action pending in each phase.
pub open spec fn action_of(p: Phase) -> Action {
    match p {
        Phase::CreatingDir => Action::CreateDir,
        Phase::CheckingFile => Action::CheckFile,
        Phase::WritingDefault => Action::WriteDefault,
        Phase::Loading => Action::LoadFile,
        Phase::Done => Action::Finish,
        Phase::Failed(e) => Action::Fail(e),
    }
}

/// Which events answer which phase.
pub open spec fn expects(p: Phase, e: Event) -> bool {
    match p {
        Phase::CreatingDir => e is DirMade,
        Phase::CheckingFile => e is FileChecked,
        Phase::WritingDefault => e is WriteDone,
        Phase::Loading => e is LoadDone,
        Phase::Done => false,
        Phase::Failed(_) => false,
    }
}

/// The transition relation of the protocol: from a phase and the reported
/// event to the next phase and the next action. Every failure is terminal.
/// An event that does not answer the current phase changes nothing — the
/// pending action is simply asked for again.
pub open spec fn next(p: Phase, e: Event) -> (Phase, Action) {
    match (p, e) {
        (Phase::CreatingDir, Event::DirMade(true)) => (Phase::CheckingFile, Action::CheckFile),
        (Phase::CreatingDir, Event::DirMade(false)) => (
            Phase::Failed(ConfigError::CreateDirFailed),
            Action::Fail(ConfigError::CreateDirFailed),
        ),
        (Phase::CheckingFile, Event::FileChecked(true)) => (Phase::Loading, Action::LoadFile),
        (Phase::CheckingFile, Event::FileChecked(false)) => (
            Phase::WritingDefault,
            Action::WriteDefault,
        ),
        (Phase::WritingDefault, Event::WriteDone(WriteOutcome::Written)) => (
            Phase::Loading,
            Action::LoadFile,
        ),
        (Phase::WritingDefault, Event::WriteDone(WriteOutcome::SerializeFailed)) => (
            Phase::Failed(ConfigError::SerializeFailed),
            Action::Fail(ConfigError::SerializeFailed),
        ),
        (Phase::WritingDefault, Event::WriteDone(WriteOutcome::WriteFailed)) => (
            Phase::Failed(ConfigError::WriteFailed),
            Action::Fail(ConfigError::WriteFailed),
        ),
        (Phase::Loading, Event::LoadDone(true)) => (Phase::Done, Action::Finish),
        (Phase::Loading, Event::LoadDone(false)) => (
            Phase::Failed(ConfigError::ParseFailed),
            Action::Fail(ConfigError::ParseFailed),
        ),
        _ => (p, action_of(p)),
    }
}

/// The bootstrap-and-load protocol in flight: its phase, and the two paths
/// every action of the run is about.
pub struct ConfigLoader {
    pub phase: Phase,
    /// The directory that `CreateDir` creates.
    pub config_dir: String,
    /// The file that `CheckFile`, `WriteDefault` and `LoadFile` act on.
    pub config_path: String,
}

impl ConfigLoader {
    /// Begin the protocol for the given directory and file. The first thing
    /// to do is to create the directory — idempotently, so one that already
    /// exists is no error.
    pub fn new(config_dir: String, config_path: String) -> (l: ConfigLoader)
        ensures
            l.phase == Phase::CreatingDir,
            l.config_dir@ == config_dir@,
            l.config_path@ == config_path@,
    {
        ConfigLoader { phase: Phase::CreatingDir, config_dir, config_path }
    }

    /// The action pending now.
    pub fn action(&self) -> (a: Action)
        ensures
            a == action_of(self.phase),
    {
        match self.phase {
            Phase::CreatingDir => Action::CreateDir,
            Phase::CheckingFile => Action::CheckFile,
            Phase::WritingDefault => Action::WriteDefault,
            Phase::Loading => Action::LoadFile,
            Phase::Done => Action::Finish,
            Phase::Failed(e) => Action::Fail(e),
        }
    }

    /// Report an action's outcome; the machine moves one step and answers
    /// with the next action.
    pub fn step(&mut self, e: Event) -> (a: Action)
        ensures
            final(self).phase == next(old(self).phase, e).0,
            a == next(old(self).phase, e).1,
            final(self).config_dir@ == old(self).config_dir@,
            final(self).config_path@ == old(self).config_path@,
    {
        match (self.phase, e) {
            (Phase::CreatingDir, Event::DirMade(true)) => {
                self.phase = Phase::CheckingFile;
                Action::CheckFile
            },
            (Phase::CreatingDir, Event::DirMade(false)) => {
                self.phase = Phase::Failed(ConfigError::CreateDirFailed);
                Action::Fail(ConfigError::CreateDirFailed)
            },
            (Phase::CheckingFile, Event::FileChecked(true)) => {
                self.phase = Phase::Loading;
                Action::LoadFile
            },
            (Phase::CheckingFile, Event::FileChecked(false)) => {
                self.phase = Phase::WritingDefault;
                Action::WriteDefault
            },
            (Phase::WritingDefault, Event::WriteDone(WriteOutcome::Written)) => {
                self.phase = Phase::Loading;
                Action::LoadFile
            },
            (Phase::WritingDefault, Event::WriteDone(WriteOutcome::SerializeFailed)) => {
                self.phase = Phase::Failed(ConfigError::SerializeFailed);
                Action::Fail(ConfigError::SerializeFailed)
            },
            (Phase::WritingDefault, Event::WriteDone(WriteOutcome::WriteFailed)) => {
                self.phase = Phase::Failed(ConfigError::WriteFailed);
                Action::Fail(ConfigError::WriteFailed)
            },
            (Phase::Loading, Event::LoadDone(true)) => {
                self.phase = Phase::Done;
                Action::Finish
            },
            (Phase::Loading, Event::LoadDone(false)) => {
                self.phase = Phase::Failed(ConfigError::ParseFailed);
                Action::Fail(ConfigError::ParseFailed)
            },
            _ => self.action(),
        }
    }
}

impl Project {
    /// Begin the bootstrap-and-load protocol for this project's
    /// configuration. The caller drives the returned machine: it performs
    /// each action against the machine's `config_dir` and `config_path` —
    /// this project's own — and reports the outcome, until the action is
    /// `Finish` or `Fail`.
    pub fn config(&self) -> (l: ConfigLoader)
        ensures
            l.phase == Phase::CreatingDir,
            l.config_dir@ == self.config_dir@,
            l.config_path@ == crate::project::path_join(
                self.config_dir@,
                crate::project::config_file_name(),
            ),
    {
        let dir = self.config_dir.clone();
        let path = self.config_path();
        ConfigLoader::new(dir, path)
    }
}

/// An existing configuration file is never overwritten: among the steps the
/// protocol can take in answer to what it asked for, the only one that asks
/// for the default configuration to be written is seeing the file absent.
pub proof fn lemma_existing_file_never_overwritten(p: Phase, e: Event)
    ensures
        expects(p, e) && next(p, e).1 == Action::WriteDefault ==> p == Phase::CheckingFile && e
            == Event::FileChecked(false),
{
}

/// The protocol finishes only by loading the file: the one step that reaches
/// `Done` is a successful load, so every configuration value handed out was
/// deserialized from the configuration file — never invented.
pub proof fn lemma_done_only_by_loading(p: Phase, e: Event)
    ensures
        expects(p, e) && next(p, e).0 == Phase::Done ==> p == Phase::Loading && e
            == Event::LoadDone(true),
{
}

/// Failures are fatal by design: no event moves the protocol out of a failed
/// phase, and none changes which error it failed with. `Done` is equally
/// final.
pub proof fn lemma_failure_is_terminal(p: Phase, e: Event)
    ensures
        p is Failed ==> next(p, e).0 == p,
        p == Phase::Done ==> next(p, e).0 == p,
{
}

} // verus!
