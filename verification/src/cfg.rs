//! Runtime configuration and the state of the data file, as plain values.
//!
//! Reading the configuration file, environment and disk happens at the
//! application edge; this module holds the values and the decisions taken
//! over them.

use vstd::prelude::*;

use crate::errors::AppError;

verus! {

/// Configuration read from inside the data file; absent values fall back to
/// these defaults.
#[derive(Debug, Clone)]
pub struct InnerCfg {
    /// Ask for the master password immediately when the session starts.
    pub need_main_pwd_on_run: bool,
    /// Idle seconds before the session re-locks; `None` or 0 disables.
    pub auto_re_lock_idle_sec: Option<u32>,
    /// Idle seconds before the session closes; `None` or 0 disables.
    pub auto_close_idle_sec: Option<u32>,
}

impl Default for InnerCfg {
    /// The defaults: password asked at start, both idle actions disabled.
    fn default() -> (r: Self)
        ensures
            r.need_main_pwd_on_run,
            r.auto_re_lock_idle_sec is None,
            r.auto_close_idle_sec is None,
    {
        InnerCfg { need_main_pwd_on_run: true, auto_re_lock_idle_sec: None, auto_close_idle_sec: None }
    }
}

/// The configuration a run actually uses: where the data file lives, and
/// the settings read from inside it.
#[derive(Debug, Clone)]
pub struct Cfg {
    /// Path of the data file, as text.
    pub load_data: String,
    /// Settings stored inside the data file.
    pub inner_cfg: InnerCfg,
}

/// How a run was asked to behave: a one-shot command line, or the
/// interactive terminal session.
#[derive(Eq, PartialEq, Structural, Debug, Clone, Copy)]
pub enum RunMode {
    Cli,
    Tui,
}

/// The command-line arguments the security core decides over.
#[derive(Debug, Clone)]
pub struct CliArgs {
    /// Replacement data-file path, if one was given.
    pub data: Option<String>,
    /// Find entries whose `about` contains this text, then exit.
    pub find: Option<String>,
}

impl CliArgs {
    /// A find request runs once and exits; anything else opens the session.
    pub fn run_mode(&self) -> (r: RunMode)
        ensures
            r == (if self.find is Some {
                RunMode::Cli
            } else {
                RunMode::Tui
            }),
    {
        if self.find.is_some() {
            RunMode::Cli
        } else {
            RunMode::Tui
        }
    }
}

/// The state of the data file, decided before a session may start.
#[derive(Eq, PartialEq, Structural, Debug, Clone, Copy)]
pub enum NoteState {
    /// No data file where the configuration points: initialization needed.
    NoStorage,
    /// A data file without a master record and without entries: the master
    /// password still has to be set.
    NoMainPwd,
    /// A data file with a master record: ready to verify and run.
    Ready,
}

impl NoteState {
    /// Classifies the probed data file. A file that has entries but no
    /// master record can only come from outside alteration and is refused
    /// as corrupted.
    pub fn check(data_file_exists: bool, has_master_record: bool, entry_count: u32) -> (r: Result<
        NoteState,
        AppError,
    >)
        ensures
            !data_file_exists ==> r == Ok::<NoteState, AppError>(NoteState::NoStorage),
            data_file_exists && has_master_record ==> r == Ok::<NoteState, AppError>(
                NoteState::Ready,
            ),
            data_file_exists && !has_master_record && entry_count == 0 ==> r == Ok::<
                NoteState,
                AppError,
            >(NoteState::NoMainPwd),
            data_file_exists && !has_master_record && entry_count > 0 ==> r == Err::<
                NoteState,
                AppError,
            >(AppError::DataCorrupted),
    {
        if !data_file_exists {
            Ok(NoteState::NoStorage)
        } else if has_master_record {
            Ok(NoteState::Ready)
        } else if entry_count == 0 {
            Ok(NoteState::NoMainPwd)
        } else {
            Err(AppError::DataCorrupted)
        }
    }
}

} // verus!
