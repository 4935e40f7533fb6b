//! Quick launch errors and the localized messages that describe them.

use vstd::prelude::*;
use vstd::string::*;
use crate::key::Key;
use crate::translate::{spec_fill_in, spec_text_in};
use crate::translator::Translator;

verus! {

/// Errors emitted during quick launch operations.
///
/// Errors that come from elsewhere (file access, malformed files) are kept
/// as their message text.
#[derive(Debug, PartialEq, Eq)]
pub enum QuickLaunchError {
    /// A file could not be read or written; holds the error text.
    Io(String),
    /// A file holds malformed data; holds the error text.
    Json(String),
    /// A quick launch has an empty title.
    TitleEmpty,
    /// A quick launch title is already used.
    TitleDuplicate,
    /// A custom command has no program.
    ProgramRequired,
    /// An SSH command has no host.
    HostRequired,
    /// An SSH command uses port zero.
    SshPortNotPositive,
    /// An SSH connection attempt failed.
    SshConnectionFailed(String),
    /// A configured working directory does not exist.
    WorkingDirectoryNotFound(String),
    /// A configured working path is not a directory.
    WorkingDirectoryNotDirectory(String),
    /// A configured SSH identity file does not exist.
    IdentityFileNotFound(String),
    /// A configured SSH identity path is not a file.
    IdentityFileNotFile(String),
    /// A program name could not be resolved through `PATH`.
    ProgramNotFoundInPath(String),
    /// An explicit program path does not exist.
    ProgramNotFound(String),
    /// An explicit program path points to a directory.
    ProgramIsDirectory(String),
    /// An explicit program path is not executable.
    ProgramNotExecutable(String),
}

/// The localized text of the key in the translator's active locale.
pub open spec fn active_text(translator: &Translator, key: Key) -> Seq<char> {
    spec_text_in(translator.catalogs(), translator.locale(), key)
}

/// The template behind `key` in the active locale with one argument filled in.
pub open spec fn active_fill(translator: &Translator, key: Key, name: Seq<char>, value: Seq<char>) -> Seq<char> {
    spec_fill_in(translator.catalogs(), translator.locale(), key, seq![(name, value)])
}

impl QuickLaunchError {
    /// The localized message describing the error.
    pub open spec fn spec_message(&self, translator: &Translator) -> Seq<char> {
        match self {
            QuickLaunchError::Io(e) => active_text(translator, Key::ErrIoPrefix) + e@,
            QuickLaunchError::Json(e) => active_text(translator, Key::ErrJsonPrefix) + e@,
            QuickLaunchError::TitleEmpty => active_text(translator, Key::ErrTitleEmpty),
            QuickLaunchError::TitleDuplicate => active_text(translator, Key::ErrTitleDuplicate),
            QuickLaunchError::ProgramRequired => active_text(translator, Key::ErrProgramRequired),
            QuickLaunchError::HostRequired => active_text(translator, Key::ErrHostRequired),
            QuickLaunchError::SshPortNotPositive => active_text(translator, Key::ErrSshPortPositive),
            QuickLaunchError::SshConnectionFailed(e) => active_fill(translator, Key::TplSshConnectionFailed, seq!['e', 'r', 'r', 'o', 'r'], e@),
            QuickLaunchError::WorkingDirectoryNotFound(e) => active_fill(translator, Key::TplWorkingDirectoryNotFound, seq!['p', 'a', 't', 'h'], e@),
            QuickLaunchError::WorkingDirectoryNotDirectory(e) => active_fill(translator, Key::TplWorkingDirectoryNotDirectory, seq!['p', 'a', 't', 'h'], e@),
            QuickLaunchError::IdentityFileNotFound(e) => active_fill(translator, Key::TplIdentityFileNotFound, seq!['p', 'a', 't', 'h'], e@),
            QuickLaunchError::IdentityFileNotFile(e) => active_fill(translator, Key::TplIdentityFileNotFile, seq!['p', 'a', 't', 'h'], e@),
            QuickLaunchError::ProgramNotFoundInPath(e) => active_fill(translator, Key::TplProgramNotFoundInPath, seq!['p', 'r', 'o', 'g', 'r', 'a', 'm'], e@),
            QuickLaunchError::ProgramNotFound(e) => active_fill(translator, Key::TplProgramNotFound, seq!['p', 'r', 'o', 'g', 'r', 'a', 'm'], e@),
            QuickLaunchError::ProgramIsDirectory(e) => active_fill(translator, Key::TplProgramIsDirectory, seq!['p', 'r', 'o', 'g', 'r', 'a', 'm'], e@),
            QuickLaunchError::ProgramNotExecutable(e) => active_fill(translator, Key::TplProgramNotExecutable, seq!['p', 'r', 'o', 'g', 'r', 'a', 'm'], e@),
        }
    }

    /// The localized message describing the error.
    pub fn message(&self, translator: &Translator) -> (r: String)
        ensures
            r@ == self.spec_message(translator),
    {
        match self {
            QuickLaunchError::Io(e) => {
                let mut text = String::from_str(translator.t(Key::ErrIoPrefix));
                text.append(e.as_str());
                text
            },
            QuickLaunchError::Json(e) => {
                let mut text = String::from_str(translator.t(Key::ErrJsonPrefix));
                text.append(e.as_str());
                text
            },
            QuickLaunchError::TitleEmpty => String::from_str(translator.t(Key::ErrTitleEmpty)),
            QuickLaunchError::TitleDuplicate => String::from_str(translator.t(Key::ErrTitleDuplicate)),
            QuickLaunchError::ProgramRequired => String::from_str(translator.t(Key::ErrProgramRequired)),
            QuickLaunchError::HostRequired => String::from_str(translator.t(Key::ErrHostRequired)),
            QuickLaunchError::SshPortNotPositive => String::from_str(translator.t(Key::ErrSshPortPositive)),
            QuickLaunchError::SshConnectionFailed(e) => translator.ssh_connection_failed(e.as_str()),
            QuickLaunchError::WorkingDirectoryNotFound(e) => translator.working_directory_not_found(e.as_str()),
            QuickLaunchError::WorkingDirectoryNotDirectory(e) => translator.working_directory_not_directory(e.as_str()),
            QuickLaunchError::IdentityFileNotFound(e) => translator.identity_file_not_found(e.as_str()),
            QuickLaunchError::IdentityFileNotFile(e) => translator.identity_file_not_file(e.as_str()),
            QuickLaunchError::ProgramNotFoundInPath(e) => translator.program_not_found_in_path(e.as_str()),
            QuickLaunchError::ProgramNotFound(e) => translator.program_not_found(e.as_str()),
            QuickLaunchError::ProgramIsDirectory(e) => translator.program_is_directory(e.as_str()),
            QuickLaunchError::ProgramNotExecutable(e) => translator.program_not_executable(e.as_str()),
        }
    }
}

/// Errors emitted by quick launch wizard validation.
#[derive(Debug, Clone, Copy, PartialEq, Eq)]
pub enum QuickLaunchWizardError {
    /// The wizard has no title.
    TitleRequired,
    /// A custom command draft has no program.
    ProgramRequired,
    /// An SSH draft has no host.
    HostRequired,
    /// The port is not a valid number.
    InvalidPort,
    /// The custom-command draft is missing.
    MissingCustomDraft,
    /// The SSH draft is missing.
    MissingSshDraft,
}

impl QuickLaunchWizardError {
    /// The key of the message describing the error.
    pub open spec fn spec_key(self) -> Key {
        match self {
            QuickLaunchWizardError::TitleRequired => Key::ErrTitleRequired,
            QuickLaunchWizardError::ProgramRequired => Key::ErrProgramRequired,
            QuickLaunchWizardError::HostRequired => Key::ErrHostRequired,
            QuickLaunchWizardError::InvalidPort => Key::ErrInvalidPort,
            QuickLaunchWizardError::MissingCustomDraft => Key::ErrMissingCustomDraft,
            QuickLaunchWizardError::MissingSshDraft => Key::ErrMissingSshDraft,
        }
    }

    /// The localized message describing the error.
    pub fn message(&self, translator: &Translator) -> (r: String)
        ensures
            r@ == active_text(translator, self.spec_key()),
    {
        let key = match self {
            QuickLaunchWizardError::TitleRequired => Key::ErrTitleRequired,
            QuickLaunchWizardError::ProgramRequired => Key::ErrProgramRequired,
            QuickLaunchWizardError::HostRequired => Key::ErrHostRequired,
            QuickLaunchWizardError::InvalidPort => Key::ErrInvalidPort,
            QuickLaunchWizardError::MissingCustomDraft => Key::ErrMissingCustomDraft,
            QuickLaunchWizardError::MissingSshDraft => Key::ErrMissingSshDraft,
        };
        String::from_str(translator.t(key))
    }
}

/// Build a human-readable error message for a failed launch of the quick
/// launch titled `command_title`, whose error reads `error`.
pub fn quick_launch_error_message(translator: &Translator, command_title: &str, error: &str) -> (r:
    String)
    ensures
        r@ == spec_fill_in(
            translator.catalogs(),
            translator.locale(),
            Key::TplLaunchFailedBody,
            seq![(seq!['c', 'o', 'm', 'm', 'a', 'n', 'd'], command_title@), (seq!['e', 'r', 'r', 'o', 'r'], error@)],
        ),
{
    translator.launch_failed_body(command_title, error)
}

} // verus!
