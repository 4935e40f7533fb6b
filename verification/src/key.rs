//! Translatable interface strings.

use vstd::prelude::*;
use crate::chars::str_equal;

verus! {

/// Number of translatable strings.
pub const KEY_COUNT: usize = 28;

/// A translatable interface string, looked up in a locale catalog.
#[derive(Debug, Clone, Copy, PartialEq, Eq, Structural, Hash)]
pub enum Key {
    /// Label of the save button.
    ButtonSave,
    /// Heading of the appearance settings section.
    SectionAppearance,
    /// Prefix put before the text of a file-system error.
    ErrIoPrefix,
    /// Prefix put before the text of a malformed-file error.
    ErrJsonPrefix,
    /// A quick launch has an empty title.
    ErrTitleEmpty,
    /// A quick launch title is already used.
    ErrTitleDuplicate,
    /// The wizard was left without a title.
    ErrTitleRequired,
    /// A custom command has no program.
    ErrProgramRequired,
    /// An SSH command has no host.
    ErrHostRequired,
    /// An SSH command uses port zero.
    ErrSshPortPositive,
    /// The wizard holds a port that is not a number in range.
    ErrInvalidPort,
    /// The wizard lost its custom-command draft.
    ErrMissingCustomDraft,
    /// The wizard lost its SSH draft.
    ErrMissingSshDraft,
    /// The folder a quick launch should go into is gone.
    ErrMissingTargetFolder,
    /// Tab title while editing a quick launch (`{title}`).
    TplEditTabTitle,
    /// Tab title after a failed launch (`{title}`).
    TplLaunchFailedTitle,
    /// Body text after a failed launch (`{command}`, `{error}`).
    TplLaunchFailedBody,
    /// A terminal tab could not start (`{error}`).
    TplTerminalInitFailed,
    /// Label of a palette color without a name (`{index}`).
    TplPaletteFallbackLabel,
    /// An SSH connection could not be established (`{error}`).
    TplSshConnectionFailed,
    /// A working directory does not exist (`{path}`).
    TplWorkingDirectoryNotFound,
    /// A working path is not a directory (`{path}`).
    TplWorkingDirectoryNotDirectory,
    /// An SSH identity file does not exist (`{path}`).
    TplIdentityFileNotFound,
    /// An SSH identity path is not a file (`{path}`).
    TplIdentityFileNotFile,
    /// A program name is not on `PATH` (`{program}`).
    TplProgramNotFoundInPath,
    /// An explicit program path does not exist (`{program}`).
    TplProgramNotFound,
    /// A program path is a directory (`{program}`).
    TplProgramIsDirectory,
    /// A program path is not executable (`{program}`).
    TplProgramNotExecutable,
}

impl Key {
    /// Every key, in catalog order.
    pub const ALL: [Key; 28] = [
        Key::ButtonSave,
        Key::SectionAppearance,
        Key::ErrIoPrefix,
        Key::ErrJsonPrefix,
        Key::ErrTitleEmpty,
        Key::ErrTitleDuplicate,
        Key::ErrTitleRequired,
        Key::ErrProgramRequired,
        Key::ErrHostRequired,
        Key::ErrSshPortPositive,
        Key::ErrInvalidPort,
        Key::ErrMissingCustomDraft,
        Key::ErrMissingSshDraft,
        Key::ErrMissingTargetFolder,
        Key::TplEditTabTitle,
        Key::TplLaunchFailedTitle,
        Key::TplLaunchFailedBody,
        Key::TplTerminalInitFailed,
        Key::TplPaletteFallbackLabel,
        Key::TplSshConnectionFailed,
        Key::TplWorkingDirectoryNotFound,
        Key::TplWorkingDirectoryNotDirectory,
        Key::TplIdentityFileNotFound,
        Key::TplIdentityFileNotFile,
        Key::TplProgramNotFoundInPath,
        Key::TplProgramNotFound,
        Key::TplProgramIsDirectory,
        Key::TplProgramNotExecutable,
    ];

    /// Position of the key in [`Key::ALL`].
    pub open spec fn spec_index(self) -> nat {
        match self {
            Key::ButtonSave => 0,
            Key::SectionAppearance => 1,
            Key::ErrIoPrefix => 2,
            Key::ErrJsonPrefix => 3,
            Key::ErrTitleEmpty => 4,
            Key::ErrTitleDuplicate => 5,
            Key::ErrTitleRequired => 6,
            Key::ErrProgramRequired => 7,
            Key::ErrHostRequired => 8,
            Key::ErrSshPortPositive => 9,
            Key::ErrInvalidPort => 10,
            Key::ErrMissingCustomDraft => 11,
            Key::ErrMissingSshDraft => 12,
            Key::ErrMissingTargetFolder => 13,
            Key::TplEditTabTitle => 14,
            Key::TplLaunchFailedTitle => 15,
            Key::TplLaunchFailedBody => 16,
            Key::TplTerminalInitFailed => 17,
            Key::TplPaletteFallbackLabel => 18,
            Key::TplSshConnectionFailed => 19,
            Key::TplWorkingDirectoryNotFound => 20,
            Key::TplWorkingDirectoryNotDirectory => 21,
            Key::TplIdentityFileNotFound => 22,
            Key::TplIdentityFileNotFile => 23,
            Key::TplProgramNotFoundInPath => 24,
            Key::TplProgramNotFound => 25,
            Key::TplProgramIsDirectory => 26,
            Key::TplProgramNotExecutable => 27,
        }
    }

    /// Identifier of the key in a catalog file.
    pub open spec fn spec_name(self) -> Seq<char> {
        match self {
            Key::ButtonSave => seq!['b', 'u', 't', 't', 'o', 'n', '_', 's', 'a', 'v', 'e'],
            Key::SectionAppearance => seq!['s', 'e', 'c', 't', 'i', 'o', 'n', '_', 'a', 'p', 'p', 'e', 'a', 'r', 'a', 'n', 'c', 'e'],
            Key::ErrIoPrefix => seq!['e', 'r', 'r', '_', 'i', 'o', '_', 'p', 'r', 'e', 'f', 'i', 'x'],
            Key::ErrJsonPrefix => seq!['e', 'r', 'r', '_', 'j', 's', 'o', 'n', '_', 'p', 'r', 'e', 'f', 'i', 'x'],
            Key::ErrTitleEmpty => seq!['e', 'r', 'r', '_', 't', 'i', 't', 'l', 'e', '_', 'e', 'm', 'p', 't', 'y'],
            Key::ErrTitleDuplicate => seq!['e', 'r', 'r', '_', 't', 'i', 't', 'l', 'e', '_', 'd', 'u', 'p', 'l', 'i', 'c', 'a', 't', 'e'],
            Key::ErrTitleRequired => seq!['e', 'r', 'r', '_', 't', 'i', 't', 'l', 'e', '_', 'r', 'e', 'q', 'u', 'i', 'r', 'e', 'd'],
            Key::ErrProgramRequired => seq!['e', 'r', 'r', '_', 'p', 'r', 'o', 'g', 'r', 'a', 'm', '_', 'r', 'e', 'q', 'u', 'i', 'r', 'e', 'd'],
            Key::ErrHostRequired => seq!['e', 'r', 'r', '_', 'h', 'o', 's', 't', '_', 'r', 'e', 'q', 'u', 'i', 'r', 'e', 'd'],
            Key::ErrSshPortPositive => seq!['e', 'r', 'r', '_', 's', 's', 'h', '_', 'p', 'o', 'r', 't', '_', 'p', 'o', 's', 'i', 't', 'i', 'v', 'e'],
            Key::ErrInvalidPort => seq!['e', 'r', 'r', '_', 'i', 'n', 'v', 'a', 'l', 'i', 'd', '_', 'p', 'o', 'r', 't'],
            Key::ErrMissingCustomDraft => seq!['e', 'r', 'r', '_', 'm', 'i', 's', 's', 'i', 'n', 'g', '_', 'c', 'u', 's', 't', 'o', 'm', '_', 'd', 'r', 'a', 'f', 't'],
            Key::ErrMissingSshDraft => seq!['e', 'r', 'r', '_', 'm', 'i', 's', 's', 'i', 'n', 'g', '_', 's', 's', 'h', '_', 'd', 'r', 'a', 'f', 't'],
            Key::ErrMissingTargetFolder => seq!['e', 'r', 'r', '_', 'm', 'i', 's', 's', 'i', 'n', 'g', '_', 't', 'a', 'r', 'g', 'e', 't', '_', 'f', 'o', 'l', 'd', 'e', 'r'],
            Key::TplEditTabTitle => seq!['t', 'p', 'l', '_', 'e', 'd', 'i', 't', '_', 't', 'a', 'b', '_', 't', 'i', 't', 'l', 'e'],
            Key::TplLaunchFailedTitle => seq!['t', 'p', 'l', '_', 'l', 'a', 'u', 'n', 'c', 'h', '_', 'f', 'a', 'i', 'l', 'e', 'd', '_', 't', 'i', 't', 'l', 'e'],
            Key::TplLaunchFailedBody => seq!['t', 'p', 'l', '_', 'l', 'a', 'u', 'n', 'c', 'h', '_', 'f', 'a', 'i', 'l', 'e', 'd', '_', 'b', 'o', 'd', 'y'],
            Key::TplTerminalInitFailed => seq!['t', 'p', 'l', '_', 't', 'e', 'r', 'm', 'i', 'n', 'a', 'l', '_', 'i', 'n', 'i', 't', '_', 'f', 'a', 'i', 'l', 'e', 'd'],
            Key::TplPaletteFallbackLabel => seq!['t', 'p', 'l', '_', 'p', 'a', 'l', 'e', 't', 't', 'e', '_', 'f', 'a', 'l', 'l', 'b', 'a', 'c', 'k', '_', 'l', 'a', 'b', 'e', 'l'],
            Key::TplSshConnectionFailed => seq!['t', 'p', 'l', '_', 's', 's', 'h', '_', 'c', 'o', 'n', 'n', 'e', 'c', 't', 'i', 'o', 'n', '_', 'f', 'a', 'i', 'l', 'e', 'd'],
            Key::TplWorkingDirectoryNotFound => seq!['t', 'p', 'l', '_', 'w', 'o', 'r', 'k', 'i', 'n', 'g', '_', 'd', 'i', 'r', 'e', 'c', 't', 'o', 'r', 'y', '_', 'n', 'o', 't', '_', 'f', 'o', 'u', 'n', 'd'],
            Key::TplWorkingDirectoryNotDirectory => seq!['t', 'p', 'l', '_', 'w', 'o', 'r', 'k', 'i', 'n', 'g', '_', 'd', 'i', 'r', 'e', 'c', 't', 'o', 'r', 'y', '_', 'n', 'o', 't', '_', 'd', 'i', 'r', 'e', 'c', 't', 'o', 'r', 'y'],
            Key::TplIdentityFileNotFound => seq!['t', 'p', 'l', '_', 'i', 'd', 'e', 'n', 't', 'i', 't', 'y', '_', 'f', 'i', 'l', 'e', '_', 'n', 'o', 't', '_', 'f', 'o', 'u', 'n', 'd'],
            Key::TplIdentityFileNotFile => seq!['t', 'p', 'l', '_', 'i', 'd', 'e', 'n', 't', 'i', 't', 'y', '_', 'f', 'i', 'l', 'e', '_', 'n', 'o', 't', '_', 'f', 'i', 'l', 'e'],
            Key::TplProgramNotFoundInPath => seq!['t', 'p', 'l', '_', 'p', 'r', 'o', 'g', 'r', 'a', 'm', '_', 'n', 'o', 't', '_', 'f', 'o', 'u', 'n', 'd', '_', 'i', 'n', '_', 'p', 'a', 't', 'h'],
            Key::TplProgramNotFound => seq!['t', 'p', 'l', '_', 'p', 'r', 'o', 'g', 'r', 'a', 'm', '_', 'n', 'o', 't', '_', 'f', 'o', 'u', 'n', 'd'],
            Key::TplProgramIsDirectory => seq!['t', 'p', 'l', '_', 'p', 'r', 'o', 'g', 'r', 'a', 'm', '_', 'i', 's', '_', 'd', 'i', 'r', 'e', 'c', 't', 'o', 'r', 'y'],
            Key::TplProgramNotExecutable => seq!['t', 'p', 'l', '_', 'p', 'r', 'o', 'g', 'r', 'a', 'm', '_', 'n', 'o', 't', '_', 'e', 'x', 'e', 'c', 'u', 't', 'a', 'b', 'l', 'e'],
        }
    }

    /// The first key of [`Key::ALL`] from position `i` on whose identifier is `name`.
    pub open spec fn spec_named_from(name: Seq<char>, i: int) -> Option<Key>
        decreases KEY_COUNT - i,
    {
        if i < 0 || i >= KEY_COUNT {
            None
        } else if Key::ALL@[i].spec_name() == name {
            Some(Key::ALL@[i])
        } else {
            Key::spec_named_from(name, i + 1)
        }
    }

    /// The key whose catalog identifier is `name`, if any.
    pub open spec fn spec_from_name(name: Seq<char>) -> Option<Key> {
        Key::spec_named_from(name, 0)
    }

    /// Position in [`Key::ALL`], used to index catalog tables.
    pub fn index(self) -> (r: usize)
        ensures
            r == self.spec_index(),
            r < KEY_COUNT,
    {
        match self {
            Key::ButtonSave => 0,
            Key::SectionAppearance => 1,
            Key::ErrIoPrefix => 2,
            Key::ErrJsonPrefix => 3,
            Key::ErrTitleEmpty => 4,
            Key::ErrTitleDuplicate => 5,
            Key::ErrTitleRequired => 6,
            Key::ErrProgramRequired => 7,
            Key::ErrHostRequired => 8,
            Key::ErrSshPortPositive => 9,
            Key::ErrInvalidPort => 10,
            Key::ErrMissingCustomDraft => 11,
            Key::ErrMissingSshDraft => 12,
            Key::ErrMissingTargetFolder => 13,
            Key::TplEditTabTitle => 14,
            Key::TplLaunchFailedTitle => 15,
            Key::TplLaunchFailedBody => 16,
            Key::TplTerminalInitFailed => 17,
            Key::TplPaletteFallbackLabel => 18,
            Key::TplSshConnectionFailed => 19,
            Key::TplWorkingDirectoryNotFound => 20,
            Key::TplWorkingDirectoryNotDirectory => 21,
            Key::TplIdentityFileNotFound => 22,
            Key::TplIdentityFileNotFile => 23,
            Key::TplProgramNotFoundInPath => 24,
            Key::TplProgramNotFound => 25,
            Key::TplProgramIsDirectory => 26,
            Key::TplProgramNotExecutable => 27,
        }
    }

    /// Identifier of the key in a catalog file.
    pub fn name(self) -> (r: &'static str)
        ensures
            r@ == self.spec_name(),
    {
        match self {
            Key::ButtonSave => {
                proof {
                    reveal_strlit("button_save");
                }
                "button_save"
            },
            Key::SectionAppearance => {
                proof {
                    reveal_strlit("section_appearance");
                }
                "section_appearance"
            },
            Key::ErrIoPrefix => {
                proof {
                    reveal_strlit("err_io_prefix");
                }
                "err_io_prefix"
            },
            Key::ErrJsonPrefix => {
                proof {
                    reveal_strlit("err_json_prefix");
                }
                "err_json_prefix"
            },
            Key::ErrTitleEmpty => {
                proof {
                    reveal_strlit("err_title_empty");
                }
                "err_title_empty"
            },
            Key::ErrTitleDuplicate => {
                proof {
                    reveal_strlit("err_title_duplicate");
                }
                "err_title_duplicate"
            },
            Key::ErrTitleRequired => {
                proof {
                    reveal_strlit("err_title_required");
                }
                "err_title_required"
            },
            Key::ErrProgramRequired => {
                proof {
                    reveal_strlit("err_program_required");
                }
                "err_program_required"
            },
            Key::ErrHostRequired => {
                proof {
                    reveal_strlit("err_host_required");
                }
                "err_host_required"
            },
            Key::ErrSshPortPositive => {
                proof {
                    reveal_strlit("err_ssh_port_positive");
                }
                "err_ssh_port_positive"
            },
            Key::ErrInvalidPort => {
                proof {
                    reveal_strlit("err_invalid_port");
                }
                "err_invalid_port"
            },
            Key::ErrMissingCustomDraft => {
                proof {
                    reveal_strlit("err_missing_custom_draft");
                }
                "err_missing_custom_draft"
            },
            Key::ErrMissingSshDraft => {
                proof {
                    reveal_strlit("err_missing_ssh_draft");
                }
                "err_missing_ssh_draft"
            },
            Key::ErrMissingTargetFolder => {
                proof {
                    reveal_strlit("err_missing_target_folder");
                }
                "err_missing_target_folder"
            },
            Key::TplEditTabTitle => {
                proof {
                    reveal_strlit("tpl_edit_tab_title");
                }
                "tpl_edit_tab_title"
            },
            Key::TplLaunchFailedTitle => {
                proof {
                    reveal_strlit("tpl_launch_failed_title");
                }
                "tpl_launch_failed_title"
            },
            Key::TplLaunchFailedBody => {
                proof {
                    reveal_strlit("tpl_launch_failed_body");
                }
                "tpl_launch_failed_body"
            },
            Key::TplTerminalInitFailed => {
                proof {
                    reveal_strlit("tpl_terminal_init_failed");
                }
                "tpl_terminal_init_failed"
            },
            Key::TplPaletteFallbackLabel => {
                proof {
                    reveal_strlit("tpl_palette_fallback_label");
                }
                "tpl_palette_fallback_label"
            },
            Key::TplSshConnectionFailed => {
                proof {
                    reveal_strlit("tpl_ssh_connection_failed");
                }
                "tpl_ssh_connection_failed"
            },
            Key::TplWorkingDirectoryNotFound => {
                proof {
                    reveal_strlit("tpl_working_directory_not_found");
                }
                "tpl_working_directory_not_found"
            },
            Key::TplWorkingDirectoryNotDirectory => {
                proof {
                    reveal_strlit("tpl_working_directory_not_directory");
                }
                "tpl_working_directory_not_directory"
            },
            Key::TplIdentityFileNotFound => {
                proof {
                    reveal_strlit("tpl_identity_file_not_found");
                }
                "tpl_identity_file_not_found"
            },
            Key::TplIdentityFileNotFile => {
                proof {
                    reveal_strlit("tpl_identity_file_not_file");
                }
                "tpl_identity_file_not_file"
            },
            Key::TplProgramNotFoundInPath => {
                proof {
                    reveal_strlit("tpl_program_not_found_in_path");
                }
                "tpl_program_not_found_in_path"
            },
            Key::TplProgramNotFound => {
                proof {
                    reveal_strlit("tpl_program_not_found");
                }
                "tpl_program_not_found"
            },
            Key::TplProgramIsDirectory => {
                proof {
                    reveal_strlit("tpl_program_is_directory");
                }
                "tpl_program_is_directory"
            },
            Key::TplProgramNotExecutable => {
                proof {
                    reveal_strlit("tpl_program_not_executable");
                }
                "tpl_program_not_executable"
            },
        }
    }

    /// The key whose catalog identifier is `name`, if any.
    pub fn from_name(name: &str) -> (r: Option<Key>)
        ensures
            r == Key::spec_from_name(name@),
    {
        let all = Key::ALL;
        let mut i: usize = 0;
        while i < all.len()
            invariant
                all@ == Key::ALL@,
                i <= KEY_COUNT,
                Key::spec_from_name(name@) == Key::spec_named_from(name@, i as int),
            decreases KEY_COUNT - i,
        {
            let key = all[i];
            if str_equal(key.name(), name) {
                return Some(key);
            }
            i += 1;
        }
        None
    }
}

} // verus!

verus! {

/// Different keys have different catalog identifiers.
pub proof fn lemma_key_names_distinct(a: Key, b: Key)
    requires
        a != b,
    ensures
        a.spec_name() != b.spec_name(),
{
    // The length together with the sixth character tells all identifiers apart.
    if a.spec_name() == b.spec_name() {
        assert(a.spec_name().len() == b.spec_name().len());
        assert(a.spec_name()[5] == b.spec_name()[5]);
    }
}

/// The search from position `i` finds the key at position `p` when no
/// earlier position from `i` on carries the same identifier.
proof fn lemma_named_from_finds(name: Seq<char>, i: int, p: int)
    requires
        0 <= i <= p < KEY_COUNT,
        Key::ALL@[p].spec_name() == name,
        forall|j: int| i <= j < p ==> Key::ALL@[j].spec_name() != name,
    ensures
        Key::spec_named_from(name, i) == Some(Key::ALL@[p]),
    decreases p - i,
{
    if i < p {
        lemma_named_from_finds(name, i + 1, p);
    }
}

/// Looking up the identifier of a key gives the key back.
pub proof fn lemma_key_name_round_trip(key: Key)
    ensures
        Key::spec_from_name(key.spec_name()) == Some(key),
{
    let p = key.spec_index() as int;
    assert(Key::ALL@[p] == key);
    assert forall|j: int| 0 <= j < p implies Key::ALL@[j].spec_name() != key.spec_name() by {
        assert(Key::ALL@[j].spec_index() == j);
        lemma_key_names_distinct(Key::ALL@[j], key);
    }
    lemma_named_from_finds(key.spec_name(), 0, p);
}

} // verus!
