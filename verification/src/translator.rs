//! The active interface locale together with the catalogs it reads from.

use vstd::prelude::*;
use crate::catalog::{CatalogView, Catalogs};
use crate::key::Key;
use crate::locale::Locale;
use crate::template::arguments_view;
use crate::translate::{
    fill_in, palette_label_in, spec_fill_in, spec_palette_label_in, spec_text_in, text_in,
};

verus! {

/// Translates interface text into the active locale.
///
/// The active locale is kept encoded as its [`Locale::index`], so that
/// switching languages only swaps the catalog used by later lookups;
/// callers re-render afterwards.
pub struct Translator {
    catalogs: Catalogs,
    active: u8,
}

impl Translator {
    /// The catalogs of all locales.
    pub closed spec fn catalogs(&self) -> Seq<CatalogView> {
        self.catalogs@
    }

    /// The active locale.
    pub closed spec fn locale(&self) -> Locale {
        Locale::spec_from_index(self.active as int)
    }

    /// A translator over `catalogs` whose active locale is English.
    pub fn new(catalogs: Catalogs) -> (r: Translator)
        ensures
            r.catalogs() == catalogs@,
            r.locale() == Locale::En,
    {
        Translator { catalogs, active: 0 }
    }

    /// Return the active interface locale.
    pub fn current_locale(&self) -> (r: Locale)
        ensures
            r == self.locale(),
    {
        Locale::from_index(self.active as usize)
    }

    /// Set the active interface locale.
    ///
    /// Callers must re-render afterwards; this only swaps the catalog used by
    /// subsequent lookups.
    pub fn set_locale(&mut self, locale: Locale)
        ensures
            final(self).locale() == locale,
            final(self).catalogs() == old(self).catalogs(),
    {
        self.active = locale.index() as u8;
    }

    /// Return the translation of `key` in the active locale.
    pub fn t(&self, key: Key) -> (r: &str)
        ensures
            r@ == spec_text_in(self.catalogs(), self.locale(), key),
    {
        text_in(&self.catalogs, self.current_locale(), key)
    }

    /// Return the label for the palette color at `index`.
    pub fn palette_label(&self, index: usize) -> (r: String)
        requires
            index < usize::MAX,
        ensures
            r@ == spec_palette_label_in(self.catalogs(), self.locale(), index as nat),
    {
        palette_label_in(&self.catalogs, self.current_locale(), index)
    }

    /// Fills the template behind `key` with one named argument.
    fn fill_one(&self, key: Key, name: &str, value: &str) -> (r: String)
        ensures
            r@ == spec_fill_in(self.catalogs(), self.locale(), key, seq![(name@, value@)]),
    {
        let arguments = [(name, value)];
        assert(arguments_view(arguments@) =~= seq![(name@, value@)]);
        fill_in(&self.catalogs, self.current_locale(), key, &arguments)
    }

    /// Fills the template behind `key` with two named arguments.
    fn fill_two(&self, key: Key, name1: &str, value1: &str, name2: &str, value2: &str) -> (r:
        String)
        ensures
            r@ == spec_fill_in(
                self.catalogs(),
                self.locale(),
                key,
                seq![(name1@, value1@), (name2@, value2@)],
            ),
    {
        let arguments = [(name1, value1), (name2, value2)];
        assert(arguments_view(arguments@) =~= seq![(name1@, value1@), (name2@, value2@)]);
        fill_in(&self.catalogs, self.current_locale(), key, &arguments)
    }

    /// Build the tab title shown when editing an existing quick launch.
    pub fn edit_tab_title(&self, command_title: &str) -> (r: String)
        ensures
            r@ == spec_fill_in(
                self.catalogs(),
                self.locale(),
                Key::TplEditTabTitle,
                seq![(seq!['t', 'i', 't', 'l', 'e'], command_title@)],
            ),
    {
        proof {
            reveal_strlit("title");
            assert("title"@ =~= seq!['t', 'i', 't', 'l', 'e']);
        }
        self.fill_one(Key::TplEditTabTitle, "title", command_title)
    }

    /// Build the error tab title shown when a command fails to launch.
    pub fn launch_failed_title(&self, command_title: &str) -> (r: String)
        ensures
            r@ == spec_fill_in(
                self.catalogs(),
                self.locale(),
                Key::TplLaunchFailedTitle,
                seq![(seq!['t', 'i', 't', 'l', 'e'], command_title@)],
            ),
    {
        proof {
            reveal_strlit("title");
            assert("title"@ =~= seq!['t', 'i', 't', 'l', 'e']);
        }
        self.fill_one(Key::TplLaunchFailedTitle, "title", command_title)
    }

    /// Build the error tab body shown when a command fails to launch.
    pub fn launch_failed_body(&self, command_title: &str, error: &str) -> (r: String)
        ensures
            r@ == spec_fill_in(
                self.catalogs(),
                self.locale(),
                Key::TplLaunchFailedBody,
                seq![(seq!['c', 'o', 'm', 'm', 'a', 'n', 'd'], command_title@), (seq!['e', 'r', 'r', 'o', 'r'], error@)],
            ),
    {
        proof {
            reveal_strlit("command");
            assert("command"@ =~= seq!['c', 'o', 'm', 'm', 'a', 'n', 'd']);
            reveal_strlit("error");
            assert("error"@ =~= seq!['e', 'r', 'r', 'o', 'r']);
        }
        self.fill_two(Key::TplLaunchFailedBody, "command", command_title, "error", error)
    }

    /// Build the message shown when a terminal tab fails to initialize.
    pub fn terminal_init_failed(&self, error: &str) -> (r: String)
        ensures
            r@ == spec_fill_in(
                self.catalogs(),
                self.locale(),
                Key::TplTerminalInitFailed,
                seq![(seq!['e', 'r', 'r', 'o', 'r'], error@)],
            ),
    {
        proof {
            reveal_strlit("error");
            assert("error"@ =~= seq!['e', 'r', 'r', 'o', 'r']);
        }
        self.fill_one(Key::TplTerminalInitFailed, "error", error)
    }

    /// Build the message shown when an SSH connection cannot be established.
    pub fn ssh_connection_failed(&self, error: &str) -> (r: String)
        ensures
            r@ == spec_fill_in(
                self.catalogs(),
                self.locale(),
                Key::TplSshConnectionFailed,
                seq![(seq!['e', 'r', 'r', 'o', 'r'], error@)],
            ),
    {
        proof {
            reveal_strlit("error");
            assert("error"@ =~= seq!['e', 'r', 'r', 'o', 'r']);
        }
        self.fill_one(Key::TplSshConnectionFailed, "error", error)
    }

    /// Build the message shown when a working directory cannot be found.
    pub fn working_directory_not_found(&self, path: &str) -> (r: String)
        ensures
            r@ == spec_fill_in(
                self.catalogs(),
                self.locale(),
                Key::TplWorkingDirectoryNotFound,
                seq![(seq!['p', 'a', 't', 'h'], path@)],
            ),
    {
        proof {
            reveal_strlit("path");
            assert("path"@ =~= seq!['p', 'a', 't', 'h']);
        }
        self.fill_one(Key::TplWorkingDirectoryNotFound, "path", path)
    }

    /// Build the message shown when a working path is not a directory.
    pub fn working_directory_not_directory(&self, path: &str) -> (r: String)
        ensures
            r@ == spec_fill_in(
                self.catalogs(),
                self.locale(),
                Key::TplWorkingDirectoryNotDirectory,
                seq![(seq!['p', 'a', 't', 'h'], path@)],
            ),
    {
        proof {
            reveal_strlit("path");
            assert("path"@ =~= seq!['p', 'a', 't', 'h']);
        }
        self.fill_one(Key::TplWorkingDirectoryNotDirectory, "path", path)
    }

    /// Build the message shown when an SSH identity file cannot be found.
    pub fn identity_file_not_found(&self, path: &str) -> (r: String)
        ensures
            r@ == spec_fill_in(
                self.catalogs(),
                self.locale(),
                Key::TplIdentityFileNotFound,
                seq![(seq!['p', 'a', 't', 'h'], path@)],
            ),
    {
        proof {
            reveal_strlit("path");
            assert("path"@ =~= seq!['p', 'a', 't', 'h']);
        }
        self.fill_one(Key::TplIdentityFileNotFound, "path", path)
    }

    /// Build the message shown when an SSH identity path is not a file.
    pub fn identity_file_not_file(&self, path: &str) -> (r: String)
        ensures
            r@ == spec_fill_in(
                self.catalogs(),
                self.locale(),
                Key::TplIdentityFileNotFile,
                seq![(seq!['p', 'a', 't', 'h'], path@)],
            ),
    {
        proof {
            reveal_strlit("path");
            assert("path"@ =~= seq!['p', 'a', 't', 'h']);
        }
        self.fill_one(Key::TplIdentityFileNotFile, "path", path)
    }

    /// Build the message shown when a program cannot be found in `PATH`.
    pub fn program_not_found_in_path(&self, program: &str) -> (r: String)
        ensures
            r@ == spec_fill_in(
                self.catalogs(),
                self.locale(),
                Key::TplProgramNotFoundInPath,
                seq![(seq!['p', 'r', 'o', 'g', 'r', 'a', 'm'], program@)],
            ),
    {
        proof {
            reveal_strlit("program");
            assert("program"@ =~= seq!['p', 'r', 'o', 'g', 'r', 'a', 'm']);
        }
        self.fill_one(Key::TplProgramNotFoundInPath, "program", program)
    }

    /// Build the message shown when an explicit program path cannot be found.
    pub fn program_not_found(&self, program: &str) -> (r: String)
        ensures
            r@ == spec_fill_in(
                self.catalogs(),
                self.locale(),
                Key::TplProgramNotFound,
                seq![(seq!['p', 'r', 'o', 'g', 'r', 'a', 'm'], program@)],
            ),
    {
        proof {
            reveal_strlit("program");
            assert("program"@ =~= seq!['p', 'r', 'o', 'g', 'r', 'a', 'm']);
        }
        self.fill_one(Key::TplProgramNotFound, "program", program)
    }

    /// Build the message shown when a program path is a directory.
    pub fn program_is_directory(&self, program: &str) -> (r: String)
        ensures
            r@ == spec_fill_in(
                self.catalogs(),
                self.locale(),
                Key::TplProgramIsDirectory,
                seq![(seq!['p', 'r', 'o', 'g', 'r', 'a', 'm'], program@)],
            ),
    {
        proof {
            reveal_strlit("program");
            assert("program"@ =~= seq!['p', 'r', 'o', 'g', 'r', 'a', 'm']);
        }
        self.fill_one(Key::TplProgramIsDirectory, "program", program)
    }

    /// Build the message shown when a program path is not executable.
    pub fn program_not_executable(&self, program: &str) -> (r: String)
        ensures
            r@ == spec_fill_in(
                self.catalogs(),
                self.locale(),
                Key::TplProgramNotExecutable,
                seq![(seq!['p', 'r', 'o', 'g', 'r', 'a', 'm'], program@)],
            ),
    {
        proof {
            reveal_strlit("program");
            assert("program"@ =~= seq!['p', 'r', 'o', 'g', 'r', 'a', 'm']);
        }
        self.fill_one(Key::TplProgramNotExecutable, "program", program)
    }
}

} // verus!
