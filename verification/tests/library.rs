use otty_i18n::catalog::catalog;
use otty_i18n::decimal::decimal_string;
use otty_i18n::errors::{quick_launch_error_message, QuickLaunchError, QuickLaunchWizardError};
use otty_i18n::paste::{file_url_to_posix_path, read_paste_text_from};
use otty_i18n::system::detect_system_locale;
use otty_i18n::template::fill_template_str;
use otty_i18n::translate::{fill_in, palette_label_in, text_in};
use otty_i18n::{Catalog, CatalogError, Catalogs, Key, Locale, Translator};

fn parse_catalog(locale: Locale) -> Catalog {
    let value: serde_json::Value = serde_json::from_str(locale.json()).expect("valid JSON");
    let labels: Vec<String> = value["palette_labels"]
        .as_array()
        .expect("labels")
        .iter()
        .map(|label| label.as_str().expect("string").to_string())
        .collect();
    let entries: Vec<(String, String)> = value["strings"]
        .as_object()
        .expect("strings")
        .iter()
        .map(|(name, text)| (name.clone(), text.as_str().expect("string").to_string()))
        .collect();
    Catalog::from_named_entries(labels, entries).expect("known keys")
}

fn catalogs() -> Catalogs {
    Catalogs::new(Locale::ALL.iter().map(|locale| parse_catalog(*locale)).collect()).expect("ten")
}

/// Catalogs where only English translates `ButtonSave` and nobody translates
/// `SectionAppearance`; Simplified Chinese has one palette label.
fn sparse_catalogs() -> Catalogs {
    let mut all = Vec::new();
    for locale in Locale::ALL {
        let entries = match locale {
            Locale::En => vec![
                (Key::ButtonSave, "Save".to_string()),
                (Key::TplPaletteFallbackLabel, "Color {index}".to_string()),
            ],
            _ => vec![(Key::ErrHostRequired, format!("host ({})", locale.tag()))],
        };
        let labels = match locale {
            Locale::ZhCn => vec!["前景色".to_string()],
            _ => Vec::new(),
        };
        all.push(Catalog::new(labels, entries));
    }
    Catalogs::new(all).expect("ten")
}

fn translator_in(locale: Locale) -> Translator {
    let mut translator = Translator::new(catalogs());
    translator.set_locale(locale);
    translator
}

#[test]
fn missing_translation_falls_back_to_english_then_to_empty() {
    let catalogs = sparse_catalogs();
    assert_eq!(text_in(&catalogs, Locale::Ja, Key::ButtonSave), "Save");
    assert_eq!(text_in(&catalogs, Locale::Ja, Key::ErrHostRequired), "host (ja)");
    assert_eq!(text_in(&catalogs, Locale::Ja, Key::SectionAppearance), "");
    assert_eq!(text_in(&catalogs, Locale::En, Key::SectionAppearance), "");
}

#[test]
fn palette_fallback_uses_english_template_and_one_based_number() {
    let catalogs = sparse_catalogs();
    assert_eq!(palette_label_in(&catalogs, Locale::ZhCn, 0), "前景色");
    assert_eq!(palette_label_in(&catalogs, Locale::ZhCn, 1), "Color 2");
    assert_eq!(palette_label_in(&catalogs, Locale::Ru, 0), "Color 1");
    assert_eq!(palette_label_in(&catalogs, Locale::Ru, 99), "Color 100");
}

#[test]
fn palette_fallback_counts_past_nine() {
    let catalogs = catalogs();
    assert_eq!(palette_label_in(&catalogs, Locale::En, 28), "Dim white");
    assert_eq!(palette_label_in(&catalogs, Locale::En, 1008), "Color 1009");
    assert_eq!(palette_label_in(&catalogs, Locale::De, 29), "Farbe 30");
}

#[test]
fn decimal_strings_match_std_formatting() {
    for n in [0usize, 7, 9, 10, 42, 99, 100, 1234567, usize::MAX] {
        assert_eq!(decimal_string(n), n.to_string());
    }
}

#[test]
fn template_without_arguments_is_unchanged() {
    assert_eq!(fill_template_str("Edit: {title}", &[]), "Edit: {title}");
    assert_eq!(fill_template_str("{a}{b}{}", &[]), "{a}{b}{}");
    assert_eq!(fill_template_str("plain text", &[("title", "x")]), "plain text");
}

#[test]
fn template_keeps_unterminated_brace() {
    assert_eq!(fill_template_str("a {title", &[("title", "x")]), "a {title");
    assert_eq!(fill_template_str("{title} {", &[("title", "x")]), "x {");
    assert_eq!(fill_template_str("}{title}}", &[("title", "x")]), "}x}");
}

#[test]
fn template_uses_first_matching_argument_and_keeps_unknown_names() {
    assert_eq!(
        fill_template_str("{a}-{b}-{c}", &[("a", "1"), ("a", "2"), ("c", "3")]),
        "1-{b}-3"
    );
    assert_eq!(fill_template_str("{}", &[("", "empty")]), "empty");
    assert_eq!(fill_template_str("{{a}}", &[("a", "x")]), "{{a}}");
    assert_eq!(fill_template_str("{{a}}", &[("{a", "x")]), "x}");
}

#[test]
fn template_values_are_not_rescanned() {
    assert_eq!(
        fill_template_str("{a}{b}", &[("a", "{b}"), ("b", "B")]),
        "{b}B"
    );
}

#[test]
fn catalog_keeps_last_entry_and_counts_keys() {
    let catalog = Catalog::new(
        vec!["Fg".to_string()],
        vec![
            (Key::ButtonSave, "first".to_string()),
            (Key::ButtonSave, "second".to_string()),
            (Key::ErrIoPrefix, "io".to_string()),
        ],
    );
    assert_eq!(catalog.get(Key::ButtonSave), Some("second"));
    assert_eq!(catalog.get(Key::ErrIoPrefix), Some("io"));
    assert_eq!(catalog.get(Key::SectionAppearance), None);
    assert!(!catalog.contains_key(Key::SectionAppearance));
    assert_eq!(catalog.len(), 2);
    assert_eq!(catalog.palette_labels(), &vec!["Fg".to_string()]);
}

#[test]
fn named_entries_with_unknown_identifier_are_rejected() {
    let result = Catalog::from_named_entries(
        Vec::new(),
        vec![
            ("button_save".to_string(), "Save".to_string()),
            ("no_such_key".to_string(), "?".to_string()),
            ("also_unknown".to_string(), "?".to_string()),
        ],
    );
    assert_eq!(
        result.err(),
        Some(CatalogError::UnknownKey("no_such_key".to_string()))
    );
    let ok = Catalog::from_named_entries(
        Vec::new(),
        vec![("tpl_edit_tab_title".to_string(), "Edit: {title}".to_string())],
    )
    .expect("known key");
    assert_eq!(ok.get(Key::TplEditTabTitle), Some("Edit: {title}"));
}

#[test]
fn catalogs_need_one_catalog_per_locale() {
    assert!(Catalogs::new(Vec::new()).is_none());
    let nine: Vec<Catalog> = (0..9).map(|_| Catalog::new(Vec::new(), Vec::new())).collect();
    assert!(Catalogs::new(nine).is_none());
}

#[test]
fn key_identifiers_round_trip() {
    for (position, key) in Key::ALL.into_iter().enumerate() {
        assert_eq!(key.index(), position);
        assert_eq!(Key::from_name(key.name()), Some(key));
    }
    assert_eq!(Key::from_name("Button_Save"), None);
    assert_eq!(Key::from_name(""), None);
    assert_eq!(Key::name(Key::TplProgramNotFoundInPath), "tpl_program_not_found_in_path");
}

#[test]
fn locale_indices_out_of_range_decode_to_english() {
    assert_eq!(Locale::from_index(10), Locale::En);
    assert_eq!(Locale::from_index(usize::MAX), Locale::En);
}

#[test]
fn locale_tags_ignore_encoding_modifier_and_case() {
    assert_eq!(Locale::from_tag("PT_br.utf8@latin"), Locale::PtBr);
    assert_eq!(Locale::from_tag(".ja"), Locale::En);
    assert_eq!(Locale::from_tag("zh-mo"), Locale::ZhTw);
    assert_eq!(Locale::from_tag("zh-Hant-Hans"), Locale::ZhCn);
    assert_eq!(Locale::from_tag("zh-cn-tw"), Locale::ZhTw);
    assert_eq!(Locale::from_tag("zhx-TW"), Locale::En);
    assert_eq!(Locale::from_tag("-ja"), Locale::En);
    assert_eq!(Locale::from_tag("ja-"), Locale::Ja);
}

#[test]
fn native_names_are_endonyms() {
    assert_eq!(Locale::ZhTw.native_name(), "繁體中文");
    assert_eq!(Locale::PtBr.native_name(), "Português (Brasil)");
    assert_eq!(Locale::En.native_name(), "English");
    assert_eq!(Locale::PtBr.tag(), "pt-BR");
}

#[test]
fn system_locale_is_a_shipped_locale() {
    let locale = detect_system_locale();
    assert!(Locale::ALL.contains(&locale));
}

#[test]
fn translator_switches_locale() {
    let mut translator = Translator::new(catalogs());
    assert_eq!(translator.current_locale(), Locale::En);
    assert_eq!(translator.t(Key::ButtonSave), "Save");
    translator.set_locale(Locale::De);
    assert_eq!(translator.current_locale(), Locale::De);
    assert_eq!(translator.t(Key::ButtonSave), "Speichern");
    assert_eq!(translator.palette_label(0), "Vordergrund");
    assert_eq!(translator.palette_label(29), "Farbe 30");
    translator.set_locale(Locale::En);
    assert_eq!(translator.t(Key::ButtonSave), "Save");
}

#[test]
fn translator_builds_messages() {
    let en = translator_in(Locale::En);
    assert_eq!(en.edit_tab_title("deploy"), "Edit: deploy");
    assert_eq!(en.launch_failed_title("deploy"), "Failed to launch \"deploy\"");
    assert_eq!(en.launch_failed_body("deploy", "boom"), "Command: deploy\nError: boom");
    assert_eq!(en.terminal_init_failed("pty"), "Terminal tab initialization failed: pty");
    assert_eq!(en.ssh_connection_failed("refused"), "SSH connection failed: refused");
    assert_eq!(en.working_directory_not_found("/w"), "Working directory not found: /w");
    assert_eq!(
        en.working_directory_not_directory("/w"),
        "Working directory is not a directory: /w"
    );
    assert_eq!(en.identity_file_not_found("/k"), "Identity file not found: /k");
    assert_eq!(en.identity_file_not_file("/k"), "Identity file is not a file: /k");
    assert_eq!(en.program_not_found_in_path("vim"), "Program not found in PATH: vim");
    assert_eq!(en.program_not_found("/bin/x"), "Program not found: /bin/x");
    assert_eq!(en.program_is_directory("/bin"), "Program is a directory: /bin");
    assert_eq!(en.program_not_executable("/x"), "Program is not executable: /x");

    let zh = translator_in(Locale::ZhCn);
    assert_eq!(zh.program_not_executable("deploy"), "程序不可执行：deploy");
}

#[test]
fn quick_launch_errors_have_localized_messages() {
    let en = translator_in(Locale::En);
    assert_eq!(QuickLaunchError::Io("denied".to_string()).message(&en), "I/O error: denied");
    assert_eq!(QuickLaunchError::Json("eof".to_string()).message(&en), "Invalid data: eof");
    assert_eq!(QuickLaunchError::TitleEmpty.message(&en), "Title cannot be empty.");
    assert_eq!(
        QuickLaunchError::TitleDuplicate.message(&en),
        "A quick launch with this title already exists."
    );
    assert_eq!(QuickLaunchError::ProgramRequired.message(&en), "Program is required.");
    assert_eq!(QuickLaunchError::HostRequired.message(&en), "Host is required.");
    assert_eq!(
        QuickLaunchError::SshPortNotPositive.message(&en),
        "SSH port must be greater than 0."
    );
    assert_eq!(
        QuickLaunchError::SshConnectionFailed("timeout".to_string()).message(&en),
        "SSH connection failed: timeout"
    );
    assert_eq!(
        QuickLaunchError::WorkingDirectoryNotFound("/w".to_string()).message(&en),
        "Working directory not found: /w"
    );
    assert_eq!(
        QuickLaunchError::WorkingDirectoryNotDirectory("/w".to_string()).message(&en),
        "Working directory is not a directory: /w"
    );
    assert_eq!(
        QuickLaunchError::IdentityFileNotFound("/k".to_string()).message(&en),
        "Identity file not found: /k"
    );
    assert_eq!(
        QuickLaunchError::IdentityFileNotFile("/k".to_string()).message(&en),
        "Identity file is not a file: /k"
    );
    assert_eq!(
        QuickLaunchError::ProgramNotFoundInPath("vim".to_string()).message(&en),
        "Program not found in PATH: vim"
    );
    assert_eq!(
        QuickLaunchError::ProgramNotFound("/x".to_string()).message(&en),
        "Program not found: /x"
    );
    assert_eq!(
        QuickLaunchError::ProgramIsDirectory("/x".to_string()).message(&en),
        "Program is a directory: /x"
    );
    assert_eq!(
        QuickLaunchError::ProgramNotExecutable("/x".to_string()).message(&en),
        "Program is not executable: /x"
    );
    let zh = translator_in(Locale::ZhCn);
    assert_eq!(QuickLaunchError::SshPortNotPositive.message(&zh), "SSH 端口必须大于 0。");
    assert_eq!(
        quick_launch_error_message(&zh, "deploy", "boom"),
        "命令：deploy\n错误：boom"
    );
}

#[test]
fn wizard_errors_have_localized_messages() {
    let en = translator_in(Locale::En);
    assert_eq!(QuickLaunchWizardError::TitleRequired.message(&en), "Title is required.");
    assert_eq!(QuickLaunchWizardError::ProgramRequired.message(&en), "Program is required.");
    assert_eq!(QuickLaunchWizardError::HostRequired.message(&en), "Host is required.");
    assert_eq!(
        QuickLaunchWizardError::InvalidPort.message(&en),
        "Port must be a number between 1 and 65535."
    );
    assert_eq!(
        QuickLaunchWizardError::MissingCustomDraft.message(&en),
        "Custom command draft is missing."
    );
    assert_eq!(QuickLaunchWizardError::MissingSshDraft.message(&en), "SSH draft is missing.");
}

#[test]
fn file_url_to_posix_path_decodes_file_url() {
    assert_eq!(
        file_url_to_posix_path(Some("file"), Some("/Users/example/My File あ.txt".to_string())),
        Some("/Users/example/My File あ.txt".to_string())
    );
    assert_eq!(
        file_url_to_posix_path(Some("FiLe"), Some("/tmp".to_string())),
        Some("/tmp".to_string())
    );
}

#[test]
fn file_url_to_posix_path_rejects_non_file_url() {
    assert_eq!(
        file_url_to_posix_path(Some("https"), Some("/file.txt".to_string())),
        None
    );
    assert_eq!(file_url_to_posix_path(None, Some("/file.txt".to_string())), None);
    assert_eq!(file_url_to_posix_path(Some("files"), Some("/f".to_string())), None);
}

#[test]
fn paste_text_prefers_native_file_url_path_over_clipboard_text() {
    assert_eq!(
        read_paste_text_from(
            Some(String::from("/Users/example/My File.txt")),
            Some(String::from("otty-file-icon.icns")),
            None,
        )
        .as_deref(),
        Some("/Users/example/My File.txt")
    );
}

#[test]
fn paste_text_decodes_file_url_text_fallback() {
    assert_eq!(
        read_paste_text_from(
            None,
            Some(String::from("file:///Users/example/My%20File.txt")),
            Some(String::from("/Users/example/My File.txt")),
        )
        .as_deref(),
        Some("/Users/example/My File.txt")
    );
    assert_eq!(
        read_paste_text_from(None, Some(String::from("hello")), None).as_deref(),
        Some("hello")
    );
    assert_eq!(read_paste_text_from(None, None, None), None);
}

#[test]
fn catalogs_translate_every_key_through_the_library_lookup() {
    let catalogs = catalogs();
    for locale in Locale::ALL {
        let catalog = catalog(&catalogs, locale);
        for key in Key::ALL {
            assert_eq!(text_in(&catalogs, locale, key), catalog.get(key).expect("present"));
        }
        assert_eq!(
            fill_in(&catalogs, locale, Key::ButtonSave, &[("title", "x")]),
            catalog.get(Key::ButtonSave).expect("present")
        );
    }
}

#[test]
fn reordered_arguments_with_distinct_names_fill_alike() {
    let catalogs = catalogs();
    assert_eq!(
        fill_in(
            &catalogs,
            Locale::En,
            Key::TplLaunchFailedBody,
            &[("error", "boom"), ("command", "deploy")]
        ),
        "Command: deploy\nError: boom"
    );
    assert_eq!(
        fill_template_str("{a}{b}{c}", &[("c", "3"), ("a", "1"), ("b", "2")]),
        fill_template_str("{a}{b}{c}", &[("a", "1"), ("b", "2"), ("c", "3")])
    );
}

#[test]
fn arguments_naming_no_placeholder_leave_template_unchanged() {
    let catalogs = catalogs();
    assert_eq!(
        fill_in(&catalogs, Locale::En, Key::TplEditTabTitle, &[("name", "x"), ("titles", "y")]),
        text_in(&catalogs, Locale::En, Key::TplEditTabTitle)
    );
    assert_eq!(fill_template_str("{x} and {y", &[("y", "Y"), ("z", "Z")]), "{x} and {y");
}
