use otty_i18n::catalog::catalog;
use otty_i18n::system::locale_from_system_preference;
use otty_i18n::translate::{fill_in, palette_label_in, text_in};
use otty_i18n::{Catalog, Catalogs, Key, Locale, PALETTE_LABEL_COUNT};

/// Reads the embedded catalog source of `locale` the way the application does.
fn parse_catalog(locale: Locale) -> Catalog {
    let value: serde_json::Value = serde_json::from_str(locale.json())
        .unwrap_or_else(|err| panic!("locale catalog {} is invalid: {err}", locale.tag()));
    let labels: Vec<String> = value["palette_labels"]
        .as_array()
        .expect("palette_labels is an array")
        .iter()
        .map(|label| label.as_str().expect("label is a string").to_string())
        .collect();
    let entries: Vec<(String, String)> = value["strings"]
        .as_object()
        .expect("strings is an object")
        .iter()
        .map(|(name, text)| (name.clone(), text.as_str().expect("text is a string").to_string()))
        .collect();
    Catalog::from_named_entries(labels, entries).expect("every entry names a key")
}

fn catalogs() -> Catalogs {
    Catalogs::new(Locale::ALL.iter().map(|locale| parse_catalog(*locale)).collect())
        .expect("one catalog per locale")
}

#[test]
fn given_every_key_when_catalogs_are_read_then_all_are_translated() {
    let catalogs = catalogs();
    for locale in Locale::ALL {
        let catalog = catalog(&catalogs, locale);
        for key in Key::ALL {
            assert!(
                catalog.contains_key(key),
                "{} is missing translation for {key:?}",
                locale.tag()
            );
        }
    }
}

#[test]
fn given_catalogs_when_counted_then_they_contain_no_extra_keys() {
    let catalogs = catalogs();
    for locale in Locale::ALL {
        assert_eq!(
            catalog(&catalogs, locale).len(),
            Key::ALL.len(),
            "{} has entries not listed in Key::ALL",
            locale.tag()
        );
    }
}

#[test]
fn given_catalogs_when_palette_labels_read_then_counts_match_palette() {
    let catalogs = catalogs();
    for locale in Locale::ALL {
        assert_eq!(
            catalog(&catalogs, locale).palette_labels().len(),
            PALETTE_LABEL_COUNT,
            "{} has the wrong palette label count",
            locale.tag()
        );
    }
}

#[test]
fn given_chinese_tags_when_parsed_then_script_selects_the_variant() {
    assert_eq!(Locale::from_tag("zh_CN.UTF-8"), Locale::ZhCn);
    assert_eq!(Locale::from_tag("zh-Hans"), Locale::ZhCn);
    assert_eq!(Locale::from_tag("zh-Hans_TW"), Locale::ZhCn);
    assert_eq!(Locale::from_tag("zh"), Locale::ZhCn);
    assert_eq!(Locale::from_tag("ZH-TW"), Locale::ZhTw);
    assert_eq!(Locale::from_tag("zh_HK"), Locale::ZhTw);
    assert_eq!(Locale::from_tag("zh-Hant"), Locale::ZhTw);
    assert_eq!(Locale::from_tag("zh-Hant_CN"), Locale::ZhTw);
}

#[test]
fn given_posix_locale_strings_when_parsed_then_language_is_recognized() {
    assert_eq!(Locale::from_tag("ja_JP.UTF-8"), Locale::Ja);
    assert_eq!(Locale::from_tag("ko_KR.UTF-8"), Locale::Ko);
    assert_eq!(Locale::from_tag("fr_CA"), Locale::Fr);
    assert_eq!(Locale::from_tag("de_AT@euro"), Locale::De);
    assert_eq!(Locale::from_tag("es_MX.UTF-8"), Locale::Es);
    assert_eq!(Locale::from_tag("pt_PT"), Locale::PtBr);
    assert_eq!(Locale::from_tag("ru_RU.UTF-8"), Locale::Ru);
    assert_eq!(Locale::from_tag("en_US.UTF-8"), Locale::En);
}

#[test]
fn given_unknown_tags_when_parsed_then_english_is_used() {
    assert_eq!(Locale::from_tag("tlh"), Locale::En);
    assert_eq!(Locale::from_tag("C"), Locale::En);
    assert_eq!(Locale::from_tag(""), Locale::En);
}

#[test]
fn given_platform_preference_when_system_locale_resolved_then_platform_value_is_used() {
    assert_eq!(
        locale_from_system_preference(Some("zh-Hans_TW")),
        Locale::ZhCn
    );
    assert_eq!(locale_from_system_preference(None), Locale::En);
}

#[test]
fn given_locales_when_indexed_then_positions_match_all_order() {
    for (position, locale) in Locale::ALL.into_iter().enumerate() {
        assert_eq!(
            locale.index(),
            position,
            "{} has an index that does not match its position in ALL",
            locale.tag()
        );
    }
}

#[test]
fn given_locales_when_encoded_then_the_atomic_round_trips() {
    for locale in Locale::ALL {
        assert_eq!(Locale::from_index(locale.index()), locale);
    }
}

#[test]
fn given_locales_when_listed_then_tags_and_names_are_unique() {
    let mut tags: Vec<&str> = Locale::ALL.iter().map(|l| l.tag()).collect();
    tags.sort_unstable();
    let unique_tags = tags.len();
    tags.dedup();
    assert_eq!(tags.len(), unique_tags, "duplicate locale tag");

    let mut names: Vec<&str> = Locale::ALL.iter().map(|l| l.native_name()).collect();
    names.sort_unstable();
    let unique_names = names.len();
    names.dedup();
    assert_eq!(names.len(), unique_names, "duplicate locale name");
}

#[test]
fn given_locale_when_round_tripped_through_tag_then_value_is_preserved() {
    for locale in Locale::ALL {
        assert_eq!(Locale::from_tag(locale.tag()), locale);
    }
}

#[test]
fn given_a_locale_when_translating_then_that_locale_text_is_returned() {
    let catalogs = catalogs();
    assert_eq!(text_in(&catalogs, Locale::ZhCn, Key::ButtonSave), "保存");
    assert_eq!(text_in(&catalogs, Locale::ZhCn, Key::SectionAppearance), "外观");
    assert_eq!(text_in(&catalogs, Locale::En, Key::ButtonSave), "Save");
    assert_eq!(text_in(&catalogs, Locale::En, Key::SectionAppearance), "Appearance");
}

#[test]
fn given_templates_when_filled_then_placeholders_are_substituted() {
    let catalogs = catalogs();
    assert_eq!(
        fill_in(&catalogs, Locale::En, Key::TplEditTabTitle, &[("title", "deploy")]),
        "Edit: deploy"
    );
    assert_eq!(
        fill_in(
            &catalogs,
            Locale::En,
            Key::TplLaunchFailedTitle,
            &[("title", "deploy")]
        ),
        "Failed to launch \"deploy\""
    );
    assert_eq!(
        fill_in(
            &catalogs,
            Locale::En,
            Key::TplLaunchFailedBody,
            &[("command", "deploy"), ("error", "boom")]
        ),
        "Command: deploy\nError: boom"
    );
    assert_eq!(
        fill_in(
            &catalogs,
            Locale::En,
            Key::TplTerminalInitFailed,
            &[("error", "boom")]
        ),
        "Terminal tab initialization failed: boom"
    );

    assert_eq!(
        fill_in(&catalogs, Locale::ZhCn, Key::TplEditTabTitle, &[("title", "deploy")]),
        "编辑：deploy"
    );
    assert_eq!(
        fill_in(
            &catalogs,
            Locale::ZhCn,
            Key::TplLaunchFailedTitle,
            &[("title", "deploy")]
        ),
        "启动“deploy”失败"
    );
    assert_eq!(
        fill_in(
            &catalogs,
            Locale::ZhCn,
            Key::TplLaunchFailedBody,
            &[("command", "deploy"), ("error", "boom")]
        ),
        "命令：deploy\n错误：boom"
    );
}

#[test]
fn given_placeholder_text_in_argument_when_filled_then_argument_remains_verbatim() {
    let catalogs = catalogs();
    assert_eq!(
        fill_in(
            &catalogs,
            Locale::En,
            Key::TplLaunchFailedBody,
            &[("command", "deploy {error}"), ("error", "boom")]
        ),
        "Command: deploy {error}\nError: boom"
    );
}

#[test]
fn given_quick_launch_diagnostics_when_translated_then_visible_text_is_localized() {
    let catalogs = catalogs();
    assert_eq!(
        text_in(&catalogs, Locale::ZhCn, Key::ErrSshPortPositive),
        "SSH 端口必须大于 0。"
    );
    assert_eq!(
        text_in(&catalogs, Locale::ZhCn, Key::ErrMissingTargetFolder),
        "找不到目标文件夹。"
    );
    assert_eq!(
        fill_in(
            &catalogs,
            Locale::ZhCn,
            Key::TplWorkingDirectoryNotFound,
            &[("path", "/tmp/project")]
        ),
        "找不到工作目录：/tmp/project"
    );
    assert_eq!(
        fill_in(
            &catalogs,
            Locale::ZhCn,
            Key::TplProgramNotExecutable,
            &[("program", "deploy")]
        ),
        "程序不可执行：deploy"
    );
}

#[test]
fn given_palette_index_when_labelled_then_named_and_fallback_labels_apply() {
    let catalogs = catalogs();
    assert_eq!(palette_label_in(&catalogs, Locale::ZhCn, 0), "前景色");
    assert_eq!(
        palette_label_in(&catalogs, Locale::ZhCn, PALETTE_LABEL_COUNT),
        "颜色 30"
    );

    assert_eq!(palette_label_in(&catalogs, Locale::En, 0), "Foreground");
    assert_eq!(
        palette_label_in(&catalogs, Locale::En, PALETTE_LABEL_COUNT),
        "Color 30"
    );
}

#[test]
fn given_every_locale_when_templates_read_then_placeholders_survive() {
    let catalogs = catalogs();
    let required: [(Key, &[&str]); 14] = [
        (Key::TplEditTabTitle, &["{title}"]),
        (Key::TplLaunchFailedTitle, &["{title}"]),
        (Key::TplLaunchFailedBody, &["{command}", "{error}"]),
        (Key::TplTerminalInitFailed, &["{error}"]),
        (Key::TplPaletteFallbackLabel, &["{index}"]),
        (Key::TplSshConnectionFailed, &["{error}"]),
        (Key::TplWorkingDirectoryNotFound, &["{path}"]),
        (Key::TplWorkingDirectoryNotDirectory, &["{path}"]),
        (Key::TplIdentityFileNotFound, &["{path}"]),
        (Key::TplIdentityFileNotFile, &["{path}"]),
        (Key::TplProgramNotFoundInPath, &["{program}"]),
        (Key::TplProgramNotFound, &["{program}"]),
        (Key::TplProgramIsDirectory, &["{program}"]),
        (Key::TplProgramNotExecutable, &["{program}"]),
    ];

    for locale in Locale::ALL {
        for (key, placeholders) in required {
            let template = text_in(&catalogs, locale, key);
            for placeholder in placeholders {
                assert!(
                    template.contains(placeholder),
                    "{} template {key:?} lost {placeholder}",
                    locale.tag()
                );
            }
        }
    }
}

#[test]
fn given_every_locale_when_catalog_read_then_no_entry_is_blank() {
    let catalogs = catalogs();
    for locale in Locale::ALL {
        let catalog = catalog(&catalogs, locale);

        for key in Key::ALL {
            if let Some(value) = catalog.get(key) {
                assert!(
                    !value.trim().is_empty(),
                    "{} has a blank translation for {key:?}",
                    locale.tag()
                );
            }
        }

        for (index, label) in catalog.palette_labels().iter().enumerate() {
            assert!(
                !label.trim().is_empty(),
                "{} has a blank palette label at {index}",
                locale.tag()
            );
        }
    }
}

#[test]
fn given_embedded_catalogs_when_parsed_then_they_deserialize() {
    for locale in Locale::ALL {
        let catalog = parse_catalog(locale);

        assert!(
            catalog.len() != 0,
            "{} parsed to an empty catalog",
            locale.tag()
        );
    }
}
