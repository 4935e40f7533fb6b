# otty_i18n

Interface localization for the otty terminal: the shipped locales and their
tags, translation catalogs with English fallback, `{name}` placeholder
templates, localized quick-launch error messages, and the choice of text a
terminal paste inserts.

The library under `src/` is verified with Verus:

- `locale.rs`, `tag.rs`, `locale_laws.rs` — locales, resolving BCP 47 tags and
  POSIX locale strings, and the round-trip and uniqueness laws.
- `key.rs` — translatable keys and their catalog identifiers.
- `locales.rs` — the embedded JSON catalog of each locale.
- `catalog.rs`, `translate.rs`, `translator.rs` — catalogs, lookup with English
  fallback, palette labels, and the active locale.
- `template.rs`, `decimal.rs`, `chars.rs` — placeholder substitution and its
  laws, number rendering, character helpers.
- `errors.rs`, `paste.rs`, `system.rs` — error messages, paste text choice, and
  the system locale preference.

`app/` holds what stays outside verification: JSON parsing of the catalogs,
the process-global translator, error types implementing `std::error::Error`,
and clipboard access.
