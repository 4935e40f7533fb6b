//! Interface localization for a terminal application: locale selection,
//! translation catalogs, and `{name}` placeholder templates.

pub mod catalog;
pub mod chars;
pub mod decimal;
pub mod errors;
pub mod key;
pub mod locale;
pub mod locale_laws;
pub mod locales;
pub mod paste;
pub mod system;
pub mod tag;
pub mod template;
pub mod translate;
pub mod translator;

pub use catalog::{Catalog, CatalogError, Catalogs, PALETTE_LABEL_COUNT};
pub use key::Key;
pub use locale::Locale;
pub use translator::Translator;
