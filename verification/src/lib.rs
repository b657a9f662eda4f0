//! Prehnite's core as a verified library: settings and their storage, the
//! translations, the license bundle, the statements of the record types, book
//! search results and what the item list shows.

pub mod build_libs;
pub mod builder;
pub mod db;
pub mod font;
pub mod i18n;
pub mod license_bundle;
pub mod license_list;
pub mod settings;
pub mod text;
pub mod util;
pub mod widget;
