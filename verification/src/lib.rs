//! Decisions of the PikaOS first-setup wizard: the user form, the page
//! order, the connectivity page, the install pages and the translation
//! tables, each a state with the events that change it.
pub mod text;
pub mod pattern;
pub mod user_form;
pub mod navigation;
pub mod connectivity;
pub mod install;
pub mod translations;
pub mod welcome;
