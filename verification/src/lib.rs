//! Decision logic of an Arma 3 extension that connects field units to an
//! AI artillery commander: settings, the artillery registry, the commander's
//! conversation steps, the tool schemas and the small HTTP and audio rules.
pub mod text;
pub mod settings;
pub mod artillery;
pub mod tools;
pub mod commander;
pub mod recording;
pub mod audio;
pub mod http;
