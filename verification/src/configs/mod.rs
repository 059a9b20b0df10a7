//! Configuration records and the envelope they are stored in.

pub mod base;
pub mod modules;
pub mod settings;

pub use base::Base;
pub use modules::Module;
pub use settings::Settings;
