//! Building a TOML settings file line by line.

pub mod document;
pub mod setting;
pub mod settings;
pub mod storage;
pub mod text;

pub use setting::{SettingKind, SettingOption};
pub use settings::{Settings, SettingsError};
pub use storage::{write_file, OpenMode, WritePlan};
pub use toml;
