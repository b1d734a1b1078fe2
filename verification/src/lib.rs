//! Typed configuration model for an embedded Python interpreter.
//!
//! The model follows the two stages of native initialization. Its leaves are
//! closed enumerations, each with a canonical token that parses back to the
//! value it came from. Above them stands one record,
//! [`PythonInterpreterConfig`]: a profile, and optional fields that override
//! what the profile gives only where they are set.

pub mod allocator;
pub mod bytecode;
pub mod config;
pub mod document;
pub mod field;
pub mod locale;
pub mod multiprocessing;
pub mod profile;
pub mod setting;
pub mod terminfo;
pub mod text;
pub mod warning;

pub use crate::allocator::{Allocator, MemoryAllocatorBackend, PlatformFamily};
pub use crate::bytecode::{BytecodeOptimizationLevel, CheckHashPycsMode};
pub use crate::config::PythonInterpreterConfig;
pub use crate::document::ConfigDocument;
pub use crate::field::{Field, Tier};
pub use crate::locale::CoerceCLocale;
pub use crate::multiprocessing::MultiprocessingStartMethod;
pub use crate::profile::PythonInterpreterProfile;
pub use crate::setting::Setting;
pub use crate::terminfo::TerminfoResolution;
pub use crate::warning::BytesWarning;
