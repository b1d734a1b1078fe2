//! Bulk population of the configuration record from a decoded document.
//!
//! A decoder hands over what it read as a [`ConfigDocument`]: the values
//! of the typed fields still as tokens, the others as they are. Population
//! checks every token before it touches the record, so a document with an
//! invalid token changes nothing.

use crate::allocator::Allocator;
use crate::bytecode::{BytecodeOptimizationLevel, CheckHashPycsMode};
use crate::config::PythonInterpreterConfig;
use crate::field::Field;
use crate::locale::CoerceCLocale;
use crate::profile::PythonInterpreterProfile;
use crate::warning::BytesWarning;
use std::path::PathBuf;
use vstd::prelude::*;

verus! {

/// A decoded document: for each field of the record, the raw value that
/// the document gives it, or `None` where the document does not mention
/// the field. The profile and the enumerated fields are tokens, the
/// optimization level is the number of a level.
#[derive(Clone, Debug, PartialEq)]
pub struct ConfigDocument {
    /// Token of the profile.
    pub profile: Option<String>,
    /// Token for `allocator`.
    pub allocator: Option<String>,
    /// Value for `configure_locale`.
    pub configure_locale: Option<bool>,
    /// Token for `coerce_c_locale`.
    pub coerce_c_locale: Option<String>,
    /// Value for `coerce_c_locale_warn`.
    pub coerce_c_locale_warn: Option<bool>,
    /// Value for `development_mode`.
    pub development_mode: Option<bool>,
    /// Value for `isolated`.
    pub isolated: Option<bool>,
    /// Value for `legacy_windows_fs_encoding`.
    pub legacy_windows_fs_encoding: Option<bool>,
    /// Value for `parse_argv`.
    pub parse_argv: Option<bool>,
    /// Value for `use_environment`.
    pub use_environment: Option<bool>,
    /// Value for `utf8_mode`.
    pub utf8_mode: Option<bool>,
    /// Value for `argv`.
    pub argv: Option<Vec<String>>,
    /// Value for `base_exec_prefix`.
    pub base_exec_prefix: Option<PathBuf>,
    /// Value for `base_executable`.
    pub base_executable: Option<PathBuf>,
    /// Value for `base_prefix`.
    pub base_prefix: Option<PathBuf>,
    /// Value for `buffered_stdio`.
    pub buffered_stdio: Option<bool>,
    /// Token for `bytes_warning`.
    pub bytes_warning: Option<String>,
    /// Token for `check_hash_pycs_mode`.
    pub check_hash_pycs_mode: Option<String>,
    /// Value for `configure_c_stdio`.
    pub configure_c_stdio: Option<bool>,
    /// Value for `dump_refs`.
    pub dump_refs: Option<bool>,
    /// Value for `exec_prefix`.
    pub exec_prefix: Option<PathBuf>,
    /// Value for `executable`.
    pub executable: Option<PathBuf>,
    /// Value for `fault_handler`.
    pub fault_handler: Option<bool>,
    /// Value for `filesystem_encoding`.
    pub filesystem_encoding: Option<String>,
    /// Value for `filesystem_errors`.
    pub filesystem_errors: Option<String>,
    /// Value for `hash_seed`.
    pub hash_seed: Option<u64>,
    /// Value for `home`.
    pub home: Option<PathBuf>,
    /// Value for `import_time`.
    pub import_time: Option<bool>,
    /// Value for `inspect`.
    pub inspect: Option<bool>,
    /// Value for `install_signal_handlers`.
    pub install_signal_handlers: Option<bool>,
    /// Value for `interactive`.
    pub interactive: Option<bool>,
    /// Value for `legacy_windows_stdio`.
    pub legacy_windows_stdio: Option<bool>,
    /// Value for `malloc_stats`.
    pub malloc_stats: Option<bool>,
    /// Value for `module_search_paths`.
    pub module_search_paths: Option<Vec<PathBuf>>,
    /// Number of the level for `optimization_level`.
    pub optimization_level: Option<i32>,
    /// Value for `parser_debug`.
    pub parser_debug: Option<bool>,
    /// Value for `pathconfig_warnings`.
    pub pathconfig_warnings: Option<bool>,
    /// Value for `prefix`.
    pub prefix: Option<PathBuf>,
    /// Value for `program_name`.
    pub program_name: Option<PathBuf>,
    /// Value for `pycache_prefix`.
    pub pycache_prefix: Option<PathBuf>,
    /// Value for `python_path_env`.
    pub python_path_env: Option<String>,
    /// Value for `quiet`.
    pub quiet: Option<bool>,
    /// Value for `run_command`.
    pub run_command: Option<String>,
    /// Value for `run_filename`.
    pub run_filename: Option<PathBuf>,
    /// Value for `run_module`.
    pub run_module: Option<String>,
    /// Value for `show_ref_count`.
    pub show_ref_count: Option<bool>,
    /// Value for `site_import`.
    pub site_import: Option<bool>,
    /// Value for `skip_first_source_line`.
    pub skip_first_source_line: Option<bool>,
    /// Value for `stdio_encoding`.
    pub stdio_encoding: Option<String>,
    /// Value for `stdio_errors`.
    pub stdio_errors: Option<String>,
    /// Value for `tracemalloc`.
    pub tracemalloc: Option<bool>,
    /// Value for `user_site_directory`.
    pub user_site_directory: Option<bool>,
    /// Value for `verbose`.
    pub verbose: Option<bool>,
    /// Value for `warn_options`.
    pub warn_options: Option<Vec<String>>,
    /// Value for `write_bytecode`.
    pub write_bytecode: Option<bool>,
    /// Value for `x_options`.
    pub x_options: Option<Vec<String>>,
}

/// Reads a profile where the document gives one.
fn read_profile(token: &Option<String>) -> (r: Result<Option<PythonInterpreterProfile>, String>)
    ensures
        match r {
            Ok(v) => match token {
                Some(t) => v is Some && PythonInterpreterProfile::spec_parse(t@) == v,
                None => v is None,
            },
            Err(e) => match token {
                Some(t) => PythonInterpreterProfile::spec_parse(t@) is None
                    && e@ == PythonInterpreterProfile::rejection(t@),
                None => false,
            },
        },
{
    match token {
        Some(t) => match PythonInterpreterProfile::parse(t.as_str()) {
            Ok(v) => Ok(Some(v)),
            Err(e) => Err(e),
        },
        None => Ok(None),
    }
}

/// Reads an allocator where the document gives one.
fn read_allocator(token: &Option<String>) -> (r: Result<Option<Allocator>, String>)
    ensures
        match r {
            Ok(v) => match token {
                Some(t) => v is Some && Allocator::spec_parse(t@) == v,
                None => v is None,
            },
            Err(e) => match token {
                Some(t) => Allocator::spec_parse(t@) is None
                    && e@ == Allocator::rejection(t@),
                None => false,
            },
        },
{
    match token {
        Some(t) => match Allocator::parse(t.as_str()) {
            Ok(v) => Ok(Some(v)),
            Err(e) => Err(e),
        },
        None => Ok(None),
    }
}

/// Reads a locale coercion mode where the document gives one.
fn read_coerce_c_locale(token: &Option<String>) -> (r: Result<Option<CoerceCLocale>, String>)
    ensures
        match r {
            Ok(v) => match token {
                Some(t) => v is Some && CoerceCLocale::spec_parse(t@) == v,
                None => v is None,
            },
            Err(e) => match token {
                Some(t) => CoerceCLocale::spec_parse(t@) is None
                    && e@ == CoerceCLocale::rejection(t@),
                None => false,
            },
        },
{
    match token {
        Some(t) => match CoerceCLocale::parse(t.as_str()) {
            Ok(v) => Ok(Some(v)),
            Err(e) => Err(e),
        },
        None => Ok(None),
    }
}

/// Reads a bytes warning level where the document gives one.
fn read_bytes_warning(token: &Option<String>) -> (r: Result<Option<BytesWarning>, String>)
    ensures
        match r {
            Ok(v) => match token {
                Some(t) => v is Some && BytesWarning::spec_parse(t@) == v,
                None => v is None,
            },
            Err(e) => match token {
                Some(t) => BytesWarning::spec_parse(t@) is None
                    && e@ == BytesWarning::rejection(t@),
                None => false,
            },
        },
{
    match token {
        Some(t) => match BytesWarning::parse(t.as_str()) {
            Ok(v) => Ok(Some(v)),
            Err(e) => Err(e),
        },
        None => Ok(None),
    }
}

/// Reads a `.pyc` validation mode where the document gives one.
fn read_check_hash_pycs_mode(token: &Option<String>) -> (r: Result<
    Option<CheckHashPycsMode>,
    String,
>)
    ensures
        match r {
            Ok(v) => match token {
                Some(t) => v is Some && CheckHashPycsMode::spec_parse(t@) == v,
                None => v is None,
            },
            Err(e) => match token {
                Some(t) => CheckHashPycsMode::spec_parse(t@) is None
                    && e@ == CheckHashPycsMode::rejection(t@),
                None => false,
            },
        },
{
    match token {
        Some(t) => match CheckHashPycsMode::parse(t.as_str()) {
            Ok(v) => Ok(Some(v)),
            Err(e) => Err(e),
        },
        None => Ok(None),
    }
}

/// Reads an optimization level where the document gives its number.
fn read_optimization_level(code: &Option<i32>) -> (r: Result<
    Option<BytecodeOptimizationLevel>,
    String,
>)
    ensures
        match r {
            Ok(v) => match code {
                Some(c) => v is Some && BytecodeOptimizationLevel::spec_from_code(*c as int) == v,
                None => v is None,
            },
            Err(e) => match code {
                Some(c) => BytecodeOptimizationLevel::spec_from_code(*c as int) is None
                    && e@ == BytecodeOptimizationLevel::rejection(*c as int),
                None => false,
            },
        },
{
    match code {
        Some(c) => match BytecodeOptimizationLevel::from_code(*c) {
            Ok(v) => Ok(Some(v)),
            Err(e) => Err(e),
        },
        None => Ok(None),
    }
}

/// The first of two optional values that is there.
fn first_some<T>(first: Option<T>, second: Option<T>) -> (r: Option<T>)
    ensures
        r == if first is Some {
            first
        } else {
            second
        },
{
    if first.is_some() {
        first
    } else {
        second
    }
}

/// What the tokens and numbers of a valid document stand for.
struct Typed {
    profile: Option<PythonInterpreterProfile>,
    allocator: Option<Allocator>,
    coerce_c_locale: Option<CoerceCLocale>,
    bytes_warning: Option<BytesWarning>,
    check_hash_pycs_mode: Option<CheckHashPycsMode>,
    optimization_level: Option<BytecodeOptimizationLevel>,
}

impl ConfigDocument {
    /// The document that mentions no field.
    pub open spec fn spec_empty() -> Self {
        ConfigDocument {
            profile: None,
            allocator: None,
            configure_locale: None,
            coerce_c_locale: None,
            coerce_c_locale_warn: None,
            development_mode: None,
            isolated: None,
            legacy_windows_fs_encoding: None,
            parse_argv: None,
            use_environment: None,
            utf8_mode: None,
            argv: None,
            base_exec_prefix: None,
            base_executable: None,
            base_prefix: None,
            buffered_stdio: None,
            bytes_warning: None,
            check_hash_pycs_mode: None,
            configure_c_stdio: None,
            dump_refs: None,
            exec_prefix: None,
            executable: None,
            fault_handler: None,
            filesystem_encoding: None,
            filesystem_errors: None,
            hash_seed: None,
            home: None,
            import_time: None,
            inspect: None,
            install_signal_handlers: None,
            interactive: None,
            legacy_windows_stdio: None,
            malloc_stats: None,
            module_search_paths: None,
            optimization_level: None,
            parser_debug: None,
            pathconfig_warnings: None,
            prefix: None,
            program_name: None,
            pycache_prefix: None,
            python_path_env: None,
            quiet: None,
            run_command: None,
            run_filename: None,
            run_module: None,
            show_ref_count: None,
            site_import: None,
            skip_first_source_line: None,
            stdio_encoding: None,
            stdio_errors: None,
            tracemalloc: None,
            user_site_directory: None,
            verbose: None,
            warn_options: None,
            write_bytecode: None,
            x_options: None,
        }
    }

    /// Whether the document gives a field a value.
    pub open spec fn mentions(self, field: Field) -> bool {
        match field {
            Field::Allocator => self.allocator is Some,
            Field::ConfigureLocale => self.configure_locale is Some,
            Field::CoerceCLocale => self.coerce_c_locale is Some,
            Field::CoerceCLocaleWarn => self.coerce_c_locale_warn is Some,
            Field::DevelopmentMode => self.development_mode is Some,
            Field::Isolated => self.isolated is Some,
            Field::LegacyWindowsFsEncoding => self.legacy_windows_fs_encoding is Some,
            Field::ParseArgv => self.parse_argv is Some,
            Field::UseEnvironment => self.use_environment is Some,
            Field::Utf8Mode => self.utf8_mode is Some,
            Field::Argv => self.argv is Some,
            Field::BaseExecPrefix => self.base_exec_prefix is Some,
            Field::BaseExecutable => self.base_executable is Some,
            Field::BasePrefix => self.base_prefix is Some,
            Field::BufferedStdio => self.buffered_stdio is Some,
            Field::BytesWarning => self.bytes_warning is Some,
            Field::CheckHashPycsMode => self.check_hash_pycs_mode is Some,
            Field::ConfigureCStdio => self.configure_c_stdio is Some,
            Field::DumpRefs => self.dump_refs is Some,
            Field::ExecPrefix => self.exec_prefix is Some,
            Field::Executable => self.executable is Some,
            Field::FaultHandler => self.fault_handler is Some,
            Field::FilesystemEncoding => self.filesystem_encoding is Some,
            Field::FilesystemErrors => self.filesystem_errors is Some,
            Field::HashSeed => self.hash_seed is Some,
            Field::Home => self.home is Some,
            Field::ImportTime => self.import_time is Some,
            Field::Inspect => self.inspect is Some,
            Field::InstallSignalHandlers => self.install_signal_handlers is Some,
            Field::Interactive => self.interactive is Some,
            Field::LegacyWindowsStdio => self.legacy_windows_stdio is Some,
            Field::MallocStats => self.malloc_stats is Some,
            Field::ModuleSearchPaths => self.module_search_paths is Some,
            Field::OptimizationLevel => self.optimization_level is Some,
            Field::ParserDebug => self.parser_debug is Some,
            Field::PathconfigWarnings => self.pathconfig_warnings is Some,
            Field::Prefix => self.prefix is Some,
            Field::ProgramName => self.program_name is Some,
            Field::PycachePrefix => self.pycache_prefix is Some,
            Field::PythonPathEnv => self.python_path_env is Some,
            Field::Quiet => self.quiet is Some,
            Field::RunCommand => self.run_command is Some,
            Field::RunFilename => self.run_filename is Some,
            Field::RunModule => self.run_module is Some,
            Field::ShowRefCount => self.show_ref_count is Some,
            Field::SiteImport => self.site_import is Some,
            Field::SkipFirstSourceLine => self.skip_first_source_line is Some,
            Field::StdioEncoding => self.stdio_encoding is Some,
            Field::StdioErrors => self.stdio_errors is Some,
            Field::Tracemalloc => self.tracemalloc is Some,
            Field::UserSiteDirectory => self.user_site_directory is Some,
            Field::Verbose => self.verbose is Some,
            Field::WarnOptions => self.warn_options is Some,
            Field::WriteBytecode => self.write_bytecode is Some,
            Field::XOptions => self.x_options is Some,
        }
    }

    /// The rejection of what the document gives `profile`, if that is invalid.
    pub open spec fn profile_fault(self) -> Option<Seq<char>> {
        match self.profile {
            Some(t) => if PythonInterpreterProfile::spec_parse(t@) is None {
                Some(PythonInterpreterProfile::rejection(t@))
            } else {
                None
            },
            None => None,
        }
    }

    /// The rejection of what the document gives `allocator`, if that is invalid.
    pub open spec fn allocator_fault(self) -> Option<Seq<char>> {
        match self.allocator {
            Some(t) => if Allocator::spec_parse(t@) is None {
                Some(Allocator::rejection(t@))
            } else {
                None
            },
            None => None,
        }
    }

    /// The rejection of what the document gives `coerce_c_locale`, if that is invalid.
    pub open spec fn coerce_c_locale_fault(self) -> Option<Seq<char>> {
        match self.coerce_c_locale {
            Some(t) => if CoerceCLocale::spec_parse(t@) is None {
                Some(CoerceCLocale::rejection(t@))
            } else {
                None
            },
            None => None,
        }
    }

    /// The rejection of what the document gives `bytes_warning`, if that is invalid.
    pub open spec fn bytes_warning_fault(self) -> Option<Seq<char>> {
        match self.bytes_warning {
            Some(t) => if BytesWarning::spec_parse(t@) is None {
                Some(BytesWarning::rejection(t@))
            } else {
                None
            },
            None => None,
        }
    }

    /// The rejection of what the document gives `check_hash_pycs_mode`, if that is invalid.
    pub open spec fn check_hash_pycs_mode_fault(self) -> Option<Seq<char>> {
        match self.check_hash_pycs_mode {
            Some(t) => if CheckHashPycsMode::spec_parse(t@) is None {
                Some(CheckHashPycsMode::rejection(t@))
            } else {
                None
            },
            None => None,
        }
    }

    /// The rejection of what the document gives `optimization_level`, if that is invalid.
    pub open spec fn optimization_level_fault(self) -> Option<Seq<char>> {
        match self.optimization_level {
            Some(c) => if BytecodeOptimizationLevel::spec_from_code(c as int) is None {
                Some(BytecodeOptimizationLevel::rejection(c as int))
            } else {
                None
            },
            None => None,
        }
    }

    /// What is wrong with the document: the rejection of its first invalid
    /// value, in the order of the record's fields, or `None` where every
    /// value is valid.
    pub open spec fn fault(self) -> Option<Seq<char>> {
        if self.profile_fault() is Some {
            self.profile_fault()
        } else if self.allocator_fault() is Some {
            self.allocator_fault()
        } else if self.coerce_c_locale_fault() is Some {
            self.coerce_c_locale_fault()
        } else if self.bytes_warning_fault() is Some {
            self.bytes_warning_fault()
        } else if self.check_hash_pycs_mode_fault() is Some {
            self.check_hash_pycs_mode_fault()
        } else if self.optimization_level_fault() is Some {
            self.optimization_level_fault()
        } else {
            None
        }
    }

    /// The value that the document gives `profile`: `None` where it gives
    /// none, or a token that names no value.
    pub open spec fn typed_profile(self) -> Option<PythonInterpreterProfile> {
        match self.profile {
            Some(t) => PythonInterpreterProfile::spec_parse(t@),
            None => None,
        }
    }

    /// The value that the document gives `allocator`: `None` where it gives
    /// none, or a token that names no value.
    pub open spec fn typed_allocator(self) -> Option<Allocator> {
        match self.allocator {
            Some(t) => Allocator::spec_parse(t@),
            None => None,
        }
    }

    /// The value that the document gives `coerce_c_locale`: `None` where it gives
    /// none, or a token that names no value.
    pub open spec fn typed_coerce_c_locale(self) -> Option<CoerceCLocale> {
        match self.coerce_c_locale {
            Some(t) => CoerceCLocale::spec_parse(t@),
            None => None,
        }
    }

    /// The value that the document gives `bytes_warning`: `None` where it gives
    /// none, or a token that names no value.
    pub open spec fn typed_bytes_warning(self) -> Option<BytesWarning> {
        match self.bytes_warning {
            Some(t) => BytesWarning::spec_parse(t@),
            None => None,
        }
    }

    /// The value that the document gives `check_hash_pycs_mode`: `None` where it gives
    /// none, or a token that names no value.
    pub open spec fn typed_check_hash_pycs_mode(self) -> Option<CheckHashPycsMode> {
        match self.check_hash_pycs_mode {
            Some(t) => CheckHashPycsMode::spec_parse(t@),
            None => None,
        }
    }

    /// The level that the document gives `optimization_level`: `None` where it gives
    /// none, or a number that names no level.
    pub open spec fn typed_optimization_level(self) -> Option<BytecodeOptimizationLevel> {
        match self.optimization_level {
            Some(c) => BytecodeOptimizationLevel::spec_from_code(c as int),
            None => None,
        }
    }

    /// What the tokens and numbers of the document stand for.
    spec fn typed(self) -> Typed {
        Typed {
            profile: self.typed_profile(),
            allocator: self.typed_allocator(),
            coerce_c_locale: self.typed_coerce_c_locale(),
            bytes_warning: self.typed_bytes_warning(),
            check_hash_pycs_mode: self.typed_check_hash_pycs_mode(),
            optimization_level: self.typed_optimization_level(),
        }
    }

    /// Whether the document describes a record: it names the record's
    /// profile by its token, gives each set field its value, as a token or a
    /// number where the field is read from one, and mentions no unset field.
    pub open spec fn describes(self, c: PythonInterpreterConfig) -> bool {
        &&& self.profile matches Some(t) && t@ == c.profile.token()
        &&& match c.allocator {
            Some(v) => self.allocator matches Some(t) && t@ == v.token(),
            None => self.allocator is None,
        }
        &&& self.configure_locale == c.configure_locale
        &&& match c.coerce_c_locale {
            Some(v) => self.coerce_c_locale matches Some(t) && t@ == v.token(),
            None => self.coerce_c_locale is None,
        }
        &&& self.coerce_c_locale_warn == c.coerce_c_locale_warn
        &&& self.development_mode == c.development_mode
        &&& self.isolated == c.isolated
        &&& self.legacy_windows_fs_encoding == c.legacy_windows_fs_encoding
        &&& self.parse_argv == c.parse_argv
        &&& self.use_environment == c.use_environment
        &&& self.utf8_mode == c.utf8_mode
        &&& self.argv == c.argv
        &&& self.base_exec_prefix == c.base_exec_prefix
        &&& self.base_executable == c.base_executable
        &&& self.base_prefix == c.base_prefix
        &&& self.buffered_stdio == c.buffered_stdio
        &&& match c.bytes_warning {
            Some(v) => self.bytes_warning matches Some(t) && t@ == v.token(),
            None => self.bytes_warning is None,
        }
        &&& match c.check_hash_pycs_mode {
            Some(v) => self.check_hash_pycs_mode matches Some(t) && t@ == v.token(),
            None => self.check_hash_pycs_mode is None,
        }
        &&& self.configure_c_stdio == c.configure_c_stdio
        &&& self.dump_refs == c.dump_refs
        &&& self.exec_prefix == c.exec_prefix
        &&& self.executable == c.executable
        &&& self.fault_handler == c.fault_handler
        &&& self.filesystem_encoding == c.filesystem_encoding
        &&& self.filesystem_errors == c.filesystem_errors
        &&& self.hash_seed == c.hash_seed
        &&& self.home == c.home
        &&& self.import_time == c.import_time
        &&& self.inspect == c.inspect
        &&& self.install_signal_handlers == c.install_signal_handlers
        &&& self.interactive == c.interactive
        &&& self.legacy_windows_stdio == c.legacy_windows_stdio
        &&& self.malloc_stats == c.malloc_stats
        &&& self.module_search_paths == c.module_search_paths
        &&& match c.optimization_level {
            Some(v) => self.optimization_level matches Some(n) && n == v.code(),
            None => self.optimization_level is None,
        }
        &&& self.parser_debug == c.parser_debug
        &&& self.pathconfig_warnings == c.pathconfig_warnings
        &&& self.prefix == c.prefix
        &&& self.program_name == c.program_name
        &&& self.pycache_prefix == c.pycache_prefix
        &&& self.python_path_env == c.python_path_env
        &&& self.quiet == c.quiet
        &&& self.run_command == c.run_command
        &&& self.run_filename == c.run_filename
        &&& self.run_module == c.run_module
        &&& self.show_ref_count == c.show_ref_count
        &&& self.site_import == c.site_import
        &&& self.skip_first_source_line == c.skip_first_source_line
        &&& self.stdio_encoding == c.stdio_encoding
        &&& self.stdio_errors == c.stdio_errors
        &&& self.tracemalloc == c.tracemalloc
        &&& self.user_site_directory == c.user_site_directory
        &&& self.verbose == c.verbose
        &&& self.warn_options == c.warn_options
        &&& self.write_bytecode == c.write_bytecode
        &&& self.x_options == c.x_options
    }

    /// Reads every token and number of the document, in the order of the
    /// record's fields, and stops at the first that is invalid.
    fn read(&self) -> (r: Result<Typed, String>)
        ensures
            match r {
                Ok(typed) => self.fault() is None && typed == self.typed(),
                Err(e) => self.fault() == Some(e@),
            },
    {
        let profile = match read_profile(&self.profile) {
            Ok(v) => v,
            Err(e) => {
                return Err(e);
            },
        };
        let allocator = match read_allocator(&self.allocator) {
            Ok(v) => v,
            Err(e) => {
                return Err(e);
            },
        };
        let coerce_c_locale = match read_coerce_c_locale(&self.coerce_c_locale) {
            Ok(v) => v,
            Err(e) => {
                return Err(e);
            },
        };
        let bytes_warning = match read_bytes_warning(&self.bytes_warning) {
            Ok(v) => v,
            Err(e) => {
                return Err(e);
            },
        };
        let check_hash_pycs_mode = match read_check_hash_pycs_mode(&self.check_hash_pycs_mode) {
            Ok(v) => v,
            Err(e) => {
                return Err(e);
            },
        };
        let optimization_level = match read_optimization_level(&self.optimization_level) {
            Ok(v) => v,
            Err(e) => {
                return Err(e);
            },
        };
        Ok(Typed {
            profile,
            allocator,
            coerce_c_locale,
            bytes_warning,
            check_hash_pycs_mode,
            optimization_level,
        })
    }

    /// Checks the document: `Ok` where every token and number in it is valid,
    /// else the rejection of the first that is not.
    pub fn validate(&self) -> (r: Result<(), String>)
        ensures
            match r {
                Ok(()) => self.fault() is None,
                Err(e) => self.fault() == Some(e@),
            },
    {
        match self.read() {
            Ok(_) => Ok(()),
            Err(e) => Err(e),
        }
    }

    /// A document that describes a record reads back as the record's typed
    /// values, and holds nothing invalid.
    proof fn lemma_describes_typed(doc: Self, c: PythonInterpreterConfig)
        requires
            doc.describes(c),
        ensures
            doc.typed_profile() == Some(c.profile),
            doc.typed_allocator() == c.allocator,
            doc.typed_coerce_c_locale() == c.coerce_c_locale,
            doc.typed_bytes_warning() == c.bytes_warning,
            doc.typed_check_hash_pycs_mode() == c.check_hash_pycs_mode,
            doc.typed_optimization_level() == c.optimization_level,
            doc.profile_fault() is None,
            doc.allocator_fault() is None,
            doc.coerce_c_locale_fault() is None,
            doc.bytes_warning_fault() is None,
            doc.check_hash_pycs_mode_fault() is None,
            doc.optimization_level_fault() is None,
    {
        PythonInterpreterProfile::lemma_parse_token(c.profile);
        if let Some(v) = c.allocator {
            Allocator::lemma_parse_token(v);
        }
        if let Some(v) = c.coerce_c_locale {
            CoerceCLocale::lemma_parse_token(v);
        }
        if let Some(v) = c.bytes_warning {
            BytesWarning::lemma_parse_token(v);
        }
        if let Some(v) = c.check_hash_pycs_mode {
            CheckHashPycsMode::lemma_parse_token(v);
        }
        if let Some(v) = c.optimization_level {
            BytecodeOptimizationLevel::lemma_from_code_of_code(v);
        }
    }

    /// Round trip: a document that describes a record is valid, and laid
    /// over a fresh record it gives the described record back. A field that
    /// was unset comes back unset.
    pub proof fn lemma_describes_round_trip(doc: Self, c: PythonInterpreterConfig)
        requires
            doc.describes(c),
        ensures
            doc.fault() is None,
            forall|profile: PythonInterpreterProfile|
                PythonInterpreterConfig::spec_new(profile).overlaid(doc) == c,
    {
        Self::lemma_describes_typed(doc, c);
        assert forall|profile: PythonInterpreterProfile|
            PythonInterpreterConfig::spec_new(profile).overlaid(doc) == c by {
            let r = PythonInterpreterConfig::spec_new(profile).overlaid(doc);
            assert(r.profile == c.profile);
            assert(r.allocator == c.allocator);
            assert(r.configure_locale == c.configure_locale);
            assert(r.coerce_c_locale == c.coerce_c_locale);
            assert(r.coerce_c_locale_warn == c.coerce_c_locale_warn);
            assert(r.development_mode == c.development_mode);
            assert(r.isolated == c.isolated);
            assert(r.legacy_windows_fs_encoding == c.legacy_windows_fs_encoding);
            assert(r.parse_argv == c.parse_argv);
            assert(r.use_environment == c.use_environment);
            assert(r.utf8_mode == c.utf8_mode);
            assert(r.argv == c.argv);
            assert(r.base_exec_prefix == c.base_exec_prefix);
            assert(r.base_executable == c.base_executable);
            assert(r.base_prefix == c.base_prefix);
            assert(r.buffered_stdio == c.buffered_stdio);
            assert(r.bytes_warning == c.bytes_warning);
            assert(r.check_hash_pycs_mode == c.check_hash_pycs_mode);
            assert(r.configure_c_stdio == c.configure_c_stdio);
            assert(r.dump_refs == c.dump_refs);
            assert(r.exec_prefix == c.exec_prefix);
            assert(r.executable == c.executable);
            assert(r.fault_handler == c.fault_handler);
            assert(r.filesystem_encoding == c.filesystem_encoding);
            assert(r.filesystem_errors == c.filesystem_errors);
            assert(r.hash_seed == c.hash_seed);
            assert(r.home == c.home);
            assert(r.import_time == c.import_time);
            assert(r.inspect == c.inspect);
            assert(r.install_signal_handlers == c.install_signal_handlers);
            assert(r.interactive == c.interactive);
            assert(r.legacy_windows_stdio == c.legacy_windows_stdio);
            assert(r.malloc_stats == c.malloc_stats);
            assert(r.module_search_paths == c.module_search_paths);
            assert(r.optimization_level == c.optimization_level);
            assert(r.parser_debug == c.parser_debug);
            assert(r.pathconfig_warnings == c.pathconfig_warnings);
            assert(r.prefix == c.prefix);
            assert(r.program_name == c.program_name);
            assert(r.pycache_prefix == c.pycache_prefix);
            assert(r.python_path_env == c.python_path_env);
            assert(r.quiet == c.quiet);
            assert(r.run_command == c.run_command);
            assert(r.run_filename == c.run_filename);
            assert(r.run_module == c.run_module);
            assert(r.show_ref_count == c.show_ref_count);
            assert(r.site_import == c.site_import);
            assert(r.skip_first_source_line == c.skip_first_source_line);
            assert(r.stdio_encoding == c.stdio_encoding);
            assert(r.stdio_errors == c.stdio_errors);
            assert(r.tracemalloc == c.tracemalloc);
            assert(r.user_site_directory == c.user_site_directory);
            assert(r.verbose == c.verbose);
            assert(r.warn_options == c.warn_options);
            assert(r.write_bytecode == c.write_bytecode);
            assert(r.x_options == c.x_options);
        }
    }

    /// A document that describes a record mentions exactly its set fields.
    pub proof fn lemma_describes_mentions(doc: Self, c: PythonInterpreterConfig, f: Field)
        requires
            doc.describes(c),
        ensures
            doc.mentions(f) == c.lookup(f) is Some,
    {
        match f {
            Field::Allocator => {
                assert(doc.allocator is Some == c.allocator is Some);
            },
            Field::ConfigureLocale => {
                assert(doc.configure_locale is Some == c.configure_locale is Some);
            },
            Field::CoerceCLocale => {
                assert(doc.coerce_c_locale is Some == c.coerce_c_locale is Some);
            },
            Field::CoerceCLocaleWarn => {
                assert(doc.coerce_c_locale_warn is Some == c.coerce_c_locale_warn is Some);
            },
            Field::DevelopmentMode => {
                assert(doc.development_mode is Some == c.development_mode is Some);
            },
            Field::Isolated => {
                assert(doc.isolated is Some == c.isolated is Some);
            },
            Field::LegacyWindowsFsEncoding => {
                assert(doc.legacy_windows_fs_encoding is Some
                    == c.legacy_windows_fs_encoding is Some);
            },
            Field::ParseArgv => {
                assert(doc.parse_argv is Some == c.parse_argv is Some);
            },
            Field::UseEnvironment => {
                assert(doc.use_environment is Some == c.use_environment is Some);
            },
            Field::Utf8Mode => {
                assert(doc.utf8_mode is Some == c.utf8_mode is Some);
            },
            Field::Argv => {
                assert(doc.argv is Some == c.argv is Some);
            },
            Field::BaseExecPrefix => {
                assert(doc.base_exec_prefix is Some == c.base_exec_prefix is Some);
            },
            Field::BaseExecutable => {
                assert(doc.base_executable is Some == c.base_executable is Some);
            },
            Field::BasePrefix => {
                assert(doc.base_prefix is Some == c.base_prefix is Some);
            },
            Field::BufferedStdio => {
                assert(doc.buffered_stdio is Some == c.buffered_stdio is Some);
            },
            Field::BytesWarning => {
                assert(doc.bytes_warning is Some == c.bytes_warning is Some);
            },
            Field::CheckHashPycsMode => {
                assert(doc.check_hash_pycs_mode is Some == c.check_hash_pycs_mode is Some);
            },
            Field::ConfigureCStdio => {
                assert(doc.configure_c_stdio is Some == c.configure_c_stdio is Some);
            },
            Field::DumpRefs => {
                assert(doc.dump_refs is Some == c.dump_refs is Some);
            },
            Field::ExecPrefix => {
                assert(doc.exec_prefix is Some == c.exec_prefix is Some);
            },
            Field::Executable => {
                assert(doc.executable is Some == c.executable is Some);
            },
            Field::FaultHandler => {
                assert(doc.fault_handler is Some == c.fault_handler is Some);
            },
            Field::FilesystemEncoding => {
                assert(doc.filesystem_encoding is Some == c.filesystem_encoding is Some);
            },
            Field::FilesystemErrors => {
                assert(doc.filesystem_errors is Some == c.filesystem_errors is Some);
            },
            Field::HashSeed => {
                assert(doc.hash_seed is Some == c.hash_seed is Some);
            },
            Field::Home => {
                assert(doc.home is Some == c.home is Some);
            },
            Field::ImportTime => {
                assert(doc.import_time is Some == c.import_time is Some);
            },
            Field::Inspect => {
                assert(doc.inspect is Some == c.inspect is Some);
            },
            Field::InstallSignalHandlers => {
                assert(doc.install_signal_handlers is Some == c.install_signal_handlers is Some);
            },
            Field::Interactive => {
                assert(doc.interactive is Some == c.interactive is Some);
            },
            Field::LegacyWindowsStdio => {
                assert(doc.legacy_windows_stdio is Some == c.legacy_windows_stdio is Some);
            },
            Field::MallocStats => {
                assert(doc.malloc_stats is Some == c.malloc_stats is Some);
            },
            Field::ModuleSearchPaths => {
                assert(doc.module_search_paths is Some == c.module_search_paths is Some);
            },
            Field::OptimizationLevel => {
                assert(doc.optimization_level is Some == c.optimization_level is Some);
            },
            Field::ParserDebug => {
                assert(doc.parser_debug is Some == c.parser_debug is Some);
            },
            Field::PathconfigWarnings => {
                assert(doc.pathconfig_warnings is Some == c.pathconfig_warnings is Some);
            },
            Field::Prefix => {
                assert(doc.prefix is Some == c.prefix is Some);
            },
            Field::ProgramName => {
                assert(doc.program_name is Some == c.program_name is Some);
            },
            Field::PycachePrefix => {
                assert(doc.pycache_prefix is Some == c.pycache_prefix is Some);
            },
            Field::PythonPathEnv => {
                assert(doc.python_path_env is Some == c.python_path_env is Some);
            },
            Field::Quiet => {
                assert(doc.quiet is Some == c.quiet is Some);
            },
            Field::RunCommand => {
                assert(doc.run_command is Some == c.run_command is Some);
            },
            Field::RunFilename => {
                assert(doc.run_filename is Some == c.run_filename is Some);
            },
            Field::RunModule => {
                assert(doc.run_module is Some == c.run_module is Some);
            },
            Field::ShowRefCount => {
                assert(doc.show_ref_count is Some == c.show_ref_count is Some);
            },
            Field::SiteImport => {
                assert(doc.site_import is Some == c.site_import is Some);
            },
            Field::SkipFirstSourceLine => {
                assert(doc.skip_first_source_line is Some == c.skip_first_source_line is Some);
            },
            Field::StdioEncoding => {
                assert(doc.stdio_encoding is Some == c.stdio_encoding is Some);
            },
            Field::StdioErrors => {
                assert(doc.stdio_errors is Some == c.stdio_errors is Some);
            },
            Field::Tracemalloc => {
                assert(doc.tracemalloc is Some == c.tracemalloc is Some);
            },
            Field::UserSiteDirectory => {
                assert(doc.user_site_directory is Some == c.user_site_directory is Some);
            },
            Field::Verbose => {
                assert(doc.verbose is Some == c.verbose is Some);
            },
            Field::WarnOptions => {
                assert(doc.warn_options is Some == c.warn_options is Some);
            },
            Field::WriteBytecode => {
                assert(doc.write_bytecode is Some == c.write_bytecode is Some);
            },
            Field::XOptions => {
                assert(doc.x_options is Some == c.x_options is Some);
            },
        }
    }

    /// The document that mentions no field.
    pub fn empty() -> (r: Self)
        ensures
            r == Self::spec_empty(),
    {
        ConfigDocument {
            profile: None,
            allocator: None,
            configure_locale: None,
            coerce_c_locale: None,
            coerce_c_locale_warn: None,
            development_mode: None,
            isolated: None,
            legacy_windows_fs_encoding: None,
            parse_argv: None,
            use_environment: None,
            utf8_mode: None,
            argv: None,
            base_exec_prefix: None,
            base_executable: None,
            base_prefix: None,
            buffered_stdio: None,
            bytes_warning: None,
            check_hash_pycs_mode: None,
            configure_c_stdio: None,
            dump_refs: None,
            exec_prefix: None,
            executable: None,
            fault_handler: None,
            filesystem_encoding: None,
            filesystem_errors: None,
            hash_seed: None,
            home: None,
            import_time: None,
            inspect: None,
            install_signal_handlers: None,
            interactive: None,
            legacy_windows_stdio: None,
            malloc_stats: None,
            module_search_paths: None,
            optimization_level: None,
            parser_debug: None,
            pathconfig_warnings: None,
            prefix: None,
            program_name: None,
            pycache_prefix: None,
            python_path_env: None,
            quiet: None,
            run_command: None,
            run_filename: None,
            run_module: None,
            show_ref_count: None,
            site_import: None,
            skip_first_source_line: None,
            stdio_encoding: None,
            stdio_errors: None,
            tracemalloc: None,
            user_site_directory: None,
            verbose: None,
            warn_options: None,
            write_bytecode: None,
            x_options: None,
        }
    }
}

impl Default for ConfigDocument {
    /// The document that mentions no field.
    fn default() -> (r: Self)
        ensures
            r == ConfigDocument::spec_empty(),
    {
        ConfigDocument::empty()
    }
}

impl PythonInterpreterConfig {
    /// The record after a valid document is laid over it: a field that the
    /// document mentions holds the document's value, read where it is a
    /// token or a number, and every other field holds what it held.
    pub open spec fn overlaid(self, doc: ConfigDocument) -> Self
        recommends
            doc.fault() is None,
    {
        PythonInterpreterConfig {
            profile: match doc.typed_profile() {
                Some(v) => v,
                None => self.profile,
            },
            allocator: if doc.typed_allocator() is Some {
                doc.typed_allocator()
            } else {
                self.allocator
            },
            configure_locale: if doc.configure_locale is Some {
                doc.configure_locale
            } else {
                self.configure_locale
            },
            coerce_c_locale: if doc.typed_coerce_c_locale() is Some {
                doc.typed_coerce_c_locale()
            } else {
                self.coerce_c_locale
            },
            coerce_c_locale_warn: if doc.coerce_c_locale_warn is Some {
                doc.coerce_c_locale_warn
            } else {
                self.coerce_c_locale_warn
            },
            development_mode: if doc.development_mode is Some {
                doc.development_mode
            } else {
                self.development_mode
            },
            isolated: if doc.isolated is Some {
                doc.isolated
            } else {
                self.isolated
            },
            legacy_windows_fs_encoding: if doc.legacy_windows_fs_encoding is Some {
                doc.legacy_windows_fs_encoding
            } else {
                self.legacy_windows_fs_encoding
            },
            parse_argv: if doc.parse_argv is Some {
                doc.parse_argv
            } else {
                self.parse_argv
            },
            use_environment: if doc.use_environment is Some {
                doc.use_environment
            } else {
                self.use_environment
            },
            utf8_mode: if doc.utf8_mode is Some {
                doc.utf8_mode
            } else {
                self.utf8_mode
            },
            argv: if doc.argv is Some {
                doc.argv
            } else {
                self.argv
            },
            base_exec_prefix: if doc.base_exec_prefix is Some {
                doc.base_exec_prefix
            } else {
                self.base_exec_prefix
            },
            base_executable: if doc.base_executable is Some {
                doc.base_executable
            } else {
                self.base_executable
            },
            base_prefix: if doc.base_prefix is Some {
                doc.base_prefix
            } else {
                self.base_prefix
            },
            buffered_stdio: if doc.buffered_stdio is Some {
                doc.buffered_stdio
            } else {
                self.buffered_stdio
            },
            bytes_warning: if doc.typed_bytes_warning() is Some {
                doc.typed_bytes_warning()
            } else {
                self.bytes_warning
            },
            check_hash_pycs_mode: if doc.typed_check_hash_pycs_mode() is Some {
                doc.typed_check_hash_pycs_mode()
            } else {
                self.check_hash_pycs_mode
            },
            configure_c_stdio: if doc.configure_c_stdio is Some {
                doc.configure_c_stdio
            } else {
                self.configure_c_stdio
            },
            dump_refs: if doc.dump_refs is Some {
                doc.dump_refs
            } else {
                self.dump_refs
            },
            exec_prefix: if doc.exec_prefix is Some {
                doc.exec_prefix
            } else {
                self.exec_prefix
            },
            executable: if doc.executable is Some {
                doc.executable
            } else {
                self.executable
            },
            fault_handler: if doc.fault_handler is Some {
                doc.fault_handler
            } else {
                self.fault_handler
            },
            filesystem_encoding: if doc.filesystem_encoding is Some {
                doc.filesystem_encoding
            } else {
                self.filesystem_encoding
            },
            filesystem_errors: if doc.filesystem_errors is Some {
                doc.filesystem_errors
            } else {
                self.filesystem_errors
            },
            hash_seed: if doc.hash_seed is Some {
                doc.hash_seed
            } else {
                self.hash_seed
            },
            home: if doc.home is Some {
                doc.home
            } else {
                self.home
            },
            import_time: if doc.import_time is Some {
                doc.import_time
            } else {
                self.import_time
            },
            inspect: if doc.inspect is Some {
                doc.inspect
            } else {
                self.inspect
            },
            install_signal_handlers: if doc.install_signal_handlers is Some {
                doc.install_signal_handlers
            } else {
                self.install_signal_handlers
            },
            interactive: if doc.interactive is Some {
                doc.interactive
            } else {
                self.interactive
            },
            legacy_windows_stdio: if doc.legacy_windows_stdio is Some {
                doc.legacy_windows_stdio
            } else {
                self.legacy_windows_stdio
            },
            malloc_stats: if doc.malloc_stats is Some {
                doc.malloc_stats
            } else {
                self.malloc_stats
            },
            module_search_paths: if doc.module_search_paths is Some {
                doc.module_search_paths
            } else {
                self.module_search_paths
            },
            optimization_level: if doc.typed_optimization_level() is Some {
                doc.typed_optimization_level()
            } else {
                self.optimization_level
            },
            parser_debug: if doc.parser_debug is Some {
                doc.parser_debug
            } else {
                self.parser_debug
            },
            pathconfig_warnings: if doc.pathconfig_warnings is Some {
                doc.pathconfig_warnings
            } else {
                self.pathconfig_warnings
            },
            prefix: if doc.prefix is Some {
                doc.prefix
            } else {
                self.prefix
            },
            program_name: if doc.program_name is Some {
                doc.program_name
            } else {
                self.program_name
            },
            pycache_prefix: if doc.pycache_prefix is Some {
                doc.pycache_prefix
            } else {
                self.pycache_prefix
            },
            python_path_env: if doc.python_path_env is Some {
                doc.python_path_env
            } else {
                self.python_path_env
            },
            quiet: if doc.quiet is Some {
                doc.quiet
            } else {
                self.quiet
            },
            run_command: if doc.run_command is Some {
                doc.run_command
            } else {
                self.run_command
            },
            run_filename: if doc.run_filename is Some {
                doc.run_filename
            } else {
                self.run_filename
            },
            run_module: if doc.run_module is Some {
                doc.run_module
            } else {
                self.run_module
            },
            show_ref_count: if doc.show_ref_count is Some {
                doc.show_ref_count
            } else {
                self.show_ref_count
            },
            site_import: if doc.site_import is Some {
                doc.site_import
            } else {
                self.site_import
            },
            skip_first_source_line: if doc.skip_first_source_line is Some {
                doc.skip_first_source_line
            } else {
                self.skip_first_source_line
            },
            stdio_encoding: if doc.stdio_encoding is Some {
                doc.stdio_encoding
            } else {
                self.stdio_encoding
            },
            stdio_errors: if doc.stdio_errors is Some {
                doc.stdio_errors
            } else {
                self.stdio_errors
            },
            tracemalloc: if doc.tracemalloc is Some {
                doc.tracemalloc
            } else {
                self.tracemalloc
            },
            user_site_directory: if doc.user_site_directory is Some {
                doc.user_site_directory
            } else {
                self.user_site_directory
            },
            verbose: if doc.verbose is Some {
                doc.verbose
            } else {
                self.verbose
            },
            warn_options: if doc.warn_options is Some {
                doc.warn_options
            } else {
                self.warn_options
            },
            write_bytecode: if doc.write_bytecode is Some {
                doc.write_bytecode
            } else {
                self.write_bytecode
            },
            x_options: if doc.x_options is Some {
                doc.x_options
            } else {
                self.x_options
            },
        }
    }

    /// The record with a valid document laid over it.
    fn overlay(self, doc: ConfigDocument, typed: Typed) -> (r: Self)
        requires
            typed == doc.typed(),
        ensures
            r == self.overlaid(doc),
    {
        PythonInterpreterConfig {
            profile: match typed.profile {
                Some(v) => v,
                None => self.profile,
            },
            allocator: first_some(typed.allocator, self.allocator),
            configure_locale: first_some(doc.configure_locale, self.configure_locale),
            coerce_c_locale: first_some(typed.coerce_c_locale, self.coerce_c_locale),
            coerce_c_locale_warn: first_some(doc.coerce_c_locale_warn, self.coerce_c_locale_warn),
            development_mode: first_some(doc.development_mode, self.development_mode),
            isolated: first_some(doc.isolated, self.isolated),
            legacy_windows_fs_encoding: first_some(
                doc.legacy_windows_fs_encoding,
                self.legacy_windows_fs_encoding,
            ),
            parse_argv: first_some(doc.parse_argv, self.parse_argv),
            use_environment: first_some(doc.use_environment, self.use_environment),
            utf8_mode: first_some(doc.utf8_mode, self.utf8_mode),
            argv: first_some(doc.argv, self.argv),
            base_exec_prefix: first_some(doc.base_exec_prefix, self.base_exec_prefix),
            base_executable: first_some(doc.base_executable, self.base_executable),
            base_prefix: first_some(doc.base_prefix, self.base_prefix),
            buffered_stdio: first_some(doc.buffered_stdio, self.buffered_stdio),
            bytes_warning: first_some(typed.bytes_warning, self.bytes_warning),
            check_hash_pycs_mode: first_some(typed.check_hash_pycs_mode, self.check_hash_pycs_mode),
            configure_c_stdio: first_some(doc.configure_c_stdio, self.configure_c_stdio),
            dump_refs: first_some(doc.dump_refs, self.dump_refs),
            exec_prefix: first_some(doc.exec_prefix, self.exec_prefix),
            executable: first_some(doc.executable, self.executable),
            fault_handler: first_some(doc.fault_handler, self.fault_handler),
            filesystem_encoding: first_some(doc.filesystem_encoding, self.filesystem_encoding),
            filesystem_errors: first_some(doc.filesystem_errors, self.filesystem_errors),
            hash_seed: first_some(doc.hash_seed, self.hash_seed),
            home: first_some(doc.home, self.home),
            import_time: first_some(doc.import_time, self.import_time),
            inspect: first_some(doc.inspect, self.inspect),
            install_signal_handlers: first_some(
                doc.install_signal_handlers,
                self.install_signal_handlers,
            ),
            interactive: first_some(doc.interactive, self.interactive),
            legacy_windows_stdio: first_some(doc.legacy_windows_stdio, self.legacy_windows_stdio),
            malloc_stats: first_some(doc.malloc_stats, self.malloc_stats),
            module_search_paths: first_some(doc.module_search_paths, self.module_search_paths),
            optimization_level: first_some(typed.optimization_level, self.optimization_level),
            parser_debug: first_some(doc.parser_debug, self.parser_debug),
            pathconfig_warnings: first_some(doc.pathconfig_warnings, self.pathconfig_warnings),
            prefix: first_some(doc.prefix, self.prefix),
            program_name: first_some(doc.program_name, self.program_name),
            pycache_prefix: first_some(doc.pycache_prefix, self.pycache_prefix),
            python_path_env: first_some(doc.python_path_env, self.python_path_env),
            quiet: first_some(doc.quiet, self.quiet),
            run_command: first_some(doc.run_command, self.run_command),
            run_filename: first_some(doc.run_filename, self.run_filename),
            run_module: first_some(doc.run_module, self.run_module),
            show_ref_count: first_some(doc.show_ref_count, self.show_ref_count),
            site_import: first_some(doc.site_import, self.site_import),
            skip_first_source_line: first_some(
                doc.skip_first_source_line,
                self.skip_first_source_line,
            ),
            stdio_encoding: first_some(doc.stdio_encoding, self.stdio_encoding),
            stdio_errors: first_some(doc.stdio_errors, self.stdio_errors),
            tracemalloc: first_some(doc.tracemalloc, self.tracemalloc),
            user_site_directory: first_some(doc.user_site_directory, self.user_site_directory),
            verbose: first_some(doc.verbose, self.verbose),
            warn_options: first_some(doc.warn_options, self.warn_options),
            write_bytecode: first_some(doc.write_bytecode, self.write_bytecode),
            x_options: first_some(doc.x_options, self.x_options),
        }
    }

    /// Lays a document over the record. This is all or nothing: where every
    /// token and number in the document is valid, each field that the
    /// document mentions takes the document's value; where one is not, the
    /// record stays exactly as it was and the first rejection comes back.
    pub fn populate(&mut self, doc: ConfigDocument) -> (r: Result<(), String>)
        ensures
            match r {
                Ok(()) => doc.fault() is None && *final(self) == old(self).overlaid(doc),
                Err(e) => doc.fault() == Some(e@) && *final(self) == *old(self),
            },
    {
        match doc.read() {
            Ok(typed) => {
                let mut current = PythonInterpreterConfig::new(PythonInterpreterProfile::Isolated);
                core::mem::swap(self, &mut current);
                *self = current.overlay(doc, typed);
                Ok(())
            },
            Err(e) => Err(e),
        }
    }

    /// The record that a document describes: the default record with the
    /// document laid over it, or the document's first rejection.
    pub fn from_document(doc: ConfigDocument) -> (r: Result<Self, String>)
        ensures
            match r {
                Ok(c) => doc.fault() is None && c == Self::spec_new(
                    PythonInterpreterProfile::Isolated,
                ).overlaid(doc),
                Err(e) => doc.fault() == Some(e@),
            },
    {
        let mut c = PythonInterpreterConfig::new(PythonInterpreterProfile::Isolated);
        match c.populate(doc) {
            Ok(()) => Ok(c),
            Err(e) => Err(e),
        }
    }

    /// The document that describes the record: it names the profile, mentions
    /// exactly the fields that are set, each with its value or the token of
    /// its value, and leaves every unset field out. Reading it back gives the
    /// record again, so what was unset stays unset.
    pub fn into_document(self) -> (doc: ConfigDocument)
        ensures
            doc.describes(self),
            doc.fault() is None,
            forall|f: Field| doc.mentions(f) == self.lookup(f) is Some,
            Self::spec_new(PythonInterpreterProfile::Isolated).overlaid(doc) == self,
    {
        let doc = ConfigDocument {
            profile: Some(self.profile.to_string()),
            allocator: match self.allocator {
                Some(v) => Some(v.to_string()),
                None => None,
            },
            configure_locale: self.configure_locale,
            coerce_c_locale: match self.coerce_c_locale {
                Some(v) => Some(v.to_string()),
                None => None,
            },
            coerce_c_locale_warn: self.coerce_c_locale_warn,
            development_mode: self.development_mode,
            isolated: self.isolated,
            legacy_windows_fs_encoding: self.legacy_windows_fs_encoding,
            parse_argv: self.parse_argv,
            use_environment: self.use_environment,
            utf8_mode: self.utf8_mode,
            argv: self.argv,
            base_exec_prefix: self.base_exec_prefix,
            base_executable: self.base_executable,
            base_prefix: self.base_prefix,
            buffered_stdio: self.buffered_stdio,
            bytes_warning: match self.bytes_warning {
                Some(v) => Some(v.to_string()),
                None => None,
            },
            check_hash_pycs_mode: match self.check_hash_pycs_mode {
                Some(v) => Some(v.to_string()),
                None => None,
            },
            configure_c_stdio: self.configure_c_stdio,
            dump_refs: self.dump_refs,
            exec_prefix: self.exec_prefix,
            executable: self.executable,
            fault_handler: self.fault_handler,
            filesystem_encoding: self.filesystem_encoding,
            filesystem_errors: self.filesystem_errors,
            hash_seed: self.hash_seed,
            home: self.home,
            import_time: self.import_time,
            inspect: self.inspect,
            install_signal_handlers: self.install_signal_handlers,
            interactive: self.interactive,
            legacy_windows_stdio: self.legacy_windows_stdio,
            malloc_stats: self.malloc_stats,
            module_search_paths: self.module_search_paths,
            optimization_level: match self.optimization_level {
                Some(v) => Some(v.to_code()),
                None => None,
            },
            parser_debug: self.parser_debug,
            pathconfig_warnings: self.pathconfig_warnings,
            prefix: self.prefix,
            program_name: self.program_name,
            pycache_prefix: self.pycache_prefix,
            python_path_env: self.python_path_env,
            quiet: self.quiet,
            run_command: self.run_command,
            run_filename: self.run_filename,
            run_module: self.run_module,
            show_ref_count: self.show_ref_count,
            site_import: self.site_import,
            skip_first_source_line: self.skip_first_source_line,
            stdio_encoding: self.stdio_encoding,
            stdio_errors: self.stdio_errors,
            tracemalloc: self.tracemalloc,
            user_site_directory: self.user_site_directory,
            verbose: self.verbose,
            warn_options: self.warn_options,
            write_bytecode: self.write_bytecode,
            x_options: self.x_options,
        };
        proof {
            ConfigDocument::lemma_describes_round_trip(doc, self);
            assert forall|f: Field| doc.mentions(f) == self.lookup(f) is Some by {
                ConfigDocument::lemma_describes_mentions(doc, self, f);
            }
        }
        doc
    }

    /// Independence: a document changes no field that it does not mention,
    /// and keeps the profile where it names none.
    pub proof fn lemma_overlaid_keeps(c: Self, doc: ConfigDocument, f: Field)
        requires
            !doc.mentions(f),
        ensures
            c.overlaid(doc).lookup(f) == c.lookup(f),
            doc.profile is None ==> c.overlaid(doc).profile == c.profile,
    {
        let d = c.overlaid(doc);
        match f {
            Field::Allocator => {
                assert(d.allocator == c.allocator);
            },
            Field::ConfigureLocale => {
                assert(d.configure_locale == c.configure_locale);
            },
            Field::CoerceCLocale => {
                assert(d.coerce_c_locale == c.coerce_c_locale);
            },
            Field::CoerceCLocaleWarn => {
                assert(d.coerce_c_locale_warn == c.coerce_c_locale_warn);
            },
            Field::DevelopmentMode => {
                assert(d.development_mode == c.development_mode);
            },
            Field::Isolated => {
                assert(d.isolated == c.isolated);
            },
            Field::LegacyWindowsFsEncoding => {
                assert(d.legacy_windows_fs_encoding == c.legacy_windows_fs_encoding);
            },
            Field::ParseArgv => {
                assert(d.parse_argv == c.parse_argv);
            },
            Field::UseEnvironment => {
                assert(d.use_environment == c.use_environment);
            },
            Field::Utf8Mode => {
                assert(d.utf8_mode == c.utf8_mode);
            },
            Field::Argv => {
                assert(d.argv == c.argv);
            },
            Field::BaseExecPrefix => {
                assert(d.base_exec_prefix == c.base_exec_prefix);
            },
            Field::BaseExecutable => {
                assert(d.base_executable == c.base_executable);
            },
            Field::BasePrefix => {
                assert(d.base_prefix == c.base_prefix);
            },
            Field::BufferedStdio => {
                assert(d.buffered_stdio == c.buffered_stdio);
            },
            Field::BytesWarning => {
                assert(d.bytes_warning == c.bytes_warning);
            },
            Field::CheckHashPycsMode => {
                assert(d.check_hash_pycs_mode == c.check_hash_pycs_mode);
            },
            Field::ConfigureCStdio => {
                assert(d.configure_c_stdio == c.configure_c_stdio);
            },
            Field::DumpRefs => {
                assert(d.dump_refs == c.dump_refs);
            },
            Field::ExecPrefix => {
                assert(d.exec_prefix == c.exec_prefix);
            },
            Field::Executable => {
                assert(d.executable == c.executable);
            },
            Field::FaultHandler => {
                assert(d.fault_handler == c.fault_handler);
            },
            Field::FilesystemEncoding => {
                assert(d.filesystem_encoding == c.filesystem_encoding);
            },
            Field::FilesystemErrors => {
                assert(d.filesystem_errors == c.filesystem_errors);
            },
            Field::HashSeed => {
                assert(d.hash_seed == c.hash_seed);
            },
            Field::Home => {
                assert(d.home == c.home);
            },
            Field::ImportTime => {
                assert(d.import_time == c.import_time);
            },
            Field::Inspect => {
                assert(d.inspect == c.inspect);
            },
            Field::InstallSignalHandlers => {
                assert(d.install_signal_handlers == c.install_signal_handlers);
            },
            Field::Interactive => {
                assert(d.interactive == c.interactive);
            },
            Field::LegacyWindowsStdio => {
                assert(d.legacy_windows_stdio == c.legacy_windows_stdio);
            },
            Field::MallocStats => {
                assert(d.malloc_stats == c.malloc_stats);
            },
            Field::ModuleSearchPaths => {
                assert(d.module_search_paths == c.module_search_paths);
            },
            Field::OptimizationLevel => {
                assert(d.optimization_level == c.optimization_level);
            },
            Field::ParserDebug => {
                assert(d.parser_debug == c.parser_debug);
            },
            Field::PathconfigWarnings => {
                assert(d.pathconfig_warnings == c.pathconfig_warnings);
            },
            Field::Prefix => {
                assert(d.prefix == c.prefix);
            },
            Field::ProgramName => {
                assert(d.program_name == c.program_name);
            },
            Field::PycachePrefix => {
                assert(d.pycache_prefix == c.pycache_prefix);
            },
            Field::PythonPathEnv => {
                assert(d.python_path_env == c.python_path_env);
            },
            Field::Quiet => {
                assert(d.quiet == c.quiet);
            },
            Field::RunCommand => {
                assert(d.run_command == c.run_command);
            },
            Field::RunFilename => {
                assert(d.run_filename == c.run_filename);
            },
            Field::RunModule => {
                assert(d.run_module == c.run_module);
            },
            Field::ShowRefCount => {
                assert(d.show_ref_count == c.show_ref_count);
            },
            Field::SiteImport => {
                assert(d.site_import == c.site_import);
            },
            Field::SkipFirstSourceLine => {
                assert(d.skip_first_source_line == c.skip_first_source_line);
            },
            Field::StdioEncoding => {
                assert(d.stdio_encoding == c.stdio_encoding);
            },
            Field::StdioErrors => {
                assert(d.stdio_errors == c.stdio_errors);
            },
            Field::Tracemalloc => {
                assert(d.tracemalloc == c.tracemalloc);
            },
            Field::UserSiteDirectory => {
                assert(d.user_site_directory == c.user_site_directory);
            },
            Field::Verbose => {
                assert(d.verbose == c.verbose);
            },
            Field::WarnOptions => {
                assert(d.warn_options == c.warn_options);
            },
            Field::WriteBytecode => {
                assert(d.write_bytecode == c.write_bytecode);
            },
            Field::XOptions => {
                assert(d.x_options == c.x_options);
            },
        }
    }

    /// The empty document changes nothing.
    pub proof fn lemma_overlaid_empty(c: Self)
        ensures
            ConfigDocument::spec_empty().fault() is None,
            c.overlaid(ConfigDocument::spec_empty()) == c,
    {
    }
}

} // verus!
