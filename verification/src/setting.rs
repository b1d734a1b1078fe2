//! A typed value for one optional field of the configuration record.

use crate::allocator::Allocator;
use crate::bytecode::{BytecodeOptimizationLevel, CheckHashPycsMode};
use crate::field::Field;
use crate::locale::CoerceCLocale;
use crate::warning::BytesWarning;
use std::path::PathBuf;
use vstd::prelude::*;

verus! {

/// `std::path::PathBuf`, which the record carries without looking inside:
/// nothing is claimed of a path but that it is a value.
#[verifier::external_type_specification]
#[verifier::external_body]
pub struct ExPathBuf(PathBuf);

/// A field of the configuration record together with a value of the
/// field's own type. A setting is well typed by construction, so applying
/// one cannot fail.
#[derive(Debug, PartialEq)]
pub enum Setting {
    /// A value for `allocator`.
    Allocator(Allocator),
    /// A value for `configure_locale`.
    ConfigureLocale(bool),
    /// A value for `coerce_c_locale`.
    CoerceCLocale(CoerceCLocale),
    /// A value for `coerce_c_locale_warn`.
    CoerceCLocaleWarn(bool),
    /// A value for `development_mode`.
    DevelopmentMode(bool),
    /// A value for `isolated`.
    Isolated(bool),
    /// A value for `legacy_windows_fs_encoding`.
    LegacyWindowsFsEncoding(bool),
    /// A value for `parse_argv`.
    ParseArgv(bool),
    /// A value for `use_environment`.
    UseEnvironment(bool),
    /// A value for `utf8_mode`.
    Utf8Mode(bool),
    /// A value for `argv`.
    Argv(Vec<String>),
    /// A value for `base_exec_prefix`.
    BaseExecPrefix(PathBuf),
    /// A value for `base_executable`.
    BaseExecutable(PathBuf),
    /// A value for `base_prefix`.
    BasePrefix(PathBuf),
    /// A value for `buffered_stdio`.
    BufferedStdio(bool),
    /// A value for `bytes_warning`.
    BytesWarning(BytesWarning),
    /// A value for `check_hash_pycs_mode`.
    CheckHashPycsMode(CheckHashPycsMode),
    /// A value for `configure_c_stdio`.
    ConfigureCStdio(bool),
    /// A value for `dump_refs`.
    DumpRefs(bool),
    /// A value for `exec_prefix`.
    ExecPrefix(PathBuf),
    /// A value for `executable`.
    Executable(PathBuf),
    /// A value for `fault_handler`.
    FaultHandler(bool),
    /// A value for `filesystem_encoding`.
    FilesystemEncoding(String),
    /// A value for `filesystem_errors`.
    FilesystemErrors(String),
    /// A value for `hash_seed`.
    HashSeed(u64),
    /// A value for `home`.
    Home(PathBuf),
    /// A value for `import_time`.
    ImportTime(bool),
    /// A value for `inspect`.
    Inspect(bool),
    /// A value for `install_signal_handlers`.
    InstallSignalHandlers(bool),
    /// A value for `interactive`.
    Interactive(bool),
    /// A value for `legacy_windows_stdio`.
    LegacyWindowsStdio(bool),
    /// A value for `malloc_stats`.
    MallocStats(bool),
    /// A value for `module_search_paths`.
    ModuleSearchPaths(Vec<PathBuf>),
    /// A value for `optimization_level`.
    OptimizationLevel(BytecodeOptimizationLevel),
    /// A value for `parser_debug`.
    ParserDebug(bool),
    /// A value for `pathconfig_warnings`.
    PathconfigWarnings(bool),
    /// A value for `prefix`.
    Prefix(PathBuf),
    /// A value for `program_name`.
    ProgramName(PathBuf),
    /// A value for `pycache_prefix`.
    PycachePrefix(PathBuf),
    /// A value for `python_path_env`.
    PythonPathEnv(String),
    /// A value for `quiet`.
    Quiet(bool),
    /// A value for `run_command`.
    RunCommand(String),
    /// A value for `run_filename`.
    RunFilename(PathBuf),
    /// A value for `run_module`.
    RunModule(String),
    /// A value for `show_ref_count`.
    ShowRefCount(bool),
    /// A value for `site_import`.
    SiteImport(bool),
    /// A value for `skip_first_source_line`.
    SkipFirstSourceLine(bool),
    /// A value for `stdio_encoding`.
    StdioEncoding(String),
    /// A value for `stdio_errors`.
    StdioErrors(String),
    /// A value for `tracemalloc`.
    Tracemalloc(bool),
    /// A value for `user_site_directory`.
    UserSiteDirectory(bool),
    /// A value for `verbose`.
    Verbose(bool),
    /// A value for `warn_options`.
    WarnOptions(Vec<String>),
    /// A value for `write_bytecode`.
    WriteBytecode(bool),
    /// A value for `x_options`.
    XOptions(Vec<String>),
}

impl Setting {
    /// The field that a setting is for.
    pub open spec fn spec_field(self) -> Field {
        match self {
            Setting::Allocator(_) => Field::Allocator,
            Setting::ConfigureLocale(_) => Field::ConfigureLocale,
            Setting::CoerceCLocale(_) => Field::CoerceCLocale,
            Setting::CoerceCLocaleWarn(_) => Field::CoerceCLocaleWarn,
            Setting::DevelopmentMode(_) => Field::DevelopmentMode,
            Setting::Isolated(_) => Field::Isolated,
            Setting::LegacyWindowsFsEncoding(_) => Field::LegacyWindowsFsEncoding,
            Setting::ParseArgv(_) => Field::ParseArgv,
            Setting::UseEnvironment(_) => Field::UseEnvironment,
            Setting::Utf8Mode(_) => Field::Utf8Mode,
            Setting::Argv(_) => Field::Argv,
            Setting::BaseExecPrefix(_) => Field::BaseExecPrefix,
            Setting::BaseExecutable(_) => Field::BaseExecutable,
            Setting::BasePrefix(_) => Field::BasePrefix,
            Setting::BufferedStdio(_) => Field::BufferedStdio,
            Setting::BytesWarning(_) => Field::BytesWarning,
            Setting::CheckHashPycsMode(_) => Field::CheckHashPycsMode,
            Setting::ConfigureCStdio(_) => Field::ConfigureCStdio,
            Setting::DumpRefs(_) => Field::DumpRefs,
            Setting::ExecPrefix(_) => Field::ExecPrefix,
            Setting::Executable(_) => Field::Executable,
            Setting::FaultHandler(_) => Field::FaultHandler,
            Setting::FilesystemEncoding(_) => Field::FilesystemEncoding,
            Setting::FilesystemErrors(_) => Field::FilesystemErrors,
            Setting::HashSeed(_) => Field::HashSeed,
            Setting::Home(_) => Field::Home,
            Setting::ImportTime(_) => Field::ImportTime,
            Setting::Inspect(_) => Field::Inspect,
            Setting::InstallSignalHandlers(_) => Field::InstallSignalHandlers,
            Setting::Interactive(_) => Field::Interactive,
            Setting::LegacyWindowsStdio(_) => Field::LegacyWindowsStdio,
            Setting::MallocStats(_) => Field::MallocStats,
            Setting::ModuleSearchPaths(_) => Field::ModuleSearchPaths,
            Setting::OptimizationLevel(_) => Field::OptimizationLevel,
            Setting::ParserDebug(_) => Field::ParserDebug,
            Setting::PathconfigWarnings(_) => Field::PathconfigWarnings,
            Setting::Prefix(_) => Field::Prefix,
            Setting::ProgramName(_) => Field::ProgramName,
            Setting::PycachePrefix(_) => Field::PycachePrefix,
            Setting::PythonPathEnv(_) => Field::PythonPathEnv,
            Setting::Quiet(_) => Field::Quiet,
            Setting::RunCommand(_) => Field::RunCommand,
            Setting::RunFilename(_) => Field::RunFilename,
            Setting::RunModule(_) => Field::RunModule,
            Setting::ShowRefCount(_) => Field::ShowRefCount,
            Setting::SiteImport(_) => Field::SiteImport,
            Setting::SkipFirstSourceLine(_) => Field::SkipFirstSourceLine,
            Setting::StdioEncoding(_) => Field::StdioEncoding,
            Setting::StdioErrors(_) => Field::StdioErrors,
            Setting::Tracemalloc(_) => Field::Tracemalloc,
            Setting::UserSiteDirectory(_) => Field::UserSiteDirectory,
            Setting::Verbose(_) => Field::Verbose,
            Setting::WarnOptions(_) => Field::WarnOptions,
            Setting::WriteBytecode(_) => Field::WriteBytecode,
            Setting::XOptions(_) => Field::XOptions,
        }
    }

    /// The field that a setting is for.
    pub fn field(&self) -> (f: Field)
        ensures
            f == self.spec_field(),
    {
        match self {
            Setting::Allocator(_) => Field::Allocator,
            Setting::ConfigureLocale(_) => Field::ConfigureLocale,
            Setting::CoerceCLocale(_) => Field::CoerceCLocale,
            Setting::CoerceCLocaleWarn(_) => Field::CoerceCLocaleWarn,
            Setting::DevelopmentMode(_) => Field::DevelopmentMode,
            Setting::Isolated(_) => Field::Isolated,
            Setting::LegacyWindowsFsEncoding(_) => Field::LegacyWindowsFsEncoding,
            Setting::ParseArgv(_) => Field::ParseArgv,
            Setting::UseEnvironment(_) => Field::UseEnvironment,
            Setting::Utf8Mode(_) => Field::Utf8Mode,
            Setting::Argv(_) => Field::Argv,
            Setting::BaseExecPrefix(_) => Field::BaseExecPrefix,
            Setting::BaseExecutable(_) => Field::BaseExecutable,
            Setting::BasePrefix(_) => Field::BasePrefix,
            Setting::BufferedStdio(_) => Field::BufferedStdio,
            Setting::BytesWarning(_) => Field::BytesWarning,
            Setting::CheckHashPycsMode(_) => Field::CheckHashPycsMode,
            Setting::ConfigureCStdio(_) => Field::ConfigureCStdio,
            Setting::DumpRefs(_) => Field::DumpRefs,
            Setting::ExecPrefix(_) => Field::ExecPrefix,
            Setting::Executable(_) => Field::Executable,
            Setting::FaultHandler(_) => Field::FaultHandler,
            Setting::FilesystemEncoding(_) => Field::FilesystemEncoding,
            Setting::FilesystemErrors(_) => Field::FilesystemErrors,
            Setting::HashSeed(_) => Field::HashSeed,
            Setting::Home(_) => Field::Home,
            Setting::ImportTime(_) => Field::ImportTime,
            Setting::Inspect(_) => Field::Inspect,
            Setting::InstallSignalHandlers(_) => Field::InstallSignalHandlers,
            Setting::Interactive(_) => Field::Interactive,
            Setting::LegacyWindowsStdio(_) => Field::LegacyWindowsStdio,
            Setting::MallocStats(_) => Field::MallocStats,
            Setting::ModuleSearchPaths(_) => Field::ModuleSearchPaths,
            Setting::OptimizationLevel(_) => Field::OptimizationLevel,
            Setting::ParserDebug(_) => Field::ParserDebug,
            Setting::PathconfigWarnings(_) => Field::PathconfigWarnings,
            Setting::Prefix(_) => Field::Prefix,
            Setting::ProgramName(_) => Field::ProgramName,
            Setting::PycachePrefix(_) => Field::PycachePrefix,
            Setting::PythonPathEnv(_) => Field::PythonPathEnv,
            Setting::Quiet(_) => Field::Quiet,
            Setting::RunCommand(_) => Field::RunCommand,
            Setting::RunFilename(_) => Field::RunFilename,
            Setting::RunModule(_) => Field::RunModule,
            Setting::ShowRefCount(_) => Field::ShowRefCount,
            Setting::SiteImport(_) => Field::SiteImport,
            Setting::SkipFirstSourceLine(_) => Field::SkipFirstSourceLine,
            Setting::StdioEncoding(_) => Field::StdioEncoding,
            Setting::StdioErrors(_) => Field::StdioErrors,
            Setting::Tracemalloc(_) => Field::Tracemalloc,
            Setting::UserSiteDirectory(_) => Field::UserSiteDirectory,
            Setting::Verbose(_) => Field::Verbose,
            Setting::WarnOptions(_) => Field::WarnOptions,
            Setting::WriteBytecode(_) => Field::WriteBytecode,
            Setting::XOptions(_) => Field::XOptions,
        }
    }
}

} // verus!
