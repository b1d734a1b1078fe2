//! The configuration record of an interpreter.

use crate::allocator::Allocator;
use crate::bytecode::{BytecodeOptimizationLevel, CheckHashPycsMode};
use crate::field::{Field, Tier};
use crate::locale::CoerceCLocale;
use crate::profile::PythonInterpreterProfile;
use crate::setting::Setting;
use crate::warning::BytesWarning;
use std::path::PathBuf;
use vstd::prelude::*;

verus! {

/// Holds configuration of a Python interpreter.
///
/// This struct holds fields that are exposed by `PyPreConfig` and
/// `PyConfig` in the CPython API.
///
/// Other than the profile (which is used to initialize instances of
/// `PyPreConfig` and `PyConfig`), all fields are optional. Only fields
/// with `Some(T)` will be updated from the defaults: a field left at `None`
/// takes whatever the profile gives it.
#[derive(Clone, Debug, PartialEq)]
pub struct PythonInterpreterConfig {
    /// Profile to use to initialize pre-config and config state of interpreter.
    pub profile: PythonInterpreterProfile,
    // The following fields are from PyPreConfig or are shared with PyConfig.
    /// Name of the memory allocator.
    ///
    /// See <https://docs.python.org/3/c-api/init_config.html#c.PyPreConfig.allocator>.
    pub allocator: Option<Allocator>,
    /// Whether to set the LC_CTYPE locale to the user preferred locale.
    ///
    /// See <https://docs.python.org/3/c-api/init_config.html#c.PyPreConfig.configure_locale>.
    pub configure_locale: Option<bool>,
    /// How to coerce the locale settings.
    ///
    /// See <https://docs.python.org/3/c-api/init_config.html#c.PyPreConfig.coerce_c_locale>.
    pub coerce_c_locale: Option<CoerceCLocale>,
    /// Whether to emit a warning if the C locale is coerced.
    ///
    /// See <https://docs.python.org/3/c-api/init_config.html#c.PyPreConfig.coerce_c_locale_warn>.
    pub coerce_c_locale_warn: Option<bool>,
    /// Whether to enable Python development mode.
    ///
    /// See <https://docs.python.org/3/c-api/init_config.html#c.PyConfig.dev_mode>.
    pub development_mode: Option<bool>,
    /// Isolated mode.
    ///
    /// See <https://docs.python.org/3/c-api/init_config.html#c.PyPreConfig.isolated>.
    pub isolated: Option<bool>,
    /// Whether to use legacy filesystem encodings on Windows.
    ///
    /// See <https://docs.python.org/3/c-api/init_config.html#c.PyPreConfig.legacy_windows_fs_encoding>.
    pub legacy_windows_fs_encoding: Option<bool>,
    /// Whether argv should be parsed the way `python` parses them.
    ///
    /// See <https://docs.python.org/3/c-api/init_config.html#c.PyPreConfig.parse_argv>.
    pub parse_argv: Option<bool>,
    /// Whether environment variables are read to control the interpreter configuration.
    ///
    /// See <https://docs.python.org/3/c-api/init_config.html#c.PyConfig.use_environment>.
    pub use_environment: Option<bool>,
    /// Controls Python UTF-8 mode.
    ///
    /// See <https://docs.python.org/3/c-api/init_config.html#c.PyPreConfig.utf8_mode>.
    pub utf8_mode: Option<bool>,
    // The following fields are from PyConfig.
    /// Command line arguments.
    ///
    /// These will become `sys.argv`.
    ///
    /// See <https://docs.python.org/3/c-api/init_config.html#c.PyConfig.argv>.
    pub argv: Option<Vec<String>>,
    /// Controls `sys.base_exec_prefix`.
    ///
    /// See <https://docs.python.org/3/c-api/init_config.html#c.PyConfig.base_exec_prefix>.
    pub base_exec_prefix: Option<PathBuf>,
    /// Controls `sys._base_executable`.
    ///
    /// See <https://docs.python.org/3/c-api/init_config.html#c.PyConfig.base_executable>.
    pub base_executable: Option<PathBuf>,
    /// Controls `sys.base_prefix`.
    ///
    /// See <https://docs.python.org/3/c-api/init_config.html#c.PyConfig.base_prefix>.
    pub base_prefix: Option<PathBuf>,
    /// Controls buffering on `stdout` and `stderr`.
    ///
    /// See <https://docs.python.org/3/c-api/init_config.html#c.PyConfig.buffered_stdio>.
    pub buffered_stdio: Option<bool>,
    /// Controls warnings/errors for some bytes type coercions.
    ///
    /// See <https://docs.python.org/3/c-api/init_config.html#c.PyConfig.bytes_warning>.
    pub bytes_warning: Option<BytesWarning>,
    /// Validation mode for `.pyc` files.
    ///
    /// See <https://docs.python.org/3/c-api/init_config.html#c.PyConfig.check_hash_pycs_mode>.
    pub check_hash_pycs_mode: Option<CheckHashPycsMode>,
    /// Controls binary mode and buffering on C standard streams.
    ///
    /// See <https://docs.python.org/3/c-api/init_config.html#c.PyConfig.configure_c_stdio>.
    pub configure_c_stdio: Option<bool>,
    /// Dump Python references.
    ///
    /// See <https://docs.python.org/3/c-api/init_config.html#c.PyConfig.dump_refs>.
    pub dump_refs: Option<bool>,
    /// Controls `sys.exec_prefix`.
    ///
    /// See <https://docs.python.org/3/c-api/init_config.html#c.PyConfig.exec_prefix>.
    pub exec_prefix: Option<PathBuf>,
    /// Controls `sys.executable`.
    ///
    /// See <https://docs.python.org/3/c-api/init_config.html#c.PyConfig.executable>.
    pub executable: Option<PathBuf>,
    /// Enable `faulthandler`.
    ///
    /// See <https://docs.python.org/3/c-api/init_config.html#c.PyConfig.faulthandler>.
    pub fault_handler: Option<bool>,
    /// Controls the encoding to use for filesystems/paths.
    ///
    /// See <https://docs.python.org/3/c-api/init_config.html#c.PyConfig.filesystem_encoding>.
    pub filesystem_encoding: Option<String>,
    /// Filesystem encoding error handler.
    ///
    /// See <https://docs.python.org/3/c-api/init_config.html#c.PyConfig.filesystem_errors>.
    pub filesystem_errors: Option<String>,
    /// Randomized hash function seed.
    ///
    /// See <https://docs.python.org/3/c-api/init_config.html#c.PyConfig.hash_seed>.
    pub hash_seed: Option<u64>,
    /// Python home directory.
    ///
    /// See <https://docs.python.org/3/c-api/init_config.html#c.PyConfig.home>.
    pub home: Option<PathBuf>,
    /// Whether to profile `import` time.
    ///
    /// See <https://docs.python.org/3/c-api/init_config.html#c.PyConfig.import_time>.
    pub import_time: Option<bool>,
    /// Enter interactive mode after executing a script or a command.
    ///
    /// See <https://docs.python.org/3/c-api/init_config.html#c.PyConfig.inspect>.
    pub inspect: Option<bool>,
    /// Whether to install Python signal handlers.
    ///
    /// See <https://docs.python.org/3/c-api/init_config.html#c.PyConfig.install_signal_handlers>.
    pub install_signal_handlers: Option<bool>,
    /// Whether to enable the interactive REPL mode.
    ///
    /// See <https://docs.python.org/3/c-api/init_config.html#c.PyConfig.interactive>.
    pub interactive: Option<bool>,
    /// Controls legacy stdio behavior on Windows.
    ///
    /// See <https://docs.python.org/3/c-api/init_config.html#c.PyConfig.legacy_windows_stdio>.
    pub legacy_windows_stdio: Option<bool>,
    /// Whether to dump statistics from the `pymalloc` allocator on exit.
    ///
    /// See <https://docs.python.org/3/c-api/init_config.html#c.PyConfig.malloc_stats>.
    pub malloc_stats: Option<bool>,
    /// Defines `sys.path`.
    ///
    /// See <https://docs.python.org/3/c-api/init_config.html#c.PyConfig.module_search_paths>.
    pub module_search_paths: Option<Vec<PathBuf>>,
    /// Bytecode optimization level.
    ///
    /// See <https://docs.python.org/3/c-api/init_config.html#c.PyConfig.optimization_level>.
    pub optimization_level: Option<BytecodeOptimizationLevel>,
    /// Parser debug mode.
    ///
    /// See <https://docs.python.org/3/c-api/init_config.html#c.PyConfig.parser_debug>.
    pub parser_debug: Option<bool>,
    /// Whether calculating the Python path configuration can emit warnings.
    ///
    /// See <https://docs.python.org/3/c-api/init_config.html#c.PyConfig.pathconfig_warnings>.
    pub pathconfig_warnings: Option<bool>,
    /// Defines `sys.prefix`.
    ///
    /// See <https://docs.python.org/3/c-api/init_config.html#c.PyConfig.prefix>.
    pub prefix: Option<PathBuf>,
    /// Program named used to initialize state during path configuration.
    ///
    /// See <https://docs.python.org/3/c-api/init_config.html#c.PyConfig.program_name>.
    pub program_name: Option<PathBuf>,
    /// Directory where `.pyc` files are written.
    ///
    /// See <https://docs.python.org/3/c-api/init_config.html#c.PyConfig.pycache_prefix>.
    pub pycache_prefix: Option<PathBuf>,
    /// See <https://docs.python.org/3/c-api/init_config.html#c.PyConfig.pythonpath_env>.
    pub python_path_env: Option<String>,
    /// Quiet mode.
    ///
    /// See <https://docs.python.org/3/c-api/init_config.html#c.PyConfig.quiet>.
    pub quiet: Option<bool>,
    /// Value of the `-c` command line option.
    ///
    /// Effectively defines Python code to evaluate in `Py_RunMain()`.
    ///
    /// See <https://docs.python.org/3/c-api/init_config.html#c.PyConfig.run_command>.
    pub run_command: Option<String>,
    /// Filename passed on the command line.
    ///
    /// Effectively defines the Python file to run in `Py_RunMain()`.
    ///
    /// See <https://docs.python.org/3/c-api/init_config.html#c.PyConfig.run_filename>.
    pub run_filename: Option<PathBuf>,
    /// Value of the `-m` command line option.
    ///
    /// Effectively defines the Python module to run as `__main__` in `Py_RunMain()`.
    ///
    /// See <https://docs.python.org/3/c-api/init_config.html#c.PyConfig.run_module>.
    pub run_module: Option<String>,
    /// Whether to show the total reference count at exit.
    ///
    /// See <https://docs.python.org/3/c-api/init_config.html#c.PyConfig.show_ref_count>.
    pub show_ref_count: Option<bool>,
    /// Whether to import the `site` module at startup.
    ///
    /// See <https://docs.python.org/3/c-api/init_config.html#c.PyConfig.site_import>.
    pub site_import: Option<bool>,
    /// Whether to skip the first line of [Self::run_filename].
    ///
    /// See <https://docs.python.org/3/c-api/init_config.html#c.PyConfig.skip_source_first_line>.
    pub skip_first_source_line: Option<bool>,
    /// Encoding of `sys.stdout`, `sys.stderr`, and `sys.stdin`.
    ///
    /// See <https://docs.python.org/3/c-api/init_config.html#c.PyConfig.stdio_encoding>.
    pub stdio_encoding: Option<String>,
    /// Encoding error handler for `sys.stdout` and `sys.stdin`.
    ///
    /// See <https://docs.python.org/3/c-api/init_config.html#c.PyConfig.stdio_errors>.
    pub stdio_errors: Option<String>,
    /// Whether to enable `tracemalloc`.
    ///
    /// See <https://docs.python.org/3/c-api/init_config.html#c.PyConfig.tracemalloc>.
    pub tracemalloc: Option<bool>,
    /// Whether to add the user site directory to `sys.path`.
    ///
    /// See <https://docs.python.org/3/c-api/init_config.html#c.PyConfig.user_site_directory>.
    pub user_site_directory: Option<bool>,
    /// Verbose mode.
    ///
    /// See <https://docs.python.org/3/c-api/init_config.html#c.PyConfig.verbose>.
    pub verbose: Option<bool>,
    /// Options of the `warning` module to control behavior.
    ///
    /// See <https://docs.python.org/3/c-api/init_config.html#c.PyConfig.warnoptions>.
    pub warn_options: Option<Vec<String>>,
    /// Controls `sys.dont_write_bytecode`.
    ///
    /// See <https://docs.python.org/3/c-api/init_config.html#c.PyConfig.write_bytecode>.
    pub write_bytecode: Option<bool>,
    /// Values of the `-X` command line options / `sys._xoptions`.
    ///
    /// See <https://docs.python.org/3/c-api/init_config.html#c.PyConfig.xoptions>.
    pub x_options: Option<Vec<String>>,
}

impl PythonInterpreterConfig {
    /// The record of a profile with every optional field unset.
    pub open spec fn spec_new(profile: PythonInterpreterProfile) -> Self {
        PythonInterpreterConfig {
            profile,
            allocator: None,
            configure_locale: None,
            coerce_c_locale: None,
            coerce_c_locale_warn: None,
            development_mode: None,
            isolated: None,
            legacy_windows_fs_encoding: None,
            parse_argv: None,
            use_environment: None,
            utf8_mode: None,
            argv: None,
            base_exec_prefix: None,
            base_executable: None,
            base_prefix: None,
            buffered_stdio: None,
            bytes_warning: None,
            check_hash_pycs_mode: None,
            configure_c_stdio: None,
            dump_refs: None,
            exec_prefix: None,
            executable: None,
            fault_handler: None,
            filesystem_encoding: None,
            filesystem_errors: None,
            hash_seed: None,
            home: None,
            import_time: None,
            inspect: None,
            install_signal_handlers: None,
            interactive: None,
            legacy_windows_stdio: None,
            malloc_stats: None,
            module_search_paths: None,
            optimization_level: None,
            parser_debug: None,
            pathconfig_warnings: None,
            prefix: None,
            program_name: None,
            pycache_prefix: None,
            python_path_env: None,
            quiet: None,
            run_command: None,
            run_filename: None,
            run_module: None,
            show_ref_count: None,
            site_import: None,
            skip_first_source_line: None,
            stdio_encoding: None,
            stdio_errors: None,
            tracemalloc: None,
            user_site_directory: None,
            verbose: None,
            warn_options: None,
            write_bytecode: None,
            x_options: None,
        }
    }

    /// What a field holds: `None` where it is unset, else its value as a
    /// setting.
    pub open spec fn lookup(self, field: Field) -> Option<Setting> {
        match field {
            Field::Allocator => match self.allocator {
                Some(v) => Some(Setting::Allocator(v)),
                None => None,
            },
            Field::ConfigureLocale => match self.configure_locale {
                Some(v) => Some(Setting::ConfigureLocale(v)),
                None => None,
            },
            Field::CoerceCLocale => match self.coerce_c_locale {
                Some(v) => Some(Setting::CoerceCLocale(v)),
                None => None,
            },
            Field::CoerceCLocaleWarn => match self.coerce_c_locale_warn {
                Some(v) => Some(Setting::CoerceCLocaleWarn(v)),
                None => None,
            },
            Field::DevelopmentMode => match self.development_mode {
                Some(v) => Some(Setting::DevelopmentMode(v)),
                None => None,
            },
            Field::Isolated => match self.isolated {
                Some(v) => Some(Setting::Isolated(v)),
                None => None,
            },
            Field::LegacyWindowsFsEncoding => match self.legacy_windows_fs_encoding {
                Some(v) => Some(Setting::LegacyWindowsFsEncoding(v)),
                None => None,
            },
            Field::ParseArgv => match self.parse_argv {
                Some(v) => Some(Setting::ParseArgv(v)),
                None => None,
            },
            Field::UseEnvironment => match self.use_environment {
                Some(v) => Some(Setting::UseEnvironment(v)),
                None => None,
            },
            Field::Utf8Mode => match self.utf8_mode {
                Some(v) => Some(Setting::Utf8Mode(v)),
                None => None,
            },
            Field::Argv => match self.argv {
                Some(v) => Some(Setting::Argv(v)),
                None => None,
            },
            Field::BaseExecPrefix => match self.base_exec_prefix {
                Some(v) => Some(Setting::BaseExecPrefix(v)),
                None => None,
            },
            Field::BaseExecutable => match self.base_executable {
                Some(v) => Some(Setting::BaseExecutable(v)),
                None => None,
            },
            Field::BasePrefix => match self.base_prefix {
                Some(v) => Some(Setting::BasePrefix(v)),
                None => None,
            },
            Field::BufferedStdio => match self.buffered_stdio {
                Some(v) => Some(Setting::BufferedStdio(v)),
                None => None,
            },
            Field::BytesWarning => match self.bytes_warning {
                Some(v) => Some(Setting::BytesWarning(v)),
                None => None,
            },
            Field::CheckHashPycsMode => match self.check_hash_pycs_mode {
                Some(v) => Some(Setting::CheckHashPycsMode(v)),
                None => None,
            },
            Field::ConfigureCStdio => match self.configure_c_stdio {
                Some(v) => Some(Setting::ConfigureCStdio(v)),
                None => None,
            },
            Field::DumpRefs => match self.dump_refs {
                Some(v) => Some(Setting::DumpRefs(v)),
                None => None,
            },
            Field::ExecPrefix => match self.exec_prefix {
                Some(v) => Some(Setting::ExecPrefix(v)),
                None => None,
            },
            Field::Executable => match self.executable {
                Some(v) => Some(Setting::Executable(v)),
                None => None,
            },
            Field::FaultHandler => match self.fault_handler {
                Some(v) => Some(Setting::FaultHandler(v)),
                None => None,
            },
            Field::FilesystemEncoding => match self.filesystem_encoding {
                Some(v) => Some(Setting::FilesystemEncoding(v)),
                None => None,
            },
            Field::FilesystemErrors => match self.filesystem_errors {
                Some(v) => Some(Setting::FilesystemErrors(v)),
                None => None,
            },
            Field::HashSeed => match self.hash_seed {
                Some(v) => Some(Setting::HashSeed(v)),
                None => None,
            },
            Field::Home => match self.home {
                Some(v) => Some(Setting::Home(v)),
                None => None,
            },
            Field::ImportTime => match self.import_time {
                Some(v) => Some(Setting::ImportTime(v)),
                None => None,
            },
            Field::Inspect => match self.inspect {
                Some(v) => Some(Setting::Inspect(v)),
                None => None,
            },
            Field::InstallSignalHandlers => match self.install_signal_handlers {
                Some(v) => Some(Setting::InstallSignalHandlers(v)),
                None => None,
            },
            Field::Interactive => match self.interactive {
                Some(v) => Some(Setting::Interactive(v)),
                None => None,
            },
            Field::LegacyWindowsStdio => match self.legacy_windows_stdio {
                Some(v) => Some(Setting::LegacyWindowsStdio(v)),
                None => None,
            },
            Field::MallocStats => match self.malloc_stats {
                Some(v) => Some(Setting::MallocStats(v)),
                None => None,
            },
            Field::ModuleSearchPaths => match self.module_search_paths {
                Some(v) => Some(Setting::ModuleSearchPaths(v)),
                None => None,
            },
            Field::OptimizationLevel => match self.optimization_level {
                Some(v) => Some(Setting::OptimizationLevel(v)),
                None => None,
            },
            Field::ParserDebug => match self.parser_debug {
                Some(v) => Some(Setting::ParserDebug(v)),
                None => None,
            },
            Field::PathconfigWarnings => match self.pathconfig_warnings {
                Some(v) => Some(Setting::PathconfigWarnings(v)),
                None => None,
            },
            Field::Prefix => match self.prefix {
                Some(v) => Some(Setting::Prefix(v)),
                None => None,
            },
            Field::ProgramName => match self.program_name {
                Some(v) => Some(Setting::ProgramName(v)),
                None => None,
            },
            Field::PycachePrefix => match self.pycache_prefix {
                Some(v) => Some(Setting::PycachePrefix(v)),
                None => None,
            },
            Field::PythonPathEnv => match self.python_path_env {
                Some(v) => Some(Setting::PythonPathEnv(v)),
                None => None,
            },
            Field::Quiet => match self.quiet {
                Some(v) => Some(Setting::Quiet(v)),
                None => None,
            },
            Field::RunCommand => match self.run_command {
                Some(v) => Some(Setting::RunCommand(v)),
                None => None,
            },
            Field::RunFilename => match self.run_filename {
                Some(v) => Some(Setting::RunFilename(v)),
                None => None,
            },
            Field::RunModule => match self.run_module {
                Some(v) => Some(Setting::RunModule(v)),
                None => None,
            },
            Field::ShowRefCount => match self.show_ref_count {
                Some(v) => Some(Setting::ShowRefCount(v)),
                None => None,
            },
            Field::SiteImport => match self.site_import {
                Some(v) => Some(Setting::SiteImport(v)),
                None => None,
            },
            Field::SkipFirstSourceLine => match self.skip_first_source_line {
                Some(v) => Some(Setting::SkipFirstSourceLine(v)),
                None => None,
            },
            Field::StdioEncoding => match self.stdio_encoding {
                Some(v) => Some(Setting::StdioEncoding(v)),
                None => None,
            },
            Field::StdioErrors => match self.stdio_errors {
                Some(v) => Some(Setting::StdioErrors(v)),
                None => None,
            },
            Field::Tracemalloc => match self.tracemalloc {
                Some(v) => Some(Setting::Tracemalloc(v)),
                None => None,
            },
            Field::UserSiteDirectory => match self.user_site_directory {
                Some(v) => Some(Setting::UserSiteDirectory(v)),
                None => None,
            },
            Field::Verbose => match self.verbose {
                Some(v) => Some(Setting::Verbose(v)),
                None => None,
            },
            Field::WarnOptions => match self.warn_options {
                Some(v) => Some(Setting::WarnOptions(v)),
                None => None,
            },
            Field::WriteBytecode => match self.write_bytecode {
                Some(v) => Some(Setting::WriteBytecode(v)),
                None => None,
            },
            Field::XOptions => match self.x_options {
                Some(v) => Some(Setting::XOptions(v)),
                None => None,
            },
        }
    }

    /// The record with one field set, and nothing else changed: each field
    /// holds the setting's value where the setting is for it, and what it held
    /// before where it is not.
    pub open spec fn with(self, setting: Setting) -> Self {
        PythonInterpreterConfig {
            profile: self.profile,
            allocator: match setting {
                Setting::Allocator(v) => Some(v),
                _ => self.allocator,
            },
            configure_locale: match setting {
                Setting::ConfigureLocale(v) => Some(v),
                _ => self.configure_locale,
            },
            coerce_c_locale: match setting {
                Setting::CoerceCLocale(v) => Some(v),
                _ => self.coerce_c_locale,
            },
            coerce_c_locale_warn: match setting {
                Setting::CoerceCLocaleWarn(v) => Some(v),
                _ => self.coerce_c_locale_warn,
            },
            development_mode: match setting {
                Setting::DevelopmentMode(v) => Some(v),
                _ => self.development_mode,
            },
            isolated: match setting {
                Setting::Isolated(v) => Some(v),
                _ => self.isolated,
            },
            legacy_windows_fs_encoding: match setting {
                Setting::LegacyWindowsFsEncoding(v) => Some(v),
                _ => self.legacy_windows_fs_encoding,
            },
            parse_argv: match setting {
                Setting::ParseArgv(v) => Some(v),
                _ => self.parse_argv,
            },
            use_environment: match setting {
                Setting::UseEnvironment(v) => Some(v),
                _ => self.use_environment,
            },
            utf8_mode: match setting {
                Setting::Utf8Mode(v) => Some(v),
                _ => self.utf8_mode,
            },
            argv: match setting {
                Setting::Argv(v) => Some(v),
                _ => self.argv,
            },
            base_exec_prefix: match setting {
                Setting::BaseExecPrefix(v) => Some(v),
                _ => self.base_exec_prefix,
            },
            base_executable: match setting {
                Setting::BaseExecutable(v) => Some(v),
                _ => self.base_executable,
            },
            base_prefix: match setting {
                Setting::BasePrefix(v) => Some(v),
                _ => self.base_prefix,
            },
            buffered_stdio: match setting {
                Setting::BufferedStdio(v) => Some(v),
                _ => self.buffered_stdio,
            },
            bytes_warning: match setting {
                Setting::BytesWarning(v) => Some(v),
                _ => self.bytes_warning,
            },
            check_hash_pycs_mode: match setting {
                Setting::CheckHashPycsMode(v) => Some(v),
                _ => self.check_hash_pycs_mode,
            },
            configure_c_stdio: match setting {
                Setting::ConfigureCStdio(v) => Some(v),
                _ => self.configure_c_stdio,
            },
            dump_refs: match setting {
                Setting::DumpRefs(v) => Some(v),
                _ => self.dump_refs,
            },
            exec_prefix: match setting {
                Setting::ExecPrefix(v) => Some(v),
                _ => self.exec_prefix,
            },
            executable: match setting {
                Setting::Executable(v) => Some(v),
                _ => self.executable,
            },
            fault_handler: match setting {
                Setting::FaultHandler(v) => Some(v),
                _ => self.fault_handler,
            },
            filesystem_encoding: match setting {
                Setting::FilesystemEncoding(v) => Some(v),
                _ => self.filesystem_encoding,
            },
            filesystem_errors: match setting {
                Setting::FilesystemErrors(v) => Some(v),
                _ => self.filesystem_errors,
            },
            hash_seed: match setting {
                Setting::HashSeed(v) => Some(v),
                _ => self.hash_seed,
            },
            home: match setting {
                Setting::Home(v) => Some(v),
                _ => self.home,
            },
            import_time: match setting {
                Setting::ImportTime(v) => Some(v),
                _ => self.import_time,
            },
            inspect: match setting {
                Setting::Inspect(v) => Some(v),
                _ => self.inspect,
            },
            install_signal_handlers: match setting {
                Setting::InstallSignalHandlers(v) => Some(v),
                _ => self.install_signal_handlers,
            },
            interactive: match setting {
                Setting::Interactive(v) => Some(v),
                _ => self.interactive,
            },
            legacy_windows_stdio: match setting {
                Setting::LegacyWindowsStdio(v) => Some(v),
                _ => self.legacy_windows_stdio,
            },
            malloc_stats: match setting {
                Setting::MallocStats(v) => Some(v),
                _ => self.malloc_stats,
            },
            module_search_paths: match setting {
                Setting::ModuleSearchPaths(v) => Some(v),
                _ => self.module_search_paths,
            },
            optimization_level: match setting {
                Setting::OptimizationLevel(v) => Some(v),
                _ => self.optimization_level,
            },
            parser_debug: match setting {
                Setting::ParserDebug(v) => Some(v),
                _ => self.parser_debug,
            },
            pathconfig_warnings: match setting {
                Setting::PathconfigWarnings(v) => Some(v),
                _ => self.pathconfig_warnings,
            },
            prefix: match setting {
                Setting::Prefix(v) => Some(v),
                _ => self.prefix,
            },
            program_name: match setting {
                Setting::ProgramName(v) => Some(v),
                _ => self.program_name,
            },
            pycache_prefix: match setting {
                Setting::PycachePrefix(v) => Some(v),
                _ => self.pycache_prefix,
            },
            python_path_env: match setting {
                Setting::PythonPathEnv(v) => Some(v),
                _ => self.python_path_env,
            },
            quiet: match setting {
                Setting::Quiet(v) => Some(v),
                _ => self.quiet,
            },
            run_command: match setting {
                Setting::RunCommand(v) => Some(v),
                _ => self.run_command,
            },
            run_filename: match setting {
                Setting::RunFilename(v) => Some(v),
                _ => self.run_filename,
            },
            run_module: match setting {
                Setting::RunModule(v) => Some(v),
                _ => self.run_module,
            },
            show_ref_count: match setting {
                Setting::ShowRefCount(v) => Some(v),
                _ => self.show_ref_count,
            },
            site_import: match setting {
                Setting::SiteImport(v) => Some(v),
                _ => self.site_import,
            },
            skip_first_source_line: match setting {
                Setting::SkipFirstSourceLine(v) => Some(v),
                _ => self.skip_first_source_line,
            },
            stdio_encoding: match setting {
                Setting::StdioEncoding(v) => Some(v),
                _ => self.stdio_encoding,
            },
            stdio_errors: match setting {
                Setting::StdioErrors(v) => Some(v),
                _ => self.stdio_errors,
            },
            tracemalloc: match setting {
                Setting::Tracemalloc(v) => Some(v),
                _ => self.tracemalloc,
            },
            user_site_directory: match setting {
                Setting::UserSiteDirectory(v) => Some(v),
                _ => self.user_site_directory,
            },
            verbose: match setting {
                Setting::Verbose(v) => Some(v),
                _ => self.verbose,
            },
            warn_options: match setting {
                Setting::WarnOptions(v) => Some(v),
                _ => self.warn_options,
            },
            write_bytecode: match setting {
                Setting::WriteBytecode(v) => Some(v),
                _ => self.write_bytecode,
            },
            x_options: match setting {
                Setting::XOptions(v) => Some(v),
                _ => self.x_options,
            },
        }
    }

    /// The record with one field unset, and nothing else changed.
    pub open spec fn without(self, field: Field) -> Self {
        PythonInterpreterConfig {
            profile: self.profile,
            allocator: if field == Field::Allocator {
                None
            } else {
                self.allocator
            },
            configure_locale: if field == Field::ConfigureLocale {
                None
            } else {
                self.configure_locale
            },
            coerce_c_locale: if field == Field::CoerceCLocale {
                None
            } else {
                self.coerce_c_locale
            },
            coerce_c_locale_warn: if field == Field::CoerceCLocaleWarn {
                None
            } else {
                self.coerce_c_locale_warn
            },
            development_mode: if field == Field::DevelopmentMode {
                None
            } else {
                self.development_mode
            },
            isolated: if field == Field::Isolated {
                None
            } else {
                self.isolated
            },
            legacy_windows_fs_encoding: if field == Field::LegacyWindowsFsEncoding {
                None
            } else {
                self.legacy_windows_fs_encoding
            },
            parse_argv: if field == Field::ParseArgv {
                None
            } else {
                self.parse_argv
            },
            use_environment: if field == Field::UseEnvironment {
                None
            } else {
                self.use_environment
            },
            utf8_mode: if field == Field::Utf8Mode {
                None
            } else {
                self.utf8_mode
            },
            argv: if field == Field::Argv {
                None
            } else {
                self.argv
            },
            base_exec_prefix: if field == Field::BaseExecPrefix {
                None
            } else {
                self.base_exec_prefix
            },
            base_executable: if field == Field::BaseExecutable {
                None
            } else {
                self.base_executable
            },
            base_prefix: if field == Field::BasePrefix {
                None
            } else {
                self.base_prefix
            },
            buffered_stdio: if field == Field::BufferedStdio {
                None
            } else {
                self.buffered_stdio
            },
            bytes_warning: if field == Field::BytesWarning {
                None
            } else {
                self.bytes_warning
            },
            check_hash_pycs_mode: if field == Field::CheckHashPycsMode {
                None
            } else {
                self.check_hash_pycs_mode
            },
            configure_c_stdio: if field == Field::ConfigureCStdio {
                None
            } else {
                self.configure_c_stdio
            },
            dump_refs: if field == Field::DumpRefs {
                None
            } else {
                self.dump_refs
            },
            exec_prefix: if field == Field::ExecPrefix {
                None
            } else {
                self.exec_prefix
            },
            executable: if field == Field::Executable {
                None
            } else {
                self.executable
            },
            fault_handler: if field == Field::FaultHandler {
                None
            } else {
                self.fault_handler
            },
            filesystem_encoding: if field == Field::FilesystemEncoding {
                None
            } else {
                self.filesystem_encoding
            },
            filesystem_errors: if field == Field::FilesystemErrors {
                None
            } else {
                self.filesystem_errors
            },
            hash_seed: if field == Field::HashSeed {
                None
            } else {
                self.hash_seed
            },
            home: if field == Field::Home {
                None
            } else {
                self.home
            },
            import_time: if field == Field::ImportTime {
                None
            } else {
                self.import_time
            },
            inspect: if field == Field::Inspect {
                None
            } else {
                self.inspect
            },
            install_signal_handlers: if field == Field::InstallSignalHandlers {
                None
            } else {
                self.install_signal_handlers
            },
            interactive: if field == Field::Interactive {
                None
            } else {
                self.interactive
            },
            legacy_windows_stdio: if field == Field::LegacyWindowsStdio {
                None
            } else {
                self.legacy_windows_stdio
            },
            malloc_stats: if field == Field::MallocStats {
                None
            } else {
                self.malloc_stats
            },
            module_search_paths: if field == Field::ModuleSearchPaths {
                None
            } else {
                self.module_search_paths
            },
            optimization_level: if field == Field::OptimizationLevel {
                None
            } else {
                self.optimization_level
            },
            parser_debug: if field == Field::ParserDebug {
                None
            } else {
                self.parser_debug
            },
            pathconfig_warnings: if field == Field::PathconfigWarnings {
                None
            } else {
                self.pathconfig_warnings
            },
            prefix: if field == Field::Prefix {
                None
            } else {
                self.prefix
            },
            program_name: if field == Field::ProgramName {
                None
            } else {
                self.program_name
            },
            pycache_prefix: if field == Field::PycachePrefix {
                None
            } else {
                self.pycache_prefix
            },
            python_path_env: if field == Field::PythonPathEnv {
                None
            } else {
                self.python_path_env
            },
            quiet: if field == Field::Quiet {
                None
            } else {
                self.quiet
            },
            run_command: if field == Field::RunCommand {
                None
            } else {
                self.run_command
            },
            run_filename: if field == Field::RunFilename {
                None
            } else {
                self.run_filename
            },
            run_module: if field == Field::RunModule {
                None
            } else {
                self.run_module
            },
            show_ref_count: if field == Field::ShowRefCount {
                None
            } else {
                self.show_ref_count
            },
            site_import: if field == Field::SiteImport {
                None
            } else {
                self.site_import
            },
            skip_first_source_line: if field == Field::SkipFirstSourceLine {
                None
            } else {
                self.skip_first_source_line
            },
            stdio_encoding: if field == Field::StdioEncoding {
                None
            } else {
                self.stdio_encoding
            },
            stdio_errors: if field == Field::StdioErrors {
                None
            } else {
                self.stdio_errors
            },
            tracemalloc: if field == Field::Tracemalloc {
                None
            } else {
                self.tracemalloc
            },
            user_site_directory: if field == Field::UserSiteDirectory {
                None
            } else {
                self.user_site_directory
            },
            verbose: if field == Field::Verbose {
                None
            } else {
                self.verbose
            },
            warn_options: if field == Field::WarnOptions {
                None
            } else {
                self.warn_options
            },
            write_bytecode: if field == Field::WriteBytecode {
                None
            } else {
                self.write_bytecode
            },
            x_options: if field == Field::XOptions {
                None
            } else {
                self.x_options
            },
        }
    }

    /// The fields of a pass that are set, in walking order. These are the
    /// fields that an initializer applies in that pass; it skips the others.
    pub open spec fn spec_present(self, tier: Tier) -> Seq<Field> {
        Field::spec_all().filter(|f: Field| f.spec_tier() == tier && self.lookup(f) is Some)
    }

    /// A fresh record: the given profile, every optional field unset.
    pub fn new(profile: PythonInterpreterProfile) -> (r: Self)
        ensures
            r == Self::spec_new(profile),
            forall|f: Field| r.lookup(f) is None,
    {
        PythonInterpreterConfig {
            profile,
            allocator: None,
            configure_locale: None,
            coerce_c_locale: None,
            coerce_c_locale_warn: None,
            development_mode: None,
            isolated: None,
            legacy_windows_fs_encoding: None,
            parse_argv: None,
            use_environment: None,
            utf8_mode: None,
            argv: None,
            base_exec_prefix: None,
            base_executable: None,
            base_prefix: None,
            buffered_stdio: None,
            bytes_warning: None,
            check_hash_pycs_mode: None,
            configure_c_stdio: None,
            dump_refs: None,
            exec_prefix: None,
            executable: None,
            fault_handler: None,
            filesystem_encoding: None,
            filesystem_errors: None,
            hash_seed: None,
            home: None,
            import_time: None,
            inspect: None,
            install_signal_handlers: None,
            interactive: None,
            legacy_windows_stdio: None,
            malloc_stats: None,
            module_search_paths: None,
            optimization_level: None,
            parser_debug: None,
            pathconfig_warnings: None,
            prefix: None,
            program_name: None,
            pycache_prefix: None,
            python_path_env: None,
            quiet: None,
            run_command: None,
            run_filename: None,
            run_module: None,
            show_ref_count: None,
            site_import: None,
            skip_first_source_line: None,
            stdio_encoding: None,
            stdio_errors: None,
            tracemalloc: None,
            user_site_directory: None,
            verbose: None,
            warn_options: None,
            write_bytecode: None,
            x_options: None,
        }
    }

    /// Whether a field is set.
    pub fn is_set(&self, field: Field) -> (r: bool)
        ensures
            r == self.lookup(field) is Some,
    {
        match field {
            Field::Allocator => self.allocator.is_some(),
            Field::ConfigureLocale => self.configure_locale.is_some(),
            Field::CoerceCLocale => self.coerce_c_locale.is_some(),
            Field::CoerceCLocaleWarn => self.coerce_c_locale_warn.is_some(),
            Field::DevelopmentMode => self.development_mode.is_some(),
            Field::Isolated => self.isolated.is_some(),
            Field::LegacyWindowsFsEncoding => self.legacy_windows_fs_encoding.is_some(),
            Field::ParseArgv => self.parse_argv.is_some(),
            Field::UseEnvironment => self.use_environment.is_some(),
            Field::Utf8Mode => self.utf8_mode.is_some(),
            Field::Argv => self.argv.is_some(),
            Field::BaseExecPrefix => self.base_exec_prefix.is_some(),
            Field::BaseExecutable => self.base_executable.is_some(),
            Field::BasePrefix => self.base_prefix.is_some(),
            Field::BufferedStdio => self.buffered_stdio.is_some(),
            Field::BytesWarning => self.bytes_warning.is_some(),
            Field::CheckHashPycsMode => self.check_hash_pycs_mode.is_some(),
            Field::ConfigureCStdio => self.configure_c_stdio.is_some(),
            Field::DumpRefs => self.dump_refs.is_some(),
            Field::ExecPrefix => self.exec_prefix.is_some(),
            Field::Executable => self.executable.is_some(),
            Field::FaultHandler => self.fault_handler.is_some(),
            Field::FilesystemEncoding => self.filesystem_encoding.is_some(),
            Field::FilesystemErrors => self.filesystem_errors.is_some(),
            Field::HashSeed => self.hash_seed.is_some(),
            Field::Home => self.home.is_some(),
            Field::ImportTime => self.import_time.is_some(),
            Field::Inspect => self.inspect.is_some(),
            Field::InstallSignalHandlers => self.install_signal_handlers.is_some(),
            Field::Interactive => self.interactive.is_some(),
            Field::LegacyWindowsStdio => self.legacy_windows_stdio.is_some(),
            Field::MallocStats => self.malloc_stats.is_some(),
            Field::ModuleSearchPaths => self.module_search_paths.is_some(),
            Field::OptimizationLevel => self.optimization_level.is_some(),
            Field::ParserDebug => self.parser_debug.is_some(),
            Field::PathconfigWarnings => self.pathconfig_warnings.is_some(),
            Field::Prefix => self.prefix.is_some(),
            Field::ProgramName => self.program_name.is_some(),
            Field::PycachePrefix => self.pycache_prefix.is_some(),
            Field::PythonPathEnv => self.python_path_env.is_some(),
            Field::Quiet => self.quiet.is_some(),
            Field::RunCommand => self.run_command.is_some(),
            Field::RunFilename => self.run_filename.is_some(),
            Field::RunModule => self.run_module.is_some(),
            Field::ShowRefCount => self.show_ref_count.is_some(),
            Field::SiteImport => self.site_import.is_some(),
            Field::SkipFirstSourceLine => self.skip_first_source_line.is_some(),
            Field::StdioEncoding => self.stdio_encoding.is_some(),
            Field::StdioErrors => self.stdio_errors.is_some(),
            Field::Tracemalloc => self.tracemalloc.is_some(),
            Field::UserSiteDirectory => self.user_site_directory.is_some(),
            Field::Verbose => self.verbose.is_some(),
            Field::WarnOptions => self.warn_options.is_some(),
            Field::WriteBytecode => self.write_bytecode.is_some(),
            Field::XOptions => self.x_options.is_some(),
        }
    }

    /// Puts a setting's value into its field.
    fn put(&mut self, setting: Setting)
        ensures
            *final(self) == old(self).with(setting),
    {
        match setting {
            Setting::Allocator(v) => {
                self.allocator = Some(v);
            },
            Setting::ConfigureLocale(v) => {
                self.configure_locale = Some(v);
            },
            Setting::CoerceCLocale(v) => {
                self.coerce_c_locale = Some(v);
            },
            Setting::CoerceCLocaleWarn(v) => {
                self.coerce_c_locale_warn = Some(v);
            },
            Setting::DevelopmentMode(v) => {
                self.development_mode = Some(v);
            },
            Setting::Isolated(v) => {
                self.isolated = Some(v);
            },
            Setting::LegacyWindowsFsEncoding(v) => {
                self.legacy_windows_fs_encoding = Some(v);
            },
            Setting::ParseArgv(v) => {
                self.parse_argv = Some(v);
            },
            Setting::UseEnvironment(v) => {
                self.use_environment = Some(v);
            },
            Setting::Utf8Mode(v) => {
                self.utf8_mode = Some(v);
            },
            Setting::Argv(v) => {
                self.argv = Some(v);
            },
            Setting::BaseExecPrefix(v) => {
                self.base_exec_prefix = Some(v);
            },
            Setting::BaseExecutable(v) => {
                self.base_executable = Some(v);
            },
            Setting::BasePrefix(v) => {
                self.base_prefix = Some(v);
            },
            Setting::BufferedStdio(v) => {
                self.buffered_stdio = Some(v);
            },
            Setting::BytesWarning(v) => {
                self.bytes_warning = Some(v);
            },
            Setting::CheckHashPycsMode(v) => {
                self.check_hash_pycs_mode = Some(v);
            },
            Setting::ConfigureCStdio(v) => {
                self.configure_c_stdio = Some(v);
            },
            Setting::DumpRefs(v) => {
                self.dump_refs = Some(v);
            },
            Setting::ExecPrefix(v) => {
                self.exec_prefix = Some(v);
            },
            Setting::Executable(v) => {
                self.executable = Some(v);
            },
            Setting::FaultHandler(v) => {
                self.fault_handler = Some(v);
            },
            Setting::FilesystemEncoding(v) => {
                self.filesystem_encoding = Some(v);
            },
            Setting::FilesystemErrors(v) => {
                self.filesystem_errors = Some(v);
            },
            Setting::HashSeed(v) => {
                self.hash_seed = Some(v);
            },
            Setting::Home(v) => {
                self.home = Some(v);
            },
            Setting::ImportTime(v) => {
                self.import_time = Some(v);
            },
            Setting::Inspect(v) => {
                self.inspect = Some(v);
            },
            Setting::InstallSignalHandlers(v) => {
                self.install_signal_handlers = Some(v);
            },
            Setting::Interactive(v) => {
                self.interactive = Some(v);
            },
            Setting::LegacyWindowsStdio(v) => {
                self.legacy_windows_stdio = Some(v);
            },
            Setting::MallocStats(v) => {
                self.malloc_stats = Some(v);
            },
            Setting::ModuleSearchPaths(v) => {
                self.module_search_paths = Some(v);
            },
            Setting::OptimizationLevel(v) => {
                self.optimization_level = Some(v);
            },
            Setting::ParserDebug(v) => {
                self.parser_debug = Some(v);
            },
            Setting::PathconfigWarnings(v) => {
                self.pathconfig_warnings = Some(v);
            },
            Setting::Prefix(v) => {
                self.prefix = Some(v);
            },
            Setting::ProgramName(v) => {
                self.program_name = Some(v);
            },
            Setting::PycachePrefix(v) => {
                self.pycache_prefix = Some(v);
            },
            Setting::PythonPathEnv(v) => {
                self.python_path_env = Some(v);
            },
            Setting::Quiet(v) => {
                self.quiet = Some(v);
            },
            Setting::RunCommand(v) => {
                self.run_command = Some(v);
            },
            Setting::RunFilename(v) => {
                self.run_filename = Some(v);
            },
            Setting::RunModule(v) => {
                self.run_module = Some(v);
            },
            Setting::ShowRefCount(v) => {
                self.show_ref_count = Some(v);
            },
            Setting::SiteImport(v) => {
                self.site_import = Some(v);
            },
            Setting::SkipFirstSourceLine(v) => {
                self.skip_first_source_line = Some(v);
            },
            Setting::StdioEncoding(v) => {
                self.stdio_encoding = Some(v);
            },
            Setting::StdioErrors(v) => {
                self.stdio_errors = Some(v);
            },
            Setting::Tracemalloc(v) => {
                self.tracemalloc = Some(v);
            },
            Setting::UserSiteDirectory(v) => {
                self.user_site_directory = Some(v);
            },
            Setting::Verbose(v) => {
                self.verbose = Some(v);
            },
            Setting::WarnOptions(v) => {
                self.warn_options = Some(v);
            },
            Setting::WriteBytecode(v) => {
                self.write_bytecode = Some(v);
            },
            Setting::XOptions(v) => {
                self.x_options = Some(v);
            },
        }
    }

    /// Sets one field. The new record is the old one with that field
    /// holding the value: the profile and every other field keep what they
    /// held.
    pub fn set(&mut self, setting: Setting)
        ensures
            *final(self) == old(self).with(setting),
            final(self).profile == old(self).profile,
            final(self).lookup(setting.spec_field()) == Some(setting),
            forall|g: Field|
                g != setting.spec_field() ==> final(self).lookup(g) == old(self).lookup(g),
    {
        proof {
            Self::lemma_with_sets(*old(self), setting);
            assert forall|g: Field| g != setting.spec_field() implies old(self).with(
                setting,
            ).lookup(g) == old(self).lookup(g) by {
                Self::lemma_with_keeps(*old(self), setting, g);
            }
        }
        self.put(setting);
    }

    /// Empties a field.
    fn drop_value(&mut self, field: Field)
        ensures
            *final(self) == old(self).without(field),
    {
        match field {
            Field::Allocator => {
                self.allocator = None;
            },
            Field::ConfigureLocale => {
                self.configure_locale = None;
            },
            Field::CoerceCLocale => {
                self.coerce_c_locale = None;
            },
            Field::CoerceCLocaleWarn => {
                self.coerce_c_locale_warn = None;
            },
            Field::DevelopmentMode => {
                self.development_mode = None;
            },
            Field::Isolated => {
                self.isolated = None;
            },
            Field::LegacyWindowsFsEncoding => {
                self.legacy_windows_fs_encoding = None;
            },
            Field::ParseArgv => {
                self.parse_argv = None;
            },
            Field::UseEnvironment => {
                self.use_environment = None;
            },
            Field::Utf8Mode => {
                self.utf8_mode = None;
            },
            Field::Argv => {
                self.argv = None;
            },
            Field::BaseExecPrefix => {
                self.base_exec_prefix = None;
            },
            Field::BaseExecutable => {
                self.base_executable = None;
            },
            Field::BasePrefix => {
                self.base_prefix = None;
            },
            Field::BufferedStdio => {
                self.buffered_stdio = None;
            },
            Field::BytesWarning => {
                self.bytes_warning = None;
            },
            Field::CheckHashPycsMode => {
                self.check_hash_pycs_mode = None;
            },
            Field::ConfigureCStdio => {
                self.configure_c_stdio = None;
            },
            Field::DumpRefs => {
                self.dump_refs = None;
            },
            Field::ExecPrefix => {
                self.exec_prefix = None;
            },
            Field::Executable => {
                self.executable = None;
            },
            Field::FaultHandler => {
                self.fault_handler = None;
            },
            Field::FilesystemEncoding => {
                self.filesystem_encoding = None;
            },
            Field::FilesystemErrors => {
                self.filesystem_errors = None;
            },
            Field::HashSeed => {
                self.hash_seed = None;
            },
            Field::Home => {
                self.home = None;
            },
            Field::ImportTime => {
                self.import_time = None;
            },
            Field::Inspect => {
                self.inspect = None;
            },
            Field::InstallSignalHandlers => {
                self.install_signal_handlers = None;
            },
            Field::Interactive => {
                self.interactive = None;
            },
            Field::LegacyWindowsStdio => {
                self.legacy_windows_stdio = None;
            },
            Field::MallocStats => {
                self.malloc_stats = None;
            },
            Field::ModuleSearchPaths => {
                self.module_search_paths = None;
            },
            Field::OptimizationLevel => {
                self.optimization_level = None;
            },
            Field::ParserDebug => {
                self.parser_debug = None;
            },
            Field::PathconfigWarnings => {
                self.pathconfig_warnings = None;
            },
            Field::Prefix => {
                self.prefix = None;
            },
            Field::ProgramName => {
                self.program_name = None;
            },
            Field::PycachePrefix => {
                self.pycache_prefix = None;
            },
            Field::PythonPathEnv => {
                self.python_path_env = None;
            },
            Field::Quiet => {
                self.quiet = None;
            },
            Field::RunCommand => {
                self.run_command = None;
            },
            Field::RunFilename => {
                self.run_filename = None;
            },
            Field::RunModule => {
                self.run_module = None;
            },
            Field::ShowRefCount => {
                self.show_ref_count = None;
            },
            Field::SiteImport => {
                self.site_import = None;
            },
            Field::SkipFirstSourceLine => {
                self.skip_first_source_line = None;
            },
            Field::StdioEncoding => {
                self.stdio_encoding = None;
            },
            Field::StdioErrors => {
                self.stdio_errors = None;
            },
            Field::Tracemalloc => {
                self.tracemalloc = None;
            },
            Field::UserSiteDirectory => {
                self.user_site_directory = None;
            },
            Field::Verbose => {
                self.verbose = None;
            },
            Field::WarnOptions => {
                self.warn_options = None;
            },
            Field::WriteBytecode => {
                self.write_bytecode = None;
            },
            Field::XOptions => {
                self.x_options = None;
            },
        }
    }

    /// Unsets one field. The new record is the old one without a value in
    /// that field: the profile and every other field keep what they held.
    pub fn clear(&mut self, field: Field)
        ensures
            *final(self) == old(self).without(field),
            final(self).profile == old(self).profile,
            final(self).lookup(field) is None,
            forall|g: Field| g != field ==> final(self).lookup(g) == old(self).lookup(g),
    {
        proof {
            Self::lemma_without_clears(*old(self), field);
            assert forall|g: Field| g != field implies old(self).without(field).lookup(g) == old(
                self,
            ).lookup(g) by {
                Self::lemma_without_keeps(*old(self), field, g);
            }
        }
        self.drop_value(field);
    }

    /// The fields of a pass that are set, in walking order.
    pub fn present(&self, tier: Tier) -> (v: Vec<Field>)
        ensures
            v@ == self.spec_present(tier),
    {
        let all = Field::all();
        let ghost keep = |f: Field| f.spec_tier() == tier && self.lookup(f) is Some;
        let mut v: Vec<Field> = Vec::new();
        let mut i: usize = 0;
        proof {
            reveal(Seq::filter);
            assert(all@.take(0) =~= Seq::<Field>::empty());
        }
        while i < all.len()
            invariant
                i <= all.len(),
                all@ == Field::spec_all(),
                keep == |f: Field| f.spec_tier() == tier && self.lookup(f) is Some,
                v@ == all@.take(i as int).filter(keep),
            decreases all.len() - i,
        {
            let f = all[i];
            proof {
                reveal(Seq::filter);
                let next = all@.take(i + 1);
                assert(next.drop_last() =~= all@.take(i as int));
                assert(next.last() == f);
            }
            if f.tier() == tier && self.is_set(f) {
                v.push(f);
            }
            i += 1;
        }
        proof {
            assert(all@.take(i as int) =~= all@);
        }
        v
    }

    /// Sets the profile from its token. An invalid token is turned down
    /// with the profile's rejection message, and the record stays as it was.
    pub fn set_profile_token(&mut self, token: &str) -> (r: Result<(), String>)
        ensures
            match r {
                Ok(()) => match PythonInterpreterProfile::spec_parse(token@) {
                    Some(v) => *final(self) == (PythonInterpreterConfig {
                        profile: v,
                        ..*old(self)
                    }),
                    None => false,
                },
                Err(e) => PythonInterpreterProfile::spec_parse(token@) is None
                    && e@ == PythonInterpreterProfile::rejection(token@)
                    && *final(self) == *old(self),
            },
    {
        match PythonInterpreterProfile::parse(token) {
            Ok(v) => {
                self.profile = v;
                Ok(())
            },
            Err(e) => Err(e),
        }
    }

    /// Sets `allocator` from a token. An invalid token is turned down
    /// with the rejection message of [`Allocator`], and the record stays as it was.
    pub fn set_allocator_token(&mut self, token: &str) -> (r: Result<(), String>)
        ensures
            match r {
                Ok(()) => match Allocator::spec_parse(token@) {
                    Some(v) => *final(self) == old(self).with(Setting::Allocator(v)),
                    None => false,
                },
                Err(e) => Allocator::spec_parse(token@) is None
                    && e@ == Allocator::rejection(token@)
                    && *final(self) == *old(self),
            },
    {
        match Allocator::parse(token) {
            Ok(v) => {
                self.allocator = Some(v);
                Ok(())
            },
            Err(e) => Err(e),
        }
    }

    /// Sets `coerce_c_locale` from a token. An invalid token is turned down
    /// with the rejection message of [`CoerceCLocale`], and the record stays as it was.
    pub fn set_coerce_c_locale_token(&mut self, token: &str) -> (r: Result<(), String>)
        ensures
            match r {
                Ok(()) => match CoerceCLocale::spec_parse(token@) {
                    Some(v) => *final(self) == old(self).with(Setting::CoerceCLocale(v)),
                    None => false,
                },
                Err(e) => CoerceCLocale::spec_parse(token@) is None
                    && e@ == CoerceCLocale::rejection(token@)
                    && *final(self) == *old(self),
            },
    {
        match CoerceCLocale::parse(token) {
            Ok(v) => {
                self.coerce_c_locale = Some(v);
                Ok(())
            },
            Err(e) => Err(e),
        }
    }

    /// Sets `bytes_warning` from a token. An invalid token is turned down
    /// with the rejection message of [`BytesWarning`], and the record stays as it was.
    pub fn set_bytes_warning_token(&mut self, token: &str) -> (r: Result<(), String>)
        ensures
            match r {
                Ok(()) => match BytesWarning::spec_parse(token@) {
                    Some(v) => *final(self) == old(self).with(Setting::BytesWarning(v)),
                    None => false,
                },
                Err(e) => BytesWarning::spec_parse(token@) is None
                    && e@ == BytesWarning::rejection(token@)
                    && *final(self) == *old(self),
            },
    {
        match BytesWarning::parse(token) {
            Ok(v) => {
                self.bytes_warning = Some(v);
                Ok(())
            },
            Err(e) => Err(e),
        }
    }

    /// Sets `check_hash_pycs_mode` from a token. An invalid token is turned down
    /// with the rejection message of [`CheckHashPycsMode`], and the record stays as it was.
    pub fn set_check_hash_pycs_mode_token(&mut self, token: &str) -> (r: Result<(), String>)
        ensures
            match r {
                Ok(()) => match CheckHashPycsMode::spec_parse(token@) {
                    Some(v) => *final(self) == old(self).with(Setting::CheckHashPycsMode(v)),
                    None => false,
                },
                Err(e) => CheckHashPycsMode::spec_parse(token@) is None
                    && e@ == CheckHashPycsMode::rejection(token@)
                    && *final(self) == *old(self),
            },
    {
        match CheckHashPycsMode::parse(token) {
            Ok(v) => {
                self.check_hash_pycs_mode = Some(v);
                Ok(())
            },
            Err(e) => Err(e),
        }
    }

    /// Sets `optimization_level` from the number of a level. A number that names
    /// no level is turned down with the rejection message of
    /// [`BytecodeOptimizationLevel`], and the record stays as it was.
    pub fn set_optimization_level_code(&mut self, code: i32) -> (r: Result<(), String>)
        ensures
            match r {
                Ok(()) => match BytecodeOptimizationLevel::spec_from_code(code as int) {
                    Some(v) => *final(self) == old(self).with(Setting::OptimizationLevel(v)),
                    None => false,
                },
                Err(e) => BytecodeOptimizationLevel::spec_from_code(code as int) is None
                    && e@ == BytecodeOptimizationLevel::rejection(code as int)
                    && *final(self) == *old(self),
            },
    {
        match BytecodeOptimizationLevel::from_code(code) {
            Ok(v) => {
                self.optimization_level = Some(v);
                Ok(())
            },
            Err(e) => Err(e),
        }
    }

    /// A fresh record has no field set.
    pub proof fn lemma_new_unset(profile: PythonInterpreterProfile, f: Field)
        ensures
            Self::spec_new(profile).lookup(f) is None,
            Self::spec_new(profile).profile == profile,
    {
    }

    /// A pass lists exactly its set fields: a field is in the list of a pass
    /// exactly when it belongs to the pass and is set. An unset field is
    /// skipped.
    pub proof fn lemma_present_exact(c: Self, tier: Tier, f: Field)
        ensures
            c.spec_present(tier).contains(f) <==> f.spec_tier() == tier && c.lookup(f) is Some,
    {
        let keep = |g: Field| g.spec_tier() == tier && c.lookup(g) is Some;
        let all = Field::spec_all();
        Field::lemma_all_complete(f);
        if keep(f) {
            all.lemma_filter_contains(keep, f.position());
        }
        if all.filter(keep).contains(f) {
            all.lemma_filter_contains_rev(keep, f);
        }
    }

    /// A pass lists its fields in walking order, each at most once.
    pub proof fn lemma_present_ordered(c: Self, tier: Tier, i: int, j: int)
        requires
            0 <= i < j < c.spec_present(tier).len(),
        ensures
            c.spec_present(tier)[i].position() < c.spec_present(tier)[j].position(),
    {
        let keep = |g: Field| g.spec_tier() == tier && c.lookup(g) is Some;
        assert forall|a: int, b: int| 0 <= a < b < Field::spec_all().len() implies
            Field::spec_all()[a].position() < Field::spec_all()[b].position() by {
            assert(Field::spec_all()[a].position() == a);
            assert(Field::spec_all()[b].position() == b);
        }
        Field::lemma_filter_keeps_order(Field::spec_all(), keep);
    }

    /// A record is its profile and what its fields hold: two records that
    /// agree on both are the same record.
    pub proof fn lemma_lookup_determines(a: Self, b: Self)
        requires
            a.profile == b.profile,
            forall|f: Field| a.lookup(f) == b.lookup(f),
        ensures
            a == b,
    {
        assert(a.lookup(Field::Allocator) == b.lookup(Field::Allocator));
        assert(a.lookup(Field::ConfigureLocale) == b.lookup(Field::ConfigureLocale));
        assert(a.lookup(Field::CoerceCLocale) == b.lookup(Field::CoerceCLocale));
        assert(a.lookup(Field::CoerceCLocaleWarn) == b.lookup(Field::CoerceCLocaleWarn));
        assert(a.lookup(Field::DevelopmentMode) == b.lookup(Field::DevelopmentMode));
        assert(a.lookup(Field::Isolated) == b.lookup(Field::Isolated));
        assert(a.lookup(Field::LegacyWindowsFsEncoding) == b.lookup(Field::LegacyWindowsFsEncoding));
        assert(a.lookup(Field::ParseArgv) == b.lookup(Field::ParseArgv));
        assert(a.lookup(Field::UseEnvironment) == b.lookup(Field::UseEnvironment));
        assert(a.lookup(Field::Utf8Mode) == b.lookup(Field::Utf8Mode));
        assert(a.lookup(Field::Argv) == b.lookup(Field::Argv));
        assert(a.lookup(Field::BaseExecPrefix) == b.lookup(Field::BaseExecPrefix));
        assert(a.lookup(Field::BaseExecutable) == b.lookup(Field::BaseExecutable));
        assert(a.lookup(Field::BasePrefix) == b.lookup(Field::BasePrefix));
        assert(a.lookup(Field::BufferedStdio) == b.lookup(Field::BufferedStdio));
        assert(a.lookup(Field::BytesWarning) == b.lookup(Field::BytesWarning));
        assert(a.lookup(Field::CheckHashPycsMode) == b.lookup(Field::CheckHashPycsMode));
        assert(a.lookup(Field::ConfigureCStdio) == b.lookup(Field::ConfigureCStdio));
        assert(a.lookup(Field::DumpRefs) == b.lookup(Field::DumpRefs));
        assert(a.lookup(Field::ExecPrefix) == b.lookup(Field::ExecPrefix));
        assert(a.lookup(Field::Executable) == b.lookup(Field::Executable));
        assert(a.lookup(Field::FaultHandler) == b.lookup(Field::FaultHandler));
        assert(a.lookup(Field::FilesystemEncoding) == b.lookup(Field::FilesystemEncoding));
        assert(a.lookup(Field::FilesystemErrors) == b.lookup(Field::FilesystemErrors));
        assert(a.lookup(Field::HashSeed) == b.lookup(Field::HashSeed));
        assert(a.lookup(Field::Home) == b.lookup(Field::Home));
        assert(a.lookup(Field::ImportTime) == b.lookup(Field::ImportTime));
        assert(a.lookup(Field::Inspect) == b.lookup(Field::Inspect));
        assert(a.lookup(Field::InstallSignalHandlers) == b.lookup(Field::InstallSignalHandlers));
        assert(a.lookup(Field::Interactive) == b.lookup(Field::Interactive));
        assert(a.lookup(Field::LegacyWindowsStdio) == b.lookup(Field::LegacyWindowsStdio));
        assert(a.lookup(Field::MallocStats) == b.lookup(Field::MallocStats));
        assert(a.lookup(Field::ModuleSearchPaths) == b.lookup(Field::ModuleSearchPaths));
        assert(a.lookup(Field::OptimizationLevel) == b.lookup(Field::OptimizationLevel));
        assert(a.lookup(Field::ParserDebug) == b.lookup(Field::ParserDebug));
        assert(a.lookup(Field::PathconfigWarnings) == b.lookup(Field::PathconfigWarnings));
        assert(a.lookup(Field::Prefix) == b.lookup(Field::Prefix));
        assert(a.lookup(Field::ProgramName) == b.lookup(Field::ProgramName));
        assert(a.lookup(Field::PycachePrefix) == b.lookup(Field::PycachePrefix));
        assert(a.lookup(Field::PythonPathEnv) == b.lookup(Field::PythonPathEnv));
        assert(a.lookup(Field::Quiet) == b.lookup(Field::Quiet));
        assert(a.lookup(Field::RunCommand) == b.lookup(Field::RunCommand));
        assert(a.lookup(Field::RunFilename) == b.lookup(Field::RunFilename));
        assert(a.lookup(Field::RunModule) == b.lookup(Field::RunModule));
        assert(a.lookup(Field::ShowRefCount) == b.lookup(Field::ShowRefCount));
        assert(a.lookup(Field::SiteImport) == b.lookup(Field::SiteImport));
        assert(a.lookup(Field::SkipFirstSourceLine) == b.lookup(Field::SkipFirstSourceLine));
        assert(a.lookup(Field::StdioEncoding) == b.lookup(Field::StdioEncoding));
        assert(a.lookup(Field::StdioErrors) == b.lookup(Field::StdioErrors));
        assert(a.lookup(Field::Tracemalloc) == b.lookup(Field::Tracemalloc));
        assert(a.lookup(Field::UserSiteDirectory) == b.lookup(Field::UserSiteDirectory));
        assert(a.lookup(Field::Verbose) == b.lookup(Field::Verbose));
        assert(a.lookup(Field::WarnOptions) == b.lookup(Field::WarnOptions));
        assert(a.lookup(Field::WriteBytecode) == b.lookup(Field::WriteBytecode));
        assert(a.lookup(Field::XOptions) == b.lookup(Field::XOptions));
    }

    /// Setting a field makes the field hold the value, and keeps the profile.
    pub proof fn lemma_with_sets(c: Self, setting: Setting)
        ensures
            c.with(setting).lookup(setting.spec_field()) == Some(setting),
            c.with(setting).profile == c.profile,
    {
    }

    /// Independence: setting a field changes what no other field holds.
    pub proof fn lemma_with_keeps(c: Self, setting: Setting, g: Field)
        requires
            g != setting.spec_field(),
        ensures
            c.with(setting).lookup(g) == c.lookup(g),
    {
    }

    /// Unsetting a field leaves the field empty, and keeps the profile.
    pub proof fn lemma_without_clears(c: Self, field: Field)
        ensures
            c.without(field).lookup(field) is None,
            c.without(field).profile == c.profile,
    {
    }

    /// Independence: unsetting a field changes what no other field holds.
    pub proof fn lemma_without_keeps(c: Self, field: Field, g: Field)
        requires
            g != field,
        ensures
            c.without(field).lookup(g) == c.lookup(g),
    {
    }
}

impl Default for PythonInterpreterConfig {
    /// The isolated profile, with every optional field unset.
    fn default() -> (r: Self)
        ensures
            r == PythonInterpreterConfig::spec_new(PythonInterpreterProfile::Isolated),
            forall|f: Field| r.lookup(f) is None,
    {
        PythonInterpreterConfig::new(PythonInterpreterProfile::Isolated)
    }
}

} // verus!
