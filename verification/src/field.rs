//! The optional fields of the configuration record, each with the
//! initialization pass that it belongs to.

use vstd::prelude::*;

verus! {

/// The two passes of native initialization. An initializer applies the
/// pre-configuration fields before the runtime bootstraps, and the
/// configuration fields after it.
#[derive(Clone, Copy, Debug, PartialEq, Eq, Structural)]
pub enum Tier {
    /// The first pass: locale, allocator and encoding.
    PreConfig,
    /// The second pass: paths, run mode and runtime flags.
    Config,
}

/// Names an optional field of the configuration record.
#[derive(Clone, Copy, Debug, PartialEq, Eq, Hash, Structural)]
pub enum Field {
    /// Name of the memory allocator.
    Allocator,
    /// Whether to set the LC_CTYPE locale to the user preferred locale.
    ConfigureLocale,
    /// How to coerce the locale settings.
    CoerceCLocale,
    /// Whether to emit a warning if the C locale is coerced.
    CoerceCLocaleWarn,
    /// Whether to enable Python development mode.
    DevelopmentMode,
    /// Isolated mode.
    Isolated,
    /// Whether to use legacy filesystem encodings on Windows.
    LegacyWindowsFsEncoding,
    /// Whether argv should be parsed the way `python` parses them.
    ParseArgv,
    /// Whether environment variables are read to control the interpreter configuration.
    UseEnvironment,
    /// Controls Python UTF-8 mode.
    Utf8Mode,
    /// Command line arguments.
    Argv,
    /// Controls `sys.base_exec_prefix`.
    BaseExecPrefix,
    /// Controls `sys._base_executable`.
    BaseExecutable,
    /// Controls `sys.base_prefix`.
    BasePrefix,
    /// Controls buffering on `stdout` and `stderr`.
    BufferedStdio,
    /// Controls warnings/errors for some bytes type coercions.
    BytesWarning,
    /// Validation mode for `.pyc` files.
    CheckHashPycsMode,
    /// Controls binary mode and buffering on C standard streams.
    ConfigureCStdio,
    /// Dump Python references.
    DumpRefs,
    /// Controls `sys.exec_prefix`.
    ExecPrefix,
    /// Controls `sys.executable`.
    Executable,
    /// Enable `faulthandler`.
    FaultHandler,
    /// Controls the encoding to use for filesystems/paths.
    FilesystemEncoding,
    /// Filesystem encoding error handler.
    FilesystemErrors,
    /// Randomized hash function seed.
    HashSeed,
    /// Python home directory.
    Home,
    /// Whether to profile `import` time.
    ImportTime,
    /// Enter interactive mode after executing a script or a command.
    Inspect,
    /// Whether to install Python signal handlers.
    InstallSignalHandlers,
    /// Whether to enable the interactive REPL mode.
    Interactive,
    /// Controls legacy stdio behavior on Windows.
    LegacyWindowsStdio,
    /// Whether to dump statistics from the `pymalloc` allocator on exit.
    MallocStats,
    /// Defines `sys.path`.
    ModuleSearchPaths,
    /// Bytecode optimization level.
    OptimizationLevel,
    /// Parser debug mode.
    ParserDebug,
    /// Whether calculating the Python path configuration can emit warnings.
    PathconfigWarnings,
    /// Defines `sys.prefix`.
    Prefix,
    /// Program named used to initialize state during path configuration.
    ProgramName,
    /// Directory where `.pyc` files are written.
    PycachePrefix,
    /// Module search paths, as the `PYTHONPATH` environment variable gives them.
    PythonPathEnv,
    /// Quiet mode.
    Quiet,
    /// Value of the `-c` command line option.
    RunCommand,
    /// Filename passed on the command line.
    RunFilename,
    /// Value of the `-m` command line option.
    RunModule,
    /// Whether to show the total reference count at exit.
    ShowRefCount,
    /// Whether to import the `site` module at startup.
    SiteImport,
    /// Whether to skip the first line of [Self::run_filename].
    SkipFirstSourceLine,
    /// Encoding of `sys.stdout`, `sys.stderr`, and `sys.stdin`.
    StdioEncoding,
    /// Encoding error handler for `sys.stdout` and `sys.stdin`.
    StdioErrors,
    /// Whether to enable `tracemalloc`.
    Tracemalloc,
    /// Whether to add the user site directory to `sys.path`.
    UserSiteDirectory,
    /// Verbose mode.
    Verbose,
    /// Options of the `warning` module to control behavior.
    WarnOptions,
    /// Controls `sys.dont_write_bytecode`.
    WriteBytecode,
    /// Values of the `-X` command line options / `sys._xoptions`.
    XOptions,
}

impl Field {
    /// Every field once, in the order in which an initializer walks them:
    /// the pre-configuration fields first, then the configuration fields.
    pub open spec fn spec_all() -> Seq<Field> {
        seq![
            Field::Allocator,
            Field::ConfigureLocale,
            Field::CoerceCLocale,
            Field::CoerceCLocaleWarn,
            Field::DevelopmentMode,
            Field::Isolated,
            Field::LegacyWindowsFsEncoding,
            Field::ParseArgv,
            Field::UseEnvironment,
            Field::Utf8Mode,
            Field::Argv,
            Field::BaseExecPrefix,
            Field::BaseExecutable,
            Field::BasePrefix,
            Field::BufferedStdio,
            Field::BytesWarning,
            Field::CheckHashPycsMode,
            Field::ConfigureCStdio,
            Field::DumpRefs,
            Field::ExecPrefix,
            Field::Executable,
            Field::FaultHandler,
            Field::FilesystemEncoding,
            Field::FilesystemErrors,
            Field::HashSeed,
            Field::Home,
            Field::ImportTime,
            Field::Inspect,
            Field::InstallSignalHandlers,
            Field::Interactive,
            Field::LegacyWindowsStdio,
            Field::MallocStats,
            Field::ModuleSearchPaths,
            Field::OptimizationLevel,
            Field::ParserDebug,
            Field::PathconfigWarnings,
            Field::Prefix,
            Field::ProgramName,
            Field::PycachePrefix,
            Field::PythonPathEnv,
            Field::Quiet,
            Field::RunCommand,
            Field::RunFilename,
            Field::RunModule,
            Field::ShowRefCount,
            Field::SiteImport,
            Field::SkipFirstSourceLine,
            Field::StdioEncoding,
            Field::StdioErrors,
            Field::Tracemalloc,
            Field::UserSiteDirectory,
            Field::Verbose,
            Field::WarnOptions,
            Field::WriteBytecode,
            Field::XOptions,
        ]
    }

    /// The place of a field in the walking order, counted from 0.
    pub open spec fn position(self) -> int {
        match self {
            Field::Allocator => 0,
            Field::ConfigureLocale => 1,
            Field::CoerceCLocale => 2,
            Field::CoerceCLocaleWarn => 3,
            Field::DevelopmentMode => 4,
            Field::Isolated => 5,
            Field::LegacyWindowsFsEncoding => 6,
            Field::ParseArgv => 7,
            Field::UseEnvironment => 8,
            Field::Utf8Mode => 9,
            Field::Argv => 10,
            Field::BaseExecPrefix => 11,
            Field::BaseExecutable => 12,
            Field::BasePrefix => 13,
            Field::BufferedStdio => 14,
            Field::BytesWarning => 15,
            Field::CheckHashPycsMode => 16,
            Field::ConfigureCStdio => 17,
            Field::DumpRefs => 18,
            Field::ExecPrefix => 19,
            Field::Executable => 20,
            Field::FaultHandler => 21,
            Field::FilesystemEncoding => 22,
            Field::FilesystemErrors => 23,
            Field::HashSeed => 24,
            Field::Home => 25,
            Field::ImportTime => 26,
            Field::Inspect => 27,
            Field::InstallSignalHandlers => 28,
            Field::Interactive => 29,
            Field::LegacyWindowsStdio => 30,
            Field::MallocStats => 31,
            Field::ModuleSearchPaths => 32,
            Field::OptimizationLevel => 33,
            Field::ParserDebug => 34,
            Field::PathconfigWarnings => 35,
            Field::Prefix => 36,
            Field::ProgramName => 37,
            Field::PycachePrefix => 38,
            Field::PythonPathEnv => 39,
            Field::Quiet => 40,
            Field::RunCommand => 41,
            Field::RunFilename => 42,
            Field::RunModule => 43,
            Field::ShowRefCount => 44,
            Field::SiteImport => 45,
            Field::SkipFirstSourceLine => 46,
            Field::StdioEncoding => 47,
            Field::StdioErrors => 48,
            Field::Tracemalloc => 49,
            Field::UserSiteDirectory => 50,
            Field::Verbose => 51,
            Field::WarnOptions => 52,
            Field::WriteBytecode => 53,
            Field::XOptions => 54,
        }
    }

    /// The pass that applies a field.
    pub open spec fn spec_tier(self) -> Tier {
        match self {
            Field::Allocator
            | Field::ConfigureLocale
            | Field::CoerceCLocale
            | Field::CoerceCLocaleWarn
            | Field::DevelopmentMode
            | Field::Isolated
            | Field::LegacyWindowsFsEncoding
            | Field::ParseArgv
            | Field::UseEnvironment
            | Field::Utf8Mode => Tier::PreConfig,
            _ => Tier::Config,
        }
    }

    /// Every field once, in walking order.
    pub fn all() -> (v: Vec<Field>)
        ensures
            v@ == Self::spec_all(),
    {
        let v = vec![
            Field::Allocator,
            Field::ConfigureLocale,
            Field::CoerceCLocale,
            Field::CoerceCLocaleWarn,
            Field::DevelopmentMode,
            Field::Isolated,
            Field::LegacyWindowsFsEncoding,
            Field::ParseArgv,
            Field::UseEnvironment,
            Field::Utf8Mode,
            Field::Argv,
            Field::BaseExecPrefix,
            Field::BaseExecutable,
            Field::BasePrefix,
            Field::BufferedStdio,
            Field::BytesWarning,
            Field::CheckHashPycsMode,
            Field::ConfigureCStdio,
            Field::DumpRefs,
            Field::ExecPrefix,
            Field::Executable,
            Field::FaultHandler,
            Field::FilesystemEncoding,
            Field::FilesystemErrors,
            Field::HashSeed,
            Field::Home,
            Field::ImportTime,
            Field::Inspect,
            Field::InstallSignalHandlers,
            Field::Interactive,
            Field::LegacyWindowsStdio,
            Field::MallocStats,
            Field::ModuleSearchPaths,
            Field::OptimizationLevel,
            Field::ParserDebug,
            Field::PathconfigWarnings,
            Field::Prefix,
            Field::ProgramName,
            Field::PycachePrefix,
            Field::PythonPathEnv,
            Field::Quiet,
            Field::RunCommand,
            Field::RunFilename,
            Field::RunModule,
            Field::ShowRefCount,
            Field::SiteImport,
            Field::SkipFirstSourceLine,
            Field::StdioEncoding,
            Field::StdioErrors,
            Field::Tracemalloc,
            Field::UserSiteDirectory,
            Field::Verbose,
            Field::WarnOptions,
            Field::WriteBytecode,
            Field::XOptions,
        ];
        assert(v@ =~= Self::spec_all());
        v
    }

    /// The pass that applies a field.
    pub fn tier(&self) -> (t: Tier)
        ensures
            t == self.spec_tier(),
    {
        match self {
            Field::Allocator
            | Field::ConfigureLocale
            | Field::CoerceCLocale
            | Field::CoerceCLocaleWarn
            | Field::DevelopmentMode
            | Field::Isolated
            | Field::LegacyWindowsFsEncoding
            | Field::ParseArgv
            | Field::UseEnvironment
            | Field::Utf8Mode => Tier::PreConfig,
            _ => Tier::Config,
        }
    }

    /// The walking order holds every field, at its position.
    pub proof fn lemma_all_complete(f: Field)
        ensures
            0 <= f.position() < Self::spec_all().len(),
            Self::spec_all()[f.position()] == f,
    {
    }

    /// The walking order holds no field twice.
    pub proof fn lemma_all_distinct(i: int, j: int)
        requires
            0 <= i < j < Self::spec_all().len(),
        ensures
            Self::spec_all()[i] != Self::spec_all()[j],
    {
        assert(Self::spec_all()[i].position() == i);
        assert(Self::spec_all()[j].position() == j);
    }

    /// Filtering keeps the order: where positions rise along a sequence of
    /// fields, they rise along what a filter keeps of it.
    pub proof fn lemma_filter_keeps_order(s: Seq<Field>, keep: spec_fn(Field) -> bool)
        requires
            forall|a: int, b: int| 0 <= a < b < s.len() ==> s[a].position() < s[b].position(),
        ensures
            forall|i: int, j: int|
                0 <= i < j < s.filter(keep).len() ==> s.filter(keep)[i].position() < s.filter(
                    keep,
                )[j].position(),
        decreases s.len(),
    {
        reveal(Seq::filter);
        if s.len() > 0 {
            let front = s.drop_last();
            let kept = front.filter(keep);
            Self::lemma_filter_keeps_order(front, keep);
            assert forall|i: int| 0 <= i < kept.len() implies kept[i].position()
                < s.last().position() by {
                front.lemma_filter_contains_rev(keep, kept[i]);
                let k = choose|k: int| 0 <= k < front.len() && front[k] == kept[i];
                assert(s[k] == kept[i]);
            }
        }
    }

    /// The pre-configuration fields come before the configuration fields.
    pub proof fn lemma_tiers_in_order(f: Field, g: Field)
        requires
            f.spec_tier() == Tier::PreConfig,
            g.spec_tier() == Tier::Config,
        ensures
            f.position() < g.position(),
    {
    }
}

} // verus!
