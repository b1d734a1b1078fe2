use python_packaging::{
    Allocator, BytecodeOptimizationLevel, BytesWarning, CheckHashPycsMode, CoerceCLocale, Field,
    PythonInterpreterConfig, PythonInterpreterProfile, Setting, Tier,
};
use std::path::PathBuf;

#[test]
fn default_record_is_isolated_with_nothing_set() {
    let c = PythonInterpreterConfig::default();
    assert_eq!(c.profile, PythonInterpreterProfile::Isolated);
    for f in Field::all() {
        assert!(!c.is_set(f));
    }
    assert_eq!(c.allocator, None);
    assert_eq!(c.argv, None);
    assert_eq!(c.home, None);
    assert_eq!(c.hash_seed, None);
    assert_eq!(c.x_options, None);
    assert!(c.present(Tier::PreConfig).is_empty());
    assert!(c.present(Tier::Config).is_empty());
}

#[test]
fn default_record_is_stable() {
    assert_eq!(
        PythonInterpreterConfig::default(),
        PythonInterpreterConfig::default()
    );
    assert_eq!(
        PythonInterpreterConfig::default(),
        PythonInterpreterConfig::new(PythonInterpreterProfile::Isolated)
    );
}

#[test]
fn new_record_keeps_the_profile() {
    let c = PythonInterpreterConfig::new(PythonInterpreterProfile::Python);
    assert_eq!(c.profile, PythonInterpreterProfile::Python);
    for f in Field::all() {
        assert!(!c.is_set(f));
    }
}

#[test]
fn walking_order_names_every_field_once() {
    let all = Field::all();
    assert_eq!(all.len(), 55);
    for (i, f) in all.iter().enumerate() {
        for g in &all[i + 1..] {
            assert_ne!(f, g);
        }
    }
    assert_eq!(all[0], Field::Allocator);
    assert_eq!(all[9], Field::Utf8Mode);
    assert_eq!(all[10], Field::Argv);
    assert_eq!(all[54], Field::XOptions);
}

#[test]
fn tiers_split_the_walking_order() {
    let all = Field::all();
    for (i, f) in all.iter().enumerate() {
        let expected = if i < 10 { Tier::PreConfig } else { Tier::Config };
        assert_eq!(f.tier(), expected);
    }
    assert_eq!(Field::Allocator.tier(), Tier::PreConfig);
    assert_eq!(Field::UseEnvironment.tier(), Tier::PreConfig);
    assert_eq!(Field::Utf8Mode.tier(), Tier::PreConfig);
    assert_eq!(Field::Argv.tier(), Tier::Config);
    assert_eq!(Field::HashSeed.tier(), Tier::Config);
    assert_eq!(Field::RunModule.tier(), Tier::Config);
}

#[test]
fn set_puts_the_value_in_its_field() {
    let mut c = PythonInterpreterConfig::default();
    c.set(Setting::Allocator(Allocator::PyMalloc));
    c.set(Setting::Utf8Mode(true));
    c.set(Setting::Argv(vec!["python".to_string(), "-v".to_string()]));
    c.set(Setting::Home(PathBuf::from("/opt/python")));
    c.set(Setting::HashSeed(42));
    c.set(Setting::ModuleSearchPaths(vec![
        PathBuf::from("/a"),
        PathBuf::from("/b"),
    ]));
    c.set(Setting::OptimizationLevel(BytecodeOptimizationLevel::Two));
    c.set(Setting::RunCommand("print(1)".to_string()));
    assert_eq!(c.allocator, Some(Allocator::PyMalloc));
    assert_eq!(c.utf8_mode, Some(true));
    assert_eq!(
        c.argv,
        Some(vec!["python".to_string(), "-v".to_string()])
    );
    assert_eq!(c.home, Some(PathBuf::from("/opt/python")));
    assert_eq!(c.hash_seed, Some(42));
    assert_eq!(
        c.module_search_paths,
        Some(vec![PathBuf::from("/a"), PathBuf::from("/b")])
    );
    assert_eq!(c.optimization_level, Some(BytecodeOptimizationLevel::Two));
    assert_eq!(c.run_command, Some("print(1)".to_string()));
    assert_eq!(c.profile, PythonInterpreterProfile::Isolated);
}

#[test]
fn setting_names_its_field() {
    assert_eq!(Setting::Quiet(true).field(), Field::Quiet);
    assert_eq!(
        Setting::BytesWarning(BytesWarning::Warn).field(),
        Field::BytesWarning
    );
    assert_eq!(Setting::XOptions(vec![]).field(), Field::XOptions);
    assert_eq!(Setting::Prefix(PathBuf::new()).field(), Field::Prefix);
}

#[test]
fn set_changes_no_other_field() {
    let mut c = PythonInterpreterConfig::new(PythonInterpreterProfile::Python);
    c.set(Setting::Quiet(true));
    c.set(Setting::Home(PathBuf::from("/home")));
    let before = c.clone();
    c.set(Setting::Verbose(false));
    for f in Field::all() {
        if f != Field::Verbose {
            assert_eq!(c.is_set(f), before.is_set(f));
        }
    }
    assert_eq!(c.verbose, Some(false));
    assert_eq!(c.quiet, before.quiet);
    assert_eq!(c.home, before.home);
    assert_eq!(c.profile, before.profile);
    let mut expected = before;
    expected.verbose = Some(false);
    assert_eq!(c, expected);
}

#[test]
fn set_overwrites_an_earlier_value() {
    let mut c = PythonInterpreterConfig::default();
    c.set(Setting::StdioEncoding("utf-8".to_string()));
    c.set(Setting::StdioEncoding("latin-1".to_string()));
    assert_eq!(c.stdio_encoding, Some("latin-1".to_string()));
}

#[test]
fn clear_unsets_one_field_only() {
    let mut c = PythonInterpreterConfig::default();
    c.set(Setting::Quiet(true));
    c.set(Setting::Isolated(false));
    c.set(Setting::WarnOptions(vec!["error".to_string()]));
    c.clear(Field::Isolated);
    assert_eq!(c.isolated, None);
    assert_eq!(c.quiet, Some(true));
    assert_eq!(c.warn_options, Some(vec!["error".to_string()]));
    assert!(!c.is_set(Field::Isolated));
    assert!(c.is_set(Field::Quiet));
    c.clear(Field::Isolated);
    assert_eq!(c.isolated, None);
}

#[test]
fn clear_every_field_gives_the_fresh_record() {
    let mut c = PythonInterpreterConfig::new(PythonInterpreterProfile::Python);
    c.set(Setting::Quiet(true));
    c.set(Setting::Argv(vec!["a".to_string()]));
    c.set(Setting::PycachePrefix(PathBuf::from("/cache")));
    for f in Field::all() {
        c.clear(f);
    }
    assert_eq!(
        c,
        PythonInterpreterConfig::new(PythonInterpreterProfile::Python)
    );
}

#[test]
fn present_lists_the_set_fields_of_a_pass_in_order() {
    let mut c = PythonInterpreterConfig::default();
    c.set(Setting::XOptions(vec!["dev".to_string()]));
    c.set(Setting::Utf8Mode(true));
    c.set(Setting::Argv(vec![]));
    c.set(Setting::Allocator(Allocator::Default));
    c.set(Setting::HashSeed(0));
    c.set(Setting::ParseArgv(false));
    assert_eq!(
        c.present(Tier::PreConfig),
        vec![Field::Allocator, Field::ParseArgv, Field::Utf8Mode]
    );
    assert_eq!(
        c.present(Tier::Config),
        vec![Field::Argv, Field::HashSeed, Field::XOptions]
    );
    c.clear(Field::ParseArgv);
    assert_eq!(
        c.present(Tier::PreConfig),
        vec![Field::Allocator, Field::Utf8Mode]
    );
}

#[test]
fn present_with_every_field_set_is_the_walking_order() {
    let mut c = PythonInterpreterConfig::default();
    c.allocator = Some(Allocator::NotSet);
    c.configure_locale = Some(true);
    c.coerce_c_locale = Some(CoerceCLocale::C);
    c.coerce_c_locale_warn = Some(true);
    c.development_mode = Some(true);
    c.isolated = Some(true);
    c.legacy_windows_fs_encoding = Some(true);
    c.parse_argv = Some(true);
    c.use_environment = Some(true);
    c.utf8_mode = Some(true);
    let all = Field::all();
    assert_eq!(c.present(Tier::PreConfig), all[..10].to_vec());
    assert!(c.present(Tier::Config).is_empty());
}

#[test]
fn token_setters_parse_before_they_set() {
    let mut c = PythonInterpreterConfig::default();
    assert_eq!(c.set_profile_token("python"), Ok(()));
    assert_eq!(c.set_allocator_token("malloc-debug"), Ok(()));
    assert_eq!(c.set_coerce_c_locale_token("lc_ctype"), Ok(()));
    assert_eq!(c.set_bytes_warning_token("raise"), Ok(()));
    assert_eq!(c.set_check_hash_pycs_mode_token("never"), Ok(()));
    assert_eq!(c.set_optimization_level_code(1), Ok(()));
    assert_eq!(c.profile, PythonInterpreterProfile::Python);
    assert_eq!(c.allocator, Some(Allocator::MallocDebug));
    assert_eq!(c.coerce_c_locale, Some(CoerceCLocale::LCCtype));
    assert_eq!(c.bytes_warning, Some(BytesWarning::Raise));
    assert_eq!(c.check_hash_pycs_mode, Some(CheckHashPycsMode::Never));
    assert_eq!(c.optimization_level, Some(BytecodeOptimizationLevel::One));
    let mut expected = PythonInterpreterConfig::new(PythonInterpreterProfile::Python);
    expected.allocator = Some(Allocator::MallocDebug);
    expected.coerce_c_locale = Some(CoerceCLocale::LCCtype);
    expected.bytes_warning = Some(BytesWarning::Raise);
    expected.check_hash_pycs_mode = Some(CheckHashPycsMode::Never);
    expected.optimization_level = Some(BytecodeOptimizationLevel::One);
    assert_eq!(c, expected);
}

#[test]
fn token_setters_leave_the_record_alone_on_a_bad_token() {
    let mut c = PythonInterpreterConfig::default();
    c.set(Setting::Allocator(Allocator::Debug));
    c.set(Setting::Quiet(true));
    let before = c.clone();
    assert_eq!(
        c.set_profile_token("bogus"),
        Err("bogus is not a valid profile; use 'isolated' or 'python'".to_string())
    );
    assert_eq!(
        c.set_allocator_token("fast"),
        Err("fast is not a valid allocator value; use 'not-set', 'default', 'debug', 'malloc', 'malloc-debug', 'py-malloc' or 'py-malloc-debug'".to_string())
    );
    assert_eq!(
        c.set_coerce_c_locale_token("C"),
        Err("C is not a valid C locale coercion value; use 'lc_ctype' or 'c'".to_string())
    );
    assert_eq!(
        c.set_bytes_warning_token("error"),
        Err("error is not a valid bytes warning value; use 'none', 'warn' or 'raise'".to_string())
    );
    assert_eq!(
        c.set_check_hash_pycs_mode_token("maybe"),
        Err("maybe is not a valid check hash pycs mode value; use 'always', 'never' or 'default'".to_string())
    );
    assert_eq!(
        c.set_optimization_level_code(3),
        Err("3 is not a valid bytecode optimization level; use 0, 1 or 2".to_string())
    );
    assert_eq!(c, before);
}

#[test]
fn no_policy_across_fields() {
    let mut c = PythonInterpreterConfig::default();
    c.set(Setting::RunCommand("pass".to_string()));
    c.set(Setting::RunModule("site".to_string()));
    c.set(Setting::RunFilename(PathBuf::from("main.py")));
    assert_eq!(c.run_command, Some("pass".to_string()));
    assert_eq!(c.run_module, Some("site".to_string()));
    assert_eq!(c.run_filename, Some(PathBuf::from("main.py")));
}
