use python_packaging::{
    Allocator, BytecodeOptimizationLevel, BytesWarning, CheckHashPycsMode, CoerceCLocale,
    ConfigDocument, PythonInterpreterConfig, PythonInterpreterProfile, Setting,
};
use std::path::PathBuf;

#[test]
fn empty_document_mentions_nothing() {
    let doc = ConfigDocument::empty();
    assert_eq!(doc, ConfigDocument::default());
    assert_eq!(doc.profile, None);
    assert_eq!(doc.allocator, None);
    assert_eq!(doc.x_options, None);
    assert_eq!(doc.validate(), Ok(()));
}

#[test]
fn empty_document_changes_nothing() {
    let mut c = PythonInterpreterConfig::new(PythonInterpreterProfile::Python);
    c.set(Setting::Quiet(true));
    let before = c.clone();
    assert_eq!(c.populate(ConfigDocument::empty()), Ok(()));
    assert_eq!(c, before);
    assert_eq!(
        PythonInterpreterConfig::from_document(ConfigDocument::empty()),
        Ok(PythonInterpreterConfig::default())
    );
}

#[test]
fn bulk_populate_with_one_bad_token_changes_nothing() {
    let mut doc = ConfigDocument::empty();
    doc.utf8_mode = Some(true);
    doc.allocator = Some("turbo".to_string());
    let mut c = PythonInterpreterConfig::default();
    let r = c.populate(doc);
    assert_eq!(
        r,
        Err("turbo is not a valid allocator value; use 'not-set', 'default', 'debug', 'malloc', 'malloc-debug', 'py-malloc' or 'py-malloc-debug'".to_string())
    );
    assert_eq!(c, PythonInterpreterConfig::default());
    assert_eq!(c.utf8_mode, None);
    assert_eq!(c.allocator, None);
}

#[test]
fn bulk_populate_is_atomic_on_a_record_that_holds_values() {
    let mut c = PythonInterpreterConfig::new(PythonInterpreterProfile::Python);
    c.set(Setting::Quiet(false));
    c.set(Setting::Home(PathBuf::from("/old")));
    let before = c.clone();
    let mut doc = ConfigDocument::empty();
    doc.profile = Some("isolated".to_string());
    doc.quiet = Some(true);
    doc.home = Some(PathBuf::from("/new"));
    doc.run_module = Some("http.server".to_string());
    doc.optimization_level = Some(9);
    assert_eq!(
        c.populate(doc),
        Err("9 is not a valid bytecode optimization level; use 0, 1 or 2".to_string())
    );
    assert_eq!(c, before);
}

#[test]
fn bulk_populate_sets_what_the_document_mentions() {
    let mut doc = ConfigDocument::empty();
    doc.profile = Some("python".to_string());
    doc.allocator = Some("py-malloc-debug".to_string());
    doc.coerce_c_locale = Some("c".to_string());
    doc.bytes_warning = Some("warn".to_string());
    doc.check_hash_pycs_mode = Some("always".to_string());
    doc.optimization_level = Some(2);
    doc.isolated = Some(false);
    doc.argv = Some(vec!["prog".to_string(), "arg".to_string()]);
    doc.executable = Some(PathBuf::from("/usr/bin/python3"));
    doc.filesystem_encoding = Some("utf-8".to_string());
    doc.hash_seed = Some(7);
    doc.module_search_paths = Some(vec![PathBuf::from("/lib"), PathBuf::from("/site")]);
    doc.warn_options = Some(vec![]);

    let mut c = PythonInterpreterConfig::default();
    c.set(Setting::Verbose(true));
    c.set(Setting::HashSeed(1));
    assert_eq!(c.populate(doc), Ok(()));

    let mut expected = PythonInterpreterConfig::new(PythonInterpreterProfile::Python);
    expected.verbose = Some(true);
    expected.allocator = Some(Allocator::PyMallocDebug);
    expected.coerce_c_locale = Some(CoerceCLocale::C);
    expected.bytes_warning = Some(BytesWarning::Warn);
    expected.check_hash_pycs_mode = Some(CheckHashPycsMode::Always);
    expected.optimization_level = Some(BytecodeOptimizationLevel::Two);
    expected.isolated = Some(false);
    expected.argv = Some(vec!["prog".to_string(), "arg".to_string()]);
    expected.executable = Some(PathBuf::from("/usr/bin/python3"));
    expected.filesystem_encoding = Some("utf-8".to_string());
    expected.hash_seed = Some(7);
    expected.module_search_paths = Some(vec![PathBuf::from("/lib"), PathBuf::from("/site")]);
    expected.warn_options = Some(vec![]);
    assert_eq!(c, expected);
}

#[test]
fn bulk_populate_keeps_what_the_document_leaves_out() {
    let mut c = PythonInterpreterConfig::new(PythonInterpreterProfile::Python);
    c.set(Setting::Allocator(Allocator::Malloc));
    c.set(Setting::Prefix(PathBuf::from("/prefix")));
    let mut doc = ConfigDocument::empty();
    doc.quiet = Some(true);
    assert_eq!(c.populate(doc), Ok(()));
    assert_eq!(c.profile, PythonInterpreterProfile::Python);
    assert_eq!(c.allocator, Some(Allocator::Malloc));
    assert_eq!(c.prefix, Some(PathBuf::from("/prefix")));
    assert_eq!(c.quiet, Some(true));
}

#[test]
fn the_first_bad_value_in_field_order_is_reported() {
    let mut doc = ConfigDocument::empty();
    doc.optimization_level = Some(-1);
    doc.check_hash_pycs_mode = Some("x".to_string());
    doc.bytes_warning = Some("y".to_string());
    assert_eq!(
        doc.validate(),
        Err("y is not a valid bytes warning value; use 'none', 'warn' or 'raise'".to_string())
    );
    doc.coerce_c_locale = Some("z".to_string());
    assert_eq!(
        doc.validate(),
        Err("z is not a valid C locale coercion value; use 'lc_ctype' or 'c'".to_string())
    );
    doc.profile = Some("w".to_string());
    assert_eq!(
        PythonInterpreterConfig::from_document(doc.clone()),
        Err("w is not a valid profile; use 'isolated' or 'python'".to_string())
    );
    doc.profile = None;
    doc.coerce_c_locale = None;
    doc.bytes_warning = None;
    assert_eq!(
        doc.validate(),
        Err("x is not a valid check hash pycs mode value; use 'always', 'never' or 'default'".to_string())
    );
    doc.check_hash_pycs_mode = None;
    assert_eq!(
        doc.validate(),
        Err("-1 is not a valid bytecode optimization level; use 0, 1 or 2".to_string())
    );
    doc.optimization_level = Some(0);
    assert_eq!(doc.validate(), Ok(()));
}

#[test]
fn from_document_starts_from_the_default_record() {
    let mut doc = ConfigDocument::empty();
    doc.site_import = Some(true);
    doc.bytes_warning = Some("none".to_string());
    let c = PythonInterpreterConfig::from_document(doc).unwrap();
    let mut expected = PythonInterpreterConfig::default();
    expected.site_import = Some(true);
    expected.bytes_warning = Some(BytesWarning::Off);
    assert_eq!(c, expected);
}

#[test]
fn into_document_names_tokens_and_leaves_unset_fields_out() {
    let mut c = PythonInterpreterConfig::new(PythonInterpreterProfile::Python);
    c.set(Setting::Allocator(Allocator::MallocDebug));
    c.set(Setting::CoerceCLocale(CoerceCLocale::LCCtype));
    c.set(Setting::BytesWarning(BytesWarning::Raise));
    c.set(Setting::CheckHashPycsMode(CheckHashPycsMode::Default));
    c.set(Setting::OptimizationLevel(BytecodeOptimizationLevel::One));
    c.set(Setting::Quiet(false));
    c.set(Setting::Home(PathBuf::from("/home")));
    c.set(Setting::XOptions(vec!["a".to_string(), "b".to_string()]));
    let doc = c.into_document();

    let mut expected = ConfigDocument::empty();
    expected.profile = Some("python".to_string());
    expected.allocator = Some("malloc-debug".to_string());
    expected.coerce_c_locale = Some("lc_ctype".to_string());
    expected.bytes_warning = Some("raise".to_string());
    expected.check_hash_pycs_mode = Some("default".to_string());
    expected.optimization_level = Some(1);
    expected.quiet = Some(false);
    expected.home = Some(PathBuf::from("/home"));
    expected.x_options = Some(vec!["a".to_string(), "b".to_string()]);
    assert_eq!(doc, expected);
    assert_eq!(doc.validate(), Ok(()));
}

#[test]
fn a_record_survives_the_trip_through_its_document() {
    let mut c = PythonInterpreterConfig::new(PythonInterpreterProfile::Python);
    c.set(Setting::Allocator(Allocator::NotSet));
    c.set(Setting::BytesWarning(BytesWarning::Off));
    c.set(Setting::OptimizationLevel(BytecodeOptimizationLevel::Zero));
    c.set(Setting::Argv(vec![]));
    c.set(Setting::HashSeed(u64::MAX));
    c.set(Setting::RunFilename(PathBuf::from("run.py")));
    c.set(Setting::WriteBytecode(false));
    let back = PythonInterpreterConfig::from_document(c.clone().into_document());
    assert_eq!(back, Ok(c));

    let fresh = PythonInterpreterConfig::default();
    let doc = fresh.clone().into_document();
    assert_eq!(doc.profile, Some("isolated".to_string()));
    assert_eq!(doc.allocator, None);
    assert_eq!(doc.quiet, None);
    assert_eq!(PythonInterpreterConfig::from_document(doc), Ok(fresh));
}
