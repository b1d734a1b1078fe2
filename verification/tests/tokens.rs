use python_packaging::{
    Allocator, BytecodeOptimizationLevel, BytesWarning, CheckHashPycsMode, CoerceCLocale,
    MemoryAllocatorBackend, MultiprocessingStartMethod, PlatformFamily, PythonInterpreterProfile,
};
use std::str::FromStr;

#[test]
fn profile_parses_its_tokens() {
    assert_eq!(
        PythonInterpreterProfile::parse("isolated"),
        Ok(PythonInterpreterProfile::Isolated)
    );
    assert_eq!(
        PythonInterpreterProfile::parse("python"),
        Ok(PythonInterpreterProfile::Python)
    );
}

#[test]
fn profile_rejects_bogus_with_input_and_tokens() {
    let e = PythonInterpreterProfile::parse("bogus").unwrap_err();
    assert_eq!(e, "bogus is not a valid profile; use 'isolated' or 'python'");
    assert!(e.contains("bogus"));
    assert!(e.contains("'isolated'"));
    assert!(e.contains("'python'"));
}

#[test]
fn profile_try_from_str_and_string_agree_with_parse() {
    assert_eq!(
        PythonInterpreterProfile::try_from("isolated"),
        Ok(PythonInterpreterProfile::Isolated)
    );
    assert_eq!(
        PythonInterpreterProfile::try_from("python".to_string()),
        Ok(PythonInterpreterProfile::Python)
    );
    assert_eq!(
        PythonInterpreterProfile::try_from("Python"),
        Err("Python is not a valid profile; use 'isolated' or 'python'".to_string())
    );
    assert_eq!(
        PythonInterpreterProfile::try_from(String::new()),
        Err(" is not a valid profile; use 'isolated' or 'python'".to_string())
    );
}

#[test]
fn profile_serializes_to_its_tokens() {
    assert_eq!(PythonInterpreterProfile::Isolated.to_string(), "isolated");
    assert_eq!(PythonInterpreterProfile::Python.to_string(), "python");
    assert_eq!(PythonInterpreterProfile::Python.as_str(), "python");
    assert_eq!(String::from(PythonInterpreterProfile::Isolated), "isolated");
}

#[test]
fn profile_default_is_isolated() {
    assert_eq!(
        PythonInterpreterProfile::default(),
        PythonInterpreterProfile::Isolated
    );
}

#[test]
fn profile_round_trips() {
    for v in [
        PythonInterpreterProfile::Isolated,
        PythonInterpreterProfile::Python,
    ] {
        assert_eq!(PythonInterpreterProfile::parse(&v.to_string()), Ok(v));
    }
}

#[test]
fn memory_allocator_backend_round_trips() {
    let all = [
        (MemoryAllocatorBackend::Default, "default"),
        (MemoryAllocatorBackend::Jemalloc, "jemalloc"),
        (MemoryAllocatorBackend::Mimalloc, "mimalloc"),
        (MemoryAllocatorBackend::Snmalloc, "snmalloc"),
        (MemoryAllocatorBackend::Rust, "rust"),
    ];
    for (v, token) in all {
        assert_eq!(v.to_string(), token);
        assert_eq!(v.as_str(), token);
        assert_eq!(String::from(v), token);
        assert_eq!(MemoryAllocatorBackend::parse(token), Ok(v));
        assert_eq!(MemoryAllocatorBackend::try_from(token), Ok(v));
        assert_eq!(MemoryAllocatorBackend::try_from(token.to_string()), Ok(v));
    }
}

#[test]
fn memory_allocator_backend_rejects_other_strings() {
    let reason = " is not a valid memory allocator backend; use 'default', 'jemalloc', 'mimalloc', 'snmalloc' or 'rust'";
    for input in ["", "Jemalloc", "jemalloc ", "tcmalloc", "snmalloq", "rusty"] {
        assert_eq!(
            MemoryAllocatorBackend::parse(input),
            Err(format!("{}{}", input, reason))
        );
    }
}

#[test]
fn memory_allocator_backend_default_follows_the_platform_family() {
    assert_eq!(
        MemoryAllocatorBackend::default_for(PlatformFamily::Windows),
        MemoryAllocatorBackend::Default
    );
    assert_eq!(
        MemoryAllocatorBackend::default_for(PlatformFamily::Unix),
        MemoryAllocatorBackend::Jemalloc
    );
    assert_eq!(
        MemoryAllocatorBackend::default_for(PlatformFamily::Other),
        MemoryAllocatorBackend::Jemalloc
    );
}

#[test]
fn allocator_round_trips_with_codes() {
    let all = [
        (Allocator::NotSet, "not-set", 0),
        (Allocator::Default, "default", 1),
        (Allocator::Debug, "debug", 2),
        (Allocator::Malloc, "malloc", 3),
        (Allocator::MallocDebug, "malloc-debug", 4),
        (Allocator::PyMalloc, "py-malloc", 5),
        (Allocator::PyMallocDebug, "py-malloc-debug", 6),
    ];
    for (v, token, code) in all {
        assert_eq!(v.to_string(), token);
        assert_eq!(String::from(v), token);
        assert_eq!(Allocator::parse(token), Ok(v));
        assert_eq!(Allocator::try_from(token), Ok(v));
        assert_eq!(Allocator::try_from(token.to_string()), Ok(v));
        assert_eq!(v.to_code(), code);
    }
}

#[test]
fn allocator_rejects_other_strings() {
    let reason = " is not a valid allocator value; use 'not-set', 'default', 'debug', 'malloc', 'malloc-debug', 'py-malloc' or 'py-malloc-debug'";
    for input in ["", "not_set", "malloc-", "py-malloc-debu", "pymalloc", "DEFAULT"] {
        assert_eq!(Allocator::parse(input), Err(format!("{}{}", input, reason)));
    }
}

#[test]
fn coerce_c_locale_round_trips_with_codes() {
    let all = [(CoerceCLocale::LCCtype, "lc_ctype", 1), (CoerceCLocale::C, "c", 2)];
    for (v, token, code) in all {
        assert_eq!(v.to_string(), token);
        assert_eq!(String::from(v), token);
        assert_eq!(CoerceCLocale::parse(token), Ok(v));
        assert_eq!(CoerceCLocale::try_from(token), Ok(v));
        assert_eq!(CoerceCLocale::try_from(token.to_string()), Ok(v));
        assert_eq!(v.to_code(), code);
    }
}

#[test]
fn coerce_c_locale_is_case_sensitive() {
    let reason = " is not a valid C locale coercion value; use 'lc_ctype' or 'c'";
    for input in ["C", "LC_CTYPE", "Lc_Ctype", "lc_ctype ", "lc-ctype", "", "cc"] {
        assert_eq!(
            CoerceCLocale::parse(input),
            Err(format!("{}{}", input, reason))
        );
    }
}

#[test]
fn bytes_warning_round_trips_with_codes() {
    let all = [
        (BytesWarning::Off, "none", 0),
        (BytesWarning::Warn, "warn", 1),
        (BytesWarning::Raise, "raise", 2),
    ];
    for (v, token, code) in all {
        assert_eq!(v.to_string(), token);
        assert_eq!(String::from(v), token);
        assert_eq!(BytesWarning::parse(token), Ok(v));
        assert_eq!(BytesWarning::try_from(token), Ok(v));
        assert_eq!(BytesWarning::try_from(token.to_string()), Ok(v));
        assert_eq!(v.to_code(), code);
        assert_eq!(BytesWarning::from_code(code), v);
        assert_eq!(BytesWarning::from(code), v);
    }
}

#[test]
fn bytes_warning_rejects_other_strings() {
    let reason = " is not a valid bytes warning value; use 'none', 'warn' or 'raise'";
    for input in ["", "None", "warning", "rais", "0"] {
        assert_eq!(
            BytesWarning::parse(input),
            Err(format!("{}{}", input, reason))
        );
    }
}

#[test]
fn bytes_warning_from_code_saturates() {
    assert_eq!(BytesWarning::from_code(-5), BytesWarning::Raise);
    assert_eq!(BytesWarning::from_code(0), BytesWarning::Off);
    assert_eq!(BytesWarning::from_code(1), BytesWarning::Warn);
    assert_eq!(BytesWarning::from_code(2), BytesWarning::Raise);
    assert_eq!(BytesWarning::from_code(3), BytesWarning::Raise);
    assert_eq!(BytesWarning::from_code(-1), BytesWarning::Raise);
    assert_eq!(BytesWarning::from_code(i32::MAX), BytesWarning::Raise);
    assert_eq!(BytesWarning::from_code(i32::MIN), BytesWarning::Raise);
    assert_eq!(BytesWarning::from(-5), BytesWarning::Raise);
    assert_eq!(BytesWarning::from(1_000_000), BytesWarning::Raise);
}

#[test]
fn check_hash_pycs_mode_round_trips_with_codes() {
    let all = [
        (CheckHashPycsMode::Always, "always", 0),
        (CheckHashPycsMode::Never, "never", 1),
        (CheckHashPycsMode::Default, "default", 2),
    ];
    for (v, token, code) in all {
        assert_eq!(v.to_string(), token);
        assert_eq!(String::from(v), token);
        assert_eq!(CheckHashPycsMode::parse(token), Ok(v));
        assert_eq!(CheckHashPycsMode::try_from(token), Ok(v));
        assert_eq!(CheckHashPycsMode::try_from(token.to_string()), Ok(v));
        assert_eq!(v.to_code(), code);
    }
}

#[test]
fn check_hash_pycs_mode_rejects_other_strings() {
    let reason = " is not a valid check hash pycs mode value; use 'always', 'never' or 'default'";
    for input in ["", "Always", "nevermore", "defaul", "sometimes"] {
        assert_eq!(
            CheckHashPycsMode::parse(input),
            Err(format!("{}{}", input, reason))
        );
    }
}

#[test]
fn multiprocessing_start_method_round_trips() {
    let all = [
        (MultiprocessingStartMethod::Off, "none"),
        (MultiprocessingStartMethod::Fork, "fork"),
        (MultiprocessingStartMethod::ForkServer, "forkserver"),
        (MultiprocessingStartMethod::Spawn, "spawn"),
        (MultiprocessingStartMethod::Auto, "auto"),
    ];
    for (v, token) in all {
        assert_eq!(v.to_string(), token);
        assert_eq!(String::from(v.clone()), token);
        assert_eq!(MultiprocessingStartMethod::parse(token), Ok(v.clone()));
        assert_eq!(MultiprocessingStartMethod::from_str(token), Ok(v.clone()));
        assert_eq!(MultiprocessingStartMethod::try_from(token), Ok(v.clone()));
        assert_eq!(
            MultiprocessingStartMethod::try_from(token.to_string()),
            Ok(v.clone())
        );
        assert_eq!(v.clone(), v);
    }
}

#[test]
fn multiprocessing_start_method_rejects_other_strings() {
    let reason = " is not a valid multiprocessing start method; use 'none', 'fork', 'forkserver', 'spawn' or 'auto'";
    for input in ["", "Fork", "fork-server", "forkserve", "spawned", "automatic"] {
        assert_eq!(
            MultiprocessingStartMethod::from_str(input),
            Err(format!("{}{}", input, reason))
        );
        assert_eq!(
            MultiprocessingStartMethod::parse(input),
            Err(format!("{}{}", input, reason))
        );
    }
}

#[test]
fn optimization_level_round_trips_through_its_number() {
    let all = [
        (BytecodeOptimizationLevel::Zero, 0),
        (BytecodeOptimizationLevel::One, 1),
        (BytecodeOptimizationLevel::Two, 2),
    ];
    for (v, code) in all {
        assert_eq!(v.to_code(), code);
        assert_eq!(i32::from(v), code);
        assert_eq!(BytecodeOptimizationLevel::from_code(code), Ok(v));
        assert_eq!(BytecodeOptimizationLevel::try_from(code), Ok(v));
    }
}

#[test]
fn optimization_level_rejects_other_numbers() {
    let reason = " is not a valid bytecode optimization level; use 0, 1 or 2";
    for code in [3, -1, 10, 255, -2147483648, 2147483647] {
        assert_eq!(
            BytecodeOptimizationLevel::from_code(code),
            Err(format!("{}{}", code, reason))
        );
        assert_eq!(
            BytecodeOptimizationLevel::try_from(code),
            Err(format!("{}{}", code, reason))
        );
    }
    assert_eq!(
        BytecodeOptimizationLevel::from_code(-7),
        Err("-7 is not a valid bytecode optimization level; use 0, 1 or 2".to_string())
    );
}

#[test]
fn allocator_reads_its_codes_exactly() {
    assert_eq!(Allocator::from_code(0), Ok(Allocator::NotSet));
    assert_eq!(Allocator::from_code(3), Ok(Allocator::Malloc));
    assert_eq!(Allocator::from_code(6), Ok(Allocator::PyMallocDebug));
    let reason = " is not a valid code of an allocator; use 0, 1, 2, 3, 4, 5 or 6";
    for code in [-1, 7, 100, i32::MIN, i32::MAX] {
        assert_eq!(Allocator::from_code(code), Err(format!("{}{}", code, reason)));
    }
}

#[test]
fn coerce_c_locale_reads_its_codes_exactly() {
    assert_eq!(CoerceCLocale::from_code(1), Ok(CoerceCLocale::LCCtype));
    assert_eq!(CoerceCLocale::from_code(2), Ok(CoerceCLocale::C));
    let reason = " is not a valid code of a C locale coercion; use 1 or 2";
    for code in [0, 3, -1, -2] {
        assert_eq!(
            CoerceCLocale::from_code(code),
            Err(format!("{}{}", code, reason))
        );
    }
}

#[test]
fn check_hash_pycs_mode_reads_its_codes_exactly() {
    assert_eq!(CheckHashPycsMode::from_code(0), Ok(CheckHashPycsMode::Always));
    assert_eq!(CheckHashPycsMode::from_code(1), Ok(CheckHashPycsMode::Never));
    assert_eq!(CheckHashPycsMode::from_code(2), Ok(CheckHashPycsMode::Default));
    let reason = " is not a valid code of a check hash pycs mode; use 0, 1 or 2";
    for code in [3, -1, 42] {
        assert_eq!(
            CheckHashPycsMode::from_code(code),
            Err(format!("{}{}", code, reason))
        );
    }
}

#[test]
fn every_fixed_token_is_lowercase() {
    let tokens = [
        PythonInterpreterProfile::Isolated.to_string(),
        PythonInterpreterProfile::Python.to_string(),
        MemoryAllocatorBackend::Default.to_string(),
        MemoryAllocatorBackend::Jemalloc.to_string(),
        MemoryAllocatorBackend::Mimalloc.to_string(),
        MemoryAllocatorBackend::Snmalloc.to_string(),
        MemoryAllocatorBackend::Rust.to_string(),
        CoerceCLocale::LCCtype.to_string(),
        CoerceCLocale::C.to_string(),
        BytesWarning::Off.to_string(),
        BytesWarning::Warn.to_string(),
        BytesWarning::Raise.to_string(),
        CheckHashPycsMode::Always.to_string(),
        CheckHashPycsMode::Never.to_string(),
        CheckHashPycsMode::Default.to_string(),
        Allocator::NotSet.to_string(),
        Allocator::Default.to_string(),
        Allocator::Debug.to_string(),
        Allocator::Malloc.to_string(),
        Allocator::MallocDebug.to_string(),
        Allocator::PyMalloc.to_string(),
        Allocator::PyMallocDebug.to_string(),
        MultiprocessingStartMethod::Off.to_string(),
        MultiprocessingStartMethod::Fork.to_string(),
        MultiprocessingStartMethod::ForkServer.to_string(),
        MultiprocessingStartMethod::Spawn.to_string(),
        MultiprocessingStartMethod::Auto.to_string(),
    ];
    for t in tokens {
        assert!(!t.is_empty());
        assert!(t
            .chars()
            .all(|c| c.is_ascii_lowercase() || c == '-' || c == '_'));
    }
    assert_eq!(CoerceCLocale::LCCtype.to_string(), "lc_ctype");
    assert_eq!(CoerceCLocale::C.to_string(), "c");
}
