use python_packaging::TerminfoResolution;

#[test]
fn terminfo_parses_the_fixed_tokens() {
    assert_eq!(
        TerminfoResolution::parse("dynamic"),
        Ok(TerminfoResolution::Dynamic)
    );
    assert_eq!(TerminfoResolution::parse("none"), Ok(TerminfoResolution::Off));
}

#[test]
fn terminfo_static_path_scenario() {
    let v = TerminfoResolution::parse("static:/usr/share/terminfo").unwrap();
    assert_eq!(
        v,
        TerminfoResolution::Static("/usr/share/terminfo".to_string())
    );
    assert_eq!(v.to_string(), "static:/usr/share/terminfo");
}

#[test]
fn terminfo_payload_is_taken_as_it_is() {
    for payload in [
        "",
        ":",
        "a:b:c",
        "static:",
        "/etc/terminfo:/lib/terminfo:/usr/share/terminfo",
        " spaced ",
        "日本語/パス",
        "dynamic",
    ] {
        let token = format!("static:{}", payload);
        assert_eq!(
            TerminfoResolution::parse(&token),
            Ok(TerminfoResolution::Static(payload.to_string()))
        );
        assert_eq!(
            TerminfoResolution::try_from(token.as_str()),
            Ok(TerminfoResolution::Static(payload.to_string()))
        );
        assert_eq!(
            TerminfoResolution::try_from(token.clone()),
            Ok(TerminfoResolution::Static(payload.to_string()))
        );
    }
}

#[test]
fn terminfo_round_trips() {
    for v in [
        TerminfoResolution::Dynamic,
        TerminfoResolution::Off,
        TerminfoResolution::Static(String::new()),
        TerminfoResolution::Static("x:y".to_string()),
        TerminfoResolution::Static("none".to_string()),
    ] {
        let token = v.to_string();
        assert_eq!(String::from(v.clone()), token);
        assert_eq!(TerminfoResolution::parse(&token), Ok(v));
    }
}

#[test]
fn terminfo_serializes_each_shape() {
    assert_eq!(TerminfoResolution::Dynamic.to_string(), "dynamic");
    assert_eq!(TerminfoResolution::Off.to_string(), "none");
    assert_eq!(
        TerminfoResolution::Static("a:b".to_string()).to_string(),
        "static:a:b"
    );
    assert_eq!(TerminfoResolution::Static(String::new()).to_string(), "static:");
}

#[test]
fn terminfo_rejects_other_strings() {
    let reason =
        " is not a valid terminfo resolution value; use 'dynamic', 'none' or 'static:<value>'";
    for input in [
        "",
        "static",
        "Static:/usr",
        "STATIC:x",
        " static:x",
        "statik:x",
        "Dynamic",
        "none ",
        "é",
        "stati\u{300}c:x",
    ] {
        assert_eq!(
            TerminfoResolution::parse(input),
            Err(format!("{}{}", input, reason))
        );
    }
}

#[test]
fn terminfo_equality_compares_shape_and_payload() {
    assert_eq!(TerminfoResolution::Dynamic, TerminfoResolution::Dynamic);
    assert_ne!(TerminfoResolution::Dynamic, TerminfoResolution::Off);
    assert_ne!(
        TerminfoResolution::Static("a".to_string()),
        TerminfoResolution::Static("b".to_string())
    );
    assert_ne!(
        TerminfoResolution::Static("none".to_string()),
        TerminfoResolution::Off
    );
    let v = TerminfoResolution::Static("a".to_string());
    assert_eq!(v.clone(), v);
}
