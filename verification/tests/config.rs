use emvault_securosys::bip32::{
    parse_derivation_path, path_from_words, path_to_text, ChildNumber, HARDENED_BIT,
};
use emvault_securosys::config::{
    library_from_env, port_from_env, port_from_parsed, slot_from_env, slot_from_parsed_id,
    DebugField, EnvVars, SlotIdentifier, DEFAULT_PKCS11_PORT,
};
use emvault_securosys::{pkcs11_config, Secret, SecurosysConfig, SecurosysError};

fn env(vars: &[(&str, &str)]) -> EnvVars {
    EnvVars {
        vars: vars.iter().map(|(k, v)| (k.to_string(), v.to_string())).collect(),
    }
}

fn complete() -> Vec<(&'static str, &'static str)> {
    vec![
        ("SECUROSYS_PKCS11_LIB", "/opt/primus/lib/libprimusP11.so"),
        ("SECUROSYS_SLOT_LABEL", "EmeraldFoundation"),
        ("SECUROSYS_PKCS11_PASSWORD", "hunter2"),
        ("SECUROSYS_DERIVATION_PATH", "m/48'/1'/0'/2'"),
        ("SECUROSYS_ENDPOINT", "ch01-api.cloudshsm.com"),
        ("SECUROSYS_PKCS11_PORT", "2311"),
    ]
}

fn without(name: &str) -> Vec<(&'static str, &'static str)> {
    complete().into_iter().filter(|(k, _)| *k != name).collect()
}

fn with(name: &'static str, value: &'static str) -> Vec<(&'static str, &'static str)> {
    let mut vars = without(name);
    vars.push((name, value));
    vars
}

fn message(vars: &[(&str, &str)]) -> String {
    match SecurosysConfig::from_env(&env(vars)) {
        Ok(_) => panic!("no error"),
        Err(e) => e.message(),
    }
}

fn loaded(vars: &[(&str, &str)]) -> SecurosysConfig {
    match SecurosysConfig::from_env(&env(vars)) {
        Ok(config) => config,
        Err(e) => panic!("{e:?}"),
    }
}

#[test]
fn full_environment_is_loaded() {
    let config = loaded(&complete());
    assert_eq!(config.library_path, "/opt/primus/lib/libprimusP11.so");
    assert_eq!(config.slot, SlotIdentifier::Label("EmeraldFoundation".to_string()));
    assert_eq!(config.pin.expose_secret(), "hunter2");
    assert_eq!(
        config.derivation_path,
        vec![
            ChildNumber::Hardened { index: 48 },
            ChildNumber::Hardened { index: 1 },
            ChildNumber::Hardened { index: 0 },
            ChildNumber::Hardened { index: 2 },
        ]
    );
    assert_eq!(config.endpoint, Some("ch01-api.cloudshsm.com".to_string()));
    assert_eq!(config.port, 2311);
}

#[test]
fn library_falls_back() {
    let e = env(&[("PKCS11_LIB", "/b.so")]);
    assert_eq!(library_from_env(&e).ok(), Some("/b.so".to_string()));
    let e = env(&[("PKCS11_LIB", "/b.so"), ("SECUROSYS_PKCS11_LIB", "/a.so")]);
    assert_eq!(library_from_env(&e).ok(), Some("/a.so".to_string()));
    assert!(matches!(library_from_env(&env(&[])), Err(SecurosysError::MissingConfig(_))));
}

#[test]
fn missing_variables_are_named() {
    assert_eq!(
        message(&without("SECUROSYS_PKCS11_LIB")),
        "missing Securosys config: SECUROSYS_PKCS11_LIB (or PKCS11_LIB)"
    );
    assert_eq!(
        message(&without("SECUROSYS_SLOT_LABEL")),
        "missing Securosys config: SECUROSYS_SLOT_LABEL or SECUROSYS_SLOT_ID"
    );
    assert_eq!(
        message(&without("SECUROSYS_PKCS11_PASSWORD")),
        "missing Securosys config: SECUROSYS_PKCS11_PASSWORD"
    );
    assert_eq!(
        message(&without("SECUROSYS_DERIVATION_PATH")),
        "missing Securosys config: SECUROSYS_DERIVATION_PATH"
    );
}

#[test]
fn first_missing_variable_is_reported() {
    assert_eq!(
        message(&[("SECUROSYS_PKCS11_PORT", "no port")]),
        "missing Securosys config: SECUROSYS_PKCS11_LIB (or PKCS11_LIB)"
    );
    assert_eq!(
        message(&[("PKCS11_LIB", "/a.so"), ("SECUROSYS_SLOT_ID", "zero")]),
        "invalid Securosys config for `SECUROSYS_SLOT_ID`: invalid digit found in string"
    );
}

#[test]
fn slot_label_wins_over_slot_id() {
    let e = env(&[("SECUROSYS_SLOT_ID", "not a number"), ("SECUROSYS_SLOT_LABEL", "P")]);
    assert_eq!(slot_from_env(&e).ok(), Some(SlotIdentifier::Label("P".to_string())));
    let e = env(&[("SECUROSYS_SLOT_ID", "17")]);
    assert_eq!(slot_from_env(&e).ok(), Some(SlotIdentifier::SlotId(17)));
    let e = env(&[("SECUROSYS_SLOT_ID", "18446744073709551615")]);
    assert_eq!(slot_from_env(&e).ok(), Some(SlotIdentifier::SlotId(u64::MAX)));
    let e = env(&[("SECUROSYS_SLOT_ID", "+0")]);
    assert_eq!(slot_from_env(&e).ok(), Some(SlotIdentifier::SlotId(0)));
}

#[test]
fn bad_slot_id_is_invalid() {
    for (id, reason) in [
        ("18446744073709551616", "number too large to fit in target type"),
        ("", "cannot parse integer from empty string"),
        ("-1", "invalid digit found in string"),
        ("+", "invalid digit found in string"),
    ] {
        match slot_from_env(&env(&[("SECUROSYS_SLOT_ID", id)])) {
            Err(SecurosysError::InvalidConfig { key, reason: why }) => {
                assert_eq!(key, "SECUROSYS_SLOT_ID");
                assert_eq!(why, reason);
            }
            _ => panic!("{id} is no slot id"),
        }
    }
}

#[test]
fn port_has_a_default() {
    assert_eq!(DEFAULT_PKCS11_PORT, 2310);
    assert_eq!(loaded(&without("SECUROSYS_PKCS11_PORT")).port, 2310);
    assert_eq!(loaded(&without("SECUROSYS_ENDPOINT")).endpoint, None);
    assert_eq!(port_from_env(&env(&[("SECUROSYS_PKCS11_PORT", "65535")])).ok(), Some(65535));
}

#[test]
fn bad_port_is_invalid() {
    assert_eq!(
        message(&with("SECUROSYS_PKCS11_PORT", "65536")),
        "invalid Securosys config for `SECUROSYS_PKCS11_PORT`: number too large to fit in target type"
    );
    assert_eq!(
        message(&with("SECUROSYS_PKCS11_PORT", "x")),
        "invalid Securosys config for `SECUROSYS_PKCS11_PORT`: invalid digit found in string"
    );
}

#[test]
fn bad_path_is_reported_before_the_port() {
    let mut vars = with("SECUROSYS_DERIVATION_PATH", "m/abc");
    vars.retain(|(k, _)| *k != "SECUROSYS_PKCS11_PORT");
    vars.push(("SECUROSYS_PKCS11_PORT", "x"));
    let reason = match "m/abc".parse::<bitcoin::bip32::DerivationPath>() {
        Ok(_) => panic!("no path"),
        Err(e) => e.to_string(),
    };
    assert_eq!(message(&vars), format!("invalid derivation path: {reason}"));
}

#[test]
fn first_of_equal_names_counts() {
    let e = env(&[("A", "1"), ("A", "2"), ("B", "3")]);
    assert_eq!(e.var("A"), Some("1".to_string()));
    assert_eq!(e.var("B"), Some("3".to_string()));
    assert_eq!(e.var("a"), None);
}

#[test]
fn configuration_takes_a_parsed_path() {
    let e = env(&complete());
    let slot = SlotIdentifier::SlotId(1);
    let pin = Secret::new("p".to_string());
    let parsed = Ok(vec![HARDENED_BIT, 1]);
    match SecurosysConfig::with_parsed_path(&e, "/l.so".to_string(), slot, pin, parsed) {
        Ok(config) => {
            assert_eq!(config.library_path, "/l.so");
            assert_eq!(config.slot, SlotIdentifier::SlotId(1));
            assert_eq!(
                config.derivation_path,
                vec![ChildNumber::Hardened { index: 0 }, ChildNumber::Normal { index: 1 }]
            );
            assert_eq!(config.port, 2311);
        }
        Err(e) => panic!("{e:?}"),
    }
    let slot = SlotIdentifier::SlotId(1);
    let pin = Secret::new("p".to_string());
    let parsed = Err("why".to_string());
    match SecurosysConfig::with_parsed_path(&e, "/l.so".to_string(), slot, pin, parsed) {
        Ok(_) => panic!("no path"),
        Err(e) => assert_eq!(e.message(), "invalid derivation path: why"),
    }
}

#[test]
fn debug_view_hides_the_pin() {
    let config = loaded(&complete());
    let other = loaded(&with("SECUROSYS_PKCS11_PASSWORD", "another"));
    let names: Vec<&str> = config.debug_fields().into_iter().map(|(name, _)| name).collect();
    assert_eq!(
        names,
        vec!["library_path", "slot", "pin", "derivation_path", "endpoint", "port"]
    );
    for shown in [&config, &other] {
        let fields = shown.debug_fields();
        match &fields[0].1 {
            DebugField::Text(text) => assert_eq!(*text, "/opt/primus/lib/libprimusP11.so"),
            _ => panic!("a text"),
        }
        match &fields[1].1 {
            DebugField::Slot(slot) => assert_eq!(**slot, config.slot),
            _ => panic!("a slot"),
        }
        match &fields[2].1 {
            DebugField::Text(text) => assert_eq!(*text, "<redacted>"),
            _ => panic!("a text"),
        }
        match &fields[3].1 {
            DebugField::Path(path) => assert_eq!(path_to_text(path), "48'/1'/0'/2'"),
            _ => panic!("a path"),
        }
        match &fields[4].1 {
            DebugField::Optional(text) => {
                assert_eq!(**text, Some("ch01-api.cloudshsm.com".to_string()))
            }
            _ => panic!("an optional text"),
        }
        match &fields[5].1 {
            DebugField::Port(port) => assert_eq!(*port, 2311),
            _ => panic!("a port"),
        }
    }
}

#[test]
fn secrets_do_not_show() {
    let secret = Secret::new("hunter2".to_string());
    assert_eq!(secret.expose_secret(), "hunter2");
    assert_eq!(secret.clone().expose_secret(), "hunter2");
    assert!(!format!("{secret:?}").contains("hunter2"));
}

#[test]
fn pkcs11_configuration_points_at_the_provider() {
    let config = match pkcs11_config(loaded(&complete())) {
        Ok(config) => config,
        Err(e) => panic!("{e:?}"),
    };
    assert_eq!(config.library_path, "/opt/primus/lib/libprimusP11.so");
    assert_eq!(config.slot, SlotIdentifier::Label("EmeraldFoundation".to_string()));
    assert_eq!(config.pin.expose_secret(), "hunter2");
    assert_eq!(path_to_text(&config.derivation_path), "48'/1'/0'/2'");
    assert_eq!(config.backend.lib_path(), "/opt/primus/lib/libprimusP11.so");
    assert_eq!(config.backend.backend_name(), "securosys");
}

#[test]
fn pkcs11_reasons_are_passed_on() {
    assert_eq!(SecurosysError::Pkcs11("token gone".to_string()).message(), "token gone");
}

#[test]
fn master_paths_are_empty() {
    for text in ["", "m", "m/"] {
        match parse_derivation_path(text) {
            Ok(path) => assert!(path.is_empty()),
            Err(e) => panic!("{e:?}"),
        }
    }
}

#[test]
fn paths_read_back_as_written() {
    for text in ["0", "0'", "48'/1'/0'/2'", "2147483647'/2147483647/10"] {
        match parse_derivation_path(text) {
            Ok(path) => assert_eq!(path_to_text(&path), text),
            Err(e) => panic!("{e:?}"),
        }
    }
    assert_eq!(path_to_text(&[]), "");
    assert!(matches!(
        parse_derivation_path("m/2147483648"),
        Err(SecurosysError::DerivationPath(_))
    ));
}

#[test]
fn child_numbers_and_words_correspond() {
    for (child, word, text) in [
        (ChildNumber::Normal { index: 0 }, 0u32, "0"),
        (ChildNumber::Normal { index: 0x7fff_ffff }, 0x7fff_ffff, "2147483647"),
        (ChildNumber::Hardened { index: 0 }, 0x8000_0000, "0'"),
        (ChildNumber::Hardened { index: 0x7fff_ffff }, 0xffff_ffff, "2147483647'"),
    ] {
        assert_eq!(child.to_word(), word);
        assert_eq!(ChildNumber::from_word(word), child);
        assert_eq!(child.to_text(), text);
    }
}

#[test]
fn parsed_words_become_a_path() {
    match path_from_words(Ok(vec![3, 0x8000_0004])) {
        Ok(path) => assert_eq!(
            path,
            vec![ChildNumber::Normal { index: 3 }, ChildNumber::Hardened { index: 4 }]
        ),
        Err(e) => panic!("{e:?}"),
    }
    match path_from_words(Err("why".to_string())) {
        Err(SecurosysError::DerivationPath(reason)) => assert_eq!(reason, "why"),
        _ => panic!("no path"),
    }
}

#[test]
fn parsed_numbers_are_checked() {
    assert_eq!(port_from_parsed(Ok(7)).ok(), Some(7));
    assert_eq!(slot_from_parsed_id(Ok(9)).ok(), Some(SlotIdentifier::SlotId(9)));
    match port_from_parsed(Err("why".to_string())) {
        Err(e) => assert_eq!(
            e.message(),
            "invalid Securosys config for `SECUROSYS_PKCS11_PORT`: why"
        ),
        Ok(_) => panic!("no port"),
    }
    match slot_from_parsed_id(Err("why".to_string())) {
        Err(e) => assert_eq!(
            e.message(),
            "invalid Securosys config for `SECUROSYS_SLOT_ID`: why"
        ),
        Ok(_) => panic!("no slot id"),
    }
}
