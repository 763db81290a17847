use address_finder::{
    check_password, create_rule, generate_filename, keystore_file_name, resolve_worker_count,
    results_file_name, Args, PasswordError, Phase,
};

fn some(s: &str) -> Option<String> {
    Some(s.to_string())
}

#[test]
fn rule_names() {
    assert_eq!(create_rule(&some("ab"), &some("cd")), "prefix_ab_suffix_cd");
    assert_eq!(create_rule(&some("ab"), &None), "prefix_ab");
    assert_eq!(create_rule(&None, &some("cd")), "suffix_cd");
    assert_eq!(create_rule(&None, &None), "no_rule");
}

#[test]
fn file_names() {
    assert_eq!(
        results_file_name("out", "20240102_030405", "no_rule"),
        "out/eth_addresses_20240102_030405_no_rule.json"
    );
    assert_eq!(
        keystore_file_name("20240102_030405", "0xabc"),
        "UTC--20240102_030405--abc"
    );
    assert_eq!(keystore_file_name("t", "abc"), "UTC--t--abc");
    let name = generate_filename("out", "prefix_ab");
    assert!(name.starts_with("out/eth_addresses_"));
    assert!(name.ends_with("_prefix_ab.json"));
}

#[test]
fn passwords() {
    assert_eq!(check_password(String::new(), &String::new()), Err(PasswordError::Empty));
    assert_eq!(check_password("a".to_string(), &"b".to_string()), Err(PasswordError::Mismatch));
    assert_eq!(check_password("a".to_string(), &"a".to_string()), Ok("a".to_string()));
}

#[test]
fn keystore_directory_defaults_under_output() {
    let mut args = Args {
        prefix: None,
        suffix: None,
        count: 1,
        output_dir: "results".to_string(),
        keystore: false,
        keystore_dir: None,
        threads: 1,
    };
    assert_eq!(args.keystore_directory(), None);
    args.keystore = true;
    assert_eq!(args.keystore_directory(), some("results/keystore"));
    args.keystore_dir = some("keys");
    assert_eq!(args.keystore_directory(), some("keys"));
}

#[test]
fn worker_counts() {
    assert_eq!(resolve_worker_count(4, 8), 4);
    assert_eq!(resolve_worker_count(0, 8), 8);
    assert_eq!(resolve_worker_count(0, 0), 1);
}

#[test]
fn phases_only_advance() {
    let mut p = Phase::Idle;
    let order = [Phase::Running, Phase::Draining, Phase::ReporterStopped, Phase::Done, Phase::Done];
    for next in order {
        p = p.advance();
        assert_eq!(p, next);
    }
}
