use instar::options::parse_amend_o_options;

fn opts(args: &[&str]) -> Vec<String> {
    args.iter().map(|s| s.to_string()).collect()
}

#[test]
fn compat_v2() {
    let parsed = parse_amend_o_options(&opts(&["compat=0.10"])).unwrap();
    assert_eq!(parsed.compat_v3, Some(false));
    assert_eq!(parsed.lazy_on, None);
}

#[test]
fn compat_v3() {
    let parsed = parse_amend_o_options(&opts(&["compat=1.1"])).unwrap();
    assert_eq!(parsed.compat_v3, Some(true));
    assert_eq!(parsed.lazy_on, None);
}

#[test]
fn lazy_on() {
    let parsed = parse_amend_o_options(&opts(&["lazy_refcounts=on"])).unwrap();
    assert_eq!(parsed.compat_v3, None);
    assert_eq!(parsed.lazy_on, Some(true));
}

#[test]
fn lazy_off() {
    let parsed = parse_amend_o_options(&opts(&["lazy_refcounts=off"])).unwrap();
    assert_eq!(parsed.compat_v3, None);
    assert_eq!(parsed.lazy_on, Some(false));
}

#[test]
fn both_in_one_o() {
    let parsed = parse_amend_o_options(&opts(&["compat=1.1,lazy_refcounts=on"])).unwrap();
    assert_eq!(parsed.compat_v3, Some(true));
    assert_eq!(parsed.lazy_on, Some(true));
}

#[test]
fn multiple_o_entries() {
    let parsed = parse_amend_o_options(&opts(&["compat=0.10", "lazy_refcounts=off"])).unwrap();
    assert_eq!(parsed.compat_v3, Some(false));
    assert_eq!(parsed.lazy_on, Some(false));
}

#[test]
fn bad_compat_value() {
    let err = parse_amend_o_options(&opts(&["compat=2.0"])).unwrap_err();
    assert!(err.to_string().contains("expected 0.10 or 1.1"), "{err}");
}

#[test]
fn bad_lazy_value() {
    let err = parse_amend_o_options(&opts(&["lazy_refcounts=maybe"])).unwrap_err();
    assert!(err.to_string().contains("expected on/off"), "{err}");
}

#[test]
fn unsupported_key_cluster_size() {
    let err = parse_amend_o_options(&opts(&["cluster_size=64k"])).unwrap_err();
    assert!(err.to_string().contains("is not supported"), "{err}");
}

#[test]
fn unsupported_key_refcount_bits() {
    let err = parse_amend_o_options(&opts(&["refcount_bits=8"])).unwrap_err();
    assert!(err.to_string().contains("is not supported"), "{err}");
}

#[test]
fn empty_input_is_error() {
    let err = parse_amend_o_options(&[]).unwrap_err();
    assert!(
        err.to_string().contains("no supported -o options given"),
        "{err}"
    );
}

#[test]
fn only_blank_pieces_is_error() {
    let err = parse_amend_o_options(&opts(&[" , "])).unwrap_err();
    assert!(
        err.to_string().contains("no supported -o options given"),
        "{err}"
    );
}

#[test]
fn missing_value_is_error() {
    let err = parse_amend_o_options(&opts(&["compat"])).unwrap_err();
    assert!(err.to_string().contains("missing a value"), "{err}");
}
