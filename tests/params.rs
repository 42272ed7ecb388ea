use deployer_lib::params::{ParamValue, ParamsError, ProgramParams};

fn text(s: &str) -> ParamValue {
    ParamValue::Text(s.to_string())
}

fn sample() -> ProgramParams {
    ProgramParams::new(vec![
        ("owner".to_string(), text("neutron1owner")),
        ("denom".to_string(), text("untrn")),
        (
            "validators".to_string(),
            ParamValue::List(vec!["val1".to_string(), "val2".to_string()]),
        ),
        ("max_forward_amount".to_string(), text("1000")),
    ])
}

#[test]
fn get_present_key() {
    let p = sample();
    assert_eq!(p.get("owner").unwrap(), "neutron1owner");
    assert_eq!(p.get("max_forward_amount").unwrap(), "1000");
}

#[test]
fn get_absent_key_names_it() {
    let p = sample();
    match p.get("missing") {
        Err(ParamsError::KeyNotFound(k)) => assert_eq!(k, "missing"),
        other => panic!("unexpected {:?}", other),
    }
    match p.get_array("missing") {
        Err(ParamsError::KeyNotFound(k)) => assert_eq!(k, "missing"),
        other => panic!("unexpected {:?}", other),
    }
}

#[test]
fn key_not_found_only_for_absent_keys() {
    let p = sample();
    for key in ["owner", "denom", "validators", "max_forward_amount"] {
        assert!(!matches!(p.get(key), Err(ParamsError::KeyNotFound(_))));
        assert!(!matches!(p.get_array(key), Err(ParamsError::KeyNotFound(_))));
    }
    for key in ["", "Owner", "owner ", "validator"] {
        assert!(matches!(p.get(key), Err(ParamsError::KeyNotFound(_))));
    }
}

#[test]
fn get_array_returns_items_in_order() {
    let p = sample();
    assert_eq!(p.get_array("validators").unwrap(), vec!["val1".to_string(), "val2".to_string()]);
}

#[test]
fn kind_mismatch_is_not_key_not_found() {
    let p = sample();
    match p.get("validators") {
        Err(ParamsError::NotText(k)) => assert_eq!(k, "validators"),
        other => panic!("unexpected {:?}", other),
    }
    match p.get_array("denom") {
        Err(ParamsError::NotList(k)) => assert_eq!(k, "denom"),
        other => panic!("unexpected {:?}", other),
    }
}

#[test]
fn later_binding_wins() {
    let p = ProgramParams::new(vec![
        ("denom".to_string(), text("uatom")),
        ("denom".to_string(), text("untrn")),
    ]);
    assert_eq!(p.get("denom").unwrap(), "untrn");
}

#[test]
fn empty_params_have_no_keys() {
    let p = ProgramParams::new(vec![]);
    assert!(matches!(p.get("owner"), Err(ParamsError::KeyNotFound(_))));
    assert!(matches!(p.get_array("owner"), Err(ParamsError::KeyNotFound(_))));
}
