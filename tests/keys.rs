use ratio_gang_cli::error::Error;
use ratio_gang_cli::keys::api_keys_from;

#[test]
fn both_keys_are_returned() {
    let keys = api_keys_from(Some(String::from("bar")), Some(String::from("foo"))).unwrap();
    assert_eq!(keys.coingecko, "foo");
    assert_eq!(keys.polygonio, "bar");
}

#[test]
fn missing_polygon_key_is_named_first() {
    match api_keys_from(None, None) {
        Err(Error::EnvVarError(name)) => assert_eq!(name, "POLYGON_KEY"),
        _ => panic!("expected EnvVarError"),
    }
}

#[test]
fn missing_coingecko_key_is_named() {
    match api_keys_from(Some(String::from("bar")), None) {
        Err(Error::EnvVarError(name)) => assert_eq!(name, "COINGECKO_KEY"),
        _ => panic!("expected EnvVarError"),
    }
}

#[test]
fn empty_key_counts_as_missing() {
    match api_keys_from(Some(String::from("bar")), Some(String::new())) {
        Err(Error::EnvVarError(name)) => assert_eq!(name, "COINGECKO_KEY"),
        _ => panic!("expected EnvVarError"),
    }
    match api_keys_from(Some(String::new()), Some(String::from("foo"))) {
        Err(Error::EnvVarError(name)) => assert_eq!(name, "POLYGON_KEY"),
        _ => panic!("expected EnvVarError"),
    }
}
