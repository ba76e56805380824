use ratio_gang_cli::assets::{classify_folded, identify_market_cap_type, MarketCapType};

#[test]
fn test_identify_market_cap_type_for_gold() {
    let m = String::from("gold");
    assert_eq!(MarketCapType::Gold, identify_market_cap_type(&m))
}

#[test]
fn test_identify_market_cap_type_for_capital_gold() {
    let m = String::from("Gold");
    assert_eq!(MarketCapType::Gold, identify_market_cap_type(&m))
}

#[test]
fn test_identify_market_cap_type_for_crypto() {
    let m = String::from("ethereum");
    assert_eq!(MarketCapType::Crypto, identify_market_cap_type(&m))
}

#[test]
fn test_identify_market_cap_type_for_stock() {
    let m = String::from("AAPL");
    assert_eq!(MarketCapType::Stock, identify_market_cap_type(&m))
}

#[test]
fn test_identify_market_cap_type_for_unknown() {
    let m = String::from("FooBar");
    assert_eq!(MarketCapType::Unknown, identify_market_cap_type(&m))
}

#[test]
fn upper_gold_is_a_ticker() {
    assert_eq!(MarketCapType::Stock, identify_market_cap_type(&String::from("GOLD")));
}

#[test]
fn empty_identifier_is_unknown() {
    assert_eq!(MarketCapType::Unknown, identify_market_cap_type(&String::new()));
}

#[test]
fn identifier_without_letters_is_a_ticker() {
    assert_eq!(MarketCapType::Stock, identify_market_cap_type(&String::from("123")));
    assert_eq!(MarketCapType::Stock, identify_market_cap_type(&String::from("-")));
}

#[test]
fn case_forms_classify_as_ticker_and_coin() {
    for x in ["Bitcoin", "msft", "SoL", "a"] {
        let s = String::from(x);
        assert_eq!(MarketCapType::Stock, identify_market_cap_type(&s.to_uppercase()));
        assert_eq!(MarketCapType::Crypto, identify_market_cap_type(&s.to_lowercase()));
    }
}

#[test]
fn classification_is_repeatable() {
    for x in ["gold", "AAPL", "ethereum", "FooBar", ""] {
        let s = String::from(x);
        assert_eq!(identify_market_cap_type(&s), identify_market_cap_type(&s));
    }
}

#[test]
fn non_ascii_case_forms() {
    assert_eq!(MarketCapType::Crypto, identify_market_cap_type(&String::from("straße")));
    assert_eq!(MarketCapType::Stock, identify_market_cap_type(&String::from("ÄPFEL")));
}

#[test]
fn classify_from_given_forms() {
    let s = String::from("abc");
    assert_eq!(
        MarketCapType::Crypto,
        classify_folded(&s, &String::from("ABC"), &String::from("abc"))
    );
    assert_eq!(
        MarketCapType::Stock,
        classify_folded(&s, &String::from("abc"), &String::from("abc"))
    );
    assert_eq!(
        MarketCapType::Unknown,
        classify_folded(&s, &String::from("ABC"), &String::from("xyz"))
    );
    assert_eq!(
        MarketCapType::Gold,
        classify_folded(&String::from("Gold"), &String::from("GOLD"), &String::from("gold"))
    );
}
