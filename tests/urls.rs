use ratio_gang_cli::keys::ApiKeys;
use ratio_gang_cli::urls::{
    construct_coingecko_v3_markets_query_url, construct_forex_query_url,
    construct_tickerdetailsv3_query_url,
};
use url::Url;

#[test]
fn test_construct_forex_query_url() {
    let apikeys = ApiKeys {
        coingecko: String::from("myCoinGeckoKey"),
        polygonio: String::from("myPolygonIOKey"),
    };
    let forex_ticker = &String::from("XAUUSD");
    let constructed_url = construct_forex_query_url(&forex_ticker, &apikeys.polygonio).unwrap();
    let target_url =
        Url::parse("https://api.polygon.io/v2/aggs/ticker/C:XAUUSD/prev?apiKey=myPolygonIOKey")
            .unwrap();
    assert_eq!(Url::parse(&constructed_url).unwrap(), target_url);
    assert_eq!(constructed_url, target_url.as_str());
}

#[test]
fn test_construct_tickerdetailsv3_query_url() {
    let apikeys = ApiKeys {
        coingecko: String::from("myCoinGeckoKey"),
        polygonio: String::from("myPolygonIOKey"),
    };
    let stock_symbol = &String::from("AAPL");
    let constructed_url =
        construct_tickerdetailsv3_query_url(&stock_symbol, &apikeys.polygonio).unwrap();
    let target_url =
        Url::parse("https://api.polygon.io/v3/reference/tickers/AAPL?apiKey=myPolygonIOKey")
            .unwrap();
    assert_eq!(Url::parse(&constructed_url).unwrap(), target_url);
    assert_eq!(constructed_url, target_url.as_str());
}

#[test]
fn test_construct_coingecko_v3_markets_query_url() {
    let apikeys = ApiKeys {
        coingecko: String::from("myCoinGeckoKey"),
        polygonio: String::from("myPolygonIOKey"),
    };
    let coingecko_id = &String::from("ethereum");
    let constructed_url =
        construct_coingecko_v3_markets_query_url(&coingecko_id, &apikeys.coingecko).unwrap();
    let target_url =
        Url::parse("https://api.coingecko.com/api/v3/coins/markets?vs_currency=usd&ids=ethereum&x_cg_key=myCoinGeckoKey")
            .unwrap();
    assert_eq!(Url::parse(&constructed_url).unwrap(), target_url);
    assert_eq!(constructed_url, target_url.as_str());
}

#[test]
fn builders_give_identical_urls_for_identical_inputs() {
    let id = String::from("bitcoin");
    let key = String::from("k");
    let first = construct_coingecko_v3_markets_query_url(&id, &key).unwrap();
    let second = construct_coingecko_v3_markets_query_url(&id, &key).unwrap();
    assert_eq!(first, second);
    let t1 = construct_tickerdetailsv3_query_url(&String::from("MSFT"), &key).unwrap();
    let t2 = construct_tickerdetailsv3_query_url(&String::from("MSFT"), &key).unwrap();
    assert_eq!(t1, t2);
}

#[test]
fn query_values_are_form_encoded() {
    let url = construct_coingecko_v3_markets_query_url(
        &String::from("wrapped bitcoin&x"),
        &String::from("a/b"),
    )
    .unwrap();
    assert_eq!(
        url,
        "https://api.coingecko.com/api/v3/coins/markets?vs_currency=usd&ids=wrapped+bitcoin%26x&x_cg_key=a%2Fb"
    );
}
