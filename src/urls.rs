use vstd::prelude::*;
use crate::error::Error;
use crate::text::append;

verus! {

/// What `url::Url::parse_with_params` gives for a base text and query pairs,
/// serialised; `None` where the base does not parse.
pub uninterp spec fn url_with_params(base: Seq<char>, pairs: Seq<(Seq<char>, Seq<char>)>) -> Option<Seq<char>>;

/// The texts of a list of query pairs.
pub open spec fn pair_views(pairs: Seq<(String, String)>) -> Seq<(Seq<char>, Seq<char>)> {
    pairs.map_values(|p: (String, String)| (p.0@, p.1@))
}

/// Relies on `url::Url::parse_with_params`: parses `base` as an absolute URL
/// and appends the pairs, form-encoded and in order, to its query. The outcome
/// depends on the arguments alone.
#[verifier::external_body]
fn parse_with_params(base: &str, pairs: &Vec<(String, String)>) -> (r: Result<String, url::ParseError>)
    ensures
        match url_with_params(base@, pair_views(pairs@)) {
            Some(t) => r matches Ok(u) && u@ == t,
            None => r is Err,
        },
{
    url::Url::parse_with_params(base, pairs.iter()).map(String::from)
}

/// The text of `url_with_params(base, pairs)` as a builder's outcome.
pub open spec fn url_outcome(
    r: Result<String, Error>,
    base: Seq<char>,
    pairs: Seq<(Seq<char>, Seq<char>)>,
) -> bool {
    match url_with_params(base, pairs) {
        Some(t) => r matches Ok(u) && u@ == t,
        None => r matches Err(Error::InvalidUrl(_)),
    }
}

/// Host of the equity and gold provider.
pub open spec fn polygon_host() -> Seq<char> {
    "https://api.polygon.io"@
}

/// Host of the crypto provider.
pub open spec fn coingecko_host() -> Seq<char> {
    "https://api.coingecko.com"@
}

/// Base of the equity details request for a ticker symbol.
pub open spec fn ticker_details_base(symbol: Seq<char>) -> Seq<char> {
    polygon_host() + "/v3/reference/tickers/"@ + symbol
}

/// Base of the previous-day aggregate request for a forex ticker.
pub open spec fn forex_base(ticker: Seq<char>) -> Seq<char> {
    polygon_host() + "/v2/aggs/ticker/C:"@ + ticker + "/prev"@
}

/// Base of the crypto markets request.
pub open spec fn coingecko_markets_base() -> Seq<char> {
    coingecko_host() + "/api/v3/coins/markets"@
}

/// The query of an equity or gold request.
pub open spec fn polygon_query(key: Seq<char>) -> Seq<(Seq<char>, Seq<char>)> {
    seq![("apiKey"@, key)]
}

/// The query of a crypto markets request, in this order.
pub open spec fn coingecko_query(id: Seq<char>, key: Seq<char>) -> Seq<(Seq<char>, Seq<char>)> {
    seq![("vs_currency"@, "usd"@), ("ids"@, id), ("x_cg_key"@, key)]
}

fn with_params(base: &String, pairs: &Vec<(String, String)>) -> (r: Result<String, Error>)
    ensures
        url_outcome(r, base@, pair_views(pairs@)),
{
    match parse_with_params(base.as_str(), pairs) {
        Ok(u) => Ok(u),
        Err(e) => Err(Error::InvalidUrl(e)),
    }
}

/// The crypto markets URL for a coin id, in USD.
pub fn construct_coingecko_v3_markets_query_url(coingecko_id: &String, apikey: &String) -> (r: Result<String, Error>)
    ensures
        url_outcome(r, coingecko_markets_base(), coingecko_query(coingecko_id@, apikey@)),
{
    let mut base = String::new();
    append(&mut base, "https://api.coingecko.com");
    append(&mut base, "/api/v3/coins/markets");
    let mut pairs: Vec<(String, String)> = Vec::new();
    pairs.push(("vs_currency".to_string(), "usd".to_string()));
    pairs.push(("ids".to_string(), coingecko_id.clone()));
    pairs.push(("x_cg_key".to_string(), apikey.clone()));
    assert(base@ =~= coingecko_markets_base());
    assert(pair_views(pairs@) =~= coingecko_query(coingecko_id@, apikey@));
    with_params(&base, &pairs)
}

/// The query pairs of an equity or gold request.
fn polygon_pairs(apikey: &String) -> (r: Vec<(String, String)>)
    ensures
        pair_views(r@) == polygon_query(apikey@),
{
    let mut pairs: Vec<(String, String)> = Vec::new();
    pairs.push(("apiKey".to_string(), apikey.clone()));
    assert(pair_views(pairs@) =~= polygon_query(apikey@));
    pairs
}

/// The equity details URL for a ticker symbol, placed in the path as given.
pub fn construct_tickerdetailsv3_query_url(stock_symbol: &String, apikey: &String) -> (r: Result<String, Error>)
    ensures
        url_outcome(r, ticker_details_base(stock_symbol@), polygon_query(apikey@)),
{
    let mut base = String::new();
    append(&mut base, "https://api.polygon.io");
    append(&mut base, "/v3/reference/tickers/");
    append(&mut base, stock_symbol.as_str());
    assert(base@ =~= ticker_details_base(stock_symbol@));
    with_params(&base, &polygon_pairs(apikey))
}

/// The previous-day aggregate URL for a forex ticker (`C:` is put before it).
pub fn construct_forex_query_url(forex_ticker: &String, apikey: &String) -> (r: Result<String, Error>)
    ensures
        url_outcome(r, forex_base(forex_ticker@), polygon_query(apikey@)),
{
    let mut base = String::new();
    append(&mut base, "https://api.polygon.io");
    append(&mut base, "/v2/aggs/ticker/C:");
    append(&mut base, forex_ticker.as_str());
    append(&mut base, "/prev");
    assert(base@ =~= forex_base(forex_ticker@));
    with_params(&base, &polygon_pairs(apikey))
}

/// The builders are functions of their arguments: equal arguments give the
/// same URL, or fail alike.
pub proof fn lemma_builders_deterministic(
    s1: Seq<char>,
    k1: Seq<char>,
    s2: Seq<char>,
    k2: Seq<char>,
    r1: Result<String, Error>,
    r2: Result<String, Error>,
)
    requires
        s1 == s2,
        k1 == k2,
        url_outcome(r1, ticker_details_base(s1), polygon_query(k1)) && url_outcome(
            r2,
            ticker_details_base(s2),
            polygon_query(k2),
        ) || url_outcome(r1, forex_base(s1), polygon_query(k1)) && url_outcome(
            r2,
            forex_base(s2),
            polygon_query(k2),
        ) || url_outcome(r1, coingecko_markets_base(), coingecko_query(s1, k1)) && url_outcome(
            r2,
            coingecko_markets_base(),
            coingecko_query(s2, k2),
        ),
    ensures
        r1 is Ok <==> r2 is Ok,
        r1 matches Ok(u1) ==> (r2 matches Ok(u2) && u1@ == u2@),
{
}

} // verus!
