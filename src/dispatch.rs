use vstd::prelude::*;
use crate::assets::{classify, identify_market_cap_type, MarketCapType};
use crate::error::Error;
use crate::keys::ApiKeys;
use crate::providers::gold_ticker;
use crate::urls::{
    coingecko_markets_base, coingecko_query, construct_coingecko_v3_markets_query_url,
    construct_forex_query_url, construct_tickerdetailsv3_query_url, forex_base, polygon_query,
    ticker_details_base, url_with_params,
};

verus! {

/// The request that yields an asset's market cap: the provider adapter to
/// use and the URL to fetch.
pub struct FetchPlan {
    pub kind: MarketCapType,
    pub url: String,
}

/// The outcome owed for an asset of class `kind` whose request is built
/// from `base` and `pairs`.
pub open spec fn plan_outcome(
    r: Result<FetchPlan, Error>,
    kind: MarketCapType,
    base: Seq<char>,
    pairs: Seq<(Seq<char>, Seq<char>)>,
) -> bool {
    match url_with_params(base, pairs) {
        Some(t) => r matches Ok(p) && p.kind == kind && p.url@ == t,
        None => r matches Err(Error::InvalidUrl(_)),
    }
}

/// Picks the provider for an identifier by its class and builds the request:
/// gold is quoted as `XAUUSD` and equities by ticker, both with the equity
/// provider's key; crypto ids go to the crypto provider with its key. An
/// unknown identifier is an error, and nothing is to be fetched.
pub fn plan_market_cap_fetch(asset_name: &String, apikeys: &ApiKeys) -> (r: Result<FetchPlan, Error>)
    ensures
        match classify(asset_name@) {
            MarketCapType::Gold => plan_outcome(
                r,
                MarketCapType::Gold,
                forex_base(gold_ticker()),
                polygon_query(apikeys.polygonio@),
            ),
            MarketCapType::Stock => plan_outcome(
                r,
                MarketCapType::Stock,
                ticker_details_base(asset_name@),
                polygon_query(apikeys.polygonio@),
            ),
            MarketCapType::Crypto => plan_outcome(
                r,
                MarketCapType::Crypto,
                coingecko_markets_base(),
                coingecko_query(asset_name@, apikeys.coingecko@),
            ),
            MarketCapType::Unknown => r matches Err(Error::UnknownAssetName(n)) && n@ == asset_name@,
        },
{
    let kind = identify_market_cap_type(asset_name);
    let built = match kind {
        MarketCapType::Gold => {
            let ticker = "XAUUSD".to_string();
            construct_forex_query_url(&ticker, &apikeys.polygonio)
        },
        MarketCapType::Stock => construct_tickerdetailsv3_query_url(asset_name, &apikeys.polygonio),
        MarketCapType::Crypto => construct_coingecko_v3_markets_query_url(asset_name, &apikeys.coingecko),
        MarketCapType::Unknown => {
            return Err(Error::UnknownAssetName(asset_name.clone()));
        },
    };
    match built {
        Ok(url) => Ok(FetchPlan { kind, url }),
        Err(e) => Err(e),
    }
}

} // verus!
