use vstd::prelude::*;
use crate::error::Error;

verus! {

/// Troy ounces in a metric tonne, in units of 10^-8 ounce.
pub const OUNCES_PER_TONNE_E8: u128 = 3527396194958;

/// A response of the equity and gold provider, decoded by the caller.
pub enum PolygonReply<T> {
    /// A success status with the decoded body, or the decoder's message.
    Success(Result<T, String>),
    /// A failure status with the provider's error message, where the body had one.
    Failure(u16, Option<String>),
}

/// A response of the crypto provider.
pub enum CoingeckoReply {
    /// A success status: the raw body, and the market caps that it lists in
    /// whole USD, or the decoder's message.
    Success(String, Result<Vec<u64>, String>),
    /// A failure status with the raw body.
    Failure(String),
}

/// The outcome owed for a failed equity or gold request.
pub open spec fn polygon_failure(r: Result<u64, Error>, status: u16, message: Option<String>) -> bool {
    match message {
        Some(m) => r matches Err(Error::PolygonApi(e)) && e@ == m@,
        None => r matches Err(Error::UnexpectedStatus(s)) && s == status,
    }
}

/// A decode failure for `asset` carrying message `m`.
pub open spec fn is_decode_error(r: Result<u64, Error>, m: Seq<char>, asset: Seq<char>) -> bool {
    r matches Err(Error::Deserialization(e, a)) && e@ == m && a@ == asset
}

fn polygon_error(status: u16, message: Option<String>) -> (r: Result<u64, Error>)
    ensures
        polygon_failure(r, status, message),
{
    match message {
        Some(m) => Err(Error::PolygonApi(m)),
        None => Err(Error::UnexpectedStatus(status)),
    }
}

/// The market cap of an equity from its details response, in whole USD.
pub fn stock_market_cap(reply: PolygonReply<u64>, stock_symbol: &String) -> (r: Result<u64, Error>)
    ensures
        match reply {
            PolygonReply::Success(Ok(cap)) => r == Ok::<u64, Error>(cap),
            PolygonReply::Success(Err(m)) => is_decode_error(r, m@, stock_symbol@),
            PolygonReply::Failure(status, message) => polygon_failure(r, status, message),
        },
{
    match reply {
        PolygonReply::Success(Ok(cap)) => Ok(cap),
        PolygonReply::Success(Err(m)) => Err(Error::Deserialization(m, stock_symbol.clone())),
        PolygonReply::Failure(status, message) => polygon_error(status, message),
    }
}

/// Gold's market cap in whole USD, rounded down: the close price (in
/// millionths of a USD per troy ounce) times the above-ground stock (in kg)
/// times the ounces in a tonne.
pub open spec fn gold_cap_spec(close_micro_usd: nat, above_ground_kg: nat) -> nat {
    (close_micro_usd * above_ground_kg * (OUNCES_PER_TONNE_E8 as nat) / 100_000_000_000_000_000nat) as nat
}

/// Gold's market cap, or `None` where it exceeds `u64::MAX` USD.
pub fn gold_market_cap_from_close(close_micro_usd: u64, above_ground_kg: u64) -> (r: Option<u64>)
    ensures
        r == (if gold_cap_spec(close_micro_usd as nat, above_ground_kg as nat) <= u64::MAX {
            Some(gold_cap_spec(close_micro_usd as nat, above_ground_kg as nat) as u64)
        } else {
            None::<u64>
        }),
{
    proof {
        vstd::arithmetic::mul::lemma_mul_upper_bound(
            close_micro_usd as int,
            u64::MAX as int,
            above_ground_kg as int,
            u64::MAX as int,
        );
        assert(u64::MAX as int * u64::MAX as int <= u128::MAX) by (nonlinear_arith);
    }
    let p: u128 = close_micro_usd as u128 * above_ground_kg as u128;
    match p.checked_mul(OUNCES_PER_TONNE_E8) {
        Some(q) => {
            let v: u128 = q / 100_000_000_000_000_000u128;
            if v <= u64::MAX as u128 {
                Some(v as u64)
            } else {
                None
            }
        },
        None => {
            proof {
                assert(p as int * OUNCES_PER_TONNE_E8 as int > u128::MAX);
                assert((p as int * OUNCES_PER_TONNE_E8 as int) / 100_000_000_000_000_000int > u64::MAX)
                    by (nonlinear_arith)
                    requires
                        p as int * OUNCES_PER_TONNE_E8 as int > u128::MAX,
                ;
            }
            None
        },
    }
}

/// The ticker under which the provider quotes gold in USD.
pub open spec fn gold_ticker() -> Seq<char> {
    "XAUUSD"@
}

/// The outcome owed for a successful gold response listing close prices.
pub open spec fn gold_success(r: Result<u64, Error>, closes: Seq<u64>, above_ground_kg: u64) -> bool {
    if closes.len() == 0 {
        r matches Err(Error::Deserialization(_, a)) && a@ == gold_ticker()
    } else if gold_cap_spec(closes[0] as nat, above_ground_kg as nat) <= u64::MAX {
        r == Ok::<u64, Error>(gold_cap_spec(closes[0] as nat, above_ground_kg as nat) as u64)
    } else {
        r matches Err(Error::Deserialization(_, a)) && a@ == gold_ticker()
    }
}

/// Gold's market cap from the previous-day aggregate response, whose candles
/// give close prices in millionths of a USD; the first candle counts.
pub fn gold_market_cap(reply: PolygonReply<Vec<u64>>, above_ground_kg: u64) -> (r: Result<u64, Error>)
    ensures
        match reply {
            PolygonReply::Success(Ok(closes)) => gold_success(r, closes@, above_ground_kg),
            PolygonReply::Success(Err(m)) => is_decode_error(r, m@, gold_ticker()),
            PolygonReply::Failure(status, message) => polygon_failure(r, status, message),
        },
{
    let ticker = "XAUUSD".to_string();
    match reply {
        PolygonReply::Success(Ok(closes)) => {
            if closes.len() == 0 {
                Err(Error::Deserialization("the response lists no candle".to_string(), ticker))
            } else {
                match gold_market_cap_from_close(closes[0], above_ground_kg) {
                    Some(cap) => Ok(cap),
                    None => Err(
                        Error::Deserialization("the market cap exceeds the supported range".to_string(), ticker),
                    ),
                }
            }
        },
        PolygonReply::Success(Err(m)) => Err(Error::Deserialization(m, ticker)),
        PolygonReply::Failure(status, message) => polygon_error(status, message),
    }
}

/// The empty JSON array, which the crypto provider sends for unknown ids.
pub open spec fn empty_array_text() -> Seq<char> {
    seq!['[', ']']
}

fn is_empty_array_text(body: &String) -> (r: bool)
    ensures
        r == (body@ == empty_array_text()),
{
    let t = body.as_str();
    if t.unicode_len() != 2 {
        return false;
    }
    let c0 = t.get_char(0);
    let c1 = t.get_char(1);
    assert(body@ =~= seq![c0, c1]);
    c0 == '[' && c1 == ']'
}

/// A crypto failure carrying the raw body.
pub open spec fn is_coingecko_error(r: Result<u64, Error>, body: Seq<char>) -> bool {
    r matches Err(Error::CoingeckoApi(b)) && b@ == body
}

/// The market cap of a crypto asset from its markets response, in whole USD:
/// the first listed entry counts; a failure status, the body `[]` and an empty
/// list are provider errors carrying the body.
pub fn crypto_market_cap(reply: CoingeckoReply, coingecko_id: &String) -> (r: Result<u64, Error>)
    ensures
        match reply {
            CoingeckoReply::Failure(body) => is_coingecko_error(r, body@),
            CoingeckoReply::Success(body, decoded) => if body@ == empty_array_text() {
                is_coingecko_error(r, body@)
            } else {
                match decoded {
                    Err(m) => is_decode_error(r, m@, coingecko_id@),
                    Ok(caps) => if caps@.len() == 0 {
                        is_coingecko_error(r, body@)
                    } else {
                        r == Ok::<u64, Error>(caps@[0])
                    },
                }
            },
        },
{
    match reply {
        CoingeckoReply::Failure(body) => Err(Error::CoingeckoApi(body)),
        CoingeckoReply::Success(body, decoded) => {
            if is_empty_array_text(&body) {
                return Err(Error::CoingeckoApi(body));
            }
            match decoded {
                Err(m) => Err(Error::Deserialization(m, coingecko_id.clone())),
                Ok(caps) => {
                    if caps.len() == 0 {
                        Err(Error::CoingeckoApi(body))
                    } else {
                        Ok(caps[0])
                    }
                },
            }
        },
    }
}

} // verus!
