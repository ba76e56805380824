use vstd::prelude::*;

verus! {

#[verifier::external_type_specification]
#[verifier::external_body]
pub struct ExParseError(url::ParseError);

/// Everything that can stop the computation of a ratio.
#[derive(Debug)]
pub enum Error {
    /// A request URL could not be built.
    InvalidUrl(url::ParseError),
    /// The HTTP request could not be sent; holds the transport's message.
    SendRequest(String),
    /// A success body did not have the expected shape: the decoder's message and the asset.
    Deserialization(String, String),
    /// A non-success HTTP status whose body was not a provider error.
    UnexpectedStatus(u16),
    /// A required environment variable is unset or empty; holds its name.
    EnvVarError(String),
    /// The equity and gold provider reported an error; holds its message.
    PolygonApi(String),
    /// The crypto provider did not return a market entry; holds the raw body.
    CoingeckoApi(String),
    /// The identifier is neither gold, an equity ticker nor a crypto id.
    UnknownAssetName(String),
}

} // verus!
