use vstd::prelude::*;
use vstd::string::*;
use crate::error::Error;

verus! {

/// The two provider credentials.
#[derive(Debug, Default)]
pub struct ApiKeys {
    pub coingecko: String,
    pub polygonio: String,
}

/// Name of the variable that holds the equity and gold provider's key.
pub open spec fn polygon_env() -> Seq<char> {
    seq!['P', 'O', 'L', 'Y', 'G', 'O', 'N', '_', 'K', 'E', 'Y']
}

/// Name of the variable that holds the crypto provider's key.
pub open spec fn coingecko_env() -> Seq<char> {
    seq!['C', 'O', 'I', 'N', 'G', 'E', 'C', 'K', 'O', '_', 'K', 'E', 'Y']
}

/// A variable that is set to a non-empty value.
pub open spec fn is_present(v: Option<String>) -> bool {
    v matches Some(s) && s@.len() > 0
}

/// Resolves the credentials from the values of `POLYGON_KEY` and
/// `COINGECKO_KEY` (`None` where unset). An unset or empty variable is an
/// error naming it; `POLYGON_KEY` is checked first.
pub fn api_keys_from(polygon: Option<String>, coingecko: Option<String>) -> (r: Result<ApiKeys, Error>)
    ensures
        r is Ok <==> is_present(polygon) && is_present(coingecko),
        r matches Ok(k) ==> k.polygonio@ == polygon->0@ && k.coingecko@ == coingecko->0@,
        !is_present(polygon) ==> (r matches Err(Error::EnvVarError(n)) && n@ == polygon_env()),
        is_present(polygon) && !is_present(coingecko) ==> (r matches Err(Error::EnvVarError(n))
            && n@ == coingecko_env()),
{
    let polygonio = match polygon {
        Some(v) if v.as_str().unicode_len() > 0 => v,
        _ => {
            let name = "POLYGON_KEY".to_string();
            proof {
                reveal_strlit("POLYGON_KEY");
                assert(name@ =~= polygon_env());
            }
            return Err(Error::EnvVarError(name));
        },
    };
    let coingecko = match coingecko {
        Some(v) if v.as_str().unicode_len() > 0 => v,
        _ => {
            let name = "COINGECKO_KEY".to_string();
            proof {
                reveal_strlit("COINGECKO_KEY");
                assert(name@ =~= coingecko_env());
            }
            return Err(Error::EnvVarError(name));
        },
    };
    Ok(ApiKeys { coingecko, polygonio })
}

} // verus!
