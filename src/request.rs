//! The pieces of a request to the API that do not need the network: routes, the
//! lookup of a single asset, and the API's integer-coded booleans.
use vstd::prelude::*;

verus! {

/// The name of an asset such as `BTC`, `USD`, `ETH`.
#[derive(Clone, Debug, PartialEq, Eq)]
pub struct AssetName(pub String);

/// The address of the API's version 1 REST interface, with a trailing slash.
pub open spec fn api_base() -> Seq<char> {
    "https://rest.coinapi.io/v1/"@
}

/// The full address of `route` under the API's version 1 REST interface.
pub fn endpoint_url(route: &str) -> (r: String)
    ensures
        r@ == api_base() + route@,
{
    let mut s = String::from_str("https://rest.coinapi.io/v1/");
    s.append(route);
    s
}

/// The route of the exchange-rate history of `base` priced in `quote`:
/// `exchangerate/{base}/{quote}/history`.
pub fn history_route(base: &AssetName, quote: &AssetName) -> (r: String)
    ensures
        r@ == "exchangerate/"@ + base.0@ + "/"@ + quote.0@ + "/history"@,
{
    let mut s = String::from_str("exchangerate/");
    s.append(base.0.as_str());
    s.append("/");
    s.append(quote.0.as_str());
    s.append("/history");
    s
}

/// The route that describes one asset: `assets/{asset}`.
pub fn asset_route(asset: &str) -> (r: String)
    ensures
        r@ == "assets/"@ + asset@,
{
    let mut s = String::from_str("assets/");
    s.append(asset);
    s
}

/// The route that lists the assets a filter selects: `assets?filter_asset_id={filter}`.
pub fn assets_matching_route(filter: &str) -> (r: String)
    ensures
        r@ == "assets?filter_asset_id="@ + filter@,
{
    let mut s = String::from_str("assets?filter_asset_id=");
    s.append(filter);
    s
}

/// What a request for a single item brought back.
pub enum Lookup<T> {
    /// Exactly one item came back.
    Found(T),
    /// Nothing came back.
    Missing,
    /// More than one item came back; all of them, in order.
    Ambiguous(Vec<T>),
}

/// Sorts the answer to a request for a single item into one of the three
/// outcomes of [`Lookup`].
pub fn single<T>(items: Vec<T>) -> (r: Lookup<T>)
    ensures
        items.len() == 0 <==> r is Missing,
        items.len() == 1 <==> (r matches Lookup::Found(x) && x == items[0]),
        items.len() > 1 <==> (r matches Lookup::Ambiguous(v) && v@ == items@),
{
    let mut items = items;
    let n = items.len();
    if n == 0 {
        Lookup::Missing
    } else if n == 1 {
        let x = items.remove(0);
        Lookup::Found(x)
    } else {
        Lookup::Ambiguous(items)
    }
}

/// The API encodes some booleans as `0` or `1`; any other value is malformed.
pub fn int_bool(v: u8) -> (r: Option<bool>)
    ensures
        r == (if v == 0 {
            Some(false)
        } else if v == 1 {
            Some(true)
        } else {
            None::<bool>
        }),
{
    match v {
        0 => Some(false),
        1 => Some(true),
        _ => None,
    }
}

} // verus!
