//! Client-side core of a cryptocurrency market-data REST API: the supported
//! sampling periods, their wire identifiers, the resolution of an arbitrary
//! duration onto the nearest supported period, and the parts of a request that
//! need no network.

mod period;
mod request;
mod resolve;
mod span;

pub use period::{
    catalog, catalog_at, decimal, digit_char, lemma_catalog_ascending, multiplier,
    nanos_of_period, p, render, seconds_of, supported_period, supported_periods, unit_token,
    Period, PeriodInner, CATALOG_LEN,
};
pub use request::{
    api_base, asset_route, assets_matching_route, endpoint_url, history_route, int_bool, single,
    AssetName, Lookup,
};
pub use resolve::{
    distance, is_nearest, is_supported, lemma_clamp_above, lemma_clamp_below,
    lemma_exact_round_trip, lemma_midpoint_goes_up, lemma_nearest_unique, preferred,
    resolve_nanos, resolves, ExactError,
};
pub use span::{duration_nanos, nanos_in, subsec_nanos_of, whole_secs};
