//! The request for each endpoint: its absolute URL and its query pairs.

use vstd::prelude::*;
use vstd::string::StringExecFns;
use crate::models::{
    ListElectrictyConsumptionQuery, ListGasConsumptionQuery, ListGridSupplyPointsQuery,
    ListUnitRatesQuery, ProductQuery, RetrieveProductQuery,
};
use crate::query::{pairs_view, present_pairs};
use crate::text::{trim_trailing_slashes, trimmed_base};

verus! {

/// One GET request: the absolute URL and the query pairs to append to it.
#[derive(Debug)]
pub struct Request {
    pub url: String,
    pub query: Vec<(String, String)>,
}

/// The charge lists that a tariff offers.
#[derive(Clone, Copy, Debug, PartialEq, Eq, Structural)]
pub enum TariffCharges {
    ElectricityDayUnitRates,
    ElectricityNightUnitRates,
    ElectricityStandardUnitRates,
    ElectricityStandingCharges,
    GasStandardUnitRates,
    GasStandingCharges,
}

/// The absolute URL of a path under a base URL: the base's trailing slashes
/// are dropped, since every path starts with one.
pub open spec fn endpoint_url(base: Seq<char>, path: Seq<char>) -> Seq<char> {
    trim_trailing_slashes(base) + path
}

pub open spec fn products_path() -> Seq<char> {
    "/products/"@
}

pub open spec fn product_path(code: Seq<char>) -> Seq<char> {
    "/products/"@ + code + "/"@
}

/// The segment that names a tariff's fuel.
pub open spec fn fuel_segment(kind: TariffCharges) -> Seq<char> {
    match kind {
        TariffCharges::GasStandardUnitRates | TariffCharges::GasStandingCharges => "gas-tariffs"@,
        _ => "electricity-tariffs"@,
    }
}

/// The segment that names a charge list.
pub open spec fn charges_segment(kind: TariffCharges) -> Seq<char> {
    match kind {
        TariffCharges::ElectricityDayUnitRates => "day-unit-rates"@,
        TariffCharges::ElectricityNightUnitRates => "night-unit-rates"@,
        TariffCharges::ElectricityStandingCharges | TariffCharges::GasStandingCharges => "standing-charges"@,
        _ => "standard-unit-rates"@,
    }
}

pub open spec fn tariff_charges_path(kind: TariffCharges, product: Seq<char>, tariff: Seq<char>) -> Seq<char> {
    "/products/"@ + product + "/"@ + fuel_segment(kind) + "/"@ + tariff + "/"@ + charges_segment(kind) + "/"@
}

pub open spec fn meter_point_path(mpan: Seq<char>) -> Seq<char> {
    "/electricity-meter-points/"@ + mpan + "/"@
}

pub open spec fn electricity_consumption_path(mpan: Seq<char>, serial: Seq<char>) -> Seq<char> {
    "/electricity-meter-points/"@ + mpan + "/meters/"@ + serial + "/consumption/"@
}

pub open spec fn gas_consumption_path(mprn: Seq<char>, serial: Seq<char>) -> Seq<char> {
    "/gas-meter-points/"@ + mprn + "/meters/"@ + serial + "/consumption/"@
}

pub open spec fn grid_supply_points_path() -> Seq<char> {
    "/industry/grid-supply-points/"@
}

fn fuel_text(kind: TariffCharges) -> (r: &'static str)
    ensures
        r@ == fuel_segment(kind),
{
    match kind {
        TariffCharges::GasStandardUnitRates | TariffCharges::GasStandingCharges => "gas-tariffs",
        _ => "electricity-tariffs",
    }
}

fn charges_text(kind: TariffCharges) -> (r: &'static str)
    ensures
        r@ == charges_segment(kind),
{
    match kind {
        TariffCharges::ElectricityDayUnitRates => "day-unit-rates",
        TariffCharges::ElectricityNightUnitRates => "night-unit-rates",
        TariffCharges::ElectricityStandingCharges | TariffCharges::GasStandingCharges => "standing-charges",
        _ => "standard-unit-rates",
    }
}

/// The base URL without its trailing slashes, ready for a path.
fn url_root(base_url: &str) -> (r: String)
    ensures
        r@ == trim_trailing_slashes(base_url@),
{
    trimmed_base(base_url).to_owned()
}

/// The product list.
pub fn products_request(base_url: &str, query: &ProductQuery) -> (r: Request)
    ensures
        r.url@ == endpoint_url(base_url@, products_path()),
        pairs_view(r.query@) == present_pairs(query.spec_fields()),
{
    let mut url = url_root(base_url);
    url.append("/products/");
    Request { url, query: query.query_pairs() }
}

/// One product's details.
pub fn product_request(base_url: &str, query: &RetrieveProductQuery) -> (r: Request)
    ensures
        r.url@ == endpoint_url(base_url@, product_path(query.product_code@)),
        pairs_view(r.query@) == present_pairs(query.spec_fields()),
{
    let mut url = url_root(base_url);
    url.append("/products/");
    url.append(query.product_code);
    url.append("/");
    proof {
        assert(url@ =~= endpoint_url(base_url@, product_path(query.product_code@)));
    }
    Request { url, query: query.query_pairs() }
}

/// One charge list of a tariff.
pub fn tariff_charges_request(base_url: &str, kind: TariffCharges, query: &ListUnitRatesQuery) -> (r: Request)
    ensures
        r.url@ == endpoint_url(base_url@, tariff_charges_path(kind, query.product_code@, query.tariff_code@)),
        pairs_view(r.query@) == present_pairs(query.spec_fields()),
{
    let mut url = url_root(base_url);
    url.append("/products/");
    url.append(query.product_code);
    url.append("/");
    url.append(fuel_text(kind));
    url.append("/");
    url.append(query.tariff_code);
    url.append("/");
    url.append(charges_text(kind));
    url.append("/");
    proof {
        assert(url@ =~= endpoint_url(base_url@, tariff_charges_path(kind, query.product_code@, query.tariff_code@)));
    }
    Request { url, query: query.query_pairs() }
}

/// One electricity meter point.
pub fn meter_point_request(base_url: &str, mpan: &str) -> (r: Request)
    ensures
        r.url@ == endpoint_url(base_url@, meter_point_path(mpan@)),
        r.query@.len() == 0,
{
    let mut url = url_root(base_url);
    url.append("/electricity-meter-points/");
    url.append(mpan);
    url.append("/");
    proof {
        assert(url@ =~= endpoint_url(base_url@, meter_point_path(mpan@)));
    }
    Request { url, query: Vec::new() }
}

/// Consumption readings of one electricity meter.
pub fn electricity_consumption_request(base_url: &str, query: &ListElectrictyConsumptionQuery) -> (r: Request)
    ensures
        r.url@ == endpoint_url(base_url@, electricity_consumption_path(query.mpan@, query.serial_number@)),
        pairs_view(r.query@) == present_pairs(query.spec_fields()),
{
    let mut url = url_root(base_url);
    url.append("/electricity-meter-points/");
    url.append(query.mpan);
    url.append("/meters/");
    url.append(query.serial_number);
    url.append("/consumption/");
    proof {
        assert(url@ =~= endpoint_url(base_url@, electricity_consumption_path(query.mpan@, query.serial_number@)));
    }
    Request { url, query: query.query_pairs() }
}

/// Consumption readings of one gas meter.
pub fn gas_consumption_request(base_url: &str, query: &ListGasConsumptionQuery) -> (r: Request)
    ensures
        r.url@ == endpoint_url(base_url@, gas_consumption_path(query.mprn@, query.serial_number@)),
        pairs_view(r.query@) == present_pairs(query.spec_fields()),
{
    let mut url = url_root(base_url);
    url.append("/gas-meter-points/");
    url.append(query.mprn);
    url.append("/meters/");
    url.append(query.serial_number);
    url.append("/consumption/");
    proof {
        assert(url@ =~= endpoint_url(base_url@, gas_consumption_path(query.mprn@, query.serial_number@)));
    }
    Request { url, query: query.query_pairs() }
}

/// The grid supply points.
pub fn grid_supply_points_request(base_url: &str, query: &ListGridSupplyPointsQuery) -> (r: Request)
    ensures
        r.url@ == endpoint_url(base_url@, grid_supply_points_path()),
        pairs_view(r.query@) == present_pairs(query.spec_fields()),
{
    let mut url = url_root(base_url);
    url.append("/industry/grid-supply-points/");
    Request { url, query: query.query_pairs() }
}

} // verus!
