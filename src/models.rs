//! Query specifications and the records that response bodies decode into.

use vstd::prelude::*;

verus! {

/// Filters for the product list.
#[derive(Default)]
pub struct ProductQuery<'a> {
    pub available_at: Option<&'a str>,
    pub brand: Option<&'a str>,
    pub is_business: Option<&'a bool>,
    pub is_green: Option<&'a bool>,
    pub is_historical: Option<&'a bool>,
    pub is_tracker: Option<&'a bool>,
    pub is_variable: Option<&'a bool>,
    pub page: Option<u32>,
}

/// One product, by its code.
#[derive(Default)]
pub struct RetrieveProductQuery<'a> {
    pub product_code: &'a str,
    pub tariffs_active_at: Option<&'a str>,
}

/// Consumption readings of one electricity meter.
#[derive(Default)]
pub struct ListElectrictyConsumptionQuery<'a> {
    pub mpan: &'a str,
    pub group_by: Option<&'a str>,
    pub serial_number: &'a str,
    pub period_from: Option<&'a str>,
    pub period_to: Option<&'a str>,
    pub order_by: Option<&'a str>,
    pub page: Option<u32>,
    pub page_size: Option<u32>,
}

/// Unit rates or standing charges of one tariff.
#[derive(Default)]
pub struct ListUnitRatesQuery<'a> {
    pub product_code: &'a str,
    pub tariff_code: &'a str,
    pub period_from: Option<&'a str>,
    pub period_to: Option<&'a str>,
    pub page: Option<u32>,
    pub page_size: Option<u32>,
}

/// Grid supply points, optionally for one postcode.
#[derive(Default)]
pub struct ListGridSupplyPointsQuery<'a> {
    pub postcode: Option<&'a str>,
    pub page: Option<u32>,
}

/// Consumption readings of one gas meter.
#[derive(Default)]
pub struct ListGasConsumptionQuery<'a> {
    pub mprn: &'a str,
    pub group_by: Option<&'a str>,
    pub serial_number: &'a str,
    pub period_from: Option<&'a str>,
    pub period_to: Option<&'a str>,
    pub order_by: Option<&'a str>,
    pub page: Option<u32>,
    pub page_size: Option<u32>,
}

/// A link attached to a product.
#[derive(Debug, Clone, PartialEq, Eq)]
pub struct Link {
    pub href: String,
    pub method: String,
    pub rel: String,
}

/// A product, as listed.
#[derive(Debug, Clone, PartialEq, Eq)]
pub struct Product {
    pub direction: String,
    pub code: String,
    pub full_name: String,
    pub display_name: String,
    pub description: Option<String>,
    pub is_variable: bool,
    pub is_green: bool,
    pub is_tracker: bool,
    pub is_prepay: bool,
    pub is_business: bool,
    pub is_restricted: bool,
    pub term: Option<u32>,
    pub available_from: Option<String>,
    pub available_to: Option<String>,
    pub brand: Option<String>,
    pub links: Vec<Link>,
}

/// A page of products.
#[derive(Debug, Clone, PartialEq, Eq)]
pub struct ProductsResponse {
    pub count: u32,
    pub next: Option<String>,
    pub previous: Option<String>,
    pub results: Vec<Product>,
}

/// Sample annual consumption figures quoted with a product.
#[derive(Debug, Clone, Copy, PartialEq, Eq, Default)]
pub struct SampleConsumption {
    pub electricity_single_rate: Option<ElectricitySingleRate>,
    pub electricity_dual_rate: Option<ElectricityDualRate>,
    pub dual_fuel_single_rate: Option<DualFuelSingleRate>,
    pub dual_fuel_dual_rate: Option<DualFuelDualRate>,
}

#[derive(Debug, Clone, Copy, PartialEq, Eq, Default)]
pub struct ElectricitySingleRate {
    pub electricity_standard: Option<u32>,
}

#[derive(Debug, Clone, Copy, PartialEq, Eq, Default)]
pub struct ElectricityDualRate {
    pub electricity_day: Option<u32>,
    pub electricity_night: Option<u32>,
}

#[derive(Debug, Clone, Copy, PartialEq, Eq, Default)]
pub struct DualFuelSingleRate {
    pub electricity_standard: Option<u32>,
    pub gas_standard: Option<u32>,
}

#[derive(Debug, Clone, Copy, PartialEq, Eq, Default)]
pub struct DualFuelDualRate {
    pub electricity_day: Option<u32>,
    pub electricity_night: Option<u32>,
    pub gas_standard: Option<u32>,
}

/// A grid supply point.
#[derive(Debug, Clone, PartialEq, Eq)]
pub struct GridSupplyPoint {
    pub group_id: String,
}

/// A page of grid supply points.
#[derive(Debug, Clone, PartialEq, Eq)]
pub struct GridSupplyPointsResponse {
    pub count: u32,
    pub next: Option<String>,
    pub previous: Option<String>,
    pub results: Vec<GridSupplyPoint>,
}

/// An electricity meter point.
#[derive(Debug, Clone, PartialEq, Eq)]
pub struct MpanInfo {
    pub gsp: String,
    pub mpan: String,
    pub profile_class: u8,
}

} // verus!
