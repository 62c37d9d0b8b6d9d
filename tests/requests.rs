use octopust::models::{
    ListElectrictyConsumptionQuery, ListGasConsumptionQuery, ListGridSupplyPointsQuery,
    ListUnitRatesQuery, ProductQuery, RetrieveProductQuery,
};
use octopust::request::{
    electricity_consumption_request, gas_consumption_request, grid_supply_points_request,
    meter_point_request, product_request, products_request, tariff_charges_request, TariffCharges,
};

const BASE: &str = "https://api.octopus.energy/v1/";

#[test]
fn products_url_joins_base_and_path() {
    let r = products_request(BASE, &ProductQuery::default());
    assert_eq!(r.url, "https://api.octopus.energy/v1/products/");
    assert!(r.query.is_empty());
    let r = products_request("https://api.octopus.energy/v1", &ProductQuery { page: Some(2), ..Default::default() });
    assert_eq!(r.url, "https://api.octopus.energy/v1/products/");
    assert_eq!(r.query, vec![("page".to_string(), "2".to_string())]);
}

#[test]
fn product_url_holds_code() {
    let r = product_request(BASE, &RetrieveProductQuery { product_code: "AGILE-24-10-01", ..Default::default() });
    assert_eq!(r.url, "https://api.octopus.energy/v1/products/AGILE-24-10-01/");
}

#[test]
fn tariff_charge_urls() {
    let q = ListUnitRatesQuery { product_code: "VAR-22-11-01", tariff_code: "E-2R-VAR-22-11-01-J", ..Default::default() };
    let cases = [
        (TariffCharges::ElectricityDayUnitRates, "electricity-tariffs/E-2R-VAR-22-11-01-J/day-unit-rates/"),
        (TariffCharges::ElectricityNightUnitRates, "electricity-tariffs/E-2R-VAR-22-11-01-J/night-unit-rates/"),
        (TariffCharges::ElectricityStandardUnitRates, "electricity-tariffs/E-2R-VAR-22-11-01-J/standard-unit-rates/"),
        (TariffCharges::ElectricityStandingCharges, "electricity-tariffs/E-2R-VAR-22-11-01-J/standing-charges/"),
        (TariffCharges::GasStandardUnitRates, "gas-tariffs/E-2R-VAR-22-11-01-J/standard-unit-rates/"),
        (TariffCharges::GasStandingCharges, "gas-tariffs/E-2R-VAR-22-11-01-J/standing-charges/"),
    ];
    for (kind, tail) in cases {
        let r = tariff_charges_request(BASE, kind, &q);
        assert_eq!(r.url, format!("https://api.octopus.energy/v1/products/VAR-22-11-01/{}", tail));
    }
}

#[test]
fn meter_urls_separate_serial_segment() {
    let r = meter_point_request(BASE, "1200000000000");
    assert_eq!(r.url, "https://api.octopus.energy/v1/electricity-meter-points/1200000000000/");
    assert!(r.query.is_empty());
    let e = electricity_consumption_request(BASE, &ListElectrictyConsumptionQuery { mpan: "12", serial_number: "S1", ..Default::default() });
    assert_eq!(e.url, "https://api.octopus.energy/v1/electricity-meter-points/12/meters/S1/consumption/");
    let g = gas_consumption_request(BASE, &ListGasConsumptionQuery { mprn: "34", serial_number: "G2", page: Some(1), ..Default::default() });
    assert_eq!(g.url, "https://api.octopus.energy/v1/gas-meter-points/34/meters/G2/consumption/");
    assert_eq!(g.query, vec![("page".to_string(), "1".to_string())]);
}

#[test]
fn grid_supply_points_url() {
    let r = grid_supply_points_request(BASE, &ListGridSupplyPointsQuery { postcode: Some("AB1"), page: None });
    assert_eq!(r.url, "https://api.octopus.energy/v1/industry/grid-supply-points/");
    assert_eq!(r.query, vec![("postcode".to_string(), "AB1".to_string())]);
}
