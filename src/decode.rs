//! Reading records out of JSON documents. A record is read from an object;
//! members it does not name are ignored.

use vstd::prelude::*;
use vstd::string::StringExecFns;
use crate::json::{
    bounded_member, field, flag_member, opt_bounded_member, opt_text_member, opt_u64, opt_view,
    read_bounded, read_flag, read_opt_bounded, read_opt_text, read_text, text_member, Json,
};
use crate::models::{GridSupplyPoint, GridSupplyPointsResponse, Link, MpanInfo, Product};

verus! {

pub const U32_MAX: u64 = 4294967295;

pub const U8_MAX: u64 = 255;

fn expect_object(j: &Json) -> (r: Result<(), String>)
    ensures
        r is Ok <==> j is Object,
{
    match j {
        Json::Object(_) => Ok(()),
        _ => Err(String::from_str("expected an object")),
    }
}

fn expect_array<'a>(f: Option<&'a Json>, key: &str) -> (r: Result<&'a Vec<Json>, String>)
    ensures
        r is Ok <==> f matches Some(Json::Array(_)),
        r matches Ok(items) ==> f matches Some(Json::Array(a)) && a == *items,
{
    match f {
        Some(Json::Array(items)) => Ok(items),
        _ => Err(crate::json::field_error(key)),
    }
}

// ---- Link

pub open spec fn link_ok(j: Json) -> bool {
    &&& j is Object
    &&& read_text(field(j, "href"@)) is Some
    &&& read_text(field(j, "method"@)) is Some
    &&& read_text(field(j, "rel"@)) is Some
}

/// `l` is the link that `j` holds.
pub open spec fn link_read(j: Json, l: Link) -> bool {
    &&& j is Object
    &&& read_text(field(j, "href"@)) == Some(l.href@)
    &&& read_text(field(j, "method"@)) == Some(l.method@)
    &&& read_text(field(j, "rel"@)) == Some(l.rel@)
}

pub fn decode_link(j: &Json) -> (r: Result<Link, String>)
    ensures
        r is Ok <==> link_ok(*j),
        r matches Ok(l) ==> link_read(*j, l),
{
    expect_object(j)?;
    let href = text_member(j, "href")?;
    let method = text_member(j, "method")?;
    let rel = text_member(j, "rel")?;
    Ok(Link { href, method, rel })
}

pub open spec fn links_ok(items: Seq<Json>) -> bool {
    forall|i: int| 0 <= i < items.len() ==> link_ok(#[trigger] items[i])
}

pub open spec fn links_read(items: Seq<Json>, ls: Seq<Link>) -> bool {
    &&& items.len() == ls.len()
    &&& forall|i: int| 0 <= i < items.len() ==> link_read(#[trigger] items[i], ls[i])
}

pub fn decode_links(items: &Vec<Json>) -> (r: Result<Vec<Link>, String>)
    ensures
        r is Ok <==> links_ok(items@),
        r matches Ok(ls) ==> links_read(items@, ls@),
{
    let mut out: Vec<Link> = Vec::new();
    let mut i: usize = 0;
    while i < items.len()
        invariant
            i <= items@.len(),
            out@.len() == i,
            forall|k: int| 0 <= k < i ==> link_ok(#[trigger] items@[k]),
            forall|k: int| 0 <= k < i ==> link_read(#[trigger] items@[k], out@[k]),
        decreases items@.len() - i,
    {
        let l = decode_link(&items[i])?;
        out.push(l);
        i = i + 1;
    }
    Ok(out)
}

// ---- Product

pub open spec fn product_ok(j: Json) -> bool {
    &&& j is Object
    &&& read_text(field(j, "direction"@)) is Some
    &&& read_text(field(j, "code"@)) is Some
    &&& read_text(field(j, "full_name"@)) is Some
    &&& read_text(field(j, "display_name"@)) is Some
    &&& read_opt_text(field(j, "description"@)) is Some
    &&& read_flag(field(j, "is_variable"@)) is Some
    &&& read_flag(field(j, "is_green"@)) is Some
    &&& read_flag(field(j, "is_tracker"@)) is Some
    &&& read_flag(field(j, "is_prepay"@)) is Some
    &&& read_flag(field(j, "is_business"@)) is Some
    &&& read_flag(field(j, "is_restricted"@)) is Some
    &&& read_opt_bounded(field(j, "term"@), U32_MAX) is Some
    &&& read_opt_text(field(j, "available_from"@)) is Some
    &&& read_opt_text(field(j, "available_to"@)) is Some
    &&& read_opt_text(field(j, "brand"@)) is Some
    &&& field(j, "links"@) matches Some(Json::Array(items)) && links_ok(items@)
}

/// `p` is the product that `j` holds.
pub open spec fn product_read(j: Json, p: Product) -> bool {
    &&& j is Object
    &&& read_text(field(j, "direction"@)) == Some(p.direction@)
    &&& read_text(field(j, "code"@)) == Some(p.code@)
    &&& read_text(field(j, "full_name"@)) == Some(p.full_name@)
    &&& read_text(field(j, "display_name"@)) == Some(p.display_name@)
    &&& read_opt_text(field(j, "description"@)) == Some(opt_view(p.description))
    &&& read_flag(field(j, "is_variable"@)) == Some(p.is_variable)
    &&& read_flag(field(j, "is_green"@)) == Some(p.is_green)
    &&& read_flag(field(j, "is_tracker"@)) == Some(p.is_tracker)
    &&& read_flag(field(j, "is_prepay"@)) == Some(p.is_prepay)
    &&& read_flag(field(j, "is_business"@)) == Some(p.is_business)
    &&& read_flag(field(j, "is_restricted"@)) == Some(p.is_restricted)
    &&& read_opt_bounded(field(j, "term"@), U32_MAX) == Some(opt_u64(p.term))
    &&& read_opt_text(field(j, "available_from"@)) == Some(opt_view(p.available_from))
    &&& read_opt_text(field(j, "available_to"@)) == Some(opt_view(p.available_to))
    &&& read_opt_text(field(j, "brand"@)) == Some(opt_view(p.brand))
    &&& field(j, "links"@) matches Some(Json::Array(items)) && links_read(items@, p.links@)
}

pub fn decode_product(j: &Json) -> (r: Result<Product, String>)
    ensures
        r is Ok <==> product_ok(*j),
        r matches Ok(p) ==> product_read(*j, p),
{
    expect_object(j)?;
    let direction = text_member(j, "direction")?;
    let code = text_member(j, "code")?;
    let full_name = text_member(j, "full_name")?;
    let display_name = text_member(j, "display_name")?;
    let description = opt_text_member(j, "description")?;
    let is_variable = flag_member(j, "is_variable")?;
    let is_green = flag_member(j, "is_green")?;
    let is_tracker = flag_member(j, "is_tracker")?;
    let is_prepay = flag_member(j, "is_prepay")?;
    let is_business = flag_member(j, "is_business")?;
    let is_restricted = flag_member(j, "is_restricted")?;
    let term = match opt_bounded_member(j, "term", U32_MAX)? {
        Some(n) => Some(n as u32),
        None => None,
    };
    let available_from = opt_text_member(j, "available_from")?;
    let available_to = opt_text_member(j, "available_to")?;
    let brand = opt_text_member(j, "brand")?;
    let items = expect_array(crate::json::get_field(j, "links"), "links")?;
    let links = decode_links(items)?;
    Ok(Product {
        direction,
        code,
        full_name,
        display_name,
        description,
        is_variable,
        is_green,
        is_tracker,
        is_prepay,
        is_business,
        is_restricted,
        term,
        available_from,
        available_to,
        brand,
        links,
    })
}

pub open spec fn products_ok(items: Seq<Json>) -> bool {
    forall|i: int| 0 <= i < items.len() ==> product_ok(#[trigger] items[i])
}

pub open spec fn products_read(items: Seq<Json>, ps: Seq<Product>) -> bool {
    &&& items.len() == ps.len()
    &&& forall|i: int| 0 <= i < items.len() ==> product_read(#[trigger] items[i], ps[i])
}

pub fn decode_products(items: &Vec<Json>) -> (r: Result<Vec<Product>, String>)
    ensures
        r is Ok <==> products_ok(items@),
        r matches Ok(ps) ==> products_read(items@, ps@),
{
    let mut out: Vec<Product> = Vec::new();
    let mut i: usize = 0;
    while i < items.len()
        invariant
            i <= items@.len(),
            out@.len() == i,
            forall|k: int| 0 <= k < i ==> product_ok(#[trigger] items@[k]),
            forall|k: int| 0 <= k < i ==> product_read(#[trigger] items@[k], out@[k]),
        decreases items@.len() - i,
    {
        let p = decode_product(&items[i])?;
        out.push(p);
        i = i + 1;
    }
    Ok(out)
}

// ---- Grid supply points

pub open spec fn supply_point_ok(j: Json) -> bool {
    &&& j is Object
    &&& read_text(field(j, "group_id"@)) is Some
}

/// `g` is the grid supply point that `j` holds.
pub open spec fn supply_point_read(j: Json, g: GridSupplyPoint) -> bool {
    &&& j is Object
    &&& read_text(field(j, "group_id"@)) == Some(g.group_id@)
}

pub fn decode_supply_point(j: &Json) -> (r: Result<GridSupplyPoint, String>)
    ensures
        r is Ok <==> supply_point_ok(*j),
        r matches Ok(g) ==> supply_point_read(*j, g),
{
    expect_object(j)?;
    let group_id = text_member(j, "group_id")?;
    Ok(GridSupplyPoint { group_id })
}

pub open spec fn supply_points_ok(items: Seq<Json>) -> bool {
    forall|i: int| 0 <= i < items.len() ==> supply_point_ok(#[trigger] items[i])
}

pub open spec fn supply_points_read(items: Seq<Json>, gs: Seq<GridSupplyPoint>) -> bool {
    &&& items.len() == gs.len()
    &&& forall|i: int| 0 <= i < items.len() ==> supply_point_read(#[trigger] items[i], gs[i])
}

pub fn decode_supply_points(items: &Vec<Json>) -> (r: Result<Vec<GridSupplyPoint>, String>)
    ensures
        r is Ok <==> supply_points_ok(items@),
        r matches Ok(gs) ==> supply_points_read(items@, gs@),
{
    let mut out: Vec<GridSupplyPoint> = Vec::new();
    let mut i: usize = 0;
    while i < items.len()
        invariant
            i <= items@.len(),
            out@.len() == i,
            forall|k: int| 0 <= k < i ==> supply_point_ok(#[trigger] items@[k]),
            forall|k: int| 0 <= k < i ==> supply_point_read(#[trigger] items@[k], out@[k]),
        decreases items@.len() - i,
    {
        let g = decode_supply_point(&items[i])?;
        out.push(g);
        i = i + 1;
    }
    Ok(out)
}

/// The members of a page: `count`, the `next` and `previous` cursors, and
/// a `results` array.
pub open spec fn page_ok(j: Json) -> bool {
    &&& j is Object
    &&& read_bounded(field(j, "count"@), U32_MAX) is Some
    &&& read_opt_text(field(j, "next"@)) is Some
    &&& read_opt_text(field(j, "previous"@)) is Some
    &&& field(j, "results"@) matches Some(Json::Array(_))
}

pub open spec fn supply_point_page_ok(j: Json) -> bool {
    &&& page_ok(j)
    &&& field(j, "results"@) matches Some(Json::Array(items)) && supply_points_ok(items@)
}

/// `g` is the page of grid supply points that `j` holds.
pub open spec fn supply_point_page_read(j: Json, g: GridSupplyPointsResponse) -> bool {
    &&& j is Object
    &&& read_bounded(field(j, "count"@), U32_MAX) == Some(g.count as u64)
    &&& read_opt_text(field(j, "next"@)) == Some(opt_view(g.next))
    &&& read_opt_text(field(j, "previous"@)) == Some(opt_view(g.previous))
    &&& field(j, "results"@) matches Some(Json::Array(items)) && supply_points_read(items@, g.results@)
}

pub fn decode_supply_point_page(j: &Json) -> (r: Result<GridSupplyPointsResponse, String>)
    ensures
        r is Ok <==> supply_point_page_ok(*j),
        r matches Ok(g) ==> supply_point_page_read(*j, g),
{
    expect_object(j)?;
    let count = bounded_member(j, "count", U32_MAX)? as u32;
    let next = opt_text_member(j, "next")?;
    let previous = opt_text_member(j, "previous")?;
    let items = expect_array(crate::json::get_field(j, "results"), "results")?;
    let results = decode_supply_points(items)?;
    Ok(GridSupplyPointsResponse { count, next, previous, results })
}

// ---- Meter points

pub open spec fn meter_point_ok(j: Json) -> bool {
    &&& j is Object
    &&& read_text(field(j, "gsp"@)) is Some
    &&& read_text(field(j, "mpan"@)) is Some
    &&& read_bounded(field(j, "profile_class"@), U8_MAX) is Some
}

/// `m` is the meter point that `j` holds.
pub open spec fn meter_point_read(j: Json, m: MpanInfo) -> bool {
    &&& j is Object
    &&& read_text(field(j, "gsp"@)) == Some(m.gsp@)
    &&& read_text(field(j, "mpan"@)) == Some(m.mpan@)
    &&& read_bounded(field(j, "profile_class"@), U8_MAX) == Some(m.profile_class as u64)
}

pub fn decode_meter_point(j: &Json) -> (r: Result<MpanInfo, String>)
    ensures
        r is Ok <==> meter_point_ok(*j),
        r matches Ok(m) ==> meter_point_read(*j, m),
{
    expect_object(j)?;
    let gsp = text_member(j, "gsp")?;
    let mpan = text_member(j, "mpan")?;
    let profile_class = bounded_member(j, "profile_class", U8_MAX)? as u8;
    Ok(MpanInfo { gsp, mpan, profile_class })
}

} // verus!
