//! Whether a number exists, and where.

use vstd::prelude::*;

verus! {

/// What the service found out about a number.
#[derive(Debug)]
pub struct StatusItem {
    /// One entry per route tried.
    pub result: Vec<ResultResponse>,
}

/// What one route found out about a number.
#[derive(Debug)]
pub struct ResultResponse {
    /// The number and whether it moved to another operator.
    pub route_detail: RouteDetail,
    /// The country of the number.
    pub country_detail: CountryDetail,
    /// The operator of the number.
    pub operator_detail: OperatorDetail,
    /// The outcome, as a code.
    pub status: i64,
}

/// The country of a number.
#[derive(Debug)]
pub struct CountryDetail {
    /// The calling code.
    pub country_code: String,
    /// The mobile country code.
    pub mobile_country_code: String,
    /// The ISO code.
    pub iso: String,
}

/// The operator of a number.
#[derive(Debug)]
pub struct OperatorDetail {
    /// The code of the operator.
    pub operator_code: String,
    /// Its name.
    pub operator_name: String,
    /// The mobile number code.
    pub mobile_number_code: String,
    /// The mobile routing code.
    pub mobile_routing_code: String,
    /// The carrier identification code.
    pub carrier_identification_code: String,
    /// Mobile or fixed line.
    pub line_type: String,
}

/// A number and whether it moved to another operator.
#[derive(Debug)]
pub struct RouteDetail {
    /// The number.
    pub number: String,
    /// Whether it moved to another operator, as a code.
    pub ported: i64,
}

} // verus!
