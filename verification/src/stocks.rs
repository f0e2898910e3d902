//! The payloads of the stock endpoints: a product's stock line, an alert on
//! it, a summary over all products, and the query parameters.

use vstd::prelude::*;

verus! {

#[verifier::external_type_specification]
#[verifier::external_body]
pub struct ExDecimal(rust_decimal::Decimal);

/// An instant in UTC: whole seconds since the Unix epoch and the
/// nanoseconds past that second (above 999 999 999 only within a leap
/// second).
#[derive(Clone, Copy, Debug, PartialEq, Eq, Structural)]
pub struct Timestamp {
    pub unix_seconds: i64,
    pub subsec_nanos: u32,
}

/// A product's stock line.
pub struct StockResponse {
    pub id: i32,
    pub name: String,
    pub category: String,
    pub reference: String,
    pub supplier_id: i32,
    pub stock_quantity: i32,
    pub buying_price: rust_decimal::Decimal,
    pub date_last_reassor: Timestamp,
    pub stock_status: String,
}

/// An alert raised on a product's stock.
pub struct StockAlert {
    pub product: StockResponse,
    pub alert_type: String,
    pub severity: String,
    pub message: String,
}

/// Counts over the whole stock.
pub struct StockSummary {
    pub total_products: i64,
    pub out_of_stock_count: i64,
    pub low_stock_count: i64,
    pub overstock_count: i64,
    pub total_stock_value: rust_decimal::Decimal,
    pub categories_affected: Vec<String>,
}

/// Query parameters of the stock listings.
pub struct StockParams {
    pub limit: Option<i32>,
    pub threshold: Option<i32>,
}

} // verus!
