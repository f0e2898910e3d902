//! Request handling rules of a stock-management HTTP API: what each product
//! endpoint asks of the database and how it answers the client, the supplier
//! payload checks, and the data carried by the stock and supplier endpoints.

pub mod text;
pub mod responses;
pub mod products;
pub mod product_laws;
pub mod suppliers;
pub mod stocks;
