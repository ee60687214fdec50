//! Product inventory: the rules of a small product catalogue service.
//!
//! The library decides; it performs no input or output of its own. A caller
//! hands it a request, runs the one statement it names against the products
//! table, hands back what the table answered, and sends the response that
//! the library builds from it.

pub mod error;
pub mod handlers;
pub mod laws;
pub mod price;
pub mod product;
pub mod response;
pub mod store;
pub mod table;

pub use error::{ApiError, ErrorReply, ErrorResponse};
pub use price::Price;
pub use product::Product;
pub use response::ApiResponse;
pub use store::{Param, Row, Statement, StoreOutcome};
