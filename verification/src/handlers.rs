//! The five operations on products.
//!
//! Each operation runs one statement against the products table, so each
//! comes in two halves. The first takes the request and names the statement,
//! or refuses the request before anything is run. The second takes what the
//! table answered and builds the response. Running the statement lies
//! between the two and is the caller's part.

use vstd::prelude::*;

use crate::error::{ApiError, ApiErrorView};
use crate::product::{Product, ProductView};
use crate::response::{ApiResponse, ApiResponseView};
use crate::store::{Statement, StatementView, StoreOutcome, StoreOutcomeView};

verus! {

/// What a successful update answers.
pub const UPDATED_MESSAGE: &'static str = "Product updated successfully";

/// What a successful removal answers.
pub const DELETED_MESSAGE: &'static str = "Product deleted successfully";

/// The first half of an operation, seen through its views.
pub open spec fn request_view(request: Result<Statement, ApiError>) -> Result<
    StatementView,
    ApiErrorView,
> {
    match request {
        Ok(statement) => Ok(statement@),
        Err(error) => Err(error@),
    }
}

/// The second half of an operation, seen through its views.
pub open spec fn reply_view<T: DeepView>(reply: Result<ApiResponse<T>, ApiError>) -> Result<
    ApiResponseView<T::V>,
    ApiErrorView,
> {
    match reply {
        Ok(response) => Ok(response.deep_view()),
        Err(error) => Err(error@),
    }
}

/// The answer of a statement that completed. One that did not complete
/// stands for a failure: a database error with the engine's cause, or an
/// internal error where the connection could not be had.
pub open spec fn completed_spec<V>(outcome: StoreOutcomeView<V>) -> Result<V, ApiErrorView> {
    match outcome {
        StoreOutcomeView::Completed(answer) => Ok(answer),
        StoreOutcomeView::Failed(cause) => Err(ApiErrorView::Database(cause)),
        StoreOutcomeView::Unavailable => Err(ApiErrorView::Internal),
    }
}

/// A valid product is to be inserted, with its four settable fields; any
/// other is refused with the message of the first rule it breaks.
pub open spec fn create_product_spec(product: ProductView) -> Result<StatementView, ApiErrorView> {
    match product.rejection() {
        Some(reason) => Err(ApiErrorView::BadRequest(reason)),
        None => Ok(StatementView::Insert { row: product.row() }),
    }
}

/// A completed insert answers with the new identifier.
pub open spec fn create_product_done_spec(outcome: StoreOutcomeView<i64>) -> Result<
    ApiResponseView<i64>,
    ApiErrorView,
> {
    match completed_spec(outcome) {
        Ok(id) => Ok(ApiResponseView { success: true, data: id }),
        Err(error) => Err(error),
    }
}

/// Listing reads every row.
pub open spec fn get_products_spec() -> StatementView {
    StatementView::SelectAll
}

/// A completed listing answers with all the products read, be they none.
pub open spec fn get_products_done_spec(outcome: StoreOutcomeView<Seq<ProductView>>) -> Result<
    ApiResponseView<Seq<ProductView>>,
    ApiErrorView,
> {
    match completed_spec(outcome) {
        Ok(products) => Ok(ApiResponseView { success: true, data: products }),
        Err(error) => Err(error),
    }
}

/// Fetching reads the row with the identifier.
pub open spec fn get_product_by_id_spec(id: i64) -> StatementView {
    StatementView::SelectById { id }
}

/// A completed fetch answers with the product read, and with "not found"
/// where no row was read.
pub open spec fn get_product_by_id_done_spec(
    outcome: StoreOutcomeView<Option<ProductView>>,
) -> Result<ApiResponseView<ProductView>, ApiErrorView> {
    match completed_spec(outcome) {
        Ok(Some(product)) => Ok(ApiResponseView { success: true, data: product }),
        Ok(None) => Err(ApiErrorView::NotFound),
        Err(error) => Err(error),
    }
}

/// A valid product is to overwrite the row with the identifier; any other
/// is refused with the message of the first rule it breaks.
pub open spec fn update_product_spec(id: i64, product: ProductView) -> Result<
    StatementView,
    ApiErrorView,
> {
    match product.rejection() {
        Some(reason) => Err(ApiErrorView::BadRequest(reason)),
        None => Ok(StatementView::Update { id, row: product.row() }),
    }
}

/// A completed update answers with its message where a row was changed,
/// and with "not found" where none was.
pub open spec fn update_product_done_spec(outcome: StoreOutcomeView<usize>) -> Result<
    ApiResponseView<Seq<char>>,
    ApiErrorView,
> {
    match completed_spec(outcome) {
        Ok(rows) => if rows > 0 {
            Ok(ApiResponseView { success: true, data: UPDATED_MESSAGE@ })
        } else {
            Err(ApiErrorView::NotFound)
        },
        Err(error) => Err(error),
    }
}

/// Removing deletes the row with the identifier.
pub open spec fn delete_product_spec(id: i64) -> StatementView {
    StatementView::Delete { id }
}

/// A completed removal answers with its message where a row was removed,
/// and with "not found" where none was.
pub open spec fn delete_product_done_spec(outcome: StoreOutcomeView<usize>) -> Result<
    ApiResponseView<Seq<char>>,
    ApiErrorView,
> {
    match completed_spec(outcome) {
        Ok(rows) => if rows > 0 {
            Ok(ApiResponseView { success: true, data: DELETED_MESSAGE@ })
        } else {
            Err(ApiErrorView::NotFound)
        },
        Err(error) => Err(error),
    }
}

/// The answer of a statement that completed, or the failure that stands
/// for one that did not.
pub fn completed<T>(outcome: StoreOutcome<T>) -> (settled: Result<T, ApiError>)
    ensures
        match outcome {
            StoreOutcome::Completed(answer) => settled == Ok::<T, ApiError>(answer),
            StoreOutcome::Failed(cause) => settled matches Err(error) && error@
                == ApiErrorView::Database(cause@),
            StoreOutcome::Unavailable => settled matches Err(error) && error@
                == ApiErrorView::Internal,
        },
{
    match outcome {
        StoreOutcome::Completed(answer) => Ok(answer),
        StoreOutcome::Failed(cause) => Err(ApiError::Database(cause)),
        StoreOutcome::Unavailable => Err(ApiError::Internal),
    }
}

/// Create, first half: validates the product and names the insert. An
/// invalid product is refused here, so that nothing is run for it.
pub fn create_product(product: &Product) -> (request: Result<Statement, ApiError>)
    ensures
        request_view(request) == create_product_spec(product@),
{
    match product.validate() {
        Err(error) => Err(error),
        Ok(()) => Ok(Statement::Insert { row: product.row() }),
    }
}

/// Create, second half: the new identifier in an envelope, or the failure.
pub fn create_product_done(outcome: StoreOutcome<i64>) -> (reply: Result<
    ApiResponse<i64>,
    ApiError,
>)
    ensures
        reply_view(reply) == create_product_done_spec(outcome.deep_view()),
{
    match completed(outcome) {
        Ok(id) => Ok(ApiResponse::new(id)),
        Err(error) => Err(error),
    }
}

/// List, first half: names the statement that reads every row.
pub fn get_products() -> (statement: Statement)
    ensures
        statement@ == get_products_spec(),
{
    Statement::SelectAll
}

/// List, second half: all the products read in an envelope, or the
/// failure. An empty table gives an empty list, which is a success.
pub fn get_products_done(outcome: StoreOutcome<Vec<Product>>) -> (reply: Result<
    ApiResponse<Vec<Product>>,
    ApiError,
>)
    ensures
        reply_view(reply) == get_products_done_spec(outcome.deep_view()),
{
    match completed(outcome) {
        Ok(products) => Ok(ApiResponse::new(products)),
        Err(error) => Err(error),
    }
}

/// Fetch, first half: names the statement that reads one row.
pub fn get_product_by_id(id: i64) -> (statement: Statement)
    ensures
        statement@ == get_product_by_id_spec(id),
{
    Statement::SelectById { id }
}

/// Fetch, second half: the product read in an envelope, "not found" where
/// no row was read, or the failure.
pub fn get_product_by_id_done(outcome: StoreOutcome<Option<Product>>) -> (reply: Result<
    ApiResponse<Product>,
    ApiError,
>)
    ensures
        reply_view(reply) == get_product_by_id_done_spec(outcome.deep_view()),
{
    match completed(outcome) {
        Ok(Some(product)) => Ok(ApiResponse::new(product)),
        Ok(None) => Err(ApiError::NotFound),
        Err(error) => Err(error),
    }
}

/// Update, first half: validates the product and names the update. An
/// invalid product is refused here, so that nothing is run for it.
pub fn update_product(id: i64, product: &Product) -> (request: Result<Statement, ApiError>)
    ensures
        request_view(request) == update_product_spec(id, product@),
{
    match product.validate() {
        Err(error) => Err(error),
        Ok(()) => Ok(Statement::Update { id, row: product.row() }),
    }
}

/// Update, second half: the message in an envelope where a row was
/// changed, "not found" where none was, or the failure.
pub fn update_product_done(outcome: StoreOutcome<usize>) -> (reply: Result<
    ApiResponse<&'static str>,
    ApiError,
>)
    ensures
        reply_view(reply) == update_product_done_spec(outcome.deep_view()),
{
    match completed(outcome) {
        Ok(rows) => if rows > 0 {
            Ok(ApiResponse::new(UPDATED_MESSAGE))
        } else {
            Err(ApiError::NotFound)
        },
        Err(error) => Err(error),
    }
}

/// Remove, first half: names the statement that deletes one row.
pub fn delete_product(id: i64) -> (statement: Statement)
    ensures
        statement@ == delete_product_spec(id),
{
    Statement::Delete { id }
}

/// Remove, second half: the message in an envelope where a row was
/// removed, "not found" where none was, or the failure.
pub fn delete_product_done(outcome: StoreOutcome<usize>) -> (reply: Result<
    ApiResponse<&'static str>,
    ApiError,
>)
    ensures
        reply_view(reply) == delete_product_done_spec(outcome.deep_view()),
{
    match completed(outcome) {
        Ok(rows) => if rows > 0 {
            Ok(ApiResponse::new(DELETED_MESSAGE))
        } else {
            Err(ApiError::NotFound)
        },
        Err(error) => Err(error),
    }
}

} // verus!
