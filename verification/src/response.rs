//! The envelope that wraps every successful response body.

use vstd::prelude::*;

verus! {

/// Status of a request that was carried out.
pub const STATUS_OK: u16 = 200;

/// The body of a successful response: the flag `success` and the payload.
#[derive(Debug)]
pub struct ApiResponse<T> {
    pub success: bool,
    pub data: T,
}

/// What an envelope holds, with its payload seen through its view.
pub ghost struct ApiResponseView<V> {
    pub success: bool,
    pub data: V,
}

impl<T: DeepView> DeepView for ApiResponse<T> {
    type V = ApiResponseView<T::V>;

    open spec fn deep_view(&self) -> ApiResponseView<T::V> {
        ApiResponseView { success: self.success, data: self.data.deep_view() }
    }
}

impl<T> ApiResponse<T> {
    /// Wraps `data` as the payload of a successful response.
    pub fn new(data: T) -> (response: Self)
        ensures
            response.success,
            response.data == data,
    {
        ApiResponse { success: true, data }
    }

    /// The status code that a successful response goes out with.
    pub fn status_code(&self) -> (status: u16)
        ensures
            status == STATUS_OK,
    {
        STATUS_OK
    }
}

} // verus!
