//! The handler that answers calls.

use crate::common::{JsonRpcRequest, JsonRpcResponse};
use vstd::prelude::*;

verus! {

/// What answers a call. `request` is given the call and the answer to fill:
/// it sets the result or the error message of `response`. The connection writes
/// whatever `response` holds when `request` returns.
pub trait RpcService {
    fn request(&self, request: &JsonRpcRequest, response: &mut JsonRpcResponse);
}

} // verus!
