use vstd::prelude::*;

verus! {

/// The native executor instance of the node.
///
/// It dispatches runtime calls to the native runtime and registers no host
/// functions of its own beyond the default Substrate ones.
pub struct ExecutorDispatch;

} // verus!
