use vstd::prelude::*;

verus! {

/// The connector itself. It owns no state; the transport around it holds
/// the HTTP client and calls into the library per request.
#[derive(Clone, Default, Debug, PartialEq)]
pub struct SendGridConnector {}

} // verus!
