//! What the HTTP surface answers: the handlers of the five routes and the
//! envelope their answers travel in.

pub mod queue_endpoints;
pub mod response;
