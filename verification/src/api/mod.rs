pub mod requests;
pub mod responses;
pub mod routing;
