//! Request logic of the POTA (Parks on the Air) web API: the endpoint table,
//! the queries that the handlers build from request parameters, the handling
//! of uploaded files, and the shared application state.

pub mod activity;
pub mod query;
pub mod routes;
pub mod settings;
pub mod state;
pub mod upload;
