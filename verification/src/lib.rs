//! Session cache and typed gateway contracts for a chat front end of a remote
//! accounting service.

pub mod accounting_client_api;
pub mod amount;
pub mod category_dto;
pub mod pagination;
pub mod session;
pub mod session_store;
pub mod transaction_dto;
pub mod user_dto;
pub mod wire;
