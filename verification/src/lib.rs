//! The request model of the Atticus API runner: HTTP methods, saved
//! requests and collections, the editing workspace behind the window, the
//! plan that a send follows, and the status lines shown while it runs.

pub mod auth_methods;
pub mod collections;
pub mod header_list;
pub mod request_methods;
pub mod workspace;
pub mod request_plan;
pub mod status;
pub mod response_tabs;
