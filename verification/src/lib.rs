//! Verified core of a notes-and-attachments HTTP service: request
//! validation, paging, error classification, the decisions of the
//! attachment workflows and the shape of every reply.

pub mod text;
pub mod models;
pub mod error;
pub mod validation;
pub mod ids;
pub mod storage;
pub mod create_flow;
pub mod lookup_flows;
pub mod schemas;
pub mod notes;
pub mod replies;
pub mod laws;
