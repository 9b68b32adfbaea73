//! Core logic of the enterprise portal: permission computation, sessions,
//! request classification and the text rules that the HTTP layer relies on.

pub mod text;
pub mod model;
pub mod permissions;
pub mod permission_laws;
pub mod validity;
pub mod error;
pub mod ids;
pub mod admin;
pub mod auth;
pub mod portal;
pub mod json;
pub mod config;
pub mod middleware;
pub mod response;
pub mod web;
pub mod me;
pub mod account;
pub mod sql;
pub mod edits;
pub mod filters;
pub mod overview;
pub mod links;
pub mod records;
