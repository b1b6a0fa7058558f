//! Decision logic of the Aegis node daemon.

pub mod billing_service;
pub mod client;
pub mod client_requests;
pub mod cluster_helpers;
pub mod container_helpers;
pub mod daemon;
pub mod edge_lifecycle;
pub mod handlers;
pub mod http;
pub mod identity;
pub mod install;
pub mod json;
pub mod json_value;
pub mod log_sanitize;
pub mod operator_read_models;
pub mod ports;
pub mod primitives;
pub mod relay_server;
pub mod string_map;
pub mod tenancy;
pub mod text;
