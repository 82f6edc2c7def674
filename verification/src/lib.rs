//! A dynamic-DNS client core: it keeps one DNS "A" record pointed at the
//! current public IPv4 address of a host.
//!
//! The crate sends nothing over the network. Every remote exchange is
//! described as an HTTP request to send and an HTTP reply to interpret, so
//! that a caller owning a transport can drive the flows step by step. What a
//! flow decides on each reply, and what a synchronization pass decides on
//! each outcome, is stated in contracts and proved.

pub mod config;
pub mod dns_service;
pub mod dyndns_service;
pub mod hetzner_dns_client;
pub mod http;
pub mod ipv4;
pub mod json;
pub mod netlink_public_ip_service;
pub mod public_ip_service;
pub mod ubus_jsonrpc_public_ip_service;
