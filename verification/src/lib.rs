//! The data-plane core of a transparent sidecar proxy: the service-stack
//! composition engine, the target model that drives per-connection dispatch,
//! and the lifecycle rules that bring listeners up and drain them.

pub mod addr;
pub mod admin;
pub mod control;
pub mod dns;
pub mod drain;
pub mod dst;
pub mod future_service;
pub mod gateway;
pub mod header;
pub mod identity;
pub mod inbound;
pub mod labels;
pub mod lifecycle;
pub mod new_service;
pub mod oc_collector;
pub mod outbound;
pub mod param;
pub mod profiles;
pub mod tap;
pub mod target;
pub mod text;
pub mod tls;

pub use crate::lifecycle::{App, Config};
