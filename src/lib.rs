//! Protocol bridge between a legacy game client and a replacement server:
//! the redirector frame codec, the telemetry decoder, the QoS reply, the
//! server lookup checks and the hosts-file entry logic, each with its
//! contract.

pub mod api;
pub mod config;
pub mod constants;
pub mod hosts;
pub mod http;
pub mod net;
pub mod packet;
pub mod qos;
pub mod redirector;
pub mod telemetry;
pub mod text;
pub mod tunnel;
