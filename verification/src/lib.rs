//! Client core for the netcup control-panel API: request envelopes, reply
//! decoding, session handling and per-domain synchronisation of DNS records.
//! The crate performs no I/O; a caller posts the request documents it is
//! handed and passes the replies back.

pub mod api_calls;
pub mod api_objects;
pub mod codec;
pub mod commands;
pub mod configuration;
pub mod decode;
pub mod domain_utils;
pub mod pass_laws;
pub mod round_trip;
pub mod session_laws;
pub mod wire;
