//! The verified core of a SOCKS5 proxy pair that carries the two directions of
//! one connection over two different upstream paths.
//!
//! The client side accepts SOCKS5 connections ([`negotiation`]), asks one
//! upstream for each direction ([`dial`], [`client`]), and announces both streams
//! with ids that belong together ([`id_source`], [`session_id`], [`relay`]). The
//! server side waits for both ([`session_table`]) and joins them to one remote
//! connection ([`server`], [`remote`]). [`pairing`] states how the two sides fit.
//!
//! Whatever reads, writes, waits or connects stays outside: each protocol is a
//! [`machine`] that is told what happened and says what to do next.

pub mod client;
pub mod dial;
pub mod fault;
pub mod id_source;
pub mod machine;
pub mod negotiation;
pub mod pairing;
pub mod protocol;
pub mod relay;
pub mod remote;
pub mod server;
pub mod session_id;
pub mod session_table;
