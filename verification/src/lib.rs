//! A service that asks several DNS servers for the A and AAAA records of a
//! host name and reports every answer with its source and timing.
pub mod config;
pub mod lookup;
pub mod net;
pub mod webserver;
pub mod laws;
