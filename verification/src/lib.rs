//! Wake-on-LAN for named machines: the magic packet, the way it is put on the
//! wire, and the decisions of the command-line tool built on both.

pub mod address;
pub mod broadcast;
pub mod command;
pub mod config;
pub mod wake;
