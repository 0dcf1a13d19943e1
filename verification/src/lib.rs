//! The core of a command-line client for the Redfish management interface of
//! a Dell iDRAC: which resource each command asks for, and the text that each
//! answer is shown as.
//!
//! Nothing here talks to the network or prints. A caller hands in the
//! connection settings and the decoded answers, and gets back requests to
//! make and lines to show.

pub mod chassis;
pub mod dump;
pub mod idrac;
pub mod listing;
pub mod model;
pub mod network;
pub mod request;
pub mod storage;
pub mod text;
pub mod units;
