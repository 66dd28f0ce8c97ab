// Identity and session authorization for a point-of-sale service: who a
// caller is, which sessions stay valid, which routes a role may reach, and
// how identities reported by an OAuth provider and by a polled e-ID provider
// map to local users.

pub mod error;
pub mod role;
pub mod text;

pub mod permission;
pub mod session;
pub mod users;
pub mod email_switch;
pub mod bankid;
pub mod verification;
pub mod identity;
pub mod gate;

pub mod config;
pub mod model;
pub mod payment;
pub mod rules;
pub mod stats;

mod outside;
