//! Logging in to a machine against a remote identity provider, and resolving
//! the provider's users, groups and hosts on that machine.
//!
//! The crate holds the decisions; it does no input or output of its own.
//! Whatever has to be asked of the world (the provider, the user, a hardware
//! key, the file system) is handed to the caller as an action, and comes
//! back as an event or as a plain value.
//!
//! - [`pam`] is the login module: the steps of an authentication attempt
//!   ([`pam::auth`]), the hardware-key ceremony ([`pam::webauthn`]), the
//!   session token and its file ([`pam::token`]), and the session scripts
//!   ([`pam::script`]).
//! - [`remote`] builds the requests to the provider and reads its answers.
//! - [`proxy`] is the name-service proxy with its store of answers, and
//!   [`nss`] the name-service module that asks it.
//! - [`codec`], [`wire`] and [`getent_wire`] define the binary form of what
//!   is kept on disk and sent over the local socket.
//! - [`authorized_keys`] is the helper that lists a user's keys.
//! - [`text`] holds the helpers on text that the others share.

pub mod api_types;
pub mod authorized_keys;
pub mod clock;
pub mod codec;
pub mod config;
pub mod getent_wire;
pub mod nss;
pub mod outcome;
pub mod pam;
pub mod proxy;
pub mod remote;
pub mod text;
pub mod wire;
