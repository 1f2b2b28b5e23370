//! Identity and profile gateway core: the registration saga, the profile
//! aggregator, the token gate in front of the authentication service, and the
//! small decisions of the service's network edge.

pub mod auth_gate;
pub mod discovery;
pub mod lease;
pub mod listener;
pub mod password;
pub mod profile;
pub mod registration;
pub mod registration_laws;
pub mod status;
