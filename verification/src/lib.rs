//! An on-premises connector between a directory service, a calendar
//! service and a remote control plane: the synchronization pass over
//! directory entries, the sign-in of users, the commands of the control
//! channel and the session that carries them out, each with its contract.
pub mod ad_client;
pub mod auth;
pub mod clock;
pub mod command;
pub mod connector;
pub mod encoding;
pub mod ews_client;
pub mod log;
pub mod settings;
pub mod sync;
pub mod text;
