//! Deploying the releases of a project to the hosts of a phase, and
//! controlling them there.
//!
//! A phase, such as `test` or `production`, has a file that says which hosts
//! each project runs on ([`phase_file`]). A release is one commit of one
//! reference of a project; on a host it lies in a directory of its own
//! ([`layout`]), and is reached through `ssh` and `scp` ([`remote`]).
//!
//! The procedures are written as functions that do no work outside the
//! process ([`flow`]): each takes where it stands and what has just happened,
//! and answers with where it stands next and what is to be done. There is one
//! for each kind of project and purpose: deploying ([`back_deploy`],
//! [`front_deploy`], [`simple_deploy`]), controlling ([`back_control`],
//! [`front_control`], [`simple_control`]) and developing ([`back_develop`],
//! [`front_develop`]).
//!
//! Every function is verified against its contract. What is taken on trust is
//! said where it stands: the calls that trim a text, drop a slash, quote a
//! path, cut a line into words and read the clock.

pub mod back_control;
pub mod back_deploy;
pub mod back_develop;
mod clock;
pub mod command;
pub mod compose;
pub mod deploy;
pub mod fetch;
pub mod fleet;
pub mod flow;
pub mod front_control;
pub mod front_deploy;
pub mod front_develop;
pub mod layout;
pub mod names;
pub mod phase_file;
pub mod remote;
pub mod simple_control;
pub mod simple_deploy;
pub mod ssh_url_prefix;
pub mod ssh_user_host;
pub mod text;
