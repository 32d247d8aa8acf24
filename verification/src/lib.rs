//! Sans-I/O core of a channel comment harvester.
//!
//! The harvest of a channel walks the channel's uploads playlist, lists the
//! comment threads of every video, and fetches the replies of a thread
//! separately wherever the thread does not embed all of them. This crate
//! holds the decisions of that harvest and none of its network calls: each
//! state says which request it waits for, and takes the response to the
//! next state. The caller performs the requests.
//!
//! - [`model`]: the harvested data.
//! - [`wire`]: the platform's responses, as far as they are read.
//! - [`request`]: the requests, as the platform is to receive them.
//! - [`failure`]: errors, and what a failed request means.
//! - [`playlist`]: the walk of the uploads playlist.
//! - [`replies`]: valid replies, and the walk of the replies to a comment.
//! - [`threads`]: the comments of one video, step by step.
//! - [`harvest`]: the harvest of a channel, step by step.
//! - [`reconcile`], [`transcript`]: what the steps add up to, proved.
//! - [`channel`]: from a handle to the uploads playlist.
//! - [`secret`]: the client secret to sign in with.

pub mod channel;
pub mod failure;
pub mod harvest;
pub mod model;
pub mod playlist;
pub mod reconcile;
pub mod replies;
pub mod request;
pub mod secret;
pub mod threads;
pub mod transcript;
pub mod wire;
