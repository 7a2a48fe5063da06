//! The worker of an end-to-end encrypted group call.
//!
//! The worker sits in the browser's media pipeline. It takes commands from the
//! host, hands the session's lifecycle to a group engine, rewrites the payload
//! of every encoded audio and video frame on its way through, and marshals
//! what the engine produced into a reply for the host.
//!
//! * [`command`] decodes a command envelope and routes the command.
//! * [`frame`] reads and replaces the payload of a frame.
//! * [`pipeline`] transforms a stream of frames, one frame at a time and in
//!   order.
//! * [`encoding`] serializes what the group engine hands back.
//! * [`response`] marshals the serialized parts into envelopes and buffers.
//! * [`fault`] names the ways in which a call can fail.
//!
//! The library neither waits nor talks to the host: its caller reads the
//! command object, awaits the streams and calls the group engine, and asks the
//! library at every turn what is to be done next.

pub mod command;
pub mod encoding;
pub mod fault;
pub mod frame;
pub mod pipeline;
pub mod response;
