//! The registration primitive of an I/O reactor.
//!
//! A [`registration::Registration`] stands for one low-level waitable resource
//! and decides, for each of the three operations of a polling backend, the
//! exact call that the backend has to be given. The calls themselves are
//! values ([`request::Request`]): whoever owns the backend performs them and
//! reports how they ended.

pub mod decimal;
pub mod event;
pub mod lifecycle;
pub mod registration;
pub mod request;
pub mod waitable;
