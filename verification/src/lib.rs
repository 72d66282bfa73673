//! A minimal concurrent network server core: a fixed-size worker pool draining
//! a FIFO job queue, a static route table built before the server starts, and
//! the per-connection dispatch logic that matches a raw request line against
//! that table and formats the canned response.
//!
//! The socket I/O, the on-disk response bodies, and the operating-system
//! threads live outside this crate; everything here is the decision and
//! formatting logic they drive, together with a transition-system model of the
//! pool under which the scheduling guarantees are proved.

pub mod dispatch;
pub mod pool;
pub mod pool_model;
pub mod routes;
