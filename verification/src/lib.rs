//! State machine of a terminal launcher front-end: a query line with a
//! movable text cursor, a candidate list with a wraparound selection, a
//! one-shot completion preview, and the key-event dispatch and per-frame
//! render bookkeeping that drive them. Terminal I/O itself lives outside
//! this library; everything here is plain state and arithmetic.

pub mod dispatch;
pub mod render;
pub mod session;
