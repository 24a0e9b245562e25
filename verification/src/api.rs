//! What the handlers of the web interface decide between their calls to the
//! storage and the queue.

pub mod v1;
