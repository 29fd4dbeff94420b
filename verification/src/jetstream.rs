//! The Jetstream subscriber: deciding what each firehose message queues,
//! counting what it processed, and the URLs it talks to.

pub mod metrics;
pub mod processor;
