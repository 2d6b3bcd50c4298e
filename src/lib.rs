//! A fixed-size worker pool's verified core: the work queue that hands jobs
//! from producers to workers, the bookkeeping of worker threads for an
//! orderly teardown, and the request routing and response rendering of the
//! small static-file responder that runs on top of it.

pub mod decimal;
pub mod http;
pub mod queue;
pub mod worker;
