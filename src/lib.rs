//! A load generator's core: a workload that ramps from a minimum rate of records per
//! second to a maximum and back along Bézier easing curves, the pacing loop that
//! turns it into records each second, the record generator, and the count of
//! deliveries. Time, queues, signals and the transport stay with the caller.

pub mod curve;
pub mod generator;
pub mod parse;
pub mod partitioner;
pub mod record;
pub mod sink;
pub mod tap;
pub mod transition;
pub mod workload;
