//! Encoding of collected metrics into the OpenMetrics text format and into a
//! structured binary message.

pub mod decimal;
pub mod encoding;
pub mod metrics;
pub mod protobuf;
pub mod text;
