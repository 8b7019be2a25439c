//! Inspection of media containers: stream catalogue, codec parameters,
//! best-stream selection and the report that gathers them.

pub mod catalog;
pub mod codec;
pub mod error;
pub mod metadata;
pub mod report;
pub mod select;
pub mod startup;
pub mod timing;
