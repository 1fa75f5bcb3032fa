//! Call-count profiling for object stores.
//!
//! An [`InstrumentedStore`](store::InstrumentedStore) wraps any
//! [`ObjectBackend`](store::ObjectBackend), hands every call through unchanged
//! and records one [`Sample`](sample::Sample) per completed call on the
//! [`OperationProfiler`](profiler::OperationProfiler) of that operation kind. A
//! [`ReportBuilder`](report::ReportBuilder) turns what a profiler holds into a
//! [`Report`](report::Report), and the
//! [`ProfileExporter`](export::ProfileExporter) writes a report in the pprof
//! interchange format.
//!
//! The modules, from the leaves up:
//!
//! - [`sample`]: samples, operation kinds, and what a sampler holds after a
//!   history of calls;
//! - [`sampler`]: the accumulator of samples;
//! - [`lock`]: the reader-writer lock around a shared sampler (`parking_lot`);
//! - [`profiler`]: a sampler shared by the callers of one operation kind;
//! - [`store`]: the instrumented store and the wrapper that installs it;
//! - [`report`]: reports and their builder;
//! - [`tables`]: a report laid out as the tables of a profile;
//! - [`wire`]: the profile message and its encoder (`pprof`);
//! - [`export`]: the exporter;
//! - [`laws`]: what holds of all of these together.

pub mod export;
pub mod laws;
pub mod lock;
pub mod profiler;
pub mod report;
pub mod sample;
pub mod sampler;
pub mod store;
pub mod tables;
pub mod wire;
