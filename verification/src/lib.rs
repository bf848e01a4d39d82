//! Data-plane channel core of a distributed dataflow engine.
//!
//! An operator produces scoped batches of records destined for a single
//! partitioned target worker.  The [`aggregate::AggregateBatchPush`] routes
//! every data batch to that one resolved target, while independently
//! deciding, per progress signal, whether the signal must be replicated to
//! every peer so that cluster-wide progress accounting stays consistent
//! across nested iteration scopes and feedback cycles.

pub mod aggregate;
pub mod batch;
pub mod channel;
pub mod error;
pub mod evented;
pub mod laws;
pub mod tag;
pub mod transport;
