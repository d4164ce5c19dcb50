//! A resumable, crash-safe extraction pipeline between an append-only
//! remote log of blocks and a local content-addressed store.
//!
//! The pipeline fetches one block per cycle, filters its transactions for
//! blob envelopes, decodes and decompresses their payloads, stores each
//! payload under the hex SHA-256 content id of its envelope bytes, and
//! advances a durable cursor — the next height to fetch — only once every
//! write of the cycle succeeded. A failed cycle backs off and retries the
//! same height, so no height is ever skipped.
//!
//! The modules follow the pipeline: [`cursor`] persists progress as decimal
//! text, [`ingest`] turns a fetched block body into records and drives the
//! fetch/backoff state machine, [`decoder`] decodes one raw transaction,
//! [`store`] lays records out in sharded content-addressed paths, and
//! [`hexcode`] pins down the hex alphabet the others share. The surrounding
//! program performs the outside work — the block request, the file writes,
//! the pause — and reports the outcome of each cycle back.

use vstd::prelude::*;

pub mod cursor;
pub mod decoder;
pub mod hexcode;
pub mod ingest;
pub mod store;

verus! {

/// Error raised while decoding a single raw transaction. Such errors are
/// per-transaction: the surrounding block keeps being processed.
#[derive(Clone, Copy, Debug, PartialEq, Eq, Structural)]
pub enum TxError {
    /// The transaction is not well-formed at some decoding stage
    /// (base64, envelope parse, hex payload, or decompression).
    DecodeError,
    /// The envelope is a blob transaction but carries no `body.data` string.
    MissingField,
}

/// Error that aborts one ingestion cycle; the same height is retried.
#[derive(Clone, Copy, Debug, PartialEq, Eq, Structural)]
pub enum CycleError {
    /// Transport-level failure reaching the remote endpoint.
    NetworkError,
    /// The endpoint answered, but the response body does not hold the
    /// expected transaction list.
    MalformedResponse,
    /// A storage write failed.
    IoError,
}

/// Error raised when the persisted cursor cannot be read back.
#[derive(Clone, Copy, Debug, PartialEq, Eq, Structural)]
pub enum CursorError {
    /// The stored text is not a valid non-negative integer.
    CorruptCursor,
}

} // verus!
