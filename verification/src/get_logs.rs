//! Audit log records returned by the device.

use vstd::prelude::*;

use crate::codes::{CommandCode, ResponseCode};

verus! {

/// Size of a truncated digest in the log, in bytes.
pub const LOG_DIGEST_SIZE: usize = 16;

/// The audit log returned by the device: counts of unlogged events and the
/// log entries themselves.
#[derive(Clone, Debug)]
pub struct AuditLogs {
    /// Number of boot events which weren't logged (if the log is full and
    /// audit enforcement is set).
    pub unlogged_boot_events: u16,
    /// Number of unlogged authentication events (if the log is full and
    /// audit enforcement is set).
    pub unlogged_auth_events: u16,
    /// Number of entries in the response.
    pub num_entries: u8,
    /// Entries in the log.
    pub entries: Vec<LogEntry>,
}

/// One entry in the audit log.
#[derive(Clone, Debug)]
pub struct LogEntry {
    /// Entry number.
    pub item: u16,
    /// Command type.
    pub cmd: CommandCode,
    /// Command length.
    pub length: u16,
    /// Session key ID.
    pub session_key: u16,
    /// Target key ID.
    pub target_key: u16,
    /// Second key affected.
    pub second_key: u16,
    /// Result of the operation.
    pub result: ResponseCode,
    /// Tick count of the device's internal clock.
    pub tick: u32,
    /// Truncated SHA-256 digest of this entry and the previous entry's
    /// digest.
    pub digest: LogDigest,
}

/// A 16-byte truncated SHA-256 digest of a log entry and the digest of the
/// previous entry, chaining the log together.
#[derive(Clone, Debug)]
pub struct LogDigest(pub Vec<u8>);

impl View for LogDigest {
    type V = Seq<u8>;

    open spec fn view(&self) -> Seq<u8> {
        self.0@
    }
}

impl LogDigest {
    /// Whether this digest has the right length.
    pub open spec fn wf(&self) -> bool {
        self@.len() == LOG_DIGEST_SIZE
    }

    /// Get a slice of the digest bytes.
    pub fn as_slice(&self) -> (r: &[u8])
        ensures
            r@ == self@,
    {
        self.0.as_slice()
    }
}

} // verus!
