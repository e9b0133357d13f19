//! The connection pool's retry policy and transfer-progress arithmetic.
//!
//! The pool retries a fetch up to a fixed attempt count, alternating
//! between a browser-like full-header request and a minimal request,
//! with a fixed delay between attempts; the final attempt's error is
//! surfaced when every attempt fails.

use vstd::prelude::*;

verus! {

/// How many times one fetch is attempted.
pub const MAX_FETCH_ATTEMPTS: u32 = 3;

/// Seconds between attempts.
pub const FETCH_RETRY_DELAY_SECS: u64 = 2;

/// The two request shapes the pool alternates between.
#[derive(Debug, Clone, Copy, PartialEq, Eq, Structural)]
pub enum FetchStyle {
    FullHeaders,
    Minimal,
}

/// The request shape for a given 1-based attempt: the first and third
/// attempts send full browser-like headers, the second sends a minimal
/// request.
pub fn fetch_style_for_attempt(attempt: u32) -> (r: FetchStyle)
    ensures
        r == (if attempt == 2 {
            FetchStyle::Minimal
        } else {
            FetchStyle::FullHeaders
        }),
{
    if attempt == 2 {
        FetchStyle::Minimal
    } else {
        FetchStyle::FullHeaders
    }
}

/// After a failed attempt: retry (after the fixed delay) until the
/// attempt budget is spent; the last failure is surfaced.
pub fn should_retry_fetch(attempt: u32) -> (r: bool)
    ensures
        r == (attempt < MAX_FETCH_ATTEMPTS),
{
    attempt < MAX_FETCH_ATTEMPTS
}

/// The static configuration of the shared connection pool.
#[derive(Debug, Clone, Copy, PartialEq, Eq, Structural)]
pub struct PoolConfig {
    pub max_connections: usize,
    pub timeout_seconds: u64,
}

impl PoolConfig {
    pub fn new(max_connections: usize, timeout_seconds: u64) -> (r: PoolConfig)
        ensures
            r.max_connections == max_connections,
            r.timeout_seconds == timeout_seconds,
    {
        PoolConfig { max_connections, timeout_seconds }
    }
}

/// Transfer progress as integer percent, capped at 100; an unknown
/// total reads as zero percent.
pub open spec fn spec_progress_percent(downloaded: u64, total: u64) -> int {
    if total == 0 {
        0
    } else if downloaded >= total {
        100
    } else {
        downloaded * 100 / (total as int)
    }
}

/// One snapshot of a transfer in flight.
#[derive(Debug, Clone, Copy, PartialEq, Eq, Structural)]
pub struct DownloadProgress {
    pub downloaded_bytes: u64,
    pub total_bytes: u64,
    pub progress_percent: u8,
    pub speed_bytes_per_sec: Option<u64>,
    pub estimated_remaining_secs: Option<u64>,
}

impl DownloadProgress {
    /// A snapshot from raw byte counts.
    pub fn new(downloaded: u64, total: u64) -> (r: DownloadProgress)
        ensures
            r.downloaded_bytes == downloaded,
            r.total_bytes == total,
            r.progress_percent == spec_progress_percent(downloaded, total),
            r.speed_bytes_per_sec is None,
            r.estimated_remaining_secs is None,
    {
        let percent: u8 = if total == 0 {
            0
        } else if downloaded >= total {
            100
        } else {
            proof {
                assert(downloaded * 100 / (total as int) < 100) by (nonlinear_arith)
                    requires
                        0 < total,
                        0 <= downloaded < total,
                ;
                assert(downloaded * 100 / (total as int) >= 0) by (nonlinear_arith)
                    requires
                        0 < total,
                        0 <= downloaded,
                ;
            }
            (((downloaded as u128) * 100 / (total as u128)) as u8)
        };
        DownloadProgress {
            downloaded_bytes: downloaded,
            total_bytes: total,
            progress_percent: percent,
            speed_bytes_per_sec: None,
            estimated_remaining_secs: None,
        }
    }

    /// Adds a speed reading and, when the total is known and ahead of
    /// the transfer, the seconds estimated to remain.
    pub fn with_speed(self, speed: u64, _elapsed_secs: u64) -> (r: DownloadProgress)
        ensures
            r.downloaded_bytes == self.downloaded_bytes,
            r.total_bytes == self.total_bytes,
            r.progress_percent == self.progress_percent,
            r.speed_bytes_per_sec == Some(speed),
            r.estimated_remaining_secs == (if speed > 0 && self.total_bytes
                > self.downloaded_bytes {
                Some((((self.total_bytes - self.downloaded_bytes) as u64) / speed) as u64)
            } else {
                self.estimated_remaining_secs
            }),
    {
        let remaining = if speed > 0 && self.total_bytes > self.downloaded_bytes {
            Some((self.total_bytes - self.downloaded_bytes) / speed)
        } else {
            self.estimated_remaining_secs
        };
        DownloadProgress {
            downloaded_bytes: self.downloaded_bytes,
            total_bytes: self.total_bytes,
            progress_percent: self.progress_percent,
            speed_bytes_per_sec: Some(speed),
            estimated_remaining_secs: remaining,
        }
    }
}

} // verus!
