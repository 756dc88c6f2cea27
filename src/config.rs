//! Transfer settings: the configuration value and how it merges with what the caller set.
use vstd::prelude::*;

use crate::error::owned;
use crate::text::{decimal, i32_of, i32_text, parse_i32, parse_u64, same_text, signed_decimal, u64_of, u64_text};

verus! {

pub const DEFAULT_CHUNK_SIZE_BYTES: usize = 8388608;

pub const DEFAULT_MAX_PARALLEL_FILES: usize = 32;

pub const DEFAULT_PARALLEL_FAILURES: usize = 4;

pub const DEFAULT_MAX_RETRIES: usize = 3;

pub const DEFAULT_RANGE_GETS: i32 = 256;

/// How downloads through the transfer engine are run.
#[derive(Clone, Copy, PartialEq, Eq, Structural, Debug)]
pub struct XetDownloadConfig {
    /// Ingestion block size in bytes.
    pub chunk_size_bytes: usize,
    /// How many files download at once.
    pub max_parallel_files: usize,
    /// How many failures in parallel are tolerated.
    pub parallel_failures: usize,
    /// How many times a transfer is retried.
    pub max_retries: usize,
}

pub open spec fn default_config() -> XetDownloadConfig {
    XetDownloadConfig {
        chunk_size_bytes: DEFAULT_CHUNK_SIZE_BYTES,
        max_parallel_files: DEFAULT_MAX_PARALLEL_FILES,
        parallel_failures: DEFAULT_PARALLEL_FAILURES,
        max_retries: DEFAULT_MAX_RETRIES,
    }
}

impl Default for XetDownloadConfig {
    /// 8 MiB blocks, 32 files at once, 4 parallel failures, 3 retries.
    fn default() -> (r: XetDownloadConfig)
        ensures
            r == default_config(),
    {
        XetDownloadConfig {
            chunk_size_bytes: DEFAULT_CHUNK_SIZE_BYTES,
            max_parallel_files: DEFAULT_MAX_PARALLEL_FILES,
            parallel_failures: DEFAULT_PARALLEL_FAILURES,
            max_retries: DEFAULT_MAX_RETRIES,
        }
    }
}

/// A setting read as a `usize`, as `str::parse::<usize>` reads it.
pub open spec fn usize_of(s: Seq<char>) -> Option<usize> {
    match u64_of(s) {
        Some(n) => if n <= usize::MAX {
            Some(n as usize)
        } else {
            None
        },
        None => None,
    }
}

fn parse_usize(s: &str) -> (r: Option<usize>)
    ensures
        r == usize_of(s@),
{
    match parse_u64(s) {
        Some(n) => if n <= usize::MAX as u64 {
            Some(n as usize)
        } else {
            None
        },
        None => None,
    }
}

/// The configuration from the caller's settings of the number of parallel files and of the
/// block size in whole megabytes: a setting that is absent or not a number, or a block size
/// whose bytes do not fit, leaves the default.
pub open spec fn configured(max_parallel_files: Option<Seq<char>>, chunk_size_mb: Option<Seq<char>>) -> XetDownloadConfig {
    let files = match max_parallel_files {
        Some(t) => match usize_of(t) {
            Some(n) => n,
            None => DEFAULT_MAX_PARALLEL_FILES,
        },
        None => DEFAULT_MAX_PARALLEL_FILES,
    };
    let chunk = match chunk_size_mb {
        Some(t) => match usize_of(t) {
            Some(mb) => if mb * 1048576 <= usize::MAX {
                (mb * 1048576) as usize
            } else {
                DEFAULT_CHUNK_SIZE_BYTES
            },
            None => DEFAULT_CHUNK_SIZE_BYTES,
        },
        None => DEFAULT_CHUNK_SIZE_BYTES,
    };
    XetDownloadConfig { chunk_size_bytes: chunk, max_parallel_files: files, ..default_config() }
}

pub open spec fn opt_str(o: Option<&str>) -> Option<Seq<char>> {
    match o {
        Some(s) => Some(s@),
        None => None,
    }
}

impl XetDownloadConfig {
    /// The configuration that the caller's settings give (see `configured`).
    pub fn from_settings(max_parallel_files: Option<&str>, chunk_size_mb: Option<&str>) -> (r:
        XetDownloadConfig)
        ensures
            r == configured(opt_str(max_parallel_files), opt_str(chunk_size_mb)),
    {
        let files = match max_parallel_files {
            Some(t) => match parse_usize(t) {
                Some(n) => n,
                None => DEFAULT_MAX_PARALLEL_FILES,
            },
            None => DEFAULT_MAX_PARALLEL_FILES,
        };
        let chunk = match chunk_size_mb {
            Some(t) => match parse_usize(t) {
                Some(mb) => match mb.checked_mul(1048576) {
                    Some(b) => b,
                    None => DEFAULT_CHUNK_SIZE_BYTES,
                },
                None => DEFAULT_CHUNK_SIZE_BYTES,
            },
            None => DEFAULT_CHUNK_SIZE_BYTES,
        };
        XetDownloadConfig {
            chunk_size_bytes: chunk,
            max_parallel_files: files,
            parallel_failures: DEFAULT_PARALLEL_FAILURES,
            max_retries: DEFAULT_MAX_RETRIES,
        }
    }
}

/// What the transfer engine's settings hold already. A setting that the caller made always
/// wins: it is never overwritten.
pub struct EnvSnapshot {
    /// Whether the concurrent range fetches per file are set.
    pub range_gets_set: bool,
    /// The caller's preferred number of concurrent range fetches, if any.
    pub preferred_range_gets: Option<String>,
    /// Whether the high-performance mode is set.
    pub high_performance_set: bool,
    /// The caller's high-performance preference, if any; only `0` turns it off.
    pub preferred_high_performance: Option<String>,
    /// Whether the number of concurrent downloads is set.
    pub max_downloads_set: bool,
    /// Whether the ingestion block size is set.
    pub block_size_set: bool,
}

/// The settings to make; `None` leaves one as it is.
pub struct EnvUpdate {
    pub range_gets: Option<String>,
    pub high_performance: Option<String>,
    pub max_concurrent_downloads: Option<String>,
    pub ingestion_block_size: Option<String>,
}

pub open spec fn opt_string(o: Option<String>) -> Option<Seq<char>> {
    match o {
        Some(s) => Some(s@),
        None => None,
    }
}

/// Range fetches per file: the caller's preference where it is a number, else 256.
pub open spec fn range_gets_value(env: EnvSnapshot) -> Option<Seq<char>> {
    if env.range_gets_set {
        None
    } else {
        let n = match opt_string(env.preferred_range_gets) {
            Some(t) => match i32_of(t) {
                Some(v) => v as int,
                None => DEFAULT_RANGE_GETS as int,
            },
            None => DEFAULT_RANGE_GETS as int,
        };
        Some(signed_decimal(n))
    }
}

/// High-performance mode: on, unless the caller's preference is exactly `0`.
pub open spec fn high_performance_value(env: EnvSnapshot) -> Option<Seq<char>> {
    if env.high_performance_set || opt_string(env.preferred_high_performance) == Some("0"@) {
        None
    } else {
        Some("1"@)
    }
}

fn range_gets_setting(env: &EnvSnapshot) -> (r: Option<String>)
    ensures
        opt_string(r) == range_gets_value(*env),
{
    if env.range_gets_set {
        return None;
    }
    let n = match &env.preferred_range_gets {
        Some(t) => match parse_i32(t.as_str()) {
            Some(v) => v,
            None => DEFAULT_RANGE_GETS,
        },
        None => DEFAULT_RANGE_GETS,
    };
    Some(i32_text(n))
}

fn high_performance_setting(env: &EnvSnapshot) -> (r: Option<String>)
    ensures
        opt_string(r) == high_performance_value(*env),
{
    if env.high_performance_set {
        return None;
    }
    let off = match &env.preferred_high_performance {
        Some(t) => same_text(t.as_str(), "0"),
        None => false,
    };
    if off {
        None
    } else {
        Some(owned("1"))
    }
}

/// The settings made when a client starts: range fetches and high-performance mode.
pub fn performance_defaults(env: &EnvSnapshot) -> (r: EnvUpdate)
    ensures
        opt_string(r.range_gets) == range_gets_value(*env),
        opt_string(r.high_performance) == high_performance_value(*env),
        r.max_concurrent_downloads is None,
        r.ingestion_block_size is None,
{
    EnvUpdate {
        range_gets: range_gets_setting(env),
        high_performance: high_performance_setting(env),
        max_concurrent_downloads: None,
        ingestion_block_size: None,
    }
}

/// The settings made before a transfer runs: those of `performance_defaults`, and the
/// configuration's number of parallel files and block size where the caller set none.
pub fn download_env_update(config: &XetDownloadConfig, env: &EnvSnapshot) -> (r: EnvUpdate)
    ensures
        opt_string(r.range_gets) == range_gets_value(*env),
        opt_string(r.high_performance) == high_performance_value(*env),
        opt_string(r.max_concurrent_downloads) == if env.max_downloads_set {
            None
        } else {
            Some(decimal(config.max_parallel_files as nat))
        },
        opt_string(r.ingestion_block_size) == if env.block_size_set {
            None
        } else {
            Some(decimal(config.chunk_size_bytes as nat))
        },
{
    let max_concurrent_downloads = if env.max_downloads_set {
        None
    } else {
        Some(u64_text(config.max_parallel_files as u64))
    };
    let ingestion_block_size = if env.block_size_set {
        None
    } else {
        Some(u64_text(config.chunk_size_bytes as u64))
    };
    EnvUpdate {
        range_gets: range_gets_setting(env),
        high_performance: high_performance_setting(env),
        max_concurrent_downloads,
        ingestion_block_size,
    }
}

/// The caller's settings are never overwritten: each setting that is already made is left
/// out of the update.
pub proof fn law_caller_settings_win(env: EnvSnapshot)
    ensures
        env.range_gets_set ==> range_gets_value(env) is None,
        env.high_performance_set ==> high_performance_value(env) is None,
{
}

} // verus!
