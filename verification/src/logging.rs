//! Logging settings and the retention rule for old log files.

use vstd::prelude::*;

verus! {

/// Configuration for the logging system
#[derive(Debug, Clone)]
pub struct LogConfig {
    pub level: String,
    pub log_to_file: bool,
    pub log_to_console: bool,
    pub max_log_files: usize,
    pub max_file_size: u64,
}

/// Number of log files kept by default.
pub const DEFAULT_MAX_LOG_FILES: usize = 5;

/// Size limit of a log file by default: ten mebibytes.
pub const DEFAULT_MAX_FILE_SIZE: u64 = 10485760;

impl Default for LogConfig {
    fn default() -> (config: Self)
        ensures
            config.level@ == "info"@,
            config.log_to_file,
            !config.log_to_console,
            config.max_log_files == DEFAULT_MAX_LOG_FILES,
            config.max_file_size == DEFAULT_MAX_FILE_SIZE,
    {
        LogConfig {
            level: "info".to_owned(),
            log_to_file: true,
            log_to_console: false,
            max_log_files: DEFAULT_MAX_LOG_FILES,
            max_file_size: DEFAULT_MAX_FILE_SIZE,
        }
    }
}

/// Whether file `j` is kept in preference to file `i`: it was modified
/// later, or at the same time and is listed earlier.
pub open spec fn outlives(stamps: Seq<i128>, j: int, i: int) -> bool {
    stamps[j] > stamps[i] || (stamps[j] == stamps[i] && j < i)
}

/// How many of the first `n` files are kept in preference to file `i`.
pub open spec fn rank_among(stamps: Seq<i128>, i: int, n: int) -> nat
    decreases n,
{
    if n <= 0 {
        0
    } else {
        rank_among(stamps, i, n - 1) + if outlives(stamps, n - 1, i) {
            1nat
        } else {
            0nat
        }
    }
}

/// Whether file `i` is to be removed when `keep` files are kept: at least
/// `keep` files are kept in preference to it.
pub open spec fn is_stale(stamps: Seq<i128>, i: int, keep: usize) -> bool {
    rank_among(stamps, i, stamps.len() as int) >= keep
}

/// Picks the log files to remove so that the `max_files` newest stay.
///
/// `stamps` holds the modification time of each file, in the order in which
/// the directory lists them. The result holds the indices of the files to
/// remove, in rising order.
pub fn stale_logs(stamps: &Vec<i128>, max_files: usize) -> (stale: Vec<usize>)
    ensures
        forall|k: int|
            0 <= k < stale@.len() ==> 0 <= #[trigger] stale@[k] < stamps@.len() && is_stale(
                stamps@,
                stale@[k] as int,
                max_files,
            ),
        forall|i: int|
            0 <= i < stamps@.len() && is_stale(stamps@, i, max_files) ==> stale@.contains(
                i as usize,
            ),
        forall|k: int, m: int| 0 <= k < m < stale@.len() ==> stale@[k] < stale@[m],
{
    let n = stamps.len();
    let mut stale: Vec<usize> = Vec::new();
    let mut i: usize = 0;
    while i < n
        invariant
            i <= n == stamps.len(),
            forall|k: int|
                0 <= k < stale@.len() ==> 0 <= #[trigger] stale@[k] < i && is_stale(
                    stamps@,
                    stale@[k] as int,
                    max_files,
                ),
            forall|h: int|
                0 <= h < i && is_stale(stamps@, h, max_files) ==> stale@.contains(h as usize),
            forall|k: int, m: int| 0 <= k < m < stale@.len() ==> stale@[k] < stale@[m],
        decreases n - i,
    {
        let mut count: usize = 0;
        let mut j: usize = 0;
        while j < n
            invariant
                j <= n == stamps.len(),
                i < n,
                count == rank_among(stamps@, i as int, j as int),
                count <= j,
            decreases n - j,
        {
            if stamps[j] > stamps[i] || (stamps[j] == stamps[i] && j < i) {
                count += 1;
            }
            j += 1;
        }
        if count >= max_files {
            let ghost before = stale@;
            stale.push(i);
            proof {
                assert(stale@[before.len() as int] == i);
                assert forall|h: int|
                    0 <= h < i + 1 && is_stale(stamps@, h, max_files) implies stale@.contains(
                    h as usize,
                ) by {
                    if h < i {
                        let k = choose|k: int| 0 <= k < before.len() && before[k] == h as usize;
                        assert(stale@[k] == h as usize);
                    }
                }
            }
        }
        i += 1;
    }
    stale
}

} // verus!
