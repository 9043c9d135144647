//! Options given on the command line.

use vstd::prelude::*;

verus! {

/// Options for configuring the application: the configuration file, and the
/// directory for log files (logs go to standard output without one).
pub struct Opts {
    pub config_file_path: String,
    pub log_dir_path: Option<String>,
}

} // verus!
