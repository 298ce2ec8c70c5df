//! Logging settings.

use vstd::prelude::*;

use crate::paths::{join_path, path_join};

verus! {

/// The log level used unless the environment sets a filter: `debug` with
/// `--verbose`, else `info`.
pub fn default_log_level(verbose: bool) -> (s: &'static str)
    ensures
        verbose ==> s@ == "debug"@,
        !verbose ==> s@ == "info"@,
{
    if verbose {
        "debug"
    } else {
        "info"
    }
}

/// Where log files go, under the user's configuration directory
/// `config_dir`: `<config_dir>/pulsar/logs`.
pub fn log_dir(config_dir: &str) -> (r: String)
    ensures
        r@ == path_join(path_join(config_dir@, "pulsar"@), "logs"@),
{
    let p = crate::paths::pulsar_dir(config_dir);
    join_path(p.as_str(), "logs")
}

/// The log file inside the log directory `log_dir`: `<log_dir>/pulsar.log`.
pub fn log_file(log_dir: &str) -> (r: String)
    ensures
        r@ == path_join(log_dir@, "pulsar.log"@),
{
    join_path(log_dir, "pulsar.log")
}

} // verus!
