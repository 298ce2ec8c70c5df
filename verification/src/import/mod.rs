//! Importing profiles from AmneziaVPN backups or from separate OpenVPN and
//! Cloak configuration files.

pub mod amnezia;
pub mod manual;
pub mod remote;

use vstd::prelude::*;

verus! {

/// Where a profile is imported from.
#[derive(Debug)]
pub enum ImportSource {
    /// An AmneziaVPN backup file at `path`.
    AmneziaBackup { path: String },
    /// The contents of an AmneziaVPN backup file.
    AmneziaFileContents { contents: String },
    /// An OpenVPN configuration file and a Cloak configuration file.
    Manual { ovpn_path: String, cloak_path: String },
}

} // verus!
