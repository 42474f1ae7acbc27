//! The machine-wide settings of the login module.

use vstd::prelude::*;
use vstd::string::StringExecFns;
use crate::text::join_path;
use crate::text::joined;

verus! {

/// The settings that the login module reads from its configuration file.
/// Paths are kept as text.
#[derive(Debug, Clone, PartialEq, Eq)]
pub struct Config {
    /// The provider's origin, as the text of a URL. Endpoint paths are put
    /// directly behind it.
    pub rauthy_url: String,
    /// The identity under which this machine speaks to the provider.
    pub host_id: String,
    pub host_secret: String,
    /// The directory that holds one directory per user.
    pub data_path: String,
    /// A directory whose content is copied into each new home directory.
    pub home_dir_skel: Option<String>,
    /// A script to run when a session opens.
    pub exec_session_open: Option<String>,
    /// A script to run when a session closes.
    pub exec_session_close: Option<String>,
}

/// The directory that holds the users' data where the configuration names
/// none.
pub fn data_path() -> (r: String)
    ensures
        r@ == "/var/lib/pam_rauthy"@,
{
    String::from_str("/var/lib/pam_rauthy")
}

/// The permission bits of a directory that holds one user's data.
pub const USER_DATA_DIR_MODE: u32 = 0o600;

/// The permission bits of the directory that holds all users' data.
pub const DATA_DIR_MODE: u32 = 0o700;

/// The permission bits that the configuration file is held to.
pub const CONFIG_FILE_MODE: u32 = 0o644;

impl Config {
    /// The directory that holds the data of `username`. It is to be made
    /// with [`USER_DATA_DIR_MODE`].
    pub fn data_path_user(&self, username: &str) -> (r: String)
        ensures
            r@ == joined(self.data_path@, username@),
    {
        join_path(self.data_path.as_str(), username)
    }

    /// Whether the permission bits `mode` of the configuration file have to
    /// be set anew before the file is read.
    pub fn needs_mode_repair(mode: u32) -> (r: bool)
        ensures
            r == (mode != CONFIG_FILE_MODE),
    {
        mode != CONFIG_FILE_MODE
    }
}

} // verus!
