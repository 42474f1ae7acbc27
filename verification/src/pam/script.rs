//! Running a script of the administrator's when a session opens or closes.

use vstd::prelude::*;
use vstd::string::StringExecFns;
use crate::pam::RauthyPam;
use crate::pam::token::PamToken;
use crate::text::decimal;
use crate::text::push_decimal;

verus! {

/// The file-type and permission bits that a session script must have: a
/// regular file that its owner, and nobody else, may read, write and run.
pub const SCRIPT_MODE: u32 = 0o100700;

/// What the file system says of a script.
#[derive(Debug, Clone, Copy, PartialEq, Eq, Structural)]
pub struct ScriptMeta {
    /// Whether the path names a regular file.
    pub is_file: bool,
    /// The number of the user that owns it.
    pub uid: u32,
    /// Its file-type and permission bits.
    pub mode: u32,
}

/// Why a script is not run.
#[derive(Debug, Clone, Copy, PartialEq, Eq, Structural)]
pub enum ScriptRefusal {
    /// The path does not name a regular file.
    NotAFile,
    /// The file is not owned by the superuser.
    NotOwnedByRoot,
    /// The bits of the file are not [`SCRIPT_MODE`].
    BadMode { found: u32 },
}

/// What to tell of a script that has run.
#[derive(Debug, Clone, PartialEq, Eq)]
pub enum ScriptReport {
    /// Nothing.
    Quiet,
    /// What the script wrote to its output, as information.
    Info(String),
    /// What the script wrote to its error output, as an error. The script
    /// counts as failed.
    Failed(String),
}

impl RauthyPam {
    /// Whether a script with `meta` may be run, and why not if not.
    pub open spec fn script_check(meta: ScriptMeta) -> Result<(), ScriptRefusal> {
        if !meta.is_file {
            Err(ScriptRefusal::NotAFile)
        } else if meta.uid != 0 {
            Err(ScriptRefusal::NotOwnedByRoot)
        } else if meta.mode != SCRIPT_MODE {
            Err(ScriptRefusal::BadMode { found: meta.mode })
        } else {
            Ok(())
        }
    }

    /// The command line that runs the script at `path` for the user of
    /// `token`: the path, then the user's name, the numbers of the user and
    /// of the group, the user's id at the provider and the e-mail address,
    /// with one space between each two.
    pub open spec fn script_command(path: Seq<char>, token: PamToken) -> Seq<char> {
        path + " "@ + token.username@ + " "@ + decimal(token.uid as nat) + " "@ + decimal(
            token.gid as nat,
        ) + " "@ + token.user_id@ + " "@ + token.user_email@
    }

    /// The command line that runs the script at `path` for the user of
    /// `token`, or why the script is not run. It is run only if it is a
    /// regular file that the superuser owns and that has exactly the bits
    /// [`SCRIPT_MODE`].
    pub fn run_session_script(meta: ScriptMeta, path: &str, token: &PamToken) -> (r: Result<
        String,
        ScriptRefusal,
    >)
        ensures
            match Self::script_check(meta) {
                Err(why) => r == Err::<String, ScriptRefusal>(why),
                Ok(()) => r matches Ok(cmd) && cmd@ == Self::script_command(path@, *token),
            },
    {
        if !meta.is_file {
            return Err(ScriptRefusal::NotAFile);
        }
        if meta.uid != 0 {
            return Err(ScriptRefusal::NotOwnedByRoot);
        }
        if meta.mode != SCRIPT_MODE {
            return Err(ScriptRefusal::BadMode { found: meta.mode });
        }
        let mut cmd = String::from_str(path);
        cmd.append(" ");
        cmd.append(token.username.as_str());
        cmd.append(" ");
        push_decimal(&mut cmd, token.uid as u64);
        cmd.append(" ");
        push_decimal(&mut cmd, token.gid as u64);
        cmd.append(" ");
        cmd.append(token.user_id.as_str());
        cmd.append(" ");
        cmd.append(token.user_email.as_str());
        Ok(cmd)
    }

    /// What to tell of a script that has run. `success` says whether it
    /// ended well, `verbose` whether diagnostics were asked for. What a
    /// script wrote to its output is told only with diagnostics on, and only
    /// if it wrote anything; what a failed script wrote to its error output
    /// is told always.
    pub fn script_report(success: bool, verbose: bool, stdout: String, stderr: String) -> (r:
        ScriptReport)
        ensures
            r == if !success {
                ScriptReport::Failed(stderr)
            } else if verbose && stdout@.len() > 0 {
                ScriptReport::Info(stdout)
            } else {
                ScriptReport::Quiet
            },
    {
        if !success {
            ScriptReport::Failed(stderr)
        } else if verbose && !stdout.as_str().is_empty() {
            ScriptReport::Info(stdout)
        } else {
            ScriptReport::Quiet
        }
    }
}

} // verus!
