//! Where the proxy listens.

use vstd::prelude::*;
use vstd::string::StringExecFns;
use vstd::string::StrSliceExecFns;
use crate::text::chars_of;

verus! {

/// The socket at which the proxy listens.
pub const PROXY_SOCKET: &'static str = "/run/rauthy/rauthy_proxy.sock";

/// The permission bits of the directory of the socket: nobody but the owner
/// may make or remove files in it, so that nobody can put a socket of their
/// own in the proxy's place.
pub const SOCKET_DIR_MODE: u32 = 0o755;

/// The permission bits of the socket: everybody may read from and write to
/// it. What it hands out is what the machine's account files hand out too.
pub const SOCKET_MODE: u32 = 0o766;

/// The tool that sets the labels of the access-control layer anew.
pub const RESTORECON: &'static str = "/usr/sbin/restorecon";

/// The place of the last slash in `path`, if it holds one.
pub open spec fn last_slash(path: Seq<char>) -> Option<int>
    decreases path.len(),
{
    if path.len() == 0 {
        None
    } else if path.last() == '/' {
        Some(path.len() - 1)
    } else {
        last_slash(path.drop_last())
    }
}

/// The directory of `path`: what stands before its last slash. `None`
/// where the path holds no slash.
pub fn parent(path: &str) -> (r: Option<String>)
    ensures
        match last_slash(path@) {
            None => r is None,
            Some(i) => r matches Some(dir) && dir@ == path@.take(i),
        },
{
    let chars = chars_of(path);
    let mut i: usize = chars.len();
    proof {
        assert(path@.take(i as int) =~= path@);
    }
    while i > 0
        invariant
            i <= chars@.len(),
            chars@ == path@,
            last_slash(path@) == last_slash(path@.take(i as int)),
        decreases i,
    {
        proof {
            assert(path@.take(i as int).last() == path@[i - 1]);
            assert(path@.take(i as int).drop_last() =~= path@.take(i - 1));
        }
        if chars[i - 1] == '/' {
            let dir = String::from_str(path.substring_char(0, i - 1));
            proof {
                assert(path@.subrange(0, i - 1) =~= path@.take(i - 1));
            }
            return Some(dir);
        }
        i = i - 1;
    }
    None
}

} // verus!
