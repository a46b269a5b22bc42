use vstd::prelude::*;
use vstd::string::{StrSliceExecFns, StringExecFns};

verus! {

/// What the launcher does for a given platform.
#[derive(Clone, Copy, Debug, PartialEq, Eq)]
pub enum Launch {
    /// Run the overlay binary of this name.
    Run(&'static str),
    /// Run nothing and leave with this status.
    Refuse(i32),
}

/// The status with which the launcher leaves on an unsupported platform.
pub const UNSUPPORTED_EXIT: i32 = 1;

/// The overlay binary built for an (OS, architecture) pair, if there is one.
pub open spec fn binary_of(os: Seq<char>, arch: Seq<char>) -> Option<Seq<char>> {
    if os == "macos"@ && arch == "aarch64"@ {
        Some("mac_aarch64"@)
    } else if os == "macos"@ && arch == "x86_64"@ {
        Some("mac_x86_64"@)
    } else if os == "windows"@ && arch == "x86_64"@ {
        Some("windows_x86_64"@)
    } else if os == "linux"@ && arch == "x86_64"@ {
        Some("linux_x86_64"@)
    } else if os == "linux"@ && arch == "aarch64"@ {
        Some("linux_aarch64"@)
    } else {
        None
    }
}

/// Whether two strings hold the same characters.
pub fn same_text(a: &str, b: &str) -> (r: bool)
    ensures
        r == (a@ == b@),
{
    let n = a.unicode_len();
    if n != b.unicode_len() {
        return false;
    }
    let mut i: usize = 0;
    while i < n
        invariant
            n == a@.len(),
            n == b@.len(),
            i <= n,
            forall|j: int| 0 <= j < i ==> a@[j] == b@[j],
        decreases n - i,
    {
        if a.get_char(i) != b.get_char(i) {
            return false;
        }
        i = i + 1;
    }
    assert(a@ =~= b@);
    true
}

/// The overlay binary for the platform, or `None` where none is built.
pub fn binary_for(os: &str, arch: &str) -> (r: Option<&'static str>)
    ensures
        r.is_some() == binary_of(os@, arch@).is_some(),
        r.is_some() ==> r.unwrap()@ == binary_of(os@, arch@).unwrap(),
{
    proof {
        reveal_strlit("macos");
        reveal_strlit("windows");
        reveal_strlit("linux");
        reveal_strlit("aarch64");
        reveal_strlit("x86_64");
    }
    let mac = same_text(os, "macos");
    let windows = same_text(os, "windows");
    let linux = same_text(os, "linux");
    let arm = same_text(arch, "aarch64");
    let x86 = same_text(arch, "x86_64");
    if mac && arm {
        Some("mac_aarch64")
    } else if mac && x86 {
        Some("mac_x86_64")
    } else if windows && x86 {
        Some("windows_x86_64")
    } else if linux && x86 {
        Some("linux_x86_64")
    } else if linux && arm {
        Some("linux_aarch64")
    } else {
        None
    }
}

/// What to do on the platform: run its binary, or refuse with status 1.
pub fn launch_plan(os: &str, arch: &str) -> (r: Launch)
    ensures
        binary_of(os@, arch@).is_none() <==> r == Launch::Refuse(UNSUPPORTED_EXIT),
        match r {
            Launch::Run(b) => binary_of(os@, arch@) == Some(b@),
            Launch::Refuse(code) => code == UNSUPPORTED_EXIT,
        },
{
    match binary_for(os, arch) {
        Some(b) => Launch::Run(b),
        None => Launch::Refuse(UNSUPPORTED_EXIT),
    }
}

/// Where a binary of the workspace lies once built.
pub fn binary_path(binary: &str) -> (r: String)
    ensures
        r@ == "target/debug/"@ + binary@,
{
    String::from_str("target/debug/").concat(binary)
}

/// The launcher's own status from that of the binary it ran: the same code,
/// or 1 where the binary gave none (it was ended by a signal).
pub fn exit_status(code: Option<i32>) -> (r: i32)
    ensures
        r == match code {
            Some(c) => c,
            None => 1,
        },
{
    match code {
        Some(c) => c,
        None => 1,
    }
}

} // verus!
