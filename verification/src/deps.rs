//! Which command installs the player, given which package managers are on
//! the machine.

use vstd::prelude::*;

use crate::text::{spec_trim, trim};

verus! {

/// The package managers looked for, in order of preference.
pub open spec fn manager_name(k: int) -> Seq<char> {
    if k == 0 {
        "pacman"@
    } else if k == 1 {
        "apt"@
    } else if k == 2 {
        "dnf"@
    } else if k == 3 {
        "zypper"@
    } else {
        "apk"@
    }
}

/// How many package managers are known.
pub open spec fn manager_count() -> int {
    5
}

/// The arguments given to `sudo` to install mpv with package manager `k`.
pub open spec fn manager_args(k: int) -> Seq<Seq<char>> {
    if k == 0 {
        seq!["pacman"@, "-S"@, "mpv"@]
    } else if k == 1 {
        seq!["apt"@, "install"@, "mpv"@]
    } else if k == 2 {
        seq!["dnf"@, "install"@, "mpv"@]
    } else if k == 3 {
        seq!["zypper"@, "install"@, "mpv"@]
    } else {
        seq!["apk"@, "add"@, "mpv"@]
    }
}

/// The texts of a list of string slices.
pub open spec fn str_views(v: Seq<&str>) -> Seq<Seq<char>> {
    v.map_values(|s: &str| s@)
}

/// The first known package manager at or after `k` that was found (the count
/// of managers when none was).
pub open spec fn first_found_from(found: Seq<bool>, k: int) -> int
    decreases manager_count() - k,
{
    if k < 0 || k >= manager_count() {
        manager_count()
    } else if k < found.len() && found[k] {
        k
    } else {
        first_found_from(found, k + 1)
    }
}

/// The names of the package managers looked for, in order.
pub fn package_managers() -> (r: Vec<&'static str>)
    ensures
        r@.len() == manager_count(),
        forall|k: int| 0 <= k < manager_count() ==> #[trigger] r@[k]@ == manager_name(k),
{
    let mut v: Vec<&'static str> = Vec::new();
    v.push("pacman");
    v.push("apt");
    v.push("dnf");
    v.push("zypper");
    v.push("apk");
    v
}

fn args_for(k: usize) -> (r: Vec<&'static str>)
    requires
        k < 5,
    ensures
        str_views(r@) == manager_args(k as int),
{
    let mut v: Vec<&'static str> = Vec::new();
    if k == 0 {
        v.push("pacman");
        v.push("-S");
    } else if k == 1 {
        v.push("apt");
        v.push("install");
    } else if k == 2 {
        v.push("dnf");
        v.push("install");
    } else if k == 3 {
        v.push("zypper");
        v.push("install");
    } else {
        v.push("apk");
        v.push("add");
    }
    v.push("mpv");
    assert(str_views(v@) =~= manager_args(k as int));
    v
}

/// The command that installs mpv: `sudo` with the first package manager
/// (in the order of [`package_managers`]) that `found` marks as present, or
/// nothing when none is.
pub fn install_command(found: &Vec<bool>) -> (r: Option<(&'static str, Vec<&'static str>)>)
    ensures
        first_found_from(found@, 0) == manager_count() ==> r is None,
        first_found_from(found@, 0) < manager_count() ==> (r matches Some(cmd) && cmd.0@
            == "sudo"@ && str_views(cmd.1@) == manager_args(first_found_from(found@, 0))),
{
    let mut k: usize = 0;
    while k < 5
        invariant
            k <= 5,
            first_found_from(found@, 0) == first_found_from(found@, k as int),
        decreases 5 - k,
    {
        if k < found.len() && found[k] {
            return Some(("sudo", args_for(k)));
        }
        k = k + 1;
    }
    None
}

/// `c` with an ASCII capital letter made small.
pub open spec fn ascii_lower(c: char) -> char {
    if 'A' <= c <= 'Z' {
        ((c as int) + 32) as char
    } else {
        c
    }
}

/// The two texts are equal when ASCII letters are compared without case.
pub open spec fn eq_ignore_ascii_case(a: Seq<char>, b: Seq<char>) -> bool {
    a.len() == b.len() && forall|i: int| 0 <= i < a.len() ==> #[trigger] ascii_lower(a[i]) == ascii_lower(b[i])
}

/// An answer to the install question says yes: once trimmed it is empty
/// (the default), `y` or `yes`, in any case.
pub open spec fn spec_install_confirmed(answer: Seq<char>) -> bool {
    let t = spec_trim(answer);
    t.len() == 0 || eq_ignore_ascii_case(t, "y"@) || eq_ignore_ascii_case(t, "yes"@)
}

fn lower(c: char) -> (r: char)
    ensures
        r == ascii_lower(c),
{
    if 'A' <= c && c <= 'Z' {
        ((c as u8) + 32) as char
    } else {
        c
    }
}

fn same_ignoring_case(a: &str, b: &str) -> (r: bool)
    ensures
        r == eq_ignore_ascii_case(a@, b@),
{
    let n = a.unicode_len();
    if n != b.unicode_len() {
        return false;
    }
    let mut i: usize = 0;
    while i < n
        invariant
            n == a@.len(),
            n == b@.len(),
            i <= n,
            forall|k: int| 0 <= k < i ==> #[trigger] ascii_lower(a@[k]) == ascii_lower(b@[k]),
        decreases n - i,
    {
        if lower(a.get_char(i)) != lower(b.get_char(i)) {
            return false;
        }
        i = i + 1;
    }
    true
}

/// Whether the answer to "Install now? [Y/n]" accepts the install.
pub fn install_confirmed(answer: &str) -> (r: bool)
    ensures
        r == spec_install_confirmed(answer@),
{
    let t = trim(answer);
    let s = t.as_str();
    proof {
        reveal_strlit("y");
        reveal_strlit("yes");
    }
    s.unicode_len() == 0 || same_ignoring_case(s, "y") || same_ignoring_case(s, "yes")
}

} // verus!
