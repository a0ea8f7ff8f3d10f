//! The identity-map installation plan: the exact pseudo-file writes that
//! grant the newly user-namespaced process its single mapped identity. The
//! Orchestrator performs these writes against the Namespace Holder's PID
//! before acknowledging the first barrier.

use vstd::prelude::*;
use vstd::string::StringExecFns;
use crate::numeral::decimal_of;
use crate::numeral::decimal_string;

verus! {

/// One write into a `/proc/<pid>` pseudo-file: the full path and the exact
/// content, written once.
pub struct ProcWrite {
    pub path: String,
    pub content: String,
}

/// The single-identity map line: namespace id 0 maps to host id 1000, range
/// length 1. The same line serves `uid_map` and `gid_map`.
pub open spec fn id_map_line() -> Seq<char> {
    "0 1000 1\n"@
}

/// Content of the `setgroups` pseudo-file: supplementary-group manipulation
/// is denied, which the kernel requires before `gid_map` can be written by a
/// parent without CAP_SETGID.
pub open spec fn setgroups_line() -> Seq<char> {
    "deny"@
}

/// View of the path `/proc/<pid>/<file>`.
pub open spec fn proc_file_path(pid: nat, file: Seq<char>) -> Seq<char> {
    "/proc/"@ + decimal_of(pid) + "/"@ + file
}

fn proc_path(pid: u64, file: &str) -> (r: String)
    ensures
        r@ == proc_file_path(pid as nat, file@),
{
    let mut r = "/proc/".to_owned();
    let digits = decimal_string(pid);
    r.append(digits.as_str());
    r.append("/");
    r.append(file);
    proof {
        assert(r@ =~= proc_file_path(pid as nat, file@));
    }
    r
}

/// The identity-map installation plan for the process `pid`, in the order the
/// writes must land: `uid_map`, then `setgroups` (denied), then `gid_map`.
/// After these writes, `/proc/<pid>/uid_map` and `/proc/<pid>/gid_map` each
/// hold the mapping "namespace id 0 to host id 1000, length 1" and
/// `/proc/<pid>/setgroups` holds "deny".
pub fn identity_map_writes(pid: u64) -> (r: Vec<ProcWrite>)
    ensures
        r@.len() == 3,
        r@[0].path@ == proc_file_path(pid as nat, "uid_map"@),
        r@[0].content@ == id_map_line(),
        r@[1].path@ == proc_file_path(pid as nat, "setgroups"@),
        r@[1].content@ == setgroups_line(),
        r@[2].path@ == proc_file_path(pid as nat, "gid_map"@),
        r@[2].content@ == id_map_line(),
{
    let mut r: Vec<ProcWrite> = Vec::new();
    r.push(ProcWrite { path: proc_path(pid, "uid_map"), content: "0 1000 1\n".to_owned() });
    r.push(ProcWrite { path: proc_path(pid, "setgroups"), content: "deny".to_owned() });
    r.push(ProcWrite { path: proc_path(pid, "gid_map"), content: "0 1000 1\n".to_owned() });
    r
}

} // verus!
