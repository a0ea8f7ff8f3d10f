//! The launch configuration and the paths and environment entries derived
//! from it.

use vstd::prelude::*;
use vstd::string::StringExecFns;

verus! {

/// A validated launch description: the per-launch working directory and the
/// environment the target command starts with. It is constructed once by the
/// caller and read-only for the lifetime of the launch.
pub struct IsolationConfig {
    /// Path of the per-launch working directory. It must already exist and
    /// contain a `rootfs` subdirectory, which becomes the new root.
    pub context_dir: String,
    /// Environment of the target command, as (name, value) pairs with unique
    /// names.
    pub environment: Vec<(String, String)>,
}

impl IsolationConfig {
    /// Well-formedness: environment names are unique.
    pub open spec fn wf(&self) -> bool {
        forall|i: int, j: int|
            0 <= i < j < self.environment@.len() ==> self.environment@[i].0@
                != self.environment@[j].0@
    }

    /// View of the path of the directory that becomes the new root.
    pub open spec fn rootfs_path_spec(&self) -> Seq<char> {
        self.context_dir@ + "/rootfs"@
    }

    /// View of the path of the scratch mount point that parks the old root
    /// during the switch, as seen from the host root.
    pub open spec fn put_old_path_spec(&self) -> Seq<char> {
        self.rootfs_path_spec() + "/.put_old"@
    }

    /// The directory that becomes the new root: `<context_dir>/rootfs`.
    pub fn rootfs_path(&self) -> (r: String)
        ensures
            r@ == self.rootfs_path_spec(),
    {
        let mut r = self.context_dir.as_str().to_owned();
        r.append("/rootfs");
        r
    }

    /// The scratch mount point for the old root: `<context_dir>/rootfs/.put_old`.
    pub fn put_old_path(&self) -> (r: String)
        ensures
            r@ == self.put_old_path_spec(),
    {
        let mut r = self.rootfs_path();
        r.append("/.put_old");
        r
    }

    /// The exec environment: one `name=value` entry per configured pair, in
    /// configuration order.
    pub fn env_entries(&self) -> (r: Vec<String>)
        ensures
            r@.len() == self.environment@.len(),
            forall|k: int|
                0 <= k < r@.len() ==> r@[k]@ == self.environment@[k].0@ + "="@
                    + self.environment@[k].1@,
    {
        let mut r: Vec<String> = Vec::new();
        let mut i: usize = 0;
        while i < self.environment.len()
            invariant
                i <= self.environment@.len(),
                r@.len() == i,
                forall|k: int|
                    0 <= k < i as int ==> r@[k]@ == self.environment@[k].0@ + "="@
                        + self.environment@[k].1@,
            decreases self.environment@.len() - i,
        {
            let mut e = self.environment[i].0.as_str().to_owned();
            e.append("=");
            e.append(self.environment[i].1.as_str());
            r.push(e);
            i = i + 1;
        }
        r
    }
}

} // verus!
