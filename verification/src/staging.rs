//! Input staging layout.
//!
//! Staged inputs are written to a host directory that is bind-mounted into
//! the execution unit; the directory must exist before the unit is created,
//! so staging strictly precedes creation. Every in-flight operation stages
//! under its own directory, keyed by an operation-unique name, so that
//! concurrent operations never overwrite each other's files. The file
//! writes themselves are the caller's; this module fixes where each file
//! goes and how the bind mount is spelled.

use vstd::prelude::*;
use vstd::string::StringExecFns;

verus! {

/// The staging directory for the operation named `op_id` under `base`.
pub open spec fn staging_dir_spec(base: Seq<char>, op_id: Seq<char>) -> Seq<char> {
    base + "/app-"@ + op_id
}

/// The host path of a staged file named `name` inside `dir`.
pub open spec fn staged_file_spec(dir: Seq<char>, name: Seq<char>) -> Seq<char> {
    dir + "/"@ + name
}

/// The `hostPath:containerPath` bind-mount specification for `dir`.
pub open spec fn mount_spec_of(dir: Seq<char>) -> Seq<char> {
    dir + ":/app/"@
}

/// Where one operation's inputs live and how they are mounted.
pub struct StagingPlan {
    /// The operation's own staging directory on the host.
    pub dir: String,
    /// Host path of the staged configuration file.
    pub config_path: String,
    /// Host path of the staged catalog file.
    pub catalog_path: String,
    /// The `hostPath:containerPath` binding handed to the engine.
    pub mount_spec: String,
}

impl StagingPlan {
    /// Consistency of a plan with its base directory and operation name.
    pub open spec fn wf(self, base: Seq<char>, op_id: Seq<char>) -> bool {
        &&& self.dir@ == staging_dir_spec(base, op_id)
        &&& self.config_path@ == staged_file_spec(self.dir@, "config"@)
        &&& self.catalog_path@ == staged_file_spec(self.dir@, "catalog"@)
        &&& self.mount_spec@ == mount_spec_of(self.dir@)
    }
}

/// Lays out the staging directory, file paths and bind mount for the
/// operation named `op_id` under the base directory `base`.
pub fn staging_plan(base: &str, op_id: &str) -> (r: StagingPlan)
    ensures
        r.wf(base@, op_id@),
{
    let mut dir = base.to_owned();
    dir.append("/app-");
    dir.append(op_id);
    let mut config_path = dir.clone();
    config_path.append("/");
    config_path.append("config");
    let mut catalog_path = dir.clone();
    catalog_path.append("/");
    catalog_path.append("catalog");
    let mut mount_spec = dir.clone();
    mount_spec.append(":/app/");
    StagingPlan { dir, config_path, catalog_path, mount_spec }
}

/// The path of the staged configuration file as the unit sees it.
pub fn container_config_path() -> (r: &'static str)
    ensures
        r@ == "/app/config"@,
{
    "/app/config"
}

/// The path of the staged catalog file as the unit sees it.
pub fn container_catalog_path() -> (r: &'static str)
    ensures
        r@ == "/app/catalog"@,
{
    "/app/catalog"
}

} // verus!
