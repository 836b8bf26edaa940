//! Unpacking the bundled files into the workspace, as a plan: which files
//! and directories are created, where, and in which order. The bundle's
//! bytes stay with the caller, who looks each file up by its path.

use vstd::prelude::*;
use vstd::string::*;
use crate::paths::{join_path, joined_path, texts};

verus! {

/// The permission bits that every unpacked file is given where the platform
/// has them: read, write and execute for everyone.
pub const ASSET_FILE_MODE: u32 = 0o777;

/// A directory of the bundle. All paths are relative to the bundle's root.
#[derive(Debug)]
pub struct AssetDir {
    /// The directory's own path; empty for the root.
    pub path: String,
    /// The paths of the files that lie directly in it.
    pub files: Vec<String>,
    /// The directories that lie directly in it.
    pub dirs: Vec<AssetDir>,
}

/// What a step of the plan creates.
#[derive(Clone, Copy, Debug, PartialEq, Eq, Structural)]
pub enum AssetKind {
    /// A file, created anew with the bundled bytes: if something is in its
    /// place already, the step fails.
    File,
    /// An empty directory.
    Directory,
}

/// One step of the plan.
#[derive(Debug)]
pub struct AssetWrite {
    pub kind: AssetKind,
    /// The path in the bundle.
    pub source: String,
    /// The path in the workspace.
    pub target: String,
}

/// A step as plain values: what is created, from which path of the bundle,
/// at which path of the workspace.
pub struct Planned {
    pub kind: AssetKind,
    pub source: Seq<char>,
    pub target: Seq<char>,
}

impl AssetWrite {
    /// The step as plain values.
    pub open spec fn planned(&self) -> Planned {
        Planned { kind: self.kind, source: self.source@, target: self.target@ }
    }
}

/// A list of steps as plain values.
pub open spec fn writes(plan: Seq<AssetWrite>) -> Seq<Planned> {
    plan.map_values(|w: AssetWrite| w.planned())
}

/// The step that puts the bundle's `source` into `workspace`.
pub open spec fn placed(kind: AssetKind, source: Seq<char>, workspace: Seq<char>) -> Planned {
    Planned { kind, source, target: joined_path(workspace, source) }
}

/// The steps for the files of a directory, in their order.
pub open spec fn file_writes(files: Seq<Seq<char>>, workspace: Seq<char>) -> Seq<Planned> {
    files.map_values(|source: Seq<char>| placed(AssetKind::File, source, workspace))
}

/// The steps that unpack `dir`'s contents: first its files in their order,
/// then each of its directories in their order, each created and at once
/// filled in the same way.
pub open spec fn dir_writes(dir: AssetDir, workspace: Seq<char>) -> Seq<Planned>
    decreases dir, dir.dirs@.len() + 1,
{
    file_writes(texts(dir.files@), workspace) + subdir_writes(dir, dir.dirs@.len(), workspace)
}

/// The steps for the first `upto` directories of `dir`.
pub open spec fn subdir_writes(dir: AssetDir, upto: nat, workspace: Seq<char>) -> Seq<Planned>
    decreases dir, upto,
{
    if upto == 0 || upto > dir.dirs@.len() {
        Seq::empty()
    } else {
        let sub = dir.dirs[upto - 1];
        subdir_writes(dir, (upto - 1) as nat, workspace).push(
            placed(AssetKind::Directory, sub.path@, workspace),
        ) + dir_writes(sub, workspace)
    }
}

/// Whether two plans create the same things from the same paths of the
/// bundle, step by step.
pub open spec fn same_entries(first: Seq<Planned>, second: Seq<Planned>) -> bool {
    &&& first.len() == second.len()
    &&& forall|i: int|
        0 <= i < first.len() ==> (#[trigger] first[i]).kind == second[i].kind && first[i].source
            == second[i].source
}

/// Whether every step of `plan` puts its path of the bundle at the same
/// path under `workspace`.
pub open spec fn placed_in(plan: Seq<Planned>, workspace: Seq<char>) -> bool {
    forall|i: int|
        0 <= i < plan.len() ==> (#[trigger] plan[i]).target == joined_path(
            workspace,
            plan[i].source,
        )
}

/// Appends the steps that unpack `dir` to `plan`.
fn push_dir_writes(dir: &AssetDir, workspace: &str, plan: &mut Vec<AssetWrite>)
    ensures
        writes(final(plan)@) == writes(old(plan)@) + dir_writes(*dir, workspace@),
    decreases dir,
{
    let ghost before = writes(plan@);
    let file_count = dir.files.len();
    let mut i: usize = 0;
    proof {
        assert(writes(plan@) =~= before + file_writes(
            texts(dir.files@).take(0),
            workspace@,
        ));
    }
    while i < file_count
        invariant
            file_count == dir.files.len(),
            i <= file_count,
            writes(plan@) == before + file_writes(texts(dir.files@).take(i as int), workspace@),
        decreases file_count - i,
    {
        let source = dir.files[i].clone();
        let target = join_path(workspace, source.as_str());
        let write = AssetWrite { kind: AssetKind::File, source, target };
        proof {
            assert(writes(plan@.push(write)) =~= writes(plan@).push(write.planned()));
            assert(file_writes(texts(dir.files@).take(i + 1), workspace@) =~= file_writes(
                texts(dir.files@).take(i as int),
                workspace@,
            ).push(write.planned()));
            assert(writes(plan@.push(write)) =~= before + file_writes(
                texts(dir.files@).take(i + 1),
                workspace@,
            ));
        }
        plan.push(write);
        i += 1;
    }
    proof {
        assert(texts(dir.files@).take(file_count as int) =~= texts(dir.files@));
    }
    let ghost filed = before + file_writes(texts(dir.files@), workspace@);
    let dir_count = dir.dirs.len();
    let mut j: usize = 0;
    proof {
        assert(writes(plan@) =~= filed + subdir_writes(*dir, 0, workspace@));
    }
    while j < dir_count
        invariant
            dir_count == dir.dirs.len(),
            j <= dir_count,
            writes(plan@) == filed + subdir_writes(*dir, j as nat, workspace@),
        decreases dir_count - j,
    {
        let sub = &dir.dirs[j];
        let source = sub.path.clone();
        let target = join_path(workspace, source.as_str());
        let write = AssetWrite { kind: AssetKind::Directory, source, target };
        let ghost entered = writes(plan@).push(write.planned());
        proof {
            assert(writes(plan@.push(write)) =~= entered);
        }
        plan.push(write);
        push_dir_writes(sub, workspace, plan);
        proof {
            assert(dir.dirs@[j as int] == *sub);
            assert(writes(plan@) =~= filed + subdir_writes(*dir, (j + 1) as nat, workspace@));
        }
        j += 1;
    }
}

/// Plans the unpacking of `bundle` into `workspace`.
pub fn materialization_plan(bundle: &AssetDir, workspace: &str) -> (plan: Vec<AssetWrite>)
    ensures
        writes(plan@) == dir_writes(*bundle, workspace@),
{
    let mut plan: Vec<AssetWrite> = Vec::new();
    proof {
        assert(writes(plan@) =~= Seq::<Planned>::empty());
    }
    push_dir_writes(bundle, workspace, &mut plan);
    proof {
        assert(writes(plan@) =~= dir_writes(*bundle, workspace@));
    }
    plan
}

/// The first `upto` directories of `dir` unpack alike into any two
/// workspaces, each step at its own path under the workspace.
proof fn lemma_subdir_writes_alike(dir: AssetDir, upto: nat, first: Seq<char>, second: Seq<char>)
    ensures
        same_entries(subdir_writes(dir, upto, first), subdir_writes(dir, upto, second)),
        placed_in(subdir_writes(dir, upto, first), first),
    decreases dir, upto,
{
    if upto == 0 || upto > dir.dirs@.len() {
    } else {
        let sub = dir.dirs[upto - 1];
        lemma_subdir_writes_alike(dir, (upto - 1) as nat, first, second);
        law_unpacking_is_alike_everywhere(sub, first, second);
    }
}

/// Unpacking one bundle into two workspaces creates the same files and
/// directories from the same paths of the bundle, in the same order, each at
/// its own relative path under its workspace.
pub proof fn law_unpacking_is_alike_everywhere(
    bundle: AssetDir,
    first: Seq<char>,
    second: Seq<char>,
)
    ensures
        same_entries(dir_writes(bundle, first), dir_writes(bundle, second)),
        placed_in(dir_writes(bundle, first), first),
    decreases bundle, bundle.dirs@.len() + 1,
{
    lemma_subdir_writes_alike(bundle, bundle.dirs@.len(), first, second);
}

} // verus!
