//! Link application and teardown.
//!
//! A link specification carries a raw source, a raw target and a mode.
//! Setup resolves both paths — the source against the dotfiles repository,
//! the target against no parent, since a relative target has nothing to be
//! anchored to — and then materializes the link as a symbolic link, a hard
//! link, or a recursive copy.  Teardown resolves the target and removes
//! whatever is there, checking for a symbolic link before anything else so
//! that a link into the repository is never followed and recursed into.
//! The filesystem itself is only observed and acted on by the caller; the
//! decisions are made here.

use vstd::prelude::*;
use crate::appconf::LinkResolutionError;
use crate::appconf::ResolveWithHomeDirectory;
use crate::appconf::join_paths;
use crate::appconf::resolve_path_with;
use crate::appconf::resolve_result_view;
use crate::appconf::spec_is_absolute;
use crate::appconf::spec_join;
use crate::appconf::spec_needs_home;
use crate::appconf::spec_resolve;

verus! {

/// How a link is materialized on disk.
#[derive(Debug, Clone, Copy, PartialEq, Eq, Structural)]
pub enum LinkMode {
    /// A symbolic link at the target pointing to the source.
    Soft,
    /// A hard link at the target to the source's inode.
    Hard,
    /// A recursive copy of the source into the target.
    Copy,
}

/// A source/target path pair, raw as authored, with its link mode.
#[derive(Debug)]
pub struct LinkSpec {
    source: String,
    target: String,
    mode: LinkMode,
}

/// Why applying a link failed.
#[derive(Debug, Clone, Copy, PartialEq, Eq, Structural)]
pub enum LinkError {
    /// The resolved source path does not exist on disk.
    SourceNotFound,
    /// The platform refused to create the link artifact.
    CreationFailed,
    /// An entry failed to copy; the copy was aborted, and a partially
    /// copied tree may remain on disk.
    PartialCopy,
}

/// Why tearing a link down failed.
#[derive(Debug, Clone, Copy, PartialEq, Eq, Structural)]
pub enum TeardownError {
    /// Nothing exists at the resolved target path.
    TargetNotFound,
    /// The platform refused to remove the artifact.
    RemovalFailed,
}

/// The link mode a name stands for: the mode's own name, capitalized or
/// not; anything else names no mode.
pub open spec fn spec_mode_of_name(s: Seq<char>) -> Option<LinkMode> {
    if s == "Soft"@ || s == "soft"@ {
        Some(LinkMode::Soft)
    } else if s == "Hard"@ || s == "hard"@ {
        Some(LinkMode::Hard)
    } else if s == "Copy"@ || s == "copy"@ {
        Some(LinkMode::Copy)
    } else {
        None
    }
}

impl LinkMode {
    /// The mode the given name stands for, exactly as `spec_mode_of_name`
    /// says.
    pub fn from_name(s: &str) -> (r: Option<LinkMode>)
        ensures
            r == spec_mode_of_name(s@),
    {
        if crate::appconf::str_eq(s, "Soft") || crate::appconf::str_eq(s, "soft") {
            Some(LinkMode::Soft)
        } else if crate::appconf::str_eq(s, "Hard") || crate::appconf::str_eq(s, "hard") {
            Some(LinkMode::Hard)
        } else if crate::appconf::str_eq(s, "Copy") || crate::appconf::str_eq(s, "copy") {
            Some(LinkMode::Copy)
        } else {
            None
        }
    }
}

impl LinkSpec {
    /// The raw source path, as authored.
    pub closed spec fn spec_source(&self) -> Seq<char> {
        self.source@
    }

    /// The raw target path, as authored.
    pub closed spec fn spec_target(&self) -> Seq<char> {
        self.target@
    }

    /// The link mode.
    pub closed spec fn spec_mode(&self) -> LinkMode {
        self.mode
    }

    pub fn new(src: &str, dest: &str, mode: LinkMode) -> (r: Self)
        ensures
            r.spec_source() == src@,
            r.spec_target() == dest@,
            r.spec_mode() == mode,
    {
        LinkSpec { source: src.to_owned(), target: dest.to_owned(), mode }
    }

    pub fn source(&self) -> (r: &String)
        ensures
            r@ == self.spec_source(),
    {
        &self.source
    }

    pub fn target(&self) -> (r: &String)
        ensures
            r@ == self.spec_target(),
    {
        &self.target
    }

    pub fn mode(&self) -> (r: &LinkMode)
        ensures
            *r == self.spec_mode(),
    {
        &self.mode
    }
}

/// Both paths setup needs, resolved to absolute ones, with the mode.
#[derive(Debug)]
pub struct SetupPlan {
    source: String,
    target: String,
    mode: LinkMode,
}

impl SetupPlan {
    /// The resolved absolute source path.
    pub closed spec fn spec_source(&self) -> Seq<char> {
        self.source@
    }

    /// The resolved absolute target path.
    pub closed spec fn spec_target(&self) -> Seq<char> {
        self.target@
    }

    /// The link mode carried over from the specification.
    pub closed spec fn spec_mode(&self) -> LinkMode {
        self.mode
    }

    pub fn source(&self) -> (r: &String)
        ensures
            r@ == self.spec_source(),
    {
        &self.source
    }

    pub fn target(&self) -> (r: &String)
        ensures
            r@ == self.spec_target(),
    {
        &self.target
    }

    pub fn mode(&self) -> (r: &LinkMode)
        ensures
            *r == self.spec_mode(),
    {
        &self.mode
    }
}

/// What resolving both of a link's paths owes: the source resolved against
/// the repository root, the target against no parent; the first resolution
/// error is the result, and a relative target is always such an error.
pub open spec fn spec_setup_paths(
    src: Seq<char>,
    tgt: Seq<char>,
    repo: Seq<char>,
    home: Option<Seq<char>>,
) -> Result<(Seq<char>, Seq<char>), LinkResolutionError> {
    match spec_resolve(src, Some(repo), home) {
        Err(e) => Err(e),
        Ok(s) => match spec_resolve(tgt, None, home) {
            Err(e) => Err(e),
            Ok(t) => Ok((s, t)),
        },
    }
}

/// The resolved pair as a mathematical value, with the error kept as it
/// is.
pub open spec fn setup_paths_result_view(r: Result<SetupPlan, LinkResolutionError>) -> Result<
    (Seq<char>, Seq<char>),
    LinkResolutionError,
> {
    match r {
        Ok(p) => Ok((p.spec_source(), p.spec_target())),
        Err(e) => Err(e),
    }
}

/// Resolves a link's source and target for setup, against a given
/// home-directory resolver, exactly as `spec_setup_paths` says.
pub fn setup_link_paths_with(
    link_info: &LinkSpec,
    link_repo: &str,
    home: &ResolveWithHomeDirectory,
) -> (r: Result<SetupPlan, LinkResolutionError>)
    ensures
        setup_paths_result_view(r) == spec_setup_paths(
            link_info.spec_source(),
            link_info.spec_target(),
            link_repo@,
            home.spec_home(),
        ),
        r matches Ok(p) ==> p.spec_mode() == link_info.spec_mode(),
        home.wf() ==> (r matches Ok(p) ==> spec_is_absolute(p.spec_source()) && spec_is_absolute(
            p.spec_target(),
        )),
{
    match resolve_path_with(self_source(link_info), Some(link_repo), home) {
        Err(e) => Err(e),
        Ok(true_source) => match resolve_path_with(self_target(link_info), None, home) {
            Err(e) => Err(e),
            Ok(true_target) => Ok(
                SetupPlan {
                    source: true_source,
                    target: true_target,
                    mode: link_info.mode,
                },
            ),
        },
    }
}

/// The raw source as a string slice.
fn self_source(link_info: &LinkSpec) -> (r: &str)
    ensures
        r@ == link_info.spec_source(),
{
    link_info.source.as_str()
}

/// The raw target as a string slice.
fn self_target(link_info: &LinkSpec) -> (r: &str)
    ensures
        r@ == link_info.spec_target(),
{
    link_info.target.as_str()
}

/// Resolves a link's source and target for setup against the host's home
/// directory.  On a link whose resolution never consults the home
/// directory, the result is pinned; on the others it is `spec_setup_paths`
/// for whatever absolute home directory the host reported, or for none.
pub fn setup_link_paths(link_info: &LinkSpec, link_repo: &str) -> (r: Result<
    SetupPlan,
    LinkResolutionError,
>)
    ensures
        exists|h: Option<Seq<char>>|
            {
                &&& (h matches Some(hh) ==> spec_is_absolute(hh))
                &&& #[trigger] spec_setup_paths(
                    link_info.spec_source(),
                    link_info.spec_target(),
                    link_repo@,
                    h,
                ) == setup_paths_result_view(r)
            },
        r matches Ok(p) ==> p.spec_mode() == link_info.spec_mode(),
        !spec_needs_home(link_info.spec_source(), Some(link_repo@)) && !spec_needs_home(
            link_info.spec_target(),
            None,
        ) ==> setup_paths_result_view(r) == spec_setup_paths(
            link_info.spec_source(),
            link_info.spec_target(),
            link_repo@,
            None,
        ),
        r matches Ok(p) ==> spec_is_absolute(p.spec_source()) && spec_is_absolute(p.spec_target()),
{
    let home = ResolveWithHomeDirectory::new();
    let r = setup_link_paths_with(link_info, link_repo, &home);
    proof {
        let h = home.spec_home();
        if !spec_needs_home(link_info.spec_source(), Some(link_repo@)) && !spec_needs_home(
            link_info.spec_target(),
            None,
        ) {
            crate::appconf::lemma_resolve_without_home(
                link_info.spec_source(),
                Some(link_repo@),
                h,
            );
            crate::appconf::lemma_resolve_without_home(link_info.spec_target(), None, h);
        }
    }
    r
}

/// Resolves a link's target for teardown against the host's home
/// directory: absolute and `~/`-prefixed targets resolve, a relative
/// target never does.
pub fn teardown_link_target(link_info: &LinkSpec) -> (r: Result<String, LinkResolutionError>)
    ensures
        exists|h: Option<Seq<char>>|
            {
                &&& (h matches Some(hh) ==> spec_is_absolute(hh))
                &&& resolve_result_view(r) == spec_resolve(link_info.spec_target(), None, h)
            },
        !spec_needs_home(link_info.spec_target(), None) ==> resolve_result_view(r) == spec_resolve(
            link_info.spec_target(),
            None,
            None,
        ),
        r matches Ok(s) ==> spec_is_absolute(s@),
{
    let home = ResolveWithHomeDirectory::new();
    let r = resolve_path_with(self_target(link_info), None, &home);
    proof {
        let h = home.spec_home();
        assert(resolve_result_view(r) == spec_resolve(link_info.spec_target(), None, h));
        if !spec_needs_home(link_info.spec_target(), None) {
            crate::appconf::lemma_resolve_without_home(link_info.spec_target(), None, h);
        }
    }
    r
}

/// The filesystem action that materializes a link.
#[derive(Debug, Clone, Copy, PartialEq, Eq, Structural)]
pub enum LinkAction {
    /// Create a symbolic link at the target pointing to the source.
    MakeSoftLink,
    /// Create a hard link at the target to the source's inode.
    MakeHardLink,
    /// Recursively copy the source into the target.
    CopyRecursively,
}

/// The action a link mode calls for.
pub open spec fn spec_action_for(mode: LinkMode) -> LinkAction {
    match mode {
        LinkMode::Soft => LinkAction::MakeSoftLink,
        LinkMode::Hard => LinkAction::MakeHardLink,
        LinkMode::Copy => LinkAction::CopyRecursively,
    }
}

/// What setup owes once the source's existence has been observed: a
/// missing source fails before any mode-specific action is attempted, and
/// an existing one gets exactly its mode's action.
pub open spec fn spec_setup_action(mode: LinkMode, source_exists: bool) -> Result<
    LinkAction,
    LinkError,
> {
    if !source_exists {
        Err(LinkError::SourceNotFound)
    } else {
        Ok(spec_action_for(mode))
    }
}

/// Decides the setup action, exactly as `spec_setup_action` says.
pub fn setup_action(mode: &LinkMode, source_exists: bool) -> (r: Result<LinkAction, LinkError>)
    ensures
        r == spec_setup_action(*mode, source_exists),
{
    if !source_exists {
        return Err(LinkError::SourceNotFound);
    }
    match mode {
        LinkMode::Soft => Ok(LinkAction::MakeSoftLink),
        LinkMode::Hard => Ok(LinkAction::MakeHardLink),
        LinkMode::Copy => Ok(LinkAction::CopyRecursively),
    }
}

/// The filesystem action that removes whatever stands at a target.
#[derive(Debug, Clone, Copy, PartialEq, Eq, Structural)]
pub enum TeardownAction {
    /// Remove the link entry itself, never its referent.
    RemoveLinkOnly,
    /// Remove the directory and its entire contents.
    RemoveTree,
    /// Remove the single file.
    RemoveFile,
}

/// What teardown owes for what was observed at the resolved target.  The
/// symbolic-link check comes first: a symlink is removed as a link entry
/// whatever it points to, so that removal never follows it into the
/// repository; only a real directory is removed recursively.
pub open spec fn spec_teardown_action(exists: bool, is_symlink: bool, is_dir: bool) -> Result<
    TeardownAction,
    TeardownError,
> {
    if !exists {
        Err(TeardownError::TargetNotFound)
    } else if is_symlink {
        Ok(TeardownAction::RemoveLinkOnly)
    } else if is_dir {
        Ok(TeardownAction::RemoveTree)
    } else {
        Ok(TeardownAction::RemoveFile)
    }
}

/// Decides the teardown action, exactly as `spec_teardown_action` says.
pub fn teardown_action(exists: bool, is_symlink: bool, is_dir: bool) -> (r: Result<
    TeardownAction,
    TeardownError,
>)
    ensures
        r == spec_teardown_action(exists, is_symlink, is_dir),
{
    if !exists {
        Err(TeardownError::TargetNotFound)
    } else if is_symlink {
        Ok(TeardownAction::RemoveLinkOnly)
    } else if is_dir {
        Ok(TeardownAction::RemoveTree)
    } else {
        Ok(TeardownAction::RemoveFile)
    }
}

/// Tearing down a symbolic link removes only the link entry, even when the
/// link points at a directory: the referent is never removed recursively.
pub proof fn lemma_teardown_never_follows_symlink(is_dir: bool)
    ensures
        spec_teardown_action(true, true, is_dir) == Ok::<TeardownAction, TeardownError>(
            TeardownAction::RemoveLinkOnly,
        ),
{
}

/// One step of the recursive copy.
#[derive(Debug, Clone, Copy, PartialEq, Eq, Structural)]
pub enum CopyStep {
    /// The source is a single file: copy its bytes to the target.
    CopyFileBytes,
    /// The source is a directory: create the target directory when it is
    /// absent, then copy each entry to its own name joined onto the
    /// target.
    EnterDirectory { create_target: bool },
}

/// The copy step the observed source and target call for.
pub open spec fn spec_copy_step(source_is_file: bool, target_exists: bool) -> CopyStep {
    if source_is_file {
        CopyStep::CopyFileBytes
    } else {
        CopyStep::EnterDirectory { create_target: !target_exists }
    }
}

/// Decides one step of the recursive copy, exactly as `spec_copy_step`
/// says.
pub fn copy_step(source_is_file: bool, target_exists: bool) -> (r: CopyStep)
    ensures
        r == spec_copy_step(source_is_file, target_exists),
{
    if source_is_file {
        CopyStep::CopyFileBytes
    } else {
        CopyStep::EnterDirectory { create_target: !target_exists }
    }
}

/// The destination a directory entry copies to: the entry's name joined
/// onto the target directory, mirroring the source tree's structure.
pub fn copy_entry_destination(target: &str, entry_name: &str) -> (r: String)
    ensures
        r@ == spec_join(target@, entry_name@),
{
    join_paths(target, entry_name)
}

/// The source/destination pairs a recursive copy visits, for files at the
/// given paths relative to the two roots: every file keeps its relative
/// place under the destination root.
pub fn copy_pairs(source_root: &str, target_root: &str, entries: &Vec<String>) -> (r: Vec<
    (String, String),
>)
    ensures
        r@.len() == entries@.len(),
        forall|k: int|
            0 <= k < entries@.len() ==> (#[trigger] r@[k]).0@ == spec_join(
                source_root@,
                entries@[k]@,
            ) && r@[k].1@ == spec_join(target_root@, entries@[k]@),
{
    let mut r: Vec<(String, String)> = Vec::new();
    let n = entries.len();
    let mut i: usize = 0;
    while i < n
        invariant
            i <= n,
            n == entries@.len(),
            r@.len() == i,
            forall|k: int|
                0 <= k < i ==> (#[trigger] r@[k]).0@ == spec_join(source_root@, entries@[k]@)
                    && r@[k].1@ == spec_join(target_root@, entries@[k]@),
        decreases n - i,
    {
        let from = join_paths(source_root, entries[i].as_str());
        let to = join_paths(target_root, entries[i].as_str());
        r.push((from, to));
        i += 1;
    }
    r
}

/// Copying keeps the tree's shape: under one destination root, two
/// relative paths land on the same destination only if they are the same
/// path, so distinct files of the source tree never collide.
pub proof fn lemma_copy_destinations_distinct(root: Seq<char>, rel1: Seq<char>, rel2: Seq<char>)
    ensures
        spec_join(root, rel1) == spec_join(root, rel2) ==> rel1 == rel2,
{
    let j1 = spec_join(root, rel1);
    let j2 = spec_join(root, rel2);
    if j1 == j2 {
        if root.len() == 0 {
        } else if root[root.len() - 1] == '/' {
            assert(rel1 =~= j1.subrange(root.len() as int, j1.len() as int));
            assert(rel2 =~= j2.subrange(root.len() as int, j2.len() as int));
        } else {
            assert(rel1 =~= j1.subrange(root.len() as int + 1, j1.len() as int));
            assert(rel2 =~= j2.subrange(root.len() as int + 1, j2.len() as int));
        }
    }
}

} // verus!
