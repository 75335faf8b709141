//! One directory entry as the renderer sees it, and the per-entry
//! inclusion decision.
//!
//! An entry is a read-only record of what the filesystem reported: the
//! decoded name, the entry's kind, the nine permission bits, the byte size,
//! and — for a symbolic link that is to be rendered in long form — the
//! resolved link target. Whether an entry is shown depends only on its name
//! and kind and on the filter policy.

use crate::options::FilteringOptions;
use vstd::prelude::*;
use vstd::string::StrSliceExecFns;

verus! {

/// What kind of filesystem object an entry is.
#[derive(Clone, Copy, Debug, PartialEq, Eq, Structural)]
pub enum EntryKind {
    Directory,
    File,
    Symlink,
}

/// One entry of a listing, with everything the renderer reads.
#[derive(Debug)]
pub struct EntryInfo {
    pub name: String,
    pub kind: EntryKind,
    /// The nine permission bits (owner/group/other × read/write/execute).
    pub mode: u32,
    pub size: u64,
    /// The resolved target of a symbolic link, where one was looked up.
    pub link_target: Option<String>,
}

/// The mathematical image of an entry.
pub struct EntryView {
    pub name: Seq<char>,
    pub kind: EntryKind,
    pub mode: u32,
    pub size: u64,
    pub link_target: Option<Seq<char>>,
}

impl View for EntryInfo {
    type V = EntryView;

    open spec fn view(&self) -> EntryView {
        EntryView {
            name: self.name@,
            kind: self.kind,
            mode: self.mode,
            size: self.size,
            link_target: match self.link_target {
                Some(t) => Some(t@),
                None => None,
            },
        }
    }
}

pub open spec fn starts_with_dot(name: Seq<char>) -> bool {
    name.len() >= 1 && name[0] == '.'
}

/// The dotfile rule: an entry whose name starts with `.` is shown only
/// under `all`.
pub open spec fn dot_visible(name: Seq<char>, f: FilteringOptions) -> bool {
    f.all || !starts_with_dot(name)
}

/// Whether an entry survives the filter policy: `only_dirs` keeps only
/// directories and `only_files` only regular files, each still subject to
/// the dotfile rule; with neither set, that rule alone decides (symbolic
/// links pass through this default branch).
pub open spec fn spec_included(name: Seq<char>, kind: EntryKind, f: FilteringOptions) -> bool {
    if f.only_dirs {
        kind == EntryKind::Directory && dot_visible(name, f)
    } else if f.only_files {
        kind == EntryKind::File && dot_visible(name, f)
    } else {
        dot_visible(name, f)
    }
}

/// Decide whether one entry is shown.
pub fn included(name: &str, kind: EntryKind, f: &FilteringOptions) -> (r: bool)
    ensures
        r == spec_included(name@, kind, *f),
{
    let dotted = name.unicode_len() >= 1 && name.get_char(0) == '.';
    let visible = f.all || !dotted;
    if f.only_dirs {
        matches!(kind, EntryKind::Directory) && visible
    } else if f.only_files {
        matches!(kind, EntryKind::File) && visible
    } else {
        visible
    }
}

} // verus!
