//! The two resolved-option records and the effect of each command-line flag
//! on them.
//!
//! A `DisplayOptions` value picks the render style (grid by default, one
//! entry per line, or a long metadata table) together with the inert
//! `recurse` flag; a `FilteringOptions` value says which entries survive.
//! Flags are applied one at a time, left to right; each setting clears the
//! flags that conflict with it, and the short forms of the only-dirs /
//! only-files flags additionally clear `all`, while the long forms leave it
//! alone.

use vstd::prelude::*;

verus! {

/// Resolved render style: which layout is in force, plus the `recurse` flag
/// (parsed and stored, but no recursive descent is implemented).
#[derive(Clone, Copy, Debug, PartialEq, Eq, Structural)]
pub struct DisplayOptions {
    pub oneline: bool,
    pub grid: bool,
    pub long: bool,
    pub recurse: bool,
}

/// Resolved filter policy: whether dotfiles are shown, whether directory
/// arguments are listed as plain entries, and whether the listing is
/// narrowed to directories only or files only.
#[derive(Clone, Copy, Debug, PartialEq, Eq, Structural)]
pub struct FilteringOptions {
    pub all: bool,
    pub list_dirs: bool,
    pub only_dirs: bool,
    pub only_files: bool,
}

/// One recognized option, shared between its long form and its short form.
#[derive(Clone, Copy, Debug, PartialEq, Eq, Structural)]
pub enum Flag {
    Oneline,
    Long,
    Grid,
    Recurse,
    All,
    ListDirs,
    OnlyDirs,
    OnlyFiles,
}

/// The render style a `DisplayOptions` value actually selects: `long` wins
/// over `oneline`, which wins over `grid`; `Plain` is the state where none
/// of the three is set (reachable because `recurse` clears `grid`).
#[derive(Clone, Copy, Debug, PartialEq, Eq, Structural)]
pub enum RenderStyle {
    Long,
    OneLine,
    Grid,
    Plain,
}

impl DisplayOptions {
    /// The state at process start: grid layout, nothing else set.
    pub open spec fn spec_default() -> DisplayOptions {
        DisplayOptions { oneline: false, grid: true, long: false, recurse: false }
    }

    pub open spec fn style(self) -> RenderStyle {
        if self.long {
            RenderStyle::Long
        } else if self.oneline {
            RenderStyle::OneLine
        } else if self.grid {
            RenderStyle::Grid
        } else {
            RenderStyle::Plain
        }
    }
}

impl Default for DisplayOptions {
    fn default() -> (d: DisplayOptions)
        ensures
            d == DisplayOptions::spec_default(),
    {
        DisplayOptions { oneline: false, grid: true, long: false, recurse: false }
    }
}

impl FilteringOptions {
    /// The state at process start: every filter off.
    pub open spec fn spec_default() -> FilteringOptions {
        FilteringOptions { all: false, list_dirs: false, only_dirs: false, only_files: false }
    }

    /// The invariant the filter flags keep: a listing is never narrowed to
    /// directories only and files only at the same time.
    pub open spec fn only_flags_exclusive(self) -> bool {
        !(self.only_dirs && self.only_files)
    }
}

impl Default for FilteringOptions {
    fn default() -> (f: FilteringOptions)
        ensures
            f == FilteringOptions::spec_default(),
    {
        FilteringOptions { all: false, list_dirs: false, only_dirs: false, only_files: false }
    }
}

/// The effect of one flag on the resolved options. `short` tells whether the
/// flag came from a short-option cluster: the short forms of the only-flags
/// also clear `all`, the long forms do not.
pub open spec fn spec_apply_flag(
    fl: Flag,
    short: bool,
    d: DisplayOptions,
    f: FilteringOptions,
) -> (DisplayOptions, FilteringOptions) {
    match fl {
        Flag::Oneline => (DisplayOptions { oneline: true, grid: false, ..d }, f),
        Flag::Long => (DisplayOptions { long: true, oneline: true, grid: false, ..d }, f),
        Flag::Grid => (DisplayOptions { grid: true, long: false, oneline: false, ..d }, f),
        Flag::Recurse => (DisplayOptions { recurse: true, grid: false, ..d }, f),
        Flag::All => (d, FilteringOptions { all: true, ..f }),
        Flag::ListDirs => (d, FilteringOptions { list_dirs: true, ..f }),
        Flag::OnlyDirs => (
            d,
            FilteringOptions {
                only_dirs: true,
                only_files: false,
                all: if short {
                    false
                } else {
                    f.all
                },
                ..f
            },
        ),
        Flag::OnlyFiles => (
            d,
            FilteringOptions {
                only_files: true,
                only_dirs: false,
                all: if short {
                    false
                } else {
                    f.all
                },
                ..f
            },
        ),
    }
}

/// Apply one recognized flag to the running option state.
pub fn apply_flag(fl: Flag, short: bool, d: &mut DisplayOptions, f: &mut FilteringOptions)
    ensures
        (*final(d), *final(f)) == spec_apply_flag(fl, short, *old(d), *old(f)),
{
    match fl {
        Flag::Oneline => {
            d.oneline = true;
            d.grid = false;
        },
        Flag::Long => {
            d.long = true;
            d.oneline = true;
            d.grid = false;
        },
        Flag::Grid => {
            d.grid = true;
            d.long = false;
            d.oneline = false;
        },
        Flag::Recurse => {
            d.recurse = true;
            d.grid = false;
        },
        Flag::All => {
            f.all = true;
        },
        Flag::ListDirs => {
            f.list_dirs = true;
        },
        Flag::OnlyDirs => {
            f.only_dirs = true;
            f.only_files = false;
            if short {
                f.all = false;
            }
        },
        Flag::OnlyFiles => {
            f.only_files = true;
            f.only_dirs = false;
            if short {
                f.all = false;
            }
        },
    }
}

/// The last-applied style flag wins: whatever the state was before, applying
/// one of the three style flags leaves exactly that style selected.
pub proof fn lemma_last_style_flag_wins(
    fl: Flag,
    short: bool,
    d: DisplayOptions,
    f: FilteringOptions,
)
    ensures
        fl == Flag::Long ==> spec_apply_flag(fl, short, d, f).0.style() == RenderStyle::Long,
        fl == Flag::Oneline ==> spec_apply_flag(fl, short, d, f).0.style() != RenderStyle::Grid
            && spec_apply_flag(fl, short, d, f).0.style() != RenderStyle::Plain,
        fl == Flag::Oneline && !d.long ==> spec_apply_flag(fl, short, d, f).0.style()
            == RenderStyle::OneLine,
        fl == Flag::Grid ==> spec_apply_flag(fl, short, d, f).0.style() == RenderStyle::Grid,
{
}

/// The long forms of the only-flags leave `all` as it was; the short forms
/// clear it.
pub proof fn lemma_only_flag_all_interaction(fl: Flag, d: DisplayOptions, f: FilteringOptions)
    requires
        fl == Flag::OnlyDirs || fl == Flag::OnlyFiles,
    ensures
        spec_apply_flag(fl, false, d, f).1.all == f.all,
        !spec_apply_flag(fl, true, d, f).1.all,
{
}

/// No flag can make the listing both directories-only and files-only:
/// setting either only-flag clears the other.
pub proof fn lemma_only_flags_stay_exclusive(
    fl: Flag,
    short: bool,
    d: DisplayOptions,
    f: FilteringOptions,
)
    requires
        f.only_flags_exclusive(),
    ensures
        spec_apply_flag(fl, short, d, f).1.only_flags_exclusive(),
{
}

} // verus!
