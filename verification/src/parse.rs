//! Resolving the command-line: a single left-to-right scan over the
//! argument vector that recognizes long options, short-option clusters and
//! one trailing path argument, and either yields the resolved options or
//! stops at the first bad argument.
//!
//! The scan is specified by `scan_args`, a recursive walk over the argument
//! views; `parse_arguments` is proved to return exactly its outcome. The
//! error taxonomy covers the whole tool: the three scan errors here, and
//! the filesystem-side errors the surrounding process runs into, so that
//! every diagnostic line is produced by verified code.

use crate::entry::EntryKind;
use crate::options::DisplayOptions;
use crate::options::Flag;
use crate::options::FilteringOptions;
use crate::options::apply_flag;
use crate::options::spec_apply_flag;
use crate::text::push_char;
use crate::text::str_eq;
use vstd::prelude::*;
use vstd::string::StrSliceExecFns;
use vstd::string::StringExecFns;

verus! {

/// Everything that can go wrong, each variant terminal: the process prints
/// `message()` on the error stream and exits with status 1.
#[derive(Debug)]
pub enum CliError {
    /// An unrecognized long option, or one unrecognized character of a
    /// short-option cluster (held here as a one-character string).
    InvalidOption(String),
    /// A bare `-` with no option characters after it.
    MissingOption,
    /// A path argument in any position but the last.
    ArgumentParseError,
    /// A failed metadata or directory lookup for the path argument; the
    /// filesystem's own message, passed through verbatim.
    PathError(String),
    /// A failed metadata lookup for one directory entry, passed through
    /// verbatim.
    MetadataError(String),
    /// A directory entry whose name does not decode to text; holds the
    /// lossy rendering of the name.
    InvalidName(String),
}

/// The hint every option diagnostic ends with.
pub open spec fn spec_help_hint() -> Seq<char> {
    "For help, try running 'minils --help'"@
}

/// The diagnostic line for each error.
pub open spec fn spec_message(e: CliError) -> Seq<char> {
    match e {
        CliError::InvalidOption(s) => s@ + ": Invalid option. "@ + spec_help_hint(),
        CliError::MissingOption => "Option not specified. "@ + spec_help_hint(),
        CliError::ArgumentParseError => "Error parsing option. "@ + spec_help_hint(),
        CliError::PathError(m) => m@,
        CliError::MetadataError(m) => m@,
        CliError::InvalidName(n) => "Invalid Unicode in name "@ + n@,
    }
}

impl CliError {
    /// The one-line diagnostic for this error.
    pub fn message(&self) -> (r: String)
        ensures
            r@ == spec_message(*self),
    {
        let mut out = String::new();
        match self {
            CliError::InvalidOption(s) => {
                out.append(s.as_str());
                out.append(": Invalid option. ");
                out.append("For help, try running 'minils --help'");
            },
            CliError::MissingOption => {
                out.append("Option not specified. ");
                out.append("For help, try running 'minils --help'");
            },
            CliError::ArgumentParseError => {
                out.append("Error parsing option. ");
                out.append("For help, try running 'minils --help'");
            },
            CliError::PathError(m) => {
                out.append(m.as_str());
            },
            CliError::MetadataError(m) => {
                out.append(m.as_str());
            },
            CliError::InvalidName(n) => {
                out.append("Invalid Unicode in name ");
                out.append(n.as_str());
            },
        }
        proof {
            assert(out@ =~= spec_message(*self));
        }
        out
    }
}

/// Every option error's diagnostic ends with the help hint.
pub proof fn lemma_option_error_message_ends_with_hint(e: CliError)
    requires
        e is InvalidOption || e is MissingOption || e is ArgumentParseError,
    ensures
        spec_message(e).len() >= spec_help_hint().len(),
        spec_message(e).subrange(
            spec_message(e).len() - spec_help_hint().len(),
            spec_message(e).len() as int,
        ) == spec_help_hint(),
{
    let m = spec_message(e);
    let h = spec_help_hint();
    assert(m.subrange(m.len() - h.len(), m.len() as int) =~= h);
}

/// The flag a long option stands for, if it is recognized.
pub open spec fn long_flag_of(a: Seq<char>) -> Option<Flag> {
    if a == "--oneline"@ {
        Some(Flag::Oneline)
    } else if a == "--long"@ {
        Some(Flag::Long)
    } else if a == "--grid"@ {
        Some(Flag::Grid)
    } else if a == "--recurse"@ {
        Some(Flag::Recurse)
    } else if a == "--all"@ {
        Some(Flag::All)
    } else if a == "--list-dirs"@ {
        Some(Flag::ListDirs)
    } else if a == "--only-dirs"@ {
        Some(Flag::OnlyDirs)
    } else if a == "--only-files"@ {
        Some(Flag::OnlyFiles)
    } else {
        None
    }
}

/// The flag a short-option character stands for, if it is recognized.
pub open spec fn short_flag_of(c: char) -> Option<Flag> {
    if c == '1' {
        Some(Flag::Oneline)
    } else if c == 'l' {
        Some(Flag::Long)
    } else if c == 'G' {
        Some(Flag::Grid)
    } else if c == 'R' {
        Some(Flag::Recurse)
    } else if c == 'a' {
        Some(Flag::All)
    } else if c == 'd' {
        Some(Flag::ListDirs)
    } else if c == 'D' {
        Some(Flag::OnlyDirs)
    } else if c == 'f' {
        Some(Flag::OnlyFiles)
    } else {
        None
    }
}

fn long_flag(a: &str) -> (r: Option<Flag>)
    ensures
        r == long_flag_of(a@),
{
    if str_eq(a, "--oneline") {
        Some(Flag::Oneline)
    } else if str_eq(a, "--long") {
        Some(Flag::Long)
    } else if str_eq(a, "--grid") {
        Some(Flag::Grid)
    } else if str_eq(a, "--recurse") {
        Some(Flag::Recurse)
    } else if str_eq(a, "--all") {
        Some(Flag::All)
    } else if str_eq(a, "--list-dirs") {
        Some(Flag::ListDirs)
    } else if str_eq(a, "--only-dirs") {
        Some(Flag::OnlyDirs)
    } else if str_eq(a, "--only-files") {
        Some(Flag::OnlyFiles)
    } else {
        None
    }
}

fn short_flag(c: char) -> (r: Option<Flag>)
    ensures
        r == short_flag_of(c),
{
    match c {
        '1' => Some(Flag::Oneline),
        'l' => Some(Flag::Long),
        'G' => Some(Flag::Grid),
        'R' => Some(Flag::Recurse),
        'a' => Some(Flag::All),
        'd' => Some(Flag::ListDirs),
        'D' => Some(Flag::OnlyDirs),
        'f' => Some(Flag::OnlyFiles),
        _ => None,
    }
}

/// An argument that begins with two dashes: matched whole against the long
/// option table.
pub open spec fn is_long_opt(a: Seq<char>) -> bool {
    a.len() >= 2 && a[0] == '-' && a[1] == '-'
}

/// An argument that begins with one dash and is not a long option: each
/// later character is an independent short flag.
pub open spec fn is_short_opt(a: Seq<char>) -> bool {
    !is_long_opt(a) && a.len() >= 1 && a[0] == '-'
}

/// The short-option characters of `a` from position `j` on, applied in
/// order; stops at the first unrecognized character and reports it.
pub open spec fn scan_cluster(
    a: Seq<char>,
    j: int,
    d: DisplayOptions,
    f: FilteringOptions,
) -> Result<(DisplayOptions, FilteringOptions), char>
    decreases a.len() - j,
{
    if j >= a.len() {
        Ok((d, f))
    } else {
        match short_flag_of(a[j]) {
            Some(fl) => {
                let next = spec_apply_flag(fl, true, d, f);
                scan_cluster(a, j + 1, next.0, next.1)
            },
            None => Err(a[j]),
        }
    }
}

/// What one whole scan of the argument vector comes to.
pub enum ScanOutcome {
    /// The scan ran through: the resolved options, and the trailing path
    /// argument if one was given.
    Resolved { display: DisplayOptions, filtering: FilteringOptions, target: Option<Seq<char>> },
    /// An unrecognized option: the long option text, or the one bad
    /// character of a cluster.
    BadOption(Seq<char>),
    /// A bare `-`.
    BareDash,
    /// A path argument in any position but the last.
    MisplacedArg,
}

/// The left-to-right scan from position `i`: options mutate the running
/// state, a bare token is the target path if it stands last and an error
/// otherwise, and the first bad argument stops the scan.
pub open spec fn scan_args(
    args: Seq<Seq<char>>,
    i: int,
    d: DisplayOptions,
    f: FilteringOptions,
) -> ScanOutcome
    decreases args.len() - i,
{
    if i >= args.len() {
        ScanOutcome::Resolved { display: d, filtering: f, target: None }
    } else {
        let a = args[i];
        if is_long_opt(a) {
            match long_flag_of(a) {
                Some(fl) => {
                    let next = spec_apply_flag(fl, false, d, f);
                    scan_args(args, i + 1, next.0, next.1)
                },
                None => ScanOutcome::BadOption(a),
            }
        } else if is_short_opt(a) {
            if a.len() < 2 {
                ScanOutcome::BareDash
            } else {
                match scan_cluster(a, 1, d, f) {
                    Ok(next) => scan_args(args, i + 1, next.0, next.1),
                    Err(c) => ScanOutcome::BadOption(seq![c]),
                }
            }
        } else {
            if i == args.len() - 1 {
                ScanOutcome::Resolved { display: d, filtering: f, target: Some(a) }
            } else {
                ScanOutcome::MisplacedArg
            }
        }
    }
}

/// The character views of the argument strings.
pub open spec fn spec_arg_views(args: Seq<String>) -> Seq<Seq<char>> {
    args.map_values(|s: String| s@)
}

/// The resolved command: options, and the trailing path argument if one
/// was given (`None` means: enumerate the current directory).
pub struct ParsedCommand {
    pub display: DisplayOptions,
    pub filtering: FilteringOptions,
    pub target: Option<String>,
}

pub open spec fn spec_opt_view(t: Option<String>) -> Option<Seq<char>> {
    match t {
        Some(s) => Some(s@),
        None => None,
    }
}

/// How an executable parse result corresponds to a scan outcome.
pub open spec fn parse_result_matches(
    r: Result<ParsedCommand, CliError>,
    o: ScanOutcome,
) -> bool {
    match r {
        Ok(pc) => o == (ScanOutcome::Resolved {
            display: pc.display,
            filtering: pc.filtering,
            target: spec_opt_view(pc.target),
        }),
        Err(e) => match e {
            CliError::InvalidOption(s) => o == ScanOutcome::BadOption(s@),
            CliError::MissingOption => o == ScanOutcome::BareDash,
            CliError::ArgumentParseError => o == ScanOutcome::MisplacedArg,
            _ => false,
        },
    }
}

/// Scan the whole argument vector (argument 0 is the program name and is
/// skipped) from the fixed defaults, and return exactly what the scan
/// specification says: the resolved options with the optional trailing
/// path, or the first error.
pub fn parse_arguments(args: &Vec<String>) -> (r: Result<ParsedCommand, CliError>)
    requires
        args@.len() >= 1,
    ensures
        parse_result_matches(
            r,
            scan_args(
                spec_arg_views(args@),
                1,
                DisplayOptions::spec_default(),
                FilteringOptions::spec_default(),
            ),
        ),
{
    let ghost argv: Seq<Seq<char>> = spec_arg_views(args@);
    let mut d = DisplayOptions::default();
    let mut f = FilteringOptions::default();
    let n = args.len();
    let mut i: usize = 1;
    while i < n
        invariant
            1 <= i <= n,
            n == args@.len(),
            argv == spec_arg_views(args@),
            argv.len() == n,
            scan_args(argv, 1, DisplayOptions::spec_default(), FilteringOptions::spec_default())
                == scan_args(argv, i as int, d, f),
        decreases n - i,
    {
        let ghost d_top = d;
        let ghost f_top = f;
        let a: &String = &args[i];
        proof {
            assert(argv[i as int] == a@);
        }
        let alen = a.as_str().unicode_len();
        let dash = alen >= 1 && a.as_str().get_char(0) == '-';
        let ddash = alen >= 2 && a.as_str().get_char(0) == '-' && a.as_str().get_char(1) == '-';
        if ddash {
            match long_flag(a.as_str()) {
                Some(fl) => {
                    apply_flag(fl, false, &mut d, &mut f);
                },
                None => {
                    return Err(CliError::InvalidOption(a.clone()));
                },
            }
        } else if dash {
            if alen < 2 {
                return Err(CliError::MissingOption);
            }
            let mut j: usize = 1;
            while j < alen
                invariant
                    1 <= j <= alen,
                    alen == a@.len(),
                    1 <= i < n,
                    n == args@.len(),
                    argv == spec_arg_views(args@),
                    argv.len() == n,
                    argv[i as int] == a@,
                    is_short_opt(a@),
                    a@.len() >= 2,
                    scan_args(
                        argv,
                        1,
                        DisplayOptions::spec_default(),
                        FilteringOptions::spec_default(),
                    ) == scan_args(argv, i as int, d_top, f_top),
                    scan_cluster(a@, 1, d_top, f_top) == scan_cluster(a@, j as int, d, f),
                decreases alen - j,
            {
                let c = a.as_str().get_char(j);
                match short_flag(c) {
                    Some(fl) => {
                        apply_flag(fl, true, &mut d, &mut f);
                    },
                    None => {
                        let mut bad = String::new();
                        push_char(&mut bad, c);
                        proof {
                            assert(bad@ =~= seq![c]);
                            assert(scan_cluster(a@, j as int, d, f) == Err::<
                                (DisplayOptions, FilteringOptions),
                                char,
                            >(c));
                            assert(scan_args(argv, i as int, d_top, f_top)
                                == ScanOutcome::BadOption(seq![c]));
                        }
                        return Err(CliError::InvalidOption(bad));
                    },
                }
                j = j + 1;
            }
            proof {
                assert(scan_cluster(a@, alen as int, d, f) == Ok::<
                    (DisplayOptions, FilteringOptions),
                    char,
                >((d, f)));
                assert(scan_args(argv, i as int, d_top, f_top)
                    == scan_args(argv, i as int + 1, d, f));
            }
        } else {
            if i == n - 1 {
                return Ok(
                    ParsedCommand { display: d, filtering: f, target: Some(a.clone()) },
                );
            } else {
                return Err(CliError::ArgumentParseError);
            }
        }
        i = i + 1;
    }
    Ok(ParsedCommand { display: d, filtering: f, target: None })
}

/// What is to be done with a resolved target path.
#[derive(Clone, Copy, Debug, PartialEq, Eq, Structural)]
pub enum TargetAction {
    /// The target is a directory to enumerate and list.
    Enumerate,
    /// The target is rendered as one entry, and the process stops there:
    /// any non-directory, and a directory under `list_dirs`.
    RenderSingle,
}

/// How a target of the given kind is handled under the filter policy.
pub open spec fn spec_target_action(kind: EntryKind, f: FilteringOptions) -> TargetAction {
    if kind == EntryKind::Directory && !f.list_dirs {
        TargetAction::Enumerate
    } else {
        TargetAction::RenderSingle
    }
}

/// Decide whether a target path is enumerated or rendered as one entry: a
/// directory is enumerated unless `list_dirs` treats it as a leaf.
pub fn target_action(kind: EntryKind, f: &FilteringOptions) -> (r: TargetAction)
    ensures
        r == spec_target_action(kind, *f),
{
    if matches!(kind, EntryKind::Directory) && !f.list_dirs {
        TargetAction::Enumerate
    } else {
        TargetAction::RenderSingle
    }
}

/// The two meta requests that bypass the scan when they stand alone.
#[derive(Clone, Copy, Debug, PartialEq, Eq, Structural)]
pub enum MetaCommand {
    Help,
    Version,
}

/// A meta request is honored exactly when it is the sole argument.
pub open spec fn spec_meta_command(args: Seq<Seq<char>>) -> Option<MetaCommand> {
    if args.len() == 2 && (args[1] == "--help"@ || args[1] == "-?"@) {
        Some(MetaCommand::Help)
    } else if args.len() == 2 && (args[1] == "--version"@ || args[1] == "-v"@) {
        Some(MetaCommand::Version)
    } else {
        None
    }
}

/// Recognize `--help`/`-?` and `--version`/`-v`, only as the sole
/// argument; with anything else on the line they are left to the scan.
pub fn meta_command(args: &Vec<String>) -> (r: Option<MetaCommand>)
    ensures
        r == spec_meta_command(spec_arg_views(args@)),
{
    if args.len() == 2 {
        let a = &args[1];
        proof {
            assert(spec_arg_views(args@)[1] == a@);
        }
        if str_eq(a.as_str(), "--help") || str_eq(a.as_str(), "-?") {
            Some(MetaCommand::Help)
        } else if str_eq(a.as_str(), "--version") || str_eq(a.as_str(), "-v") {
            Some(MetaCommand::Version)
        } else {
            None
        }
    } else {
        None
    }
}

/// The usage text printed for `--help` and `-?`.
pub open spec fn spec_help_text() -> Seq<char> {
    "List directory contents.\nIgnore files and directories starting with a '.' by default\n\nUsage: minils [options] [path]\n\nMETA OPTIONS\n  -?, --help\n          show list of command-line options\n  -v, --version\n          show version of minils\n\nDisplay Options\n  -1, --oneline\n          display one entry per line\n  -l, --long\n          display extended file metadata as a table\n  -G, --grid\n          display entries as a grid (default)\n\n\nFiltering Options\n  -a, --all\n          show hidden and 'dot' files\n  -d, --list-dirs\n          list directories as files; don't list their contents\n  -D, --only-dirs\n          list only directories\n  -f, --only-files\n          list only files\n"@
}

pub fn help_text() -> (r: &'static str)
    ensures
        r@ == spec_help_text(),
{
    "List directory contents.\nIgnore files and directories starting with a '.' by default\n\nUsage: minils [options] [path]\n\nMETA OPTIONS\n  -?, --help\n          show list of command-line options\n  -v, --version\n          show version of minils\n\nDisplay Options\n  -1, --oneline\n          display one entry per line\n  -l, --long\n          display extended file metadata as a table\n  -G, --grid\n          display entries as a grid (default)\n\n\nFiltering Options\n  -a, --all\n          show hidden and 'dot' files\n  -d, --list-dirs\n          list directories as files; don't list their contents\n  -D, --only-dirs\n          list only directories\n  -f, --only-files\n          list only files\n"
}

/// An argument vector that holds an unrecognized long option anywhere the
/// scan can reach never resolves: the scan stops at some error first.
pub proof fn lemma_unknown_long_option_rejected(
    args: Seq<Seq<char>>,
    i: int,
    d: DisplayOptions,
    f: FilteringOptions,
    k: int,
)
    requires
        0 <= i <= k < args.len(),
        is_long_opt(args[k]),
        long_flag_of(args[k]) is None,
    ensures
        !(scan_args(args, i, d, f) is Resolved),
    decreases args.len() - i,
{
    let a = args[i];
    if is_long_opt(a) {
        match long_flag_of(a) {
            Some(fl) => {
                let next = spec_apply_flag(fl, false, d, f);
                lemma_unknown_long_option_rejected(args, i + 1, next.0, next.1, k);
            },
            None => {},
        }
    } else if is_short_opt(a) {
        if a.len() >= 2 {
            match scan_cluster(a, 1, d, f) {
                Ok(next) => {
                    lemma_unknown_long_option_rejected(args, i + 1, next.0, next.1, k);
                },
                Err(_) => {},
            }
        }
    } else {
    }
}

proof fn lemma_cluster_preserves_exclusive(
    a: Seq<char>,
    j: int,
    d: DisplayOptions,
    f: FilteringOptions,
)
    requires
        f.only_flags_exclusive(),
    ensures
        scan_cluster(a, j, d, f) matches Ok(next) ==> next.1.only_flags_exclusive(),
    decreases a.len() - j,
{
    if j < a.len() {
        match short_flag_of(a[j]) {
            Some(fl) => {
                let next = spec_apply_flag(fl, true, d, f);
                crate::options::lemma_only_flags_stay_exclusive(fl, true, d, f);
                lemma_cluster_preserves_exclusive(a, j + 1, next.0, next.1);
            },
            None => {},
        }
    }
}

/// Whatever arguments the scan consumes, it keeps the filter invariant: a
/// resolved filter policy is never narrowed to directories only and files
/// only at once.
pub proof fn lemma_scan_preserves_exclusive(
    args: Seq<Seq<char>>,
    i: int,
    d: DisplayOptions,
    f: FilteringOptions,
)
    requires
        f.only_flags_exclusive(),
    ensures
        scan_args(args, i, d, f) matches ScanOutcome::Resolved { filtering, .. }
            ==> filtering.only_flags_exclusive(),
    decreases args.len() - i,
{
    if i < args.len() {
        let a = args[i];
        if is_long_opt(a) {
            match long_flag_of(a) {
                Some(fl) => {
                    let next = spec_apply_flag(fl, false, d, f);
                    crate::options::lemma_only_flags_stay_exclusive(fl, false, d, f);
                    lemma_scan_preserves_exclusive(args, i + 1, next.0, next.1);
                },
                None => {},
            }
        } else if is_short_opt(a) {
            if a.len() >= 2 {
                match scan_cluster(a, 1, d, f) {
                    Ok(next) => {
                        lemma_cluster_preserves_exclusive(a, 1, d, f);
                        lemma_scan_preserves_exclusive(args, i + 1, next.0, next.1);
                    },
                    Err(_) => {},
                }
            }
        }
    }
}

/// The characters of a short-option cluster are validated independently,
/// in order: with every character before position `k` recognized and the
/// one at `k` not, the cluster stops exactly at that character, and the
/// scan reports it the same way it reports an unknown long option.
pub proof fn lemma_cluster_first_invalid(
    a: Seq<char>,
    j: int,
    d: DisplayOptions,
    f: FilteringOptions,
    k: int,
)
    requires
        1 <= j <= k < a.len(),
        short_flag_of(a[k]) is None,
        forall|m: int| j <= m < k ==> short_flag_of(a[m]) is Some,
    ensures
        scan_cluster(a, j, d, f) == Err::<(DisplayOptions, FilteringOptions), char>(a[k]),
    decreases a.len() - j,
{
    if j < k {
        let next = spec_apply_flag(short_flag_of(a[j])->Some_0, true, d, f);
        lemma_cluster_first_invalid(a, j + 1, next.0, next.1, k);
    }
}

/// Lifted to the whole scan: an argument that is a short-option cluster
/// whose first unrecognized character stands at position `k` makes the
/// scan fail with that character, exactly as a standalone unknown long
/// option fails with its text.
pub proof fn lemma_cluster_invalid_char_rejected(
    args: Seq<Seq<char>>,
    i: int,
    d: DisplayOptions,
    f: FilteringOptions,
    k: int,
)
    requires
        0 <= i < args.len(),
        is_short_opt(args[i]),
        args[i].len() >= 2,
        1 <= k < args[i].len(),
        short_flag_of(args[i][k]) is None,
        forall|m: int| 1 <= m < k ==> short_flag_of(args[i][m]) is Some,
    ensures
        scan_args(args, i, d, f) == ScanOutcome::BadOption(seq![args[i][k]]),
{
    lemma_cluster_first_invalid(args[i], 1, d, f, k);
}

} // verus!
