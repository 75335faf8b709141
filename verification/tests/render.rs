use minils::DisplayOptions;
use minils::FilteringOptions;
use minils::entry::EntryInfo;
use minils::entry::EntryKind;
use minils::entry::included;
use minils::format_entry;
use minils::format_single_entry;
use minils::header_line;
use minils::render::push_size_field;
use minils::run;

const RESET: &str = "\x1b[0m";
const BOLD: &str = "\x1b[1m";
const BLUE: &str = "\x1b[1;34m";
const CYAN: &str = "\x1b[1;96m";

fn grid() -> DisplayOptions {
    DisplayOptions { oneline: false, grid: true, long: false, recurse: false }
}

fn oneline() -> DisplayOptions {
    DisplayOptions { oneline: true, grid: false, long: false, recurse: false }
}

fn long() -> DisplayOptions {
    DisplayOptions { oneline: true, grid: false, long: true, recurse: false }
}

fn no_filter() -> FilteringOptions {
    FilteringOptions { all: false, list_dirs: false, only_dirs: false, only_files: false }
}

fn file(name: &str, size: u64) -> EntryInfo {
    EntryInfo {
        name: String::from(name),
        kind: EntryKind::File,
        mode: 0o644,
        size,
        link_target: None,
    }
}

fn dir(name: &str) -> EntryInfo {
    EntryInfo {
        name: String::from(name),
        kind: EntryKind::Directory,
        mode: 0o755,
        size: 4096,
        link_target: None,
    }
}

fn size_text(size: u64) -> String {
    let mut s = String::new();
    push_size_field(&mut s, size);
    s
}

#[test]
fn size_below_one_thousand_is_bytes() {
    assert_eq!(size_text(500), " 500B");
    assert_eq!(size_text(0), "   0B");
    assert_eq!(size_text(999), " 999B");
}

#[test]
fn size_truncates_on_decimal_divisors() {
    assert_eq!(size_text(999999), "  0KB");
    assert_eq!(size_text(1000), "  0KB");
    assert_eq!(size_text(1000000), "  0MB");
    assert_eq!(size_text(999999999), "  0MB");
    assert_eq!(size_text(1000000000), "  0GB");
    assert_eq!(size_text(1000000000000), "  0TB");
    assert_eq!(size_text(2000000000000000), "  2TB");
}

#[test]
fn grid_entry_is_colored_name_with_padding() {
    let e = file("visible.txt", 10);
    let text = format_entry(&e, &grid());
    assert_eq!(text, format!("{BOLD}visible.txt     {RESET}"));
}

#[test]
fn oneline_entry_ends_with_newline() {
    let e = file("visible.txt", 10);
    let text = format_entry(&e, &oneline());
    assert_eq!(text, format!("{BOLD}visible.txt     {RESET}\n"));
}

#[test]
fn directory_entry_is_bold_blue() {
    let e = dir("sub");
    let text = format_entry(&e, &grid());
    assert_eq!(text, format!("{BLUE}sub     {RESET}"));
}

#[test]
fn long_entry_lists_permissions_size_and_name() {
    let e = EntryInfo {
        name: String::from("a.txt"),
        kind: EntryKind::File,
        mode: 0o755,
        size: 500,
        link_target: None,
    };
    let text = format_entry(&e, &long());
    let glyph = format!("{BOLD}-{RESET}");
    let owner = format!(
        "{BOLD}\x1b[33mr{RESET}{BOLD}\x1b[31mw{RESET}{BOLD}\x1b[32mx{RESET}"
    );
    let group = format!("\x1b[33mr{RESET}\x1b[31m-{RESET}\x1b[32mx{RESET}");
    let other = format!("\x1b[33mr{RESET}\x1b[31m-{RESET}\x1b[32mx{RESET}");
    let name = format!("{BOLD}a.txt     {RESET}");
    assert_eq!(text, format!("{glyph}{owner}{group}{other}   500B  {name}\n"));
}

#[test]
fn long_directory_shows_dash_for_size() {
    let e = dir("sub");
    let text = format_entry(&e, &long());
    assert!(text.contains("      -  "));
    assert!(text.starts_with(&format!("{BLUE}d{RESET}")));
}

#[test]
fn long_symlink_shows_arrow_to_target() {
    let e = EntryInfo {
        name: String::from("lnk"),
        kind: EntryKind::Symlink,
        mode: 0o777,
        size: 6,
        link_target: Some(String::from("target")),
    };
    let text = format_entry(&e, &long());
    assert!(text.starts_with(&format!("{CYAN}l{RESET}")));
    assert!(text.ends_with(&format!("{CYAN}lnk{RESET} -> \x1b[0;31mtarget{RESET}\n")));
}

#[test]
fn symlink_outside_long_mode_is_plain_cyan_name() {
    let e = EntryInfo {
        name: String::from("lnk"),
        kind: EntryKind::Symlink,
        mode: 0o777,
        size: 6,
        link_target: None,
    };
    let text = format_entry(&e, &grid());
    assert_eq!(text, format!("{CYAN}lnk     {RESET}"));
}

#[test]
fn header_names_the_three_columns() {
    assert_eq!(
        header_line(),
        "\x1b[4mPermissions\x1b[0m  \x1b[4mSize\x1b[0m  \x1b[4mName\x1b[0m\n"
    );
}

#[test]
fn default_listing_hides_dotfiles() {
    let entries = vec![file(".hidden", 1), file("visible.txt", 2), dir("sub")];
    let text = run(&entries, grid(), no_filter());
    assert!(!text.contains(".hidden"));
    assert!(text.contains("visible.txt"));
    assert!(text.contains("sub"));
    let expected = format!("{BOLD}visible.txt     {RESET}{BLUE}sub     {RESET}\n");
    assert_eq!(text, expected);
}

#[test]
fn all_shows_dotfiles() {
    let entries = vec![file(".hidden", 1), file("visible.txt", 2), dir("sub")];
    let f = FilteringOptions { all: true, ..no_filter() };
    let text = run(&entries, grid(), f);
    let expected = format!(
        "{BOLD}.hidden     {RESET}{BOLD}visible.txt     {RESET}{BLUE}sub     {RESET}\n"
    );
    assert_eq!(text, expected);
}

#[test]
fn only_dirs_keeps_directories_only() {
    let entries = vec![file("a", 1), dir("sub"), file(".b", 1)];
    let f = FilteringOptions { only_dirs: true, ..no_filter() };
    let text = run(&entries, grid(), f);
    assert_eq!(text, format!("{BLUE}sub     {RESET}\n"));
}

#[test]
fn only_files_keeps_regular_files_only() {
    let entries = vec![file("a", 1), dir("sub"), dir(".c")];
    let f = FilteringOptions { only_files: true, ..no_filter() };
    let text = run(&entries, grid(), f);
    assert_eq!(text, format!("{BOLD}a     {RESET}\n"));
}

#[test]
fn oneline_listing_has_no_trailing_blank_line() {
    let entries = vec![file("a", 1), file("b", 2)];
    let text = run(&entries, oneline(), no_filter());
    assert_eq!(text, format!("{BOLD}a     {RESET}\n{BOLD}b     {RESET}\n"));
}

#[test]
fn long_listing_starts_with_the_header() {
    let entries = vec![file("a", 1)];
    let text = run(&entries, long(), no_filter());
    assert!(text.starts_with(&header_line()));
    assert_eq!(text.matches("Permissions").count(), 1);
}

#[test]
fn single_file_renders_as_exactly_one_line() {
    let e = file("file.txt", 500);
    let text = format_single_entry(&e, &grid());
    assert_eq!(text, format!("{BOLD}file.txt     {RESET}\n"));
    assert_eq!(text.matches('\n').count(), 1);
}

#[test]
fn single_entry_in_long_mode_has_header_and_line() {
    let e = file("file.txt", 500);
    let text = format_single_entry(&e, &long());
    assert!(text.starts_with(&header_line()));
    assert!(text.contains(" 500B"));
    assert!(text.ends_with(&format!("{BOLD}file.txt     {RESET}\n")));
}

#[test]
fn included_follows_the_filter_policy() {
    let none = no_filter();
    let all = FilteringOptions { all: true, ..no_filter() };
    let dirs = FilteringOptions { only_dirs: true, ..no_filter() };
    let dirs_all = FilteringOptions { only_dirs: true, all: true, ..no_filter() };
    assert!(included("x", EntryKind::File, &none));
    assert!(!included(".x", EntryKind::File, &none));
    assert!(included(".x", EntryKind::File, &all));
    assert!(included("x", EntryKind::Symlink, &none));
    assert!(!included("x", EntryKind::File, &dirs));
    assert!(included("x", EntryKind::Directory, &dirs));
    assert!(!included(".x", EntryKind::Directory, &dirs));
    assert!(included(".x", EntryKind::Directory, &dirs_all));
}
