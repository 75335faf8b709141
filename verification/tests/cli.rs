use minils::entry::EntryKind;
use minils::parse::meta_command;
use minils::parse::target_action;
use minils::parse::TargetAction;
use minils::FilteringOptions;
use minils::CliError;
use minils::MetaCommand;
use minils::ParsedCommand;
use minils::help_text;
use minils::parse_arguments;

fn argv(parts: &[&str]) -> Vec<String> {
    let mut v = vec![String::from("minils")];
    for p in parts {
        v.push(String::from(*p));
    }
    v
}

fn parse_ok(parts: &[&str]) -> ParsedCommand {
    match parse_arguments(&argv(parts)) {
        Ok(pc) => pc,
        Err(e) => panic!("expected success, got: {}", e.message()),
    }
}

fn parse_err(parts: &[&str]) -> CliError {
    match parse_arguments(&argv(parts)) {
        Ok(_) => panic!("expected an error"),
        Err(e) => e,
    }
}

const HINT: &str = "For help, try running 'minils --help'";

#[test]
fn defaults_with_no_arguments() {
    let pc = parse_ok(&[]);
    assert!(!pc.display.oneline);
    assert!(pc.display.grid);
    assert!(!pc.display.long);
    assert!(!pc.display.recurse);
    assert!(!pc.filtering.all);
    assert!(!pc.filtering.list_dirs);
    assert!(!pc.filtering.only_dirs);
    assert!(!pc.filtering.only_files);
    assert!(pc.target.is_none());
}

#[test]
fn long_after_grid_wins() {
    let pc = parse_ok(&["--grid", "--long"]);
    assert!(pc.display.long);
    assert!(pc.display.oneline);
    assert!(!pc.display.grid);
}

#[test]
fn grid_after_long_wins() {
    let pc = parse_ok(&["--long", "--grid"]);
    assert!(pc.display.grid);
    assert!(!pc.display.long);
    assert!(!pc.display.oneline);
}

#[test]
fn oneline_clears_grid() {
    let pc = parse_ok(&["--oneline"]);
    assert!(pc.display.oneline);
    assert!(!pc.display.grid);
    assert!(!pc.display.long);
}

#[test]
fn recurse_clears_grid() {
    let pc = parse_ok(&["--recurse"]);
    assert!(pc.display.recurse);
    assert!(!pc.display.grid);
}

#[test]
fn long_only_dirs_keeps_all() {
    let pc = parse_ok(&["--only-dirs", "--all"]);
    assert!(pc.filtering.all);
    assert!(pc.filtering.only_dirs);
    let pc = parse_ok(&["--all", "--only-dirs"]);
    assert!(pc.filtering.all);
    assert!(pc.filtering.only_dirs);
}

#[test]
fn long_only_files_clears_only_dirs() {
    let pc = parse_ok(&["--only-dirs", "--only-files"]);
    assert!(pc.filtering.only_files);
    assert!(!pc.filtering.only_dirs);
}

#[test]
fn short_only_dirs_clears_all_in_cluster_order() {
    let pc = parse_ok(&["-aD"]);
    assert!(!pc.filtering.all);
    assert!(pc.filtering.only_dirs);
    let pc = parse_ok(&["-Da"]);
    assert!(pc.filtering.all);
    assert!(pc.filtering.only_dirs);
}

#[test]
fn short_only_files_clears_all_across_arguments() {
    let pc = parse_ok(&["-a", "-f"]);
    assert!(!pc.filtering.all);
    assert!(pc.filtering.only_files);
    let pc = parse_ok(&["-f", "-a"]);
    assert!(pc.filtering.all);
    assert!(pc.filtering.only_files);
}

#[test]
fn unknown_long_option_is_invalid() {
    let e = parse_err(&["--wrong"]);
    let msg = e.message();
    assert_eq!(
        msg,
        "--wrong: Invalid option. For help, try running 'minils --help'"
    );
    assert!(msg.ends_with(HINT));
}

#[test]
fn unknown_long_option_before_path_still_fails() {
    let e = parse_err(&["--wrong", "somewhere"]);
    assert_eq!(
        e.message(),
        "--wrong: Invalid option. For help, try running 'minils --help'"
    );
}

#[test]
fn cluster_invalid_char_fails_like_long_option() {
    let e = parse_err(&["-lZa"]);
    let msg = e.message();
    assert_eq!(msg, "Z: Invalid option. For help, try running 'minils --help'");
    assert!(msg.ends_with(HINT));
}

#[test]
fn cluster_applies_valid_prefix_before_failing() {
    // every character is validated independently, left to right
    let e = parse_err(&["-Zl"]);
    assert_eq!(e.message(), "Z: Invalid option. For help, try running 'minils --help'");
}

#[test]
fn bare_dash_is_missing_option() {
    let e = parse_err(&["-"]);
    let msg = e.message();
    assert_eq!(msg, "Option not specified. For help, try running 'minils --help'");
    assert!(msg.ends_with(HINT));
}

#[test]
fn misplaced_positional_is_rejected() {
    let e = parse_err(&["somewhere", "-a"]);
    let msg = e.message();
    assert_eq!(msg, "Error parsing option. For help, try running 'minils --help'");
    assert!(msg.ends_with(HINT));
}

#[test]
fn trailing_path_is_the_target() {
    let pc = parse_ok(&["-la", "some/dir"]);
    assert!(pc.display.long);
    assert!(pc.filtering.all);
    assert_eq!(pc.target.as_deref(), Some("some/dir"));
}

#[test]
fn short_cluster_combines_flags() {
    let pc = parse_ok(&["-1d"]);
    assert!(pc.display.oneline);
    assert!(!pc.display.grid);
    assert!(pc.filtering.list_dirs);
}

#[test]
fn help_is_meta_only_as_sole_argument() {
    assert_eq!(meta_command(&argv(&["--help"])), Some(MetaCommand::Help));
    assert_eq!(meta_command(&argv(&["-?"])), Some(MetaCommand::Help));
    assert_eq!(meta_command(&argv(&["--help", "x"])), None);
    assert_eq!(meta_command(&argv(&[])), None);
}

#[test]
fn version_is_meta_only_as_sole_argument() {
    assert_eq!(meta_command(&argv(&["--version"])), Some(MetaCommand::Version));
    assert_eq!(meta_command(&argv(&["-v"])), Some(MetaCommand::Version));
    assert_eq!(meta_command(&argv(&["-v", "-a"])), None);
}

#[test]
fn help_with_company_falls_through_to_the_scan() {
    // not the sole argument, so the scan sees it as an unknown long option
    let e = parse_err(&["--help", "x"]);
    assert_eq!(
        e.message(),
        "--help: Invalid option. For help, try running 'minils --help'"
    );
}

#[test]
fn help_text_is_fixed() {
    let text = help_text();
    assert!(text.starts_with("List directory contents.\n"));
    assert!(text.contains("Usage: minils [options] [path]"));
    assert!(text.contains("-?, --help"));
    assert!(text.contains("-v, --version"));
    assert!(text.contains("-1, --oneline"));
    assert!(text.contains("-f, --only-files"));
}

#[test]
fn double_dash_alone_is_an_unknown_long_option() {
    let e = parse_err(&["--"]);
    assert_eq!(e.message(), "--: Invalid option. For help, try running 'minils --help'");
}

#[test]
fn help_short_form_with_company_is_an_unknown_cluster_char() {
    let e = parse_err(&["-?", "x"]);
    assert_eq!(e.message(), "?: Invalid option. For help, try running 'minils --help'");
}

#[test]
fn directory_target_is_enumerated_unless_listed_as_leaf() {
    let plain = FilteringOptions { all: false, list_dirs: false, only_dirs: false, only_files: false };
    let leaf = FilteringOptions { list_dirs: true, ..plain };
    assert_eq!(target_action(EntryKind::Directory, &plain), TargetAction::Enumerate);
    assert_eq!(target_action(EntryKind::Directory, &leaf), TargetAction::RenderSingle);
    assert_eq!(target_action(EntryKind::File, &plain), TargetAction::RenderSingle);
    assert_eq!(target_action(EntryKind::Symlink, &plain), TargetAction::RenderSingle);
}

#[test]
fn filesystem_error_messages_pass_through() {
    let e = CliError::PathError(String::from("No such file or directory (os error 2)"));
    assert_eq!(e.message(), "No such file or directory (os error 2)");
    let e = CliError::MetadataError(String::from("Permission denied (os error 13)"));
    assert_eq!(e.message(), "Permission denied (os error 13)");
    let e = CliError::InvalidName(String::from("b\u{fffd}d"));
    assert_eq!(e.message(), "Invalid Unicode in name b\u{fffd}d");
}
