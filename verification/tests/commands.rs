use omarchy_command_runner::{executable_is_absent, AncestorInspection, ExistingCommand};

fn bytes(text: &str) -> Vec<u8> {
    text.as_bytes().to_vec()
}

#[test]
fn exposes_the_exact_program_and_arguments() {
    let command = ExistingCommand::new(bytes("omarchy-menu"))
        .arg(bytes("toggle"))
        .arg(bytes("root menu"));

    assert_eq!(command.program(), b"omarchy-menu");
    assert_eq!(command.arguments(), [bytes("toggle"), bytes("root menu")]);
}

#[test]
fn passes_arguments_without_shell_expansion() {
    let command = ExistingCommand::new(bytes("/usr/bin/printf")).args(vec![
        bytes("%s\n"),
        bytes("$(printf injected)"),
        bytes("argument with spaces"),
    ]);
    assert_eq!(
        command.arguments(),
        [bytes("%s\n"), bytes("$(printf injected)"), bytes("argument with spaces")]
    );
}

#[test]
fn new_command_has_no_arguments() {
    let command = ExistingCommand::new(bytes("/bin/bash"));
    assert_eq!(command.program(), b"/bin/bash");
    assert!(command.arguments().is_empty());
}

#[test]
fn arguments_keep_their_order_across_arg_and_args() {
    let command = ExistingCommand::new(bytes("/bin/bash"))
        .arg(bytes("-c"))
        .args(vec![bytes("exit 23"), bytes("")])
        .arg(bytes("last"));
    assert_eq!(command.arguments(), [bytes("-c"), bytes("exit 23"), bytes(""), bytes("last")]);
    let unchanged = command.clone().args(vec![]);
    assert_eq!(unchanged, command);
}

#[test]
fn non_utf8_arguments_are_kept_byte_for_byte() {
    let command = ExistingCommand::new(vec![0x2f, 0xff]).arg(vec![0xfe, 0x00, 0x41]);
    assert_eq!(command.program(), [0x2f, 0xff]);
    assert_eq!(command.arguments(), [vec![0xfe, 0x00, 0x41]]);
}

#[test]
fn absolute_programs_start_at_the_root() {
    assert!(ExistingCommand::new(bytes("/usr/bin/printf")).program_is_absolute());
    assert!(ExistingCommand::new(bytes("/")).program_is_absolute());
    assert!(!ExistingCommand::new(bytes("provider-on-path")).program_is_absolute());
    assert!(!ExistingCommand::new(bytes("./provider")).program_is_absolute());
    assert!(!ExistingCommand::new(bytes("")).program_is_absolute());
}

#[test]
fn absent_when_the_nearest_existing_ancestor_is_a_plain_directory() {
    let root = AncestorInspection::Found { is_dir: true, is_symlink: false };
    assert!(executable_is_absent(&[AncestorInspection::Missing, root]));
    assert!(executable_is_absent(&[
        AncestorInspection::Missing,
        AncestorInspection::Missing,
        root,
        AncestorInspection::Uncertain,
    ]));
}

#[test]
fn not_absent_when_the_path_itself_exists() {
    let directory = AncestorInspection::Found { is_dir: true, is_symlink: false };
    assert!(!executable_is_absent(&[directory]));
    assert!(!executable_is_absent(&[AncestorInspection::Found { is_dir: false, is_symlink: false }, directory]));
}

#[test]
fn not_absent_when_inspection_is_uncertain_or_finds_a_link_or_file() {
    let missing = AncestorInspection::Missing;
    assert!(!executable_is_absent(&[missing, AncestorInspection::Uncertain]));
    assert!(!executable_is_absent(&[missing, AncestorInspection::Found { is_dir: true, is_symlink: true }]));
    assert!(!executable_is_absent(&[missing, AncestorInspection::Found { is_dir: false, is_symlink: false }]));
    assert!(!executable_is_absent(&[missing, missing]));
    assert!(!executable_is_absent(&[]));
}
