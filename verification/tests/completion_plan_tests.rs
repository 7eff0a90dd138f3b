use ruby_butler::cli::completion::{names_with_prefix, plan_completion, shell_suggestions, CompletionPlan};

fn plan(line: &str, point: &str) -> CompletionPlan {
    plan_completion(line, point)
}

fn commands(prefix: &str) -> CompletionPlan {
    CompletionPlan::Commands(prefix.to_string())
}

fn names(list: &[&str]) -> Vec<String> {
    list.iter().map(|s| s.to_string()).collect()
}

#[test]
fn test_command_completion_empty_prefix() {
    assert_eq!(plan("rb ", "3"), commands(""));
}

#[test]
fn test_command_completion_with_prefix() {
    assert_eq!(plan("rb ru", "5"), commands("ru"));
    let offered = names_with_prefix(&names(&["run", "r", "exec", "x", "sync", "info"]), "ru");
    assert_eq!(offered, names(&["run"]));
}

#[test]
fn test_flags_completion() {
    assert_eq!(plan("rb -", "4"), CompletionPlan::Flags);
}

#[test]
fn test_shell_integration_completion() {
    assert_eq!(plan("rb shell-integration ", "21"), CompletionPlan::Shells(String::new()));
    assert_eq!(shell_suggestions(""), names(&["bash"]));
    assert_eq!(shell_suggestions("z"), Vec::<String>::new());
}

#[test]
fn test_completion_after_complete_command() {
    assert_eq!(plan("rb runtime ", "11"), CompletionPlan::Nothing);
}

#[test]
fn test_completion_with_partial_command_no_space() {
    assert_eq!(plan("rb run", "6"), commands("run"));
}

#[test]
fn test_cursor_position_in_middle() {
    assert_eq!(plan("rb runtime --help", "3"), commands(""));
}

#[test]
fn test_cursor_position_partial_word() {
    assert_eq!(plan("rb ru --help", "5"), commands("ru"));
}

#[test]
fn test_global_flags_before_command() {
    assert_eq!(plan("rb -v ", "6"), commands(""));
}

#[test]
fn test_multiple_global_flags_before_command() {
    assert_eq!(plan("rb -v -R /opt/rubies ", "21"), commands(""));
}

#[test]
fn test_command_alias_completion() {
    assert_eq!(plan("rb r", "4"), commands("r"));
}

#[test]
fn test_no_completion_after_exec_command() {
    assert_eq!(plan("rb exec bundle ", "16"), CompletionPlan::Nothing);
}

#[test]
fn test_empty_line_completion() {
    assert_eq!(plan("rb ", "3"), commands(""));
    assert_eq!(plan("", "0"), commands(""));
}

#[test]
fn test_run_command_first_arg_completes_scripts() {
    assert_eq!(plan("rb run ", "7"), CompletionPlan::Scripts(String::new()));
}

#[test]
fn test_run_command_second_arg_returns_empty() {
    assert_eq!(plan("rb run test ", "12"), CompletionPlan::Nothing);
}

#[test]
fn test_run_alias_first_arg_completes_scripts() {
    assert_eq!(plan("rb r ", "5"), CompletionPlan::Scripts(String::new()));
}

#[test]
fn test_run_alias_second_arg_returns_empty() {
    assert_eq!(plan("rb r test ", "10"), CompletionPlan::Nothing);
}

#[test]
fn test_exec_command_suggests_gem_binstubs_or_empty() {
    assert_eq!(plan("rb exec ", "8"), CompletionPlan::Binstubs(String::new()));
}

#[test]
fn test_exec_alias_suggests_gem_binstubs_or_empty() {
    assert_eq!(plan("rb x ", "5"), CompletionPlan::Binstubs(String::new()));
}

#[test]
fn test_script_completion_with_prefix() {
    assert_eq!(plan("rb run te", "9"), CompletionPlan::Scripts("te".to_string()));
    let offered = names_with_prefix(&names(&["test", "lint", "test:unit"]), "te");
    assert_eq!(offered, names(&["test", "test:unit"]));
}

#[test]
fn test_run_third_arg_returns_empty() {
    assert_eq!(plan("rb run test arg1 ", "17"), CompletionPlan::Nothing);
}

#[test]
fn test_help_command_completion_with_prefix() {
    assert_eq!(plan("rb h", "4"), commands("h"));
}

#[test]
fn test_version_command_completion_with_prefix() {
    assert_eq!(plan("rb v", "4"), commands("v"));
}

#[test]
fn cursor_counts_bytes() {
    // "é" takes two bytes: the cursor after it is at byte 5.
    assert_eq!(plan("rb é", "5"), commands("é"));
    assert_eq!(plan("rb éx", "5"), commands("é"));
    assert_eq!(plan("rb é x", "7"), CompletionPlan::Nothing);
    assert_eq!(plan("rb ru ñ", "5"), commands("ru"));
}
