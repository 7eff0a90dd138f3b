//! Shell integrations.
use vstd::prelude::*;

verus! {

/// The shells `rb` integrates with.
#[derive(Debug, Clone, Copy, PartialEq, Eq, Structural)]
pub enum Shell {
    Bash,
}

/// A shell integration: its name, the shell's name, the shell, what it does
/// and how to install it.
#[derive(Debug, Clone, Copy)]
pub struct ShellIntegration {
    pub name: &'static str,
    pub shell_name: &'static str,
    pub shell: Shell,
    pub description: &'static str,
    pub install_instruction: &'static str,
}

/// The shell integrations on offer: Bash completion only.
pub fn available_integrations() -> (r: Vec<ShellIntegration>)
    ensures
        r@.len() == 1,
        r@[0].name@ == "Bash Completion"@,
        r@[0].shell_name@ == "bash"@,
        r@[0].shell == Shell::Bash,
        r@[0].description@ == "Dynamic command completion for Bash shell"@,
        r@[0].install_instruction@ == "Add to ~/.bashrc: eval \"$(rb shell-integration bash)\""@,
{
    let mut v: Vec<ShellIntegration> = Vec::new();
    v.push(
        ShellIntegration {
            name: "Bash Completion",
            shell_name: "bash",
            shell: Shell::Bash,
            description: "Dynamic command completion for Bash shell",
            install_instruction: "Add to ~/.bashrc: eval \"$(rb shell-integration bash)\"",
        },
    );
    v
}

/// The Bash completion script `rb shell-integration bash` prints: it asks
/// `rb __bash_complete` for the words that complete the line.
pub fn bash_completion_script(shell: Shell) -> (r: &'static str)
    ensures
        shell == Shell::Bash ==> r@ == "# Ruby Butler dynamic completion shim\n_rb_completion() {\n    local cur prev words cword\n    _init_completion || return\n\n    # Call rb to get context-aware completions\n    local completions\n    completions=$(rb __bash_complete \"${COMP_LINE}\" \"${COMP_POINT}\" 2>/dev/null)\n\n    if [ -n \"$completions\" ]; then\n        COMPREPLY=($(compgen -W \"$completions\" -- \"$cur\"))\n        # Bash will automatically add space for single completion\n    else\n        # No rb completions, fall back to default bash completion (files/dirs)\n        compopt -o default\n        COMPREPLY=()\n    fi\n}\n\ncomplete -F _rb_completion rb\n"@,
{
    match shell {
        Shell::Bash => "# Ruby Butler dynamic completion shim\n_rb_completion() {\n    local cur prev words cword\n    _init_completion || return\n\n    # Call rb to get context-aware completions\n    local completions\n    completions=$(rb __bash_complete \"${COMP_LINE}\" \"${COMP_POINT}\" 2>/dev/null)\n\n    if [ -n \"$completions\" ]; then\n        COMPREPLY=($(compgen -W \"$completions\" -- \"$cur\"))\n        # Bash will automatically add space for single completion\n    else\n        # No rb completions, fall back to default bash completion (files/dirs)\n        compopt -o default\n        COMPREPLY=()\n    fi\n}\n\ncomplete -F _rb_completion rb\n",
    }
}

} // verus!
