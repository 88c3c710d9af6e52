//! The user's shell.

use vstd::prelude::*;
use vstd::string::*;

verus! {

/// The shell to run where nothing says which.
pub open spec fn spec_get_shell(shell_var: Option<Seq<char>>, passwd_shell: Option<Seq<char>>) -> Seq<
    char,
> {
    match shell_var {
        Some(shell) => shell,
        None => match passwd_shell {
            Some(shell) => shell,
            None => "/bin/sh"@,
        },
    }
}

/// The user's shell: what the variable `SHELL` holds, else the shell of
/// the user's entry in the password database, else `/bin/sh`.
pub fn get_shell(shell_var: Option<String>, passwd_shell: Option<String>) -> (r: String)
    ensures
        r@ == spec_get_shell(shell_var.deep_view(), passwd_shell.deep_view()),
{
    match shell_var {
        Some(shell) => shell,
        None => match passwd_shell {
            Some(shell) => shell,
            None => String::from_str("/bin/sh"),
        },
    }
}

} // verus!
