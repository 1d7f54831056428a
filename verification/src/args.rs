//! The command-line surface the library understands: the subcommand and
//! the color choice. Flag parsing itself happens outside.

use vstd::prelude::*;
use vstd::string::*;

verus! {

/// The subcommand: run a specific task instead of the default one.
#[derive(Debug, Clone)]
pub enum Command {
    /// Run the task of the given name.
    Run { task: String },
}

/// Whether terminal output uses colors.
#[derive(Debug, Clone, Copy, PartialEq, Eq, Structural)]
pub enum ColorChoice {
    Never,
    Auto,
    Always,
}

/// Whether two strings hold the same characters.
pub fn str_eq(a: &str, b: &str) -> (r: bool)
    ensures
        r == (a@ == b@),
{
    let n = a.unicode_len();
    let m = b.unicode_len();
    if n != m {
        return false;
    }
    let mut i: usize = 0;
    while i < n
        invariant
            i <= n,
            n == a@.len(),
            n == b@.len(),
            forall|j: int| 0 <= j < i ==> a@[j] == b@[j],
        decreases n - i,
    {
        if a.get_char(i) != b.get_char(i) {
            return false;
        }
        i = i + 1;
    }
    proof {
        assert(a@ =~= b@);
    }
    true
}

/// The value of the `--color` parameter: `never`, `auto` or `always`;
/// anything else is rejected.
pub fn parse_color_choice(input: &str) -> (r: Result<ColorChoice, String>)
    ensures
        input@ == "never"@ ==> r == Ok::<ColorChoice, String>(ColorChoice::Never),
        input@ == "auto"@ ==> r == Ok::<ColorChoice, String>(ColorChoice::Auto),
        input@ == "always"@ ==> r == Ok::<ColorChoice, String>(ColorChoice::Always),
        (input@ != "never"@ && input@ != "auto"@ && input@ != "always"@) <==> r is Err,
{
    proof {
        reveal_strlit("never");
        reveal_strlit("auto");
        reveal_strlit("always");
        assert("never"@.len() == 5);
        assert("auto"@.len() == 4);
        assert("always"@.len() == 6);
    }
    if str_eq(input, "never") {
        Ok(ColorChoice::Never)
    } else if str_eq(input, "auto") {
        Ok(ColorChoice::Auto)
    } else if str_eq(input, "always") {
        Ok(ColorChoice::Always)
    } else {
        Err(String::from_str("not a valid value for parameter --color"))
    }
}

} // verus!
