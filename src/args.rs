//! The invocation flags: verbosity and the two override paths.
//!
//! `--verbose` or `-v` asks for verbose logging. `--config <path>` or
//! `-c <path>` overrides the configuration path, `--styles <path>` or
//! `-s <path>` the stylesheet path; when a flag is given more than once the
//! last one counts. A path flag without a following value is ignored. Nothing
//! here fails: what is absent or malformed stays unset.
use vstd::prelude::*;

verus! {

/// What the invocation asks for.
pub struct Invocation {
    pub verbose: bool,
    pub config_override: Option<String>,
    pub styles_override: Option<String>,
}

pub open spec fn is_verbose_flag(t: Seq<char>) -> bool {
    t == "--verbose"@ || t == "-v"@
}

pub open spec fn is_config_flag(t: Seq<char>) -> bool {
    t == "--config"@ || t == "-c"@
}

pub open spec fn is_styles_flag(t: Seq<char>) -> bool {
    t == "--styles"@ || t == "-s"@
}

/// The token after the last path flag (one for which `styles` tells the kind)
/// whose value stands among the first `n` tokens.
pub open spec fn flag_value(args: Seq<String>, n: int, styles: bool) -> Option<String>
    decreases n,
{
    if n < 2 {
        None
    } else if (if styles { is_styles_flag(args[n - 2]@) } else { is_config_flag(args[n - 2]@) }) {
        Some(args[n - 1])
    } else {
        flag_value(args, n - 1, styles)
    }
}

/// Reads the flags out of the invocation's arguments (without the program
/// name).
pub fn parse_cmd_args(args: &Vec<String>) -> (r: Invocation)
    ensures
        r.verbose == exists|i: int| 0 <= i < args@.len() && is_verbose_flag(#[trigger] args@[i]@),
        r.config_override == flag_value(args@, args@.len() as int, false),
        r.styles_override == flag_value(args@, args@.len() as int, true),
{
    let verbose_long = "--verbose".to_owned();
    let verbose_short = "-v".to_owned();
    let config_long = "--config".to_owned();
    let config_short = "-c".to_owned();
    let styles_long = "--styles".to_owned();
    let styles_short = "-s".to_owned();
    let mut verbose = false;
    let mut config_override: Option<String> = None;
    let mut styles_override: Option<String> = None;
    let n = args.len();
    let mut i: usize = 0;
    while i < n
        invariant
            n == args@.len(),
            0 <= i <= n,
            verbose_long@ == "--verbose"@,
            verbose_short@ == "-v"@,
            config_long@ == "--config"@,
            config_short@ == "-c"@,
            styles_long@ == "--styles"@,
            styles_short@ == "-s"@,
            verbose == exists|j: int| 0 <= j < i && is_verbose_flag(#[trigger] args@[j]@),
            config_override == flag_value(args@, if i < n { i + 1 } else { n as int }, false),
            styles_override == flag_value(args@, if i < n { i + 1 } else { n as int }, true),
        decreases n - i,
    {
        if args[i] == verbose_long || args[i] == verbose_short {
            verbose = true;
        }
        if i + 1 < n {
            if args[i] == config_long || args[i] == config_short {
                config_override = Some(args[i + 1].clone());
            }
            if args[i] == styles_long || args[i] == styles_short {
                styles_override = Some(args[i + 1].clone());
            }
        }
        i = i + 1;
    }
    Invocation { verbose, config_override, styles_override }
}

} // verus!
