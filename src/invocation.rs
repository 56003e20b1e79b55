use vstd::prelude::*;
use crate::cmd::envs_view;
use crate::model::{CmdView, ident_tokens, flag_tokens, render_cmds};
use crate::tokens::strs_view;

verus! {

/// What a process-spawning facility needs to run one command: the program,
/// its arguments (the program excluded) and the environment overrides.
#[derive(Debug)]
pub struct Invocation {
    pub program: String,
    pub args: Vec<String>,
    pub envs: Vec<(String, String)>,
}

/// The program of a command: its identifier token, or the empty string
/// where it has neither a name nor (preferred) alias.
pub open spec fn program_of(c: CmdView) -> Seq<char> {
    let id = ident_tokens(c);
    if id.len() == 0 {
        seq![]
    } else {
        id[0]
    }
}

/// The argument tokens of a command: everything its rendering holds after
/// the environment and the identifier.
pub open spec fn invocation_args(c: CmdView) -> Seq<Seq<char>> {
    flag_tokens(c.short_flags, c.combine_short_flags) + c.args + match c.subcommands {
        Some(l) => render_cmds(l.commands, l.separator),
        None => seq![],
    }
}

impl Invocation {
    /// This invocation runs the command `c`.
    pub open spec fn runs(&self, c: CmdView) -> bool {
        &&& self.program@ == program_of(c)
        &&& strs_view(self.args@) == invocation_args(c)
        &&& envs_view(Some(self.envs)) == c.envs
    }
}

} // verus!
