use vstd::prelude::*;
use crate::cmd_list::{CmdList, cmd_list_view};
use crate::model::{
    CmdView, env_token, env_tokens, ident_tokens, flag_tokens, short_flag_token,
    render_cmd,
};
use crate::tokens::{strs_view, append_strings, push_char, joined, join};
use crate::invocation::{Invocation, invocation_args};
use vstd::string::{StrSliceExecFns, StringExecFns};
use crate::flag::opt_str_view;

verus! {

/// One command: environment bindings, name and alias, short flags,
/// arguments (long flags, options, parameters) and nested subcommands.
#[derive(Debug)]
pub struct Cmd {
    /// environment variables, rendered first as `KEY=VALUE`
    pub envs: Option<Vec<(String, String)>>,
    /// command name
    pub name: Option<String>,
    /// command alias, rendered in place of the name when `use_alias` is set
    pub alias: Option<String>,
    /// short flags (`-a -b -c`, or combined `-abc`)
    pub flags_short: Option<String>,
    /// arguments: long flags, options, parameters (`--longflag -o opt param`)
    pub args: Option<Vec<String>>,
    /// subcommands list
    pub subcommands: Option<CmdList>,
    /// do not combine short flags into one token: `-f -a` rather than `-fa`
    pub not_combine_short_flags: bool,
    /// render the alias in place of the name, where there is one
    pub use_alias: bool,
}

pub open spec fn envs_view(e: Option<Vec<(String, String)>>) -> Seq<(Seq<char>, Seq<char>)> {
    match e {
        Some(v) => v@.map_values(|p: (String, String)| (p.0@, p.1@)),
        None => seq![],
    }
}

pub open spec fn args_view(a: Option<Vec<String>>) -> Seq<Seq<char>> {
    match a {
        Some(v) => strs_view(v@),
        None => seq![],
    }
}

pub open spec fn flags_view(f: Option<String>) -> Seq<char> {
    match f {
        Some(s) => s@,
        None => seq![],
    }
}

/// The model of a command.
pub open spec fn cmd_view(c: Cmd) -> CmdView
    decreases c,
{
    CmdView {
        envs: envs_view(c.envs),
        name: opt_str_view(c.name),
        alias: opt_str_view(c.alias),
        short_flags: flags_view(c.flags_short),
        args: args_view(c.args),
        subcommands: match c.subcommands {
            Some(l) => Some(cmd_list_view(l)),
            None => None,
        },
        combine_short_flags: !c.not_combine_short_flags,
        use_alias: c.use_alias,
    }
}

impl View for Cmd {
    type V = CmdView;

    open spec fn view(&self) -> CmdView {
        cmd_view(*self)
    }
}

impl Cmd {
    /// A copy with the same model, subcommands included.
    pub(crate) fn clone_cmd(&self) -> (r: Cmd)
        ensures
            r@ == self@,
        decreases self,
    {
        let envs = match &self.envs {
            Some(v) => Some(clone_envs(v)),
            None => None,
        };
        let args = match &self.args {
            Some(v) => Some(clone_strings(v)),
            None => None,
        };
        let subcommands = match &self.subcommands {
            Some(l) => Some(l.clone_list()),
            None => None,
        };
        Cmd {
            envs,
            name: self.name.clone(),
            alias: self.alias.clone(),
            flags_short: self.flags_short.clone(),
            args,
            subcommands,
            not_combine_short_flags: self.not_combine_short_flags,
            use_alias: self.use_alias,
        }
    }
}

fn clone_envs(v: &Vec<(String, String)>) -> (r: Vec<(String, String)>)
    ensures
        envs_view(Some(r)) == envs_view(Some(*v)),
{
    let mut r: Vec<(String, String)> = Vec::new();
    let n = v.len();
    for i in 0..n
        invariant
            n == v.len(),
            r@.len() == i,
            forall|j: int| 0 <= j < i ==> r@[j].0@ == v@[j].0@ && r@[j].1@ == v@[j].1@,
    {
        let (k, val) = &v[i];
        r.push((k.clone(), val.clone()));
    }
    assert(envs_view(Some(r)) =~= envs_view(Some(*v)));
    r
}

fn clone_strings(v: &Vec<String>) -> (r: Vec<String>)
    ensures
        args_view(Some(r)) == args_view(Some(*v)),
{
    let mut r: Vec<String> = Vec::new();
    let n = v.len();
    for i in 0..n
        invariant
            n == v.len(),
            r@.len() == i,
            forall|j: int| 0 <= j < i ==> r@[j]@ == v@[j]@,
    {
        r.push(v[i].clone());
    }
    assert(args_view(Some(r)) =~= args_view(Some(*v)));
    r
}

/// `KEY=VALUE` as a string.
fn env_pair_token(key: &String, value: &String) -> (r: String)
    ensures
        r@ == env_token((key@, value@)),
{
    let mut t = key.clone();
    t.append("=");
    t.append(value.as_str());
    proof {
        reveal_strlit("=");
    }
    t
}

/// The environment tokens.
fn env_strings(envs: &Option<Vec<(String, String)>>) -> (r: Vec<String>)
    ensures
        strs_view(r@) == env_tokens(envs_view(*envs)),
{
    let mut r: Vec<String> = Vec::new();
    match envs {
        Some(v) => {
            let n = v.len();
            for i in 0..n
                invariant
                    n == v.len(),
                    r@.len() == i,
                    forall|j: int| 0 <= j < i ==> r@[j]@ == env_token((v@[j].0@, v@[j].1@)),
            {
                let (k, val) = &v[i];
                r.push(env_pair_token(k, val));
            }
            assert(strs_view(r@) =~= env_tokens(envs_view(*envs)));
        },
        None => {
            assert(strs_view(r@) =~= env_tokens(envs_view(*envs)));
        },
    }
    r
}

/// The short flag tokens.
fn flag_strings(flags: &Option<String>, combine: bool) -> (r: Vec<String>)
    ensures
        strs_view(r@) == flag_tokens(flags_view(*flags), combine),
{
    let mut r: Vec<String> = Vec::new();
    proof {
        reveal_strlit("-");
        assert("-"@ =~= seq!['-']);
    }
    match flags {
        Some(f) => {
            let n = f.as_str().unicode_len();
            if n == 0 {
                assert(strs_view(r@) =~= flag_tokens(flags_view(*flags), combine));
            } else if combine {
                let mut t = "-".to_owned();
                t.append(f.as_str());
                r.push(t);
                assert(strs_view(r@) =~= flag_tokens(flags_view(*flags), combine));
            } else {
                for i in 0..n
                    invariant
                        n == f@.len(),
                        r@.len() == i,
                        forall|j: int| 0 <= j < i ==> r@[j]@ == short_flag_token(f@[j]),
                {
                    let c = f.as_str().substring_char(i, i + 1);
                    let mut t = "-".to_owned();
                    t.append(c);
                    proof {
                        reveal_strlit("-");
                    }
                    assert(c@ =~= seq![f@[i as int]]);
                    assert(t@ =~= short_flag_token(f@[i as int]));
                    r.push(t);
                }
                assert(strs_view(r@) =~= flag_tokens(flags_view(*flags), combine));
            }
        },
        None => {
            assert(strs_view(r@) =~= flag_tokens(flags_view(*flags), combine));
        },
    }
    r
}

impl Cmd {
    /// A command with no field set: short flags are combined and the name is
    /// preferred to the alias.
    pub fn new() -> (r: Self)
        ensures
            r@ == CmdView::empty(),
    {
        let r = Cmd {
            envs: None,
            name: None,
            alias: None,
            flags_short: None,
            args: None,
            subcommands: None,
            not_combine_short_flags: false,
            use_alias: false,
        };
        assert(r@.envs =~= seq![]);
        assert(r@.args =~= seq![]);
        r
    }

    /// Adds an environment variable.
    pub fn env(&mut self, key: &str, value: &str) -> (r: &mut Self)
        ensures
            (*r)@ == (CmdView { envs: old(self)@.envs.push((key@, value@)), ..old(self)@ }),
            *final(self) == *final(r),
    {
        let ghost before = envs_view(self.envs);
        let v = self.envs.get_or_insert(Vec::new());
        v.push((key.to_owned(), value.to_owned()));
        assert(envs_view(Some(*v)) =~= before.push((key@, value@)));
        self
    }

    /// A command with the given name whose short flags are not combined and
    /// whose name is used, never the alias.
    pub fn new_full(name: &str) -> (r: Self)
        ensures
            r@ == (CmdView { name: Some(name@), combine_short_flags: false, ..CmdView::empty() }),
    {
        let mut r = Cmd::new();
        r.name = Some(name.to_owned());
        r.not_combine_short_flags = true;
        r.use_alias = false;
        r
    }

    /// A command with the given name.
    pub fn with_name(name: &str) -> (r: Self)
        ensures
            r@ == (CmdView { name: Some(name@), ..CmdView::empty() }),
    {
        let mut r = Cmd::new();
        r.name = Some(name.to_owned());
        r
    }

    /// A command with the given alias.
    pub fn with_alias(alias: &str) -> (r: Self)
        ensures
            r@ == (CmdView { alias: Some(alias@), ..CmdView::empty() }),
    {
        let mut r = Cmd::new();
        r.alias = Some(alias.to_owned());
        r
    }

    /// Sets the name.
    pub fn name(&mut self, cmd: &str) -> (r: &mut Self)
        ensures
            (*r)@ == (CmdView { name: Some(cmd@), ..old(self)@ }),
            *final(self) == *final(r),
    {
        self.name = Some(cmd.to_owned());
        self
    }

    /// Sets the alias.
    pub fn alias(&mut self, alias: &str) -> (r: &mut Self)
        ensures
            (*r)@ == (CmdView { alias: Some(alias@), ..old(self)@ }),
            *final(self) == *final(r),
    {
        self.alias = Some(alias.to_owned());
        self
    }

    /// Appends one token to the arguments.
    fn push_arg_token(&mut self, token: &str)
        ensures
            final(self)@ == (CmdView { args: old(self)@.args.push(token@), ..old(self)@ }),
    {
        let ghost before = args_view(self.args);
        let v = self.args.get_or_insert(Vec::new());
        v.push(token.to_owned());
        assert(args_view(Some(*v)) =~= before.push(token@));
    }

    /// Adds a flag (`-x`, `--long`) as one argument token.
    pub fn push_flag(&mut self, flag: &str) -> (r: &mut Self)
        ensures
            (*r)@ == (CmdView { args: old(self)@.args.push(flag@), ..old(self)@ }),
            *final(self) == *final(r),
    {
        self.push_arg_token(flag);
        self
    }

    /// Adds a short flag, a single character.
    pub fn push_flag_short(&mut self, flag: char) -> (r: &mut Self)
        ensures
            (*r)@ == (CmdView { short_flags: old(self)@.short_flags.push(flag), ..old(self)@ }),
            *final(self) == *final(r),
    {
        let s = self.flags_short.get_or_insert(String::new());
        push_char(s, flag);
        self
    }

    /// Adds an option: the flag token, then the value token.
    pub fn push_option(&mut self, key: &str, option: &str) -> (r: &mut Self)
        ensures
            (*r)@ == (CmdView { args: old(self)@.args.push(key@).push(option@), ..old(self)@ }),
            *final(self) == *final(r),
    {
        self.push_arg_token(key);
        self.push_arg_token(option);
        self
    }

    /// Adds a parameter as one argument token.
    pub fn push_param(&mut self, param: &str) -> (r: &mut Self)
        ensures
            (*r)@ == (CmdView { args: old(self)@.args.push(param@), ..old(self)@ }),
            *final(self) == *final(r),
    {
        self.push_arg_token(param);
        self
    }

    /// Replaces the subcommands with the given list.
    pub fn push_cmds(&mut self, cmdlist: CmdList) -> (r: &mut Self)
        ensures
            (*r)@ == (CmdView { subcommands: Some(cmdlist@), ..old(self)@ }),
            *final(self) == *final(r),
    {
        self.subcommands = Some(cmdlist);
        self
    }

    /// Adds a flag and its value as two argument tokens.
    pub fn arg(&mut self, flag: &str, opt: &str) -> (r: &mut Self)
        ensures
            (*r)@ == (CmdView { args: old(self)@.args.push(flag@).push(opt@), ..old(self)@ }),
            *final(self) == *final(r),
    {
        self.push_arg_token(flag);
        self.push_arg_token(opt);
        self
    }

    /// Adds an option, a short flag and its value, as two argument tokens.
    pub fn opt(&mut self, short: &str, opt: &str) -> (r: &mut Self)
        ensures
            (*r)@ == (CmdView { args: old(self)@.args.push(short@).push(opt@), ..old(self)@ }),
            *final(self) == *final(r),
    {
        self.push_arg_token(short);
        self.push_arg_token(opt);
        self
    }

    /// Adds a parameter as one argument token.
    pub fn param(&mut self, param: &str) -> (r: &mut Self)
        ensures
            (*r)@ == (CmdView { args: old(self)@.args.push(param@), ..old(self)@ }),
            *final(self) == *final(r),
    {
        self.push_arg_token(param);
        self
    }

    /// Renders short flags as separate tokens (`-a -b`) rather than one.
    pub fn not_combine_short_flags(&mut self) -> (r: &mut Self)
        ensures
            (*r)@ == (CmdView { combine_short_flags: false, ..old(self)@ }),
            *final(self) == *final(r),
    {
        self.not_combine_short_flags = true;
        self
    }

    /// Renders the name, never the alias.
    pub fn not_use_alias(&mut self) -> (r: &mut Self)
        ensures
            (*r)@ == (CmdView { use_alias: false, ..old(self)@ }),
            *final(self) == *final(r),
    {
        self.use_alias = false;
        self
    }

    /// Renders the alias in place of the name, where there is one.
    pub fn use_alias(&mut self) -> (r: &mut Self)
        ensures
            (*r)@ == (CmdView { use_alias: true, ..old(self)@ }),
            *final(self) == *final(r),
    {
        self.use_alias = true;
        self
    }

    /// Adds a subcommand at the end of the subcommands list, which is
    /// created with the separator `;` where there was none.
    pub fn push_cmd(&mut self, cmd: Cmd) -> (r: &mut Self)
        ensures
            (*r)@ == old(self)@.push_subcommand(cmd@),
            *final(self) == *final(r),
    {
        self.subcommands.get_or_insert(CmdList::new()).push(cmd);
        self
    }

    /// The identifier token: the alias where preferred and present, else the
    /// name where present.
    fn ident_strings(&self) -> (r: Vec<String>)
        ensures
            strs_view(r@) == ident_tokens(self@),
    {
        let mut r: Vec<String> = Vec::new();
        let mut done = false;
        if self.use_alias {
            match &self.alias {
                Some(a) => {
                    r.push(a.clone());
                    done = true;
                },
                None => {},
            }
        }
        if !done {
            match &self.name {
                Some(n) => {
                    r.push(n.clone());
                },
                None => {},
            }
        }
        assert(strs_view(r@) =~= ident_tokens(self@));
        r
    }

    /// The command's tokens: environment (`KEY=VALUE`), name or alias, short
    /// flags, arguments, then the tokens of the subcommands.
    pub fn to_vec(&self) -> (r: Vec<String>)
        ensures
            strs_view(r@) == render_cmd(self@),
        decreases self,
    {
        let mut v = env_strings(&self.envs);
        append_strings(&mut v, self.ident_strings());
        append_strings(&mut v, flag_strings(&self.flags_short, !self.not_combine_short_flags));
        match &self.args {
            Some(a) => append_strings(&mut v, clone_strings(a)),
            None => {},
        }
        match &self.subcommands {
            Some(l) => append_strings(&mut v, l.to_vec()),
            None => {},
        }
        assert(strs_view(v@) =~= render_cmd(self@));
        v
    }
}

impl Cmd {
    /// The tokens joined into one string, `join` between two of them.
    pub fn render_joined(&self, join_token: &str) -> (r: String)
        ensures
            r@ == joined(render_cmd(self@), join_token@),
    {
        join(&self.to_vec(), join_token)
    }

    /// The tokens joined into one string by single spaces.
    pub fn to_string(&self) -> (r: String)
        ensures
            r@ == joined(render_cmd(self@), seq![' ']),
    {
        proof {
            reveal_strlit(" ");
            assert(" "@ =~= seq![' ']);
        }
        self.render_joined(" ")
    }

    /// The program, arguments and environment that run this command.
    pub fn to_invocation(&self) -> (r: Invocation)
        ensures
            r.runs(self@),
    {
        let id = self.ident_strings();
        let program = if id.len() == 0 {
            String::new()
        } else {
            id[0].clone()
        };
        let mut args = flag_strings(&self.flags_short, !self.not_combine_short_flags);
        match &self.args {
            Some(a) => append_strings(&mut args, clone_strings(a)),
            None => {},
        }
        match &self.subcommands {
            Some(l) => append_strings(&mut args, l.to_vec()),
            None => {},
        }
        let envs = match &self.envs {
            Some(e) => clone_envs(e),
            None => Vec::new(),
        };
        assert(strs_view(args@) =~= invocation_args(self@));
        assert(envs_view(Some(envs)) =~= self@.envs);
        Invocation { program, args, envs }
    }
}

/// Rendering is a function of the command's field values: two commands
/// whose fields hold the same values (one command rendered twice among them)
/// render to the same tokens.
pub proof fn render_is_deterministic(a: &Cmd, b: &Cmd)
    requires
        a@ == b@,
    ensures
        render_cmd(a@) == render_cmd(b@),
{
}

impl Default for Cmd {
    fn default() -> (r: Self)
        ensures
            r@ == CmdView::empty(),
    {
        Cmd::new()
    }
}

impl Clone for Cmd {
    fn clone(&self) -> (r: Cmd)
        ensures
            r@ == self@,
    {
        self.clone_cmd()
    }
}

} // verus!
