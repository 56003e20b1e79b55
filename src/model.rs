use vstd::prelude::*;

verus! {

/// The mathematical model of a command: every field as plain sequences.
/// An absent collection is modelled as an empty one.
pub struct CmdView {
    pub envs: Seq<(Seq<char>, Seq<char>)>,
    pub name: Option<Seq<char>>,
    pub alias: Option<Seq<char>>,
    pub short_flags: Seq<char>,
    pub args: Seq<Seq<char>>,
    pub subcommands: Option<CmdListView>,
    pub combine_short_flags: bool,
    pub use_alias: bool,
}

/// The mathematical model of a command list.
pub struct CmdListView {
    pub commands: Seq<CmdView>,
    pub separator: Option<Seq<char>>,
}

/// The separator token a new command list starts with.
pub open spec fn default_separator() -> Seq<char> {
    seq![';']
}

impl CmdView {
    /// A command with no field set: short flags combined, name preferred.
    pub open spec fn empty() -> CmdView {
        CmdView {
            envs: seq![],
            name: None,
            alias: None,
            short_flags: seq![],
            args: seq![],
            subcommands: None,
            combine_short_flags: true,
            use_alias: false,
        }
    }

    /// This command with `c` appended to its subcommands; a command without
    /// subcommands gets a new list with the default separator.
    pub open spec fn push_subcommand(self, c: CmdView) -> CmdView {
        CmdView {
            subcommands: Some(
                match self.subcommands {
                    Some(l) => CmdListView { commands: l.commands.push(c), ..l },
                    None => CmdListView { commands: seq![c], separator: Some(default_separator()) },
                },
            ),
            ..self
        }
    }
}

impl CmdListView {
    /// An empty list with the default separator.
    pub open spec fn empty() -> CmdListView {
        CmdListView { commands: seq![], separator: Some(default_separator()) }
    }
}

/// `KEY=VALUE`
pub open spec fn env_token(pair: (Seq<char>, Seq<char>)) -> Seq<char> {
    pair.0 + seq!['='] + pair.1
}

/// One token per environment pair, in insertion order.
pub open spec fn env_tokens(envs: Seq<(Seq<char>, Seq<char>)>) -> Seq<Seq<char>> {
    envs.map_values(|p: (Seq<char>, Seq<char>)| env_token(p))
}

/// The identifier token: the alias where it is preferred and present,
/// else the name where present, else nothing.
pub open spec fn ident_tokens(c: CmdView) -> Seq<Seq<char>> {
    if c.use_alias && c.alias is Some {
        seq![c.alias->0]
    } else if c.name is Some {
        seq![c.name->0]
    } else {
        seq![]
    }
}

/// `-x` for one short flag.
pub open spec fn short_flag_token(ch: char) -> Seq<char> {
    seq!['-', ch]
}

/// Short flags: nothing when there are none; else one token `-abc` when
/// combined, or one token `-a` per flag.
pub open spec fn flag_tokens(flags: Seq<char>, combine: bool) -> Seq<Seq<char>> {
    if flags.len() == 0 {
        seq![]
    } else if combine {
        seq![seq!['-'] + flags]
    } else {
        flags.map_values(|ch: char| short_flag_token(ch))
    }
}

/// The separator token, where the list has one.
pub open spec fn sep_tokens(sep: Option<Seq<char>>) -> Seq<Seq<char>> {
    match sep {
        Some(s) => seq![s],
        None => seq![],
    }
}

/// The tokens of a command: environment, identifier, short flags,
/// arguments, subcommands, in that fixed order.
pub open spec fn render_cmd(c: CmdView) -> Seq<Seq<char>>
    decreases c,
{
    env_tokens(c.envs) + ident_tokens(c) + flag_tokens(c.short_flags, c.combine_short_flags)
        + c.args + match c.subcommands {
        Some(l) => render_cmds(l.commands, l.separator),
        None => seq![],
    }
}

/// The tokens of a sequence of commands, with the separator token between
/// two consecutive commands.
pub open spec fn render_cmds(cmds: Seq<CmdView>, sep: Option<Seq<char>>) -> Seq<Seq<char>>
    decreases cmds,
{
    if cmds.len() == 0 {
        seq![]
    } else if cmds.len() == 1 {
        render_cmd(cmds[0])
    } else {
        render_cmds(cmds.drop_last(), sep) + sep_tokens(sep) + render_cmd(cmds.last())
    }
}

/// The tokens of a command list.
pub open spec fn render_list(l: CmdListView) -> Seq<Seq<char>> {
    render_cmds(l.commands, l.separator)
}

/// How many tokens of `s` equal `t`.
pub open spec fn count_token(s: Seq<Seq<char>>, t: Seq<char>) -> nat
    decreases s.len(),
{
    if s.len() == 0 {
        0
    } else {
        count_token(s.drop_last(), t) + if s.last() == t {
            1nat
        } else {
            0nat
        }
    }
}

pub proof fn lemma_count_token_concat(a: Seq<Seq<char>>, b: Seq<Seq<char>>, t: Seq<char>)
    ensures
        count_token(a + b, t) == count_token(a, t) + count_token(b, t),
    decreases b.len(),
{
    if b.len() > 0 {
        assert((a + b).drop_last() =~= a + b.drop_last());
        lemma_count_token_concat(a, b.drop_last(), t);
    } else {
        assert(a + b =~= a);
    }
}

pub proof fn lemma_count_token_absent(s: Seq<Seq<char>>, t: Seq<char>)
    requires
        !s.contains(t),
    ensures
        count_token(s, t) == 0,
    decreases s.len(),
{
    if s.len() > 0 {
        assert(s.drop_last().contains(t) ==> s.contains(t)) by {
            if s.drop_last().contains(t) {
                let k = choose|k: int| 0 <= k < s.drop_last().len() && s.drop_last()[k] == t;
                assert(s[k] == t);
            }
        }
        assert(s[s.len() - 1] != t);
        lemma_count_token_absent(s.drop_last(), t);
    }
}

/// The first and the last token of a sequence of commands that each render
/// to at least one token.
proof fn lemma_render_cmds_ends(cmds: Seq<CmdView>, sep: Option<Seq<char>>)
    requires
        cmds.len() > 0,
        forall|i: int| 0 <= i < cmds.len() ==> render_cmd(#[trigger] cmds[i]).len() > 0,
    ensures
        render_cmds(cmds, sep).len() > 0,
        render_cmds(cmds, sep)[0] == render_cmd(cmds[0])[0],
        render_cmds(cmds, sep).last() == render_cmd(cmds.last()).last(),
    decreases cmds.len(),
{
    if cmds.len() > 1 {
        let prev = cmds.drop_last();
        assert(render_cmd(cmds[cmds.len() - 1]).len() > 0);
        assert(prev[0] == cmds[0]);
        lemma_render_cmds_ends(prev, sep);
    }
}

/// A command with no environment, no name or alias, no short flags, no
/// arguments and no subcommands renders to no token at all.
pub proof fn empty_cmd_renders_nothing(c: CmdView)
    requires
        c.envs.len() == 0,
        c.name is None,
        c.alias is None,
        c.short_flags.len() == 0,
        c.args.len() == 0,
        c.subcommands is None || c.subcommands->0.commands.len() == 0,
    ensures
        render_cmd(c) == Seq::<Seq<char>>::empty(),
{
    assert(render_cmd(c) =~= Seq::<Seq<char>>::empty());
}

/// The tokens of a command come in a fixed order, each group in the order
/// its elements were added: the environment pairs, then the identifier,
/// then the short flags, then the arguments, then the subcommands' tokens.
pub proof fn render_keeps_order(c: CmdView)
    ensures
        ({
            let r = render_cmd(c);
            let e = c.envs.len() as int;
            let id = ident_tokens(c).len() as int;
            let f = flag_tokens(c.short_flags, c.combine_short_flags).len() as int;
            let a = c.args.len() as int;
            &&& e + id + f + a <= r.len()
            &&& forall|i: int| 0 <= i < e ==> r[i] == env_token(#[trigger] c.envs[i])
            &&& r.subrange(e, e + id) == ident_tokens(c)
            &&& !c.combine_short_flags ==> forall|i: int|
                0 <= i < c.short_flags.len() ==> r[e + id + i] == short_flag_token(
                    #[trigger] c.short_flags[i],
                )
            &&& c.combine_short_flags && c.short_flags.len() > 0 ==> r[e + id] == seq!['-']
                + c.short_flags
            &&& forall|i: int| 0 <= i < a ==> r[e + id + f + i] == #[trigger] c.args[i]
            &&& r.subrange(e + id + f + a, r.len() as int) == match c.subcommands {
                Some(l) => render_list(l),
                None => seq![],
            }
        }),
{
    let r = render_cmd(c);
    let e = c.envs.len() as int;
    let id = ident_tokens(c).len() as int;
    let f = flag_tokens(c.short_flags, c.combine_short_flags).len() as int;
    let a = c.args.len() as int;
    assert(r.subrange(e, e + id) =~= ident_tokens(c));
    assert(r.subrange(e + id + f + a, r.len() as int) =~= match c.subcommands {
        Some(l) => render_list(l),
        None => seq![],
    });
}

/// A list with a separator token emits it exactly once between two
/// consecutive commands, never first nor last: `n - 1` times for `n`
/// commands. This holds where every command renders to at least one token
/// and none of its tokens equals the separator.
pub proof fn list_separators(l: CmdListView)
    requires
        l.separator is Some,
        forall|i: int| 0 <= i < l.commands.len() ==> render_cmd(#[trigger] l.commands[i]).len() > 0,
        forall|i: int|
            0 <= i < l.commands.len() ==> !render_cmd(#[trigger] l.commands[i]).contains(
                l.separator->0,
            ),
    ensures
        l.commands.len() == 0 ==> render_list(l).len() == 0,
        l.commands.len() > 0 ==> {
            let r = render_list(l);
            &&& r.len() > 0
            &&& r[0] != l.separator->0
            &&& r.last() != l.separator->0
            &&& count_token(r, l.separator->0) == l.commands.len() - 1
        },
    decreases l.commands.len(),
{
    let cmds = l.commands;
    let sep = l.separator->0;
    if cmds.len() > 0 {
        lemma_render_cmds_ends(cmds, l.separator);
        let first = render_cmd(cmds[0]);
        let last = render_cmd(cmds.last());
        assert(!first.contains(sep));
        assert(!last.contains(sep));
        assert(first[0] != sep) by {
            if first[0] == sep {
                assert(first.contains(sep));
            }
        }
        assert(last.last() != sep) by {
            if last.last() == sep {
                assert(last[last.len() - 1] == sep);
            }
        }
        lemma_count_token_absent(last, sep);
        if cmds.len() == 1 {
            lemma_count_token_absent(first, sep);
        } else {
            let prev = CmdListView { commands: cmds.drop_last(), ..l };
            assert forall|i: int| 0 <= i < prev.commands.len() implies render_cmd(
                #[trigger] prev.commands[i],
            ).len() > 0 && !render_cmd(prev.commands[i]).contains(sep) by {
                assert(prev.commands[i] == cmds[i]);
            }
            list_separators(prev);
            let p = render_list(prev);
            lemma_count_token_concat(p, seq![sep], sep);
            lemma_count_token_concat(p + seq![sep], last, sep);
            assert(count_token(seq![sep], sep) == 1) by {
                assert(seq![sep].drop_last() =~= Seq::<Seq<char>>::empty());
                assert(count_token(Seq::<Seq<char>>::empty(), sep) == 0);
                assert(seq![sep].last() == sep);
            }
        }
    }
}

pub proof fn lemma_render_cmds_push(cmds: Seq<CmdView>, c: CmdView, sep: Option<Seq<char>>)
    ensures
        render_cmds(cmds.push(c), sep) == if cmds.len() == 0 {
            render_cmd(c)
        } else {
            render_cmds(cmds, sep) + sep_tokens(sep) + render_cmd(c)
        },
{
    assert(cmds.push(c).drop_last() =~= cmds);
}

} // verus!
