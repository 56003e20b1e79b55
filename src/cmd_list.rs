use vstd::prelude::*;
use crate::cmd::{Cmd, cmd_view};
use crate::model::{default_separator, CmdView, CmdListView, render_cmds, render_list, sep_tokens, lemma_render_cmds_push};
use crate::tokens::{strs_view, append_strings, joined, join};
use crate::invocation::Invocation;
use crate::flag::opt_str_view;

verus! {

/// An ordered sequence of commands joined by a separator token.
#[derive(Debug)]
pub struct CmdList {
    pub commands: Vec<Cmd>,
    pub separator: Option<String>,
}

/// The models of a sequence of commands.
pub open spec fn cmds_view(s: Seq<Cmd>) -> Seq<CmdView>
    decreases s,
{
    if s.len() == 0 {
        seq![]
    } else {
        cmds_view(s.drop_last()).push(cmd_view(s.last()))
    }
}

/// The model of a command list.
pub open spec fn cmd_list_view(l: CmdList) -> CmdListView
    decreases l,
{
    CmdListView { commands: cmds_view(l.commands@), separator: opt_str_view(l.separator) }
}

impl View for CmdList {
    type V = CmdListView;

    open spec fn view(&self) -> CmdListView {
        cmd_list_view(*self)
    }
}

impl CmdList {
    /// A copy with the same model.
    pub(crate) fn clone_list(&self) -> (r: CmdList)
        ensures
            r@ == self@,
        decreases self,
    {
        let mut commands: Vec<Cmd> = Vec::new();
        let n = self.commands.len();
        for i in 0..n
            invariant
                n == self.commands.len(),
                cmds_view(commands@) == cmds_view(self.commands@.take(i as int)),
        {
            let c = self.commands[i].clone_cmd();
            let ghost before = commands@;
            commands.push(c);
            assert(commands@.drop_last() =~= before);
            assert(self.commands@.take(i + 1).drop_last() =~= self.commands@.take(i as int));
        }
        assert(self.commands@.take(n as int) =~= self.commands@);
        CmdList { commands, separator: self.separator.clone() }
    }
}

pub proof fn lemma_cmds_view_len(s: Seq<Cmd>)
    ensures
        cmds_view(s).len() == s.len(),
    decreases s.len(),
{
    if s.len() > 0 {
        lemma_cmds_view_len(s.drop_last());
    }
}

pub proof fn lemma_cmds_view_index(s: Seq<Cmd>, i: int)
    requires
        0 <= i < s.len(),
    ensures
        cmds_view(s)[i] == cmd_view(s[i]),
    decreases s.len(),
{
    lemma_cmds_view_len(s.drop_last());
    if i < s.len() - 1 {
        lemma_cmds_view_index(s.drop_last(), i);
    }
}

impl CmdList {
    /// An empty list with the separator `;`.
    pub fn new() -> (r: Self)
        ensures
            r@ == CmdListView::empty(),
    {
        let r = CmdList { commands: Vec::new(), separator: Some(";".to_owned()) };
        proof {
            reveal_strlit(";");
            assert(r@.separator->0 =~= default_separator());
            assert(r@.commands =~= seq![]);
        }
        r
    }

    /// Appends a command at the end.
    pub fn push(&mut self, command: Cmd)
        ensures
            final(self)@ == (CmdListView { commands: old(self)@.commands.push(command@), ..old(self)@ }),
    {
        let ghost before = self.commands@;
        self.commands.push(command);
        assert(self.commands@.drop_last() =~= before);
    }

    /// The tokens of every command in order, with the separator token (where
    /// there is one) between two consecutive commands.
    pub fn to_vec(&self) -> (r: Vec<String>)
        ensures
            strs_view(r@) == render_list(self@),
        decreases self,
    {
        let mut v: Vec<String> = Vec::new();
        let n = self.commands.len();
        let ghost sep = opt_str_view(self.separator);
        for i in 0..n
            invariant
                n == self.commands.len(),
                sep == opt_str_view(self.separator),
                strs_view(v@) == render_cmds(cmds_view(self.commands@.take(i as int)), sep),
        {
            let ghost before = strs_view(v@);
            if i > 0 {
                match &self.separator {
                    Some(s) => {
                        v.push(s.clone());
                        assert(strs_view(v@) =~= before + sep_tokens(sep));
                    },
                    None => {
                        assert(strs_view(v@) =~= before + sep_tokens(sep));
                    },
                }
            } else {
                assert(strs_view(v@) =~= seq![]);
            }
            append_strings(&mut v, self.commands[i].to_vec());
            proof {
                let prev = self.commands@.take(i as int);
                assert(self.commands@.take(i + 1) =~= prev.push(self.commands@[i as int]));
                assert(prev.push(self.commands@[i as int]).drop_last() =~= prev);
                lemma_cmds_view_len(prev);
                lemma_render_cmds_push(cmds_view(prev), cmd_view(self.commands@[i as int]), sep);
            }
        }
        assert(self.commands@.take(n as int) =~= self.commands@);
        v
    }
}

impl CmdList {
    /// This list with the command appended.
    pub fn cmd(self, command: Cmd) -> (r: Self)
        ensures
            r@ == (CmdListView { commands: self@.commands.push(command@), ..self@ }),
    {
        let mut l = self;
        l.push(command);
        l
    }

    /// Sets the separator token.
    pub fn separator(&mut self, separator: &str) -> (r: &mut Self)
        ensures
            (*r)@ == (CmdListView { separator: Some(separator@), ..old(self)@ }),
            *final(self) == *final(r),
    {
        self.separator = Some(separator.to_owned());
        self
    }

    pub fn get_separator(&self) -> (r: Option<&String>)
        ensures
            match r {
                Some(s) => self@.separator == Some(s@),
                None => self@.separator is None,
            },
    {
        self.separator.as_ref()
    }

    /// The commands, in order.
    pub fn into_cmds(self) -> (r: Vec<Cmd>)
        ensures
            cmds_view(r@) == self@.commands,
    {
        self.commands
    }

    /// The tokens joined into one string, `join` between two of them.
    pub fn render_joined(&self, join_token: &str) -> (r: String)
        ensures
            r@ == joined(render_list(self@), join_token@),
    {
        join(&self.to_vec(), join_token)
    }

    /// The tokens joined into one string by single spaces.
    pub fn to_string(&self) -> (r: String)
        ensures
            r@ == joined(render_list(self@), seq![' ']),
    {
        proof {
            reveal_strlit(" ");
            assert(" "@ =~= seq![' ']);
        }
        self.render_joined(" ")
    }

    /// One invocation per command, in order.
    pub fn to_invocations(&self) -> (r: Vec<Invocation>)
        ensures
            r@.len() == self@.commands.len(),
            forall|i: int| 0 <= i < r@.len() ==> (#[trigger] r@[i]).runs(self@.commands[i]),
    {
        let mut r: Vec<Invocation> = Vec::new();
        let n = self.commands.len();
        proof {
            lemma_cmds_view_len(self.commands@);
        }
        for i in 0..n
            invariant
                n == self.commands.len(),
                n == self@.commands.len(),
                r@.len() == i,
                forall|j: int| 0 <= j < i ==> (#[trigger] r@[j]).runs(self@.commands[j]),
        {
            proof {
                lemma_cmds_view_index(self.commands@, i as int);
            }
            r.push(self.commands[i].to_invocation());
        }
        r
    }
}

impl Default for CmdList {
    fn default() -> (r: Self)
        ensures
            r@ == CmdListView::empty(),
    {
        CmdList::new()
    }
}

impl Clone for CmdList {
    fn clone(&self) -> (r: CmdList)
        ensures
            r@ == self@,
    {
        self.clone_list()
    }
}

} // verus!
