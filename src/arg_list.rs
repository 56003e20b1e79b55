use vstd::prelude::*;
use crate::arg::Arg;
use crate::flag::opt_str_view;
use crate::model::sep_tokens;
use crate::tokens::{strs_view, append_strings, joined};
use vstd::string::StringExecFns;

verus! {

/// An ordered list of arguments, with an optional separator token between
/// two consecutive arguments.
#[derive(Debug, Clone)]
pub struct ArgList {
    pub args: Vec<Arg>,
    pub separator: Option<String>,
}

/// The tokens of a sequence of arguments, with the separator token (where
/// there is one) between two consecutive arguments.
pub open spec fn render_args(args: Seq<Arg>, sep: Option<Seq<char>>) -> Seq<Seq<char>>
    decreases args.len(),
{
    if args.len() == 0 {
        seq![]
    } else if args.len() == 1 {
        args[0].tokens()
    } else {
        render_args(args.drop_last(), sep) + sep_tokens(sep) + args.last().tokens()
    }
}

/// The text of each argument (its tokens joined by a space), written one
/// after another.
pub open spec fn args_text(args: Seq<Arg>) -> Seq<char>
    decreases args.len(),
{
    if args.len() == 0 {
        seq![]
    } else {
        args_text(args.drop_last()) + joined(args.last().tokens(), seq![' '])
    }
}

impl ArgList {
    /// An empty list without separator.
    pub fn new() -> (r: Self)
        ensures
            r.args@ == Seq::<Arg>::empty(),
            r.separator is None,
    {
        ArgList { args: Vec::new(), separator: None }
    }

    /// Appends an argument.
    pub fn push(&mut self, arg: Arg)
        ensures
            final(self).args@ == old(self).args@.push(arg),
            final(self).separator == old(self).separator,
    {
        self.args.push(arg);
    }

    /// Appends a flag.
    pub fn push_flag(&mut self, flag: &str)
        ensures
            final(self).args@.len() == old(self).args@.len() + 1,
            final(self).args@.drop_last() == old(self).args@,
            final(self).args@.last() matches Arg::Flag(f) && opt_str_view(f.short) == Some(flag@)
                && f.long is None,
            final(self).separator == old(self).separator,
    {
        let ghost before = self.args@;
        self.args.push(Arg::flag(flag));
        assert(self.args@.drop_last() =~= before);
    }

    /// The tokens of every argument in order, with the separator token
    /// (where there is one) between two consecutive arguments.
    pub fn to_vec(&self) -> (r: Vec<String>)
        ensures
            strs_view(r@) == render_args(self.args@, opt_str_view(self.separator)),
    {
        let mut v: Vec<String> = Vec::new();
        let n = self.args.len();
        let ghost sep = opt_str_view(self.separator);
        for i in 0..n
            invariant
                n == self.args.len(),
                sep == opt_str_view(self.separator),
                strs_view(v@) == render_args(self.args@.take(i as int), sep),
        {
            let ghost before = strs_view(v@);
            if i > 0 {
                match &self.separator {
                    Some(s) => {
                        v.push(s.clone());
                        assert(strs_view(v@) =~= before + sep_tokens(sep));
                    },
                    None => {
                        assert(strs_view(v@) =~= before + sep_tokens(sep));
                    },
                }
            } else {
                assert(strs_view(v@) =~= seq![]);
            }
            append_strings(&mut v, self.args[i].to_vec());
            assert(self.args@.take(i + 1).drop_last() =~= self.args@.take(i as int));
        }
        assert(self.args@.take(n as int) =~= self.args@);
        v
    }

    /// The text of every argument, written one after another.
    pub fn to_string(&self) -> (r: String)
        ensures
            r@ == args_text(self.args@),
    {
        let mut r = String::new();
        let n = self.args.len();
        for i in 0..n
            invariant
                n == self.args.len(),
                r@ == args_text(self.args@.take(i as int)),
        {
            let t = self.args[i].to_string();
            r.append(t.as_str());
            assert(self.args@.take(i + 1).drop_last() =~= self.args@.take(i as int));
        }
        assert(self.args@.take(n as int) =~= self.args@);
        r
    }
}

impl Default for ArgList {
    fn default() -> (r: Self)
        ensures
            r.args@ == Seq::<Arg>::empty(),
            r.separator is None,
    {
        ArgList::new()
    }
}

impl From<Arg> for ArgList {
    fn from(item: Arg) -> (r: ArgList)
        ensures
            r.args@ == seq![item],
            r.separator is None,
    {
        let mut r = ArgList::new();
        r.push(item);
        r
    }
}

impl vstd::std_specs::convert::FromSpecImpl<Arg> for ArgList {
    /// `from` is described by its own `ensures`, over the list's fields.
    open spec fn obeys_from_spec() -> bool {
        false
    }

    open spec fn from_spec(v: Arg) -> ArgList {
        arbitrary()
    }
}

} // verus!
