use vstd::prelude::*;
use crate::flag::{Flag, opt_str_view};
use crate::opt::Opt;
use crate::param::Param;
use crate::tokens::{strs_view, joined};

verus! {

/// One argument of a command: a flag, an option or a parameter.
#[derive(Debug, Clone)]
pub enum Arg {
    Flag(Flag),
    Opt(Opt),
    Param(Param),
}

impl Arg {
    /// The tokens of the argument: one for a flag, two for an option (the
    /// flag, then the value), one for a parameter; all as given.
    pub open spec fn tokens(&self) -> Seq<Seq<char>> {
        match self {
            Arg::Flag(f) => seq![f.text()],
            Arg::Opt(o) => o.tokens(),
            Arg::Param(p) => seq![p.param@],
        }
    }

    pub fn flag(flag: &str) -> (r: Self)
        ensures
            r matches Arg::Flag(f) && opt_str_view(f.short) == Some(flag@) && f.long is None,
            r.tokens() == seq![flag@],
    {
        Arg::Flag(Flag::new_short(flag))
    }

    pub fn opt(flag: &str, opt: &str) -> (r: Self)
        ensures
            r matches Arg::Opt(o) && opt_str_view(o.flag.short) == Some(flag@) && o.flag.long is None
                && o.opt@ == opt@,
            r.tokens() == seq![flag@, opt@],
    {
        Arg::Opt(Opt::new_short(flag, opt))
    }

    pub fn param(param: &str) -> (r: Self)
        ensures
            r matches Arg::Param(p) && p.param@ == param@,
            r.tokens() == seq![param@],
    {
        Arg::Param(Param::new(param))
    }

    /// The argument's tokens.
    pub fn to_vec(&self) -> (r: Vec<String>)
        ensures
            strs_view(r@) == self.tokens(),
    {
        let mut r: Vec<String> = Vec::new();
        match self {
            Arg::Flag(f) => {
                r.push(f.to_string());
            },
            Arg::Opt(o) => {
                r.push(o.flag.to_string());
                r.push(o.opt.clone());
            },
            Arg::Param(p) => {
                r.push(p.to_string());
            },
        }
        assert(strs_view(r@) =~= self.tokens());
        r
    }

    /// The argument's tokens joined by a space.
    pub fn to_string(&self) -> (r: String)
        ensures
            r@ == joined(self.tokens(), seq![' ']),
    {
        let r = match self {
            Arg::Flag(f) => f.to_string(),
            Arg::Opt(o) => o.to_string(),
            Arg::Param(p) => p.to_string(),
        };
        proof {
            let t = self.tokens();
            if t.len() == 2 {
                assert(t.drop_last() =~= seq![t[0]]);
                assert(joined(seq![t[0]], seq![' ']) == t[0]);
            }
        }
        r
    }
}

} // verus!
