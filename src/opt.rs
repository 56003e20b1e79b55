use vstd::prelude::*;
use crate::flag::{Flag, opt_str_view};
use vstd::string::StringExecFns;

verus! {

/// An option: a flag followed by its value.
#[derive(Debug, Clone)]
pub struct Opt {
    pub flag: Flag,
    pub opt: String,
}

impl Opt {
    /// The two tokens of the option: the flag's text, then the value.
    pub open spec fn tokens(&self) -> Seq<Seq<char>> {
        seq![self.flag.text(), self.opt@]
    }

    pub fn new_short(flag: &str, opt: &str) -> (r: Self)
        ensures
            opt_str_view(r.flag.short) == Some(flag@),
            r.flag.long is None,
            r.opt@ == opt@,
    {
        Opt { flag: Flag::new_short(flag), opt: opt.to_owned() }
    }

    pub fn new_long(flag: &str, opt: &str) -> (r: Self)
        ensures
            r.flag.short is None,
            opt_str_view(r.flag.long) == Some(flag@),
            r.opt@ == opt@,
    {
        Opt { flag: Flag::new_long(flag), opt: opt.to_owned() }
    }

    /// The flag's text, a space, then the value.
    pub fn to_string(&self) -> (r: String)
        ensures
            r@ == self.flag.text() + seq![' '] + self.opt@,
    {
        let mut r = self.flag.to_string();
        r.append(" ");
        r.append(self.opt.as_str());
        proof {
            reveal_strlit(" ");
        }
        r
    }
}

} // verus!
