use vstd::prelude::*;

verus! {

/// A flag given by its short form, its long form, or both.
/// Its text is the short form when there is one, else the long form.
#[derive(Debug, Clone)]
pub struct Flag {
    pub short: Option<String>,
    pub long: Option<String>,
}

/// The view of an optional string.
pub open spec fn opt_str_view(o: Option<String>) -> Option<Seq<char>> {
    match o {
        Some(s) => Some(s@),
        None => None,
    }
}

impl Flag {
    /// The single token this flag renders to: the short form if set, else
    /// the long form if set, else the empty string.
    pub open spec fn text(&self) -> Seq<char> {
        match self.short {
            Some(s) => s@,
            None => match self.long {
                Some(l) => l@,
                None => seq![],
            },
        }
    }

    pub fn new_short(flag: &str) -> (r: Self)
        ensures
            opt_str_view(r.short) == Some(flag@),
            r.long is None,
    {
        Flag { short: Some(flag.to_owned()), long: None }
    }

    pub fn new_long(flag: &str) -> (r: Self)
        ensures
            r.short is None,
            opt_str_view(r.long) == Some(flag@),
    {
        Flag { short: None, long: Some(flag.to_owned()) }
    }

    pub fn get_short(&self) -> (r: Option<&str>)
        ensures
            match r {
                Some(s) => self.short is Some && s@ == self.short->0@,
                None => self.short is None,
            },
    {
        match &self.short {
            Some(s) => Some(s.as_str()),
            None => None,
        }
    }

    pub fn get_long(&self) -> (r: Option<&str>)
        ensures
            match r {
                Some(s) => self.long is Some && s@ == self.long->0@,
                None => self.long is None,
            },
    {
        match &self.long {
            Some(s) => Some(s.as_str()),
            None => None,
        }
    }

    /// The flag's text as an owned string.
    pub fn to_string(&self) -> (r: String)
        ensures
            r@ == self.text(),
    {
        match &self.short {
            Some(s) => s.clone(),
            None => match &self.long {
                Some(l) => l.clone(),
                None => String::new(),
            },
        }
    }
}

impl Default for Flag {
    fn default() -> (r: Self)
        ensures
            r.short is None,
            r.long is None,
    {
        Flag { short: None, long: None }
    }
}

} // verus!
