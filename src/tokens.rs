use vstd::prelude::*;
use vstd::string::StringExecFns;

verus! {

/// The character sequences held by a sequence of strings.
pub open spec fn strs_view(v: Seq<String>) -> Seq<Seq<char>> {
    v.map_values(|s: String| s@)
}

/// The tokens written one after another, `sep` between two consecutive ones.
pub open spec fn joined(tokens: Seq<Seq<char>>, sep: Seq<char>) -> Seq<char>
    decreases tokens.len(),
{
    if tokens.len() == 0 {
        seq![]
    } else if tokens.len() == 1 {
        tokens[0]
    } else {
        joined(tokens.drop_last(), sep) + sep + tokens.last()
    }
}

/// The strings joined into one, `sep` between two consecutive ones.
pub fn join(tokens: &Vec<String>, sep: &str) -> (r: String)
    ensures
        r@ == joined(strs_view(tokens@), sep@),
{
    let mut r = String::new();
    let n = tokens.len();
    for i in 0..n
        invariant
            n == tokens.len(),
            r@ == joined(strs_view(tokens@).take(i as int), sep@),
    {
        if i > 0 {
            r.append(sep);
        }
        r.append(tokens[i].as_str());
        proof {
            let t = strs_view(tokens@).take(i + 1);
            assert(t.drop_last() =~= strs_view(tokens@).take(i as int));
            if i == 0 {
                assert(r@ =~= t[0]);
            }
        }
    }
    assert(strs_view(tokens@).take(n as int) =~= strs_view(tokens@));
    r
}

/// Relies on `String::push`: the character is appended at the end.
#[verifier::external_body]
pub(crate) fn push_char(s: &mut String, c: char)
    ensures
        final(s)@ == old(s)@.push(c),
{
    s.push(c)
}

pub proof fn lemma_strs_view_concat(a: Seq<String>, b: Seq<String>)
    ensures
        strs_view(a + b) == strs_view(a) + strs_view(b),
{
    assert(strs_view(a + b) =~= strs_view(a) + strs_view(b));
}

/// Moves the strings of `other` to the end of `v`.
pub fn append_strings(v: &mut Vec<String>, other: Vec<String>)
    ensures
        strs_view(final(v)@) == strs_view(old(v)@) + strs_view(other@),
{
    let mut other = other;
    proof {
        lemma_strs_view_concat(v@, other@);
    }
    v.append(&mut other);
}

} // verus!
