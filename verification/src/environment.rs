//! A record of environment variables: which names are set, and to what.
//!
//! The record is filled by whoever can see the process environment and is
//! then read, never the process itself, so that everything drawn from it
//! agrees with one fixed state.

use vstd::prelude::*;
use crate::text::same_text;

verus! {

/// The variables that a list of bindings sets. A later binding of a name
/// replaces an earlier one.
spec fn bindings(pairs: Seq<(String, String)>) -> Map<Seq<char>, Seq<char>>
    decreases pairs.len(),
{
    if pairs.len() == 0 {
        Map::empty()
    } else {
        bindings(pairs.drop_last()).insert(pairs.last().0@, pairs.last().1@)
    }
}

/// A name that no binding mentions is not set.
proof fn lemma_unbound_name_is_unset(pairs: Seq<(String, String)>, name: Seq<char>)
    requires
        forall|k: int| 0 <= k < pairs.len() ==> pairs[k].0@ != name,
    ensures
        !bindings(pairs).contains_key(name),
    decreases pairs.len(),
{
    if pairs.len() > 0 {
        lemma_unbound_name_is_unset(pairs.drop_last(), name);
    }
}

/// The last binding of a name is the one that counts.
proof fn lemma_last_binding_wins(pairs: Seq<(String, String)>, at: int, name: Seq<char>)
    requires
        0 <= at < pairs.len(),
        pairs[at].0@ == name,
        forall|k: int| at < k < pairs.len() ==> pairs[k].0@ != name,
    ensures
        bindings(pairs).contains_key(name),
        bindings(pairs)[name] == pairs[at].1@,
    decreases pairs.len(),
{
    if at < pairs.len() - 1 {
        lemma_last_binding_wins(pairs.drop_last(), at, name);
    }
}

/// A set of environment variables, each with its value.
pub struct Environment {
    vars: Vec<(String, String)>,
}

impl View for Environment {
    type V = Map<Seq<char>, Seq<char>>;

    /// The variables that are set, by name.
    closed spec fn view(&self) -> Map<Seq<char>, Seq<char>> {
        bindings(self.vars@)
    }
}

impl Environment {
    /// An environment in which no variable is set.
    pub fn new() -> (env: Self)
        ensures
            env@ == Map::<Seq<char>, Seq<char>>::empty(),
    {
        Environment { vars: Vec::new() }
    }

    /// Sets the variable `name` to `value`, whatever it was before. Any
    /// value is taken as it is, the empty string too.
    pub fn set(&mut self, name: &str, value: &str)
        ensures
            final(self)@ == old(self)@.insert(name@, value@),
    {
        let ghost before = self.vars@;
        self.vars.push((name.to_owned(), value.to_owned()));
        proof {
            assert(self.vars@.drop_last() =~= before);
        }
    }

    /// The value of the variable `name`, or `None` where it is not set.
    pub fn get(&self, name: &str) -> (value: Option<String>)
        ensures
            value.deep_view() == self@.get(name@),
    {
        let mut i: usize = self.vars.len();
        while i > 0
            invariant
                i <= self.vars@.len(),
                forall|k: int| i <= k < self.vars@.len() ==> self.vars@[k].0@ != name@,
            decreases i,
        {
            i -= 1;
            if same_text(self.vars[i].0.as_str(), name) {
                proof {
                    lemma_last_binding_wins(self.vars@, i as int, name@);
                }
                return Some(self.vars[i].1.clone());
            }
        }
        proof {
            lemma_unbound_name_is_unset(self.vars@, name@);
        }
        None
    }
}

} // verus!
