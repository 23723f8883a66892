//! The environment the shell reads: variables and their values, handed in as a
//! value so that nothing here depends on the state of the process.

use vstd::prelude::*;

verus! {

/// The map that a list of bindings stands for: a later binding of a name
/// replaces an earlier one.
pub open spec fn bindings_map(bindings: Seq<(String, String)>) -> Map<Seq<char>, Seq<char>>
    decreases bindings.len(),
{
    if bindings.len() == 0 {
        Map::empty()
    } else {
        bindings_map(bindings.drop_last()).insert(bindings.last().0@, bindings.last().1@)
    }
}

/// The value of `name` in `env`, or the empty text when `name` is unset.
pub open spec fn value_or_empty(env: Map<Seq<char>, Seq<char>>, name: Seq<char>) -> Seq<char> {
    if env.contains_key(name) {
        env[name]
    } else {
        Seq::empty()
    }
}

/// A set of variables with their values.
pub struct Environment {
    bindings: Vec<(String, String)>,
}

impl View for Environment {
    type V = Map<Seq<char>, Seq<char>>;

    closed spec fn view(&self) -> Map<Seq<char>, Seq<char>> {
        bindings_map(self.bindings@)
    }
}

impl Environment {
    /// The environment in which no variable is set.
    pub fn new() -> (env: Environment)
        ensures
            env@ == Map::<Seq<char>, Seq<char>>::empty(),
    {
        Environment { bindings: Vec::new() }
    }

    /// Sets `name` to `value`, whatever it was before.
    pub fn set(&mut self, name: String, value: String)
        ensures
            final(self)@ == old(self)@.insert(name@, value@),
    {
        proof {
            assert(self.bindings@.push((name, value)).drop_last() =~= self.bindings@);
        }
        self.bindings.push((name, value));
    }

    /// The value of `name`, if it is set.
    pub fn get(&self, name: &str) -> (value: Option<String>)
        ensures
            value is Some <==> self@.contains_key(name@),
            value matches Some(v) ==> v@ == self@[name@],
    {
        let wanted = name.to_owned();
        let mut found: Option<String> = None;
        let n = self.bindings.len();
        let mut i: usize = 0;
        while i < n
            invariant
                n == self.bindings@.len(),
                i <= n,
                wanted@ == name@,
                found is Some <==> bindings_map(self.bindings@.take(i as int)).contains_key(name@),
                found matches Some(v) ==> v@ == bindings_map(self.bindings@.take(i as int))[name@],
            decreases n - i,
        {
            proof {
                let next = self.bindings@.take(i + 1);
                assert(next.drop_last() =~= self.bindings@.take(i as int));
                assert(next.last() == self.bindings@[i as int]);
            }
            if self.bindings[i].0 == wanted {
                found = Some(self.bindings[i].1.clone());
            }
            i += 1;
        }
        proof {
            assert(self.bindings@.take(n as int) =~= self.bindings@);
        }
        found
    }

    /// The value of `name`, or the empty string when it is unset.
    pub fn value_or_empty(&self, name: &str) -> (value: String)
        ensures
            value@ == value_or_empty(self@, name@),
    {
        match self.get(name) {
            Some(v) => v,
            None => String::new(),
        }
    }
}

} // verus!
