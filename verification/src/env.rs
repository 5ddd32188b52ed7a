//! The container's environment, as the executor receives it.

use vstd::prelude::*;

verus! {

/// Environment variables in the order they were set; a later entry for a key
/// replaces an earlier one, as with `std::process::Command::envs`.
pub struct EnvVars {
    vars: Vec<(String, String)>,
}

/// The map that a list of entries denotes: later entries win.
pub open spec fn entries_map(entries: Seq<(String, String)>) -> Map<Seq<char>, Seq<char>>
    decreases entries.len(),
{
    if entries.len() == 0 {
        Map::empty()
    } else {
        entries_map(entries.drop_last()).insert(entries.last().0@, entries.last().1@)
    }
}

impl View for EnvVars {
    type V = Map<Seq<char>, Seq<char>>;

    closed spec fn view(&self) -> Map<Seq<char>, Seq<char>> {
        entries_map(self.vars@)
    }
}

impl EnvVars {
    /// No variables.
    pub fn new() -> (env: EnvVars)
        ensures
            env@ == Map::<Seq<char>, Seq<char>>::empty(),
    {
        EnvVars { vars: Vec::new() }
    }

    /// Sets `key` to `value`.
    pub fn insert(&mut self, key: String, value: String)
        ensures
            final(self)@ == old(self)@.insert(key@, value@),
    {
        self.vars.push((key, value));
        proof {
            assert(self.vars@.drop_last() == old(self).vars@);
        }
    }

    /// The value of `key`, if it is set.
    pub fn get(&self, key: &String) -> (value: Option<String>)
        ensures
            value is Some <==> self@.contains_key(key@),
            value matches Some(v) ==> v@ == self@[key@],
    {
        let mut i = self.vars.len();
        assert(self.vars@.take(i as int) =~= self.vars@);
        while i > 0
            invariant
                0 <= i <= self.vars@.len(),
                entries_map(self.vars@.take(i as int)).contains_key(key@)
                    == entries_map(self.vars@).contains_key(key@),
                entries_map(self.vars@.take(i as int)).contains_key(key@) ==>
                    entries_map(self.vars@.take(i as int))[key@] == entries_map(self.vars@)[key@],
            decreases i,
        {
            proof {
                assert(self.vars@.take(i as int).drop_last() == self.vars@.take(i - 1));
                assert(self.vars@.take(i as int).last() == self.vars@[i - 1]);
            }
            if self.vars[i - 1].0 == *key {
                return Some(self.vars[i - 1].1.clone());
            }
            i = i - 1;
        }
        assert(self.vars@.take(0) =~= Seq::<(String, String)>::empty());
        None
    }

    /// The entries in the order they were set. The map they denote, with
    /// later entries winning, is this environment.
    pub fn entries(&self) -> (entries: &Vec<(String, String)>)
        ensures
            entries_map(entries@) == self@,
    {
        &self.vars
    }
}

} // verus!
