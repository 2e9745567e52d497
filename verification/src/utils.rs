//! A snapshot of environment variables and the lookup of one of them.

use vstd::prelude::*;
use vstd::string::*;

use crate::errors::SettingsError;
use crate::text::str_eq;

verus! {

/// The value bound to `key` in a list of bindings: the last binding of that
/// key wins.
pub open spec fn lookup_binding(bindings: Seq<(Seq<char>, Seq<char>)>, key: Seq<char>) -> Option<
    Seq<char>,
>
    decreases bindings.len(),
{
    if bindings.len() == 0 {
        None
    } else if bindings.last().0 == key {
        Some(bindings.last().1)
    } else {
        lookup_binding(bindings.drop_last(), key)
    }
}

/// Environment variables, as read from the process environment.
#[derive(Debug, Clone)]
pub struct EnvVars {
    vars: Vec<(String, String)>,
}

impl EnvVars {
    /// The bindings, in the order they were set.
    pub closed spec fn spec_bindings(&self) -> Seq<(Seq<char>, Seq<char>)> {
        self.vars@.map_values(|p: (String, String)| (p.0@, p.1@))
    }

    /// The value of `key`, if it is set.
    pub open spec fn spec_get(&self, key: Seq<char>) -> Option<Seq<char>> {
        lookup_binding(self.spec_bindings(), key)
    }

    /// No variable set.
    pub fn new() -> (res: Self)
        ensures
            forall|k: Seq<char>| #[trigger] res.spec_get(k) is None,
    {
        EnvVars { vars: Vec::new() }
    }

    /// Sets `key` to `value`, replacing an earlier value.
    pub fn set(&mut self, key: &str, value: &str)
        ensures
            final(self).spec_get(key@) == Some(value@),
            forall|k: Seq<char>| k != key@ ==> #[trigger] final(self).spec_get(k) == old(self).spec_get(k),
    {
        let ghost before = self.spec_bindings();
        self.vars.push((key.to_owned(), value.to_owned()));
        assert(self.spec_bindings().drop_last() =~= before);
    }

    /// The value of `key`, if it is set.
    pub fn get(&self, key: &str) -> (res: Option<&str>)
        ensures
            match res {
                Some(v) => self.spec_get(key@) == Some(v@),
                None => self.spec_get(key@) is None,
            },
    {
        let mut i = self.vars.len();
        assert(self.spec_bindings().take(i as int) =~= self.spec_bindings());
        while i > 0
            invariant
                i <= self.vars@.len(),
                self.spec_get(key@) == lookup_binding(self.spec_bindings().take(i as int), key@),
            decreases i,
        {
            let ghost b = self.spec_bindings().take(i as int);
            assert(b.drop_last() =~= self.spec_bindings().take(i - 1));
            if str_eq(self.vars[i - 1].0.as_str(), key) {
                return Some(self.vars[i - 1].1.as_str());
            }
            i = i - 1;
        }
        None
    }
}

/// The value of the variable `key`, or an error naming it.
pub fn get_var(env: &EnvVars, key: &str) -> (res: Result<String, SettingsError>)
    ensures
        match env.spec_get(key@) {
            Some(v) => res matches Ok(s) && s@ == v,
            None => match res {
                Err(SettingsError::MissingVariable { key: k }) => k@ == key@,
                _ => false,
            },
        },
{
    match env.get(key) {
        Some(v) => Ok(v.to_owned()),
        None => Err(SettingsError::MissingVariable { key: key.to_owned() }),
    }
}

} // verus!
