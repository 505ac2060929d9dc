//! The configuration of the process: named values, and how a name resolves
//! against them.

use crate::utils::text::str_eq;
use vstd::prelude::*;
use vstd::string::*;

verus! {

/// One named value: a variable of the environment of a process.
#[derive(Debug, Clone, PartialEq, Eq)]
pub struct EnvironmentBinding {
    key: String,
    value: String,
}

impl View for EnvironmentBinding {
    type V = (Seq<char>, Seq<char>);

    closed spec fn view(&self) -> (Seq<char>, Seq<char>) {
        (self.key@, self.value@)
    }
}

impl EnvironmentBinding {
    /// The binding of `key` to `value`.
    pub fn new(key: &str, value: &str) -> (binding: EnvironmentBinding)
        ensures
            binding@ == (key@, value@),
    {
        EnvironmentBinding { key: key.to_owned(), value: value.to_owned() }
    }

    /// The name that is bound.
    pub fn key(&self) -> (key: &str)
        ensures
            key@ == self@.0,
    {
        self.key.as_str()
    }

    /// The value that the name is bound to.
    pub fn value(&self) -> (value: &str)
        ensures
            value@ == self@.1,
    {
        self.value.as_str()
    }
}

/// The map that a list of bindings stands for: a later binding of a name
/// replaces an earlier one.
pub open spec fn bindings_map(bindings: Seq<EnvironmentBinding>) -> Map<Seq<char>, Seq<char>>
    decreases bindings.len(),
{
    if bindings.len() == 0 {
        Map::empty()
    } else {
        bindings_map(bindings.drop_last()).insert(bindings.last()@.0, bindings.last()@.1)
    }
}

/// The values that are set, by name. A name is set or it is not; a name that is
/// set may hold the empty string.
#[derive(Debug, Clone)]
pub struct Config {
    entries: Vec<EnvironmentBinding>,
}

impl View for Config {
    type V = Map<Seq<char>, Seq<char>>;

    closed spec fn view(&self) -> Map<Seq<char>, Seq<char>> {
        bindings_map(self.entries@)
    }
}

impl Config {
    /// A configuration in which no name is set.
    pub fn new() -> (config: Config)
        ensures
            config@ == Map::<Seq<char>, Seq<char>>::empty(),
    {
        Config { entries: Vec::new() }
    }

    /// The value of `name`, if `name` is set.
    pub fn get(&self, name: &str) -> (value: Option<String>)
        ensures
            match value {
                Some(found) => self@.contains_key(name@) && found@ == self@[name@],
                None => !self@.contains_key(name@),
            },
    {
        let mut i: usize = self.entries.len();
        assert(self.entries@.take(i as int) =~= self.entries@);
        while i > 0
            invariant
                i <= self.entries.len(),
                self@.contains_key(name@) == bindings_map(self.entries@.take(i as int)).contains_key(
                    name@,
                ),
                self@.contains_key(name@) ==> self@[name@] == bindings_map(
                    self.entries@.take(i as int),
                )[name@],
            decreases i,
        {
            assert(self.entries@.take(i as int).drop_last() =~= self.entries@.take(i - 1));
            i -= 1;
            if str_eq(self.entries[i].key(), name) {
                return Some(self.entries[i].value().to_owned());
            }
        }
        None
    }

    /// Sets `name` to `value`, whatever it was before.
    pub fn set(&mut self, name: &str, value: &str)
        ensures
            final(self)@ == old(self)@.insert(name@, value@),
    {
        self.remove(name);
        let ghost others = self.entries@;
        self.entries.push(EnvironmentBinding::new(name, value));
        assert(self.entries@.drop_last() =~= others);
        assert(self@ =~= old(self)@.insert(name@, value@));
    }

    /// Unsets `name`.
    pub fn remove(&mut self, name: &str)
        ensures
            final(self)@ == old(self)@.remove(name@),
    {
        let mut kept: Vec<EnvironmentBinding> = Vec::new();
        let mut i: usize = 0;
        assert(bindings_map(kept@) =~= bindings_map(self.entries@.take(0)).remove(name@));
        while i < self.entries.len()
            invariant
                i <= self.entries.len(),
                bindings_map(kept@) == bindings_map(self.entries@.take(i as int)).remove(name@),
            decreases self.entries.len() - i,
        {
            let ghost before = bindings_map(self.entries@.take(i as int));
            assert(self.entries@.take(i + 1).drop_last() =~= self.entries@.take(i as int));
            let ghost kept_before = kept@;
            let entry = &self.entries[i];
            if !str_eq(entry.key(), name) {
                kept.push(EnvironmentBinding::new(entry.key(), entry.value()));
                assert(kept@.drop_last() =~= kept_before);
            }
            i += 1;
            assert(bindings_map(kept@) =~= before.insert(entry@.0, entry@.1).remove(name@));
        }
        assert(self.entries@.take(i as int) =~= self.entries@);
        self.entries = kept;
    }
}

/// Whether `config` gives `name` a value that replaces a default: `name` is set
/// to something other than the empty string.
pub open spec fn overrides(config: Map<Seq<char>, Seq<char>>, name: Seq<char>) -> bool {
    config.contains_key(name) && config[name].len() > 0
}

/// What `name` resolves to: its value where that replaces the default, else
/// `default`.
pub open spec fn resolved(
    config: Map<Seq<char>, Seq<char>>,
    name: Seq<char>,
    default: Seq<char>,
) -> Seq<char> {
    if overrides(config, name) {
        config[name]
    } else {
        default
    }
}

/// Resolves `name` against `config`: a name that is unset, or set to the empty
/// string, resolves to `default`.
pub fn fetch_var(config: &Config, name: &str, default: &str) -> (value: String)
    ensures
        value@ == resolved(config@, name@, default@),
{
    match config.get(name) {
        Some(found) => {
            if found.as_str().is_empty() {
                default.to_owned()
            } else {
                found
            }
        },
        None => default.to_owned(),
    }
}

} // verus!
