//! Data a process keeps: its environment variables.

use vstd::prelude::*;
use hashbrown::HashMap;

verus! {

/// A table of environment variables, held in a `hashbrown` hash map with
/// `ahash` hashing.
#[verifier::external_body]
pub struct EnvTable {
    map: HashMap<String, String, ahash::RandomState>,
}

/// The variables an [`EnvTable`] holds, from name to value.
pub uninterp spec fn env_entries(table: EnvTable) -> Map<Seq<char>, Seq<char>>;

impl EnvTable {
    /// `HashMap::default` with a default `ahash::RandomState`: an empty
    /// table.
    #[verifier::external_body]
    fn new() -> (t: Self)
        ensures
            env_entries(t) =~= Map::empty(),
    {
        EnvTable { map: HashMap::default() }
    }

    /// `HashMap::get` on the name, with the value cloned: the value stored
    /// under a name equal to `key`, if any.
    #[verifier::external_body]
    fn get(&self, key: &str) -> (r: Option<String>)
        ensures
            r is Some == env_entries(*self).contains_key(key@),
            r matches Some(v) ==> v@ == env_entries(*self)[key@],
    {
        self.map.get(key).cloned()
    }

    /// `HashMap::insert`: afterwards `key` maps to `value` and every other
    /// name is as before.
    #[verifier::external_body]
    fn insert(&mut self, key: String, value: String)
        ensures
            env_entries(*final(self)) == env_entries(*old(self)).insert(key@, value@),
    {
        self.map.insert(key, value);
    }
}

/// The data of a process.
pub struct ProcessData {
    env: EnvTable,
}

impl ProcessData {
    /// The environment variables, from name to value.
    pub closed spec fn env_view(&self) -> Map<Seq<char>, Seq<char>> {
        env_entries(self.env)
    }

    /// Data with no environment variables.
    pub fn new() -> (d: Self)
        ensures
            d.env_view() == Map::<Seq<char>, Seq<char>>::empty(),
    {
        ProcessData { env: EnvTable::new() }
    }

    /// The value of the environment variable `key`, if it is set.
    pub fn env(&self, key: &str) -> (r: Option<String>)
        ensures
            r is Some == self.env_view().contains_key(key@),
            r matches Some(v) ==> v@ == self.env_view()[key@],
    {
        self.env.get(key)
    }

    /// Sets the environment variable `key` to `val`, leaving the others
    /// as they are.
    pub fn set_env(&mut self, key: &str, val: &str)
        ensures
            final(self).env_view() == old(self).env_view().insert(key@, val@),
    {
        self.env.insert(key.to_owned(), val.to_owned());
    }
}

impl Default for ProcessData {
    fn default() -> (d: Self)
        ensures
            d.env_view() == Map::<Seq<char>, Seq<char>>::empty(),
    {
        Self::new()
    }
}

/// After `set_env(key, val)` turns `before` into `after`, `env(key)` gives
/// `val`, and every other variable is as it was.
pub proof fn lemma_env_read_after_write(
    before: ProcessData,
    after: ProcessData,
    key: Seq<char>,
    val: Seq<char>,
)
    requires
        after.env_view() == before.env_view().insert(key, val),
    ensures
        after.env_view().contains_key(key),
        after.env_view()[key] == val,
        forall|other: Seq<char>|
            other != key ==> (#[trigger] after.env_view().contains_key(other)
                == before.env_view().contains_key(other)),
        forall|other: Seq<char>|
            other != key && before.env_view().contains_key(other) ==> #[trigger] after.env_view()[other]
                == before.env_view()[other],
{
}

} // verus!
