//! Rows of the store's database, as the server reads and writes them.
use vstd::prelude::*;

pub mod api_key;
pub mod key_value;

verus! {

/// A row of the earlier, unencrypted table: a value filed under a store and
/// a key.
pub struct DbKeyValue {
    store: String,
    key: String,
    value: String,
}

impl DbKeyValue {
    /// The store, as characters.
    pub closed spec fn spec_store(&self) -> Seq<char> {
        self.store@
    }

    /// The key, as characters.
    pub closed spec fn spec_key(&self) -> Seq<char> {
        self.key@
    }

    /// The value, as characters.
    pub closed spec fn spec_value(&self) -> Seq<char> {
        self.value@
    }

    /// The row read back from the database.
    pub fn new(store: String, key: String, value: String) -> (row: Self)
        ensures
            row.spec_store() == store@,
            row.spec_key() == key@,
            row.spec_value() == value@,
    {
        DbKeyValue { store, key, value }
    }

    /// The store.
    pub fn get_store(&self) -> (s: &str)
        ensures
            s@ == self.spec_store(),
    {
        self.store.as_str()
    }

    /// The key.
    pub fn get_key(&self) -> (k: &str)
        ensures
            k@ == self.spec_key(),
    {
        self.key.as_str()
    }

    /// The value.
    pub fn get_value(&self) -> (v: &str)
        ensures
            v@ == self.spec_value(),
    {
        self.value.as_str()
    }
}

} // verus!
