use vstd::prelude::*;

verus! {

/// A key and, where the store holds one, the value stored under it.
pub struct KeyValue {
    key: String,
    value: Option<String>,
}

/// The value of an optional string, taken by its view.
pub open spec fn option_view(o: Option<String>) -> Option<Seq<char>> {
    match o {
        Some(s) => Some(s@),
        None => None,
    }
}

impl KeyValue {
    /// The key, as characters.
    pub closed spec fn spec_key(&self) -> Seq<char> {
        self.key@
    }

    /// The value, as characters, or `None` where no value is stored.
    pub closed spec fn spec_value(&self) -> Option<Seq<char>> {
        option_view(self.value)
    }

    /// Pairs `key` with `value`.
    pub fn new(key: String, value: Option<String>) -> (kv: Self)
        ensures
            kv.spec_key() == key@,
            kv.spec_value() == option_view(value),
    {
        KeyValue { key, value }
    }

    /// The key.
    pub fn get_key(&self) -> (k: &str)
        ensures
            k@ == self.spec_key(),
    {
        self.key.as_str()
    }

    /// The value, where one is stored.
    pub fn get_value(&self) -> (v: Option<&str>)
        ensures
            match v {
                Some(s) => self.spec_value() == Some(s@),
                None => self.spec_value() is None,
            },
    {
        match &self.value {
            Some(s) => Some(s.as_str()),
            None => None,
        }
    }
}

} // verus!
