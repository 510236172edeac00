use vstd::prelude::*;

verus! {

/// A language a character can speak; its identifier is the one the store gave it.
#[derive(Clone, Debug)]
pub struct Language {
    pub id: i64,
    pub name: String,
    pub description: String,
}

impl Language {
    /// An empty language: identifier zero and empty text.
    pub fn new() -> (r: Language)
        ensures
            r.id == 0,
            r.name@.len() == 0,
            r.description@.len() == 0,
    {
        Language { id: 0, name: String::new(), description: String::new() }
    }
}

} // verus!
