use vstd::prelude::*;

verus! {

/// One page of a cursor-linked result set. `next_link`, when present, is an
/// opaque, provider-issued absolute reference to the next page; it supersedes
/// every other query parameter on the fetch that follows.
#[derive(Clone, Debug)]
pub struct Page<T> {
    pub context: String,
    pub next_link: Option<String>,
    pub value: Vec<T>,
}

impl<T> Page<T> {
    /// The items of this page, in provider order.
    pub fn items(&self) -> (v: &Vec<T>)
        ensures
            v == &self.value,
    {
        &self.value
    }
}

} // verus!
