//! Isotopes and metadata items, the building blocks of atoms.

use vstd::prelude::*;

verus! {

/// The kind of operation an atom performs.
#[derive(Clone, Copy, Debug, PartialEq, Eq, Structural)]
pub enum Isotope {
    /// Token or wallet creation
    C,
    /// Value transfer
    V,
    /// Metadata
    M,
    /// Token request
    T,
    /// Authorization
    U,
    /// Identity continuity (ContinuID)
    I,
    /// Rule (policy)
    R,
    /// Buffer
    B,
    /// Fusion
    F,
}

/// One key/value item of metadata.
#[derive(Debug)]
pub struct MetaItem {
    /// The key
    pub key: String,
    /// The value
    pub value: String,
}

impl View for MetaItem {
    type V = (Seq<char>, Seq<char>);

    open spec fn view(&self) -> (Seq<char>, Seq<char>) {
        (self.key@, self.value@)
    }
}

/// The key/value pairs of a list of metadata items.
pub open spec fn metas_view(v: Seq<MetaItem>) -> Seq<(Seq<char>, Seq<char>)> {
    v.map_values(|m: MetaItem| m@)
}

impl MetaItem {
    /// An item with the given key and value.
    pub fn new(key: &str, value: &str) -> (m: Self)
        ensures
            m@ == (key@, value@),
    {
        MetaItem { key: key.to_owned(), value: value.to_owned() }
    }
}

impl Clone for MetaItem {
    fn clone(&self) -> (m: Self)
        ensures
            m@ == self@,
    {
        MetaItem { key: self.key.clone(), value: self.value.clone() }
    }
}

/// A copy of a list of metadata items.
pub fn clone_metas(v: &Vec<MetaItem>) -> (r: Vec<MetaItem>)
    ensures
        metas_view(r@) == metas_view(v@),
{
    let mut r: Vec<MetaItem> = Vec::new();
    let mut i: usize = 0;
    while i < v.len()
        invariant
            i <= v@.len(),
            r@.len() == i,
            forall|j: int| 0 <= j < i ==> (#[trigger] r@[j])@ == v@[j]@,
        decreases v@.len() - i,
    {
        let m = v[i].clone();
        r.push(m);
        i = i + 1;
    }
    assert(metas_view(r@) =~= metas_view(v@));
    r
}

} // verus!
