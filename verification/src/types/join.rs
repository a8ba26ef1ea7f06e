use vstd::prelude::*;

verus! {

/// A record that is completed from another table: it holds a key of type
/// `T`, by which the matching rows are found, and an object of type `E`,
/// which takes them up.
pub trait Joinable<T, E> {
    /// The key of the record.
    spec fn key(&self) -> T;

    /// What the record has taken up.
    spec fn object(&self) -> E;

    /// The key, to read, and the object, to fill. The key stays as it is.
    fn get_ref(&mut self) -> (r: (&T, &mut E))
        ensures
            *r.0 == old(self).key(),
            *r.1 == old(self).object(),
            final(self).key() == old(self).key(),
            final(self).object() == *final(r.1),
    ;
}

} // verus!
