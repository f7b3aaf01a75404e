use vstd::prelude::*;

verus! {

#[verifier::external_type_specification]
#[verifier::external_body]
pub struct ExIoError(std::io::Error);

/// Persistence for processed items: insert returns an identifier, which
/// acknowledges the item later.
pub trait Store<T> {
    type ID;

    fn ack(&self, id: Self::ID) -> Result<(), std::io::Error>;

    fn insert(&self, value: T) -> Result<Self::ID, std::io::Error>;
}

} // verus!
