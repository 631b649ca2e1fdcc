use vstd::prelude::*;
use crate::error::TetraError;
use crate::digest::Digest;

verus! {

/// A value that carries a checksum of type `T`, which may fail to read.
pub trait Checksum<T: View> {
    /// The checksum, or `None` when it cannot be read.
    spec fn checksum_spec(&self) -> Option<T::V>;

    fn checksum(&self) -> (r: Result<T, TetraError>)
        ensures
            r is Ok <==> self.checksum_spec() is Some,
            r matches Ok(t) ==> self.checksum_spec() == Some(t@),
            r matches Err(e) ==> e == TetraError::InvalidChecksum,
    ;
}

/// Something that can be downloaded: where from, and what its bytes hash to.
pub trait Source: Checksum<Digest> {
    spec fn url_spec(&self) -> Seq<char>;

    fn url(&self) -> (r: String)
        ensures
            r@ == self.url_spec(),
    ;
}

} // verus!
