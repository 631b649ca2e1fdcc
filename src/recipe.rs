use vstd::prelude::*;
use crate::digest::{decode_hex, is_digest_hex, Digest};
use crate::error::TetraError;
use crate::source::{Checksum, Source};

verus! {

/// A remote source of a recipe: a URL and the hex digest of its content.
#[derive(Debug)]
pub struct RecipeSource {
    pub url: String,
    pub hash: String,
}

impl Checksum<Digest> for RecipeSource {
    open spec fn checksum_spec(&self) -> Option<Seq<u8>> {
        if is_digest_hex(self.hash@) {
            Some(decode_hex(self.hash@))
        } else {
            None
        }
    }

    fn checksum(&self) -> (r: Result<Digest, TetraError>) {
        match Digest::from_hex(self.hash.as_str()) {
            Some(d) => Ok(d),
            None => Err(TetraError::InvalidChecksum),
        }
    }
}

impl Source for RecipeSource {
    open spec fn url_spec(&self) -> Seq<char> {
        self.url@
    }

    fn url(&self) -> (r: String) {
        self.url.clone()
    }
}

/// A build recipe: who made the package, and the sources it is built from,
/// in order.
#[derive(Debug)]
pub struct Recipe {
    pub name: String,
    pub version: String,
    pub license: String,
    pub maintainer: String,
    pub sources: Vec<RecipeSource>,
}

} // verus!
