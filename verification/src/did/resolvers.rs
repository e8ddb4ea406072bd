//! A resolver over DID documents held in memory.

use crate::did::{DIDDoc, DIDDocView, DIDResolver};
use crate::error::Result;
use vstd::prelude::*;

verus! {

/// Resolves DIDs from a list of documents; the first document of a DID wins.
pub struct ExampleDIDResolver {
    pub known_dids: Vec<DIDDoc>,
}

/// The first document about `did`.
pub open spec fn first_document(docs: Seq<DIDDoc>, did: Seq<char>) -> Option<DIDDocView>
    decreases docs.len(),
{
    if docs.len() == 0 {
        None
    } else if docs[0].did@ == did {
        Some(docs[0]@)
    } else {
        first_document(docs.drop_first(), did)
    }
}

impl ExampleDIDResolver {
    /// A resolver that knows the given documents.
    pub fn new(known_dids: Vec<DIDDoc>) -> (r: Self)
        ensures
            r.known_dids == known_dids,
    {
        ExampleDIDResolver { known_dids }
    }
}

impl DIDResolver for ExampleDIDResolver {
    open spec fn document(&self, did: Seq<char>) -> Option<DIDDocView> {
        first_document(self.known_dids@, did)
    }

    open spec fn reliable(&self) -> bool {
        true
    }

    #[verifier::loop_isolation(false)]
    fn resolve(&self, did: &str) -> (r: Result<Option<DIDDoc>>) {
        let wanted = did.to_owned();
        let ghost all = self.known_dids@;
        let mut i: usize = 0;
        assert(all.skip(0) =~= all);
        while i < self.known_dids.len()
            invariant
                i <= self.known_dids.len(),
                first_document(all, did@) == first_document(all.skip(i as int), did@),
            decreases self.known_dids.len() - i,
        {
            let ghost rest = all.skip(i as int);
            assert(rest[0] == self.known_dids[i as int]);
            assert(rest.drop_first() =~= all.skip(i + 1));
            if self.known_dids[i].did == wanted {
                return Ok(Some(self.known_dids[i].duplicate()));
            }
            i += 1;
        }
        Ok(None)
    }
}

/// A resolver that cannot be reached: every question fails with an
/// `IOError` of the given message.
pub struct UnreachableDIDResolver {
    pub message: String,
}

impl DIDResolver for UnreachableDIDResolver {
    open spec fn document(&self, did: Seq<char>) -> Option<DIDDocView> {
        None
    }

    open spec fn reliable(&self) -> bool {
        false
    }

    fn resolve(&self, did: &str) -> (r: Result<Option<DIDDoc>>)
        ensures
            r is Err,
            r->Err_0@ == crate::error::error_of(crate::error::ErrorKind::IOError, self.message@),
    {
        Err(crate::error::err_msg(crate::error::ErrorKind::IOError, self.message.as_str()))
    }
}

} // verus!
