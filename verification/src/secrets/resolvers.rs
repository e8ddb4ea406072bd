//! A resolver over secrets held in memory.

use crate::error::Result;
use crate::secrets::{held_among, Secret, SecretView, SecretsResolver};
use vstd::prelude::*;

verus! {

/// Hands out secrets from a list; the first secret of a key id wins.
pub struct ExampleSecretsResolver {
    pub known_secrets: Vec<Secret>,
}

/// The first secret with the id `kid`.
pub open spec fn first_secret(secrets: Seq<Secret>, kid: Seq<char>) -> Option<SecretView>
    decreases secrets.len(),
{
    if secrets.len() == 0 {
        None
    } else if secrets[0].id@ == kid {
        Some(secrets[0]@)
    } else {
        first_secret(secrets.drop_first(), kid)
    }
}

impl ExampleSecretsResolver {
    /// A resolver that holds the given secrets.
    pub fn new(known_secrets: Vec<Secret>) -> (r: Self)
        ensures
            r.known_secrets == known_secrets,
    {
        ExampleSecretsResolver { known_secrets }
    }

    /// The place of the first secret with the id `kid`.
    #[verifier::loop_isolation(false)]
    fn find(&self, kid: &String) -> (r: Option<usize>)
        ensures
            match r {
                Some(i) => i < self.known_secrets.len() && first_secret(
                    self.known_secrets@,
                    kid@,
                ) == Some(self.known_secrets[i as int]@),
                None => first_secret(self.known_secrets@, kid@) is None,
            },
    {
        let ghost all = self.known_secrets@;
        let mut i: usize = 0;
        assert(all.skip(0) =~= all);
        while i < self.known_secrets.len()
            invariant
                i <= self.known_secrets.len(),
                first_secret(all, kid@) == first_secret(all.skip(i as int), kid@),
            decreases self.known_secrets.len() - i,
        {
            let ghost rest = all.skip(i as int);
            assert(rest[0] == self.known_secrets[i as int]);
            assert(rest.drop_first() =~= all.skip(i + 1));
            if self.known_secrets[i].id == *kid {
                return Some(i);
            }
            i += 1;
        }
        None
    }
}

impl SecretsResolver for ExampleSecretsResolver {
    open spec fn held(&self, kid: Seq<char>) -> Option<SecretView> {
        first_secret(self.known_secrets@, kid)
    }

    open spec fn reliable(&self) -> bool {
        true
    }

    fn get_secret(&self, kid: &str) -> (r: Result<Option<Secret>>) {
        let wanted = kid.to_owned();
        match self.find(&wanted) {
            Some(i) => Ok(Some(self.known_secrets[i].duplicate())),
            None => Ok(None),
        }
    }

    #[verifier::loop_isolation(false)]
    fn find_secrets(&self, kids: &Vec<String>) -> (r: Result<Vec<String>>) {
        let ghost held = |kid: Seq<char>| self.held(kid);
        let mut found: Vec<String> = Vec::new();
        let mut i: usize = 0;
        assert(kids.deep_view().take(0) =~= Seq::<Seq<char>>::empty());
        assert(found.deep_view() =~= Seq::<Seq<char>>::empty());
        while i < kids.len()
            invariant
                i <= kids.len(),
                found.deep_view() == held_among(kids.deep_view().take(i as int), held),
            decreases kids.len() - i,
        {
            let ghost before = found.deep_view();
            let ghost upto = kids.deep_view().take(i + 1);
            assert(upto.drop_last() =~= kids.deep_view().take(i as int));
            assert(upto.last() == kids[i as int]@);
            if self.find(&kids[i]).is_some() {
                found.push(kids[i].clone());
                assert(found.deep_view() =~= before.push(kids[i as int]@));
            }
            i += 1;
        }
        assert(kids.deep_view().take(kids.len() as int) =~= kids.deep_view());
        Ok(found)
    }
}

/// A resolver that cannot be reached: every question fails with an
/// `IOError` of the given message.
pub struct UnreachableSecretsResolver {
    pub message: String,
}

impl SecretsResolver for UnreachableSecretsResolver {
    open spec fn held(&self, kid: Seq<char>) -> Option<SecretView> {
        None
    }

    open spec fn reliable(&self) -> bool {
        false
    }

    fn get_secret(&self, kid: &str) -> (r: Result<Option<Secret>>)
        ensures
            r is Err,
            r->Err_0@ == crate::error::error_of(crate::error::ErrorKind::IOError, self.message@),
    {
        Err(crate::error::err_msg(crate::error::ErrorKind::IOError, self.message.as_str()))
    }

    fn find_secrets(&self, kids: &Vec<String>) -> (r: Result<Vec<String>>)
        ensures
            r is Err,
            r->Err_0@ == crate::error::error_of(crate::error::ErrorKind::IOError, self.message@),
    {
        Err(crate::error::err_msg(crate::error::ErrorKind::IOError, self.message.as_str()))
    }
}

} // verus!
