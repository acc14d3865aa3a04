use vstd::prelude::*;

use crate::fingerprint::{copy_bytes, Fingerprint};
use crate::proofs::{AccountId, BlockNumber, ClaimRecord, Proofs};

verus! {

/// The registry's configuration, fixed when the registry is made.
#[derive(Clone, Copy, Debug, PartialEq, Eq, Structural)]
pub struct Config {
    /// The largest number of bytes a claim may hold.
    pub max_claim_length: u32,
}

/// Why an operation was refused. A refused operation changes nothing.
#[derive(Clone, Copy, Debug, PartialEq, Eq, Structural)]
pub enum Error {
    ProofAlreadyExist,
    ClaimTooLong,
    ClaimNotExist,
    NotClaimOwner,
}

/// What a successful operation reports, with the raw claim bytes.
#[derive(Debug, PartialEq, Eq)]
pub enum Event {
    ClaimCreated(AccountId, Vec<u8>),
    ClaimRevoked(AccountId, Vec<u8>),
    ClaimTransfered(AccountId, AccountId, Vec<u8>),
}

/// The modelled registry: live fingerprint to its record.
pub type Registry = Map<Seq<u8>, ClaimRecord>;

/// The error `create_claim` gives on `reg`, or `None` when it succeeds.
pub open spec fn create_error(reg: Registry, max: u32, claim: Seq<u8>) -> Option<Error> {
    if claim.len() > max {
        Some(Error::ClaimTooLong)
    } else if reg.contains_key(claim) {
        Some(Error::ProofAlreadyExist)
    } else {
        None
    }
}

/// The error that `revoke_claim` and `transfer_claim` by `sender` give on
/// `reg`, or `None` when they succeed: existence is checked before ownership.
pub open spec fn owner_error(reg: Registry, max: u32, sender: AccountId, claim: Seq<u8>) -> Option<
    Error,
> {
    if claim.len() > max {
        Some(Error::ClaimTooLong)
    } else if !reg.contains_key(claim) {
        Some(Error::ClaimNotExist)
    } else if reg[claim].owner != sender {
        Some(Error::NotClaimOwner)
    } else {
        None
    }
}

/// The registry after a successful `create_claim`.
pub open spec fn created(reg: Registry, sender: AccountId, now: BlockNumber, claim: Seq<u8>) -> Registry {
    reg.insert(claim, ClaimRecord { owner: sender, timestamp: now })
}

/// The registry after a successful `revoke_claim`.
pub open spec fn revoked(reg: Registry, claim: Seq<u8>) -> Registry {
    reg.remove(claim)
}

/// The registry after a successful `transfer_claim` to `dest`.
pub open spec fn transferred(reg: Registry, dest: AccountId, now: BlockNumber, claim: Seq<u8>) -> Registry {
    reg.insert(claim, ClaimRecord { owner: dest, timestamp: now })
}

/// The claim registry: the configured length bound and the live claims.
pub struct Pallet {
    max_claim_length: u32,
    proofs: Proofs,
}

impl Pallet {
    /// The live claims.
    pub closed spec fn registry(&self) -> Registry {
        self.proofs@
    }

    /// The configured length bound.
    pub closed spec fn max_len(&self) -> u32 {
        self.max_claim_length
    }

    /// The store is well formed and every live fingerprint is within the bound.
    pub closed spec fn wf(&self) -> bool {
        &&& self.proofs.wf()
        &&& forall|k: Seq<u8>| #[trigger]
            self.proofs@.contains_key(k) ==> k.len() <= self.max_claim_length
    }

    /// Every live claim is within the configured bound.
    pub proof fn lemma_live_within_bound(&self, k: Seq<u8>)
        requires
            self.wf(),
            self.registry().contains_key(k),
        ensures
            k.len() <= self.max_len(),
    {
    }

    /// An empty registry with the given configuration.
    pub fn new(config: Config) -> (r: Pallet)
        ensures
            r.wf(),
            r.registry() == Registry::empty(),
            r.max_len() == config.max_claim_length,
    {
        Pallet { max_claim_length: config.max_claim_length, proofs: Proofs::new() }
    }

    /// The configured length bound.
    pub fn max_claim_length(&self) -> (r: u32)
        ensures
            r == self.max_len(),
    {
        self.max_claim_length
    }

    /// The record of `claim`, if it is a live claim.
    pub fn get_claim(&self, claim: &Vec<u8>) -> (r: Option<ClaimRecord>)
        requires
            self.wf(),
        ensures
            r is Some <==> self.registry().contains_key(claim@),
            r matches Some(rec) ==> rec == self.registry()[claim@],
    {
        match Fingerprint::try_new(copy_bytes(claim), self.max_claim_length) {
            Ok(key) => self.proofs.get(&key),
            Err(_) => None,
        }
    }

    /// Records that `sender` claims `claim` at time `now`.
    ///
    /// Fails with `ClaimTooLong` when the claim is over the bound, and with
    /// `ProofAlreadyExist` when it is already live; on failure nothing changes.
    pub fn create_claim(&mut self, sender: AccountId, now: BlockNumber, claim: Vec<u8>) -> (r:
        Result<Event, Error>)
        requires
            old(self).wf(),
        ensures
            final(self).wf(),
            final(self).max_len() == old(self).max_len(),
            r is Err <==> create_error(old(self).registry(), old(self).max_len(), claim@) is Some,
            r matches Err(e) ==> create_error(old(self).registry(), old(self).max_len(), claim@)
                == Some(e) && *final(self) == *old(self),
            r matches Ok(ev) ==> ev == Event::ClaimCreated(sender, claim)
                && final(self).registry() == created(old(self).registry(), sender, now, claim@),
    {
        let key = match Fingerprint::try_new(copy_bytes(&claim), self.max_claim_length) {
            Ok(key) => key,
            Err(_) => return Err(Error::ClaimTooLong),
        };
        if self.proofs.contains_key(&key) {
            return Err(Error::ProofAlreadyExist);
        }
        let ghost k = key@;
        self.proofs.insert(key, ClaimRecord { owner: sender, timestamp: now });
        assert forall|m: Seq<u8>| #[trigger] self.proofs@.contains_key(m) implies m.len()
            <= self.max_claim_length by {
            if m != k {
                assert(old(self).proofs@.contains_key(m));
            }
        }
        Ok(Event::ClaimCreated(sender, claim))
    }

    /// Removes `sender`'s claim on `claim`.
    ///
    /// Fails with `ClaimTooLong` when the claim is over the bound, with
    /// `ClaimNotExist` when it is not live, and with `NotClaimOwner` when
    /// another account owns it; on failure nothing changes.
    pub fn revoke_claim(&mut self, sender: AccountId, claim: Vec<u8>) -> (r: Result<Event, Error>)
        requires
            old(self).wf(),
        ensures
            final(self).wf(),
            final(self).max_len() == old(self).max_len(),
            r is Err <==> owner_error(old(self).registry(), old(self).max_len(), sender, claim@) is Some,
            r matches Err(e) ==> owner_error(old(self).registry(), old(self).max_len(), sender, claim@)
                == Some(e) && *final(self) == *old(self),
            r matches Ok(ev) ==> ev == Event::ClaimRevoked(sender, claim)
                && final(self).registry() == revoked(old(self).registry(), claim@),
    {
        let key = match Fingerprint::try_new(copy_bytes(&claim), self.max_claim_length) {
            Ok(key) => key,
            Err(_) => return Err(Error::ClaimTooLong),
        };
        let rec = match self.proofs.get(&key) {
            Some(rec) => rec,
            None => return Err(Error::ClaimNotExist),
        };
        if rec.owner != sender {
            return Err(Error::NotClaimOwner);
        }
        self.proofs.remove(&key);
        assert forall|m: Seq<u8>| #[trigger] self.proofs@.contains_key(m) implies m.len()
            <= self.max_claim_length by {
            assert(old(self).proofs@.contains_key(m));
        }
        Ok(Event::ClaimRevoked(sender, claim))
    }

    /// Hands `sender`'s claim on `claim` to `dest`, dated `now`.
    ///
    /// Fails as `revoke_claim` does; on failure nothing changes. A transfer to
    /// `sender` itself is an ordinary transfer: it refreshes the timestamp.
    pub fn transfer_claim(
        &mut self,
        sender: AccountId,
        now: BlockNumber,
        claim: Vec<u8>,
        dest: AccountId,
    ) -> (r: Result<Event, Error>)
        requires
            old(self).wf(),
        ensures
            final(self).wf(),
            final(self).max_len() == old(self).max_len(),
            r is Err <==> owner_error(old(self).registry(), old(self).max_len(), sender, claim@) is Some,
            r matches Err(e) ==> owner_error(old(self).registry(), old(self).max_len(), sender, claim@)
                == Some(e) && *final(self) == *old(self),
            r matches Ok(ev) ==> ev == Event::ClaimTransfered(sender, sender, claim)
                && final(self).registry() == transferred(old(self).registry(), dest, now, claim@),
    {
        let key = match Fingerprint::try_new(copy_bytes(&claim), self.max_claim_length) {
            Ok(key) => key,
            Err(_) => return Err(Error::ClaimTooLong),
        };
        let rec = match self.proofs.get(&key) {
            Some(rec) => rec,
            None => return Err(Error::ClaimNotExist),
        };
        if rec.owner != sender {
            return Err(Error::NotClaimOwner);
        }
        let ghost k = key@;
        self.proofs.insert(key, ClaimRecord { owner: dest, timestamp: now });
        assert forall|m: Seq<u8>| #[trigger] self.proofs@.contains_key(m) implies m.len()
            <= self.max_claim_length by {
            if m != k {
                assert(old(self).proofs@.contains_key(m));
            }
        }
        Ok(Event::ClaimTransfered(rec.owner, sender, claim))
    }
}

} // verus!
