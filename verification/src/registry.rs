//! The registry of proof keys: which account a key's digest is bound to.

use crate::types::AccountId;
use vstd::prelude::*;

verus! {

/// The SHA-256 digest of a byte string, as `sp_io::hashing::sha2_256` computes it.
pub uninterp spec fn sha2_256_digest(data: Seq<u8>) -> Seq<u8>;

/// Calls `sp_io::hashing::sha2_256`. Trusted: the 32 bytes that come back
/// depend on the input bytes alone.
#[verifier::external_body]
fn sha2_256(data: &[u8]) -> (digest: [u8; 32])
    ensures
        digest@ == sha2_256_digest(data@),
{
    sp_io::hashing::sha2_256(data)
}

/// The digest under which a proof key with the encoding `key` is registered.
pub fn key_digest(key: &Vec<u8>) -> (digest: [u8; 32])
    ensures
        digest@ == sha2_256_digest(key@),
{
    sha2_256(key.as_slice())
}

/// One entry of the registry.
#[derive(Clone, Copy, Debug)]
pub struct KeyBinding {
    pub digest: [u8; 32],
    pub account: AccountId,
}

/// The bindings that a list of entries stands for. A later entry for a digest
/// replaces an earlier one.
pub open spec fn bindings(entries: Seq<KeyBinding>) -> Map<Seq<u8>, AccountId>
    decreases entries.len(),
{
    if entries.len() == 0 {
        Map::empty()
    } else {
        bindings(entries.drop_last()).insert(entries.last().digest@, entries.last().account)
    }
}

/// The entries of a list that are not for `digest`.
pub open spec fn without(entries: Seq<KeyBinding>, digest: Seq<u8>) -> Seq<KeyBinding> {
    entries.filter(|e: KeyBinding| e.digest@ != digest)
}

/// Dropping the entries for a digest removes the digest from the bindings
/// and keeps every other binding.
pub proof fn lemma_without_removes(entries: Seq<KeyBinding>, digest: Seq<u8>)
    ensures
        bindings(without(entries, digest)) == bindings(entries).remove(digest),
    decreases entries.len(),
{
    reveal(Seq::filter);
    let keep = |e: KeyBinding| e.digest@ != digest;
    if entries.len() == 0 {
        assert(bindings(without(entries, digest)) =~= bindings(entries).remove(digest));
    } else {
        let init = entries.drop_last();
        let last = entries.last();
        lemma_without_removes(init, digest);
        if keep(last) {
            let kept = without(init, digest).push(last);
            assert(without(entries, digest) == kept);
            assert(kept.drop_last() == without(init, digest));
            assert(kept.last() == last);
            assert(bindings(kept) =~= bindings(entries).remove(digest));
        } else {
            assert(without(entries, digest) == without(init, digest));
            assert(bindings(without(init, digest)) =~= bindings(entries).remove(digest));
        }
    }
}

/// Whether two digests hold the same bytes.
fn same_digest(a: &[u8; 32], b: &[u8; 32]) -> (same: bool)
    ensures
        same == (a@ == b@),
{
    let mut i: usize = 0;
    while i < 32
        invariant
            i <= 32,
            forall|k: int| 0 <= k < i ==> a@[k] == b@[k],
        decreases 32 - i,
    {
        if a[i] != b[i] {
            return false;
        }
        i = i + 1;
    }
    assert(a@ =~= b@);
    true
}

/// A map from the digest of a proof key to the account that registered it.
/// A digest is bound to one account at most, so no key serves two miners.
#[derive(Clone, Debug)]
pub struct KeyRegistry {
    entries: Vec<KeyBinding>,
}

impl View for KeyRegistry {
    type V = Map<Seq<u8>, AccountId>;

    closed spec fn view(&self) -> Map<Seq<u8>, AccountId> {
        bindings(self.entries@)
    }
}

impl KeyRegistry {
    /// A registry without bindings.
    pub fn new() -> (registry: KeyRegistry)
        ensures
            registry@ == Map::<Seq<u8>, AccountId>::empty(),
    {
        KeyRegistry { entries: Vec::new() }
    }

    /// The account that `digest` is bound to.
    pub fn get(&self, digest: &[u8; 32]) -> (account: Option<AccountId>)
        ensures
            account == (if self@.contains_key(digest@) {
                Some(self@[digest@])
            } else {
                None
            }),
    {
        let mut i: usize = self.entries.len();
        assert(self.entries@.take(i as int) == self.entries@);
        while i > 0
            invariant
                i <= self.entries.len(),
                bindings(self.entries@).contains_key(digest@) == bindings(
                    self.entries@.take(i as int),
                ).contains_key(digest@),
                bindings(self.entries@).contains_key(digest@) ==> bindings(self.entries@)[digest@]
                    == bindings(self.entries@.take(i as int))[digest@],
            decreases i,
        {
            let ghost prefix = self.entries@.take(i as int);
            assert(prefix.drop_last() == self.entries@.take(i - 1));
            assert(prefix.last() == self.entries@[i - 1]);
            i = i - 1;
            if same_digest(&self.entries[i].digest, digest) {
                return Some(self.entries[i].account);
            }
        }
        assert(self.entries@.take(0).len() == 0);
        None
    }

    /// Binds `digest` to `account`, in place of any earlier binding of the digest.
    pub fn insert(&mut self, digest: [u8; 32], account: AccountId)
        ensures
            final(self)@ == old(self)@.insert(digest@, account),
    {
        self.remove(&digest);
        let ghost freed = self.entries@;
        self.entries.push(KeyBinding { digest, account });
        assert(self.entries@.drop_last() == freed);
        assert(self@ =~= old(self)@.insert(digest@, account));
    }

    /// Frees `digest`: afterwards it is bound to no account.
    pub fn remove(&mut self, digest: &[u8; 32])
        ensures
            final(self)@ == old(self)@.remove(digest@),
    {
        let mut kept: Vec<KeyBinding> = Vec::new();
        let mut i: usize = 0;
        proof {
            reveal(Seq::filter);
        }
        while i < self.entries.len()
            invariant
                i <= self.entries.len(),
                kept@ == without(self.entries@.take(i as int), digest@),
            decreases self.entries.len() - i,
        {
            let entry = self.entries[i];
            proof {
                reveal(Seq::filter);
                let next = self.entries@.take(i + 1);
                assert(next.drop_last() == self.entries@.take(i as int));
                assert(next.last() == entry);
            }
            if !same_digest(&entry.digest, digest) {
                kept.push(entry);
            }
            i = i + 1;
        }
        proof {
            assert(self.entries@.take(i as int) == self.entries@);
            lemma_without_removes(self.entries@, digest@);
        }
        self.entries = kept;
    }
}

} // verus!
