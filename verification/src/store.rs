//! AttestationStore: the write-once record store and its record type.
//!
//! The ledger offers a key/value discipline with one rule: a record is
//! created at an address if and only if the address is empty, and never
//! changed or removed afterwards. A second write at the same address fails
//! deterministically with the duplicate outcome — that is the protocol's
//! mutual exclusion, and a caller may treat it as "already attested".
//!
//! This module carries that discipline as a verified in-process store over
//! the same record type the ledger program keeps, so the write-once rule,
//! and every pipeline built on it, is checked rather than assumed. The
//! transition itself is [`spec_write`]; the live ledger enforces the same
//! rule on its side.

use vstd::prelude::*;
use vstd::string::*;

use crate::errors::SkelzError;

verus! {

/// An attestation record: the digest it attests and the signer that wrote
/// it, as canonical address bytes. Owned by the ledger once written,
/// immutable thereafter.
pub struct Signature {
    pub digest: String,
    pub signer: Vec<u8>,
}

impl View for Signature {
    type V = (Seq<char>, Seq<u8>);

    open spec fn view(&self) -> (Seq<char>, Seq<u8>) {
        (self.digest@, self.signer@)
    }
}

/// The map a sequence of address/record entries holds, later entries
/// shadowing earlier ones.
pub open spec fn entries_map(s: Seq<(Vec<u8>, Signature)>) -> Map<Seq<u8>, (Seq<char>, Seq<u8>)>
    decreases s.len(),
{
    if s.len() == 0 {
        Map::empty()
    } else {
        entries_map(s.drop_last()).insert(s.last().0@, s.last().1@)
    }
}

/// No two entries share an address.
pub open spec fn keys_unique(s: Seq<(Vec<u8>, Signature)>) -> bool {
    forall|i: int, j: int| 0 <= i < j < s.len() ==> s[i].0@ != s[j].0@
}

/// An address is in the map exactly when some entry carries it.
proof fn lemma_entries_map_domain(s: Seq<(Vec<u8>, Signature)>, k: Seq<u8>)
    ensures
        entries_map(s).contains_key(k) <==> exists|i: int| 0 <= i < s.len() && s[i].0@ == k,
    decreases s.len(),
{
    if s.len() > 0 {
        let prefix = s.drop_last();
        lemma_entries_map_domain(prefix, k);
        if s.last().0@ == k {
            assert(s[s.len() - 1].0@ == k);
        } else if exists|i: int| 0 <= i < prefix.len() && prefix[i].0@ == k {
            let i = choose|i: int| 0 <= i < prefix.len() && prefix[i].0@ == k;
            assert(s[i].0@ == k);
        } else if exists|i: int| 0 <= i < s.len() && s[i].0@ == k {
            let i = choose|i: int| 0 <= i < s.len() && s[i].0@ == k;
            assert(prefix[i].0@ == k);
        }
    }
}

/// With unique addresses, the map holds at an entry's address exactly that
/// entry's record.
proof fn lemma_entries_map_get(s: Seq<(Vec<u8>, Signature)>, k: Seq<u8>, i: int)
    requires
        keys_unique(s),
        0 <= i < s.len(),
        s[i].0@ == k,
    ensures
        entries_map(s).contains_key(k),
        entries_map(s)[k] == s[i].1@,
    decreases s.len(),
{
    let prefix = s.drop_last();
    if i == s.len() - 1 {
    } else {
        assert(s[i].0@ != s.last().0@);
        assert(prefix[i].0@ == k);
        lemma_entries_map_get(prefix, k, i);
    }
}

/// The write-once transition on the store's contents: the new contents and
/// whether the write took place. A write succeeds if and only if the
/// address was empty; a failed write changes nothing.
pub open spec fn spec_write(
    m: Map<Seq<u8>, (Seq<char>, Seq<u8>)>,
    addr: Seq<u8>,
    rec: (Seq<char>, Seq<u8>),
) -> (Map<Seq<u8>, (Seq<char>, Seq<u8>)>, bool) {
    if m.contains_key(addr) {
        (m, false)
    } else {
        (m.insert(addr, rec), true)
    }
}

/// Law: whatever the store held, after any write at an address a second
/// write at the same address fails with the duplicate outcome and leaves
/// the contents as they were. This is the store's mutual exclusion:
/// of two racing writers of one digest, at most one creates the record.
pub proof fn lemma_write_once(
    m: Map<Seq<u8>, (Seq<char>, Seq<u8>)>,
    addr: Seq<u8>,
    r1: (Seq<char>, Seq<u8>),
    r2: (Seq<char>, Seq<u8>),
)
    ensures
        !spec_write(spec_write(m, addr, r1).0, addr, r2).1,
        spec_write(spec_write(m, addr, r1).0, addr, r2).0 == spec_write(m, addr, r1).0,
{
}

/// Law: a write that took place is readable: the contents then hold
/// exactly the record written, at exactly the written address.
pub proof fn lemma_write_then_read(
    m: Map<Seq<u8>, (Seq<char>, Seq<u8>)>,
    addr: Seq<u8>,
    rec: (Seq<char>, Seq<u8>),
)
    requires
        !m.contains_key(addr),
    ensures
        spec_write(m, addr, rec).1,
        spec_write(m, addr, rec).0.contains_key(addr),
        spec_write(m, addr, rec).0[addr] == rec,
{
}

/// The write-once attestation store: records by address, plus the sequence
/// number the next accepted transaction gets.
pub struct AttestationStore {
    entries: Vec<(Vec<u8>, Signature)>,
    next_tx: u64,
}

impl AttestationStore {
    /// The records the store holds, by address.
    pub closed spec fn contents(&self) -> Map<Seq<u8>, (Seq<char>, Seq<u8>)> {
        entries_map(self.entries@)
    }

    /// How many writes the store has accepted.
    pub closed spec fn tx_count(&self) -> u64 {
        self.next_tx
    }

    /// Internal consistency: one entry per address.
    pub closed spec fn wf(&self) -> bool {
        keys_unique(self.entries@)
    }

    /// An empty store.
    pub fn new() -> (r: AttestationStore)
        ensures
            r.wf(),
            r.contents() == Map::<Seq<u8>, (Seq<char>, Seq<u8>)>::empty(),
            r.tx_count() == 0,
    {
        AttestationStore { entries: Vec::new(), next_tx: 0 }
    }

    /// The position of the entry at `address`, if one exists.
    fn find_entry(&self, address: &Vec<u8>) -> (r: Option<usize>)
        ensures
            match r {
                Some(i) => i < self.entries@.len() && self.entries@[i as int].0@ == address@,
                None => forall|i: int|
                    0 <= i < self.entries@.len() ==> self.entries@[i].0@ != address@,
            },
    {
        let n = self.entries.len();
        let mut i: usize = 0;
        while i < n
            invariant
                0 <= i <= n,
                n == self.entries@.len(),
                forall|j: int| 0 <= j < i ==> self.entries@[j].0@ != address@,
            decreases n - i,
        {
            let entry = &self.entries[i];
            if crate::strutil::bytes_eq(&entry.0, address) {
                return Some(i);
            }
            i += 1;
        }
        None
    }

    /// Creates the record at `address` if and only if the address is
    /// empty, returning the accepted transaction's sequence number; fails
    /// with `DuplicateAttestation` — and changes nothing — exactly when a
    /// record already sits there.
    pub fn write_signature(&mut self, address: &Vec<u8>, digest: &str, signer: &Vec<u8>) -> (r:
        Result<u64, SkelzError>)
        requires
            old(self).wf(),
            old(self).tx_count() < u64::MAX,
        ensures
            final(self).wf(),
            final(self).contents() == spec_write(
                old(self).contents(),
                address@,
                (digest@, signer@),
            ).0,
            r is Ok <==> spec_write(old(self).contents(), address@, (digest@, signer@)).1,
            r matches Ok(tx) ==> tx == old(self).tx_count() && final(self).tx_count() == old(
                self,
            ).tx_count() + 1,
            r matches Err(e) ==> (e matches SkelzError::DuplicateAttestation(d) && d@ == digest@
                && final(self).contents() == old(self).contents() && final(self).tx_count()
                == old(self).tx_count()),
    {
        proof {
            lemma_entries_map_domain(self.entries@, address@);
        }
        match self.find_entry(address) {
            Some(_) => Err(SkelzError::DuplicateAttestation(String::from_str(digest))),
            None => {
                let tx = self.next_tx;
                let record = Signature {
                    digest: String::from_str(digest),
                    signer: crate::strutil::copy_bytes(signer),
                };
                let addr_key = crate::strutil::copy_bytes(address);
                self.entries.push((addr_key, record));
                self.next_tx = tx + 1;
                proof {
                    let s_new = self.entries@;
                    let s_old = s_new.drop_last();
                    assert(s_old =~= old(self).entries@);
                    assert forall|i: int, j: int| 0 <= i < j < s_new.len() implies s_new[i].0@
                        != s_new[j].0@ by {
                        if j == s_new.len() - 1 {
                            assert(s_new[i].0@ != address@);
                        }
                    }
                }
                Ok(tx)
            },
        }
    }

    /// The record at `address`, unchanged from what was written; fails
    /// with `NotFound` exactly when the address is empty.
    pub fn read_signature(&self, address: &Vec<u8>) -> (r: Result<&Signature, SkelzError>)
        requires
            self.wf(),
        ensures
            r is Ok <==> self.contents().contains_key(address@),
            r matches Ok(sig) ==> self.contents()[address@] == sig@,
            r matches Err(e) ==> e is NotFound,
    {
        proof {
            lemma_entries_map_domain(self.entries@, address@);
        }
        match self.find_entry(address) {
            Some(i) => {
                proof {
                    lemma_entries_map_get(self.entries@, address@, i as int);
                }
                let entry = &self.entries[i];
                Ok(&entry.1)
            },
            None => Err(
                SkelzError::NotFound(String::from_str("no attestation record at this address")),
            ),
        }
    }

    /// Whether a record exists at `address`.
    pub fn has_record(&self, address: &Vec<u8>) -> (b: bool)
        requires
            self.wf(),
        ensures
            b == self.contents().contains_key(address@),
    {
        proof {
            lemma_entries_map_domain(self.entries@, address@);
        }
        self.find_entry(address).is_some()
    }
}

/// Whether a write outcome counts as "attested": either the write took
/// place, or it failed as a duplicate, meaning the digest was attested
/// already. This is the one failure a caller treats as success-equivalent.
pub fn is_success_equivalent(r: &Result<u64, SkelzError>) -> (b: bool)
    ensures
        b == (r is Ok || (r matches Err(e) && e is DuplicateAttestation)),
{
    match r {
        Ok(_) => true,
        Err(SkelzError::DuplicateAttestation(_)) => true,
        Err(_) => false,
    }
}

} // verus!
