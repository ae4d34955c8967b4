//! The account store: the bytes that each occupied address holds. An
//! address is either occupied or not; there is nothing in between.

use vstd::prelude::*;
use crate::pubkey::Pubkey;

verus! {

/// One occupied address and the bytes stored there.
struct Entry {
    address: Pubkey,
    data: Vec<u8>,
}

/// No two entries share an address.
spec fn distinct(entries: Seq<Entry>) -> bool {
    forall|i: int, j: int|
        0 <= i < j < entries.len() ==> entries[i].address@ != entries[j].address@
}

/// Some entry sits at `address`.
spec fn occupied(entries: Seq<Entry>, address: Seq<u8>) -> bool {
    exists|i: int| 0 <= i < entries.len() && entries[i].address@ == address
}

/// The position of the entry at `address`.
spec fn slot(entries: Seq<Entry>, address: Seq<u8>) -> int {
    choose|i: int| 0 <= i < entries.len() && entries[i].address@ == address
}

/// The entries as a map from address to stored bytes.
spec fn contents(entries: Seq<Entry>) -> Map<Seq<u8>, Seq<u8>> {
    Map::new(
        |address: Seq<u8>| occupied(entries, address),
        |address: Seq<u8>| entries[slot(entries, address)].data@,
    )
}

/// With distinct addresses, an entry is found at its own position.
proof fn lemma_slot(entries: Seq<Entry>, i: int)
    requires
        distinct(entries),
        0 <= i < entries.len(),
    ensures
        occupied(entries, entries[i].address@),
        slot(entries, entries[i].address@) == i,
        contents(entries).contains_key(entries[i].address@),
        contents(entries)[entries[i].address@] == entries[i].data@,
{
}

/// Adding an entry at a free address occupies that address and no other.
proof fn lemma_push(entries: Seq<Entry>, entry: Entry)
    requires
        distinct(entries),
        !occupied(entries, entry.address@),
    ensures
        distinct(entries.push(entry)),
        contents(entries.push(entry)) == contents(entries).insert(entry.address@, entry.data@),
{
    let after = entries.push(entry);
    assert forall|i: int, j: int| 0 <= i < j < after.len() implies after[i].address@
        != after[j].address@ by {
        if j == entries.len() {
            assert(entries[i].address@ != entry.address@);
        }
    }
    assert forall|a: Seq<u8>| occupied(after, a) <==> (a == entry.address@ || occupied(
        entries,
        a,
    )) by {
        if occupied(after, a) {
            let k = slot(after, a);
            if k < entries.len() {
                assert(entries[k].address@ == a);
            }
        }
        if occupied(entries, a) {
            assert(after[slot(entries, a)].address@ == a);
        }
        if a == entry.address@ {
            assert(after[entries.len() as int].address@ == a);
        }
    }
    assert forall|a: Seq<u8>| occupied(after, a) implies contents(after)[a] == contents(
        entries,
    ).insert(entry.address@, entry.data@)[a] by {
        let k = slot(after, a);
        lemma_slot(after, k);
        if a != entry.address@ {
            lemma_slot(entries, k);
        }
    }
    assert(contents(after) =~= contents(entries).insert(entry.address@, entry.data@));
}

/// Putting an entry in the place of the one at the same address changes the
/// bytes at that address and nothing else.
proof fn lemma_replace(entries: Seq<Entry>, i: int, entry: Entry)
    requires
        distinct(entries),
        0 <= i < entries.len(),
        entries[i].address@ == entry.address@,
    ensures
        distinct(entries.update(i, entry)),
        contents(entries.update(i, entry)) == contents(entries).insert(
            entry.address@,
            entry.data@,
        ),
{
    let after = entries.update(i, entry);
    assert forall|p: int, q: int| 0 <= p < q < after.len() implies after[p].address@
        != after[q].address@ by {
        assert(entries[p].address@ != entries[q].address@);
    }
    assert forall|a: Seq<u8>| occupied(after, a) <==> (a == entry.address@ || occupied(
        entries,
        a,
    )) by {
        if occupied(after, a) {
            assert(entries[slot(after, a)].address@ == a);
        }
        if occupied(entries, a) {
            assert(after[slot(entries, a)].address@ == a);
        }
        if a == entry.address@ {
            assert(after[i].address@ == a);
        }
    }
    assert forall|a: Seq<u8>| occupied(after, a) implies contents(after)[a] == contents(
        entries,
    ).insert(entry.address@, entry.data@)[a] by {
        let k = slot(after, a);
        lemma_slot(after, k);
        if a != entry.address@ {
            lemma_slot(entries, k);
        }
    }
    assert(contents(after) =~= contents(entries).insert(entry.address@, entry.data@));
}

/// Taking an entry out frees its address and no other.
proof fn lemma_remove(entries: Seq<Entry>, i: int)
    requires
        distinct(entries),
        0 <= i < entries.len(),
    ensures
        distinct(entries.remove(i)),
        contents(entries.remove(i)) == contents(entries).remove(entries[i].address@),
{
    let after = entries.remove(i);
    let address = entries[i].address@;
    assert forall|p: int, q: int| 0 <= p < q < after.len() implies after[p].address@
        != after[q].address@ by {
        let bp = if p < i { p } else { p + 1 };
        let bq = if q < i { q } else { q + 1 };
        assert(entries[bp].address@ != entries[bq].address@);
    }
    lemma_slot(entries, i);
    assert forall|a: Seq<u8>| occupied(after, a) <==> (a != address && occupied(entries, a)) by {
        if occupied(after, a) {
            let k = slot(after, a);
            let bk = if k < i { k } else { k + 1 };
            assert(entries[bk].address@ == a);
            if a == address {
                lemma_slot(entries, bk);
            }
        }
        if a != address && occupied(entries, a) {
            let k = slot(entries, a);
            let ak = if k < i { k } else { k - 1 };
            assert(after[ak].address@ == a);
        }
    }
    assert forall|a: Seq<u8>| occupied(after, a) implies contents(after)[a] == contents(
        entries,
    )[a] by {
        let k = slot(after, a);
        let bk = if k < i { k } else { k + 1 };
        lemma_slot(after, k);
        lemma_slot(entries, bk);
    }
    assert(contents(after) =~= contents(entries).remove(address));
}

/// With distinct addresses, there are as many occupied addresses as entries.
proof fn lemma_count(entries: Seq<Entry>)
    requires
        distinct(entries),
    ensures
        contents(entries).dom().finite(),
        contents(entries).dom().len() == entries.len(),
    decreases entries.len(),
{
    if entries.len() == 0 {
        assert(contents(entries).dom() =~= Set::<Seq<u8>>::empty());
    } else {
        let rest = entries.drop_last();
        let last = entries.last();
        assert(distinct(rest));
        assert(!occupied(rest, last.address@)) by {
            if occupied(rest, last.address@) {
                let k = slot(rest, last.address@);
                assert(entries[k].address@ == entries[entries.len() - 1].address@);
            }
        }
        lemma_count(rest);
        assert(rest.push(last) =~= entries);
        lemma_push(rest, last);
        assert(contents(entries).dom() =~= contents(rest).dom().insert(last.address@));
    }
}

/// The store of all records, keyed by address.
pub struct AccountStore {
    entries: Vec<Entry>,
}

impl View for AccountStore {
    type V = Map<Seq<u8>, Seq<u8>>;

    closed spec fn view(&self) -> Map<Seq<u8>, Seq<u8>> {
        contents(self.entries@)
    }
}

impl AccountStore {
    #[verifier::type_invariant]
    spec fn well_formed(self) -> bool {
        distinct(self.entries@)
    }

    /// A store in which no address is occupied.
    pub fn new() -> (store: AccountStore)
        ensures
            store@ == Map::<Seq<u8>, Seq<u8>>::empty(),
    {
        let store = AccountStore { entries: Vec::new() };
        assert(store@ =~= Map::<Seq<u8>, Seq<u8>>::empty());
        store
    }

    /// The position of the entry at `address`, if the address is occupied.
    fn find(&self, address: &Pubkey) -> (found: Option<usize>)
        ensures
            match found {
                Some(i) => i < self.entries@.len() && self.entries@[i as int].address@
                    == address@,
                None => !occupied(self.entries@, address@),
            },
    {
        let mut i: usize = 0;
        while i < self.entries.len()
            invariant
                i <= self.entries@.len(),
                forall|j: int| 0 <= j < i ==> self.entries@[j].address@ != address@,
            decreases self.entries@.len() - i,
        {
            if self.entries[i].address.key_eq(address) {
                return Some(i);
            }
            i += 1;
        }
        None
    }

    /// Whether `address` is occupied.
    pub fn contains(&self, address: &Pubkey) -> (present: bool)
        ensures
            present == self@.contains_key(address@),
    {
        self.find(address).is_some()
    }

    /// The bytes stored at `address`, if it is occupied.
    pub fn get(&self, address: &Pubkey) -> (data: Option<&Vec<u8>>)
        ensures
            match data {
                Some(bytes) => self@.contains_key(address@) && bytes@ == self@[address@],
                None => !self@.contains_key(address@),
            },
    {
        match self.find(address) {
            Some(i) => {
                proof {
                    use_type_invariant(self);
                    lemma_slot(self.entries@, i as int);
                }
                Some(&self.entries[i].data)
            },
            None => None,
        }
    }

    /// Stores `data` at `address`, in place of what was there.
    pub fn insert(&mut self, address: Pubkey, data: Vec<u8>)
        ensures
            final(self)@ == old(self)@.insert(address@, data@),
    {
        proof {
            use_type_invariant(&*self);
        }
        let entry = Entry { address, data };
        let found = self.find(&address);
        let mut entries: Vec<Entry> = Vec::new();
        core::mem::swap(&mut self.entries, &mut entries);
        match found {
            Some(i) => {
                proof {
                    lemma_replace(entries@, i as int, entry);
                }
                entries.set(i, entry);
            },
            None => {
                proof {
                    lemma_push(entries@, entry);
                }
                entries.push(entry);
            },
        }
        self.entries = entries;
    }

    /// Frees `address`. Says whether it was occupied.
    pub fn remove(&mut self, address: &Pubkey) -> (removed: bool)
        ensures
            removed == old(self)@.contains_key(address@),
            final(self)@ == old(self)@.remove(address@),
    {
        proof {
            use_type_invariant(&*self);
        }
        match self.find(address) {
            Some(i) => {
                let mut entries: Vec<Entry> = Vec::new();
                core::mem::swap(&mut self.entries, &mut entries);
                proof {
                    lemma_remove(entries@, i as int);
                }
                let _ = entries.remove(i);
                self.entries = entries;
                true
            },
            None => {
                assert(self@ =~= self@.remove(address@));
                false
            },
        }
    }

    /// The number of occupied addresses.
    pub fn len(&self) -> (count: usize)
        ensures
            self@.dom().finite(),
            count == self@.dom().len(),
    {
        proof {
            use_type_invariant(self);
            lemma_count(self.entries@);
        }
        self.entries.len()
    }
}

} // verus!
