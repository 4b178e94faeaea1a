//! The membership filter of a miner: a counting filter over the fingerprints
//! of the files it serves.
//!
//! A fingerprint has 256 positions, each marked (1) or not (0). The filter
//! counts, position by position, how many of the fingerprints it holds mark
//! that position. A file may be served if every position its fingerprint marks
//! has a count above zero; the answer can be wrong for a file that was never
//! inserted, never for one that was.

use crate::types::LedgerError;
use vstd::prelude::*;

verus! {

/// The number of positions of a fingerprint, and of counters of a filter.
pub const FILTER_WIDTH: usize = 256;

/// Whether every position of `elem` is either marked or not.
pub open spec fn is_fingerprint(elem: Seq<u8>) -> bool {
    &&& elem.len() == FILTER_WIDTH
    &&& forall|i: int| 0 <= i < FILTER_WIDTH ==> elem[i] <= 1
}

/// Whether a filter with these counters has room for `elem`.
pub open spec fn insertable(counters: Seq<u64>, elem: Seq<u8>) -> bool {
    &&& is_fingerprint(elem)
    &&& forall|i: int| 0 <= i < FILTER_WIDTH ==> counters[i] + elem[i] <= u64::MAX
}

/// The counters after `elem` was inserted.
pub open spec fn with_inserted(counters: Seq<u64>, elem: Seq<u8>) -> Seq<u64> {
    Seq::new(FILTER_WIDTH as nat, |i: int| (counters[i] + elem[i]) as u64)
}

/// Whether a filter with these counters can give `elem` back.
pub open spec fn deletable(counters: Seq<u64>, elem: Seq<u8>) -> bool {
    &&& is_fingerprint(elem)
    &&& forall|i: int| 0 <= i < FILTER_WIDTH ==> counters[i] >= elem[i]
}

/// The counters after `elem` was deleted.
pub open spec fn with_deleted(counters: Seq<u64>, elem: Seq<u8>) -> Seq<u64> {
    Seq::new(FILTER_WIDTH as nat, |i: int| (counters[i] - elem[i]) as u64)
}

/// Whether a filter with these counters may hold `elem`.
pub open spec fn may_contain(counters: Seq<u64>, elem: Seq<u8>) -> bool {
    forall|i: int| 0 <= i < FILTER_WIDTH && elem[i] == 1 ==> counters[i] >= 1
}

/// Inserting the fingerprints of `list` one after the other, up to the first
/// that the filter has no room for: the counters reached, and whether every
/// fingerprint went in.
pub open spec fn insert_each(counters: Seq<u64>, list: Seq<Seq<u8>>) -> (Seq<u64>, bool)
    decreases list.len(),
{
    if list.len() == 0 {
        (counters, true)
    } else if !insertable(counters, list[0]) {
        (counters, false)
    } else {
        insert_each(with_inserted(counters, list[0]), list.drop_first())
    }
}

/// Deleting the fingerprints of `list` one after the other, up to the first
/// that the filter cannot give back: the counters reached, and whether every
/// fingerprint came out.
pub open spec fn delete_each(counters: Seq<u64>, list: Seq<Seq<u8>>) -> (Seq<u64>, bool)
    decreases list.len(),
{
    if list.len() == 0 {
        (counters, true)
    } else if !deletable(counters, list[0]) {
        (counters, false)
    } else {
        delete_each(with_deleted(counters, list[0]), list.drop_first())
    }
}

/// The fingerprints of a list of boxed identifiers.
pub open spec fn fingerprints(list: Seq<Box<[u8; 256]>>) -> Seq<Seq<u8>> {
    Seq::new(list.len(), |i: int| list[i]@)
}

/// A counting membership filter with one 64-bit counter for each position.
#[derive(Clone, Copy, Debug, PartialEq, Eq)]
pub struct BloomFilter(pub [u64; 256]);

impl View for BloomFilter {
    type V = Seq<u64>;

    open spec fn view(&self) -> Seq<u64> {
        self.0@
    }
}

impl BloomFilter {
    /// A filter that holds nothing.
    pub fn new() -> (filter: BloomFilter)
        ensures
            filter@ == Seq::new(FILTER_WIDTH as nat, |i: int| 0u64),
    {
        let filter = BloomFilter([0u64; 256]);
        assert(filter@ =~= Seq::new(FILTER_WIDTH as nat, |i: int| 0u64));
        filter
    }

    /// Whether the filter has room for `elem`.
    fn has_room_for(&self, elem: &[u8; 256]) -> (room: bool)
        ensures
            room == insertable(self@, elem@),
    {
        let mut i: usize = 0;
        while i < 256
            invariant
                i <= 256,
                forall|k: int| 0 <= k < i ==> elem@[k] <= 1 && self@[k] + elem@[k] <= u64::MAX,
            decreases 256 - i,
        {
            if elem[i] > 1 || self.0[i] == u64::MAX && elem[i] == 1 {
                return false;
            }
            i = i + 1;
        }
        true
    }

    /// Whether the filter can give `elem` back.
    fn can_release(&self, elem: &[u8; 256]) -> (holds: bool)
        ensures
            holds == deletable(self@, elem@),
    {
        let mut i: usize = 0;
        while i < 256
            invariant
                i <= 256,
                forall|k: int| 0 <= k < i ==> elem@[k] <= 1 && self@[k] >= elem@[k],
            decreases 256 - i,
        {
            if elem[i] > 1 || self.0[i] == 0 && elem[i] == 1 {
                return false;
            }
            i = i + 1;
        }
        true
    }

    /// Inserts a fingerprint. Fails, and changes nothing, if `elem` is no
    /// fingerprint or one of the counters it marks is exhausted.
    pub fn insert(&mut self, elem: &[u8; 256]) -> (res: Result<(), LedgerError>)
        ensures
            insertable(old(self)@, elem@) ==> res == Ok::<(), LedgerError>(()) && final(self)@
                == with_inserted(old(self)@, elem@),
            !insertable(old(self)@, elem@) ==> res == Err::<(), LedgerError>(
                LedgerError::FilterCapacityError,
            ) && *final(self) == *old(self),
    {
        if !self.has_room_for(elem) {
            return Err(LedgerError::FilterCapacityError);
        }
        let mut i: usize = 0;
        while i < 256
            invariant
                i <= 256,
                insertable(old(self)@, elem@),
                forall|k: int| 0 <= k < i ==> self@[k] == old(self)@[k] + elem@[k],
                forall|k: int| i <= k < 256 ==> self@[k] == old(self)@[k],
            decreases 256 - i,
        {
            self.0[i] = self.0[i] + elem[i] as u64;
            i = i + 1;
        }
        assert(self@ =~= with_inserted(old(self)@, elem@));
        Ok(())
    }

    /// Deletes a fingerprint. Fails, and changes nothing, if `elem` is no
    /// fingerprint or one of the counters it marks is already zero.
    pub fn delete(&mut self, elem: &[u8; 256]) -> (res: Result<(), LedgerError>)
        ensures
            deletable(old(self)@, elem@) ==> res == Ok::<(), LedgerError>(()) && final(self)@
                == with_deleted(old(self)@, elem@),
            !deletable(old(self)@, elem@) ==> res == Err::<(), LedgerError>(
                LedgerError::FilterCapacityError,
            ) && *final(self) == *old(self),
    {
        if !self.can_release(elem) {
            return Err(LedgerError::FilterCapacityError);
        }
        let mut i: usize = 0;
        while i < 256
            invariant
                i <= 256,
                deletable(old(self)@, elem@),
                forall|k: int| 0 <= k < i ==> self@[k] == old(self)@[k] - elem@[k],
                forall|k: int| i <= k < 256 ==> self@[k] == old(self)@[k],
            decreases 256 - i,
        {
            self.0[i] = self.0[i] - elem[i] as u64;
            i = i + 1;
        }
        assert(self@ =~= with_deleted(old(self)@, elem@));
        Ok(())
    }

    /// Inserts the fingerprints of `list` in order and stops at the first that
    /// the filter has no room for. The fingerprints before that one stay
    /// inserted: a caller that wants all or nothing works on a copy.
    pub fn insert_each(&mut self, list: &Vec<Box<[u8; 256]>>) -> (res: Result<(), LedgerError>)
        ensures
            final(self)@ == insert_each(old(self)@, fingerprints(list@)).0,
            insert_each(old(self)@, fingerprints(list@)).1 ==> res == Ok::<(), LedgerError>(()),
            !insert_each(old(self)@, fingerprints(list@)).1 ==> res == Err::<(), LedgerError>(
                LedgerError::FilterCapacityError,
            ),
    {
        let ghost all = fingerprints(list@);
        let mut i: usize = 0;
        assert(all.skip(0) == all);
        while i < list.len()
            invariant
                i <= list.len(),
                all == fingerprints(list@),
                insert_each(old(self)@, all) == insert_each(self@, all.skip(i as int)),
            decreases list.len() - i,
        {
            let ghost rest = all.skip(i as int);
            assert(rest[0] == list@[i as int]@);
            assert(rest.drop_first() == all.skip(i + 1));
            let elem: &[u8; 256] = &list[i];
            match self.insert(elem) {
                Ok(()) => {},
                Err(e) => {
                    return Err(e);
                },
            }
            i = i + 1;
        }
        assert(all.skip(i as int).len() == 0);
        Ok(())
    }

    /// Deletes the fingerprints of `list` in order and stops at the first that
    /// the filter cannot give back. The fingerprints before that one stay deleted.
    pub fn delete_each(&mut self, list: &Vec<Box<[u8; 256]>>) -> (res: Result<(), LedgerError>)
        ensures
            final(self)@ == delete_each(old(self)@, fingerprints(list@)).0,
            delete_each(old(self)@, fingerprints(list@)).1 ==> res == Ok::<(), LedgerError>(()),
            !delete_each(old(self)@, fingerprints(list@)).1 ==> res == Err::<(), LedgerError>(
                LedgerError::FilterCapacityError,
            ),
    {
        let ghost all = fingerprints(list@);
        let mut i: usize = 0;
        assert(all.skip(0) == all);
        while i < list.len()
            invariant
                i <= list.len(),
                all == fingerprints(list@),
                delete_each(old(self)@, all) == delete_each(self@, all.skip(i as int)),
            decreases list.len() - i,
        {
            let ghost rest = all.skip(i as int);
            assert(rest[0] == list@[i as int]@);
            assert(rest.drop_first() == all.skip(i + 1));
            let elem: &[u8; 256] = &list[i];
            match self.delete(elem) {
                Ok(()) => {},
                Err(e) => {
                    return Err(e);
                },
            }
            i = i + 1;
        }
        assert(all.skip(i as int).len() == 0);
        Ok(())
    }
}

} // verus!
