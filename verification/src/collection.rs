//! Collections of records: keyed ones, in which a slug names at most one
//! record and a later record replaces an earlier one with the same slug, and
//! ordered ones, which keep every record in the order of arrival.

use vstd::prelude::*;

verus! {

/// A record that a slug identifies.
pub trait Slugged {
    /// The slug that identifies the record.
    spec fn key(&self) -> Seq<char>;

    /// The slug that identifies the record.
    fn slug(&self) -> (s: &String)
        ensures
            s@ == self.key(),
    ;
}

/// Whether a record of `s` has the slug `key`.
pub open spec fn has_key<T: Slugged>(s: Seq<T>, key: Seq<char>) -> bool {
    exists|i: int| 0 <= i < s.len() && (#[trigger] s[i]).key() == key
}

/// The slugs of the records of `s`.
pub open spec fn keys<T: Slugged>(s: Seq<T>) -> Set<Seq<char>> {
    Set::new(|key: Seq<char>| has_key(s, key))
}

/// Whether no two records of `s` share a slug.
pub open spec fn distinct<T: Slugged>(s: Seq<T>) -> bool {
    forall|i: int, j: int|
        0 <= i < j < s.len() ==> (#[trigger] s[i]).key() != (#[trigger] s[j]).key()
}

/// A position of `s` at which the slug `key` stands, where there is one.
pub open spec fn slot<T: Slugged>(s: Seq<T>, key: Seq<char>) -> int {
    choose|i: int| 0 <= i < s.len() && (#[trigger] s[i]).key() == key
}

/// `s` after `record` went in: in the place of the record with the same
/// slug, or behind all others where no record has that slug.
pub open spec fn inserted<T: Slugged>(s: Seq<T>, record: T) -> Seq<T> {
    if has_key(s, record.key()) {
        s.update(slot(s, record.key()), record)
    } else {
        s.push(record)
    }
}

/// `s` after the records of `batch` went in, one after the other.
pub open spec fn merged<T: Slugged>(s: Seq<T>, batch: Seq<T>) -> Seq<T>
    decreases batch.len(),
{
    if batch.len() == 0 {
        s
    } else {
        inserted(merged(s, batch.drop_last()), batch.last())
    }
}

/// Putting a record in keeps the slugs distinct, loses no slug, adds the
/// record's own, and never shortens the collection.
pub proof fn lemma_inserted<T: Slugged>(s: Seq<T>, record: T)
    requires
        distinct(s),
    ensures
        distinct(inserted(s, record)),
        keys(inserted(s, record)) == keys(s).insert(record.key()),
        s.len() <= inserted(s, record).len() <= s.len() + 1,
        has_key(s, record.key()) <==> inserted(s, record).len() == s.len(),
{
    let after = inserted(s, record);
    if has_key(s, record.key()) {
        let at = slot(s, record.key());
        assert forall|key: Seq<char>| has_key(after, key) <==> (has_key(s, key) || key
            == record.key()) by {
            if has_key(s, key) {
                let i = choose|i: int| 0 <= i < s.len() && (#[trigger] s[i]).key() == key;
                if i == at {
                    assert(after[at].key() == key);
                } else {
                    assert(after[i].key() == key);
                }
            }
        }
    } else {
        assert forall|key: Seq<char>| has_key(after, key) <==> (has_key(s, key) || key
            == record.key()) by {
            if has_key(s, key) {
                let i = choose|i: int| 0 <= i < s.len() && (#[trigger] s[i]).key() == key;
                assert(after[i].key() == key);
            }
            if key == record.key() {
                assert(after[s.len() as int].key() == key);
            }
        }
    }
}

/// Merging a batch keeps the slugs distinct, loses no slug, adds those of
/// the batch, and grows the collection by at most the size of the batch.
pub proof fn lemma_merged<T: Slugged>(s: Seq<T>, batch: Seq<T>)
    requires
        distinct(s),
    ensures
        distinct(merged(s, batch)),
        keys(merged(s, batch)) == keys(s).union(keys(batch)),
        s.len() <= merged(s, batch).len() <= s.len() + batch.len(),
    decreases batch.len(),
{
    if batch.len() > 0 {
        let front = batch.drop_last();
        lemma_merged(s, front);
        lemma_inserted(merged(s, front), batch.last());
        assert forall|key: Seq<char>| has_key(batch, key) <==> (has_key(front, key) || key
            == batch.last().key()) by {
            if has_key(batch, key) {
                let i = choose|i: int| 0 <= i < batch.len() && (#[trigger] batch[i]).key() == key;
                if i < front.len() {
                    assert(front[i].key() == key);
                }
            }
        }
    }
}

/// Merging records with distinct slugs into the empty collection gives
/// these records.
pub proof fn lemma_merged_distinct<T: Slugged>(s: Seq<T>)
    requires
        distinct(s),
    ensures
        merged(Seq::<T>::empty(), s) == s,
    decreases s.len(),
{
    if s.len() > 0 {
        let front = s.drop_last();
        lemma_merged_distinct(front);
    }
}

/// A collection in which a slug names at most one record. A record that
/// arrives under a slug that is already there takes the place of the earlier
/// one; the others keep their order of arrival.
#[derive(Debug)]
pub struct Keyed<T: Slugged> {
    items: Vec<T>,
}

impl<T: Slugged> View for Keyed<T> {
    type V = Seq<T>;

    closed spec fn view(&self) -> Seq<T> {
        self.items@
    }
}

impl<T: Slugged> Keyed<T> {
    #[verifier::type_invariant]
    spec fn well_formed(&self) -> bool {
        distinct(self.items@)
    }

    /// The slugs in the collection.
    pub open spec fn key_set(&self) -> Set<Seq<char>> {
        keys(self@)
    }

    /// The empty collection.
    pub fn new() -> (out: Self)
        ensures
            out@ == Seq::<T>::empty(),
    {
        Keyed { items: Vec::new() }
    }

    /// The number of records.
    pub fn len(&self) -> (n: usize)
        ensures
            n == self@.len(),
    {
        self.items.len()
    }

    /// Whether the collection holds no record.
    pub fn is_empty(&self) -> (empty: bool)
        ensures
            empty == (self@.len() == 0),
    {
        self.items.len() == 0
    }

    /// The records, in the order in which their slugs first arrived.
    pub fn records(&self) -> (out: &Vec<T>)
        ensures
            out@ == self@,
            distinct(out@),
    {
        proof {
            use_type_invariant(self);
        }
        &self.items
    }

    /// The records, in the order in which their slugs first arrived.
    pub fn into_records(self) -> (out: Vec<T>)
        ensures
            out@ == self@,
            distinct(out@),
    {
        proof {
            use_type_invariant(&self);
        }
        self.items
    }

    /// The position of the record with the slug `key`, if there is one.
    pub fn position(&self, key: &String) -> (at: Option<usize>)
        ensures
            match at {
                Some(i) => i < self@.len() && self@[i as int].key() == key@,
                None => !has_key(self@, key@),
            },
    {
        let mut i: usize = 0;
        while i < self.items.len()
            invariant
                i <= self.items.len(),
                forall|j: int| 0 <= j < i ==> (#[trigger] self.items@[j]).key() != key@,
            decreases self.items.len() - i,
        {
            if *self.items[i].slug() == *key {
                return Some(i);
            }
            i += 1;
        }
        None
    }

    /// The record with the slug `key`, if there is one.
    pub fn get(&self, key: &String) -> (found: Option<&T>)
        ensures
            match found {
                Some(record) => has_key(self@, key@) && *record == self@[slot(self@, key@)],
                None => !has_key(self@, key@),
            },
    {
        match self.position(key) {
            Some(i) => {
                proof {
                    use_type_invariant(self);
                }
                Some(&self.items[i])
            },
            None => None,
        }
    }

    /// Whether a record has the slug `key`.
    pub fn contains_key(&self, key: &String) -> (found: bool)
        ensures
            found == has_key(self@, key@),
    {
        self.position(key).is_some()
    }

    /// Puts `record` in: in the place of the record with the same slug, or
    /// behind all others where no record has that slug.
    pub fn insert_or_replace(&mut self, record: T)
        ensures
            final(self)@ == inserted(old(self)@, record),
            final(self).key_set() == old(self).key_set().insert(record.key()),
            old(self)@.len() <= final(self)@.len() <= old(self)@.len() + 1,
    {
        proof {
            use_type_invariant(&*self);
            lemma_inserted(self.items@, record);
        }
        let found = self.position(record.slug());
        let ghost before = self.items@;
        let mut items: Vec<T> = Vec::new();
        std::mem::swap(&mut items, &mut self.items);
        match found {
            Some(i) => {
                items[i] = record;
            },
            None => {
                items.push(record);
            },
        }
        self.items = items;
    }

    /// Puts the records of `batch` in, one after the other.
    pub fn merge(&mut self, batch: Vec<T>)
        ensures
            final(self)@ == merged(old(self)@, batch@),
            final(self).key_set() == old(self).key_set().union(keys(batch@)),
            old(self)@.len() <= final(self)@.len() <= old(self)@.len() + batch@.len(),
    {
        proof {
            use_type_invariant(&*self);
            lemma_merged(self.items@, batch@);
        }
        let ghost all = batch@;
        let ghost start = self@;
        for record in it: batch.into_iter()
            invariant
                it.seq() == all,
                self@ == merged(start, all.take(it.index())),
        {
            proof {
                let done = it.index();
                assert(all.take(done + 1).drop_last() == all.take(done));
            }
            self.insert_or_replace(record);
        }
        proof {
            assert(all.take(all.len() as int) == all);
        }
    }
}

/// Appends the records of `batch` to `target`, in their order.
pub fn extend<T>(target: &mut Vec<T>, batch: Vec<T>)
    ensures
        final(target)@ == old(target)@ + batch@,
        final(target)@.len() >= old(target)@.len(),
{
    let mut batch = batch;
    target.append(&mut batch);
}

/// The values that the references of `s` lead to.
pub open spec fn targets<T>(s: Seq<&T>) -> Seq<T> {
    Seq::new(s.len(), |i: int| *s[i])
}

/// Whether `keep` says either yes or no of each record, never both.
pub open spec fn decides<T, F: Fn(&T) -> bool>(keep: F) -> bool {
    forall|t: &T| #[trigger]
        call_requires(keep, (t,)) && !(call_ensures(keep, (t,), true) && call_ensures(
            keep,
            (t,),
            false,
        ))
}

/// The records of `items` of which `keep` says yes, in their order. The
/// records are handed out by reference; `items` is left as it is.
pub fn select_where<'a, T, F: Fn(&T) -> bool>(items: &'a Vec<T>, keep: F) -> (out: Vec<&'a T>)
    requires
        decides::<T, F>(keep),
    ensures
        targets(out@) == items@.filter(|t: T| call_ensures(keep, (&t,), true)),
{
    let ghost pred = |t: T| call_ensures(keep, (&t,), true);
    let mut out: Vec<&'a T> = Vec::new();
    let mut i: usize = 0;
    while i < items.len()
        invariant
            i <= items.len(),
            decides::<T, F>(keep),
            pred == (|t: T| call_ensures(keep, (&t,), true)),
            targets(out@) == items@.take(i as int).filter(pred),
        decreases items.len() - i,
    {
        let item = &items[i];
        proof {
            reveal(Seq::filter);
            assert(items@.take(i + 1).drop_last() == items@.take(i as int));
            assert(call_requires(keep, (item,)));
        }
        if keep(item) {
            out.push(item);
        }
        i += 1;
    }
    proof {
        assert(items@.take(items.len() as int) == items@);
    }
    out
}

/// The records of a collection after a page's records went in: merged by
/// slug into a keyed collection, appended to an ordered one.
pub open spec fn absorbed<T: Slugged>(keyed: bool, s: Seq<T>, batch: Seq<T>) -> Seq<T> {
    if keyed {
        merged(s, batch)
    } else {
        s + batch
    }
}

/// A collection never shrinks when a page's records go in, and no slug
/// leaves it.
pub proof fn lemma_absorbed_grows<T: Slugged>(keyed: bool, s: Seq<T>, batch: Seq<T>)
    requires
        keyed ==> distinct(s),
    ensures
        absorbed(keyed, s, batch).len() >= s.len(),
        keys(s).subset_of(keys(absorbed(keyed, s, batch))),
        keys(batch).subset_of(keys(absorbed(keyed, s, batch))),
        keyed ==> distinct(absorbed(keyed, s, batch)),
        !keyed ==> absorbed(keyed, s, batch).len() == s.len() + batch.len(),
{
    if keyed {
        lemma_merged(s, batch);
    } else {
        let after = s + batch;
        assert forall|key: Seq<char>| has_key(batch, key) implies has_key(after, key) by {
            let i = choose|i: int| 0 <= i < batch.len() && (#[trigger] batch[i]).key() == key;
            assert(after[s.len() + i].key() == key);
        }
    }
}

/// The records of one query: keyed by slug, or in their order of arrival.
#[derive(Debug)]
pub enum Collection<T: Slugged> {
    /// A slug names at most one record; a later record replaces an earlier
    /// one with the same slug.
    Keyed(Keyed<T>),
    /// Every record stays, in the order of arrival.
    Ordered(Vec<T>),
}

impl<T: Slugged> Collection<T> {
    /// The records, in order.
    pub open spec fn records(&self) -> Seq<T> {
        match self {
            Collection::Keyed(k) => k@,
            Collection::Ordered(v) => v@,
        }
    }

    /// Whether the collection is keyed by slug.
    pub open spec fn is_keyed(&self) -> bool {
        self is Keyed
    }

    /// The empty collection of the given kind.
    pub fn new(keyed: bool) -> (out: Self)
        ensures
            out.is_keyed() == keyed,
            out.records() == Seq::<T>::empty(),
    {
        if keyed {
            Collection::Keyed(Keyed::new())
        } else {
            Collection::Ordered(Vec::new())
        }
    }

    /// The number of records.
    pub fn len(&self) -> (n: usize)
        ensures
            n == self.records().len(),
    {
        match self {
            Collection::Keyed(k) => k.len(),
            Collection::Ordered(v) => v.len(),
        }
    }

    /// The records, in order.
    pub fn as_vec(&self) -> (out: &Vec<T>)
        ensures
            out@ == self.records(),
            self.is_keyed() ==> distinct(out@),
    {
        match self {
            Collection::Keyed(k) => k.records(),
            Collection::Ordered(v) => v,
        }
    }

    /// Takes in one record: in the place of the record with the same slug or
    /// behind all others in a keyed collection, behind all others in an
    /// ordered one.
    pub fn add(&mut self, record: T)
        ensures
            final(self).is_keyed() == old(self).is_keyed(),
            final(self).records() == if old(self).is_keyed() {
                inserted(old(self).records(), record)
            } else {
                old(self).records().push(record)
            },
            final(self).records().len() >= old(self).records().len(),
    {
        match self {
            Collection::Keyed(k) => {
                k.insert_or_replace(record);
            },
            Collection::Ordered(v) => {
                v.push(record);
            },
        }
    }

    /// Takes in the records of a page: merged by slug into a keyed
    /// collection, appended to an ordered one. The collection never shrinks
    /// and no slug leaves it.
    pub fn absorb(&mut self, batch: Vec<T>)
        ensures
            final(self).is_keyed() == old(self).is_keyed(),
            final(self).records() == absorbed(old(self).is_keyed(), old(self).records(), batch@),
            final(self).records().len() >= old(self).records().len(),
            keys(old(self).records()).subset_of(keys(final(self).records())),
    {
        match self {
            Collection::Keyed(k) => {
                k.merge(batch);
            },
            Collection::Ordered(v) => {
                proof {
                    lemma_absorbed_grows(false, v@, batch@);
                }
                extend(v, batch);
            },
        }
    }
}

} // verus!
