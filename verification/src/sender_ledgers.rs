//! For each sender, the ledger in which it last initiated a payment.

use vstd::prelude::*;

verus! {

/// Whether no two entries are about the same sender.
pub open spec fn senders_distinct(entries: Seq<(String, u32)>) -> bool {
    forall|i: int, j: int|
        0 <= i < entries.len() && 0 <= j < entries.len() && i != j ==> #[trigger] entries[i].0@
            != #[trigger] entries[j].0@
}

/// Whether some entry is about `sender`.
pub open spec fn has_sender(entries: Seq<(String, u32)>, sender: Seq<char>) -> bool {
    exists|i: int| 0 <= i < entries.len() && #[trigger] entries[i].0@ == sender
}

/// The map from sender to ledger that a list of entries stands for.
pub open spec fn entries_map(entries: Seq<(String, u32)>) -> Map<Seq<char>, u32> {
    Map::new(
        |sender: Seq<char>| has_sender(entries, sender),
        |sender: Seq<char>|
            entries[choose|i: int| 0 <= i < entries.len() && #[trigger] entries[i].0@ == sender].1,
    )
}

/// An entry of a list without repeated senders gives the map's value for its
/// sender.
pub proof fn lemma_entry_in_map(entries: Seq<(String, u32)>, i: int)
    requires
        senders_distinct(entries),
        0 <= i < entries.len(),
    ensures
        entries_map(entries).contains_key(entries[i].0@),
        entries_map(entries)[entries[i].0@] == entries[i].1,
{
    let k = entries[i].0@;
    assert(has_sender(entries, k));
    let j = choose|j: int| 0 <= j < entries.len() && #[trigger] entries[j].0@ == k;
    assert(entries[j].0@ == k);
    if j != i {
        assert(entries[i].0@ != entries[j].0@);
    }
}

/// The last ledger of each sender, kept as a list of entries in which no
/// sender occurs twice.
pub struct SenderLedgers {
    entries: Vec<(String, u32)>,
}

impl View for SenderLedgers {
    type V = Map<Seq<char>, u32>;

    closed spec fn view(&self) -> Map<Seq<char>, u32> {
        entries_map(self.entries@)
    }
}

impl SenderLedgers {
    #[verifier::type_invariant]
    closed spec fn no_repeated_sender(&self) -> bool {
        senders_distinct(self.entries@)
    }

    /// A table in which no sender has paid yet.
    pub fn new() -> (table: SenderLedgers)
        ensures
            table@ == Map::<Seq<char>, u32>::empty(),
    {
        let table = SenderLedgers { entries: Vec::new() };
        assert(table@ =~= Map::<Seq<char>, u32>::empty());
        table
    }

    /// The ledger of the last payment of `sender`, if it ever paid.
    pub fn get(&self, sender: &String) -> (ledger: Option<u32>)
        ensures
            ledger == (if self@.contains_key(sender@) {
                Some(self@[sender@])
            } else {
                None
            }),
    {
        proof {
            use_type_invariant(self);
        }
        let n = self.entries.len();
        let mut i: usize = 0;
        while i < n
            invariant
                n == self.entries@.len(),
                i <= n,
                senders_distinct(self.entries@),
                forall|j: int| 0 <= j < i ==> #[trigger] self.entries@[j].0@ != sender@,
            decreases n - i,
        {
            if self.entries[i].0 == *sender {
                proof {
                    lemma_entry_in_map(self.entries@, i as int);
                }
                return Some(self.entries[i].1);
            }
            i = i + 1;
        }
        assert(!has_sender(self.entries@, sender@));
        None
    }

    /// Records that `sender` paid in `ledger`, replacing what was recorded
    /// for it before.
    pub fn record(&mut self, sender: String, ledger: u32)
        ensures
            final(self)@ == old(self)@.insert(sender@, ledger),
    {
        proof {
            use_type_invariant(&*self);
        }
        let ghost old_entries = self.entries@;
        let n = self.entries.len();
        let mut i: usize = 0;
        while i < n
            invariant
                n == self.entries@.len(),
                self.entries@ == old_entries,
                i <= n,
                senders_distinct(old_entries),
                forall|j: int| 0 <= j < i ==> #[trigger] old_entries[j].0@ != sender@,
            ensures
                i <= n,
                self.entries@ == old_entries,
                forall|j: int| 0 <= j < i ==> #[trigger] old_entries[j].0@ != sender@,
                i < n ==> old_entries[i as int].0@ == sender@,
            decreases n - i,
        {
            if self.entries[i].0 == sender {
                break;
            }
            i = i + 1;
        }
        let ghost key = sender@;
        let mut entries: Vec<(String, u32)> = Vec::new();
        std::mem::swap(&mut entries, &mut self.entries);
        if i < n {
            entries.set(i, (sender, ledger));
            proof {
                let new_entries = entries@;
                assert(new_entries == old_entries.update(i as int, new_entries[i as int]));
                assert forall|a: int, b: int|
                    0 <= a < new_entries.len() && 0 <= b < new_entries.len() && a != b implies
                    #[trigger] new_entries[a].0@ != #[trigger] new_entries[b].0@ by {
                    assert(old_entries[i as int].0@ == key);
                    if a != i && b != i {
                        assert(old_entries[a].0@ != old_entries[b].0@);
                    } else if a == i {
                        assert(old_entries[b].0@ != old_entries[i as int].0@);
                    } else {
                        assert(old_entries[a].0@ != old_entries[i as int].0@);
                    }
                }
                lemma_map_after_update(old_entries, new_entries, i as int, key, ledger);
            }
        } else {
            entries.push((sender, ledger));
            proof {
                let new_entries = entries@;
                assert(new_entries == old_entries.push(new_entries[n as int]));
                assert forall|a: int, b: int|
                    0 <= a < new_entries.len() && 0 <= b < new_entries.len() && a != b implies
                    #[trigger] new_entries[a].0@ != #[trigger] new_entries[b].0@ by {
                    if a != n && b != n {
                        assert(old_entries[a].0@ != old_entries[b].0@);
                    } else if a == n {
                        assert(old_entries[b].0@ != key);
                    } else {
                        assert(old_entries[a].0@ != key);
                    }
                }
                lemma_map_after_push(old_entries, new_entries, key, ledger);
            }
        }
        self.entries = entries;
    }

}

/// Replacing the entry of `key` gives the map with `key` set anew.
proof fn lemma_map_after_update(
        old_entries: Seq<(String, u32)>,
        new_entries: Seq<(String, u32)>,
        i: int,
        key: Seq<char>,
        ledger: u32,
    )
        requires
            senders_distinct(old_entries),
            senders_distinct(new_entries),
            0 <= i < old_entries.len(),
            old_entries[i].0@ == key,
            new_entries.len() == old_entries.len(),
            new_entries[i].0@ == key,
            new_entries[i].1 == ledger,
            forall|j: int| 0 <= j < old_entries.len() && j != i ==> new_entries[j] == old_entries[j],
        ensures
            entries_map(new_entries) == entries_map(old_entries).insert(key, ledger),
    {
        let old_map = entries_map(old_entries);
        assert forall|k: Seq<char>| #[trigger] entries_map(new_entries).contains_key(k) <==> old_map.insert(key, ledger).contains_key(k) by {
            if k != key {
                if has_sender(old_entries, k) {
                    let j = choose|j: int| 0 <= j < old_entries.len() && #[trigger] old_entries[j].0@ == k;
                    assert(new_entries[j].0@ == k);
                }
                if has_sender(new_entries, k) {
                    let j = choose|j: int| 0 <= j < new_entries.len() && #[trigger] new_entries[j].0@ == k;
                    assert(old_entries[j].0@ == k);
                }
            } else {
                assert(new_entries[i].0@ == k);
            }
        }
        assert forall|k: Seq<char>| #[trigger] entries_map(new_entries).contains_key(k) implies entries_map(new_entries)[k] == old_map.insert(key, ledger)[k] by {
            if k == key {
                lemma_entry_in_map(new_entries, i);
            } else {
                let j = choose|j: int| 0 <= j < new_entries.len() && #[trigger] new_entries[j].0@ == k;
                lemma_entry_in_map(new_entries, j);
                assert(old_entries[j] == new_entries[j]);
                lemma_entry_in_map(old_entries, j);
            }
        }
        assert(entries_map(new_entries) =~= old_map.insert(key, ledger));
    }

/// Appending an entry for a new `key` gives the map with `key` added.
proof fn lemma_map_after_push(old_entries: Seq<(String, u32)>, new_entries: Seq<(String, u32)>, key: Seq<char>, ledger: u32)
        requires
            senders_distinct(old_entries),
            senders_distinct(new_entries),
            new_entries.len() == old_entries.len() + 1,
            new_entries[old_entries.len() as int].0@ == key,
            new_entries[old_entries.len() as int].1 == ledger,
            forall|j: int| 0 <= j < old_entries.len() ==> new_entries[j] == old_entries[j],
        ensures
            entries_map(new_entries) == entries_map(old_entries).insert(key, ledger),
    {
        let n = old_entries.len() as int;
        let old_map = entries_map(old_entries);
        assert forall|k: Seq<char>| #[trigger] entries_map(new_entries).contains_key(k) <==> old_map.insert(key, ledger).contains_key(k) by {
            if k != key {
                if has_sender(old_entries, k) {
                    let j = choose|j: int| 0 <= j < old_entries.len() && #[trigger] old_entries[j].0@ == k;
                    assert(new_entries[j].0@ == k);
                }
                if has_sender(new_entries, k) {
                    let j = choose|j: int| 0 <= j < new_entries.len() && #[trigger] new_entries[j].0@ == k;
                    assert(old_entries[j].0@ == k);
                }
            } else {
                assert(new_entries[n].0@ == k);
            }
        }
        assert forall|k: Seq<char>| #[trigger] entries_map(new_entries).contains_key(k) implies entries_map(new_entries)[k] == old_map.insert(key, ledger)[k] by {
            if k == key {
                lemma_entry_in_map(new_entries, n);
            } else {
                let j = choose|j: int| 0 <= j < new_entries.len() && #[trigger] new_entries[j].0@ == k;
                lemma_entry_in_map(new_entries, j);
                assert(old_entries[j] == new_entries[j]);
                lemma_entry_in_map(old_entries, j);
            }
        }
        assert(entries_map(new_entries) =~= old_map.insert(key, ledger));
    }

} // verus!
