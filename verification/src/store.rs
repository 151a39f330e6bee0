//! Durable membership set of autothreaded channels.
//!
//! The set is persisted in one named segment of an embedded transactional
//! key-value store (persy); each entry's content is the 8-byte little-endian
//! encoding of a channel identifier and membership means presence of that
//! encoding. Mutation happens only through [`ToggleStore::toggle`]: one
//! transaction scans the committed records, and then stages either the
//! deletion of the matching record or the insertion of the encoding. Because
//! the storage engine's read-committed transactions do not conflict-check an
//! insert of a fresh record against another transaction's identical insert,
//! the scan alone would let two concurrent toggles of one channel both
//! observe "absent" and both insert. A keyed guard index prevents that: each
//! toggle also stages, under the channel's encoded key, the one-value-per-key
//! entry naming the record it believes current (or its removal), so at commit
//! time the second of two conflicting toggles fails — a duplicate key for two
//! racing inserts, a record-version conflict for two racing deletes — and is
//! rolled back whole, surfacing a storage error. A channel's key can thus
//! never be duplicated by concurrent toggles. The membership logic itself —
//! which entry matches, what a toggle stages, and that staging keeps every
//! channel's key unique — is verified here over a snapshot of the segment's
//! contents; durability, isolation and the commit-time conflict checks are
//! the storage engine's own guarantees.

use vstd::prelude::*;

use crate::codec::{encode_channel_id, encode_spec, lemma_encode_injective};

verus! {

/// Storage failure surfaced by the embedded key-value store; aborts the
/// in-flight operation only and leaves prior committed state intact.
#[derive(Debug)]
pub struct StoreError {
    pub message: String,
}

#[verifier::external_type_specification]
#[verifier::external_body]
pub struct ExPersy(persy::Persy);

#[verifier::external_type_specification]
#[verifier::external_body]
pub struct ExTransaction(persy::Transaction);

#[verifier::external_type_specification]
#[verifier::external_body]
pub struct ExPersyId(persy::PersyId);

/// The logical name of the segment that holds the membership set.
pub fn segment_name() -> (s: &'static str)
    ensures
        s@ == "autothread"@,
{
    "autothread"
}

/// The name of the keyed index that guards concurrent toggles of one
/// channel.
pub fn guard_name() -> (s: &'static str)
    ensures
        s@ == "autothread_guard"@,
{
    "autothread_guard"
}

/// Relies on persy::Persy::begin: starts a new read-committed transaction.
#[verifier::external_body]
fn begin_tx(kv: &persy::Persy) -> (r: Result<persy::Transaction, StoreError>) {
    kv.begin().map_err(|e| StoreError { message: format!("{}", e) })
}

/// Relies on persy::Persy::scan: yields every committed record of the
/// segment as a (record id, content) pair, here collected into a vector.
#[verifier::external_body]
fn scan_entries(kv: &persy::Persy, segment: &str) -> (r: Result<
    Vec<(persy::PersyId, Vec<u8>)>,
    StoreError,
>) {
    match kv.scan(segment) {
        Ok(iter) => Ok(iter.collect()),
        Err(e) => Err(StoreError { message: format!("{}", e) }),
    }
}

/// Relies on persy::Transaction::insert: stages one new record with the
/// given content in the segment and hands back its fresh record id.
#[verifier::external_body]
fn tx_insert(tx: &mut persy::Transaction, segment: &str, rec: &[u8]) -> (r: Result<
    persy::PersyId,
    StoreError,
>) {
    tx.insert(segment, rec).map_err(|e| StoreError { message: format!("{}", e) })
}

/// Relies on persy::Transaction::delete: stages removal of the record with
/// the given id from the segment.
#[verifier::external_body]
fn tx_delete(tx: &mut persy::Transaction, segment: &str, id: &persy::PersyId) -> (r: Result<
    (),
    StoreError,
>) {
    tx.delete(segment, id).map_err(|e| StoreError { message: format!("{}", e) })
}

/// Relies on persy::Transaction::commit: atomically applies every staged
/// change, or none on failure.
#[verifier::external_body]
fn tx_commit(tx: persy::Transaction) -> (r: Result<(), StoreError>) {
    tx.commit().map_err(|e| StoreError { message: format!("{}", e) })
}

/// Relies on persy::Transaction::rollback: discards every staged change.
/// Called on every error path so that no live transaction is ever left to
/// the drop-time rollback, which panics if that rollback itself fails.
#[verifier::external_body]
fn tx_rollback(tx: persy::Transaction) -> (r: Result<(), StoreError>) {
    tx.rollback().map_err(|e| StoreError { message: format!("{}", e) })
}

/// Relies on persy::Persy::exists_segment: reports whether a segment of the
/// given name exists in the storage.
#[verifier::external_body]
fn segment_exists(kv: &persy::Persy, segment: &str) -> (r: Result<bool, StoreError>) {
    kv.exists_segment(segment).map_err(|e| StoreError { message: format!("{}", e) })
}

/// Relies on persy::Transaction::create_segment: stages creation of a new
/// segment. The callee panics on names carrying the store's reserved index
/// prefixes (which begin with '+'), so those are excluded here.
#[verifier::external_body]
fn tx_create_segment(tx: &mut persy::Transaction, segment: &str) -> (r: Result<(), StoreError>)
    requires
        segment@.len() == 0 || segment@[0] != '+',
{
    match tx.create_segment(segment) {
        Ok(_) => Ok(()),
        Err(e) => Err(StoreError { message: format!("{}", e) }),
    }
}

/// Relies on persy::Persy::exists_index: reports whether an index of the
/// given name exists in the storage.
#[verifier::external_body]
fn index_exists(kv: &persy::Persy, index: &str) -> (r: Result<bool, StoreError>) {
    kv.exists_index(index).map_err(|e| StoreError { message: format!("{}", e) })
}

/// Relies on persy::Transaction::create_index: stages creation of a new
/// index from byte keys to strings that admits one value per key
/// (ValueMode::Exclusive), so that committing a second, different value
/// under one key fails.
#[verifier::external_body]
fn tx_create_index(tx: &mut persy::Transaction, index: &str) -> (r: Result<(), StoreError>) {
    tx.create_index::<persy::ByteVec, String>(index, persy::ValueMode::Exclusive)
        .map_err(|e| StoreError { message: format!("{}", e) })
}

/// Relies on persy::Transaction::put on an exclusive index: stages, under
/// the given key, the name of the record now standing for it; committing
/// while the key already holds a different record's name fails the whole
/// transaction with a duplicate-key error.
#[verifier::external_body]
fn tx_guard_put(
    tx: &mut persy::Transaction,
    index: &str,
    key: &[u8],
    rid: &persy::PersyId,
) -> (r: Result<(), StoreError>) {
    tx.put::<persy::ByteVec, String>(index, persy::ByteVec::new(key.to_vec()), format!("{}", rid))
        .map_err(|e| StoreError { message: format!("{}", e) })
}

/// Relies on persy::Transaction::remove: stages removal of the given key,
/// whatever value it holds, from the guard index.
#[verifier::external_body]
fn tx_guard_remove(tx: &mut persy::Transaction, index: &str, key: &[u8]) -> (r: Result<
    (),
    StoreError,
>) {
    tx.remove::<persy::ByteVec, String>(index, persy::ByteVec::new(key.to_vec()), None)
        .map_err(|e| StoreError { message: format!("{}", e) })
}

/// The contents of a scanned snapshot: the byte value of each record, in
/// scan order.
pub open spec fn values_of(entries: Seq<(persy::PersyId, Vec<u8>)>) -> Seq<Seq<u8>> {
    entries.map_values(|e: (persy::PersyId, Vec<u8>)| e.1@)
}

/// Membership of a channel in a snapshot: some record holds its encoding.
pub open spec fn snapshot_has(values: Seq<Seq<u8>>, channel: u64) -> bool {
    exists|i: int| 0 <= i < values.len() && values[i] == encode_spec(channel)
}

/// Byte-for-byte equality of two slices.
fn bytes_eq(a: &[u8], b: &[u8]) -> (r: bool)
    ensures
        r == (a@ == b@),
{
    if a.len() != b.len() {
        return false;
    }
    let mut i: usize = 0;
    while i < a.len()
        invariant
            i <= a@.len(),
            a@.len() == b@.len(),
            forall|j: int| 0 <= j < i ==> a@[j] == b@[j],
        decreases a@.len() - i,
    {
        if a[i] != b[i] {
            return false;
        }
        i += 1;
    }
    proof {
        assert(a@ =~= b@);
    }
    true
}

/// Linear scan of a snapshot for the record holding the channel's encoding:
/// returns its position iff the channel is a member.
pub fn find_entry(entries: &Vec<(persy::PersyId, Vec<u8>)>, channel: u64) -> (r: Option<usize>)
    ensures
        match r {
            Some(i) => i < entries@.len() && entries@[i as int].1@ == encode_spec(channel),
            None => !snapshot_has(values_of(entries@), channel),
        },
        r is Some <==> snapshot_has(values_of(entries@), channel),
{
    let key = encode_channel_id(channel);
    let mut i: usize = 0;
    while i < entries.len()
        invariant
            i <= entries@.len(),
            key@ == encode_spec(channel),
            forall|j: int| 0 <= j < i ==> entries@[j].1@ != encode_spec(channel),
        decreases entries@.len() - i,
    {
        if bytes_eq(entries[i].1.as_slice(), key.as_slice()) {
            proof {
                assert(values_of(entries@)[i as int] == entries@[i as int].1@);
            }
            return Some(i);
        }
        i += 1;
    }
    None
}

/// What one toggle stages against an observed snapshot: the record holding
/// the channel's encoding is removed when the channel is a member, and the
/// encoding is appended otherwise.
pub open spec fn after_toggle(values: Seq<Seq<u8>>, channel: u64) -> Seq<Seq<u8>> {
    if snapshot_has(values, channel) {
        values.remove(
            choose|i: int| 0 <= i < values.len() && values[i] == encode_spec(channel),
        )
    } else {
        values.push(encode_spec(channel))
    }
}

/// The new state a toggle reports: enabled exactly when the channel was
/// absent from the observed snapshot.
pub open spec fn toggle_turns_on(values: Seq<Seq<u8>>, channel: u64) -> bool {
    !snapshot_has(values, channel)
}

/// The channel's key occurs in at most one record of the snapshot:
/// membership semantics, not a counter.
pub open spec fn at_most_once(values: Seq<Seq<u8>>, channel: u64) -> bool {
    forall|i: int, j: int|
        0 <= i < values.len() && 0 <= j < values.len() && values[i] == encode_spec(channel)
            && values[j] == encode_spec(channel) ==> i == j
}

/// No channel's key is duplicated anywhere in the snapshot.
pub open spec fn wf_snapshot(values: Seq<Seq<u8>>) -> bool {
    forall|c: u64| #[trigger] at_most_once(values, c)
}

/// One toggle step, from any snapshot without duplicated keys: the result
/// again holds no duplicated key, the toggled channel's membership is
/// exactly inverted, and every other channel's membership is untouched.
pub proof fn lemma_toggle_step(values: Seq<Seq<u8>>, channel: u64)
    requires
        wf_snapshot(values),
    ensures
        wf_snapshot(after_toggle(values, channel)),
        snapshot_has(after_toggle(values, channel), channel) == !snapshot_has(values, channel),
        forall|d: u64|
            d != channel ==> #[trigger] snapshot_has(after_toggle(values, channel), d)
                == snapshot_has(values, d),
{
    if snapshot_has(values, channel) {
        let i = choose|i: int| 0 <= i < values.len() && values[i] == encode_spec(channel);
        let after = values.remove(i);
        values.remove_ensures(i);
        assert(after == after_toggle(values, channel));
        assert(at_most_once(values, channel));
        assert forall|j: int| 0 <= j < after.len() implies after[j] != encode_spec(channel) by {
            if after[j] == encode_spec(channel) {
                if j < i {
                    assert(values[j] == encode_spec(channel));
                } else {
                    assert(values[j + 1] == encode_spec(channel));
                }
            }
        }
        assert(!snapshot_has(after, channel));
        assert forall|c: u64| #[trigger] at_most_once(after, c) by {
            assert forall|i1: int, j1: int|
                0 <= i1 < after.len() && 0 <= j1 < after.len() && after[i1] == encode_spec(c)
                    && after[j1] == encode_spec(c) implies i1 == j1 by {
                let oi = if i1 < i {
                    i1
                } else {
                    i1 + 1
                };
                let oj = if j1 < i {
                    j1
                } else {
                    j1 + 1
                };
                assert(values[oi] == encode_spec(c));
                assert(values[oj] == encode_spec(c));
                assert(at_most_once(values, c));
            }
        }
        assert forall|d: u64|
            d != channel implies #[trigger] snapshot_has(after, d) == snapshot_has(values, d) by {
            lemma_encode_injective(d, channel);
            if snapshot_has(after, d) {
                let j = choose|j: int| 0 <= j < after.len() && after[j] == encode_spec(d);
                let oj = if j < i {
                    j
                } else {
                    j + 1
                };
                assert(values[oj] == encode_spec(d));
                assert(snapshot_has(values, d));
            }
            if snapshot_has(values, d) {
                let k = choose|k: int| 0 <= k < values.len() && values[k] == encode_spec(d);
                assert(k != i);
                let nk = if k < i {
                    k
                } else {
                    k - 1
                };
                assert(after[nk] == values[k]);
                assert(snapshot_has(after, d));
            }
        }
    } else {
        let after = values.push(encode_spec(channel));
        assert(after == after_toggle(values, channel));
        assert(after[values.len() as int] == encode_spec(channel));
        assert(snapshot_has(after, channel));
        assert forall|c: u64| #[trigger] at_most_once(after, c) by {
            lemma_encode_injective(c, channel);
            assert forall|i1: int, j1: int|
                0 <= i1 < after.len() && 0 <= j1 < after.len() && after[i1] == encode_spec(c)
                    && after[j1] == encode_spec(c) implies i1 == j1 by {
                if i1 < values.len() && j1 < values.len() {
                    assert(values[i1] == encode_spec(c));
                    assert(values[j1] == encode_spec(c));
                    assert(at_most_once(values, c));
                } else if i1 == values.len() && j1 < values.len() {
                    assert(encode_spec(c) == encode_spec(channel));
                    assert(values[j1] == encode_spec(channel));
                    assert(snapshot_has(values, channel));
                } else if j1 == values.len() && i1 < values.len() {
                    assert(encode_spec(c) == encode_spec(channel));
                    assert(values[i1] == encode_spec(channel));
                    assert(snapshot_has(values, channel));
                }
            }
        }
        assert forall|d: u64|
            d != channel implies #[trigger] snapshot_has(after, d) == snapshot_has(values, d) by {
            lemma_encode_injective(d, channel);
            if snapshot_has(after, d) {
                let j = choose|j: int| 0 <= j < after.len() && after[j] == encode_spec(d);
                assert(j != values.len());
                assert(values[j] == encode_spec(d));
                assert(snapshot_has(values, d));
            }
            if snapshot_has(values, d) {
                let k = choose|k: int| 0 <= k < values.len() && values[k] == encode_spec(d);
                assert(after[k] == encode_spec(d));
                assert(snapshot_has(after, d));
            }
        }
    }
}

/// Toggle correctness from an empty set: the first toggle of a channel
/// reports it enabled and makes it a member, a second toggle reports it
/// disabled and removes it, and a third reports it enabled again.
pub proof fn lemma_toggle_oscillation(channel: u64)
    ensures
        ({
            let v0 = Seq::<Seq<u8>>::empty();
            let v1 = after_toggle(v0, channel);
            let v2 = after_toggle(v1, channel);
            &&& toggle_turns_on(v0, channel)
            &&& snapshot_has(v1, channel)
            &&& !toggle_turns_on(v1, channel)
            &&& !snapshot_has(v2, channel)
            &&& toggle_turns_on(v2, channel)
        }),
{
    let v0 = Seq::<Seq<u8>>::empty();
    assert(wf_snapshot(v0)) by {
        assert forall|c: u64| #[trigger] at_most_once(v0, c) by {}
    }
    lemma_toggle_step(v0, channel);
    lemma_toggle_step(after_toggle(v0, channel), channel);
}

/// The snapshot after `n` successive toggles of one channel, each applied to
/// the outcome of the previous one.
pub open spec fn after_toggles(values: Seq<Seq<u8>>, channel: u64, n: nat) -> Seq<Seq<u8>>
    decreases n,
{
    if n == 0 {
        values
    } else {
        after_toggle(after_toggles(values, channel, (n - 1) as nat), channel)
    }
}

/// Toggling a channel `n` times from the empty set leaves its membership
/// equal to the parity of `n` — enabled exactly when `n` is odd — and never
/// a duplicated entry at any point.
pub proof fn lemma_toggle_parity(channel: u64, n: nat)
    ensures
        wf_snapshot(after_toggles(Seq::<Seq<u8>>::empty(), channel, n)),
        snapshot_has(after_toggles(Seq::<Seq<u8>>::empty(), channel, n), channel) <==> n % 2 == 1,
    decreases n,
{
    let v0 = Seq::<Seq<u8>>::empty();
    if n == 0 {
        assert forall|c: u64| #[trigger] at_most_once(v0, c) by {}
        assert(!snapshot_has(v0, channel));
    } else {
        lemma_toggle_parity(channel, (n - 1) as nat);
        lemma_toggle_step(after_toggles(v0, channel, (n - 1) as nat), channel);
    }
}

/// Durable, crash-consistent membership set of autothreaded channels, shared
/// by the command path and the message-triage path; the storage engine's
/// transactions are its sole synchronization primitive.
pub struct ToggleStore {
    pub kv: persy::Persy,
}

impl ToggleStore {
    /// Wrap an opened storage handle.
    pub fn new(kv: persy::Persy) -> ToggleStore {
        ToggleStore { kv }
    }

    /// Idempotent lazy initialization: creates the membership segment and
    /// its guard index where they do not exist yet, and does nothing
    /// otherwise. Must run once before the first scan of a fresh store.
    pub fn ensure_segment(&self) -> (r: Result<(), StoreError>) {
        proof {
            reveal_strlit("autothread");
        }
        let segment_present = segment_exists(&self.kv, segment_name())?;
        let guard_present = index_exists(&self.kv, guard_name())?;
        if !segment_present || !guard_present {
            let mut tx = begin_tx(&self.kv)?;
            if !segment_present {
                if let Err(e) = tx_create_segment(&mut tx, segment_name()) {
                    let _ = tx_rollback(tx);
                    return Err(e);
                }
            }
            if !guard_present {
                if let Err(e) = tx_create_index(&mut tx, guard_name()) {
                    let _ = tx_rollback(tx);
                    return Err(e);
                }
            }
            tx_commit(tx)?;
        }
        Ok(())
    }

    /// Whether the channel is currently marked autothreaded: true iff the
    /// scanned snapshot of the segment holds its encoded key; the ghost half
    /// of the result names that observed snapshot, and the returned state is
    /// exactly its membership. Read-only; a concurrent toggle is observed
    /// either entirely or not at all.
    pub fn is_enabled(&self, channel: u64) -> (r: Result<
        (bool, Ghost<Seq<Seq<u8>>>),
        StoreError,
    >)
        ensures
            r matches Ok(p) ==> p.0 == snapshot_has(p.1@, channel),
    {
        let entries = scan_entries(&self.kv, segment_name())?;
        let snapshot: Ghost<Seq<Seq<u8>>> = Ghost(values_of(entries@));
        match find_entry(&entries, channel) {
            Some(_) => Ok((true, snapshot)),
            None => Ok((false, snapshot)),
        }
    }

    /// Atomically flip the channel's membership and report the new state:
    /// one storage transaction stages, against the scanned snapshot, either
    /// the deletion of the present record (now disabled, returns false) or
    /// the insertion of the absent encoding (now enabled, returns true),
    /// together with the matching change of the channel's guard-index key.
    /// The decision against the snapshot is made by the verified
    /// [`find_entry`], and the ghost half of the result names that observed
    /// snapshot: the returned state is exactly the inverse of its
    /// membership. Of two toggles of one channel racing to commit, the
    /// guard index lets at most one through — the loser's transaction fails
    /// whole on a duplicate guard key or a record-version conflict — so
    /// concurrent toggles can never duplicate a channel's record. A storage
    /// failure aborts the transaction and is returned unchanged, leaving no
    /// partial state.
    pub fn toggle(&self, channel: u64) -> (r: Result<(bool, Ghost<Seq<Seq<u8>>>), StoreError>)
        ensures
            r matches Ok(p) ==> p.0 == toggle_turns_on(p.1@, channel),
    {
        let mut tx = begin_tx(&self.kv)?;
        let entries = match scan_entries(&self.kv, segment_name()) {
            Ok(entries) => entries,
            Err(e) => {
                let _ = tx_rollback(tx);
                return Err(e);
            },
        };
        let snapshot: Ghost<Seq<Seq<u8>>> = Ghost(values_of(entries@));
        let key = encode_channel_id(channel);
        let on: bool;
        match find_entry(&entries, channel) {
            Some(i) => {
                if let Err(e) = tx_delete(&mut tx, segment_name(), &entries[i].0) {
                    let _ = tx_rollback(tx);
                    return Err(e);
                }
                if let Err(e) = tx_guard_remove(&mut tx, guard_name(), key.as_slice()) {
                    let _ = tx_rollback(tx);
                    return Err(e);
                }
                on = false;
            },
            None => {
                let rid = match tx_insert(&mut tx, segment_name(), key.as_slice()) {
                    Ok(rid) => rid,
                    Err(e) => {
                        let _ = tx_rollback(tx);
                        return Err(e);
                    },
                };
                if let Err(e) = tx_guard_put(&mut tx, guard_name(), key.as_slice(), &rid) {
                    let _ = tx_rollback(tx);
                    return Err(e);
                }
                on = true;
            },
        }
        tx_commit(tx)?;
        Ok((on, snapshot))
    }
}

} // verus!
