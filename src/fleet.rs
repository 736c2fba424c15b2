//! The collection service's state: every user's fleet entries, with add, list,
//! remove and rename. Each entry gets an identifier that is never reused.

use vstd::prelude::*;
use crate::catalog::ShipModel;

verus! {

/// Why a fleet operation failed.
#[derive(Debug, Clone, Copy, PartialEq, Eq, Structural)]
pub enum FleetError {
    /// The ship model named is not in the catalog.
    InvalidModel,
    /// The user owns no entry with that identifier.
    NotFound,
    /// Every entry identifier has been handed out.
    Full,
}

/// A ship that a user owns.
#[derive(Debug)]
pub struct FleetEntry {
    pub entry_id: u64,
    pub user_id: u64,
    pub model_id: String,
    pub model_name: String,
    pub nickname: Option<String>,
}

/// A copy of an optional text.
pub fn copy_text(o: &Option<String>) -> (r: Option<String>)
    ensures
        r == *o,
{
    match o {
        Some(s) => Some(s.clone()),
        None => None,
    }
}

impl Clone for FleetEntry {
    fn clone(&self) -> (r: Self)
        ensures
            r == *self,
    {
        FleetEntry {
            entry_id: self.entry_id,
            user_id: self.user_id,
            model_id: self.model_id.clone(),
            model_name: self.model_name.clone(),
            nickname: copy_text(&self.nickname),
        }
    }
}

/// The abstract state of a collection: its entries in insertion order, and
/// the identifier the next entry will get.
pub ghost struct FleetState {
    pub entries: Seq<FleetEntry>,
    pub next_id: u64,
}

/// Entry identifiers rise strictly in insertion order and stay below `next_id`;
/// so no two entries share one.
pub open spec fn state_wf(s: FleetState) -> bool {
    &&& forall|i: int, j: int|
        0 <= i < j < s.entries.len() ==> (#[trigger] s.entries[i]).entry_id
            < (#[trigger] s.entries[j]).entry_id
    &&& forall|i: int| 0 <= i < s.entries.len() ==> (#[trigger] s.entries[i]).entry_id < s.next_id
}

/// The entries of `entries` that belong to `user`, in order.
pub open spec fn owned_by(entries: Seq<FleetEntry>, user: u64) -> Seq<FleetEntry>
    decreases entries.len(),
{
    if entries.len() == 0 {
        Seq::empty()
    } else {
        let rest = owned_by(entries.drop_last(), user);
        if entries.last().user_id == user {
            rest.push(entries.last())
        } else {
            rest
        }
    }
}

/// Position `i` holds entry `id` of `user`.
pub open spec fn is_entry_at(entries: Seq<FleetEntry>, user: u64, id: u64, i: int) -> bool {
    0 <= i < entries.len() && entries[i].entry_id == id && entries[i].user_id == user
}

/// `user` owns an entry with identifier `id`.
pub open spec fn owns(entries: Seq<FleetEntry>, user: u64, id: u64) -> bool {
    exists|i: int| is_entry_at(entries, user, id, i)
}

/// The position of entry `id` of `user`.
pub open spec fn entry_index(entries: Seq<FleetEntry>, user: u64, id: u64) -> int {
    choose|i: int| is_entry_at(entries, user, id, i)
}

/// The entry an add creates.
pub open spec fn new_entry(id: u64, user: u64, model: ShipModel, nickname: Option<String>) -> FleetEntry {
    FleetEntry {
        entry_id: id,
        user_id: user,
        model_id: model.id,
        model_name: model.name,
        nickname,
    }
}

/// The state after, and the result of, adding `model` (`None`: unknown to the
/// catalog) to the fleet of `user`.
pub open spec fn add_outcome(
    s: FleetState,
    user: u64,
    model: Option<ShipModel>,
    nickname: Option<String>,
) -> (FleetState, Result<FleetEntry, FleetError>) {
    match model {
        None => (s, Err(FleetError::InvalidModel)),
        Some(m) => if s.next_id == u64::MAX {
            (s, Err(FleetError::Full))
        } else {
            let e = new_entry(s.next_id, user, m, nickname);
            (FleetState { entries: s.entries.push(e), next_id: (s.next_id + 1) as u64 }, Ok(e))
        },
    }
}

/// The state after, and the result of, removing entry `id` of `user`.
pub open spec fn remove_outcome(s: FleetState, user: u64, id: u64) -> (FleetState, Result<(), FleetError>) {
    if owns(s.entries, user, id) {
        (
            FleetState { entries: s.entries.remove(entry_index(s.entries, user, id)), next_id: s.next_id },
            Ok(()),
        )
    } else {
        (s, Err(FleetError::NotFound))
    }
}

/// Entry `e` with its nickname set to `name`.
pub open spec fn renamed(e: FleetEntry, name: String) -> FleetEntry {
    FleetEntry { nickname: Some(name), ..e }
}

/// The state after, and the result of, renaming entry `id` of `user`.
pub open spec fn rename_outcome(s: FleetState, user: u64, id: u64, name: String) -> (
    FleetState,
    Result<FleetEntry, FleetError>,
) {
    if owns(s.entries, user, id) {
        let i = entry_index(s.entries, user, id);
        let e = renamed(s.entries[i], name);
        (FleetState { entries: s.entries.update(i, e), next_id: s.next_id }, Ok(e))
    } else {
        (s, Err(FleetError::NotFound))
    }
}

/// In a well-formed state the position of an entry is the one that holds its identifier.
pub proof fn lemma_entry_index_unique(s: FleetState, user: u64, id: u64, i: int)
    requires
        state_wf(s),
        is_entry_at(s.entries, user, id, i),
    ensures
        owns(s.entries, user, id),
        entry_index(s.entries, user, id) == i,
{
    let j = entry_index(s.entries, user, id);
    assert(is_entry_at(s.entries, user, id, j));
    if j < i {
        assert(s.entries[j].entry_id < s.entries[i].entry_id);
    } else if i < j {
        assert(s.entries[i].entry_id < s.entries[j].entry_id);
    }
}

/// Each entry of `owned_by(entries, user)` is an entry of `entries` and belongs to `user`.
pub proof fn lemma_owned_by_members(entries: Seq<FleetEntry>, user: u64)
    ensures
        owned_by(entries, user).len() <= entries.len(),
        forall|k: int|
            0 <= k < owned_by(entries, user).len() ==> (#[trigger] owned_by(entries, user)[k]).user_id
                == user && entries.contains(owned_by(entries, user)[k]),
    decreases entries.len(),
{
    if entries.len() > 0 {
        lemma_owned_by_members(entries.drop_last(), user);
        let rest = owned_by(entries.drop_last(), user);
        assert forall|k: int| 0 <= k < rest.len() implies entries.contains(#[trigger] rest[k]) by {
            let w = choose|w: int| 0 <= w < entries.drop_last().len() && entries.drop_last()[w] == rest[k];
            assert(entries[w] == rest[k]);
        }
        assert(entries[entries.len() - 1] == entries.last());
    }
}

/// Adding an entry to the end adds it to its owner's list and to no other.
pub proof fn lemma_owned_by_push(entries: Seq<FleetEntry>, e: FleetEntry, user: u64)
    ensures
        owned_by(entries.push(e), user) == if e.user_id == user {
            owned_by(entries, user).push(e)
        } else {
            owned_by(entries, user)
        },
{
    assert(entries.push(e).drop_last() =~= entries);
}

/// Adding a model that the catalog knows, while identifiers remain, succeeds
/// and the user's list afterwards holds an entry of that model; adding an
/// unknown model fails with `InvalidModel` and changes nothing.
pub proof fn law_add_then_list(
    s: FleetState,
    user: u64,
    model: Option<ShipModel>,
    nickname: Option<String>,
)
    requires
        state_wf(s),
        s.next_id < u64::MAX,
    ensures
        match model {
            Some(m) => {
                let (s2, r) = add_outcome(s, user, model, nickname);
                &&& state_wf(s2)
                &&& r is Ok
                &&& exists|k: int|
                    0 <= k < owned_by(s2.entries, user).len() && (#[trigger] owned_by(s2.entries, user)[k]).model_id
                        == m.id
            },
            None => add_outcome(s, user, model, nickname) == (s, Err::<FleetEntry, FleetError>(
                FleetError::InvalidModel,
            )),
        },
{
    if let Some(m) = model {
        let (s2, r) = add_outcome(s, user, model, nickname);
        let e = new_entry(s.next_id, user, m, nickname);
        lemma_owned_by_push(s.entries, e, user);
        let k = owned_by(s.entries, user).len() as int;
        assert(owned_by(s2.entries, user)[k] == e);
        assert(forall|i: int| 0 <= i < s2.entries.len() ==> (#[trigger] s2.entries[i]).entry_id < s2.next_id);
    }
}

/// After a successful remove, the user's list no longer holds the removed
/// entry; removing an entry the user does not own fails with `NotFound` and
/// changes nothing.
pub proof fn law_remove_then_list(s: FleetState, user: u64, id: u64)
    requires
        state_wf(s),
    ensures
        ({
            let (s2, r) = remove_outcome(s, user, id);
            &&& r is Ok <==> owns(s.entries, user, id)
            &&& r is Err ==> r == Err::<(), FleetError>(FleetError::NotFound) && s2 == s
            &&& forall|k: int|
                0 <= k < owned_by(s2.entries, user).len() ==> (#[trigger] owned_by(s2.entries, user)[k]).entry_id
                    != id
        }),
{
    let (s2, r) = remove_outcome(s, user, id);
    lemma_owned_by_members(s2.entries, user);
    if owns(s.entries, user, id) {
        let i = entry_index(s.entries, user, id);
        assert(is_entry_at(s.entries, user, id, i));
        assert forall|k: int| 0 <= k < owned_by(s2.entries, user).len() implies (#[trigger] owned_by(
            s2.entries,
            user,
        )[k]).entry_id != id by {
            let x = owned_by(s2.entries, user)[k];
            let w = choose|w: int| 0 <= w < s2.entries.len() && s2.entries[w] == x;
            if w < i {
                assert(s.entries[w] == x);
                assert(s.entries[w].entry_id < s.entries[i].entry_id);
            } else {
                assert(s.entries[w + 1] == x);
                assert(s.entries[i].entry_id < s.entries[w + 1].entry_id);
            }
        }
    } else {
        assert forall|k: int| 0 <= k < owned_by(s2.entries, user).len() implies (#[trigger] owned_by(
            s2.entries,
            user,
        )[k]).entry_id != id by {
            let x = owned_by(s2.entries, user)[k];
            let w = choose|w: int| 0 <= w < s2.entries.len() && s2.entries[w] == x;
            assert(!is_entry_at(s.entries, user, id, w));
        }
    }
}

/// Two adds for the same user, handled one after the other, both succeed while
/// identifiers remain, and the user's list grows by exactly two.
pub proof fn law_two_adds(
    s: FleetState,
    user: u64,
    m1: ShipModel,
    n1: Option<String>,
    m2: ShipModel,
    n2: Option<String>,
)
    requires
        state_wf(s),
        s.next_id + 2 <= u64::MAX,
    ensures
        ({
            let (s1, r1) = add_outcome(s, user, Some(m1), n1);
            let (s2, r2) = add_outcome(s1, user, Some(m2), n2);
            &&& r1 is Ok
            &&& r2 is Ok
            &&& state_wf(s2)
            &&& owned_by(s2.entries, user).len() == owned_by(s.entries, user).len() + 2
        }),
{
    let (s1, r1) = add_outcome(s, user, Some(m1), n1);
    let (s2, r2) = add_outcome(s1, user, Some(m2), n2);
    lemma_owned_by_push(s.entries, new_entry(s.next_id, user, m1, n1), user);
    lemma_owned_by_push(s1.entries, new_entry(s1.next_id, user, m2, n2), user);
    assert(forall|i: int| 0 <= i < s1.entries.len() ==> (#[trigger] s1.entries[i]).entry_id < s1.next_id);
    assert(forall|i: int| 0 <= i < s2.entries.len() ==> (#[trigger] s2.entries[i]).entry_id < s2.next_id);
}

/// Identifier `id` was handed out and no entry holds it now.
pub open spec fn retired(s: FleetState, id: u64) -> bool {
    id < s.next_id && forall|i: int| 0 <= i < s.entries.len() ==> (#[trigger] s.entries[i]).entry_id != id
}

/// A removed entry's identifier is retired, and stays retired through every
/// later add, remove or rename, since identifiers are never reused; so no
/// later list of any user holds it.
pub proof fn law_removed_stays_gone(
    s: FleetState,
    user: u64,
    id: u64,
    other: u64,
    m: Option<ShipModel>,
    n: Option<String>,
    e: u64,
    name: String,
)
    requires
        state_wf(s),
    ensures
        remove_outcome(s, user, id).1 is Ok ==> retired(remove_outcome(s, user, id).0, id),
        retired(s, id) ==> retired(add_outcome(s, other, m, n).0, id),
        retired(s, id) ==> retired(remove_outcome(s, other, e).0, id),
        retired(s, id) ==> retired(rename_outcome(s, other, e, name).0, id),
        retired(s, id) ==> forall|k: int|
            0 <= k < owned_by(s.entries, other).len() ==> (#[trigger] owned_by(s.entries, other)[k]).entry_id != id,
{
    if owns(s.entries, user, id) {
        let i = entry_index(s.entries, user, id);
        assert(is_entry_at(s.entries, user, id, i));
        let s1 = remove_outcome(s, user, id).0;
        assert forall|j: int| 0 <= j < s1.entries.len() implies (#[trigger] s1.entries[j]).entry_id != id by {
            if j < i {
                assert(s.entries[j].entry_id < s.entries[i].entry_id);
            } else {
                assert(s1.entries[j] == s.entries[j + 1]);
                assert(s.entries[i].entry_id < s.entries[j + 1].entry_id);
            }
        }
    }
    if retired(s, id) {
        lemma_owned_by_members(s.entries, other);
        assert forall|k: int| 0 <= k < owned_by(s.entries, other).len() implies (#[trigger] owned_by(s.entries, other)[k]).entry_id != id by {
            let x = owned_by(s.entries, other)[k];
            let w = choose|w: int| 0 <= w < s.entries.len() && s.entries[w] == x;
            assert(s.entries[w].entry_id != id);
        }
        let s2 = add_outcome(s, other, m, n).0;
        assert forall|j: int| 0 <= j < s2.entries.len() implies (#[trigger] s2.entries[j]).entry_id != id by {
            if j < s.entries.len() {
                assert(s2.entries[j] == s.entries[j]);
            }
        }
        if owns(s.entries, other, e) {
            let i = entry_index(s.entries, other, e);
            assert(is_entry_at(s.entries, other, e, i));
            let s3 = remove_outcome(s, other, e).0;
            assert forall|j: int| 0 <= j < s3.entries.len() implies (#[trigger] s3.entries[j]).entry_id != id by {
                if j < i {
                    assert(s3.entries[j] == s.entries[j]);
                } else {
                    assert(s3.entries[j] == s.entries[j + 1]);
                }
            }
            let s4 = rename_outcome(s, other, e, name).0;
            assert forall|j: int| 0 <= j < s4.entries.len() implies (#[trigger] s4.entries[j]).entry_id != id by {
                assert(s4.entries[j].entry_id == s.entries[j].entry_id);
            }
        }
    }
}

/// Every user's fleet, owned by the collection service.
pub struct Fleets {
    entries: Vec<FleetEntry>,
    next_id: u64,
}

impl Fleets {
    /// The abstract state.
    pub closed spec fn state(&self) -> FleetState {
        FleetState { entries: self.entries@, next_id: self.next_id }
    }

    /// The state is well formed.
    pub open spec fn wf(&self) -> bool {
        state_wf(self.state())
    }

    /// A collection with no entries.
    pub fn new() -> (r: Fleets)
        ensures
            r.wf(),
            r.state().entries.len() == 0,
            r.state().next_id == 0,
    {
        Fleets { entries: Vec::new(), next_id: 0 }
    }

    /// Position of entry `id` of `user`, if the user owns it.
    fn find(&self, user_id: u64, entry_id: u64) -> (r: Option<usize>)
        requires
            self.wf(),
        ensures
            match r {
                Some(i) => is_entry_at(self.entries@, user_id, entry_id, i as int) && entry_index(
                    self.entries@,
                    user_id,
                    entry_id,
                ) == i,
                None => !owns(self.entries@, user_id, entry_id),
            },
    {
        let mut i: usize = 0;
        while i < self.entries.len()
            invariant
                self.wf(),
                i <= self.entries@.len(),
                forall|j: int| 0 <= j < i ==> !is_entry_at(self.entries@, user_id, entry_id, j),
            decreases self.entries@.len() - i,
        {
            if self.entries[i].entry_id == entry_id && self.entries[i].user_id == user_id {
                proof {
                    lemma_entry_index_unique(self.state(), user_id, entry_id, i as int);
                }
                return Some(i);
            }
            i = i + 1;
        }
        None
    }

    /// Adds `model`, as the catalog resolved it (`None`: unknown model), to the
    /// fleet of `user_id`, and returns the new entry.
    pub fn add_entry(&mut self, user_id: u64, model: &Option<ShipModel>, nickname: Option<String>) -> (r:
        Result<FleetEntry, FleetError>)
        requires
            old(self).wf(),
        ensures
            final(self).wf(),
            (final(self).state(), r) == add_outcome(old(self).state(), user_id, *model, nickname),
    {
        match model {
            None => Err(FleetError::InvalidModel),
            Some(m) => {
                if self.next_id == u64::MAX {
                    Err(FleetError::Full)
                } else {
                    let e = FleetEntry {
                        entry_id: self.next_id,
                        user_id,
                        model_id: m.id.clone(),
                        model_name: m.name.clone(),
                        nickname,
                    };
                    let out = e.clone();
                    self.entries.push(e);
                    self.next_id = self.next_id + 1;
                    Ok(out)
                }
            },
        }
    }

    /// The entries of `user_id`, in insertion order.
    pub fn list_entries(&self, user_id: u64) -> (r: Vec<FleetEntry>)
        ensures
            r@ == owned_by(self.state().entries, user_id),
    {
        let mut out: Vec<FleetEntry> = Vec::new();
        let mut i: usize = 0;
        while i < self.entries.len()
            invariant
                i <= self.entries@.len(),
                out@ == owned_by(self.entries@.take(i as int), user_id),
            decreases self.entries@.len() - i,
        {
            assert(self.entries@.take(i + 1).drop_last() =~= self.entries@.take(i as int));
            if self.entries[i].user_id == user_id {
                out.push(self.entries[i].clone());
            }
            i = i + 1;
        }
        assert(self.entries@.take(i as int) =~= self.entries@);
        out
    }

    /// Removes entry `entry_id` of `user_id`.
    pub fn remove_entry(&mut self, user_id: u64, entry_id: u64) -> (r: Result<(), FleetError>)
        requires
            old(self).wf(),
        ensures
            final(self).wf(),
            (final(self).state(), r) == remove_outcome(old(self).state(), user_id, entry_id),
    {
        match self.find(user_id, entry_id) {
            None => Err(FleetError::NotFound),
            Some(i) => {
                let ghost before = self.entries@;
                self.entries.remove(i);
                assert(forall|j: int| 0 <= j < self.entries@.len() ==> #[trigger] self.entries@[j]
                    == before[if j < i { j } else { j + 1 }]);
                Ok(())
            },
        }
    }

    /// Sets the nickname of entry `entry_id` of `user_id`, and returns the entry.
    pub fn rename_entry(&mut self, user_id: u64, entry_id: u64, new_name: String) -> (r: Result<
        FleetEntry,
        FleetError,
    >)
        requires
            old(self).wf(),
        ensures
            final(self).wf(),
            (final(self).state(), r) == rename_outcome(old(self).state(), user_id, entry_id, new_name),
    {
        match self.find(user_id, entry_id) {
            None => Err(FleetError::NotFound),
            Some(i) => {
                let old_entry = &self.entries[i];
                let e = FleetEntry {
                    entry_id: old_entry.entry_id,
                    user_id: old_entry.user_id,
                    model_id: old_entry.model_id.clone(),
                    model_name: old_entry.model_name.clone(),
                    nickname: Some(new_name),
                };
                let out = e.clone();
                self.entries.set(i, e);
                Ok(out)
            },
        }
    }
}

} // verus!
