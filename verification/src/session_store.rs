//! The mapping from a user's identifier to that user's session.
//!
//! Every mutation takes the store by exclusive reference, so a lookup and the
//! insertion that may follow it are one step: no other access can fall
//! between them.

use crate::session::{fresh_session, Session, SessionView};
use vstd::prelude::*;

verus! {

/// The sessions that a store holds after `get_or_create`.
pub open spec fn after_get_or_create(
    sessions: Map<Seq<char>, SessionView>,
    user_id: Seq<char>,
    username: Seq<char>,
    chat_id: Seq<char>,
) -> Map<Seq<char>, SessionView> {
    if sessions.contains_key(user_id) {
        sessions
    } else {
        sessions.insert(user_id, fresh_session(user_id, username, chat_id))
    }
}

/// The session that `get_or_create` returns.
pub open spec fn found_or_created(
    sessions: Map<Seq<char>, SessionView>,
    user_id: Seq<char>,
    username: Seq<char>,
    chat_id: Seq<char>,
) -> SessionView {
    if sessions.contains_key(user_id) {
        sessions[user_id]
    } else {
        fresh_session(user_id, username, chat_id)
    }
}

/// A store of sessions, one for each user identifier.
pub trait SessionStore {
    /// The sessions held, by user identifier.
    spec fn sessions(&self) -> Map<Seq<char>, SessionView>;

    /// The store's internal invariant.
    spec fn valid(&self) -> bool;

    /// The session stored for `user_id`; where there is none, a new session
    /// without a credential, which is stored and returned.
    fn get_or_create(&mut self, user_id: String, username: String, chat_id: String) -> (r: Session)
        requires
            old(self).valid(),
        ensures
            final(self).valid(),
            r@ == found_or_created(old(self).sessions(), user_id@, username@, chat_id@),
            final(self).sessions() == after_get_or_create(
                old(self).sessions(),
                user_id@,
                username@,
                chat_id@,
            ),
    ;

    /// The session stored for `user_id`, if there is one.
    fn get(&self, user_id: String) -> (r: Option<Session>)
        requires
            self.valid(),
        ensures
            r is Some <==> self.sessions().contains_key(user_id@),
            r is Some ==> r->0@ == self.sessions()[user_id@],
    ;

    /// Stores `session` for `user_id`, in place of what was stored for it.
    fn set(&mut self, user_id: String, session: Session)
        requires
            old(self).valid(),
        ensures
            final(self).valid(),
            final(self).sessions() == old(self).sessions().insert(user_id@, session@),
    ;

    /// Deletes the session of `user_id`, if there is one.
    fn remove(&mut self, user_id: &str)
        requires
            old(self).valid(),
        ensures
            final(self).valid(),
            final(self).sessions() == old(self).sessions().remove(user_id@),
    ;
}

/// One stored session under the identifier it was stored for.
struct Entry {
    key: String,
    session: Session,
}

/// A key with the session stored under it.
pub type Slot = (Seq<char>, SessionView);

/// No key stands in two slots.
pub open spec fn keys_distinct(slots: Seq<Slot>) -> bool {
    forall|i: int, j: int| 0 <= i < j < slots.len() ==> slots[i].0 != slots[j].0
}

/// Some slot holds `key`.
pub open spec fn has_key(slots: Seq<Slot>, key: Seq<char>) -> bool {
    exists|i: int| 0 <= i < slots.len() && slots[i].0 == key
}

/// A slot that holds `key`, where there is one.
pub open spec fn slot_of(slots: Seq<Slot>, key: Seq<char>) -> int {
    choose|i: int| 0 <= i < slots.len() && slots[i].0 == key
}

/// The map that the slots stand for.
pub open spec fn slots_map(slots: Seq<Slot>) -> Map<Seq<char>, SessionView> {
    Map::new(|key: Seq<char>| has_key(slots, key), |key: Seq<char>| slots[slot_of(slots, key)].1)
}

/// With distinct keys, the map gives for the key of slot `i` the session of
/// slot `i`.
pub proof fn lemma_slot_lookup(slots: Seq<Slot>, i: int)
    requires
        keys_distinct(slots),
        0 <= i < slots.len(),
    ensures
        slots_map(slots).contains_key(slots[i].0),
        slots_map(slots)[slots[i].0] == slots[i].1,
{
    let key = slots[i].0;
    assert(has_key(slots, key));
    let j = slot_of(slots, key);
    assert(0 <= j < slots.len() && slots[j].0 == key);
    assert(j == i);
}

/// A session store in memory.
pub struct SessionStoreInMemory {
    entries: Vec<Entry>,
}

impl SessionStoreInMemory {
    /// The stored keys and sessions, in the order in which the keys came.
    pub closed spec fn slots(&self) -> Seq<Slot> {
        Seq::new(
            self.entries@.len(),
            |i: int| (self.entries@[i].key@, self.entries@[i].session@),
        )
    }

    /// An empty store.
    pub fn new() -> (r: Self)
        ensures
            r.valid(),
            r.sessions() == Map::<Seq<char>, SessionView>::empty(),
    {
        let r = SessionStoreInMemory { entries: Vec::new() };
        assert(r.sessions() =~= Map::<Seq<char>, SessionView>::empty());
        r
    }

    /// The number of sessions held.
    pub fn len(&self) -> (n: usize)
        requires
            self.valid(),
        ensures
            n == self.sessions().dom().len(),
            self.sessions().dom().finite(),
    {
        proof {
            lemma_slots_count(self.slots());
        }
        self.entries.len()
    }

    /// The place of `key` among the entries.
    fn position(&self, key: &String) -> (r: Option<usize>)
        requires
            self.valid(),
        ensures
            match r {
                Some(i) => i < self.slots().len() && self.slots()[i as int].0 == key@,
                None => !has_key(self.slots(), key@),
            },
    {
        let mut i: usize = 0;
        while i < self.entries.len()
            invariant
                i <= self.entries.len(),
                self.slots().len() == self.entries.len(),
                forall|j: int| 0 <= j < i ==> self.slots()[j].0 != key@,
            decreases self.entries.len() - i,
        {
            if self.entries[i].key == *key {
                return Some(i);
            }
            i += 1;
        }
        None
    }
}

impl Default for SessionStoreInMemory {
    /// An empty store.
    fn default() -> (r: Self)
        ensures
            r.valid(),
            r.sessions() == Map::<Seq<char>, SessionView>::empty(),
    {
        SessionStoreInMemory::new()
    }
}

/// Distinct keys are as many as the slots.
pub proof fn lemma_slots_count(slots: Seq<Slot>)
    requires
        keys_distinct(slots),
    ensures
        slots_map(slots).dom().finite(),
        slots_map(slots).dom().len() == slots.len(),
    decreases slots.len(),
{
    if slots.len() == 0 {
        assert(slots_map(slots).dom() =~= Set::<Seq<char>>::empty());
    } else {
        let rest = slots.drop_last();
        let last = slots.last();
        lemma_slots_count(rest);
        assert(!has_key(rest, last.0));
        assert forall|key: Seq<char>|
            slots_map(slots).dom().contains(key) <==> slots_map(rest).dom().insert(
                last.0,
            ).contains(key) by {
            if has_key(slots, key) {
                let i = slot_of(slots, key);
                if i < rest.len() {
                    assert(rest[i].0 == key);
                }
            }
            if has_key(rest, key) {
                let i = slot_of(rest, key);
                assert(slots[i].0 == key);
            }
            if key == last.0 {
                assert(slots[slots.len() - 1].0 == key);
            }
        }
        assert(slots_map(slots).dom() =~= slots_map(rest).dom().insert(last.0));
    }
}

impl SessionStore for SessionStoreInMemory {
    closed spec fn sessions(&self) -> Map<Seq<char>, SessionView> {
        slots_map(self.slots())
    }

    closed spec fn valid(&self) -> bool {
        keys_distinct(self.slots())
    }

    fn get_or_create(&mut self, user_id: String, username: String, chat_id: String) -> (r:
        Session) {
        match self.position(&user_id) {
            Some(i) => {
                proof {
                    lemma_slot_lookup(self.slots(), i as int);
                }
                self.entries[i].session.clone()
            },
            None => {
                let ghost before = self.slots();
                let key = user_id.clone();
                let session = Session::new(user_id, username, chat_id);
                let r = session.clone();
                self.entries.push(Entry { key, session });
                proof {
                    assert(self.slots() =~= before.push((key@, r@)));
                    lemma_put(before, self.slots(), (key@, r@));
                }
                r
            },
        }
    }

    fn get(&self, user_id: String) -> (r: Option<Session>) {
        match self.position(&user_id) {
            Some(i) => {
                proof {
                    lemma_slot_lookup(self.slots(), i as int);
                }
                Some(self.entries[i].session.clone())
            },
            None => None,
        }
    }

    fn set(&mut self, user_id: String, session: Session) {
        let ghost before = self.slots();
        let ghost slot = (user_id@, session@);
        match self.position(&user_id) {
            Some(i) => {
                self.entries.set(i, Entry { key: user_id, session });
                assert(self.slots() =~= before.update(i as int, slot));
            },
            None => {
                self.entries.push(Entry { key: user_id, session });
                assert(self.slots() =~= before.push(slot));
            },
        }
        proof {
            lemma_put(before, self.slots(), slot);
        }
    }

    fn remove(&mut self, user_id: &str) {
        let ghost before = self.slots();
        let key = user_id.to_owned();
        match self.position(&key) {
            Some(i) => {
                let _ = self.entries.remove(i);
                proof {
                    assert(self.slots() =~= before.remove(i as int));
                    lemma_take_out(before, i as int);
                }
            },
            None => {
                assert(self.sessions() =~= self.sessions().remove(user_id@));
            },
        }
    }
}

/// Writing a slot over the one with its key, or behind the others where no
/// slot has its key, keeps the keys distinct and inserts into the map.
pub proof fn lemma_put(before: Seq<Slot>, after: Seq<Slot>, slot: Slot)
    requires
        keys_distinct(before),
        has_key(before, slot.0) ==> exists|i: int|
            0 <= i < before.len() && before[i].0 == slot.0 && after == before.update(i, slot),
        !has_key(before, slot.0) ==> after == before.push(slot),
    ensures
        keys_distinct(after),
        slots_map(after) == slots_map(before).insert(slot.0, slot.1),
{
    let at: int = if has_key(before, slot.0) {
        choose|i: int|
            0 <= i < before.len() && before[i].0 == slot.0 && after == before.update(i, slot)
    } else {
        before.len() as int
    };
    assert(0 <= at < after.len() && after[at] == slot);
    assert forall|i: int| 0 <= i < after.len() && i != at implies after[i] == before[i]
        && after[i].0 != slot.0 by {
        if has_key(before, slot.0) {
            assert(before[at].0 == slot.0);
        }
    }
    assert(keys_distinct(after));
    let want = slots_map(before).insert(slot.0, slot.1);
    assert forall|key: Seq<char>| slots_map(after).contains_key(key) <==> want.contains_key(
        key,
    ) by {
        if has_key(after, key) {
            let i = slot_of(after, key);
            if i != at {
                assert(before[i].0 == key);
            }
        }
        if has_key(before, key) {
            let i = slot_of(before, key);
            assert(after[i].0 == key);
        }
    }
    assert forall|key: Seq<char>| slots_map(after).contains_key(key) implies slots_map(
        after,
    )[key] == want[key] by {
        let i = slot_of(after, key);
        lemma_slot_lookup(after, i);
        if i != at {
            lemma_slot_lookup(before, i);
        }
    }
    assert(slots_map(after) =~= want);
}

/// Taking slot `i` out keeps the keys distinct and removes its key from the
/// map.
pub proof fn lemma_take_out(before: Seq<Slot>, i: int)
    requires
        keys_distinct(before),
        0 <= i < before.len(),
    ensures
        keys_distinct(before.remove(i)),
        slots_map(before.remove(i)) == slots_map(before).remove(before[i].0),
{
    let after = before.remove(i);
    let gone = before[i].0;
    assert forall|j: int| 0 <= j < after.len() implies after[j] == before[if j < i {
        j
    } else {
        j + 1
    }] && after[j].0 != gone by {}
    assert(keys_distinct(after));
    let want = slots_map(before).remove(gone);
    assert forall|key: Seq<char>| slots_map(after).contains_key(key) <==> want.contains_key(
        key,
    ) by {
        if has_key(after, key) {
            let j = slot_of(after, key);
            assert(before[if j < i { j } else { j + 1 }].0 == key);
        }
        if has_key(before, key) && key != gone {
            let j = slot_of(before, key);
            assert(after[if j < i { j } else { j - 1 }].0 == key);
        }
    }
    assert forall|key: Seq<char>| slots_map(after).contains_key(key) implies slots_map(
        after,
    )[key] == want[key] by {
        let j = slot_of(after, key);
        lemma_slot_lookup(after, j);
        lemma_slot_lookup(before, if j < i { j } else { j + 1 });
    }
    assert(slots_map(after) =~= want);
}

/// The arguments of one call of `get_or_create` for a given user: a username
/// and a chat identifier.
pub type Contact = (Seq<char>, Seq<char>);

/// The sessions held after the calls of `get_or_create` for `user_id` were
/// served one after the other, in the order of `calls`.
pub open spec fn after_contacts(
    sessions: Map<Seq<char>, SessionView>,
    user_id: Seq<char>,
    calls: Seq<Contact>,
) -> Map<Seq<char>, SessionView>
    decreases calls.len(),
{
    if calls.len() == 0 {
        sessions
    } else {
        after_get_or_create(
            after_contacts(sessions, user_id, calls.drop_last()),
            user_id,
            calls.last().0,
            calls.last().1,
        )
    }
}

/// What call `i` of `calls` returns when the calls are served one after the
/// other.
pub open spec fn answer_to_contact(
    sessions: Map<Seq<char>, SessionView>,
    user_id: Seq<char>,
    calls: Seq<Contact>,
    i: int,
) -> SessionView {
    found_or_created(
        after_contacts(sessions, user_id, calls.take(i)),
        user_id,
        calls[i].0,
        calls[i].1,
    )
}

/// A second `get_or_create` for the same user returns the session that the
/// first one returned and leaves the store as the first one left it,
/// whatever username and chat identifier the second call names. For a user
/// not seen before, that session carries the first call's arguments.
pub proof fn law_get_or_create_idempotent(
    sessions: Map<Seq<char>, SessionView>,
    user_id: Seq<char>,
    first: Contact,
    second: Contact,
)
    ensures
        ({
            let stored = after_get_or_create(sessions, user_id, first.0, first.1);
            let answer = found_or_created(sessions, user_id, first.0, first.1);
            &&& found_or_created(stored, user_id, second.0, second.1) == answer
            &&& after_get_or_create(stored, user_id, second.0, second.1) == stored
            &&& !sessions.contains_key(user_id) ==> answer.user_id == user_id && answer.username
                == first.0 && answer.chat_id == first.1 && answer.jwt is None
        }),
{
}

/// After one or more first contacts of an unseen user, served in any order
/// one after the other, the store holds for that user the session of the
/// call that was served first, and differs from the store before in nothing
/// else.
pub proof fn lemma_contacts_store_first(
    sessions: Map<Seq<char>, SessionView>,
    user_id: Seq<char>,
    calls: Seq<Contact>,
)
    requires
        !sessions.contains_key(user_id),
        calls.len() > 0,
    ensures
        after_contacts(sessions, user_id, calls) == sessions.insert(
            user_id,
            fresh_session(user_id, calls[0].0, calls[0].1),
        ),
    decreases calls.len(),
{
    if calls.len() > 1 {
        lemma_contacts_store_first(sessions, user_id, calls.drop_last());
    } else {
        assert(after_contacts(sessions, user_id, calls.drop_last()) == sessions);
    }
}

/// Of any number of first contacts of an unseen user, each served as one
/// step, exactly one session is stored for the user, and every call returns
/// that same session: the one made from the arguments of the call served
/// first.
pub proof fn law_first_contacts_agree(
    sessions: Map<Seq<char>, SessionView>,
    user_id: Seq<char>,
    calls: Seq<Contact>,
)
    requires
        !sessions.contains_key(user_id),
        calls.len() > 0,
    ensures
        after_contacts(sessions, user_id, calls) == sessions.insert(
            user_id,
            fresh_session(user_id, calls[0].0, calls[0].1),
        ),
        forall|i: int|
            0 <= i < calls.len() ==> #[trigger] answer_to_contact(sessions, user_id, calls, i)
                == fresh_session(user_id, calls[0].0, calls[0].1),
{
    lemma_contacts_store_first(sessions, user_id, calls);
    assert forall|i: int| 0 <= i < calls.len() implies #[trigger] answer_to_contact(
        sessions,
        user_id,
        calls,
        i,
    ) == fresh_session(user_id, calls[0].0, calls[0].1) by {
        let served = calls.take(i);
        if i == 0 {
            assert(after_contacts(sessions, user_id, served) == sessions);
        } else {
            lemma_contacts_store_first(sessions, user_id, served);
        }
    }
}

} // verus!
