//! Short-lived, server-side stash for credentials a multi-step form needs.
//!
//! The import wizard collects an SSH password or private key on step one and
//! needs it again on step three. Round-tripping it through hidden form fields
//! puts it in the DOM, in the browser's history and in any proxy log, so instead
//! the value stays in the panel's memory and the browser only ever sees an
//! opaque handle.
//!
//! Entries are bound to the user who created them, expire after
//! [`STASH_TTL`], and are consumed on use.

use vstd::prelude::*;
use crate::clock::Stopwatch;
use crate::expiring;
use crate::expiring::{Expiring, Kept};
use crate::panel::auth;

verus! {

/// How long a wizard may take before its credentials are discarded, in nanoseconds:
/// fifteen minutes.
pub const STASH_TTL: u64 = 900_000_000_000;

/// A value and its owner.
struct Stashed {
    user_id: i64,
    value: String,
}

/// A value and its owner, with the value as a sequence of characters.
pub struct StashedView {
    pub user_id: i64,
    pub value: Seq<char>,
    pub at: u64,
}

/// Short-lived values under opaque handles.
pub struct CredentialStash {
    entries: Expiring<Stashed>,
    watch: Stopwatch,
}

/// The views of what is kept.
spec fn shown(m: Map<Seq<char>, Kept<Stashed>>) -> Map<Seq<char>, StashedView> {
    Map::new(
        |k: Seq<char>| m.contains_key(k),
        |k: Seq<char>|
            StashedView {
                user_id: m[k].value.user_id,
                value: m[k].value.value@,
                at: m[k].at,
            },
    )
}

/// What is left at `now`.
pub open spec fn fresh(m: Map<Seq<char>, StashedView>, now: u64) -> Map<Seq<char>, StashedView> {
    Map::new(
        |k: Seq<char>| m.contains_key(k) && expiring::age(m[k].at, now) < STASH_TTL,
        |k: Seq<char>| m[k],
    )
}

/// The value that a user finds under a handle at `now`: one that is there, not too
/// old, and the user's own.
pub open spec fn found(m: Map<Seq<char>, StashedView>, user_id: i64, handle: Seq<char>, now: u64) -> Option<
    Seq<char>,
> {
    let left = fresh(m, now);
    if left.contains_key(handle) && left[handle].user_id == user_id {
        Some(left[handle].value)
    } else {
        None
    }
}

/// What is left once a user took the value under a handle.
pub open spec fn taken(m: Map<Seq<char>, StashedView>, user_id: i64, handle: Seq<char>, now: u64) -> Map<
    Seq<char>,
    StashedView,
> {
    if found(m, user_id, handle, now) is Some {
        fresh(m, now).remove(handle)
    } else {
        fresh(m, now)
    }
}

/// What there is once a user stored a value.
pub open spec fn stored(
    m: Map<Seq<char>, StashedView>,
    user_id: i64,
    value: Seq<char>,
    handle: Seq<char>,
    now: u64,
) -> Map<Seq<char>, StashedView> {
    fresh(m, now).insert(handle, StashedView { user_id, value, at: now })
}

/// The owner finds what was stored for as long as it lives, and no other user does.
pub proof fn law_value_is_its_owners(
    m: Map<Seq<char>, StashedView>,
    user_id: i64,
    value: Seq<char>,
    handle: Seq<char>,
    put: u64,
    asked: u64,
    other: i64,
)
    requires
        put <= asked,
        other != user_id,
    ensures
        found(stored(m, user_id, value, handle, put), user_id, handle, asked) == if asked - put
            < STASH_TTL {
            Some(value)
        } else {
            None
        },
        found(stored(m, user_id, value, handle, put), other, handle, asked) is None,
{
}

/// What was taken is gone, for everyone and at any later time; and another user who
/// tries to take it leaves it where it is.
pub proof fn law_taken_value_is_gone(
    m: Map<Seq<char>, StashedView>,
    user_id: i64,
    handle: Seq<char>,
    now: u64,
    anyone: i64,
    later: u64,
)
    ensures
        found(m, user_id, handle, now) is Some ==> found(
            taken(m, user_id, handle, now),
            anyone,
            handle,
            later,
        ) is None,
        found(m, user_id, handle, now) is None ==> taken(m, user_id, handle, now) == fresh(m, now),
{
}

/// What is done with a stash.
pub enum Deed {
    /// A value is stored.
    Put(Seq<char>),
    /// A value is looked at.
    Peek,
    /// A value is taken.
    Take,
}

/// Something that a user does with a stash, under a handle, at a time.
pub struct Event {
    pub deed: Deed,
    pub user_id: i64,
    pub handle: Seq<char>,
    pub at: u64,
}

/// What there is after an event.
pub open spec fn after(m: Map<Seq<char>, StashedView>, e: Event) -> Map<Seq<char>, StashedView> {
    match e.deed {
        Deed::Put(value) => stored(m, e.user_id, value, e.handle, e.at),
        Deed::Peek => fresh(m, e.at),
        Deed::Take => taken(m, e.user_id, e.handle, e.at),
    }
}

/// What there is in a new stash after some events, in order.
pub open spec fn history(events: Seq<Event>) -> Map<Seq<char>, StashedView>
    decreases events.len(),
{
    if events.len() == 0 {
        Map::empty()
    } else {
        after(history(events.drop_last()), events.last())
    }
}

/// The events stand in the order of their times, the last of them no later than `now`.
pub open spec fn in_order(events: Seq<Event>, now: u64) -> bool {
    &&& forall|i: int, j: int|
        0 <= i < j < events.len() ==> (#[trigger] events[i]).at <= (#[trigger] events[j]).at
    &&& forall|i: int| 0 <= i < events.len() ==> (#[trigger] events[i]).at <= now
}

/// No two values are stored under one handle.
pub open spec fn handles_apart(events: Seq<Event>) -> bool {
    forall|i: int, j: int|
        0 <= i < j < events.len() && (#[trigger] events[i]).deed is Put && (
        #[trigger] events[j]).deed is Put ==> events[i].handle != events[j].handle
}

/// The value of event `i` waits under a handle at `now`: it was stored there less than
/// [`STASH_TTL`] ago, and its owner has not taken it since.
pub open spec fn waits(events: Seq<Event>, i: int, handle: Seq<char>, now: u64) -> bool {
    &&& 0 <= i < events.len()
    &&& events[i].deed is Put
    &&& events[i].handle == handle
    &&& expiring::age(events[i].at, now) < STASH_TTL
    &&& forall|j: int|
        i < j < events.len() ==> !((#[trigger] events[j]).deed is Take && events[j].handle == handle
            && events[j].user_id == events[i].user_id)
}

/// The handles under which values wait at `now`.
pub open spec fn waiting(events: Seq<Event>, now: u64) -> Set<Seq<char>> {
    Set::new(|handle: Seq<char>| exists|i: int| waits(events, i, handle, now))
}

/// What is under a handle after some events is the value that waits there.
proof fn lemma_waits(events: Seq<Event>, handle: Seq<char>, now: u64)
    requires
        in_order(events, now),
        handles_apart(events),
    ensures
        fresh(history(events), now).contains_key(handle) == (exists|i: int|
            waits(events, i, handle, now)),
        forall|i: int| #[trigger]
            waits(events, i, handle, now) ==> fresh(history(events), now)[handle] == (StashedView {
                user_id: events[i].user_id,
                value: events[i].deed->Put_0,
                at: events[i].at,
            }),
    decreases events.len(),
{
    if events.len() > 0 {
        let front = events.drop_last();
        let e = events.last();
        let n = front.len() as int;
        assert(events[n] == e);
        assert forall|i: int, j: int| 0 <= i < j < front.len() implies (#[trigger] front[i]).at <= (
        #[trigger] front[j]).at by {
            assert(front[i] == events[i] && front[j] == events[j]);
        }
        assert forall|i: int| 0 <= i < front.len() implies (#[trigger] front[i]).at <= e.at by {
            assert(front[i] == events[i]);
        }
        assert forall|i: int, j: int|
            0 <= i < j < front.len() && (#[trigger] front[i]).deed is Put && (
            #[trigger] front[j]).deed is Put implies front[i].handle != front[j].handle by {
            assert(front[i] == events[i] && front[j] == events[j]);
        }
        assert(in_order(front, now));
        lemma_waits(front, handle, now);
        lemma_waits(front, handle, e.at);
        // What waits of the earlier events still does, unless the last event takes it.
        assert forall|i: int| 0 <= i < n implies #[trigger] waits(events, i, handle, now) == (waits(
            front,
            i,
            handle,
            now,
        ) && !(e.deed is Take && e.handle == handle && e.user_id == events[i].user_id)) by {
            assert(front[i] == events[i]);
            if waits(events, i, handle, now) {
                assert forall|j: int| i < j < front.len() implies !((#[trigger] front[j]).deed is Take
                    && front[j].handle == handle && front[j].user_id == front[i].user_id) by {
                    assert(front[j] == events[j]);
                }
            }
            if waits(front, i, handle, now) && !(e.deed is Take && e.handle == handle && e.user_id
                == events[i].user_id) {
                assert forall|j: int| i < j < events.len() implies !((
                #[trigger] events[j]).deed is Take && events[j].handle == handle
                    && events[j].user_id == events[i].user_id) by {
                    if j < n {
                        assert(front[j] == events[j]);
                    }
                }
            }
        }
        // What waits now has waited at the last event too.
        assert forall|i: int| waits(front, i, handle, now) implies #[trigger] waits(
            front,
            i,
            handle,
            e.at,
        ) by {}
        let left = fresh(history(events), now);
        let before = fresh(history(front), now);
        assert(left.contains_key(handle) ==> (exists|i: int| waits(events, i, handle, now))) by {
            if left.contains_key(handle) {
                if e.deed is Put && e.handle == handle {
                    assert(waits(events, n, handle, now));
                } else {
                    assert(before.contains_key(handle));
                    let i = choose|i: int| waits(front, i, handle, now);
                    assert(waits(front, i, handle, e.at));
                    assert(waits(events, i, handle, now));
                }
            }
        }
        assert forall|i: int| #[trigger] waits(events, i, handle, now) implies left.contains_key(
            handle,
        ) && left[handle] == (StashedView {
            user_id: events[i].user_id,
            value: events[i].deed->Put_0,
            at: events[i].at,
        }) by {
            if i < n {
                assert(front[i] == events[i]);
                assert(waits(front, i, handle, now));
                assert(waits(front, i, handle, e.at));
                assert(before.contains_key(handle));
                if e.deed is Put {
                    assert(e.handle != handle);
                }
            }
        }
    }
}

/// Over any history of a new stash, what counts at `now` is what was stored less than
/// [`STASH_TTL`] ago and not taken since by its owner: the owner finds it, nobody else
/// does, and under every other handle nobody finds anything. No two values are stored
/// under one handle.
pub proof fn law_stash_holds_what_waits(events: Seq<Event>, now: u64)
    requires
        in_order(events, now),
        handles_apart(events),
    ensures
        fresh(history(events), now).dom() == waiting(events, now),
        fresh(history(events), now).dom().len() == waiting(events, now).len(),
        forall|i: int, handle: Seq<char>, user_id: i64| #[trigger]
            waits(events, i, handle, now) ==> #[trigger] found(
                history(events),
                user_id,
                handle,
                now,
            ) == if user_id == events[i].user_id {
                Some(events[i].deed->Put_0)
            } else {
                None
            },
        forall|handle: Seq<char>, user_id: i64|
            !waiting(events, now).contains(handle) ==> (#[trigger] found(
                history(events),
                user_id,
                handle,
                now,
            )) is None,
{
    assert forall|handle: Seq<char>| fresh(history(events), now).dom().contains(handle)
        == waiting(events, now).contains(handle) by {
        lemma_waits(events, handle, now);
    }
    assert(fresh(history(events), now).dom() =~= waiting(events, now));
    assert forall|i: int, handle: Seq<char>, user_id: i64| #[trigger]
        waits(events, i, handle, now) implies #[trigger] found(
        history(events),
        user_id,
        handle,
        now,
    ) == if user_id == events[i].user_id {
        Some(events[i].deed->Put_0)
    } else {
        None
    } by {
        lemma_waits(events, handle, now);
    }
}

impl View for CredentialStash {
    type V = Map<Seq<char>, StashedView>;

    closed spec fn view(&self) -> Map<Seq<char>, StashedView> {
        shown(self.entries@)
    }
}

/// The view of what a user found.
pub open spec fn value_view(r: Option<String>) -> Option<Seq<char>> {
    match r {
        Some(s) => Some(s@),
        None => None,
    }
}

impl CredentialStash {
    pub fn new() -> (s: Self)
        ensures
            s@ == Map::<Seq<char>, StashedView>::empty(),
    {
        let s = CredentialStash { entries: Expiring::new(), watch: Stopwatch::start() };
        assert(s@ =~= Map::empty());
        s
    }

    /// Drops what is too old at `now`.
    fn sweep(&mut self, now: u64)
        ensures
            final(self)@ == fresh(old(self)@, now),
    {
        let ghost before = self@;
        self.entries.sweep(now, STASH_TTL);
        assert(self@ =~= fresh(before, now));
    }

    /// Stores `value` for `user_id` under `handle`.
    pub fn put_at(&mut self, user_id: i64, value: String, handle: String, now: u64)
        ensures
            final(self)@ == stored(old(self)@, user_id, value@, handle@, now),
    {
        let ghost before = self@;
        self.sweep(now);
        let ghost h = handle@;
        let ghost v = value@;
        self.entries.put(handle, Stashed { user_id, value }, now);
        assert(self@ =~= stored(before, user_id, v, h, now));
    }

    /// Stores `value` for `user_id` and returns the handle to hand to the form.
    pub fn put(&mut self, user_id: i64, value: &str) -> (handle: String)
        ensures
            handle@.len() == 43,
            auth::is_token(handle@),
            exists|now: u64|
                final(self)@ == #[trigger] stored(old(self)@, user_id, value@, handle@, now),
    {
        let handle = auth::random_token();
        let now = self.watch.nanos();
        self.put_at(user_id, value.to_owned(), handle.clone(), now);
        handle
    }

    /// The value under a handle at `now`, which stays there.
    pub fn peek_at(&mut self, user_id: i64, handle: &str, now: u64) -> (r: Option<String>)
        ensures
            value_view(r) == found(old(self)@, user_id, handle@, now),
            final(self)@ == fresh(old(self)@, now),
    {
        self.sweep(now);
        match self.entries.get(handle) {
            Some(entry) => if entry.user_id == user_id {
                Some(entry.value.clone())
            } else {
                None
            },
            None => None,
        }
    }

    /// Returns the value without consuming it, for a step that may be retried.
    pub fn peek(&mut self, user_id: i64, handle: &str) -> (r: Option<String>)
        ensures
            exists|now: u64|
                value_view(r) == #[trigger] found(old(self)@, user_id, handle@, now)
                    && final(self)@ == fresh(old(self)@, now),
    {
        let now = self.watch.nanos();
        self.peek_at(user_id, handle, now)
    }

    /// Takes the value under a handle at `now`.
    pub fn take_at(&mut self, user_id: i64, handle: &str, now: u64) -> (r: Option<String>)
        ensures
            value_view(r) == found(old(self)@, user_id, handle@, now),
            final(self)@ == taken(old(self)@, user_id, handle@, now),
    {
        let ghost before = self@;
        self.sweep(now);
        let own = match self.entries.get(handle) {
            Some(entry) => entry.user_id == user_id,
            None => false,
        };
        if own {
            let ghost left = self.entries@;
            let gone = self.entries.take(handle);
            assert(self@ =~= taken(before, user_id, handle@, now));
            match gone {
                Some(entry) => Some(entry.value),
                None => None,
            }
        } else {
            None
        }
    }

    /// Returns the value and removes it: the wizard is finished with it.
    pub fn take(&mut self, user_id: i64, handle: &str) -> (r: Option<String>)
        ensures
            exists|now: u64|
                value_view(r) == #[trigger] found(old(self)@, user_id, handle@, now)
                    && final(self)@ == taken(old(self)@, user_id, handle@, now),
    {
        let now = self.watch.nanos();
        self.take_at(user_id, handle, now)
    }

    /// How many values there are at `now`.
    pub fn len_at(&mut self, now: u64) -> (n: usize)
        ensures
            n == fresh(old(self)@, now).dom().len(),
            final(self)@ == fresh(old(self)@, now),
    {
        self.sweep(now);
        assert(self@.dom() =~= self.entries@.dom());
        self.entries.len()
    }

    pub fn len(&mut self) -> (n: usize)
        ensures
            exists|now: u64|
                n == (#[trigger] fresh(old(self)@, now)).dom().len() && final(self)@ == fresh(
                    old(self)@,
                    now,
                ),
    {
        let now = self.watch.nanos();
        self.len_at(now)
    }

    pub fn is_empty(&mut self) -> (r: bool)
        ensures
            exists|now: u64|
                r == ((#[trigger] fresh(old(self)@, now)).dom().len() == 0) && final(self)@
                    == fresh(old(self)@, now),
    {
        self.len() == 0
    }
}

} // verus!
