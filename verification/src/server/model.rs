//! A model of the store and of whole lookups, and what holds of them.
//!
//! The store is taken to answer every request and to keep, for each
//! account, an append-only history and at most one record of the last
//! check. A whole lookup is the lookup machine run against such a store and
//! against a profile service that gives one fixed answer.

use crate::client::config::UseCacheConfig;
use crate::client::JsonRequesterErrorView;
use crate::server::namehistory::spec_advance;
use crate::server::namehistory::spec_into_error_response_req;
use crate::server::namehistory::spec_name_is_new;
use crate::server::namehistory::spec_need_request;
use crate::server::namehistory::ActionView;
use crate::server::namehistory::ErrorResponseView;
use crate::server::namehistory::EventView;
use crate::server::namehistory::StageView;
use crate::storage::data::history_is_ordered;
use crate::storage::data::is_fresh;
use crate::storage::data::NameHistoryElementView;
use crate::storage::data::Update;
use crate::utils::time::Timestamp;
use vstd::prelude::*;

verus! {

/// What the store holds: each account's history, and each account's record
/// of its last check.
pub struct Store {
    pub names: Map<u128, Seq<NameHistoryElementView>>,
    pub updates: Map<u128, Update>,
}

impl Store {
    /// The history of `id`, empty where the account is unknown.
    pub open spec fn get_name_history(self, id: u128) -> Seq<NameHistoryElementView> {
        if self.names.contains_key(id) {
            self.names[id]
        } else {
            Seq::empty()
        }
    }

    /// The record of the last check of `id`, where there is one.
    pub open spec fn get_update(self, id: u128) -> Option<Update> {
        if self.updates.contains_key(id) {
            Some(self.updates[id])
        } else {
            None
        }
    }

    /// The store after `record` was appended to the history of `id`.
    pub open spec fn add_name_history(self, id: u128, record: NameHistoryElementView) -> Store {
        Store { names: self.names.insert(id, self.get_name_history(id).push(record)), ..self }
    }

    /// The store after `record` was written as the record of `id`, which
    /// replaces the one that was there.
    pub open spec fn put_update(self, id: u128, record: Update) -> Store {
        Store { updates: self.updates.insert(id, record), ..self }
    }
}

/// The surroundings of a lookup: the store as it stands, and how often so
/// far the profile service was asked, a name was handed to the store to be
/// appended, and a record of a check was handed to it to be written.
pub struct World {
    pub store: Store,
    pub requests: nat,
    pub appends: nat,
    pub notes: nat,
}

/// What the surroundings do with a request for the account `id`, and what
/// they report back. `profile` is what the profile service answers.
///
/// An insert of a record for an account that has one, and an overwrite for
/// an account that has none, change nothing: the first is refused by the
/// store, with a message that is left open, the second affects no row.
pub open spec fn react(
    world: World,
    id: u128,
    profile: Result<Seq<char>, JsonRequesterErrorView>,
    action: ActionView,
) -> (World, EventView) {
    match action {
        ActionView::GetUpdate => (world, EventView::Update(Ok(world.store.get_update(id)))),
        ActionView::GetNameHistory => (
            world,
            EventView::NameHistory(Ok(world.store.get_name_history(id))),
        ),
        ActionView::RequestProfile => (
            World { requests: world.requests + 1, ..world },
            EventView::Profile(profile),
        ),
        ActionView::AddNameHistory { element, source } => (
            World {
                store: world.store.add_name_history(id, element),
                appends: world.appends + 1,
                ..world
            },
            EventView::Written(Ok(1)),
        ),
        ActionView::InsertUpdate { record } => if world.store.updates.contains_key(id) {
            (
                World { notes: world.notes + 1, ..world },
                EventView::Written(Err(vstd::pervasive::arbitrary())),
            )
        } else {
            (
                World {
                    store: world.store.put_update(id, record),
                    notes: world.notes + 1,
                    ..world
                },
                EventView::Written(Ok(1)),
            )
        },
        ActionView::RefreshUpdate { record } => if world.store.updates.contains_key(id) {
            (
                World {
                    store: world.store.put_update(id, record),
                    notes: world.notes + 1,
                    ..world
                },
                EventView::Written(Ok(1)),
            )
        } else {
            (World { notes: world.notes + 1, ..world }, EventView::Written(Ok(0)))
        },
        ActionView::Reply(_) => (world, vstd::pervasive::arbitrary()),
    }
}

/// How a lookup ended: the surroundings as it left them, and its reply.
pub struct Outcome {
    pub world: World,
    pub reply: Result<Seq<NameHistoryElementView>, ErrorResponseView>,
}

impl StageView {
    /// An upper bound on the reports that a lookup at this stage still
    /// takes.
    pub open spec fn remaining(self) -> nat {
        match self {
            StageView::AwaitUpdate => 5,
            StageView::AwaitNameHistory { .. } => 4,
            StageView::AwaitProfile { .. } => 3,
            StageView::AwaitAddNameHistory { .. } => 2,
            StageView::AwaitUpdateWritten { .. } => 1,
            StageView::Finished => 0,
        }
    }
}

/// The rest of a lookup that stands at `stage` and is handed `event`: the
/// machine is advanced and its requests are carried out in `world` until it
/// replies.
pub open spec fn run(
    now: Timestamp,
    config: UseCacheConfig,
    id: u128,
    profile: Result<Seq<char>, JsonRequesterErrorView>,
    world: World,
    stage: StageView,
    event: EventView,
) -> Outcome
    decreases stage.remaining(),
{
    if stage.accepts(event) {
        let (next, action) = spec_advance(now, config, stage, event);
        match action {
            ActionView::Reply(reply) => Outcome { world, reply },
            _ => {
                let (world, event) = react(world, id, profile, action);
                run(now, config, id, profile, world, next, event)
            },
        }
    } else {
        vstd::pervasive::arbitrary()
    }
}

/// A whole lookup of the account `id`, begun at `now` on the store `store`,
/// where the profile service would answer `profile`.
pub open spec fn resolve(
    store: Store,
    id: u128,
    now: Timestamp,
    config: UseCacheConfig,
    profile: Result<Seq<char>, JsonRequesterErrorView>,
) -> Outcome {
    let world = World { store, requests: 0, appends: 0, notes: 0 };
    let (world, event) = react(world, id, profile, ActionView::GetUpdate);
    run(now, config, id, profile, world, StageView::AwaitUpdate, event)
}

/// What a whole lookup comes to, said in one piece.
///
/// A fresh record has the stored history returned and nothing else done.
/// Otherwise the profile service is asked once. Its failure is the reply,
/// and the store is left as it was. A name that differs from the last one
/// on record is appended with the time of the lookup, and the check is
/// noted as one that found a change; a name that is on record as the last
/// one has only the check noted, as one that found none.
pub open spec fn resolve_directly(
    store: Store,
    id: u128,
    now: Timestamp,
    config: UseCacheConfig,
    profile: Result<Seq<char>, JsonRequesterErrorView>,
) -> Outcome {
    let data = store.get_name_history(id);
    if !spec_need_request(store.get_update(id), now, config) {
        Outcome { world: World { store, requests: 0, appends: 0, notes: 0 }, reply: Ok(data) }
    } else {
        match profile {
            Err(e) => Outcome {
                world: World { store, requests: 1, appends: 0, notes: 0 },
                reply: Err(spec_into_error_response_req(e)),
            },
            Ok(name) => if spec_name_is_new(data, name) {
                let record = NameHistoryElementView { name, changed_to_at: Some(now) };
                Outcome {
                    world: World {
                        store: store.add_name_history(id, record).put_update(
                            id,
                            Update { update: now, changed: true },
                        ),
                        requests: 1,
                        appends: 1,
                        notes: 1,
                    },
                    reply: Ok(data.push(record)),
                }
            } else {
                Outcome {
                    world: World {
                        store: store.put_update(id, Update { update: now, changed: false }),
                        requests: 1,
                        appends: 0,
                        notes: 1,
                    },
                    reply: Ok(data),
                }
            },
        }
    }
}

/// The lookup machine, run against a store that answers every request,
/// does what `resolve_directly` says.
pub proof fn lemma_resolve_agrees(
    store: Store,
    id: u128,
    now: Timestamp,
    config: UseCacheConfig,
    profile: Result<Seq<char>, JsonRequesterErrorView>,
)
    ensures
        resolve(store, id, now, config, profile) == resolve_directly(store, id, now, config, profile),
{
    reveal_with_fuel(run, 6);
}

/// Every lookup asks the profile service at most once, hands the store at
/// most one name to append and at most one record of a check to write.
/// The check is noted exactly when the profile service was asked and gave
/// a name, and a name is appended only when the check is noted.
pub proof fn lemma_lookup_writes_at_most_once(
    store: Store,
    id: u128,
    now: Timestamp,
    config: UseCacheConfig,
    profile: Result<Seq<char>, JsonRequesterErrorView>,
)
    ensures
        ({
            let outcome = resolve(store, id, now, config, profile);
            &&& outcome.world.requests <= 1
            &&& outcome.world.appends <= outcome.world.notes <= 1
            &&& outcome.world.notes == 1 <==> outcome.world.requests == 1 && profile.is_ok()
            &&& outcome.world.notes == 1 ==> outcome.world.store.get_update(id) == Some(
                Update { update: now, changed: outcome.world.appends == 1 },
            )
        }),
{
    lemma_resolve_agrees(store, id, now, config, profile);
}

/// The first lookup of an account, of which the store holds neither a
/// name nor a record of a check, asks the profile service and leaves a
/// history of exactly one entry: the name it was given, with the time of
/// the lookup as its time of change.
pub proof fn lemma_first_lookup_records_one_entry(
    store: Store,
    id: u128,
    now: Timestamp,
    config: UseCacheConfig,
    name: Seq<char>,
)
    requires
        store.get_update(id).is_none(),
        store.get_name_history(id).len() == 0,
    ensures
        ({
            let outcome = resolve(store, id, now, config, Ok(name));
            let only = seq![NameHistoryElementView { name, changed_to_at: Some(now) }];
            &&& outcome.world.requests == 1
            &&& outcome.reply == Ok::<_, ErrorResponseView>(only)
            &&& outcome.world.store.get_name_history(id) == only
        }),
{
    lemma_resolve_agrees(store, id, now, config, Ok(name));
    let record = NameHistoryElementView { name, changed_to_at: Some(now) };
    assert(store.get_name_history(id).push(record) =~= seq![record]);
}

/// A lookup that finds a fresh record asks the profile service nothing,
/// writes nothing, leaves the store as it was and returns exactly the
/// stored history.
pub proof fn lemma_fresh_lookup_changes_nothing(
    store: Store,
    id: u128,
    now: Timestamp,
    config: UseCacheConfig,
    profile: Result<Seq<char>, JsonRequesterErrorView>,
)
    requires
        store.get_update(id) matches Some(u) && is_fresh(
            now,
            u.update,
            u.changed,
            config.unchanged,
            config.changed,
        ),
    ensures
        ({
            let outcome = resolve(store, id, now, config, profile);
            &&& outcome.world.requests == 0
            &&& outcome.world.appends == 0
            &&& outcome.world.notes == 0
            &&& outcome.world.store == store
            &&& outcome.reply == Ok::<_, ErrorResponseView>(store.get_name_history(id))
        }),
{
    lemma_resolve_agrees(store, id, now, config, profile);
}

/// A lookup of an account without a record of a check, or with one that is
/// no longer fresh, asks the profile service exactly once.
pub proof fn lemma_stale_lookup_asks_once(
    store: Store,
    id: u128,
    now: Timestamp,
    config: UseCacheConfig,
    profile: Result<Seq<char>, JsonRequesterErrorView>,
)
    requires
        spec_need_request(store.get_update(id), now, config),
    ensures
        resolve(store, id, now, config, profile).world.requests == 1,
{
    lemma_resolve_agrees(store, id, now, config, profile);
}

/// A lookup whose question to the profile service fails replies with that
/// failure and leaves the store as it was.
pub proof fn lemma_failed_request_writes_nothing(
    store: Store,
    id: u128,
    now: Timestamp,
    config: UseCacheConfig,
    e: JsonRequesterErrorView,
)
    requires
        spec_need_request(store.get_update(id), now, config),
    ensures
        ({
            let outcome = resolve(store, id, now, config, Err(e));
            &&& outcome.world.appends == 0
            &&& outcome.world.notes == 0
            &&& outcome.world.store == store
            &&& outcome.reply == Err::<Seq<NameHistoryElementView>, _>(
                spec_into_error_response_req(e),
            )
        }),
{
    lemma_resolve_agrees(store, id, now, config, Err(e));
}

/// A lookup changes the history of its account by at most one entry. Where
/// it does, the profile service gave a name, the new entry is the last one
/// and holds that name and the time of the lookup, every entry that was
/// there is still in its place, and the reply is the history as it is now
/// stored. The histories of all other accounts stay as they were.
pub proof fn lemma_lookup_appends_fetched_name(
    store: Store,
    id: u128,
    now: Timestamp,
    config: UseCacheConfig,
    profile: Result<Seq<char>, JsonRequesterErrorView>,
)
    ensures
        ({
            let before = store.get_name_history(id);
            let outcome = resolve(store, id, now, config, profile);
            let after = outcome.world.store.get_name_history(id);
            &&& after == before || (profile matches Ok(name) && {
                &&& after.len() == before.len() + 1
                &&& after.last().name == name
                &&& after.last().changed_to_at == Some(now)
                &&& after.drop_last() == before
                &&& outcome.reply == Ok::<_, ErrorResponseView>(after)
            })
            &&& forall|other: u128|
                other != id ==> #[trigger] outcome.world.store.get_name_history(other)
                    == store.get_name_history(other)
        }),
{
    lemma_resolve_agrees(store, id, now, config, profile);
}

/// A lookup that has to ask the profile service and is given a name other
/// than the last one on record, or any name where nothing is on record,
/// appends that name with the time of the lookup and notes the check as one
/// that found a change.
pub proof fn lemma_new_name_is_appended(
    store: Store,
    id: u128,
    now: Timestamp,
    config: UseCacheConfig,
    name: Seq<char>,
)
    requires
        spec_need_request(store.get_update(id), now, config),
        spec_name_is_new(store.get_name_history(id), name),
    ensures
        ({
            let before = store.get_name_history(id);
            let outcome = resolve(store, id, now, config, Ok(name));
            let record = NameHistoryElementView { name, changed_to_at: Some(now) };
            &&& outcome.world.store.get_name_history(id) == before.push(record)
            &&& outcome.reply == Ok::<_, ErrorResponseView>(before.push(record))
            &&& outcome.world.store.get_update(id) == Some(Update { update: now, changed: true })
        }),
{
    lemma_resolve_agrees(store, id, now, config, Ok(name));
}

/// A lookup that has to ask the profile service and is given the last name
/// on record appends nothing, returns the stored history and notes the
/// check as one that found no change.
pub proof fn lemma_known_name_is_not_appended(
    store: Store,
    id: u128,
    now: Timestamp,
    config: UseCacheConfig,
    name: Seq<char>,
)
    requires
        spec_need_request(store.get_update(id), now, config),
        store.get_name_history(id).len() > 0,
        store.get_name_history(id).last().name == name,
    ensures
        ({
            let outcome = resolve(store, id, now, config, Ok(name));
            &&& outcome.world.store.names == store.names
            &&& outcome.reply == Ok::<_, ErrorResponseView>(store.get_name_history(id))
            &&& outcome.world.store.get_update(id) == Some(Update { update: now, changed: false })
        }),
{
    lemma_resolve_agrees(store, id, now, config, Ok(name));
}

/// Two lookups of one account, one after the other, with the profile
/// service giving the same name both times, return the same history.
///
/// This leaves out the one course of events in which the first lookup
/// never learns the name: it is served from a fresh record, the record
/// has gone stale by the time of the second lookup, and the name is not
/// the last one on record.
pub proof fn lemma_repeated_lookup_returns_same_history(
    store: Store,
    id: u128,
    first: Timestamp,
    second: Timestamp,
    config: UseCacheConfig,
    name: Seq<char>,
)
    requires
        spec_need_request(store.get_update(id), first, config) || !spec_need_request(
            store.get_update(id),
            second,
            config,
        ) || !spec_name_is_new(store.get_name_history(id), name),
    ensures
        ({
            let once = resolve(store, id, first, config, Ok(name));
            let twice = resolve(once.world.store, id, second, config, Ok(name));
            &&& twice.reply == once.reply
            &&& twice.world.store.names == once.world.store.names
        }),
{
    let once = resolve(store, id, first, config, Ok(name));
    lemma_resolve_agrees(store, id, first, config, Ok(name));
    lemma_resolve_agrees(once.world.store, id, second, config, Ok(name));
}

/// Of two lookups of one account, the second notes its own time as the
/// time of the last check whenever it finds the record left by the first
/// no longer fresh; where the name it is given is the last one on record,
/// it notes a check that found no change.
///
/// A second lookup that finds the record still fresh leaves it alone, and
/// is left out here.
pub proof fn lemma_repeated_lookup_notes_second_check(
    store: Store,
    id: u128,
    first: Timestamp,
    second: Timestamp,
    config: UseCacheConfig,
    name: Seq<char>,
)
    requires
        spec_need_request(
            resolve(store, id, first, config, Ok(name)).world.store.get_update(id),
            second,
            config,
        ),
    ensures
        ({
            let once = resolve(store, id, first, config, Ok(name));
            let twice = resolve(once.world.store, id, second, config, Ok(name));
            &&& twice.world.store.get_update(id) matches Some(u) && u.update == second
            &&& !spec_name_is_new(once.world.store.get_name_history(id), name)
                ==> twice.world.store.get_update(id) == Some(
                Update { update: second, changed: false },
            )
        }),
{
    let once = resolve(store, id, first, config, Ok(name));
    lemma_resolve_agrees(store, id, first, config, Ok(name));
    lemma_resolve_agrees(once.world.store, id, second, config, Ok(name));
}

/// A lookup keeps a history in order, as long as its clock does not read
/// earlier than the last entry on record.
pub proof fn lemma_lookup_keeps_history_ordered(
    store: Store,
    id: u128,
    now: Timestamp,
    config: UseCacheConfig,
    profile: Result<Seq<char>, JsonRequesterErrorView>,
)
    requires
        history_is_ordered(store.get_name_history(id)),
        store.get_name_history(id).len() > 0 ==> store.get_name_history(id).last().rank()
            <= now.millis,
    ensures
        history_is_ordered(resolve(store, id, now, config, profile).world.store.get_name_history(id)),
        resolve(store, id, now, config, profile).reply matches Ok(data) ==> history_is_ordered(
            data,
        ),
{
    lemma_resolve_agrees(store, id, now, config, profile);
}

} // verus!
