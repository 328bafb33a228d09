//! What holds of the cache whatever it holds: laws over the models that the
//! contracts of the store and of the handler are written in, each proved for
//! every store, key, payload and moment.

use crate::cache::{is_stale_at, model_get, model_put, EntryModel, StoreModel};
use crate::clock::{elapsed_secs, NANOS_PER_SEC};
use crate::config::ConfigModel;
use crate::handler::{
    action_on_request, fresh_value, reply_after_fetch, store_after_fetch, ActionModel, Reply,
};
use crate::upstream::{cache_key_of, request_of, FetchError, ResourceModel};
use serde_json::Value;
use vstd::prelude::*;

verus! {

/// An entry is fresh at the moment it is put, under any time to live but
/// zero: a look at the store at that same moment finds the payload and may
/// serve it.
pub proof fn fresh_when_put(
    store: StoreModel,
    key: Seq<char>,
    value: Value,
    now: nat,
    ttl_secs: u64,
)
    requires
        ttl_secs > 0,
    ensures
        model_get(model_put(store, key, value, now), key) == Some(
            EntryModel { value, fetched_at: now },
        ),
        !is_stale_at(EntryModel { value, fetched_at: now }, ttl_secs, now),
        fresh_value(model_put(store, key, value, now), key, ttl_secs, now) == Some(value),
{
}

/// An entry turns stale exactly when its time to live has run out, to the
/// nanosecond: at no moment before, and at every moment from then on. The
/// moments meant are those of a clock that does not run backwards, so none
/// before the fetch.
pub proof fn stale_exactly_from_ttl(entry: EntryModel, ttl_secs: u64, now: nat)
    requires
        entry.fetched_at <= now,
    ensures
        is_stale_at(entry, ttl_secs, now) <==> now >= entry.fetched_at + ttl_secs * NANOS_PER_SEC,
{
    let span = now - entry.fetched_at;
    assert(elapsed_secs(entry.fetched_at, now) == span / 1_000_000_000);
    assert(span / 1_000_000_000 >= ttl_secs <==> span >= ttl_secs * 1_000_000_000);
}

/// Once stale, an entry stays stale as time goes on.
pub proof fn stale_stays_stale(entry: EntryModel, ttl_secs: u64, now: nat, later: nat)
    requires
        now <= later,
        is_stale_at(entry, ttl_secs, now),
    ensures
        is_stale_at(entry, ttl_secs, later),
{
    if now >= entry.fetched_at {
        let span = now - entry.fetched_at;
        let longer = later - entry.fetched_at;
        assert(span / 1_000_000_000 <= longer / 1_000_000_000);
    }
}

/// A put under one key is not seen under another: what a lookup of `other`
/// finds, and what may be served for it at any moment, is what it was.
pub proof fn keys_are_isolated(
    store: StoreModel,
    key: Seq<char>,
    value: Value,
    now: nat,
    other: Seq<char>,
    ttl_secs: u64,
    at: nat,
)
    requires
        key != other,
    ensures
        model_get(model_put(store, key, value, now), other) == model_get(store, other),
        fresh_value(model_put(store, key, value, now), other, ttl_secs, at) == fresh_value(
            store,
            other,
            ttl_secs,
            at,
        ),
{
}

/// A second put under a key takes the place of the first: the store is the
/// one that the second put alone would have left, and a lookup finds the
/// second payload with the second moment, nothing of the first.
pub proof fn put_replaces(
    store: StoreModel,
    key: Seq<char>,
    first: Value,
    first_at: nat,
    second: Value,
    second_at: nat,
)
    ensures
        model_put(model_put(store, key, first, first_at), key, second, second_at) == model_put(
            store,
            key,
            second,
            second_at,
        ),
        model_get(model_put(model_put(store, key, first, first_at), key, second, second_at), key)
            == Some(EntryModel { value: second, fetched_at: second_at }),
{
    assert(model_put(model_put(store, key, first, first_at), key, second, second_at) =~= model_put(
        store,
        key,
        second,
        second_at,
    ));
}

/// One put, as a value: the key, the payload and the moment.
pub struct WriteModel {
    pub key: Seq<char>,
    pub value: Value,
    pub at: nat,
}

/// The store after the puts of `writes` were carried out one after the
/// other. Puts that run side by side under the store's lock are carried out
/// in some such order.
pub open spec fn model_put_all(store: StoreModel, writes: Seq<WriteModel>) -> StoreModel
    decreases writes.len(),
{
    if writes.len() == 0 {
        store
    } else {
        let last = writes.last();
        model_put(model_put_all(store, writes.drop_last()), last.key, last.value, last.at)
    }
}

/// Whether no two of `writes` go to the same key.
pub open spec fn distinct_keys(writes: Seq<WriteModel>) -> bool {
    forall|i: int, j: int|
        0 <= i < j < writes.len() ==> (#[trigger] writes[i]).key != (#[trigger] writes[j]).key
}

/// Whether one of `writes` goes to `key`.
pub open spec fn writes_to(writes: Seq<WriteModel>, key: Seq<char>) -> bool {
    exists|i: int| 0 <= i < writes.len() && (#[trigger] writes[i]).key == key
}

/// Puts under distinct keys all land: after them, each key holds the very
/// payload and moment of its own put.
pub proof fn distinct_writes_all_land(store: StoreModel, writes: Seq<WriteModel>, i: int)
    requires
        distinct_keys(writes),
        0 <= i < writes.len(),
    ensures
        model_get(model_put_all(store, writes), writes[i].key) == Some(
            EntryModel { value: writes[i].value, fetched_at: writes[i].at },
        ),
    decreases writes.len(),
{
    if i < writes.len() - 1 {
        let earlier = writes.drop_last();
        assert forall|a: int, b: int| 0 <= a < b < earlier.len() implies (#[trigger] earlier[a]).key
            != (#[trigger] earlier[b]).key by {
            assert(earlier[a] == writes[a] && earlier[b] == writes[b]);
        }
        assert(earlier[i] == writes[i]);
        distinct_writes_all_land(store, earlier, i);
        assert(writes[i].key != writes[writes.len() - 1].key);
    }
}

/// Puts leave every key alone that none of them goes to.
pub proof fn writes_leave_other_keys(store: StoreModel, writes: Seq<WriteModel>, key: Seq<char>)
    requires
        !writes_to(writes, key),
    ensures
        model_get(model_put_all(store, writes), key) == model_get(store, key),
    decreases writes.len(),
{
    if writes.len() > 0 {
        let earlier = writes.drop_last();
        assert(!writes_to(earlier, key)) by {
            if writes_to(earlier, key) {
                let i = choose|i: int| 0 <= i < earlier.len() && (#[trigger] earlier[i]).key == key;
                assert(writes[i].key == key);
            }
        }
        writes_leave_other_keys(store, earlier, key);
        assert(writes[writes.len() - 1].key != key);
    }
}

/// The order of puts under distinct keys does not matter: the same puts,
/// carried out in any two orders, leave the same store.
pub proof fn order_of_distinct_writes_is_immaterial(
    store: StoreModel,
    one: Seq<WriteModel>,
    other: Seq<WriteModel>,
)
    requires
        distinct_keys(one),
        distinct_keys(other),
        forall|w: WriteModel| one.contains(w) <==> other.contains(w),
    ensures
        model_put_all(store, one) == model_put_all(store, other),
{
    let left = model_put_all(store, one);
    let right = model_put_all(store, other);
    assert forall|key: Seq<char>| model_get(left, key) == model_get(right, key) by {
        if writes_to(one, key) {
            let i = choose|i: int| 0 <= i < one.len() && (#[trigger] one[i]).key == key;
            assert(one.contains(one[i]));
            assert(other.contains(one[i]));
            let j = choose|j: int| 0 <= j < other.len() && other[j] == one[i];
            distinct_writes_all_land(store, one, i);
            distinct_writes_all_land(store, other, j);
        } else {
            assert(!writes_to(other, key)) by {
                if writes_to(other, key) {
                    let j = choose|j: int| 0 <= j < other.len() && (#[trigger] other[j]).key == key;
                    assert(other.contains(other[j]));
                    assert(one.contains(other[j]));
                    let i = choose|i: int| 0 <= i < one.len() && one[i] == other[j];
                    assert(one[i].key == key);
                }
            }
            writes_leave_other_keys(store, one, key);
            writes_leave_other_keys(store, other, key);
        }
    }
    assert forall|key: Seq<char>| left.contains_key(key) == right.contains_key(key) by {
        assert(model_get(left, key) == model_get(right, key));
    }
    assert forall|key: Seq<char>| left.contains_key(key) implies left[key] == right[key] by {
        assert(model_get(left, key) == model_get(right, key));
    }
    assert(left =~= right);
}

/// The key of the current conditions is the key of no forecast.
pub proof fn current_key_is_no_forecast_key(geocode: Seq<char>, language: Seq<char>)
    ensures
        cache_key_of(ResourceModel::Current) != cache_key_of(
            ResourceModel::Forecast { geocode, language },
        ),
{
    reveal_strlit("current");
    reveal_strlit("forecast");
    let current = cache_key_of(ResourceModel::Current);
    let forecast = cache_key_of(ResourceModel::Forecast { geocode, language });
    assert(current[0] == 'c');
    assert(forecast[0] == 'f');
}

/// Two forecasts share a key only if they are for the same place in the
/// same language, as long as neither place is written with an underscore,
/// the character that keeps the parts of a key apart.
pub proof fn forecast_keys_tell_requests_apart(
    geocode: Seq<char>,
    language: Seq<char>,
    other_geocode: Seq<char>,
    other_language: Seq<char>,
)
    requires
        !geocode.contains('_'),
        !other_geocode.contains('_'),
        cache_key_of(ResourceModel::Forecast { geocode, language }) == cache_key_of(
            ResourceModel::Forecast { geocode: other_geocode, language: other_language },
        ),
    ensures
        geocode == other_geocode,
        language == other_language,
{
    reveal_strlit("forecast");
    reveal_strlit("_");
    let key = cache_key_of(ResourceModel::Forecast { geocode, language });
    let other_key = cache_key_of(
        ResourceModel::Forecast { geocode: other_geocode, language: other_language },
    );
    let lead = 9int;
    assert(key.len() == lead + geocode.len() + 1 + language.len());
    assert(other_key.len() == lead + other_geocode.len() + 1 + other_language.len());
    assert(key[lead + geocode.len()] == '_');
    assert(other_key[lead + other_geocode.len()] == '_');
    if geocode.len() < other_geocode.len() {
        assert(other_key[lead + geocode.len()] == other_geocode[geocode.len() as int]);
        assert(other_geocode.contains(other_geocode[geocode.len() as int]));
    }
    if other_geocode.len() < geocode.len() {
        assert(key[lead + other_geocode.len()] == geocode[other_geocode.len() as int]);
        assert(geocode.contains(geocode[other_geocode.len() as int]));
    }
    assert forall|i: int| 0 <= i < geocode.len() implies geocode[i] == other_geocode[i] by {
        assert(key[lead + i] == geocode[i]);
        assert(other_key[lead + i] == other_geocode[i]);
    }
    assert(geocode =~= other_geocode);
    assert forall|i: int| 0 <= i < language.len() implies language[i] == other_language[i] by {
        assert(key[lead + geocode.len() + 1 + i] == language[i]);
        assert(other_key[lead + geocode.len() + 1 + i] == other_language[i]);
    }
    assert(language =~= other_language);
}

/// One whole request for `resource`: the look at the store at `asked_at`
/// and, where that look asks for a fetch, the fetch that came back with
/// `outcome` at `settled_at`. Yields the store and the reply.
pub open spec fn served(
    store: StoreModel,
    config: ConfigModel,
    resource: ResourceModel,
    asked_at: nat,
    outcome: Result<Value, FetchError>,
    settled_at: nat,
) -> (StoreModel, Reply) {
    match action_on_request(store, config, resource, asked_at) {
        ActionModel::Respond(value) => (store, Reply::Payload(value)),
        ActionModel::Fetch(_) => (
            store_after_fetch(store, cache_key_of(resource), outcome, settled_at),
            reply_after_fetch(outcome),
        ),
    }
}

/// A request that was answered with a payload leaves that payload in the
/// store, and a second request for the same resource, coming while the entry
/// is not stale and with no put in between, is answered from the store with
/// the same payload: no second fetch is asked for.
pub proof fn repeat_within_ttl_is_served_from_store(
    store: StoreModel,
    config: ConfigModel,
    resource: ResourceModel,
    asked_at: nat,
    outcome: Result<Value, FetchError>,
    settled_at: nat,
    payload: Value,
    again_at: nat,
)
    requires
        served(store, config, resource, asked_at, outcome, settled_at).1 == Reply::Payload(payload),
        !is_stale_at(
            served(store, config, resource, asked_at, outcome, settled_at).0[cache_key_of(
                resource,
            )],
            config.cache_duration_secs,
            again_at,
        ),
    ensures
        served(store, config, resource, asked_at, outcome, settled_at).0.contains_key(
            cache_key_of(resource),
        ),
        action_on_request(
            served(store, config, resource, asked_at, outcome, settled_at).0,
            config,
            resource,
            again_at,
        ) == ActionModel::Respond(payload),
{
}

/// A fetch that failed is not cached: the store is as it was, the reply is
/// the failure, and where the key was absent the next request for the
/// resource asks for the fetch again.
pub proof fn failed_fetch_is_not_cached(
    store: StoreModel,
    config: ConfigModel,
    resource: ResourceModel,
    error: FetchError,
    now: nat,
    later: nat,
)
    ensures
        store_after_fetch(store, cache_key_of(resource), Err(error), now) == store,
        reply_after_fetch(Err(error)) == Reply::UpstreamFailure(error),
        !store.contains_key(cache_key_of(resource)) ==> action_on_request(
            store_after_fetch(store, cache_key_of(resource), Err(error), now),
            config,
            resource,
            later,
        ) == ActionModel::Fetch(request_of(resource, config)),
{
}

} // verus!
