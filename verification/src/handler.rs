//! What a request handler decides, read-through: serve from the store while
//! the entry is fresh, else have the resource fetched, keep a good answer and
//! pass a failure on without keeping anything.
//!
//! A handler takes two turns. [`on_request`] looks at the store and either
//! answers or names the call to make. The caller makes that call, holding no
//! lock on the store, and has [`interpret`](crate::upstream::interpret) judge
//! what came of it. [`on_fetched`] then settles the store and the reply.

use crate::cache::{is_stale_at, model_get, model_put, CacheStore, StoreModel};
use crate::clock::Timestamp;
use crate::config::{AppConfig, ConfigModel};
use crate::upstream::{
    cache_key_of, request_of, FetchError, Request, RequestModel, Resource, ResourceModel,
};
use serde_json::Value;
use vstd::prelude::*;

verus! {

/// What goes back to the client.
#[derive(Debug)]
pub enum Reply {
    /// The provider's document, as it was fetched.
    Payload(Value),
    /// The resource could not be fetched.
    UpstreamFailure(FetchError),
}

/// The HTTP status that goes with a reply: 200 with a payload, 502 where the
/// provider let the service down.
pub open spec fn status_of(reply: Reply) -> u16 {
    match reply {
        Reply::Payload(_) => 200,
        Reply::UpstreamFailure(_) => 502,
    }
}

impl Reply {
    /// The HTTP status that goes with this reply.
    pub fn status_code(&self) -> (status: u16)
        ensures
            status == status_of(*self),
    {
        match self {
            Reply::Payload(_) => 200,
            Reply::UpstreamFailure(_) => 502,
        }
    }
}

/// What a handler does next, after its look at the store.
#[derive(Debug)]
pub enum Action {
    /// Answer with this payload; no call is made.
    Respond(Value),
    /// Make this call, then come back with what came of it.
    Fetch(Request),
}

/// What an action is, to a contract.
pub enum ActionModel {
    Respond(Value),
    Fetch(RequestModel),
}

impl View for Action {
    type V = ActionModel;

    open spec fn view(&self) -> ActionModel {
        match self {
            Action::Respond(value) => ActionModel::Respond(*value),
            Action::Fetch(request) => ActionModel::Fetch(request@),
        }
    }
}

/// The payload under `key` that may be served at `now`: the one of an entry
/// that is there and not stale.
pub open spec fn fresh_value(store: StoreModel, key: Seq<char>, ttl_secs: u64, now: nat) -> Option<
    Value,
> {
    match model_get(store, key) {
        Some(entry) => if is_stale_at(entry, ttl_secs, now) {
            None
        } else {
            Some(entry.value)
        },
        None => None,
    }
}

/// What a handler does with a request for `resource` that arrives at `now`.
pub open spec fn action_on_request(
    store: StoreModel,
    config: ConfigModel,
    resource: ResourceModel,
    now: nat,
) -> ActionModel {
    match fresh_value(store, cache_key_of(resource), config.cache_duration_secs, now) {
        Some(value) => ActionModel::Respond(value),
        None => ActionModel::Fetch(request_of(resource, config)),
    }
}

/// The store after a fetch for `key` came back with `outcome` at `now`: a
/// payload is put under the key, a failure leaves the store as it was.
pub open spec fn store_after_fetch(
    store: StoreModel,
    key: Seq<char>,
    outcome: Result<Value, FetchError>,
    now: nat,
) -> StoreModel {
    match outcome {
        Ok(value) => model_put(store, key, value, now),
        Err(_) => store,
    }
}

/// The reply after a fetch came back with `outcome`.
pub open spec fn reply_after_fetch(outcome: Result<Value, FetchError>) -> Reply {
    match outcome {
        Ok(value) => Reply::Payload(value),
        Err(error) => Reply::UpstreamFailure(error),
    }
}

/// First turn: decides, from the store as it stands at `now`, whether the
/// request for `resource` is answered from the store or has to be fetched.
pub fn on_request(store: &CacheStore, config: &AppConfig, resource: &Resource, now: Timestamp) -> (action:
    Action)
    ensures
        action@ == action_on_request(store@, config@, resource@, now@),
{
    let key = resource.cache_key();
    match store.get(key.as_str()) {
        Some(entry) => {
            if entry.is_stale(config.cache_duration_secs(), now) {
                Action::Fetch(resource.request(config))
            } else {
                Action::Respond(entry.value().clone())
            }
        },
        None => Action::Fetch(resource.request(config)),
    }
}

/// Second turn: settles a fetch for `resource` that came back with `outcome`
/// at `now`.
pub fn on_fetched(
    store: &mut CacheStore,
    resource: &Resource,
    outcome: Result<Value, FetchError>,
    now: Timestamp,
) -> (reply: Reply)
    ensures
        final(store)@ == store_after_fetch(old(store)@, cache_key_of(resource@), outcome, now@),
        reply == reply_after_fetch(outcome),
{
    match outcome {
        Ok(value) => {
            store.put(resource.cache_key(), value.clone(), now);
            Reply::Payload(value)
        },
        Err(error) => Reply::UpstreamFailure(error),
    }
}

} // verus!
