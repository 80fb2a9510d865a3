//! The routes the proxy knows, kept in a least-recently-used cache of bounded size.
use crate::protocol::{RouteInfo, RouteInfoRequest, RouteInfoResponse};
use crate::types::BearerToken;
use lru::LruCache;
use std::num::NonZeroUsize;
use vstd::prelude::*;

verus! {

/// The cache that holds the routes, by token.
pub type RouteCache = LruCache<String, Option<RouteInfo>>;

/// How many routes the cache holds at most.
pub const CACHE_SIZE: usize = 1000;

#[verifier::external_type_specification]
#[verifier::external_body]
#[verifier::reject_recursive_types(K)]
#[verifier::reject_recursive_types(V)]
#[verifier::reject_recursive_types(S)]
pub struct ExLruCache<K, V, S>(lru::LruCache<K, V, S>);

#[verifier::external_type_specification]
#[verifier::external_body]
pub struct ExLruDefaultHasher(lru::DefaultHasher);

/// What a route cache holds: for each token it knows, the route (or `None`
/// for a token known to name no backend).
pub uninterp spec fn route_cache_entries(cache: LruCache<String, Option<RouteInfo>>) -> Map<
    Seq<char>,
    Option<RouteInfo>,
>;

/// The capacity a route cache was made with.
pub uninterp spec fn route_cache_capacity(cache: LruCache<String, Option<RouteInfo>>) -> nat;

/// How the entries change when `key` is pushed with `value` into a cache of
/// capacity `cap`: a known key, or a cache with room, takes the pair in; a
/// full cache first gives up one other entry.
pub open spec fn pushed(
    before: Map<Seq<char>, Option<RouteInfo>>,
    cap: nat,
    key: Seq<char>,
    value: Option<RouteInfo>,
    after: Map<Seq<char>, Option<RouteInfo>>,
) -> bool {
    if before.dom().contains(key) || before.len() < cap {
        after == before.insert(key, value)
    } else {
        exists|evicted: Seq<char>|
            #![trigger before.remove(evicted)]
            before.dom().contains(evicted) && evicted != key && after == before.remove(evicted).insert(
                key,
                value,
            )
    }
}

/// `lru::LruCache::new`: an empty cache that holds at most `capacity` entries.
#[verifier::external_body]
fn new_route_cache(capacity: usize) -> (r: RouteCache)
    requires
        capacity > 0,
    ensures
        route_cache_entries(r).dom() == Set::<Seq<char>>::empty(),
        route_cache_capacity(r) == capacity,
{
    LruCache::new(NonZeroUsize::new(capacity).unwrap())
}

/// `lru::LruCache::get`: the value of `key`, if the cache holds it. Only the
/// order of use changes; the entries stay as they were.
#[verifier::external_body]
fn route_cache_get(cache: &mut LruCache<String, Option<RouteInfo>>, key: &String) -> (r: Option<
    Option<RouteInfo>,
>)
    ensures
        route_cache_entries(*final(cache)) == route_cache_entries(*old(cache)),
        route_cache_capacity(*final(cache)) == route_cache_capacity(*old(cache)),
        r == (if route_cache_entries(*old(cache)).dom().contains(key@) {
            Some(route_cache_entries(*old(cache))[key@])
        } else {
            None
        }),
{
    cache.get(key).cloned()
}

/// `lru::LruCache::push`: the pair goes in; a full cache that does not know the
/// key gives up its least recently used entry. The cache stays within its capacity.
#[verifier::external_body]
fn route_cache_push(
    cache: &mut LruCache<String, Option<RouteInfo>>,
    key: String,
    value: Option<RouteInfo>,
)
    ensures
        route_cache_capacity(*final(cache)) == route_cache_capacity(*old(cache)),
        route_cache_entries(*old(cache)).dom().finite() ==> pushed(
            route_cache_entries(*old(cache)),
            route_cache_capacity(*old(cache)),
            key@,
            value,
            route_cache_entries(*final(cache)),
        ),
        route_cache_entries(*final(cache)).dom().finite(),
        route_cache_entries(*final(cache)).len() <= route_cache_capacity(*final(cache)),
{
    cache.push(key, value);
}

/// The routes the proxy knows.
pub struct RouteMap {
    routes: LruCache<String, Option<RouteInfo>>,
}

/// What a lookup does first: answer from the cache, or ask the controller.
#[derive(Debug)]
pub enum LookupStart {
    /// The cache knows the token: its route, or `None` for a token that names no backend.
    Cached(Option<RouteInfo>),
    /// The cache does not know the token: this request goes to the controller.
    Ask(RouteInfoRequest),
}

impl RouteMap {
    /// The routes the map holds, by token.
    pub closed spec fn entries(&self) -> Map<Seq<char>, Option<RouteInfo>> {
        route_cache_entries(self.routes)
    }

    /// The map holds at most `CACHE_SIZE` routes.
    pub closed spec fn wf(&self) -> bool {
        &&& route_cache_capacity(self.routes) == CACHE_SIZE
        &&& self.entries().dom().finite()
        &&& self.entries().len() <= CACHE_SIZE
    }

    pub fn new() -> (r: Self)
        ensures
            r.wf(),
            r.entries() == Map::<Seq<char>, Option<RouteInfo>>::empty(),
    {
        let r = RouteMap { routes: new_route_cache(CACHE_SIZE) };
        proof {
            assert(r.entries() =~= Map::<Seq<char>, Option<RouteInfo>>::empty());
        }
        r
    }

    /// The cached answer for `token`, if there is one.
    pub fn cached(&mut self, token: &BearerToken) -> (r: Option<Option<RouteInfo>>)
        requires
            old(self).wf(),
        ensures
            final(self).wf(),
            final(self).entries() == old(self).entries(),
            r == (if old(self).entries().dom().contains(token@) {
                Some(old(self).entries()[token@])
            } else {
                None
            }),
    {
        let key = token.to_string();
        route_cache_get(&mut self.routes, &key)
    }

    /// Starts a lookup: the cached answer, or the request to send to the controller.
    pub fn start_lookup(&mut self, token: &BearerToken) -> (r: LookupStart)
        requires
            old(self).wf(),
        ensures
            final(self).wf(),
            final(self).entries() == old(self).entries(),
            match r {
                LookupStart::Cached(route) => old(self).entries().dom().contains(token@)
                    && route == old(self).entries()[token@],
                LookupStart::Ask(request) => !old(self).entries().dom().contains(token@)
                    && request.token@ == token@,
            },
    {
        match self.cached(token) {
            Some(route) => LookupStart::Cached(route),
            None => LookupStart::Ask(RouteInfoRequest { token: token.clone() }),
        }
    }

    /// The route of `token` once the controller's reply has been taken in:
    /// `None` when the cache does not know the token or knows it names no backend.
    pub fn finish_lookup(&mut self, token: &BearerToken) -> (r: Option<RouteInfo>)
        requires
            old(self).wf(),
        ensures
            final(self).wf(),
            final(self).entries() == old(self).entries(),
            r == (if old(self).entries().dom().contains(token@) {
                old(self).entries()[token@]
            } else {
                None
            }),
    {
        match self.cached(token) {
            Some(route) => route,
            None => None,
        }
    }

    /// Records the route of `token`.
    pub fn insert(&mut self, token: BearerToken, route_info: Option<RouteInfo>)
        requires
            old(self).wf(),
        ensures
            final(self).wf(),
            pushed(old(self).entries(), CACHE_SIZE as nat, token@, route_info, final(self).entries()),
    {
        let key = token.to_string();
        route_cache_push(&mut self.routes, key, route_info);
    }

    /// Takes in the controller's reply to a route request.
    pub fn receive(&mut self, response: RouteInfoResponse)
        requires
            old(self).wf(),
        ensures
            final(self).wf(),
            pushed(
                old(self).entries(),
                CACHE_SIZE as nat,
                response.token@,
                response.route_info,
                final(self).entries(),
            ),
    {
        self.insert(response.token, response.route_info);
    }
}

/// A read after a write gives back what was written: once a route is recorded
/// for a token, the cache holds that route for it, whatever it may have evicted.
pub proof fn law_read_after_insert(
    before: Map<Seq<char>, Option<RouteInfo>>,
    cap: nat,
    key: Seq<char>,
    value: Option<RouteInfo>,
    after: Map<Seq<char>, Option<RouteInfo>>,
)
    requires
        pushed(before, cap, key, value, after),
    ensures
        after.dom().contains(key),
        after[key] == value,
{
    if !(before.dom().contains(key) || before.len() < cap) {
        let e = choose|e: Seq<char>|
            #![trigger before.remove(e)]
            before.dom().contains(e) && e != key && after == before.remove(e).insert(key, value);
    }
}

/// Recording a route forgets at most one other token, and changes no other
/// token's route.
pub proof fn law_insert_keeps_other_routes(
    before: Map<Seq<char>, Option<RouteInfo>>,
    cap: nat,
    key: Seq<char>,
    value: Option<RouteInfo>,
    after: Map<Seq<char>, Option<RouteInfo>>,
    other: Seq<char>,
)
    requires
        pushed(before, cap, key, value, after),
        other != key,
        after.dom().contains(other),
    ensures
        before.dom().contains(other),
        after[other] == before[other],
{
    if !(before.dom().contains(key) || before.len() < cap) {
        let e = choose|e: Seq<char>|
            #![trigger before.remove(e)]
            before.dom().contains(e) && e != key && after == before.remove(e).insert(key, value);
    }
}

} // verus!
