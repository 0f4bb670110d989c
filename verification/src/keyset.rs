//! The key-set cache: the identity provider's signing keys, held locally.
//!
//! The cache does no I/O. A lookup answers with a key, or tells its caller to
//! fetch the provider's key set, or to wait for a fetch that another caller
//! has under way; the caller hands the fetched key set back, and the cache
//! swaps it in whole.
//!
//! Cached keys do not expire: a key is served until a fetched key set that
//! lacks it replaces the cache.
//!
//! Callers that share a cache reach it one at a time, each holding it for one
//! call. What many concurrent callers see is therefore what a sequence of
//! calls gives, in whatever order they arrive: the laws at the end of this
//! file speak of every such sequence.

use crate::error::{AuthError, AuthErrorView};
use vstd::prelude::*;

verus! {

/// A public verification key as the identity provider publishes it.
#[derive(Debug)]
pub struct SigningKey {
    /// The key's identifier.
    pub kid: String,
    /// The signature algorithm that the key is for.
    pub alg: String,
    /// The key type.
    pub kty: String,
    /// What the key is used for.
    pub use_key: String,
    /// The modulus, base64url-encoded.
    pub n: String,
    /// The public exponent, base64url-encoded.
    pub e: String,
}

/// The mathematical value of a [`SigningKey`].
pub struct SigningKeyView {
    pub kid: Seq<char>,
    pub alg: Seq<char>,
    pub kty: Seq<char>,
    pub use_key: Seq<char>,
    pub n: Seq<char>,
    pub e: Seq<char>,
}

impl View for SigningKey {
    type V = SigningKeyView;

    open spec fn view(&self) -> SigningKeyView {
        SigningKeyView {
            kid: self.kid@,
            alg: self.alg@,
            kty: self.kty@,
            use_key: self.use_key@,
            n: self.n@,
            e: self.e@,
        }
    }
}

impl SigningKey {
    /// A copy of the key.
    pub fn duplicate(&self) -> (key: SigningKey)
        ensures
            key@ == self@,
    {
        SigningKey {
            kid: self.kid.clone(),
            alg: self.alg.clone(),
            kty: self.kty.clone(),
            use_key: self.use_key.clone(),
            n: self.n.clone(),
            e: self.e.clone(),
        }
    }
}

/// The mathematical values of a list of keys.
pub open spec fn key_views(keys: Seq<SigningKey>) -> Seq<SigningKeyView> {
    Seq::new(keys.len(), |i: int| keys[i]@)
}

/// The keys of a published key set by key id. Where the set holds several
/// keys under one id, the last one counts.
pub open spec fn key_map(keys: Seq<SigningKeyView>) -> Map<Seq<char>, SigningKeyView>
    decreases keys.len(),
{
    if keys.len() == 0 {
        Map::empty()
    } else {
        key_map(keys.drop_last()).insert(keys.last().kid, keys.last())
    }
}

/// The state of the cache: the keys of the key set fetched last, when that
/// was, and whether a fetch is under way.
pub struct KeySetView {
    pub keys: Map<Seq<char>, SigningKeyView>,
    pub fetched_at: Option<u64>,
    pub fetching: bool,
}

/// What a lookup tells its caller.
#[derive(Debug)]
pub enum Lookup {
    /// The key is cached: here it is.
    Hit(SigningKey),
    /// The key is not cached and no fetch is under way: fetch the key set.
    Fetch,
    /// The key is not cached and a fetch is under way: wait for it to end.
    Wait,
}

/// The mathematical value of a [`Lookup`].
pub enum LookupView {
    Hit(SigningKeyView),
    Fetch,
    Wait,
}

impl View for Lookup {
    type V = LookupView;

    open spec fn view(&self) -> LookupView {
        match self {
            Lookup::Hit(key) => LookupView::Hit(key@),
            Lookup::Fetch => LookupView::Fetch,
            Lookup::Wait => LookupView::Wait,
        }
    }
}

/// The cache before anything was fetched.
pub open spec fn cold() -> KeySetView {
    KeySetView { keys: Map::empty(), fetched_at: None, fetching: false }
}

/// A lookup of `key_id`: the state after it and the answer.
pub open spec fn requested(cache: KeySetView, key_id: Seq<char>) -> (KeySetView, LookupView) {
    if cache.keys.dom().contains(key_id) {
        (cache, LookupView::Hit(cache.keys[key_id]))
    } else if cache.fetching {
        (cache, LookupView::Wait)
    } else {
        (KeySetView { fetching: true, ..cache }, LookupView::Fetch)
    }
}

/// The end of a fetch. A fetched key set replaces the cached keys whole; a
/// failed fetch leaves them as they are.
pub open spec fn completed(
    cache: KeySetView,
    fetched: Option<Seq<SigningKeyView>>,
    now: u64,
) -> KeySetView {
    match fetched {
        Some(keys) => KeySetView { keys: key_map(keys), fetched_at: Some(now), fetching: false },
        None => KeySetView { fetching: false, ..cache },
    }
}

/// The answer to a caller whose lookup led to a fetch, once the fetch has
/// ended: the key where the cache now holds it; else unknown where the fetch
/// brought a key set, and unavailable where it failed.
pub open spec fn resolved(cache: KeySetView, key_id: Seq<char>, fetch_succeeded: bool) -> Result<
    SigningKeyView,
    AuthErrorView,
> {
    if cache.keys.dom().contains(key_id) {
        Ok(cache.keys[key_id])
    } else if fetch_succeeded {
        Err(AuthErrorView::UnknownSigningKey)
    } else {
        Err(AuthErrorView::ProviderUnavailable)
    }
}

/// How many fetches a run of lookups starts, no fetch ending in between.
pub open spec fn fetches_started(cache: KeySetView, key_ids: Seq<Seq<char>>) -> nat
    decreases key_ids.len(),
{
    if key_ids.len() == 0 {
        0
    } else {
        let (next, answer) = requested(cache, key_ids.first());
        let started: nat = if answer is Fetch {
            1
        } else {
            0
        };
        started + fetches_started(next, key_ids.drop_first())
    }
}

/// The state after a run of lookups, no fetch ending in between.
pub open spec fn after_lookups(cache: KeySetView, key_ids: Seq<Seq<char>>) -> KeySetView
    decreases key_ids.len(),
{
    if key_ids.len() == 0 {
        cache
    } else {
        after_lookups(requested(cache, key_ids.first()).0, key_ids.drop_first())
    }
}

proof fn lemma_key_map_absent(keys: Seq<SigningKeyView>, key_id: Seq<char>)
    requires
        forall|j: int| 0 <= j < keys.len() ==> (#[trigger] keys[j]).kid != key_id,
    ensures
        !key_map(keys).dom().contains(key_id),
    decreases keys.len(),
{
    if keys.len() > 0 {
        lemma_key_map_absent(keys.drop_last(), key_id);
    }
}

proof fn lemma_key_map_last(keys: Seq<SigningKeyView>, key_id: Seq<char>, at: int)
    requires
        0 <= at < keys.len(),
        keys[at].kid == key_id,
        forall|j: int| at < j < keys.len() ==> (#[trigger] keys[j]).kid != key_id,
    ensures
        key_map(keys).dom().contains(key_id),
        key_map(keys)[key_id] == keys[at],
    decreases keys.len(),
{
    if at < keys.len() - 1 {
        lemma_key_map_last(keys.drop_last(), key_id, at);
    }
}

/// The key-set cache.
#[derive(Debug)]
pub struct KeySetCache {
    keys: Vec<SigningKey>,
    fetched_at: Option<u64>,
    fetching: bool,
}

impl View for KeySetCache {
    type V = KeySetView;

    closed spec fn view(&self) -> KeySetView {
        KeySetView {
            keys: key_map(key_views(self.keys@)),
            fetched_at: self.fetched_at,
            fetching: self.fetching,
        }
    }
}

impl KeySetCache {
    /// An empty cache: nothing fetched, no fetch under way.
    pub fn new() -> (cache: KeySetCache)
        ensures
            cache@ == cold(),
    {
        let cache = KeySetCache { keys: Vec::new(), fetched_at: None, fetching: false };
        assert(key_views(cache.keys@) =~= Seq::empty());
        cache
    }

    /// When the cached key set was fetched; `None` before the first fetch.
    pub fn fetched_at(&self) -> (at: Option<u64>)
        ensures
            at == self@.fetched_at,
    {
        self.fetched_at
    }

    /// Whether a fetch is under way.
    pub fn is_fetching(&self) -> (fetching: bool)
        ensures
            fetching == self@.fetching,
    {
        self.fetching
    }

    /// The cached key for `key_id`, if there is one. The cache is left as it is.
    pub fn get_key(&self, key_id: &str) -> (found: Option<SigningKey>)
        ensures
            found is Some <==> self@.keys.dom().contains(key_id@),
            found matches Some(key) ==> key@ == self@.keys[key_id@],
    {
        let wanted = key_id.to_owned();
        let ghost views = key_views(self.keys@);
        let mut i: usize = self.keys.len();
        while i > 0
            invariant
                i <= self.keys.len(),
                wanted@ == key_id@,
                views == key_views(self.keys@),
                forall|j: int| i <= j < views.len() ==> (#[trigger] views[j]).kid != key_id@,
            decreases i,
        {
            i = i - 1;
            if self.keys[i].kid == wanted {
                proof {
                    lemma_key_map_last(views, key_id@, i as int);
                }
                return Some(self.keys[i].duplicate());
            }
        }
        proof {
            lemma_key_map_absent(views, key_id@);
        }
        None
    }

    /// Looks `key_id` up for a caller that needs the key. A cached key is
    /// handed out. Otherwise the caller is told to fetch the key set, and the
    /// cache notes that a fetch is under way; or, where one already is, to
    /// wait for it.
    pub fn request(&mut self, key_id: &str) -> (answer: Lookup)
        ensures
            (final(self)@, answer@) == requested(old(self)@, key_id@),
    {
        match self.get_key(key_id) {
            Some(key) => Lookup::Hit(key),
            None => {
                if self.fetching {
                    Lookup::Wait
                } else {
                    self.fetching = true;
                    Lookup::Fetch
                }
            },
        }
    }

    /// Ends a fetch. On a fetched key set the cached keys are replaced whole
    /// and `now` is noted as the time of the fetch; on a failure (`None`) the
    /// cached keys stay as they are.
    pub fn complete_fetch(&mut self, fetched: Option<Vec<SigningKey>>, now: u64)
        ensures
            final(self)@ == completed(
                old(self)@,
                match fetched {
                    Some(keys) => Some(key_views(keys@)),
                    None => None,
                },
                now,
            ),
    {
        match fetched {
            Some(keys) => {
                self.keys = keys;
                self.fetched_at = Some(now);
                self.fetching = false;
            },
            None => {
                self.fetching = false;
            },
        }
    }

    /// Answers a caller whose lookup led to a fetch, once that fetch has ended.
    pub fn after_fetch(&self, key_id: &str, fetch_succeeded: bool) -> (answer: Result<
        SigningKey,
        AuthError,
    >)
        ensures
            match answer {
                Ok(key) => Ok::<SigningKeyView, AuthErrorView>(key@),
                Err(error) => Err(error@),
            } == resolved(self@, key_id@, fetch_succeeded),
    {
        match self.get_key(key_id) {
            Some(key) => Ok(key),
            None => if fetch_succeeded {
                Err(AuthError::UnknownSigningKey)
            } else {
                Err(AuthError::ProviderUnavailable)
            },
        }
    }
}

/// Lookups of cached keys start no fetch and leave the cache as it is,
/// however many callers make them.
pub proof fn lemma_cached_lookups_start_no_fetch(cache: KeySetView, key_ids: Seq<Seq<char>>)
    requires
        forall|i: int| 0 <= i < key_ids.len() ==> cache.keys.dom().contains(#[trigger] key_ids[i]),
    ensures
        fetches_started(cache, key_ids) == 0,
        after_lookups(cache, key_ids) == cache,
    decreases key_ids.len(),
{
    if key_ids.len() > 0 {
        lemma_cached_lookups_start_no_fetch(cache, key_ids.drop_first());
    }
}

/// After a fetch that brought a key, lookups of that key are answered from the
/// cache: each is a hit with the fetched key, and none starts a fetch.
pub proof fn lemma_fetched_key_is_served(
    cache: KeySetView,
    keys: Seq<SigningKeyView>,
    now: u64,
    key_id: Seq<char>,
    lookups: nat,
)
    requires
        key_map(keys).dom().contains(key_id),
    ensures
        requested(completed(cache, Some(keys), now), key_id) == (
            completed(cache, Some(keys), now),
            LookupView::Hit(key_map(keys)[key_id]),
        ),
        fetches_started(
            completed(cache, Some(keys), now),
            Seq::new(lookups, |i: int| key_id),
        ) == 0,
{
    lemma_cached_lookups_start_no_fetch(
        completed(cache, Some(keys), now),
        Seq::new(lookups, |i: int| key_id),
    );
}

/// Lookups of keys that are not cached, made by any number of callers before
/// a fetch ends, start exactly one fetch between them: the first caller is
/// told to fetch where none is under way, and every other caller to wait.
pub proof fn lemma_misses_start_one_fetch(cache: KeySetView, key_ids: Seq<Seq<char>>)
    requires
        key_ids.len() > 0,
        forall|i: int| 0 <= i < key_ids.len() ==> !cache.keys.dom().contains(#[trigger] key_ids[i]),
    ensures
        fetches_started(cache, key_ids) == if cache.fetching {
            0nat
        } else {
            1nat
        },
        after_lookups(cache, key_ids) == (KeySetView { fetching: true, ..cache }),
    decreases key_ids.len(),
{
    let next = requested(cache, key_ids.first()).0;
    let rest = key_ids.drop_first();
    assert(!cache.keys.dom().contains(key_ids[0]));
    assert(next == KeySetView { fetching: true, ..cache });
    if rest.len() == 0 {
        assert(fetches_started(next, rest) == 0);
        assert(after_lookups(next, rest) == next);
    } else {
        assert forall|i: int| 0 <= i < rest.len() implies !next.keys.dom().contains(
            #[trigger] rest[i],
        ) by {
            assert(rest[i] == key_ids[i + 1]);
        }
        lemma_misses_start_one_fetch(next, rest);
    }
}

/// A failed fetch on a cold cache leaves the cache empty: the caller that
/// asked is told that the provider is unavailable, nothing is cached, and the
/// next lookup starts a fetch again. When that fetch succeeds the cache holds
/// the fetched key set, as if nothing had failed before.
pub proof fn lemma_failed_fetch_leaves_cold_cache(
    key_id: Seq<char>,
    failed_at: u64,
    keys: Seq<SigningKeyView>,
    fetched_at: u64,
)
    ensures
        ({
            let asked = requested(cold(), key_id);
            let failed = completed(asked.0, None, failed_at);
            let asked_again = requested(failed, key_id);
            let filled = completed(asked_again.0, Some(keys), fetched_at);
            &&& asked.1 == LookupView::Fetch
            &&& failed == cold()
            &&& resolved(failed, key_id, false) == Err::<SigningKeyView, AuthErrorView>(
                AuthErrorView::ProviderUnavailable,
            )
            &&& asked_again.1 == LookupView::Fetch
            &&& filled == KeySetView {
                keys: key_map(keys),
                fetched_at: Some(fetched_at),
                fetching: false,
            }
            &&& key_map(keys).dom().contains(key_id) ==> resolved(filled, key_id, true) == Ok::<
                SigningKeyView,
                AuthErrorView,
            >(key_map(keys)[key_id])
        }),
{
}

/// A failed fetch takes no cached key away: whatever was cached before is
/// still served after it.
pub proof fn lemma_failed_fetch_keeps_keys(cache: KeySetView, now: u64, key_id: Seq<char>)
    ensures
        completed(cache, None, now).keys == cache.keys,
        completed(cache, None, now).fetched_at == cache.fetched_at,
        cache.keys.dom().contains(key_id) ==> requested(completed(cache, None, now), key_id).1
            == LookupView::Hit(cache.keys[key_id]),
{
}

} // verus!
