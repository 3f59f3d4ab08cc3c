//! The identity provider's signing keys: the key set, its construction from a
//! fetched document, and the cache that decides when to fetch again.

use vstd::prelude::*;
use crate::error::AuthError;

verus! {

/// An RSA public key as published: identifier, base64url modulus and exponent.
pub struct RsaKey {
    pub kid: String,
    pub n: String,
    pub e: String,
}

pub ghost struct KeyView {
    pub kid: Seq<char>,
    pub n: Seq<char>,
    pub e: Seq<char>,
}

impl View for RsaKey {
    type V = KeyView;

    open spec fn view(&self) -> KeyView {
        KeyView { kid: self.kid@, n: self.n@, e: self.e@ }
    }
}

/// One entry of a key-set document's `keys` array, each field present only if
/// the document gave it as a string.
pub struct RawKey {
    pub kid: Option<String>,
    pub n: Option<String>,
    pub e: Option<String>,
}

pub open spec fn raw_complete(k: RawKey) -> bool {
    k.kid is Some && k.n is Some && k.e is Some
}

pub open spec fn raw_to_view(k: RawKey) -> KeyView {
    KeyView { kid: k.kid.unwrap()@, n: k.n.unwrap()@, e: k.e.unwrap()@ }
}

/// The keys that the complete entries of `raw` describe, in document order.
pub open spec fn keys_of_entries(raw: Seq<RawKey>) -> Seq<KeyView>
    decreases raw.len(),
{
    if raw.len() == 0 {
        Seq::empty()
    } else {
        let rest = keys_of_entries(raw.drop_last());
        if raw_complete(raw.last()) { rest.push(raw_to_view(raw.last())) } else { rest }
    }
}

/// The first key of `keys` whose identifier is `kid`.
pub open spec fn find_key_spec(keys: Seq<KeyView>, kid: Seq<char>) -> Option<KeyView>
    decreases keys.len(),
{
    if keys.len() == 0 {
        None
    } else if keys[0].kid == kid {
        Some(keys[0])
    } else {
        find_key_spec(keys.drop_first(), kid)
    }
}

/// A snapshot of the provider's published keys.
pub struct SigningKeySet {
    keys: Vec<RsaKey>,
}

impl View for SigningKeySet {
    type V = Seq<KeyView>;

    closed spec fn view(&self) -> Seq<KeyView> {
        self.keys@.map_values(|k: RsaKey| k@)
    }
}

impl SigningKeySet {
    pub fn empty() -> (r: Self)
        ensures
            r@ == Seq::<KeyView>::empty(),
    {
        let r = SigningKeySet { keys: Vec::new() };
        assert(r@ =~= Seq::<KeyView>::empty());
        r
    }

    pub fn len(&self) -> (r: usize)
        ensures
            r == self@.len(),
    {
        self.keys.len()
    }

    /// Builds the set from the entries of a key-set document's `keys` array;
    /// `None` stands for a document without such an array. Entries lacking any
    /// of `kid`, `n`, `e` are left out.
    pub fn from_entries(entries: Option<Vec<RawKey>>) -> (r: Result<Self, AuthError>)
        ensures
            entries is None ==> r == Err::<Self, AuthError>(AuthError::KeyFetchError),
            entries matches Some(v) ==> (r matches Ok(s) && s@ == keys_of_entries(v@)),
    {
        match entries {
            None => Err(AuthError::KeyFetchError),
            Some(v) => {
                let mut keys: Vec<RsaKey> = Vec::new();
                let mut i: usize = 0;
                while i < v.len()
                    invariant
                        i <= v@.len(),
                        keys@.map_values(|k: RsaKey| k@) == keys_of_entries(
                            v@.subrange(0, i as int),
                        ),
                    decreases v@.len() - i,
                {
                    let ghost before = keys@;
                    let entry = &v[i];
                    assert(v@.subrange(0, i as int + 1).drop_last() == v@.subrange(0, i as int));
                    match (&entry.kid, &entry.n, &entry.e) {
                        (Some(kid), Some(n), Some(e)) => {
                            keys.push(RsaKey { kid: kid.clone(), n: n.clone(), e: e.clone() });
                            assert(keys@.map_values(|k: RsaKey| k@) =~= before.map_values(
                                |k: RsaKey| k@,
                            ).push(raw_to_view(v@[i as int])));
                        },
                        _ => {},
                    }
                    i = i + 1;
                }
                assert(v@.subrange(0, v@.len() as int) == v@);
                Ok(SigningKeySet { keys })
            },
        }
    }

    /// Adds a key at the end of the set.
    pub fn push(&mut self, key: RsaKey)
        ensures
            final(self)@ == old(self)@.push(key@),
    {
        self.keys.push(key);
        assert(self@ =~= old(self)@.push(key@));
    }

    /// The first key whose identifier is `kid`.
    pub fn find(&self, kid: &String) -> (r: Option<&RsaKey>)
        ensures
            match r {
                Some(k) => find_key_spec(self@, kid@) == Some(k@),
                None => find_key_spec(self@, kid@) is None,
            },
    {
        let mut i: usize = 0;
        assert(self@.subrange(0, self@.len() as int) == self@);
        while i < self.keys.len()
            invariant
                i <= self@.len(),
                self@.len() == self.keys@.len(),
                find_key_spec(self@, kid@) == find_key_spec(
                    self@.subrange(i as int, self@.len() as int),
                    kid@,
                ),
            decreases self@.len() - i,
        {
            let k = &self.keys[i];
            assert(self@[i as int] == k@);
            assert(self@.subrange(i as int, self@.len() as int).drop_first() == self@.subrange(
                i + 1,
                self@.len() as int,
            ));
            if k.kid == *kid {
                return Some(k);
            }
            i = i + 1;
        }
        None
    }
}

/// Whether a key lookup at `now` must fetch the key set first: it was never
/// fetched, its age reached the time-to-live, or it lacks `kid`.
pub open spec fn refresh_due(
    keys: Seq<KeyView>,
    fetched_at: Option<u64>,
    ttl: u64,
    kid: Seq<char>,
    now: u64,
) -> bool {
    match fetched_at {
        None => true,
        Some(t) => crate::rate_limiter::elapsed(t, now) >= ttl || find_key_spec(keys, kid) is None,
    }
}

/// The key set held between fetches, replaced whole on each refresh.
pub struct KeyCache {
    keys: SigningKeySet,
    fetched_at: Option<u64>,
    ttl: u64,
}

impl KeyCache {
    pub closed spec fn keys_spec(&self) -> Seq<KeyView> {
        self.keys@
    }

    /// When the held set was fetched, in milliseconds; `None` before the first fetch.
    pub closed spec fn fetched_at(&self) -> Option<u64> {
        self.fetched_at
    }

    /// How long a fetched set is trusted, in milliseconds.
    pub closed spec fn ttl(&self) -> u64 {
        self.ttl
    }

    pub fn new(ttl: u64) -> (r: Self)
        ensures
            r.keys_spec() == Seq::<KeyView>::empty(),
            r.fetched_at() is None,
            r.ttl() == ttl,
    {
        KeyCache { keys: SigningKeySet::empty(), fetched_at: None, ttl }
    }

    /// The set currently held.
    pub fn keys(&self) -> (r: &SigningKeySet)
        ensures
            r@ == self.keys_spec(),
    {
        &self.keys
    }

    /// When the held set was fetched; `None` before the first fetch.
    pub fn last_fetch(&self) -> (r: Option<u64>)
        ensures
            r == self.fetched_at(),
    {
        self.fetched_at
    }

    /// Whether resolving `kid` at `now` needs a fetch first.
    pub fn needs_refresh(&self, kid: &String, now: u64) -> (r: bool)
        ensures
            r == refresh_due(self.keys_spec(), self.fetched_at(), self.ttl(), kid@, now),
    {
        match self.fetched_at {
            None => true,
            Some(t) => {
                let age: u64 = if now >= t { now - t } else { 0 };
                age >= self.ttl || self.keys.find(kid).is_none()
            },
        }
    }

    /// Replaces the held set with one fetched at `now`.
    pub fn install(&mut self, keys: SigningKeySet, now: u64)
        ensures
            final(self).keys_spec() == keys@,
            final(self).fetched_at() == Some(now),
            final(self).ttl() == old(self).ttl(),
    {
        self.keys = keys;
        self.fetched_at = Some(now);
    }

    /// Looks `kid` up in the held set.
    pub fn resolve(&self, kid: &String) -> (r: Result<&RsaKey, AuthError>)
        ensures
            match r {
                Ok(k) => find_key_spec(self.keys_spec(), kid@) == Some(k@),
                Err(e) => e == AuthError::KeyNotFound && find_key_spec(
                    self.keys_spec(),
                    kid@,
                ) is None,
            },
    {
        match self.keys.find(kid) {
            Some(k) => Ok(k),
            None => Err(AuthError::KeyNotFound),
        }
    }
}

} // verus!
