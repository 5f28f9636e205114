//! The ephemeral store: string keys, values that expire after a number of
//! seconds, against a clock that the host advances.
use vstd::prelude::*;
use crate::error::Error;
use crate::model::{ValidationData, Staged, ChangePasswordValidationData, ResetRecord};

verus! {

/// What the ephemeral store holds under a key.
#[derive(Debug, Clone)]
pub enum CacheValue {
    Text(String),
    Pending(ValidationData),
    PasswordReset(ChangePasswordValidationData),
}

/// Model of a stored value.
pub enum Cached {
    Text(Seq<char>),
    Pending(Staged),
    PasswordReset(ResetRecord),
}

impl View for CacheValue {
    type V = Cached;

    open spec fn view(&self) -> Cached {
        match self {
            CacheValue::Text(s) => Cached::Text(s@),
            CacheValue::Pending(d) => Cached::Pending(d@),
            CacheValue::PasswordReset(d) => Cached::PasswordReset(d@),
        }
    }
}

impl CacheValue {
    pub fn duplicate(&self) -> (r: CacheValue)
        ensures
            r@ == self@,
    {
        match self {
            CacheValue::Text(s) => CacheValue::Text(s.clone()),
            CacheValue::Pending(d) => CacheValue::Pending(d.duplicate()),
            CacheValue::PasswordReset(d) => CacheValue::PasswordReset(d.duplicate()),
        }
    }
}

#[derive(Debug, Clone)]
struct CacheEntry {
    key: String,
    value: CacheValue,
    expires_at: u64,
}

/// The value and expiry last written under `k` in `s`.
spec fn lookup_in(s: Seq<CacheEntry>, k: Seq<char>) -> Option<(Cached, u64)>
    decreases s.len(),
{
    if s.len() == 0 {
        None
    } else if s.last().key@ == k {
        Some((s.last().value@, s.last().expires_at))
    } else {
        lookup_in(s.drop_last(), k)
    }
}

/// The expiry of a value written at `now` to live `seconds` seconds; it
/// saturates at the end of the clock's range.
pub open spec fn expiry_after(now: u64, seconds: int) -> u64 {
    if now + seconds > u64::MAX {
        u64::MAX
    } else {
        (now + seconds) as u64
    }
}

/// An in-memory ephemeral store. A value is visible while its expiry is
/// later than the store's clock.
#[derive(Debug)]
pub struct Redis {
    entries: Vec<CacheEntry>,
    now: u64,
}

/// No two entries of `s` share a key.
spec fn keys_unique(s: Seq<CacheEntry>) -> bool {
    forall|i: int, j: int| 0 <= i < j < s.len() ==> s[i].key@ != s[j].key@
}

/// An entry that is still live at `now`; `None` once it has expired.
pub open spec fn kept(e: Option<(Cached, u64)>, now: u64) -> Option<(Cached, u64)> {
    match e {
        Some(x) => if x.1 > now {
            Some(x)
        } else {
            None
        },
        None => None,
    }
}

proof fn lemma_lookup_absent(s: Seq<CacheEntry>, k: Seq<char>)
    requires
        forall|j: int| 0 <= j < s.len() ==> s[j].key@ != k,
    ensures
        lookup_in(s, k) is None,
    decreases s.len(),
{
    if s.len() > 0 {
        lemma_lookup_absent(s.drop_last(), k);
    }
}

impl Redis {
    #[verifier::type_invariant]
    spec fn entries_unique(&self) -> bool {
        keys_unique(self.entries@)
    }

    /// The value and expiry last written under `k`, live or not.
    pub closed spec fn stored(&self, k: Seq<char>) -> Option<(Cached, u64)> {
        lookup_in(self.entries@, k)
    }

    /// The store's clock, in seconds.
    pub closed spec fn clock(&self) -> u64 {
        self.now
    }

    /// The value under `k` while it has not expired.
    pub open spec fn live(&self, k: Seq<char>) -> Option<Cached> {
        match self.stored(k) {
            Some(e) => if e.1 > self.clock() {
                Some(e.0)
            } else {
                None
            },
            None => None,
        }
    }

    /// The same store with `v` written under `k` at the current clock.
    pub open spec fn wrote(&self, after: Self, k: Seq<char>, v: Cached, seconds: int) -> bool {
        &&& after.clock() == self.clock()
        &&& after.stored(k) == Some((v, expiry_after(self.clock(), seconds)))
        &&& forall|k2: Seq<char>| k2 != k ==> after.stored(k2) == self.stored(k2)
    }

    /// The same store with nothing under `k1` or `k2`.
    pub open spec fn removed_both(&self, after: Self, k1: Seq<char>, k2: Seq<char>) -> bool {
        &&& after.clock() == self.clock()
        &&& after.stored(k1) is None
        &&& after.stored(k2) is None
        &&& forall|k: Seq<char>| k != k1 && k != k2 ==> after.stored(k) == self.stored(k)
    }

    /// The same store with nothing under `k`.
    pub open spec fn removed(&self, after: Self, k: Seq<char>) -> bool {
        &&& after.clock() == self.clock()
        &&& after.stored(k) is None
        &&& forall|k2: Seq<char>| k2 != k ==> after.stored(k2) == self.stored(k2)
    }

    /// An empty store whose clock reads `now`.
    pub fn new(now: u64) -> (r: Redis)
        ensures
            r.clock() == now,
            forall|k: Seq<char>| r.stored(k) is None,
    {
        Redis { entries: Vec::new(), now }
    }

    /// The store's clock, in seconds.
    pub fn now(&self) -> (r: u64)
        ensures
            r == self.clock(),
    {
        self.now
    }

    /// `after` is this store with its clock at `now` and the values that
    /// expired by then dropped.
    pub open spec fn advanced(&self, after: Self, now: u64) -> bool {
        &&& after.clock() == now
        &&& forall|k: Seq<char>| after.stored(k) == kept(self.stored(k), now)
    }

    /// Moves the clock to `now` and drops the values whose expiry is not
    /// later than it.
    pub fn set_time(&mut self, now: u64)
        ensures
            old(self).advanced(*final(self), now),
    {
        proof {
            use_type_invariant(&*self);
        }
        let entries = Self::live_only(&self.entries, now);
        self.entries = entries;
        self.now = now;
    }

    /// The entries of `v` that are live at `now`.
    fn live_only(v: &Vec<CacheEntry>, now: u64) -> (r: Vec<CacheEntry>)
        requires
            keys_unique(v@),
        ensures
            keys_unique(r@),
            forall|k: Seq<char>| lookup_in(r@, k) == kept(lookup_in(v@, k), now),
    {
        let mut r: Vec<CacheEntry> = Vec::new();
        let mut i: usize = 0;
        while i < v.len()
            invariant
                i <= v.len(),
                keys_unique(v@),
                keys_unique(r@),
                forall|j: int, m: int| 0 <= j < r.len() && i <= m < v.len() ==> r@[j].key@ != v@[m].key@,
                forall|k: Seq<char>| lookup_in(r@, k) == kept(lookup_in(v@.subrange(0, i as int), k), now),
            decreases v.len() - i,
        {
            let e = &v[i];
            proof {
                assert(v@.subrange(0, i + 1).drop_last() =~= v@.subrange(0, i as int));
                lemma_lookup_absent(r@, e.key@);
            }
            if e.expires_at > now {
                let c = CacheEntry { key: e.key.clone(), value: e.value.duplicate(), expires_at: e.expires_at };
                proof {
                    assert forall|k2: Seq<char>| true implies lookup_in(r@.push(c), k2) == (if c.key@ == k2 {
                        Some((c.value@, c.expires_at))
                    } else {
                        lookup_in(r@, k2)
                    }) by {
                        Self::lemma_push(r@, c, k2);
                    }
                }
                r.push(c);
            }
            i = i + 1;
        }
        assert(v@.subrange(0, v.len() as int) =~= v@);
        r
    }

    proof fn lemma_push(s: Seq<CacheEntry>, e: CacheEntry, k: Seq<char>)
        ensures
            lookup_in(s.push(e), k) == (if e.key@ == k {
                Some((e.value@, e.expires_at))
            } else {
                lookup_in(s, k)
            }),
    {
        assert(s.push(e).drop_last() =~= s);
    }

    /// The entries of `v` without those under `key`.
    fn without(v: &Vec<CacheEntry>, key: &String) -> (r: Vec<CacheEntry>)
        requires
            keys_unique(v@),
        ensures
            keys_unique(r@),
            forall|j: int| 0 <= j < r.len() ==> r@[j].key@ != key@,
            lookup_in(r@, key@) is None,
            forall|k2: Seq<char>| k2 != key@ ==> lookup_in(r@, k2) == lookup_in(v@, k2),
    {
        let mut r: Vec<CacheEntry> = Vec::new();
        let mut i: usize = 0;
        while i < v.len()
            invariant
                i <= v.len(),
                keys_unique(v@),
                keys_unique(r@),
                forall|j: int| 0 <= j < r.len() ==> r@[j].key@ != key@,
                forall|j: int, m: int| 0 <= j < r.len() && i <= m < v.len() ==> r@[j].key@ != v@[m].key@,
                lookup_in(r@, key@) is None,
                forall|k2: Seq<char>|
                    k2 != key@ ==> lookup_in(r@, k2) == lookup_in(v@.subrange(0, i as int), k2),
            decreases v.len() - i,
        {
            let e = &v[i];
            proof {
                assert(v@.subrange(0, i + 1).drop_last() =~= v@.subrange(0, i as int));
            }
            if e.key != *key {
                let c = CacheEntry { key: e.key.clone(), value: e.value.duplicate(), expires_at: e.expires_at };
                proof {
                    assert forall|k2: Seq<char>| true implies lookup_in(r@.push(c), k2) == (if c.key@ == k2 {
                        Some((c.value@, c.expires_at))
                    } else {
                        lookup_in(r@, k2)
                    }) by {
                        Self::lemma_push(r@, c, k2);
                    }
                }
                r.push(c);
            }
            i = i + 1;
        }
        assert(v@.subrange(0, v.len() as int) =~= v@);
        r
    }

    /// Writes `value` under `key`, to expire `seconds` seconds from now.
    fn put(&mut self, key: String, seconds: u64, value: CacheValue)
        ensures
            old(self).wrote(*final(self), key@, value@, seconds as int),
    {
        proof {
            use_type_invariant(&*self);
        }
        let mut entries = Self::without(&self.entries, &key);
        let expires_at = if seconds > u64::MAX - self.now {
            u64::MAX
        } else {
            self.now + seconds
        };
        let e = CacheEntry { key, value, expires_at };
        proof {
            assert forall|k2: Seq<char>| true implies lookup_in(entries@.push(e), k2) == (if e.key@ == k2 {
                Some((e.value@, e.expires_at))
            } else {
                lookup_in(entries@, k2)
            }) by {
                Self::lemma_push(entries@, e, k2);
            }
        }
        entries.push(e);
        self.entries = entries;
    }

    /// Writes the text `value` under `key` for `seconds` seconds. A zero
    /// lifetime is refused and leaves the store as it was.
    pub fn set_ex(&mut self, key: String, seconds: usize, value: String) -> (r: Result<(), Error>)
        ensures
            seconds == 0 <==> r is Err,
            seconds == 0 ==> *final(self) == *old(self),
            seconds > 0 ==> old(self).wrote(*final(self), key@, Cached::Text(value@), seconds as int),
    {
        self.set_value(key, seconds, CacheValue::Text(value))
    }

    /// Writes `value` under `key` for `seconds` seconds. A zero lifetime is
    /// refused and leaves the store as it was.
    pub fn set_value(&mut self, key: String, seconds: usize, value: CacheValue) -> (r: Result<(), Error>)
        ensures
            seconds == 0 <==> r is Err,
            seconds == 0 ==> *final(self) == *old(self),
            seconds > 0 ==> old(self).wrote(*final(self), key@, value@, seconds as int),
    {
        if seconds == 0 {
            return Err(Error::new("invalid expire time in 'setex' command", 500));
        }
        self.put(key, seconds as u64, value);
        Ok(())
    }

    /// The live text under `key`, if any.
    pub fn get(&self, key: &String) -> (r: Option<String>)
        ensures
            r is Some <==> self.live(key@) matches Some(Cached::Text(_)),
            r matches Some(s) ==> self.live(key@) == Some(Cached::Text(s@)),
    {
        match self.get_value(key) {
            Ok(CacheValue::Text(s)) => Some(s),
            _ => None,
        }
    }

    /// A copy of the live value under `key`; absent or expired is an error.
    pub fn get_value(&self, key: &String) -> (r: Result<CacheValue, Error>)
        ensures
            r is Ok <==> self.live(key@) is Some,
            r matches Ok(v) ==> self.live(key@) == Some(v@),
            r is Err ==> (r matches Err(Error::WebResponseErrorCustom(c)) && c.msg@
                == "Value not found in redis cache"@ && c.status == 500),
    {
        let mut i: usize = self.entries.len();
        assert(self.entries@.subrange(0, i as int) =~= self.entries@);
        while i > 0
            invariant
                i <= self.entries.len(),
                forall|j: int| i <= j < self.entries.len() ==> self.entries@[j].key@ != key@,
                lookup_in(self.entries@, key@) == lookup_in(self.entries@.subrange(0, i as int), key@),
            decreases i,
        {
            let e = &self.entries[i - 1];
            proof {
                let s = self.entries@.subrange(0, i as int);
                assert(s.drop_last() =~= self.entries@.subrange(0, i - 1));
            }
            if e.key == *key {
                if e.expires_at > self.now {
                    return Ok(e.value.duplicate());
                } else {
                    return Err(Error::new("Value not found in redis cache", 500));
                }
            }
            i = i - 1;
        }
        Err(Error::new("Value not found in redis cache", 500))
    }

    /// Removes the value under `key` and hands back what was live there.
    pub fn take(&mut self, key: &String) -> (r: Option<CacheValue>)
        ensures
            old(self).removed(*final(self), key@),
            r is Some <==> old(self).live(key@) is Some,
            r matches Some(v) ==> old(self).live(key@) == Some(v@),
    {
        proof {
            use_type_invariant(&*self);
        }
        let r = match self.get_value(key) {
            Ok(v) => Some(v),
            Err(_) => None,
        };
        self.entries = Self::without(&self.entries, key);
        r
    }

    /// Removes the value under `key`.
    pub fn del(&mut self, key: &String) -> (r: Result<(), Error>)
        ensures
            r is Ok,
            old(self).removed(*final(self), key@),
    {
        self.take(key);
        Ok(())
    }
}

} // verus!
