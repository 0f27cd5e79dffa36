use vstd::prelude::*;

use crate::lru::{has_key, key_index, keys_unique, lookup, put_spec, touch_spec, LruMap, LruView};

verus! {

/// The status code of a response that was rate limited.
pub const TOO_MANY_REQUESTS: u16 = 429;

/// A rate-limit budget: calls left, when it refills (milliseconds since the
/// epoch) and its size.
#[derive(Debug, Clone, Copy, PartialEq, Eq, Structural)]
pub struct Bucket {
    pub remaining: u32,
    pub reset_at: u64,
    pub limit: u32,
}

/// The rate-limit headers of a response: the bucket id and its budget.
#[derive(Debug, Clone)]
pub struct RateLimitHeaders {
    pub bucket: String,
    pub remaining: u32,
    pub reset_at: u64,
    pub limit: u32,
}

/// Whether a call may go out now, or must wait until the given time.
#[derive(Debug, Clone, Copy, PartialEq, Eq, Structural)]
pub enum Admission {
    Proceed,
    WaitUntil(u64),
}

/// What to do with a response: wait the given milliseconds and send the same
/// call again, or hand the response over.
#[derive(Debug, Clone, Copy, PartialEq, Eq, Structural)]
pub enum ResponseAction {
    RetryAfter(u64),
    Done,
}

/// The rate limiter's tables: bucket id to budget, and endpoint to bucket id,
/// both bounded and least-recently-used.
#[derive(Debug)]
pub struct RateLimiter {
    buckets: LruMap<Bucket>,
    endpoints: LruMap<String>,
}

pub struct LimiterView {
    pub buckets: LruView<Bucket>,
    pub endpoints: Seq<(Seq<char>, Seq<char>)>,
    pub endpoint_capacity: nat,
}

impl LimiterView {
    pub open spec fn wf(self) -> bool {
        &&& self.buckets.wf()
        &&& LruView { entries: self.endpoints, capacity: self.endpoint_capacity }.wf()
    }
}

/// The endpoint table with each bucket id seen as characters.
pub open spec fn endpoint_view(s: Seq<(Seq<char>, String)>) -> Seq<(Seq<char>, Seq<char>)> {
    s.map_values(|e: (Seq<char>, String)| (e.0, e.1@))
}

/// The admission of a call to `endpoint` at time `now`: it waits only where the
/// endpoint's bucket is known, has no calls left and has not yet reset.
pub open spec fn admission_spec(
    endpoints: Seq<(Seq<char>, Seq<char>)>,
    buckets: Seq<(Seq<char>, Bucket)>,
    endpoint: Seq<char>,
    now: u64,
) -> Admission {
    match lookup(endpoints, endpoint) {
        None => Admission::Proceed,
        Some(id) => bucket_admission(buckets, id, now),
    }
}

/// The admission of a call against bucket `id` at time `now`: it waits only
/// where the bucket is known, has no calls left and has not yet reset.
pub open spec fn bucket_admission(buckets: Seq<(Seq<char>, Bucket)>, id: Seq<char>, now: u64) -> Admission {
    match lookup(buckets, id) {
        None => Admission::Proceed,
        Some(b) => if b.remaining == 0 && now < b.reset_at {
            Admission::WaitUntil(b.reset_at)
        } else {
            Admission::Proceed
        },
    }
}

impl View for RateLimiter {
    type V = LimiterView;

    closed spec fn view(&self) -> LimiterView {
        LimiterView {
            buckets: self.buckets@,
            endpoints: endpoint_view(self.endpoints@.entries),
            endpoint_capacity: self.endpoints@.capacity,
        }
    }
}

proof fn lemma_endpoint_view(s: Seq<(Seq<char>, String)>, k: Seq<char>)
    ensures
        has_key(endpoint_view(s), k) == has_key(s, k),
        keys_unique(s) <==> keys_unique(endpoint_view(s)),
        has_key(s, k) && keys_unique(s) ==> key_index(endpoint_view(s), k) == key_index(s, k),
{
    let t = endpoint_view(s);
    if has_key(s, k) {
        let i = key_index(s, k);
        assert(t[i].0 == k);
    }
    if has_key(t, k) {
        let i = key_index(t, k);
        assert(s[i].0 == k);
    }
    if keys_unique(t) {
        assert forall|a: int, b: int|
            0 <= a < s.len() && 0 <= b < s.len() && #[trigger] s[a].0 == #[trigger] s[b].0 implies a
            == b by {
            assert(t[a].0 == t[b].0);
        }
    }
    if keys_unique(s) {
        assert forall|a: int, b: int|
            0 <= a < t.len() && 0 <= b < t.len() && #[trigger] t[a].0 == #[trigger] t[b].0 implies a
            == b by {
            assert(s[a].0 == s[b].0);
        }
    }
    if has_key(s, k) && keys_unique(s) {
        let i = key_index(s, k);
        let j = key_index(t, k);
        assert(s[j].0 == k);
    }
}

proof fn lemma_endpoint_lookup(s: Seq<(Seq<char>, String)>, k: Seq<char>)
    requires
        keys_unique(s),
    ensures
        lookup(endpoint_view(s), k) == (match lookup(s, k) {
            Some(v) => Some(v@),
            None => None,
        }),
{
    lemma_endpoint_view(s, k);
}

proof fn lemma_endpoint_touch(s: Seq<(Seq<char>, String)>, k: Seq<char>)
    requires
        keys_unique(s),
    ensures
        endpoint_view(touch_spec(s, k)) == touch_spec(endpoint_view(s), k),
{
    lemma_endpoint_view(s, k);
    if has_key(s, k) {
        let i = key_index(s, k);
        assert(endpoint_view(touch_spec(s, k)) =~= endpoint_view(s).remove(i).push(
            endpoint_view(s)[i],
        ));
    }
}

proof fn lemma_endpoint_put(s: Seq<(Seq<char>, String)>, cap: nat, k: Seq<char>, v: String)
    requires
        keys_unique(s),
    ensures
        endpoint_view(put_spec(s, cap, k, v)) == put_spec(endpoint_view(s), cap, k, v@),
{
    lemma_endpoint_view(s, k);
    let t = endpoint_view(s);
    if has_key(s, k) {
        let i = key_index(s, k);
        assert(endpoint_view(put_spec(s, cap, k, v)) =~= t.remove(i).push((k, v@)));
    } else if cap == 0 {
    } else if s.len() >= cap {
        assert(endpoint_view(put_spec(s, cap, k, v)) =~= t.drop_first().push((k, v@)));
    } else {
        assert(endpoint_view(put_spec(s, cap, k, v)) =~= t.push((k, v@)));
    }
}

impl RateLimiter {
    /// Empty tables of the given capacities.
    pub fn new(bucket_capacity: usize, endpoint_capacity: usize) -> (r: RateLimiter)
        ensures
            r@.wf(),
            r@.buckets.entries.len() == 0,
            r@.buckets.capacity == bucket_capacity,
            r@.endpoints.len() == 0,
            r@.endpoint_capacity == endpoint_capacity,
    {
        let r = RateLimiter { buckets: LruMap::new(bucket_capacity), endpoints: LruMap::new(endpoint_capacity) };
        assert(r@.endpoints =~= Seq::<(Seq<char>, Seq<char>)>::empty());
        r
    }

    /// Decides, before a call to `endpoint` goes out at time `now`, whether it
    /// must first wait for its bucket to reset. The lookup marks the endpoint
    /// and its bucket as recently used; no budget is spent locally.
    pub fn before_call(&mut self, endpoint: &str, now: u64) -> (r: Admission)
        requires
            old(self)@.wf(),
        ensures
            final(self)@.wf(),
            r == admission_spec(old(self)@.endpoints, old(self)@.buckets.entries, endpoint@, now),
            final(self)@.endpoints == touch_spec(old(self)@.endpoints, endpoint@),
            final(self)@.endpoint_capacity == old(self)@.endpoint_capacity,
            final(self)@.buckets.capacity == old(self)@.buckets.capacity,
            final(self)@.buckets.entries == match lookup(old(self)@.endpoints, endpoint@) {
                Some(id) => touch_spec(old(self)@.buckets.entries, id),
                None => old(self)@.buckets.entries,
            },
    {
        proof {
            lemma_endpoint_view(self.endpoints@.entries, endpoint@);
            lemma_endpoint_lookup(self.endpoints@.entries, endpoint@);
            lemma_endpoint_touch(self.endpoints@.entries, endpoint@);
        }
        match self.endpoints.get(endpoint) {
            None => Admission::Proceed,
            Some(i) => {
                let id = self.endpoints.value(i).clone();
                proof {
                    lemma_endpoint_view(self.endpoints@.entries, endpoint@);
                }
                self.wait_for_rate_limit(id.as_str(), now)
            },
        }
    }

    /// Decides whether a call against bucket `bucket` at time `now` must first
    /// wait for the bucket to reset; the lookup marks the bucket as recently
    /// used.
    pub fn wait_for_rate_limit(&mut self, bucket: &str, now: u64) -> (r: Admission)
        requires
            old(self)@.wf(),
        ensures
            final(self)@.wf(),
            r == bucket_admission(old(self)@.buckets.entries, bucket@, now),
            final(self)@.buckets.entries == touch_spec(old(self)@.buckets.entries, bucket@),
            final(self)@.buckets.capacity == old(self)@.buckets.capacity,
            final(self)@.endpoints == old(self)@.endpoints,
            final(self)@.endpoint_capacity == old(self)@.endpoint_capacity,
    {
        match self.buckets.get(bucket) {
            None => Admission::Proceed,
            Some(j) => {
                let b = *self.buckets.value(j);
                if b.remaining == 0 && now < b.reset_at {
                    Admission::WaitUntil(b.reset_at)
                } else {
                    Admission::Proceed
                }
            },
        }
    }

    /// Takes in a response to a call to `endpoint`. A rate-limited one (429)
    /// is to be retried after the server's delay, with the tables untouched.
    /// Any other response that carries rate-limit headers updates its bucket,
    /// and maps the endpoint to that bucket if the endpoint was unknown.
    pub fn on_response(
        &mut self,
        endpoint: &str,
        status: u16,
        retry_after_ms: u64,
        headers: Option<RateLimitHeaders>,
    ) -> (r: ResponseAction)
        requires
            old(self)@.wf(),
        ensures
            final(self)@.wf(),
            status == TOO_MANY_REQUESTS ==> r == ResponseAction::RetryAfter(retry_after_ms)
                && final(self)@ == old(self)@,
            status != TOO_MANY_REQUESTS ==> r == ResponseAction::Done,
            status != TOO_MANY_REQUESTS && headers is None ==> final(self)@ == old(self)@,
            status != TOO_MANY_REQUESTS ==> (headers matches Some(h) ==> {
                &&& final(self)@.buckets == LruView {
                    entries: put_spec(
                        old(self)@.buckets.entries,
                        old(self)@.buckets.capacity,
                        h.bucket@,
                        Bucket { remaining: h.remaining, reset_at: h.reset_at, limit: h.limit },
                    ),
                    capacity: old(self)@.buckets.capacity,
                }
                &&& final(self)@.endpoint_capacity == old(self)@.endpoint_capacity
                &&& final(self)@.endpoints == if has_key(old(self)@.endpoints, endpoint@) {
                    old(self)@.endpoints
                } else {
                    put_spec(
                        old(self)@.endpoints,
                        old(self)@.endpoint_capacity,
                        endpoint@,
                        h.bucket@,
                    )
                }
            }),
    {
        if status == TOO_MANY_REQUESTS {
            return ResponseAction::RetryAfter(retry_after_ms);
        }
        proof {
            lemma_endpoint_view(self.endpoints@.entries, endpoint@);
        }
        match headers {
            None => ResponseAction::Done,
            Some(h) => {
                proof {
                    lemma_endpoint_view(self.endpoints@.entries, endpoint@);
                }
                let bucket = Bucket { remaining: h.remaining, reset_at: h.reset_at, limit: h.limit };
                let known = self.endpoints.find(endpoint).is_some();
                if !known {
                    proof {
                        lemma_endpoint_put(
                            self.endpoints@.entries,
                            self.endpoints@.capacity,
                            endpoint@,
                            h.bucket,
                        );
                    }
                    self.endpoints.put(String::from_str(endpoint), h.bucket.clone());
                    proof {
                        lemma_endpoint_view(self.endpoints@.entries, endpoint@);
                    }
                }
                self.buckets.put(h.bucket, bucket);
                ResponseAction::Done
            },
        }
    }
}

/// A call to an endpoint whose known bucket has no calls left and resets at
/// `reset_at` is held back until `reset_at` when issued before it.
pub proof fn lemma_exhausted_bucket_waits(
    m: LimiterView,
    endpoint: Seq<char>,
    id: Seq<char>,
    reset_at: u64,
    limit: u32,
    now: u64,
)
    requires
        m.wf(),
        lookup(m.endpoints, endpoint) == Some(id),
        lookup(m.buckets.entries, id) == Some(Bucket { remaining: 0, reset_at, limit }),
        now < reset_at,
    ensures
        admission_spec(m.endpoints, m.buckets.entries, endpoint, now) == Admission::WaitUntil(reset_at),
{
}

/// A call against a known bucket that has no calls left and resets at
/// `reset_at` is held back until `reset_at` when issued before it.
pub proof fn lemma_exhausted_bucket_holds(
    buckets: Seq<(Seq<char>, Bucket)>,
    id: Seq<char>,
    reset_at: u64,
    limit: u32,
    now: u64,
)
    requires
        lookup(buckets, id) == Some(Bucket { remaining: 0, reset_at, limit }),
        now < reset_at,
    ensures
        bucket_admission(buckets, id, now) == Admission::WaitUntil(reset_at),
{
}

/// An endpoint that was evicted from the endpoint table is unknown again: the
/// next call to it goes out at once, whatever the buckets hold.
pub proof fn lemma_evicted_endpoint_passes(
    m: LimiterView,
    endpoint: Seq<char>,
    id: Seq<char>,
    now: u64,
)
    requires
        m.wf(),
        m.endpoint_capacity > 0,
        m.endpoints.len() == m.endpoint_capacity,
        !has_key(m.endpoints, endpoint),
    ensures
        ({
            let after = put_spec(m.endpoints, m.endpoint_capacity, endpoint, id);
            &&& after.len() == m.endpoint_capacity
            &&& lookup(after, m.endpoints[0].0) is None
            &&& admission_spec(after, m.buckets.entries, m.endpoints[0].0, now) == Admission::Proceed
        }),
{
    crate::lru::lemma_put_evicts_least_recent(
        LruView { entries: m.endpoints, capacity: m.endpoint_capacity },
        endpoint,
        id,
    );
}

} // verus!
