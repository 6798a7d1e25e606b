//! Loader configuration: the sources it asks and how many shards its shared
//! state is split into.
use vstd::prelude::*;

verus! {

/// Default number of shards per CPU for the loader's shared state.
pub const DEFAULT_SHARDS_PER_CPU: usize = 8;

/// Largest number of shards a loader is built with.
pub const MAX_SHARDS: usize = 512;

/// Number of CPUs of the machine (`num_cpus::get`).
/// The crate documents that the result is always at least 1; nothing else is
/// stated of it, as it depends on the machine.
#[verifier::external_body]
fn available_cpus() -> (r: usize)
    ensures
        r >= 1,
{
    num_cpus::get()
}

pub open spec fn is_pow2(n: nat) -> bool
    decreases n,
{
    if n == 1 {
        true
    } else if n == 0 || n % 2 == 1 {
        false
    } else {
        is_pow2(n / 2)
    }
}

/// The number of shards a loader is built with when `requested` are asked for:
/// the smallest power of two not below the request (one for zero), but at most 512.
pub open spec fn effective_shards(requested: nat) -> nat {
    if requested > 512 {
        512
    } else {
        smallest_pow2_from(requested, 1)
    }
}

/// Smallest power of two `p * 2^k` (k >= 0) that is at least `n`, for `p` a power of two.
pub open spec fn smallest_pow2_from(n: nat, p: nat) -> nat
    decreases (if n > p { n - p } else { 0 }),
{
    if p == 0 || p >= n {
        p
    } else {
        smallest_pow2_from(n, p * 2)
    }
}

proof fn lemma_smallest_pow2(n: nat, p: nat)
    requires
        is_pow2(p),
        p <= 512,
        n <= 512,
        p >= 1,
        p < n ==> p * 2 <= 2 * n,
    ensures
        is_pow2(smallest_pow2_from(n, p)),
        smallest_pow2_from(n, p) >= n,
        smallest_pow2_from(n, p) >= p,
        smallest_pow2_from(n, p) <= 512,
        smallest_pow2_from(n, p) > 1 ==> smallest_pow2_from(n, p) / 2 < n || smallest_pow2_from(
            n,
            p,
        ) == p,
    decreases (if n > p { n - p } else { 0 }),
{
    if p < n {
        assert(is_pow2(p * 2)) by {
            assert((p * 2) / 2 == p);
        }
        lemma_pow2_le_512(p, n);
        lemma_smallest_pow2(n, p * 2);
    }
}

proof fn lemma_pow2_le_512(p: nat, n: nat)
    requires
        is_pow2(p),
        p < n,
        n <= 512,
    ensures
        p * 2 <= 512,
    decreases p,
{
    // powers of two below 512 are at most 256
    if p > 256 {
        lemma_pow2_gap(p);
    }
}

proof fn lemma_pow2_gap(p: nat)
    requires
        is_pow2(p),
    ensures
        !(256 < p < 512),
{
    if !(256 < p < 512) {
        return;
    }
    assert(p % 2 == 0);
    assert(is_pow2(p / 2));
    let q = p / 2;
    assert(128 < q < 256);
    assert(q % 2 == 0);
    let r = q / 2;
    assert(is_pow2(r));
    assert(64 < r < 128);
    assert(r % 2 == 0);
    let t = r / 2;
    assert(is_pow2(t));
    assert(32 < t < 64);
    assert(t % 2 == 0);
    let u = t / 2;
    assert(is_pow2(u));
    assert(16 < u < 32);
    assert(u % 2 == 0);
    let v = u / 2;
    assert(is_pow2(v));
    assert(8 < v < 16);
    assert(v % 2 == 0);
    let w = v / 2;
    assert(is_pow2(w));
    assert(4 < w < 8);
    assert(w % 2 == 0);
    let x = w / 2;
    assert(is_pow2(x));
    assert(2 < x < 4);
    assert(x == 3);
}

/// Law: a loader is built with a power of two of shards, between 1 and 512,
/// never fewer than requested when at most 512 were requested.
pub proof fn lemma_effective_shards(requested: nat)
    ensures
        is_pow2(effective_shards(requested)),
        1 <= effective_shards(requested) <= 512,
        requested <= 512 ==> effective_shards(requested) >= requested,
{
    if requested > 512 {
        reveal_with_fuel(is_pow2, 11);
        assert(is_pow2(512));
    } else {
        lemma_smallest_pow2(requested, 1);
    }
}

/// Law: setting the number of shards in place and with the builder taken by
/// value agree: the same number, the same sources in the same order, and so
/// the same number of shards once built.
pub proof fn lemma_shard_setters_agree<S>(
    b: LoaderBuilder<S>,
    n: usize,
    set: LoaderBuilder<S>,
    with: LoaderBuilder<S>,
)
    requires
        set.num_shards() == n && set.sources() == b.sources(),
        with.num_shards() == n && with.sources() == b.sources(),
    ensures
        set.num_shards() == with.num_shards(),
        set.sources() == with.sources(),
        effective_shards(set.num_shards() as nat) == effective_shards(with.num_shards() as nat),
{
}

/// Builder for a [`Loader`]: the sources it asks, in order, and the number of
/// shards requested for its shared state.
pub struct LoaderBuilder<S> {
    num_shards: usize,
    sources: Vec<S>,
}

impl<S> LoaderBuilder<S> {
    pub closed spec fn num_shards(&self) -> usize {
        self.num_shards
    }

    pub closed spec fn sources(&self) -> Seq<S> {
        self.sources@
    }

    /// Builder without sources, requesting 8 shards per CPU of the machine.
    pub fn new() -> (r: Self)
        ensures
            r.sources().len() == 0,
            r.num_shards() >= DEFAULT_SHARDS_PER_CPU,
            r.num_shards() % DEFAULT_SHARDS_PER_CPU == 0 || r.num_shards() == usize::MAX,
    {
        let cpus = available_cpus();
        Self::with_cpus(cpus)
    }

    /// Builder without sources for a machine with `cpus` CPUs: 8 shards per CPU
    /// (saturating at `usize::MAX`).
    pub fn with_cpus(cpus: usize) -> (r: Self)
        requires
            cpus >= 1,
        ensures
            r.sources().len() == 0,
            r.num_shards() == (if cpus * DEFAULT_SHARDS_PER_CPU <= usize::MAX {
                cpus * DEFAULT_SHARDS_PER_CPU
            } else {
                usize::MAX as int
            }),
            r.num_shards() >= DEFAULT_SHARDS_PER_CPU,
            r.num_shards() % DEFAULT_SHARDS_PER_CPU == 0 || r.num_shards() == usize::MAX,
    {
        let num_shards = if cpus <= usize::MAX / DEFAULT_SHARDS_PER_CPU {
            cpus * DEFAULT_SHARDS_PER_CPU
        } else {
            usize::MAX
        };
        assert(cpus * 8 <= usize::MAX ==> (cpus * 8) % 8int == 0);
        LoaderBuilder { num_shards, sources: Vec::new() }
    }

    /// Adds a source after those already added.
    pub fn add(&mut self, source: S) -> (r: &mut Self)
        ensures
            r.sources() == old(self).sources().push(source),
            r.num_shards() == old(self).num_shards(),
            *final(self) == *final(r),
    {
        self.sources.push(source);
        self
    }

    /// Adds a source after those already added.
    pub fn with(self, source: S) -> (r: Self)
        ensures
            r.sources() == self.sources().push(source),
            r.num_shards() == self.num_shards(),
    {
        let mut me = self;
        me.sources.push(source);
        me
    }

    /// Sets the number of shards requested.
    pub fn set_num_shards(&mut self, num_shards: usize) -> (r: &mut Self)
        ensures
            r.num_shards() == num_shards,
            r.sources() == old(self).sources(),
            *final(self) == *final(r),
    {
        self.num_shards = num_shards;
        self
    }

    /// Sets the number of shards requested.
    pub fn with_num_shards(self, num_shards: usize) -> (r: Self)
        ensures
            r.num_shards() == num_shards,
            r.sources() == self.sources(),
    {
        let mut me = self;
        me.num_shards = num_shards;
        me
    }

    /// Builds the loader configuration: the sources in the order they were
    /// added, and the requested number of shards bumped to the next power of
    /// two and limited to 512.
    pub fn build(self) -> (r: Loader<S>)
        ensures
            r.sources() == self.sources(),
            r.num_shards() as nat == effective_shards(self.num_shards() as nat),
    {
        let requested = self.num_shards;
        let num_shards: usize = if requested > MAX_SHARDS {
            MAX_SHARDS
        } else {
            let mut p: usize = 1;
            while p < requested
                invariant
                    1 <= p <= 512,
                    requested <= 512,
                    is_pow2(p as nat),
                    smallest_pow2_from(requested as nat, p as nat) == smallest_pow2_from(
                        requested as nat,
                        1,
                    ),
                decreases 512 - p,
            {
                proof {
                    lemma_pow2_le_512(p as nat, requested as nat);
                    assert(is_pow2((p * 2) as nat)) by {
                        assert(((p * 2) as nat) / 2 == p as nat);
                    }
                }
                p = p * 2;
            }
            p
        };
        Loader { num_shards, sources: self.sources }
    }
}

/// Configuration of a built loader.
pub struct Loader<S> {
    num_shards: usize,
    sources: Vec<S>,
}

impl<S> Loader<S> {
    pub closed spec fn num_shards(&self) -> usize {
        self.num_shards
    }

    pub closed spec fn sources(&self) -> Seq<S> {
        self.sources@
    }

    /// Builder for a loader.
    pub fn builder() -> (r: LoaderBuilder<S>)
        ensures
            r.sources().len() == 0,
            r.num_shards() >= DEFAULT_SHARDS_PER_CPU,
    {
        LoaderBuilder::new()
    }

    /// Number of shards of the loader's shared state.
    pub fn shard_count(&self) -> (r: usize)
        ensures
            r == self.num_shards(),
    {
        self.num_shards
    }

    /// The loader's sources, in the order they are asked.
    pub fn sources_in_order(&self) -> (r: &[S])
        ensures
            r@ == self.sources(),
    {
        self.sources.as_slice()
    }

    /// Shard that holds the entry of a key with hash `key_hash`: the same key
    /// always lands in the same shard.
    pub fn shard_index(&self, key_hash: u64) -> (r: usize)
        requires
            self.num_shards() >= 1,
        ensures
            r == (key_hash as usize) % self.num_shards(),
            r < self.num_shards(),
    {
        (key_hash as usize) % self.num_shards
    }
}

} // verus!
