//! Raw asset data and the rule by which a list of sources is asked for it: in
//! order, stopping at the first source that has the asset or fails.
use vstd::prelude::*;

use crate::error::{Report, SourceError};

verus! {

/// Asset data loaded from a source.
#[derive(Debug)]
pub struct AssetData {
    /// Serialized asset data.
    pub bytes: Vec<u8>,
    /// Opaque version of the asset, meaningful only to the source that returned it.
    pub version: u64,
}

/// Asset data together with the index of the source it came from.
#[derive(Debug)]
pub struct Data {
    pub bytes: Vec<u8>,
    pub version: u64,
    pub source: usize,
}

impl Data {
    /// The data source number `index` returned.
    pub fn from_source(index: usize, data: AssetData) -> (r: Data)
        ensures
            r.bytes@ == data.bytes@,
            r.version == data.version,
            r.source == index,
    {
        Data { bytes: data.bytes, version: data.version, source: index }
    }
}

/// Answer of one source.
pub enum Probe<T, E> {
    /// The source does not have the asset; the next one is asked.
    Miss,
    /// The source has it.
    Hit(T),
    /// The source failed; the scan stops with this error.
    Fail(E),
}

/// Outcome of asking the sources in order, given their answers: the first
/// answer that is not a miss, or `None` when every source missed.
pub open spec fn scan<T, E>(probes: Seq<Probe<T, E>>) -> Option<Result<T, E>>
    decreases probes.len(),
{
    if probes.len() == 0 {
        None
    } else {
        match probes[0] {
            Probe::Miss => scan(probes.drop_first()),
            Probe::Hit(t) => Some(Ok(t)),
            Probe::Fail(e) => Some(Err(e)),
        }
    }
}

/// Law: the scan over a longer list of answers is decided by the shorter one
/// when that one is decided, and by the new answer otherwise.
pub proof fn lemma_scan_push<T, E>(probes: Seq<Probe<T, E>>, p: Probe<T, E>)
    ensures
        scan(probes.push(p)) == match scan(probes) {
            Some(r) => Some(r),
            None => scan(seq![p]),
        },
    decreases probes.len(),
{
    if probes.len() == 0 {
        assert(probes.push(p) =~= seq![p]);
    } else {
        assert(probes.push(p).drop_first() =~= probes.drop_first().push(p));
        lemma_scan_push(probes.drop_first(), p);
    }
}

/// A scan over sources in progress: the answers received so far.
pub struct SourceScan<T, E> {
    answers: Ghost<Seq<Probe<T, E>>>,
}

impl<T, E> SourceScan<T, E> {
    pub closed spec fn answers(&self) -> Seq<Probe<T, E>> {
        self.answers@
    }

    /// A scan that has asked no source yet.
    pub fn new() -> (r: Self)
        ensures
            r.answers() == Seq::<Probe<T, E>>::empty(),
    {
        SourceScan { answers: Ghost(Seq::empty()) }
    }

    /// Takes the answer of the next source. Returns the outcome when the scan is
    /// over, or `None` when the next source must be asked.
    pub fn feed(&mut self, probe: Probe<T, E>) -> (r: Option<Result<T, E>>)
        requires
            scan(old(self).answers()) is None,
        ensures
            final(self).answers() == old(self).answers().push(probe),
            r == scan(final(self).answers()),
    {
        proof {
            lemma_scan_push(self.answers@, probe);
            assert(seq![probe].drop_first() =~= Seq::<Probe<T, E>>::empty());
            assert(scan(Seq::<Probe<T, E>>::empty()) is None);
            assert(seq![probe][0] == probe);
            self.answers@ = self.answers@.push(probe);
        }
        match probe {
            Probe::Miss => None,
            Probe::Hit(t) => Some(Ok(t)),
            Probe::Fail(e) => Some(Err(e)),
        }
    }
}

/// The answer a source gives when read through a registry: not found means
/// ask the next source.
pub fn probe_read(result: Result<Vec<u8>, SourceError>) -> (r: Probe<Vec<u8>, Report>)
    ensures
        match result {
            Ok(b) => r == Probe::<Vec<u8>, Report>::Hit(b),
            Err(SourceError::NotFound) => r is Miss,
            Err(SourceError::Error(e)) => r == Probe::<Vec<u8>, Report>::Fail(e),
        },
{
    match result {
        Ok(bytes) => Probe::Hit(bytes),
        Err(SourceError::NotFound) => Probe::Miss,
        Err(SourceError::Error(e)) => Probe::Fail(e),
    }
}

/// Result of reading through a registry, from the outcome of its scan: when no
/// source has the asset, it is not found.
pub fn read_result(outcome: Option<Result<Vec<u8>, Report>>) -> (r: Result<Vec<u8>, SourceError>)
    ensures
        match outcome {
            None => r matches Err(SourceError::NotFound),
            Some(Ok(b)) => r == Ok::<Vec<u8>, SourceError>(b),
            Some(Err(e)) => r matches Err(SourceError::Error(re)) && re == e,
        },
{
    match outcome {
        None => Err(SourceError::NotFound),
        Some(Ok(b)) => Ok(b),
        Some(Err(e)) => Err(SourceError::Error(e)),
    }
}

/// The answer source `index` gives when loading an asset: having no data
/// means ask the next source.
pub fn probe_load<E>(index: usize, result: Result<Option<AssetData>, E>) -> (r: Probe<Data, E>)
    ensures
        match result {
            Ok(None) => r is Miss,
            Ok(Some(d)) => r matches Probe::Hit(data) && data.bytes@ == d.bytes@ && data.version
                == d.version && data.source == index,
            Err(e) => r == Probe::<Data, E>::Fail(e),
        },
{
    match result {
        Ok(None) => Probe::Miss,
        Ok(Some(d)) => Probe::Hit(Data::from_source(index, d)),
        Err(e) => Probe::Fail(e),
    }
}

/// Collection of registered sources, asked in the order they were added; the
/// local ones (those whose reads cannot move between threads) after the others.
pub struct Registry<S, L> {
    sources: Vec<S>,
    local_sources: Vec<L>,
}

/// Builder for a source registry.
pub struct RegistryBuilder<S, L> {
    sources: Vec<S>,
    local_sources: Vec<L>,
}

impl<S, L> RegistryBuilder<S, L> {
    pub closed spec fn sources(&self) -> Seq<S> {
        self.sources@
    }

    pub closed spec fn local_sources(&self) -> Seq<L> {
        self.local_sources@
    }

    /// Empty builder.
    pub fn new() -> (r: Self)
        ensures
            r.sources().len() == 0,
            r.local_sources().len() == 0,
    {
        RegistryBuilder { sources: Vec::new(), local_sources: Vec::new() }
    }

    /// Adds a source after those already added.
    pub fn add(&mut self, source: S) -> (r: &mut Self)
        ensures
            r.sources() == old(self).sources().push(source),
            r.local_sources() == old(self).local_sources(),
            *final(self) == *final(r),
    {
        self.sources.push(source);
        self
    }

    /// Adds a local source after those already added.
    pub fn add_local(&mut self, source: L) -> (r: &mut Self)
        ensures
            r.local_sources() == old(self).local_sources().push(source),
            r.sources() == old(self).sources(),
            *final(self) == *final(r),
    {
        self.local_sources.push(source);
        self
    }

    /// Adds a source after those already added.
    pub fn with(self, source: S) -> (r: Self)
        ensures
            r.sources() == self.sources().push(source),
            r.local_sources() == self.local_sources(),
    {
        let mut me = self;
        me.sources.push(source);
        me
    }

    /// Adds a local source after those already added.
    pub fn with_local(self, source: L) -> (r: Self)
        ensures
            r.local_sources() == self.local_sources().push(source),
            r.sources() == self.sources(),
    {
        let mut me = self;
        me.local_sources.push(source);
        me
    }

    /// The registry of the added sources, in the order they were added.
    pub fn build(self) -> (r: Registry<S, L>)
        ensures
            r.sources() == self.sources(),
            r.local_sources() == self.local_sources(),
    {
        Registry { sources: self.sources, local_sources: self.local_sources }
    }
}

impl<S, L> Registry<S, L> {
    pub closed spec fn sources(&self) -> Seq<S> {
        self.sources@
    }

    pub closed spec fn local_sources(&self) -> Seq<L> {
        self.local_sources@
    }

    /// Builder of a registry.
    pub fn builder() -> (r: RegistryBuilder<S, L>)
        ensures
            r.sources().len() == 0,
            r.local_sources().len() == 0,
    {
        RegistryBuilder::new()
    }

    /// The sources that `read` asks, in order.
    pub fn sources_in_order(&self) -> (r: &[S])
        ensures
            r@ == self.sources(),
    {
        self.sources.as_slice()
    }

    /// The local sources that `read_local` asks after the others, in order.
    pub fn local_sources_in_order(&self) -> (r: &[L])
        ensures
            r@ == self.local_sources(),
    {
        self.local_sources.as_slice()
    }
}

} // verus!
