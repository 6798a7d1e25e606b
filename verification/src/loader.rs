//! The loader's shared state: which assets were requested, by identifier or by
//! path, and how far loading of each has come; the handles that callers poll and
//! the results they build assets from.
//!
//! Every operation here is one step of the loader. The driver that owns the
//! tables performs the work a step asks for (a search or a load task, waking
//! wakers) and feeds the outcome back as the next step.
use vstd::prelude::*;
use vstd::hash_map::{HashMapWithView, StringHashMap};

use crate::id::{hex_chars, AssetId, TypedAssetId};
use crate::text::{push_char, push_str};

verus! {

broadcast use vstd::std_specs::hash::group_hash_axioms;

/// Error that occurred while loading an asset. It stands for the error it
/// wraps: that error's description (its `Display` form), its debug text (its
/// `Debug` form) and the error that caused it, if any.
#[derive(Debug)]
pub struct Error {
    message: String,
    debug: String,
    source: Option<Box<Error>>,
}

impl View for Error {
    type V = Seq<char>;

    closed spec fn view(&self) -> Seq<char> {
        self.message@
    }
}

/// The chain of an optional error: empty for none.
pub open spec fn source_chain(source: Option<Error>) -> Seq<(Seq<char>, Seq<char>)> {
    match source {
        Some(e) => e.chain(),
        None => Seq::empty(),
    }
}

impl Error {
    /// The error and its sources, from the error itself down to the first
    /// cause: the description and the debug text of each.
    pub closed spec fn chain(&self) -> Seq<(Seq<char>, Seq<char>)>
        decreases self,
    {
        let rest = match self.source {
            Some(s) => (*s).chain(),
            None => Seq::empty(),
        };
        seq![(self.message@, self.debug@)] + rest
    }

    /// Wraps an error given by its description, its debug text and its source.
    pub fn new(message: String, debug: String, source: Option<Error>) -> (r: Error)
        ensures
            r@ == message@,
            r.chain() == seq![(message@, debug@)] + source_chain(source),
    {
        let source = match source {
            Some(e) => Some(Box::new(e)),
            None => None,
        };
        Error { message, debug, source }
    }

    /// The description of the error (its `Display` form).
    pub fn message(&self) -> (r: &str)
        ensures
            r@ == self@,
            r@ == self.chain()[0].0,
    {
        self.message.as_str()
    }

    /// The debug text of the error (its `Debug` form).
    pub fn debug_message(&self) -> (r: &str)
        ensures
            r@ == self.chain()[0].1,
    {
        self.debug.as_str()
    }

    /// The error that caused this one, if any.
    pub fn source(&self) -> (r: Option<&Error>)
        ensures
            self.chain().len() >= 1,
            match r {
                Some(e) => e.chain() == self.chain().drop_first(),
                None => self.chain().len() == 1,
            },
    {
        proof {
            let rest = match &self.source {
                Some(s) => (**s).chain(),
                None => Seq::empty(),
            };
            assert(self.chain().drop_first() =~= rest);
        }
        match &self.source {
            Some(s) => Some(&**s),
            None => None,
        }
    }
}

impl Clone for Error {
    fn clone(&self) -> (r: Self)
        ensures
            r@ == self@,
            r.chain() == self.chain(),
        decreases self,
    {
        let source = match &self.source {
            Some(s) => Some(Box::new((**s).clone())),
            None => None,
        };
        Error { message: self.message.clone(), debug: self.debug.clone(), source }
    }
}

/// Error of a lookup or a build that found no asset.
#[derive(Debug)]
pub struct NotFound {
    pub path: Option<String>,
    pub id: Option<AssetId>,
}

/// Text of a `NotFound` error.
pub open spec fn not_found_text(path: Option<Seq<char>>, id: Option<u64>) -> Seq<char> {
    match (path, id) {
        (None, None) => "Failed to load an asset. [No AssetId or path provided]"@,
        (Some(p), None) => "Failed to load asset '"@ + p + "'"@,
        (None, Some(i)) => "Failed to load asset '"@ + hex_chars(i as nat, false) + "'"@,
        (Some(p), Some(i)) => "Failed to load asset '"@ + hex_chars(i as nat, false) + " @ "@ + p
            + "'"@,
    }
}

pub open spec fn opt_string_view(o: Option<String>) -> Option<Seq<char>> {
    match o {
        Some(s) => Some(s@),
        None => None,
    }
}

pub open spec fn opt_id_view(o: Option<AssetId>) -> Option<u64> {
    match o {
        Some(i) => Some(i@),
        None => None,
    }
}

impl NotFound {
    /// The error's text (its `Display` and `Debug` form).
    pub fn message(&self) -> (r: String)
        ensures
            r@ == not_found_text(opt_string_view(self.path), opt_id_view(self.id)),
    {
        let mut s = String::new();
        proof {
            reveal_strlit("Failed to load an asset. [No AssetId or path provided]");
            reveal_strlit("Failed to load asset '");
            reveal_strlit("'");
            reveal_strlit(" @ ");
        }
        match (&self.path, &self.id) {
            (None, None) => {
                push_str(&mut s, "Failed to load an asset. [No AssetId or path provided]");
            },
            (Some(path), None) => {
                push_str(&mut s, "Failed to load asset '");
                push_str(&mut s, path.as_str());
                push_str(&mut s, "'");
            },
            (None, Some(id)) => {
                push_str(&mut s, "Failed to load asset '");
                let h = id.to_lower_hex();
                push_str(&mut s, h.as_str());
                push_str(&mut s, "'");
            },
            (Some(path), Some(id)) => {
                push_str(&mut s, "Failed to load asset '");
                let h = id.to_lower_hex();
                push_str(&mut s, h.as_str());
                push_str(&mut s, " @ ");
                push_str(&mut s, path.as_str());
                push_str(&mut s, "'");
            },
        }
        s
    }

    /// The error as a loading error: its debug text is its text, and it has
    /// no source.
    pub fn into_error(&self) -> (r: Error)
        ensures
            r@ == not_found_text(opt_string_view(self.path), opt_id_view(self.id)),
            r.chain() == seq![(r@, r@)],
    {
        let text = self.message();
        let r = Error::new(text.clone(), text, None);
        assert(r.chain() =~= seq![(r@, r@)]);
        r
    }
}

/// Error of an asset result whose building panicked.
#[derive(Debug, Clone, Copy)]
pub struct AssetResultPoisoned;

impl AssetResultPoisoned {
    /// The error's text (its `Display` form).
    pub fn message(&self) -> (r: &'static str)
        ensures
            r@ == "`AssetResult` poisoned by panic"@,
    {
        "`AssetResult` poisoned by panic"
    }
}

/// How an asset is requested: by path or by identifier.
#[derive(Clone, Copy, Debug)]
pub enum Key<'a> {
    Path(&'a str),
    Id(AssetId),
}

impl<'a> From<&'a str> for Key<'a> {
    fn from(s: &'a str) -> (r: Key<'a>) {
        Key::Path(s)
    }
}

impl<'a> vstd::std_specs::convert::FromSpecImpl<&'a str> for Key<'a> {
    open spec fn obeys_from_spec() -> bool {
        true
    }

    open spec fn from_spec(s: &'a str) -> Key<'a> {
        Key::Path(s)
    }
}

impl<'a> From<AssetId> for Key<'a> {
    fn from(id: AssetId) -> (r: Key<'a>) {
        Key::Id(id)
    }
}

impl<'a> vstd::std_specs::convert::FromSpecImpl<AssetId> for Key<'a> {
    open spec fn obeys_from_spec() -> bool {
        true
    }

    open spec fn from_spec(id: AssetId) -> Key<'a> {
        Key::Id(id)
    }
}

/// Loading state of an asset requested by identifier.
pub enum AssetState<A, D> {
    /// Not loaded yet; the wakers wait for the outcome.
    Unloaded { wakers: Vec<u64> },
    /// Decoded and waiting to be built.
    Decoded { decoded: D, version: u64, source: usize },
    /// Built.
    Asset { asset: A, version: u64, source: usize },
    /// All sources reported that the asset is missing.
    Missing,
    /// Loading failed.
    Error { error: Error },
}

/// Loading state of an asset requested by path.
pub enum PathAssetState {
    /// The search is not over; the wakers wait for its outcome.
    Unloaded { wakers: Vec<u64> },
    /// The path denotes the asset with this identifier.
    Loaded { id: AssetId },
    /// No source knows the path.
    Missing,
}

/// What a load task found.
pub enum LoadOutcome<D> {
    /// A source failed.
    Failed(Error),
    /// No source has the asset.
    NotFound,
    /// A source had the asset and it was decoded.
    Loaded { decoded: D, version: u64, source: usize },
}

/// What the state of a requested asset becomes once its load task reports.
pub open spec fn state_after_load<A, D>(outcome: LoadOutcome<D>) -> AssetState<A, D> {
    match outcome {
        LoadOutcome::Failed(error) => AssetState::Error { error },
        LoadOutcome::NotFound => AssetState::Missing,
        LoadOutcome::Loaded { decoded, version, source } => AssetState::Decoded {
            decoded,
            version,
            source,
        },
    }
}

/// The state an asset is left in by its load task's report: failed with the
/// reported error itself, missing exactly when no source had the asset, or
/// decoded with the reported value, version and source.
pub open spec fn load_recorded<A, D>(s: AssetState<A, D>, outcome: LoadOutcome<D>) -> bool {
    &&& (s is Missing) == (outcome is NotFound)
    &&& match outcome {
        LoadOutcome::Failed(e) => s matches AssetState::Error { error } && error.chain() == e.chain(),
        LoadOutcome::NotFound => true,
        LoadOutcome::Loaded { decoded, version, source } => s matches AssetState::Decoded {
            decoded: d,
            version: v,
            source: src,
        } && d == decoded && v == version && src == source,
    }
}

/// Whether a handle state and a result state that reflect the asset after a
/// failed load report the failure's error.
pub open spec fn failure_reported<A: Clone, D>(
    outcome: LoadOutcome<D>,
    h: HandleState<A>,
    r: ResultState<A>,
) -> bool {
    match outcome {
        LoadOutcome::Failed(e) => {
            &&& handle_reflects(h, state_after_load::<A, D>(outcome)) ==> (h matches HandleState::Error {
                error,
            } && error.chain() == e.chain())
            &&& result_reflects(r, state_after_load::<A, D>(outcome)) ==> (r matches ResultState::Error(
                re,
            ) && re.chain() == e.chain())
        },
        _ => true,
    }
}

/// Law: what a load task reports is what every request of the asset then
/// sees. A failure with error `e` leaves the asset failed with `e` itself, so a
/// handle or a result that reflects the asset reports `e` (its description,
/// debug text and causes); only a report that no source has the asset makes it
/// missing; a decoded value is kept, with its version and source, to be built.
pub proof fn lemma_load_report_is_kept<A: Clone, D>(
    outcome: LoadOutcome<D>,
    h: HandleState<A>,
    r: ResultState<A>,
)
    ensures
        load_recorded(state_after_load::<A, D>(outcome), outcome),
        failure_reported(outcome, h, r),
{
}

/// Loading is over for the asset: it is built, missing or failed.
pub open spec fn is_settled<A, D>(s: AssetState<A, D>) -> bool {
    s is Asset || s is Missing || s is Error
}

/// `b` is a state that may follow `a`: an unloaded asset may take any state, a
/// decoded one may only be built from that decoding or fail, a settled one stays.
pub open spec fn may_follow<A, D>(a: AssetState<A, D>, b: AssetState<A, D>) -> bool {
    match a {
        AssetState::Unloaded { .. } => true,
        AssetState::Decoded { version, source, .. } => b == a || b is Error || (b matches AssetState::Asset {
            version: v,
            source: s,
            ..
        } && v == version && s == source),
        _ => b == a,
    }
}

pub open spec fn path_may_follow(a: PathAssetState, b: PathAssetState) -> bool {
    match a {
        PathAssetState::Unloaded { .. } => true,
        _ => b == a,
    }
}

/// Every request recorded in `m0` is still recorded in `m1`, and its state has
/// only moved forward.
pub open spec fn assets_progress<A, D>(m0: Map<u64, AssetState<A, D>>, m1: Map<u64, AssetState<A, D>>) -> bool {
    &&& forall|k: u64| #[trigger] m0.contains_key(k) ==> m1.contains_key(k)
    &&& forall|k: u64| #[trigger] m0.contains_key(k) ==> may_follow(m0[k], m1[k])
}

pub open spec fn paths_progress(
    m0: Map<Seq<char>, PathAssetState>,
    m1: Map<Seq<char>, PathAssetState>,
) -> bool {
    &&& forall|k: Seq<char>| #[trigger] m0.contains_key(k) ==> m1.contains_key(k)
    &&& forall|k: Seq<char>| #[trigger] m0.contains_key(k) ==> path_may_follow(m0[k], m1[k])
}

/// Law: the progress of the asset states composes, so over any run of steps a
/// request is never forgotten and a settled asset never changes.
pub proof fn lemma_assets_progress_transitive<A, D>(
    m0: Map<u64, AssetState<A, D>>,
    m1: Map<u64, AssetState<A, D>>,
    m2: Map<u64, AssetState<A, D>>,
)
    requires
        assets_progress(m0, m1),
        assets_progress(m1, m2),
    ensures
        assets_progress(m0, m2),
{
    assert forall|k: u64| #[trigger] m0.contains_key(k) implies may_follow(m0[k], m2[k]) by {
        assert(m1.contains_key(k));
        assert(may_follow(m0[k], m1[k]));
        assert(may_follow(m1[k], m2[k]));
    }
}

/// Law: the progress of the path states composes likewise.
pub proof fn lemma_paths_progress_transitive(
    m0: Map<Seq<char>, PathAssetState>,
    m1: Map<Seq<char>, PathAssetState>,
    m2: Map<Seq<char>, PathAssetState>,
)
    requires
        paths_progress(m0, m1),
        paths_progress(m1, m2),
    ensures
        paths_progress(m0, m2),
{
    assert forall|k: Seq<char>| #[trigger] m0.contains_key(k) implies path_may_follow(m0[k], m2[k]) by {
        assert(m1.contains_key(k));
    }
}

/// Effect of a request by identifier: a new request records the asset as
/// unloaded with no waker and starts a load task; a repeated one changes nothing.
pub open spec fn request_id_effect<A, D>(
    m0: Map<u64, AssetState<A, D>>,
    id: u64,
    spawned: bool,
    m1: Map<u64, AssetState<A, D>>,
) -> bool {
    if m0.contains_key(id) {
        !spawned && m1 == m0
    } else {
        &&& spawned
        &&& m1.contains_key(id)
        &&& m1[id] matches AssetState::Unloaded { wakers } && wakers@.len() == 0
        &&& m1.remove(id) == m0
    }
}

/// Effect of a request by path, likewise on the path states.
pub open spec fn request_path_effect(
    m0: Map<Seq<char>, PathAssetState>,
    path: Seq<char>,
    spawned: bool,
    m1: Map<Seq<char>, PathAssetState>,
) -> bool {
    if m0.contains_key(path) {
        !spawned && m1 == m0
    } else {
        &&& spawned
        &&& m1.contains_key(path)
        &&& m1[path] matches PathAssetState::Unloaded { wakers } && wakers@.len() == 0
        &&& m1.remove(path) == m0
    }
}

/// Law: an asset requested a second time by identifier is not loaded again and
/// the second request changes nothing, whatever became of the first.
pub proof fn lemma_request_id_once<A, D>(
    m0: Map<u64, AssetState<A, D>>,
    id: u64,
    s1: bool,
    m1: Map<u64, AssetState<A, D>>,
    s2: bool,
    m2: Map<u64, AssetState<A, D>>,
)
    requires
        request_id_effect(m0, id, s1, m1),
        request_id_effect(m1, id, s2, m2),
    ensures
        !s2,
        m2 == m1,
        s1 <==> !m0.contains_key(id),
{
}

/// Law: a path searched for a second time is not searched again.
pub proof fn lemma_request_path_once(
    m0: Map<Seq<char>, PathAssetState>,
    path: Seq<char>,
    s1: bool,
    m1: Map<Seq<char>, PathAssetState>,
    s2: bool,
    m2: Map<Seq<char>, PathAssetState>,
)
    requires
        request_path_effect(m0, path, s1, m1),
        request_path_effect(m1, path, s2, m2),
    ensures
        !s2,
        m2 == m1,
        s1 <==> !m0.contains_key(path),
{
}

/// State of a handle.
pub enum HandleState<A> {
    Asset { asset: A },
    Error { error: Error },
    Missing,
    /// Waiting for the path to be resolved.
    Searching,
    /// Waiting for the asset with the handle's identifier.
    Loading,
}

/// Handle for a requested asset. Polled against the tables it was made from,
/// it resolves into an [`AssetResult`].
pub struct AssetHandle<A> {
    pub path: Option<String>,
    pub id: Option<AssetId>,
    pub state: HandleState<A>,
}

/// State of an asset result.
pub enum ResultState<A> {
    Asset(A),
    Error(Error),
    Missing,
    /// The asset is decoded and must be built.
    Decoded,
}

/// A resolved request: the asset, its error, its absence, or its decoded form
/// that can be built.
pub struct AssetResult<A> {
    pub path: Option<String>,
    pub id: Option<AssetId>,
    pub state: ResultState<A>,
}

/// Outcome of a lookup of an asset's identifier by path.
pub enum LookupState {
    AssetId { id: AssetId },
    Missing,
    Searching,
}

/// Lookup of an asset's identifier by path.
pub struct AssetLookup {
    pub path: String,
    pub state: LookupState,
}

/// What the driver must do after a path search completed.
pub struct FindCompletion {
    /// Wakers to wake.
    pub wake: Vec<u64>,
    /// Identifier whose load task must be started, if any.
    pub load: Option<AssetId>,
}

/// The handle state a fresh request reports for an asset in state `e`.
pub open spec fn handle_reflects<A: Clone, D>(h: HandleState<A>, e: AssetState<A, D>) -> bool {
    match e {
        AssetState::Unloaded { .. } => h is Loading,
        AssetState::Decoded { .. } => h is Loading,
        AssetState::Asset { asset, .. } => h matches HandleState::Asset { asset: ha } && cloned(
            asset,
            ha,
        ),
        AssetState::Missing => h is Missing,
        AssetState::Error { error } => h matches HandleState::Error { error: he } && he.chain() == error.chain(),
    }
}

/// The result state reported for a handle in a settled state.
pub open spec fn result_reflects_handle<A: Clone>(r: ResultState<A>, h: HandleState<A>) -> bool {
    match h {
        HandleState::Asset { asset } => r matches ResultState::Asset(ra) && cloned(asset, ra),
        HandleState::Error { error } => r matches ResultState::Error(re) && re.chain() == error.chain(),
        HandleState::Missing => r is Missing,
        _ => false,
    }
}

/// The result state reported for an asset in state `e` that is no longer unloaded.
pub open spec fn result_reflects<A: Clone, D>(r: ResultState<A>, e: AssetState<A, D>) -> bool {
    match e {
        AssetState::Unloaded { .. } => false,
        AssetState::Decoded { .. } => r is Decoded,
        AssetState::Asset { asset, .. } => r matches ResultState::Asset(ra) && cloned(asset, ra),
        AssetState::Missing => r is Missing,
        AssetState::Error { error } => r matches ResultState::Error(re) && re.chain() == error.chain(),
    }
}

/// Appends a waker to a list when there is one.
pub open spec fn with_waker(ws: Seq<u64>, waker: Option<u64>) -> Seq<u64> {
    match waker {
        Some(w) => ws.push(w),
        None => ws,
    }
}

/// One poll of a handle waiting for asset `id`, in asset state `a0[id]`: what
/// the handle becomes (`hs`), what it reports (`r`), and the asset states after.
pub open spec fn loading_step<A: Clone, D>(
    a0: Map<u64, AssetState<A, D>>,
    a1: Map<u64, AssetState<A, D>>,
    id: u64,
    waker: Option<u64>,
    hs: HandleState<A>,
    r: Option<ResultState<A>>,
) -> bool {
    match a0[id] {
        AssetState::Unloaded { wakers } => {
            &&& r is None
            &&& hs is Loading
            &&& a1.contains_key(id)
            &&& a1[id] matches AssetState::Unloaded { wakers: w } && w@ == with_waker(wakers@, waker)
            &&& a1.remove(id) == a0.remove(id)
        },
        AssetState::Decoded { .. } => a1 == a0 && hs is Loading && r == Some(ResultState::<A>::Decoded),
        e => {
            &&& a1 == a0
            &&& handle_reflects(hs, e)
            &&& r matches Some(rs) && result_reflects(rs, e)
        },
    }
}

/// Law: a task that polls a handle while its asset is unloaded is among the
/// wakers that the completion of the asset's load returns.
pub proof fn lemma_polling_task_is_woken<A: Clone, D>(
    a0: Map<u64, AssetState<A, D>>,
    a1: Map<u64, AssetState<A, D>>,
    id: u64,
    waker: u64,
    hs: HandleState<A>,
    r: Option<ResultState<A>>,
)
    requires
        a0.contains_key(id),
        a0[id] is Unloaded,
        loading_step(a0, a1, id, Some(waker), hs, r),
    ensures
        a1.contains_key(id),
        a1[id] is Unloaded,
        a1[id]->Unloaded_wakers@.contains(waker),
{
    let w = a1[id]->Unloaded_wakers@;
    assert(w[w.len() - 1] == waker);
}

/// One poll of handle `h0` against tables with assets `a0` and paths `p0`:
/// the handle becomes `h1`, the tables `a1` and `p1`, and the poll reports `r`.
pub open spec fn handle_poll_effect<A: Clone, D>(
    a0: Map<u64, AssetState<A, D>>,
    p0: Map<Seq<char>, PathAssetState>,
    h0: AssetHandle<A>,
    a1: Map<u64, AssetState<A, D>>,
    p1: Map<Seq<char>, PathAssetState>,
    h1: AssetHandle<A>,
    waker: Option<u64>,
    r: Option<AssetResult<A>>,
) -> bool {
    &&& h1.path == h0.path
    &&& (r matches Some(res) ==> res.path == h0.path && res.id == h1.id)
    &&& match h0.state {
        HandleState::Searching => {
            let p = h0.path->Some_0@;
            match p0[p] {
                PathAssetState::Missing => {
                    &&& h1.state is Missing
                    &&& h1.id == h0.id
                    &&& r matches Some(res) && res.state is Missing
                    &&& a1 == a0
                    &&& p1 == p0
                },
                PathAssetState::Unloaded { wakers } => {
                    &&& r is None
                    &&& h1.state is Searching
                    &&& h1.id == h0.id
                    &&& a1 == a0
                    &&& p1.contains_key(p)
                    &&& p1[p] matches PathAssetState::Unloaded {
                        wakers: w,
                    } && w@ == with_waker(wakers@, waker)
                    &&& p1.remove(p) == p0.remove(p)
                },
                PathAssetState::Loaded { id } => {
                    &&& h1.id == Some(id)
                    &&& p1 == p0
                    &&& loading_step(
                        a0,
                        a1,
                        id@,
                        waker,
                        h1.state,
                        match r {
                            Some(res) => Some(res.state),
                            None => None,
                        },
                    )
                },
            }
        },
        HandleState::Loading => {
            &&& h1.id == h0.id
            &&& p1 == p0
            &&& loading_step(
                a0,
                a1,
                h0.id->Some_0@,
                waker,
                h1.state,
                match r {
                    Some(res) => Some(res.state),
                    None => None,
                },
            )
        },
        _ => {
            &&& h1.state == h0.state
            &&& h1.id == h0.id
            &&& r matches Some(res) && result_reflects_handle(res.state, h0.state)
            &&& a1 == a0
            &&& p1 == p0
        },
    }
}

/// One poll of lookup `l0` against paths `p0`: the lookup becomes `l1`, the
/// paths `p1`, and the poll reports `r`.
pub open spec fn lookup_poll_effect(
    p0: Map<Seq<char>, PathAssetState>,
    l0: AssetLookup,
    p1: Map<Seq<char>, PathAssetState>,
    l1: AssetLookup,
    waker: Option<u64>,
    r: Option<Result<AssetId, NotFound>>,
) -> bool {
    &&& l1.path == l0.path
    &&& match l0.state {
        LookupState::AssetId { id } => {
            &&& r == Some(Ok::<AssetId, NotFound>(id))
            &&& l1.state == l0.state
            &&& p1 == p0
        },
        LookupState::Missing => {
            &&& r matches Some(Err(nf)) && nf.path == Some(l0.path) && nf.id is None
            &&& l1.state is Missing
            &&& p1 == p0
        },
        LookupState::Searching => match p0[l0.path@] {
            PathAssetState::Missing => {
                &&& r matches Some(Err(nf)) && nf.path == Some(l0.path)
                    && nf.id is None
                &&& l1.state is Missing
                &&& p1 == p0
            },
            PathAssetState::Loaded { id } => {
                &&& r == Some(Ok::<AssetId, NotFound>(id))
                &&& l1.state == (LookupState::AssetId { id })
                &&& p1 == p0
            },
            PathAssetState::Unloaded { wakers } => {
                &&& r is None
                &&& l1.state is Searching
                &&& p1.contains_key(l0.path@)
                &&& p1[l0.path@] matches PathAssetState::Unloaded {
                    wakers: w,
                } && w@ == with_waker(wakers@, waker)
                &&& p1.remove(l0.path@) == p0.remove(l0.path@)
            },
        },
    }
}

/// Law: a handle whose request is settled (its asset, its error, or that it is
/// missing) is left as it is by a poll, which changes no table and reports that
/// same outcome; so every later poll reports it too.
pub proof fn lemma_settled_handle_stays<A: Clone, D>(
    a0: Map<u64, AssetState<A, D>>,
    p0: Map<Seq<char>, PathAssetState>,
    h0: AssetHandle<A>,
    a1: Map<u64, AssetState<A, D>>,
    p1: Map<Seq<char>, PathAssetState>,
    h1: AssetHandle<A>,
    waker: Option<u64>,
    r: Option<AssetResult<A>>,
)
    requires
        h0.state is Asset || h0.state is Error || h0.state is Missing,
        handle_poll_effect(a0, p0, h0, a1, p1, h1, waker, r),
    ensures
        h1 == h0,
        a1 == a0,
        p1 == p0,
        r matches Some(res) && result_reflects_handle(res.state, h0.state) && res.path == h0.path
            && res.id == h0.id,
{
}

/// Law: handles of one asset share one outcome. Once the asset's load is over,
/// polls of any two handles waiting for it report what the one table entry
/// holds (clones of one asset, one error, or that it is missing), and the
/// polls change nothing.
pub proof fn lemma_handles_share_outcome<A: Clone, D>(
    a0: Map<u64, AssetState<A, D>>,
    a1: Map<u64, AssetState<A, D>>,
    a2: Map<u64, AssetState<A, D>>,
    id: u64,
    w1: Option<u64>,
    w2: Option<u64>,
    hs1: HandleState<A>,
    hs2: HandleState<A>,
    r1: Option<ResultState<A>>,
    r2: Option<ResultState<A>>,
)
    requires
        a0.contains_key(id),
        !(a0[id] is Unloaded),
        loading_step(a0, a1, id, w1, hs1, r1),
        loading_step(a1, a2, id, w2, hs2, r2),
    ensures
        a1 == a0,
        a2 == a0,
        r1 matches Some(s1) && result_reflects(s1, a0[id]),
        r2 matches Some(s2) && result_reflects(s2, a0[id]),
{
}

pub open spec fn opt_str_view(o: Option<&str>) -> Option<Seq<char>> {
    match o {
        Some(s) => Some(s@),
        None => None,
    }
}

/// Effect of building a result: a decoded asset is built by `build` from its
/// decoded form and the outcome, asset or error, is recorded for it; a result
/// whose asset was built or failed meanwhile reports that; any other result
/// stays as it is.
pub open spec fn build_effect<A: Clone, D, F: FnOnce(D) -> Result<A, Error>>(
    r0: ResultState<A>,
    id: Option<AssetId>,
    r1: ResultState<A>,
    a0: Map<u64, AssetState<A, D>>,
    a1: Map<u64, AssetState<A, D>>,
    build: F,
) -> bool {
    if r0 is Decoded {
        let key = id->Some_0@;
        match a0[key] {
            AssetState::Decoded { decoded, version, source } => match r1 {
                ResultState::Asset(a) => {
                    &&& call_ensures(build, (decoded,), Ok::<A, Error>(a))
                    &&& a1.contains_key(key)
                    &&& a1[key] matches AssetState::Asset { asset, version: v, source: s } && cloned(
                        a,
                        asset,
                    ) && v == version && s == source
                    &&& a1.remove(key) == a0.remove(key)
                },
                ResultState::Error(e) => {
                    &&& call_ensures(build, (decoded,), Err::<A, Error>(e))
                    &&& a1.contains_key(key)
                    &&& a1[key] matches AssetState::Error { error } && error.chain() == e.chain()
                    &&& a1.remove(key) == a0.remove(key)
                },
                _ => false,
            },
            e => {
                &&& a1 == a0
                &&& result_reflects(r1, e)
            },
        }
    } else {
        &&& r1 == r0
        &&& a1 == a0
    }
}

/// Law: an asset is built once. After one result built the decoded asset (or
/// failed to), building another result of the same asset calls no builder,
/// leaves the tables as they are, and reports the first outcome.
pub proof fn lemma_built_once<A: Clone, D, F: FnOnce(D) -> Result<A, Error>, G: FnOnce(D) -> Result<A, Error>>(
    id: AssetId,
    r1: ResultState<A>,
    r2: ResultState<A>,
    a0: Map<u64, AssetState<A, D>>,
    a1: Map<u64, AssetState<A, D>>,
    a2: Map<u64, AssetState<A, D>>,
    first: F,
    second: G,
)
    requires
        a0.contains_key(id@),
        a0[id@] is Decoded,
        build_effect(ResultState::Decoded, Some(id), r1, a0, a1, first),
        build_effect(ResultState::Decoded, Some(id), r2, a1, a2, second),
    ensures
        r1 is Asset || r1 is Error,
        a1[id@] is Asset || a1[id@] is Error,
        a2 == a1,
        result_reflects(r2, a1[id@]),
{
}

/// Effect of getting a result whose asset is decoded as itself: a decoded
/// asset becomes the asset and is recorded so; a result whose asset was built
/// meanwhile reports that; any other result stays as it is.
pub open spec fn trivial_build_effect<A: Clone>(
    r0: ResultState<A>,
    id: Option<AssetId>,
    r1: ResultState<A>,
    a0: Map<u64, AssetState<A, A>>,
    a1: Map<u64, AssetState<A, A>>,
) -> bool {
    if r0 is Decoded {
        let key = id->Some_0@;
        match a0[key] {
            AssetState::Decoded { decoded, version, source } => {
                &&& r1 == ResultState::Asset(decoded)
                &&& a1.contains_key(key)
                &&& a1[key] matches AssetState::Asset { asset, version: v, source: s } && cloned(
                    decoded,
                    asset,
                ) && v == version && s == source
                &&& a1.remove(key) == a0.remove(key)
            },
            e => {
                &&& a1 == a0
                &&& result_reflects(r1, e)
            },
        }
    } else {
        &&& r1 == r0
        &&& a1 == a0
    }
}

fn copy_wakers(v: &Vec<u64>) -> (r: Vec<u64>)
    ensures
        r@ == v@,
{
    let mut r: Vec<u64> = Vec::new();
    let mut i: usize = 0;
    while i < v.len()
        invariant
            i <= v.len(),
            r@ == v@.subrange(0, i as int),
        decreases v.len() - i,
    {
        r.push(v[i]);
        i = i + 1;
    }
    assert(r@ == v@.subrange(0, v.len() as int));
    assert(v@.subrange(0, v.len() as int) =~= v@);
    r
}

fn clone_path(p: &Option<String>) -> (r: Option<String>)
    ensures
        r == *p,
{
    match p {
        Some(s) => Some(s.clone()),
        None => None,
    }
}

/// The loader's tables for one asset type: states of the assets requested by
/// identifier and of the paths searched for.
#[verifier::reject_recursive_types(A)]
#[verifier::reject_recursive_types(D)]
pub struct AssetTable<A, D> {
    assets: HashMapWithView<u64, AssetState<A, D>>,
    paths: StringHashMap<PathAssetState>,
}

impl<A: Clone, D> AssetTable<A, D> {
    pub closed spec fn assets(&self) -> Map<u64, AssetState<A, D>> {
        self.assets@
    }

    pub closed spec fn paths(&self) -> Map<Seq<char>, PathAssetState> {
        self.paths@
    }

    /// Every path resolved to an identifier has a recorded request for it.
    pub open spec fn wf(&self) -> bool {
        forall|p: Seq<char>|
            #[trigger] self.paths().contains_key(p) ==> (self.paths()[p] matches PathAssetState::Loaded {
                id,
            } ==> self.assets().contains_key(id@))
    }

    /// The handle belongs to these tables: a searching handle's path and a
    /// loading handle's identifier are recorded.
    pub open spec fn handle_valid(&self, h: &AssetHandle<A>) -> bool {
        match h.state {
            HandleState::Searching => h.path matches Some(p) && self.paths().contains_key(p@),
            HandleState::Loading => h.id matches Some(id) && self.assets().contains_key(id@),
            _ => true,
        }
    }

    /// The result belongs to these tables: a decoded result's asset is decoded,
    /// built or failed.
    pub open spec fn result_valid(&self, r: &AssetResult<A>) -> bool {
        r.state is Decoded ==> (r.id matches Some(id) && self.assets().contains_key(id@) && (
        self.assets()[id@] is Decoded || self.assets()[id@] is Asset || self.assets()[id@] is Error))
    }

    pub open spec fn lookup_valid(&self, l: &AssetLookup) -> bool {
        l.state is Searching ==> self.paths().contains_key(l.path@)
    }

    /// Empty tables.
    pub fn new() -> (r: Self)
        ensures
            r.assets() == Map::<u64, AssetState<A, D>>::empty(),
            r.paths() == Map::<Seq<char>, PathAssetState>::empty(),
            r.wf(),
    {
        AssetTable { assets: HashMapWithView::new(), paths: StringHashMap::new() }
    }

    /// Requests the asset with identifier `id`. Returns its handle, and whether a
    /// load task must be started for it, which is the case exactly when it was
    /// not requested before. A repeated request shares the first one's state,
    /// even if that failed.
    pub fn load_by_id(&mut self, id: AssetId) -> (r: (AssetHandle<A>, bool))
        requires
            old(self).wf(),
        ensures
            final(self).wf(),
            request_id_effect(old(self).assets(), id@, r.1, final(self).assets()),
            final(self).paths() == old(self).paths(),
            r.0.path is None,
            r.0.id == Some(id),
            handle_reflects(r.0.state, final(self).assets()[id@]),
            final(self).handle_valid(&r.0),
            assets_progress(old(self).assets(), final(self).assets()),
    {
        let key = id.get();
        match self.assets.get(&key) {
            Some(state) => {
                let hs = Self::handle_state_of(state);
                (AssetHandle { path: None, id: Some(id), state: hs }, false)
            },
            None => {
                self.assets.insert(key, AssetState::Unloaded { wakers: Vec::new() });
                assert(self.assets@.remove(key) =~= old(self).assets@);
                (AssetHandle { path: None, id: Some(id), state: HandleState::Loading }, true)
            },
        }
    }

    fn handle_state_of(state: &AssetState<A, D>) -> (r: HandleState<A>)
        ensures
            handle_reflects(r, *state),
    {
        match state {
            AssetState::Error { error } => HandleState::Error { error: error.clone() },
            AssetState::Missing => HandleState::Missing,
            AssetState::Unloaded { .. } => HandleState::Loading,
            AssetState::Decoded { .. } => HandleState::Loading,
            AssetState::Asset { asset, .. } => HandleState::Asset { asset: asset.clone() },
        }
    }

    /// Requests the asset at `path`. Returns its handle, and whether a search
    /// task must be started for the path, which is the case exactly when the
    /// path was not requested before.
    pub fn load_by_path(&mut self, path: &str) -> (r: (AssetHandle<A>, bool))
        requires
            old(self).wf(),
        ensures
            final(self).wf(),
            request_path_effect(old(self).paths(), path@, r.1, final(self).paths()),
            final(self).assets() == old(self).assets(),
            r.0.path matches Some(p) && p@ == path@,
            match final(self).paths()[path@] {
                PathAssetState::Unloaded { .. } => r.0.state is Searching && r.0.id is None,
                PathAssetState::Missing => r.0.state is Missing && r.0.id is None,
                PathAssetState::Loaded { id } => r.0.state is Loading && r.0.id == Some(id),
            },
            final(self).handle_valid(&r.0),
            paths_progress(old(self).paths(), final(self).paths()),
    {
        match self.paths.get(path) {
            Some(PathAssetState::Missing) => (
                AssetHandle { path: Some(path.to_owned()), id: None, state: HandleState::Missing },
                false,
            ),
            Some(PathAssetState::Unloaded { .. }) => (
                AssetHandle {
                    path: Some(path.to_owned()),
                    id: None,
                    state: HandleState::Searching,
                },
                false,
            ),
            Some(PathAssetState::Loaded { id }) => (
                AssetHandle {
                    path: Some(path.to_owned()),
                    id: Some(*id),
                    state: HandleState::Loading,
                },
                false,
            ),
            None => {
                self.paths.insert(path.to_owned(), PathAssetState::Unloaded { wakers: Vec::new() });
                assert(self.paths@.remove(path@) =~= old(self).paths@);
                (
                    AssetHandle {
                        path: Some(path.to_owned()),
                        id: None,
                        state: HandleState::Searching,
                    },
                    true,
                )
            },
        }
    }

    /// Requests an asset by path or by identifier, as
    /// [`load_by_path`](Self::load_by_path) and [`load_by_id`](Self::load_by_id) do.
    /// Returns its handle and whether a search (for a path) or a load (for an
    /// identifier) must be started.
    pub fn load(&mut self, key: Key) -> (r: (AssetHandle<A>, bool))
        requires
            old(self).wf(),
        ensures
            final(self).wf(),
            final(self).handle_valid(&r.0),
            assets_progress(old(self).assets(), final(self).assets()),
            paths_progress(old(self).paths(), final(self).paths()),
            match key {
                Key::Path(path) => {
                    &&& request_path_effect(old(self).paths(), path@, r.1, final(self).paths())
                    &&& final(self).assets() == old(self).assets()
                    &&& r.0.path matches Some(p) && p@ == path@
                    &&& match final(self).paths()[path@] {
                        PathAssetState::Unloaded { .. } => r.0.state is Searching && r.0.id is None,
                        PathAssetState::Missing => r.0.state is Missing && r.0.id is None,
                        PathAssetState::Loaded { id } => r.0.state is Loading && r.0.id == Some(id),
                    }
                },
                Key::Id(id) => {
                    &&& request_id_effect(old(self).assets(), id@, r.1, final(self).assets())
                    &&& final(self).paths() == old(self).paths()
                    &&& r.0.path is None
                    &&& r.0.id == Some(id)
                    &&& handle_reflects(r.0.state, final(self).assets()[id@])
                },
            },
    {
        match key {
            Key::Path(path) => self.load_by_path(path),
            Key::Id(id) => self.load_by_id(id),
        }
    }

    /// Requests the asset with a typed identifier, as
    /// [`load_by_id`](Self::load_by_id) does with its identifier.
    pub fn load_typed(&mut self, id: TypedAssetId<A>) -> (r: (AssetHandle<A>, bool))
        requires
            old(self).wf(),
        ensures
            final(self).wf(),
            request_id_effect(old(self).assets(), id.id@, r.1, final(self).assets()),
            final(self).paths() == old(self).paths(),
            r.0.path is None,
            r.0.id == Some(id.id),
            handle_reflects(r.0.state, final(self).assets()[id.id@]),
            final(self).handle_valid(&r.0),
            assets_progress(old(self).assets(), final(self).assets()),
    {
        self.load_by_id(id.id)
    }

    /// Looks up the identifier of the asset at `path`. Returns the lookup, and
    /// whether a search task must be started, exactly when the path was not
    /// requested before.
    pub fn lookup(&mut self, path: &str) -> (r: (AssetLookup, bool))
        requires
            old(self).wf(),
        ensures
            final(self).wf(),
            request_path_effect(old(self).paths(), path@, r.1, final(self).paths()),
            final(self).assets() == old(self).assets(),
            r.0.path@ == path@,
            match final(self).paths()[path@] {
                PathAssetState::Unloaded { .. } => r.0.state is Searching,
                PathAssetState::Missing => r.0.state is Missing,
                PathAssetState::Loaded { id } => r.0.state == (LookupState::AssetId { id }),
            },
            final(self).lookup_valid(&r.0),
    {
        match self.paths.get(path) {
            Some(PathAssetState::Missing) => (
                AssetLookup { path: path.to_owned(), state: LookupState::Missing },
                false,
            ),
            Some(PathAssetState::Unloaded { .. }) => (
                AssetLookup { path: path.to_owned(), state: LookupState::Searching },
                false,
            ),
            Some(PathAssetState::Loaded { id }) => (
                AssetLookup { path: path.to_owned(), state: LookupState::AssetId { id: *id } },
                false,
            ),
            None => {
                self.paths.insert(path.to_owned(), PathAssetState::Unloaded { wakers: Vec::new() });
                assert(self.paths@.remove(path@) =~= old(self).paths@);
                (AssetLookup { path: path.to_owned(), state: LookupState::Searching }, true)
            },
        }
    }

    /// Records the outcome of the search for `path`: no source knows it, or it
    /// denotes asset `found`. The path's wakers are woken, unless they now wait
    /// for the asset itself, which happens when its load is still to come; when
    /// the asset was never requested, its load task must be started.
    pub fn complete_find(&mut self, path: &str, found: Option<AssetId>) -> (r: FindCompletion)
        requires
            old(self).wf(),
            old(self).paths().contains_key(path@),
            old(self).paths()[path@] is Unloaded,
        ensures
            final(self).wf(),
            assets_progress(old(self).assets(), final(self).assets()),
            paths_progress(old(self).paths(), final(self).paths()),
            ({
                let pw = old(self).paths()[path@]->Unloaded_wakers@;
                let a0 = old(self).assets();
                let a1 = final(self).assets();
                match found {
                    None => {
                        &&& final(self).paths() == old(self).paths().insert(
                            path@,
                            PathAssetState::Missing,
                        )
                        &&& a1 == a0
                        &&& r.wake@ == pw
                        &&& r.load is None
                    },
                    Some(id) => {
                        &&& final(self).paths() == old(self).paths().insert(
                            path@,
                            PathAssetState::Loaded { id },
                        )
                        &&& if !a0.contains_key(id@) {
                            &&& a1.contains_key(id@)
                            &&& a1[id@] matches AssetState::Unloaded { wakers } && wakers@ == pw
                            &&& a1.remove(id@) == a0
                            &&& r.wake@.len() == 0
                            &&& r.load == Some(id)
                        } else if a0[id@] is Unloaded {
                            &&& a1.contains_key(id@)
                            &&& a1[id@] matches AssetState::Unloaded { wakers } && wakers@
                                == a0[id@]->Unloaded_wakers@ + pw
                            &&& a1.remove(id@) == a0.remove(id@)
                            &&& r.wake@.len() == 0
                            &&& r.load is None
                        } else {
                            &&& a1 == a0
                            &&& r.wake@ == pw
                            &&& r.load is None
                        }
                    },
                }
            }),
    {
        let pw = match self.paths.get(path) {
            Some(PathAssetState::Unloaded { wakers }) => copy_wakers(wakers),
            _ => {
                assert(false);
                Vec::new()
            },
        };
        match found {
            None => {
                self.paths.insert(path.to_owned(), PathAssetState::Missing);
                FindCompletion { wake: pw, load: None }
            },
            Some(id) => {
                let key = id.get();
                self.paths.insert(path.to_owned(), PathAssetState::Loaded { id });
                match self.assets.remove(&key) {
                    None => {
                        self.assets.insert(key, AssetState::Unloaded { wakers: pw });
                        assert(self.assets@.remove(key) =~= old(self).assets@);
                        FindCompletion { wake: Vec::new(), load: Some(id) }
                    },
                    Some(AssetState::Unloaded { wakers }) => {
                        let mut all = wakers;
                        let mut moved = pw;
                        all.append(&mut moved);
                        self.assets.insert(key, AssetState::Unloaded { wakers: all });
                        assert(self.assets@.remove(key) =~= old(self).assets@.remove(key));
                        FindCompletion { wake: Vec::new(), load: None }
                    },
                    Some(other) => {
                        self.assets.insert(key, other);
                        assert(self.assets@ =~= old(self).assets@);
                        FindCompletion { wake: pw, load: None }
                    },
                }
            },
        }
    }

    /// Records the outcome of the load task for asset `id`. Its wakers are woken.
    pub fn complete_load(&mut self, id: AssetId, outcome: LoadOutcome<D>) -> (wake: Vec<u64>)
        requires
            old(self).wf(),
            old(self).assets().contains_key(id@),
            old(self).assets()[id@] is Unloaded,
        ensures
            final(self).wf(),
            final(self).assets() == old(self).assets().insert(id@, state_after_load(outcome)),
            final(self).paths() == old(self).paths(),
            wake@ == old(self).assets()[id@]->Unloaded_wakers@,
            assets_progress(old(self).assets(), final(self).assets()),
            load_recorded(final(self).assets()[id@], outcome),
    {
        let key = id.get();
        let old_state = self.assets.remove(&key);
        let wake = match old_state {
            Some(AssetState::Unloaded { wakers }) => wakers,
            _ => {
                assert(false);
                Vec::new()
            },
        };
        let new_state = match outcome {
            LoadOutcome::Failed(error) => AssetState::Error { error },
            LoadOutcome::NotFound => AssetState::Missing,
            LoadOutcome::Loaded { decoded, version, source } => AssetState::Decoded {
                decoded,
                version,
                source,
            },
        };
        self.assets.insert(key, new_state);
        assert(self.assets@ =~= old(self).assets@.insert(id@, state_after_load(outcome)));
        wake
    }

    /// One poll of a handle waiting for asset `id`: reports the asset, its
    /// error, its absence or its decoded form, or registers the waker and
    /// reports nothing while it is not loaded.
    fn step_loading(&mut self, id: AssetId, waker: Option<u64>) -> (r: (
        HandleState<A>,
        Option<ResultState<A>>,
    ))
        requires
            old(self).wf(),
            old(self).assets().contains_key(id@),
        ensures
            final(self).wf(),
            final(self).paths() == old(self).paths(),
            loading_step(old(self).assets(), final(self).assets(), id@, waker, r.0, r.1),
            assets_progress(old(self).assets(), final(self).assets()),
    {
        let key = id.get();
        let state = self.assets.remove(&key);
        match state {
            Some(AssetState::Unloaded { wakers }) => {
                let mut wakers = wakers;
                match waker {
                    Some(w) => wakers.push(w),
                    None => {},
                }
                self.assets.insert(key, AssetState::Unloaded { wakers });
                assert(self.assets@.remove(key) =~= old(self).assets@.remove(key));
                (HandleState::Loading, None)
            },
            Some(state) => {
                let r = match &state {
                    AssetState::Error { error } => (
                        HandleState::Error { error: error.clone() },
                        Some(ResultState::Error(error.clone())),
                    ),
                    AssetState::Missing => (HandleState::Missing, Some(ResultState::Missing)),
                    AssetState::Asset { asset, .. } => (
                        HandleState::Asset { asset: asset.clone() },
                        Some(ResultState::Asset(asset.clone())),
                    ),
                    AssetState::Decoded { .. } => (HandleState::Loading, Some(ResultState::Decoded)),
                    AssetState::Unloaded { .. } => {
                        assert(false);
                        (HandleState::Loading, None)
                    },
                };
                self.assets.insert(key, state);
                assert(self.assets@ =~= old(self).assets@);
                r
            },
            None => {
                assert(false);
                (HandleState::Loading, None)
            },
        }
    }

    /// Polls a handle: reports what became of its asset, or registers `waker`
    /// with the path or asset it waits for and reports nothing. A handle whose
    /// path resolved to an identifier goes on waiting for that asset.
    pub fn poll_handle(&mut self, handle: &mut AssetHandle<A>, waker: Option<u64>) -> (r: Option<
        AssetResult<A>,
    >)
        requires
            old(self).wf(),
            old(self).handle_valid(&*old(handle)),
        ensures
            final(self).wf(),
            final(self).handle_valid(&*final(handle)),
            assets_progress(old(self).assets(), final(self).assets()),
            paths_progress(old(self).paths(), final(self).paths()),
            handle_poll_effect(
                old(self).assets(),
                old(self).paths(),
                *old(handle),
                final(self).assets(),
                final(self).paths(),
                *final(handle),
                waker,
                r,
            ),
    {
        match &handle.state {
            HandleState::Asset { asset } => {
                return Some(
                    AssetResult {
                        path: clone_path(&handle.path),
                        id: handle.id,
                        state: ResultState::Asset(asset.clone()),
                    },
                );
            },
            HandleState::Error { error } => {
                return Some(
                    AssetResult {
                        path: clone_path(&handle.path),
                        id: handle.id,
                        state: ResultState::Error(error.clone()),
                    },
                );
            },
            HandleState::Missing => {
                return Some(
                    AssetResult {
                        path: clone_path(&handle.path),
                        id: handle.id,
                        state: ResultState::Missing,
                    },
                );
            },
            HandleState::Searching => {
                let path: &str = match &handle.path {
                    Some(p) => p.as_str(),
                    None => {
                        assert(false);
                        return None;
                    },
                };
                let found: Option<AssetId> = match self.paths.get(path) {
                    Some(PathAssetState::Missing) => None,
                    Some(PathAssetState::Loaded { id }) => Some(*id),
                    Some(PathAssetState::Unloaded { wakers }) => {
                        let mut ws = copy_wakers(wakers);
                        match waker {
                            Some(w) => ws.push(w),
                            None => {},
                        }
                        self.paths.insert(path.to_owned(), PathAssetState::Unloaded { wakers: ws });
                        assert(self.paths@.remove(path@) =~= old(self).paths@.remove(path@));
                        return None;
                    },
                    None => {
                        assert(false);
                        return None;
                    },
                };
                match found {
                    None => {
                        handle.state = HandleState::Missing;
                        return Some(
                            AssetResult {
                                path: clone_path(&handle.path),
                                id: handle.id,
                                state: ResultState::Missing,
                            },
                        );
                    },
                    Some(id) => {
                        handle.id = Some(id);
                        handle.state = HandleState::Loading;
                    },
                }
            },
            HandleState::Loading => {},
        }
        let id = match handle.id {
            Some(id) => id,
            None => {
                assert(false);
                return None;
            },
        };
        let (hs, rs) = self.step_loading(id, waker);
        handle.state = hs;
        match rs {
            None => None,
            Some(state) => Some(AssetResult { path: clone_path(&handle.path), id: handle.id, state }),
        }
    }

    /// Polls a lookup: reports the identifier the path denotes or that it
    /// denotes nothing, or registers `waker` with the path and reports nothing.
    pub fn poll_lookup(&mut self, lookup: &mut AssetLookup, waker: Option<u64>) -> (r: Option<
        Result<AssetId, NotFound>,
    >)
        requires
            old(self).wf(),
            old(self).lookup_valid(&*old(lookup)),
        ensures
            final(self).wf(),
            final(self).lookup_valid(&*final(lookup)),
            final(self).assets() == old(self).assets(),
            paths_progress(old(self).paths(), final(self).paths()),
            lookup_poll_effect(
                old(self).paths(),
                *old(lookup),
                final(self).paths(),
                *final(lookup),
                waker,
                r,
            ),
    {
        match &lookup.state {
            LookupState::AssetId { id } => {
                return Some(Ok(*id));
            },
            LookupState::Missing => {
                return Some(Err(NotFound { path: Some(lookup.path.clone()), id: None }));
            },
            LookupState::Searching => {},
        }
        let found: Option<AssetId> = match self.paths.get(lookup.path.as_str()) {
            Some(PathAssetState::Missing) => None,
            Some(PathAssetState::Loaded { id }) => Some(*id),
            Some(PathAssetState::Unloaded { wakers }) => {
                let mut ws = copy_wakers(wakers);
                match waker {
                    Some(w) => ws.push(w),
                    None => {},
                }
                self.paths.insert(lookup.path.clone(), PathAssetState::Unloaded { wakers: ws });
                assert(self.paths@.remove(lookup.path@) =~= old(self).paths@.remove(lookup.path@));
                return None;
            },
            None => {
                assert(false);
                return None;
            },
        };
        match found {
            None => {
                lookup.state = LookupState::Missing;
                Some(Err(NotFound { path: Some(lookup.path.clone()), id: None }))
            },
            Some(id) => {
                lookup.state = LookupState::AssetId { id };
                Some(Ok(id))
            },
        }
    }
}

impl<A: Clone> AssetHandle<A> {
    /// Polls the handle against the tables it was made from, as
    /// [`AssetTable::poll_handle`] does, registering `waker` if it must wait.
    pub fn get_impl<D>(&mut self, table: &mut AssetTable<A, D>, waker: Option<u64>) -> (r: Option<
        AssetResult<A>,
    >)
        requires
            old(table).wf(),
            old(table).handle_valid(&*old(self)),
        ensures
            final(table).wf(),
            final(table).handle_valid(&*final(self)),
            assets_progress(old(table).assets(), final(table).assets()),
            paths_progress(old(table).paths(), final(table).paths()),
            handle_poll_effect(
                old(table).assets(),
                old(table).paths(),
                *old(self),
                final(table).assets(),
                final(table).paths(),
                *final(self),
                waker,
                r,
            ),
    {
        table.poll_handle(self, waker)
    }

    /// The result, if the handle's request is settled; registers no waker.
    pub fn get_ready<D>(&mut self, table: &mut AssetTable<A, D>) -> (r: Option<AssetResult<A>>)
        requires
            old(table).wf(),
            old(table).handle_valid(&*old(self)),
        ensures
            final(table).wf(),
            final(table).handle_valid(&*final(self)),
            assets_progress(old(table).assets(), final(table).assets()),
            paths_progress(old(table).paths(), final(table).paths()),
            handle_poll_effect(
                old(table).assets(),
                old(table).paths(),
                *old(self),
                final(table).assets(),
                final(table).paths(),
                *final(self),
                None,
                r,
            ),
    {
        table.poll_handle(self, None)
    }
}

impl AssetLookup {
    /// Polls the lookup against the tables it was made from, as
    /// [`AssetTable::poll_lookup`] does, registering `waker` if it must wait.
    pub fn get_impl<A: Clone, D>(&mut self, table: &mut AssetTable<A, D>, waker: Option<u64>) -> (r: Option<
        Result<AssetId, NotFound>,
    >)
        requires
            old(table).wf(),
            old(table).lookup_valid(&*old(self)),
        ensures
            final(table).wf(),
            final(table).lookup_valid(&*final(self)),
            final(table).assets() == old(table).assets(),
            paths_progress(old(table).paths(), final(table).paths()),
            lookup_poll_effect(old(table).paths(), *old(self), final(table).paths(), *final(self), waker, r),
    {
        table.poll_lookup(self, waker)
    }

    /// The identifier, or that the path denotes nothing, once the search is
    /// over; registers no waker.
    pub fn get_ready<A: Clone, D>(&mut self, table: &mut AssetTable<A, D>) -> (r: Option<
        Result<AssetId, NotFound>,
    >)
        requires
            old(table).wf(),
            old(table).lookup_valid(&*old(self)),
        ensures
            final(table).wf(),
            final(table).lookup_valid(&*final(self)),
            final(table).assets() == old(table).assets(),
            paths_progress(old(table).paths(), final(table).paths()),
            lookup_poll_effect(old(table).paths(), *old(self), final(table).paths(), *final(self), None, r),
    {
        table.poll_lookup(self, None)
    }
}

impl<A: Clone> AssetResult<A> {
    /// Path the asset was requested with, if any.
    pub fn path(&self) -> (r: Option<&str>)
        ensures
            opt_str_view(r) == opt_string_view(self.path),
    {
        match &self.path {
            Some(p) => Some(p.as_str()),
            None => None,
        }
    }

    /// The asset's identifier, unless it was requested by a path that denotes nothing.
    pub fn id(&self) -> (r: Option<AssetId>)
        ensures
            r == self.id,
    {
        self.id
    }

    /// Builds the asset if it is decoded, with `build` applied to its decoded
    /// form, and records the outcome in the tables so that it is built once.
    /// Returns the asset, `None` if it is missing, or the loading or building
    /// error.
    pub fn build_optional<D, F>(&mut self, table: &mut AssetTable<A, D>, build: F) -> (r: Result<
        Option<&A>,
        Error,
    >) where F: FnOnce(D) -> Result<A, Error>
        requires
            old(table).wf(),
            old(table).result_valid(&*old(self)),
            forall|d: D| call_requires(build, (d,)),
        ensures
            final(table).wf(),
            final(table).result_valid(&*final(self)),
            final(table).paths() == old(table).paths(),
            assets_progress(old(table).assets(), final(table).assets()),
            final(self).path == old(self).path,
            final(self).id == old(self).id,
            !(final(self).state is Decoded),
            build_effect(
                old(self).state,
                old(self).id,
                final(self).state,
                old(table).assets(),
                final(table).assets(),
                build,
            ),
            match final(self).state {
                ResultState::Asset(a) => r matches Ok(Some(ra)) && *ra == a,
                ResultState::Missing => r matches Ok(None),
                ResultState::Error(e) => r matches Err(re) && re.chain() == e.chain(),
                ResultState::Decoded => false,
            },
    {
        if let ResultState::Decoded = self.state {
            let id = match self.id {
                Some(id) => id,
                None => {
                    assert(false);
                    return Err(Error::new(String::new(), String::new(), None));
                },
            };
            let key = id.get();
            let entry = table.assets.remove(&key);
            match entry {
                Some(AssetState::Decoded { decoded, version, source }) => {
                    let built = build(decoded);
                    match built {
                        Ok(asset) => {
                            table.assets.insert(
                                key,
                                AssetState::Asset { asset: asset.clone(), version, source },
                            );
                            assert(table.assets@.remove(key) =~= old(table).assets@.remove(key));
                            self.state = ResultState::Asset(asset);
                        },
                        Err(error) => {
                            table.assets.insert(key, AssetState::Error { error: error.clone() });
                            assert(table.assets@.remove(key) =~= old(table).assets@.remove(key));
                            self.state = ResultState::Error(error);
                        },
                    }
                },
                Some(state) => {
                    let rs = match &state {
                        AssetState::Asset { asset, .. } => ResultState::Asset(asset.clone()),
                        AssetState::Error { error } => ResultState::Error(error.clone()),
                        _ => {
                            assert(false);
                            ResultState::Missing
                        },
                    };
                    table.assets.insert(key, state);
                    assert(table.assets@ =~= old(table).assets@);
                    self.state = rs;
                },
                None => {
                    assert(false);
                },
            }
        }
        match &self.state {
            ResultState::Missing => Ok(None),
            ResultState::Asset(asset) => Ok(Some(asset)),
            ResultState::Error(error) => Err(error.clone()),
            ResultState::Decoded => {
                assert(false);
                Ok(None)
            },
        }
    }

    /// Builds the asset as [`build_optional`](Self::build_optional) does; a
    /// missing asset is an error that names the path and identifier.
    pub fn build<D, F>(&mut self, table: &mut AssetTable<A, D>, build: F) -> (r: Result<&A, Error>) where
        F: FnOnce(D) -> Result<A, Error>,

        requires
            old(table).wf(),
            old(table).result_valid(&*old(self)),
            forall|d: D| call_requires(build, (d,)),
        ensures
            final(table).wf(),
            final(table).result_valid(&*final(self)),
            final(table).paths() == old(table).paths(),
            assets_progress(old(table).assets(), final(table).assets()),
            final(self).path == old(self).path,
            final(self).id == old(self).id,
            build_effect(
                old(self).state,
                old(self).id,
                final(self).state,
                old(table).assets(),
                final(table).assets(),
                build,
            ),
            match final(self).state {
                ResultState::Asset(a) => r matches Ok(ra) && *ra == a,
                ResultState::Missing => r matches Err(e) && e@ == not_found_text(
                    opt_string_view(old(self).path),
                    opt_id_view(old(self).id),
                ),
                ResultState::Error(e) => r matches Err(re) && re.chain() == e.chain(),
                ResultState::Decoded => false,
            },
    {
        let present = match self.build_optional(table, build) {
            Ok(Some(_)) => true,
            Ok(None) => false,
            Err(e) => {
                return Err(e);
            },
        };
        if !present {
            let nf = NotFound { path: clone_path(&self.path), id: self.id };
            return Err(nf.into_error());
        }
        match &self.state {
            ResultState::Asset(asset) => Ok(asset),
            _ => {
                assert(false);
                Err(Error::new(String::new(), String::new(), None))
            },
        }
    }
}

impl<A: Clone> AssetResult<A> {
    /// The asset of a type decoded as itself, built by handing the decoded
    /// value over; `None` if it is missing.
    pub fn get_optional(&mut self, table: &mut AssetTable<A, A>) -> (r: Result<Option<&A>, Error>)
        requires
            old(table).wf(),
            old(table).result_valid(&*old(self)),
        ensures
            final(table).wf(),
            final(table).result_valid(&*final(self)),
            final(table).paths() == old(table).paths(),
            final(self).path == old(self).path,
            final(self).id == old(self).id,
            trivial_build_effect(
                old(self).state,
                old(self).id,
                final(self).state,
                old(table).assets(),
                final(table).assets(),
            ),
            match final(self).state {
                ResultState::Asset(a) => r matches Ok(Some(ra)) && *ra == a,
                ResultState::Missing => r matches Ok(None),
                ResultState::Error(e) => r matches Err(re) && re.chain() == e.chain(),
                ResultState::Decoded => false,
            },
    {
        let hand_over = |d: A| -> (out: Result<A, Error>)
            ensures
                out == Ok::<A, Error>(d),
            { Ok(d) };
        self.build_optional(table, hand_over)
    }

    /// The asset of a type decoded as itself; a missing asset is an error that
    /// names the path and identifier.
    pub fn get(&mut self, table: &mut AssetTable<A, A>) -> (r: Result<&A, Error>)
        requires
            old(table).wf(),
            old(table).result_valid(&*old(self)),
        ensures
            final(table).wf(),
            final(table).result_valid(&*final(self)),
            final(table).paths() == old(table).paths(),
            final(self).path == old(self).path,
            final(self).id == old(self).id,
            trivial_build_effect(
                old(self).state,
                old(self).id,
                final(self).state,
                old(table).assets(),
                final(table).assets(),
            ),
            match final(self).state {
                ResultState::Asset(a) => r matches Ok(ra) && *ra == a,
                ResultState::Missing => r matches Err(e) && e@ == not_found_text(
                    opt_string_view(old(self).path),
                    opt_id_view(old(self).id),
                ),
                ResultState::Error(e) => r matches Err(re) && re.chain() == e.chain(),
                ResultState::Decoded => false,
            },
    {
        let hand_over = |d: A| -> (out: Result<A, Error>)
            ensures
                out == Ok::<A, Error>(d),
            { Ok(d) };
        self.build(table, hand_over)
    }
}

} // verus!
