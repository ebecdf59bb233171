//! The bundle cache: where a toolchain bundle is unpacked, and the steps that make sure
//! that it is there.
//!
//! A cache entry is the directory `<cache-root>/<bundle-name>/<signature>/`. It is ready
//! as soon as its subdirectory `lib/codon` exists. A bundle is unpacked and relocated in a
//! sibling of the entry, which is moved into place only when both have succeeded, so a
//! reader never finds a half-written entry ready.
//!
//! The cache itself touches no file. [`BundleCache::begin`] and [`BundleCache::advance`] say
//! what to do next; the caller does it and reports what happened.

use crate::path::{file_name, file_name_of, join, joined, trimmed};
use crate::relocate::{RelocateError, RelocationSummary};
use crate::signature::{
    hex16, lemma_label_injective, signature_label, signature_of, BundleSignature,
};
use crate::text::{chars_of, optional_text};
use vstd::prelude::*;
use vstd::string::{StrSliceExecFns, StringExecFns};

verus! {

/// Why no ready toolchain could be had.
#[derive(Debug)]
pub enum CacheError {
    /// Neither an override nor a home nor a temporary directory is known.
    NoHomeDirectory,
    /// The bundle could not be unpacked, relocated or moved into place.
    ExtractionFailed { reason: String },
    /// The bytes of the bundle could not be obtained.
    BundleUnavailable,
}

/// The mathematical content of a [`CacheError`].
pub enum CacheErrorView {
    NoHomeDirectory,
    ExtractionFailed { reason: Seq<char> },
    BundleUnavailable,
}

impl View for CacheError {
    type V = CacheErrorView;

    open spec fn view(&self) -> CacheErrorView {
        match self {
            CacheError::NoHomeDirectory => CacheErrorView::NoHomeDirectory,
            CacheError::ExtractionFailed { reason } => CacheErrorView::ExtractionFailed {
                reason: reason@,
            },
            CacheError::BundleUnavailable => CacheErrorView::BundleUnavailable,
        }
    }
}

impl CacheError {
    /// What [`CacheError::message`] returns.
    pub open spec fn message_text(&self) -> Seq<char> {
        match self {
            CacheError::NoHomeDirectory => "cannot determine cache directory"@,
            CacheError::ExtractionFailed { reason } => "bundle extraction failed: "@ + reason@,
            CacheError::BundleUnavailable => "bundle bytes are unavailable"@,
        }
    }

    /// The message shown to the caller.
    pub fn message(&self) -> (text: String)
        ensures
            text@ == self.message_text(),
    {
        match self {
            CacheError::NoHomeDirectory => String::from_str("cannot determine cache directory"),
            CacheError::ExtractionFailed { reason } => String::from_str(
                "bundle extraction failed: ",
            ).concat(reason.as_str()),
            CacheError::BundleUnavailable => String::from_str("bundle bytes are unavailable"),
        }
    }
}

impl Clone for CacheError {
    fn clone(&self) -> (copy: CacheError)
        ensures
            copy@ == self@,
    {
        match self {
            CacheError::NoHomeDirectory => CacheError::NoHomeDirectory,
            CacheError::ExtractionFailed { reason } => CacheError::ExtractionFailed {
                reason: reason.clone(),
            },
            CacheError::BundleUnavailable => CacheError::BundleUnavailable,
        }
    }
}

/// The directories that the environment offers for the cache.
#[derive(Debug)]
pub struct CacheLocations {
    /// The cache directory that the caller chose. It is used as it is and managed by the
    /// caller: no bundle name and no signature is appended.
    pub override_root: Option<String>,
    pub home: Option<String>,
    pub temp_dir: Option<String>,
}

/// The mathematical content of a [`CacheLocations`].
pub struct CacheLocationsView {
    pub override_root: Option<Seq<char>>,
    pub home: Option<Seq<char>>,
    pub temp_dir: Option<Seq<char>>,
}

impl View for CacheLocations {
    type V = CacheLocationsView;

    open spec fn view(&self) -> CacheLocationsView {
        CacheLocationsView {
            override_root: optional_text(self.override_root),
            home: optional_text(self.home),
            temp_dir: optional_text(self.temp_dir),
        }
    }
}

/// The name under which a bundle is cached: the final component of the path of its file,
/// and `bundle` where that path has none.
pub open spec fn bundle_name_of(bundle_file: Seq<char>) -> Seq<char> {
    if file_name(bundle_file).len() == 0 {
        "bundle"@
    } else {
        file_name(bundle_file)
    }
}

/// The root under which the entries of all bundles lie, unless the caller overrides it:
/// `.cache/syqure` in the home directory, and `syqure-cache` in the temporary directory
/// where no home is known.
pub open spec fn cache_root(locations: CacheLocationsView) -> Option<Seq<char>> {
    match locations.home {
        Some(home) => Some(joined(joined(home, ".cache"@), "syqure"@)),
        None => match locations.temp_dir {
            Some(temp) => Some(joined(temp, "syqure-cache"@)),
            None => None,
        },
    }
}

/// The cache entry of the bundle `name` with the given signature. An override is the entry
/// itself; otherwise the entry is named by the bundle and the signature.
pub open spec fn cache_entry(
    locations: CacheLocationsView,
    name: Seq<char>,
    signature: BundleSignature,
) -> Option<Seq<char>> {
    match locations.override_root {
        Some(dir) => Some(dir),
        None => match cache_root(locations) {
            Some(root) => Some(joined(joined(root, name), signature_label(signature))),
            None => None,
        },
    }
}

/// The toolchain directory of an entry, whose existence marks the entry ready.
pub open spec fn toolchain_dir(entry: Seq<char>) -> Seq<char> {
    joined(entry, "lib/codon"@)
}

/// The sibling of an entry in which a bundle is unpacked before the entry is published.
pub open spec fn staging_dir(entry: Seq<char>) -> Seq<char> {
    trimmed(entry) + ".partial"@
}

/// Names the bundle that the file at `bundle_file` holds.
pub fn bundle_name(bundle_file: &str) -> (name: String)
    ensures
        name@ == bundle_name_of(bundle_file@),
{
    let name = file_name_of(bundle_file);
    if name.as_str().unicode_len() == 0 {
        String::from_str("bundle")
    } else {
        name
    }
}

/// Finds the cache entry of the bundle `name` with the given signature. There is none
/// where the environment offers no directory at all.
pub fn default_cache_dir(locations: &CacheLocations, name: &str, signature: &BundleSignature) -> (dir:
    Option<String>)
    ensures
        optional_text(dir) == cache_entry(locations@, name@, *signature),
{
    match &locations.override_root {
        Some(dir) => Some(dir.clone()),
        None => {
            let root = match &locations.home {
                Some(home) => join(join(home.as_str(), ".cache").as_str(), "syqure"),
                None => match &locations.temp_dir {
                    Some(temp) => join(temp.as_str(), "syqure-cache"),
                    None => {
                        return None;
                    },
                },
            };
            let label = signature.label();
            Some(join(join(root.as_str(), name).as_str(), label.as_str()))
        },
    }
}

/// `std::io::Error`, the error of the decompressor. Its content is not looked into;
/// [`decode_error_text`] turns it into a message.
#[verifier::external_type_specification]
#[verifier::external_body]
pub struct ExDecodeError(std::io::Error);

/// What `zstd::stream::decode_all` makes of `payload`: the decompressed bytes, or nothing
/// where the decoder reports an error.
pub uninterp spec fn zstd_decoded(payload: Seq<u8>) -> Option<Seq<u8>>;

/// Decompresses `payload` with `zstd::stream::decode_all`. The call returns the decompressed
/// bytes or the decoder's error; both depend on the payload alone.
#[verifier::external_body]
fn decode_all(payload: &[u8]) -> (decoded: Result<Vec<u8>, std::io::Error>)
    ensures
        decoded matches Ok(bytes) ==> zstd_decoded(payload@) == Some(bytes@),
        decoded is Err ==> zstd_decoded(payload@) is None,
{
    zstd::stream::decode_all(payload)
}

/// The message of a decompressor error, as its `Display` impl writes it. Nothing is claimed
/// about the text.
#[verifier::external_body]
fn decode_error_text(error: &std::io::Error) -> (text: String) {
    error.to_string()
}

/// What the caller is asked to do next.
#[derive(Debug)]
pub enum CacheAction {
    /// Report whether the directory `target` exists.
    Probe { target: String },
    /// Unpack the archive of the bundle into the directory `into`, creating it.
    Unpack { into: String },
    /// Relocate the libraries below `root`.
    Relocate { root: String },
    /// Move the directory `from` to `to`.
    Publish { from: String, to: String },
    /// Nothing more. The toolchain directory is ready, or the error is final.
    Finish(Result<String, CacheError>),
}

/// The mathematical content of a [`CacheAction`].
pub enum CacheActionView {
    Probe { target: Seq<char> },
    Unpack { into: Seq<char> },
    Relocate { root: Seq<char> },
    Publish { from: Seq<char>, to: Seq<char> },
    Finish(Result<Seq<char>, CacheErrorView>),
}

impl View for CacheAction {
    type V = CacheActionView;

    open spec fn view(&self) -> CacheActionView {
        match self {
            CacheAction::Probe { target } => CacheActionView::Probe { target: target@ },
            CacheAction::Unpack { into } => CacheActionView::Unpack { into: into@ },
            CacheAction::Relocate { root } => CacheActionView::Relocate { root: root@ },
            CacheAction::Publish { from, to } => CacheActionView::Publish { from: from@, to: to@ },
            CacheAction::Finish(Ok(root)) => CacheActionView::Finish(Ok(root@)),
            CacheAction::Finish(Err(e)) => CacheActionView::Finish(Err(e@)),
        }
    }
}

/// What the caller reports back.
#[derive(Debug)]
pub enum CacheEvent {
    /// Answers `Probe`.
    TargetProbed { present: bool },
    /// Answers `Unpack`; the error says why the bundle could not be unpacked.
    Unpacked(Result<(), String>),
    /// Answers `Relocate`.
    Relocated(Result<RelocationSummary, RelocateError>),
    /// Answers `Publish`; the error says why the entry could not be moved into place.
    Published(Result<(), String>),
}

/// The mathematical content of a [`CacheEvent`]: what happened, and the reason where it
/// went wrong.
pub enum CacheEventView {
    TargetProbed { present: bool },
    Unpacked { failure: Option<Seq<char>> },
    Relocated { failure: Option<Seq<char>> },
    Published { failure: Option<Seq<char>> },
}

impl View for CacheEvent {
    type V = CacheEventView;

    open spec fn view(&self) -> CacheEventView {
        match self {
            CacheEvent::TargetProbed { present } => CacheEventView::TargetProbed {
                present: *present,
            },
            CacheEvent::Unpacked(Ok(_)) => CacheEventView::Unpacked { failure: None },
            CacheEvent::Unpacked(Err(reason)) => CacheEventView::Unpacked {
                failure: Some(reason@),
            },
            CacheEvent::Relocated(Ok(_)) => CacheEventView::Relocated { failure: None },
            CacheEvent::Relocated(Err(e)) => CacheEventView::Relocated {
                failure: Some(e.message_text()),
            },
            CacheEvent::Published(Ok(_)) => CacheEventView::Published { failure: None },
            CacheEvent::Published(Err(reason)) => CacheEventView::Published {
                failure: Some(reason@),
            },
        }
    }
}

/// How far the staging of a bundle has come.
#[derive(Debug, Clone, Copy, PartialEq, Eq, Structural)]
pub enum CacheState {
    /// Waiting to hear whether the entry is ready.
    Probing,
    /// Waiting for the bundle to be unpacked.
    Unpacking,
    /// Waiting for the libraries to be relocated.
    Relocating,
    /// Waiting for the entry to be moved into place.
    Publishing,
    /// Nothing is pending.
    Finished,
}

/// The final action after a failure with the given reason.
pub open spec fn failed(reason: Seq<char>) -> CacheActionView {
    CacheActionView::Finish(Err(CacheErrorView::ExtractionFailed { reason }))
}

/// The step that `event` makes in `state` for the cache entry `entry`: the next state and
/// the next action. There is none where the event does not answer the pending action.
pub open spec fn step(entry: Seq<char>, state: CacheState, event: CacheEventView) -> Option<
    (CacheState, CacheActionView),
> {
    match (state, event) {
        (CacheState::Probing, CacheEventView::TargetProbed { present }) => if present {
            Some((CacheState::Finished, CacheActionView::Finish(Ok(toolchain_dir(entry)))))
        } else {
            Some((CacheState::Unpacking, CacheActionView::Unpack { into: staging_dir(entry) }))
        },
        (CacheState::Unpacking, CacheEventView::Unpacked { failure }) => match failure {
            None => Some(
                (
                    CacheState::Relocating,
                    CacheActionView::Relocate { root: toolchain_dir(staging_dir(entry)) },
                ),
            ),
            Some(reason) => Some((CacheState::Finished, failed(reason))),
        },
        (CacheState::Relocating, CacheEventView::Relocated { failure }) => match failure {
            None => Some(
                (
                    CacheState::Publishing,
                    CacheActionView::Publish { from: staging_dir(entry), to: entry },
                ),
            ),
            Some(reason) => Some((CacheState::Finished, failed(reason))),
        },
        (CacheState::Publishing, CacheEventView::Published { failure }) => match failure {
            None => Some(
                (CacheState::Finished, CacheActionView::Finish(Ok(toolchain_dir(entry)))),
            ),
            Some(reason) => Some((CacheState::Finished, failed(reason))),
        },
        _ => None,
    }
}

/// The cache entry of one bundle.
#[derive(Debug)]
pub struct BundleCache<'a> {
    entry: String,
    payload: &'a [u8],
}

/// The mathematical content of a [`BundleCache`].
pub struct BundleCacheView {
    pub entry: Seq<char>,
    pub payload: Seq<u8>,
}

impl<'a> View for BundleCache<'a> {
    type V = BundleCacheView;

    closed spec fn view(&self) -> BundleCacheView {
        BundleCacheView { entry: self.entry@, payload: self.payload@ }
    }
}

/// What resolving a bundle comes to: its cache entry, or the reason why it has none.
pub open spec fn resolved(
    bundle_file: Seq<char>,
    payload: Option<Seq<u8>>,
    locations: CacheLocationsView,
) -> Result<BundleCacheView, CacheErrorView> {
    match payload {
        None => Err(CacheErrorView::BundleUnavailable),
        Some(bytes) => match cache_entry(
            locations,
            bundle_name_of(bundle_file),
            signature_of(bytes),
        ) {
            None => Err(CacheErrorView::NoHomeDirectory),
            Some(entry) => Ok(BundleCacheView { entry, payload: bytes }),
        },
    }
}

/// The bytes of an optional payload.
pub open spec fn optional_bytes(payload: Option<&[u8]>) -> Option<Seq<u8>> {
    match payload {
        Some(bytes) => Some(bytes@),
        None => None,
    }
}

impl<'a> BundleCache<'a> {
    /// Resolves the cache entry of the bundle whose file is `bundle_file` and whose bytes
    /// are `payload`. The bundle is unavailable where there are no bytes.
    pub fn resolve(bundle_file: &str, payload: Option<&'a [u8]>, locations: &CacheLocations) -> (r:
        Result<BundleCache<'a>, CacheError>)
        ensures
            match resolved(bundle_file@, optional_bytes(payload), locations@) {
                Ok(cache) => r matches Ok(c) && c@ == cache,
                Err(e) => r matches Err(f) && f@ == e,
            },
    {
        match payload {
            None => Err(CacheError::BundleUnavailable),
            Some(bytes) => {
                let name = bundle_name(bundle_file);
                let signature = BundleSignature::of(bytes);
                match default_cache_dir(locations, name.as_str(), &signature) {
                    None => Err(CacheError::NoHomeDirectory),
                    Some(entry) => Ok(BundleCache { entry, payload: bytes }),
                }
            },
        }
    }

    /// The directory of the entry.
    pub fn entry(&self) -> (dir: String)
        ensures
            dir@ == self@.entry,
    {
        self.entry.clone()
    }

    /// The toolchain directory of the entry.
    pub fn toolchain_root(&self) -> (dir: String)
        ensures
            dir@ == toolchain_dir(self@.entry),
    {
        join(self.entry.as_str(), "lib/codon")
    }

    /// The directory in which the bundle is unpacked.
    pub fn staging(&self) -> (dir: String)
        ensures
            dir@ == staging_dir(self@.entry),
    {
        let chars = chars_of(self.entry.as_str());
        let end = crate::path::trimmed_len(chars.as_slice());
        String::from_str(self.entry.as_str().substring_char(0, end)).concat(".partial")
    }

    /// Decompresses the bundle into the archive that `Unpack` asks to be unpacked. The
    /// result is the decompressor's, which depends on the payload alone.
    pub fn archive(&self) -> (r: Result<Vec<u8>, CacheError>)
        ensures
            r matches Ok(bytes) ==> zstd_decoded(self@.payload) == Some(bytes@),
            r matches Err(e) ==> zstd_decoded(self@.payload) is None && e is ExtractionFailed,
    {
        match decode_all(self.payload) {
            Ok(bytes) => Ok(bytes),
            Err(error) => Err(CacheError::ExtractionFailed { reason: decode_error_text(&error) }),
        }
    }

    /// Starts the staging: the first thing to do is to look for the toolchain directory.
    pub fn begin(&self) -> (r: (CacheState, CacheAction))
        ensures
            r.0 == CacheState::Probing,
            r.1@ == (CacheActionView::Probe { target: toolchain_dir(self@.entry) }),
    {
        (CacheState::Probing, CacheAction::Probe { target: self.toolchain_root() })
    }

    /// Takes the step that `event` makes in `state`. The result is `None` exactly where the
    /// event does not answer the action that is pending in `state`.
    pub fn advance(&self, state: CacheState, event: &CacheEvent) -> (r: Option<
        (CacheState, CacheAction),
    >)
        ensures
            match step(self@.entry, state, event@) {
                Some((next, action)) => r matches Some((s, a)) && s == next && a@ == action,
                None => r is None,
            },
    {
        match (state, event) {
            (CacheState::Probing, CacheEvent::TargetProbed { present }) => {
                if *present {
                    Some((CacheState::Finished, CacheAction::Finish(Ok(self.toolchain_root()))))
                } else {
                    Some((CacheState::Unpacking, CacheAction::Unpack { into: self.staging() }))
                }
            },
            (CacheState::Unpacking, CacheEvent::Unpacked(outcome)) => match outcome {
                Ok(_) => {
                    let root = join(self.staging().as_str(), "lib/codon");
                    Some((CacheState::Relocating, CacheAction::Relocate { root }))
                },
                Err(reason) => Some((CacheState::Finished, failure(reason.as_str()))),
            },
            (CacheState::Relocating, CacheEvent::Relocated(outcome)) => match outcome {
                Ok(_) => Some(
                    (
                        CacheState::Publishing,
                        CacheAction::Publish { from: self.staging(), to: self.entry.clone() },
                    ),
                ),
                Err(e) => Some((CacheState::Finished, failure(e.message().as_str()))),
            },
            (CacheState::Publishing, CacheEvent::Published(outcome)) => match outcome {
                Ok(_) => Some(
                    (CacheState::Finished, CacheAction::Finish(Ok(self.toolchain_root()))),
                ),
                Err(reason) => Some((CacheState::Finished, failure(reason.as_str()))),
            },
            _ => None,
        }
    }
}

/// The final action after a failure with the given reason.
fn failure(reason: &str) -> (action: CacheAction)
    ensures
        action@ == failed(reason@),
{
    CacheAction::Finish(Err(CacheError::ExtractionFailed { reason: String::from_str(reason) }))
}

/// A relative child is appended to a prefix that depends on the base alone, so different
/// children give different paths.
pub proof fn lemma_joined_injective_in_child(base: Seq<char>, a: Seq<char>, b: Seq<char>)
    requires
        a != b,
        a.len() > 0 ==> a[0] != '/',
        b.len() > 0 ==> b[0] != '/',
    ensures
        joined(base, a) != joined(base, b),
{
    let prefix = if base.len() == 0 || base.last() == '/' {
        base
    } else {
        base + seq!['/']
    };
    assert(joined(base, a) =~= prefix + a);
    assert(joined(base, b) =~= prefix + b);
    if prefix + a == prefix + b {
        assert(a =~= (prefix + a).subrange(prefix.len() as int, (prefix + a).len() as int));
        assert(b =~= (prefix + b).subrange(prefix.len() as int, (prefix + b).len() as int));
    }
}

/// Different bases that end in no separator give different paths for one relative child.
pub proof fn lemma_joined_injective_in_base(a: Seq<char>, b: Seq<char>, child: Seq<char>)
    requires
        a != b,
        a.len() > 0 && a.last() != '/',
        b.len() > 0 && b.last() != '/',
        child.len() > 0 ==> child[0] != '/',
    ensures
        joined(a, child) != joined(b, child),
{
    let tail = seq!['/'] + child;
    assert(joined(a, child) =~= a + tail);
    assert(joined(b, child) =~= b + tail);
    if a + tail == b + tail {
        assert((a + tail).len() == a.len() + tail.len());
        assert((b + tail).len() == b.len() + tail.len());
        assert(a =~= (a + tail).subrange(0, a.len() as int));
        assert(b =~= (b + tail).subrange(0, b.len() as int));
    }
}

/// A path that ends in a signature ends in a hexadecimal digit.
proof fn lemma_entry_ends_in_digit(base: Seq<char>, signature: BundleSignature)
    ensures
        joined(base, signature_label(signature)).len() > 0,
        joined(base, signature_label(signature)).last() != '/',
        signature_label(signature).len() == 33,
        signature_label(signature)[0] != '/',
{
    let label = signature_label(signature);
    assert(label.len() == 33);
    assert(label[0] == hex16(signature.hash)[0]);
    assert(label[32] == hex16(signature.len)[15]);
    let path = joined(base, label);
    assert(path.last() == label[32]);
}

/// Byte-identical payloads have one cache entry: the entry depends on the bytes, the name
/// of the bundle and the locations, and on nothing else.
pub proof fn same_payload_same_entry(
    bundle_file: Seq<char>,
    a: Seq<u8>,
    b: Seq<u8>,
    locations: CacheLocationsView,
)
    requires
        a.len() == b.len(),
        forall|i: int| 0 <= i < a.len() ==> a[i] == b[i],
    ensures
        resolved(bundle_file, Some(a), locations) == resolved(bundle_file, Some(b), locations),
{
    assert(a =~= b);
}

/// Bundles with different signatures never share a cache entry or a toolchain directory,
/// unless the caller overrides the cache directory.
pub proof fn distinct_signatures_distinct_entries(
    locations: CacheLocationsView,
    name: Seq<char>,
    a: BundleSignature,
    b: BundleSignature,
)
    requires
        locations.override_root is None,
        a != b,
    ensures
        match (cache_entry(locations, name, a), cache_entry(locations, name, b)) {
            (Some(x), Some(y)) => x != y && toolchain_dir(x) != toolchain_dir(y),
            (None, None) => true,
            _ => false,
        },
{
    match cache_root(locations) {
        Some(root) => {
            let base = joined(root, name);
            if signature_label(a) == signature_label(b) {
                lemma_label_injective(a, b);
            }
            lemma_entry_ends_in_digit(base, a);
            lemma_entry_ends_in_digit(base, b);
            lemma_joined_injective_in_child(base, signature_label(a), signature_label(b));
            let x = joined(base, signature_label(a));
            let y = joined(base, signature_label(b));
            let child = "lib/codon"@;
            reveal_strlit("lib/codon");
            lemma_joined_injective_in_base(x, y, child);
        },
        None => {},
    }
}

/// Payloads with different signatures are staged in different places, so both can lie in
/// the cache side by side.
pub proof fn distinct_payloads_distinct_entries(
    bundle_file: Seq<char>,
    a: Seq<u8>,
    b: Seq<u8>,
    locations: CacheLocationsView,
)
    requires
        locations.override_root is None,
        signature_of(a) != signature_of(b),
    ensures
        match (
            resolved(bundle_file, Some(a), locations),
            resolved(bundle_file, Some(b), locations),
        ) {
            (Ok(x), Ok(y)) => x.entry != y.entry && toolchain_dir(x.entry) != toolchain_dir(
                y.entry,
            ),
            (Err(_), Err(_)) => true,
            _ => false,
        },
{
    distinct_signatures_distinct_entries(
        locations,
        bundle_name_of(bundle_file),
        signature_of(a),
        signature_of(b),
    );
}

/// The place of a state in the line of steps.
pub open spec fn state_rank(state: CacheState) -> nat {
    match state {
        CacheState::Probing => 0,
        CacheState::Unpacking => 1,
        CacheState::Relocating => 2,
        CacheState::Publishing => 3,
        CacheState::Finished => 4,
    }
}

/// Staging has no way back: every step leads to a later state. So the bundle is unpacked,
/// relocated and published at most once in a run, and in this order.
pub proof fn staging_never_goes_back(entry: Seq<char>, state: CacheState, event: CacheEventView)
    ensures
        step(entry, state, event) matches Some((next, action)) ==> {
            &&& state_rank(next) > state_rank(state)
            &&& action is Unpack ==> next == CacheState::Unpacking
            &&& action is Relocate ==> next == CacheState::Relocating
            &&& action is Publish ==> next == CacheState::Publishing
            &&& action is Finish <==> next == CacheState::Finished
        },
{
}

/// The actions that a run asks for when the caller reports `events` one after the other,
/// from `state` on. The run ends with the first event that answers no pending action.
pub open spec fn actions_from(
    entry: Seq<char>,
    state: CacheState,
    events: Seq<CacheEventView>,
) -> Seq<CacheActionView>
    decreases events.len(),
{
    if events.len() == 0 {
        Seq::empty()
    } else {
        match step(entry, state, events[0]) {
            None => Seq::empty(),
            Some((next, action)) => seq![action] + actions_from(
                entry,
                next,
                events.drop_first(),
            ),
        }
    }
}

/// How many of `actions` ask for the bundle to be unpacked.
pub open spec fn unpack_count(actions: Seq<CacheActionView>) -> nat
    decreases actions.len(),
{
    if actions.len() == 0 {
        0
    } else {
        unpack_count(actions.drop_first()) + if actions[0] is Unpack {
            1nat
        } else {
            0nat
        }
    }
}

/// Once the probe is answered, no step asks for the bundle to be unpacked.
proof fn lemma_no_unpack_after_probe(
    entry: Seq<char>,
    state: CacheState,
    events: Seq<CacheEventView>,
)
    requires
        state != CacheState::Probing,
    ensures
        unpack_count(actions_from(entry, state, events)) == 0,
    decreases events.len(),
{
    if events.len() > 0 {
        match step(entry, state, events[0]) {
            None => {},
            Some((next, action)) => {
                let rest = actions_from(entry, next, events.drop_first());
                lemma_no_unpack_after_probe(entry, next, events.drop_first());
                let all = seq![action] + rest;
                assert(all.drop_first() =~= rest);
                assert(all[0] == action);
            },
        }
    }
}

/// A run unpacks the bundle at most once, whatever is reported.
pub proof fn run_unpacks_at_most_once(entry: Seq<char>, events: Seq<CacheEventView>)
    ensures
        unpack_count(actions_from(entry, CacheState::Probing, events)) <= 1,
{
    if events.len() > 0 {
        match step(entry, CacheState::Probing, events[0]) {
            None => {},
            Some((next, action)) => {
                let rest = actions_from(entry, next, events.drop_first());
                lemma_no_unpack_after_probe(entry, next, events.drop_first());
                let all = seq![action] + rest;
                assert(all.drop_first() =~= rest);
                assert(all[0] == action);
            },
        }
    }
}

/// Where the toolchain directory is found, the run is a mere existence check: it returns
/// the directory at once and asks for nothing else.
pub proof fn ready_entry_is_only_probed(entry: Seq<char>, events: Seq<CacheEventView>)
    requires
        events.len() > 0,
        events[0] == (CacheEventView::TargetProbed { present: true }),
    ensures
        actions_from(entry, CacheState::Probing, events) == seq![
            CacheActionView::Finish(Ok(toolchain_dir(entry))),
        ],
{
    let rest = events.drop_first();
    assert(actions_from(entry, CacheState::Finished, rest) =~= Seq::empty()) by {
        if rest.len() > 0 {
            assert(step(entry, CacheState::Finished, rest[0]) is None);
        }
    }
    assert(actions_from(entry, CacheState::Probing, events) =~= seq![
        CacheActionView::Finish(Ok(toolchain_dir(entry))),
    ]);
}

/// Two runs in a row unpack the bundle at most once: the second run finds the toolchain
/// directory that the first has left, and only probes for it.
pub proof fn second_run_unpacks_nothing(
    entry: Seq<char>,
    first: Seq<CacheEventView>,
    second: Seq<CacheEventView>,
)
    requires
        second.len() > 0 ==> second[0] == (CacheEventView::TargetProbed { present: true }),
    ensures
        unpack_count(actions_from(entry, CacheState::Probing, first)) + unpack_count(
            actions_from(entry, CacheState::Probing, second),
        ) <= 1,
        unpack_count(actions_from(entry, CacheState::Probing, second)) == 0,
{
    run_unpacks_at_most_once(entry, first);
    if second.len() > 0 {
        ready_entry_is_only_probed(entry, second);
        let only = seq![CacheActionView::Finish(Ok(toolchain_dir(entry)))];
        assert(only.drop_first() =~= Seq::<CacheActionView>::empty());
        assert(unpack_count(only.drop_first()) == 0);
        assert(unpack_count(only) == 0);
    }
}

} // verus!
