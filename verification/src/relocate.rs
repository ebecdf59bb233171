//! Relocation of the cross-references between the shared libraries of an extracted bundle.
//!
//! The libraries of a bundle name each other by the paths they had on the machine that
//! built them. A table maps each such path to one that is relative to the referring
//! library. This module decides which references of a library are rewritten and what the
//! outcome of a pass means. Reading and patching the files is left to the caller.
//!
//! References that the table does not know are left alone: this is no general relinker.

use crate::path::{join, joined};
use crate::text::{ends_with, has_suffix, str_eq};
use vstd::prelude::*;
use vstd::string::StringExecFns;

verus! {

/// The systems whose libraries carry rewritable references.
#[derive(Debug, Clone, Copy, PartialEq, Eq, Structural)]
pub enum Platform {
    MacOs,
    Linux,
}

/// One line of the table: on `platform`, the reference `old` becomes `new`.
#[derive(Debug)]
pub struct Rewrite {
    pub platform: Platform,
    /// The path on the build machine.
    pub old: String,
    /// The path relative to the referring library.
    pub new: String,
}

/// The mathematical content of a [`Rewrite`].
pub struct RewriteView {
    pub platform: Platform,
    pub old: Seq<char>,
    pub new: Seq<char>,
}

impl View for Rewrite {
    type V = RewriteView;

    open spec fn view(&self) -> RewriteView {
        RewriteView { platform: self.platform, old: self.old@, new: self.new@ }
    }
}

/// One change to make in a library: the reference `old`, which it holds, becomes `new`.
#[derive(Debug)]
pub struct Patch {
    pub old: String,
    pub new: String,
}

/// The mathematical content of a [`Patch`].
pub struct PatchView {
    pub old: Seq<char>,
    pub new: Seq<char>,
}

impl View for Patch {
    type V = PatchView;

    open spec fn view(&self) -> PatchView {
        PatchView { old: self.old@, new: self.new@ }
    }
}

/// The views of a list of table lines.
pub open spec fn rewrite_views(entries: Seq<Rewrite>) -> Seq<RewriteView> {
    Seq::new(entries.len(), |i: int| entries[i]@)
}

/// The views of a list of patches.
pub open spec fn patch_views(patches: Seq<Patch>) -> Seq<PatchView> {
    Seq::new(patches.len(), |i: int| patches[i]@)
}

/// No replacement is itself rewritten: on each platform the new paths and the old paths
/// are disjoint.
pub open spec fn closed_under_rewriting(entries: Seq<RewriteView>) -> bool {
    forall|i: int, j: int|
        0 <= i < entries.len() && 0 <= j < entries.len() && entries[i].platform
            == entries[j].platform ==> #[trigger] entries[i].new != #[trigger] entries[j].old
}

/// What `reference` becomes on `platform`: the new path of the first line that names it.
pub open spec fn replacement(
    entries: Seq<RewriteView>,
    platform: Platform,
    reference: Seq<char>,
) -> Option<Seq<char>>
    decreases entries.len(),
{
    if entries.len() == 0 {
        None
    } else if entries[0].platform == platform && entries[0].old == reference {
        Some(entries[0].new)
    } else {
        replacement(entries.drop_first(), platform, reference)
    }
}

/// `reference` after relocation: its replacement where the table has one, itself otherwise.
pub open spec fn rewritten(
    entries: Seq<RewriteView>,
    platform: Platform,
    reference: Seq<char>,
) -> Seq<char> {
    match replacement(entries, platform, reference) {
        Some(new) => new,
        None => reference,
    }
}

/// The references of a library after relocation.
pub open spec fn rewritten_all(
    entries: Seq<RewriteView>,
    platform: Platform,
    references: Seq<Seq<char>>,
) -> Seq<Seq<char>> {
    Seq::new(references.len(), |i: int| rewritten(entries, platform, references[i]))
}

/// The patches that relocation makes in a library with the given references: one for each
/// reference that the table names, in the order of the references.
pub open spec fn planned(
    entries: Seq<RewriteView>,
    platform: Platform,
    references: Seq<Seq<char>>,
) -> Seq<PatchView>
    decreases references.len(),
{
    if references.len() == 0 {
        Seq::empty()
    } else {
        let rest = planned(entries, platform, references.drop_last());
        match replacement(entries, platform, references.last()) {
            Some(new) => rest.push(PatchView { old: references.last(), new }),
            None => rest,
        }
    }
}

/// The path that stands for the directory of the referring library.
pub open spec fn anchor(platform: Platform) -> Seq<char> {
    match platform {
        Platform::MacOs => "@loader_path"@,
        Platform::Linux => "$ORIGIN"@,
    }
}

/// The table for libraries that were built in `build_dir`: each is found next to the
/// library that refers to it.
pub open spec fn build_entries(
    platform: Platform,
    build_dir: Seq<char>,
    libraries: Seq<Seq<char>>,
) -> Seq<RewriteView> {
    Seq::new(
        libraries.len(),
        |i: int|
            RewriteView {
                platform,
                old: joined(build_dir, libraries[i]),
                new: joined(anchor(platform), libraries[i]),
            },
    )
}

/// A name that ends like a shared library.
pub open spec fn shared_library_name(name: Seq<char>) -> bool {
    has_suffix(name, ".dylib"@) || has_suffix(name, ".so"@)
}

/// Tests whether a file name is that of a shared library.
pub fn is_shared_library(name: &str) -> (r: bool)
    ensures
        r == shared_library_name(name@),
{
    ends_with(name, ".dylib") || ends_with(name, ".so")
}

/// The table of rewrites. Every table is closed under rewriting.
#[derive(Debug)]
pub struct RewriteTable {
    entries: Vec<Rewrite>,
}

impl View for RewriteTable {
    type V = Seq<RewriteView>;

    closed spec fn view(&self) -> Seq<RewriteView> {
        rewrite_views(self.entries@)
    }
}

impl RewriteTable {
    #[verifier::type_invariant]
    spec fn well_formed(self) -> bool {
        closed_under_rewriting(rewrite_views(self.entries@))
    }

    /// Makes a table of `entries`, which must be closed under rewriting.
    pub fn new(entries: Vec<Rewrite>) -> (table: Option<RewriteTable>)
        ensures
            table is Some <==> closed_under_rewriting(rewrite_views(entries@)),
            table matches Some(t) ==> t@ == rewrite_views(entries@),
    {
        let ghost views = rewrite_views(entries@);
        let mut i: usize = 0;
        while i < entries.len()
            invariant
                i <= entries.len(),
                views == rewrite_views(entries@),
                forall|a: int, b: int|
                    0 <= a < i && 0 <= b < views.len() && views[a].platform == views[b].platform
                        ==> #[trigger] views[a].new != #[trigger] views[b].old,
            decreases entries.len() - i,
        {
            let mut j: usize = 0;
            while j < entries.len()
                invariant
                    i < entries.len(),
                    j <= entries.len(),
                    views == rewrite_views(entries@),
                    forall|b: int|
                        0 <= b < j && views[i as int].platform == views[b].platform
                            ==> views[i as int].new != #[trigger] views[b].old,
                decreases entries.len() - j,
            {
                if same_platform(entries[i].platform, entries[j].platform) && str_eq(
                    entries[i].new.as_str(),
                    entries[j].old.as_str(),
                ) {
                    proof {
                        assert(views[i as int].new == views[j as int].old);
                    }
                    return None;
                }
                j += 1;
            }
            i += 1;
        }
        Some(RewriteTable { entries })
    }

    /// Makes the table for the libraries `libraries`, built in `build_dir`.
    pub fn for_build(platform: Platform, build_dir: &str, libraries: &Vec<String>) -> (table:
        Option<RewriteTable>)
        ensures
            table is Some <==> closed_under_rewriting(
                build_entries(platform, build_dir@, libraries.deep_view()),
            ),
            table matches Some(t) ==> t@ == build_entries(
                platform,
                build_dir@,
                libraries.deep_view(),
            ),
    {
        let origin = match platform {
            Platform::MacOs => "@loader_path",
            Platform::Linux => "$ORIGIN",
        };
        let mut entries: Vec<Rewrite> = Vec::new();
        let mut i: usize = 0;
        while i < libraries.len()
            invariant
                i <= libraries.len(),
                origin@ == anchor(platform),
                entries.len() == i,
                forall|k: int|
                    0 <= k < i ==> (#[trigger] entries[k])@ == build_entries(
                        platform,
                        build_dir@,
                        libraries.deep_view(),
                    )[k],
            decreases libraries.len() - i,
        {
            let library = libraries[i].as_str();
            entries.push(
                Rewrite { platform, old: join(build_dir, library), new: join(origin, library) },
            );
            i += 1;
        }
        proof {
            assert(rewrite_views(entries@) =~= build_entries(
                platform,
                build_dir@,
                libraries.deep_view(),
            ));
        }
        RewriteTable::new(entries)
    }

    /// Looks up what `reference` becomes on `platform`.
    pub fn replacement_for(&self, platform: Platform, reference: &str) -> (new: Option<String>)
        ensures
            new is Some <==> replacement(self@, platform, reference@) is Some,
            new matches Some(n) ==> replacement(self@, platform, reference@) == Some(n@),
    {
        let ghost views = self@;
        let mut i: usize = 0;
        proof {
            assert(views.subrange(0, views.len() as int) == views);
        }
        while i < self.entries.len()
            invariant
                i <= self.entries.len(),
                views == rewrite_views(self.entries@),
                replacement(views, platform, reference@) == replacement(
                    views.subrange(i as int, views.len() as int),
                    platform,
                    reference@,
                ),
            decreases self.entries.len() - i,
        {
            let entry = &self.entries[i];
            proof {
                let rest = views.subrange(i as int, views.len() as int);
                assert(rest[0] == entry@);
                assert(rest.drop_first() == views.subrange(i + 1, views.len() as int));
            }
            if same_platform(entry.platform, platform) && str_eq(entry.old.as_str(), reference) {
                return Some(entry.new.clone());
            }
            i += 1;
        }
        None
    }

    /// Lists the patches to make in a library on `platform` whose references are
    /// `references`. The list is empty where the library names no path of the table, as it
    /// is after a relocation.
    pub fn plan(&self, platform: Platform, references: &Vec<String>) -> (patches: Vec<Patch>)
        ensures
            patch_views(patches@) == planned(self@, platform, references.deep_view()),
            closed_under_rewriting(self@),
    {
        proof {
            use_type_invariant(self);
        }
        let ghost refs = references.deep_view();
        let mut patches: Vec<Patch> = Vec::new();
        let mut i: usize = 0;
        proof {
            assert(refs.subrange(0, 0) =~= Seq::<Seq<char>>::empty());
            assert(patch_views(patches@) =~= Seq::<PatchView>::empty());
        }
        while i < references.len()
            invariant
                i <= references.len(),
                refs == references.deep_view(),
                patch_views(patches@) == planned(self@, platform, refs.subrange(0, i as int)),
            decreases references.len() - i,
        {
            let reference = &references[i];
            let ghost before = patch_views(patches@);
            proof {
                let next = refs.subrange(0, i + 1);
                assert(next.drop_last() == refs.subrange(0, i as int));
                assert(next.last() == reference@);
            }
            match self.replacement_for(platform, reference.as_str()) {
                Some(new) => {
                    patches.push(Patch { old: reference.clone(), new });
                    proof {
                        assert(patch_views(patches@) =~= before.push(
                            PatchView { old: reference@, new: new@ },
                        ));
                    }
                },
                None => {},
            }
            i += 1;
        }
        proof {
            assert(refs.subrange(0, refs.len() as int) == refs);
        }
        patches
    }
}

/// What became of the relocation of one library.
#[derive(Debug)]
pub enum Outcome {
    /// Every planned patch was made.
    Applied,
    /// Nothing was changed; `reason` says why. This is worth a warning at most.
    Skipped { reason: String },
    /// The tool failed while it patched the library, which may be left half-patched.
    Failed { reason: String },
}

/// The mathematical content of an [`Outcome`].
pub enum OutcomeView {
    Applied,
    Skipped { reason: Seq<char> },
    Failed { reason: Seq<char> },
}

impl View for Outcome {
    type V = OutcomeView;

    open spec fn view(&self) -> OutcomeView {
        match self {
            Outcome::Applied => OutcomeView::Applied,
            Outcome::Skipped { reason } => OutcomeView::Skipped { reason: reason@ },
            Outcome::Failed { reason } => OutcomeView::Failed { reason: reason@ },
        }
    }
}

/// The outcome of a patch given how the tool ran: a tool that could not be started has
/// changed nothing, a tool that ran and reported an error has failed in mid-patch.
pub open spec fn patch_outcome(launched: bool, status: int, diagnostic: Seq<char>) -> OutcomeView {
    if !launched {
        OutcomeView::Skipped { reason: diagnostic }
    } else if status == 0 {
        OutcomeView::Applied
    } else {
        OutcomeView::Failed { reason: diagnostic }
    }
}

/// Judges one run of the relocation tool on a library. `launched` says whether the tool
/// could be started at all, `status` is its exit status and `diagnostic` what it reported.
pub fn classify_patch(launched: bool, status: i32, diagnostic: &str) -> (outcome: Outcome)
    ensures
        outcome@ == patch_outcome(launched, status as int, diagnostic@),
{
    if !launched {
        Outcome::Skipped { reason: String::from_str(diagnostic) }
    } else if status == 0 {
        Outcome::Applied
    } else {
        Outcome::Failed { reason: String::from_str(diagnostic) }
    }
}

/// The outcome for one library of a pass.
#[derive(Debug)]
pub struct StepReport {
    pub library: String,
    pub outcome: Outcome,
}

/// The mathematical content of a [`StepReport`].
pub struct StepReportView {
    pub library: Seq<char>,
    pub outcome: OutcomeView,
}

impl View for StepReport {
    type V = StepReportView;

    open spec fn view(&self) -> StepReportView {
        StepReportView { library: self.library@, outcome: self.outcome@ }
    }
}

/// The views of a list of reports.
pub open spec fn report_views(reports: Seq<StepReport>) -> Seq<StepReportView> {
    Seq::new(reports.len(), |i: int| reports[i]@)
}

/// Why a relocation pass is fatal.
#[derive(Debug)]
pub enum RelocateError {
    /// The tool failed while it patched `library`.
    PatchFailed { library: String, reason: String },
}

impl RelocateError {
    /// What [`RelocateError::message`] returns.
    pub open spec fn message_text(&self) -> Seq<char> {
        match self {
            RelocateError::PatchFailed { library, reason } => "relocation failed while patching "@
                + library@ + ": "@ + reason@,
        }
    }

    /// The message shown to the caller.
    pub fn message(&self) -> (text: String)
        ensures
            text@ == self.message_text(),
    {
        match self {
            RelocateError::PatchFailed { library, reason } => {
                let text = String::from_str("relocation failed while patching ");
                let text = text.concat(library.as_str());
                let text = text.concat(": ");
                text.concat(reason.as_str())
            },
        }
    }
}

/// What a pass without a fatal failure amounts to.
#[derive(Debug)]
pub struct RelocationSummary {
    /// The number of libraries that were patched.
    pub applied: usize,
    /// One line for each library that was skipped.
    pub warnings: Vec<String>,
}

/// The number of libraries among `reports` that were patched.
pub open spec fn applied_count(reports: Seq<StepReportView>) -> nat
    decreases reports.len(),
{
    if reports.len() == 0 {
        0
    } else {
        applied_count(reports.drop_last()) + if reports.last().outcome is Applied {
            1nat
        } else {
            0nat
        }
    }
}

/// The warning lines of `reports`: for each skipped library its name, a colon and the
/// reason.
pub open spec fn warnings_of(reports: Seq<StepReportView>) -> Seq<Seq<char>>
    decreases reports.len(),
{
    if reports.len() == 0 {
        Seq::empty()
    } else {
        let rest = warnings_of(reports.drop_last());
        match reports.last().outcome {
            OutcomeView::Skipped { reason } => rest.push(reports.last().library + ": "@ + reason),
            _ => rest,
        }
    }
}

/// The `at`-th report is the first that failed.
pub open spec fn first_failure(reports: Seq<StepReportView>, at: int) -> bool {
    &&& 0 <= at < reports.len()
    &&& reports[at].outcome is Failed
    &&& forall|i: int| 0 <= i < at ==> !((#[trigger] reports[i]).outcome is Failed)
}

/// What a pass with the given reports comes to: the failure of the first library whose
/// patching failed, and the count and the warnings where none did.
pub open spec fn pass_result(
    reports: Seq<StepReportView>,
    r: Result<RelocationSummary, RelocateError>,
) -> bool {
    match r {
        Ok(summary) => {
            &&& forall|i: int| 0 <= i < reports.len() ==> !((#[trigger] reports[i]).outcome is Failed)
            &&& summary.applied == applied_count(reports)
            &&& summary.warnings.deep_view() == warnings_of(reports)
        },
        Err(RelocateError::PatchFailed { library, reason }) => exists|at: int|
            #[trigger] first_failure(reports, at) && library@ == reports[at].library
                && reports[at].outcome == (OutcomeView::Failed { reason: reason@ }),
    }
}

/// Sums a pass up. It is fatal as soon as one library failed in mid-patch; skipped
/// libraries only leave warnings.
pub fn conclude(reports: &Vec<StepReport>) -> (r: Result<RelocationSummary, RelocateError>)
    ensures
        pass_result(report_views(reports@), r),
{
    let ghost views = report_views(reports@);
    let mut applied: usize = 0;
    let mut warnings: Vec<String> = Vec::new();
    let mut i: usize = 0;
    proof {
        assert(views.subrange(0, 0) =~= Seq::<StepReportView>::empty());
        assert(warnings.deep_view() =~= Seq::<Seq<char>>::empty());
    }
    while i < reports.len()
        invariant
            i <= reports.len(),
            views == report_views(reports@),
            forall|k: int| 0 <= k < i ==> !((#[trigger] views[k]).outcome is Failed),
            applied == applied_count(views.subrange(0, i as int)),
            applied <= i,
            warnings.deep_view() == warnings_of(views.subrange(0, i as int)),
        decreases reports.len() - i,
    {
        let report = &reports[i];
        let ghost before = warnings.deep_view();
        proof {
            let next = views.subrange(0, i + 1);
            assert(next.drop_last() == views.subrange(0, i as int));
            assert(next.last() == report@);
        }
        match &report.outcome {
            Outcome::Applied => {
                applied += 1;
            },
            Outcome::Skipped { reason } => {
                let line = report.library.clone().concat(": ").concat(reason.as_str());
                warnings.push(line);
                proof {
                    assert(warnings.deep_view() =~= before.push(report.library@ + ": "@ + reason@));
                }
            },
            Outcome::Failed { reason } => {
                proof {
                    assert(first_failure(views, i as int));
                }
                return Err(
                    RelocateError::PatchFailed {
                        library: report.library.clone(),
                        reason: reason.clone(),
                    },
                );
            },
        }
        i += 1;
    }
    proof {
        assert(views.subrange(0, views.len() as int) == views);
    }
    Ok(RelocationSummary { applied, warnings })
}

/// Tests whether two platforms are the same.
fn same_platform(a: Platform, b: Platform) -> (r: bool)
    ensures
        r == (a == b),
{
    match (a, b) {
        (Platform::MacOs, Platform::MacOs) => true,
        (Platform::Linux, Platform::Linux) => true,
        _ => false,
    }
}

/// A replacement comes from a line of the table, so a closed table never rewrites it.
pub proof fn lemma_replacement_is_final(
    entries: Seq<RewriteView>,
    platform: Platform,
    reference: Seq<char>,
)
    requires
        closed_under_rewriting(entries),
    ensures
        replacement(entries, platform, reference) matches Some(new) ==> replacement(
            entries,
            platform,
            new,
        ) is None,
{
    match replacement(entries, platform, reference) {
        Some(new) => {
            lemma_replacement_from_table(entries, platform, reference);
            lemma_unnamed_has_no_replacement(entries, platform, new);
        },
        None => {},
    }
}

/// A replacement is the new path of a line of the given platform.
proof fn lemma_replacement_from_table(
    entries: Seq<RewriteView>,
    platform: Platform,
    reference: Seq<char>,
)
    ensures
        replacement(entries, platform, reference) matches Some(new) ==> exists|i: int|
            0 <= i < entries.len() && entries[i].platform == platform && #[trigger] entries[i].new
                == new,
    decreases entries.len(),
{
    if entries.len() > 0 && !(entries[0].platform == platform && entries[0].old == reference) {
        let rest = entries.drop_first();
        lemma_replacement_from_table(rest, platform, reference);
        match replacement(rest, platform, reference) {
            Some(new) => {
                let i = choose|i: int|
                    0 <= i < rest.len() && rest[i].platform == platform && #[trigger] rest[i].new
                        == new;
                assert(entries[i + 1].new == new && entries[i + 1].platform == platform);
            },
            None => {},
        }
    }
}

/// A path that no line of the platform names as old has no replacement.
proof fn lemma_unnamed_has_no_replacement(
    entries: Seq<RewriteView>,
    platform: Platform,
    reference: Seq<char>,
)
    requires
        forall|j: int|
            0 <= j < entries.len() && entries[j].platform == platform ==> #[trigger] entries[j].old
                != reference,
    ensures
        replacement(entries, platform, reference) is None,
    decreases entries.len(),
{
    if entries.len() > 0 {
        let rest = entries.drop_first();
        assert forall|j: int| 0 <= j < rest.len() && rest[j].platform == platform implies (
        #[trigger] rest[j].old) != reference by {
            assert(rest[j] == entries[j + 1]);
        }
        assert(entries[0].platform == platform ==> entries[0].old != reference);
        lemma_unnamed_has_no_replacement(rest, platform, reference);
    }
}

/// Relocation is idempotent: relocating the references of a relocated library changes
/// nothing.
pub proof fn relocation_is_idempotent(
    entries: Seq<RewriteView>,
    platform: Platform,
    references: Seq<Seq<char>>,
)
    requires
        closed_under_rewriting(entries),
    ensures
        rewritten_all(entries, platform, rewritten_all(entries, platform, references))
            == rewritten_all(entries, platform, references),
{
    let once = rewritten_all(entries, platform, references);
    let twice = rewritten_all(entries, platform, once);
    assert forall|i: int| 0 <= i < references.len() implies twice[i] == once[i] by {
        lemma_replacement_is_final(entries, platform, references[i]);
    }
    assert(twice =~= once);
}

/// A relocated library needs no patch: a second pass over it plans nothing.
pub proof fn relocated_library_needs_no_patch(
    entries: Seq<RewriteView>,
    platform: Platform,
    references: Seq<Seq<char>>,
)
    requires
        closed_under_rewriting(entries),
    ensures
        planned(entries, platform, rewritten_all(entries, platform, references)).len() == 0,
    decreases references.len(),
{
    let once = rewritten_all(entries, platform, references);
    if references.len() > 0 {
        let shorter = references.drop_last();
        relocated_library_needs_no_patch(entries, platform, shorter);
        assert(once.drop_last() =~= rewritten_all(entries, platform, shorter));
        lemma_replacement_is_final(entries, platform, references.last());
        assert(once.last() == rewritten(entries, platform, references.last()));
    }
}

/// The references of a library after one patch: every reference that is the old path of
/// the patch has become its new path.
pub open spec fn patched_once(references: Seq<Seq<char>>, patch: PatchView) -> Seq<Seq<char>> {
    Seq::new(
        references.len(),
        |i: int|
            if references[i] == patch.old {
                patch.new
            } else {
                references[i]
            },
    )
}

/// The references of a library after the patches are made one after the other.
pub open spec fn patched(references: Seq<Seq<char>>, patches: Seq<PatchView>) -> Seq<Seq<char>>
    decreases patches.len(),
{
    if patches.len() == 0 {
        references
    } else {
        patched_once(patched(references, patches.drop_last()), patches.last())
    }
}

/// One of the first `k` references is `reference`.
pub open spec fn seen(references: Seq<Seq<char>>, k: int, reference: Seq<char>) -> bool {
    exists|j: int| 0 <= j < k && #[trigger] references[j] == reference
}

/// The references after the patches planned for the first `k` of them are made: those that
/// occur among the first `k` are relocated, the others are as they were.
proof fn lemma_partial_plan(
    entries: Seq<RewriteView>,
    platform: Platform,
    references: Seq<Seq<char>>,
    k: int,
)
    requires
        closed_under_rewriting(entries),
        0 <= k <= references.len(),
    ensures
        patched(references, planned(entries, platform, references.subrange(0, k))) == Seq::new(
            references.len(),
            |i: int|
                if seen(references, k, references[i]) {
                    rewritten(entries, platform, references[i])
                } else {
                    references[i]
                },
        ),
    decreases k,
{
    let goal = Seq::new(
        references.len(),
        |i: int|
            if seen(references, k, references[i]) {
                rewritten(entries, platform, references[i])
            } else {
                references[i]
            },
    );
    if k == 0 {
        assert(references.subrange(0, 0) =~= Seq::<Seq<char>>::empty());
        assert(goal =~= references);
    } else {
        lemma_partial_plan(entries, platform, references, k - 1);
        let prefix = references.subrange(0, k);
        let current = references[k - 1];
        assert(prefix.drop_last() =~= references.subrange(0, k - 1));
        assert(prefix.last() == current);
        let earlier = planned(entries, platform, references.subrange(0, k - 1));
        let before = patched(references, earlier);
        assert forall|i: int| 0 <= i < references.len() implies (seen(
            references,
            k,
            references[i],
        ) <==> seen(references, k - 1, references[i]) || references[i] == current) by {
            if seen(references, k, references[i]) {
                let j = choose|j: int| 0 <= j < k && #[trigger] references[j] == references[i];
                if j < k - 1 {
                    assert(seen(references, k - 1, references[i]));
                }
            }
            if seen(references, k - 1, references[i]) {
                let j = choose|j: int|
                    0 <= j < k - 1 && #[trigger] references[j] == references[i];
                assert(references[j] == references[i]);
            }
            if references[i] == current {
                assert(references[k - 1] == references[i]);
            }
        }
        match replacement(entries, platform, current) {
            Some(new) => {
                let patch = PatchView { old: current, new };
                let all = earlier.push(patch);
                assert(all.drop_last() =~= earlier);
                assert(all.last() == patch);
                let after = patched_once(before, patch);
                assert forall|i: int| 0 <= i < references.len() implies after[i] == goal[i] by {
                    lemma_replacement_is_final(entries, platform, references[i]);
                }
                assert(after =~= goal);
            },
            None => {
                assert(before =~= goal);
            },
        }
    }
}

/// Making the planned patches relocates the library: the patches change exactly the
/// references that the table names, each into its replacement.
pub proof fn plan_carries_out_relocation(
    entries: Seq<RewriteView>,
    platform: Platform,
    references: Seq<Seq<char>>,
)
    requires
        closed_under_rewriting(entries),
    ensures
        patched(references, planned(entries, platform, references)) == rewritten_all(
            entries,
            platform,
            references,
        ),
{
    lemma_partial_plan(entries, platform, references, references.len() as int);
    assert(references.subrange(0, references.len() as int) =~= references);
    assert forall|i: int| 0 <= i < references.len() implies seen(
        references,
        references.len() as int,
        references[i],
    ) by {
        assert(references[i] == references[i]);
    }
    assert(patched(references, planned(entries, platform, references)) =~= rewritten_all(
        entries,
        platform,
        references,
    ));
}

} // verus!
