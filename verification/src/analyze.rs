//! Static cost estimation: scans source text for secure-computation markers and derives an
//! advisory runtime estimate.
//!
//! The estimate is a rough heuristic meant to guide the caller. It is not a cost model that
//! was validated against real executions.
//!
//! All durations are whole milliseconds, so every figure is exact.

use crate::path::{file_name, file_name_of};
use vstd::prelude::*;
use vstd::string::StringExecFns;

verus! {

/// Which of the secure-computation data-type families the source mentions.
#[derive(Debug, Clone, Copy, PartialEq, Eq, Structural)]
pub struct TypeUsage {
    pub sharetensor: bool,
    pub ciphertensor: bool,
    pub mpu: bool,
    pub mpp: bool,
    pub mpa: bool,
}

/// How often each operation marker occurs in the source.
#[derive(Debug, Clone, Copy, PartialEq, Eq, Structural)]
pub struct Operations {
    /// Occurrences of the composition marker `@`, a coarse proxy for matrix products.
    pub matmul: usize,
    pub encrypt: usize,
    pub decrypt: usize,
}

/// What the source requires of the runtime.
#[derive(Debug, Clone, Copy, PartialEq, Eq, Structural)]
pub struct RuntimeInfo {
    pub needs_mhe: bool,
    pub can_skip_mhe: bool,
    pub uses_local: bool,
}

/// The additive time estimate, every component in milliseconds.
#[derive(Debug, Clone, Copy, PartialEq, Eq, Structural)]
pub struct Estimate {
    pub jit_millis: u128,
    pub mhe_millis: u128,
    pub mpc_millis: u128,
    pub ops_millis: u128,
    /// The sum of the four components, rounded to a tenth of a second.
    pub total_millis: u128,
}

/// Everything the scanner reads off the source text: seven presence flags and three counts.
#[derive(Debug, Clone, Copy, PartialEq, Eq, Structural)]
pub struct MarkerScan {
    pub sharetensor: bool,
    pub ciphertensor: bool,
    pub mpu: bool,
    pub mpp: bool,
    pub mpa: bool,
    /// The encryption-protocol setup call `mpc.mhe` occurs.
    pub uses_mhe: bool,
    /// The `@local` annotation occurs.
    pub uses_local: bool,
    pub matmul: usize,
    pub encrypt: usize,
    pub decrypt: usize,
}

/// The read-only profile of one source file.
#[derive(Debug)]
pub struct Analysis {
    /// The final component of `path`.
    pub file: String,
    pub path: String,
    pub types: TypeUsage,
    pub operations: Operations,
    pub runtime: RuntimeInfo,
    pub estimate: Estimate,
}

/// The mathematical content of an [`Analysis`].
pub struct AnalysisView {
    pub file: Seq<char>,
    pub path: Seq<char>,
    pub types: TypeUsage,
    pub operations: Operations,
    pub runtime: RuntimeInfo,
    pub estimate: Estimate,
}

impl View for Analysis {
    type V = AnalysisView;

    open spec fn view(&self) -> AnalysisView {
        AnalysisView {
            file: self.file@,
            path: self.path@,
            types: self.types,
            operations: self.operations,
            runtime: self.runtime,
            estimate: self.estimate,
        }
    }
}

/// Why a scan could not be carried out.
#[derive(Debug)]
pub enum AnalyzeError {
    /// The pattern engine refused `pattern`; `reason` is its message.
    InvalidPattern { pattern: String, reason: String },
}

impl AnalyzeError {
    /// The message shown to the caller.
    pub fn message(&self) -> (text: String)
        ensures
            text@ == self.message_text(),
    {
        match self {
            AnalyzeError::InvalidPattern { pattern, reason } => {
                let text = String::from_str("invalid marker pattern ");
                let text = text.concat(pattern.as_str());
                let text = text.concat(": ");
                text.concat(reason.as_str())
            },
        }
    }

    /// What [`AnalyzeError::message`] returns.
    pub open spec fn message_text(&self) -> Seq<char> {
        match self {
            AnalyzeError::InvalidPattern { pattern, reason } => "invalid marker pattern "@
                + pattern@ + ": "@ + reason@,
        }
    }
}

/// `regex::Error`, the error with which the pattern engine refuses a pattern. Its content
/// is not looked into; [`pattern_error_text`] turns it into a message.
#[verifier::external_type_specification]
#[verifier::external_body]
pub struct ExPatternEngineError(regex::Error);

/// Whether the pattern engine compiles `pattern`: `regex::Regex::new` returns `Ok`.
pub uninterp spec fn regex_accepts(pattern: Seq<char>) -> bool;

/// Whether `pattern`, once compiled, matches anywhere in `haystack`: the result of
/// `regex::Regex::is_match`.
pub uninterp spec fn regex_is_match(pattern: Seq<char>, haystack: Seq<char>) -> bool;

/// The number of successive non-overlapping matches of `pattern` in `haystack`: how many
/// items `regex::Regex::find_iter` yields.
pub uninterp spec fn regex_match_count(pattern: Seq<char>, haystack: Seq<char>) -> nat;

/// Compiles `pattern` with `regex::Regex::new` and asks `regex::Regex::is_match` whether it
/// matches anywhere in `text`. The compilation error is handed on as it is.
///
/// The compiled pattern does not leave this function. What a compiled pattern matches
/// depends on how it was built, so the contract speaks of the pattern text, compiled the
/// default way, and of nothing else. It claims neither which patterns compile nor what
/// they match: both are only given names.
#[verifier::external_body]
fn pattern_occurs(pattern: &str, text: &str) -> (found: Result<bool, regex::Error>)
    ensures
        found is Ok <==> regex_accepts(pattern@),
        found matches Ok(b) ==> b == regex_is_match(pattern@, text@),
{
    Ok(regex::Regex::new(pattern)?.is_match(text))
}

/// Compiles `pattern` with `regex::Regex::new` and counts the matches that
/// `regex::Regex::find_iter` yields on `text`. The compilation error is handed on as it is.
/// As in [`pattern_occurs`], the compiled pattern stays inside and the result is only named.
#[verifier::external_body]
fn pattern_count(pattern: &str, text: &str) -> (count: Result<usize, regex::Error>)
    ensures
        count is Ok <==> regex_accepts(pattern@),
        count matches Ok(n) ==> n == regex_match_count(pattern@, text@),
{
    Ok(regex::Regex::new(pattern)?.find_iter(text).count())
}

/// The message of a pattern-engine error, as its `Display` impl writes it. Nothing is
/// claimed about the text.
#[verifier::external_body]
fn pattern_error_text(error: &regex::Error) -> (text: String) {
    error.to_string()
}

/// The secret-shared tensor type.
pub const SHARETENSOR_PATTERN: &'static str = r"\bSharetensor\b";

/// The encrypted tensor type.
pub const CIPHERTENSOR_PATTERN: &'static str = r"\bCiphertensor\b";

/// The multi-party union type.
pub const MPU_PATTERN: &'static str = r"\bMPU\b";

/// The multi-party partition type.
pub const MPP_PATTERN: &'static str = r"\bMPP\b";

/// The multi-party aggregate type.
pub const MPA_PATTERN: &'static str = r"\bMPA\b";

/// The call that sets up the encryption protocol.
pub const MHE_PATTERN: &'static str = r"mpc\.mhe\b";

/// The annotation for code that runs locally.
pub const LOCAL_PATTERN: &'static str = r"@local\b";

/// The composition marker.
pub const MATMUL_PATTERN: &'static str = r"@";

/// An explicit encrypt call.
pub const ENCRYPT_PATTERN: &'static str = r"\.encrypt\s*\(";

/// An explicit decrypt or reveal call.
pub const DECRYPT_PATTERN: &'static str = r"\.decrypt\s*\(|\.reveal\s*\(";

/// The marker patterns in the order in which a scan applies them.
pub open spec fn marker_patterns() -> Seq<Seq<char>> {
    seq![
        SHARETENSOR_PATTERN@,
        CIPHERTENSOR_PATTERN@,
        MPU_PATTERN@,
        MPP_PATTERN@,
        MPA_PATTERN@,
        MHE_PATTERN@,
        LOCAL_PATTERN@,
        MATMUL_PATTERN@,
        ENCRYPT_PATTERN@,
        DECRYPT_PATTERN@,
    ]
}

/// The pattern engine compiles the first `n` marker patterns.
pub open spec fn accepted_up_to(n: int) -> bool {
    forall|i: int| 0 <= i < n && i < marker_patterns().len() ==> regex_accepts(
        #[trigger] marker_patterns()[i],
    )
}

/// What a scan of `source` reads off it.
pub open spec fn scan_of(source: Seq<char>) -> MarkerScan {
    MarkerScan {
        sharetensor: regex_is_match(SHARETENSOR_PATTERN@, source),
        ciphertensor: regex_is_match(CIPHERTENSOR_PATTERN@, source),
        mpu: regex_is_match(MPU_PATTERN@, source),
        mpp: regex_is_match(MPP_PATTERN@, source),
        mpa: regex_is_match(MPA_PATTERN@, source),
        uses_mhe: regex_is_match(MHE_PATTERN@, source),
        uses_local: regex_is_match(LOCAL_PATTERN@, source),
        matmul: regex_match_count(MATMUL_PATTERN@, source) as usize,
        encrypt: regex_match_count(ENCRYPT_PATTERN@, source) as usize,
        decrypt: regex_match_count(DECRYPT_PATTERN@, source) as usize,
    }
}

/// The error `e` names the `i`-th marker pattern, the first that the engine refuses.
pub open spec fn rejected_at(e: AnalyzeError, i: int) -> bool {
    &&& 0 <= i < 10
    &&& accepted_up_to(i)
    &&& !regex_accepts(marker_patterns()[i])
    &&& e matches AnalyzeError::InvalidPattern { pattern, .. }
    &&& pattern@ == marker_patterns()[i]
}

/// What a scan of `source` may return: the scan where the engine compiles every marker
/// pattern, and otherwise an error that names the first pattern it refuses.
pub open spec fn scan_result(source: Seq<char>, r: Result<MarkerScan, AnalyzeError>) -> bool {
    match r {
        Ok(scan) => accepted_up_to(10) && scan == scan_of(source),
        Err(e) => exists|i: int| rejected_at(e, i),
    }
}

/// Tests whether `pattern` occurs anywhere in `text`. The test fails exactly where the
/// pattern engine refuses the pattern, and the error then names the pattern.
pub fn occurs(pattern: &str, text: &str) -> (r: Result<bool, AnalyzeError>)
    ensures
        r is Ok <==> regex_accepts(pattern@),
        r matches Ok(found) ==> found == regex_is_match(pattern@, text@),
        r matches Err(AnalyzeError::InvalidPattern { pattern: named, .. }) ==> named@ == pattern@,
{
    match pattern_occurs(pattern, text) {
        Ok(found) => Ok(found),
        Err(error) => Err(
            AnalyzeError::InvalidPattern {
                pattern: String::from_str(pattern),
                reason: pattern_error_text(&error),
            },
        ),
    }
}

/// Counts the successive non-overlapping matches of `pattern` in `text`. The count fails
/// exactly where the pattern engine refuses the pattern, and the error then names the
/// pattern.
pub fn count(pattern: &str, text: &str) -> (r: Result<usize, AnalyzeError>)
    ensures
        r is Ok <==> regex_accepts(pattern@),
        r matches Ok(n) ==> n == regex_match_count(pattern@, text@),
        r matches Err(AnalyzeError::InvalidPattern { pattern: named, .. }) ==> named@ == pattern@,
{
    match pattern_count(pattern, text) {
        Ok(n) => Ok(n),
        Err(error) => Err(
            AnalyzeError::InvalidPattern {
                pattern: String::from_str(pattern),
                reason: pattern_error_text(&error),
            },
        ),
    }
}

/// Tests the `index`-th marker pattern for an occurrence in `text`.
fn marker_occurs(pattern: &'static str, text: &str, Ghost(index): Ghost<int>) -> (r: Result<
    bool,
    AnalyzeError,
>)
    requires
        0 <= index < 10,
        pattern@ == marker_patterns()[index],
        accepted_up_to(index),
    ensures
        r is Ok ==> accepted_up_to(index + 1),
        r matches Ok(b) ==> b == regex_is_match(pattern@, text@),
        r matches Err(e) ==> rejected_at(e, index),
{
    occurs(pattern, text)
}

/// Counts the matches of the `index`-th marker pattern in `text`.
fn marker_count(pattern: &'static str, text: &str, Ghost(index): Ghost<int>) -> (r: Result<
    usize,
    AnalyzeError,
>)
    requires
        0 <= index < 10,
        pattern@ == marker_patterns()[index],
        accepted_up_to(index),
    ensures
        r is Ok ==> accepted_up_to(index + 1),
        r matches Ok(n) ==> n == regex_match_count(pattern@, text@),
        r matches Err(e) ==> rejected_at(e, index),
{
    count(pattern, text)
}

/// Scans `source` for the seven presence markers and the three operation markers.
pub fn scan_markers(source: &str) -> (r: Result<MarkerScan, AnalyzeError>)
    ensures
        scan_result(source@, r),
{
    let sharetensor = marker_occurs(SHARETENSOR_PATTERN, source, Ghost(0))?;
    let ciphertensor = marker_occurs(CIPHERTENSOR_PATTERN, source, Ghost(1))?;
    let mpu = marker_occurs(MPU_PATTERN, source, Ghost(2))?;
    let mpp = marker_occurs(MPP_PATTERN, source, Ghost(3))?;
    let mpa = marker_occurs(MPA_PATTERN, source, Ghost(4))?;
    let uses_mhe = marker_occurs(MHE_PATTERN, source, Ghost(5))?;
    let uses_local = marker_occurs(LOCAL_PATTERN, source, Ghost(6))?;
    let matmul = marker_count(MATMUL_PATTERN, source, Ghost(7))?;
    let encrypt = marker_count(ENCRYPT_PATTERN, source, Ghost(8))?;
    let decrypt = marker_count(DECRYPT_PATTERN, source, Ghost(9))?;
    Ok(
        MarkerScan {
            sharetensor,
            ciphertensor,
            mpu,
            mpp,
            mpa,
            uses_mhe,
            uses_local,
            matmul,
            encrypt,
            decrypt,
        },
    )
}

/// Fixed just-in-time compilation cost.
pub const JIT_MILLIS: u128 = 20_000;

/// Cost of the homomorphic key setup, paid only when it is required.
pub const MHE_MILLIS: u128 = 15_000;

/// Fixed cost of bringing up the secret-sharing network.
pub const MPC_MILLIS: u128 = 3_000;

/// Elements assumed per composition on secret-shared tensors.
pub const SHARE_ELEMENTS: u128 = 1_000;

/// Microseconds per element of a composition on secret-shared tensors.
pub const SHARE_MICROS_PER_ELEMENT: u128 = 30;

/// Elements assumed per composition on encrypted tensors.
pub const CIPHER_ELEMENTS: u128 = 100;

/// Microseconds per element of a composition on encrypted tensors, about a thousand times
/// the secret-shared figure.
pub const CIPHER_MICROS_PER_ELEMENT: u128 = 33_000;

/// `value` divided by `unit`, rounded to the nearest whole number, halves upwards.
pub open spec fn rounded(value: nat, unit: nat) -> nat
    recommends
        unit > 0,
{
    (value + unit / 2) / unit
}

/// The unrounded operation cost in microseconds: the composition count scaled by the
/// per-type constants of every tensor family that is present.
pub open spec fn ops_micros(sharetensor: bool, ciphertensor: bool, matmul: nat) -> nat {
    (if sharetensor {
        matmul * SHARE_ELEMENTS as nat * SHARE_MICROS_PER_ELEMENT as nat
    } else {
        0
    }) + (if ciphertensor {
        matmul * CIPHER_ELEMENTS as nat * CIPHER_MICROS_PER_ELEMENT as nat
    } else {
        0
    })
}

/// The setup is needed as soon as an encryption-oriented type or the setup call occurs.
pub open spec fn needs_mhe(scan: MarkerScan) -> bool {
    scan.ciphertensor || scan.mpu || scan.mpp || scan.mpa || scan.uses_mhe
}

/// The estimate that belongs to a scan.
pub open spec fn estimate_of(scan: MarkerScan) -> Estimate {
    let mhe: nat = if needs_mhe(scan) {
        MHE_MILLIS as nat
    } else {
        0
    };
    let ops = rounded(ops_micros(scan.sharetensor, scan.ciphertensor, scan.matmul as nat), 1000);
    let sum = JIT_MILLIS as nat + mhe + MPC_MILLIS as nat + ops;
    Estimate {
        jit_millis: JIT_MILLIS,
        mhe_millis: mhe as u128,
        mpc_millis: MPC_MILLIS,
        ops_millis: ops as u128,
        total_millis: (rounded(sum, 100) * 100) as u128,
    }
}

/// The profile that belongs to a path and a scan of its text.
pub open spec fn analysis_of(path: Seq<char>, scan: MarkerScan) -> AnalysisView {
    AnalysisView {
        file: file_name(path),
        path,
        types: TypeUsage {
            sharetensor: scan.sharetensor,
            ciphertensor: scan.ciphertensor,
            mpu: scan.mpu,
            mpp: scan.mpp,
            mpa: scan.mpa,
        },
        operations: Operations {
            matmul: scan.matmul,
            encrypt: scan.encrypt,
            decrypt: scan.decrypt,
        },
        runtime: RuntimeInfo {
            needs_mhe: needs_mhe(scan),
            can_skip_mhe: !needs_mhe(scan),
            uses_local: scan.uses_local,
        },
        estimate: estimate_of(scan),
    }
}

/// Computes the time estimate of a scan.
pub fn estimate(scan: &MarkerScan) -> (e: Estimate)
    ensures
        e == estimate_of(*scan),
        e.ops_millis == (if scan.sharetensor {
            30 * scan.matmul
        } else {
            0
        }) + (if scan.ciphertensor {
            3300 * scan.matmul
        } else {
            0
        }),
        e.total_millis % 100 == 0,
{
    let setup = scan.ciphertensor || scan.mpu || scan.mpp || scan.mpa || scan.uses_mhe;
    let mhe: u128 = if setup {
        MHE_MILLIS
    } else {
        0
    };
    let count: u128 = scan.matmul as u128;
    let mut micros: u128 = 0;
    if scan.sharetensor {
        micros = micros + count * SHARE_ELEMENTS * SHARE_MICROS_PER_ELEMENT;
    }
    if scan.ciphertensor {
        micros = micros + count * CIPHER_ELEMENTS * CIPHER_MICROS_PER_ELEMENT;
    }
    let ops: u128 = (micros + 500) / 1000;
    let sum: u128 = JIT_MILLIS + mhe + MPC_MILLIS + ops;
    let total: u128 = (sum + 50) / 100 * 100;
    Estimate {
        jit_millis: JIT_MILLIS,
        mhe_millis: mhe,
        mpc_millis: MPC_MILLIS,
        ops_millis: ops,
        total_millis: total,
    }
}

/// Builds the profile of the file at `path` from a scan of its text.
pub fn analysis_from_scan(path: &str, scan: &MarkerScan) -> (a: Analysis)
    ensures
        a@ == analysis_of(path@, *scan),
{
    let setup = scan.ciphertensor || scan.mpu || scan.mpp || scan.mpa || scan.uses_mhe;
    Analysis {
        file: file_name_of(path),
        path: String::from_str(path),
        types: TypeUsage {
            sharetensor: scan.sharetensor,
            ciphertensor: scan.ciphertensor,
            mpu: scan.mpu,
            mpp: scan.mpp,
            mpa: scan.mpa,
        },
        operations: Operations {
            matmul: scan.matmul,
            encrypt: scan.encrypt,
            decrypt: scan.decrypt,
        },
        runtime: RuntimeInfo { needs_mhe: setup, can_skip_mhe: !setup, uses_local: scan.uses_local },
        estimate: estimate(scan),
    }
}

/// What an analysis of `source`, found at `path`, may return.
pub open spec fn analysis_result(
    path: Seq<char>,
    source: Seq<char>,
    r: Result<Analysis, AnalyzeError>,
) -> bool {
    match r {
        Ok(a) => accepted_up_to(10) && a@ == analysis_of(path, scan_of(source)),
        Err(e) => scan_result(source, Err(e)),
    }
}

/// Profiles the source text of the file at `path`.
///
/// The result depends on `path` and `source` alone. It is `Ok` exactly where the pattern
/// engine compiles every marker pattern.
pub fn analyze_source(path: &str, source: &str) -> (r: Result<Analysis, AnalyzeError>)
    ensures
        analysis_result(path@, source@, r),
        r is Ok <==> accepted_up_to(10),
{
    match scan_markers(source) {
        Ok(scan) => Ok(analysis_from_scan(path, &scan)),
        Err(e) => Err(e),
    }
}

/// Analysis is a function of the path and the text alone: whatever two analyses of one
/// text return, both succeed or both fail, and where they succeed they agree in every
/// field, the rounded totals included. Where they fail they name the same pattern.
pub proof fn analysis_is_deterministic(
    path: Seq<char>,
    source: Seq<char>,
    first: Result<Analysis, AnalyzeError>,
    second: Result<Analysis, AnalyzeError>,
)
    requires
        analysis_result(path, source, first),
        analysis_result(path, source, second),
    ensures
        first is Ok <==> second is Ok,
        first matches Ok(a) ==> second matches Ok(b) && a@ == b@,
        first matches Err(AnalyzeError::InvalidPattern { pattern: p, reason: _ }) ==> second matches Err(
            AnalyzeError::InvalidPattern { pattern: q, reason: _ },
        ) && p@ == q@,
{
    match (first, second) {
        (Err(e), Ok(_)) => {
            let i = choose|i: int| rejected_at(e, i);
            assert(regex_accepts(marker_patterns()[i]));
        },
        (Ok(_), Err(e)) => {
            let i = choose|i: int| rejected_at(e, i);
            assert(regex_accepts(marker_patterns()[i]));
        },
        (Err(e), Err(f)) => {
            let i = choose|i: int| rejected_at(e, i);
            let j = choose|j: int| rejected_at(f, j);
            if i < j {
                assert(regex_accepts(marker_patterns()[i]));
            }
            if j < i {
                assert(regex_accepts(marker_patterns()[j]));
            }
        },
        (Ok(_), Ok(_)) => {},
    }
}

} // verus!
