//! Resolution of the active level filter.
//!
//! Resolution of the active level filter.
//!
//! At startup the dispatcher's filter comes from one of two places: an
//! environment-supplied override expression (`target=level[,target=level...]`),
//! or, when that is absent or unusable, a filter built from the
//! caller-supplied default level alone. Parsing the expression language is the
//! logging framework's job; this module decides which of the two sources is
//! active, and guarantees that an unusable override — malformed, or shaped so
//! that handing it to the parser is unsafe — degrades to the default instead
//! of failing initialization.

use vstd::prelude::*;
use vstd::string::StrSliceExecFns;
use vstd::utf8::is_ascii_chars;

use crate::level::Level;

verus! {

/// The Unicode whitespace characters: exactly the set `str::trim` removes.
pub open spec fn is_space_char(c: char) -> bool {
    let u = c as u32;
    ||| u == 0x9
    ||| u == 0xa
    ||| u == 0xb
    ||| u == 0xc
    ||| u == 0xd
    ||| u == 0x20
    ||| u == 0x85
    ||| u == 0xa0
    ||| u == 0x1680
    ||| (0x2000 <= u && u <= 0x200a)
    ||| u == 0x2028
    ||| u == 0x2029
    ||| u == 0x202f
    ||| u == 0x205f
    ||| u == 0x3000
}

/// Executable whitespace test, equal to `is_space_char`.
fn space_char(c: char) -> (r: bool)
    ensures
        r == is_space_char(c),
{
    let u = c as u32;
    u == 0x9 || u == 0xa || u == 0xb || u == 0xc || u == 0xd || u == 0x20 || u == 0x85
        || u == 0xa0 || u == 0x1680 || (0x2000 <= u && u <= 0x200a) || u == 0x2028 || u == 0x2029
        || u == 0x202f || u == 0x205f || u == 0x3000
}

/// Position `i` of `s` is the first character of a comma-separated segment.
pub open spec fn starts_segment(s: Seq<char>, i: int) -> bool {
    i == 0 || s[i - 1] == ','
}

/// Position `i` of `s` is the last character of a comma-separated segment.
pub open spec fn ends_segment(s: Seq<char>, i: int) -> bool {
    i == s.len() - 1 || s[i + 1] == ','
}

/// Every comma-separated segment of `s` equals its own trimmed form: no
/// whitespace character stands first or last in its segment.
pub open spec fn segments_self_trimmed(s: Seq<char>) -> bool {
    forall|i: int|
        0 <= i < s.len() && is_space_char(s[i]) ==> !starts_segment(s, i) && !ends_segment(s, i)
}

/// Strings that can be safely handed to the filter parser: all ASCII, or
/// every comma-separated segment equal to its own trimmed form. Either way
/// the parser's directive slicing stays on character boundaries.
pub open spec fn parser_safe(s: Seq<char>) -> bool {
    is_ascii_chars(s) || segments_self_trimmed(s)
}

/// Whether every comma-separated segment of `s` equals its own trimmed form.
fn check_segments_self_trimmed(s: &str) -> (r: bool)
    ensures
        r == segments_self_trimmed(s@),
{
    let n = s.unicode_len();
    let mut i: usize = 0;
    while i < n
        invariant
            n == s@.len(),
            0 <= i <= n,
            forall|j: int|
                0 <= j < i && is_space_char(s@[j]) ==> !starts_segment(s@, j) && !ends_segment(
                    s@,
                    j,
                ),
        decreases n - i,
    {
        let c = s.get_char(i);
        if space_char(c) {
            let starts = i == 0 || s.get_char(i - 1) == ',';
            let ends = i == n - 1 || s.get_char(i + 1) == ',';
            if starts || ends {
                proof {
                    assert(is_space_char(s@[i as int]));
                    assert(starts ==> starts_segment(s@, i as int));
                    assert(ends ==> ends_segment(s@, i as int));
                    assert(!segments_self_trimmed(s@));
                }
                return false;
            }
        }
        i += 1;
    }
    true
}

/// The filter-expression type of the logging framework, carried opaquely.
#[verifier::external_type_specification]
#[verifier::external_body]
pub struct ExEnvFilter(tracing_subscriber::EnvFilter);

/// Whether the filter-expression parser accepts `s`; acceptance is decided by
/// the characters alone.
pub uninterp spec fn env_filter_accepts(s: Seq<char>) -> bool;

/// Relies on tracing_subscriber::EnvFilter::try_new: parses a comma-separated
/// filter-directive string and returns an error exactly when some directive
/// is malformed; whether it parses depends on the characters alone. The
/// parser iterates each directive's trimmed form but slices the untrimmed
/// one, so a directive with whitespace at its edge around multi-byte text can
/// make it panic on a byte index inside a character. It always returns when
/// the string is all ASCII (every byte index is then a character boundary),
/// or when every comma-separated directive equals its own trimmed form (the
/// offsets then align exactly).
#[verifier::external_body]
fn try_parse_env_filter(s: &str) -> (r: Option<tracing_subscriber::EnvFilter>)
    requires
        parser_safe(s@),
    ensures
        r is Some <==> env_filter_accepts(s@),
{
    tracing_subscriber::EnvFilter::try_new(s).ok()
}

/// The filter the dispatcher is built with: the parsed override expression,
/// or a filter admitting the fallback level and above. The carried filter
/// value is opaque to the contracts: which source it came from is stated,
/// but not that the value is the one parsed from the override string.
pub enum FilterChoice {
    FromOverride(tracing_subscriber::EnvFilter),
    Fallback(Level),
}

/// Which source the active filter came from. The override expression itself
/// stays with the logging framework; only the choice is modeled.
#[derive(Clone, Copy, PartialEq, Eq, Structural, Debug)]
pub enum FilterResolution {
    OverrideActive,
    FallbackActive(Level),
}

impl FilterChoice {
    /// The source this choice drew the filter from.
    pub open spec fn resolution(self) -> FilterResolution {
        match self {
            FilterChoice::FromOverride(_) => FilterResolution::OverrideActive,
            FilterChoice::Fallback(l) => FilterResolution::FallbackActive(l),
        }
    }
}

/// The view of an optional override string.
pub open spec fn opt_view(o: Option<&str>) -> Option<Seq<char>> {
    match o {
        Some(s) => Some(s@),
        None => None,
    }
}

/// Which filter source is active for a given override value: the override
/// exactly when it is present, safe to hand to the parser, and accepted by
/// it; otherwise the fallback level.
pub open spec fn resolve_spec(env_override: Option<Seq<char>>, default_level: Level) -> FilterResolution {
    match env_override {
        Some(s) => if parser_safe(s) && env_filter_accepts(s) {
            FilterResolution::OverrideActive
        } else {
            FilterResolution::FallbackActive(default_level)
        },
        None => FilterResolution::FallbackActive(default_level),
    }
}

/// Resolves the active filter from an optional override expression and the
/// caller's default level. Never fails and never panics: an override that is
/// malformed, or that cannot be safely handed to the parser (a segment with
/// whitespace at its edge in a non-ASCII string), falls back to the default
/// level exactly as an absent one does.
pub fn resolve_filter(env_override: Option<&str>, default_level: Level) -> (r: FilterChoice)
    ensures
        r.resolution() == resolve_spec(opt_view(env_override), default_level),
{
    match env_override {
        Some(s) => {
            if s.is_ascii() || check_segments_self_trimmed(s) {
                match try_parse_env_filter(s) {
                    Some(f) => FilterChoice::FromOverride(f),
                    None => FilterChoice::Fallback(default_level),
                }
            } else {
                FilterChoice::Fallback(default_level)
            }
        },
        None => FilterChoice::Fallback(default_level),
    }
}

/// An override the filter cannot use — malformed, or unsafe to hand to the
/// parser — behaves identically to having no override at all: both resolve
/// to the fallback built from the default level.
pub proof fn lemma_malformed_override_falls_back(s: Seq<char>, default_level: Level)
    requires
        !(parser_safe(s) && env_filter_accepts(s)),
    ensures
        resolve_spec(Some(s), default_level) == resolve_spec(None, default_level),
{
}

} // verus!
