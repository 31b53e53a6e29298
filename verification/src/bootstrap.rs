//! The once-per-process initialization of the log dispatcher.
//!
//! A process holds a single-assignment dispatcher cell: it is set exactly
//! once and read thereafter. `initialize` composes the resolved filter, the
//! console sink and the daily-rotating file sink into one dispatcher and
//! installs it into that cell. A second attempt fails loudly with
//! `AlreadyInitialized`; an unwritable log directory fails with `IoError` and
//! installs nothing, so either the full dispatcher is installed or none of
//! it. The surrounding program probes the directory, reads the override
//! expression from the environment, and wires the real sinks from the
//! returned `FilterChoice`; every decision is made here.

use vstd::prelude::*;

use crate::filter::{opt_view, resolve_filter, resolve_spec, FilterChoice, FilterResolution};
use crate::level::{severity, Level};

verus! {

/// Why initialization failed.
#[derive(Clone, Copy, PartialEq, Eq, Structural, Debug)]
pub enum InitError {
    /// A dispatcher is already installed; it is never silently replaced.
    AlreadyInitialized,
    /// The log directory cannot be created or written.
    IoError,
}

/// The process-wide dispatcher cell: empty, or installed with the filter
/// source that initialization resolved.
#[derive(Clone, Copy, PartialEq, Eq, Structural, Debug)]
pub enum DispatcherState {
    NotInstalled,
    FallbackInstalled(Level),
    OverrideInstalled,
}

/// What the dispatcher does with one record: nothing because no dispatcher is
/// installed, nothing because the filter rejects it, one formatted line to
/// the console sink and one to the file sink, or whatever the override
/// expression decides (that decision belongs to the logging framework).
#[derive(Clone, Copy, PartialEq, Eq, Structural, Debug)]
pub enum RouteDecision {
    NoDispatcher,
    Filtered,
    Deliver,
    DelegatedToOverride,
}

/// The initialization step: the next state of the dispatcher cell and the
/// call's result, from the current state and the call's inputs.
pub open spec fn spec_initialize(
    st: DispatcherState,
    dir_writable: bool,
    env_override: Option<Seq<char>>,
    default_level: Level,
) -> (DispatcherState, Result<FilterResolution, InitError>) {
    if st != DispatcherState::NotInstalled {
        (st, Err(InitError::AlreadyInitialized))
    } else if !dir_writable {
        (st, Err(InitError::IoError))
    } else {
        match resolve_spec(env_override, default_level) {
            FilterResolution::OverrideActive => (
                DispatcherState::OverrideInstalled,
                Ok(FilterResolution::OverrideActive),
            ),
            FilterResolution::FallbackActive(l) => (
                DispatcherState::FallbackInstalled(l),
                Ok(FilterResolution::FallbackActive(l)),
            ),
        }
    }
}

/// What the installed dispatcher does with a record of severity `record`.
pub open spec fn spec_route(st: DispatcherState, record: Level) -> RouteDecision {
    match st {
        DispatcherState::NotInstalled => RouteDecision::NoDispatcher,
        DispatcherState::FallbackInstalled(f) => if severity(record) >= severity(f) {
            RouteDecision::Deliver
        } else {
            RouteDecision::Filtered
        },
        DispatcherState::OverrideInstalled => RouteDecision::DelegatedToOverride,
    }
}

/// The bootstrap component owning the process's dispatcher cell.
pub struct LogBootstrap {
    state: DispatcherState,
}

impl LogBootstrap {
    /// The dispatcher cell's current contents.
    pub closed spec fn dispatcher(self) -> DispatcherState {
        self.state
    }

    /// Whether a dispatcher is installed.
    pub open spec fn installed(self) -> bool {
        self.dispatcher() != DispatcherState::NotInstalled
    }

    /// A fresh process: no dispatcher installed.
    pub fn new() -> (s: Self)
        ensures
            s.dispatcher() == DispatcherState::NotInstalled,
    {
        LogBootstrap { state: DispatcherState::NotInstalled }
    }

    /// Builds and installs the process-wide dispatcher, exactly once.
    ///
    /// `dir_writable` reports whether the log directory exists or could be
    /// created and written; `env_override` is the environment-supplied filter
    /// expression, if any. Fails with `AlreadyInitialized` if and only if a
    /// dispatcher is already installed (leaving it untouched), with `IoError`
    /// if and only if the directory is unwritable (installing nothing), and
    /// otherwise succeeds, returning the filter the dispatcher was built
    /// with: the parsed override exactly when one is present, safe to hand to
    /// the parser and well-formed, else the fallback built from
    /// `default_level`.
    pub fn initialize(
        &mut self,
        dir_writable: bool,
        env_override: Option<&str>,
        default_level: Level,
    ) -> (r: Result<FilterChoice, InitError>)
        ensures
            ({
                let (st, rr) = spec_initialize(
                    old(self).dispatcher(),
                    dir_writable,
                    opt_view(env_override),
                    default_level,
                );
                &&& final(self).dispatcher() == st
                &&& match r {
                    Ok(choice) => rr == Ok::<FilterResolution, InitError>(choice.resolution()),
                    Err(e) => rr == Err::<FilterResolution, InitError>(e),
                }
            }),
    {
        match self.state {
            DispatcherState::NotInstalled => {
                if !dir_writable {
                    Err(InitError::IoError)
                } else {
                    let choice = resolve_filter(env_override, default_level);
                    match &choice {
                        FilterChoice::FromOverride(_) => {
                            self.state = DispatcherState::OverrideInstalled;
                        },
                        FilterChoice::Fallback(l) => {
                            self.state = DispatcherState::FallbackInstalled(*l);
                        },
                    }
                    Ok(choice)
                }
            },
            _ => Err(InitError::AlreadyInitialized),
        }
    }

    /// What the dispatcher does with a record of severity `record`:
    /// `NoDispatcher` while nothing is installed (no output of any kind),
    /// `Deliver` (one line to the console sink and one to the file sink) or
    /// `Filtered` under the fallback filter, and `DelegatedToOverride` when
    /// the override expression is the active filter.
    pub fn route(&self, record: Level) -> (r: RouteDecision)
        ensures
            r == spec_route(self.dispatcher(), record),
    {
        match &self.state {
            DispatcherState::NotInstalled => RouteDecision::NoDispatcher,
            DispatcherState::FallbackInstalled(f) => {
                if crate::level::passes(*f, record) {
                    RouteDecision::Deliver
                } else {
                    RouteDecision::Filtered
                }
            },
            DispatcherState::OverrideInstalled => RouteDecision::DelegatedToOverride,
        }
    }
}

/// Initialization succeeds exactly once: from a fresh process with a writable
/// directory it installs a dispatcher, and from then on every further
/// attempt, with any arguments, returns `AlreadyInitialized` and leaves the
/// installed dispatcher untouched.
pub proof fn lemma_initialize_once(
    w1: bool,
    e1: Option<Seq<char>>,
    l1: Level,
    w2: bool,
    e2: Option<Seq<char>>,
    l2: Level,
)
    requires
        w1,
    ensures
        ({
            let (st1, r1) = spec_initialize(DispatcherState::NotInstalled, w1, e1, l1);
            &&& r1 is Ok
            &&& st1 != DispatcherState::NotInstalled
            &&& spec_initialize(st1, w2, e2, l2) == (
                st1,
                Err::<FilterResolution, InitError>(InitError::AlreadyInitialized),
            )
        }),
{
}

/// An unwritable directory yields `IoError` and installs no dispatcher:
/// subsequent records meet no dispatcher and produce no output of any kind.
pub proof fn lemma_unwritable_installs_nothing(
    e: Option<Seq<char>>,
    default_level: Level,
    record: Level,
)
    ensures
        ({
            let (st, r) = spec_initialize(DispatcherState::NotInstalled, false, e, default_level);
            &&& r == Err::<FilterResolution, InitError>(InitError::IoError)
            &&& st == DispatcherState::NotInstalled
            &&& spec_route(st, record) == RouteDecision::NoDispatcher
        }),
{
}

/// No partial initialization: a failed attempt leaves the dispatcher cell
/// exactly as it was, and a successful one leaves a dispatcher installed —
/// either the full dispatcher is installed or none of it.
pub proof fn lemma_no_partial_install(
    st: DispatcherState,
    dir_writable: bool,
    e: Option<Seq<char>>,
    default_level: Level,
)
    ensures
        ({
            let (st2, r) = spec_initialize(st, dir_writable, e, default_level);
            &&& (r is Err ==> st2 == st)
            &&& (r is Ok ==> st2 != DispatcherState::NotInstalled)
        }),
{
}

/// Initialization with an override the filter cannot use — malformed, or
/// unsafe to hand to the parser — succeeds and behaves identically to
/// initialization with no override at all: same installed dispatcher, same
/// result, both filtering by the default level.
pub proof fn lemma_malformed_override_like_absent(
    st: DispatcherState,
    dir_writable: bool,
    s: Seq<char>,
    default_level: Level,
)
    requires
        !(crate::filter::parser_safe(s) && crate::filter::env_filter_accepts(s)),
    ensures
        spec_initialize(st, dir_writable, Some(s), default_level) == spec_initialize(
            st,
            dir_writable,
            None,
            default_level,
        ),
{
}

} // verus!
