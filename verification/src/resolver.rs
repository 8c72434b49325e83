//! The interpreter resolver: which executables are tried, in which
//! order, and which one is chosen.
//!
//! Probing an executable is the caller's work. The resolver says which
//! candidate to probe next, takes the outcome of the probe and stops at
//! the first candidate that verifies. Nothing is remembered from one
//! resolution to the next.

use crate::error::BridgeError;
use crate::text::join_text;
use vstd::prelude::*;

verus! {

/// The family of operating system that the bridge runs on.
#[derive(Clone, Copy, Debug, PartialEq, Eq, Structural)]
pub enum OsFamily {
    Windows,
    Unix,
}

/// Where an interpreter candidate comes from.
#[derive(Clone, Copy, Debug, PartialEq, Eq, Structural)]
pub enum OriginKind {
    /// The bundled runtime in its Windows layout.
    BundledWindows,
    /// The bundled runtime in its Unix layout.
    BundledUnix,
    /// An executable found by name on the search path.
    SystemNamed,
}

/// What probing one candidate gave.
#[derive(Clone, Copy, Debug, PartialEq, Eq, Structural)]
pub enum ProbeOutcome {
    /// The candidate's file does not exist; nothing was spawned.
    Missing,
    /// The operating system could not spawn the candidate.
    LaunchFailed,
    /// The version query ran and ended with or without success.
    Exited { success: bool },
}

/// A path or name considered during resolution.
#[derive(Debug, Clone, PartialEq, Eq)]
pub struct InterpreterCandidate {
    pub path: String,
    pub origin: OriginKind,
    pub verified: bool,
}

/// The verified candidate chosen for one call.
#[derive(Debug, Clone, PartialEq, Eq)]
pub struct InterpreterHandle {
    pub path: String,
    pub origin: OriginKind,
}

/// Mathematical content of an [`InterpreterCandidate`].
pub struct CandidateView {
    pub path: Seq<char>,
    pub origin: OriginKind,
    pub verified: bool,
}

/// Mathematical content of an [`InterpreterHandle`].
pub struct HandleView {
    pub path: Seq<char>,
    pub origin: OriginKind,
}

impl View for InterpreterCandidate {
    type V = CandidateView;

    open spec fn view(&self) -> CandidateView {
        CandidateView { path: self.path@, origin: self.origin, verified: self.verified }
    }
}

impl View for InterpreterHandle {
    type V = HandleView;

    open spec fn view(&self) -> HandleView {
        HandleView { path: self.path@, origin: self.origin }
    }
}

/// The views of a sequence of candidates, in order.
pub open spec fn candidate_views(candidates: Seq<InterpreterCandidate>) -> Seq<CandidateView> {
    candidates.map_values(|c: InterpreterCandidate| c@)
}

/// True for the two bundled origins.
pub open spec fn is_bundled(origin: OriginKind) -> bool {
    origin != OriginKind::SystemNamed
}

/// A probe verifies a candidate exactly when the version query ran and
/// ended with success.
pub open spec fn verifies(outcome: ProbeOutcome) -> bool {
    outcome == (ProbeOutcome::Exited { success: true })
}

/// The backend root, at a fixed offset from the caller's working
/// directory.
pub open spec fn backend_root_of(current_dir: Seq<char>) -> Seq<char> {
    current_dir + "/../../backend"@
}

/// Where a bundled runtime's interpreter lies below the backend root.
pub open spec fn bundled_suffix(origin: OriginKind) -> Seq<char> {
    match origin {
        OriginKind::BundledWindows => "/venv/Scripts/python.exe"@,
        OriginKind::BundledUnix => "/venv/bin/python"@,
        OriginKind::SystemNamed => Seq::empty(),
    }
}

/// An unverified bundled candidate below `backend_dir`.
pub open spec fn bundled_candidate(backend_dir: Seq<char>, origin: OriginKind) -> CandidateView {
    CandidateView { path: backend_dir + bundled_suffix(origin), origin, verified: false }
}

/// An unverified candidate found by name.
pub open spec fn system_candidate(name: Seq<char>) -> CandidateView {
    CandidateView { path: name, origin: OriginKind::SystemNamed, verified: false }
}

/// The bundled origin that matches an operating system family.
pub open spec fn native_origin(family: OsFamily) -> OriginKind {
    match family {
        OsFamily::Windows => OriginKind::BundledWindows,
        OsFamily::Unix => OriginKind::BundledUnix,
    }
}

/// The bundled origin of the other operating system family.
pub open spec fn foreign_origin(family: OsFamily) -> OriginKind {
    match family {
        OsFamily::Windows => OriginKind::BundledUnix,
        OsFamily::Unix => OriginKind::BundledWindows,
    }
}

/// The candidates in priority order: the bundled runtime of the current
/// operating system family, the bundled runtime of the other family,
/// then the system executables `python`, `python3` and `py`.
pub open spec fn priority_list(backend_dir: Seq<char>, family: OsFamily) -> Seq<CandidateView> {
    seq![
        bundled_candidate(backend_dir, native_origin(family)),
        bundled_candidate(backend_dir, foreign_origin(family)),
        system_candidate("python"@),
        system_candidate("python3"@),
        system_candidate("py"@),
    ]
}

/// Index of the first outcome that verifies, if any does.
pub open spec fn first_verified(outcomes: Seq<ProbeOutcome>) -> Option<int>
    decreases outcomes.len(),
{
    if outcomes.len() == 0 {
        None
    } else {
        match first_verified(outcomes.drop_last()) {
            Some(i) => Some(i),
            None => if verifies(outcomes.last()) {
                Some(outcomes.len() - 1)
            } else {
                None
            },
        }
    }
}

/// The handle for a candidate.
pub open spec fn handle_of(candidate: CandidateView) -> HandleView {
    HandleView { path: candidate.path, origin: candidate.origin }
}

/// The outcomes that belong to a candidate: outcomes beyond the last
/// candidate are not looked at.
pub open spec fn considered(
    candidates: Seq<CandidateView>,
    outcomes: Seq<ProbeOutcome>,
) -> Seq<ProbeOutcome> {
    if outcomes.len() <= candidates.len() {
        outcomes
    } else {
        outcomes.take(candidates.len() as int)
    }
}

/// The result of a resolution in which candidate `i` would probe as
/// `outcomes[i]`: the first candidate that verifies, or nothing. A
/// candidate without an outcome counts as one that does not verify.
pub open spec fn resolution(
    candidates: Seq<CandidateView>,
    outcomes: Seq<ProbeOutcome>,
) -> Option<HandleView> {
    match first_verified(considered(candidates, outcomes)) {
        Some(i) => Some(handle_of(candidates[i])),
        None => None,
    }
}

/// `first_verified` names an outcome that verifies and that no verifying
/// outcome precedes; it names none only when no outcome verifies.
pub proof fn lemma_first_verified(outcomes: Seq<ProbeOutcome>)
    ensures
        match first_verified(outcomes) {
            Some(i) => {
                &&& 0 <= i < outcomes.len()
                &&& verifies(outcomes[i])
                &&& forall|j: int| 0 <= j < i ==> !verifies(outcomes[j])
            },
            None => forall|j: int| 0 <= j < outcomes.len() ==> !verifies(outcomes[j]),
        },
    decreases outcomes.len(),
{
    if outcomes.len() > 0 {
        let head = outcomes.drop_last();
        lemma_first_verified(head);
        assert forall|j: int| 0 <= j < head.len() implies head[j] == outcomes[j] by {}
    }
}

/// An index whose outcome verifies and that no verifying outcome
/// precedes is the one that `first_verified` names.
pub proof fn lemma_first_verified_is(outcomes: Seq<ProbeOutcome>, i: int)
    requires
        0 <= i < outcomes.len(),
        verifies(outcomes[i]),
        forall|j: int| 0 <= j < i ==> !verifies(outcomes[j]),
    ensures
        first_verified(outcomes) == Some(i),
{
    lemma_first_verified(outcomes);
}

/// What the caller is asked to probe.
#[derive(Debug, Clone, PartialEq, Eq)]
pub struct ProbeRequest {
    /// The executable to invoke with the version query.
    pub path: String,
    /// The candidate's origin.
    pub origin: OriginKind,
    /// Whether the file must be seen to exist before anything is
    /// spawned. This holds for bundled candidates.
    pub must_exist: bool,
}

/// Mathematical content of a [`ProbeRequest`].
pub struct ProbeView {
    pub path: Seq<char>,
    pub origin: OriginKind,
    pub must_exist: bool,
}

impl View for ProbeRequest {
    type V = ProbeView;

    open spec fn view(&self) -> ProbeView {
        ProbeView { path: self.path@, origin: self.origin, must_exist: self.must_exist }
    }
}

/// What the resolver asks for or reports.
#[derive(Debug, Clone, PartialEq, Eq)]
pub enum ResolverAction {
    /// Probe this candidate and report the outcome.
    Probe(ProbeRequest),
    /// Resolution ended with this handle.
    Resolved(InterpreterHandle),
    /// Resolution ended: no candidate verified.
    NotFound,
}

/// Mathematical content of a [`ResolverAction`].
pub enum ActionView {
    Probe(ProbeView),
    Resolved(HandleView),
    NotFound,
}

impl View for ResolverAction {
    type V = ActionView;

    open spec fn view(&self) -> ActionView {
        match self {
            ResolverAction::Probe(p) => ActionView::Probe(p@),
            ResolverAction::Resolved(h) => ActionView::Resolved(h@),
            ResolverAction::NotFound => ActionView::NotFound,
        }
    }
}

/// The state of one resolution: the candidates in priority order and
/// the position of the candidate under examination.
#[derive(Debug, Clone, PartialEq, Eq)]
pub struct Resolver {
    pub candidates: Vec<InterpreterCandidate>,
    pub cursor: usize,
}

/// Mathematical content of a [`Resolver`].
pub struct ResolverView {
    pub candidates: Seq<CandidateView>,
    pub cursor: nat,
}

impl View for Resolver {
    type V = ResolverView;

    open spec fn view(&self) -> ResolverView {
        ResolverView { candidates: candidate_views(self.candidates@), cursor: self.cursor as nat }
    }
}

/// The probe that examines a candidate.
pub open spec fn probe_of(candidate: CandidateView) -> ProbeView {
    ProbeView {
        path: candidate.path,
        origin: candidate.origin,
        must_exist: is_bundled(candidate.origin),
    }
}

/// What a resolver in `state` asks for or reports.
pub open spec fn action_of(state: ResolverView) -> ActionView {
    if state.cursor >= state.candidates.len() {
        ActionView::NotFound
    } else if state.candidates[state.cursor as int].verified {
        ActionView::Resolved(handle_of(state.candidates[state.cursor as int]))
    } else {
        ActionView::Probe(probe_of(state.candidates[state.cursor as int]))
    }
}

/// The state after the candidate under examination probed as `outcome`:
/// a verifying outcome marks the candidate and ends the resolution
/// there, any other outcome moves on to the next candidate. A resolution
/// that has ended stays as it is.
pub open spec fn state_after(state: ResolverView, outcome: ProbeOutcome) -> ResolverView {
    if !(action_of(state) is Probe) {
        state
    } else if verifies(outcome) {
        let current = state.candidates[state.cursor as int];
        ResolverView {
            candidates: state.candidates.update(
                state.cursor as int,
                CandidateView { verified: true, ..current },
            ),
            cursor: state.cursor,
        }
    } else {
        ResolverView { candidates: state.candidates, cursor: state.cursor + 1 }
    }
}

/// Where a resolver ends when candidate `i` probes as `outcomes[i]`.
pub open spec fn run_to_end(state: ResolverView, outcomes: Seq<ProbeOutcome>) -> ActionView
    decreases state.candidates.len() - state.cursor,
{
    if action_of(state) is Probe && state.cursor < outcomes.len() && !verifies(
        outcomes[state.cursor as int],
    ) {
        run_to_end(state_after(state, outcomes[state.cursor as int]), outcomes)
    } else if action_of(state) is Probe && state.cursor < outcomes.len() {
        action_of(state_after(state, outcomes[state.cursor as int]))
    } else {
        action_of(state)
    }
}

/// True when no candidate is marked as verified.
pub open spec fn none_verified(candidates: Seq<CandidateView>) -> bool {
    forall|i: int| 0 <= i < candidates.len() ==> !candidates[i].verified
}

/// Resolution order is fixed: driven by outcomes for all its
/// candidates, a resolver that has passed over candidates that do not
/// verify ends with the first candidate that verifies, and with
/// `NotFound` when none does.
pub proof fn lemma_resolves_first_verified(state: ResolverView, outcomes: Seq<ProbeOutcome>)
    requires
        none_verified(state.candidates),
        outcomes.len() == state.candidates.len(),
        state.cursor <= state.candidates.len(),
        forall|j: int| 0 <= j < state.cursor ==> !verifies(outcomes[j]),
    ensures
        run_to_end(state, outcomes) == match resolution(state.candidates, outcomes) {
            Some(handle) => ActionView::Resolved(handle),
            None => ActionView::NotFound,
        },
    decreases state.candidates.len() - state.cursor,
{
    let n = state.candidates.len() as int;
    let c = state.cursor as int;
    lemma_first_verified(outcomes);
    if c < n {
        if verifies(outcomes[c]) {
            lemma_first_verified_is(outcomes, c);
        } else {
            lemma_resolves_first_verified(state_after(state, outcomes[c]), outcomes);
        }
    }
}

/// The number of probes that a resolver asks for when candidate `i`
/// probes as `outcomes[i]`.
pub open spec fn probes_made(state: ResolverView, outcomes: Seq<ProbeOutcome>) -> nat
    decreases state.candidates.len() - state.cursor,
{
    if action_of(state) is Probe && state.cursor < outcomes.len() {
        if verifies(outcomes[state.cursor as int]) {
            1
        } else {
            1 + probes_made(state_after(state, outcomes[state.cursor as int]), outcomes)
        }
    } else {
        0
    }
}

/// Resolution stops at the first candidate that verifies: a fresh
/// resolver probes each candidate up to and including that one, and
/// every candidate when none verifies.
pub proof fn lemma_probes_stop_at_first_verified(state: ResolverView, outcomes: Seq<ProbeOutcome>)
    requires
        none_verified(state.candidates),
        outcomes.len() == state.candidates.len(),
        state.cursor <= state.candidates.len(),
        forall|j: int| 0 <= j < state.cursor ==> !verifies(outcomes[j]),
    ensures
        probes_made(state, outcomes) == match first_verified(outcomes) {
            Some(i) => i + 1 - state.cursor,
            None => state.candidates.len() - state.cursor,
        },
    decreases state.candidates.len() - state.cursor,
{
    let n = state.candidates.len() as int;
    let c = state.cursor as int;
    lemma_first_verified(outcomes);
    if c < n {
        if verifies(outcomes[c]) {
            lemma_first_verified_is(outcomes, c);
        } else {
            lemma_probes_stop_at_first_verified(state_after(state, outcomes[c]), outcomes);
        }
    }
}

/// The backend root for a working directory.
pub fn backend_root(current_dir: &str) -> (root: String)
    ensures
        root@ == backend_root_of(current_dir@),
{
    join_text(current_dir, "/../../backend")
}

/// The path of the bundled interpreter of `origin` below `backend_dir`.
pub fn bundled_path(backend_dir: &str, origin: OriginKind) -> (path: String)
    ensures
        path@ == backend_dir@ + bundled_suffix(origin),
{
    match origin {
        OriginKind::BundledWindows => join_text(backend_dir, "/venv/Scripts/python.exe"),
        OriginKind::BundledUnix => join_text(backend_dir, "/venv/bin/python"),
        OriginKind::SystemNamed => {
            assert(backend_dir@ + Seq::<char>::empty() == backend_dir@);
            backend_dir.to_owned()
        },
    }
}

/// The candidates for a backend root, in priority order.
pub fn candidate_list(backend_dir: &str, family: OsFamily) -> (candidates: Vec<
    InterpreterCandidate,
>)
    ensures
        candidate_views(candidates@) == priority_list(backend_dir@, family),
{
    let (native, foreign) = match family {
        OsFamily::Windows => (OriginKind::BundledWindows, OriginKind::BundledUnix),
        OsFamily::Unix => (OriginKind::BundledUnix, OriginKind::BundledWindows),
    };
    let candidates = vec![
        InterpreterCandidate {
            path: bundled_path(backend_dir, native),
            origin: native,
            verified: false,
        },
        InterpreterCandidate {
            path: bundled_path(backend_dir, foreign),
            origin: foreign,
            verified: false,
        },
        InterpreterCandidate {
            path: "python".to_owned(),
            origin: OriginKind::SystemNamed,
            verified: false,
        },
        InterpreterCandidate {
            path: "python3".to_owned(),
            origin: OriginKind::SystemNamed,
            verified: false,
        },
        InterpreterCandidate {
            path: "py".to_owned(),
            origin: OriginKind::SystemNamed,
            verified: false,
        },
    ];
    assert(candidate_views(candidates@) == priority_list(backend_dir@, family));
    candidates
}

/// Tells whether a probe outcome verifies its candidate.
pub fn outcome_verifies(outcome: ProbeOutcome) -> (b: bool)
    ensures
        b == verifies(outcome),
{
    match outcome {
        ProbeOutcome::Exited { success } => success,
        _ => false,
    }
}

impl InterpreterCandidate {
    /// The handle for this candidate.
    pub fn handle(&self) -> (handle: InterpreterHandle)
        ensures
            handle@ == handle_of(self@),
    {
        InterpreterHandle { path: self.path.clone(), origin: self.origin }
    }
}

impl Resolver {
    /// A fresh resolution over the candidates for `backend_dir`.
    pub fn new(backend_dir: &str, family: OsFamily) -> (resolver: Resolver)
        ensures
            resolver@.candidates == priority_list(backend_dir@, family),
            resolver@.cursor == 0,
            none_verified(resolver@.candidates),
    {
        Resolver { candidates: candidate_list(backend_dir, family), cursor: 0 }
    }

    /// What the resolver asks for or reports in its present state.
    pub fn action(&self) -> (action: ResolverAction)
        ensures
            action@ == action_of(self@),
    {
        if self.cursor >= self.candidates.len() {
            return ResolverAction::NotFound;
        }
        let candidate = &self.candidates[self.cursor];
        assert(candidate@ == self@.candidates[self.cursor as int]);
        if candidate.verified {
            ResolverAction::Resolved(candidate.handle())
        } else {
            let must_exist = match candidate.origin {
                OriginKind::SystemNamed => false,
                _ => true,
            };
            ResolverAction::Probe(
                ProbeRequest { path: candidate.path.clone(), origin: candidate.origin, must_exist },
            )
        }
    }

    /// Takes the outcome of probing the candidate under examination.
    pub fn record(&mut self, outcome: ProbeOutcome)
        ensures
            final(self)@ == state_after(old(self)@, outcome),
    {
        if self.cursor >= self.candidates.len() {
            return ;
        }
        let ghost before = self@;
        assert(self.candidates[self.cursor as int]@ == before.candidates[self.cursor as int]);
        if self.candidates[self.cursor].verified {
            return ;
        }
        if outcome_verifies(outcome) {
            let current = &self.candidates[self.cursor];
            let marked = InterpreterCandidate {
                path: current.path.clone(),
                origin: current.origin,
                verified: true,
            };
            self.candidates.set(self.cursor, marked);
            assert(candidate_views(self.candidates@) == before.candidates.update(
                self.cursor as int,
                CandidateView { verified: true, ..before.candidates[self.cursor as int] },
            ));
        } else {
            self.cursor = self.cursor + 1;
        }
    }

    /// The result of a resolution, from the outcome that each candidate's
    /// probe would have: the first candidate that verifies is chosen.
    pub fn resolve(
        candidates: &Vec<InterpreterCandidate>,
        outcomes: &Vec<ProbeOutcome>,
    ) -> (r: Result<InterpreterHandle, BridgeError>)
        ensures
            match resolution(candidate_views(candidates@), outcomes@) {
                Some(handle) => r matches Ok(h) && h@ == handle,
                None => r matches Err(e) && e == BridgeError::InterpreterNotFound,
            },
    {
        let ghost views = candidate_views(candidates@);
        let n: usize = if candidates.len() < outcomes.len() {
            candidates.len()
        } else {
            outcomes.len()
        };
        let ghost seen = considered(views, outcomes@);
        let mut i: usize = 0;
        while i < n
            invariant
                i <= n,
                n <= candidates.len(),
                n <= outcomes.len(),
                n == candidates.len() || n == outcomes.len(),
                views == candidate_views(candidates@),
                seen == considered(views, outcomes@),
                seen.len() == n,
                forall|j: int| 0 <= j < i ==> !verifies(outcomes@[j]),
            decreases n - i,
        {
            if outcome_verifies(outcomes[i]) {
                proof {
                    assert forall|j: int| 0 <= j < i implies !verifies(seen[j]) by {
                        assert(seen[j] == outcomes@[j]);
                    }
                    lemma_first_verified_is(seen, i as int);
                    assert(candidates@[i as int]@ == views[i as int]);
                }
                return Ok(candidates[i].handle());
            }
            i += 1;
        }
        proof {
            lemma_first_verified(seen);
            if first_verified(seen) is Some {
                let k = first_verified(seen)->0;
                assert(seen[k] == outcomes@[k]);
            }
        }
        Err(BridgeError::InterpreterNotFound)
    }
}

} // verus!
