//! The hook's life cycle as a state machine. Each callback of the host and
//! each report of work done outside is one transition: it takes the state and
//! what happened, and gives the next state and what is to be done.
//!
//! A controller either relays a descriptor, acquired in the phase before
//! specialization and used in the phase after it, or it has no earlier phase
//! and loads the payload by a fixed path.

use crate::identity::{opt_text, resolve, resolved_identity, AppSpecializeArgs, ArgsView};
use crate::payload::{opt_reference, AcquireError, PayloadReference, ReferenceView};
use crate::target::{
    config_of_file, configured_target, matches_target, opt_bytes, read_target_config,
    target_matches, target_view, ConfigReadError,
};
use crate::text::contains_seq;
use vstd::prelude::*;

verus! {

/// Where the hook stands in its life cycle.
#[derive(Clone, Copy, Debug, PartialEq, Eq, Structural)]
pub enum HookState {
    /// No cycle is under way.
    Idle,
    /// The host has loaded the module and no cycle has begun since.
    Loaded,
    /// The phase before specialization is under way.
    AwaitingPreMatch,
    /// The earlier phase is over and a payload reference is held.
    HandleAcquired,
    /// The earlier phase is over and no payload reference is held.
    NoMatch,
    /// The phase after specialization is under way.
    AwaitingPostMatch,
    /// The cycle is over and the payload was handed to the loader.
    Injected,
    /// The cycle is over and nothing was handed to the loader.
    Skipped,
}

/// What is to be done after the match of the earlier phase.
#[derive(Clone, Copy, Debug, PartialEq, Eq, Structural)]
pub enum PreAction {
    /// Open the payload now, exempt the descriptor, and report the outcome.
    AcquireHandle,
    /// Do nothing.
    Proceed,
}

/// What is to be done after the match of the later phase.
#[derive(Debug, PartialEq, Eq)]
pub enum PostAction {
    /// Load the payload through this reference.
    Inject(PayloadReference),
    /// Do nothing.
    Skip,
}

/// The reference that an action asks to load, if it asks for a load.
pub open spec fn requested_load(action: PostAction) -> Option<ReferenceView> {
    match action {
        PostAction::Inject(r) => Some(r@),
        PostAction::Skip => None,
    }
}

/// The content of what an acquisition came to.
pub open spec fn outcome_view(outcome: Result<PayloadReference, AcquireError>) -> Result<
    ReferenceView,
    AcquireError,
> {
    match outcome {
        Ok(r) => Ok(r@),
        Err(e) => Err(e),
    }
}

/// The state of one hook. The host state is set once and kept; the target
/// and the payload reference belong to the cycle under way.
pub struct HookController {
    state: HookState,
    host_ready: bool,
    direct_path: Option<String>,
    target: Option<String>,
    payload: Option<PayloadReference>,
    acquiring: bool,
}

/// Mathematical content of [`HookController`].
pub struct ControllerView {
    pub state: HookState,
    /// The host has loaded the module.
    pub host_ready: bool,
    /// The fixed path of the payload, for a controller without an earlier phase.
    pub direct_path: Option<Seq<char>>,
    /// The target of the cycle under way, once it is read.
    pub target: Option<Seq<char>>,
    /// The reference acquired in the cycle under way and not yet used.
    pub payload: Option<ReferenceView>,
    /// An acquisition was asked for and its outcome is not reported yet.
    pub acquiring: bool,
}

impl ControllerView {
    /// The controller's content before the host has loaded the module.
    pub open spec fn initial(direct_path: Option<Seq<char>>) -> ControllerView {
        ControllerView {
            state: HookState::Idle,
            host_ready: false,
            direct_path,
            target: None,
            payload: None,
            acquiring: false,
        }
    }

    /// The controller relays a descriptor from the earlier phase.
    pub open spec fn relays(self) -> bool {
        self.direct_path is None
    }

    /// What every reachable controller satisfies.
    pub open spec fn wf(self) -> bool {
        &&& self.state != HookState::Idle ==> self.host_ready
        &&& (self.state == HookState::Idle || self.state == HookState::Loaded) ==> self.target
            is None
        &&& (self.state == HookState::AwaitingPreMatch || self.state == HookState::HandleAcquired
            || self.state == HookState::NoMatch) ==> self.relays()
        &&& self.acquiring ==> self.state == HookState::AwaitingPreMatch && self.target is Some
        &&& self.state == HookState::HandleAcquired ==> self.payload is Some
        &&& self.payload is Some ==> {
            &&& self.relays()
            &&& self.target is Some
            &&& self.state == HookState::HandleAcquired || self.state
                == HookState::AwaitingPostMatch
        }
    }

    /// A cycle can begin.
    pub open spec fn can_begin(self) -> bool {
        self.host_ready && (self.state == HookState::Loaded || self.state == HookState::Idle)
    }

    /// A load by the host is taken: none was before.
    pub open spec fn load_taken(self) -> bool {
        !self.host_ready && self.state == HookState::Idle
    }

    pub open spec fn after_on_load(self) -> ControllerView {
        if self.load_taken() {
            ControllerView { state: HookState::Loaded, host_ready: true, ..self }
        } else {
            self
        }
    }

    /// The earlier phase opens: a cycle can begin and the controller relays.
    pub open spec fn pre_phase_opens(self) -> bool {
        self.can_begin() && self.relays()
    }

    pub open spec fn after_enter_pre(self) -> ControllerView {
        if self.pre_phase_opens() {
            ControllerView { state: HookState::AwaitingPreMatch, ..self }
        } else {
            self
        }
    }

    /// The configuration is taken: a phase is under way and the cycle has no
    /// target yet.
    pub open spec fn awaits_config(self) -> bool {
        &&& self.target is None
        &&& self.state == HookState::AwaitingPreMatch || self.state
            == HookState::AwaitingPostMatch
    }

    pub open spec fn after_config(
        self,
        config: Result<Seq<char>, ConfigReadError>,
    ) -> ControllerView {
        if !self.awaits_config() {
            self
        } else {
            match config {
                Ok(t) => ControllerView { target: Some(t), ..self },
                Err(_) => ControllerView { state: HookState::Skipped, payload: None, ..self },
            }
        }
    }

    /// The match of the earlier phase is due.
    pub open spec fn pre_match_due(self) -> bool {
        self.state == HookState::AwaitingPreMatch && !self.acquiring
    }

    /// The earlier phase asks for the payload to be acquired.
    pub open spec fn wants_handle(self, identity: Seq<char>) -> bool {
        &&& self.pre_match_due()
        &&& self.target is Some
        &&& target_matches(identity, self.target->0)
    }

    pub open spec fn after_pre_match(self, identity: Seq<char>) -> ControllerView {
        if !self.pre_match_due() {
            self
        } else if self.wants_handle(identity) {
            ControllerView { acquiring: true, ..self }
        } else {
            ControllerView { state: HookState::NoMatch, ..self }
        }
    }

    pub open spec fn after_handle_result(
        self,
        outcome: Result<ReferenceView, AcquireError>,
    ) -> ControllerView {
        if !self.acquiring {
            self
        } else {
            match outcome {
                Ok(r) => ControllerView {
                    state: HookState::HandleAcquired,
                    payload: Some(r),
                    acquiring: false,
                    ..self
                },
                Err(_) => ControllerView { state: HookState::NoMatch, acquiring: false, ..self },
            }
        }
    }

    /// The descriptor that the host must be told to keep open, once an
    /// acquisition is reported.
    pub open spec fn exemption(self, outcome: Result<ReferenceView, AcquireError>) -> Option<
        int,
    > {
        if self.acquiring && outcome is Ok && outcome->Ok_0 is Descriptor {
            Some(outcome->Ok_0->Descriptor_0)
        } else {
            None
        }
    }

    /// The later phase opens: after a concluded earlier phase where the
    /// controller relays, and at the start of a cycle where it does not.
    pub open spec fn post_phase_opens(self) -> bool {
        if self.relays() {
            self.state == HookState::HandleAcquired || self.state == HookState::NoMatch
        } else {
            self.can_begin()
        }
    }

    pub open spec fn after_enter_post(self) -> ControllerView {
        if self.post_phase_opens() {
            ControllerView { state: HookState::AwaitingPostMatch, ..self }
        } else {
            self
        }
    }

    /// The reference through which a load would go.
    pub open spec fn reference(self) -> Option<ReferenceView> {
        match self.direct_path {
            Some(p) => Some(ReferenceView::Path(p)),
            None => self.payload,
        }
    }

    /// The later phase hands the payload to the loader.
    pub open spec fn injects(self, identity: Seq<char>) -> bool {
        &&& self.state == HookState::AwaitingPostMatch
        &&& self.target is Some
        &&& target_matches(identity, self.target->0)
        &&& self.reference() is Some
    }

    /// The reference that the later phase hands to the loader, if any.
    pub open spec fn injection(self, identity: Seq<char>) -> Option<ReferenceView> {
        if self.injects(identity) {
            self.reference()
        } else {
            None
        }
    }

    pub open spec fn after_post_match(self, identity: Seq<char>) -> ControllerView {
        if self.state != HookState::AwaitingPostMatch {
            self
        } else if self.injects(identity) {
            ControllerView { state: HookState::Injected, payload: None, ..self }
        } else {
            ControllerView { state: HookState::Skipped, payload: None, ..self }
        }
    }

    /// The whole earlier phase: it opens, the configuration is taken, and
    /// the match is made on the identity that the sources resolve to.
    pub open spec fn after_pre_phase(
        self,
        file: Option<Seq<u8>>,
        args: ArgsView,
        cmdline: Seq<u8>,
    ) -> ControllerView {
        if self.pre_phase_opens() {
            self.after_enter_pre().after_config(config_of_file(file)).after_pre_match(
                resolved_identity(args, cmdline),
            )
        } else {
            self
        }
    }

    /// The whole earlier phase asks for the payload to be acquired.
    pub open spec fn pre_phase_wants_handle(
        self,
        file: Option<Seq<u8>>,
        args: ArgsView,
        cmdline: Seq<u8>,
    ) -> bool {
        self.pre_phase_opens() && self.after_enter_pre().after_config(
            config_of_file(file),
        ).wants_handle(resolved_identity(args, cmdline))
    }

    /// The whole later phase: it opens, the configuration is taken where
    /// the cycle has no target yet, and the match is made anew.
    pub open spec fn after_post_phase(
        self,
        file: Option<Seq<u8>>,
        args: ArgsView,
        cmdline: Seq<u8>,
    ) -> ControllerView {
        if self.post_phase_opens() {
            self.after_enter_post().after_config(config_of_file(file)).after_post_match(
                resolved_identity(args, cmdline),
            )
        } else {
            self
        }
    }

    /// The reference that the whole later phase hands to the loader, if any.
    pub open spec fn post_phase_injection(
        self,
        file: Option<Seq<u8>>,
        args: ArgsView,
        cmdline: Seq<u8>,
    ) -> Option<ReferenceView> {
        if self.post_phase_opens() {
            self.after_enter_post().after_config(config_of_file(file)).injection(
                resolved_identity(args, cmdline),
            )
        } else {
            None
        }
    }

    /// The cycle is over.
    pub open spec fn cycle_over(self) -> bool {
        self.state == HookState::Injected || self.state == HookState::Skipped
    }

    pub open spec fn after_end_cycle(self) -> ControllerView {
        if self.cycle_over() {
            ControllerView {
                state: HookState::Idle,
                target: None,
                payload: None,
                acquiring: false,
                ..self
            }
        } else {
            self
        }
    }
}

impl View for HookController {
    type V = ControllerView;

    closed spec fn view(&self) -> ControllerView {
        ControllerView {
            state: self.state,
            host_ready: self.host_ready,
            direct_path: opt_text(self.direct_path),
            target: opt_text(self.target),
            payload: opt_reference(self.payload),
            acquiring: self.acquiring,
        }
    }
}

impl HookController {
    /// A controller that relays a descriptor from the earlier phase to the
    /// later one.
    pub fn with_descriptor_relay() -> (controller: HookController)
        ensures
            controller@ == ControllerView::initial(None),
            controller@.wf(),
    {
        HookController {
            state: HookState::Idle,
            host_ready: false,
            direct_path: None,
            target: None,
            payload: None,
            acquiring: false,
        }
    }

    /// A controller without an earlier phase, which loads the payload by
    /// the absolute path `path`.
    pub fn with_direct_path(path: String) -> (controller: HookController)
        ensures
            controller@ == ControllerView::initial(Some(path@)),
            controller@.wf(),
    {
        HookController {
            state: HookState::Idle,
            host_ready: false,
            direct_path: Some(path),
            target: None,
            payload: None,
            acquiring: false,
        }
    }

    /// The host has loaded the module. Taken once: a second load changes
    /// nothing and is answered with `false`.
    pub fn on_load(&mut self) -> (taken: bool)
        ensures
            taken == old(self)@.load_taken(),
            final(self)@ == old(self)@.after_on_load(),
            old(self)@.wf() ==> final(self)@.wf(),
    {
        let taken = !self.host_ready && matches!(self.state, HookState::Idle);
        if taken {
            self.state = HookState::Loaded;
            self.host_ready = true;
        }
        taken
    }

    /// The host has entered the phase before specialization. Answers whether
    /// the phase opens; where it does, the configuration is to be read and
    /// the identity resolved next.
    pub fn enter_pre_specialize(&mut self) -> (opened: bool)
        ensures
            opened == old(self)@.pre_phase_opens(),
            final(self)@ == old(self)@.after_enter_pre(),
            old(self)@.wf() ==> final(self)@.wf(),
    {
        let opened = self.host_ready && self.direct_path.is_none() && matches!(
            self.state,
            HookState::Loaded | HookState::Idle
        );
        if opened {
            self.state = HookState::AwaitingPreMatch;
        }
        opened
    }

    /// The configuration was read, or could not be. A target is kept for the
    /// cycle; a failure ends the cycle at once. Answers whether the cycle
    /// goes on with a target.
    pub fn config_loaded(&mut self, config: Result<String, ConfigReadError>) -> (kept: bool)
        ensures
            kept == (old(self)@.awaits_config() && config is Ok),
            final(self)@ == old(self)@.after_config(target_view(config)),
            old(self)@.wf() ==> final(self)@.wf(),
    {
        let awaited = self.target.is_none() && matches!(
            self.state,
            HookState::AwaitingPreMatch | HookState::AwaitingPostMatch
        );
        if !awaited {
            return false;
        }
        match config {
            Ok(target) => {
                self.target = Some(target);
                true
            },
            Err(_) => {
                self.state = HookState::Skipped;
                self.payload = None;
                false
            },
        }
    }

    /// The identity of the process was resolved in the earlier phase. Asks
    /// for the payload to be acquired where the identity matches the target,
    /// and ends the phase where it does not.
    pub fn pre_match(&mut self, identity: &str) -> (action: PreAction)
        ensures
            action == (if old(self)@.wants_handle(identity@) {
                PreAction::AcquireHandle
            } else {
                PreAction::Proceed
            }),
            final(self)@ == old(self)@.after_pre_match(identity@),
            old(self)@.wf() ==> final(self)@.wf(),
    {
        let due = !self.acquiring && matches!(self.state, HookState::AwaitingPreMatch);
        if !due {
            return PreAction::Proceed;
        }
        let wanted = match &self.target {
            Some(target) => matches_target(identity, target.as_str()),
            None => false,
        };
        if wanted {
            self.acquiring = true;
            PreAction::AcquireHandle
        } else {
            self.state = HookState::NoMatch;
            PreAction::Proceed
        }
    }

    /// The acquisition that was asked for has come to `outcome`. A reference
    /// is kept for the later phase; a failure leaves the cycle without one.
    /// Answers with the descriptor that the host must be told to keep open
    /// across specialization, if one was kept.
    pub fn handle_result(&mut self, outcome: Result<PayloadReference, AcquireError>) -> (exempt:
        Option<i32>)
        ensures
            exempt is Some <==> old(self)@.exemption(outcome_view(outcome)) is Some,
            exempt is Some ==> exempt->0 as int == old(self)@.exemption(outcome_view(outcome))->0,
            final(self)@ == old(self)@.after_handle_result(outcome_view(outcome)),
            old(self)@.wf() ==> final(self)@.wf(),
    {
        if !self.acquiring {
            return None;
        }
        self.acquiring = false;
        match outcome {
            Ok(reference) => {
                let exempt = match &reference {
                    PayloadReference::Descriptor(fd) => Some(*fd),
                    PayloadReference::Path(_) => None,
                };
                self.state = HookState::HandleAcquired;
                self.payload = Some(reference);
                exempt
            },
            Err(_) => {
                self.state = HookState::NoMatch;
                None
            },
        }
    }

    /// The host has entered the phase after specialization. Answers whether
    /// the phase opens; where it does, the identity is to be resolved again.
    pub fn enter_post_specialize(&mut self) -> (opened: bool)
        ensures
            opened == old(self)@.post_phase_opens(),
            final(self)@ == old(self)@.after_enter_post(),
            old(self)@.wf() ==> final(self)@.wf(),
    {
        let opened = if self.direct_path.is_none() {
            matches!(self.state, HookState::HandleAcquired | HookState::NoMatch)
        } else {
            self.host_ready && matches!(self.state, HookState::Loaded | HookState::Idle)
        };
        if opened {
            self.state = HookState::AwaitingPostMatch;
        }
        opened
    }

    /// The identity of the process was resolved in the later phase. The
    /// match is made anew. Where the identity matches the target and a
    /// reference is at hand, the reference is handed out to be loaded;
    /// otherwise nothing is. Either way the cycle is over and the
    /// controller holds no reference any more.
    pub fn post_match(&mut self, identity: &str) -> (action: PostAction)
        ensures
            requested_load(action) == old(self)@.injection(identity@),
            final(self)@ == old(self)@.after_post_match(identity@),
            old(self)@.wf() ==> final(self)@.wf(),
    {
        if !matches!(self.state, HookState::AwaitingPostMatch) {
            return PostAction::Skip;
        }
        let matched = match &self.target {
            Some(target) => matches_target(identity, target.as_str()),
            None => false,
        };
        let held = self.payload.take();
        let reference = match &self.direct_path {
            Some(path) => Some(PayloadReference::Path(path.clone())),
            None => held,
        };
        match reference {
            Some(r) => {
                if matched {
                    self.state = HookState::Injected;
                    PostAction::Inject(r)
                } else {
                    self.state = HookState::Skipped;
                    PostAction::Skip
                }
            },
            None => {
                self.state = HookState::Skipped;
                PostAction::Skip
            },
        }
    }

    /// The phase before specialization, from what was read for it: the
    /// configuration file (`None` where it is absent or unreadable), the
    /// runtime's fields, and the process's command line. Opens the phase,
    /// takes the target, resolves the identity and makes the match. Where the
    /// answer is `AcquireHandle`, the payload is to be opened and the
    /// outcome reported with [`HookController::handle_result`].
    pub fn pre_app_specialize(
        &mut self,
        config_file: Option<&[u8]>,
        args: &AppSpecializeArgs,
        cmdline: &[u8],
    ) -> (action: PreAction)
        ensures
            action == (if old(self)@.pre_phase_wants_handle(
                opt_bytes(config_file),
                args@,
                cmdline@,
            ) {
                PreAction::AcquireHandle
            } else {
                PreAction::Proceed
            }),
            final(self)@ == old(self)@.after_pre_phase(opt_bytes(config_file), args@, cmdline@),
            old(self)@.wf() ==> final(self)@.wf(),
    {
        if !self.enter_pre_specialize() {
            return PreAction::Proceed;
        }
        self.config_loaded(read_target_config(config_file));
        let identity = resolve(args, cmdline);
        self.pre_match(identity.as_str())
    }

    /// The phase after specialization, from what was read for it, as for
    /// the earlier phase. Opens the phase, takes the target where the cycle
    /// has none yet, resolves the identity again and makes the match anew.
    /// Where the answer is `Inject`, the reference is to be loaded.
    pub fn post_app_specialize(
        &mut self,
        config_file: Option<&[u8]>,
        args: &AppSpecializeArgs,
        cmdline: &[u8],
    ) -> (action: PostAction)
        ensures
            requested_load(action) == old(self)@.post_phase_injection(
                opt_bytes(config_file),
                args@,
                cmdline@,
            ),
            final(self)@ == old(self)@.after_post_phase(opt_bytes(config_file), args@, cmdline@),
            old(self)@.wf() ==> final(self)@.wf(),
    {
        if !self.enter_post_specialize() {
            return PostAction::Skip;
        }
        self.config_loaded(read_target_config(config_file));
        let identity = resolve(args, cmdline);
        self.post_match(identity.as_str())
    }

    /// Ends a cycle that is over: the target and whatever else belonged to
    /// the cycle are forgotten, and the next cycle can begin. Answers
    /// whether there was a finished cycle to end.
    pub fn end_cycle(&mut self) -> (ended: bool)
        ensures
            ended == old(self)@.cycle_over(),
            final(self)@ == old(self)@.after_end_cycle(),
            old(self)@.wf() ==> final(self)@.wf(),
    {
        let ended = matches!(self.state, HookState::Injected | HookState::Skipped);
        if ended {
            self.state = HookState::Idle;
            self.target = None;
            self.payload = None;
            self.acquiring = false;
        }
        ended
    }

    /// Where the controller stands.
    pub fn state(&self) -> (state: HookState)
        ensures
            state == self@.state,
    {
        self.state
    }

    /// Has the host loaded the module?
    pub fn is_host_ready(&self) -> (ready: bool)
        ensures
            ready == self@.host_ready,
    {
        self.host_ready
    }

    /// Does the controller relay a descriptor from the earlier phase?
    pub fn relays(&self) -> (relays: bool)
        ensures
            relays == self@.relays(),
    {
        self.direct_path.is_none()
    }

    /// The target of the cycle under way, once it is read.
    pub fn target(&self) -> (target: Option<String>)
        ensures
            opt_text(target) == self@.target,
    {
        match &self.target {
            Some(t) => Some(t.clone()),
            None => None,
        }
    }

    /// Is a payload reference held for the later phase?
    pub fn holds_reference(&self) -> (held: bool)
        ensures
            held == self@.payload is Some,
    {
        self.payload.is_some()
    }

    /// Was an acquisition asked for whose outcome is still due?
    pub fn is_acquiring(&self) -> (acquiring: bool)
        ensures
            acquiring == self@.acquiring,
    {
        self.acquiring
    }
}

/// The controller starts well-formed and every transition keeps it so,
/// whatever is reported to it and in whatever order.
pub proof fn law_transitions_keep_well_formed(
    v: ControllerView,
    direct_path: Option<Seq<char>>,
    identity: Seq<char>,
    config: Result<Seq<char>, ConfigReadError>,
    outcome: Result<ReferenceView, AcquireError>,
)
    requires
        v.wf(),
    ensures
        ControllerView::initial(direct_path).wf(),
        v.after_on_load().wf(),
        v.after_enter_pre().wf(),
        v.after_config(config).wf(),
        v.after_pre_match(identity).wf(),
        v.after_handle_result(outcome).wf(),
        v.after_enter_post().wf(),
        v.after_post_match(identity).wf(),
        v.after_end_cycle().wf(),
{
}

/// In the later phase of a cycle with a target and a reference at hand, the
/// payload is handed to the loader if and only if the target is not empty
/// and the identity contains it.
pub proof fn law_injection_iff_match(v: ControllerView, identity: Seq<char>)
    requires
        v.state == HookState::AwaitingPostMatch,
        v.target is Some,
        v.reference() is Some,
    ensures
        v.injects(identity) <==> v.target->0.len() > 0 && contains_seq(identity, v.target->0),
        v.injects(identity) ==> v.injection(identity) == v.reference(),
{
}

/// A whole cycle without an earlier phase: whatever the target and the
/// identity, the payload is handed to the loader, by the fixed path, if and
/// only if the target is not empty and the identity contains it.
pub proof fn law_direct_cycle_injects_iff_match(
    v: ControllerView,
    target: Seq<char>,
    identity: Seq<char>,
)
    requires
        v.wf(),
        v.can_begin(),
        !v.relays(),
    ensures
        ({
            let w = v.after_enter_post().after_config(Ok(target));
            &&& w.injects(identity) <==> target.len() > 0 && contains_seq(identity, target)
            &&& w.injects(identity) ==> w.injection(identity) == Some(
                ReferenceView::Path(v.direct_path->0),
            )
            &&& w.after_post_match(identity).state == (if w.injects(identity) {
                HookState::Injected
            } else {
                HookState::Skipped
            })
        }),
{
}

/// A whole cycle that relays a descriptor: the acquisition is asked for if
/// and only if the identity of the earlier phase matches, and the payload
/// is handed to the loader if and only if that identity matched, the
/// acquisition succeeded, and the identity of the later phase matches too.
/// What is handed over is what was acquired.
pub proof fn law_relay_cycle_injects_iff_match(
    v: ControllerView,
    target: Seq<char>,
    earlier: Seq<char>,
    later: Seq<char>,
    outcome: Result<ReferenceView, AcquireError>,
)
    requires
        v.wf(),
        v.can_begin(),
        v.relays(),
    ensures
        ({
            let pre = v.after_enter_pre().after_config(Ok(target));
            let post = pre.after_pre_match(earlier).after_handle_result(outcome).after_enter_post();
            &&& pre.wants_handle(earlier) <==> target_matches(earlier, target)
            &&& post.injects(later) <==> target_matches(earlier, target) && outcome is Ok
                && target_matches(later, target)
            &&& post.injects(later) ==> post.injection(later) == Some(outcome->Ok_0)
        }),
{
}

/// The later phase of a cycle without an earlier one, whatever the file
/// that names a target and whatever the sources of the identity: the payload
/// is handed to the loader if and only if the target is not empty and the
/// identity that the sources resolve to contains it.
pub proof fn law_direct_phase_injects_iff_match(
    v: ControllerView,
    file: Seq<u8>,
    args: ArgsView,
    cmdline: Seq<u8>,
)
    requires
        v.wf(),
        v.can_begin(),
        !v.relays(),
        configured_target(file) is Some,
    ensures
        v.post_phase_injection(Some(file), args, cmdline) is Some <==> configured_target(
            file,
        )->0.len() > 0 && contains_seq(
            resolved_identity(args, cmdline),
            configured_target(file)->0,
        ),
{
}

/// With the configuration file absent, nothing is acquired and nothing is
/// loaded, whatever the identity: the earlier phase asks for no
/// acquisition and leaves no reference, and the later phase hands nothing
/// to the loader, neither at once nor after such an earlier phase,
/// whatever is read by then.
pub proof fn law_absent_config_no_action(
    v: ControllerView,
    args: ArgsView,
    cmdline: Seq<u8>,
    later_file: Option<Seq<u8>>,
    later_args: ArgsView,
    later_cmdline: Seq<u8>,
)
    requires
        v.wf(),
        v.can_begin(),
    ensures
        !v.pre_phase_wants_handle(None, args, cmdline),
        v.after_pre_phase(None, args, cmdline).payload is None,
        v.post_phase_injection(None, args, cmdline) is None,
        v.relays() ==> v.after_pre_phase(None, args, cmdline).post_phase_injection(
            later_file,
            later_args,
            later_cmdline,
        ) is None,
{
}

/// Without a target nothing is acquired and nothing is loaded, whatever the
/// identity.
pub proof fn law_no_target_no_action(v: ControllerView, identity: Seq<char>)
    requires
        v.target is None,
    ensures
        !v.wants_handle(identity),
        v.injection(identity) is None,
{
}

/// A configuration that cannot be read ends the cycle: the controller is
/// left without target and reference, and until the cycle is ended no
/// identity, configuration or report takes it anywhere else, asks for an
/// acquisition, exempts a descriptor or hands anything to the loader.
pub proof fn law_unreadable_config_ends_cycle(
    v: ControllerView,
    error: ConfigReadError,
    identity: Seq<char>,
    config: Result<Seq<char>, ConfigReadError>,
    outcome: Result<ReferenceView, AcquireError>,
)
    requires
        v.wf(),
        v.awaits_config(),
    ensures
        ({
            let w = v.after_config(Err(error));
            &&& w.state == HookState::Skipped
            &&& w.target is None
            &&& w.payload is None
            &&& !w.wants_handle(identity)
            &&& w.exemption(outcome) is None
            &&& w.injection(identity) is None
            &&& w.after_on_load() == w
            &&& w.after_enter_pre() == w
            &&& w.after_config(config) == w
            &&& w.after_pre_match(identity) == w
            &&& w.after_handle_result(outcome) == w
            &&& w.after_enter_post() == w
            &&& w.after_post_match(identity) == w
        }),
{
}

/// A reference that was acquired is dropped unused where the identity of
/// the later phase does not match: nothing is handed to the loader, the
/// cycle is over, and no later identity brings the reference back.
pub proof fn law_failed_rematch_discards_handle(
    v: ControllerView,
    identity: Seq<char>,
    later: Seq<char>,
)
    requires
        v.wf(),
        v.state == HookState::AwaitingPostMatch,
        v.payload is Some,
        !target_matches(identity, v.target->0),
    ensures
        ({
            let w = v.after_post_match(identity);
            &&& v.injection(identity) is None
            &&& w.state == HookState::Skipped
            &&& w.payload is None
            &&& w.injection(later) is None
            &&& w.after_post_match(later) == w
        }),
{
}

/// A reference is handed out at most once: after the match of the later
/// phase the controller holds none, and a second match hands out nothing.
pub proof fn law_reference_used_at_most_once(
    v: ControllerView,
    first: Seq<char>,
    second: Seq<char>,
)
    requires
        v.state == HookState::AwaitingPostMatch,
    ensures
        ({
            let w = v.after_post_match(first);
            &&& w.payload is None
            &&& w.cycle_over()
            &&& w.injection(second) is None
            &&& w.after_post_match(second) == w
        }),
{
}

/// A reference is held only where an acquisition was asked for, and an
/// acquisition is asked for only on a match.
pub proof fn law_reference_only_after_match(
    v: ControllerView,
    identity: Seq<char>,
    outcome: Result<ReferenceView, AcquireError>,
)
    requires
        v.wf(),
        v.pre_match_due(),
    ensures
        ({
            let w = v.after_pre_match(identity).after_handle_result(outcome);
            &&& w.payload is Some <==> v.target is Some && target_matches(identity, v.target->0)
                && outcome is Ok
            &&& w.state == (if w.payload is Some {
                HookState::HandleAcquired
            } else {
                HookState::NoMatch
            })
        }),
{
}

/// Nothing of a cycle outlives it: once a finished cycle is ended, the
/// controller has no target and no reference, stays loaded, and can begin
/// the next cycle.
pub proof fn law_cycle_state_does_not_leak(v: ControllerView)
    requires
        v.wf(),
        v.cycle_over(),
    ensures
        ({
            let w = v.after_end_cycle();
            &&& w.state == HookState::Idle
            &&& w.target is None
            &&& w.payload is None
            &&& !w.acquiring
            &&& w.host_ready
            &&& w.direct_path == v.direct_path
            &&& w.can_begin()
            &&& w.wf()
        }),
{
}

/// The host state is set once and never reset: no transition unsets it,
/// and a second load changes nothing.
pub proof fn law_host_state_is_kept(
    v: ControllerView,
    identity: Seq<char>,
    config: Result<Seq<char>, ConfigReadError>,
    outcome: Result<ReferenceView, AcquireError>,
)
    requires
        v.host_ready,
    ensures
        v.after_on_load() == v,
        v.after_enter_pre().host_ready,
        v.after_config(config).host_ready,
        v.after_pre_match(identity).host_ready,
        v.after_handle_result(outcome).host_ready,
        v.after_enter_post().host_ready,
        v.after_post_match(identity).host_ready,
        v.after_end_cycle().host_ready,
{
}

} // verus!
