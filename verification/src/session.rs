//! The session builder: the steps that take a peer connection from nothing
//! to a finalized answer, in the order they must be taken, and what a change
//! of connection state asks for.

use crate::codec::{SessionDescription, SessionDescriptionView};
use crate::tracks::TrackKind;
use vstd::prelude::*;

verus! {

/// Bytes of the buffer that RTCP is read into when a sender is drained.
pub const RTCP_BUFFER_BYTES: usize = 1500;

/// The URL of the one ICE server that peer connections are made with.
pub open spec fn ice_server_url() -> Seq<char> {
    "stun:stun.l.google.com:19302"@
}

/// The ICE servers that a peer connection is made with: one public STUN server.
pub fn ice_server_urls() -> (urls: Vec<String>)
    ensures
        urls@.len() == 1,
        urls@[0]@ == ice_server_url(),
{
    let mut urls: Vec<String> = Vec::new();
    urls.push("stun:stun.l.google.com:19302".to_owned());
    urls
}

/// Which side of a broadcast a peer connection serves.
#[derive(Clone, Copy, Debug, PartialEq, Eq, Structural)]
pub enum Role {
    Broadcaster,
    Viewer,
}

/// The state of a peer connection.
#[derive(Clone, Copy, Debug, PartialEq, Eq, Structural)]
pub enum PeerState {
    Unspecified,
    New,
    Connecting,
    Connected,
    Disconnected,
    Failed,
    Closed,
}

/// What a change of connection state asks for.
#[derive(Clone, Copy, Debug, PartialEq, Eq, Structural)]
pub enum StateAction {
    /// Take the broadcast out of the registry.
    Unregister,
    /// Nothing beyond a line in the log.
    LogOnly,
}

/// A broadcaster's connection that closes takes its broadcast with it; every
/// other change is only logged.
pub open spec fn state_action(role: Role, state: PeerState) -> StateAction {
    if role == Role::Broadcaster && state == PeerState::Closed {
        StateAction::Unregister
    } else {
        StateAction::LogOnly
    }
}

/// What to do when a peer connection of `role` changes to `state`.
pub fn on_state_change(role: Role, state: PeerState) -> (action: StateAction)
    ensures
        action == state_action(role, state),
{
    match (role, state) {
        (Role::Broadcaster, PeerState::Closed) => StateAction::Unregister,
        _ => StateAction::LogOnly,
    }
}

/// One step of building a session.
#[derive(Clone, Copy, Debug, PartialEq, Eq, Structural)]
pub enum Step {
    /// Make a peer connection with the default codecs and interceptors and
    /// the ICE servers of `ice_server_urls`.
    CreatePeerConnection,
    /// Add a transceiver of this kind with the default direction, receive only.
    AddTransceiver(TrackKind),
    /// Install the handler that starts the plumbing of each remote track.
    AttachTrackHandlers,
    /// Attach the broadcast's forwarding track of this kind as a sender.
    AddTrack(TrackKind),
    /// Start reading and discarding the RTCP of the sender of this kind.
    DrainRtcp(TrackKind),
    /// Install the handler of connection state changes for this role.
    WatchConnectionState(Role),
    /// Apply the client's offer as the remote description.
    SetRemoteDescription,
    /// Create the answer.
    CreateAnswer,
    /// Get the notifier of the end of ICE gathering.
    WatchGathering,
    /// Set the answer as the local description.
    SetLocalDescription,
    /// Wait for the end of ICE gathering.
    AwaitGathering,
    /// Read the finalized local description.
    ReadLocalDescription,
}

/// The steps that build the session of a role, up to the client's offer.
pub open spec fn session_plan(role: Role) -> Seq<Step> {
    match role {
        Role::Broadcaster => seq![
            Step::CreatePeerConnection,
            Step::AddTransceiver(TrackKind::Video),
            Step::AddTransceiver(TrackKind::Audio),
            Step::AttachTrackHandlers,
            Step::WatchConnectionState(Role::Broadcaster),
            Step::SetRemoteDescription,
        ],
        Role::Viewer => seq![
            Step::CreatePeerConnection,
            Step::AddTrack(TrackKind::Video),
            Step::AddTrack(TrackKind::Audio),
            Step::DrainRtcp(TrackKind::Video),
            Step::DrainRtcp(TrackKind::Audio),
            Step::WatchConnectionState(Role::Viewer),
            Step::SetRemoteDescription,
        ],
    }
}

/// The steps that finalize the answer, the same for both roles.
pub open spec fn answer_plan() -> Seq<Step> {
    seq![
        Step::CreateAnswer,
        Step::WatchGathering,
        Step::SetLocalDescription,
        Step::AwaitGathering,
        Step::ReadLocalDescription,
    ]
}

/// All steps of a negotiation: the session, then its answer.
pub open spec fn negotiation_plan(role: Role) -> Seq<Step> {
    session_plan(role) + answer_plan()
}

/// How far a negotiation has come.
pub struct NegotiationView {
    pub role: Role,
    /// Steps that went well.
    pub done: nat,
    /// Whether a step failed.
    pub failed: bool,
}

impl NegotiationView {
    /// A negotiation for `role` with no step taken yet.
    pub open spec fn fresh(role: Role) -> NegotiationView {
        NegotiationView { role, done: 0, failed: false }
    }

    /// The step to take now, or none once a step failed or all are done.
    pub open spec fn current(self) -> Option<Step> {
        if !self.failed && self.done < negotiation_plan(self.role).len() {
            Some(negotiation_plan(self.role)[self.done as int])
        } else {
            None
        }
    }

    /// Whether every step went well.
    pub open spec fn complete(self) -> bool {
        !self.failed && self.done == negotiation_plan(self.role).len()
    }

    /// The negotiation once the current step went well (`ok`) or failed.
    /// With no step to take, nothing changes.
    pub open spec fn after(self, ok: bool) -> NegotiationView {
        if self.current() is None {
            self
        } else if ok {
            NegotiationView { done: self.done + 1, ..self }
        } else {
            NegotiationView { failed: true, ..self }
        }
    }

    /// The negotiation once its steps went as `outcomes` tell, in order.
    pub open spec fn after_all(self, outcomes: Seq<bool>) -> NegotiationView
        decreases outcomes.len(),
    {
        if outcomes.len() == 0 {
            self
        } else {
            self.after_all(outcomes.drop_last()).after(outcomes.last())
        }
    }
}

/// Whether the first `steps` of `outcomes`, as far as there are that many,
/// all went well.
pub open spec fn all_went_well(outcomes: Seq<bool>, steps: nat) -> bool {
    forall|i: int| 0 <= i < steps && i < outcomes.len() ==> outcomes[i]
}

/// One negotiation: takes the steps of its plan in order and stops at the
/// first that fails.
pub struct Negotiation {
    role: Role,
    steps: Vec<Step>,
    done: usize,
    failed: bool,
}

impl View for Negotiation {
    type V = NegotiationView;

    closed spec fn view(&self) -> NegotiationView {
        NegotiationView { role: self.role, done: self.done as nat, failed: self.failed }
    }
}

/// The plan of a negotiation as a vector.
pub fn plan_steps(role: Role) -> (steps: Vec<Step>)
    ensures
        steps@ == negotiation_plan(role),
{
    let mut steps: Vec<Step> = Vec::new();
    steps.push(Step::CreatePeerConnection);
    match role {
        Role::Broadcaster => {
            steps.push(Step::AddTransceiver(TrackKind::Video));
            steps.push(Step::AddTransceiver(TrackKind::Audio));
            steps.push(Step::AttachTrackHandlers);
        },
        Role::Viewer => {
            steps.push(Step::AddTrack(TrackKind::Video));
            steps.push(Step::AddTrack(TrackKind::Audio));
            steps.push(Step::DrainRtcp(TrackKind::Video));
            steps.push(Step::DrainRtcp(TrackKind::Audio));
        },
    }
    steps.push(Step::WatchConnectionState(role));
    steps.push(Step::SetRemoteDescription);
    steps.push(Step::CreateAnswer);
    steps.push(Step::WatchGathering);
    steps.push(Step::SetLocalDescription);
    steps.push(Step::AwaitGathering);
    steps.push(Step::ReadLocalDescription);
    assert(steps@ =~= negotiation_plan(role));
    steps
}

impl Negotiation {
    #[verifier::type_invariant]
    spec fn follows_plan(self) -> bool {
        &&& self.steps@ == negotiation_plan(self.role)
        &&& self.done <= self.steps@.len()
    }

    /// A negotiation for `role` with no step taken yet.
    pub fn new(role: Role) -> (negotiation: Self)
        ensures
            negotiation@ == NegotiationView::fresh(role),
    {
        Negotiation { role, steps: plan_steps(role), done: 0, failed: false }
    }

    /// The step to take now, or `None` once a step failed or all are done.
    pub fn current(&self) -> (step: Option<Step>)
        ensures
            step == self@.current(),
    {
        proof {
            use_type_invariant(self);
        }
        if !self.failed && self.done < self.steps.len() {
            Some(self.steps[self.done])
        } else {
            None
        }
    }

    /// Whether every step went well.
    pub fn is_complete(&self) -> (complete: bool)
        ensures
            complete == self@.complete(),
    {
        proof {
            use_type_invariant(self);
        }
        !self.failed && self.done == self.steps.len()
    }

    /// Whether a step failed.
    pub fn has_failed(&self) -> (failed: bool)
        ensures
            failed == self@.failed,
    {
        self.failed
    }

    /// Records how the current step went and tells the step to take next.
    pub fn advance(&mut self, ok: bool) -> (next: Option<Step>)
        ensures
            final(self)@ == old(self)@.after(ok),
            next == final(self)@.current(),
    {
        proof {
            use_type_invariant(&*self);
        }
        if !self.failed && self.done < self.steps.len() {
            if ok {
                self.done = self.done + 1;
            } else {
                self.failed = true;
            }
        }
        self.current()
    }
}

/// Why a negotiation gave no answer.
#[derive(Clone, Copy, Debug, PartialEq, Eq, Structural)]
pub enum SessionError {
    /// A step failed or is still to be taken.
    Incomplete,
    /// All steps went well, yet the peer connection has no local description.
    NoLocalDescription,
}

/// The answer of a negotiation, given the local description that its last
/// step read: an answer is owed once every step went well and a local
/// description is there.
pub open spec fn answer_of(
    negotiation: NegotiationView,
    local: Option<SessionDescriptionView>,
) -> Result<SessionDescriptionView, SessionError> {
    if !negotiation.complete() {
        Err(SessionError::Incomplete)
    } else {
        match local {
            Some(description) => Ok(description),
            None => Err(SessionError::NoLocalDescription),
        }
    }
}

impl Negotiation {
    /// The answer to send, given the local description read in the last step.
    pub fn finish(&self, local: Option<SessionDescription>) -> (answer: Result<
        SessionDescription,
        SessionError,
    >)
        ensures
            match answer {
                Ok(description) => answer_of(
                    self@,
                    match local {
                        Some(d) => Some(d@),
                        None => None,
                    },
                ) == Ok::<SessionDescriptionView, SessionError>(description@),
                Err(e) => answer_of(
                    self@,
                    match local {
                        Some(d) => Some(d@),
                        None => None,
                    },
                ) == Err::<SessionDescriptionView, SessionError>(e),
            },
    {
        if !self.is_complete() {
            Err(SessionError::Incomplete)
        } else {
            match local {
                Some(description) => Ok(description),
                None => Err(SessionError::NoLocalDescription),
            }
        }
    }
}

/// The place of `step` in `plan`: an index that holds it.
pub open spec fn position(plan: Seq<Step>, step: Step) -> int {
    plan.index_of(step)
}

/// Whether `plan` holds both steps, `first` at an earlier place than `second`.
pub open spec fn precedes(plan: Seq<Step>, first: Step, second: Step) -> bool {
    &&& plan.contains(first)
    &&& plan.contains(second)
    &&& position(plan, first) < position(plan, second)
}

/// In the plan of either role the peer connection is made first, every
/// handler is in place before the offer is applied, the offer is applied
/// before the answer is created, and the notifier of the end of ICE gathering
/// is taken before the local description is set and awaited after it; reading
/// the local description comes last. A broadcaster's transceivers and track
/// handlers and a viewer's two senders are in place before the offer is
/// applied, and each sender is there before it is drained.
pub proof fn lemma_plan_order(role: Role)
    ensures
        position(negotiation_plan(role), Step::CreatePeerConnection) == 0,
        precedes(
            negotiation_plan(role),
            Step::WatchConnectionState(role),
            Step::SetRemoteDescription,
        ),
        precedes(negotiation_plan(role), Step::SetRemoteDescription, Step::CreateAnswer),
        precedes(negotiation_plan(role), Step::CreateAnswer, Step::WatchGathering),
        precedes(negotiation_plan(role), Step::WatchGathering, Step::SetLocalDescription),
        precedes(negotiation_plan(role), Step::SetLocalDescription, Step::AwaitGathering),
        precedes(negotiation_plan(role), Step::AwaitGathering, Step::ReadLocalDescription),
        position(negotiation_plan(role), Step::ReadLocalDescription) == negotiation_plan(
            role,
        ).len() - 1,
        role == Role::Broadcaster ==> {
            &&& precedes(
                negotiation_plan(role),
                Step::AddTransceiver(TrackKind::Video),
                Step::AttachTrackHandlers,
            )
            &&& precedes(
                negotiation_plan(role),
                Step::AddTransceiver(TrackKind::Audio),
                Step::AttachTrackHandlers,
            )
            &&& precedes(
                negotiation_plan(role),
                Step::AttachTrackHandlers,
                Step::SetRemoteDescription,
            )
        },
        role == Role::Viewer ==> {
            &&& precedes(
                negotiation_plan(role),
                Step::AddTrack(TrackKind::Video),
                Step::DrainRtcp(TrackKind::Video),
            )
            &&& precedes(
                negotiation_plan(role),
                Step::AddTrack(TrackKind::Audio),
                Step::DrainRtcp(TrackKind::Audio),
            )
            &&& precedes(
                negotiation_plan(role),
                Step::DrainRtcp(TrackKind::Video),
                Step::SetRemoteDescription,
            )
            &&& precedes(
                negotiation_plan(role),
                Step::DrainRtcp(TrackKind::Audio),
                Step::SetRemoteDescription,
            )
        },
{
    let plan = negotiation_plan(role);
    match role {
        Role::Broadcaster => {
            lemma_position(plan, 0, Step::CreatePeerConnection);
            lemma_position(plan, 1, Step::AddTransceiver(TrackKind::Video));
            lemma_position(plan, 2, Step::AddTransceiver(TrackKind::Audio));
            lemma_position(plan, 3, Step::AttachTrackHandlers);
            lemma_position(plan, 4, Step::WatchConnectionState(role));
            lemma_position(plan, 5, Step::SetRemoteDescription);
            lemma_position(plan, 6, Step::CreateAnswer);
            lemma_position(plan, 7, Step::WatchGathering);
            lemma_position(plan, 8, Step::SetLocalDescription);
            lemma_position(plan, 9, Step::AwaitGathering);
            lemma_position(plan, 10, Step::ReadLocalDescription);
        },
        Role::Viewer => {
            lemma_position(plan, 0, Step::CreatePeerConnection);
            lemma_position(plan, 1, Step::AddTrack(TrackKind::Video));
            lemma_position(plan, 2, Step::AddTrack(TrackKind::Audio));
            lemma_position(plan, 3, Step::DrainRtcp(TrackKind::Video));
            lemma_position(plan, 4, Step::DrainRtcp(TrackKind::Audio));
            lemma_position(plan, 5, Step::WatchConnectionState(role));
            lemma_position(plan, 6, Step::SetRemoteDescription);
            lemma_position(plan, 7, Step::CreateAnswer);
            lemma_position(plan, 8, Step::WatchGathering);
            lemma_position(plan, 9, Step::SetLocalDescription);
            lemma_position(plan, 10, Step::AwaitGathering);
            lemma_position(plan, 11, Step::ReadLocalDescription);
        },
    }
}

/// A step that stands at `i` in `plan`, and nowhere else, has position `i`.
proof fn lemma_position(plan: Seq<Step>, i: int, step: Step)
    requires
        0 <= i < plan.len(),
        plan[i] == step,
        forall|j: int| 0 <= j < plan.len() && j != i ==> plan[j] != step,
    ensures
        plan.contains(step),
        position(plan, step) == i,
{
    assert(plan.contains(step));
}

/// A negotiation is complete exactly when every step of its plan has been
/// taken and went well; outcomes reported beyond that, or after a failure,
/// change nothing.
pub proof fn lemma_complete_means_every_step_went_well(role: Role, outcomes: Seq<bool>)
    ensures
        NegotiationView::fresh(role).after_all(outcomes).role == role,
        NegotiationView::fresh(role).after_all(outcomes).complete() <==> outcomes.len()
            >= negotiation_plan(role).len() && all_went_well(
            outcomes,
            negotiation_plan(role).len(),
        ),
        NegotiationView::fresh(role).after_all(outcomes).failed <==> !all_went_well(
            outcomes,
            negotiation_plan(role).len(),
        ),
        !NegotiationView::fresh(role).after_all(outcomes).failed ==> NegotiationView::fresh(
            role,
        ).after_all(outcomes).done == if outcomes.len() <= negotiation_plan(role).len() {
            outcomes.len()
        } else {
            negotiation_plan(role).len()
        },
        NegotiationView::fresh(role).after_all(outcomes).done <= negotiation_plan(role).len(),
        NegotiationView::fresh(role).after_all(outcomes).failed ==> NegotiationView::fresh(
            role,
        ).after_all(outcomes).done < negotiation_plan(role).len(),
    decreases outcomes.len(),
{
    let steps = negotiation_plan(role).len();
    if outcomes.len() > 0 {
        let earlier = outcomes.drop_last();
        lemma_complete_means_every_step_went_well(role, earlier);
        let before = NegotiationView::fresh(role).after_all(earlier);
        if all_went_well(earlier, steps) {
            if earlier.len() < steps {
                if outcomes.last() {
                    assert forall|i: int| 0 <= i < steps && i < outcomes.len() implies outcomes[i] by {
                        if i < earlier.len() {
                            assert(earlier[i] == outcomes[i]);
                        }
                    }
                } else {
                    assert(!outcomes[outcomes.len() - 1]);
                }
            } else {
                assert forall|i: int| 0 <= i < steps && i < outcomes.len() implies outcomes[i] by {
                    assert(earlier[i] == outcomes[i]);
                }
            }
        } else {
            let i = choose|i: int| 0 <= i < steps && i < earlier.len() && !earlier[i];
            assert(earlier[i] == outcomes[i]);
        }
    }
}

/// A negotiation stops at the first step that fails: from then on there is
/// no step to take and no answer.
pub proof fn lemma_failure_is_final(negotiation: NegotiationView, ok: bool)
    requires
        negotiation.failed,
    ensures
        negotiation.current() is None,
        negotiation.after(ok) == negotiation,
        forall|local: Option<SessionDescriptionView>| #[trigger]
            answer_of(negotiation, local) == Err::<SessionDescriptionView, SessionError>(
                SessionError::Incomplete,
            ),
{
}

} // verus!
