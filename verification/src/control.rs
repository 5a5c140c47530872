//! The control loop's decisions: what to do with each request, when a
//! broadcast becomes live, and when it goes away.

use crate::codec::{
    decode_sdp, decoded_sdp, description_of, encode_sdp, encoded_sdp, CodecError,
    SessionDescription, SessionDescriptionView,
};
use crate::registry::{lookup, registered, unregistered, Broadcast, BroadcastManager, Registry};
use crate::session::{
    all_went_well, answer_of, lemma_complete_means_every_step_went_well, negotiation_plan,
    on_state_change, state_action, Negotiation, NegotiationView, PeerState, Role, SessionError,
    StateAction,
};
use crate::signaling::{transition, ClientPayload, ConnActionView, ConnEvent, ConnState, PayloadView};
use std::sync::Arc;
use vstd::prelude::*;
use webrtc::track::track_local::track_local_static_rtp::TrackLocalStaticRTP;

verus! {

/// What a request asks for.
#[derive(Clone, Copy, Debug, PartialEq, Eq, Structural)]
pub enum Action {
    /// Publish a broadcast under the request's name.
    Broadcast,
    /// Watch the broadcast of the request's name.
    Join,
}

/// What an action word asks for: `broadcast`, `join`, or nothing known.
pub open spec fn action_of(word: Seq<char>) -> Option<Action> {
    if word == "broadcast"@ {
        Some(Action::Broadcast)
    } else if word == "join"@ {
        Some(Action::Join)
    } else {
        None
    }
}

/// Reads the action word of a request.
pub fn parse_action(word: &String) -> (action: Option<Action>)
    ensures
        action == action_of(word@),
{
    let broadcast = "broadcast".to_owned();
    let join = "join".to_owned();
    if *word == broadcast {
        Some(Action::Broadcast)
    } else if *word == join {
        Some(Action::Join)
    } else {
        None
    }
}

/// Why a request gets no answer.
#[derive(Clone, Copy, Debug, PartialEq, Eq, Structural)]
pub enum DropReason {
    /// The action is neither `broadcast` nor `join`.
    UnknownAction,
    /// The offer could not be read off the wire.
    BadOffer(CodecError),
    /// Nothing is live under the name to join.
    UnknownBroadcast,
}

/// What the control loop does with a request.
pub enum Dispatch {
    /// Negotiate a broadcaster session for `name` with this offer.
    StartBroadcast { name: String, offer: SessionDescription },
    /// Negotiate a viewer session with this offer, fed by these tracks.
    StartViewer {
        name: String,
        offer: SessionDescription,
        video_track: Arc<TrackLocalStaticRTP>,
        audio_track: Arc<TrackLocalStaticRTP>,
    },
    /// Drop the responder: the client sees its socket close without a reply.
    DropResponder(DropReason),
}

/// A `Dispatch` as a plain value.
pub enum DispatchView {
    StartBroadcast { name: Seq<char>, offer: SessionDescriptionView },
    StartViewer { name: Seq<char>, offer: SessionDescriptionView, tracks: Broadcast },
    DropResponder(DropReason),
}

impl View for Dispatch {
    type V = DispatchView;

    open spec fn view(&self) -> DispatchView {
        match *self {
            Dispatch::StartBroadcast { name, offer } => DispatchView::StartBroadcast {
                name: name@,
                offer: offer@,
            },
            Dispatch::StartViewer {
                name,
                offer,
                video_track,
                audio_track,
            } => DispatchView::StartViewer {
                name: name@,
                offer: offer@,
                tracks: Broadcast { video_track, audio_track },
            },
            Dispatch::DropResponder(reason) => DispatchView::DropResponder(reason),
        }
    }
}

/// What becomes of a request, given the offer read off its `sdp` and the
/// registry at that moment. A request with an unknown action or an unreadable
/// offer is dropped; a broadcast is started whatever the registry holds; a join
/// is started with the tracks that are live under its name, and dropped where
/// none are.
pub open spec fn dispatched(
    payload: PayloadView,
    offer: Result<SessionDescriptionView, CodecError>,
    registry: Registry,
) -> DispatchView {
    match action_of(payload.action) {
        None => DispatchView::DropResponder(DropReason::UnknownAction),
        Some(action) => match offer {
            Err(e) => DispatchView::DropResponder(DropReason::BadOffer(e)),
            Ok(offer) => match action {
                Action::Broadcast => DispatchView::StartBroadcast { name: payload.name, offer },
                Action::Join => match lookup(registry, payload.name) {
                    Some(tracks) => DispatchView::StartViewer { name: payload.name, offer, tracks },
                    None => DispatchView::DropResponder(DropReason::UnknownBroadcast),
                },
            },
        },
    }
}

/// Decides what to do with a request whose offer has been read off the wire
/// as `offer`.
pub fn plan_request(
    payload: ClientPayload,
    offer: Result<SessionDescription, CodecError>,
    registry: &BroadcastManager,
) -> (dispatch: Dispatch)
    ensures
        dispatch@ == dispatched(payload@, description_of(offer), registry@),
{
    match parse_action(&payload.action) {
        None => Dispatch::DropResponder(DropReason::UnknownAction),
        Some(action) => match offer {
            Err(e) => Dispatch::DropResponder(DropReason::BadOffer(e)),
            Ok(offer) => match action {
                Action::Broadcast => Dispatch::StartBroadcast { name: payload.name, offer },
                Action::Join => match registry.get_broadcast(payload.name.as_str()) {
                    Some((video_track, audio_track)) => Dispatch::StartViewer {
                        name: payload.name,
                        offer,
                        video_track,
                        audio_track,
                    },
                    None => Dispatch::DropResponder(DropReason::UnknownBroadcast),
                },
            },
        },
    }
}

/// Decides what to do with a request: reads its offer off the wire and
/// looks its name up where the request is a join.
pub fn dispatch(payload: ClientPayload, registry: &BroadcastManager) -> (dispatch: Dispatch)
    ensures
        dispatch@ == dispatched(payload@, decoded_sdp(payload.sdp@), registry@),
{
    let offer = decode_sdp(payload.sdp.as_str());
    plan_request(payload, offer, registry)
}

/// What is sent back once a negotiation has ended with `answer`: the wire
/// form of the description, or nothing where there is no description or it
/// has no wire form.
pub open spec fn reply_of(
    answer: Result<SessionDescriptionView, SessionError>,
) -> Option<Seq<char>> {
    match answer {
        Err(_) => None,
        Ok(description) => match encoded_sdp(description) {
            Ok(wire) => Some(wire),
            Err(_) => None,
        },
    }
}

/// The text to hand to the responder at the end of a negotiation, given the
/// local description read in its last step; `None` means that the responder
/// is dropped.
pub fn reply(negotiation: &Negotiation, local: Option<SessionDescription>) -> (text: Option<String>)
    ensures
        match text {
            Some(wire) => reply_of(
                answer_of(
                    negotiation@,
                    match local {
                        Some(d) => Some(d@),
                        None => None,
                    },
                ),
            ) == Some(wire@),
            None => reply_of(
                answer_of(
                    negotiation@,
                    match local {
                        Some(d) => Some(d@),
                        None => None,
                    },
                ),
            ) is None,
        },
{
    match negotiation.finish(local) {
        Err(_) => None,
        Ok(description) => match encode_sdp(&description) {
            Ok(wire) => Some(wire),
            Err(_) => None,
        },
    }
}

/// What came of waiting for a broadcaster's tracks.
#[derive(Clone, Copy, Debug, PartialEq, Eq, Structural)]
pub enum TracksOutcome {
    /// Both tracks came; the broadcast is live.
    Registered,
    /// The broadcaster went away before both tracks came; nothing was registered.
    Incomplete { video_missing: bool, audio_missing: bool },
}

/// Something that the control plane takes in.
pub enum ControlEvent {
    /// A client's request. Requests read the registry and never change it.
    Request { payload: PayloadView },
    /// The wait for the tracks of the broadcaster of `name` has ended, each
    /// track having come or not.
    Tracks {
        name: Seq<char>,
        video_track: Option<Arc<TrackLocalStaticRTP>>,
        audio_track: Option<Arc<TrackLocalStaticRTP>>,
    },
    /// The peer connection that serves `name` in `role` changed to `state`.
    StateChange { role: Role, name: Seq<char>, state: PeerState },
}

/// The registry after `event`. Only two things change it: a broadcaster whose
/// two tracks have both come is registered, and a broadcaster whose
/// connection has closed is unregistered.
pub open spec fn registry_after(before: Registry, event: ControlEvent) -> Registry {
    match event {
        ControlEvent::Request { .. } => before,
        ControlEvent::Tracks {
            name,
            video_track: Some(video_track),
            audio_track: Some(audio_track),
        } => registered(before, name, video_track, audio_track),
        ControlEvent::Tracks { .. } => before,
        ControlEvent::StateChange { role, name, state } => match state_action(role, state) {
            StateAction::Unregister => unregistered(before, name),
            StateAction::LogOnly => before,
        },
    }
}

/// The registry after all of `events`, in order.
pub open spec fn registry_after_all(before: Registry, events: Seq<ControlEvent>) -> Registry
    decreases events.len(),
{
    if events.len() == 0 {
        before
    } else {
        registry_after(registry_after_all(before, events.drop_last()), events.last())
    }
}

/// Whether `event` makes `name` live.
pub open spec fn registers(event: ControlEvent, name: Seq<char>) -> bool {
    event matches ControlEvent::Tracks { name: n, video_track: Some(_), audio_track: Some(_) }
        && n == name
}

/// Whether `event` takes `name` out of the registry.
pub open spec fn unregisters(event: ControlEvent, name: Seq<char>) -> bool {
    event matches ControlEvent::StateChange { role, name: n, state } && n == name && state_action(
        role,
        state,
    ) == StateAction::Unregister
}

/// Ends the wait for a broadcaster's tracks: registers the broadcast if both
/// have come, and leaves the registry alone if either has not.
pub fn register_when_ready(
    registry: &mut BroadcastManager,
    name: String,
    video_track: Option<Arc<TrackLocalStaticRTP>>,
    audio_track: Option<Arc<TrackLocalStaticRTP>>,
) -> (outcome: TracksOutcome)
    ensures
        final(registry)@ == registry_after(
            old(registry)@,
            ControlEvent::Tracks { name: name@, video_track, audio_track },
        ),
        outcome == if video_track is Some && audio_track is Some {
            TracksOutcome::Registered
        } else {
            TracksOutcome::Incomplete {
                video_missing: video_track is None,
                audio_missing: audio_track is None,
            }
        },
{
    match (video_track, audio_track) {
        (Some(video), Some(audio)) => {
            registry.register_broadcast(name, video, audio);
            TracksOutcome::Registered
        },
        (video, audio) => TracksOutcome::Incomplete {
            video_missing: video.is_none(),
            audio_missing: audio.is_none(),
        },
    }
}

/// Takes in a change of connection state: unregisters the broadcast of a
/// broadcaster whose connection has closed, and tells what was decided.
pub fn apply_state_change(
    registry: &mut BroadcastManager,
    role: Role,
    name: &str,
    state: PeerState,
) -> (action: StateAction)
    ensures
        action == state_action(role, state),
        final(registry)@ == registry_after(
            old(registry)@,
            ControlEvent::StateChange { role, name: name@, state },
        ),
{
    let action = on_state_change(role, state);
    match action {
        StateAction::Unregister => {
            registry.unregister_broadcast(name);
        },
        StateAction::LogOnly => {},
    }
    action
}

/// A broadcast whose two tracks have come stays live, with those tracks,
/// through whatever happens next, until it is registered anew or its
/// broadcaster's connection closes: a join under its name with a readable
/// offer is started with those tracks.
pub proof fn lemma_join_after_broadcast(
    before: Registry,
    name: Seq<char>,
    video_track: Arc<TrackLocalStaticRTP>,
    audio_track: Arc<TrackLocalStaticRTP>,
    later: Seq<ControlEvent>,
    payload: PayloadView,
    offer: SessionDescriptionView,
)
    requires
        forall|i: int|
            0 <= i < later.len() ==> !registers(#[trigger] later[i], name) && !unregisters(
                later[i],
                name,
            ),
        action_of(payload.action) == Some(Action::Join),
        payload.name == name,
    ensures
        lookup(
            registry_after_all(registered(before, name, video_track, audio_track), later),
            name,
        ) == Some(Broadcast { video_track, audio_track }),
        dispatched(
            payload,
            Ok(offer),
            registry_after_all(registered(before, name, video_track, audio_track), later),
        ) == (DispatchView::StartViewer {
            name,
            offer,
            tracks: Broadcast { video_track, audio_track },
        }),
    decreases later.len(),
{
    let start = registered(before, name, video_track, audio_track);
    if later.len() > 0 {
        let earlier = later.drop_last();
        assert forall|i: int| 0 <= i < earlier.len() implies !registers(
            #[trigger] earlier[i],
            name,
        ) && !unregisters(earlier[i], name) by {
            assert(earlier[i] == later[i]);
        }
        lemma_join_after_broadcast(
            before,
            name,
            video_track,
            audio_track,
            earlier,
            payload,
            offer,
        );
        let last = later[later.len() - 1];
        assert(!registers(last, name) && !unregisters(last, name));
        lemma_untouched_name_keeps_entry(registry_after_all(start, earlier), last, name);
    }
}

/// An event that neither registers nor unregisters `name` leaves what is
/// live under `name` as it was.
pub proof fn lemma_untouched_name_keeps_entry(
    before: Registry,
    event: ControlEvent,
    name: Seq<char>,
)
    requires
        !registers(event, name),
        !unregisters(event, name),
    ensures
        lookup(registry_after(before, event), name) == lookup(before, name),
{
}

/// A negotiation of which every step went well, and whose local description
/// has a wire form, is answered with that wire form; the connection that
/// waits for it sends it as its reply and closes.
pub proof fn lemma_complete_negotiation_is_answered(
    role: Role,
    outcomes: Seq<bool>,
    local: SessionDescriptionView,
    answer: String,
)
    requires
        outcomes.len() >= negotiation_plan(role).len(),
        all_went_well(outcomes, negotiation_plan(role).len()),
        encoded_sdp(local) == Ok::<Seq<char>, CodecError>(answer@),
    ensures
        reply_of(answer_of(NegotiationView::fresh(role).after_all(outcomes), Some(local)))
            == Some(answer@),
        transition(ConnState::AwaitingResponse, ConnEvent::Answer(Some(answer))) == (
            ConnState::Terminated,
            ConnActionView::Reply(answer@),
        ),
{
    lemma_complete_means_every_step_went_well(role, outcomes);
}

/// A join under a name that is not live at the moment of lookup is dropped,
/// and a connection whose responder is dropped closes without a text reply.
pub proof fn lemma_unknown_join_closes_silently(
    registry: Registry,
    payload: PayloadView,
    offer: Result<SessionDescriptionView, CodecError>,
)
    requires
        action_of(payload.action) == Some(Action::Join),
        lookup(registry, payload.name) is None,
    ensures
        dispatched(payload, offer, registry) is DropResponder,
        transition(ConnState::AwaitingResponse, ConnEvent::Answer(None)) == (
            ConnState::Terminated,
            ConnActionView::Close,
        ),
{
}

/// Once a broadcaster's connection has closed, nothing is live under its
/// name, whatever was registered before.
pub proof fn lemma_closed_broadcaster_is_unregistered(before: Registry, name: Seq<char>)
    ensures
        lookup(
            registry_after(
                before,
                ControlEvent::StateChange {
                    role: Role::Broadcaster,
                    name,
                    state: PeerState::Closed,
                },
            ),
            name,
        ) is None,
{
}

/// A name is not live before both tracks of its broadcaster have come: from
/// a registry without it, through any events of which none brings both
/// tracks for it, nothing is live under it, and a join under it is dropped.
/// This holds while the broadcaster is being set up, and for good where the
/// broadcaster goes away with a track missing.
pub proof fn lemma_not_live_before_both_tracks(
    before: Registry,
    name: Seq<char>,
    events: Seq<ControlEvent>,
    payload: PayloadView,
    offer: Result<SessionDescriptionView, CodecError>,
)
    requires
        lookup(before, name) is None,
        forall|i: int| 0 <= i < events.len() ==> !registers(#[trigger] events[i], name),
        action_of(payload.action) == Some(Action::Join),
        payload.name == name,
    ensures
        lookup(registry_after_all(before, events), name) is None,
        dispatched(payload, offer, registry_after_all(before, events)) is DropResponder,
    decreases events.len(),
{
    if events.len() > 0 {
        let earlier = events.drop_last();
        assert forall|i: int| 0 <= i < earlier.len() implies !registers(
            #[trigger] earlier[i],
            name,
        ) by {
            assert(earlier[i] == events[i]);
        }
        lemma_not_live_before_both_tracks(before, name, earlier, payload, offer);
        let last = events[events.len() - 1];
        assert(!registers(last, name));
    }
}

/// The two action words are different words, so no request is both a
/// broadcast and a join.
pub proof fn lemma_actions_are_distinct()
    ensures
        action_of("broadcast"@) == Some(Action::Broadcast),
        action_of("join"@) == Some(Action::Join),
        "broadcast"@ != "join"@,
{
    reveal_strlit("broadcast");
    reveal_strlit("join");
    assert("broadcast"@.len() == 9);
    assert("join"@.len() == 4);
}

} // verus!
