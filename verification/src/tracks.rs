//! Track plumbing of one broadcaster: what to start for each remote track,
//! the relay that forwards its packets, and the sender of picture loss
//! indications that keeps video decodable for late viewers.

use vstd::prelude::*;

verus! {

/// Seconds between two picture loss indications.
pub const PLI_INTERVAL_SECS: u64 = 3;

/// How many forwarding tracks of one kind may wait for the control loop: the
/// hand-off holds one, since a kind's track arrives once per peer connection.
pub const TRACK_QUEUE_DEPTH: usize = 1;

/// A relay reports its running count at every multiple of this.
pub const LOG_EVERY_PACKETS: u64 = 100;

/// What a track carries.
#[derive(Clone, Copy, Debug, PartialEq, Eq, Structural)]
pub enum TrackKind {
    Unspecified,
    Audio,
    Video,
}

/// The id of the forwarding track of a kind: `video`, `audio`, or none where
/// the kind is unspecified.
pub open spec fn label_of(kind: TrackKind) -> Option<Seq<char>> {
    match kind {
        TrackKind::Video => Some("video"@),
        TrackKind::Audio => Some("audio"@),
        TrackKind::Unspecified => None,
    }
}

/// The stream id of every forwarding track.
pub open spec fn stream_id() -> Seq<char> {
    "webrtc-rs"@
}

/// How to make a forwarding track: its id and its stream id. The codec is
/// that of the remote track it forwards.
pub struct LocalTrackIds {
    pub id: String,
    pub stream_id: String,
}

/// The forwarding track to make for a remote track of `kind`.
pub fn local_track_ids(kind: TrackKind) -> (ids: Option<LocalTrackIds>)
    ensures
        match ids {
            Some(track) => label_of(kind) == Some(track.id@) && track.stream_id@ == stream_id(),
            None => label_of(kind) is None,
        },
{
    match kind {
        TrackKind::Video => Some(
            LocalTrackIds { id: "video".to_owned(), stream_id: "webrtc-rs".to_owned() },
        ),
        TrackKind::Audio => Some(
            LocalTrackIds { id: "audio".to_owned(), stream_id: "webrtc-rs".to_owned() },
        ),
        TrackKind::Unspecified => None,
    }
}

/// A picture loss indication: asks the sender of `media_ssrc` for a keyframe.
#[derive(Clone, Copy, Debug, PartialEq, Eq, Structural)]
pub struct Pli {
    pub sender_ssrc: u32,
    pub media_ssrc: u32,
}

/// Something that happened to a sender of picture loss indications.
#[derive(Clone, Copy, Debug, PartialEq, Eq, Structural)]
pub enum PliEvent {
    /// The interval has passed; the broadcaster's peer connection is still
    /// there, or is gone.
    Tick { connection_alive: bool },
    /// The indication went out.
    Sent,
    /// The indication could not be sent.
    SendFailed,
}

/// What a sender of picture loss indications does next.
#[derive(Clone, Copy, Debug, PartialEq, Eq, Structural)]
pub enum PliAction {
    /// Let the interval pass, then report a `Tick`.
    Wait,
    /// Send this indication, then report how it went.
    Send(Pli),
    /// End the task.
    Stop,
}

/// Whether a sender goes on after `event`, and what it does, for a sender
/// that was `running` and serves `media_ssrc`.
pub open spec fn pli_transition(running: bool, media_ssrc: u32, event: PliEvent) -> (
    bool,
    PliAction,
) {
    if !running {
        (false, PliAction::Stop)
    } else {
        match event {
            PliEvent::Tick { connection_alive: true } => (
                true,
                PliAction::Send(Pli { sender_ssrc: 0, media_ssrc }),
            ),
            PliEvent::Tick { connection_alive: false } => (false, PliAction::Stop),
            PliEvent::Sent => (true, PliAction::Wait),
            PliEvent::SendFailed => (false, PliAction::Stop),
        }
    }
}

/// The periodic sender of picture loss indications for one video track.
pub struct PliSender {
    media_ssrc: u32,
    running: bool,
}

/// A `PliSender` as a plain value.
pub struct PliSenderView {
    pub media_ssrc: u32,
    pub running: bool,
}

impl View for PliSender {
    type V = PliSenderView;

    closed spec fn view(&self) -> PliSenderView {
        PliSenderView { media_ssrc: self.media_ssrc, running: self.running }
    }
}

impl PliSender {
    /// A running sender for the video track with this SSRC. It starts by waiting.
    pub fn new(media_ssrc: u32) -> (sender: Self)
        ensures
            sender@ == (PliSenderView { media_ssrc, running: true }),
    {
        PliSender { media_ssrc, running: true }
    }

    /// Whether the sender still runs.
    pub fn is_running(&self) -> (running: bool)
        ensures
            running == self@.running,
    {
        self.running
    }

    /// Takes in one event and tells what to do next.
    pub fn step(&mut self, event: PliEvent) -> (action: PliAction)
        ensures
            final(self)@.media_ssrc == old(self)@.media_ssrc,
            final(self)@.running == pli_transition(
                old(self)@.running,
                old(self)@.media_ssrc,
                event,
            ).0,
            action == pli_transition(old(self)@.running, old(self)@.media_ssrc, event).1,
    {
        if !self.running {
            return PliAction::Stop;
        }
        match event {
            PliEvent::Tick { connection_alive } => {
                if connection_alive {
                    PliAction::Send(Pli { sender_ssrc: 0, media_ssrc: self.media_ssrc })
                } else {
                    self.running = false;
                    PliAction::Stop
                }
            },
            PliEvent::Sent => PliAction::Wait,
            PliEvent::SendFailed => {
                self.running = false;
                PliAction::Stop
            },
        }
    }
}

/// Where a relay stands.
#[derive(Clone, Copy, Debug, PartialEq, Eq, Structural)]
pub enum RelayPhase {
    /// Waiting for the next packet of the remote track.
    Reading,
    /// One packet is being written to the forwarding track.
    Writing,
    /// The relay has ended.
    Stopped,
}

/// Something that happened to a relay.
#[derive(Clone, Copy, Debug, PartialEq, Eq, Structural)]
pub enum RelayEvent {
    /// The remote track gave a packet.
    Packet,
    /// The remote track is closed.
    ReadFailed,
    /// The forwarding track took the packet.
    Written,
    /// The forwarding track has no reader for now: the packet is lost, the
    /// relay goes on.
    ClosedPipe,
    /// The forwarding track failed for good.
    WriteFailed,
}

/// What a relay does next.
#[derive(Clone, Copy, Debug, PartialEq, Eq, Structural)]
pub enum RelayAction {
    /// Nothing: the event does not belong to where the relay stands.
    Idle,
    /// Read the next packet.
    Read,
    /// Write the packet just read; `report` asks for a line in the log with
    /// the running count.
    Write { report: bool },
    /// End the task.
    Stop,
}

/// The books of a relay: where it stands and what became of its packets.
pub struct RelayView {
    pub kind: TrackKind,
    pub phase: RelayPhase,
    /// Packets read from the remote track.
    pub packets: nat,
    /// Packets that the forwarding track took.
    pub delivered: nat,
    /// Packets that the forwarding track did not take.
    pub lost: nat,
}

impl RelayView {
    /// A relay that has read nothing yet.
    pub open spec fn fresh(kind: TrackKind) -> RelayView {
        RelayView { kind, phase: RelayPhase::Reading, packets: 0, delivered: 0, lost: 0 }
    }

    /// Packets read and not yet written or lost: one while writing, else none.
    pub open spec fn in_flight(self) -> nat {
        if self.phase == RelayPhase::Writing {
            1
        } else {
            0
        }
    }

    /// Every packet read is delivered, lost or in flight, and none is counted twice.
    pub open spec fn balanced(self) -> bool {
        self.packets == self.delivered + self.lost + self.in_flight()
    }

    /// The books after `event`.
    pub open spec fn after(self, event: RelayEvent) -> RelayView {
        match (self.phase, event) {
            (RelayPhase::Reading, RelayEvent::Packet) => RelayView {
                phase: RelayPhase::Writing,
                packets: self.packets + 1,
                ..self
            },
            (RelayPhase::Reading, RelayEvent::ReadFailed) => RelayView {
                phase: RelayPhase::Stopped,
                ..self
            },
            (RelayPhase::Writing, RelayEvent::Written) => RelayView {
                phase: RelayPhase::Reading,
                delivered: self.delivered + 1,
                ..self
            },
            (RelayPhase::Writing, RelayEvent::ClosedPipe) => RelayView {
                phase: RelayPhase::Reading,
                lost: self.lost + 1,
                ..self
            },
            (RelayPhase::Writing, RelayEvent::WriteFailed) => RelayView {
                phase: RelayPhase::Stopped,
                lost: self.lost + 1,
                ..self
            },
            _ => self,
        }
    }

    /// What the relay does on `event`.
    pub open spec fn action(self, event: RelayEvent) -> RelayAction {
        match (self.phase, event) {
            (RelayPhase::Reading, RelayEvent::Packet) => RelayAction::Write {
                report: (self.packets + 1) % (LOG_EVERY_PACKETS as nat) == 0,
            },
            (RelayPhase::Reading, RelayEvent::ReadFailed) => RelayAction::Stop,
            (RelayPhase::Writing, RelayEvent::Written) => RelayAction::Read,
            (RelayPhase::Writing, RelayEvent::ClosedPipe) => RelayAction::Read,
            (RelayPhase::Writing, RelayEvent::WriteFailed) => RelayAction::Stop,
            _ => RelayAction::Idle,
        }
    }

    /// How often the relay is told to write while it takes in `events`, in order.
    pub open spec fn writes(self, events: Seq<RelayEvent>) -> nat
        decreases events.len(),
    {
        if events.len() == 0 {
            0
        } else {
            let before = self.after_all(events.drop_last());
            let earlier = self.writes(events.drop_last());
            if before.action(events.last()) is Write {
                earlier + 1
            } else {
                earlier
            }
        }
    }

    /// The books after all of `events`, in order.
    pub open spec fn after_all(self, events: Seq<RelayEvent>) -> RelayView
        decreases events.len(),
    {
        if events.len() == 0 {
            self
        } else {
            self.after_all(events.drop_last()).after(events.last())
        }
    }
}

/// The relay of one remote track: reads a packet, writes it to the
/// forwarding track, and keeps count.
pub struct Relay {
    kind: TrackKind,
    phase: RelayPhase,
    packets: u64,
    delivered: u64,
    lost: u64,
}

impl View for Relay {
    type V = RelayView;

    closed spec fn view(&self) -> RelayView {
        RelayView {
            kind: self.kind,
            phase: self.phase,
            packets: self.packets as nat,
            delivered: self.delivered as nat,
            lost: self.lost as nat,
        }
    }
}

impl Relay {
    #[verifier::type_invariant]
    spec fn books_balance(self) -> bool {
        self@.balanced()
    }

    /// A relay for a track of `kind` that has read nothing yet.
    pub fn new(kind: TrackKind) -> (relay: Self)
        ensures
            relay@ == RelayView::fresh(kind),
    {
        Relay { kind, phase: RelayPhase::Reading, packets: 0, delivered: 0, lost: 0 }
    }

    /// What the relay's track carries.
    pub fn kind(&self) -> (kind: TrackKind)
        ensures
            kind == self@.kind,
    {
        self.kind
    }

    /// Where the relay stands.
    pub fn phase(&self) -> (phase: RelayPhase)
        ensures
            phase == self@.phase,
    {
        self.phase
    }

    /// Packets read so far.
    pub fn packets(&self) -> (packets: u64)
        ensures
            packets == self@.packets,
    {
        self.packets
    }

    /// Packets read, delivered and lost so far. The books balance: every
    /// packet read is delivered, lost or still in flight.
    pub fn tally(&self) -> (tally: (u64, u64, u64))
        ensures
            tally.0 == self@.packets,
            tally.1 == self@.delivered,
            tally.2 == self@.lost,
            self@.balanced(),
    {
        proof {
            use_type_invariant(self);
        }
        (self.packets, self.delivered, self.lost)
    }

    /// Takes in one event: updates the books and tells what to do next.
    pub fn step(&mut self, event: RelayEvent) -> (action: RelayAction)
        requires
            old(self)@.phase == RelayPhase::Reading && event == RelayEvent::Packet ==> old(
                self,
            )@.packets < u64::MAX,
        ensures
            final(self)@ == old(self)@.after(event),
            action == old(self)@.action(event),
    {
        proof {
            use_type_invariant(&*self);
        }
        let kind = self.kind;
        let packets = self.packets;
        let delivered = self.delivered;
        let lost = self.lost;
        match self.phase {
            RelayPhase::Reading => match event {
                RelayEvent::Packet => {
                    *self = Relay {
                        kind,
                        phase: RelayPhase::Writing,
                        packets: packets + 1,
                        delivered,
                        lost,
                    };
                    RelayAction::Write { report: (packets + 1) % LOG_EVERY_PACKETS == 0 }
                },
                RelayEvent::ReadFailed => {
                    *self = Relay { kind, phase: RelayPhase::Stopped, packets, delivered, lost };
                    RelayAction::Stop
                },
                _ => RelayAction::Idle,
            },
            RelayPhase::Writing => match event {
                RelayEvent::Written => {
                    *self = Relay {
                        kind,
                        phase: RelayPhase::Reading,
                        packets,
                        delivered: delivered + 1,
                        lost,
                    };
                    RelayAction::Read
                },
                RelayEvent::ClosedPipe => {
                    *self = Relay {
                        kind,
                        phase: RelayPhase::Reading,
                        packets,
                        delivered,
                        lost: lost + 1,
                    };
                    RelayAction::Read
                },
                RelayEvent::WriteFailed => {
                    *self = Relay {
                        kind,
                        phase: RelayPhase::Stopped,
                        packets,
                        delivered,
                        lost: lost + 1,
                    };
                    RelayAction::Stop
                },
                _ => RelayAction::Idle,
            },
            RelayPhase::Stopped => RelayAction::Idle,
        }
    }
}

/// What to start for a remote track that has arrived.
pub struct TrackPlan {
    /// The sender of picture loss indications to start, for video.
    pub pli: Option<PliSender>,
    /// The relay to start, for video and audio.
    pub relay: Option<Relay>,
}

/// What to start for a remote track of `kind` with this SSRC: a sender of
/// picture loss indications and a relay for video, a relay alone for audio,
/// nothing for an unspecified kind.
pub fn on_track(kind: TrackKind, ssrc: u32) -> (plan: TrackPlan)
    ensures
        match kind {
            TrackKind::Video => plan.pli is Some && plan.pli->0@ == (PliSenderView {
                media_ssrc: ssrc,
                running: true,
            }) && plan.relay is Some && plan.relay->0@ == RelayView::fresh(TrackKind::Video),
            TrackKind::Audio => plan.pli is None && plan.relay is Some && plan.relay->0@
                == RelayView::fresh(TrackKind::Audio),
            TrackKind::Unspecified => plan.pli is None && plan.relay is None,
        },
{
    match kind {
        TrackKind::Video => TrackPlan {
            pli: Some(PliSender::new(ssrc)),
            relay: Some(Relay::new(TrackKind::Video)),
        },
        TrackKind::Audio => TrackPlan { pli: None, relay: Some(Relay::new(TrackKind::Audio)) },
        TrackKind::Unspecified => TrackPlan { pli: None, relay: None },
    }
}

/// However a relay's events fall, its books balance after them: the packets
/// that the forwarding track took are the packets read less those lost and
/// the one in flight. Each packet read is written once, so none reaches the
/// forwarding track twice.
pub proof fn lemma_relay_books_balance(kind: TrackKind, events: Seq<RelayEvent>)
    ensures
        RelayView::fresh(kind).after_all(events).balanced(),
        RelayView::fresh(kind).after_all(events).delivered == RelayView::fresh(kind).after_all(
            events,
        ).packets - RelayView::fresh(kind).after_all(events).lost - RelayView::fresh(
            kind,
        ).after_all(events).in_flight(),
        RelayView::fresh(kind).writes(events) == RelayView::fresh(kind).after_all(events).packets,
        RelayView::fresh(kind).after_all(events).kind == kind,
    decreases events.len(),
{
    if events.len() > 0 {
        lemma_relay_books_balance(kind, events.drop_last());
    }
}

/// A relay that has stopped stays stopped, and its books no longer change.
pub proof fn lemma_relay_stop_is_final(relay: RelayView, event: RelayEvent)
    requires
        relay.phase == RelayPhase::Stopped,
    ensures
        relay.after(event) == relay,
        relay.action(event) == RelayAction::Idle,
{
}

} // verus!
