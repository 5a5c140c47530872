//! The broadcast registry: which broadcasts are live, and the two forwarding
//! tracks of each.

use std::sync::Arc;
use vstd::hash_map::StringHashMap;
use vstd::prelude::*;
use webrtc::track::track_local::track_local_static_rtp::TrackLocalStaticRTP;

verus! {

/// webrtc's `TrackLocalStaticRTP`: a forwarding track. The registry carries
/// handles to such tracks and never looks inside one.
#[verifier::external_type_specification]
#[verifier::external_body]
pub struct ExTrackLocalStaticRTP(TrackLocalStaticRTP);

/// The two forwarding tracks of one live broadcast.
pub struct Broadcast {
    pub video_track: Arc<TrackLocalStaticRTP>,
    pub audio_track: Arc<TrackLocalStaticRTP>,
}

/// The registry as a map from broadcast name to the broadcast's tracks.
pub type Registry = Map<Seq<char>, Broadcast>;

/// The registry once `name` has been registered with these tracks: `name`
/// holds them, whatever it held before, and no other name is touched.
pub open spec fn registered(
    before: Registry,
    name: Seq<char>,
    video_track: Arc<TrackLocalStaticRTP>,
    audio_track: Arc<TrackLocalStaticRTP>,
) -> Registry {
    before.insert(name, Broadcast { video_track, audio_track })
}

/// The registry once `name` has been unregistered.
pub open spec fn unregistered(before: Registry, name: Seq<char>) -> Registry {
    before.remove(name)
}

/// The tracks that a viewer of `name` gets, where `name` is live.
pub open spec fn lookup(registry: Registry, name: Seq<char>) -> Option<Broadcast> {
    if registry.contains_key(name) {
        Some(registry[name])
    } else {
        None
    }
}

/// Calls `Arc::clone`. Trusted: the new handle points to the same track.
#[verifier::external_body]
fn share(track: &Arc<TrackLocalStaticRTP>) -> (shared: Arc<TrackLocalStaticRTP>)
    ensures
        shared == *track,
{
    Arc::clone(track)
}

/// Name to tracks, one entry per live broadcast.
pub struct BroadcastManager {
    registry: StringHashMap<Broadcast>,
}

impl View for BroadcastManager {
    type V = Registry;

    closed spec fn view(&self) -> Registry {
        self.registry@
    }
}

impl BroadcastManager {
    /// A registry with no broadcast in it.
    pub fn new() -> (manager: Self)
        ensures
            manager@ == Registry::empty(),
    {
        BroadcastManager { registry: StringHashMap::new() }
    }

    /// Makes `name` live with these tracks. A broadcast already registered
    /// under `name` is replaced: the later registration wins.
    pub fn register_broadcast(
        &mut self,
        name: String,
        video_track: Arc<TrackLocalStaticRTP>,
        audio_track: Arc<TrackLocalStaticRTP>,
    )
        ensures
            final(self)@ == registered(old(self)@, name@, video_track, audio_track),
    {
        self.registry.insert(name, Broadcast { video_track, audio_track });
    }

    /// Takes `name` out of the registry and tells whether it was there. An
    /// absent name leaves the registry as it was.
    pub fn unregister_broadcast(&mut self, name: &str) -> (removed: bool)
        ensures
            removed == old(self)@.contains_key(name@),
            final(self)@ == unregistered(old(self)@, name@),
            !removed ==> final(self)@ == old(self)@,
    {
        let removed = self.registry.contains_key(name);
        self.registry.remove(name);
        proof {
            if !removed {
                assert(old(self)@.remove(name@) =~= old(self)@);
            }
        }
        removed
    }

    /// Shared handles to the tracks of `name`, or `None` if `name` is not live.
    pub fn get_broadcast(&self, name: &str) -> (tracks: Option<
        (Arc<TrackLocalStaticRTP>, Arc<TrackLocalStaticRTP>),
    >)
        ensures
            match tracks {
                Some((video_track, audio_track)) => lookup(self@, name@) == Some(
                    Broadcast { video_track, audio_track },
                ),
                None => lookup(self@, name@) is None,
            },
    {
        match self.registry.get(name) {
            Some(broadcast) => Some((share(&broadcast.video_track), share(&broadcast.audio_track))),
            None => None,
        }
    }
}

/// Registering writes exactly one entry: `name` becomes live with the tracks
/// given, and every other name is as live as before, with the tracks it had.
pub proof fn lemma_register_writes_one_entry(
    before: Registry,
    name: Seq<char>,
    video_track: Arc<TrackLocalStaticRTP>,
    audio_track: Arc<TrackLocalStaticRTP>,
)
    ensures
        registered(before, name, video_track, audio_track).dom() == before.dom().insert(name),
        lookup(registered(before, name, video_track, audio_track), name) == Some(
            Broadcast { video_track, audio_track },
        ),
        forall|other: Seq<char>|
            other != name ==> #[trigger] lookup(
                registered(before, name, video_track, audio_track),
                other,
            ) == lookup(before, other),
{
    assert(registered(before, name, video_track, audio_track).dom() =~= before.dom().insert(name));
}

/// Registering twice under one name leaves what the later registration alone
/// would have left.
pub proof fn lemma_later_registration_wins(
    before: Registry,
    name: Seq<char>,
    first: Broadcast,
    second: Broadcast,
)
    ensures
        registered(
            registered(before, name, first.video_track, first.audio_track),
            name,
            second.video_track,
            second.audio_track,
        ) == registered(before, name, second.video_track, second.audio_track),
{
    assert(before.insert(name, first).insert(name, second) =~= before.insert(name, second));
}

/// Unregistering a name that is not live changes nothing, however often it
/// is done; unregistering a live name twice is the same as once.
pub proof fn lemma_unregister_is_idempotent(before: Registry, name: Seq<char>)
    ensures
        !before.contains_key(name) ==> unregistered(before, name) == before,
        unregistered(unregistered(before, name), name) == unregistered(before, name),
        lookup(unregistered(before, name), name) is None,
{
    if !before.contains_key(name) {
        assert(before.remove(name) =~= before);
    }
    assert(before.remove(name).remove(name) =~= before.remove(name));
}

/// Unregistering leaves every other broadcast as it was.
pub proof fn lemma_unregister_keeps_others(before: Registry, name: Seq<char>, other: Seq<char>)
    requires
        other != name,
    ensures
        lookup(unregistered(before, name), other) == lookup(before, other),
{
}

} // verus!
