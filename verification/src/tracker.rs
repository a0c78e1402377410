//! Tracking of aircraft from their ADS-B messages.
pub mod aircraft_state;

use crate::clock::now_millis;
use crate::error::AdsbError;
use crate::message::airborne_position::{Even, Odd};
use crate::message::{message_icao, Message};
use aircraft_state::{updated_at, AircraftState};
use std::collections::hash_map;
use std::collections::HashMap;
use vstd::prelude::*;
use vstd::std_specs::iter::IteratorSpec;

verus! {

broadcast use vstd::std_specs::hash::group_hash_axioms;

/// How long, in milliseconds, an aircraft is kept after it was last seen.
pub const RETAIN_THRESHOLD_MS: u64 = 60_000;

/// Whether an aircraft last seen at `last_seen` is still kept at `now`: when
/// `last_seen` plus the retention threshold is not earlier than `now`.
pub open spec fn is_retained(last_seen: int, now: int) -> bool {
    last_seen + 60_000 >= now
}

/// The aircraft of `m` that are still kept at `now`.
pub open spec fn retained<P>(m: Map<u32, AircraftState<P>>, now: int) -> Map<
    u32,
    AircraftState<P>,
> {
    m.restrict(m.dom().filter(|k: u32| is_retained(m[k].last_seen as int, now)))
}

/// The state of an aircraft that nothing is known of yet, seen at `now`.
pub open spec fn fresh_state<P>(now: u64) -> AircraftState<P> {
    AircraftState {
        identification: None,
        velocity: None,
        altitude: None,
        cpr_even: None,
        cpr_odd: None,
        airborne_position: None,
        last_seen: now,
    }
}

/// The state that a message for `icao` received at `now` is applied to: the
/// known state of the aircraft, or a fresh one.
pub open spec fn state_before<P>(m: Map<u32, AircraftState<P>>, icao: u32, now: u64) -> AircraftState<P> {
    if m.contains_key(icao) {
        m[icao]
    } else {
        fresh_state(now)
    }
}

/// How far pruning has got with the aircraft `k` of `old_map`, once the
/// addresses `done` were handled: a handled aircraft is out of `cur` and in
/// `kept` exactly when it is still kept at `now`; any other is still in `cur`.
spec fn prune_step<P>(
    old_map: Map<u32, AircraftState<P>>,
    cur: Map<u32, AircraftState<P>>,
    kept: Map<u32, AircraftState<P>>,
    done: Seq<u32>,
    now: int,
    k: u32,
) -> bool {
    if done.contains(k) {
        &&& !cur.contains_key(k)
        &&& kept.contains_key(k) <==> is_retained(old_map[k].last_seen as int, now)
        &&& kept.contains_key(k) ==> kept[k] == old_map[k]
    } else {
        &&& cur.contains_key(k)
        &&& cur[k] == old_map[k]
        &&& !kept.contains_key(k)
    }
}

/// An update records the sender's state under its address and leaves every
/// other aircraft as it was.
pub proof fn lemma_update_touches_only_sender<P>(
    before: Map<u32, AircraftState<P>>,
    after: Map<u32, AircraftState<P>>,
    msg: Message,
    state: AircraftState<P>,
)
    requires
        after == before.insert(message_icao(msg), state),
    ensures
        after.contains_key(message_icao(msg)),
        after[message_icao(msg)] == state,
        forall|k: u32|
            k != message_icao(msg) ==> (#[trigger] after.contains_key(k) <==> before.contains_key(k))
                && (before.contains_key(k) ==> after[k] == before[k]),
{
}

/// Pruning twice at the same time removes nothing more than pruning once.
pub proof fn lemma_prune_idempotent<P>(m: Map<u32, AircraftState<P>>, now: int)
    ensures
        retained(retained(m, now), now) == retained(m, now),
{
    assert(retained(retained(m, now), now) =~= retained(m, now));
}

/// Pruning later keeps no aircraft that pruning earlier removes: what is kept
/// at `later` is kept at `earlier`, with the same state.
pub proof fn lemma_prune_later_keeps_less<P>(m: Map<u32, AircraftState<P>>, earlier: int, later: int)
    requires
        earlier <= later,
    ensures
        forall|k: u32| #[trigger]
            retained(m, later).contains_key(k) ==> retained(m, earlier).contains_key(k)
                && retained(m, earlier)[k] == retained(m, later)[k],
{
}

/// Pruning at `now` keeps exactly the aircraft last seen at most 60 s before
/// `now` (or later), each with its state unchanged.
pub proof fn lemma_prune_keeps_last_minute<P>(m: Map<u32, AircraftState<P>>, now: int)
    ensures
        forall|k: u32| #[trigger]
            retained(m, now).contains_key(k) <==> m.contains_key(k) && now - m[k].last_seen <= 60_000,
        forall|k: u32| #[trigger]
            retained(m, now).contains_key(k) ==> retained(m, now)[k] == m[k],
{
}

/// An aircraft seen at `now` is kept by pruning at `now`.
pub proof fn lemma_prune_keeps_just_seen<P>(m: Map<u32, AircraftState<P>>, icao: u32, now: int)
    requires
        m.contains_key(icao),
        m[icao].last_seen == now,
    ensures
        retained(m, now).contains_key(icao),
{
}

/// Maintains the current state of aircraft observed through ADS-B messages.
///
/// A tracker groups messages by their ICAO address and accumulates the
/// information reported by each aircraft over time. Aircraft that have not
/// been observed within the retention threshold are removed when
/// [`AircraftTracker::prune`] is called.
#[derive(Debug)]
pub struct AircraftTracker<P> {
    /// The state of each aircraft, by ICAO address.
    pub aircraft: HashMap<u32, AircraftState<P>>,
}

impl<P> AircraftTracker<P> {
    /// A tracker that knows no aircraft.
    pub fn new() -> (r: Self)
        ensures
            r.aircraft@ == Map::<u32, AircraftState<P>>::empty(),
    {
        Self { aircraft: HashMap::new() }
    }

    /// The state of the aircraft with address `icao`, if it is tracked.
    pub fn get(&self, icao: u32) -> (r: Option<&AircraftState<P>>)
        ensures
            match r {
                Some(s) => self.aircraft@.contains_key(icao) && *s == self.aircraft@[icao],
                None => !self.aircraft@.contains_key(icao),
            },
    {
        self.aircraft.get(&icao)
    }

    /// The tracked aircraft with their states, in no particular order.
    pub fn iter(&self) -> (r: hash_map::Iter<'_, u32, AircraftState<P>>)
        ensures
            r == self.aircraft.iter(),
    {
        self.aircraft.iter()
    }

    /// Removes the aircraft that have not been observed within the retention
    /// threshold at `now` (milliseconds): those whose last-seen time plus the
    /// threshold is earlier than `now`.
    pub fn prune_at(&mut self, now: u64)
        ensures
            final(self).aircraft@ == retained(old(self).aircraft@, now as int),
    {
        let ghost old_map = self.aircraft@;
        let mut keys: Vec<u32> = Vec::new();
        for key in iter: self.aircraft.keys()
            invariant
                keys.len() == iter.index(),
                iter.seq() == vstd::std_specs::hash::spec_keys_iter(&self.aircraft).remaining(),
                forall|i: int| 0 <= i < iter.index() ==> keys@[i] == *iter.seq()[i],
        {
            keys.push(*key);
        }
        proof {
            let all = vstd::std_specs::hash::spec_keys_iter(&self.aircraft).remaining();
            assert(keys@ =~= all.unref());
            assert(keys@.to_set() == old_map.dom());
            assert(keys@.no_duplicates()) by {
                assert forall|a: int, b: int| 0 <= a < keys@.len() && 0 <= b < keys@.len() && a != b
                    implies keys@[a] != keys@[b] by {
                    assert(all[a] != all[b]);
                }
            }
        }
        let mut kept: HashMap<u32, AircraftState<P>> = HashMap::new();
        let mut i: usize = 0;
        while i < keys.len()
            invariant
                i <= keys.len(),
                keys@.no_duplicates(),
                keys@.to_set() == old_map.dom(),
                forall|k: u32| #[trigger] old_map.contains_key(k) ==> prune_step(old_map, self.aircraft@, kept@, keys@.take(i as int), now as int, k),
                forall|k: u32| kept@.contains_key(k) ==> old_map.contains_key(k),
                forall|k: u32| self.aircraft@.contains_key(k) ==> old_map.contains_key(k),
            decreases keys.len() - i,
        {
            let key = keys[i];
            let ghost done0 = keys@.take(i as int);
            let ghost cur0 = self.aircraft@;
            let ghost kept0 = kept@;
            proof {
                assert(keys@.take(i + 1) =~= keys@.take(i as int).push(key));
                assert(!keys@.take(i as int).contains(key)) by {
                    if keys@.take(i as int).contains(key) {
                        let j = choose|j: int| 0 <= j < i && keys@.take(i as int)[j] == key;
                        assert(keys@[j] == keys@[i as int]);
                    }
                }
                assert(keys@.to_set().contains(key));
            }
            if let Some(state) = self.aircraft.remove(&key) {
                let last_seen = state.last_seen;
                if now <= last_seen || now - last_seen <= RETAIN_THRESHOLD_MS {
                    kept.insert(key, state);
                }
            }
            i = i + 1;
            proof {
                let done1 = keys@.take(i as int);
                assert(done1 == done0.push(key));
                assert forall|k: u32| #[trigger] old_map.contains_key(k) implies prune_step(
                    old_map,
                    self.aircraft@,
                    kept@,
                    done1,
                    now as int,
                    k,
                ) by {
                    assert(prune_step(old_map, cur0, kept0, done0, now as int, k));
                    if k != key {
                        assert(done1.contains(k) == done0.contains(k)) by {
                            if done1.contains(k) {
                                let j = choose|j: int| 0 <= j < done1.len() && done1[j] == k;
                                assert(done0[j] == k);
                            }
                            if done0.contains(k) {
                                let j = choose|j: int| 0 <= j < done0.len() && done0[j] == k;
                                assert(done1[j] == k);
                            }
                        }
                    } else {
                        assert(done1[done1.len() - 1] == k);
                    }
                }
            }
        }
        proof {
            assert(keys@.take(keys@.len() as int) == keys@);
            assert forall|k: u32| #[trigger] old_map.contains_key(k) implies keys@.contains(k) by {
                assert(keys@.to_set().contains(k));
            }
            assert(kept@ =~= retained(old_map, now as int));
        }
        self.aircraft = kept;
    }

    /// Removes the aircraft that have not been observed within the retention
    /// threshold, as [`AircraftTracker::prune_at`] does at the current time.
    pub fn prune(&mut self)
        ensures
            exists|now: u64| final(self).aircraft@ == #[trigger] retained(old(self).aircraft@, now as int),
    {
        let now = now_millis();
        self.prune_at(now);
    }

    /// Updates the state of the aircraft that sent `msg`, received at `now`
    /// (milliseconds).
    ///
    /// An aircraft not seen before gets a new state; otherwise its state is
    /// updated with the information of the message, as
    /// [`AircraftState::update_at`] says. Fails when the global decoding of
    /// a CPR pair fails; the aircraft's state still records the message.
    pub fn update_at<F>(&mut self, msg: Message, now: u64, decode: F) -> (r: Result<(), AdsbError>)
        where
            F: Fn(&Even, &Odd) -> Result<P, AdsbError>,
        requires
            forall|e: &Even, o: &Odd| decode.requires((e, o)),
        ensures
            ({
                let icao = message_icao(msg);
                exists|after: AircraftState<P>|
                    {
                        &&& final(self).aircraft@ == old(self).aircraft@.insert(icao, after)
                        &&& #[trigger] updated_at(
                            state_before(old(self).aircraft@, icao, now),
                            msg,
                            now,
                            decode,
                            after,
                            r,
                        )
                    }
            }),
    {
        let icao_address = match &msg {
            Message::AircraftIdentification(msg) => msg.icao,
            Message::AirborneVelocity(msg) => msg.icao,
            Message::AirbornePosition(aircraft_altitude, _) => aircraft_altitude.icao,
        };
        let mut state = match self.aircraft.remove(&icao_address) {
            Some(state) => state,
            None => AircraftState::new(now),
        };
        let r = state.update_at(msg, now, decode);
        self.aircraft.insert(icao_address, state);
        r
    }

    /// Updates the state of the aircraft that sent `msg`, received now, as
    /// [`AircraftTracker::update_at`] does at the current time.
    pub fn update<F>(&mut self, msg: Message, decode: F) -> (r: Result<(), AdsbError>)
        where
            F: Fn(&Even, &Odd) -> Result<P, AdsbError>,
        requires
            forall|e: &Even, o: &Odd| decode.requires((e, o)),
        ensures
            exists|now: u64, after: AircraftState<P>|
                {
                    &&& final(self).aircraft@ == old(self).aircraft@.insert(message_icao(msg), after)
                    &&& #[trigger] updated_at(
                        state_before(old(self).aircraft@, message_icao(msg), now),
                        msg,
                        now,
                        decode,
                        after,
                        r,
                    )
                },
    {
        let now = now_millis();
        self.update_at(msg, now, decode)
    }
}

} // verus!
