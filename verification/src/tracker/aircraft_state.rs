//! The state that the messages of one aircraft build up.
use crate::clock::now_millis;
use crate::error::AdsbError;
use crate::message::airborne_position::{AircraftAltitude, Cpr, Even, Odd};
use crate::message::airborne_velocity::AirborneVelocity;
use crate::message::aircraft_identification::AircraftIdentification;
use crate::message::Message;
use vstd::prelude::*;

verus! {

/// The longest time, in milliseconds, between an even and an odd CPR
/// message for them to be decoded together into a global position.
pub const CPR_GLOBAL_DECODE_WINDOW_MS: u64 = 10_000;

/// Whether CPR messages received at `t1` and `t2` (milliseconds) are close
/// enough in time to be decoded together.
pub open spec fn within_decode_window(t1: int, t2: int) -> bool {
    -10_000 <= t1 - t2 <= 10_000
}

/// The currently known state of a single aircraft.
///
/// The state accumulates the different ADS-B messages received from the
/// aircraft; each field stays empty until the corresponding message has been
/// received. The global position has the type `P` of the positions that the
/// CPR decoder handed to [`AircraftState::update`] produces.
#[derive(Debug)]
pub struct AircraftState<P> {
    /// The last identification message.
    pub identification: Option<AircraftIdentification>,
    /// The last airborne velocity message.
    pub velocity: Option<AirborneVelocity>,
    /// The altitude of the last airborne position message.
    pub altitude: Option<AircraftAltitude>,
    /// The CPR fields of the last even airborne position message.
    pub cpr_even: Option<Even>,
    /// The CPR fields of the last odd airborne position message.
    pub cpr_odd: Option<Odd>,
    /// The last global position decoded from an even/odd pair.
    pub airborne_position: Option<P>,
    /// When the aircraft was last observed, in milliseconds.
    pub last_seen: u64,
}

/// The state once the altitude and CPR fields of a position message are
/// recorded, before any global decoding.
pub open spec fn with_position_message<P>(
    s: AircraftState<P>,
    altitude: AircraftAltitude,
    cpr: Cpr,
) -> AircraftState<P> {
    match cpr {
        Cpr::Even(e) => AircraftState { altitude: Some(altitude), cpr_even: Some(e), ..s },
        Cpr::Odd(o) => AircraftState { altitude: Some(altitude), cpr_odd: Some(o), ..s },
    }
}

/// Whether the state holds an even and an odd CPR message close enough in
/// time to be decoded together.
pub open spec fn cpr_pair_ready<P>(s: AircraftState<P>) -> bool {
    &&& s.cpr_even is Some
    &&& s.cpr_odd is Some
    &&& within_decode_window(s.cpr_even->0@.time, s.cpr_odd->0@.time)
}

/// Whether `after` and `r` are what applying the message `msg` at `now` to the
/// state `before` gives, when the CPR decoder answers `decoded` for a ready
/// pair (and is not asked otherwise).
pub open spec fn applies_message<P>(
    before: AircraftState<P>,
    msg: Message,
    now: u64,
    decoded: Result<P, AdsbError>,
    after: AircraftState<P>,
    r: Result<(), AdsbError>,
) -> bool {
    match msg {
        Message::AircraftIdentification(id) => r is Ok && after == AircraftState {
            identification: Some(id),
            last_seen: now,
            ..before
        },
        Message::AirborneVelocity(v) => r is Ok && after == AircraftState {
            velocity: Some(v),
            last_seen: now,
            ..before
        },
        Message::AirbornePosition(altitude, cpr) => {
            let s = with_position_message(before, altitude, cpr);
            if cpr_pair_ready(s) {
                match decoded {
                    Ok(p) => r is Ok && after == AircraftState {
                        airborne_position: Some(p),
                        last_seen: now,
                        ..s
                    },
                    Err(e) => r == Err::<(), AdsbError>(e) && after == AircraftState {
                        last_seen: now,
                        ..s
                    },
                }
            } else {
                r is Ok && after == AircraftState { last_seen: now, ..s }
            }
        },
    }
}

/// The state before any global decoding once `msg` is applied to `before`.
pub open spec fn recorded<P>(before: AircraftState<P>, msg: Message) -> AircraftState<P> {
    match msg {
        Message::AirbornePosition(altitude, cpr) => with_position_message(before, altitude, cpr),
        _ => before,
    }
}

/// Whether `after` and `r` are what applying the message `msg` at `now` to the
/// state `before` gives, for some answer of `decode` to the CPR pair that it is
/// asked to decode.
pub open spec fn updated_at<P, F: Fn(&Even, &Odd) -> Result<P, AdsbError>>(
    before: AircraftState<P>,
    msg: Message,
    now: u64,
    decode: F,
    after: AircraftState<P>,
    r: Result<(), AdsbError>,
) -> bool {
    let s = recorded(before, msg);
    exists|decoded: Result<P, AdsbError>|
        {
            &&& (msg is AirbornePosition && cpr_pair_ready(s)) ==> decode.ensures(
                (&s.cpr_even->0, &s.cpr_odd->0),
                decoded,
            )
            &&& #[trigger] applies_message(before, msg, now, decoded, after, r)
        }
}

/// A global position is replaced only by a position message that completes
/// an even/odd pair at most 10 s apart.
pub proof fn lemma_position_needs_recent_pair<P>(
    before: AircraftState<P>,
    msg: Message,
    now: u64,
    decoded: Result<P, AdsbError>,
    after: AircraftState<P>,
    r: Result<(), AdsbError>,
)
    requires
        applies_message(before, msg, now, decoded, after, r),
        after.airborne_position != before.airborne_position,
    ensures
        msg is AirbornePosition,
        cpr_pair_ready(after),
        r is Ok,
{
}

/// The decoding window is symmetric: two CPR messages are close enough in
/// time exactly when they are at most 10 s apart, whichever came first.
pub proof fn lemma_decode_window_symmetric(t1: int, t2: int)
    ensures
        within_decode_window(t1, t2) == within_decode_window(t2, t1),
        within_decode_window(t1, t2) <==> t1 - t2 <= 10_000 && t2 - t1 <= 10_000,
{
}

/// A position message that leaves the state with an even and an odd CPR
/// message more than 10 s apart, in either order, decodes nothing: the
/// position stays as it was and the update succeeds. One that leaves a pair
/// at most 10 s apart takes the position that the decoder gives for it, or
/// fails with the decoder's error.
pub proof fn lemma_position_window<P>(
    before: AircraftState<P>,
    altitude: AircraftAltitude,
    cpr: Cpr,
    now: u64,
    decoded: Result<P, AdsbError>,
    after: AircraftState<P>,
    r: Result<(), AdsbError>,
)
    requires
        applies_message(before, Message::AirbornePosition(altitude, cpr), now, decoded, after, r),
    ensures
        after.cpr_even is Some && after.cpr_odd is Some && (after.cpr_even->0@.time
            - after.cpr_odd->0@.time > 10_000 || after.cpr_odd->0@.time - after.cpr_even->0@.time
            > 10_000) ==> r is Ok && after.airborne_position == before.airborne_position,
        after.cpr_even is Some && after.cpr_odd is Some && after.cpr_even->0@.time
            - after.cpr_odd->0@.time <= 10_000 && after.cpr_odd->0@.time - after.cpr_even->0@.time
            <= 10_000 ==> match decoded {
            Ok(p) => r is Ok && after.airborne_position == Some(p),
            Err(e) => r == Err::<(), AdsbError>(e) && after.airborne_position
                == before.airborne_position,
        },
        after.cpr_even is None || after.cpr_odd is None ==> r is Ok && after.airborne_position
            == before.airborne_position,
        after.altitude == Some(altitude),
        cpr matches Cpr::Even(e) ==> after.cpr_even == Some(e) && after.cpr_odd == before.cpr_odd,
        cpr matches Cpr::Odd(o) ==> after.cpr_odd == Some(o) && after.cpr_even == before.cpr_even,
        after.identification == before.identification,
        after.velocity == before.velocity,
        after.last_seen == now,
{
}

/// An identification message replaces the identification, and a velocity
/// message the velocity; nothing else changes but the last-seen time.
pub proof fn lemma_message_replaces_its_field<P>(
    before: AircraftState<P>,
    msg: Message,
    now: u64,
    decoded: Result<P, AdsbError>,
    after: AircraftState<P>,
    r: Result<(), AdsbError>,
)
    requires
        applies_message(before, msg, now, decoded, after, r),
    ensures
        msg matches Message::AircraftIdentification(id) ==> after.identification == Some(id)
            && after.velocity == before.velocity,
        msg matches Message::AirborneVelocity(v) ==> after.velocity == Some(v)
            && after.identification == before.identification,
{
}

/// Identification and velocity messages leave the altitude, the CPR fields
/// and the position as they were.
pub proof fn lemma_other_messages_keep_position<P>(
    before: AircraftState<P>,
    msg: Message,
    now: u64,
    decoded: Result<P, AdsbError>,
    after: AircraftState<P>,
    r: Result<(), AdsbError>,
)
    requires
        applies_message(before, msg, now, decoded, after, r),
        !(msg is AirbornePosition),
    ensures
        r is Ok,
        after.altitude == before.altitude,
        after.cpr_even == before.cpr_even,
        after.cpr_odd == before.cpr_odd,
        after.airborne_position == before.airborne_position,
        after.last_seen == now,
{
}

/// Receiving a message marks the aircraft as seen at the time of the
/// message, also when the global decoding of a CPR pair fails.
pub proof fn lemma_update_refreshes_last_seen<P>(
    before: AircraftState<P>,
    msg: Message,
    now: u64,
    decoded: Result<P, AdsbError>,
    after: AircraftState<P>,
    r: Result<(), AdsbError>,
)
    requires
        applies_message(before, msg, now, decoded, after, r),
    ensures
        after.last_seen == now,
{
}

impl<P> AircraftState<P> {
    /// A state with nothing known yet, seen at `now` (milliseconds).
    pub fn new(now: u64) -> (r: Self)
        ensures
            r == (AircraftState::<P> {
                identification: None,
                velocity: None,
                altitude: None,
                cpr_even: None,
                cpr_odd: None,
                airborne_position: None,
                last_seen: now,
            }),
    {
        AircraftState {
            identification: None,
            velocity: None,
            altitude: None,
            cpr_even: None,
            cpr_odd: None,
            airborne_position: None,
            last_seen: now,
        }
    }

    /// When the aircraft was last observed, in milliseconds.
    pub fn last_seen(&self) -> (r: u64)
        ensures
            r == self.last_seen,
    {
        self.last_seen
    }

    /// The last global position decoded for the aircraft.
    pub fn position(&self) -> (r: Option<&P>)
        ensures
            r == match self.airborne_position {
                Some(p) => Some(&p),
                None => None::<&P>,
            },
    {
        match &self.airborne_position {
            Some(p) => Some(p),
            None => None,
        }
    }

    /// Applies a message received at `now` (milliseconds) to the state.
    ///
    /// An identification or velocity message replaces the last one. A
    /// position message records its altitude and its CPR fields; when the
    /// state then holds an even and an odd message at most 10 s apart,
    /// `decode` turns the pair into a global position, which replaces the
    /// last one. Receiving a message refreshes the last-seen time. When the
    /// decoding fails, its error is returned, with the altitude and CPR
    /// fields recorded and the last-seen time refreshed.
    pub fn update_at<F>(&mut self, msg: Message, now: u64, decode: F) -> (r: Result<(), AdsbError>)
        where
            F: Fn(&Even, &Odd) -> Result<P, AdsbError>,
        requires
            forall|e: &Even, o: &Odd| decode.requires((e, o)),
        ensures
            updated_at(*old(self), msg, now, decode, *final(self), r),
    {
        let ghost before = *self;
        let ghost m = msg;
        let ghost not_asked: Result<P, AdsbError> = Err(AdsbError::MismatchedLatitude);
        match msg {
            Message::AircraftIdentification(aircraft_identification) => {
                self.identification = Some(aircraft_identification);
            },
            Message::AirborneVelocity(airborne_velocity) => {
                self.velocity = Some(airborne_velocity);
            },
            Message::AirbornePosition(aircraft_altitude, cpr) => {
                self.altitude = Some(aircraft_altitude);
                match cpr {
                    Cpr::Even(cpr_even) => self.cpr_even = Some(cpr_even),
                    Cpr::Odd(cpr_odd) => self.cpr_odd = Some(cpr_odd),
                }
                assert(*self == recorded(before, m));
                if let (Some(cpr_even), Some(cpr_odd)) = (&self.cpr_even, &self.cpr_odd) {
                    let time_even = cpr_even.time();
                    let time_odd = cpr_odd.time();
                    let time_delta = if time_even >= time_odd {
                        time_even - time_odd
                    } else {
                        time_odd - time_even
                    };
                    if time_delta <= CPR_GLOBAL_DECODE_WINDOW_MS {
                        let decoded = decode(cpr_even, cpr_odd);
                        match decoded {
                            Ok(position) => {
                                self.airborne_position = Some(position);
                                self.last_seen = now;
                                assert(applies_message(before, m, now, decoded, *self, Ok(())));
                                return Ok(());
                            },
                            Err(e) => {
                                self.last_seen = now;
                                assert(applies_message(before, m, now, decoded, *self, Err(e)));
                                return Err(e);
                            },
                        }
                    }
                }
            },
        }
        self.last_seen = now;
        assert(applies_message(before, m, now, not_asked, *self, Ok(())));
        Ok(())
    }

    /// Applies a message received now to the state, as
    /// [`AircraftState::update_at`] does with the current time.
    pub fn update<F>(&mut self, msg: Message, decode: F) -> (r: Result<(), AdsbError>)
        where
            F: Fn(&Even, &Odd) -> Result<P, AdsbError>,
        requires
            forall|e: &Even, o: &Odd| decode.requires((e, o)),
        ensures
            exists|now: u64| #[trigger] updated_at(*old(self), msg, now, decode, *final(self), r),
    {
        let now = now_millis();
        self.update_at(msg, now, decode)
    }
}

impl<P> Default for AircraftState<P> {
    /// A state with nothing known yet, seen now.
    fn default() -> (r: Self)
        ensures
            r.identification is None,
            r.velocity is None,
            r.altitude is None,
            r.cpr_even is None,
            r.cpr_odd is None,
            r.airborne_position is None,
    {
        Self::new(now_millis())
    }
}

} // verus!
