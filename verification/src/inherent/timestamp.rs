//! A deterministic clock for block building.
//!
//! Each instance of the clock starts at a fixed point in time and advances by a
//! fixed step every time it provides timestamp inherent data. All instances live
//! in an [`Instances`] registry that hands out fresh identifiers.

use crate::inherent::data::{
    encode_u64, get_u64, inherent_entries, put_timestamp, timestamp_identifier,
    timestamp_identifier_spec,
};
use std::collections::BTreeMap;
use vstd::prelude::*;

verus! {

/// Identifier of one clock instance inside an [`Instances`] registry.
#[derive(Copy, Clone, Ord, PartialOrd, PartialEq, Eq, Debug, Structural)]
pub struct InstanceId(pub u64);

/// Number of steps a clock instance has advanced.
pub type Ticks = u128;

/// Errors of the clock registry.
#[derive(Debug)]
pub enum Error {
    /// The lock guarding the registry was poisoned.
    InstancesLockPoisoned(String),
    /// The system clock could not be read.
    CurrentTimeRetrieval(String),
    /// No instance with this identifier is registered.
    InstanceNotFound(InstanceId),
}

/// The state of a clock instance as plain values: the start and the step in
/// milliseconds and the number of steps taken.
pub struct ClockState {
    pub instance: u64,
    pub start: u128,
    pub delta: u128,
    pub ticks: u128,
}

/// A clock instance: it reads `start + delta * ticks` milliseconds.
#[derive(Copy, Clone)]
pub struct CurrTimeProvider {
    instance_id: InstanceId,
    start: u128,
    delta: u128,
    ticks: Ticks,
}

impl View for CurrTimeProvider {
    type V = ClockState;

    closed spec fn view(&self) -> ClockState {
        ClockState {
            instance: self.instance_id.0,
            start: self.start,
            delta: self.delta,
            ticks: self.ticks,
        }
    }
}

/// `x` clamped to the largest `u128`.
pub open spec fn saturate_u128(x: int) -> u128 {
    if x > u128::MAX { u128::MAX } else { x as u128 }
}

/// `x` clamped to the largest `u64`.
pub open spec fn saturate_u64(x: int) -> u64 {
    if x > u64::MAX { u64::MAX } else { x as u64 }
}

/// The time in milliseconds that a clock with the given start, step and number
/// of steps reads: `start + delta * ticks`, each operation saturating in `u128`,
/// and the result saturated into `u64`.
pub open spec fn clock_reading(start: u128, delta: u128, ticks: u128) -> u64 {
    saturate_u64(saturate_u128(start + saturate_u128(delta * ticks)) as int)
}

/// A fresh clock state: `ticks` is zero.
pub open spec fn fresh_clock(instance: u64, start: u128, delta: u128) -> ClockState {
    ClockState { instance, start, delta, ticks: 0 }
}

/// `c` advanced by one tick.
pub open spec fn ticked(c: ClockState) -> ClockState {
    ClockState { ticks: (c.ticks + 1) as u128, ..c }
}

/// The errors that the timestamp inherent reports when a block is checked.
#[derive(Copy, Clone, PartialEq, Eq, Debug, Structural)]
pub enum TimestampInherentError {
    /// The time since the last timestamp is lower than the minimum period.
    TooEarly,
    /// The timestamp of the block is too far in the future.
    TooFarInFuture,
}

/// What `sp_timestamp::InherentError::try_from` gives for an identifier and
/// encoded bytes: the error whose SCALE variant index is the first byte, for the
/// timestamp identifier only.
pub open spec fn decoded_timestamp_error(identifier: Seq<u8>, data: Seq<u8>) -> Option<
    TimestampInherentError,
> {
    if identifier != timestamp_identifier_spec() || data.len() == 0 {
        None
    } else if data[0] == 0 {
        Some(TimestampInherentError::TooEarly)
    } else if data[0] == 1 {
        Some(TimestampInherentError::TooFarInFuture)
    } else {
        None
    }
}

/// Wraps `sp_timestamp::InherentError::try_from`, which decodes the error only
/// for the timestamp identifier, reading its SCALE variant index from the first
/// byte (`0` is `TooEarly`, `1` is `TooFarInFuture`, anything else fails).
#[verifier::external_body]
fn decode_timestamp_error(identifier: [u8; 8], data: &[u8]) -> (r: Option<TimestampInherentError>)
    ensures
        r == decoded_timestamp_error(identifier@, data@),
{
    match sp_timestamp::InherentError::try_from(&identifier, data) {
        Some(sp_timestamp::InherentError::TooEarly) => Some(TimestampInherentError::TooEarly),
        Some(sp_timestamp::InherentError::TooFarInFuture) => Some(
            TimestampInherentError::TooFarInFuture,
        ),
        None => None,
    }
}

/// Why providing timestamp inherent data failed.
#[derive(Debug)]
pub enum ProvideError {
    /// The inherent data already held a timestamp.
    InherentData(String),
    /// The clock instance could not be advanced.
    Clock(Error),
}

/// The registry of all clock instances and the counter that names the next one.
pub struct Instances {
    instances: BTreeMap<u64, CurrTimeProvider>,
    counter: u64,
}

impl Instances {
    /// The clocks of the registry, by identifier.
    pub closed spec fn clocks(&self) -> Map<u64, ClockState> {
        self.instances@.map_values(|p: CurrTimeProvider| p@)
    }

    /// The identifier that the next created instance receives.
    pub closed spec fn next_id(&self) -> u64 {
        self.counter
    }

    /// Every clock is stored under its own identifier.
    pub open spec fn filed_under_own_ids(&self) -> bool {
        forall|k: u64| #[trigger] self.clocks().contains_key(k) ==> self.clocks()[k].instance == k
    }

    /// Every stored identifier is below the one the next created instance
    /// receives, so that identifier is fresh.
    pub open spec fn ids_below_next(&self) -> bool {
        forall|k: u64| #[trigger] self.clocks().contains_key(k) ==> k < self.next_id()
    }

    /// The type invariant, as seen through `clocks`.
    proof fn lemma_filed(&self)
        requires
            self.keys_match(),
        ensures
            self.filed_under_own_ids(),
    {
    }

    /// Every clock is filed under its own identifier.
    #[verifier::type_invariant]
    closed spec fn keys_match(&self) -> bool {
        forall|k: u64| #[trigger] self.instances@.contains_key(k) ==> self.instances@[k].instance_id.0 == k
    }

    /// An empty registry whose first instance gets identifier `0`.
    pub fn new() -> (r: Self)
        ensures
            r.clocks() == Map::<u64, ClockState>::empty(),
            r.next_id() == 0,
            r.filed_under_own_ids(),
            r.ids_below_next(),
    {
        let r = Instances { instances: BTreeMap::new(), counter: 0 };
        assert(r.clocks() =~= Map::<u64, ClockState>::empty());
        r
    }

    /// Files `p` under its own identifier, replacing any clock filed there.
    fn file_clock(&mut self, p: CurrTimeProvider)
        ensures
            final(self).clocks() == old(self).clocks().insert(p.instance_id.0, p@),
            final(self).next_id() == old(self).next_id(),
    {
        proof { use_type_invariant(&*self); }
        let mut m: BTreeMap<u64, CurrTimeProvider> = BTreeMap::new();
        std::mem::swap(&mut m, &mut self.instances);
        let ghost old_map = m@;
        m.insert(p.instance_id.0, p);
        proof { Instances::lemma_clocks_insert(old_map, p.instance_id.0, p); }
        self.instances = m;
    }

    proof fn lemma_clocks_insert(old_map: Map<u64, CurrTimeProvider>, k: u64, p: CurrTimeProvider)
        ensures
            old_map.insert(k, p).map_values(|q: CurrTimeProvider| q@)
                =~= old_map.map_values(|q: CurrTimeProvider| q@).insert(k, p@),
    {
    }
}

#[verifier::external_type_specification]
#[verifier::external_body]
pub struct ExSystemTime(std::time::SystemTime);

/// Reads the system clock.
/// Wraps `std::time::SystemTime::now`; nothing is claimed of the time read,
/// which depends on the machine's clock.
#[verifier::external_body]
fn system_now() -> (r: std::time::SystemTime) {
    std::time::SystemTime::now()
}

/// The time elapsed from the UNIX epoch to `t`, or the error's message when
/// `t` lies before the epoch.
/// Wraps `std::time::SystemTime::duration_since`; nothing is claimed of the
/// result, since `t` is opaque here.
#[verifier::external_body]
fn duration_since_unix_epoch(t: std::time::SystemTime) -> (r: Result<std::time::Duration, String>) {
    match t.duration_since(std::time::UNIX_EPOCH) {
        Ok(d) => Ok(d),
        Err(e) => Err(e.to_string()),
    }
}

/// Wraps `std::time::Duration::as_millis`. The duration is opaque here, so
/// nothing is claimed of the number returned.
#[verifier::external_body]
fn duration_as_millis(d: std::time::Duration) -> (r: u128) {
    d.as_millis()
}

/// The given start, or the current system time in milliseconds when none is given.
fn start_or_now(start: Option<u128>) -> (r: Result<u128, Error>)
    ensures
        start is Some ==> r == Ok::<u128, Error>(start->0),
        r is Err ==> start is None && r->Err_0 is CurrentTimeRetrieval,
{
    match start {
        Some(s) => Ok(s),
        None => match duration_since_unix_epoch(system_now()) {
            Ok(d) => Ok(duration_as_millis(d)),
            Err(e) => Err(Error::CurrentTimeRetrieval(e)),
        },
    }
}

impl CurrTimeProvider {
    /// Resets an existing instance: it starts again at `start` (or at the
    /// current system time) with step `delta` and zero ticks. The instance must
    /// already exist; otherwise `InstanceNotFound` is returned.
    pub fn force_new(
        instances: &mut Instances,
        instance_id: InstanceId,
        delta: u128,
        start: Option<u128>,
    ) -> (r: Result<(), Error>)
        ensures
            final(instances).next_id() == old(instances).next_id(),
            start is Some ==> (r is Ok <==> old(instances).clocks().contains_key(instance_id.0)),
            r is Ok ==> {
                &&& old(instances).clocks().contains_key(instance_id.0)
                &&& exists|s: u128| {
                    &&& (start is Some ==> s == start->0)
                    &&& final(instances).clocks() == old(instances).clocks().insert(
                        instance_id.0,
                        fresh_clock(instance_id.0, s, delta),
                    )
                }
            },
            r is Err ==> final(instances).clocks() == old(instances).clocks(),
            r matches Err(Error::InstanceNotFound(id)) ==> id == instance_id
                && !old(instances).clocks().contains_key(instance_id.0),
            r matches Err(e) ==> (e is InstanceNotFound || (e is CurrentTimeRetrieval && start is None)),
            final(instances).filed_under_own_ids(),
            old(instances).ids_below_next() ==> final(instances).ids_below_next(),
    {
        proof { use_type_invariant(&*instances); instances.lemma_filed(); }
        let s = match start_or_now(start) {
            Ok(s) => s,
            Err(e) => return Err(e),
        };
        if instances.instances.contains_key(&instance_id.0) {
            let p = CurrTimeProvider { instance_id, start: s, delta, ticks: 0 };
            instances.file_clock(p);
            proof { use_type_invariant(&*instances); instances.lemma_filed(); }
            assert(p@ == fresh_clock(instance_id.0, s, delta));
            assert(old(instances).clocks().contains_key(instance_id.0));
            assert(forall|k: u64| #[trigger] instances.clocks().contains_key(k) ==> old(
                instances,
            ).clocks().contains_key(k));
            Ok(())
        } else {
            Err(Error::InstanceNotFound(instance_id))
        }
    }

    /// Registers a new instance that starts at `start` (or at the current
    /// system time) and advances by `delta` milliseconds per tick. The
    /// identifier is taken from the registry's counter, which advances by one
    /// (wrapping) whether or not the clock could be read.
    pub fn create_instance(instances: &mut Instances, delta: u128, start: Option<u128>) -> (r: Result<
        InstanceId,
        Error,
    >)
        ensures
            final(instances).next_id() == (if old(instances).next_id() == u64::MAX {
                0
            } else {
                (old(instances).next_id() + 1) as u64
            }),
            start is Some ==> r is Ok,
            r matches Ok(id) ==> {
                &&& id.0 == old(instances).next_id()
                &&& exists|s: u128| {
                    &&& (start is Some ==> s == start->0)
                    &&& final(instances).clocks() == old(instances).clocks().insert(
                        id.0,
                        fresh_clock(id.0, s, delta),
                    )
                }
            },
            r matches Err(e) ==> e is CurrentTimeRetrieval && start is None
                && final(instances).clocks() == old(instances).clocks(),
            old(instances).ids_below_next() ==> (r matches Ok(id) ==> !old(instances).clocks().contains_key(
                id.0,
            )),
            old(instances).ids_below_next() && old(instances).next_id() < u64::MAX
                ==> final(instances).ids_below_next(),
            final(instances).filed_under_own_ids(),
    {
        proof { use_type_invariant(&*instances); instances.lemma_filed(); }
        let id = instances.counter;
        instances.counter = id.wrapping_add(1);
        proof { use_type_invariant(&*instances); instances.lemma_filed(); }
        let instance_id = InstanceId(id);
        let s = match start_or_now(start) {
            Ok(s) => s,
            Err(e) => return Err(e),
        };
        let p = CurrTimeProvider { instance_id, start: s, delta, ticks: 0 };
        instances.file_clock(p);
        proof { use_type_invariant(&*instances); instances.lemma_filed(); }
        assert(p@ == fresh_clock(id, s, delta));
        Ok(instance_id)
    }

    /// A copy of the registered instance with the given identifier.
    pub fn get_instance(instances: &Instances, instance_id: InstanceId) -> (r: Result<Self, Error>)
        ensures
            r is Ok <==> instances.clocks().contains_key(instance_id.0),
            r matches Ok(p) ==> p@ == instances.clocks()[instance_id.0] && p@.instance == instance_id.0,
            r matches Err(e) ==> e == Error::InstanceNotFound(instance_id),
            instances.filed_under_own_ids(),
    {
        proof { use_type_invariant(instances); instances.lemma_filed(); }
        match instances.instances.get(&instance_id.0) {
            Some(p) => Ok(*p),
            None => Err(Error::InstanceNotFound(instance_id)),
        }
    }

    /// Advances the registered instance with this clock's identifier by one
    /// tick. Only that instance changes.
    pub fn update_time(&self, instances: &mut Instances) -> (r: Result<(), Error>)
        requires
            old(instances).clocks().contains_key(self@.instance) ==> old(instances).clocks()[self@.instance].ticks < u128::MAX,
        ensures
            final(instances).next_id() == old(instances).next_id(),
            r is Ok <==> old(instances).clocks().contains_key(self@.instance),
            r is Ok ==> final(instances).clocks() == old(instances).clocks().insert(
                self@.instance,
                ticked(old(instances).clocks()[self@.instance]),
            ),
            r is Err ==> final(instances).clocks() == old(instances).clocks(),
            r matches Err(e) ==> e == Error::InstanceNotFound(InstanceId(self@.instance)),
            final(instances).filed_under_own_ids(),
            old(instances).ids_below_next() ==> final(instances).ids_below_next(),
    {
        proof { use_type_invariant(&*instances); instances.lemma_filed(); }
        let key = self.instance_id.0;
        match instances.instances.get(&key) {
            Some(p) => {
                let q = CurrTimeProvider { ticks: p.ticks + 1, ..*p };
                instances.file_clock(q);
                proof { use_type_invariant(&*instances); instances.lemma_filed(); }
                Ok(())
            },
            None => Err(Error::InstanceNotFound(self.instance_id)),
        }
    }

    /// The identifier this clock is registered under.
    pub fn instance_id(&self) -> (r: InstanceId)
        ensures
            r.0 == self@.instance,
    {
        self.instance_id
    }

    /// The number of steps this clock has taken.
    pub fn ticks(&self) -> (r: Ticks)
        ensures
            r == self@.ticks,
    {
        self.ticks
    }

    /// The time this clock reads, in milliseconds since the UNIX epoch.
    pub fn current_time(&self) -> (r: u64)
        ensures
            r == clock_reading(self@.start, self@.delta, self@.ticks),
    {
        let delta: u128 = match self.delta.checked_mul(self.ticks) {
            Some(d) => d,
            None => u128::MAX,
        };
        let timestamp: u128 = self.start.saturating_add(delta);
        if timestamp > u64::MAX as u128 {
            u64::MAX
        } else {
            timestamp as u64
        }
    }

    /// Files this clock's reading as the timestamp inherent, then advances the
    /// registered instance by one tick. When a timestamp is already filed,
    /// nothing changes.
    pub fn provide_inherent_data(
        &self,
        instances: &mut Instances,
        inherent_data: &mut sp_inherents::InherentData,
    ) -> (r: Result<(), ProvideError>)
        requires
            old(instances).clocks().contains_key(self@.instance) ==> old(instances).clocks()[self@.instance].ticks < u128::MAX,
        ensures
            final(instances).next_id() == old(instances).next_id(),
            r is Ok <==> !inherent_entries(*old(inherent_data)).contains_key(timestamp_identifier_spec())
                && old(instances).clocks().contains_key(self@.instance),
            r matches Err(ProvideError::InherentData(_)) <==> inherent_entries(*old(inherent_data)).contains_key(
                timestamp_identifier_spec(),
            ),
            r matches Err(ProvideError::InherentData(_)) ==> inherent_entries(*final(inherent_data))
                == inherent_entries(*old(inherent_data)),
            r matches Err(ProvideError::Clock(e)) ==> e == Error::InstanceNotFound(InstanceId(self@.instance)),
            !(r matches Err(ProvideError::InherentData(_))) ==> inherent_entries(*final(inherent_data))
                == inherent_entries(*old(inherent_data)).insert(
                timestamp_identifier_spec(),
                encode_u64(clock_reading(self@.start, self@.delta, self@.ticks)),
            ),
            r is Ok ==> final(instances).clocks() == old(instances).clocks().insert(
                self@.instance,
                ticked(old(instances).clocks()[self@.instance]),
            ),
            r is Err ==> final(instances).clocks() == old(instances).clocks(),
            final(instances).filed_under_own_ids(),
            old(instances).ids_below_next() ==> final(instances).ids_below_next(),
    {
        proof { use_type_invariant(&*instances); instances.lemma_filed(); }
        let id = timestamp_identifier();
        match put_timestamp(inherent_data, id, self.current_time()) {
            Ok(()) => {},
            Err(e) => return Err(ProvideError::InherentData(e)),
        }
        match self.update_time(instances) {
            Ok(()) => Ok(()),
            Err(e) => Err(ProvideError::Clock(e)),
        }
    }

    /// Handles an error reported for an inherent: `None` for other inherents
    /// and for bytes that do not decode as a timestamp error, otherwise the
    /// decoded error.
    pub fn try_handle_error(&self, identifier: &[u8; 8], error: &[u8]) -> (r: Option<
        Result<(), TimestampInherentError>,
    >)
        ensures
            r == (match decoded_timestamp_error(identifier@, error@) {
                Some(e) => Some(Err::<(), TimestampInherentError>(e)),
                None => None::<Result<(), TimestampInherentError>>,
            }),
    {
        let id = timestamp_identifier();
        if !arrays_equal(identifier, &id) {
            return None;
        }
        match decode_timestamp_error(*identifier, error) {
            Some(e) => Some(Err(e)),
            None => None,
        }
    }
}

/// A clock that has taken `ticks` steps reads its start plus `ticks` times its
/// step, as long as that sum fits in a `u64`.
pub proof fn lemma_reading_after_ticks(start: u128, delta: u128, ticks: u128)
    requires
        start + delta * ticks <= u64::MAX,
    ensures
        clock_reading(start, delta, ticks) == start + delta * ticks,
{
    assert(0 <= delta * ticks) by (nonlinear_arith);
}

/// One more tick moves the reading forward by exactly one step, as long as the
/// later reading fits in a `u64`.
pub proof fn lemma_tick_advances_by_delta(start: u128, delta: u128, ticks: u128)
    requires
        ticks < u128::MAX,
        start + delta * (ticks + 1) <= u64::MAX,
    ensures
        clock_reading(start, delta, (ticks + 1) as u128) == clock_reading(start, delta, ticks) + delta,
{
    assert(delta * (ticks + 1) == delta * ticks + delta) by (nonlinear_arith);
    assert(0 <= delta * ticks) by (nonlinear_arith);
    lemma_reading_after_ticks(start, delta, (ticks + 1) as u128);
    lemma_reading_after_ticks(start, delta, ticks);
}

/// Creating a clock under a fresh identifier keeps every earlier clock as it
/// was, and the new clock reads its start (saturated into a `u64`).
pub proof fn lemma_creation_keeps_earlier_clocks(clocks: Map<u64, ClockState>, id: u64, start: u128, delta: u128)
    requires
        !clocks.contains_key(id),
    ensures
        forall|k: u64| #[trigger] clocks.contains_key(k) ==> clocks.insert(id, fresh_clock(id, start, delta)).contains_key(k)
            && clocks.insert(id, fresh_clock(id, start, delta))[k] == clocks[k] && k != id,
        clock_reading(start, delta, 0) == saturate_u64(start as int),
{
    assert(delta * 0 == 0) by (nonlinear_arith);
}

/// Ticking the clock stored under `a` advances its tick count by one and
/// leaves the clock under every other identifier as it was.
pub proof fn lemma_tick_leaves_other_clocks(clocks: Map<u64, ClockState>, a: u64, b: u64)
    requires
        clocks.contains_key(a),
        clocks.contains_key(b),
        a != b,
        clocks[a].ticks < u128::MAX,
    ensures
        clocks.insert(a, ticked(clocks[a]))[a].ticks == clocks[a].ticks + 1,
        clocks.insert(a, ticked(clocks[a]))[b] == clocks[b],
{
}

/// Readings never go backwards as a clock ticks.
pub proof fn lemma_reading_monotonic(start: u128, delta: u128, t1: u128, t2: u128)
    requires
        t1 <= t2,
    ensures
        clock_reading(start, delta, t1) <= clock_reading(start, delta, t2),
{
    assert(delta * t1 <= delta * t2) by (nonlinear_arith)
        requires
            t1 <= t2,
    ;
}

/// Whether two identifiers are equal.
fn arrays_equal(a: &[u8; 8], b: &[u8; 8]) -> (r: bool)
    ensures
        r == (a@ == b@),
{
    let mut i: usize = 0;
    while i < 8
        invariant
            i <= 8,
            forall|j: int| 0 <= j < i ==> a@[j] == b@[j],
        decreases 8 - i,
    {
        if a[i] != b[i] {
            return false;
        }
        i = i + 1;
    }
    assert(a@ =~= b@);
    true
}

} // verus!
