//! Link-session decision logic: the subscription loop's step function, the
//! bounded-retry disconnect machine, characteristic resolution, and the
//! serialization of operator commands into link writes. The blocking waits
//! themselves (awaiting a notification, polling connectivity, sleeping
//! between retries) happen outside this core; each outcome is handed back in
//! as an event and the next step is decided here.

use vstd::prelude::*;

use crate::climate_data::ClimateData;
use crate::clock::now_millis;
use crate::config::ProtocolConfig;
use crate::decode::{decode_climate, spec_decode_climate, DecodeError};
use crate::history::{captured, History};
use crate::reaction::{run_reactions, spec_triggered, ReactionAction, ReactionRule};

verus! {

/// Seconds a single wait (next notification, connectivity poll, disconnect)
/// is allowed to take.
pub const WAIT_TIMEOUT_SECS: u64 = 10;

/// How many times a failed disconnect is retried before being abandoned.
pub const DISCONNECT_ATTEMPTS: u8 = 4;

/// Milliseconds between two disconnect attempts.
pub const DISCONNECT_INTERVAL_MILLIS: u64 = 500;

/// The error taxonomy of the session core. Decode failures are not here:
/// they never terminate a session and are reported through
/// `SubscribeStep::SkipBadPayload` instead.
#[derive(Debug, Clone, Copy, PartialEq, Eq, Structural)]
pub enum SessionError {
    /// No wireless adapter is present; fatal.
    AdapterUnavailable,
    /// Discovery exhausted every candidate; the caller restarts discovery.
    NoDeviceFound,
    /// The connected candidate lacks the required characteristic; the
    /// candidate is abandoned.
    CharacteristicNotFound,
    /// The active subscription cannot go on; the caller reconnects from
    /// scratch.
    ConnectionLost,
    /// A write issued on behalf of an operator command failed.
    WriteFailed,
}

/// One capability a characteristic is required to have.
#[derive(Debug, Clone, Copy, PartialEq, Eq, Structural)]
pub enum CapRequirement {
    Read,
    Notify,
    Write,
}

/// What the core reads of a discovered characteristic: its protocol UUID and
/// capability flags.
#[derive(Debug, Clone, Copy, PartialEq, Eq, Structural)]
pub struct CharacteristicInfo {
    pub uuid: u128,
    pub readable: bool,
    pub notifiable: bool,
    pub writable: bool,
}

/// Whether a characteristic carries the required capability.
pub open spec fn spec_cap_satisfied(c: CharacteristicInfo, req: CapRequirement) -> bool {
    match req {
        CapRequirement::Read => c.readable,
        CapRequirement::Notify => c.notifiable,
        CapRequirement::Write => c.writable,
    }
}

/// Whether a characteristic is the one a caller asked for.
pub open spec fn spec_char_matches(c: CharacteristicInfo, uuid: u128, req: CapRequirement) -> bool {
    c.uuid == uuid && spec_cap_satisfied(c, req)
}

/// Resolves a characteristic by UUID and required capability: the first
/// match wins; with no match the candidate is reported as lacking the
/// characteristic.
pub fn try_find_characteristic(
    characteristics: &[CharacteristicInfo],
    uuid: u128,
    req: CapRequirement,
) -> (r: Result<usize, SessionError>)
    ensures
        match r {
            Ok(idx) => {
                &&& idx < characteristics@.len()
                &&& spec_char_matches(characteristics@[idx as int], uuid, req)
                &&& forall|k: int|
                    0 <= k < idx ==> !spec_char_matches(#[trigger] characteristics@[k], uuid, req)
            },
            Err(e) => {
                &&& e == SessionError::CharacteristicNotFound
                &&& forall|k: int|
                    0 <= k < characteristics@.len() ==> !spec_char_matches(
                        #[trigger] characteristics@[k],
                        uuid,
                        req,
                    )
            },
        },
{
    let mut i: usize = 0;
    while i < characteristics.len()
        invariant
            0 <= i <= characteristics@.len(),
            forall|k: int|
                0 <= k < i ==> !spec_char_matches(#[trigger] characteristics@[k], uuid, req),
        decreases characteristics@.len() - i,
    {
        let c = &characteristics[i];
        let satisfied = match req {
            CapRequirement::Read => c.readable,
            CapRequirement::Notify => c.notifiable,
            CapRequirement::Write => c.writable,
        };
        if c.uuid == uuid && satisfied {
            return Ok(i);
        }
        i = i + 1;
    }
    Err(SessionError::CharacteristicNotFound)
}

/// The outcome of one bounded wait for the next notification.
pub enum NotificationEvent {
    /// A notification arrived with this payload.
    Data(Vec<u8>),
    /// The wait hit the timeout.
    Timeout,
    /// The notification stream ended.
    Ended,
}

/// The outcome of one bounded connectivity poll.
#[derive(Debug, Clone, Copy, PartialEq, Eq, Structural)]
pub enum ConnectivityEvent {
    /// The device reports itself connected.
    Connected,
    /// The device reports itself disconnected.
    Disconnected,
    /// The poll hit the timeout.
    Timeout,
}

/// What the subscription loop does next.
#[derive(Debug, Clone, Copy, PartialEq, Eq, Structural)]
pub enum SubscribeStep {
    /// Keep streaming.
    Continue,
    /// A reading decoded: append it to history, invoke the rendering
    /// callback, and run the reaction evaluator.
    Dispatch(ClimateData),
    /// The payload was malformed: log it and keep streaming; one bad payload
    /// never ends the session.
    SkipBadPayload(DecodeError),
    /// The stream is exhausted; the subscription ends without error.
    Finished,
    /// The subscription cannot go on.
    Failed(SessionError),
}

/// The step the subscription loop takes on a notification-wait outcome, with
/// `now` the decode-time wall clock: a timeout or a lost stream is a lost
/// connection, a payload is decoded and either dispatched or skipped.
pub open spec fn spec_subscribe_step(event: NotificationEvent, now: i64) -> SubscribeStep {
    match event {
        NotificationEvent::Timeout => SubscribeStep::Failed(SessionError::ConnectionLost),
        NotificationEvent::Ended => SubscribeStep::Finished,
        NotificationEvent::Data(bytes) => match spec_decode_climate(bytes@, now) {
            Ok(c) => SubscribeStep::Dispatch(c),
            Err(e) => SubscribeStep::SkipBadPayload(e),
        },
    }
}

/// Decides the subscription loop's next step on a notification-wait outcome;
/// `now` stamps a reading whose payload carries no timestamp. A wait that
/// times out fails with a connection-lost error rather than hanging.
pub fn on_notification(event: &NotificationEvent, now: i64) -> (s: SubscribeStep)
    requires
        event matches NotificationEvent::Data(bytes) ==> bytes@.len() < usize::MAX,
    ensures
        s == spec_subscribe_step(*event, now),
{
    match event {
        NotificationEvent::Timeout => SubscribeStep::Failed(SessionError::ConnectionLost),
        NotificationEvent::Ended => SubscribeStep::Finished,
        NotificationEvent::Data(bytes) => match decode_climate(bytes.as_slice(), now) {
            Ok(c) => SubscribeStep::Dispatch(c),
            Err(e) => SubscribeStep::SkipBadPayload(e),
        },
    }
}

/// As `on_notification`, stamping payloads without a timestamp with the
/// local wall clock.
pub fn handle_notification(event: &NotificationEvent) -> (s: SubscribeStep)
    requires
        event matches NotificationEvent::Data(bytes) ==> bytes@.len() < usize::MAX,
    ensures
        exists|now: i64| s == #[trigger] spec_subscribe_step(*event, now),
{
    let now = now_millis();
    on_notification(event, now)
}

/// The step the loop takes after the connectivity poll that follows each
/// event: only a device that reports itself connected keeps the stream
/// alive; a timeout or a reported disconnect is a lost connection.
pub fn on_connectivity_poll(event: &ConnectivityEvent) -> (s: SubscribeStep)
    ensures
        *event == ConnectivityEvent::Connected ==> s == SubscribeStep::Continue,
        *event == ConnectivityEvent::Disconnected ==> s == SubscribeStep::Failed(
            SessionError::ConnectionLost,
        ),
        *event == ConnectivityEvent::Timeout ==> s == SubscribeStep::Failed(
            SessionError::ConnectionLost,
        ),
{
    match event {
        ConnectivityEvent::Connected => SubscribeStep::Continue,
        ConnectivityEvent::Disconnected => SubscribeStep::Failed(SessionError::ConnectionLost),
        ConnectivityEvent::Timeout => SubscribeStep::Failed(SessionError::ConnectionLost),
    }
}

/// The budget left for disconnect attempts.
#[derive(Debug, Clone, Copy, PartialEq, Eq, Structural)]
pub struct DisconnectRetry {
    pub remaining: u8,
}

/// What best-effort disconnect does next.
#[derive(Debug, Clone, Copy, PartialEq, Eq, Structural)]
pub enum DisconnectStep {
    /// Disconnected; nothing more to do.
    Done,
    /// The attempt failed; wait `DISCONNECT_INTERVAL_MILLIS` and try again
    /// with this budget.
    RetryAfterDelay(DisconnectRetry),
    /// The budget is exhausted; give up silently. Disconnect is best-effort
    /// cleanup and never a fatal path for the caller.
    GiveUp,
}

/// Begins a best-effort disconnect from a connectivity poll: a session whose
/// device already reports itself disconnected is left alone, without a
/// single disconnect call; otherwise the full retry budget is granted.
pub fn begin_disconnect(poll: &ConnectivityEvent) -> (r: Option<DisconnectRetry>)
    ensures
        *poll == ConnectivityEvent::Disconnected ==> r is None,
        *poll != ConnectivityEvent::Disconnected ==> r == Some(
            DisconnectRetry { remaining: DISCONNECT_ATTEMPTS },
        ),
{
    match poll {
        ConnectivityEvent::Disconnected => None,
        _ => Some(DisconnectRetry { remaining: DISCONNECT_ATTEMPTS }),
    }
}

/// Advances the disconnect machine after one attempt: success ends it, a
/// failure spends one unit of budget and asks for a delayed retry until the
/// budget runs out.
pub fn next_disconnect_step(state: DisconnectRetry, attempt_succeeded: bool) -> (r: DisconnectStep)
    ensures
        attempt_succeeded ==> r == DisconnectStep::Done,
        !attempt_succeeded && state.remaining > 1 ==> r == DisconnectStep::RetryAfterDelay(
            DisconnectRetry { remaining: (state.remaining - 1) as u8 },
        ),
        !attempt_succeeded && state.remaining <= 1 ==> r == DisconnectStep::GiveUp,
{
    if attempt_succeeded {
        DisconnectStep::Done
    } else if state.remaining > 1 {
        DisconnectStep::RetryAfterDelay(DisconnectRetry { remaining: state.remaining - 1 })
    } else {
        DisconnectStep::GiveUp
    }
}

/// An operator-issued command consumed from the action queue.
#[derive(Debug, Clone, Copy, PartialEq, Eq, Structural)]
pub enum BleAction {
    CalibrateCo2,
    CalibrateTemperature(i32),
    Stop,
}

/// How one command is served against the link session.
pub enum CommandDirective {
    /// Write this payload to this characteristic.
    Write { char_uuid: u128, payload: Vec<u8> },
    /// Nothing to do for this command.
    Ignore,
    /// Disconnect and stop consuming commands.
    StopSession,
}

/// Serializes one operator command into a link-session directive: CO2
/// calibration becomes a write of the configured payload to the configured
/// calibration characteristic, temperature calibration is not implemented
/// and is ignored, and stop tears the session down.
pub fn handle_command(action: &BleAction, cfg: &ProtocolConfig) -> (d: CommandDirective)
    ensures
        *action == BleAction::CalibrateCo2 ==> (d matches CommandDirective::Write {
            char_uuid,
            payload,
        } && char_uuid == cfg.co2_calibration_char && payload@ == cfg.co2_calibration_payload@),
        (action matches BleAction::CalibrateTemperature(_)) ==> d is Ignore,
        *action == BleAction::Stop ==> d is StopSession,
{
    match action {
        BleAction::CalibrateCo2 => CommandDirective::Write {
            char_uuid: cfg.co2_calibration_char,
            payload: clone_bytes(&cfg.co2_calibration_payload),
        },
        BleAction::CalibrateTemperature(_) => CommandDirective::Ignore,
        BleAction::Stop => CommandDirective::StopSession,
    }
}

/// Copies a byte payload.
fn clone_bytes(v: &Vec<u8>) -> (r: Vec<u8>)
    ensures
        r@ == v@,
{
    let mut out: Vec<u8> = Vec::new();
    let mut i: usize = 0;
    while i < v.len()
        invariant
            0 <= i <= v@.len(),
            out@ == v@.take(i as int),
        decreases v@.len() - i,
    {
        out.push(v[i]);
        proof {
            assert(out@ =~= v@.take(i + 1));
        }
        i = i + 1;
    }
    proof {
        assert(v@.take(v@.len() as int) =~= v@);
    }
    out
}


/// Dispatches one decoded reading: appends it to the history store, stamped
/// with the local wall clock, then evaluates every reaction rule against the
/// updated flat history at the current local hour. The caller renders the
/// reading and spawns the returned actions as independent fire-and-forget
/// tasks; neither blocks continued streaming.
pub fn dispatch_reading(
    history: &mut History,
    data: &ClimateData,
    rules: &[ReactionRule],
) -> (actions: Vec<ReactionAction>)
    requires
        old(history).inv(),
        forall|i: int| 0 <= i < rules@.len() ==> #[trigger] rules@[i].wf(),
    ensures
        final(history).inv(),
        exists|now: i64| #[trigger] captured(*old(history), *final(history), *data, now),
        exists|hour: u32|
            hour < 24 && actions@ == #[trigger] spec_triggered(
                rules@,
                final(history).flat@,
                hour,
            ),
{
    history.capture_measurement(data);
    run_reactions(rules, history.flat.as_slice())
}

} // verus!
