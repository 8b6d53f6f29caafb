//! The control loop of one radio adapter, as a state machine.
//!
//! The caller owns the radio. It starts a scan, turns what the radio reports
//! into [`ScannerEvent`]s, hands each to [`AdapterScanner::step`] and carries
//! out the [`ScannerAction`] that comes back. Devices are named by numbers
//! that the caller assigns, one per peripheral of the adapter.

use crate::gatt::{
    compatible, first_index_of, full_uuid, get_heartrate_measurement_characteristic,
    has_heartrate_service, is_compatible_manufacturer, lemma_first_index_of,
    HEART_RATE_MEASUREMENT_CHARACTERISTIC_UUID, HEART_RATE_SERVICE_UUID,
};
use std::collections::HashSet;
use vstd::prelude::*;

verus! {

/// Where the scanner stands.
#[derive(Clone, Copy, Debug, PartialEq, Eq)]
pub enum ScannerPhase {
    /// Scanning, and connecting to compatible devices as they are discovered.
    Scanning,
    /// A device has connected and its services are being looked up.
    Verifying(u64),
    /// A session streams from the device.
    Sessioned(u64),
    /// The adapter failed; the scanner has ended.
    Terminated,
}

/// What the radio reported.
#[derive(Debug, PartialEq, Eq)]
pub enum ScannerEvent {
    /// A device was discovered. `manufacturer_ids` holds the keys of its
    /// advertised manufacturer data, or `None` where its properties could
    /// not be had.
    DeviceDiscovered { id: u64, manufacturer_ids: Option<Vec<u16>> },
    /// A connection to the device was established.
    DeviceConnected { id: u64 },
    /// The look-up asked for by `DiscoverServices` has finished, with the
    /// UUIDs of the device's services and of its characteristics.
    ServicesDiscovered { id: u64, services: Vec<u128>, characteristics: Vec<u128> },
    /// The session started by `StartSession` has closed.
    SessionClosed { id: u64 },
    /// The device has disconnected.
    DeviceDisconnected { id: u64 },
    /// The adapter's stream of events has ended.
    EventsEnded,
    /// The adapter can no longer be used.
    TransportFailed,
    /// Anything else the radio reports.
    Other,
}

/// The mathematical value of a [`ScannerEvent`].
pub enum EventView {
    DeviceDiscovered { id: u64, manufacturer_ids: Option<Seq<u16>> },
    DeviceConnected { id: u64 },
    ServicesDiscovered { id: u64, services: Seq<u128>, characteristics: Seq<u128> },
    SessionClosed { id: u64 },
    DeviceDisconnected { id: u64 },
    EventsEnded,
    TransportFailed,
    Other,
}

impl View for ScannerEvent {
    type V = EventView;

    open spec fn view(&self) -> EventView {
        match *self {
            ScannerEvent::DeviceDiscovered { id, manufacturer_ids } => EventView::DeviceDiscovered {
                id,
                manufacturer_ids: match manufacturer_ids {
                    Some(ids) => Some(ids@),
                    None => None,
                },
            },
            ScannerEvent::DeviceConnected { id } => EventView::DeviceConnected { id },
            ScannerEvent::ServicesDiscovered {
                id,
                services,
                characteristics,
            } => EventView::ServicesDiscovered {
                id,
                services: services@,
                characteristics: characteristics@,
            },
            ScannerEvent::SessionClosed { id } => EventView::SessionClosed { id },
            ScannerEvent::DeviceDisconnected { id } => EventView::DeviceDisconnected { id },
            ScannerEvent::EventsEnded => EventView::EventsEnded,
            ScannerEvent::TransportFailed => EventView::TransportFailed,
            ScannerEvent::Other => EventView::Other,
        }
    }
}

/// What the caller is to do next.
#[derive(Clone, Copy, Debug, PartialEq, Eq)]
pub enum ScannerAction {
    /// Nothing; wait for the next event.
    Idle,
    /// Start a scan on the adapter.
    StartScan,
    /// Connect to the device. Completion is reported by `DeviceConnected`.
    Connect(u64),
    /// Look up the device's services and characteristics, and report them by
    /// `ServicesDiscovered`.
    DiscoverServices(u64),
    /// Disconnect the device.
    Disconnect(u64),
    /// Start a session on the device, subscribed to the characteristic at
    /// index `characteristic` of those reported. `SessionClosed` reports its
    /// end.
    StartSession { id: u64, characteristic: usize },
    /// End the scanner's task.
    Terminate,
}

/// The mathematical value of an [`AdapterScanner`].
pub struct ScannerView {
    pub phase: ScannerPhase,
    /// Devices for which a session was started and that have not
    /// disconnected since.
    pub active: Set<u64>,
}

/// Where the measurement characteristic stands among the reported
/// characteristics of a device that offers the Heart Rate service; `None`
/// where the service or the characteristic is missing.
pub open spec fn heart_rate_characteristic(services: Seq<u128>, characteristics: Seq<u128>) -> Option<
    int,
> {
    if services.contains(full_uuid(HEART_RATE_SERVICE_UUID)) {
        first_index_of(characteristics, full_uuid(HEART_RATE_MEASUREMENT_CHARACTERISTIC_UUID))
    } else {
        None
    }
}

/// The scanner's transition function: the state after `event` and the action
/// that it calls for.
///
/// - A discovered device is connected to when its manufacturer ids pass the
///   filter, and otherwise left alone; nothing is remembered of it, so each
///   discovery is judged anew.
/// - A connected device is verified while the scanner is `Scanning`. While
///   another device is being verified or streams, the newcomer is left as it
///   is: one adapter handles one sensor at a time.
/// - The device under verification gets a session when it offers the Heart
///   Rate service and the measurement characteristic, and joins the active
///   set; else it is disconnected and scanning goes on.
/// - A disconnected device leaves the active set, and the scan is started
///   again.
/// - When the stream of events ends, the scan is started again.
/// - A transport failure ends the scanner, which then answers `Idle` to
///   everything.
pub open spec fn scanner_step(state: ScannerView, event: EventView) -> (ScannerView, ScannerAction) {
    if state.phase is Terminated {
        (state, ScannerAction::Idle)
    } else {
        match event {
            EventView::DeviceDiscovered { id, manufacturer_ids } => {
                if manufacturer_ids is Some && compatible(manufacturer_ids->Some_0) {
                    (state, ScannerAction::Connect(id))
                } else {
                    (state, ScannerAction::Idle)
                }
            },
            EventView::DeviceConnected { id } => {
                if state.phase is Scanning {
                    (
                        ScannerView { phase: ScannerPhase::Verifying(id), active: state.active },
                        ScannerAction::DiscoverServices(id),
                    )
                } else {
                    (state, ScannerAction::Idle)
                }
            },
            EventView::ServicesDiscovered { id, services, characteristics } => {
                if state.phase == ScannerPhase::Verifying(id) {
                    match heart_rate_characteristic(services, characteristics) {
                        Some(index) => (
                            ScannerView {
                                phase: ScannerPhase::Sessioned(id),
                                active: state.active.insert(id),
                            },
                            ScannerAction::StartSession { id, characteristic: index as usize },
                        ),
                        None => (
                            ScannerView { phase: ScannerPhase::Scanning, active: state.active },
                            ScannerAction::Disconnect(id),
                        ),
                    }
                } else {
                    (state, ScannerAction::Idle)
                }
            },
            EventView::SessionClosed { id } => {
                if state.phase == ScannerPhase::Sessioned(id) {
                    (
                        ScannerView { phase: ScannerPhase::Scanning, active: state.active },
                        ScannerAction::Idle,
                    )
                } else {
                    (state, ScannerAction::Idle)
                }
            },
            EventView::DeviceDisconnected { id } => {
                (
                    ScannerView {
                        phase: if state.phase == ScannerPhase::Verifying(id) || state.phase
                            == ScannerPhase::Sessioned(id) {
                            ScannerPhase::Scanning
                        } else {
                            state.phase
                        },
                        active: state.active.remove(id),
                    },
                    ScannerAction::StartScan,
                )
            },
            EventView::EventsEnded => (state, ScannerAction::StartScan),
            EventView::TransportFailed => (
                ScannerView { phase: ScannerPhase::Terminated, active: state.active },
                ScannerAction::Terminate,
            ),
            EventView::Other => (state, ScannerAction::Idle),
        }
    }
}

/// The scanner never asks for a connection to a device that fails the
/// manufacturer filter: a `Connect` answers only the discovery of that very
/// device with an accepted manufacturer among its ids, and the discovery of
/// any other device changes nothing.
pub proof fn lemma_connect_only_compatible(state: ScannerView, event: EventView)
    ensures
        forall|id: u64| scanner_step(state, event).1 == ScannerAction::Connect(id) ==> {
            &&& event matches EventView::DeviceDiscovered { id: found, manufacturer_ids: Some(ids) }
            &&& found == id
            &&& compatible(ids)
        },
        event matches EventView::DeviceDiscovered { manufacturer_ids, .. } ==> (!(
        manufacturer_ids matches Some(ids) && compatible(ids)) ==> scanner_step(state, event) == (
            state,
            ScannerAction::Idle,
        )),
{
}

/// A connected device without the Heart Rate service, or without the
/// measurement characteristic, is disconnected and the scanner goes back to
/// scanning; no session is created for it. A session starts only on a device
/// under verification that has both, and on the characteristic itself.
pub proof fn lemma_session_requires_heart_rate(state: ScannerView, event: EventView)
    requires
        event matches EventView::ServicesDiscovered { characteristics, .. }
            ==> characteristics.len() <= usize::MAX,
    ensures
        forall|id: u64, characteristic: usize|
            scanner_step(state, event).1 == (ScannerAction::StartSession { id, characteristic })
                ==> {
                &&& event matches EventView::ServicesDiscovered {
                    id: verified,
                    services,
                    characteristics,
                }
                &&& verified == id
                &&& state.phase == ScannerPhase::Verifying(id)
                &&& services.contains(full_uuid(HEART_RATE_SERVICE_UUID))
                &&& characteristic < characteristics.len()
                &&& characteristics[characteristic as int] == full_uuid(
                    HEART_RATE_MEASUREMENT_CHARACTERISTIC_UUID,
                )
            },
        event matches EventView::ServicesDiscovered { id, services, characteristics } ==> (
        state.phase == ScannerPhase::Verifying(id) && (!services.contains(
            full_uuid(HEART_RATE_SERVICE_UUID),
        ) || !characteristics.contains(full_uuid(HEART_RATE_MEASUREMENT_CHARACTERISTIC_UUID)))
            ==> scanner_step(state, event) == (
            ScannerView { phase: ScannerPhase::Scanning, active: state.active },
            ScannerAction::Disconnect(id),
        )),
{
    match event {
        EventView::ServicesDiscovered { id, services, characteristics } => {
            let uuid = full_uuid(HEART_RATE_MEASUREMENT_CHARACTERISTIC_UUID);
            match first_index_of(characteristics, uuid) {
                Some(index) => {
                    lemma_first_index_of(characteristics, uuid, index);
                },
                None => {
                    lemma_first_index_of(characteristics, uuid, 0);
                },
            }
        },
        _ => {},
    }
}

/// Whether the device that a session streams from, if there is one, is in
/// the active set.
pub open spec fn session_is_active(state: ScannerView) -> bool {
    state.phase matches ScannerPhase::Sessioned(id) ==> state.active.contains(id)
}

/// The scanner keeps the device of its session in the active set: this holds
/// of a new scanner, which has no session, and every step preserves it.
pub proof fn lemma_session_is_active(state: ScannerView, event: EventView)
    requires
        session_is_active(state),
    ensures
        session_is_active(scanner_step(state, event).0),
        session_is_active(ScannerView { phase: ScannerPhase::Scanning, active: Set::empty() }),
{
}

/// The control state of one adapter.
#[derive(Debug)]
pub struct AdapterScanner {
    phase: ScannerPhase,
    active: HashSet<u64>,
}

impl View for AdapterScanner {
    type V = ScannerView;

    closed spec fn view(&self) -> ScannerView {
        ScannerView { phase: self.phase, active: self.active@ }
    }
}

impl AdapterScanner {
    /// A scanner in `Scanning` with no active device. The caller starts the
    /// first scan.
    pub fn new() -> (scanner: Self)
        ensures
            scanner@ == (ScannerView { phase: ScannerPhase::Scanning, active: Set::empty() }),
    {
        AdapterScanner { phase: ScannerPhase::Scanning, active: HashSet::new() }
    }

    pub fn phase(&self) -> (phase: ScannerPhase)
        ensures
            phase == self@.phase,
    {
        self.phase
    }

    /// Whether a session was started on the device and it has not
    /// disconnected since.
    pub fn is_active(&self, id: u64) -> (active: bool)
        ensures
            active == self@.active.contains(id),
    {
        broadcast use vstd::std_specs::hash::group_hash_axioms;

        self.active.contains(&id)
    }

    /// Takes one event and answers with the action it calls for, as
    /// [`scanner_step`] defines.
    pub fn step(&mut self, event: &ScannerEvent) -> (action: ScannerAction)
        ensures
            (final(self)@, action) == scanner_step(old(self)@, event@),
    {
        broadcast use vstd::std_specs::hash::group_hash_axioms;

        if let ScannerPhase::Terminated = self.phase {
            return ScannerAction::Idle;
        }
        match event {
            ScannerEvent::DeviceDiscovered { id, manufacturer_ids } => {
                match manufacturer_ids {
                    Some(ids) => {
                        if is_compatible_manufacturer(ids.as_slice()) {
                            ScannerAction::Connect(*id)
                        } else {
                            ScannerAction::Idle
                        }
                    },
                    None => ScannerAction::Idle,
                }
            },
            ScannerEvent::DeviceConnected { id } => {
                if let ScannerPhase::Scanning = self.phase {
                    self.phase = ScannerPhase::Verifying(*id);
                    ScannerAction::DiscoverServices(*id)
                } else {
                    ScannerAction::Idle
                }
            },
            ScannerEvent::ServicesDiscovered { id, services, characteristics } => {
                let verifying = match self.phase {
                    ScannerPhase::Verifying(current) => current == *id,
                    _ => false,
                };
                if !verifying {
                    return ScannerAction::Idle;
                }
                if !has_heartrate_service(services.as_slice()) {
                    self.phase = ScannerPhase::Scanning;
                    return ScannerAction::Disconnect(*id);
                }
                match get_heartrate_measurement_characteristic(characteristics.as_slice()) {
                    Some(characteristic) => {
                        self.phase = ScannerPhase::Sessioned(*id);
                        self.active.insert(*id);
                        ScannerAction::StartSession { id: *id, characteristic }
                    },
                    None => {
                        self.phase = ScannerPhase::Scanning;
                        ScannerAction::Disconnect(*id)
                    },
                }
            },
            ScannerEvent::SessionClosed { id } => {
                let sessioned = match self.phase {
                    ScannerPhase::Sessioned(current) => current == *id,
                    _ => false,
                };
                if sessioned {
                    self.phase = ScannerPhase::Scanning;
                }
                ScannerAction::Idle
            },
            ScannerEvent::DeviceDisconnected { id } => {
                let ours = match self.phase {
                    ScannerPhase::Verifying(current) => current == *id,
                    ScannerPhase::Sessioned(current) => current == *id,
                    _ => false,
                };
                if ours {
                    self.phase = ScannerPhase::Scanning;
                }
                self.active.remove(id);
                ScannerAction::StartScan
            },
            ScannerEvent::EventsEnded => ScannerAction::StartScan,
            ScannerEvent::TransportFailed => {
                self.phase = ScannerPhase::Terminated;
                ScannerAction::Terminate
            },
            ScannerEvent::Other => ScannerAction::Idle,
        }
    }
}

} // verus!
