//! The vent service: connection state of the vent device, the devices seen
//! while scanning, and the commands sent to the vent.

use vstd::prelude::*;
use vstd::string::StringSliceAdditionalSpecFns;
use crate::domain::vent::vent::VentStatus;
use crate::error::AppError;
use crate::services::ble::ble_backend::{CharacteristicNotification, DeviceInfo};
use crate::services::ble::error::BleError;

verus! {

/// Whether `c` is an ASCII hexadecimal digit.
pub open spec fn is_hex_digit(c: char) -> bool {
    ('0' <= c && c <= '9') || ('a' <= c && c <= 'f') || ('A' <= c && c <= 'F')
}

/// Value of an ASCII hexadecimal digit.
pub open spec fn hex_digit_value(c: char) -> nat {
    if '0' <= c && c <= '9' {
        (c as int - '0' as int) as nat
    } else if 'a' <= c && c <= 'f' {
        (c as int - 'a' as int + 10) as nat
    } else {
        (c as int - 'A' as int + 10) as nat
    }
}

/// Value of the hexadecimal digits of `s`, most significant first, hyphens
/// skipped.
pub open spec fn hex_digits_value(s: Seq<char>) -> nat
    decreases s.len(),
{
    if s.len() == 0 {
        0
    } else if s.last() == '-' {
        hex_digits_value(s.drop_last())
    } else {
        hex_digits_value(s.drop_last()) * 16 + hex_digit_value(s.last())
    }
}

/// Whether position `i` of a hyphenated UUID holds a hyphen.
pub open spec fn is_hyphen_position(i: int) -> bool {
    i == 8 || i == 13 || i == 18 || i == 23
}

/// `s` is a UUID in hyphenated form: 36 characters, hyphens at positions
/// 8, 13, 18 and 23 and hexadecimal digits elsewhere.
pub open spec fn is_hyphenated_uuid(s: Seq<char>) -> bool {
    &&& s.len() == 36
    &&& forall|i: int|
        0 <= i < 36 ==> if is_hyphen_position(i) {
            s[i] == '-'
        } else {
            is_hex_digit(s[i])
        }
}

/// Whether `b` is an ASCII hexadecimal digit.
pub open spec fn is_hex_byte(b: u8) -> bool {
    (48 <= b && b <= 57) || (97 <= b && b <= 102) || (65 <= b && b <= 70)
}

/// Value of an ASCII hexadecimal digit.
pub open spec fn hex_byte_value(b: u8) -> nat {
    if 48 <= b && b <= 57 {
        (b - 48) as nat
    } else if 97 <= b && b <= 102 {
        (b - 87) as nat
    } else {
        (b - 55) as nat
    }
}

/// Value of the hexadecimal digits among `s`, most significant first,
/// hyphens (`-`, byte 45) skipped.
pub open spec fn hex_bytes_value(s: Seq<u8>) -> nat
    decreases s.len(),
{
    if s.len() == 0 {
        0
    } else if s.last() == 45 {
        hex_bytes_value(s.drop_last())
    } else {
        hex_bytes_value(s.drop_last()) * 16 + hex_byte_value(s.last())
    }
}

/// The bytes of a hyphenated UUID: 36 bytes, hyphens at 8, 13, 18 and 23,
/// hexadecimal digits elsewhere.
pub open spec fn is_hyphenated_uuid_bytes(s: Seq<u8>) -> bool {
    &&& s.len() == 36
    &&& forall|i: int|
        0 <= i < 36 ==> if is_hyphen_position(i) {
            s[i] == 45
        } else {
            is_hex_byte(s[i])
        }
}

/// The value of a hyphenated UUID, if `s` is one.
pub open spec fn hyphenated_uuid(s: Seq<u8>) -> Option<u128> {
    if is_hyphenated_uuid_bytes(s) {
        Some(hex_bytes_value(s) as u128)
    } else {
        None
    }
}

/// ASCII lowercase of one byte.
pub open spec fn ascii_lower_byte(b: u8) -> u8 {
    if 65 <= b && b <= 90 {
        (b + 32) as u8
    } else {
        b
    }
}

/// `p` is `urn:uuid:` in any ASCII case.
pub open spec fn is_urn_prefix(p: Seq<u8>) -> bool {
    p.map_values(|b: u8| ascii_lower_byte(b)) == seq![117u8, 114, 110, 58, 117, 117, 105, 100, 58]
}

/// The UUID that the bytes of a text spell, as a 128-bit integer: 32 bare
/// hexadecimal digits, a hyphenated UUID, a hyphenated UUID in braces, or a
/// hyphenated UUID after a `urn:uuid:` prefix in any case; `None` for any
/// other text.
pub open spec fn uuid_parse(s: Seq<u8>) -> Option<u128> {
    if s.len() == 32 {
        if forall|i: int| 0 <= i < 32 ==> is_hex_byte(#[trigger] s[i]) {
            Some(hex_bytes_value(s) as u128)
        } else {
            None
        }
    } else if s.len() == 36 {
        hyphenated_uuid(s)
    } else if s.len() == 38 && s[0] == 123 && s[37] == 125 {
        hyphenated_uuid(s.subrange(1, 37))
    } else if s.len() == 45 && is_urn_prefix(s.subrange(0, 9)) {
        hyphenated_uuid(s.subrange(9, 45))
    } else {
        None
    }
}

/// Parses a UUID with `uuid::Uuid::parse_str` and gives it as a 128-bit
/// integer, most significant byte first (`Uuid::as_u128`).
///
/// The contract states the four forms that the crate accepts on the text's
/// UTF-8 bytes (32 bare digits, hyphenated, hyphenated in braces, hyphenated
/// after `urn:uuid:` in any case) and their value, and that every other text
/// is rejected; and, for a text in hyphenated form, its value over its
/// characters.
#[verifier::external_body]
fn parse_uuid(text: &str) -> (r: Option<u128>)
    ensures
        r == uuid_parse(text.spec_bytes()),
        is_hyphenated_uuid(text@) ==> r == Some(hex_digits_value(text@) as u128),
{
    match uuid::Uuid::parse_str(text) {
        Ok(parsed) => Some(parsed.as_u128()),
        Err(_) => None,
    }
}

/// The value of the status characteristic's UUID.
pub open spec fn status_uuid_value() -> u128 {
    0x0000180b_0000_1000_8000_00805f9b34fb
}

/// UUID of the vent's status characteristic.
pub const STATUS_UUID: &'static str = "0000180b-0000-1000-8000-00805f9b34fb";

/// The status characteristic's UUID is a well-formed hyphenated UUID, and its
/// value is `0000180b-0000-1000-8000-00805f9b34fb`.
pub proof fn status_uuid_is_hyphenated()
    ensures
        is_hyphenated_uuid(STATUS_UUID@),
        hex_digits_value(STATUS_UUID@) == 0x0000180b_0000_1000_8000_00805f9b34fb,
{
    reveal_strlit("0000180b-0000-1000-8000-00805f9b34fb");
    assert(STATUS_UUID@.len() == 36);
    reveal_with_fuel(hex_digits_value, 37);
}

/// Whether `STATUS_UUID` is a UUID that the `uuid` crate accepts.
pub fn validate_status_uuid() -> (r: bool)
    ensures
        r == uuid_parse(STATUS_UUID.spec_bytes()) is Some,
        r,
{
    proof { status_uuid_is_hyphenated(); }
    parse_uuid(STATUS_UUID).is_some()
}

/// Command byte that opens the vent; the device reports the same byte once
/// open.
pub const VENT_CMD_OPEN: u8 = 0x01;

/// Command byte that closes the vent; the device reports the same byte once
/// closed.
pub const VENT_CMD_CLOSE: u8 = 0x02;

/// The status that a byte of the status characteristic reports.
pub open spec fn status_of_byte(b: u8) -> VentStatus {
    if b == VENT_CMD_OPEN {
        VentStatus::Open
    } else if b == VENT_CMD_CLOSE {
        VentStatus::Closed
    } else {
        VentStatus::Disconnected
    }
}

/// A device as the gateway lists it.
#[derive(Debug)]
pub struct DiscoveredDevice {
    pub id: String,
    pub address: Option<String>,
    pub name: Option<String>,
}

/// A device by its text fields.
pub struct DeviceView {
    pub id: Seq<char>,
    pub address: Option<Seq<char>>,
    pub name: Option<Seq<char>>,
}

/// An optional text by its characters.
pub open spec fn opt_text(s: Option<String>) -> Option<Seq<char>> {
    match s {
        Some(t) => Some(t@),
        None => None,
    }
}

impl View for DiscoveredDevice {
    type V = DeviceView;

    open spec fn view(&self) -> DeviceView {
        DeviceView { id: self.id@, address: opt_text(self.address), name: opt_text(self.name) }
    }
}

impl View for DeviceInfo {
    type V = DeviceView;

    open spec fn view(&self) -> DeviceView {
        DeviceView { id: self.id@, address: opt_text(self.address), name: opt_text(self.name) }
    }
}

fn clone_opt_text(s: &Option<String>) -> (r: Option<String>)
    ensures
        r == *s,
{
    match s {
        Some(t) => Some(t.clone()),
        None => None,
    }
}

impl Clone for DiscoveredDevice {
    fn clone(&self) -> (r: Self)
        ensures
            r == *self,
    {
        DiscoveredDevice {
            id: self.id.clone(),
            address: clone_opt_text(&self.address),
            name: clone_opt_text(&self.name),
        }
    }
}

/// A write of the status characteristic that the backend is to perform.
#[derive(Debug)]
pub struct VentCommand {
    pub device_id: String,
    pub characteristic: u128,
    pub data: Vec<u8>,
}

/// What moves a connection forward: its start, and the backend's answer to
/// each action.
#[derive(Debug)]
pub enum ConnectEvent {
    /// Connect to `device_id`, waiting at most `timeout_secs` for it.
    Start { device_id: String, timeout_secs: u64 },
    /// The backend's answer to `ConnectAction::ConnectDevice`.
    DeviceConnected { device_id: String, outcome: Result<(), BleError> },
    /// The backend's answer to `ConnectAction::Subscribe`.
    Subscribed { device_id: String, outcome: Result<(), BleError> },
    /// `ConnectAction::ListenAndStopScan` is done.
    Listening { device_id: String },
}

/// What the caller is to do next in a connection.
#[derive(Debug)]
pub enum ConnectAction {
    /// Connect to the device, waiting at most `timeout_secs` for it.
    ConnectDevice { device_id: String, timeout_secs: u64 },
    /// Subscribe to the device's status characteristic.
    Subscribe { device_id: String, characteristic: u128 },
    /// Feed the device's notifications to `handle_notification`, then stop
    /// scanning, whatever the backend answers to that.
    ListenAndStopScan { device_id: String },
    /// The connection is over, with this outcome.
    Done(Result<(), AppError>),
}

/// What moves a disconnection forward: its start, and the backend's answer
/// to each action.
#[derive(Debug)]
pub enum DisconnectEvent {
    Start,
    /// The backend's answer to `DisconnectAction::DisconnectDevice`.
    DeviceDisconnected(Result<(), BleError>),
    /// `DisconnectAction::StopScan` is done, whatever the backend answered.
    ScanStopped,
}

/// What the caller is to do next in a disconnection.
#[derive(Debug)]
pub enum DisconnectAction {
    /// Disconnect the device at the backend.
    DisconnectDevice { device_id: String },
    /// Stop scanning; the backend's answer is ignored.
    StopScan,
    /// The disconnection is over, with this outcome.
    Done(Result<(), AppError>),
}

/// What the vent service knows.
pub struct VentServiceView {
    /// The device the service is connected to.
    pub connected_device: Option<Seq<char>>,
    /// The last known status of the vent.
    pub status: VentStatus,
    /// The devices seen while scanning, in the order first seen.
    pub devices: Seq<DeviceView>,
    pub default_connection_timeout_secs: u64,
    /// UUID of the status characteristic.
    pub status_uuid: u128,
}

/// Whether a device with this id is among `devices`.
pub open spec fn has_device(devices: Seq<DeviceView>, id: Seq<char>) -> bool {
    exists|i: int| 0 <= i < devices.len() && (#[trigger] devices[i]).id == id
}

/// No two devices share an id.
pub open spec fn ids_unique(devices: Seq<DeviceView>) -> bool {
    forall|i: int, j: int|
        0 <= i < devices.len() && 0 <= j < devices.len() && i != j
            ==> (#[trigger] devices[i]).id != (#[trigger] devices[j]).id
}

impl VentServiceView {
    /// What holds of every vent service: no two listed devices share an id,
    /// and the status characteristic is `STATUS_UUID`.
    pub open spec fn well_formed(self) -> bool {
        &&& ids_unique(self.devices)
        &&& self.status_uuid == status_uuid_value()
    }

    /// The state after a device is seen while scanning: a device not seen
    /// before is added at the end, a device already listed keeps its entry.
    pub open spec fn record_device(self, d: DeviceView) -> VentServiceView {
        if has_device(self.devices, d.id) {
            self
        } else {
            VentServiceView { devices: self.devices.push(d), ..self }
        }
    }

    /// The state after connecting to `id` and subscribing to its status.
    pub open spec fn connected(self, id: Seq<char>) -> VentServiceView {
        VentServiceView { connected_device: Some(id), status: VentStatus::Connected, ..self }
    }

    /// The state after a notification of characteristic `uuid` with `value`:
    /// a non-empty notification of the status characteristic sets the status
    /// from its first byte; any other leaves the state as it is.
    pub open spec fn notified(self, uuid: u128, value: Seq<u8>) -> VentServiceView {
        if uuid == self.status_uuid && value.len() > 0 {
            VentServiceView { status: status_of_byte(value[0]), ..self }
        } else {
            self
        }
    }

    /// The state once the device is released.
    pub open spec fn released(self) -> VentServiceView {
        VentServiceView { connected_device: None, ..self }
    }

    /// The state after a completed disconnection.
    pub open spec fn disconnected(self) -> VentServiceView {
        VentServiceView { status: VentStatus::Disconnected, ..self }
    }

    /// The write that sends `byte` to the connected device, if any: the
    /// device, the characteristic and the bytes.
    pub open spec fn command(self, byte: u8) -> Option<(Seq<char>, u128, Seq<u8>)> {
        match self.connected_device {
            Some(id) => Some((id, self.status_uuid, seq![byte])),
            None => None,
        }
    }
}

/// Whether `r` is the answer that `command` describes.
pub open spec fn command_answer(expected: Option<(Seq<char>, u128, Seq<u8>)>, r: Result<VentCommand, AppError>) -> bool {
    match expected {
        Some((id, uuid, data)) => r matches Ok(c) && c.device_id@ == id && c.characteristic == uuid
            && c.data@ == data,
        None => r == Err::<VentCommand, AppError>(AppError::NotConnected),
    }
}

/// The vent service's state: the connected device, the last known vent
/// status and the devices seen while scanning.
pub struct VentService {
    connected_device_id: Option<String>,
    vent_status: VentStatus,
    discovered_devices: Vec<DiscoveredDevice>,
    default_connection_timeout_secs: u64,
    status_uuid: u128,
}

impl View for VentService {
    type V = VentServiceView;

    closed spec fn view(&self) -> VentServiceView {
        VentServiceView {
            connected_device: opt_text(self.connected_device_id),
            status: self.vent_status,
            devices: self.discovered_devices@.map_values(|d: DiscoveredDevice| d@),
            default_connection_timeout_secs: self.default_connection_timeout_secs,
            status_uuid: self.status_uuid,
        }
    }
}

impl VentService {
    #[verifier::type_invariant]
    closed spec fn view_well_formed(&self) -> bool {
        self@.well_formed()
    }

    /// A service with no device connected, the status `Disconnected` and no
    /// device seen; the status characteristic is `STATUS_UUID`.
    pub fn new(default_connection_timeout_secs: u64) -> (r: Self)
        ensures
            r@.connected_device is None,
            r@.status == VentStatus::Disconnected,
            r@.devices.len() == 0,
            r@.default_connection_timeout_secs == default_connection_timeout_secs,
            r@.status_uuid == status_uuid_value(),
            Some(r@.status_uuid) == uuid_parse(STATUS_UUID.spec_bytes()),
            r@.well_formed(),
    {
        proof { status_uuid_is_hyphenated(); }
        let status_uuid = match parse_uuid(STATUS_UUID) {
            Some(parsed) => parsed,
            None => {
                proof { assert(false); }
                0
            },
        };
        let r = VentService {
            connected_device_id: None,
            vent_status: VentStatus::Disconnected,
            discovered_devices: Vec::new(),
            default_connection_timeout_secs,
            status_uuid,
        };
        assert(r@.devices =~= Seq::<DeviceView>::empty());
        r
    }

    /// UUID of the status characteristic.
    pub fn status_uuid(&self) -> (r: u128)
        ensures
            self@.well_formed(),
            r == self@.status_uuid,
    {
        proof { use_type_invariant(self); }
        self.status_uuid
    }

    /// The last known vent status.
    pub fn get_vent_status(&self) -> (r: VentStatus)
        ensures
            self@.well_formed(),
            r == self@.status,
    {
        proof { use_type_invariant(self); }
        self.vent_status
    }

    /// The connection timeout used when a request gives none.
    pub fn get_default_connection_timeout(&self) -> (r: u64)
        ensures
            self@.well_formed(),
            r == self@.default_connection_timeout_secs,
    {
        proof { use_type_invariant(self); }
        self.default_connection_timeout_secs
    }

    /// The status that a byte read from the status characteristic reports:
    /// `0x01` open, `0x02` closed, anything else disconnected.
    pub fn parse_device_status_byte(&self, status_byte: u8) -> (r: VentStatus)
        ensures
            self@.well_formed(),
            r == status_of_byte(status_byte),
    {
        proof { use_type_invariant(self); }
        if status_byte == VENT_CMD_OPEN {
            VentStatus::Open
        } else if status_byte == VENT_CMD_CLOSE {
            VentStatus::Closed
        } else {
            VentStatus::Disconnected
        }
    }

    /// Whether the adapter listing shows at least one adapter; a failed
    /// listing counts as none.
    pub fn has_adapter(&self, adapters: &Result<Vec<String>, BleError>) -> (r: bool)
        ensures
            self@.well_formed(),
            r == (adapters matches Ok(names) && names.len() > 0),
    {
        proof { use_type_invariant(self); }
        match adapters {
            Ok(names) => names.len() > 0,
            Err(_) => false,
        }
    }

    /// Decides whether scanning may start: it needs an adapter. On `Ok` the
    /// caller starts the scan and feeds each device seen to
    /// `record_discovered_device`.
    pub fn initialize(&self, adapters: &Result<Vec<String>, BleError>) -> (r: Result<(), AppError>)
        ensures
            self@.well_formed(),
            r is Ok <==> (adapters matches Ok(names) && names.len() > 0),
            r is Err ==> r == Err::<(), AppError>(AppError::NoAdapter),
    {
        proof { use_type_invariant(self); }
        if !self.has_adapter(adapters) {
            return Err(AppError::NoAdapter);
        }
        Ok(())
    }

    /// Records a device seen while scanning; a device already listed keeps its
    /// first entry. Returns whether the device was added.
    pub fn record_discovered_device(&mut self, info: DeviceInfo) -> (added: bool)
        ensures
            final(self)@.well_formed(),
            final(self)@ == old(self)@.record_device(info@),
            added == !has_device(old(self)@.devices, info@.id),
    {
        proof { use_type_invariant(&*self); }
        let ghost old_devices = self@.devices;
        assert(ids_unique(old_devices));
        let n = self.discovered_devices.len();
        let mut extended: Vec<DiscoveredDevice> = Vec::new();
        let mut i: usize = 0;
        while i < n
            invariant
                n == self.discovered_devices@.len(),
                old_devices == self.discovered_devices@.map_values(|d: DiscoveredDevice| d@),
                self@.well_formed(),
                i <= n,
                extended@.len() == i,
                forall|j: int| 0 <= j < i ==> extended@[j] == #[trigger] self.discovered_devices@[j],
                forall|j: int| 0 <= j < i ==> (#[trigger] old_devices[j]).id != info@.id,
            decreases n - i,
        {
            if self.discovered_devices[i].id == info.id {
                assert(old_devices[i as int].id == info@.id);
                return false;
            }
            extended.push(self.discovered_devices[i].clone());
            i = i + 1;
        }
        assert(!has_device(old_devices, info@.id));
        let device = DiscoveredDevice { id: info.id, address: info.address, name: info.name };
        extended.push(device);
        let ghost new_devices = old_devices.push(info@);
        assert(extended@.map_values(|d: DiscoveredDevice| d@) =~= new_devices);
        proof {
            let before = VentServiceView { devices: old_devices, ..self@ };
            record_device_keeps_ids_unique(before, info@);
            assert(before.record_device(info@).devices == new_devices);
        }
        self.discovered_devices = extended;
        assert(self@.devices =~= old_devices.push(info@));
        true
    }

    /// The devices seen while scanning, in the order first seen.
    pub fn get_discovered_devices(&self) -> (r: Vec<DiscoveredDevice>)
        ensures
            self@.well_formed(),
            r@.map_values(|d: DiscoveredDevice| d@) == self@.devices,
            ids_unique(r@.map_values(|d: DiscoveredDevice| d@)),
    {
        proof { use_type_invariant(self); }
        let mut out: Vec<DiscoveredDevice> = Vec::new();
        let n = self.discovered_devices.len();
        let mut i: usize = 0;
        while i < n
            invariant
                n == self.discovered_devices@.len(),
                i <= n,
                out@.len() == i,
                forall|j: int| 0 <= j < i ==> out@[j] == #[trigger] self.discovered_devices@[j],
            decreases n - i,
        {
            out.push(self.discovered_devices[i].clone());
            i = i + 1;
        }
        assert(out@ =~= self.discovered_devices@);
        out
    }

    /// One step of connecting to a device. A connection starts with
    /// `ConnectEvent::Start` and goes: connect to the device; once connected,
    /// subscribe to its status characteristic; once subscribed, start
    /// listening to its notifications and stop scanning; once that is done,
    /// the device becomes the connected one and the status `Connected`. A
    /// failure of the backend ends the connection with its error, and the
    /// state is unchanged until the last step.
    pub fn connect(&mut self, event: ConnectEvent) -> (action: ConnectAction)
        ensures
            final(self)@.well_formed(),
            match event {
                ConnectEvent::Start { device_id, timeout_secs } => action
                    == (ConnectAction::ConnectDevice { device_id, timeout_secs })
                    && final(self)@ == old(self)@,
                ConnectEvent::DeviceConnected { device_id, outcome } => final(self)@ == old(self)@
                    && match outcome {
                    Ok(()) => action == (ConnectAction::Subscribe {
                        device_id,
                        characteristic: old(self)@.status_uuid,
                    }),
                    Err(e) => action == ConnectAction::Done(Err(AppError::BleBackend(e))),
                },
                ConnectEvent::Subscribed { device_id, outcome } => final(self)@ == old(self)@
                    && match outcome {
                    Ok(()) => action == (ConnectAction::ListenAndStopScan { device_id }),
                    Err(e) => action == ConnectAction::Done(Err(AppError::BleBackend(e))),
                },
                ConnectEvent::Listening { device_id } => action == ConnectAction::Done(Ok(()))
                    && final(self)@ == old(self)@.connected(device_id@),
            },
    {
        proof { use_type_invariant(&*self); }
        match event {
            ConnectEvent::Start { device_id, timeout_secs } => {
                ConnectAction::ConnectDevice { device_id, timeout_secs }
            },
            ConnectEvent::DeviceConnected { device_id, outcome } => match outcome {
                Ok(()) => ConnectAction::Subscribe { device_id, characteristic: self.status_uuid },
                Err(e) => ConnectAction::Done(Err(AppError::BleBackend(e))),
            },
            ConnectEvent::Subscribed { device_id, outcome } => match outcome {
                Ok(()) => ConnectAction::ListenAndStopScan { device_id },
                Err(e) => ConnectAction::Done(Err(AppError::BleBackend(e))),
            },
            ConnectEvent::Listening { device_id } => {
                self.connected_device_id = Some(device_id);
                self.vent_status = VentStatus::Connected;
                ConnectAction::Done(Ok(()))
            },
        }
    }

    /// Applies a notification of the connected device: a non-empty value of
    /// the status characteristic sets the status from its first byte.
    pub fn handle_notification(&mut self, notification: &CharacteristicNotification)
        ensures
            final(self)@.well_formed(),
            final(self)@ == old(self)@.notified(notification.uuid, notification.value@),
    {
        proof { use_type_invariant(&*self); }
        if notification.uuid == self.status_uuid && notification.value.len() > 0 {
            self.vent_status = self.parse_device_status_byte(notification.value[0]);
        }
    }

    fn command(&self, byte: u8) -> (r: Result<VentCommand, AppError>)
        ensures
            command_answer(self@.command(byte), r),
    {
        match &self.connected_device_id {
            Some(id) => {
                let mut data: Vec<u8> = Vec::new();
                data.push(byte);
                assert(data@ =~= seq![byte]);
                Ok(VentCommand { device_id: id.clone(), characteristic: self.status_uuid, data })
            },
            None => Err(AppError::NotConnected),
        }
    }

    /// The write that opens the vent: `0x01` to the status characteristic of
    /// the connected device; `NotConnected` when no device is connected.
    pub fn open_vent(&self) -> (r: Result<VentCommand, AppError>)
        ensures
            self@.well_formed(),
            command_answer(self@.command(VENT_CMD_OPEN), r),
    {
        proof { use_type_invariant(self); }
        self.command(VENT_CMD_OPEN)
    }

    /// The write that closes the vent: `0x02` to the status characteristic of
    /// the connected device; `NotConnected` when no device is connected.
    pub fn close_vent(&self) -> (r: Result<VentCommand, AppError>)
        ensures
            self@.well_formed(),
            command_answer(self@.command(VENT_CMD_CLOSE), r),
    {
        proof { use_type_invariant(self); }
        self.command(VENT_CMD_CLOSE)
    }

    /// One step of disconnecting. A disconnection starts with
    /// `DisconnectEvent::Start`, which releases the connected device and asks
    /// the backend to disconnect it (or, with no device, goes straight to
    /// stopping the scan); once the device is disconnected the scan is
    /// stopped (its answer is ignored); once that is done the status becomes
    /// `Disconnected`. A failure to disconnect ends with the backend's error
    /// and leaves the status as it was.
    pub fn disconnect(&mut self, event: DisconnectEvent) -> (action: DisconnectAction)
        ensures
            final(self)@.well_formed(),
            match event {
                DisconnectEvent::Start => final(self)@ == old(self)@.released() && match old(
                    self,
                )@.connected_device {
                    Some(id) => (action matches DisconnectAction::DisconnectDevice { device_id }
                        && device_id@ == id),
                    None => action is StopScan,
                },
                DisconnectEvent::DeviceDisconnected(outcome) => final(self)@ == old(self)@
                    && match outcome {
                    Ok(()) => action is StopScan,
                    Err(e) => action == DisconnectAction::Done(Err(AppError::BleBackend(e))),
                },
                DisconnectEvent::ScanStopped => action == DisconnectAction::Done(Ok(()))
                    && final(self)@ == old(self)@.disconnected(),
            },
    {
        proof { use_type_invariant(&*self); }
        match event {
            DisconnectEvent::Start => {
                let taken = match &self.connected_device_id {
                    Some(id) => Some(id.clone()),
                    None => None,
                };
                self.connected_device_id = None;
                match taken {
                    Some(device_id) => DisconnectAction::DisconnectDevice { device_id },
                    None => DisconnectAction::StopScan,
                }
            },
            DisconnectEvent::DeviceDisconnected(outcome) => match outcome {
                Ok(()) => DisconnectAction::StopScan,
                Err(e) => DisconnectAction::Done(Err(AppError::BleBackend(e))),
            },
            DisconnectEvent::ScanStopped => {
                self.vent_status = VentStatus::Disconnected;
                DisconnectAction::Done(Ok(()))
            },
        }
    }

    /// The status byte from a read of the status characteristic: the first
    /// byte; an empty answer is an error, and so is a failed read.
    pub fn read_device_status_from_characteristic(&self, read: Result<Vec<u8>, BleError>) -> (r: Result<u8, AppError>)
        ensures
            self@.well_formed(),
            match read {
                Err(e) => r == Err::<u8, AppError>(AppError::BleBackend(e)),
                Ok(data) => if data.len() == 0 {
                    (r matches Err(AppError::Ble(m)) && m@ == "Device returned empty response"@)
                } else {
                    r == Ok::<u8, AppError>(data[0])
                },
            },
    {
        proof { use_type_invariant(self); }
        match read {
            Err(e) => Err(AppError::BleBackend(e)),
            Ok(data) => {
                if data.len() == 0 {
                    Err(AppError::Ble(String::from_str("Device returned empty response")))
                } else {
                    Ok(data[0])
                }
            },
        }
    }
}

/// Seeing the same device twice lists it once: recording a device again
/// changes nothing.
pub proof fn record_device_is_idempotent(v: VentServiceView, d: DeviceView)
    ensures
        v.record_device(d).record_device(d) == v.record_device(d),
{
    if !has_device(v.devices, d.id) {
        let w = v.record_device(d);
        assert(w.devices[v.devices.len() as int] == d);
        assert(has_device(w.devices, d.id));
    }
}

/// After a device is seen it is listed; the devices listed before keep their
/// entries and their order, and an already listed device keeps the entry of
/// its first sighting.
pub proof fn record_device_lists_device(v: VentServiceView, d: DeviceView)
    ensures
        has_device(v.record_device(d).devices, d.id),
        v.record_device(d).devices.len() >= v.devices.len(),
        forall|i: int| 0 <= i < v.devices.len() ==> v.record_device(d).devices[i] == v.devices[i],
        has_device(v.devices, d.id) ==> v.record_device(d) == v,
{
    if !has_device(v.devices, d.id) {
        assert(v.record_device(d).devices[v.devices.len() as int] == d);
    }
}

/// Recording devices never lists two devices with the same id.
pub proof fn record_device_keeps_ids_unique(v: VentServiceView, d: DeviceView)
    requires
        ids_unique(v.devices),
    ensures
        ids_unique(v.record_device(d).devices),
{
    if !has_device(v.devices, d.id) {
        let n = v.record_device(d).devices;
        assert forall|a: int, b: int| 0 <= a < n.len() && 0 <= b < n.len() && a != b
            implies (#[trigger] n[a]).id != (#[trigger] n[b]).id by {
            if a < v.devices.len() && b < v.devices.len() {
                assert(v.devices[a] == n[a] && v.devices[b] == n[b]);
            } else if a < v.devices.len() {
                assert(v.devices[a] == n[a]);
            } else {
                assert(v.devices[b] == n[b]);
            }
        }
    }
}

/// A completed disconnection leaves the vent `Disconnected` and refuses
/// every command until the next connection.
pub proof fn disconnected_service_refuses_commands(v: VentServiceView, byte: u8)
    ensures
        v.released().disconnected().status == VentStatus::Disconnected,
        v.released().disconnected().command(byte) is None,
{
}

/// Once connected to a device, commands go to that device's status
/// characteristic.
pub proof fn connected_commands_target_device(v: VentServiceView, id: Seq<char>, byte: u8)
    ensures
        v.connected(id).status == VentStatus::Connected,
        v.connected(id).command(byte) == Some((id, v.status_uuid, seq![byte])),
{
}

/// When the device confirms a command by notifying the written byte on the
/// written characteristic, the status becomes `Open` after an open command
/// and `Closed` after a close command.
pub proof fn confirmed_commands_set_status(v: VentServiceView)
    requires
        v.connected_device is Some,
    ensures
        ({
            let (_, uuid, data) = v.command(VENT_CMD_OPEN).unwrap();
            v.notified(uuid, data).status == VentStatus::Open
        }),
        ({
            let (_, uuid, data) = v.command(VENT_CMD_CLOSE).unwrap();
            v.notified(uuid, data).status == VentStatus::Closed
        }),
{
}

/// Notifications of other characteristics, and empty notifications, leave
/// the state unchanged; no notification changes the connected device or the
/// devices seen.
pub proof fn notifications_only_set_status(v: VentServiceView, uuid: u128, value: Seq<u8>)
    ensures
        (uuid != v.status_uuid || value.len() == 0) ==> v.notified(uuid, value) == v,
        v.notified(uuid, value).connected_device == v.connected_device,
        v.notified(uuid, value).devices == v.devices,
{
}

/// Disconnecting twice is the same as disconnecting once.
pub proof fn disconnection_is_idempotent(v: VentServiceView)
    ensures
        v.released().disconnected().released().disconnected() == v.released().disconnected(),
{
}

/// The service holds one connection at a time: connecting to another device
/// replaces the previous one, and commands go to the newest.
pub proof fn one_connection_at_a_time(v: VentServiceView, first: Seq<char>, second: Seq<char>, byte: u8)
    ensures
        v.connected(first).connected(second) == v.connected(second),
        v.connected(first).connected(second).command(byte) == Some((second, v.status_uuid, seq![byte])),
{
}

/// The state after the devices `ds` are seen, in order.
pub open spec fn record_devices(v: VentServiceView, ds: Seq<DeviceView>) -> VentServiceView
    decreases ds.len(),
{
    if ds.len() == 0 {
        v
    } else {
        record_devices(v, ds.drop_last()).record_device(ds.last())
    }
}

/// Whether `ds[k]` is the first sighting of its id among `ds`.
pub open spec fn first_sighting(ds: Seq<DeviceView>, k: int) -> bool {
    forall|j: int| 0 <= j < k ==> (#[trigger] ds[j]).id != ds[k].id
}

/// `w` is the state after the sightings `ds` from `v`: only the device list
/// differs; the devices listed in `v` keep their entries and order; every
/// device seen is listed; each new entry is the first sighting of an id not
/// listed in `v`, and the first sighting of each such id is listed; and the
/// state is well formed.
#[verifier::opaque]
pub open spec fn lists_sightings(v: VentServiceView, ds: Seq<DeviceView>, w: VentServiceView) -> bool {
    &&& w.well_formed()
    &&& w == (VentServiceView { devices: w.devices, ..v })
    &&& w.devices.len() >= v.devices.len()
    &&& forall|j: int| 0 <= j < v.devices.len() ==> #[trigger] w.devices[j] == v.devices[j]
    &&& forall|k: int| 0 <= k < ds.len() ==> has_device(w.devices, (#[trigger] ds[k]).id)
    &&& forall|j: int|
        #![trigger w.devices[j]]
        v.devices.len() <= j < w.devices.len() ==> exists|k: int|
            0 <= k < ds.len() && w.devices[j] == #[trigger] ds[k] && first_sighting(ds, k)
                && !has_device(v.devices, ds[k].id)
    &&& forall|k: int|
        0 <= k < ds.len() && first_sighting(ds, k) && !has_device(v.devices, (#[trigger] ds[k]).id)
            ==> exists|j: int| 0 <= j < w.devices.len() && w.devices[j] == ds[k]
}

proof fn first_sighting_in_prefix(ds: Seq<DeviceView>, d: DeviceView, k: int)
    requires
        0 <= k < ds.len(),
    ensures
        first_sighting(ds.push(d), k) == first_sighting(ds, k),
        ds.push(d)[k] == ds[k],
{
    let e = ds.push(d);
    if first_sighting(ds, k) {
        assert forall|j: int| 0 <= j < k implies (#[trigger] e[j]).id != e[k].id by {
            assert(e[j] == ds[j]);
        }
    }
    if first_sighting(e, k) {
        assert forall|j: int| 0 <= j < k implies (#[trigger] ds[j]).id != ds[k].id by {
            assert(e[j] == ds[j]);
        }
    }
}

proof fn listed_id_was_seen(v: VentServiceView, ds: Seq<DeviceView>, w0: VentServiceView, id: Seq<char>)
    requires
        lists_sightings(v, ds, w0),
        has_device(w0.devices, id),
        !has_device(v.devices, id),
    ensures
        exists|k: int| 0 <= k < ds.len() && (#[trigger] ds[k]).id == id,
{
    reveal(lists_sightings);
    let j = choose|j: int| 0 <= j < w0.devices.len() && (#[trigger] w0.devices[j]).id == id;
    if j < v.devices.len() {
        assert(v.devices[j] == w0.devices[j]);
        assert(false);
    } else {
        let k = choose|k: int| 0 <= k < ds.len() && w0.devices[j] == #[trigger] ds[k]
            && first_sighting(ds, k) && !has_device(v.devices, ds[k].id);
        assert(ds[k].id == id);
    }
}

proof fn sighting_of_listed_device(v: VentServiceView, ds: Seq<DeviceView>, w0: VentServiceView, d: DeviceView)
    requires
        v.well_formed(),
        lists_sightings(v, ds, w0),
        has_device(w0.devices, d.id),
    ensures
        lists_sightings(v, ds.push(d), w0),
{
    let e = ds.push(d);
    let last = ds.len() as int;
    assert forall|k: int| 0 <= k < last implies first_sighting(e, k) == first_sighting(ds, k)
        && #[trigger] e[k] == ds[k] by {
        first_sighting_in_prefix(ds, d, k);
    }
    assert(e[last] == d);
    if !has_device(v.devices, d.id) {
        listed_id_was_seen(v, ds, w0, d.id);
        let k = choose|k: int| 0 <= k < ds.len() && (#[trigger] ds[k]).id == d.id;
        assert(e[k] == ds[k]);
        assert(!first_sighting(e, last));
    }
    reveal(lists_sightings);
    assert forall|k: int| 0 <= k < e.len() implies has_device(w0.devices, (#[trigger] e[k]).id) by {
        if k < last {
            assert(e[k] == ds[k]);
        }
    }
    assert forall|j: int| #![trigger w0.devices[j]] v.devices.len() <= j < w0.devices.len() implies exists|k: int|
        0 <= k < e.len() && w0.devices[j] == #[trigger] e[k] && first_sighting(e, k)
            && !has_device(v.devices, e[k].id) by {
        let k = choose|k: int| 0 <= k < ds.len() && w0.devices[j] == #[trigger] ds[k]
            && first_sighting(ds, k) && !has_device(v.devices, ds[k].id);
        assert(e[k] == ds[k]);
    }
    assert forall|k: int|
        0 <= k < e.len() && first_sighting(e, k) && !has_device(v.devices, (#[trigger] e[k]).id)
        implies exists|j: int| 0 <= j < w0.devices.len() && w0.devices[j] == e[k] by {
        assert(k < last);
        assert(e[k] == ds[k]);
    }
}

proof fn sighting_of_new_device(v: VentServiceView, ds: Seq<DeviceView>, w0: VentServiceView, d: DeviceView)
    requires
        v.well_formed(),
        lists_sightings(v, ds, w0),
        !has_device(w0.devices, d.id),
    ensures
        lists_sightings(v, ds.push(d), w0.record_device(d)),
{
    reveal(lists_sightings);
    let e = ds.push(d);
    let w = w0.record_device(d);
    let last = ds.len() as int;
    record_device_keeps_ids_unique(w0, d);
    assert(w.devices == w0.devices.push(d));
    assert forall|k: int| 0 <= k < last implies first_sighting(e, k) == first_sighting(ds, k)
        && #[trigger] e[k] == ds[k] by {
        first_sighting_in_prefix(ds, d, k);
    }
    assert(e[last] == d);
    assert forall|j: int| 0 <= j < v.devices.len() implies #[trigger] w.devices[j] == v.devices[j] by {
        assert(w.devices[j] == w0.devices[j]);
    }
    assert forall|k: int| 0 <= k < e.len() implies has_device(w.devices, (#[trigger] e[k]).id) by {
        if k < last {
            assert(has_device(w0.devices, ds[k].id));
            let i = choose|i: int| 0 <= i < w0.devices.len() && (#[trigger] w0.devices[i]).id == ds[k].id;
            assert(w.devices[i] == w0.devices[i]);
        } else {
            assert(w.devices[w0.devices.len() as int] == d);
        }
    }
    assert(first_sighting(e, last)) by {
        assert forall|j: int| 0 <= j < last implies (#[trigger] e[j]).id != e[last].id by {
            assert(e[j] == ds[j]);
            assert(has_device(w0.devices, ds[j].id));
        }
    }
    assert(!has_device(v.devices, d.id)) by {
        if has_device(v.devices, d.id) {
            let i = choose|i: int| 0 <= i < v.devices.len() && (#[trigger] v.devices[i]).id == d.id;
            assert(w0.devices[i] == v.devices[i]);
        }
    }
    assert forall|j: int| #![trigger w.devices[j]] v.devices.len() <= j < w.devices.len() implies exists|k: int|
        0 <= k < e.len() && w.devices[j] == #[trigger] e[k] && first_sighting(e, k)
            && !has_device(v.devices, e[k].id) by {
        if j < w0.devices.len() {
            let k = choose|k: int| 0 <= k < ds.len() && w0.devices[j] == #[trigger] ds[k]
                && first_sighting(ds, k) && !has_device(v.devices, ds[k].id);
            assert(e[k] == ds[k]);
            assert(w.devices[j] == w0.devices[j]);
        } else {
            assert(w.devices[j] == e[last]);
        }
    }
    assert forall|k: int|
        0 <= k < e.len() && first_sighting(e, k) && !has_device(v.devices, (#[trigger] e[k]).id)
        implies exists|j: int| 0 <= j < w.devices.len() && w.devices[j] == e[k] by {
        if k < last {
            assert(e[k] == ds[k]);
            let j = choose|j: int| 0 <= j < w0.devices.len() && w0.devices[j] == ds[k];
            assert(w.devices[j] == w0.devices[j]);
        } else {
            assert(w.devices[w0.devices.len() as int] == e[k]);
        }
    }
}

/// A scan lists each device once: after a sequence of sightings, the devices
/// listed before keep their entries and order; every device seen is listed;
/// each new entry is the first sighting of an id not listed before, and the
/// first sighting of each such id is listed; ids stay unique, and nothing but
/// the device list changes.
pub proof fn sightings_list_each_device_once(v: VentServiceView, ds: Seq<DeviceView>)
    requires
        v.well_formed(),
    ensures
        lists_sightings(v, ds, record_devices(v, ds)),
    decreases ds.len(),
{
    if ds.len() == 0 {
        reveal(lists_sightings);
        let w = record_devices(v, ds);
        assert(w == v);
        assert(w == (VentServiceView { devices: w.devices, ..v }));
    } else {
        let prev = ds.drop_last();
        sightings_list_each_device_once(v, prev);
        let w0 = record_devices(v, prev);
        if has_device(w0.devices, ds.last().id) {
            sighting_of_listed_device(v, prev, w0, ds.last());
        } else {
            sighting_of_new_device(v, prev, w0, ds.last());
        }
        assert(prev.push(ds.last()) =~= ds);
    }
}

/// Every vent service follows the status protocol of `STATUS_UUID`: a
/// non-empty notification of that characteristic sets the status from its
/// first byte (`0x01` open, `0x02` closed, anything else disconnected), and
/// any other notification leaves the state unchanged.
pub proof fn status_notifications_follow_protocol(v: VentServiceView, uuid: u128, value: Seq<u8>)
    requires
        v.well_formed(),
    ensures
        uuid == status_uuid_value() && value.len() > 0 ==> v.notified(uuid, value).status
            == status_of_byte(value[0]),
        uuid != status_uuid_value() || value.len() == 0 ==> v.notified(uuid, value) == v,
{
}

/// Only the two command bytes report a position: `0x01` reports open,
/// `0x02` closed, and every other byte reports the vent disconnected.
pub proof fn status_bytes_report(b: u8)
    ensures
        (status_of_byte(b) == VentStatus::Open) <==> b == 0x01,
        (status_of_byte(b) == VentStatus::Closed) <==> b == 0x02,
        b != 0x01 && b != 0x02 ==> status_of_byte(b) == VentStatus::Disconnected,
        status_of_byte(b) != VentStatus::Connected,
{
}

/// A non-empty notification of the status characteristic whose first byte
/// is neither command byte reports the vent disconnected, whatever the
/// status was; one that starts with a command byte reports the position
/// that byte commands.
pub proof fn status_notification_reports(v: VentServiceView, value: Seq<u8>)
    requires
        v.well_formed(),
        value.len() > 0,
    ensures
        value[0] != 0x01 && value[0] != 0x02 ==> v.notified(status_uuid_value(), value).status
            == VentStatus::Disconnected,
        value[0] == 0x01 ==> v.notified(status_uuid_value(), value).status == VentStatus::Open,
        value[0] == 0x02 ==> v.notified(status_uuid_value(), value).status == VentStatus::Closed,
{
}

/// A command is the one byte asked for, written to the status
/// characteristic of the connected device, whatever the vent's last known
/// status: there is one exactly when a device is connected, and the status
/// has no part in it.
pub proof fn commands_are_the_byte_alone(v: VentServiceView, byte: u8, status: VentStatus)
    ensures
        v.command(byte) is Some <==> v.connected_device is Some,
        v.command(byte) matches Some((id, uuid, data)) ==> v.connected_device == Some(id)
            && uuid == v.status_uuid && data.len() == 1 && data[0] == byte,
        (VentServiceView { status, ..v }).command(byte) == v.command(byte),
{
}

} // verus!
