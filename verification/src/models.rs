//! Data models for IoT device communication.

use crate::clock::unix_time_or_zero;
use crate::json::{
    json_compact, json_quote, json_string_text, member, member_value, members_view, object_text,
    parse_compact, write_object, JsonMember,
};
use crate::text::{decimal_string, decimal_text, opt_view, str_eq};
use vstd::prelude::*;
use vstd::string::*;

verus! {

/// Whether no key occurs twice.
pub open spec fn unique_keys(entries: Seq<(Seq<char>, Seq<char>)>) -> bool {
    forall|i: int, j: int| 0 <= i < j < entries.len() ==> entries[i].0 != entries[j].0
}

/// The entries with `value` under `key`: in the place of the entry that had
/// the key, or at the end where there was none.
pub open spec fn with_entry(
    entries: Seq<(Seq<char>, Seq<char>)>,
    key: Seq<char>,
    value: Seq<char>,
) -> Seq<(Seq<char>, Seq<char>)>
    decreases entries.len(),
{
    if entries.len() == 0 {
        seq![(key, value)]
    } else if entries[0].0 == key {
        seq![(key, value)] + entries.drop_first()
    } else {
        seq![entries[0]] + with_entry(entries.drop_first(), key, value)
    }
}

/// The entries with each value written as a JSON string literal.
pub open spec fn quoted_values(entries: Seq<(Seq<char>, Seq<char>)>) -> Seq<
    (Seq<char>, Seq<char>),
> {
    entries.map_values(|e: (Seq<char>, Seq<char>)| (e.0, json_string_text(e.1)))
}

/// Where the key stands at `at` and nowhere before, the new value takes that
/// place.
pub proof fn lemma_with_entry_replaces(
    entries: Seq<(Seq<char>, Seq<char>)>,
    key: Seq<char>,
    value: Seq<char>,
    at: int,
)
    requires
        0 <= at < entries.len(),
        entries[at].0 == key,
        forall|j: int| 0 <= j < at ==> entries[j].0 != key,
    ensures
        with_entry(entries, key, value) == entries.update(at, (key, value)),
    decreases entries.len(),
{
    if at > 0 {
        lemma_with_entry_replaces(entries.drop_first(), key, value, at - 1);
    }
}

/// Where no entry has the key, the new entry goes to the end.
pub proof fn lemma_with_entry_appends(
    entries: Seq<(Seq<char>, Seq<char>)>,
    key: Seq<char>,
    value: Seq<char>,
)
    requires
        forall|j: int| 0 <= j < entries.len() ==> entries[j].0 != key,
    ensures
        with_entry(entries, key, value) == entries.push((key, value)),
    decreases entries.len(),
{
    if entries.len() > 0 {
        lemma_with_entry_appends(entries.drop_first(), key, value);
    }
}

/// Setting a key leaves every entry in its place and keeps its key; the
/// result is as long as before, or longer by the new entry at its end where
/// the key is new.
pub proof fn lemma_with_entry_shape(
    entries: Seq<(Seq<char>, Seq<char>)>,
    key: Seq<char>,
    value: Seq<char>,
)
    ensures
        entries.len() <= with_entry(entries, key, value).len() <= entries.len() + 1,
        forall|i: int|
            0 <= i < entries.len() ==> (#[trigger] with_entry(entries, key, value)[i]).0
                == entries[i].0,
        with_entry(entries, key, value).len() == entries.len() + 1 ==> {
            &&& with_entry(entries, key, value).last().0 == key
            &&& forall|i: int| 0 <= i < entries.len() ==> (#[trigger] entries[i]).0 != key
        },
    decreases entries.len(),
{
    let after = with_entry(entries, key, value);
    if entries.len() > 0 && entries[0].0 != key {
        let rest = entries.drop_first();
        lemma_with_entry_shape(rest, key, value);
        if after.len() == entries.len() + 1 {
            assert forall|i: int| 0 <= i < entries.len() implies (#[trigger] entries[i]).0
                != key by {
                if i > 0 {
                    assert(rest[i - 1].0 != key);
                }
            }
        }
    }
}

/// Setting a key keeps the keys unique, and the key then leads to the value.
pub proof fn lemma_with_entry_is_a_map(
    entries: Seq<(Seq<char>, Seq<char>)>,
    key: Seq<char>,
    value: Seq<char>,
)
    requires
        unique_keys(entries),
    ensures
        unique_keys(with_entry(entries, key, value)),
        member_value(with_entry(entries, key, value), key) == Some(value),
{
    lemma_with_entry_shape(entries, key, value);
    lemma_with_entry_finds(entries, key, value);
}

/// After a key is set, looking it up gives the value.
pub proof fn lemma_with_entry_finds(
    entries: Seq<(Seq<char>, Seq<char>)>,
    key: Seq<char>,
    value: Seq<char>,
)
    ensures
        member_value(with_entry(entries, key, value), key) == Some(value),
    decreases entries.len(),
{
    let after = with_entry(entries, key, value);
    if entries.len() > 0 && entries[0].0 != key {
        lemma_with_entry_finds(entries.drop_first(), key, value);
        assert(after.drop_first() =~= with_entry(entries.drop_first(), key, value));
    }
}

/// A map from text to text that keeps its entries in the order in which
/// their keys were first set. No key occurs twice.
#[derive(Debug)]
pub struct TextMap {
    entries: Vec<JsonMember>,
}

impl View for TextMap {
    type V = Seq<(Seq<char>, Seq<char>)>;

    closed spec fn view(&self) -> Seq<(Seq<char>, Seq<char>)> {
        members_view(self.entries@)
    }
}

impl Clone for TextMap {
    fn clone(&self) -> (r: TextMap)
        ensures
            r@ == self@,
    {
        proof {
            use_type_invariant(self);
        }
        let mut entries: Vec<JsonMember> = Vec::new();
        let mut i: usize = 0;
        while i < self.entries.len()
            invariant
                i <= self.entries.len(),
                members_view(entries@) == self@.take(i as int),
            decreases self.entries.len() - i,
        {
            let ghost done = members_view(entries@);
            let entry = member(self.entries[i].name.as_str(), self.entries[i].value.clone());
            let ghost pair = (entry.name@, entry.value@);
            entries.push(entry);
            proof {
                assert(members_view(entries@) =~= done.push(pair));
            }
            i += 1;
        }
        TextMap { entries }
    }
}

impl TextMap {
    #[verifier::type_invariant]
    spec fn keys_are_unique(self) -> bool {
        unique_keys(members_view(self.entries@))
    }

    /// An empty map.
    pub fn new() -> (r: TextMap)
        ensures
            r@ == Seq::<(Seq<char>, Seq<char>)>::empty(),
    {
        TextMap { entries: Vec::new() }
    }

    /// The number of entries.
    pub fn len(&self) -> (r: usize)
        ensures
            r == self@.len(),
            unique_keys(self@),
    {
        proof {
            use_type_invariant(self);
        }
        self.entries.len()
    }

    /// The entries, in their order.
    pub fn entries(&self) -> (r: &Vec<JsonMember>)
        ensures
            members_view(r@) == self@,
    {
        &self.entries
    }

    /// The value under `key`.
    pub fn get(&self, key: &str) -> (r: Option<&str>)
        ensures
            match r {
                Some(v) => member_value(self@, key@) == Some(v@),
                None => member_value(self@, key@) is None,
            },
    {
        crate::json::find_member(&self.entries, key)
    }

    /// Sets the value under `key`, in the place of the value that was there
    /// or as a new entry at the end.
    pub fn insert(self, key: &str, value: String) -> (r: TextMap)
        ensures
            r@ == with_entry(self@, key@, value@),
            unique_keys(r@),
    {
        proof {
            use_type_invariant(&self);
            lemma_with_entry_is_a_map(self@, key@, value@);
        }
        let ghost before = self@;
        let mut entries = self.entries;
        let mut i: usize = 0;
        while i < entries.len()
            invariant
                i <= entries.len(),
                before == self@,
                members_view(entries@) == before,
                unique_keys(with_entry(before, key@, value@)),
                forall|j: int| 0 <= j < i ==> before[j].0 != key@,
            decreases entries.len() - i,
        {
            if str_eq(entries[i].name.as_str(), key) {
                proof {
                    lemma_with_entry_replaces(before, key@, value@, i as int);
                }
                entries.set(i, member(key, value));
                assert(members_view(entries@) =~= before.update(i as int, (key@, value@)));
                return TextMap { entries };
            }
            i += 1;
        }
        proof {
            lemma_with_entry_appends(before, key@, value@);
        }
        entries.push(member(key, value));
        assert(members_view(entries@) =~= before.push((key@, value@)));
        TextMap { entries }
    }

    /// The map as a JSON object whose values are strings.
    pub fn to_json_strings(&self) -> (r: String)
        ensures
            r@ == object_text(quoted_values(self@)),
    {
        let mut members: Vec<JsonMember> = Vec::new();
        let mut i: usize = 0;
        while i < self.entries.len()
            invariant
                i <= self.entries.len(),
                members_view(members@) == quoted_values(self@.take(i as int)),
            decreases self.entries.len() - i,
        {
            let quoted = json_quote(self.entries[i].value.as_str());
            let ghost done = members_view(members@);
            let entry = member(self.entries[i].name.as_str(), quoted);
            let ghost pair = (entry.name@, entry.value@);
            members.push(entry);
            proof {
                assert(members_view(members@) =~= done.push(pair));
            }
            i += 1;
        }
        assert(self@.take(i as int) =~= self@);
        write_object(&members)
    }

    /// The map as a JSON object whose values are the JSON texts held.
    pub fn to_json_values(&self) -> (r: String)
        ensures
            r@ == object_text(self@),
    {
        write_object(&self.entries)
    }
}

/// Information about an IoT device.
#[derive(Debug, Clone)]
pub struct DeviceInfo {
    /// Type of device.
    pub device_type: String,
    /// Name of the device.
    pub name: String,
    /// Version of the device firmware.
    pub firmware_version: String,
    /// Additional metadata as key-value pairs.
    pub metadata: TextMap,
}

/// Status of a device.
#[derive(Debug, Clone, Copy, PartialEq, Eq, Structural)]
pub enum DeviceStatus {
    Online,
    Offline,
    Maintenance,
    Error,
}

/// Alert levels for device notifications, in rising order.
#[derive(Debug, Clone, Copy, PartialEq, Eq, PartialOrd, Ord, Structural)]
pub enum AlertLevel {
    Info,
    Warning,
    Error,
    Critical,
}

/// Why a model could not be built.
#[derive(Debug, Clone, Copy, PartialEq, Eq, Structural)]
pub enum ModelError {
    /// A reading is not one JSON value.
    InvalidJson,
}

impl DeviceStatus {
    /// The tag that stands for the status on the wire.
    pub open spec fn tag(self) -> Seq<char> {
        match self {
            DeviceStatus::Online => "online"@,
            DeviceStatus::Offline => "offline"@,
            DeviceStatus::Maintenance => "maintenance"@,
            DeviceStatus::Error => "erorr"@,
        }
    }

    /// The tag of this status.
    pub fn as_str(&self) -> (r: &'static str)
        ensures
            r@ == self.tag(),
    {
        match self {
            DeviceStatus::Online => "online",
            DeviceStatus::Offline => "offline",
            DeviceStatus::Maintenance => "maintenance",
            DeviceStatus::Error => "erorr",
        }
    }
}

impl AlertLevel {
    /// The tag that stands for the level on the wire.
    pub open spec fn tag(self) -> Seq<char> {
        match self {
            AlertLevel::Info => "info"@,
            AlertLevel::Warning => "warning"@,
            AlertLevel::Error => "error"@,
            AlertLevel::Critical => "critical"@,
        }
    }

    /// The rank of the level: 0 for the lowest.
    pub open spec fn spec_severity(self) -> u8 {
        match self {
            AlertLevel::Info => 0,
            AlertLevel::Warning => 1,
            AlertLevel::Error => 2,
            AlertLevel::Critical => 3,
        }
    }

    /// The tag of this level.
    pub fn as_str(&self) -> (r: &'static str)
        ensures
            r@ == self.tag(),
    {
        match self {
            AlertLevel::Info => "info",
            AlertLevel::Warning => "warning",
            AlertLevel::Error => "error",
            AlertLevel::Critical => "critical",
        }
    }

    /// The rank of the level, by which levels are ordered.
    pub fn severity(&self) -> (r: u8)
        ensures
            r == self.spec_severity(),
    {
        match self {
            AlertLevel::Info => 0,
            AlertLevel::Warning => 1,
            AlertLevel::Error => 2,
            AlertLevel::Critical => 3,
        }
    }
}

/// The JSON text of an optional string: the literal, or `null`.
pub open spec fn optional_string_text(s: Option<Seq<char>>) -> Seq<char> {
    match s {
        Some(t) => json_string_text(t),
        None => "null"@,
    }
}

/// Writes the JSON text of an optional string.
pub fn optional_string_json(s: &Option<String>) -> (r: String)
    ensures
        r@ == optional_string_text(opt_view(*s)),
{
    match s {
        Some(t) => json_quote(t.as_str()),
        None => String::from_str("null"),
    }
}

/// Data reported by the device. A reading is held as the compact JSON text
/// of its value.
#[derive(Debug, Clone)]
pub struct DeviceData {
    /// Timestamp when the data was collected.
    pub timestamp: u64,
    /// Current status of the device.
    pub status: DeviceStatus,
    /// Sensor readings as key-value pairs.
    pub readings: TextMap,
    /// Alert level if applicable.
    pub alert_level: Option<AlertLevel>,
}

/// The JSON text of an optional alert level: its tag as a string, or `null`.
pub open spec fn alert_level_text(level: Option<AlertLevel>) -> Seq<char> {
    match level {
        Some(l) => "\""@ + l.tag() + "\""@,
        None => "null"@,
    }
}

impl DeviceData {
    /// The JSON object of the data point: `timestamp`, `status`, `readings`
    /// and `alert_level`, in this order.
    pub open spec fn json_text(&self) -> Seq<char> {
        "{\"timestamp\":"@ + decimal_text(self.timestamp as nat) + ",\"status\":\""@
            + self.status.tag() + "\",\"readings\":"@ + object_text(self.readings@)
            + ",\"alert_level\":"@ + alert_level_text(self.alert_level) + "}"@
    }

    /// A data point collected at `timestamp`, without readings or alert.
    pub fn new_at(status: DeviceStatus, timestamp: u64) -> (r: DeviceData)
        ensures
            r.timestamp == timestamp,
            r.status == status,
            r.readings@.len() == 0,
            r.alert_level is None,
    {
        DeviceData { timestamp, status, readings: TextMap::new(), alert_level: None }
    }

    /// Create a new data point with the current timestamp, or with 0 where
    /// the system clock stands before the epoch.
    pub fn new(status: DeviceStatus) -> (r: DeviceData)
        ensures
            r.status == status,
            r.readings@.len() == 0,
            r.alert_level is None,
    {
        Self::new_at(status, unix_time_or_zero())
    }

    /// Add a sensor reading. `value` is the JSON text of the reading; it is
    /// kept in compact form, under `name`. Fails where `value` is not one
    /// JSON value.
    pub fn add_reading(self, name: &str, value: &str) -> (r: Result<DeviceData, ModelError>)
        ensures
            match r {
                Ok(d) => {
                    &&& json_compact(value@) matches Some(compact)
                    &&& d.readings@ == with_entry(self.readings@, name@, compact)
                    &&& d.timestamp == self.timestamp
                    &&& d.status == self.status
                    &&& d.alert_level == self.alert_level
                },
                Err(e) => e == ModelError::InvalidJson && json_compact(value@) is None,
            },
    {
        match parse_compact(value) {
            Some(compact) => {
                let readings = self.readings.insert(name, compact);
                Ok(
                    DeviceData {
                        timestamp: self.timestamp,
                        status: self.status,
                        readings,
                        alert_level: self.alert_level,
                    },
                )
            },
            None => Err(ModelError::InvalidJson),
        }
    }

    /// Set the alert level.
    pub fn with_alert_level(self, level: AlertLevel) -> (r: DeviceData)
        ensures
            r.alert_level == Some(level),
            r.timestamp == self.timestamp,
            r.status == self.status,
            r.readings == self.readings,
    {
        DeviceData {
            timestamp: self.timestamp,
            status: self.status,
            readings: self.readings,
            alert_level: Some(level),
        }
    }

    /// Writes the data point as a JSON object.
    pub fn to_json(&self) -> (r: String)
        ensures
            r@ == self.json_text(),
    {
        let mut s = String::from_str("{\"timestamp\":");
        let stamp = decimal_string(self.timestamp);
        s.append(stamp.as_str());
        s.append(",\"status\":\"");
        s.append(self.status.as_str());
        s.append("\",\"readings\":");
        let readings = self.readings.to_json_values();
        s.append(readings.as_str());
        s.append(",\"alert_level\":");
        match &self.alert_level {
            Some(level) => {
                s.append("\"");
                s.append(level.as_str());
                s.append("\"");
            },
            None => {
                s.append("null");
            },
        }
        s.append("}");
        s
    }
}

} // verus!
