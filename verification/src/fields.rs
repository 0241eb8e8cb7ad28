//! The field model: typed holders for every editable presence attribute,
//! plus the persisted settings record that seeds it at startup.

use vstd::prelude::*;

verus! {

/// An image slot: an asset key plus a hover label. The slot is shown only
/// when `key` is non-empty, and the label only alongside a shown key.
#[derive(Debug, PartialEq)]
pub struct ImageSlot {
    pub key: String,
    pub label: String,
}

impl Clone for ImageSlot {
    fn clone(&self) -> (r: Self)
        ensures
            r == *self,
    {
        ImageSlot { key: self.key.clone(), label: self.label.clone() }
    }
}

/// A button slot: a caption and a link target. The slot reaches the payload
/// only when both parts are non-empty.
#[derive(Debug, PartialEq)]
pub struct ButtonSlot {
    pub label: String,
    pub url: String,
}

impl Clone for ButtonSlot {
    fn clone(&self) -> (r: Self)
        ensures
            r == *self,
    {
        ButtonSlot { label: self.label.clone(), url: self.url.clone() }
    }
}

/// How the presence "start" marker is chosen.
#[derive(Debug, Clone, Copy, PartialEq, Eq, Structural)]
pub enum TimestampMode {
    /// No timestamp is emitted.
    NoTimestamp,
    /// Midnight of the current day in the local time zone.
    LocalDayStart,
    /// Midnight UTC of a user-chosen calendar date.
    CustomDate,
    /// The instant the session started.
    SinceSessionStart,
    /// The instant of the last successful presence push.
    SinceLastUpdate,
}

/// A calendar date in the proleptic Gregorian calendar, held as plain values
/// so that validity can be stated directly.
#[derive(Debug, Clone, Copy, PartialEq, Eq, Structural)]
pub struct CalendarDate {
    pub year: i32,
    pub month: u8,
    pub day: u8,
}

pub open spec fn is_leap_year(year: int) -> bool {
    (year % 4 == 0 && year % 100 != 0) || year % 400 == 0
}

pub open spec fn days_in_month(year: int, month: int) -> int {
    if month == 2 {
        if is_leap_year(year) {
            29
        } else {
            28
        }
    } else if month == 4 || month == 6 || month == 9 || month == 11 {
        30
    } else {
        31
    }
}

/// A real date: a valid month, a day that exists in that month, and a year
/// within the range a date picker offers.
pub open spec fn valid_date(year: int, month: int, day: int) -> bool {
    &&& 0 <= year <= 9999
    &&& 1 <= month <= 12
    &&& 1 <= day <= days_in_month(year, month)
}

impl CalendarDate {
    pub open spec fn wf(self) -> bool {
        valid_date(self.year as int, self.month as int, self.day as int)
    }

    /// The first day of the epoch, used where no date was chosen yet.
    pub fn epoch() -> (r: CalendarDate)
        ensures
            r == (CalendarDate { year: 1970, month: 1u8, day: 1u8 }),
            r.wf(),
    {
        CalendarDate { year: 1970, month: 1, day: 1 }
    }
}

/// Everything the user can edit: the target identity, the two status lines,
/// the party occupancy pair, two image slots, two button slots, and the
/// timestamp selection.
#[derive(Debug, Clone, PartialEq)]
pub struct FieldModel {
    pub identity: String,
    pub details: String,
    pub state: String,
    pub party_size: u8,
    pub party_capacity: u8,
    pub large_image: ImageSlot,
    pub small_image: ImageSlot,
    pub button1: ButtonSlot,
    pub button2: ButtonSlot,
    pub timestamp_mode: TimestampMode,
    pub custom_date: CalendarDate,
}

impl FieldModel {
    /// The ranges the form enforces on the occupancy pair, and a real
    /// calendar date in the date picker.
    pub open spec fn wf(self) -> bool {
        &&& self.party_size <= 32
        &&& 1 <= self.party_capacity <= 32
        &&& self.custom_date.wf()
    }

    /// An all-default model: every text empty, no party, no timestamp.
    pub open spec fn is_default(self, today: CalendarDate) -> bool {
        &&& self.identity@.len() == 0
        &&& self.details@.len() == 0
        &&& self.state@.len() == 0
        &&& self.party_size == 0
        &&& self.party_capacity == 1
        &&& self.large_image.key@.len() == 0
        &&& self.large_image.label@.len() == 0
        &&& self.small_image.key@.len() == 0
        &&& self.small_image.label@.len() == 0
        &&& self.button1.label@.len() == 0
        &&& self.button1.url@.len() == 0
        &&& self.button2.label@.len() == 0
        &&& self.button2.url@.len() == 0
        &&& self.timestamp_mode is NoTimestamp
        &&& self.custom_date == today
    }

    /// A fresh model, with the date picker preset to `today`.
    pub fn new_default(today: CalendarDate) -> (r: FieldModel)
        requires
            today.wf(),
        ensures
            r.is_default(today),
            r.wf(),
    {
        FieldModel {
            identity: String::new(),
            details: String::new(),
            state: String::new(),
            party_size: 0,
            party_capacity: 1,
            large_image: ImageSlot { key: String::new(), label: String::new() },
            small_image: ImageSlot { key: String::new(), label: String::new() },
            button1: ButtonSlot { label: String::new(), url: String::new() },
            button2: ButtonSlot { label: String::new(), url: String::new() },
            timestamp_mode: TimestampMode::NoTimestamp,
            custom_date: today,
        }
    }
}

/// The flat persisted settings blob: the field model's logical fields plus
/// the two presentation preferences, as the persistence layer hands them in.
#[derive(Debug, Clone, PartialEq)]
pub struct SettingsRecord {
    pub identity: String,
    pub details: String,
    pub state: String,
    pub party_size: u8,
    pub party_capacity: u8,
    pub large_image_key: String,
    pub large_image_label: String,
    pub small_image_key: String,
    pub small_image_label: String,
    pub button1_label: String,
    pub button1_url: String,
    pub button2_label: String,
    pub button2_url: String,
    pub timestamp_mode: TimestampMode,
    pub autoconnect: bool,
    pub darkmode: bool,
}

/// What a field model built from a settings record looks like: every logical
/// field carried over, the date picker preset to `today`.
pub open spec fn loaded_from(f: FieldModel, s: SettingsRecord, today: CalendarDate) -> bool {
    &&& f.identity == s.identity
    &&& f.details == s.details
    &&& f.state == s.state
    &&& f.party_size == s.party_size
    &&& f.party_capacity == s.party_capacity
    &&& f.large_image.key == s.large_image_key
    &&& f.large_image.label == s.large_image_label
    &&& f.small_image.key == s.small_image_key
    &&& f.small_image.label == s.small_image_label
    &&& f.button1.label == s.button1_label
    &&& f.button1.url == s.button1_url
    &&& f.button2.label == s.button2_label
    &&& f.button2.url == s.button2_url
    &&& f.timestamp_mode == s.timestamp_mode
    &&& f.custom_date == today
}

/// Builds the live field model from the persisted settings, if any were
/// readable: absent or unparseable settings fall back to the all-default
/// model rather than failing startup.
pub fn fields_from_settings(settings: Option<SettingsRecord>, today: CalendarDate) -> (r:
    FieldModel)
    requires
        today.wf(),
    ensures
        settings matches Some(s) ==> loaded_from(r, s, today),
        settings is None ==> r.is_default(today),
{
    match settings {
        None => FieldModel::new_default(today),
        Some(s) => FieldModel {
            identity: s.identity,
            details: s.details,
            state: s.state,
            party_size: s.party_size,
            party_capacity: s.party_capacity,
            large_image: ImageSlot { key: s.large_image_key, label: s.large_image_label },
            small_image: ImageSlot { key: s.small_image_key, label: s.small_image_label },
            button1: ButtonSlot { label: s.button1_label, url: s.button1_url },
            button2: ButtonSlot { label: s.button2_label, url: s.button2_url },
            timestamp_mode: s.timestamp_mode,
            custom_date: today,
        },
    }
}

/// Snapshots the live field model back into a settings record for the
/// periodic save, together with the two presentation preferences.
pub fn settings_from_fields(fields: &FieldModel, autoconnect: bool, darkmode: bool) -> (r:
    SettingsRecord)
    ensures
        r.identity == fields.identity,
        r.details == fields.details,
        r.state == fields.state,
        r.party_size == fields.party_size,
        r.party_capacity == fields.party_capacity,
        r.large_image_key == fields.large_image.key,
        r.large_image_label == fields.large_image.label,
        r.small_image_key == fields.small_image.key,
        r.small_image_label == fields.small_image.label,
        r.button1_label == fields.button1.label,
        r.button1_url == fields.button1.url,
        r.button2_label == fields.button2.label,
        r.button2_url == fields.button2.url,
        r.timestamp_mode == fields.timestamp_mode,
        r.autoconnect == autoconnect,
        r.darkmode == darkmode,
{
    SettingsRecord {
        identity: fields.identity.clone(),
        details: fields.details.clone(),
        state: fields.state.clone(),
        party_size: fields.party_size,
        party_capacity: fields.party_capacity,
        large_image_key: fields.large_image.key.clone(),
        large_image_label: fields.large_image.label.clone(),
        small_image_key: fields.small_image.key.clone(),
        small_image_label: fields.small_image.label.clone(),
        button1_label: fields.button1.label.clone(),
        button1_url: fields.button1.url.clone(),
        button2_label: fields.button2.label.clone(),
        button2_url: fields.button2.url.clone(),
        timestamp_mode: fields.timestamp_mode,
        autoconnect,
        darkmode,
    }
}

} // verus!
