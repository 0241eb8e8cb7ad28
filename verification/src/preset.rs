//! Preset merge: applies a sparse, externally loaded record onto the live
//! field model, field by field, leaving fields the preset does not carry
//! unchanged.

use vstd::prelude::*;

use crate::fields::{ButtonSlot, FieldModel, ImageSlot, TimestampMode};

verus! {

/// A sparse snapshot of form field values: every logical field is
/// independently present or absent. The timestamp mode is the one exception:
/// a preset always declares a concrete mode (the default when the stored
/// preset named none), so it has no absent state here.
#[derive(Debug, Clone, PartialEq)]
pub struct PresetRecord {
    pub identity: Option<String>,
    pub details: Option<String>,
    pub state: Option<String>,
    pub party_size: Option<u8>,
    pub party_capacity: Option<u8>,
    pub large_image_key: Option<String>,
    pub large_image_label: Option<String>,
    pub small_image_key: Option<String>,
    pub small_image_label: Option<String>,
    pub button1_label: Option<String>,
    pub button1_url: Option<String>,
    pub button2_label: Option<String>,
    pub button2_url: Option<String>,
    pub timestamp_mode: TimestampMode,
}

impl PresetRecord {
    /// The ranges the form enforces on the occupancy pair, where the preset
    /// carries them.
    pub open spec fn wf(self) -> bool {
        &&& (self.party_size matches Some(n) ==> n <= 32)
        &&& (self.party_capacity matches Some(n) ==> 1 <= n <= 32)
    }

    /// A preset that carries no field at all (its mode is still declared).
    pub open spec fn all_absent(self) -> bool {
        &&& self.identity is None
        &&& self.details is None
        &&& self.state is None
        &&& self.party_size is None
        &&& self.party_capacity is None
        &&& self.large_image_key is None
        &&& self.large_image_label is None
        &&& self.small_image_key is None
        &&& self.small_image_label is None
        &&& self.button1_label is None
        &&& self.button1_url is None
        &&& self.button2_label is None
        &&& self.button2_url is None
    }

    /// A preset that carries nothing but the declared mode.
    pub fn empty(mode: TimestampMode) -> (r: PresetRecord)
        ensures
            r.all_absent(),
            r.timestamp_mode == mode,
            r.wf(),
    {
        PresetRecord {
            identity: None,
            details: None,
            state: None,
            party_size: None,
            party_capacity: None,
            large_image_key: None,
            large_image_label: None,
            small_image_key: None,
            small_image_label: None,
            button1_label: None,
            button1_url: None,
            button2_label: None,
            button2_url: None,
            timestamp_mode: mode,
        }
    }
}

/// A present source value overwrites the current one; an absent one is a
/// no-op.
pub open spec fn pick<T>(cur: T, src: Option<T>) -> T {
    match src {
        Some(v) => v,
        None => cur,
    }
}

/// The merged field model: every field the preset carries overwritten, every
/// other field kept, and the timestamp mode always taken from the preset.
pub open spec fn merged(t: FieldModel, s: PresetRecord) -> FieldModel {
    FieldModel {
        identity: pick(t.identity, s.identity),
        details: pick(t.details, s.details),
        state: pick(t.state, s.state),
        party_size: pick(t.party_size, s.party_size),
        party_capacity: pick(t.party_capacity, s.party_capacity),
        large_image: ImageSlot {
            key: pick(t.large_image.key, s.large_image_key),
            label: pick(t.large_image.label, s.large_image_label),
        },
        small_image: ImageSlot {
            key: pick(t.small_image.key, s.small_image_key),
            label: pick(t.small_image.label, s.small_image_label),
        },
        button1: ButtonSlot {
            label: pick(t.button1.label, s.button1_label),
            url: pick(t.button1.url, s.button1_url),
        },
        button2: ButtonSlot {
            label: pick(t.button2.label, s.button2_label),
            url: pick(t.button2.url, s.button2_url),
        },
        timestamp_mode: s.timestamp_mode,
        custom_date: t.custom_date,
    }
}

fn pick_string(cur: &mut String, src: &Option<String>)
    ensures
        *final(cur) == pick(*old(cur), *src),
{
    match src {
        Some(v) => {
            *cur = v.clone();
        },
        None => {},
    }
}

/// Applies the preset onto the live field model in place. The caller hands
/// the record in by value: it is consumed by this one application and cannot
/// be replayed by accident.
pub fn merge(target: &mut FieldModel, source: PresetRecord)
    ensures
        *final(target) == merged(*old(target), source),
{
    pick_string(&mut target.identity, &source.identity);
    pick_string(&mut target.details, &source.details);
    pick_string(&mut target.state, &source.state);
    match source.party_size {
        Some(n) => target.party_size = n,
        None => {},
    }
    match source.party_capacity {
        Some(n) => target.party_capacity = n,
        None => {},
    }
    pick_string(&mut target.large_image.key, &source.large_image_key);
    pick_string(&mut target.large_image.label, &source.large_image_label);
    pick_string(&mut target.small_image.key, &source.small_image_key);
    pick_string(&mut target.small_image.label, &source.small_image_label);
    pick_string(&mut target.button1.label, &source.button1_label);
    pick_string(&mut target.button1.url, &source.button1_url);
    pick_string(&mut target.button2.label, &source.button2_label);
    pick_string(&mut target.button2.url, &source.button2_url);
    target.timestamp_mode = source.timestamp_mode;
    proof {
        assert(*target =~= merged(*old(target), source));
    }
}

/// Merging the same preset a second time changes nothing: the fields it
/// carries are already in place, and the fields it does not carry were left
/// alone both times.
pub proof fn lemma_merge_idempotent(t: FieldModel, s: PresetRecord)
    ensures
        merged(merged(t, s), s) == merged(t, s),
{
    assert(merged(merged(t, s), s) =~= merged(t, s));
}

/// Merging a preset that carries no field and declares the mode the model
/// already has leaves the model unchanged. (A preset declaring a different
/// mode does change the model: the mode is always taken from the preset.)
pub proof fn lemma_merge_all_absent_identity(t: FieldModel, s: PresetRecord)
    requires
        s.all_absent(),
        s.timestamp_mode == t.timestamp_mode,
    ensures
        merged(t, s) == t,
{
    assert(merged(t, s) =~= t);
}

/// The merge keeps the field model well formed whenever the preset's own
/// occupancy values are within the form's ranges.
pub proof fn lemma_merge_preserves_wf(t: FieldModel, s: PresetRecord)
    requires
        t.wf(),
        s.wf(),
    ensures
        merged(t, s).wf(),
{
}

} // verus!
