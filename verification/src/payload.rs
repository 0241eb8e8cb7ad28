//! Payload compiler: the pure mapping from the field model plus a resolved
//! timestamp to a fully formed presence payload, applying every omission
//! rule. Absence of a field is a valid terminal state, never an error.

use vstd::prelude::*;

use crate::fields::{ButtonSlot, FieldModel, ImageSlot};

verus! {

/// The party occupancy block. The external protocol carries the pair as
/// `[capacity, size]`, capacity first.
#[derive(Debug, Clone, Copy, PartialEq, Eq, Structural)]
pub struct PartyBlock {
    pub capacity: u8,
    pub size: u8,
}

/// A fully formed presence payload, ready for transport: each optional field
/// is either present with its final text or omitted outright, and the button
/// list is empty exactly when no button qualified.
#[derive(Debug, Clone, PartialEq)]
pub struct Payload {
    pub details: Option<String>,
    pub state: Option<String>,
    pub start: Option<i64>,
    pub large_image_key: Option<String>,
    pub large_image_label: Option<String>,
    pub small_image_key: Option<String>,
    pub small_image_label: Option<String>,
    pub buttons: Vec<ButtonSlot>,
    pub party: Option<PartyBlock>,
}

/// A free-text line is kept exactly when it is non-empty.
pub open spec fn kept(s: String) -> Option<String> {
    if s@.len() > 0 {
        Some(s)
    } else {
        None
    }
}

/// An image label is attached only alongside an included key, and only when
/// the label itself is non-empty.
pub open spec fn attached_label(slot: ImageSlot) -> Option<String> {
    if slot.key@.len() > 0 && slot.label@.len() > 0 {
        Some(slot.label)
    } else {
        None
    }
}

/// A button slot qualifies exactly when both its label and its url are
/// non-empty.
pub open spec fn button_included(b: ButtonSlot) -> bool {
    b.label@.len() > 0 && b.url@.len() > 0
}

pub open spec fn button_seq(b: ButtonSlot) -> Seq<ButtonSlot> {
    if button_included(b) {
        seq![b]
    } else {
        Seq::empty()
    }
}

/// The buttons of the payload: the qualifying slots in declaration order,
/// the first slot before the second.
pub open spec fn compiled_buttons(f: FieldModel) -> Seq<ButtonSlot> {
    button_seq(f.button1) + button_seq(f.button2)
}

/// A party block is carried exactly when the party has members and a state
/// line gives it something to be a party of.
pub open spec fn compiled_party(f: FieldModel) -> Option<PartyBlock> {
    if f.party_size != 0 && f.state@.len() > 0 {
        Some(PartyBlock { capacity: f.party_capacity, size: f.party_size })
    } else {
        None
    }
}

/// What it means for payload `p` to be the compilation of field model `f`
/// with resolved timestamp `start`: every omission rule applied, field by
/// field.
pub open spec fn compiles_to(f: FieldModel, start: Option<i64>, p: Payload) -> bool {
    &&& p.details == kept(f.details)
    &&& p.state == kept(f.state)
    &&& p.start == start
    &&& p.large_image_key == kept(f.large_image.key)
    &&& p.large_image_label == attached_label(f.large_image)
    &&& p.small_image_key == kept(f.small_image.key)
    &&& p.small_image_label == attached_label(f.small_image)
    &&& p.buttons@ == compiled_buttons(f)
    &&& p.party == compiled_party(f)
}

fn keep_nonempty(s: &String) -> (r: Option<String>)
    ensures
        r == kept(*s),
{
    if s.as_str().is_empty() {
        None
    } else {
        Some(s.clone())
    }
}

fn attach_label(slot: &ImageSlot) -> (r: Option<String>)
    ensures
        r == attached_label(*slot),
{
    if !slot.key.as_str().is_empty() && !slot.label.as_str().is_empty() {
        Some(slot.label.clone())
    } else {
        None
    }
}

fn include_button(b: &ButtonSlot) -> (r: bool)
    ensures
        r == button_included(*b),
{
    !b.label.as_str().is_empty() && !b.url.as_str().is_empty()
}

/// Compiles the field model and a resolved timestamp into the presence
/// payload. Pure and deterministic: the result is pinned down, rule by rule,
/// by `compiles_to`.
pub fn compile(fields: &FieldModel, start: Option<i64>) -> (r: Payload)
    ensures
        compiles_to(*fields, start, r),
{
    let mut buttons: Vec<ButtonSlot> = Vec::new();
    if include_button(&fields.button1) {
        buttons.push(fields.button1.clone());
    }
    if include_button(&fields.button2) {
        buttons.push(fields.button2.clone());
    }
    proof {
        assert(buttons@ =~= compiled_buttons(*fields));
    }
    let party: Option<PartyBlock> = if fields.party_size != 0 && !fields.state.as_str().is_empty() {
        Some(PartyBlock { capacity: fields.party_capacity, size: fields.party_size })
    } else {
        None
    };
    Payload {
        details: keep_nonempty(&fields.details),
        state: keep_nonempty(&fields.state),
        start,
        large_image_key: keep_nonempty(&fields.large_image.key),
        large_image_label: attach_label(&fields.large_image),
        small_image_key: keep_nonempty(&fields.small_image.key),
        small_image_label: attach_label(&fields.small_image),
        buttons,
        party,
    }
}

/// A field model with no text, no image keys and no qualifying button
/// compiles to a payload with no optional field at all except possibly the
/// timestamp. No assumption on the party pair is needed: with an empty state
/// line the party block is omitted whatever the occupancy says.
pub proof fn lemma_minimal_fields_minimal_payload(f: FieldModel, start: Option<i64>, p: Payload)
    requires
        compiles_to(f, start, p),
        f.details@.len() == 0,
        f.state@.len() == 0,
        f.large_image.key@.len() == 0,
        f.small_image.key@.len() == 0,
        !button_included(f.button1),
        !button_included(f.button2),
    ensures
        p.details is None,
        p.state is None,
        p.large_image_key is None,
        p.large_image_label is None,
        p.small_image_key is None,
        p.small_image_label is None,
        p.buttons@ == Seq::<ButtonSlot>::empty(),
        p.party is None,
        p.start == start,
{
    assert(p.buttons@ =~= Seq::<ButtonSlot>::empty());
}

/// Each button slot reaches the payload exactly when both its label and its
/// url are non-empty — each slot independently, for every combination of
/// emptiness of the four texts — and the first slot precedes the second when
/// both qualify.
pub proof fn lemma_button_slots(f: FieldModel, start: Option<i64>, p: Payload)
    requires
        compiles_to(f, start, p),
    ensures
        button_included(f.button1) && button_included(f.button2) ==> p.buttons@ == seq![
            f.button1,
            f.button2,
        ],
        button_included(f.button1) && !button_included(f.button2) ==> p.buttons@ == seq![f.button1],
        !button_included(f.button1) && button_included(f.button2) ==> p.buttons@ == seq![f.button2],
        !button_included(f.button1) && !button_included(f.button2) ==> p.buttons@ == Seq::<
            ButtonSlot,
        >::empty(),
{
    if button_included(f.button1) && button_included(f.button2) {
        assert(p.buttons@ =~= seq![f.button1, f.button2]);
    } else if button_included(f.button1) {
        assert(p.buttons@ =~= seq![f.button1]);
    } else if button_included(f.button2) {
        assert(p.buttons@ =~= seq![f.button2]);
    } else {
        assert(p.buttons@ =~= Seq::<ButtonSlot>::empty());
    }
}

/// The party block is present exactly when the party size is non-zero and
/// the state line is non-empty; when present it carries capacity first, then
/// size.
pub proof fn lemma_party_block(f: FieldModel, start: Option<i64>, p: Payload)
    requires
        compiles_to(f, start, p),
    ensures
        (p.party is Some) <==> (f.party_size != 0 && f.state@.len() > 0),
        f.party_size != 0 && f.state@.len() > 0 ==> p.party == Some(
            PartyBlock { capacity: f.party_capacity, size: f.party_size },
        ),
{
}

} // verus!
