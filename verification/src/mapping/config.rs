//! The mapping configuration: binding descriptors, the thirteen gesture
//! families and their entries, whole-config validation, and the bound form
//! that assigns each entry its action slot.
//!
//! Each gesture family accepts exactly one kind of binding (held/released,
//! edge-triggered, or two-axis); an entry whose binding kind does not match
//! its family is invalid, and a family may fill at most
//! [`MAX_SLOTS_PER_FAMILY`] slots. Validation checks the whole configuration
//! and reports one message per violation, never only the first.
use vstd::prelude::*;

use crate::lemma_take_filter_step;
use crate::mapping::utils::{Position, Size};

verus! {

/// How many action slots each gesture family offers.
pub const MAX_SLOTS_PER_FAMILY: usize = 32;

/// The input kind a binding can be queried for: a continuously held button,
/// an edge-triggered pulse, or a two-axis analog value in [-1, 1] per axis.
#[derive(Clone, Copy, Debug, PartialEq, Eq, Structural)]
pub enum BindingKind {
    Continuous,
    Pulse,
    DualAxis,
}

/// A chord of physical buttons, each named as the input layer names it.
#[derive(Clone, Debug)]
pub struct ButtonBinding {
    pub keys: Vec<String>,
}

impl ButtonBinding {
    /// A chord of the given buttons.
    pub fn new(keys: Vec<String>) -> (r: ButtonBinding)
        ensures
            r.keys == keys,
    {
        ButtonBinding { keys }
    }
}

/// A two-axis binding: four directional buttons, or a physical stick's axes.
#[derive(Clone, Debug)]
pub enum DirectionBinding {
    Button { up: ButtonBinding, down: ButtonBinding, left: ButtonBinding, right: ButtonBinding },
    JoyStick { x: String, y: String },
}

/// The raw binding descriptor of a mapping entry.
#[derive(Clone, Debug)]
pub enum InputBinding {
    Continuous(ButtonBinding),
    Pulse(ButtonBinding),
    DualAxis(DirectionBinding),
}

impl InputBinding {
    /// The kind of input this binding provides.
    pub open spec fn spec_kind(self) -> BindingKind {
        match self {
            InputBinding::Continuous(_) => BindingKind::Continuous,
            InputBinding::Pulse(_) => BindingKind::Pulse,
            InputBinding::DualAxis(_) => BindingKind::DualAxis,
        }
    }

    /// Exec mirror of [`InputBinding::spec_kind`].
    pub fn kind(&self) -> (r: BindingKind)
        ensures
            r == self.spec_kind(),
    {
        match self {
            InputBinding::Continuous(_) => BindingKind::Continuous,
            InputBinding::Pulse(_) => BindingKind::Pulse,
            InputBinding::DualAxis(_) => BindingKind::DualAxis,
        }
    }
}

/// One gesture family, or the companion aim axis of a pad cast.
#[derive(Clone, Copy, Debug, PartialEq, Eq, Structural)]
pub enum GestureFamily {
    SingleTap,
    RepeatTap,
    MultipleTap,
    Swipe,
    DirectionPad,
    MouseCastSpell,
    PadCastSpell,
    CancelCast,
    Observation,
    Fps,
    Fire,
    RawInput,
    Script,
    PadCastDirection,
}

/// When a cast gesture's Up event fires relative to the bound button, for a
/// mouse-aimed cast.
#[derive(Clone, Copy, Debug, PartialEq, Eq, Structural)]
pub enum MouseCastReleaseMode {
    OnRelease,
    OnPress,
    OnSecondPress,
}

/// When a cast gesture's Up event fires relative to the bound button, for a
/// pad-aimed cast.
#[derive(Clone, Copy, Debug, PartialEq, Eq, Structural)]
pub enum PadCastReleaseMode {
    OnRelease,
    OnPress,
    OnSecondPress,
}

/// Tap once: Down on activation; Up after `duration` milliseconds, or on
/// deactivation when `sync` is set.
#[derive(Clone, Debug)]
pub struct MappingSingleTap {
    pub position: Position,
    pub note: String,
    pub pointer_id: u64,
    pub duration: u64,
    pub sync: bool,
    pub bind: InputBinding,
}

/// Tap over and over while held: every `interval` milliseconds a Down, held
/// for `duration` milliseconds, then an Up.
#[derive(Clone, Debug)]
pub struct MappingRepeatTap {
    pub position: Position,
    pub note: String,
    pub pointer_id: u64,
    pub duration: u64,
    pub interval: u32,
    pub bind: InputBinding,
}

/// One step of a multi-step tap: wait, Down at the position, hold, Up.
#[derive(Clone, Debug)]
pub struct MappingMultipleTapItem {
    pub position: Position,
    pub duration: u64,
    pub wait: u64,
}

/// On pulse, run a fixed sequence of taps back to back, independent of
/// further input.
#[derive(Clone, Debug)]
pub struct MappingMultipleTap {
    pub note: String,
    pub pointer_id: u64,
    pub items: Vec<MappingMultipleTapItem>,
    pub bind: InputBinding,
}

/// On pulse, Down at the first waypoint, eased Move events along the
/// waypoints, Up at the last.
#[derive(Clone, Debug)]
pub struct MappingSwipe {
    pub note: String,
    pub pointer_id: u64,
    pub positions: Vec<Position>,
    pub interval: u64,
    pub bind: InputBinding,
}

/// A virtual direction pad: the two-axis value, clipped to an ellipse with
/// the given maximum offsets, holds the pointer down at `position` plus the
/// offset; engagement ramps in over `initial_duration` milliseconds.
#[derive(Clone, Debug)]
pub struct MappingDirectionPad {
    pub note: String,
    pub pointer_id: u64,
    pub position: Position,
    pub initial_duration: u64,
    pub max_offset_x: u32,
    pub max_offset_y: u32,
    pub bind: InputBinding,
}

/// A spell cast aimed with the mouse: the pointer is dragged within
/// `drag_radius` around `position`, aiming from `center` scaled by the two
/// factors (in thousandths), released according to `release_mode`.
#[derive(Clone, Debug)]
pub struct MappingMouseCastSpell {
    pub note: String,
    pub pointer_id: u64,
    pub position: Position,
    pub center: Position,
    pub horizontal_scale_factor: u32,
    pub vertical_scale_factor: u32,
    pub drag_radius: u32,
    pub cast_radius: u32,
    pub release_mode: MouseCastReleaseMode,
    pub cast_no_direction: bool,
    pub bind: InputBinding,
}

/// A spell cast aimed with a companion direction pad.
#[derive(Clone, Debug)]
pub struct MappingPadCastSpell {
    pub note: String,
    pub pointer_id: u64,
    pub position: Position,
    pub release_mode: PadCastReleaseMode,
    pub drag_radius: u32,
    pub block_direction_pad: bool,
    pub pad_bind: DirectionBinding,
    pub bind: InputBinding,
}

/// On pulse, a single Down/Up pair at the cancel position.
#[derive(Clone, Debug)]
pub struct MappingCancelCast {
    pub note: String,
    pub position: Position,
    pub bind: InputBinding,
}

/// While held, drag the view: Down at the anchor, Move by the cursor's travel
/// scaled by the sensitivities (in thousandths), Up on release.
#[derive(Clone, Debug)]
pub struct MappingObservation {
    pub note: String,
    pub pointer_id: u64,
    pub position: Position,
    pub sensitivity_x: u32,
    pub sensitivity_y: u32,
    pub bind: InputBinding,
}

/// Toggle first-person aiming: the cursor is captured and its travel drives
/// Move events from the anchor, scaled by the sensitivities (thousandths).
#[derive(Clone, Debug)]
pub struct MappingFps {
    pub note: String,
    pub pointer_id: u64,
    pub position: Position,
    pub sensitivity_x: u32,
    pub sensitivity_y: u32,
    pub bind: InputBinding,
}

/// While held, fire: like observation, anchored at the fire button.
#[derive(Clone, Debug)]
pub struct MappingFire {
    pub note: String,
    pub pointer_id: u64,
    pub position: Position,
    pub sensitivity_x: u32,
    pub sensitivity_y: u32,
    pub bind: InputBinding,
}

/// On pulse, pass the bound key through as a raw key injection.
#[derive(Clone, Debug)]
pub struct MappingRawInput {
    pub note: String,
    pub position: Position,
    pub bind: InputBinding,
}

/// User-supplied scripts run on activation, periodically while held, and on
/// deactivation; the engine only decides when each hook fires.
#[derive(Clone, Debug)]
pub struct MappingScript {
    pub position: Position,
    pub note: String,
    pub activated_script: String,
    pub deactivated_script: String,
    pub activating_script: String,
    pub interval: u64,
    pub bind: InputBinding,
}

/// One mapping entry, tagged by its gesture family.
#[derive(Clone, Debug)]
pub enum MappingType {
    SingleTap(MappingSingleTap),
    RepeatTap(MappingRepeatTap),
    MultipleTap(MappingMultipleTap),
    Swipe(MappingSwipe),
    DirectionPad(MappingDirectionPad),
    MouseCastSpell(MappingMouseCastSpell),
    PadCastSpell(MappingPadCastSpell),
    CancelCast(MappingCancelCast),
    Observation(MappingObservation),
    Fps(MappingFps),
    Fire(MappingFire),
    RawInput(MappingRawInput),
    Script(MappingScript),
}

impl MappingType {
    /// The gesture family of this entry.
    pub open spec fn spec_family(self) -> GestureFamily {
        match self {
            MappingType::SingleTap(_) => GestureFamily::SingleTap,
            MappingType::RepeatTap(_) => GestureFamily::RepeatTap,
            MappingType::MultipleTap(_) => GestureFamily::MultipleTap,
            MappingType::Swipe(_) => GestureFamily::Swipe,
            MappingType::DirectionPad(_) => GestureFamily::DirectionPad,
            MappingType::MouseCastSpell(_) => GestureFamily::MouseCastSpell,
            MappingType::PadCastSpell(_) => GestureFamily::PadCastSpell,
            MappingType::CancelCast(_) => GestureFamily::CancelCast,
            MappingType::Observation(_) => GestureFamily::Observation,
            MappingType::Fps(_) => GestureFamily::Fps,
            MappingType::Fire(_) => GestureFamily::Fire,
            MappingType::RawInput(_) => GestureFamily::RawInput,
            MappingType::Script(_) => GestureFamily::Script,
        }
    }

    /// Exec mirror of [`MappingType::spec_family`].
    pub fn family(&self) -> (r: GestureFamily)
        ensures
            r == self.spec_family(),
    {
        match self {
            MappingType::SingleTap(_) => GestureFamily::SingleTap,
            MappingType::RepeatTap(_) => GestureFamily::RepeatTap,
            MappingType::MultipleTap(_) => GestureFamily::MultipleTap,
            MappingType::Swipe(_) => GestureFamily::Swipe,
            MappingType::DirectionPad(_) => GestureFamily::DirectionPad,
            MappingType::MouseCastSpell(_) => GestureFamily::MouseCastSpell,
            MappingType::PadCastSpell(_) => GestureFamily::PadCastSpell,
            MappingType::CancelCast(_) => GestureFamily::CancelCast,
            MappingType::Observation(_) => GestureFamily::Observation,
            MappingType::Fps(_) => GestureFamily::Fps,
            MappingType::Fire(_) => GestureFamily::Fire,
            MappingType::RawInput(_) => GestureFamily::RawInput,
            MappingType::Script(_) => GestureFamily::Script,
        }
    }

    /// The raw binding descriptor of this entry.
    pub open spec fn spec_bind(self) -> InputBinding {
        match self {
            MappingType::SingleTap(m) => m.bind,
            MappingType::RepeatTap(m) => m.bind,
            MappingType::MultipleTap(m) => m.bind,
            MappingType::Swipe(m) => m.bind,
            MappingType::DirectionPad(m) => m.bind,
            MappingType::MouseCastSpell(m) => m.bind,
            MappingType::PadCastSpell(m) => m.bind,
            MappingType::CancelCast(m) => m.bind,
            MappingType::Observation(m) => m.bind,
            MappingType::Fps(m) => m.bind,
            MappingType::Fire(m) => m.bind,
            MappingType::RawInput(m) => m.bind,
            MappingType::Script(m) => m.bind,
        }
    }

    /// The name of this entry's gesture family.
    pub fn family_name(&self) -> (r: String)
        ensures
            r@ == spec_family_name(self.spec_family()),
    {
        match self {
            MappingType::SingleTap(_) => "SingleTap".to_owned(),
            MappingType::RepeatTap(_) => "RepeatTap".to_owned(),
            MappingType::MultipleTap(_) => "MultipleTap".to_owned(),
            MappingType::Swipe(_) => "Swipe".to_owned(),
            MappingType::DirectionPad(_) => "DirectionPad".to_owned(),
            MappingType::MouseCastSpell(_) => "MouseCastSpell".to_owned(),
            MappingType::PadCastSpell(_) => "PadCastSpell".to_owned(),
            MappingType::CancelCast(_) => "CancelCast".to_owned(),
            MappingType::Observation(_) => "Observation".to_owned(),
            MappingType::Fps(_) => "Fps".to_owned(),
            MappingType::Fire(_) => "Fire".to_owned(),
            MappingType::RawInput(_) => "RawInput".to_owned(),
            MappingType::Script(_) => "Script".to_owned(),
        }
    }
}

/// The name of a gesture family, as it appears in validation messages.
pub open spec fn spec_family_name(f: GestureFamily) -> Seq<char> {
    match f {
        GestureFamily::SingleTap => "SingleTap"@,
        GestureFamily::RepeatTap => "RepeatTap"@,
        GestureFamily::MultipleTap => "MultipleTap"@,
        GestureFamily::Swipe => "Swipe"@,
        GestureFamily::DirectionPad => "DirectionPad"@,
        GestureFamily::MouseCastSpell => "MouseCastSpell"@,
        GestureFamily::PadCastSpell => "PadCastSpell"@,
        GestureFamily::CancelCast => "CancelCast"@,
        GestureFamily::Observation => "Observation"@,
        GestureFamily::Fps => "Fps"@,
        GestureFamily::Fire => "Fire"@,
        GestureFamily::RawInput => "RawInput"@,
        GestureFamily::Script => "Script"@,
        GestureFamily::PadCastDirection => "PadCastDirection"@,
    }
}

/// The binding kind a gesture family requires of its entries.
pub open spec fn spec_required_kind(f: GestureFamily) -> BindingKind {
    match f {
        GestureFamily::SingleTap => BindingKind::Continuous,
        GestureFamily::RepeatTap => BindingKind::Continuous,
        GestureFamily::MultipleTap => BindingKind::Pulse,
        GestureFamily::Swipe => BindingKind::Pulse,
        GestureFamily::DirectionPad => BindingKind::DualAxis,
        GestureFamily::MouseCastSpell => BindingKind::Continuous,
        GestureFamily::PadCastSpell => BindingKind::Continuous,
        GestureFamily::CancelCast => BindingKind::Pulse,
        GestureFamily::Observation => BindingKind::Continuous,
        GestureFamily::Fps => BindingKind::Pulse,
        GestureFamily::Fire => BindingKind::Continuous,
        GestureFamily::RawInput => BindingKind::Pulse,
        GestureFamily::Script => BindingKind::Continuous,
        GestureFamily::PadCastDirection => BindingKind::DualAxis,
    }
}

/// Exec mirror of [`spec_required_kind`].
pub fn required_kind(f: GestureFamily) -> (r: BindingKind)
    ensures
        r == spec_required_kind(f),
{
    match f {
        GestureFamily::SingleTap => BindingKind::Continuous,
        GestureFamily::RepeatTap => BindingKind::Continuous,
        GestureFamily::MultipleTap => BindingKind::Pulse,
        GestureFamily::Swipe => BindingKind::Pulse,
        GestureFamily::DirectionPad => BindingKind::DualAxis,
        GestureFamily::MouseCastSpell => BindingKind::Continuous,
        GestureFamily::PadCastSpell => BindingKind::Continuous,
        GestureFamily::CancelCast => BindingKind::Pulse,
        GestureFamily::Observation => BindingKind::Continuous,
        GestureFamily::Fps => BindingKind::Pulse,
        GestureFamily::Fire => BindingKind::Continuous,
        GestureFamily::RawInput => BindingKind::Pulse,
        GestureFamily::Script => BindingKind::Continuous,
        GestureFamily::PadCastDirection => BindingKind::DualAxis,
    }
}

/// The dense index of a gesture family, used to count slots per family.
pub open spec fn spec_family_idx(f: GestureFamily) -> int {
    match f {
        GestureFamily::SingleTap => 0,
        GestureFamily::RepeatTap => 1,
        GestureFamily::MultipleTap => 2,
        GestureFamily::Swipe => 3,
        GestureFamily::DirectionPad => 4,
        GestureFamily::MouseCastSpell => 5,
        GestureFamily::PadCastSpell => 6,
        GestureFamily::CancelCast => 7,
        GestureFamily::Observation => 8,
        GestureFamily::Fps => 9,
        GestureFamily::Fire => 10,
        GestureFamily::RawInput => 11,
        GestureFamily::Script => 12,
        GestureFamily::PadCastDirection => 13,
    }
}

/// Exec mirror of [`spec_family_idx`].
pub fn family_idx(f: GestureFamily) -> (r: usize)
    ensures
        r == spec_family_idx(f),
        r < 14,
{
    match f {
        GestureFamily::SingleTap => 0,
        GestureFamily::RepeatTap => 1,
        GestureFamily::MultipleTap => 2,
        GestureFamily::Swipe => 3,
        GestureFamily::DirectionPad => 4,
        GestureFamily::MouseCastSpell => 5,
        GestureFamily::PadCastSpell => 6,
        GestureFamily::CancelCast => 7,
        GestureFamily::Observation => 8,
        GestureFamily::Fps => 9,
        GestureFamily::Fire => 10,
        GestureFamily::RawInput => 11,
        GestureFamily::Script => 12,
        GestureFamily::PadCastDirection => 13,
    }
}

/// An entry is valid when its binding kind is the one its family requires.
pub open spec fn spec_entry_valid(m: MappingType) -> bool {
    m.spec_bind().spec_kind() == spec_required_kind(m.spec_family())
}

/// Exec mirror of [`spec_entry_valid`].
pub fn entry_valid(m: &MappingType) -> (r: bool)
    ensures
        r == spec_entry_valid(*m),
{
    let bind = match m {
        MappingType::SingleTap(e) => &e.bind,
        MappingType::RepeatTap(e) => &e.bind,
        MappingType::MultipleTap(e) => &e.bind,
        MappingType::Swipe(e) => &e.bind,
        MappingType::DirectionPad(e) => &e.bind,
        MappingType::MouseCastSpell(e) => &e.bind,
        MappingType::PadCastSpell(e) => &e.bind,
        MappingType::CancelCast(e) => &e.bind,
        MappingType::Observation(e) => &e.bind,
        MappingType::Fps(e) => &e.bind,
        MappingType::Fire(e) => &e.bind,
        MappingType::RawInput(e) => &e.bind,
        MappingType::Script(e) => &e.bind,
    };
    let want = required_kind(m.family());
    let got = bind.kind();
    match (got, want) {
        (BindingKind::Continuous, BindingKind::Continuous) => true,
        (BindingKind::Pulse, BindingKind::Pulse) => true,
        (BindingKind::DualAxis, BindingKind::DualAxis) => true,
        _ => false,
    }
}

/// How many of the first `upto` entries belong to the family with dense
/// index `f`.
pub open spec fn spec_family_count(s: Seq<MappingType>, f: int, upto: int) -> int {
    s.take(upto).filter(|m: MappingType| spec_family_idx(m.spec_family()) == f).len() as int
}

/// A named, versioned collection of mapping entries together with the
/// authoring resolution they were designed against. Loaded, validated and
/// activated wholesale — never edited entry by entry while active.
#[derive(Clone, Debug)]
pub struct MappingConfig {
    pub version: String,
    pub original_size: Size,
    pub mappings: Vec<MappingType>,
}

/// A configuration is valid when every entry's binding kind matches its
/// family and no entry is ever the thirty-third of its family — that is, no
/// family exceeds its slots.
pub open spec fn spec_config_valid(s: Seq<MappingType>) -> bool {
    forall|i: int|
        0 <= i < s.len() ==> (spec_entry_valid(#[trigger] s[i]) && spec_family_count(
            s,
            spec_family_idx(s[i].spec_family()),
            i + 1,
        ) <= MAX_SLOTS_PER_FAMILY)
}

/// How many violations the first `upto` entries hold: one per entry with a
/// mismatched binding kind, and one per entry beyond its family's slots.
pub open spec fn spec_violations(s: Seq<MappingType>, upto: int) -> int
    decreases upto,
{
    if upto <= 0 {
        0
    } else {
        spec_violations(s, upto - 1) + (if spec_family_count(
            s,
            spec_family_idx(s[upto - 1].spec_family()),
            upto,
        ) > MAX_SLOTS_PER_FAMILY {
            1int
        } else {
            0int
        }) + (if !spec_entry_valid(s[upto - 1]) {
            1int
        } else {
            0int
        })
    }
}

/// The message reported when an entry overflows its family's slots.
pub open spec fn spec_overflow_msg(f: GestureFamily) -> Seq<char> {
    spec_family_name(f) + " has more entries than its gesture family has slots"@
}

/// The message reported when an entry's binding kind does not match its
/// family.
pub open spec fn spec_kind_msg(f: GestureFamily) -> Seq<char> {
    spec_family_name(f) + " entry has a binding of the wrong kind"@
}

/// The messages the first `upto` entries earn, in entry order: for an entry
/// beyond its family's slots its overflow message, then for a mismatched
/// binding kind its kind message.
pub open spec fn spec_violation_msgs(s: Seq<MappingType>, upto: int) -> Seq<Seq<char>>
    decreases upto,
{
    if upto <= 0 {
        Seq::<Seq<char>>::empty()
    } else {
        let prev = spec_violation_msgs(s, upto - 1);
        let fam = s[upto - 1].spec_family();
        let with_over = if spec_family_count(s, spec_family_idx(fam), upto)
            > MAX_SLOTS_PER_FAMILY {
            prev.push(spec_overflow_msg(fam))
        } else {
            prev
        };
        if !spec_entry_valid(s[upto - 1]) {
            with_over.push(spec_kind_msg(fam))
        } else {
            with_over
        }
    }
}

/// Law: the message list holds exactly one message per violation.
pub proof fn lemma_violation_msgs_len(s: Seq<MappingType>, upto: int)
    ensures
        spec_violation_msgs(s, upto).len() == spec_violations(s, upto),
    decreases upto,
{
    if upto > 0 {
        lemma_violation_msgs_len(s, upto - 1);
    }
}

/// Law: a prefix holds no violation exactly when each of its entries is
/// valid and within its family's slots.
pub proof fn lemma_violations_zero(s: Seq<MappingType>, upto: int)
    requires
        0 <= upto <= s.len(),
    ensures
        spec_violations(s, upto) == 0 <==> (forall|i: int|
            0 <= i < upto ==> (spec_entry_valid(#[trigger] s[i]) && spec_family_count(
                s,
                spec_family_idx(s[i].spec_family()),
                i + 1,
            ) <= MAX_SLOTS_PER_FAMILY)),
    decreases upto,
{
    if upto > 0 {
        lemma_violations_zero(s, upto - 1);
        lemma_violations_nonneg(s, upto - 1);
    }
}

/// Law: the violation count never goes negative.
pub proof fn lemma_violations_nonneg(s: Seq<MappingType>, upto: int)
    ensures
        spec_violations(s, upto) >= 0,
    decreases upto,
{
    if upto > 0 {
        lemma_violations_nonneg(s, upto - 1);
    }
}

/// Law: a longer prefix never holds fewer entries of a family.
pub proof fn lemma_family_count_monotone(s: Seq<MappingType>, f: int, a: int, b: int)
    requires
        0 <= a <= b <= s.len(),
    ensures
        spec_family_count(s, f, a) <= spec_family_count(s, f, b),
    decreases b - a,
{
    if a < b {
        lemma_family_count_monotone(s, f, a, b - 1);
        lemma_take_filter_step(s, |m: MappingType| spec_family_idx(m.spec_family()) == f, b - 1);
    }
}

/// Law: when a prefix holds more entries of a family than some bound, one of
/// its entries is exactly the one that first passes the bound.
proof fn lemma_family_count_threshold(s: Seq<MappingType>, f: int, upto: int, bound: int)
    requires
        0 <= upto <= s.len(),
        0 <= bound,
        spec_family_count(s, f, upto) > bound,
    ensures
        exists|i: int|
            0 <= i < upto && spec_family_idx((#[trigger] s[i]).spec_family()) == f
                && spec_family_count(s, f, i + 1) == bound + 1,
    decreases upto,
{
    assert(spec_family_count(s, f, 0) == 0) by {
        assert(s.take(0) =~= Seq::<MappingType>::empty());
        assert(Seq::<MappingType>::empty().filter(
            |m: MappingType| spec_family_idx(m.spec_family()) == f,
        ) =~= Seq::<MappingType>::empty());
    }
    if upto > 0 {
        lemma_take_filter_step(s, |m: MappingType| spec_family_idx(m.spec_family()) == f, upto - 1);
        if spec_family_count(s, f, upto - 1) > bound {
            lemma_family_count_threshold(s, f, upto - 1, bound);
        } else {
            // the prefix one shorter is within the bound, so the last entry
            // is the one that passes it
            assert(spec_family_idx(s[upto - 1].spec_family()) == f);
            assert(spec_family_count(s, f, upto) == bound + 1);
        }
    }
}

/// Law: a configuration is valid exactly when every entry's binding kind
/// matches its family and no family holds more entries, in total, than it
/// has slots.
pub proof fn lemma_config_valid_totals(s: Seq<MappingType>)
    ensures
        spec_config_valid(s) <==> ((forall|i: int|
            0 <= i < s.len() ==> spec_entry_valid(#[trigger] s[i])) && (forall|f: int|
            0 <= f < 14 ==> spec_family_count(s, f, s.len() as int) <= MAX_SLOTS_PER_FAMILY)),
{
    if spec_config_valid(s) {
        assert forall|f: int| 0 <= f < 14 implies spec_family_count(s, f, s.len() as int)
            <= MAX_SLOTS_PER_FAMILY by {
            if spec_family_count(s, f, s.len() as int) > MAX_SLOTS_PER_FAMILY {
                lemma_family_count_threshold(s, f, s.len() as int, MAX_SLOTS_PER_FAMILY as int);
                let i = choose|i: int|
                    0 <= i < s.len() && spec_family_idx((#[trigger] s[i]).spec_family()) == f
                        && spec_family_count(s, f, i + 1) == MAX_SLOTS_PER_FAMILY + 1;
                assert(spec_family_count(s, spec_family_idx(s[i].spec_family()), i + 1)
                    > MAX_SLOTS_PER_FAMILY);
            }
        }
    }
    if (forall|i: int| 0 <= i < s.len() ==> spec_entry_valid(#[trigger] s[i])) && (forall|f: int|
        0 <= f < 14 ==> spec_family_count(s, f, s.len() as int) <= MAX_SLOTS_PER_FAMILY) {
        assert forall|i: int| 0 <= i < s.len() implies (spec_entry_valid(#[trigger] s[i])
            && spec_family_count(s, spec_family_idx(s[i].spec_family()), i + 1)
            <= MAX_SLOTS_PER_FAMILY) by {
            let f = spec_family_idx(s[i].spec_family());
            assert(0 <= f < 14);
            lemma_family_count_monotone(s, f, i + 1, s.len() as int);
        }
    }
}

/// Validates a whole configuration: accepts exactly when every entry's
/// binding kind matches its gesture family and no family exceeds its slots;
/// a rejected configuration reports one message per violation, accumulated
/// over the whole list rather than stopping at the first, each message
/// naming the offending entry's family and the rule it broke.
pub fn validate_mapping_config(config: &MappingConfig) -> (r: Result<(), Vec<String>>)
    ensures
        r is Ok <==> spec_config_valid(config.mappings@),
        r matches Err(errs) ==> errs@.len() == spec_violations(
            config.mappings@,
            config.mappings@.len() as int,
        ) && errs@.len() > 0 && errs@.map_values(|e: String| e@) == spec_violation_msgs(
            config.mappings@,
            config.mappings@.len() as int,
        ),
{
    let ghost s = config.mappings@;
    let n: usize = config.mappings.len();
    let mut errs: Vec<String> = Vec::new();
    let mut counts: Vec<usize> = vec![0, 0, 0, 0, 0, 0, 0, 0, 0, 0, 0, 0, 0, 0];
    let mut i: usize = 0;
    proof {
        assert(errs@.map_values(|e: String| e@) =~= spec_violation_msgs(s, 0));
    }
    while i < n
        invariant
            i <= n == s.len(),
            config.mappings@ == s,
            counts@.len() == 14,
            forall|f: int| 0 <= f < 14 ==> counts@[f] == spec_family_count(s, f, i as int),
            errs@.len() == spec_violations(s, i as int),
            errs@.map_values(|e: String| e@) == spec_violation_msgs(s, i as int),
        decreases n - i,
    {
        let m = &config.mappings[i];
        let fam = family_idx(m.family());
        proof {
            assert(counts@[fam as int] <= s.take(i as int).len()) by {
                broadcast use vstd::seq_lib::group_filter_ensures;

            }
            assert forall|f: int| 0 <= f < 14 implies spec_family_count(s, f, i as int + 1) == (
            if spec_family_idx(s[i as int].spec_family()) == f {
                spec_family_count(s, f, i as int) + 1
            } else {
                spec_family_count(s, f, i as int)
            }) by {
                lemma_take_filter_step(
                    s,
                    |m: MappingType| spec_family_idx(m.spec_family()) == f,
                    i as int,
                );
            }
        }
        let c = counts[fam] + 1;
        counts[fam] = c;
        if c > MAX_SLOTS_PER_FAMILY {
            errs.push(
                m.family_name().concat(" has more entries than its gesture family has slots"),
            );
            proof {
                assert(errs@.map_values(|e: String| e@) =~= spec_violation_msgs(
                    s,
                    i as int,
                ).push(spec_overflow_msg(s[i as int].spec_family())));
            }
        }
        if !entry_valid(m) {
            let ghost before_kind = errs@.map_values(|e: String| e@);
            errs.push(m.family_name().concat(" entry has a binding of the wrong kind"));
            proof {
                assert(errs@.map_values(|e: String| e@) =~= before_kind.push(
                    spec_kind_msg(s[i as int].spec_family()),
                ));
            }
        }
        proof {
            assert(errs@.map_values(|e: String| e@) =~= spec_violation_msgs(s, i as int + 1));
        }
        i = i + 1;
    }
    proof {
        lemma_violations_zero(s, n as int);
        lemma_violations_nonneg(s, n as int);
        lemma_violation_msgs_len(s, n as int);
    }
    if errs.len() == 0 {
        Ok(())
    } else {
        Err(errs)
    }
}

/// One configurable binding slot: a gesture family together with a slot
/// number in `1 ..= MAX_SLOTS_PER_FAMILY`.
#[derive(Clone, Copy, Debug, PartialEq, Eq, Structural)]
pub struct MappingAction {
    pub family: GestureFamily,
    pub slot: u32,
}

/// A validated configuration bound to action slots: the entries in order,
/// each paired with the action that polls it. Entry `i` of a family takes
/// that family's `i`-th slot, counting from one.
#[derive(Clone, Debug)]
pub struct BindMappingConfig {
    pub version: String,
    pub original_size: Size,
    pub mappings: Vec<(MappingAction, MappingType)>,
}

impl BindMappingConfig {
    /// Binds a configuration's entries to action slots in order.
    pub fn from_config(value: MappingConfig) -> (r: BindMappingConfig)
        requires
            value.mappings@.len() <= 0xffff_ffff,
        ensures
            r.version == value.version,
            r.original_size == value.original_size,
            r.mappings@.len() == value.mappings@.len(),
            forall|i: int|
                0 <= i < value.mappings@.len() ==> (#[trigger] r.mappings@[i]).1
                    == value.mappings@[i],
            forall|i: int|
                0 <= i < value.mappings@.len() ==> (#[trigger] r.mappings@[i]).0.family
                    == value.mappings@[i].spec_family() && r.mappings@[i].0.slot
                    == spec_family_count(
                    value.mappings@,
                    spec_family_idx(value.mappings@[i].spec_family()),
                    i + 1,
                ),
    {
        let ghost s = value.mappings@;
        let n: usize = value.mappings.len();
        let mut counts: Vec<usize> = vec![0, 0, 0, 0, 0, 0, 0, 0, 0, 0, 0, 0, 0, 0];
        let mut out: Vec<(MappingAction, MappingType)> = Vec::new();
        let mut remaining = value.mappings;
        let mut i: usize = 0;
        while i < n
            invariant
                i <= n == s.len(),
                n <= 0xffff_ffff,
                remaining@ == s.skip(i as int),
                counts@.len() == 14,
                forall|f: int| 0 <= f < 14 ==> counts@[f] == spec_family_count(s, f, i as int),
                out@.len() == i,
                forall|j: int| 0 <= j < i ==> (#[trigger] out@[j]).1 == s[j],
                forall|j: int|
                    0 <= j < i ==> (#[trigger] out@[j]).0.family == s[j].spec_family()
                        && out@[j].0.slot == spec_family_count(
                        s,
                        spec_family_idx(s[j].spec_family()),
                        j + 1,
                    ),
            decreases n - i,
        {
            let m = remaining.remove(0);
            proof {
                assert(m == s[i as int]);
                assert(s.skip(i as int).remove(0) =~= s.skip(i as int + 1));
                assert(counts@[spec_family_idx(m.spec_family())] <= s.take(i as int).len()) by {
                    broadcast use vstd::seq_lib::group_filter_ensures;

                }
                assert forall|f: int| 0 <= f < 14 implies spec_family_count(s, f, i as int + 1)
                    == (if spec_family_idx(s[i as int].spec_family()) == f {
                    spec_family_count(s, f, i as int) + 1
                } else {
                    spec_family_count(s, f, i as int)
                }) by {
                    lemma_take_filter_step(
                        s,
                        |m: MappingType| spec_family_idx(m.spec_family()) == f,
                        i as int,
                    );
                }
            }
            let family = m.family();
            let fam = family_idx(family);
            proof {
                assert(s.take(i as int).len() == i as int);
                assert(counts@[fam as int] <= i as int);
            }
            let c = counts[fam] + 1;
            counts[fam] = c;
            proof {
                assert(c <= 0xffff_ffff);
                assert(spec_family_count(s, fam as int, i as int + 1) == c);
            }
            out.push((MappingAction { family, slot: c as u32 }, m));
            proof {
                assert(out@[i as int].0.slot == spec_family_count(
                    s,
                    spec_family_idx(s[i as int].spec_family()),
                    i as int + 1,
                ));
            }
            i = i + 1;
        }
        BindMappingConfig {
            version: value.version,
            original_size: value.original_size,
            mappings: out,
        }
    }
}

/// The active configuration slot: the bound configuration, if one is active,
/// and the file name it was loaded from.
pub struct ActiveMappingConfig {
    pub config: Option<BindMappingConfig>,
    pub file_name: String,
}

/// Key names joined onto an accumulator with a plus sign, left to right.
pub open spec fn spec_label_join(acc: Seq<char>, keys: Seq<String>) -> Seq<char>
    decreases keys.len(),
{
    if keys.len() == 0 {
        acc
    } else {
        spec_label_join(acc + "+"@ + keys[0]@, keys.skip(1))
    }
}

/// The label of a chord: its key names joined with plus signs; an empty
/// chord has an empty label.
pub open spec fn spec_chord_label(keys: Seq<String>) -> Seq<char> {
    if keys.len() == 0 {
        Seq::<char>::empty()
    } else {
        spec_label_join(keys[0]@, keys.skip(1))
    }
}

/// The label of a binding: the chord's label for a button binding, empty for
/// a two-axis binding, whose directions the overlay draws separately.
pub open spec fn spec_binding_label(b: InputBinding) -> Seq<char> {
    match b {
        InputBinding::Continuous(chord) => spec_chord_label(chord.keys@),
        InputBinding::Pulse(chord) => spec_chord_label(chord.keys@),
        InputBinding::DualAxis(_) => Seq::<char>::empty(),
    }
}

impl ButtonBinding {
    /// The chord's label: its key names joined with plus signs.
    pub fn label(&self) -> (r: String)
        ensures
            r@ == spec_chord_label(self.keys@),
    {
        let n: usize = self.keys.len();
        if n == 0 {
            return String::new();
        }
        let mut acc: String = self.keys[0].clone();
        let mut i: usize = 1;
        proof {
            assert(self.keys@.skip(1).skip(0) =~= self.keys@.skip(1));
        }
        while i < n
            invariant
                1 <= i <= n == self.keys@.len(),
                spec_label_join(acc@, self.keys@.skip(i as int)) == spec_label_join(
                    self.keys@[0]@,
                    self.keys@.skip(1),
                ),
            decreases n - i,
        {
            proof {
                assert(self.keys@.skip(i as int).skip(1) =~= self.keys@.skip(i as int + 1));
                assert(self.keys@.skip(i as int)[0] == self.keys@[i as int]);
            }
            acc.append("+");
            acc.append(self.keys[i].as_str());
            i = i + 1;
        }
        proof {
            assert(self.keys@.skip(n as int) =~= Seq::<String>::empty());
        }
        acc
    }
}

impl InputBinding {
    /// The binding's label, as the overlay draws it beside the entry.
    pub fn label(&self) -> (r: String)
        ensures
            r@ == spec_binding_label(*self),
    {
        match self {
            InputBinding::Continuous(chord) => chord.label(),
            InputBinding::Pulse(chord) => chord.label(),
            InputBinding::DualAxis(_) => String::new(),
        }
    }
}

/// Where an entry's overlay label is anchored: its position, or the first
/// step or waypoint of a sequence gesture; a sequence without steps anchors
/// at the origin.
pub open spec fn spec_entry_label_pos(m: MappingType) -> Position {
    match m {
        MappingType::SingleTap(e) => e.position,
        MappingType::RepeatTap(e) => e.position,
        MappingType::MultipleTap(e) => if e.items@.len() > 0 {
            e.items@[0].position
        } else {
            Position { x: 0, y: 0 }
        },
        MappingType::Swipe(e) => if e.positions@.len() > 0 {
            e.positions@[0]
        } else {
            Position { x: 0, y: 0 }
        },
        MappingType::DirectionPad(e) => e.position,
        MappingType::MouseCastSpell(e) => e.position,
        MappingType::PadCastSpell(e) => e.position,
        MappingType::CancelCast(e) => e.position,
        MappingType::Observation(e) => e.position,
        MappingType::Fps(e) => e.position,
        MappingType::Fire(e) => e.position,
        MappingType::RawInput(e) => e.position,
        MappingType::Script(e) => e.position,
    }
}

impl MappingType {
    /// Exec mirror of [`spec_entry_label_pos`].
    pub fn label_pos(&self) -> (r: Position)
        ensures
            r == spec_entry_label_pos(*self),
    {
        match self {
            MappingType::SingleTap(e) => e.position,
            MappingType::RepeatTap(e) => e.position,
            MappingType::MultipleTap(e) => if e.items.len() > 0 {
                e.items[0].position
            } else {
                Position { x: 0, y: 0 }
            },
            MappingType::Swipe(e) => if e.positions.len() > 0 {
                e.positions[0]
            } else {
                Position { x: 0, y: 0 }
            },
            MappingType::DirectionPad(e) => e.position,
            MappingType::MouseCastSpell(e) => e.position,
            MappingType::PadCastSpell(e) => e.position,
            MappingType::CancelCast(e) => e.position,
            MappingType::Observation(e) => e.position,
            MappingType::Fps(e) => e.position,
            MappingType::Fire(e) => e.position,
            MappingType::RawInput(e) => e.position,
            MappingType::Script(e) => e.position,
        }
    }

    /// The entry's binding label.
    pub fn binding_label(&self) -> (r: String)
        ensures
            r@ == spec_binding_label(self.spec_bind()),
    {
        match self {
            MappingType::SingleTap(e) => e.bind.label(),
            MappingType::RepeatTap(e) => e.bind.label(),
            MappingType::MultipleTap(e) => e.bind.label(),
            MappingType::Swipe(e) => e.bind.label(),
            MappingType::DirectionPad(e) => e.bind.label(),
            MappingType::MouseCastSpell(e) => e.bind.label(),
            MappingType::PadCastSpell(e) => e.bind.label(),
            MappingType::CancelCast(e) => e.bind.label(),
            MappingType::Observation(e) => e.bind.label(),
            MappingType::Fps(e) => e.bind.label(),
            MappingType::Fire(e) => e.bind.label(),
            MappingType::RawInput(e) => e.bind.label(),
            MappingType::Script(e) => e.bind.label(),
        }
    }
}

impl BindMappingConfig {
    /// What the overlay needs to draw each entry's label: the binding's
    /// label, the anchor position in the authoring frame, and the authoring
    /// frame itself.
    pub fn get_mapping_label_info(&self) -> (r: Vec<(String, Position, Size)>)
        ensures
            r@.len() == self.mappings@.len(),
            forall|i: int|
                0 <= i < r@.len() ==> ((#[trigger] r@[i]).0@ == spec_binding_label(
                    self.mappings@[i].1.spec_bind(),
                ) && r@[i].1 == spec_entry_label_pos(self.mappings@[i].1) && r@[i].2
                    == self.original_size),
    {
        let n: usize = self.mappings.len();
        let mut out: Vec<(String, Position, Size)> = Vec::new();
        let mut i: usize = 0;
        while i < n
            invariant
                i <= n == self.mappings@.len(),
                out@.len() == i,
                forall|j: int|
                    0 <= j < i ==> ((#[trigger] out@[j]).0@ == spec_binding_label(
                        self.mappings@[j].1.spec_bind(),
                    ) && out@[j].1 == spec_entry_label_pos(self.mappings@[j].1) && out@[j].2
                        == self.original_size),
            decreases n - i,
        {
            let entry = &self.mappings[i].1;
            out.push((entry.binding_label(), entry.label_pos(), self.original_size));
            i = i + 1;
        }
        out
    }
}

impl MappingSingleTap {
    /// Builds a one-shot tap entry; its binding must be continuous.
    pub fn new(
        position: Position,
        note: &str,
        pointer_id: u64,
        duration: u64,
        sync: bool,
        bind: InputBinding,
    ) -> (r: Result<MappingSingleTap, String>)
        ensures
            r is Ok <==> bind.spec_kind() == BindingKind::Continuous,
            r matches Ok(m) ==> m.position == position && m.note@ == note@ && m.pointer_id
                == pointer_id && m.duration == duration && m.sync == sync && m.bind == bind,
            r matches Err(e) ==> e@ == "SingleTap's binding must be Continuous"@,
    {
        if let InputBinding::Continuous(_) = bind {
            Ok(MappingSingleTap { position, note: note.to_owned(), pointer_id, duration, sync, bind })
        } else {
            Err("SingleTap's binding must be Continuous".to_owned())
        }
    }
}

impl MappingRepeatTap {
    /// Builds a repeated tap entry; its binding must be continuous.
    pub fn new(
        position: Position,
        note: &str,
        pointer_id: u64,
        duration: u64,
        interval: u32,
        bind: InputBinding,
    ) -> (r: Result<MappingRepeatTap, String>)
        ensures
            r is Ok <==> bind.spec_kind() == BindingKind::Continuous,
            r matches Ok(m) ==> m.position == position && m.note@ == note@ && m.pointer_id
                == pointer_id && m.duration == duration && m.interval == interval && m.bind == bind,
            r matches Err(e) ==> e@ == "RepeatTap's binding must be Continuous"@,
    {
        if let InputBinding::Continuous(_) = bind {
            Ok(
                MappingRepeatTap {
                    position,
                    note: note.to_owned(),
                    pointer_id,
                    duration,
                    interval,
                    bind,
                },
            )
        } else {
            Err("RepeatTap's binding must be Continuous".to_owned())
        }
    }
}

impl MappingMultipleTap {
    /// Builds a multi-step tap entry; its binding must be a pulse.
    pub fn new(
        note: &str,
        pointer_id: u64,
        items: Vec<MappingMultipleTapItem>,
        bind: InputBinding,
    ) -> (r: Result<MappingMultipleTap, String>)
        ensures
            r is Ok <==> bind.spec_kind() == BindingKind::Pulse,
            r matches Ok(m) ==> m.note@ == note@ && m.pointer_id == pointer_id && m.items == items
                && m.bind == bind,
            r matches Err(e) ==> e@ == "MultipleTap's binding must be Pulse"@,
    {
        if let InputBinding::Pulse(_) = bind {
            Ok(MappingMultipleTap { note: note.to_owned(), pointer_id, items, bind })
        } else {
            Err("MultipleTap's binding must be Pulse".to_owned())
        }
    }
}

impl MappingSwipe {
    /// Builds a swipe entry; its binding must be a pulse and its waypoint
    /// list must not be empty.
    pub fn new(
        note: &str,
        pointer_id: u64,
        positions: Vec<Position>,
        interval: u64,
        bind: InputBinding,
    ) -> (r: Result<MappingSwipe, String>)
        ensures
            r is Ok <==> bind.spec_kind() == BindingKind::Pulse && positions@.len() > 0,
            r matches Ok(m) ==> m.note@ == note@ && m.pointer_id == pointer_id && m.positions
                == positions && m.interval == interval && m.bind == bind,
            positions@.len() == 0 ==> (r matches Err(e) && e@
                == "Swipe's position list is empty"@),
            positions@.len() > 0 && bind.spec_kind() != BindingKind::Pulse ==> (r matches Err(e)
                && e@ == "Swipe's binding must be Pulse"@),
    {
        if positions.len() == 0 {
            return Err("Swipe's position list is empty".to_owned());
        }
        if let InputBinding::Pulse(_) = bind {
            Ok(MappingSwipe { note: note.to_owned(), pointer_id, positions, interval, bind })
        } else {
            Err("Swipe's binding must be Pulse".to_owned())
        }
    }
}

impl MappingDirectionPad {
    /// Builds a direction pad entry; its binding must be two-axis.
    pub fn new(
        note: &str,
        pointer_id: u64,
        position: Position,
        initial_duration: u64,
        max_offset_x: u32,
        max_offset_y: u32,
        bind: InputBinding,
    ) -> (r: Result<MappingDirectionPad, String>)
        ensures
            r is Ok <==> bind.spec_kind() == BindingKind::DualAxis,
            r matches Ok(m) ==> m.note@ == note@ && m.pointer_id == pointer_id && m.position
                == position && m.initial_duration == initial_duration && m.max_offset_x
                == max_offset_x && m.max_offset_y == max_offset_y && m.bind == bind,
            r matches Err(e) ==> e@ == "DirectionPad's binding must be DualAxis"@,
    {
        if let InputBinding::DualAxis(_) = bind {
            Ok(
                MappingDirectionPad {
                    note: note.to_owned(),
                    pointer_id,
                    position,
                    initial_duration,
                    max_offset_x,
                    max_offset_y,
                    bind,
                },
            )
        } else {
            Err("DirectionPad's binding must be DualAxis".to_owned())
        }
    }
}

impl MappingObservation {
    /// Builds an observation entry; its binding must be continuous.
    pub fn new(
        note: &str,
        pointer_id: u64,
        position: Position,
        sensitivity_x: u32,
        sensitivity_y: u32,
        bind: InputBinding,
    ) -> (r: Result<MappingObservation, String>)
        ensures
            r is Ok <==> bind.spec_kind() == BindingKind::Continuous,
            r matches Ok(m) ==> m.note@ == note@ && m.pointer_id == pointer_id && m.position
                == position && m.sensitivity_x == sensitivity_x && m.sensitivity_y == sensitivity_y
                && m.bind == bind,
            r matches Err(e) ==> e@ == "Observation's binding must be Continuous"@,
    {
        if let InputBinding::Continuous(_) = bind {
            Ok(
                MappingObservation {
                    note: note.to_owned(),
                    pointer_id,
                    position,
                    sensitivity_x,
                    sensitivity_y,
                    bind,
                },
            )
        } else {
            Err("Observation's binding must be Continuous".to_owned())
        }
    }
}

/// A continuous binding of one key, by name.
fn hold_key(key: &str) -> (r: InputBinding)
    ensures
        r is Continuous,
{
    let mut keys: Vec<String> = Vec::new();
    keys.push(key.to_owned());
    InputBinding::Continuous(ButtonBinding::new(keys))
}

/// A continuous binding of a two-key chord, by name.
fn hold_chord(first: &str, second: &str) -> (r: InputBinding)
    ensures
        r is Continuous,
{
    let mut keys: Vec<String> = Vec::new();
    keys.push(first.to_owned());
    keys.push(second.to_owned());
    InputBinding::Continuous(ButtonBinding::new(keys))
}

/// A pulse binding of one key, by name.
fn pulse_key(key: &str) -> (r: InputBinding)
    ensures
        r is Pulse,
{
    let mut keys: Vec<String> = Vec::new();
    keys.push(key.to_owned());
    InputBinding::Pulse(ButtonBinding::new(keys))
}

/// The mapping configuration a fresh installation starts from: entries of
/// every gesture family, several in more than one flavor, authored against a
/// 2560 by 1440 frame. The default always validates.
pub fn default_mapping_config() -> (r: MappingConfig)
    ensures
        r.version@ == "0.0.1"@,
        r.original_size == (Size { width: 2560, height: 1440 }),
        r.mappings@.len() == 20,
        spec_config_valid(r.mappings@),
{
    let mut mappings: Vec<MappingType> = Vec::new();
    mappings.push(
        MappingType::SingleTap(
            MappingSingleTap {
                position: Position { x: 100, y: 100 },
                note: "SingleTap".to_owned(),
                pointer_id: 1,
                duration: 1000,
                sync: false,
                bind: hold_key("Digit1"),
            },
        ),
    );
    mappings.push(
        MappingType::SingleTap(
            MappingSingleTap {
                position: Position { x: 200, y: 100 },
                note: "SingleTap (sync)".to_owned(),
                pointer_id: 1,
                duration: 0,
                sync: true,
                bind: hold_key("Digit2"),
            },
        ),
    );
    mappings.push(
        MappingType::SingleTap(
            MappingSingleTap {
                position: Position { x: 200, y: 150 },
                note: "SingleTap (Scroll)".to_owned(),
                pointer_id: 1,
                duration: 0,
                sync: true,
                bind: hold_chord("ControlLeft", "ScrollDown"),
            },
        ),
    );
    mappings.push(
        MappingType::RepeatTap(
            MappingRepeatTap {
                position: Position { x: 250, y: 200 },
                note: "RepeatTap".to_owned(),
                pointer_id: 1,
                duration: 30,
                interval: 100,
                bind: hold_key("Digit3"),
            },
        ),
    );
    mappings.push(
        MappingType::RepeatTap(
            MappingRepeatTap {
                position: Position { x: 250, y: 250 },
                note: "RepeatTap (multi-binding)".to_owned(),
                pointer_id: 2,
                duration: 30,
                interval: 100,
                bind: hold_chord("ControlLeft", "Digit3"),
            },
        ),
    );
    let mut tap_items: Vec<MappingMultipleTapItem> = Vec::new();
    tap_items.push(
        MappingMultipleTapItem { position: Position { x: 100, y: 100 }, duration: 500, wait: 0 },
    );
    tap_items.push(
        MappingMultipleTapItem { position: Position { x: 200, y: 200 }, duration: 500, wait: 1000 },
    );
    tap_items.push(
        MappingMultipleTapItem { position: Position { x: 300, y: 300 }, duration: 500, wait: 1000 },
    );
    mappings.push(
        MappingType::MultipleTap(
            MappingMultipleTap {
                note: "MultipleTap".to_owned(),
                pointer_id: 1,
                items: tap_items,
                bind: pulse_key("Digit4"),
            },
        ),
    );
    let mut waypoints: Vec<Position> = Vec::new();
    waypoints.push(Position { x: 100, y: 100 });
    waypoints.push(Position { x: 200, y: 200 });
    waypoints.push(Position { x: 300, y: 300 });
    mappings.push(
        MappingType::Swipe(
            MappingSwipe {
                note: "Swipe".to_owned(),
                pointer_id: 1,
                positions: waypoints,
                interval: 1000,
                bind: pulse_key("Digit5"),
            },
        ),
    );
    mappings.push(
        MappingType::DirectionPad(
            MappingDirectionPad {
                note: "DirectionPad".to_owned(),
                pointer_id: 9,
                position: Position { x: 300, y: 1000 },
                initial_duration: 100,
                max_offset_x: 100,
                max_offset_y: 100,
                bind: InputBinding::DualAxis(
                    DirectionBinding::Button {
                        up: single_key_chord("KeyW"),
                        down: single_key_chord("KeyS"),
                        left: single_key_chord("KeyA"),
                        right: single_key_chord("KeyD"),
                    },
                ),
            },
        ),
    );
    mappings.push(
        MappingType::DirectionPad(
            MappingDirectionPad {
                note: "DirectionPad gamepad".to_owned(),
                pointer_id: 9,
                position: Position { x: 500, y: 1000 },
                initial_duration: 300,
                max_offset_x: 100,
                max_offset_y: 100,
                bind: InputBinding::DualAxis(
                    DirectionBinding::JoyStick {
                        x: "LeftStickX".to_owned(),
                        y: "LeftStickY".to_owned(),
                    },
                ),
            },
        ),
    );
    mappings.push(
        MappingType::MouseCastSpell(
            MappingMouseCastSpell {
                note: "MouseCastSpell (no direction)".to_owned(),
                pointer_id: 3,
                position: Position { x: 1900, y: 1150 },
                center: Position { x: 1280, y: 815 },
                horizontal_scale_factor: 7000,
                vertical_scale_factor: 10000,
                drag_radius: 150,
                cast_radius: 625,
                release_mode: MouseCastReleaseMode::OnRelease,
                cast_no_direction: true,
                bind: hold_key("KeyE"),
            },
        ),
    );
    mappings.push(
        MappingType::MouseCastSpell(
            MappingMouseCastSpell {
                note: "MouseCastSpell (press to release)".to_owned(),
                pointer_id: 3,
                position: Position { x: 1900, y: 1150 },
                center: Position { x: 1280, y: 815 },
                horizontal_scale_factor: 7000,
                vertical_scale_factor: 10000,
                drag_radius: 150,
                cast_radius: 625,
                release_mode: MouseCastReleaseMode::OnPress,
                cast_no_direction: false,
                bind: hold_key("KeyQ"),
            },
        ),
    );
    mappings.push(
        MappingType::MouseCastSpell(
            MappingMouseCastSpell {
                note: "MouseCastSpell (second press to release)".to_owned(),
                pointer_id: 3,
                position: Position { x: 2100, y: 1030 },
                center: Position { x: 1280, y: 815 },
                horizontal_scale_factor: 7000,
                vertical_scale_factor: 10000,
                drag_radius: 150,
                cast_radius: 625,
                release_mode: MouseCastReleaseMode::OnSecondPress,
                cast_no_direction: true,
                bind: hold_key("AltLeft"),
            },
        ),
    );
    mappings.push(
        MappingType::MouseCastSpell(
            MappingMouseCastSpell {
                note: "MouseCastSpell".to_owned(),
                pointer_id: 3,
                position: Position { x: 2250, y: 900 },
                center: Position { x: 1280, y: 815 },
                horizontal_scale_factor: 7000,
                vertical_scale_factor: 10000,
                drag_radius: 150,
                cast_radius: 625,
                release_mode: MouseCastReleaseMode::OnRelease,
                cast_no_direction: false,
                bind: hold_key("MouseBack"),
            },
        ),
    );
    mappings.push(
        MappingType::PadCastSpell(
            MappingPadCastSpell {
                note: "PadCastSpell".to_owned(),
                pointer_id: 3,
                position: Position { x: 2000, y: 750 },
                release_mode: PadCastReleaseMode::OnRelease,
                drag_radius: 150,
                block_direction_pad: true,
                pad_bind: DirectionBinding::Button {
                    up: single_key_chord("KeyW"),
                    down: single_key_chord("KeyS"),
                    left: single_key_chord("KeyA"),
                    right: single_key_chord("KeyD"),
                },
                bind: hold_key("KeyJ"),
            },
        ),
    );
    mappings.push(
        MappingType::CancelCast(
            MappingCancelCast {
                note: "CancelCast".to_owned(),
                position: Position { x: 2200, y: 175 },
                bind: pulse_key("Space"),
            },
        ),
    );
    mappings.push(
        MappingType::Observation(
            MappingObservation {
                note: "Observation".to_owned(),
                pointer_id: 4,
                position: Position { x: 2000, y: 300 },
                sensitivity_x: 500,
                sensitivity_y: 500,
                bind: hold_key("MouseForward"),
            },
        ),
    );
    mappings.push(
        MappingType::Fps(
            MappingFps {
                note: "FPS".to_owned(),
                pointer_id: 0,
                position: Position { x: 1280, y: 720 },
                sensitivity_x: 1200,
                sensitivity_y: 1000,
                bind: pulse_key("Backquote"),
            },
        ),
    );
    mappings.push(
        MappingType::Fire(
            MappingFire {
                note: "Fire".to_owned(),
                pointer_id: 1,
                position: Position { x: 2000, y: 1000 },
                sensitivity_x: 1000,
                sensitivity_y: 500,
                bind: hold_key("MouseLeft"),
            },
        ),
    );
    mappings.push(
        MappingType::RawInput(
            MappingRawInput {
                note: "RawInput".to_owned(),
                position: Position { x: 2000, y: 300 },
                bind: pulse_key("Enter"),
            },
        ),
    );
    mappings.push(
        MappingType::Script(
            MappingScript {
                position: Position { x: 2000, y: 400 },
                note: "Script".to_owned(),
                activated_script: "send_key(\"AppSwitch\");".to_owned(),
                deactivated_script: "send_key(\"AppSwitch\");".to_owned(),
                activating_script: "tap(1, CURSOR_X, CURSOR_Y);".to_owned(),
                interval: 1000,
                bind: hold_key("Tab"),
            },
        ),
    );
    proof {
        assert forall|i: int|
            0 <= i < mappings@.len() implies (spec_entry_valid(#[trigger] mappings@[i])
            && spec_family_count(
            mappings@,
            spec_family_idx(mappings@[i].spec_family()),
            i + 1,
        ) <= MAX_SLOTS_PER_FAMILY) by {
            broadcast use vstd::seq_lib::group_filter_ensures;

            assert(mappings@.take(i + 1).len() == i + 1);
        }
    }
    MappingConfig {
        version: "0.0.1".to_owned(),
        original_size: Size { width: 2560, height: 1440 },
        mappings,
    }
}

/// A one-key chord.
fn single_key_chord(key: &str) -> (r: ButtonBinding)
    ensures
        r.keys@.len() == 1,
{
    let mut keys: Vec<String> = Vec::new();
    keys.push(key.to_owned());
    ButtonBinding::new(keys)
}

} // verus!
