//! The codes of the raw input protocol that this library reads, and the
//! names that the `evdev` crate gives them.

use vstd::prelude::*;

verus! {

/// The category of a raw input report, as far as the poller tells them apart.
#[derive(Clone, Copy, Debug, PartialEq, Eq, Structural)]
pub enum ReportKind {
    /// A key or button changed state.
    Key,
    /// An absolute axis moved.
    AbsAxis,
    /// Any other category; such reports are not republished.
    Other,
}

/// The event type number of key reports.
pub open spec fn key_event_type() -> u16 {
    0x01
}

/// The event type number of absolute axis reports.
pub open spec fn abs_event_type() -> u16 {
    0x03
}

/// The category of a report with the given event type number.
pub open spec fn kind_of(event_type: u16) -> ReportKind {
    if event_type == key_event_type() {
        ReportKind::Key
    } else if event_type == abs_event_type() {
        ReportKind::AbsAxis
    } else {
        ReportKind::Other
    }
}

/// The category that `evdev::InputEvent::kind` gives a report. That method
/// decides by the event type alone: type 1 is a key, type 3 an absolute
/// axis. The nine other categories it knows, and any type it does not know,
/// are `Other` here.
#[verifier::external_body]
pub(crate) fn report_kind(event_type: u16, code: u16, value: i32) -> (res: ReportKind)
    ensures
        res == kind_of(event_type),
{
    match evdev::InputEvent::new(evdev::EventType(event_type), code, value).kind() {
        evdev::InputEventKind::Key(_) => ReportKind::Key,
        evdev::InputEventKind::AbsAxis(_) => ReportKind::AbsAxis,
        _ => ReportKind::Other,
    }
}

/// The name that `evdev::Key` prints for a key code in its `Debug` form.
pub uninterp spec fn key_tag(code: u16) -> Seq<char>;

/// The name that `evdev::AbsoluteAxisType` prints for an axis code in its
/// `Debug` form.
pub uninterp spec fn axis_tag(code: u16) -> Seq<char>;

/// The `Debug` form of `evdev::Key` for a key code: the constant's name for
/// a code that the crate knows, such as `BTN_SOUTH`. Nothing is stated of the
/// text beyond its being fixed by the code.
#[verifier::external_body]
pub(crate) fn key_name(code: u16) -> (res: String)
    ensures
        res@ == key_tag(code),
{
    format!("{:?}", evdev::Key::new(code))
}

/// The `Debug` form of `evdev::AbsoluteAxisType` for an axis code: the
/// constant's name for a code that the crate knows, such as `ABS_X`. Nothing
/// is stated of the text beyond its being fixed by the code.
#[verifier::external_body]
pub(crate) fn axis_name(code: u16) -> (res: String)
    ensures
        res@ == axis_tag(code),
{
    format!("{:?}", evdev::AbsoluteAxisType(code))
}

/// The buttons by which a gamepad is known: the four face buttons, the two
/// shoulder buttons, select and start, and the four directions of the pad.
pub open spec fn reference_buttons() -> Seq<u16> {
    seq![
        0x130u16,
        0x131u16,
        0x133u16,
        0x134u16,
        0x136u16,
        0x137u16,
        0x13au16,
        0x13bu16,
        0x220u16,
        0x221u16,
        0x222u16,
        0x223u16,
    ]
}

/// The axes by which a gamepad is known: both sticks, both triggers and the
/// first hat.
pub open spec fn reference_axes() -> Seq<u16> {
    seq![0x00u16, 0x01u16, 0x03u16, 0x04u16, 0x02u16, 0x05u16, 0x10u16, 0x11u16]
}

/// The codes of [`reference_buttons`].
pub fn gamepad_buttons() -> (res: Vec<u16>)
    ensures
        res@ == reference_buttons(),
{
    let res: Vec<u16> = vec![
        0x130u16,
        0x131u16,
        0x133u16,
        0x134u16,
        0x136u16,
        0x137u16,
        0x13au16,
        0x13bu16,
        0x220u16,
        0x221u16,
        0x222u16,
        0x223u16,
    ];
    assert(res@ =~= reference_buttons());
    res
}

/// The codes of [`reference_axes`].
pub fn gamepad_axes() -> (res: Vec<u16>)
    ensures
        res@ == reference_axes(),
{
    let res: Vec<u16> = vec![0x00u16, 0x01u16, 0x03u16, 0x04u16, 0x02u16, 0x05u16, 0x10u16, 0x11u16];
    assert(res@ =~= reference_axes());
    res
}

} // verus!
