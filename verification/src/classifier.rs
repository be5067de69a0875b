//! Decides whether a raw input device is a gamepad, from what it reports of
//! itself.

use crate::codes::{axis_name, axis_tag, gamepad_axes, gamepad_buttons, key_name, key_tag};
use crate::codes::{reference_axes, reference_buttons};
use crate::text::{chars_of, contains, lowercase, lowercase_of, occurs_in};
use vstd::prelude::*;

verus! {

/// What an opened device reports of itself.
#[derive(Debug)]
pub struct DeviceProbe {
    /// The name, where the device gives one.
    pub name: Option<String>,
    pub vendor_id: u16,
    pub product_id: u16,
    /// The codes of the keys and buttons that the device can send.
    pub keys: Vec<u16>,
    /// The codes of the absolute axes that the device can send.
    pub axes: Vec<u16>,
}

/// The mathematical value of a [`DeviceProbe`].
pub ghost struct DeviceProbeView {
    pub name: Option<Seq<char>>,
    pub vendor_id: u16,
    pub product_id: u16,
    pub keys: Seq<u16>,
    pub axes: Seq<u16>,
}

impl View for DeviceProbe {
    type V = DeviceProbeView;

    open spec fn view(&self) -> DeviceProbeView {
        DeviceProbeView {
            name: match self.name {
                Some(name) => Some(name@),
                None => None,
            },
            vendor_id: self.vendor_id,
            product_id: self.product_id,
            keys: self.keys@,
            axes: self.axes@,
        }
    }
}

/// The record kept of a raw device that was judged to be a gamepad.
#[derive(Debug)]
pub struct EvdevGamepadInfo {
    pub device_path: String,
    pub name: String,
    pub vendor_id: Option<u16>,
    pub product_id: Option<u16>,
    pub is_gamepad: bool,
    pub capabilities: Vec<String>,
}

/// The mathematical value of an [`EvdevGamepadInfo`].
pub ghost struct EvdevGamepadInfoView {
    pub device_path: Seq<char>,
    pub name: Seq<char>,
    pub vendor_id: Option<u16>,
    pub product_id: Option<u16>,
    pub is_gamepad: bool,
    pub capabilities: Seq<Seq<char>>,
}

impl View for EvdevGamepadInfo {
    type V = EvdevGamepadInfoView;

    open spec fn view(&self) -> EvdevGamepadInfoView {
        EvdevGamepadInfoView {
            device_path: self.device_path@,
            name: self.name@,
            vendor_id: self.vendor_id,
            product_id: self.product_id,
            is_gamepad: self.is_gamepad,
            capabilities: self.capabilities@.map_values(|tag: String| tag@),
        }
    }
}

impl Clone for EvdevGamepadInfo {
    fn clone(&self) -> (res: Self)
        ensures
            res@ == self@,
    {
        let mut capabilities: Vec<String> = Vec::new();
        let mut i: usize = 0;
        while i < self.capabilities.len()
            invariant
                i <= self.capabilities.len(),
                capabilities@.len() == i,
                forall|k: int| 0 <= k < i ==> capabilities@[k]@ == self.capabilities@[k]@,
            decreases self.capabilities.len() - i,
        {
            capabilities.push(self.capabilities[i].clone());
            i += 1;
        }
        let res = EvdevGamepadInfo {
            device_path: self.device_path.clone(),
            name: self.name.clone(),
            vendor_id: self.vendor_id,
            product_id: self.product_id,
            is_gamepad: self.is_gamepad,
            capabilities,
        };
        assert(res@.capabilities =~= self@.capabilities);
        res
    }
}

/// The codes of `reference`, in its order, that `supported` holds.
pub open spec fn detected(reference: Seq<u16>, supported: Seq<u16>) -> Seq<u16>
    decreases reference.len(),
{
    if reference.len() == 0 {
        Seq::empty()
    } else {
        let earlier = detected(reference.drop_last(), supported);
        if supported.contains(reference.last()) {
            earlier.push(reference.last())
        } else {
            earlier
        }
    }
}

/// Some code of `reference` is detected exactly if `supported` holds one.
pub proof fn lemma_detected_any(reference: Seq<u16>, supported: Seq<u16>)
    ensures
        detected(reference, supported).len() > 0 <==> exists|i: int|
            0 <= i < reference.len() && supported.contains(#[trigger] reference[i]),
    decreases reference.len(),
{
    if reference.len() > 0 {
        let front = reference.drop_last();
        lemma_detected_any(front, supported);
        if exists|i: int| 0 <= i < front.len() && supported.contains(#[trigger] front[i]) {
            let i = choose|i: int| 0 <= i < front.len() && supported.contains(#[trigger] front[i]);
            assert(supported.contains(reference[i]));
        }
        if exists|i: int| 0 <= i < reference.len() && supported.contains(#[trigger] reference[i]) {
            let i = choose|i: int|
                0 <= i < reference.len() && supported.contains(#[trigger] reference[i]);
            if i < front.len() {
                assert(supported.contains(front[i]));
            }
        }
    }
}

/// Whether the list holds the code.
pub fn supports(supported: &Vec<u16>, code: u16) -> (res: bool)
    ensures
        res == supported@.contains(code),
{
    let mut i: usize = 0;
    while i < supported.len()
        invariant
            i <= supported.len(),
            forall|k: int| 0 <= k < i ==> supported@[k] != code,
        decreases supported.len() - i,
    {
        if supported[i] == code {
            return true;
        }
        i += 1;
    }
    false
}

/// The codes of `reference`, in its order, that `supported` holds.
pub fn detected_codes(reference: &Vec<u16>, supported: &Vec<u16>) -> (res: Vec<u16>)
    ensures
        res@ == detected(reference@, supported@),
{
    let mut res: Vec<u16> = Vec::new();
    let mut i: usize = 0;
    while i < reference.len()
        invariant
            i <= reference.len(),
            res@ == detected(reference@.subrange(0, i as int), supported@),
        decreases reference.len() - i,
    {
        assert(reference@.subrange(0, i + 1).drop_last() =~= reference@.subrange(0, i as int));
        if supports(supported, reference[i]) {
            res.push(reference[i]);
        }
        i += 1;
    }
    assert(reference@.subrange(0, reference.len() as int) =~= reference@);
    res
}

/// Whether a name in lower case holds one of the words that mark a gamepad.
pub open spec fn has_keyword(lowered: Seq<char>) -> bool {
    ||| occurs_in("gamepad"@, lowered)
    ||| occurs_in("controller"@, lowered)
    ||| occurs_in("xbox"@, lowered)
    ||| occurs_in("steam"@, lowered)
    ||| occurs_in("deck"@, lowered)
    ||| occurs_in("joy"@, lowered)
}

/// Whether a name, already in lower case, holds one of the words that mark a
/// gamepad.
pub fn has_gamepad_keyword(lowered: &str) -> (res: bool)
    ensures
        res == has_keyword(lowered@),
{
    let whole = chars_of(lowered);
    contains(&whole, &chars_of("gamepad")) || contains(&whole, &chars_of("controller"))
        || contains(&whole, &chars_of("xbox")) || contains(&whole, &chars_of("steam"))
        || contains(&whole, &chars_of("deck")) || contains(&whole, &chars_of("joy"))
}

/// Whether a name marks a gamepad, whatever its case.
pub fn name_suggests_gamepad(name: &str) -> (res: bool)
    ensures
        res == has_keyword(lowercase_of(name@)),
{
    let lowered = lowercase(name);
    has_gamepad_keyword(lowered.as_str())
}

/// The name under which a device is listed: its own, or `Unknown` where it
/// gives none.
pub open spec fn listed_name(name: Option<Seq<char>>) -> Seq<char> {
    match name {
        Some(name) => name,
        None => "Unknown"@,
    }
}

/// A device is a gamepad if it has a button and an axis of the reference
/// sets, or if its name marks it as one.
pub open spec fn is_gamepad_like(probe: DeviceProbeView) -> bool {
    ||| (detected(reference_buttons(), probe.keys).len() > 0 && detected(
        reference_axes(),
        probe.axes,
    ).len() > 0)
    ||| has_keyword(lowercase_of(listed_name(probe.name)))
}

/// The capability tags of a device: the names of its reference buttons, then
/// those of its reference axes.
pub open spec fn capability_tags(probe: DeviceProbeView) -> Seq<Seq<char>> {
    detected(reference_buttons(), probe.keys).map_values(|code: u16| key_tag(code)) + detected(
        reference_axes(),
        probe.axes,
    ).map_values(|code: u16| axis_tag(code))
}

/// The record of a device that is a gamepad; none for any other device.
pub open spec fn analysis(device_path: Seq<char>, probe: DeviceProbeView) -> Option<
    EvdevGamepadInfoView,
> {
    if is_gamepad_like(probe) {
        Some(
            EvdevGamepadInfoView {
                device_path,
                name: listed_name(probe.name),
                vendor_id: Some(probe.vendor_id),
                product_id: Some(probe.product_id),
                is_gamepad: true,
                capabilities: capability_tags(probe),
            },
        )
    } else {
        None
    }
}

/// The value of an optional record.
pub open spec fn info_view(info: Option<EvdevGamepadInfo>) -> Option<EvdevGamepadInfoView> {
    match info {
        Some(info) => Some(info@),
        None => None,
    }
}

/// Judges the device at `device_path` by what it reports: the record of a
/// gamepad, or nothing.
pub fn analyze_device(device_path: &str, probe: &DeviceProbe) -> (res: Option<EvdevGamepadInfo>)
    ensures
        info_view(res) == analysis(device_path@, probe@),
{
    let name = match &probe.name {
        Some(name) => name.clone(),
        None => String::from_str("Unknown"),
    };
    let buttons = detected_codes(&gamepad_buttons(), &probe.keys);
    let axes = detected_codes(&gamepad_axes(), &probe.axes);
    let ghost button_tags = buttons@.map_values(|code: u16| key_tag(code));
    let ghost axis_tags = axes@.map_values(|code: u16| axis_tag(code));
    let mut capabilities: Vec<String> = Vec::new();
    let mut i: usize = 0;
    while i < buttons.len()
        invariant
            i <= buttons.len(),
            capabilities@.len() == i,
            forall|k: int| 0 <= k < i ==> capabilities@[k]@ == key_tag(buttons@[k]),
        decreases buttons.len() - i,
    {
        capabilities.push(key_name(buttons[i]));
        i += 1;
    }
    let mut j: usize = 0;
    while j < axes.len()
        invariant
            j <= axes.len(),
            capabilities@.len() == buttons.len() + j,
            forall|k: int| 0 <= k < buttons.len() ==> capabilities@[k]@ == key_tag(buttons@[k]),
            forall|k: int| 0 <= k < j ==> capabilities@[buttons.len() + k]@ == axis_tag(axes@[k]),
        decreases axes.len() - j,
    {
        capabilities.push(axis_name(axes[j]));
        j += 1;
    }
    let by_name = name_suggests_gamepad(name.as_str());
    if (buttons.len() > 0 && axes.len() > 0) || by_name {
        let info = EvdevGamepadInfo {
            device_path: String::from_str(device_path),
            name,
            vendor_id: Some(probe.vendor_id),
            product_id: Some(probe.product_id),
            is_gamepad: true,
            capabilities,
        };
        assert(info@.capabilities =~= capability_tags(probe@));
        Some(info)
    } else {
        None
    }
}


/// A device with a button and an axis of the reference sets is a gamepad,
/// whatever its name.
pub proof fn gamepad_by_capabilities(
    device_path: Seq<char>,
    probe: DeviceProbeView,
    button: int,
    axis: int,
)
    requires
        0 <= button < reference_buttons().len(),
        probe.keys.contains(reference_buttons()[button]),
        0 <= axis < reference_axes().len(),
        probe.axes.contains(reference_axes()[axis]),
    ensures
        analysis(device_path, probe) is Some,
{
    lemma_detected_any(reference_buttons(), probe.keys);
    lemma_detected_any(reference_axes(), probe.axes);
}

/// A device whose name, in lower case, holds a gamepad word is a gamepad,
/// whatever it can send.
pub proof fn gamepad_by_name(device_path: Seq<char>, probe: DeviceProbeView)
    requires
        has_keyword(lowercase_of(listed_name(probe.name))),
    ensures
        analysis(device_path, probe) is Some,
{
}

/// A device without a gamepad word in its name that lacks every reference
/// button, or every reference axis, is no gamepad.
pub proof fn no_gamepad_without_both(device_path: Seq<char>, probe: DeviceProbeView)
    requires
        !has_keyword(lowercase_of(listed_name(probe.name))),
        (forall|i: int|
            0 <= i < reference_buttons().len() ==> !probe.keys.contains(
                #[trigger] reference_buttons()[i],
            )) || (forall|i: int|
            0 <= i < reference_axes().len() ==> !probe.axes.contains(
                #[trigger] reference_axes()[i],
            )),
    ensures
        analysis(device_path, probe) is None,
{
    lemma_detected_any(reference_buttons(), probe.keys);
    lemma_detected_any(reference_axes(), probe.axes);
}

} // verus!
