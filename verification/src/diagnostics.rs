//! The diagnostic report: the gamepads that the structured backend lists,
//! the input device nodes, and the permissions on them.

use crate::gamepad::GamepadManager;
use crate::order::{ascending, sort_texts};
use crate::text::{bool_word, digits, join_lines, joined, occurs_at, starts_with, texts};
use crate::text::{push_bool, push_decimal, push_octal};
use vstd::prelude::*;

verus! {

/// One gamepad as the structured backend lists it.
#[derive(Debug)]
pub struct GamepadInfo {
    pub id: usize,
    pub name: String,
    pub is_connected: bool,
    pub power_info: String,
}

/// The mathematical value of a [`GamepadInfo`].
pub ghost struct GamepadInfoView {
    pub id: usize,
    pub name: Seq<char>,
    pub is_connected: bool,
    pub power_info: Seq<char>,
}

impl View for GamepadInfo {
    type V = GamepadInfoView;

    open spec fn view(&self) -> GamepadInfoView {
        GamepadInfoView {
            id: self.id,
            name: self.name@,
            is_connected: self.is_connected,
            power_info: self.power_info@,
        }
    }
}

/// The values of a list of gamepads.
pub open spec fn gamepad_views(gamepads: Seq<GamepadInfo>) -> Seq<GamepadInfoView> {
    gamepads.map_values(|g: GamepadInfo| g@)
}

/// The diagnostic report.
#[derive(Debug)]
pub struct DebugInfo {
    pub gilrs_initialized: bool,
    pub total_gamepads: usize,
    pub connected_gamepads: Vec<GamepadInfo>,
    pub input_devices: Vec<String>,
    pub permissions_check: String,
    pub last_event_time: Option<u64>,
}

/// What was found of a device node: its mode bits, or why they could not be
/// read.
#[derive(Debug)]
pub struct ProbedNode {
    pub path: String,
    pub mode: Result<u32, String>,
}

/// The mode bits of a node, or the text of the failure.
pub open spec fn mode_view(mode: Result<u32, String>) -> Result<u32, Seq<char>> {
    match mode {
        Ok(bits) => Ok(bits),
        Err(cause) => Err(cause@),
    }
}

/// The mathematical value of a [`ProbedNode`].
pub ghost struct ProbedNodeView {
    pub path: Seq<char>,
    pub mode: Result<u32, Seq<char>>,
}

impl View for ProbedNode {
    type V = ProbedNodeView;

    open spec fn view(&self) -> ProbedNodeView {
        ProbedNodeView { path: self.path@, mode: mode_view(self.mode) }
    }
}

/// The values of a list of nodes.
pub open spec fn node_views(nodes: Seq<ProbedNode>) -> Seq<ProbedNodeView> {
    nodes.map_values(|n: ProbedNode| n@)
}

/// Whether a file name is that of an event device or of a joystick device.
pub open spec fn is_input_name(file_name: Seq<char>) -> bool {
    occurs_at("event"@, file_name, 0) || occurs_at("js"@, file_name, 0)
}

/// The paths of the event and joystick devices among the file names, in the
/// order of the names.
pub open spec fn input_paths(file_names: Seq<Seq<char>>) -> Seq<Seq<char>>
    decreases file_names.len(),
{
    if file_names.len() == 0 {
        Seq::empty()
    } else {
        let earlier = input_paths(file_names.drop_last());
        if is_input_name(file_names.last()) {
            earlier.push("/dev/input/"@ + file_names.last())
        } else {
            earlier
        }
    }
}

/// The line on the node through which input is injected.
pub open spec fn uinput_line(mode: Result<u32, Seq<char>>) -> Seq<char> {
    match mode {
        Ok(bits) => "✅ /dev/uinput exists (mode: "@ + digits(bits as nat, 8) + ")"@,
        Err(cause) => "❌ /dev/uinput: "@ + cause,
    }
}

/// Whether some read bit is set in the mode.
pub open spec fn readable(bits: u32) -> bool {
    bits & 0o444 != 0
}

/// Whether some write bit is set in the mode.
pub open spec fn writable(bits: u32) -> bool {
    bits & 0o222 != 0
}

/// The line on one event device.
pub open spec fn node_line(node: ProbedNodeView) -> Seq<char> {
    match node.mode {
        Ok(bits) => "  "@ + node.path + " (mode: "@ + digits(bits as nat, 8) + ", r:"@ + bool_word(
            readable(bits),
        ) + ", w:"@ + bool_word(writable(bits)) + ")"@,
        Err(cause) => "  "@ + node.path + " - Error: "@ + cause,
    }
}

/// How many event devices the report describes one by one.
pub open spec fn described(found: nat) -> nat {
    if found < 3 {
        found
    } else {
        3
    }
}

/// The lines of the permission report: one on the injection node, one on
/// how many event devices were found, and one on each of the first three.
pub open spec fn permission_lines(
    uinput: Result<u32, Seq<char>>,
    nodes: Seq<ProbedNodeView>,
) -> Seq<Seq<char>> {
    if nodes.len() == 0 {
        seq![uinput_line(uinput), "❌ No /dev/input/event* devices found"@]
    } else {
        seq![
            uinput_line(uinput),
            "✅ Found "@ + digits(nodes.len(), 10) + " /dev/input/event* devices"@,
        ] + nodes.subrange(0, described(nodes.len()) as int).map_values(
            |n: ProbedNodeView| node_line(n),
        )
    }
}

/// The path of the event device with the given number.
pub fn event_node_path(number: u32) -> (res: String)
    ensures
        res@ == "/dev/input/event"@ + digits(number as nat, 10),
{
    let mut res = String::from_str("/dev/input/event");
    push_decimal(&mut res, number as u64);
    res
}

/// The paths at which the permission report looks for event devices: those
/// numbered 0 to 31.
pub fn event_node_candidates() -> (res: Vec<String>)
    ensures
        res@.len() == 32,
        forall|i: int| 0 <= i < 32 ==> (#[trigger] res@[i])@ == "/dev/input/event"@ + digits(
            i as nat,
            10,
        ),
{
    let mut res: Vec<String> = Vec::new();
    let mut i: u32 = 0;
    while i < 32
        invariant
            i <= 32,
            res@.len() == i,
            forall|k: int| 0 <= k < i ==> (#[trigger] res@[k])@ == "/dev/input/event"@ + digits(
                k as nat,
                10,
            ),
        decreases 32 - i,
    {
        res.push(event_node_path(i));
        i += 1;
    }
    res
}

fn uinput_text(mode: &Result<u32, String>) -> (res: String)
    ensures
        res@ == uinput_line(mode_view(*mode)),
{
    match mode {
        Ok(bits) => {
            let mut res = String::from_str("✅ /dev/uinput exists (mode: ");
            push_octal(&mut res, *bits);
            res.append(")");
            res
        },
        Err(cause) => {
            let mut res = String::from_str("❌ /dev/uinput: ");
            res.append(cause.as_str());
            res
        },
    }
}

fn node_text(node: &ProbedNode) -> (res: String)
    ensures
        res@ == node_line(node@),
{
    let mut res = String::from_str("  ");
    res.append(node.path.as_str());
    match &node.mode {
        Ok(bits) => {
            res.append(" (mode: ");
            push_octal(&mut res, *bits);
            res.append(", r:");
            push_bool(&mut res, *bits & 0o444 != 0);
            res.append(", w:");
            push_bool(&mut res, *bits & 0o222 != 0);
            res.append(")");
        },
        Err(cause) => {
            res.append(" - Error: ");
            res.append(cause.as_str());
        },
    }
    res
}

impl GamepadManager {
    /// The paths of the event and joystick devices among the file names of
    /// the device directory, in ascending order.
    pub fn enumerate_input_devices(&self, file_names: &Vec<String>) -> (res: Vec<String>)
        ensures
            ascending(texts(res@)),
            texts(res@).to_multiset() == input_paths(texts(file_names@)).to_multiset(),
    {
        let mut found: Vec<String> = Vec::new();
        let mut i: usize = 0;
        assert(texts(file_names@).subrange(0, 0) =~= Seq::<Seq<char>>::empty());
        assert(texts(found@) =~= Seq::<Seq<char>>::empty());
        while i < file_names.len()
            invariant
                i <= file_names.len(),
                texts(found@) == input_paths(texts(file_names@).subrange(0, i as int)),
            decreases file_names.len() - i,
        {
            let ghost seen = texts(file_names@).subrange(0, i as int);
            let ghost next = texts(file_names@).subrange(0, i + 1);
            let ghost paths = texts(found@);
            assert(next.drop_last() =~= seen);
            assert(next.last() == file_names@[i as int]@);
            let name = file_names[i].as_str();
            if starts_with(name, "event") || starts_with(name, "js") {
                let mut path = String::from_str("/dev/input/");
                path.append(name);
                found.push(path);
                assert(texts(found@) =~= paths.push("/dev/input/"@ + name@));
            }
            i += 1;
        }
        assert(texts(file_names@).subrange(0, file_names.len() as int) =~= texts(file_names@));
        sort_texts(found)
    }

    /// The permission report: a line on the injection node, a line on how
    /// many event devices exist, and a line on each of the first three of
    /// them, joined by line feeds.
    pub fn check_permissions(&self, uinput: &Result<u32, String>, nodes: &Vec<ProbedNode>) -> (res:
        String)
        ensures
            res@ == joined(permission_lines(mode_view(*uinput), node_views(nodes@))),
    {
        let mut checks: Vec<String> = Vec::new();
        checks.push(uinput_text(uinput));
        if nodes.len() == 0 {
            checks.push(String::from_str("❌ No /dev/input/event* devices found"));
            assert(texts(checks@) =~= permission_lines(mode_view(*uinput), node_views(nodes@)));
        } else {
            let mut line = String::from_str("✅ Found ");
            push_decimal(&mut line, nodes.len() as u64);
            line.append(" /dev/input/event* devices");
            checks.push(line);
            let shown: usize = if nodes.len() < 3 {
                nodes.len()
            } else {
                3
            };
            let ghost head = texts(checks@);
            let mut i: usize = 0;
            while i < shown
                invariant
                    i <= shown,
                    shown <= nodes.len(),
                    checks@.len() == 2 + i,
                    texts(checks@).subrange(0, 2) == head,
                    forall|k: int| 0 <= k < i ==> (#[trigger] checks@[2 + k])@ == node_line(nodes@[k]@),
                decreases shown - i,
            {
                let ghost before = texts(checks@);
                checks.push(node_text(&nodes[i]));
                assert(texts(checks@).subrange(0, 2) =~= before.subrange(0, 2));
                i += 1;
            }
            assert(texts(checks@) =~= permission_lines(mode_view(*uinput), node_views(nodes@))) by {
                let lines = permission_lines(mode_view(*uinput), node_views(nodes@));
                assert(texts(checks@).len() == lines.len());
                assert forall|k: int| 0 <= k < lines.len() implies texts(checks@)[k] == lines[k] by {
                    if k < 2 {
                        assert(texts(checks@)[k] == texts(checks@).subrange(0, 2)[k]);
                    } else {
                        assert(checks@[2 + (k - 2)]@ == node_line(nodes@[k - 2]@));
                    }
                }
            }
        }
        join_lines(&checks)
    }

    /// The diagnostic report, put together anew from what was just observed:
    /// the gamepads that the structured backend lists, the file names of the
    /// device directory, the mode of the injection node and the event device
    /// nodes that exist.
    pub fn get_debug_info(
        &self,
        gamepads: Vec<GamepadInfo>,
        file_names: &Vec<String>,
        uinput: &Result<u32, String>,
        nodes: &Vec<ProbedNode>,
    ) -> (res: DebugInfo)
        ensures
            res.gilrs_initialized,
            res.total_gamepads == gamepads@.len(),
            res.connected_gamepads == gamepads,
            ascending(texts(res.input_devices@)),
            texts(res.input_devices@).to_multiset() == input_paths(
                texts(file_names@),
            ).to_multiset(),
            res.permissions_check@ == joined(
                permission_lines(mode_view(*uinput), node_views(nodes@)),
            ),
            res.last_event_time == self.last_event(),
    {
        let input_devices = self.enumerate_input_devices(file_names);
        let permissions_check = self.check_permissions(uinput, nodes);
        DebugInfo {
            gilrs_initialized: true,
            total_gamepads: gamepads.len(),
            connected_gamepads: gamepads,
            input_devices,
            permissions_check,
            last_event_time: self.last_event_time(),
        }
    }
}

} // verus!
