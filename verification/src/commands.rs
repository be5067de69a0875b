//! The operations offered to the command layer. Each reads the managers, or
//! rescans the raw devices, and answers with a value or an error text.

use crate::classifier::EvdevGamepadInfo;
use crate::diagnostics::{gamepad_views, input_paths, mode_view, node_views, permission_lines};
use crate::diagnostics::{DebugInfo, GamepadInfo, ProbedNode};
use crate::evdev_gamepad::{devices_after, handles_after, info_views, reading_views};
use crate::evdev_gamepad::{scan_failure, steam_deck_lines};
use crate::evdev_gamepad::{DirectoryListing, EvdevGamepadManager, ProcessSearch, VariableReading};
use crate::gamepad::{table_view, ControllerState, GamepadManager};
use crate::order::ascending;
use crate::text::{joined, texts};
use std::collections::HashMap;
use vstd::prelude::*;

verus! {

/// A copy of the whole state table.
pub fn get_connected_controllers(gamepad_manager: &GamepadManager) -> (res: Result<
    HashMap<usize, ControllerState>,
    String,
>)
    ensures
        res is Ok,
        table_view(res->Ok_0@) == gamepad_manager@,
{
    Ok(gamepad_manager.get_controller_states())
}

/// A copy of the state of one controller, if the table has it.
pub fn get_controller_state(controller_id: usize, gamepad_manager: &GamepadManager) -> (res: Result<
    Option<ControllerState>,
    String,
>)
    ensures
        res is Ok,
        match res->Ok_0 {
            Some(state) => gamepad_manager@.contains_key(controller_id) && state@
                == gamepad_manager@[controller_id],
            None => !gamepad_manager@.contains_key(controller_id),
        },
{
    Ok(gamepad_manager.get_controller_state(controller_id))
}

/// The diagnostic report, put together anew from what was just observed.
pub fn get_debug_info(
    gamepad_manager: &GamepadManager,
    gamepads: Vec<GamepadInfo>,
    file_names: &Vec<String>,
    uinput: &Result<u32, String>,
    nodes: &Vec<ProbedNode>,
) -> (res: Result<DebugInfo, String>)
    ensures
        res is Ok,
        res->Ok_0.gilrs_initialized,
        res->Ok_0.total_gamepads == gamepads@.len(),
        gamepad_views(res->Ok_0.connected_gamepads@) == gamepad_views(gamepads@),
        ascending(texts(res->Ok_0.input_devices@)),
        texts(res->Ok_0.input_devices@).to_multiset() == input_paths(
            texts(file_names@),
        ).to_multiset(),
        res->Ok_0.permissions_check@ == joined(
            permission_lines(mode_view(*uinput), node_views(nodes@)),
        ),
        res->Ok_0.last_event_time == gamepad_manager.last_event(),
{
    Ok(gamepad_manager.get_debug_info(gamepads, file_names, uinput, nodes))
}

/// A copy of the records of the last scan of the raw devices.
pub fn get_evdev_devices(evdev_manager: &EvdevGamepadManager) -> (res: Result<
    Vec<EvdevGamepadInfo>,
    String,
>)
    ensures
        res is Ok,
        info_views(res->Ok_0@) == evdev_manager.detected(),
{
    Ok(evdev_manager.get_detected_devices())
}

/// Scans the raw devices anew and answers with the records found. Where the
/// scan fails the answer is the error, and what was known before stays.
pub fn rescan_evdev_devices(evdev_manager: &mut EvdevGamepadManager, listing: &DirectoryListing) -> (res:
    Result<Vec<EvdevGamepadInfo>, String>)
    ensures
        final(evdev_manager).detected() == devices_after(old(evdev_manager).detected(), listing@),
        final(evdev_manager).handles() == handles_after(old(evdev_manager).handles(), listing@),
        match scan_failure(listing@) {
            Some(message) => res matches Err(text) && text@ == "Failed to scan devices: "@
                + message,
            None => res matches Ok(devices) && info_views(devices@) == devices_after(
                old(evdev_manager).detected(),
                listing@,
            ),
        },
{
    match evdev_manager.scan_for_gamepad_devices(listing) {
        Ok(_) => Ok(evdev_manager.get_detected_devices()),
        Err(message) => {
            let mut text = String::from_str("Failed to scan devices: ");
            text.append(message.as_str());
            Err(text)
        },
    }
}

/// The Steam Deck report.
pub fn get_steam_deck_info(
    evdev_manager: &EvdevGamepadManager,
    deck_home: bool,
    search: ProcessSearch,
    readings: &Vec<VariableReading>,
) -> (res: Result<String, String>)
    ensures
        res is Ok,
        res->Ok_0@ == joined(steam_deck_lines(deck_home, search, reading_views(readings@))),
{
    Ok(evdev_manager.get_steam_deck_info(deck_home, search, readings))
}

} // verus!
