//! The raw backend: what a scan of the device directory keeps, and what is
//! republished of the reports that the open devices send.

use crate::classifier::{analysis, analyze_device, DeviceProbe, DeviceProbeView};
use crate::classifier::{EvdevGamepadInfo, EvdevGamepadInfoView};
use crate::codes::{kind_of, report_kind, ReportKind};
use crate::text::{join_lines, joined, occurs_at, starts_with, texts};
use vstd::prelude::*;

verus! {

/// What was seen of one event device.
#[derive(Debug)]
pub enum Observation {
    /// The device was not looked at.
    NotLookedAt,
    /// The device could not be opened for a look; the text says why.
    Unreadable(String),
    /// The device was opened and looked at. `reopened` says whether it could
    /// then be opened again to be read from; it is of interest only where
    /// the device is a gamepad.
    Probed { probe: DeviceProbe, reopened: bool },
}

/// The mathematical value of an [`Observation`].
pub ghost enum ObservationView {
    NotLookedAt,
    Unreadable(Seq<char>),
    Probed { probe: DeviceProbeView, reopened: bool },
}

impl View for Observation {
    type V = ObservationView;

    open spec fn view(&self) -> ObservationView {
        match self {
            Observation::NotLookedAt => ObservationView::NotLookedAt,
            Observation::Unreadable(cause) => ObservationView::Unreadable(cause@),
            Observation::Probed { probe, reopened } => ObservationView::Probed {
                probe: probe@,
                reopened: *reopened,
            },
        }
    }
}

/// One entry of the device directory.
#[derive(Debug)]
pub enum DirectoryEntry {
    /// The entry could not be read; the text says why.
    Failed(String),
    /// The entry has no name that is text.
    Unnamed,
    /// The entry's name, and what was seen of the device where the name is
    /// that of an event device.
    Named { file_name: String, observation: Observation },
}

/// The mathematical value of a [`DirectoryEntry`].
pub ghost enum DirectoryEntryView {
    Failed(Seq<char>),
    Unnamed,
    Named { file_name: Seq<char>, observation: ObservationView },
}

impl View for DirectoryEntry {
    type V = DirectoryEntryView;

    open spec fn view(&self) -> DirectoryEntryView {
        match self {
            DirectoryEntry::Failed(cause) => DirectoryEntryView::Failed(cause@),
            DirectoryEntry::Unnamed => DirectoryEntryView::Unnamed,
            DirectoryEntry::Named { file_name, observation } => DirectoryEntryView::Named {
                file_name: file_name@,
                observation: observation@,
            },
        }
    }
}

/// What listing the device directory gave.
#[derive(Debug)]
pub enum DirectoryListing {
    /// There is no such directory.
    Missing,
    /// The directory could not be read; the text says why.
    Unreadable(String),
    /// The entries, in the order in which the directory gave them.
    Entries(Vec<DirectoryEntry>),
}

/// The mathematical value of a [`DirectoryListing`].
pub ghost enum DirectoryListingView {
    Missing,
    Unreadable(Seq<char>),
    Entries(Seq<DirectoryEntryView>),
}

/// The values of a list of entries.
pub open spec fn entry_views(entries: Seq<DirectoryEntry>) -> Seq<DirectoryEntryView> {
    entries.map_values(|e: DirectoryEntry| e@)
}

impl View for DirectoryListing {
    type V = DirectoryListingView;

    open spec fn view(&self) -> DirectoryListingView {
        match self {
            DirectoryListing::Missing => DirectoryListingView::Missing,
            DirectoryListing::Unreadable(cause) => DirectoryListingView::Unreadable(cause@),
            DirectoryListing::Entries(entries) => DirectoryListingView::Entries(
                entry_views(entries@),
            ),
        }
    }
}

/// Whether a file name is that of an event device.
pub open spec fn is_event_name(file_name: Seq<char>) -> bool {
    occurs_at("event"@, file_name, 0)
}

/// The path of a device in the device directory.
pub open spec fn device_path_of(file_name: Seq<char>) -> Seq<char> {
    "/dev/input/"@ + file_name
}

/// A record as it is listed: unchanged where the device could be opened for
/// reading, with a note behind its name where it could not.
pub open spec fn listed(info: EvdevGamepadInfoView, reopened: bool) -> EvdevGamepadInfoView {
    if reopened {
        info
    } else {
        EvdevGamepadInfoView { name: info.name + " (No Access)"@, ..info }
    }
}

/// What a scan keeps of one entry: the record as listed, and whether a
/// handle stays open. Only an event device that was looked at and judged a
/// gamepad is kept.
pub open spec fn kept(entry: DirectoryEntryView) -> Option<(EvdevGamepadInfoView, bool)> {
    match entry {
        DirectoryEntryView::Named {
            file_name,
            observation: ObservationView::Probed { probe, reopened },
        } => if is_event_name(file_name) {
            match analysis(device_path_of(file_name), probe) {
                Some(info) => Some((listed(info, reopened), reopened)),
                None => None,
            }
        } else {
            None
        },
        _ => None,
    }
}

/// The records that a scan lists, in the order of the entries.
pub open spec fn scanned_devices(entries: Seq<DirectoryEntryView>) -> Seq<EvdevGamepadInfoView>
    decreases entries.len(),
{
    if entries.len() == 0 {
        Seq::empty()
    } else {
        let earlier = scanned_devices(entries.drop_last());
        match kept(entries.last()) {
            Some((info, _)) => earlier.push(info),
            None => earlier,
        }
    }
}

/// The paths of the devices that a scan holds open, in the order of the
/// entries.
pub open spec fn scanned_handles(entries: Seq<DirectoryEntryView>) -> Seq<Seq<char>>
    decreases entries.len(),
{
    if entries.len() == 0 {
        Seq::empty()
    } else {
        let earlier = scanned_handles(entries.drop_last());
        match kept(entries.last()) {
            Some((info, true)) => earlier.push(info.device_path),
            _ => earlier,
        }
    }
}

/// The cause of the first entry that could not be read, if there is one.
pub open spec fn first_failure(entries: Seq<DirectoryEntryView>) -> Option<Seq<char>>
    decreases entries.len(),
{
    if entries.len() == 0 {
        None
    } else {
        match first_failure(entries.drop_last()) {
            Some(cause) => Some(cause),
            None => match entries.last() {
                DirectoryEntryView::Failed(cause) => Some(cause),
                _ => None,
            },
        }
    }
}

/// The error with which a scan of this listing fails; none where it
/// succeeds.
pub open spec fn scan_failure(listing: DirectoryListingView) -> Option<Seq<char>> {
    match listing {
        DirectoryListingView::Missing => Some("❌ /dev/input directory not found"@),
        DirectoryListingView::Unreadable(cause) => Some("❌ Failed to read /dev/input: "@ + cause),
        DirectoryListingView::Entries(entries) => match first_failure(entries) {
            Some(cause) => Some("❌ Failed to read entry: "@ + cause),
            None => None,
        },
    }
}

/// The records known after a scan of this listing: those that the listing
/// shows, or, where the scan fails, those known before.
pub open spec fn devices_after(
    before: Seq<EvdevGamepadInfoView>,
    listing: DirectoryListingView,
) -> Seq<EvdevGamepadInfoView> {
    match listing {
        DirectoryListingView::Entries(entries) if scan_failure(listing) is None => scanned_devices(
            entries,
        ),
        _ => before,
    }
}

/// The paths held open after a scan of this listing: those that the listing
/// shows as opened, or, where the scan fails, those held before.
pub open spec fn handles_after(before: Seq<Seq<char>>, listing: DirectoryListingView) -> Seq<
    Seq<char>,
> {
    match listing {
        DirectoryListingView::Entries(entries) if scan_failure(listing) is None => scanned_handles(
            entries,
        ),
        _ => before,
    }
}

/// Scanning the same listing again changes nothing: the second scan leaves
/// the records and the open paths that the first one left.
pub proof fn rescan_changes_nothing(
    devices: Seq<EvdevGamepadInfoView>,
    handles: Seq<Seq<char>>,
    listing: DirectoryListingView,
)
    ensures
        devices_after(devices_after(devices, listing), listing) == devices_after(devices, listing),
        handles_after(handles_after(handles, listing), listing) == handles_after(handles, listing),
{
}

/// What a scan that succeeds leaves does not depend on what was known
/// before: no record of an earlier scan stays.
pub proof fn scan_forgets_earlier_scans(
    devices: Seq<EvdevGamepadInfoView>,
    handles: Seq<Seq<char>>,
    other_devices: Seq<EvdevGamepadInfoView>,
    other_handles: Seq<Seq<char>>,
    listing: DirectoryListingView,
)
    requires
        scan_failure(listing) is None,
    ensures
        devices_after(devices, listing) == devices_after(other_devices, listing),
        handles_after(handles, listing) == handles_after(other_handles, listing),
{
}

/// Some record of the list has this device path.
pub open spec fn lists_path(devices: Seq<EvdevGamepadInfoView>, path: Seq<char>) -> bool {
    exists|i: int| 0 <= i < devices.len() && #[trigger] devices[i].device_path == path
}

/// Every record that a scan lists is that of a gamepad, and every path held
/// open is the path of a listed record.
pub proof fn scan_lists_gamepads(entries: Seq<DirectoryEntryView>)
    ensures
        forall|i: int|
            0 <= i < scanned_devices(entries).len() ==> (#[trigger] scanned_devices(
                entries,
            )[i]).is_gamepad,
        forall|j: int|
            0 <= j < scanned_handles(entries).len() ==> lists_path(
                scanned_devices(entries),
                #[trigger] scanned_handles(entries)[j],
            ),
    decreases entries.len(),
{
    if entries.len() > 0 {
        let front = entries.drop_last();
        scan_lists_gamepads(front);
        assert forall|j: int| 0 <= j < scanned_handles(entries).len() implies lists_path(
            scanned_devices(entries),
            #[trigger] scanned_handles(entries)[j],
        ) by {
            if j < scanned_handles(front).len() {
                assert(lists_path(scanned_devices(front), scanned_handles(front)[j]));
                let i = choose|i: int|
                    0 <= i < scanned_devices(front).len() && #[trigger] scanned_devices(
                        front,
                    )[i].device_path == scanned_handles(front)[j];
                assert(scanned_devices(entries)[i] == scanned_devices(front)[i]);
            } else {
                let i = scanned_devices(entries).len() - 1;
                assert(scanned_devices(entries)[i].device_path == scanned_handles(entries)[j]);
            }
        }
    }
}

/// The values of a list of records.
pub open spec fn info_views(devices: Seq<EvdevGamepadInfo>) -> Seq<EvdevGamepadInfoView> {
    devices.map_values(|d: EvdevGamepadInfo| d@)
}

/// The texts of a list of paths.
pub open spec fn path_views(paths: Seq<String>) -> Seq<Seq<char>> {
    paths.map_values(|p: String| p@)
}

/// Whether a file name is that of an event device.
pub fn is_event_device(file_name: &str) -> (res: bool)
    ensures
        res == is_event_name(file_name@),
{
    starts_with(file_name, "event")
}

/// The path of a device in the device directory.
pub fn device_path(file_name: &str) -> (res: String)
    ensures
        res@ == device_path_of(file_name@),
{
    let mut res = String::from_str("/dev/input/");
    res.append(file_name);
    res
}

/// The cause of the first entry that could not be read, if there is one.
pub fn find_failure(entries: &Vec<DirectoryEntry>) -> (res: Option<String>)
    ensures
        match res {
            Some(cause) => first_failure(entry_views(entries@)) == Some(cause@),
            None => first_failure(entry_views(entries@)) is None,
        },
{
    let mut i: usize = 0;
    assert(entry_views(entries@).subrange(0, 0) =~= Seq::<DirectoryEntryView>::empty());
    while i < entries.len()
        invariant
            i <= entries.len(),
            first_failure(entry_views(entries@).subrange(0, i as int)) is None,
        decreases entries.len() - i,
    {
        let ghost seen = entry_views(entries@).subrange(0, i as int);
        let ghost next = entry_views(entries@).subrange(0, i + 1);
        assert(next.drop_last() =~= seen);
        assert(next.last() == entries@[i as int]@);
        match &entries[i] {
            DirectoryEntry::Failed(cause) => {
                proof {
                    lemma_failure_stays(entry_views(entries@), i + 1);
                }
                return Some(cause.clone());
            },
            _ => {},
        }
        i += 1;
    }
    assert(entry_views(entries@).subrange(0, entries.len() as int) =~= entry_views(entries@));
    None
}

/// A failure among the first entries is the failure of the whole list.
pub proof fn lemma_failure_stays(entries: Seq<DirectoryEntryView>, n: int)
    requires
        0 <= n <= entries.len(),
        first_failure(entries.subrange(0, n)) is Some,
    ensures
        first_failure(entries) == first_failure(entries.subrange(0, n)),
    decreases entries.len() - n,
{
    if n < entries.len() {
        assert(entries.subrange(0, n + 1).drop_last() =~= entries.subrange(0, n));
        lemma_failure_stays(entries, n + 1);
    } else {
        assert(entries.subrange(0, n) =~= entries);
    }
}

/// What a scan keeps of one entry: the record as listed, and whether a
/// handle stays open.
pub fn keep_entry(entry: &DirectoryEntry) -> (res: Option<(EvdevGamepadInfo, bool)>)
    ensures
        match res {
            Some((info, open)) => kept(entry@) == Some((info@, open)),
            None => kept(entry@) is None,
        },
{
    match entry {
        DirectoryEntry::Named { file_name, observation: Observation::Probed { probe, reopened } } => {
            if !is_event_device(file_name.as_str()) {
                return None;
            }
            let path = device_path(file_name.as_str());
            match analyze_device(path.as_str(), probe) {
                Some(info) => {
                    if *reopened {
                        Some((info, true))
                    } else {
                        let EvdevGamepadInfo {
                            device_path,
                            name,
                            vendor_id,
                            product_id,
                            is_gamepad,
                            capabilities,
                        } = info;
                        let name = name.concat(" (No Access)");
                        Some(
                            (
                                EvdevGamepadInfo {
                                    device_path,
                                    name,
                                    vendor_id,
                                    product_id,
                                    is_gamepad,
                                    capabilities,
                                },
                                false,
                            ),
                        )
                    }
                },
                None => None,
            }
        },
        _ => None,
    }
}

/// The raw devices that the last scan found, and which of them are open.
#[derive(Debug)]
pub struct EvdevGamepadManager {
    devices: Vec<String>,
    gamepad_devices: Vec<EvdevGamepadInfo>,
}

impl EvdevGamepadManager {
    /// The records of the last scan, in the order of the directory.
    pub closed spec fn detected(&self) -> Seq<EvdevGamepadInfoView> {
        info_views(self.gamepad_devices@)
    }

    /// The paths of the devices that are held open, in the order of the
    /// directory.
    pub closed spec fn handles(&self) -> Seq<Seq<char>> {
        path_views(self.devices@)
    }

    /// A manager that has not scanned yet: no record, no open device.
    pub fn new() -> (res: Result<Self, String>)
        ensures
            res is Ok,
            res->Ok_0.detected() == Seq::<EvdevGamepadInfoView>::empty(),
            res->Ok_0.handles() == Seq::<Seq<char>>::empty(),
    {
        let manager = EvdevGamepadManager { devices: Vec::new(), gamepad_devices: Vec::new() };
        assert(manager.detected() =~= Seq::<EvdevGamepadInfoView>::empty());
        assert(manager.handles() =~= Seq::<Seq<char>>::empty());
        Ok(manager)
    }

    /// Replaces what is known of the raw devices by what this listing of the
    /// device directory shows. Where the directory is missing or cannot be
    /// read, or one of its entries cannot be read, the scan fails and
    /// what was known before stays as it was.
    pub fn scan_for_gamepad_devices(&mut self, listing: &DirectoryListing) -> (res: Result<
        (),
        String,
    >)
        ensures
            match scan_failure(listing@) {
                Some(message) => res matches Err(text) && text@ == message,
                None => res is Ok,
            },
            final(self).detected() == devices_after(old(self).detected(), listing@),
            final(self).handles() == handles_after(old(self).handles(), listing@),
    {
        match listing {
            DirectoryListing::Missing => Err(String::from_str("❌ /dev/input directory not found")),
            DirectoryListing::Unreadable(cause) => {
                let mut text = String::from_str("❌ Failed to read /dev/input: ");
                text.append(cause.as_str());
                Err(text)
            },
            DirectoryListing::Entries(entries) => {
                match find_failure(entries) {
                    Some(cause) => {
                        let mut text = String::from_str("❌ Failed to read entry: ");
                        text.append(cause.as_str());
                        return Err(text);
                    },
                    None => {},
                }
                let mut devices: Vec<String> = Vec::new();
                let mut gamepad_devices: Vec<EvdevGamepadInfo> = Vec::new();
                let mut i: usize = 0;
                assert(entry_views(entries@).subrange(0, 0) =~= Seq::<DirectoryEntryView>::empty());
                assert(info_views(gamepad_devices@) =~= Seq::<EvdevGamepadInfoView>::empty());
                assert(path_views(devices@) =~= Seq::<Seq<char>>::empty());
                while i < entries.len()
                    invariant
                        i <= entries.len(),
                        info_views(gamepad_devices@) == scanned_devices(
                            entry_views(entries@).subrange(0, i as int),
                        ),
                        path_views(devices@) == scanned_handles(
                            entry_views(entries@).subrange(0, i as int),
                        ),
                    decreases entries.len() - i,
                {
                    let ghost seen = entry_views(entries@).subrange(0, i as int);
                    let ghost next = entry_views(entries@).subrange(0, i + 1);
                    let ghost infos = info_views(gamepad_devices@);
                    let ghost paths = path_views(devices@);
                    assert(next.drop_last() =~= seen);
                    assert(next.last() == entries@[i as int]@);
                    match keep_entry(&entries[i]) {
                        Some((info, open)) => {
                            if open {
                                devices.push(info.device_path.clone());
                                assert(path_views(devices@) =~= paths.push(info@.device_path));
                            }
                            gamepad_devices.push(info);
                            assert(info_views(gamepad_devices@) =~= infos.push(info@));
                        },
                        None => {},
                    }
                    i += 1;
                }
                assert(entry_views(entries@).subrange(0, entries.len() as int) =~= entry_views(
                    entries@,
                ));
                self.devices = devices;
                self.gamepad_devices = gamepad_devices;
                Ok(())
            },
        }
    }

    /// A copy of the records of the last scan.
    pub fn get_detected_devices(&self) -> (res: Vec<EvdevGamepadInfo>)
        ensures
            info_views(res@) == self.detected(),
    {
        let mut res: Vec<EvdevGamepadInfo> = Vec::new();
        let mut i: usize = 0;
        while i < self.gamepad_devices.len()
            invariant
                i <= self.gamepad_devices.len(),
                res@.len() == i,
                forall|k: int| 0 <= k < i ==> res@[k]@ == self.gamepad_devices@[k]@,
            decreases self.gamepad_devices.len() - i,
        {
            res.push(self.gamepad_devices[i].clone());
            i += 1;
        }
        assert(info_views(res@) =~= self.detected());
        res
    }

    /// Whether the device at `path` is held open.
    pub fn is_open(&self, path: &str) -> (res: bool)
        ensures
            res == self.handles().contains(path@),
    {
        let wanted = String::from_str(path);
        let mut i: usize = 0;
        while i < self.devices.len()
            invariant
                i <= self.devices.len(),
                wanted@ == path@,
                forall|k: int| 0 <= k < i ==> self.handles()[k] != path@,
            decreases self.devices.len() - i,
        {
            if self.devices[i] == wanted {
                assert(self.handles()[i as int] == path@);
                return true;
            }
            i += 1;
        }
        false
    }
}

/// One raw input report, with the time in milliseconds at which it was read.
#[derive(Clone, Copy, Debug, PartialEq, Eq, Structural)]
pub struct RawReport {
    pub event_type: u16,
    pub code: u16,
    pub value: i32,
    pub timestamp: u64,
}

/// A raw report as it is republished for diagnosis.
#[derive(Debug)]
pub struct EvdevControllerEvent {
    pub device_path: String,
    pub event_type: String,
    pub code: u16,
    pub value: i32,
    pub timestamp: u64,
}

/// The mathematical value of an [`EvdevControllerEvent`].
pub ghost struct EvdevControllerEventView {
    pub device_path: Seq<char>,
    pub event_type: Seq<char>,
    pub code: u16,
    pub value: i32,
    pub timestamp: u64,
}

impl View for EvdevControllerEvent {
    type V = EvdevControllerEventView;

    open spec fn view(&self) -> EvdevControllerEventView {
        EvdevControllerEventView {
            device_path: self.device_path@,
            event_type: self.event_type@,
            code: self.code,
            value: self.value,
            timestamp: self.timestamp,
        }
    }
}

/// The reports that one device gave in one tick, in the order read.
#[derive(Debug)]
pub struct DeviceReports {
    pub device_path: String,
    pub reports: Vec<RawReport>,
}

/// The mathematical value of a [`DeviceReports`].
pub ghost struct DeviceReportsView {
    pub device_path: Seq<char>,
    pub reports: Seq<RawReport>,
}

impl View for DeviceReports {
    type V = DeviceReportsView;

    open spec fn view(&self) -> DeviceReportsView {
        DeviceReportsView { device_path: self.device_path@, reports: self.reports@ }
    }
}

/// What is republished of one report: a key report as `button`, an absolute
/// axis report as `axis`, with code, value and time as read; nothing of any
/// other report.
pub open spec fn republished(device_path: Seq<char>, report: RawReport) -> Option<
    EvdevControllerEventView,
> {
    match kind_of(report.event_type) {
        ReportKind::Key => Some(
            EvdevControllerEventView {
                device_path,
                event_type: "button"@,
                code: report.code,
                value: report.value,
                timestamp: report.timestamp,
            },
        ),
        ReportKind::AbsAxis => Some(
            EvdevControllerEventView {
                device_path,
                event_type: "axis"@,
                code: report.code,
                value: report.value,
                timestamp: report.timestamp,
            },
        ),
        ReportKind::Other => None,
    }
}

/// What is republished of the reports of one device, in their order.
pub open spec fn republished_all(device_path: Seq<char>, reports: Seq<RawReport>) -> Seq<
    EvdevControllerEventView,
>
    decreases reports.len(),
{
    if reports.len() == 0 {
        Seq::empty()
    } else {
        let earlier = republished_all(device_path, reports.drop_last());
        match republished(device_path, reports.last()) {
            Some(event) => earlier.push(event),
            None => earlier,
        }
    }
}

/// What is republished in one tick: the reports of each device that is held
/// open, device after device in the order given. Reports of a device that is
/// not held open are left out.
pub open spec fn polled(handles: Seq<Seq<char>>, batches: Seq<DeviceReportsView>) -> Seq<
    EvdevControllerEventView,
>
    decreases batches.len(),
{
    if batches.len() == 0 {
        Seq::empty()
    } else {
        let earlier = polled(handles, batches.drop_last());
        if handles.contains(batches.last().device_path) {
            earlier + republished_all(batches.last().device_path, batches.last().reports)
        } else {
            earlier
        }
    }
}

/// The values of a list of republished reports.
pub open spec fn raw_event_views(events: Seq<EvdevControllerEvent>) -> Seq<
    EvdevControllerEventView,
> {
    events.map_values(|e: EvdevControllerEvent| e@)
}

/// The values of a list of batches.
pub open spec fn batch_views(batches: Seq<DeviceReports>) -> Seq<DeviceReportsView> {
    batches.map_values(|b: DeviceReports| b@)
}

/// What is republished of one report of the device at `device_path`.
pub fn translate_report(device_path: &str, report: &RawReport) -> (res: Option<
    EvdevControllerEvent,
>)
    ensures
        match res {
            Some(event) => republished(device_path@, *report) == Some(event@),
            None => republished(device_path@, *report) is None,
        },
{
    let event_type = match report_kind(report.event_type, report.code, report.value) {
        ReportKind::Key => String::from_str("button"),
        ReportKind::AbsAxis => String::from_str("axis"),
        ReportKind::Other => {
            return None;
        },
    };
    Some(
        EvdevControllerEvent {
            device_path: String::from_str(device_path),
            event_type,
            code: report.code,
            value: report.value,
            timestamp: report.timestamp,
        },
    )
}

/// How an attempt to fetch reports from a device ended.
#[derive(Clone, Copy, Debug, PartialEq, Eq, Structural)]
pub enum FetchOutcome {
    /// Reports were read.
    Reports,
    /// Nothing is waiting: the device is drained.
    WouldBlock,
    /// Reading failed.
    Failed,
}

/// What the drain of a device does next.
#[derive(Clone, Copy, Debug, PartialEq, Eq, Structural)]
pub enum DrainStep {
    /// Fetch again.
    FetchAgain,
    /// Leave the device for this tick, without a word.
    Stop,
    /// Leave the device for this tick and report the failure. The device
    /// stays open and is read again at the next tick.
    StopAndWarn,
}

/// What the drain of a device does after a fetch.
pub open spec fn drain_step(outcome: FetchOutcome) -> DrainStep {
    match outcome {
        FetchOutcome::Reports => DrainStep::FetchAgain,
        FetchOutcome::WouldBlock => DrainStep::Stop,
        FetchOutcome::Failed => DrainStep::StopAndWarn,
    }
}

/// What the drain of a device does after a fetch.
pub fn after_fetch(outcome: FetchOutcome) -> (res: DrainStep)
    ensures
        res == drain_step(outcome),
{
    match outcome {
        FetchOutcome::Reports => DrainStep::FetchAgain,
        FetchOutcome::WouldBlock => DrainStep::Stop,
        FetchOutcome::Failed => DrainStep::StopAndWarn,
    }
}

/// The topic under which raw reports are republished.
pub fn raw_topic() -> (res: String)
    ensures
        res@ == "evdev-gamepad-input"@,
{
    String::from_str("evdev-gamepad-input")
}

impl EvdevGamepadManager {
    /// What is republished of the reports of one tick. The state of the
    /// controllers is not touched: raw codes carry no button or axis names.
    pub fn poll_events(&self, batches: &Vec<DeviceReports>) -> (res: Result<
        Vec<EvdevControllerEvent>,
        String,
    >)
        ensures
            res is Ok,
            raw_event_views(res->Ok_0@) == polled(self.handles(), batch_views(batches@)),
    {
        let mut events: Vec<EvdevControllerEvent> = Vec::new();
        let mut i: usize = 0;
        assert(batch_views(batches@).subrange(0, 0) =~= Seq::<DeviceReportsView>::empty());
        assert(raw_event_views(events@) =~= Seq::<EvdevControllerEventView>::empty());
        while i < batches.len()
            invariant
                i <= batches.len(),
                raw_event_views(events@) == polled(
                    self.handles(),
                    batch_views(batches@).subrange(0, i as int),
                ),
            decreases batches.len() - i,
        {
            let ghost seen = batch_views(batches@).subrange(0, i as int);
            let ghost next = batch_views(batches@).subrange(0, i + 1);
            let ghost sent = raw_event_views(events@);
            assert(next.drop_last() =~= seen);
            assert(next.last() == batches@[i as int]@);
            let batch = &batches[i];
            if self.is_open(batch.device_path.as_str()) {
                let mut k: usize = 0;
                assert(batch.reports@.subrange(0, 0) =~= Seq::<RawReport>::empty());
                assert(raw_event_views(events@) =~= sent + Seq::<
                    EvdevControllerEventView,
                >::empty());
                while k < batch.reports.len()
                    invariant
                        k <= batch.reports.len(),
                        raw_event_views(events@) == sent + republished_all(
                            batch.device_path@,
                            batch.reports@.subrange(0, k as int),
                        ),
                    decreases batch.reports.len() - k,
                {
                    let ghost done = republished_all(
                        batch.device_path@,
                        batch.reports@.subrange(0, k as int),
                    );
                    assert(batch.reports@.subrange(0, k + 1).drop_last() =~= batch.reports@.subrange(
                        0,
                        k as int,
                    ));
                    let ghost before = raw_event_views(events@);
                    match translate_report(batch.device_path.as_str(), &batch.reports[k]) {
                        Some(event) => {
                            events.push(event);
                            assert(raw_event_views(events@) =~= before.push(event@));
                            assert((sent + done).push(event@) =~= sent + done.push(event@));
                        },
                        None => {},
                    }
                    k += 1;
                }
                assert(batch.reports@.subrange(0, batch.reports.len() as int) =~= batch.reports@);
            }
            i += 1;
        }
        assert(batch_views(batches@).subrange(0, batches.len() as int) =~= batch_views(batches@));
        Ok(events)
    }
}

/// How the search for a running Steam process ended.
#[derive(Clone, Copy, Debug, PartialEq, Eq, Structural)]
pub enum ProcessSearch {
    /// The search could not be run.
    Failed,
    /// The search ran. `success` says whether it ended well, `printed`
    /// whether it printed anything.
    Finished { success: bool, printed: bool },
}

/// One variable of the environment: its name, and its value where it is set.
#[derive(Debug)]
pub struct VariableReading {
    pub name: String,
    pub value: Option<String>,
}

/// The mathematical value of a [`VariableReading`].
pub ghost struct VariableReadingView {
    pub name: Seq<char>,
    pub value: Option<Seq<char>>,
}

impl View for VariableReading {
    type V = VariableReadingView;

    open spec fn view(&self) -> VariableReadingView {
        VariableReadingView {
            name: self.name@,
            value: match self.value {
                Some(value) => Some(value@),
                None => None,
            },
        }
    }
}

/// The values of a list of readings.
pub open spec fn reading_views(readings: Seq<VariableReading>) -> Seq<VariableReadingView> {
    readings.map_values(|r: VariableReading| r@)
}

/// The line on whether the home of the Steam Deck's user exists.
pub open spec fn deck_line(deck_home: bool) -> Seq<char> {
    if deck_home {
        "✅ Running on Steam Deck (deck user detected)"@
    } else {
        "❓ Not running on Steam Deck (no deck user)"@
    }
}

/// The line on Steam: it runs where the search ended well and printed
/// something.
pub open spec fn steam_line(search: ProcessSearch) -> Seq<char> {
    match search {
        ProcessSearch::Finished { success, printed } => if success && printed {
            "🎮 Steam is running"@
        } else {
            "❌ Steam is not running"@
        },
        ProcessSearch::Failed => "❓ Could not check Steam status"@,
    }
}

/// The line on one variable.
pub open spec fn variable_line(reading: VariableReadingView) -> Seq<char> {
    match reading.value {
        Some(value) => "🎮 "@ + reading.name + ": "@ + value,
        None => "❌ "@ + reading.name + " not set"@,
    }
}

/// The lines of the Steam Deck report.
pub open spec fn steam_deck_lines(
    deck_home: bool,
    search: ProcessSearch,
    readings: Seq<VariableReadingView>,
) -> Seq<Seq<char>> {
    seq![deck_line(deck_home), steam_line(search)] + readings.map_values(
        |r: VariableReadingView| variable_line(r),
    )
}

/// The names of the variables that the Steam Deck report reads.
pub fn steam_variables() -> (res: Vec<String>)
    ensures
        res@.len() == 3,
        res@[0]@ == "STEAM_COMPAT_DATA_PATH"@,
        res@[1]@ == "STEAM_COMPAT_CLIENT_INSTALL_PATH"@,
        res@[2]@ == "SteamAppId"@,
{
    let mut res: Vec<String> = Vec::new();
    res.push(String::from_str("STEAM_COMPAT_DATA_PATH"));
    res.push(String::from_str("STEAM_COMPAT_CLIENT_INSTALL_PATH"));
    res.push(String::from_str("SteamAppId"));
    res
}

fn variable_text(reading: &VariableReading) -> (res: String)
    ensures
        res@ == variable_line(reading@),
{
    match &reading.value {
        Some(value) => {
            let mut res = String::from_str("🎮 ");
            res.append(reading.name.as_str());
            res.append(": ");
            res.append(value.as_str());
            res
        },
        None => {
            let mut res = String::from_str("❌ ");
            res.append(reading.name.as_str());
            res.append(" not set");
            res
        },
    }
}

impl EvdevGamepadManager {
    /// The Steam Deck report: a line on the user's home, a line on Steam,
    /// and a line on each variable read, joined by line feeds.
    pub fn get_steam_deck_info(
        &self,
        deck_home: bool,
        search: ProcessSearch,
        readings: &Vec<VariableReading>,
    ) -> (res: String)
        ensures
            res@ == joined(steam_deck_lines(deck_home, search, reading_views(readings@))),
    {
        let mut info: Vec<String> = Vec::new();
        if deck_home {
            info.push(String::from_str("✅ Running on Steam Deck (deck user detected)"));
        } else {
            info.push(String::from_str("❓ Not running on Steam Deck (no deck user)"));
        }
        match search {
            ProcessSearch::Finished { success, printed } => {
                if success && printed {
                    info.push(String::from_str("🎮 Steam is running"));
                } else {
                    info.push(String::from_str("❌ Steam is not running"));
                }
            },
            ProcessSearch::Failed => {
                info.push(String::from_str("❓ Could not check Steam status"));
            },
        }
        let mut i: usize = 0;
        while i < readings.len()
            invariant
                i <= readings.len(),
                info@.len() == 2 + i,
                info@[0]@ == deck_line(deck_home),
                info@[1]@ == steam_line(search),
                forall|k: int| 0 <= k < i ==> (#[trigger] info@[2 + k])@ == variable_line(
                    readings@[k]@,
                ),
            decreases readings.len() - i,
        {
            info.push(variable_text(&readings[i]));
            i += 1;
        }
        assert(texts(info@) =~= steam_deck_lines(deck_home, search, reading_views(readings@))) by {
            let lines = steam_deck_lines(deck_home, search, reading_views(readings@));
            assert(texts(info@).len() == lines.len());
            assert forall|k: int| 0 <= k < lines.len() implies texts(info@)[k] == lines[k] by {
                if k >= 2 {
                    assert(info@[2 + (k - 2)]@ == variable_line(readings@[k - 2]@));
                }
            }
        }
        join_lines(&info)
    }
}

} // verus!
