//! The controller state table and the sink that applies events to it.

use crate::names::NameMap;
use std::collections::HashMap;
use vstd::prelude::*;
use vstd::std_specs::hash::*;

verus! {

broadcast use vstd::std_specs::hash::group_hash_axioms;

/// What is known of one connected controller. An axis value is held as the
/// bit pattern of its single-precision number.
#[derive(Debug)]
pub struct ControllerState {
    pub buttons: NameMap<bool>,
    pub axes: NameMap<u32>,
    pub connected: bool,
    pub controller_id: usize,
}

/// The mathematical value of a [`ControllerState`].
pub ghost struct ControllerStateView {
    pub buttons: Map<Seq<char>, bool>,
    pub axes: Map<Seq<char>, u32>,
    pub connected: bool,
    pub controller_id: usize,
}

impl View for ControllerState {
    type V = ControllerStateView;

    open spec fn view(&self) -> ControllerStateView {
        ControllerStateView {
            buttons: self.buttons@,
            axes: self.axes@,
            connected: self.connected,
            controller_id: self.controller_id,
        }
    }
}

/// The state of a controller that has just connected: no button and no axis
/// seen yet.
pub open spec fn fresh_state(id: usize) -> ControllerStateView {
    ControllerStateView {
        buttons: Map::empty(),
        axes: Map::empty(),
        connected: true,
        controller_id: id,
    }
}

impl ControllerState {
    /// The state of a controller that has just connected.
    pub fn new(controller_id: usize) -> (res: Self)
        ensures
            res@ == fresh_state(controller_id),
    {
        ControllerState {
            buttons: NameMap::new(),
            axes: NameMap::new(),
            connected: true,
            controller_id,
        }
    }
}

impl Clone for ControllerState {
    fn clone(&self) -> (res: Self)
        ensures
            res@ == self@,
    {
        ControllerState {
            buttons: self.buttons.clone(),
            axes: self.axes.clone(),
            connected: self.connected,
            controller_id: self.controller_id,
        }
    }
}

/// What happened to a controller.
#[derive(Debug)]
pub enum EventKind {
    Connected,
    Disconnected,
    ButtonChanged { name: String, pressed: bool },
    AxisChanged { name: String, value: u32 },
    /// Anything else the backend reports; it changes nothing.
    Other,
}

/// The mathematical value of an [`EventKind`].
pub ghost enum EventKindView {
    Connected,
    Disconnected,
    ButtonChanged { name: Seq<char>, pressed: bool },
    AxisChanged { name: Seq<char>, value: u32 },
    Other,
}

impl View for EventKind {
    type V = EventKindView;

    open spec fn view(&self) -> EventKindView {
        match self {
            EventKind::Connected => EventKindView::Connected,
            EventKind::Disconnected => EventKindView::Disconnected,
            EventKind::ButtonChanged { name, pressed } => EventKindView::ButtonChanged {
                name: name@,
                pressed: *pressed,
            },
            EventKind::AxisChanged { name, value } => EventKindView::AxisChanged {
                name: name@,
                value: *value,
            },
            EventKind::Other => EventKindView::Other,
        }
    }
}

/// One event of either backend in the common form, with the time in
/// milliseconds at which it was taken from the backend.
#[derive(Debug)]
pub struct NormalizedEvent {
    pub controller_id: usize,
    pub kind: EventKind,
    pub timestamp: u64,
}

/// The mathematical value of a [`NormalizedEvent`].
pub ghost struct EventView {
    pub controller_id: usize,
    pub kind: EventKindView,
    pub timestamp: u64,
}

impl View for NormalizedEvent {
    type V = EventView;

    open spec fn view(&self) -> EventView {
        EventView {
            controller_id: self.controller_id,
            kind: self.kind@,
            timestamp: self.timestamp,
        }
    }
}

/// The payload published for a button or axis event.
#[derive(Debug)]
pub struct ControllerEvent {
    pub controller_id: usize,
    pub event_type: String,
    pub button: Option<String>,
    pub axis: Option<String>,
    pub value: Option<u32>,
    pub timestamp: u64,
}

/// The mathematical value of a [`ControllerEvent`].
pub ghost struct ControllerEventView {
    pub controller_id: usize,
    pub event_type: Seq<char>,
    pub button: Option<Seq<char>>,
    pub axis: Option<Seq<char>>,
    pub value: Option<u32>,
    pub timestamp: u64,
}

/// The characters of an optional text.
pub open spec fn text_of(text: Option<String>) -> Option<Seq<char>> {
    match text {
        Some(t) => Some(t@),
        None => None,
    }
}

impl View for ControllerEvent {
    type V = ControllerEventView;

    open spec fn view(&self) -> ControllerEventView {
        ControllerEventView {
            controller_id: self.controller_id,
            event_type: self.event_type@,
            button: text_of(self.button),
            axis: text_of(self.axis),
            value: self.value,
            timestamp: self.timestamp,
        }
    }
}

/// One message for the user interface.
#[derive(Debug)]
pub enum Publication {
    Connected(usize),
    Disconnected(usize),
    Input(ControllerEvent),
}

/// The mathematical value of a [`Publication`].
pub ghost enum PublicationView {
    Connected(usize),
    Disconnected(usize),
    Input(ControllerEventView),
}

impl View for Publication {
    type V = PublicationView;

    open spec fn view(&self) -> PublicationView {
        match self {
            Publication::Connected(id) => PublicationView::Connected(*id),
            Publication::Disconnected(id) => PublicationView::Disconnected(*id),
            Publication::Input(event) => PublicationView::Input(event@),
        }
    }
}

/// The topic under which a publication goes out.
pub open spec fn topic_of(publication: PublicationView) -> Seq<char> {
    match publication {
        PublicationView::Connected(_) => "gamepad-connected"@,
        PublicationView::Disconnected(_) => "gamepad-disconnected"@,
        PublicationView::Input(_) => "gamepad-input"@,
    }
}

impl Publication {
    /// The topic under which this publication goes out.
    pub fn topic(&self) -> (res: String)
        ensures
            res@ == topic_of(self@),
    {
        match self {
            Publication::Connected(_) => String::from_str("gamepad-connected"),
            Publication::Disconnected(_) => String::from_str("gamepad-disconnected"),
            Publication::Input(_) => String::from_str("gamepad-input"),
        }
    }
}

/// The state table as a mathematical map from controller id to state.
pub type TableView = Map<usize, ControllerStateView>;

/// The table with a button recorded as pressed or released in the entry of
/// `id`; the table as it is where it has no such entry.
pub open spec fn with_button(table: TableView, id: usize, name: Seq<char>, pressed: bool) -> TableView {
    if table.contains_key(id) {
        table.insert(
            id,
            ControllerStateView { buttons: table[id].buttons.insert(name, pressed), ..table[id] },
        )
    } else {
        table
    }
}

/// The table with the value of an axis recorded in the entry of `id`; the
/// table as it is where it has no such entry.
pub open spec fn with_axis(table: TableView, id: usize, name: Seq<char>, value: u32) -> TableView {
    if table.contains_key(id) {
        table.insert(
            id,
            ControllerStateView { axes: table[id].axes.insert(name, value), ..table[id] },
        )
    } else {
        table
    }
}

/// The table after one event. A connect puts a fresh state under the id and
/// a disconnect removes the id. A button or axis change is recorded in the
/// entry of its id; where there is no such entry the table stays as it is.
pub open spec fn table_after(table: TableView, event: EventView) -> TableView {
    let id = event.controller_id;
    match event.kind {
        EventKindView::Connected => table.insert(id, fresh_state(id)),
        EventKindView::Disconnected => table.remove(id),
        EventKindView::ButtonChanged { name, pressed } => with_button(table, id, name, pressed),
        EventKindView::AxisChanged { name, value } => with_axis(table, id, name, value),
        EventKindView::Other => table,
    }
}

/// What is published for one event: every connect, disconnect, button and
/// axis event is published, whether or not the table has an entry for it.
pub open spec fn publication_for(event: EventView) -> Option<PublicationView> {
    let id = event.controller_id;
    match event.kind {
        EventKindView::Connected => Some(PublicationView::Connected(id)),
        EventKindView::Disconnected => Some(PublicationView::Disconnected(id)),
        EventKindView::ButtonChanged { name, pressed } => Some(
            PublicationView::Input(
                ControllerEventView {
                    controller_id: id,
                    event_type: if pressed {
                        "button-pressed"@
                    } else {
                        "button-released"@
                    },
                    button: Some(name),
                    axis: None,
                    value: None,
                    timestamp: event.timestamp,
                },
            ),
        ),
        EventKindView::AxisChanged { name, value } => Some(
            PublicationView::Input(
                ControllerEventView {
                    controller_id: id,
                    event_type: "axis-changed"@,
                    button: None,
                    axis: Some(name),
                    value: Some(value),
                    timestamp: event.timestamp,
                },
            ),
        ),
        EventKindView::Other => None,
    }
}

/// Every entry stands under its own id and is marked connected.
pub open spec fn consistent(table: TableView) -> bool {
    forall|id: usize| #[trigger]
        table.contains_key(id) ==> table[id].controller_id == id && table[id].connected
}

/// The mathematical value of a stored table.
pub open spec fn table_view(states: Map<usize, ControllerState>) -> TableView {
    Map::new(|id: usize| states.contains_key(id), |id: usize| states[id]@)
}

/// The state table with the time of the last event.
#[derive(Debug)]
pub struct GamepadManager {
    states: HashMap<usize, ControllerState>,
    last_event_time: Option<u64>,
}

impl View for GamepadManager {
    type V = TableView;

    closed spec fn view(&self) -> TableView {
        table_view(self.states@)
    }
}

impl GamepadManager {
    /// The invariant of the table: see [`consistent`].
    pub open spec fn wf(&self) -> bool {
        consistent(self@)
    }

    /// The time of the last event that was applied, if any was.
    pub closed spec fn last_event(&self) -> Option<u64> {
        self.last_event_time
    }

    /// An empty table, once the structured backend has started. Where the
    /// backend failed to start there is no table, and the error says why.
    pub fn new(backend: Result<(), String>) -> (res: Result<Self, String>)
        ensures
            match (backend, res) {
                (Ok(_), Ok(manager)) => manager@ == Map::<usize, ControllerStateView>::empty()
                    && manager.last_event() == None::<u64> && manager.wf(),
                (Err(cause), Err(message)) => message@ == "Failed to initialize gamepad: "@
                    + cause@,
                _ => false,
            },
    {
        match backend {
            Ok(_) => {
                let manager = GamepadManager { states: HashMap::new(), last_event_time: None };
                assert(manager@ =~= Map::<usize, ControllerStateView>::empty());
                Ok(manager)
            },
            Err(cause) => {
                let mut message = String::from_str("Failed to initialize gamepad: ");
                message.append(cause.as_str());
                Err(message)
            },
        }
    }

    /// Records a button as pressed or released in the entry of
    /// `controller_id`. Without such an entry nothing changes.
    pub fn update_button_state(&mut self, controller_id: usize, button: String, pressed: bool)
        requires
            old(self).wf(),
        ensures
            final(self).wf(),
            final(self).last_event() == old(self).last_event(),
            final(self)@ == with_button(old(self)@, controller_id, button@, pressed),
    {
        let ghost before = self@;
        match self.states.remove(&controller_id) {
            Some(state) => {
                let ControllerState { buttons, axes, connected, controller_id: own_id } = state;
                let buttons = buttons.with(button, pressed);
                self.states.insert(
                    controller_id,
                    ControllerState { buttons, axes, connected, controller_id: own_id },
                );
                assert(self@ =~= before.insert(
                    controller_id,
                    ControllerStateView {
                        buttons: before[controller_id].buttons.insert(button@, pressed),
                        ..before[controller_id]
                    },
                ));
            },
            None => {
                assert(self@ =~= before);
            },
        }
    }

    /// Records the value of an axis in the entry of `controller_id`.
    /// Without such an entry nothing changes.
    pub fn update_axis_state(&mut self, controller_id: usize, axis: String, value: u32)
        requires
            old(self).wf(),
        ensures
            final(self).wf(),
            final(self).last_event() == old(self).last_event(),
            final(self)@ == with_axis(old(self)@, controller_id, axis@, value),
    {
        let ghost before = self@;
        match self.states.remove(&controller_id) {
            Some(state) => {
                let ControllerState { buttons, axes, connected, controller_id: own_id } = state;
                let axes = axes.with(axis, value);
                self.states.insert(
                    controller_id,
                    ControllerState { buttons, axes, connected, controller_id: own_id },
                );
                assert(self@ =~= before.insert(
                    controller_id,
                    ControllerStateView {
                        axes: before[controller_id].axes.insert(axis@, value),
                        ..before[controller_id]
                    },
                ));
            },
            None => {
                assert(self@ =~= before);
            },
        }
    }

    /// Applies one event to the table, notes its time, and returns what is
    /// to be published for it.
    pub fn apply_event(&mut self, event: &NormalizedEvent) -> (res: Option<Publication>)
        requires
            old(self).wf(),
        ensures
            final(self).wf(),
            final(self)@ == table_after(old(self)@, event@),
            final(self).last_event() == Some(event.timestamp),
            option_view(res) == publication_for(event@),
    {
        let ghost before = self@;
        let id = event.controller_id;
        let timestamp = event.timestamp;
        self.last_event_time = Some(timestamp);
        match &event.kind {
            EventKind::Connected => {
                self.states.insert(id, ControllerState::new(id));
                assert(self@ =~= before.insert(id, fresh_state(id)));
                Some(Publication::Connected(id))
            },
            EventKind::Disconnected => {
                self.states.remove(&id);
                assert(self@ =~= before.remove(id));
                Some(Publication::Disconnected(id))
            },
            EventKind::ButtonChanged { name, pressed } => {
                self.update_button_state(id, name.clone(), *pressed);
                let event_type = if *pressed {
                    String::from_str("button-pressed")
                } else {
                    String::from_str("button-released")
                };
                Some(
                    Publication::Input(
                        ControllerEvent {
                            controller_id: id,
                            event_type,
                            button: Some(name.clone()),
                            axis: None,
                            value: None,
                            timestamp,
                        },
                    ),
                )
            },
            EventKind::AxisChanged { name, value } => {
                self.update_axis_state(id, name.clone(), *value);
                Some(
                    Publication::Input(
                        ControllerEvent {
                            controller_id: id,
                            event_type: String::from_str("axis-changed"),
                            button: None,
                            axis: Some(name.clone()),
                            value: Some(*value),
                            timestamp,
                        },
                    ),
                )
            },
            EventKind::Other => None,
        }
    }

    /// Applies the events in the order given and returns what is to be
    /// published, in the same order.
    pub fn poll_events(&mut self, events: &Vec<NormalizedEvent>) -> (res: Vec<Publication>)
        requires
            old(self).wf(),
        ensures
            final(self).wf(),
            final(self)@ == table_after_all(old(self)@, event_views(events@)),
            final(self).last_event() == last_time_after(old(self).last_event(), event_views(events@)),
            publication_views(res@) == publications_for(event_views(events@)),
    {
        let mut res: Vec<Publication> = Vec::new();
        let mut i: usize = 0;
        assert(event_views(events@).subrange(0, 0) =~= Seq::<EventView>::empty());
        assert(publication_views(res@) =~= Seq::<PublicationView>::empty());
        while i < events.len()
            invariant
                i <= events.len(),
                self.wf(),
                self@ == table_after_all(old(self)@, event_views(events@).subrange(0, i as int)),
                self.last_event() == last_time_after(
                    old(self).last_event(),
                    event_views(events@).subrange(0, i as int),
                ),
                publication_views(res@) == publications_for(
                    event_views(events@).subrange(0, i as int),
                ),
            decreases events.len() - i,
        {
            let ghost seen = event_views(events@).subrange(0, i as int);
            let ghost next = event_views(events@).subrange(0, i + 1);
            let ghost sent = publication_views(res@);
            assert(next.drop_last() =~= seen);
            assert(next.last() == events@[i as int]@);
            match self.apply_event(&events[i]) {
                Some(publication) => {
                    res.push(publication);
                    assert(publication_views(res@) =~= sent.push(publication@));
                },
                None => {},
            }
            i += 1;
        }
        assert(event_views(events@).subrange(0, events.len() as int) =~= event_views(events@));
        res
    }

    /// A copy of the whole table.
    pub fn get_controller_states(&self) -> (res: HashMap<usize, ControllerState>)
        ensures
            table_view(res@) == self@,
    {
        self.states.clone()
    }

    /// A copy of the state of one controller, if the table has it.
    pub fn get_controller_state(&self, id: usize) -> (res: Option<ControllerState>)
        ensures
            match res {
                Some(state) => self@.contains_key(id) && state@ == self@[id],
                None => !self@.contains_key(id),
            },
    {
        match self.states.get(&id) {
            Some(state) => Some(state.clone()),
            None => None,
        }
    }

    /// The time of the last event that was applied, if any was.
    pub fn last_event_time(&self) -> (res: Option<u64>)
        ensures
            res == self.last_event(),
    {
        self.last_event_time
    }
}

/// The value of an optional publication.
pub open spec fn option_view(publication: Option<Publication>) -> Option<PublicationView> {
    match publication {
        Some(p) => Some(p@),
        None => None,
    }
}

/// The values of a list of events.
pub open spec fn event_views(events: Seq<NormalizedEvent>) -> Seq<EventView> {
    events.map_values(|e: NormalizedEvent| e@)
}

/// The values of a list of publications.
pub open spec fn publication_views(publications: Seq<Publication>) -> Seq<PublicationView> {
    publications.map_values(|p: Publication| p@)
}

/// The table after a run of events, applied first to last.
pub open spec fn table_after_all(table: TableView, events: Seq<EventView>) -> TableView
    decreases events.len(),
{
    if events.len() == 0 {
        table
    } else {
        table_after(table_after_all(table, events.drop_last()), events.last())
    }
}

/// What is published for a run of events, in their order.
pub open spec fn publications_for(events: Seq<EventView>) -> Seq<PublicationView>
    decreases events.len(),
{
    if events.len() == 0 {
        Seq::empty()
    } else {
        let earlier = publications_for(events.drop_last());
        match publication_for(events.last()) {
            Some(publication) => earlier.push(publication),
            None => earlier,
        }
    }
}

/// The time of the last event after a run of events.
pub open spec fn last_time_after(last: Option<u64>, events: Seq<EventView>) -> Option<u64> {
    if events.len() == 0 {
        last
    } else {
        Some(events.last().timestamp)
    }
}

/// Whether the last connect or disconnect of `id` in a run of events was a
/// connect; `None` where the run holds neither for that id.
pub open spec fn last_link(events: Seq<EventView>, id: usize) -> Option<bool>
    decreases events.len(),
{
    if events.len() == 0 {
        None
    } else if events.last().controller_id == id && events.last().kind is Connected {
        Some(true)
    } else if events.last().controller_id == id && events.last().kind is Disconnected {
        Some(false)
    } else {
        last_link(events.drop_last(), id)
    }
}

/// After any run of events the table has an entry for an id exactly if the
/// last connect or disconnect of that id was a connect. Where the run holds
/// neither for the id, the table has the entry exactly if it had it before.
pub proof fn entry_follows_last_link(table: TableView, events: Seq<EventView>, id: usize)
    ensures
        table_after_all(table, events).contains_key(id) == match last_link(events, id) {
            Some(connected) => connected,
            None => table.contains_key(id),
        },
    decreases events.len(),
{
    if events.len() > 0 {
        entry_follows_last_link(table, events.drop_last(), id);
    }
}

/// A button or axis change for an id without an entry leaves the table as it
/// is: no entry is made up for it.
pub proof fn change_without_entry_is_dropped(table: TableView, event: EventView)
    requires
        !table.contains_key(event.controller_id),
        event.kind is ButtonChanged || event.kind is AxisChanged,
    ensures
        table_after(table, event) == table,
{
}

/// No event but a connect adds an id to the table.
pub proof fn only_connect_adds_entry(table: TableView, event: EventView, id: usize)
    requires
        !table.contains_key(id),
        table_after(table, event).contains_key(id),
    ensures
        event.kind is Connected,
        event.controller_id == id,
        table_after(table, event)[id] == fresh_state(id),
{
}

/// Every event keeps each entry under its own id and marked connected.
pub proof fn event_keeps_table_consistent(table: TableView, event: EventView)
    requires
        consistent(table),
    ensures
        consistent(table_after(table, event)),
{
}

/// A run of events keeps each entry under its own id and marked connected.
pub proof fn events_keep_table_consistent(table: TableView, events: Seq<EventView>)
    requires
        consistent(table),
    ensures
        consistent(table_after_all(table, events)),
    decreases events.len(),
{
    if events.len() > 0 {
        events_keep_table_consistent(table, events.drop_last());
        event_keeps_table_consistent(table_after_all(table, events.drop_last()), events.last());
    }
}

/// A button or axis change never removes a name that an entry already
/// holds, and it touches no entry but that of its own id.
pub proof fn change_keeps_names(table: TableView, event: EventView, id: usize, name: Seq<char>)
    requires
        table.contains_key(id),
        event.kind is ButtonChanged || event.kind is AxisChanged,
    ensures
        table_after(table, event).contains_key(id),
        table[id].buttons.contains_key(name) ==> table_after(table, event)[id].buttons.contains_key(
            name,
        ),
        table[id].axes.contains_key(name) ==> table_after(table, event)[id].axes.contains_key(name),
        event.controller_id != id ==> table_after(table, event)[id] == table[id],
{
}

} // verus!
