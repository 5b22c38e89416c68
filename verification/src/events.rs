//! Events that a connected handle receives
use vstd::prelude::*;

use crate::buffer::BufferId;
use crate::mode::{DrmFormat, EvdiMode, UnrecognizedFourcc, XRGB8888};

pub use crate::mode::Mode;

verus! {

/// What is known of the events that a handle received.
#[derive(Clone, Copy)]
pub struct HandleEvents {
    pub current_mode: Option<Mode>,
}

/// What is to be done about an event.
#[derive(Debug, Clone, Copy)]
pub enum MonitorAction {
    /// Wake those who wait for a mode.
    PublishMode(Mode),
    /// Tell those who wait for an update of a buffer.
    BroadcastUpdate(BufferId),
    Ignore,
    /// No more events will come.
    Stop,
}

/// Why someone who awaits a mode looks again.
#[derive(Debug, Clone, Copy, PartialEq, Eq, Structural)]
pub enum ModeWake {
    /// The wait has not begun yet.
    Start,
    TimedOut,
    /// A mode was published.
    Changed,
    /// No mode will be published any more.
    Closed,
}

/// What someone who listens for updates of buffers received.
#[derive(Debug, Clone, Copy, PartialEq, Eq, Structural)]
pub enum UpdateRecv {
    Update(BufferId),
    Closed,
    /// So many updates came faster than they were received, and are lost.
    Lagged(u64),
}

/// Why someone who awaits an update of a buffer looks again.
#[derive(Debug, Clone, Copy, PartialEq, Eq, Structural)]
pub enum UpdateWake {
    TimedOut,
    Received(UpdateRecv),
}

/// The mode that is current after an event.
pub open spec fn mode_after(current: Option<Mode>, event: Event) -> Option<Mode> {
    match event {
        Event::ModeChanged(mode) => Some(mode),
        _ => current,
    }
}

/// The mode that is current after some events.
pub open spec fn mode_after_all(current: Option<Mode>, events: Seq<Event>) -> Option<Mode>
    decreases events.len(),
{
    if events.len() == 0 {
        current
    } else {
        mode_after(mode_after_all(current, events.drop_last()), events.last())
    }
}

/// What is to be done about an event, or about there being no more of them.
pub open spec fn monitor_action(event: Option<Event>) -> MonitorAction {
    match event {
        Some(Event::ModeChanged(mode)) => MonitorAction::PublishMode(mode),
        Some(Event::UpdateReady(id)) => MonitorAction::BroadcastUpdate(id),
        Some(_) => MonitorAction::Ignore,
        None => MonitorAction::Stop,
    }
}

/// What is to be done about some events, one after the other.
pub open spec fn monitor_actions(events: Seq<Event>) -> Seq<MonitorAction> {
    events.map_values(|event: Event| monitor_action(Some(event)))
}

/// The buffers whose updates are broadcast, in the order of the broadcasts.
pub open spec fn broadcast_updates(actions: Seq<MonitorAction>) -> Seq<BufferId> {
    actions.filter(|action: MonitorAction| action is BroadcastUpdate).map_values(
        |action: MonitorAction| action->BroadcastUpdate_0,
    )
}

/// The buffers that events say are updated, in the order of the events.
pub open spec fn ready_updates(events: Seq<Event>) -> Seq<BufferId> {
    events.filter(|event: Event| event is UpdateReady).map_values(
        |event: Event| event->UpdateReady_0,
    )
}

/// How a wait for a mode ends, `None` while it does not.
pub open spec fn mode_wait(current: Option<Mode>, wake: ModeWake) -> Option<
    Result<Mode, AwaitEventError>,
> {
    match wake {
        ModeWake::Start => match current {
            Some(mode) => Some(Ok(mode)),
            None => None,
        },
        ModeWake::TimedOut => Some(Err(AwaitEventError::Timeout)),
        ModeWake::Changed => Some(Ok(current.unwrap())),
        ModeWake::Closed => Some(Err(AwaitEventError::ChannelClosed)),
    }
}

/// How a wait for an update of a buffer ends, `None` while it does not.
pub open spec fn update_wait(id: BufferId, wake: UpdateWake) -> Option<
    Result<(), AwaitEventError>,
> {
    match wake {
        UpdateWake::TimedOut => Some(Err(AwaitEventError::Timeout)),
        UpdateWake::Received(UpdateRecv::Update(potential)) => if potential == id {
            Some(Ok(()))
        } else {
            None
        },
        UpdateWake::Received(UpdateRecv::Closed) => Some(Err(AwaitEventError::ChannelClosed)),
        UpdateWake::Received(UpdateRecv::Lagged(_)) => None,
    }
}

/// How a wait for an update of a buffer ends in which all this is received, `None` where it goes
/// on.
pub open spec fn update_wait_all(id: BufferId, wakes: Seq<UpdateWake>) -> Option<
    Result<(), AwaitEventError>,
>
    decreases wakes.len(),
{
    if wakes.len() == 0 {
        None
    } else {
        match update_wait(id, wakes.first()) {
            Some(end) => Some(end),
            None => update_wait_all(id, wakes.drop_first()),
        }
    }
}

impl HandleEvents {
    /// Before the first event there is no mode.
    pub fn new() -> (events: Self)
        ensures
            events == (HandleEvents { current_mode: None }),
    {
        Self { current_mode: None }
    }

    /// Takes note of an event, or with `None` of there being no more of them.
    pub fn on_event(&mut self, event: Option<Event>) -> (action: MonitorAction)
        ensures
            action == monitor_action(event),
            final(self).current_mode == (match event {
                Some(event) => mode_after(old(self).current_mode, event),
                None => old(self).current_mode,
            }),
    {
        match event {
            Some(event) => match event {
                Event::ModeChanged(mode) => {
                    self.current_mode = Some(mode);
                    MonitorAction::PublishMode(mode)
                },
                Event::UpdateReady(id) => MonitorAction::BroadcastUpdate(id),
                _ => MonitorAction::Ignore,
            },
            None => MonitorAction::Stop,
        }
    }

    /// To receive a buffer update you must have been waiting before it was sent by the kernel
    ///
    /// `None` means that the wait goes on.
    pub fn await_buffer_update(id: BufferId, wake: UpdateWake) -> (end: Option<
        Result<(), AwaitEventError>,
    >)
        ensures
            end == update_wait(id, wake),
    {
        match wake {
            UpdateWake::TimedOut => Some(Err(AwaitEventError::Timeout)),
            UpdateWake::Received(received) => Self::await_buffer_update_unbounded(id, received),
        }
    }

    fn await_buffer_update_unbounded(id: BufferId, received: UpdateRecv) -> (end: Option<
        Result<(), AwaitEventError>,
    >)
        ensures
            end == update_wait(id, UpdateWake::Received(received)),
    {
        match received {
            UpdateRecv::Update(potential) => {
                if potential == id {
                    Some(Ok(()))
                } else {
                    None
                }
            },
            UpdateRecv::Closed => Some(Err(AwaitEventError::ChannelClosed)),
            UpdateRecv::Lagged(_) => None,
        }
    }

    /// The most recent mode received, if a mode has been received.
    pub fn current_mode(&self) -> (mode: Option<Mode>)
        ensures
            mode == self.current_mode,
    {
        self.current_mode
    }

    /// If a mode event has been received, return it. Otherwise wait for a mode event.
    ///
    /// `None` means that the wait goes on. A mode is only [`ModeWake::Changed`] once one was
    /// published, and then there is one.
    pub fn await_mode(&self, wake: ModeWake) -> (end: Option<Result<Mode, AwaitEventError>>)
        requires
            wake is Changed ==> self.current_mode is Some,
        ensures
            end == mode_wait(self.current_mode, wake),
    {
        match wake {
            ModeWake::Start => match self.current_mode() {
                Some(cached) => Some(Ok(cached)),
                None => None,
            },
            ModeWake::TimedOut => Some(Err(AwaitEventError::Timeout)),
            ModeWake::Changed => Some(Ok(self.current_mode().unwrap())),
            ModeWake::Closed => Some(Err(AwaitEventError::ChannelClosed)),
        }
    }
}

#[derive(Debug, Clone, Copy, PartialEq, Eq, Structural)]
pub enum AwaitEventError {
    Timeout,
    ChannelClosed,
}

impl AwaitEventError {
    /// What to tell a user.
    pub fn message(&self) -> (message: &'static str)
        ensures
            message@ == (match self {
                AwaitEventError::Timeout => "Timeout"@,
                AwaitEventError::ChannelClosed => "Event channel closed"@,
            }),
    {
        match self {
            AwaitEventError::Timeout => "Timeout",
            AwaitEventError::ChannelClosed => "Event channel closed",
        }
    }
}

#[derive(Debug)]
pub enum Event {
    DpmsModeChanged(DpmsMode),
    ModeChanged(Mode),
    /// An update for a buffer requested earlier is ready to be consumed.
    UpdateReady(BufferId),
    CrtcStateChanged(CrtcState),
    CursorChange(CursorChange),
    CursorMove(CursorMove),
    I2CRequest(DdcCiData),
}

/// An event as a handler of libevdi receives it.
#[derive(Debug)]
pub enum EvdiEvent {
    Dpms(i32),
    ModeChanged(EvdiMode),
    UpdateReady(i32),
    CrtcState(i32),
    CursorSet(EvdiCursorSet),
    CursorMove(EvdiCursorMove),
    DdcciData(EvdiDdcciData),
}

/// The event that a handler of libevdi received.
pub open spec fn event_of(sys: EvdiEvent) -> Event {
    match sys {
        EvdiEvent::Dpms(mode) => Event::DpmsModeChanged(dpms_mode_of(mode)),
        EvdiEvent::ModeChanged(mode) => Event::ModeChanged(
            crate::mode::mode_of(mode, crate::mode::pixel_format_of(mode.pixel_format)),
        ),
        EvdiEvent::UpdateReady(buffer) => Event::UpdateReady(BufferId(buffer)),
        EvdiEvent::CrtcState(state) => Event::CrtcStateChanged(CrtcState(state)),
        EvdiEvent::CursorSet(cursor_set) => Event::CursorChange(
            cursor_change_of(
                cursor_set,
                crate::mode::pixel_format_of(cursor_set.pixel_format),
            ),
        ),
        EvdiEvent::CursorMove(cursor_move) => Event::CursorMove(
            CursorMove { x: cursor_move.x, y: cursor_move.y },
        ),
        EvdiEvent::DdcciData(data) => Event::I2CRequest(
            DdcCiData { flags: data.flags, buffer: data.buffer },
        ),
    }
}

/// Two events that hold the same.
pub open spec fn same_event(a: Event, b: Event) -> bool {
    match (a, b) {
        (Event::CursorChange(a), Event::CursorChange(b)) => a.same(b),
        (Event::I2CRequest(a), Event::I2CRequest(b)) => a.same(b),
        _ => a == b,
    }
}

impl Clone for Event {
    fn clone(&self) -> (event: Self)
        ensures
            same_event(event, *self),
    {
        match self {
            Event::DpmsModeChanged(mode) => Event::DpmsModeChanged(*mode),
            Event::ModeChanged(mode) => Event::ModeChanged(*mode),
            Event::UpdateReady(id) => Event::UpdateReady(*id),
            Event::CrtcStateChanged(state) => Event::CrtcStateChanged(*state),
            Event::CursorChange(change) => Event::CursorChange(change.clone()),
            Event::CursorMove(cursor_move) => Event::CursorMove(*cursor_move),
            Event::I2CRequest(data) => Event::I2CRequest(data.clone()),
        }
    }
}

impl Event {
    /// The event that a handler of libevdi received.
    pub fn from(sys: EvdiEvent) -> (event: Event)
        requires
            sys matches EvdiEvent::Dpms(mode) ==> is_dpms_mode(mode),
        ensures
            event == event_of(sys),
            sys matches EvdiEvent::ModeChanged(mode) ==> mode.pixel_format == XRGB8888 ==> (
            event matches Event::ModeChanged(changed) && changed.pixel_format == Ok::<
                DrmFormat,
                UnrecognizedFourcc,
            >(DrmFormat { code: XRGB8888 })),
            sys matches EvdiEvent::CursorSet(cursor_set) ==> cursor_set.pixel_format == XRGB8888
                ==> (event matches Event::CursorChange(change) && change.pixel_format == Ok::<
                DrmFormat,
                UnrecognizedFourcc,
            >(DrmFormat { code: XRGB8888 })),
    {
        match sys {
            EvdiEvent::Dpms(mode) => Event::DpmsModeChanged(DpmsMode::from(mode)),
            EvdiEvent::ModeChanged(mode) => Event::ModeChanged(<Mode as From<EvdiMode>>::from(mode)),
            EvdiEvent::UpdateReady(buffer) => Event::UpdateReady(BufferId::new(buffer)),
            EvdiEvent::CrtcState(state) => Event::CrtcStateChanged(
                <CrtcState as From<i32>>::from(state),
            ),
            EvdiEvent::CursorSet(cursor_set) => Event::CursorChange(
                <CursorChange as From<EvdiCursorSet>>::from(cursor_set),
            ),
            EvdiEvent::CursorMove(cursor_move) => Event::CursorMove(
                <CursorMove as From<EvdiCursorMove>>::from(cursor_move),
            ),
            EvdiEvent::DdcciData(data) => Event::I2CRequest(
                <DdcCiData as From<EvdiDdcciData>>::from(data),
            ),
        }
    }
}

/// Values from <https://displaylink.github.io/evdi/details/#dpms-mode-change>
#[derive(Debug, Copy, Clone, PartialEq, Eq, Structural)]
pub enum DpmsMode {
    /// 0
    On,
    /// 1
    Standby,
    /// 2
    Suspend,
    /// 3
    Off,
}

/// The value that stands for a DPMS mode.
pub open spec fn dpms_value(mode: DpmsMode) -> i32 {
    match mode {
        DpmsMode::On => 0,
        DpmsMode::Standby => 1,
        DpmsMode::Suspend => 2,
        DpmsMode::Off => 3,
    }
}

/// A value that stands for a DPMS mode.
pub open spec fn is_dpms_mode(sys: i32) -> bool {
    0 <= sys <= 3
}

/// The DPMS mode that a value stands for.
pub open spec fn dpms_mode_of(sys: i32) -> DpmsMode {
    if sys == 0 {
        DpmsMode::On
    } else if sys == 1 {
        DpmsMode::Standby
    } else if sys == 2 {
        DpmsMode::Suspend
    } else {
        DpmsMode::Off
    }
}

impl DpmsMode {
    pub fn from(sys: i32) -> (mode: Self)
        requires
            is_dpms_mode(sys),
        ensures
            mode == dpms_mode_of(sys),
    {
        match sys {
            0 => DpmsMode::On,
            1 => DpmsMode::Standby,
            2 => DpmsMode::Suspend,
            _ => DpmsMode::Off,
        }
    }

    /// The value that stands for the mode.
    pub fn value(&self) -> (sys: i32)
        ensures
            sys == dpms_value(*self),
    {
        match self {
            DpmsMode::On => 0,
            DpmsMode::Standby => 1,
            DpmsMode::Suspend => 2,
            DpmsMode::Off => 3,
        }
    }
}

/// A value [forwarded from the kernel][u-doc].
///
/// [u-doc]: https://displaylink.github.io/evdi/details/#crtc-state-change
#[derive(Debug, Clone, Copy, PartialEq, Eq, Structural)]
pub struct CrtcState(pub i32);

impl vstd::std_specs::convert::FromSpecImpl<i32> for CrtcState {
    open spec fn obeys_from_spec() -> bool {
        true
    }

    open spec fn from_spec(sys: i32) -> Self {
        CrtcState(sys)
    }
}

impl From<i32> for CrtcState {
    fn from(sys: i32) -> (state: Self)
        ensures
            state.0 == sys,
    {
        Self(sys)
    }
}

/// A change of the cursor as libevdi hands it out, with a copy of the pixels.
#[derive(Debug)]
pub struct EvdiCursorSet {
    pub hot_x: i32,
    pub hot_y: i32,
    pub width: u32,
    pub height: u32,
    pub enabled: u8,
    pub buffer: Vec<u32>,
    pub pixel_format: u32,
    pub stride: u32,
}

/// This notification is sent for an update of cursor buffer or shape. It is also raised when
/// cursor is enabled or disabled (when cursor is moved on and off the screen).
#[derive(Debug)]
pub struct CursorChange {
    pub enabled: bool,
    pub hotspot_x: i32,
    pub hotspot_y: i32,
    pub width: u32,
    pub height: u32,
    pub stride: u32,
    pub pixel_format: Result<DrmFormat, UnrecognizedFourcc>,
    pub buffer: Vec<u32>,
}

/// The change of the cursor that libevdi describes, where its pixel format code is found to stand
/// for `pixel_format`.
pub open spec fn cursor_change_of(
    sys: EvdiCursorSet,
    pixel_format: Result<DrmFormat, UnrecognizedFourcc>,
) -> CursorChange {
    CursorChange {
        enabled: sys.enabled != 0,
        hotspot_x: sys.hot_x,
        hotspot_y: sys.hot_y,
        width: sys.width,
        height: sys.height,
        stride: sys.stride,
        pixel_format,
        buffer: sys.buffer,
    }
}

impl vstd::std_specs::convert::FromSpecImpl<EvdiCursorSet> for CursorChange {
    open spec fn obeys_from_spec() -> bool {
        true
    }

    open spec fn from_spec(sys: EvdiCursorSet) -> Self {
        cursor_change_of(sys, crate::mode::pixel_format_of(sys.pixel_format))
    }
}

impl From<EvdiCursorSet> for CursorChange {
    fn from(sys: EvdiCursorSet) -> (change: Self)
        ensures
            sys.pixel_format == XRGB8888 ==> change.pixel_format == Ok::<
                DrmFormat,
                UnrecognizedFourcc,
            >(DrmFormat { code: XRGB8888 }),
    {
        let pixel_format = DrmFormat::recognize(sys.pixel_format);
        CursorChange::with_format(sys, pixel_format)
    }
}

impl Clone for CursorChange {
    fn clone(&self) -> (change: Self)
        ensures
            change.same(*self),
    {
        Self {
            enabled: self.enabled,
            hotspot_x: self.hotspot_x,
            hotspot_y: self.hotspot_y,
            width: self.width,
            height: self.height,
            stride: self.stride,
            pixel_format: self.pixel_format,
            buffer: vstd::slice::slice_to_vec(self.buffer()),
        }
    }
}

impl CursorChange {
    /// Two changes that hold the same.
    pub open spec fn same(self, other: Self) -> bool {
        self.buffer@ == other.buffer@ && self == (CursorChange { buffer: self.buffer, ..other })
    }

    /// The change of the cursor that libevdi describes, with its pixel format looked up already.
    pub fn with_format(
        sys: EvdiCursorSet,
        pixel_format: Result<DrmFormat, UnrecognizedFourcc>,
    ) -> (change: Self)
        ensures
            change == cursor_change_of(sys, pixel_format),
    {
        Self {
            enabled: sys.enabled != 0,
            hotspot_x: sys.hot_x,
            hotspot_y: sys.hot_y,
            width: sys.width,
            height: sys.height,
            stride: sys.stride,
            pixel_format,
            buffer: sys.buffer,
        }
    }

    /// The pixels of the cursor.
    pub fn buffer(&self) -> (buffer: &[u32])
        ensures
            buffer@ == self.buffer@,
    {
        self.buffer.as_slice()
    }
}

/// A cursor position as libevdi hands it out.
#[derive(Debug, Clone, Copy, PartialEq, Eq, Structural)]
pub struct EvdiCursorMove {
    pub x: i32,
    pub y: i32,
}

/// A cursor position change. Raised only when cursor is positioned on virtual screen.
#[derive(Debug, Clone, Copy, PartialEq, Eq, Structural)]
pub struct CursorMove {
    pub x: i32,
    pub y: i32,
}

impl vstd::std_specs::convert::FromSpecImpl<EvdiCursorMove> for CursorMove {
    open spec fn obeys_from_spec() -> bool {
        true
    }

    open spec fn from_spec(sys: EvdiCursorMove) -> Self {
        CursorMove { x: sys.x, y: sys.y }
    }
}

impl From<EvdiCursorMove> for CursorMove {
    fn from(sys: EvdiCursorMove) -> (cursor_move: Self)
        ensures
            cursor_move.x == sys.x,
            cursor_move.y == sys.y,
    {
        Self { x: sys.x, y: sys.y }
    }
}

/// DDC/CI data as libevdi hands it out, with a copy of the bytes.
#[derive(Debug)]
pub struct EvdiDdcciData {
    /// Always 0x37.
    pub address: u16,
    pub flags: u16,
    pub buffer: Vec<u8>,
}

/// An i2c request has been made to the DDC/CI address (0x37).
///
/// The kernel module will wait for a maximum of 50ms, the default DDC request timeout, for a
/// response to this request.
///
/// You may find reading about [general protocol i2c][i2c] that DDC/CI data is transmitted over
/// useful.
///
/// [i2c]: <http://ww1.microchip.com/downloads/en/AppNotes/I2C-Master-Mode-30003191A.pdf>
#[derive(Debug)]
pub struct DdcCiData {
    pub flags: u16,
    pub buffer: Vec<u8>,
}

pub const FLAG_READ: u16 = 1;

pub const FLAG_WRITE: u16 = 0;

impl vstd::std_specs::convert::FromSpecImpl<EvdiDdcciData> for DdcCiData {
    open spec fn obeys_from_spec() -> bool {
        true
    }

    open spec fn from_spec(sys: EvdiDdcciData) -> Self {
        DdcCiData { flags: sys.flags, buffer: sys.buffer }
    }
}

impl From<EvdiDdcciData> for DdcCiData {
    fn from(sys: EvdiDdcciData) -> (data: Self)
        ensures
            data.flags == sys.flags,
            data.buffer@ == sys.buffer@,
    {
        Self { flags: sys.flags, buffer: sys.buffer }
    }
}

impl Clone for DdcCiData {
    fn clone(&self) -> (data: Self)
        ensures
            data.same(*self),
    {
        Self { flags: self.flags, buffer: vstd::slice::slice_to_vec(self.buffer()) }
    }
}

impl DdcCiData {
    /// Two requests that hold the same.
    pub open spec fn same(self, other: Self) -> bool {
        self.flags == other.flags && self.buffer@ == other.buffer@
    }

    /// The lowest of the flags is set.
    pub open spec fn is_read_request(&self) -> bool {
        self.flags % 2 == 1
    }

    /// No flag is set.
    pub open spec fn is_write_request(&self) -> bool {
        self.flags == 0
    }

    /// Indicates driver intends to read data from the virtual display
    pub fn flag_read_request(&self) -> (read: bool)
        ensures
            read == self.is_read_request(),
    {
        let flags: u16 = self.flags;
        assert(flags & 1 == flags % 2) by (bit_vector);
        flags & FLAG_READ != 0
    }

    /// Indicates driver intends to write data to the virtual display
    pub fn flag_write_request(&self) -> (write: bool)
        ensures
            write == self.is_write_request(),
    {
        self.flags == FLAG_WRITE
    }

    /// Truncated to 64 bytes by the kernel module
    pub fn buffer(&self) -> (buffer: &[u8])
        ensures
            buffer@ == self.buffer@,
    {
        self.buffer.as_slice()
    }
}

/// The current mode is the one that came last, whatever came between and after it.
pub proof fn current_mode_is_latest(
    current: Option<Mode>,
    before: Seq<Event>,
    mode: Mode,
    after: Seq<Event>,
)
    requires
        forall|i: int| 0 <= i < after.len() ==> !(#[trigger] after[i] is ModeChanged),
    ensures
        mode_after_all(current, before.push(Event::ModeChanged(mode)) + after) == Some(mode),
    decreases after.len(),
{
    let events = before.push(Event::ModeChanged(mode)) + after;
    if after.len() == 0 {
        assert(events.drop_last() =~= before);
        assert(events.last() == Event::ModeChanged(mode));
    } else {
        current_mode_is_latest(current, before, mode, after.drop_last());
        assert(events.drop_last() =~= before.push(Event::ModeChanged(mode)) + after.drop_last());
        assert(events.last() == after.last());
        assert(!(after[after.len() - 1] is ModeChanged));
    }
}

/// Without an event that changes the mode, the mode stays what it was: none, before the first.
pub proof fn mode_stays(current: Option<Mode>, events: Seq<Event>)
    requires
        forall|i: int| 0 <= i < events.len() ==> !(#[trigger] events[i] is ModeChanged),
    ensures
        mode_after_all(current, events) == current,
    decreases events.len(),
{
    if events.len() > 0 {
        mode_stays(current, events.drop_last());
        assert(!(events[events.len() - 1] is ModeChanged));
    }
}

/// Once there is a mode, there is one for good.
pub proof fn mode_is_never_lost(current: Option<Mode>, events: Seq<Event>)
    requires
        current is Some,
    ensures
        mode_after_all(current, events) is Some,
    decreases events.len(),
{
    if events.len() > 0 {
        mode_is_never_lost(current, events.drop_last());
    }
}

/// Once a mode was published there is one, so someone who is woken by that gets the mode.
pub proof fn published_mode_is_current(current: Option<Mode>, event: Event)
    ensures
        monitor_action(Some(event)) matches MonitorAction::PublishMode(mode) ==> mode_after(
            current,
            event,
        ) == Some(mode) && mode_wait(mode_after(current, event), ModeWake::Changed) == Some(
            Ok::<Mode, AwaitEventError>(mode),
        ),
{
}

/// The last of some actions adds its own broadcast, if it is one.
proof fn broadcast_updates_of_last(actions: Seq<MonitorAction>)
    requires
        actions.len() > 0,
    ensures
        broadcast_updates(actions) == (match actions.last() {
            MonitorAction::BroadcastUpdate(id) => broadcast_updates(actions.drop_last()).push(id),
            _ => broadcast_updates(actions.drop_last()),
        }),
{
    reveal(Seq::filter);
    assert(broadcast_updates(actions) =~= (match actions.last() {
        MonitorAction::BroadcastUpdate(id) => broadcast_updates(actions.drop_last()).push(id),
        _ => broadcast_updates(actions.drop_last()),
    }));
}

/// The last of some events adds its own update, if it says that one is ready.
proof fn ready_updates_of_last(events: Seq<Event>)
    requires
        events.len() > 0,
    ensures
        ready_updates(events) == (match events.last() {
            Event::UpdateReady(id) => ready_updates(events.drop_last()).push(id),
            _ => ready_updates(events.drop_last()),
        }),
{
    reveal(Seq::filter);
    assert(ready_updates(events) =~= (match events.last() {
        Event::UpdateReady(id) => ready_updates(events.drop_last()).push(id),
        _ => ready_updates(events.drop_last()),
    }));
}

/// Each update that an event says is ready is broadcast once, in the order of the events, and
/// nothing else is broadcast.
pub proof fn ready_updates_are_broadcast(events: Seq<Event>)
    ensures
        broadcast_updates(monitor_actions(events)) == ready_updates(events),
    decreases events.len(),
{
    let actions = monitor_actions(events);
    if events.len() == 0 {
        reveal(Seq::filter);
        assert(broadcast_updates(actions) =~= ready_updates(events));
    } else {
        ready_updates_are_broadcast(events.drop_last());
        assert(actions.drop_last() =~= monitor_actions(events.drop_last()));
        assert(actions.last() == monitor_action(Some(events.last())));
        broadcast_updates_of_last(actions);
        ready_updates_of_last(events);
    }
}

/// Every event that changes the mode is published, and with it its own mode, whatever mode that
/// is. Nothing else is published.
pub proof fn every_mode_is_published(event: Option<Event>, mode: Mode)
    ensures
        monitor_action(event) == MonitorAction::PublishMode(mode) <==> event == Some(
            Event::ModeChanged(mode),
        ),
{
}

/// Every event that says that an update is ready is broadcast, with its own buffer, whatever
/// buffer that is. Nothing else is broadcast.
pub proof fn every_update_is_broadcast(event: Option<Event>, id: BufferId)
    ensures
        monitor_action(event) == MonitorAction::BroadcastUpdate(id) <==> event == Some(
            Event::UpdateReady(id),
        ),
{
}

/// The monitor goes on exactly as long as there are events, and ignores only those that neither
/// change the mode nor say that an update is ready.
pub proof fn monitor_goes_on(event: Option<Event>)
    ensures
        monitor_action(event) is Stop <==> event is None,
        monitor_action(event) is Ignore <==> (event matches Some(received) && !(
        received is ModeChanged) && !(received is UpdateReady)),
{
}

/// Someone who waits for a mode, when none was known, is woken by the first event that brings
/// one, and gets that very mode.
pub proof fn awaited_mode_arrives(current: Option<Mode>, mode: Mode)
    ensures
        monitor_action(Some(Event::ModeChanged(mode))) == MonitorAction::PublishMode(mode),
        mode_wait(mode_after(current, Event::ModeChanged(mode)), ModeWake::Changed) == Some(
            Ok::<Mode, AwaitEventError>(mode),
        ),
        mode_wait(None, ModeWake::Start) is None,
{
}

/// A wait for a mode ends with a timeout exactly if the time is over, with a closed channel exactly
/// if no mode will be published any more, and with a mode otherwise, which is the current one. It
/// goes on only at its start, as long as no mode is known.
pub proof fn mode_wait_ends_for_a_reason(current: Option<Mode>, wake: ModeWake, mode: Mode)
    requires
        wake is Changed ==> current is Some,
    ensures
        mode_wait(current, wake) == Some(Err::<Mode, AwaitEventError>(AwaitEventError::Timeout))
            <==> wake is TimedOut,
        mode_wait(current, wake) == Some(
            Err::<Mode, AwaitEventError>(AwaitEventError::ChannelClosed),
        ) <==> wake is Closed,
        mode_wait(current, wake) == Some(Ok::<Mode, AwaitEventError>(mode)) <==> current == Some(
            mode,
        ) && (wake is Start || wake is Changed),
        mode_wait(current, wake) is None <==> wake is Start && current is None,
{
}

/// An update of a buffer, whichever it is, ends every wait for that buffer with success, and no
/// wait for another one.
pub proof fn update_ends_its_wait(id: BufferId, updated: BufferId)
    ensures
        update_wait(id, UpdateWake::Received(UpdateRecv::Update(id))) == Some(
            Ok::<(), AwaitEventError>(()),
        ),
        updated.0 != id.0 ==> update_wait(
            id,
            UpdateWake::Received(UpdateRecv::Update(updated)),
        ) is None,
{
}

/// A wait in which nothing came but updates of other buffers and gaps ends with success as soon as
/// an update of its own buffer comes, whatever comes after that.
pub proof fn wait_succeeds_when_updated(
    id: BufferId,
    before: Seq<UpdateWake>,
    after: Seq<UpdateWake>,
)
    requires
        forall|i: int|
            0 <= i < before.len() ==> match #[trigger] before[i] {
                UpdateWake::TimedOut => false,
                UpdateWake::Received(UpdateRecv::Update(other)) => other.0 != id.0,
                UpdateWake::Received(UpdateRecv::Closed) => false,
                UpdateWake::Received(UpdateRecv::Lagged(_)) => true,
            },
    ensures
        update_wait_all(
            id,
            before + (seq![UpdateWake::Received(UpdateRecv::Update(id))] + after),
        ) == Some(Ok::<(), AwaitEventError>(())),
{
    let rest = seq![UpdateWake::Received(UpdateRecv::Update(id))] + after;
    assert(rest.first() == UpdateWake::Received(UpdateRecv::Update(id)));
    assert forall|i: int| 0 <= i < before.len() implies update_wait(
        id,
        #[trigger] before[i],
    ) is None by {
        match before[i] {
            UpdateWake::Received(UpdateRecv::Update(other)) => {
                update_ends_its_wait(id, other);
            },
            _ => {},
        }
    }
    other_updates_do_not_end_wait(id, before, rest);
}

/// A wait for an update fails with a timeout exactly if the time is over, and with a closed
/// channel exactly if no update will come any more. A gap in the updates does not end it.
pub proof fn update_wait_fails_for_a_reason(id: BufferId, wake: UpdateWake, skipped: u64)
    ensures
        update_wait(id, wake) == Some(Err::<(), AwaitEventError>(AwaitEventError::Timeout)) <==> wake
            is TimedOut,
        update_wait(id, wake) == Some(Err::<(), AwaitEventError>(AwaitEventError::ChannelClosed))
            <==> wake == UpdateWake::Received(UpdateRecv::Closed),
        update_wait(id, UpdateWake::Received(UpdateRecv::Lagged(skipped))) is None,
{
}

/// An update that the kernel says is ready reaches the wait for it: the event of a buffer's number
/// is broadcast for the buffer of that number, and ends the wait for it with success.
pub proof fn ready_update_reaches_its_wait(number: i32, id: BufferId)
    requires
        id.0 == number,
    ensures
        monitor_action(Some(event_of(EvdiEvent::UpdateReady(number))))
            == MonitorAction::BroadcastUpdate(id),
        update_wait(id, UpdateWake::Received(UpdateRecv::Update(id))) == Some(
            Ok::<(), AwaitEventError>(()),
        ),
{
}

/// An event holds what the handler received, and is an event of the same kind.
pub proof fn events_hold_what_was_received(sys: EvdiEvent)
    ensures
        match (sys, event_of(sys)) {
            (EvdiEvent::Dpms(value), Event::DpmsModeChanged(mode)) => is_dpms_mode(value)
                ==> dpms_value(mode) == value,
            (EvdiEvent::ModeChanged(mode), Event::ModeChanged(changed)) => {
                &&& mode.width >= 0 ==> changed.width == mode.width
                &&& mode.height >= 0 ==> changed.height == mode.height
                &&& mode.refresh_rate >= 0 ==> changed.refresh_rate == mode.refresh_rate
                &&& mode.bits_per_pixel >= 0 ==> changed.bits_per_pixel == mode.bits_per_pixel
                &&& match changed.pixel_format {
                    Ok(format) => format.code == mode.pixel_format,
                    Err(unrecognized) => unrecognized.0 == mode.pixel_format,
                }
            },
            (EvdiEvent::UpdateReady(buffer), Event::UpdateReady(id)) => id.0 == buffer,
            (EvdiEvent::CrtcState(value), Event::CrtcStateChanged(state)) => state.0 == value,
            (EvdiEvent::CursorSet(set), Event::CursorChange(change)) => {
                &&& change.enabled <==> set.enabled > 0
                &&& change.hotspot_x == set.hot_x && change.hotspot_y == set.hot_y
                &&& change.width == set.width && change.height == set.height
                &&& change.stride == set.stride
                &&& change.buffer@ == set.buffer@
                &&& match change.pixel_format {
                    Ok(format) => format.code == set.pixel_format,
                    Err(unrecognized) => unrecognized.0 == set.pixel_format,
                }
            },
            (EvdiEvent::CursorMove(moved), Event::CursorMove(cursor_move)) => cursor_move.x
                == moved.x && cursor_move.y == moved.y,
            (EvdiEvent::DdcciData(data), Event::I2CRequest(request)) => request.flags == data.flags
                && request.buffer@ == data.buffer@,
            _ => false,
        },
{
}

/// A cursor is shown exactly if its flag is not zero, and keeps all that libevdi says of it,
/// whatever its pixel format is found to be.
pub proof fn cursor_change_keeps_all(
    sys: EvdiCursorSet,
    pixel_format: Result<DrmFormat, UnrecognizedFourcc>,
)
    ensures
        ({
            let change = cursor_change_of(sys, pixel_format);
            &&& change.enabled <==> sys.enabled > 0
            &&& change.hotspot_x == sys.hot_x && change.hotspot_y == sys.hot_y
            &&& change.width == sys.width && change.height == sys.height
            &&& change.stride == sys.stride
            &&& change.pixel_format == pixel_format
            &&& change.buffer@ == sys.buffer@
        }),
{
}

/// The values of the DPMS modes count up from 0, in the order on, standby, suspend and off.
pub proof fn dpms_values_count_up(value: i32)
    requires
        is_dpms_mode(value),
    ensures
        0 <= value < 4,
        dpms_mode_of(value) is On <==> value < 1,
        dpms_mode_of(value) is Standby <==> 1 <= value < 2,
        dpms_mode_of(value) is Suspend <==> 2 <= value < 3,
        dpms_mode_of(value) is Off <==> 3 <= value,
{
}

/// Every value of a DPMS mode is taken.
pub proof fn dpms_values_are_taken(value: i32)
    requires
        0 <= value < 4,
    ensures
        is_dpms_mode(value),
{
}

/// A copy of an event is an event of the same kind that holds the same, and the monitor does the
/// same about it.
pub proof fn same_events_hold_the_same(a: Event, b: Event)
    requires
        same_event(a, b),
    ensures
        match (a, b) {
            (Event::DpmsModeChanged(a), Event::DpmsModeChanged(b)) => a == b,
            (Event::ModeChanged(a), Event::ModeChanged(b)) => a == b,
            (Event::UpdateReady(a), Event::UpdateReady(b)) => a == b,
            (Event::CrtcStateChanged(a), Event::CrtcStateChanged(b)) => a == b,
            (Event::CursorChange(a), Event::CursorChange(b)) => {
                &&& a.enabled == b.enabled
                &&& a.hotspot_x == b.hotspot_x && a.hotspot_y == b.hotspot_y
                &&& a.width == b.width && a.height == b.height
                &&& a.stride == b.stride
                &&& a.pixel_format == b.pixel_format
                &&& a.buffer@ == b.buffer@
            },
            (Event::CursorMove(a), Event::CursorMove(b)) => a == b,
            (Event::I2CRequest(a), Event::I2CRequest(b)) => a.flags == b.flags && a.buffer@
                == b.buffer@,
            _ => false,
        },
        monitor_action(Some(a)) == monitor_action(Some(b)),
{
}

/// A request reads exactly if the lowest bit of its flags is set, whatever the others are, and
/// writes exactly if none is.
pub proof fn requests_go_by_their_flags(data: DdcCiData)
    ensures
        data.is_read_request() <==> data.flags & 1 != 0,
        data.is_write_request() <==> data.flags | 0 == 0,
{
    let flags = data.flags;
    assert(flags & 1 == flags % 2 && flags | 0 == flags) by (bit_vector);
}

/// Someone who awaits a mode after one was received does not wait.
pub proof fn received_mode_is_not_awaited(current: Option<Mode>, mode: Mode)
    ensures
        mode_wait(mode_after(current, Event::ModeChanged(mode)), ModeWake::Start) == Some(
            Ok::<Mode, AwaitEventError>(mode),
        ),
{
}

/// A wait for an update of a buffer goes on while nothing comes but updates of other buffers and
/// gaps.
pub proof fn other_updates_do_not_end_wait(
    id: BufferId,
    wakes: Seq<UpdateWake>,
    more: Seq<UpdateWake>,
)
    requires
        forall|i: int| 0 <= i < wakes.len() ==> update_wait(id, #[trigger] wakes[i]) is None,
    ensures
        update_wait_all(id, wakes + more) == update_wait_all(id, more),
    decreases wakes.len(),
{
    if wakes.len() == 0 {
        assert(wakes + more =~= more);
    } else {
        assert(update_wait(id, wakes[0]) is None);
        assert((wakes + more).drop_first() =~= wakes.drop_first() + more);
        assert forall|i: int| 0 <= i < wakes.drop_first().len() implies update_wait(
            id,
            #[trigger] wakes.drop_first()[i],
        ) is None by {
            assert(wakes.drop_first()[i] == wakes[i + 1]);
        }
        other_updates_do_not_end_wait(id, wakes.drop_first(), more);
    }
}

/// A wait for an update of a buffer succeeds only if an update of that very buffer came, and no
/// timeout and no end of the updates came before it.
pub proof fn successful_wait_received_update(id: BufferId, wakes: Seq<UpdateWake>) -> (at: int)
    requires
        update_wait_all(id, wakes) == Some(Ok::<(), AwaitEventError>(())),
    ensures
        0 <= at < wakes.len(),
        wakes[at] == UpdateWake::Received(UpdateRecv::Update(id)),
        forall|i: int| 0 <= i < at ==> update_wait(id, #[trigger] wakes[i]) is None,
    decreases wakes.len(),
{
    if update_wait(id, wakes[0]) is Some {
        0
    } else {
        let rest = successful_wait_received_update(id, wakes.drop_first());
        assert forall|i: int| 0 <= i < rest + 1 implies update_wait(
            id,
            #[trigger] wakes[i],
        ) is None by {
            if i > 0 {
                assert(wakes.drop_first()[i - 1] == wakes[i]);
            }
        }
        rest + 1
    }
}

/// A DPMS mode and the value that stands for it give each other back.
pub proof fn dpms_mode_round_trip(mode: DpmsMode, sys: i32)
    ensures
        is_dpms_mode(dpms_value(mode)) && dpms_mode_of(dpms_value(mode)) == mode,
        is_dpms_mode(sys) ==> dpms_value(dpms_mode_of(sys)) == sys,
{
}

/// A request does not both read and write.
pub proof fn requests_either_read_or_write(data: DdcCiData)
    ensures
        !(data.is_read_request() && data.is_write_request()),
{
}

} // verus!
