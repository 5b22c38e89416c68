//! Performs most operations
use std::collections::HashMap;

use vstd::prelude::*;

use crate::buffer::{Buffer, BufferId, BufferView, Rect, MAX_RECTS_BUFFER_LEN};
use crate::device_config::{DeviceConfig, DeviceConfigView};
use crate::device_node::DeviceNode;
use crate::events::{AwaitEventError, HandleEvents};
use crate::mode::Mode;

verus! {

broadcast use vstd::std_specs::hash::group_hash_axioms;

/// How many ids there are for buffers.
pub const ID_COUNT: u64 = 0x1_0000_0000;

/// Where every id is taken, there are as many buffers as there are ids.
proof fn all_ids_taken(buffers: Map<i32, BufferView>)
    requires
        buffers.dom().finite(),
        forall|i: i32| #[trigger] buffers.contains_key(i),
    ensures
        buffers.len() == ID_COUNT,
{
    let number = |i: i32| i as int;
    let numbers = vstd::set_lib::set_int_range(i32::MIN as int, i32::MAX + 1);
    assert forall|n: int| numbers.contains(n) implies #[trigger] buffers.dom().map(number).contains(
        n,
    ) by {
        assert(buffers.contains_key(n as i32));
        assert(number(n as i32) == n);
    }
    assert(buffers.dom().map(number) =~= numbers);
    vstd::set_lib::lemma_map_size(buffers.dom(), numbers, number);
    vstd::set_lib::lemma_int_range(i32::MIN as int, i32::MAX + 1);
}

/// Represents a handle that is open but not connected.
#[derive(Debug)]
pub struct UnconnectedHandle {
    pub device: DeviceNode,
    /// Where libevdi keeps the device that the handle stands for.
    pub sys: usize,
}

/// What `evdi_connect` is to be called with.
#[derive(Debug)]
pub struct ConnectRequest {
    pub sys: usize,
    pub edid: Vec<u8>,
    pub edid_length: u32,
    pub sku_area_limit: u32,
}

impl UnconnectedHandle {
    /// Connect to a handle.
    ///
    /// A handle is connected at most once: connecting takes it. Before anything is done with the
    /// connected handle, `evdi_connect` is to be called.
    pub fn connect(self, config: &DeviceConfig) -> (connected: (Handle, ConnectRequest))
        requires
            config@.area() <= u32::MAX,
        ensures
            connected.0.wf(),
            just_connected(connected.0, self, config@),
            connected.0.device == self.device,
            connected.0.sys == self.sys,
            connected.0.device_config@ == config@,
            connected.0.buffers@ == Map::<i32, Buffer>::empty(),
            connected.0.events.current_mode is None,
            connected.1.sys == self.sys,
            connected.1.edid@ == config@.edid,
            connected.1.edid_length == config@.edid.len() as u32,
            config@.edid.len() <= u32::MAX ==> connected.1.edid_length == config@.edid.len(),
            connected.1.sku_area_limit == config@.area(),
    {
        let edid: Vec<u8> = vstd::slice::slice_to_vec(config.edid());
        let edid_length: u32 = edid.len() as u32;
        let request = ConnectRequest {
            sys: self.sys,
            edid,
            edid_length,
            sku_area_limit: config.sku_area_limit(),
        };
        (Handle::new(self.device, self.sys, config), request)
    }

    pub fn new(device: DeviceNode, sys: usize) -> (handle: Self)
        ensures
            handle == (UnconnectedHandle { device, sys }),
    {
        Self { device, sys }
    }
}

/// Represents an evdi handle that is connected and ready.
pub struct Handle {
    pub device: DeviceNode,
    /// Where libevdi keeps the device that the handle stands for.
    pub sys: usize,
    pub device_config: DeviceConfig,
    /// The buffers that are registered, by their ids.
    pub buffers: HashMap<i32, Buffer>,
    /// What is known of the events received. Initially no mode is.
    pub events: HandleEvents,
}

/// A connected handle of which nothing else has happened yet: it has no buffers and has received
/// no events.
pub open spec fn just_connected(
    handle: Handle,
    unconnected: UnconnectedHandle,
    config: DeviceConfigView,
) -> bool {
    &&& handle.device == unconnected.device
    &&& handle.sys == unconnected.sys
    &&& handle.device_config@ == config
    &&& handle@ == Map::<i32, BufferView>::empty()
    &&& handle.events == (HandleEvents { current_mode: None })
}

/// The handle that is left after a connected one was disconnected.
pub open spec fn disconnected(handle: Handle) -> UnconnectedHandle {
    UnconnectedHandle { device: handle.device, sys: handle.sys }
}

/// Disconnecting a handle gives back the handle that was connected, whatever has become of its
/// buffers and its events in between, so that it can be connected again.
pub proof fn disconnect_undoes_connect(
    unconnected: UnconnectedHandle,
    config: DeviceConfigView,
    handle: Handle,
    later: Handle,
)
    requires
        just_connected(handle, unconnected, config),
        later.device == handle.device,
        later.sys == handle.sys,
    ensures
        disconnected(later) == unconnected,
{
}

/// How far an update of a buffer has come, and what is to be done next.
#[derive(Debug, Clone, Copy, PartialEq, Eq)]
pub enum UpdateStep {
    /// Nothing has been done yet.
    Begin(BufferId),
    /// Call `evdi_request_update`.
    CallRequestUpdate(BufferId),
    /// The kernel chose to update async: await the update of the buffer.
    AwaitUpdate(BufferId),
    /// Call `evdi_grab_pixels`.
    GrabPixels(BufferId),
    Done(Result<(), RequestUpdateError>),
}

/// How a step of an update ended.
#[derive(Debug)]
pub enum UpdateAnswer {
    /// The update shall begin.
    Go,
    /// What `evdi_request_update` returned: the pixels are ready to be grabbed, or not yet.
    Ready(bool),
    Awaited(Result<(), AwaitEventError>),
    /// All the bytes of the buffer, and the areas that changed.
    Grabbed { pixels: Vec<u8>, rects: Vec<Rect> },
}

#[derive(Debug, Clone, Copy, PartialEq, Eq, Structural)]
pub enum RequestUpdateError {
    AwaitUpdate(AwaitEventError),
    UnregisteredBuffer,
}

/// The step that follows, where `buffers` are registered. An answer to another step changes
/// nothing.
pub open spec fn next_step(
    buffers: Map<i32, BufferView>,
    step: UpdateStep,
    answer: UpdateAnswer,
) -> UpdateStep {
    match (step, answer) {
        (UpdateStep::Begin(id), UpdateAnswer::Go) => if buffers.contains_key(id.0) {
            UpdateStep::CallRequestUpdate(id)
        } else {
            UpdateStep::Done(Err(RequestUpdateError::UnregisteredBuffer))
        },
        (UpdateStep::CallRequestUpdate(id), UpdateAnswer::Ready(ready)) => if ready {
            UpdateStep::GrabPixels(id)
        } else {
            UpdateStep::AwaitUpdate(id)
        },
        (UpdateStep::AwaitUpdate(id), UpdateAnswer::Awaited(Ok(_))) => UpdateStep::GrabPixels(id),
        (UpdateStep::AwaitUpdate(_), UpdateAnswer::Awaited(Err(error))) => UpdateStep::Done(
            Err(RequestUpdateError::AwaitUpdate(error)),
        ),
        (UpdateStep::GrabPixels(id), UpdateAnswer::Grabbed { .. }) => if buffers.contains_key(
            id.0,
        ) {
            UpdateStep::Done(Ok(()))
        } else {
            UpdateStep::Done(Err(RequestUpdateError::UnregisteredBuffer))
        },
        _ => step,
    }
}

/// The buffers after a step of an update.
pub open spec fn next_buffers(
    buffers: Map<i32, BufferView>,
    step: UpdateStep,
    answer: UpdateAnswer,
) -> Map<i32, BufferView> {
    match (step, answer) {
        (UpdateStep::GrabPixels(id), UpdateAnswer::Grabbed { pixels, rects }) =>
            if buffers.contains_key(id.0) {
                buffers.insert(id.0, buffers[id.0].updated(pixels@, rects@))
            } else {
                buffers
            },
        _ => buffers,
    }
}

/// What was grabbed fits the buffer that it is for.
pub open spec fn grab_fits(
    buffers: Map<i32, BufferView>,
    step: UpdateStep,
    answer: UpdateAnswer,
) -> bool {
    match (step, answer) {
        (UpdateStep::GrabPixels(id), UpdateAnswer::Grabbed { pixels, rects }) =>
            buffers.contains_key(id.0) ==> {
                &&& pixels@.len() == buffers[id.0].bytes.len()
                &&& rects@.len() <= MAX_RECTS_BUFFER_LEN
                &&& crate::buffer::can_be_updated(buffers[id.0].version)
            },
        _ => true,
    }
}

impl View for Handle {
    type V = Map<i32, BufferView>;

    /// What the registered buffers hold.
    open spec fn view(&self) -> Map<i32, BufferView> {
        self.buffers@.map_values(|buffer: Buffer| buffer@)
    }
}

impl Handle {
    /// Each buffer is well formed and registered under its own id.
    pub open spec fn wf(&self) -> bool {
        forall|id: i32| #[trigger]
            self.buffers@.contains_key(id) ==> self.buffers@[id].wf() && self.buffers@[id].id
                == BufferId(id)
    }

    /// All but the buffers is the same.
    pub open spec fn same_but_buffers(&self, other: &Handle) -> bool {
        self.device == other.device && self.sys == other.sys && self.device_config
            == other.device_config && self.events == other.events
    }

    /// Allocate and register a buffer to store the screen of a device with a specific mode.
    ///
    /// You are responsible for re-creating buffers if the mode changes. The buffer is to be
    /// registered with `evdi_register_buffer` too, by its [`Buffer::sys`]. It takes no other
    /// buffer's place, unless every id is taken.
    pub fn new_buffer(&mut self, mode: &Mode) -> (id: BufferId)
        requires
            old(self).wf(),
            crate::buffer::buffer_fits(*mode),
        ensures
            final(self).wf(),
            final(self).same_but_buffers(old(self)),
            final(self)@ == old(self)@.insert(id.0, crate::buffer::fresh_buffer(*mode, id)),
            old(self)@.len() < ID_COUNT ==> !old(self)@.contains_key(id.0) && final(self)@.len()
                == old(self)@.len() + 1,
            final(self)@.contains_key(id.0),
            forall|other: i32| #[trigger]
                old(self)@.contains_key(other) && other != id.0 ==> final(self)@.contains_key(other)
                    && final(self)@[other] == old(self)@[other],
    {
        let mut buffer = Buffer::new(mode);
        buffer.id = self.free_id(buffer.id);
        proof {
            assert(buffer@ =~= crate::buffer::fresh_buffer(*mode, buffer.id));
            assert(self@.dom() =~= self.buffers@.dom());
        }
        self.add_buffer(buffer)
    }

    /// An id that no buffer of the handle has: `drawn`, or where that is taken, the next free one.
    ///
    /// Only where every id is taken, the id is taken too.
    pub fn free_id(&self, drawn: BufferId) -> (id: BufferId)
        ensures
            !self@.contains_key(drawn.0) ==> id == drawn,
            self@.len() < ID_COUNT ==> !self@.contains_key(id.0),
    {
        let start: i32 = drawn.sys();
        let mut id: i32 = start;
        while id < i32::MAX && self.buffers.contains_key(&id)
            invariant
                start <= id,
                forall|i: i32| start <= i < id ==> #[trigger] self@.contains_key(i),
            decreases i32::MAX - id,
        {
            assert(self@.contains_key(id));
            id += 1;
        }
        if self.buffers.contains_key(&id) {
            assert(self@.contains_key(id));
            id = i32::MIN;
            while id < start && self.buffers.contains_key(&id)
                invariant
                    id <= start,
                    forall|i: i32| start <= i ==> #[trigger] self@.contains_key(i),
                    forall|i: i32| i < id ==> #[trigger] self@.contains_key(i),
                decreases start - id,
            {
                assert(self@.contains_key(id));
                id += 1;
            }
            proof {
                if id == start {
                    assert(self@.dom() =~= self.buffers@.dom());
                    all_ids_taken(self@);
                }
            }
        }
        BufferId::new(id)
    }

    /// Registers a buffer. One that has the same id gives way.
    pub fn add_buffer(&mut self, buffer: Buffer) -> (id: BufferId)
        requires
            old(self).wf(),
            buffer.wf(),
        ensures
            final(self).wf(),
            final(self).same_but_buffers(old(self)),
            id == buffer.id,
            final(self)@ == old(self)@.insert(buffer.id.0, buffer@),
    {
        let id = buffer.id;
        self.buffers.insert(id.sys(), buffer);
        proof {
            assert(self@ =~= old(self)@.insert(buffer.id.0, buffer@));
        }
        id
    }

    /// De-allocate and unregister a buffer.
    ///
    /// If it was registered, it is to be unregistered with `evdi_unregister_buffer` too.
    pub fn unregister_buffer(&mut self, id: BufferId) -> (was_registered: bool)
        requires
            old(self).wf(),
        ensures
            final(self).wf(),
            final(self).same_but_buffers(old(self)),
            was_registered == old(self)@.contains_key(id.0),
            final(self)@ == old(self)@.remove(id.0),
    {
        let removed = self.buffers.remove(&id.sys());
        proof {
            assert(self@ =~= old(self)@.remove(id.0));
        }
        removed.is_some()
    }

    /// Get buffer data if the [`BufferId`] provided is associated with this handle.
    pub fn get_buffer(&self, id: BufferId) -> (buffer: Option<&Buffer>)
        requires
            self.wf(),
        ensures
            match buffer {
                Some(buffer) => self@.contains_key(id.0) && buffer@ == self@[id.0] && buffer.wf(),
                None => !self@.contains_key(id.0),
            },
    {
        self.buffers.get(&id.sys())
    }

    /// Ask the kernel module to update a buffer with the current display pixels.
    ///
    /// * `step` - how far the update has come. It starts at [`UpdateStep::Begin`].
    /// * `answer` - how that step ended.
    ///
    /// The update is complete when the step that is returned is [`UpdateStep::Done`].
    pub fn request_update(&mut self, step: UpdateStep, answer: UpdateAnswer) -> (next: UpdateStep)
        requires
            old(self).wf(),
            grab_fits(old(self)@, step, answer),
        ensures
            final(self).wf(),
            final(self).same_but_buffers(old(self)),
            next == next_step(old(self)@, step, answer),
            final(self)@ == next_buffers(old(self)@, step, answer),
    {
        match (step, answer) {
            (UpdateStep::Begin(id), UpdateAnswer::Go) => {
                if self.buffers.contains_key(&id.sys()) {
                    UpdateStep::CallRequestUpdate(id)
                } else {
                    UpdateStep::Done(Err(RequestUpdateError::UnregisteredBuffer))
                }
            },
            (UpdateStep::CallRequestUpdate(id), UpdateAnswer::Ready(ready)) => {
                if ready {
                    UpdateStep::GrabPixels(id)
                } else {
                    UpdateStep::AwaitUpdate(id)
                }
            },
            (UpdateStep::AwaitUpdate(id), UpdateAnswer::Awaited(awaited)) => {
                match awaited {
                    Ok(()) => UpdateStep::GrabPixels(id),
                    Err(error) => UpdateStep::Done(Err(RequestUpdateError::AwaitUpdate(error))),
                }
            },
            (UpdateStep::GrabPixels(id), UpdateAnswer::Grabbed { pixels, rects }) => {
                match self.buffers.remove(&id.sys()) {
                    Some(mut buffer) => {
                        buffer.update(pixels, rects.as_slice());
                        self.buffers.insert(id.sys(), buffer);
                        proof {
                            assert(self@ =~= next_buffers(old(self)@, step, answer));
                        }
                        UpdateStep::Done(Ok(()))
                    },
                    None => {
                        proof {
                            assert(self@ =~= old(self)@);
                        }
                        UpdateStep::Done(Err(RequestUpdateError::UnregisteredBuffer))
                    },
                }
            },
            _ => step,
        }
    }

    /// Disconnect the handle. `evdi_disconnect` is to be called with it.
    ///
    /// You only need this if you want to keep the `UnconnectedHandle` around to potentially
    /// connect to later.
    pub fn disconnect(self) -> (handle: UnconnectedHandle)
        ensures
            handle == disconnected(self),
            handle.device == self.device,
            handle.sys == self.sys,
    {
        UnconnectedHandle::new(self.device, self.sys)
    }

    /// Takes a handle that has just been connected
    fn new(device: DeviceNode, sys: usize, device_config: &DeviceConfig) -> (handle: Self)
        ensures
            handle.wf(),
            handle.buffers@ == Map::<i32, Buffer>::empty(),
            just_connected(handle, UnconnectedHandle { device, sys }, device_config@),
    {
        let handle = Self {
            device,
            sys,
            device_config: device_config.clone(),
            buffers: HashMap::new(),
            events: HandleEvents::new(),
        };
        proof {
            assert(handle@ =~= Map::<i32, BufferView>::empty());
        }
        handle
    }
}

impl vstd::std_specs::cmp::PartialEqSpecImpl for Handle {
    open spec fn obeys_eq_spec() -> bool {
        true
    }

    open spec fn eq_spec(&self, other: &Self) -> bool {
        self.sys == other.sys
    }
}

impl PartialEq for Handle {
    fn eq(&self, other: &Self) -> (equal: bool) {
        self.sys == other.sys
    }
}

impl Eq for Handle {

}

impl vstd::std_specs::convert::FromSpecImpl<AwaitEventError> for RequestUpdateError {
    open spec fn obeys_from_spec() -> bool {
        true
    }

    open spec fn from_spec(error: AwaitEventError) -> Self {
        RequestUpdateError::AwaitUpdate(error)
    }
}

impl From<AwaitEventError> for RequestUpdateError {
    fn from(error: AwaitEventError) -> (update_error: Self)
        ensures
            update_error == RequestUpdateError::AwaitUpdate(error),
    {
        RequestUpdateError::AwaitUpdate(error)
    }
}

/// How far an update of the buffer `id` comes, and what it makes of the buffers, where its steps
/// end in these ways.
pub open spec fn run_update(
    buffers: Map<i32, BufferView>,
    id: BufferId,
    answers: Seq<UpdateAnswer>,
) -> (UpdateStep, Map<i32, BufferView>)
    decreases answers.len(),
{
    if answers.len() == 0 {
        (UpdateStep::Begin(id), buffers)
    } else {
        let (step, buffers_then) = run_update(buffers, id, answers.drop_last());
        (
            next_step(buffers_then, step, answers.last()),
            next_buffers(buffers_then, step, answers.last()),
        )
    }
}

/// The buffer that a step is about.
pub open spec fn step_buffer(step: UpdateStep) -> Option<BufferId> {
    match step {
        UpdateStep::Begin(id) => Some(id),
        UpdateStep::CallRequestUpdate(id) => Some(id),
        UpdateStep::AwaitUpdate(id) => Some(id),
        UpdateStep::GrabPixels(id) => Some(id),
        UpdateStep::Done(_) => None,
    }
}

/// An update that has not succeeded, whether it failed or goes on, has changed no buffer. One that
/// has succeeded has written what was grabbed to its own buffer once, which was registered, and to
/// no other.
pub proof fn update_writes_once(
    buffers: Map<i32, BufferView>,
    id: BufferId,
    answers: Seq<UpdateAnswer>,
)
    ensures
        ({
            let (step, after) = run_update(buffers, id, answers);
            &&& step_buffer(step) is Some ==> step_buffer(step) == Some(id)
            &&& step != UpdateStep::Done(Ok(())) ==> after == buffers
            &&& step == UpdateStep::Done(Ok(())) ==> buffers.contains_key(id.0) && exists|i: int|
                0 <= i < answers.len() && answers[i] is Grabbed && after
                    == #[trigger] next_buffers(buffers, UpdateStep::GrabPixels(id), answers[i])
        }),
    decreases answers.len(),
{
    if answers.len() > 0 {
        let before = answers.drop_last();
        update_writes_once(buffers, id, before);
        let (step, buffers_then) = run_update(buffers, id, before);
        let last = answers.len() - 1;
        if step == UpdateStep::Done(Ok(())) {
            let i = choose|i: int|
                0 <= i < before.len() && before[i] is Grabbed && buffers_then
                    == #[trigger] next_buffers(buffers, UpdateStep::GrabPixels(id), before[i]);
            assert(answers[i] == before[i]);
        } else {
            assert(next_buffers(buffers, step, answers[last]) == next_buffers(
                buffers,
                step,
                answers.last(),
            ));
        }
    }
}

/// An update of a registered buffer succeeds if the pixels are ready at once, and also if they are
/// awaited with success, and the buffer then holds the pixels and the areas that were grabbed.
pub proof fn update_succeeds(
    buffers: Map<i32, BufferView>,
    id: BufferId,
    ready: bool,
    grabbed: UpdateAnswer,
)
    requires
        buffers.contains_key(id.0),
        grabbed is Grabbed,
    ensures
        ({
            let requested = seq![UpdateAnswer::Go, UpdateAnswer::Ready(ready)];
            let waited = if ready {
                requested
            } else {
                requested.push(UpdateAnswer::Awaited(Ok(())))
            };
            let (step, after) = run_update(buffers, id, waited.push(grabbed));
            &&& step == UpdateStep::Done(Ok(()))
            &&& after[id.0].bytes == grabbed->pixels@
            &&& after[id.0].rects == grabbed->rects@
        }),
{
    reveal_with_fuel(run_update, 5);
    let go = seq![UpdateAnswer::Go];
    let requested = seq![UpdateAnswer::Go, UpdateAnswer::Ready(ready)];
    let awaited = requested.push(UpdateAnswer::Awaited(Ok(())));
    assert(go.drop_last() =~= Seq::<UpdateAnswer>::empty());
    assert(requested.drop_last() =~= go);
    assert(awaited.drop_last() =~= requested);
    assert(requested.push(grabbed).drop_last() =~= requested);
    assert(awaited.push(grabbed).drop_last() =~= awaited);
}

/// The version of a buffer is greater after each update that succeeded.
pub proof fn update_increases_version(
    buffers: Map<i32, BufferView>,
    id: BufferId,
    answers: Seq<UpdateAnswer>,
)
    requires
        run_update(buffers, id, answers).0 == UpdateStep::Done(Ok(())),
        crate::buffer::can_be_updated(buffers[id.0].version),
    ensures
        ({
            let before = buffers[id.0].version;
            let after = run_update(buffers, id, answers).1[id.0].version;
            after is Some && (before is Some ==> after.unwrap() > before.unwrap())
        }),
{
    update_writes_once(buffers, id, answers);
}

/// Pixels are grabbed only once the kernel said that they are ready, or an update of the buffer
/// was awaited with success.
pub proof fn grab_follows_readiness(
    buffers: Map<i32, BufferView>,
    step: UpdateStep,
    answer: UpdateAnswer,
)
    requires
        step !is GrabPixels,
    ensures
        next_step(buffers, step, answer) is GrabPixels <==> (step is CallRequestUpdate && answer
            == UpdateAnswer::Ready(true)) || (step is AwaitUpdate && (answer matches
            UpdateAnswer::Awaited(awaited) && awaited is Ok)),
{
}

/// A buffer that was just made is there, has never been written to, and can be updated. The other
/// buffers are not touched.
pub proof fn new_buffer_is_registered(
    buffers: Map<i32, BufferView>,
    mode: Mode,
    id: BufferId,
    other: i32,
)
    ensures
        ({
            let after = buffers.insert(id.0, crate::buffer::fresh_buffer(mode, id));
            &&& after.contains_key(id.0)
            &&& after[id.0].version is None
            &&& next_step(after, UpdateStep::Begin(id), UpdateAnswer::Go)
                == UpdateStep::CallRequestUpdate(id)
            &&& other != id.0 ==> after.contains_key(other) == buffers.contains_key(other)
                && after[other] == buffers[other]
        }),
{
}

/// A buffer that was unregistered is not there any more, and a request to update it is answered
/// with [`RequestUpdateError::UnregisteredBuffer`] before the kernel is asked. The other buffers
/// are not touched.
pub proof fn unregistered_buffer_is_gone(
    buffers: Map<i32, BufferView>,
    id: BufferId,
    other: i32,
)
    ensures
        ({
            let after = buffers.remove(id.0);
            &&& !after.contains_key(id.0)
            &&& next_step(after, UpdateStep::Begin(id), UpdateAnswer::Go) == UpdateStep::Done(
                Err(RequestUpdateError::UnregisteredBuffer),
            )
            &&& other != id.0 ==> after.contains_key(other) == buffers.contains_key(other)
                && after[other] == buffers[other]
        }),
{
}

/// Making two buffers, one after the other, gives two: they have different ids, both are
/// registered, neither has been written to, and what was registered before is still there as it
/// was.
pub proof fn two_new_buffers_are_two(
    buffers: Map<i32, BufferView>,
    mode: Mode,
    a: BufferId,
    b: BufferId,
    other: i32,
)
    requires
        buffers.dom().finite(),
        !buffers.contains_key(a.0),
        !buffers.insert(a.0, crate::buffer::fresh_buffer(mode, a)).contains_key(b.0),
    ensures
        ({
            let after = buffers.insert(a.0, crate::buffer::fresh_buffer(mode, a)).insert(
                b.0,
                crate::buffer::fresh_buffer(mode, b),
            );
            &&& a != b
            &&& after.len() == buffers.len() + 2
            &&& after.contains_key(a.0) && after[a.0].id == a && after[a.0].version is None
            &&& after.contains_key(b.0) && after[b.0].id == b && after[b.0].version is None
            &&& buffers.contains_key(other) ==> after.contains_key(other) && after[other]
                == buffers[other]
        }),
{
}

/// Whatever comes of an update of one buffer, every other buffer stays registered as it was, and
/// none is added.
pub proof fn update_leaves_others_alone(
    buffers: Map<i32, BufferView>,
    id: BufferId,
    answers: Seq<UpdateAnswer>,
    other: i32,
)
    ensures
        ({
            let after = run_update(buffers, id, answers).1;
            &&& after.dom() == buffers.dom()
            &&& other != id.0 ==> after[other] == buffers[other]
        }),
{
    update_writes_once(buffers, id, answers);
    assert(run_update(buffers, id, answers).1.dom() =~= buffers.dom());
}

/// An update of a buffer keeps all of the buffer but its bytes, its areas and its version.
pub proof fn update_keeps_shape(
    buffers: Map<i32, BufferView>,
    id: BufferId,
    answers: Seq<UpdateAnswer>,
)
    requires
        buffers.contains_key(id.0),
    ensures
        ({
            let before = buffers[id.0];
            let after = run_update(buffers, id, answers).1[id.0];
            &&& after.id == before.id
            &&& after.width == before.width
            &&& after.height == before.height
            &&& after.stride == before.stride
            &&& after.pixel_format == before.pixel_format
        }),
{
    update_writes_once(buffers, id, answers);
}

/// An update begins with the call for the buffer that is asked for, exactly if that is registered.
/// Otherwise it is over, and the error says that the buffer is not registered.
pub proof fn registered_buffers_are_updated(buffers: Map<i32, BufferView>, id: BufferId)
    ensures
        buffers.contains_key(id.0) <==> next_step(
            buffers,
            UpdateStep::Begin(id),
            UpdateAnswer::Go,
        ) == UpdateStep::CallRequestUpdate(id),
        !buffers.contains_key(id.0) <==> next_step(
            buffers,
            UpdateStep::Begin(id),
            UpdateAnswer::Go,
        ) == UpdateStep::Done(Err(RequestUpdateError::UnregisteredBuffer)),
{
}

/// An update of a buffer is awaited exactly if the kernel said that it is not ready yet.
pub proof fn unready_update_is_awaited(
    buffers: Map<i32, BufferView>,
    step: UpdateStep,
    answer: UpdateAnswer,
    id: BufferId,
)
    requires
        step !is AwaitUpdate,
    ensures
        next_step(buffers, step, answer) == UpdateStep::AwaitUpdate(id) <==> step
            == UpdateStep::CallRequestUpdate(id) && answer == UpdateAnswer::Ready(false),
{
}

/// A grab follows for the very buffer that is ready, whether at once or after it was awaited.
pub proof fn ready_buffer_is_grabbed(buffers: Map<i32, BufferView>, id: BufferId)
    ensures
        next_step(buffers, UpdateStep::CallRequestUpdate(id), UpdateAnswer::Ready(true))
            == UpdateStep::GrabPixels(id),
        next_step(buffers, UpdateStep::AwaitUpdate(id), UpdateAnswer::Awaited(Ok(())))
            == UpdateStep::GrabPixels(id),
{
}

/// An update fails for two reasons only: awaiting it failed, and then the error is the one of the
/// wait, or its buffer is not registered.
pub proof fn update_fails_for_a_reason(
    buffers: Map<i32, BufferView>,
    step: UpdateStep,
    answer: UpdateAnswer,
    error: AwaitEventError,
)
    requires
        step !is Done,
    ensures
        next_step(buffers, step, answer) == UpdateStep::Done(
            Err(RequestUpdateError::AwaitUpdate(error)),
        ) <==> step is AwaitUpdate && (answer matches UpdateAnswer::Awaited(awaited) && awaited
            == Err::<(), AwaitEventError>(error)),
        next_step(buffers, step, answer) == UpdateStep::Done(
            Err(RequestUpdateError::UnregisteredBuffer),
        ) <==> step_buffer(step) is Some && !buffers.contains_key(step_buffer(step).unwrap().0) && (
        (step is Begin && answer is Go) || (step is GrabPixels && answer is Grabbed)),
{
}

/// The buffer of a step that an update goes on from is never exchanged for another one.
pub proof fn step_keeps_buffer(
    buffers: Map<i32, BufferView>,
    step: UpdateStep,
    answer: UpdateAnswer,
)
    ensures
        step_buffer(next_step(buffers, step, answer)) is Some ==> step_buffer(
            next_step(buffers, step, answer),
        ) == step_buffer(step),
{
}

/// An update that is over stays as it ended, and changes no buffer any more.
pub proof fn finished_update_stays(
    buffers: Map<i32, BufferView>,
    result: Result<(), RequestUpdateError>,
    answer: UpdateAnswer,
)
    ensures
        next_step(buffers, UpdateStep::Done(result), answer) == UpdateStep::Done(result),
        next_buffers(buffers, UpdateStep::Done(result), answer) == buffers,
{
}

/// An answer that is not to the step at hand changes nothing.
pub proof fn other_answers_change_nothing(
    buffers: Map<i32, BufferView>,
    step: UpdateStep,
    answer: UpdateAnswer,
)
    requires
        match step {
            UpdateStep::Begin(_) => answer !is Go,
            UpdateStep::CallRequestUpdate(_) => answer !is Ready,
            UpdateStep::AwaitUpdate(_) => answer !is Awaited,
            UpdateStep::GrabPixels(_) => answer !is Grabbed,
            UpdateStep::Done(_) => true,
        },
    ensures
        next_step(buffers, step, answer) == step,
        next_buffers(buffers, step, answer) == buffers,
{
}

/// Whatever was grabbed for a registered buffer is taken over, if it has as many bytes as the
/// buffer and no more than 16 areas, and the buffer can count one more update. All other answers
/// are taken anyway.
pub proof fn right_grab_fits(
    buffers: Map<i32, BufferView>,
    step: UpdateStep,
    answer: UpdateAnswer,
)
    requires
        step is GrabPixels && answer is Grabbed ==> {
            let buffer = buffers[step_buffer(step).unwrap().0];
            answer->pixels@.len() == buffer.bytes.len() && answer->rects@.len() <= 16
                && buffer.version != Some(u32::MAX)
        },
    ensures
        grab_fits(buffers, step, answer),
{
}

/// What an operation on the buffers of a handle leaves alone is all else: the device, its place in
/// libevdi, its config, and the mode that the handle received.
pub proof fn rest_of_handle_is_left_alone(a: Handle, b: Handle)
    requires
        a.same_but_buffers(&b),
    ensures
        a.device == b.device,
        a.sys == b.sys,
        a.device_config@ == b.device_config@,
        a.events.current_mode == b.events.current_mode,
{
}

/// Each buffer of a handle that is well formed is found under its own id, and its bytes are as many
/// as its lines take.
pub proof fn buffers_have_their_own_ids(handle: Handle, id: i32)
    requires
        handle.wf(),
        handle@.contains_key(id),
    ensures
        handle@[id].id.0 == id,
        handle@[id].bytes.len() == handle@[id].height * handle@[id].stride,
        handle@[id].rects.len() <= 16,
{
}

/// Two handles are equal exactly if they stand for the same device of libevdi.
pub proof fn handles_are_equal_by_device(a: Handle, b: Handle)
    ensures
        vstd::std_specs::cmp::PartialEqSpec::eq_spec(&a, &b) <==> a.sys == b.sys,
{
}

/// Unregistering a buffer that was just made gives back what was registered before.
pub proof fn unregister_undoes_new_buffer(
    buffers: Map<i32, BufferView>,
    mode: Mode,
    id: BufferId,
)
    requires
        !buffers.contains_key(id.0),
    ensures
        buffers.insert(id.0, crate::buffer::fresh_buffer(mode, id)).remove(id.0) == buffers,
{
    assert(buffers.insert(id.0, crate::buffer::fresh_buffer(mode, id)).remove(id.0) =~= buffers);
}

impl RequestUpdateError {
    /// What to tell a user.
    pub fn message(&self) -> (message: &'static str)
        ensures
            message@ == (match self {
                RequestUpdateError::AwaitUpdate(_) =>
                    "Kernel chose to update async, failed to await response"@,
                RequestUpdateError::UnregisteredBuffer =>
                    "The buffer provided does not exist or is attached to a different handle"@,
            }),
    {
        match self {
            RequestUpdateError::AwaitUpdate(_) =>
                "Kernel chose to update async, failed to await response",
            RequestUpdateError::UnregisteredBuffer =>
                "The buffer provided does not exist or is attached to a different handle",
        }
    }
}

} // verus!
