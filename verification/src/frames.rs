//! Frame pacing: the command allocators of each frame in flight and the
//! command lists that go round between recording and rest.
//!
//! A frame owns the allocators that its command lists were recorded with.
//! They may be reset only when the GPU has passed the fence value that
//! the frame was ended with; from then on the frame hands them out again,
//! first to last, and asks for a new one only when all are handed out.

use vstd::prelude::*;

verus! {

/// Frames in flight: the buffers of the swap chain.
pub const FRAME_COUNT: usize = 2;

/// One frame in flight. `A` is the driver's command allocator.
pub struct Frame<A> {
    command_allocators: Vec<A>,
    next_command_allocator: usize,
    fence_value: u64,
}

/// What a frame holds.
#[verifier::ext_equal]
pub struct FrameView<A> {
    /// The allocators that the frame owns, oldest first.
    pub allocators: Seq<A>,
    /// How many allocators are handed out since the frame was started.
    pub handed_out: nat,
    /// The fence value that the frame was last ended with.
    pub fence: u64,
}

impl<A> FrameView<A> {
    /// A frame that owns no allocator and was never ended.
    pub open spec fn fresh() -> Self {
        FrameView { allocators: Seq::empty(), handed_out: 0, fence: 0 }
    }

    /// No more allocators are handed out than the frame owns.
    pub open spec fn well_formed(self) -> bool {
        self.handed_out <= self.allocators.len()
    }

    /// Whether every allocator is handed out.
    pub open spec fn exhausted(self) -> bool {
        self.handed_out == self.allocators.len()
    }

    /// The frame started anew: every allocator can be handed out again.
    pub open spec fn started(self) -> Self {
        FrameView { handed_out: 0, ..self }
    }

    /// The frame ended with `signaled_value`.
    pub open spec fn ended(self, signaled_value: u64) -> Self {
        FrameView { fence: signaled_value, ..self }
    }

    /// The frame with `allocator` behind its other allocators.
    pub open spec fn with_allocator(self, allocator: A) -> Self {
        FrameView { allocators: self.allocators.push(allocator), ..self }
    }

    /// The allocator that is handed out next.
    pub open spec fn next_allocator(self) -> A {
        self.allocators[self.handed_out as int]
    }

    /// The frame with one more allocator handed out.
    pub open spec fn handed(self) -> Self {
        FrameView { handed_out: self.handed_out + 1, ..self }
    }
}

impl<A> View for Frame<A> {
    type V = FrameView<A>;

    closed spec fn view(&self) -> FrameView<A> {
        FrameView {
            allocators: self.command_allocators@,
            handed_out: self.next_command_allocator as nat,
            fence: self.fence_value,
        }
    }
}

impl<A> Frame<A> {
    /// A frame that owns no allocator and was never ended.
    pub fn new() -> (frame: Self)
        ensures
            frame@ == FrameView::<A>::fresh(),
    {
        Frame { command_allocators: Vec::new(), next_command_allocator: 0, fence_value: 0 }
    }

    /// The fence value to wait for before the frame is started.
    pub fn fence_value(&self) -> (value: u64)
        ensures
            value == self@.fence,
    {
        self.fence_value
    }

    /// The allocators to reset before the frame is started.
    pub fn command_allocators(&self) -> (allocators: &Vec<A>)
        ensures
            allocators@ == self@.allocators,
    {
        &self.command_allocators
    }

    /// Starts the frame anew: every allocator can be handed out again.
    /// To be called when the GPU has passed the frame's fence value and
    /// the allocators are reset.
    pub fn start(&mut self)
        ensures
            final(self)@ == old(self)@.started(),
    {
        self.next_command_allocator = 0;
    }

    /// Ends the frame with the value that was signaled after its work.
    pub fn end(&mut self, signaled_value: u64)
        ensures
            final(self)@ == old(self)@.ended(signaled_value),
    {
        self.fence_value = signaled_value;
    }

    /// Whether every allocator is handed out, so that the next one has to
    /// be made first.
    pub fn needs_command_allocator(&self) -> (needed: bool)
        ensures
            needed == self@.exhausted(),
    {
        self.next_command_allocator == self.command_allocators.len()
    }

    /// Takes a newly made allocator into the frame, behind the others.
    pub fn add_command_allocator(&mut self, allocator: A)
        ensures
            final(self)@ == old(self)@.with_allocator(allocator),
    {
        self.command_allocators.push(allocator);
    }

    /// Counts the next allocator as handed out, and says which it is.
    fn hand_out(&mut self) -> (position: usize)
        requires
            old(self)@.well_formed(),
            !old(self)@.exhausted(),
        ensures
            position == old(self)@.handed_out,
            final(self)@ == old(self)@.handed(),
    {
        let position = self.next_command_allocator;
        assert(position < self.command_allocators.len());
        self.next_command_allocator = position + 1;
        position
    }

    /// The allocator at `position`.
    fn allocator_at(&self, position: usize) -> (allocator: &A)
        requires
            position < self@.allocators.len(),
        ensures
            *allocator == self@.allocators[position as int],
    {
        &self.command_allocators[position]
    }

    /// Hands out the next allocator.
    pub fn get_command_allocator(&mut self) -> (allocator: &A)
        requires
            old(self)@.well_formed(),
            !old(self)@.exhausted(),
        ensures
            *allocator == old(self)@.next_allocator(),
            final(self)@ == old(self)@.handed(),
    {
        let position = self.hand_out();
        self.allocator_at(position)
    }
}

/// `array_init::array_init`: an array whose element at each index is
/// what the initializer returns for that index. The initializer here
/// returns a new frame whatever the index, so every element is a frame
/// as `Frame::new` makes it.
#[verifier::external_body]
fn new_frames<A>() -> (frames: [Frame<A>; FRAME_COUNT])
    ensures
        forall|i: int| 0 <= i < FRAME_COUNT ==> (#[trigger] frames@[i])@ == FrameView::<A>::fresh(),
{
    array_init::array_init(|_| Frame::new())
}

/// The frames in flight and the command lists of the renderer. `A` is
/// the driver's command allocator, `L` its command list.
///
/// A command list is either at rest or recorded for the current frame.
/// The recorded lists are executed in the order in which they were handed
/// in; when the frame ends they all go to rest again.
pub struct Frames<A, L> {
    current_index: usize,
    frames: [Frame<A>; FRAME_COUNT],
    idle_command_lists: Vec<L>,
    command_lists: Vec<L>,
}

/// What the frames and command lists of a renderer hold.
#[verifier::ext_equal]
pub struct FramesView<A, L> {
    /// The index of the frame that is being recorded.
    pub current: int,
    /// The frames in flight, by back buffer index.
    pub frames: Seq<FrameView<A>>,
    /// The command lists at rest. The last one is the next to be used.
    pub idle: Seq<L>,
    /// The command lists recorded for the current frame, in the order in
    /// which the queue is to execute them.
    pub recorded: Seq<L>,
}

impl<A, L> FramesView<A, L> {
    /// Fresh frames, the first of them current, and no command list.
    pub open spec fn fresh() -> Self {
        FramesView {
            current: 0,
            frames: Seq::new(FRAME_COUNT as nat, |i: int| FrameView::<A>::fresh()),
            idle: Seq::empty(),
            recorded: Seq::empty(),
        }
    }

    /// There are `FRAME_COUNT` frames, the current one among them, and
    /// each is well formed.
    pub open spec fn well_formed(self) -> bool {
        &&& self.frames.len() == FRAME_COUNT
        &&& 0 <= self.current < FRAME_COUNT
        &&& forall|i: int| 0 <= i < FRAME_COUNT ==> (#[trigger] self.frames[i]).well_formed()
    }

    /// The frame that is being recorded.
    pub open spec fn current_frame(self) -> FrameView<A> {
        self.frames[self.current]
    }

    /// The same with `frame` in place of the frame that is being
    /// recorded.
    pub open spec fn with_current_frame(self, frame: FrameView<A>) -> Self {
        FramesView { frames: self.frames.update(self.current, frame), ..self }
    }

    /// The same without the last of the command lists at rest.
    pub open spec fn without_last_idle(self) -> Self {
        FramesView { idle: self.idle.drop_last(), ..self }
    }

    /// The same with `list` recorded behind the other recorded lists.
    pub open spec fn with_recorded(self, list: L) -> Self {
        FramesView { recorded: self.recorded.push(list), ..self }
    }

    /// The state after the end of the current frame: it keeps
    /// `signaled_value`, the recorded lists are at rest behind those
    /// that were, and frame `next` is the one that is being recorded.
    pub open spec fn ended(self, signaled_value: u64, next: int) -> Self {
        FramesView {
            current: next,
            frames: self.frames.update(self.current, self.current_frame().ended(signaled_value)),
            idle: self.idle + self.recorded,
            recorded: Seq::empty(),
        }
    }
}

impl<A, L> View for Frames<A, L> {
    type V = FramesView<A, L>;

    closed spec fn view(&self) -> FramesView<A, L> {
        FramesView {
            current: self.current_index as int,
            frames: self.frames@.map_values(|frame: Frame<A>| frame@),
            idle: self.idle_command_lists@,
            recorded: self.command_lists@,
        }
    }
}

impl<A, L> Frames<A, L> {
    /// Fresh frames, the first of them current, and no command list.
    pub fn new() -> (frames: Self)
        ensures
            frames@ == FramesView::<A, L>::fresh(),
            frames@.well_formed(),
    {
        let frames = Frames {
            current_index: 0,
            frames: new_frames(),
            idle_command_lists: Vec::new(),
            command_lists: Vec::new(),
        };
        assert(frames@.frames =~= FramesView::<A, L>::fresh().frames);
        frames
    }

    /// The index of the frame that is being recorded.
    pub fn current_index(&self) -> (index: usize)
        ensures
            index == self@.current,
    {
        self.current_index
    }

    /// The frame that is being recorded.
    pub fn frame(&self) -> (frame: &Frame<A>)
        requires
            self@.well_formed(),
        ensures
            frame@ == self@.current_frame(),
    {
        &self.frames[self.current_index]
    }

    /// The command lists for the queue to execute, in order.
    pub fn command_lists(&self) -> (lists: &Vec<L>)
        ensures
            lists@ == self@.recorded,
    {
        &self.command_lists
    }

    /// Starts the current frame anew: all its allocators can be handed
    /// out again. To be called when the GPU has passed the frame's fence
    /// value and the allocators are reset.
    pub fn start_frame(&mut self)
        requires
            old(self)@.well_formed(),
        ensures
            final(self)@ == old(self)@.with_current_frame(old(self)@.current_frame().started()),
            final(self)@.well_formed(),
    {
        let index = self.current_index;
        self.frames[index].start();
        assert(self@.frames =~= old(self)@.frames.update(
            index as int,
            old(self)@.current_frame().started(),
        ));
    }

    /// Whether the current frame has handed out all its allocators, so
    /// that the next one has to be made first.
    pub fn needs_command_allocator(&self) -> (needed: bool)
        requires
            self@.well_formed(),
        ensures
            needed == self@.current_frame().exhausted(),
    {
        self.frames[self.current_index].needs_command_allocator()
    }

    /// Takes a newly made allocator into the current frame.
    pub fn add_command_allocator(&mut self, allocator: A)
        requires
            old(self)@.well_formed(),
        ensures
            final(self)@ == old(self)@.with_current_frame(
                old(self)@.current_frame().with_allocator(allocator),
            ),
            final(self)@.well_formed(),
    {
        let index = self.current_index;
        self.frames[index].add_command_allocator(allocator);
        assert(self@.frames =~= old(self)@.frames.update(
            index as int,
            old(self)@.current_frame().with_allocator(allocator),
        ));
    }

    /// Hands out the next allocator of the current frame.
    pub fn get_command_allocator(&mut self) -> (allocator: &A)
        requires
            old(self)@.well_formed(),
            !old(self)@.current_frame().exhausted(),
        ensures
            *allocator == old(self)@.current_frame().next_allocator(),
            final(self)@ == old(self)@.with_current_frame(old(self)@.current_frame().handed()),
            final(self)@.well_formed(),
    {
        let index = self.current_index;
        let position = self.frames[index].hand_out();
        assert(self@.frames =~= old(self)@.frames.update(
            index as int,
            old(self)@.current_frame().handed(),
        ));
        self.frames[index].allocator_at(position)
    }

    /// Takes a command list from those at rest, the last one first, if
    /// there is one. If there is none, a new one has to be made.
    pub fn take_idle_command_list(&mut self) -> (list: Option<L>)
        ensures
            old(self)@.idle.len() == 0 ==> list == None::<L> && final(self)@ == old(self)@,
            old(self)@.idle.len() > 0 ==> list == Some(old(self)@.idle.last()) && final(self)@
                == old(self)@.without_last_idle(),
    {
        self.idle_command_lists.pop()
    }

    /// Hands in a recorded command list: the queue executes it after
    /// those handed in before.
    pub fn push_command_list(&mut self, list: L)
        ensures
            final(self)@ == old(self)@.with_recorded(list),
    {
        self.command_lists.push(list);
    }

    /// Ends the current frame. The frame keeps `signaled_value`, the fence
    /// value signaled after its command lists; the recorded lists go to
    /// rest behind those already there; and the frame of the swap chain's
    /// next back buffer becomes the current one.
    pub fn end_frame(&mut self, signaled_value: u64, back_buffer_index: usize)
        requires
            old(self)@.well_formed(),
            back_buffer_index < FRAME_COUNT,
        ensures
            final(self)@ == old(self)@.ended(signaled_value, back_buffer_index as int),
            final(self)@.well_formed(),
    {
        let index = self.current_index;
        self.frames[index].end(signaled_value);
        self.current_index = back_buffer_index;
        self.idle_command_lists.append(&mut self.command_lists);
        assert(self@.frames =~= old(self)@.frames.update(
            index as int,
            old(self)@.current_frame().ended(signaled_value),
        ));
    }
}

/// No command list is lost or made when a frame ends: those at rest
/// afterwards are those that were at rest or recorded before.
pub proof fn lemma_end_keeps_command_lists<A, L>(
    frames: FramesView<A, L>,
    signaled_value: u64,
    next: int,
)
    ensures
        frames.ended(signaled_value, next).idle.to_multiset().add(
            frames.ended(signaled_value, next).recorded.to_multiset(),
        ) == frames.idle.to_multiset().add(frames.recorded.to_multiset()),
{
    vstd::seq_lib::lemma_multiset_commutative(frames.idle, frames.recorded);
    assert(Seq::<L>::empty().to_multiset() =~= vstd::multiset::Multiset::<L>::empty()) by {
        broadcast use vstd::seq_lib::group_to_multiset_ensures;
    }
    assert(frames.ended(signaled_value, next).idle.to_multiset().add(
        frames.ended(signaled_value, next).recorded.to_multiset(),
    ) =~= frames.idle.to_multiset().add(frames.recorded.to_multiset()));
}

} // verus!
