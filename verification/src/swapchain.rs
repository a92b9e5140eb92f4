//! The presentable chain and its per-frame cycle.
//!
//! The chain does no device work itself. [`Swapchain::draw`] is the
//! transition function of the cycle: it takes what the device answered to the
//! last action and names the next one. The caller performs each action and
//! comes back with the answer, until the action is [`DrawAction::Done`] or
//! [`DrawAction::Recreate`].

use vstd::prelude::*;
use crate::error::RenderError;
use crate::fence::Fence;
use crate::fence::PreviousFuture;
use crate::render::all_delivered;
use crate::render::fresh_targets;
use crate::render::recorded_targets;
use crate::render::Framebuffers;
use crate::render::Target;
use crate::render::TargetSet;
use crate::surface::Extent;
use crate::surface::RenderPass;
use crate::surface::SwapchainCreateInfo;

verus! {

/// Where the chain stands in the per-frame cycle.
#[derive(Debug, Clone, Copy, PartialEq, Eq, Structural)]
pub enum Phase {
    /// The chain is valid and a cycle may begin.
    Ready,
    /// The previous-frame future is fixed and the next image is being acquired.
    Acquiring { previous: PreviousFuture },
    /// The acquired target's earlier submission is being waited for.
    Waiting { previous: PreviousFuture, index: u32, suboptimal: bool },
    /// The acquired target's sequence is being submitted and presented.
    Submitting { previous: PreviousFuture, index: u32, suboptimal: bool },
    /// The chain no longer matches the surface and must be recreated.
    Stale,
}

/// What the device answered to the last action of a cycle.
#[derive(Debug, Clone, Copy, PartialEq, Eq, Structural)]
pub enum DrawEvent {
    /// The application asks for a frame.
    Tick,
    /// The image with this index was acquired.
    Acquired { index: u32, suboptimal: bool },
    /// Acquisition found the chain out of date.
    AcquireOutOfDate,
    /// Acquisition failed otherwise.
    AcquireFailed,
    /// The awaited token was signaled.
    Waited,
    /// Waiting for the token failed.
    WaitFailed,
    /// The submission was flushed; its completion is filed under `ticket`.
    Flushed { ticket: u64 },
    /// The flush found the chain out of date.
    FlushOutOfDate,
    /// The flush failed otherwise.
    FlushFailed,
}

/// What the caller has to do next.
#[derive(Debug, Clone, Copy, PartialEq, Eq, Structural)]
pub enum DrawAction {
    /// Acquire the next image, with no timeout.
    Acquire { previous: PreviousFuture },
    /// Block until the token with this ticket is signaled.
    Wait { ticket: u64 },
    /// Join `previous` with the acquisition, execute the sequence
    /// `command_buffer`, present image `index`, then signal a fence and flush.
    Submit { previous: PreviousFuture, index: u32, command_buffer: u64 },
    /// Rebuild the chain for the current surface size and report it to
    /// [`Swapchain::recreate`]. The cycle is over.
    Recreate,
    /// The cycle is over.
    Done,
}

/// What the device delivered when a chain was built.
#[derive(Debug)]
pub struct ChainReply {
    /// The presentable images, in the order of the device's image indices.
    pub images: Vec<u64>,
    /// The framebuffer object built for each image; `None` for one that the
    /// device rejected, after which it was asked no further.
    pub framebuffers: Vec<Option<u64>>,
}

/// What a presentable chain is.
pub struct Chain {
    /// The parameters that the current device chain was built with.
    pub info: SwapchainCreateInfo,
    pub render_pass: RenderPass,
    pub set: TargetSet,
    /// The index of the most recently submitted image; 0 before the first.
    pub cursor: u32,
    pub phase: Phase,
}

impl TargetSet {
    /// The set with the token of target `slot` replaced by `fence`.
    pub open spec fn with_token(self, slot: int, fence: Option<u64>) -> TargetSet {
        TargetSet { targets: self.targets.update(slot, Target { fence, ..self.targets[slot] }), ..self }
    }
}

impl Chain {
    /// The chain has a target, the cursor and the index in flight name
    /// targets, the targets are in step with the cached callback, and the
    /// render pass has one color attachment in the chain's format.
    pub open spec fn wf(self) -> bool {
        &&& self.set.wf()
        &&& 1 <= self.set.targets.len() <= u32::MAX
        &&& self.cursor < self.set.targets.len()
        &&& self.info.image_format == Some(self.render_pass.format)
        &&& self.render_pass == RenderPass::single_color_spec(self.render_pass.format)
        &&& match self.phase {
            Phase::Waiting { index, .. } => index < self.set.targets.len(),
            Phase::Submitting { index, .. } => index < self.set.targets.len(),
            _ => true,
        }
    }

    /// Between cycles no target but the one at the cursor holds a token;
    /// within a cycle none does.
    pub open spec fn tokens_settled(self) -> bool {
        match self.phase {
            Phase::Ready => self.set.tokens_only_at(self.cursor as int),
            Phase::Stale => self.set.tokens_only_at(self.cursor as int),
            _ => self.set.tokens_only_at(-1),
        }
    }

    /// The chain back in `Ready` after a failure.
    pub open spec fn abandoned(self) -> Chain {
        Chain { phase: Phase::Ready, ..self }
    }

    /// The step that follows once the acquired target is free: submit its
    /// recorded sequence, or fail where it has none.
    pub open spec fn submit(self, previous: PreviousFuture, index: u32, suboptimal: bool) -> (Chain, Result<
        DrawAction,
        RenderError,
    >) {
        match self.set.targets[index as int].command_buffer {
            None => (self.abandoned(), Err(RenderError::Recording)),
            Some(cb) => (
                Chain { phase: Phase::Submitting { previous, index, suboptimal }, ..self },
                Ok(DrawAction::Submit { previous, index, command_buffer: cb.handle }),
            ),
        }
    }

    /// The transition of the per-frame cycle: the chain after `event`, and
    /// the action that it asks for or the failure that ends the cycle. An
    /// event that does not answer the phase's action changes nothing and
    /// fails.
    pub open spec fn step(self, event: DrawEvent) -> (Chain, Result<DrawAction, RenderError>) {
        match (self.phase, event) {
            (Phase::Ready, DrawEvent::Tick) => {
                let previous = match self.set.targets[self.cursor as int].fence {
                    None => PreviousFuture::Now,
                    Some(t) => PreviousFuture::Signaled(t),
                };
                (
                    Chain {
                        set: self.set.with_token(self.cursor as int, None),
                        phase: Phase::Acquiring { previous },
                        ..self
                    },
                    Ok(DrawAction::Acquire { previous }),
                )
            },
            (Phase::Stale, DrawEvent::Tick) => (self, Ok(DrawAction::Recreate)),
            (Phase::Acquiring { previous }, DrawEvent::Acquired { index, suboptimal }) => {
                if index >= self.set.targets.len() {
                    (self.abandoned(), Err(RenderError::Fatal))
                } else {
                    match self.set.targets[index as int].fence {
                        Some(t) => (
                            Chain {
                                set: self.set.with_token(index as int, None),
                                phase: Phase::Waiting { previous, index, suboptimal },
                                ..self
                            },
                            Ok(DrawAction::Wait { ticket: t }),
                        ),
                        None => self.submit(previous, index, suboptimal),
                    }
                }
            },
            (Phase::Acquiring { .. }, DrawEvent::AcquireOutOfDate) => (
                Chain { phase: Phase::Stale, ..self },
                Ok(DrawAction::Recreate),
            ),
            (Phase::Acquiring { .. }, DrawEvent::AcquireFailed) => (self.abandoned(), Err(RenderError::Fatal)),
            (Phase::Waiting { previous, index, suboptimal }, DrawEvent::Waited) => self.submit(
                previous,
                index,
                suboptimal,
            ),
            (Phase::Waiting { .. }, DrawEvent::WaitFailed) => (self.abandoned(), Err(RenderError::Fatal)),
            (Phase::Submitting { index, suboptimal, .. }, DrawEvent::Flushed { ticket }) => (
                Chain {
                    set: self.set.with_token(index as int, Some(ticket)),
                    cursor: index,
                    phase: if suboptimal {
                        Phase::Stale
                    } else {
                        Phase::Ready
                    },
                    ..self
                },
                Ok(
                    if suboptimal {
                        DrawAction::Recreate
                    } else {
                        DrawAction::Done
                    },
                ),
            ),
            (Phase::Submitting { index, .. }, DrawEvent::FlushOutOfDate) => (
                Chain { set: self.set.with_token(index as int, None), cursor: index, phase: Phase::Stale, ..self },
                Ok(DrawAction::Recreate),
            ),
            (Phase::Submitting { .. }, DrawEvent::FlushFailed) => (self.abandoned(), Err(RenderError::Fatal)),
            _ => (self, Err(RenderError::Fatal)),
        }
    }
}

/// The device built a chain with at least one image, no more images than an
/// index can name, and a framebuffer object for each.
pub open spec fn chain_built(reply: Option<ChainReply>) -> bool {
    reply matches Some(c) && 1 <= c.images@.len() <= u32::MAX && all_delivered(
        c.framebuffers@,
        c.images@.len() as int,
    )
}

/// The targets of a rebuilt chain: fresh ones, recorded anew by the cached
/// callback where there is one.
pub open spec fn rebuilt_set(reply: ChainReply, cb_builder: Option<u64>, recorded: Seq<Option<u64>>) -> TargetSet {
    let fresh = fresh_targets(reply.images@, reply.framebuffers@);
    match cb_builder {
        None => TargetSet { targets: fresh, cb_builder: None },
        Some(c) => TargetSet { targets: recorded_targets(fresh, c, recorded), cb_builder: Some(c) },
    }
}

/// Whether the replay that a rebuild owes has succeeded: with no callback
/// cached there is nothing to replay.
pub open spec fn replayed(reply: ChainReply, cb_builder: Option<u64>, recorded: Seq<Option<u64>>) -> bool {
    cb_builder is Some ==> all_delivered(recorded, reply.images@.len() as int)
}

impl Chain {
    /// The chain after the callback `recorder` has recorded its targets, with
    /// the outcome. Unless every target was recorded, the recording fails
    /// and the chain stays as it was; otherwise every target holds its new
    /// sequence and the callback is cached.
    pub open spec fn recorded(self, recorder: u64, recorded: Seq<Option<u64>>) -> (Chain, Result<(), RenderError>) {
        if all_delivered(recorded, self.set.targets.len() as int) {
            (
                Chain {
                    set: TargetSet {
                        targets: recorded_targets(self.set.targets, recorder, recorded),
                        cb_builder: Some(recorder),
                    },
                    ..self
                },
                Ok(()),
            )
        } else {
            (self, Err(RenderError::Recording))
        }
    }

    /// The chain after a rebuild for the surface size `extent`, with the
    /// outcome. A rebuild that the device rejected fails the setup, a replay
    /// that did not record every new target fails the recording, and either
    /// leaves the chain as it was. Otherwise the targets are replaced
    /// wholesale, the parameters take the new extent, the cursor stays where
    /// it names a new target and returns to 0 otherwise, and the chain is
    /// ready.
    pub open spec fn recreated(self, extent: Extent, reply: Option<ChainReply>, recorded: Seq<Option<u64>>) -> (
        Chain,
        Result<(), RenderError>,
    ) {
        if !chain_built(reply) {
            (self, Err(RenderError::Setup))
        } else if !replayed(reply->Some_0, self.set.cb_builder, recorded) {
            (self, Err(RenderError::Recording))
        } else {
            (
                Chain {
                    info: SwapchainCreateInfo { image_extent: extent, ..self.info },
                    render_pass: self.render_pass,
                    set: rebuilt_set(reply->Some_0, self.set.cb_builder, recorded),
                    cursor: if self.cursor < reply->Some_0.images@.len() {
                        self.cursor
                    } else {
                        0
                    },
                    phase: Phase::Ready,
                },
                Ok(()),
            )
        }
    }
}

/// The presentable chain: the parameters of the device chain, the render
/// pass, the render targets, and the cursor of the per-frame cycle.
#[derive(Debug)]
pub struct Swapchain {
    pub swapchain: SwapchainCreateInfo,
    pub render_pass: RenderPass,
    pub framebuffers: Framebuffers,
    previous_image_index: u32,
    phase: Phase,
}

impl Swapchain {
    pub closed spec fn view(&self) -> Chain {
        Chain {
            info: self.swapchain,
            render_pass: self.render_pass,
            set: self.framebuffers@,
            cursor: self.previous_image_index,
            phase: self.phase,
        }
    }

    /// Takes in what the device delivered for the parameters `info`: `reply`
    /// is `None` where it rejected the chain or the render pass. The chain
    /// stands if the parameters name a format, the device delivered at least
    /// one image and a framebuffer object for every image. Its render pass
    /// is the single-attachment layout in that format, its targets are
    /// fresh, and its cursor is at the initial index 0.
    pub fn new(info: SwapchainCreateInfo, reply: Option<ChainReply>) -> (r: Result<Swapchain, RenderError>)
        ensures
            chain_built(reply) && info.image_format is Some ==> r is Ok && r->Ok_0@ == (Chain {
                info,
                render_pass: RenderPass::single_color_spec(info.image_format->Some_0),
                set: TargetSet {
                    targets: fresh_targets(reply->Some_0.images@, reply->Some_0.framebuffers@),
                    cb_builder: None,
                },
                cursor: 0,
                phase: Phase::Ready,
            }),
            !(chain_built(reply) && info.image_format is Some) ==> r == Err::<Swapchain, RenderError>(
                RenderError::Setup,
            ),
            r is Ok ==> r->Ok_0@.wf() && r->Ok_0@.tokens_settled(),
    {
        let format: u32 = match info.image_format {
            Some(f) => f,
            None => {
                return Err(RenderError::Setup);
            },
        };
        let delivered = match reply {
            Some(c) => c,
            None => {
                return Err(RenderError::Setup);
            },
        };
        if delivered.images.len() == 0 || delivered.images.len() > u32::MAX as usize {
            return Err(RenderError::Setup);
        }
        let framebuffers = match Framebuffers::new(&delivered.images, &delivered.framebuffers) {
            Ok(set) => set,
            Err(e) => {
                return Err(e);
            },
        };
        Ok(
            Swapchain {
                swapchain: info,
                render_pass: RenderPass::single_color(format),
                framebuffers,
                previous_image_index: 0,
                phase: Phase::Ready,
            },
        )
    }

    /// Takes in the outcome of recording every target with the callback
    /// `recorder`, and caches the callback so that a later rebuild can
    /// replay it. `recorded[i]` is the sequence recorded against target `i`;
    /// recording stops at the first failure, so `recorded` may be shorter
    /// than the set.
    pub fn build_command_buffer(&mut self, recorder: u64, recorded: &Vec<Option<u64>>) -> (r: Result<
        (),
        RenderError,
    >)
        ensures
            (final(self)@, r) == old(self)@.recorded(recorder, recorded@),
            old(self)@.wf() ==> final(self)@.wf(),
            old(self)@.tokens_settled() ==> final(self)@.tokens_settled(),
    {
        match self.framebuffers.build_command_buffer(recorder, recorded) {
            Ok(()) => Ok(()),
            Err(e) => Err(e),
        }
    }

    /// Takes in a rebuild of the device chain for the surface size `extent`,
    /// all other parameters reused: `reply` is what the device delivered
    /// (`None` where it rejected the rebuild), and `recorded` holds the
    /// sequences that replaying the cached callback against the new
    /// framebuffer objects produced, up to the first failure.
    ///
    /// On success the cached callback is carried over with every new target
    /// recorded by it, and no target holds a token. On failure the chain
    /// stays as it was.
    pub fn recreate(&mut self, extent: Extent, reply: Option<ChainReply>, recorded: &Vec<Option<u64>>) -> (r:
        Result<(), RenderError>)
        ensures
            (final(self)@, r) == old(self)@.recreated(extent, reply, recorded@),
            old(self)@.wf() ==> final(self)@.wf(),
            r is Ok ==> final(self)@.tokens_settled(),
            old(self)@.tokens_settled() ==> final(self)@.tokens_settled(),
    {
        let delivered = match reply {
            Some(c) => c,
            None => {
                return Err(RenderError::Setup);
            },
        };
        if delivered.images.len() == 0 || delivered.images.len() > u32::MAX as usize {
            return Err(RenderError::Setup);
        }
        let mut framebuffers = match Framebuffers::new(&delivered.images, &delivered.framebuffers) {
            Ok(set) => set,
            Err(e) => {
                return Err(e);
            },
        };
        let cb_builder = self.framebuffers.cb_builder();
        framebuffers.set_cb_builder(cb_builder);
        match framebuffers.update_command_buffer(recorded) {
            Ok(()) => {},
            Err(e) => {
                return Err(e);
            },
        }
        let n: usize = framebuffers.len();
        self.swapchain.image_extent = extent;
        self.framebuffers = framebuffers;
        if self.previous_image_index as usize >= n {
            self.previous_image_index = 0;
        }
        self.phase = Phase::Ready;
        Ok(())
    }

    /// Ends the cycle after a failure.
    fn abandon(&mut self, error: RenderError) -> (r: Result<DrawAction, RenderError>)
        ensures
            final(self)@ == old(self)@.abandoned(),
            r == Err::<DrawAction, RenderError>(error),
    {
        self.phase = Phase::Ready;
        Err(error)
    }

    /// Decides the submission of the acquired target once it is free.
    fn submit(&mut self, previous: PreviousFuture, index: u32, suboptimal: bool) -> (r: Result<
        DrawAction,
        RenderError,
    >)
        requires
            index < old(self)@.set.targets.len(),
        ensures
            (final(self)@, r) == old(self)@.submit(previous, index, suboptimal),
    {
        match self.framebuffers.index(index as usize).command_buffer() {
            None => self.abandon(RenderError::Recording),
            Some(cb) => {
                self.phase = Phase::Submitting { previous, index, suboptimal };
                Ok(DrawAction::Submit { previous, index, command_buffer: cb.handle })
            },
        }
    }

    /// One transition of the per-frame cycle. `event` is `Tick` to begin a
    /// cycle and otherwise the device's answer to the action that the last
    /// call returned; the result is the next action, or the failure that
    /// ends the cycle. A stale chain is no failure: the action is then
    /// `Recreate`, and every later `Tick` asks for it again until
    /// [`Swapchain::recreate`] has succeeded.
    ///
    /// Recorded sequences and the cached callback are never touched, and
    /// the settlement of the tokens is kept.
    pub fn draw(&mut self, event: DrawEvent) -> (r: Result<DrawAction, RenderError>)
        requires
            old(self)@.wf(),
        ensures
            (final(self)@, r) == old(self)@.step(event),
            final(self)@.wf(),
            old(self)@.tokens_settled() ==> final(self)@.tokens_settled(),
    {
        match (self.phase, event) {
            (Phase::Ready, DrawEvent::Tick) => {
                let previous = match self.framebuffers.take_fence(self.previous_image_index as usize) {
                    None => PreviousFuture::Now,
                    Some(fence) => fence.get_boxed(),
                };
                self.phase = Phase::Acquiring { previous };
                Ok(DrawAction::Acquire { previous })
            },
            (Phase::Stale, DrawEvent::Tick) => Ok(DrawAction::Recreate),
            (Phase::Acquiring { previous }, DrawEvent::Acquired { index, suboptimal }) => {
                if index as usize >= self.framebuffers.len() {
                    return self.abandon(RenderError::Fatal);
                }
                match self.framebuffers.take_fence(index as usize) {
                    Some(fence) => {
                        self.phase = Phase::Waiting { previous, index, suboptimal };
                        Ok(DrawAction::Wait { ticket: fence.wait() })
                    },
                    None => {
                        assert(self@.set.targets =~= old(self)@.set.targets);
                        self.submit(previous, index, suboptimal)
                    },
                }
            },
            (Phase::Acquiring { .. }, DrawEvent::AcquireOutOfDate) => {
                self.phase = Phase::Stale;
                Ok(DrawAction::Recreate)
            },
            (Phase::Acquiring { .. }, DrawEvent::AcquireFailed) => self.abandon(RenderError::Fatal),
            (Phase::Waiting { previous, index, suboptimal }, DrawEvent::Waited) => self.submit(
                previous,
                index,
                suboptimal,
            ),
            (Phase::Waiting { .. }, DrawEvent::WaitFailed) => self.abandon(RenderError::Fatal),
            (Phase::Submitting { index, suboptimal, .. }, DrawEvent::Flushed { ticket }) => {
                self.framebuffers.set_fence(index as usize, Some(Fence::new(ticket)));
                self.previous_image_index = index;
                if suboptimal {
                    self.phase = Phase::Stale;
                    Ok(DrawAction::Recreate)
                } else {
                    self.phase = Phase::Ready;
                    Ok(DrawAction::Done)
                }
            },
            (Phase::Submitting { index, .. }, DrawEvent::FlushOutOfDate) => {
                self.framebuffers.set_fence(index as usize, None);
                self.previous_image_index = index;
                self.phase = Phase::Stale;
                Ok(DrawAction::Recreate)
            },
            (Phase::Submitting { .. }, DrawEvent::FlushFailed) => self.abandon(RenderError::Fatal),
            _ => Err(RenderError::Fatal),
        }
    }

    /// Whether the chain is well formed, which is what [`Swapchain::draw`]
    /// asks of it. Every chain that this type's functions made is; the
    /// public fields can be set to break it.
    pub fn is_well_formed(&self) -> (r: bool)
        ensures
            r == self@.wf(),
    {
        let n: usize = self.framebuffers.len();
        let in_flight: bool = match self.phase {
            Phase::Waiting { index, .. } => (index as usize) < n,
            Phase::Submitting { index, .. } => (index as usize) < n,
            _ => true,
        };
        let pass = self.render_pass;
        let format_fits: bool = match self.swapchain.image_format {
            Some(f) => f == pass.format,
            None => false,
        };
        self.framebuffers.is_well_formed() && 1 <= n && n <= u32::MAX as usize
            && (self.previous_image_index as usize) < n && format_fits && pass.samples == 1
            && pass.clear_on_load && pass.store_on_end && in_flight
    }

    /// The render targets of the current chain.
    pub fn framebuffers(&self) -> (r: &Framebuffers)
        ensures
            r@ == self@.set,
    {
        &self.framebuffers
    }

    /// The parameters that the current device chain was built with.
    pub fn create_info(&self) -> (r: SwapchainCreateInfo)
        ensures
            r == self@.info,
    {
        self.swapchain
    }

    /// The cursor: the index of the most recently submitted image.
    pub fn previous_image_index(&self) -> (r: u32)
        ensures
            r == self@.cursor,
    {
        self.previous_image_index
    }

    /// The phase of the per-frame cycle that the chain is in.
    pub fn phase(&self) -> (r: Phase)
        ensures
            r == self@.phase,
    {
        self.phase
    }
}

/// A transition never touches what is recorded: the targets keep their
/// images, framebuffer objects and sequences, the cached callback stays, and
/// so do the chain's parameters and render pass. It also keeps the chain
/// well formed.
pub proof fn lemma_step_keeps_recordings(s: Chain, event: DrawEvent)
    requires
        s.wf(),
    ensures
        s.step(event).0.wf(),
        s.step(event).0.info == s.info,
        s.step(event).0.render_pass == s.render_pass,
        s.step(event).0.set.cb_builder == s.set.cb_builder,
        s.step(event).0.set.targets.len() == s.set.targets.len(),
        forall|i: int|
            0 <= i < s.set.targets.len() ==> {
                let t = #[trigger] s.step(event).0.set.targets[i];
                &&& t.command_buffer == s.set.targets[i].command_buffer
                &&& t.image == s.set.targets[i].image
                &&& t.framebuffer == s.set.targets[i].framebuffer
            },
{
}

/// A transition keeps the tokens settled: no token is ever stored on a
/// target while another target, or that target itself, still holds one.
pub proof fn lemma_step_keeps_tokens_settled(s: Chain, event: DrawEvent)
    requires
        s.wf(),
        s.tokens_settled(),
    ensures
        s.step(event).0.tokens_settled(),
        s.phase is Submitting ==> s.set.targets[s.phase->Submitting_index as int].fence is None,
        s.step(event).1 matches Ok(action) ==> !(action is Wait),
{
}

/// The chain after a whole cycle in which the device acquires `index`,
/// signals the awaited token if one is awaited, and flushes under `ticket`;
/// with the last action or the failure.
pub open spec fn cycle(s: Chain, index: u32, suboptimal: bool, ticket: u64) -> (Chain, Result<
    DrawAction,
    RenderError,
>) {
    let began = s.step(DrawEvent::Tick).0;
    let acquired = began.step(DrawEvent::Acquired { index, suboptimal });
    let free = if acquired.1 matches Ok(DrawAction::Wait { .. }) {
        acquired.0.step(DrawEvent::Waited)
    } else {
        acquired
    };
    if free.1 is Ok {
        free.0.step(DrawEvent::Flushed { ticket })
    } else {
        free
    }
}

/// A cycle on a ready chain whose acquired target is recorded, with an
/// acquisition that is not suboptimal and a flush that succeeds, ends with
/// `Done`: it asks for no recreation, leaves the chain ready with the cursor
/// on the acquired target and the new token there, and changes no recording.
pub proof fn lemma_clean_cycle_is_done(s: Chain, index: u32, ticket: u64)
    requires
        s.wf(),
        s.phase == Phase::Ready,
        index < s.set.targets.len(),
        s.set.targets[index as int].command_buffer is Some,
    ensures
        cycle(s, index, false, ticket).1 == Ok::<DrawAction, RenderError>(DrawAction::Done),
        cycle(s, index, false, ticket).0.wf(),
        cycle(s, index, false, ticket).0.info == s.info,
        cycle(s, index, false, ticket).0.phase == Phase::Ready,
        cycle(s, index, false, ticket).0.cursor == index,
        cycle(s, index, false, ticket).0.set.targets[index as int].fence == Some(ticket),
        cycle(s, index, false, ticket).0.set.cb_builder == s.set.cb_builder,
        cycle(s, index, false, ticket).0.set.targets.len() == s.set.targets.len(),
        forall|i: int|
            0 <= i < s.set.targets.len() ==> (#[trigger] cycle(
                s,
                index,
                false,
                ticket,
            ).0.set.targets[i]).command_buffer == s.set.targets[i].command_buffer,
{
    let began = s.step(DrawEvent::Tick).0;
    lemma_step_keeps_recordings(s, DrawEvent::Tick);
    let acquired = began.step(DrawEvent::Acquired { index, suboptimal: false });
    lemma_step_keeps_recordings(began, DrawEvent::Acquired { index, suboptimal: false });
    if acquired.1 matches Ok(DrawAction::Wait { .. }) {
        lemma_step_keeps_recordings(acquired.0, DrawEvent::Waited);
    }
}

/// A stale chain found at acquisition is no failure: the cycle ends with
/// `Recreate` and the chain stale but otherwise as it was, and from then on
/// every tick asks for the recreation again without beginning a cycle.
pub proof fn lemma_stale_acquisition_asks_recreation(s: Chain)
    requires
        s.phase is Acquiring,
    ensures
        s.step(DrawEvent::AcquireOutOfDate) == (
            Chain { phase: Phase::Stale, ..s },
            Ok::<DrawAction, RenderError>(DrawAction::Recreate),
        ),
        (Chain { phase: Phase::Stale, ..s }).step(DrawEvent::Tick) == (
            Chain { phase: Phase::Stale, ..s },
            Ok::<DrawAction, RenderError>(DrawAction::Recreate),
        ),
{
}

/// A flush that finds the chain stale, and a flush after a suboptimal
/// acquisition, end the cycle with `Recreate`, never with a failure. The
/// cursor moves to the acquired target either way; a stale flush leaves that
/// target without a token, a successful one leaves the new token there.
pub proof fn lemma_stale_flush_asks_recreation(s: Chain, ticket: u64)
    requires
        s.wf(),
        s.phase is Submitting,
    ensures
        s.step(DrawEvent::FlushOutOfDate).1 == Ok::<DrawAction, RenderError>(DrawAction::Recreate),
        s.step(DrawEvent::FlushOutOfDate).0.phase == Phase::Stale,
        s.step(DrawEvent::FlushOutOfDate).0.cursor == s.phase->Submitting_index,
        s.step(DrawEvent::FlushOutOfDate).0.set.targets[s.phase->Submitting_index as int].fence is None,
        s.step(DrawEvent::Flushed { ticket }).0.cursor == s.phase->Submitting_index,
        s.step(DrawEvent::Flushed { ticket }).0.set.targets[s.phase->Submitting_index as int].fence == Some(
            ticket,
        ),
        s.phase->Submitting_suboptimal ==> s.step(DrawEvent::Flushed { ticket }).1 == Ok::<
            DrawAction,
            RenderError,
        >(DrawAction::Recreate) && s.step(DrawEvent::Flushed { ticket }).0.phase == Phase::Stale,
        !s.phase->Submitting_suboptimal ==> s.step(DrawEvent::Flushed { ticket }).1 == Ok::<
            DrawAction,
            RenderError,
        >(DrawAction::Done) && s.step(DrawEvent::Flushed { ticket }).0.phase == Phase::Ready,
{
}

/// A rebuilt chain whose replay succeeded has a well-formed set of targets
/// that still caches the callback it had, every target recorded by it and
/// none holding a token.
pub proof fn lemma_rebuilt_set_in_step(reply: ChainReply, cb_builder: Option<u64>, recorded: Seq<Option<u64>>)
    requires
        chain_built(Some(reply)),
        replayed(reply, cb_builder, recorded),
    ensures
        rebuilt_set(reply, cb_builder, recorded).wf(),
        rebuilt_set(reply, cb_builder, recorded).cb_builder == cb_builder,
        rebuilt_set(reply, cb_builder, recorded).targets.len() == reply.images@.len(),
        rebuilt_set(reply, cb_builder, recorded).images() == reply.images@,
        rebuilt_set(reply, cb_builder, recorded).tokens_only_at(-1),
        cb_builder matches Some(c) ==> forall|i: int|
            0 <= i < reply.images@.len() ==> (#[trigger] rebuilt_set(
                reply,
                cb_builder,
                recorded,
            ).targets[i]).recorded_by(c),
{
    assert(rebuilt_set(reply, cb_builder, recorded).images() =~= reply.images@);
}

/// Recreation carries the cached callback over: after a successful rebuild
/// of a chain that caches a callback, the chain still caches it, every new
/// target holds a sequence that it recorded against the target's own
/// framebuffer object, the chain's extent is the surface size handed in, and
/// the format and render pass are untouched.
pub proof fn lemma_recreation_replays_callback(
    s: Chain,
    extent: Extent,
    reply: Option<ChainReply>,
    recorded: Seq<Option<u64>>,
)
    requires
        s.wf(),
        s.recreated(extent, reply, recorded).1 is Ok,
    ensures
        s.recreated(extent, reply, recorded).0.wf(),
        s.recreated(extent, reply, recorded).0.tokens_settled(),
        s.recreated(extent, reply, recorded).0.phase == Phase::Ready,
        s.recreated(extent, reply, recorded).0.info.image_extent == extent,
        s.recreated(extent, reply, recorded).0.info.image_format == s.info.image_format,
        s.recreated(extent, reply, recorded).0.render_pass == s.render_pass,
        s.recreated(extent, reply, recorded).0.set.cb_builder == s.set.cb_builder,
        s.recreated(extent, reply, recorded).0.set.targets.len() == reply->Some_0.images@.len(),
        s.set.cb_builder matches Some(c) ==> forall|i: int|
            0 <= i < reply->Some_0.images@.len() ==> (#[trigger] s.recreated(
                extent,
                reply,
                recorded,
            ).0.set.targets[i]).recorded_by(c),
{
    lemma_rebuilt_set_in_step(reply->Some_0, s.set.cb_builder, recorded);
}

/// After a successful recreation the next tick begins a cycle, and the
/// cycle joins an immediately ready future: no token survives a rebuild.
pub proof fn lemma_recreated_chain_begins_anew(
    s: Chain,
    extent: Extent,
    reply: Option<ChainReply>,
    recorded: Seq<Option<u64>>,
)
    requires
        s.wf(),
        s.recreated(extent, reply, recorded).1 is Ok,
    ensures
        s.recreated(extent, reply, recorded).0.step(DrawEvent::Tick).1 == Ok::<DrawAction, RenderError>(
            DrawAction::Acquire { previous: PreviousFuture::Now },
        ),
{
    lemma_rebuilt_set_in_step(reply->Some_0, s.set.cb_builder, recorded);
}

/// Every frame of `frames`, a pair of the index that the device acquires and
/// the ticket of the flush, run as a clean cycle from `s` on, ends with `Done`.
pub open spec fn frames_done(s: Chain, frames: Seq<(u32, u64)>) -> bool
    decreases frames.len(),
{
    if frames.len() == 0 {
        true
    } else {
        &&& cycle(s, frames[0].0, false, frames[0].1).1 == Ok::<DrawAction, RenderError>(DrawAction::Done)
        &&& frames_done(cycle(s, frames[0].0, false, frames[0].1).0, frames.drop_first())
    }
}

/// The chain after the clean cycles of `frames`, run from `s` on.
pub open spec fn after_frames(s: Chain, frames: Seq<(u32, u64)>) -> Chain
    decreases frames.len(),
{
    if frames.len() == 0 {
        s
    } else {
        after_frames(cycle(s, frames[0].0, false, frames[0].1).0, frames.drop_first())
    }
}

/// Any number of frames drawn on a ready chain whose targets were all
/// recorded, with no stale or suboptimal answer from the device, asks for no
/// recreation and leaves every recording and the cached callback as they
/// were.
pub proof fn lemma_clean_frames_keep_recordings(s: Chain, frames: Seq<(u32, u64)>)
    requires
        s.wf(),
        s.phase == Phase::Ready,
        s.set.cb_builder is Some,
        forall|k: int| 0 <= k < frames.len() ==> (#[trigger] frames[k]).0 < s.set.targets.len(),
    ensures
        frames_done(s, frames),
        after_frames(s, frames).wf(),
        after_frames(s, frames).phase == Phase::Ready,
        after_frames(s, frames).info == s.info,
        after_frames(s, frames).set.cb_builder == s.set.cb_builder,
        after_frames(s, frames).set.targets.len() == s.set.targets.len(),
        forall|i: int|
            0 <= i < s.set.targets.len() ==> (#[trigger] after_frames(s, frames).set.targets[i]).command_buffer
                == s.set.targets[i].command_buffer,
    decreases frames.len(),
{
    if frames.len() > 0 {
        let index = frames[0].0;
        let ticket = frames[0].1;
        assert(s.set.targets[index as int].recorded_by(s.set.cb_builder->Some_0));
        lemma_clean_cycle_is_done(s, index, ticket);
        let next = cycle(s, index, false, ticket).0;
        let rest = frames.drop_first();
        assert forall|k: int| 0 <= k < rest.len() implies (#[trigger] rest[k]).0 < next.set.targets.len() by {
            assert(rest[k] == frames[k + 1]);
        }
        lemma_clean_frames_keep_recordings(next, rest);
    }
}

/// A successful recording leaves every target with a sequence of the
/// callback, caches the callback, and touches neither the tokens nor the
/// cursor nor the phase.
pub proof fn lemma_recording_caches_callback(s: Chain, recorder: u64, recorded: Seq<Option<u64>>)
    requires
        s.wf(),
        s.recorded(recorder, recorded).1 is Ok,
    ensures
        s.recorded(recorder, recorded).0.wf(),
        s.recorded(recorder, recorded).0.set.cb_builder == Some(recorder),
        s.recorded(recorder, recorded).0.cursor == s.cursor,
        s.recorded(recorder, recorded).0.phase == s.phase,
        s.recorded(recorder, recorded).0.set.targets.len() == s.set.targets.len(),
        forall|i: int|
            0 <= i < s.set.targets.len() ==> {
                let t = #[trigger] s.recorded(recorder, recorded).0.set.targets[i];
                &&& t.recorded_by(recorder)
                &&& t.fence == s.set.targets[i].fence
                &&& t.image == s.set.targets[i].image
            },
{
}

/// Recording with a callback and then recreating the chain leaves every new
/// target with a sequence that this callback recorded, never an unset one,
/// and the callback still cached.
pub proof fn lemma_recreation_after_recording(
    s: Chain,
    recorder: u64,
    first: Seq<Option<u64>>,
    extent: Extent,
    reply: Option<ChainReply>,
    replay: Seq<Option<u64>>,
)
    requires
        s.wf(),
        s.recorded(recorder, first).1 is Ok,
        s.recorded(recorder, first).0.recreated(extent, reply, replay).1 is Ok,
    ensures
        s.recorded(recorder, first).0.recreated(extent, reply, replay).0.set.cb_builder == Some(recorder),
        s.recorded(recorder, first).0.recreated(extent, reply, replay).0.wf(),
        forall|i: int|
            0 <= i < reply->Some_0.images@.len() ==> (#[trigger] s.recorded(recorder, first).0.recreated(
                extent,
                reply,
                replay,
            ).0.set.targets[i]).recorded_by(recorder),
{
    lemma_recording_caches_callback(s, recorder, first);
    lemma_recreation_replays_callback(s.recorded(recorder, first).0, extent, reply, replay);
}

/// Recording with a callback and then drawing any number of clean frames
/// asks for no recreation and leaves the chain with the recordings that the
/// callback made.
pub proof fn lemma_frames_after_recording(
    s: Chain,
    recorder: u64,
    recorded: Seq<Option<u64>>,
    frames: Seq<(u32, u64)>,
)
    requires
        s.wf(),
        s.phase == Phase::Ready,
        s.recorded(recorder, recorded).1 is Ok,
        forall|k: int| 0 <= k < frames.len() ==> (#[trigger] frames[k]).0 < s.set.targets.len(),
    ensures
        frames_done(s.recorded(recorder, recorded).0, frames),
        after_frames(s.recorded(recorder, recorded).0, frames).set.cb_builder == Some(recorder),
        after_frames(s.recorded(recorder, recorded).0, frames).set.targets.len() == s.set.targets.len(),
        forall|i: int|
            0 <= i < s.set.targets.len() ==> (#[trigger] after_frames(
                s.recorded(recorder, recorded).0,
                frames,
            ).set.targets[i]).command_buffer == recorded_targets(s.set.targets, recorder, recorded)[i].command_buffer,
{
    lemma_recording_caches_callback(s, recorder, recorded);
    lemma_clean_frames_keep_recordings(s.recorded(recorder, recorded).0, frames);
}

/// A tick on a ready chain always begins with the acquisition, never with
/// a wait: the previous frame is not blocked on, its token only becomes the
/// future that the new submission is joined with. That future is the
/// immediately ready one exactly where the target at the cursor holds no
/// token.
pub proof fn lemma_tick_begins_with_acquisition(s: Chain)
    requires
        s.wf(),
        s.phase == Phase::Ready,
    ensures
        s.step(DrawEvent::Tick).1 matches Ok(DrawAction::Acquire { previous }) && (previous
            == PreviousFuture::Now <==> s.set.targets[s.cursor as int].fence is None) && (
        s.set.targets[s.cursor as int].fence matches Some(t) ==> previous == PreviousFuture::Signaled(t)),
        s.step(DrawEvent::Tick).0.set.targets[s.cursor as int].fence is None,
{
}

/// Whatever is submitted is the acquired target's own recording: the action
/// names the index that the device acquired, not the cursor, the sequence
/// that this target holds, bound to this target's framebuffer object, and
/// the previous-frame future fixed when the cycle began.
pub proof fn lemma_submission_is_for_acquired_target(s: Chain, index: u32, suboptimal: bool)
    requires
        s.wf(),
        s.phase is Acquiring,
        s.step(DrawEvent::Acquired { index, suboptimal }).1 matches Ok(DrawAction::Submit { .. }),
    ensures
        index < s.set.targets.len(),
        s.set.targets[index as int].command_buffer matches Some(cb) && cb.framebuffer
            == s.set.targets[index as int].framebuffer && s.step(DrawEvent::Acquired { index, suboptimal }).1
            == Ok::<DrawAction, RenderError>(
            DrawAction::Submit { previous: s.phase->Acquiring_previous, index, command_buffer: cb.handle },
        ),
{
}

} // verus!
