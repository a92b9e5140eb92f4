//! Render targets and the set of them that a chain owns.

use vstd::prelude::*;
use crate::error::RenderError;
use crate::fence::Fence;
use crate::fence::ticket_of;

verus! {

/// A finalized, resubmittable command sequence.
#[derive(Debug, Clone, Copy, PartialEq, Eq, Structural)]
pub struct CommandBuffer {
    /// Handle of the sequence on the device.
    pub handle: u64,
    /// The framebuffer object that the sequence was recorded against.
    pub framebuffer: u64,
    /// The recording callback that produced the sequence.
    pub recorder: u64,
}

/// What a render target is, with its token reduced to the ticket.
pub struct Target {
    pub image: u64,
    pub framebuffer: u64,
    pub command_buffer: Option<CommandBuffer>,
    pub fence: Option<u64>,
}

impl Target {
    /// A recorded sequence belongs to the target's own framebuffer object.
    pub open spec fn wf(self) -> bool {
        self.command_buffer matches Some(cb) ==> cb.framebuffer == self.framebuffer
    }

    /// The target holds a sequence that `recorder` produced.
    pub open spec fn recorded_by(self, recorder: u64) -> bool {
        self.command_buffer matches Some(cb) && cb.recorder == recorder
    }
}

/// The render destination of one presentable image.
#[derive(Debug)]
pub struct Framebuffer {
    pub image: u64,
    pub framebuffer: u64,
    pub command_buffer: Option<CommandBuffer>,
    fence: Option<Fence>,
}

impl Framebuffer {
    pub closed spec fn view(&self) -> Target {
        Target {
            image: self.image,
            framebuffer: self.framebuffer,
            command_buffer: self.command_buffer,
            fence: ticket_of(self.fence),
        }
    }

    /// Builds the target of `image` from the device's answer to the request
    /// for a framebuffer object over the image's default view: `built` is the
    /// object's handle, or `None` where the device rejected the view or the
    /// object.
    pub fn new(image: u64, built: Option<u64>) -> (r: Result<Framebuffer, RenderError>)
        ensures
            built is None ==> r == Err::<Framebuffer, RenderError>(RenderError::Setup),
            built matches Some(fb) ==> r is Ok && r->Ok_0@ == (Target {
                image,
                framebuffer: fb,
                command_buffer: None,
                fence: None,
            }),
    {
        match built {
            None => Err(RenderError::Setup),
            Some(fb) => Ok(Framebuffer { image, framebuffer: fb, command_buffer: None, fence: None }),
        }
    }

    /// Takes in the outcome of recording with the callback `recorder` against
    /// this target's framebuffer object: `recorded` is the handle of the
    /// finalized sequence, or `None` where creating the recording context,
    /// the callback or the finalization failed. A new sequence replaces the
    /// previous one; a failure leaves the target as it was.
    pub fn build_command_buffer(&mut self, recorder: u64, recorded: Option<u64>) -> (r: Result<(), RenderError>)
        ensures
            recorded is None ==> r == Err::<(), RenderError>(RenderError::Recording) && final(self)@ == old(self)@,
            recorded matches Some(h) ==> r is Ok && final(self)@ == (Target {
                command_buffer: Some(CommandBuffer { handle: h, framebuffer: old(self)@.framebuffer, recorder }),
                ..old(self)@
            }),
    {
        match recorded {
            None => Err(RenderError::Recording),
            Some(h) => {
                self.command_buffer = Some(CommandBuffer { handle: h, framebuffer: self.framebuffer, recorder });
                Ok(())
            },
        }
    }

    /// The recorded sequence that the target holds, if any.
    pub fn command_buffer(&self) -> (r: Option<CommandBuffer>)
        ensures
            r == self@.command_buffer,
    {
        self.command_buffer
    }

    /// Whether a recorded sequence, if there is one, is bound to the target's
    /// own framebuffer object.
    pub fn is_well_formed(&self) -> (r: bool)
        ensures
            r == self@.wf(),
    {
        match self.command_buffer {
            Some(cb) => cb.framebuffer == self.framebuffer,
            None => true,
        }
    }

    /// Whether the target holds a sequence that `recorder` produced.
    pub fn is_recorded_by(&self, recorder: u64) -> (r: bool)
        ensures
            r == self@.recorded_by(recorder),
    {
        match self.command_buffer {
            Some(cb) => cb.recorder == recorder,
            None => false,
        }
    }

    /// Whether a completion token is outstanding on this target.
    pub fn has_fence(&self) -> (r: bool)
        ensures
            r == self@.fence is Some,
    {
        self.fence.is_some()
    }

    /// The ticket of the outstanding token, if there is one.
    pub fn fence_ticket(&self) -> (r: Option<u64>)
        ensures
            r == self@.fence,
    {
        match &self.fence {
            Some(fence) => Some(fence.ticket()),
            None => None,
        }
    }

    /// Takes the outstanding token, if any, out of the target.
    pub(crate) fn take_fence(&mut self) -> (r: Option<Fence>)
        ensures
            ticket_of(r) == old(self)@.fence,
            final(self)@ == (Target { fence: None, ..old(self)@ }),
    {
        self.fence.take()
    }

    /// Stores `fence` on the target in place of whatever it held.
    pub(crate) fn set_fence(&mut self, fence: Option<Fence>)
        ensures
            final(self)@ == (Target { fence: ticket_of(fence), ..old(self)@ }),
    {
        self.fence = fence;
    }
}

/// What a set of render targets is: the targets in the order of the device's
/// image indices, and the recording callback that is cached for replay.
pub struct TargetSet {
    pub targets: Seq<Target>,
    pub cb_builder: Option<u64>,
}

impl TargetSet {
    /// Every target is well formed, and where a callback is cached, every
    /// target holds a sequence that this callback produced.
    pub open spec fn wf(self) -> bool {
        &&& forall|i: int| 0 <= i < self.targets.len() ==> (#[trigger] self.targets[i]).wf()
        &&& self.cb_builder matches Some(c) ==> forall|i: int|
            0 <= i < self.targets.len() ==> (#[trigger] self.targets[i]).recorded_by(c)
    }

    /// The images of the targets, in order.
    pub open spec fn images(self) -> Seq<u64> {
        Seq::new(self.targets.len(), |i: int| self.targets[i].image)
    }

    /// No target holds a completion token, except possibly the one at `slot`.
    pub open spec fn tokens_only_at(self, slot: int) -> bool {
        forall|i: int| 0 <= i < self.targets.len() && i != slot ==> (#[trigger] self.targets[i]).fence is None
    }
}

/// The device answered every one of `n` requests with a handle.
pub open spec fn all_delivered(replies: Seq<Option<u64>>, n: int) -> bool {
    &&& replies.len() == n
    &&& forall|i: int| 0 <= i < n ==> (#[trigger] replies[i]) is Some
}

/// The targets of a newly built chain: target `i` belongs to image `i` and to
/// the framebuffer object built for it, with nothing recorded and no token.
pub open spec fn fresh_targets(images: Seq<u64>, built: Seq<Option<u64>>) -> Seq<Target> {
    Seq::new(
        images.len(),
        |i: int|
            Target { image: images[i], framebuffer: built[i]->Some_0, command_buffer: None, fence: None },
    )
}

/// The targets after `recorder` has recorded each of them anew: target `i`
/// holds the sequence `recorded[i]`, bound to its own framebuffer object.
pub open spec fn recorded_targets(targets: Seq<Target>, recorder: u64, recorded: Seq<Option<u64>>) -> Seq<
    Target,
> {
    Seq::new(
        targets.len(),
        |i: int|
            Target {
                command_buffer: Some(
                    CommandBuffer {
                        handle: recorded[i]->Some_0,
                        framebuffer: targets[i].framebuffer,
                        recorder,
                    },
                ),
                ..targets[i]
            },
    )
}

/// Whether every reply of `replies` is a handle.
fn delivered(replies: &Vec<Option<u64>>, n: usize) -> (r: bool)
    ensures
        r == all_delivered(replies@, n as int),
{
    if replies.len() != n {
        return false;
    }
    let mut i: usize = 0;
    while i < n
        invariant
            replies@.len() == n,
            i <= n,
            forall|j: int| 0 <= j < i ==> (#[trigger] replies@[j]) is Some,
        decreases n - i,
    {
        if replies[i].is_none() {
            return false;
        }
        i += 1;
    }
    true
}

/// The render targets of the current chain, with the cached recording callback.
#[derive(Debug)]
pub struct Framebuffers {
    list: Vec<Framebuffer>,
    cb_builder: Option<u64>,
}

impl Framebuffers {
    pub closed spec fn view(&self) -> TargetSet {
        TargetSet {
            targets: Seq::new(self.list@.len(), |i: int| self.list@[i]@),
            cb_builder: self.cb_builder,
        }
    }

    /// Builds one target per image, in image order, from the device's answers
    /// to the requests for their framebuffer objects. `built[i]` answers for
    /// `images[i]`; after the first rejection the device is asked no further,
    /// so `built` may be shorter than `images`. The set stands only if every
    /// image got its object.
    pub fn new(images: &Vec<u64>, built: &Vec<Option<u64>>) -> (r: Result<Framebuffers, RenderError>)
        ensures
            all_delivered(built@, images@.len() as int) ==> r is Ok && r->Ok_0@ == (TargetSet {
                targets: fresh_targets(images@, built@),
                cb_builder: None,
            }),
            !all_delivered(built@, images@.len() as int) ==> r == Err::<Framebuffers, RenderError>(
                RenderError::Setup,
            ),
    {
        if !delivered(built, images.len()) {
            return Err(RenderError::Setup);
        }
        let mut list: Vec<Framebuffer> = Vec::new();
        let mut i: usize = 0;
        while i < images.len()
            invariant
                all_delivered(built@, images@.len() as int),
                i <= images@.len(),
                list@.len() == i,
                forall|j: int| 0 <= j < i ==> (#[trigger] list@[j])@ == fresh_targets(images@, built@)[j],
            decreases images@.len() - i,
        {
            match Framebuffer::new(images[i], built[i]) {
                Ok(target) => {
                    list.push(target);
                },
                Err(e) => {
                    return Err(e);
                },
            }
            i += 1;
        }
        let set = Framebuffers { list, cb_builder: None };
        assert(set@.targets =~= fresh_targets(images@, built@));
        Ok(set)
    }

    /// Takes in the outcome of recording every target with the callback
    /// `recorder`, and caches the callback for replay. `recorded[i]` is the
    /// sequence recorded against target `i`; recording stops at the first
    /// failure, so `recorded` may be shorter than the set. Unless every
    /// target was recorded, the set stays as it was.
    pub fn build_command_buffer(&mut self, recorder: u64, recorded: &Vec<Option<u64>>) -> (r: Result<
        (),
        RenderError,
    >)
        ensures
            all_delivered(recorded@, old(self)@.targets.len() as int) ==> r is Ok && final(self)@ == (TargetSet {
                targets: recorded_targets(old(self)@.targets, recorder, recorded@),
                cb_builder: Some(recorder),
            }),
            !all_delivered(recorded@, old(self)@.targets.len() as int) ==> r == Err::<(), RenderError>(
                RenderError::Recording,
            ) && final(self)@ == old(self)@,
    {
        if !delivered(recorded, self.list.len()) {
            return Err(RenderError::Recording);
        }
        let n: usize = self.list.len();
        let mut i: usize = 0;
        while i < n
            invariant
                all_delivered(recorded@, n as int),
                i <= n,
                self.list@.len() == n,
                old(self).list@.len() == n,
                self.cb_builder == old(self).cb_builder,
                forall|j: int| 0 <= j < i ==> (#[trigger] self.list@[j])@ == recorded_targets(
                    old(self)@.targets,
                    recorder,
                    recorded@,
                )[j],
                forall|j: int| i <= j < n ==> (#[trigger] self.list@[j]) == old(self).list@[j],
            decreases n - i,
        {
            let _ = self.list[i].build_command_buffer(recorder, recorded[i]);
            i += 1;
        }
        self.cb_builder = Some(recorder);
        assert(self@.targets =~= recorded_targets(old(self)@.targets, recorder, recorded@));
        Ok(())
    }

    /// Replays the cached callback after the targets were replaced: with no
    /// callback cached nothing happens, whatever `recorded` holds; otherwise
    /// as [`Framebuffers::build_command_buffer`] with the cached callback.
    pub fn update_command_buffer(&mut self, recorded: &Vec<Option<u64>>) -> (r: Result<(), RenderError>)
        ensures
            old(self)@.cb_builder is None ==> r is Ok && final(self)@ == old(self)@,
            old(self)@.cb_builder matches Some(c) ==> {
                &&& all_delivered(recorded@, old(self)@.targets.len() as int) ==> r is Ok && final(self)@
                    == (TargetSet {
                    targets: recorded_targets(old(self)@.targets, c, recorded@),
                    cb_builder: Some(c),
                })
                &&& !all_delivered(recorded@, old(self)@.targets.len() as int) ==> r == Err::<(), RenderError>(
                    RenderError::Recording,
                ) && final(self)@ == old(self)@
            },
    {
        match self.cb_builder {
            None => Ok(()),
            Some(c) => self.build_command_buffer(c, recorded),
        }
    }

    /// Whether the set is well formed: every target is, and every target is
    /// recorded by the cached callback where there is one.
    pub fn is_well_formed(&self) -> (r: bool)
        ensures
            r == self@.wf(),
    {
        let n: usize = self.list.len();
        let mut i: usize = 0;
        while i < n
            invariant
                self.list@.len() == n,
                i <= n,
                forall|j: int| 0 <= j < i ==> (#[trigger] self@.targets[j]).wf(),
                self@.cb_builder matches Some(c) ==> forall|j: int|
                    0 <= j < i ==> (#[trigger] self@.targets[j]).recorded_by(c),
            decreases n - i,
        {
            if !self.list[i].is_well_formed() {
                assert(!self@.targets[i as int].wf());
                return false;
            }
            match self.cb_builder {
                Some(c) => {
                    if !self.list[i].is_recorded_by(c) {
                        assert(!self@.targets[i as int].recorded_by(c));
                        return false;
                    }
                },
                None => {},
            }
            i += 1;
        }
        true
    }

    /// The number of targets, which is the chain's image count.
    pub fn len(&self) -> (r: usize)
        ensures
            r == self@.targets.len(),
    {
        self.list.len()
    }

    /// The target of the image with the device's index `index`.
    pub fn index(&self, index: usize) -> (r: &Framebuffer)
        requires
            index < self@.targets.len(),
        ensures
            r@ == self@.targets[index as int],
    {
        &self.list[index]
    }

    /// The cached recording callback, if one was supplied.
    pub fn cb_builder(&self) -> (r: Option<u64>)
        ensures
            r == self@.cb_builder,
    {
        self.cb_builder
    }

    /// Caches `cb_builder` without recording anything.
    pub(crate) fn set_cb_builder(&mut self, cb_builder: Option<u64>)
        ensures
            final(self)@ == (TargetSet { cb_builder, ..old(self)@ }),
    {
        self.cb_builder = cb_builder;
    }

    /// Takes the token of target `index`, if it holds one.
    pub(crate) fn take_fence(&mut self, index: usize) -> (r: Option<Fence>)
        requires
            index < old(self)@.targets.len(),
        ensures
            ticket_of(r) == old(self)@.targets[index as int].fence,
            final(self)@ == (TargetSet {
                targets: old(self)@.targets.update(
                    index as int,
                    Target { fence: None, ..old(self)@.targets[index as int] },
                ),
                ..old(self)@
            }),
    {
        let r = self.list[index].take_fence();
        assert(self@.targets =~= old(self)@.targets.update(
            index as int,
            Target { fence: None, ..old(self)@.targets[index as int] },
        ));
        r
    }

    /// Stores `fence` on target `index`.
    pub(crate) fn set_fence(&mut self, index: usize, fence: Option<Fence>)
        requires
            index < old(self)@.targets.len(),
        ensures
            final(self)@ == (TargetSet {
                targets: old(self)@.targets.update(
                    index as int,
                    Target { fence: ticket_of(fence), ..old(self)@.targets[index as int] },
                ),
                ..old(self)@
            }),
    {
        self.list[index].set_fence(fence);
        assert(self@.targets =~= old(self)@.targets.update(
            index as int,
            Target { fence: ticket_of(fence), ..old(self)@.targets[index as int] },
        ));
    }
}

/// No handle occurs twice in `handles`.
pub open spec fn distinct(handles: Seq<u64>) -> bool {
    forall|i: int, j: int| 0 <= i < j < handles.len() ==> handles[i] != handles[j]
}

/// A chain of N distinct images gets exactly N targets, target `i` for image
/// `i`, so no two targets share an image.
pub proof fn lemma_fresh_targets_distinct(images: Seq<u64>, built: Seq<Option<u64>>)
    requires
        distinct(images),
    ensures
        fresh_targets(images, built).len() == images.len(),
        (TargetSet { targets: fresh_targets(images, built), cb_builder: None }).images() == images,
        forall|i: int, j: int|
            0 <= i < j < images.len() ==> fresh_targets(images, built)[i].image != fresh_targets(
                images,
                built,
            )[j].image,
        (TargetSet { targets: fresh_targets(images, built), cb_builder: None }).wf(),
        (TargetSet { targets: fresh_targets(images, built), cb_builder: None }).tokens_only_at(-1),
{
    let set = TargetSet { targets: fresh_targets(images, built), cb_builder: None };
    assert(set.images() =~= images);
}

/// After every target was recorded by one callback, each holds a sequence of
/// that callback bound to its own framebuffer object, and nothing else about
/// the targets has changed.
pub proof fn lemma_recorded_targets_in_step(targets: Seq<Target>, recorder: u64, recorded: Seq<Option<u64>>)
    ensures
        recorded_targets(targets, recorder, recorded).len() == targets.len(),
        (TargetSet { targets: recorded_targets(targets, recorder, recorded), cb_builder: Some(recorder) }).wf(),
        forall|i: int|
            0 <= i < targets.len() ==> {
                let t = #[trigger] recorded_targets(targets, recorder, recorded)[i];
                &&& t.recorded_by(recorder)
                &&& t.image == targets[i].image
                &&& t.framebuffer == targets[i].framebuffer
                &&& t.fence == targets[i].fence
            },
{
}

/// Recording the same outcome twice gives the same targets as recording it
/// once: replay is idempotent.
pub proof fn lemma_recording_idempotent(targets: Seq<Target>, recorder: u64, recorded: Seq<Option<u64>>)
    ensures
        recorded_targets(recorded_targets(targets, recorder, recorded), recorder, recorded)
            == recorded_targets(targets, recorder, recorded),
{
    assert(recorded_targets(recorded_targets(targets, recorder, recorded), recorder, recorded)
        =~= recorded_targets(targets, recorder, recorded));
}

} // verus!
