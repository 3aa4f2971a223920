use vstd::prelude::*;

use crate::frame_sync::{FlushOutcome, FrameSync, FrameToken};
use crate::surface::{recreate_config, recreated, Extent, SwapConfig};
use crate::targets::{build_render_targets, targets_for, RenderTarget, Viewport};

verus! {

/// A window lifecycle event, as delivered by the windowing system.
#[derive(Clone, Copy, Debug, PartialEq, Eq, Structural)]
pub enum Event {
    CloseRequested,
    Resized(Extent),
    /// All pending events were handled: the opportunity to render a frame.
    RedrawEventsCleared,
    Other,
}

/// Where the engine stands within one frame.
#[derive(Clone, Copy, Debug, PartialEq, Eq, Structural)]
pub enum Phase {
    /// Between frames, waiting for the next event.
    Idle,
    /// Finished work is being reclaimed before the frame starts.
    Retiring,
    /// The swap chain is being rebuilt at this size.
    Rebuilding(Extent),
    /// The next swap image is being acquired.
    Acquiring,
    /// The frame for this swap image was handed out for submission.
    Submitting(usize),
    /// The loop has ended.
    Exited,
}

/// The state of the swap chain as the rest of the system sees it.
#[derive(Clone, Copy, Debug, PartialEq, Eq, Structural)]
pub enum ChainState {
    Valid,
    Stale,
    Rebuilding,
}

/// How a swap chain rebuild ended.
#[derive(Clone, Debug)]
pub enum RebuildOutcome {
    /// The chain was rebuilt; these are the sizes of its images, in order.
    Built(Vec<Extent>),
    /// The platform refused the size, as happens while a window is dragged.
    UnsupportedDimensions,
    /// Any other failure.
    Failed,
}

/// How acquiring the next swap image ended.
#[derive(Clone, Copy, Debug, PartialEq, Eq, Structural)]
pub enum AcquireOutcome {
    Acquired { image_index: usize, suboptimal: bool },
    OutOfDate,
    Failed,
}

/// The errors that end the loop.
#[derive(Clone, Copy, Debug, PartialEq, Eq, Structural)]
pub enum FatalError {
    /// A swap chain came with no images.
    NoImages,
    /// Rebuilding the swap chain failed for a reason other than its size.
    RebuildFailed,
    /// Acquiring an image failed for a reason other than a stale surface.
    AcquireFailed,
    /// Acquisition named an image that the chain does not have.
    ImageIndexOutOfRange,
}

/// A colour with 8-bit channels; 255 stands for full intensity.
#[derive(Clone, Copy, Debug, PartialEq, Eq, Structural)]
pub struct ClearColor {
    pub r: u8,
    pub g: u8,
    pub b: u8,
    pub a: u8,
}

/// Opaque black, the colour every frame is cleared to.
pub open spec fn black() -> ClearColor {
    ClearColor { r: 0, g: 0, b: 0, a: 255 }
}

/// The work of one frame: clear the render target of `image_index` to
/// `clear` in a single render pass with no draws, wait on both `wait_on` and
/// the image's acquire signal, execute, present the image, then flush.
#[derive(Clone, Copy, Debug, PartialEq, Eq, Structural)]
pub struct Submission {
    pub image_index: usize,
    pub wait_on: FrameToken,
    pub clear: ClearColor,
}

/// What the driver of the loop is to do next. Each step that performs
/// outside work is answered by one call back into the engine: `RetireCompleted`
/// by `retired`, `Rebuild` by `rebuilt`, `Acquire` by `acquired`, `Submit` by
/// `flushed`.
#[derive(Clone, Copy, Debug, PartialEq, Eq, Structural)]
pub enum Step {
    /// Nothing to do: wait for the next event.
    Wait,
    /// Leave the loop. The token is the last live one: wait on it before
    /// releasing the GPU resources.
    Exit(FrameToken),
    /// Reclaim resources of frames the GPU already finished, without waiting.
    RetireCompleted,
    /// Rebuild the swap chain and its render targets with this configuration.
    Rebuild(SwapConfig),
    /// Acquire the next swap image.
    Acquire,
    /// Record, submit and present one frame.
    Submit(Submission),
    /// The last frame failed to flush and was dropped: report it and go on.
    FrameDropped,
    /// End the loop with this error.
    Fatal(FatalError),
}

/// The frame presentation loop: swap chain state, its render targets, the
/// viewport and the live frame token.
pub struct Engine {
    pub config: SwapConfig,
    pub targets: Vec<RenderTarget>,
    pub viewport: Viewport,
    pub sync: FrameSync,
    pub phase: Phase,
    /// The swap chain must be rebuilt before the next frame.
    pub stale: bool,
    /// A close was requested while a frame was under way.
    pub close_requested: bool,
}

/// Where a frame ends without a fatal error: out of the loop if a close is
/// pending, else back to waiting.
pub open spec fn frame_end_phase(close_requested: bool) -> Phase {
    if close_requested {
        Phase::Exited
    } else {
        Phase::Idle
    }
}

impl Engine {
    pub open spec fn wf(&self) -> bool {
        &&& self.sync.wf()
        &&& self.targets@.len() > 0
        &&& forall|i: int|
            0 <= i < self.targets@.len() ==> (#[trigger] self.targets@[i]).image_index == i
        &&& self.phase matches Phase::Submitting(i) ==> i < self.targets@.len()
        &&& self.phase is Idle ==> !self.close_requested
    }

    pub open spec fn chain_state_spec(&self) -> ChainState {
        if self.phase is Rebuilding {
            ChainState::Rebuilding
        } else if self.stale {
            ChainState::Stale
        } else {
            ChainState::Valid
        }
    }

    /// Whether the frame under way was abandoned: the step hands out no
    /// submission, ends the loop or waits for the next event, and the chain
    /// is left stale.
    pub open spec fn skipped_frame(&self, step: Step) -> bool {
        &&& step !is Submit
        &&& self.phase == frame_end_phase(self.close_requested)
        &&& step == (if self.close_requested {
            Step::Exit(self.sync.token)
        } else {
            Step::Wait
        })
        &&& self.chain_state_spec() == ChainState::Stale
    }

    /// Starts the loop over a freshly built swap chain whose images have the
    /// given sizes.
    pub fn new(config: SwapConfig, images: &Vec<Extent>) -> (r: Result<Engine, FatalError>)
        ensures
            images@.len() == 0 <==> r == Err::<Engine, FatalError>(FatalError::NoImages),
            images@.len() > 0 <==> r is Ok,
            r matches Ok(e) ==> {
                &&& e.wf()
                &&& e.config == config
                &&& e.targets@ == targets_for(images@)
                &&& e.viewport.size() == images@[0]
                &&& e.sync.token == FrameToken::AlreadyComplete
                &&& e.phase == Phase::Idle
                &&& e.chain_state_spec() == ChainState::Valid
                &&& !e.close_requested
            },
    {
        if images.len() == 0 {
            return Err(FatalError::NoImages);
        }
        let mut viewport = Viewport::empty();
        let targets = build_render_targets(images, &mut viewport);
        Ok(Engine {
            config,
            targets,
            viewport,
            sync: FrameSync::new(),
            phase: Phase::Idle,
            stale: false,
            close_requested: false,
        })
    }

    /// The state of the swap chain.
    pub fn chain_state(&self) -> (r: ChainState)
        ensures
            r == self.chain_state_spec(),
    {
        if matches!(self.phase, Phase::Rebuilding(_)) {
            ChainState::Rebuilding
        } else if self.stale {
            ChainState::Stale
        } else {
            ChainState::Valid
        }
    }

    /// Ends the current frame without a fatal error.
    fn finish_frame(&mut self, dropped: bool) -> (r: Step)
        requires
            old(self).wf(),
            old(self).phase !is Idle,
            old(self).phase !is Exited,
        ensures
            final(self).wf(),
            final(self).phase == frame_end_phase(old(self).close_requested),
            r == (if old(self).close_requested {
                Step::Exit(old(self).sync.token)
            } else if dropped {
                Step::FrameDropped
            } else {
                Step::Wait
            }),
            final(self).config == old(self).config,
            final(self).targets@ == old(self).targets@,
            final(self).viewport == old(self).viewport,
            final(self).sync == old(self).sync,
            final(self).stale == old(self).stale,
            final(self).close_requested == old(self).close_requested,
    {
        if self.close_requested {
            self.phase = Phase::Exited;
            Step::Exit(self.sync.join_target())
        } else {
            self.phase = Phase::Idle;
            if dropped {
                Step::FrameDropped
            } else {
                Step::Wait
            }
        }
    }

    /// Handles one window event.
    ///
    /// A close between frames ends the loop at once; one during a frame is
    /// remembered and ends the loop when that frame is finished. A resize
    /// only marks the chain stale, so that a burst of resizes leads to a
    /// single rebuild at the next frame. The end of an event batch starts a
    /// frame if none is under way.
    pub fn handle_event(&mut self, event: Event) -> (r: Step)
        requires
            old(self).wf(),
        ensures
            final(self).wf(),
            final(self).config == old(self).config,
            final(self).targets@ == old(self).targets@,
            final(self).viewport == old(self).viewport,
            final(self).sync == old(self).sync,
            old(self).phase is Exited ==> *final(self) == *old(self) && r == Step::Exit(
                old(self).sync.token,
            ),
            old(self).phase !is Exited ==> match event {
                Event::CloseRequested => if old(self).phase is Idle {
                    &&& final(self).phase == Phase::Exited
                    &&& r == Step::Exit(old(self).sync.token)
                    &&& final(self).stale == old(self).stale
                    &&& final(self).close_requested == old(self).close_requested
                } else {
                    &&& final(self).phase == old(self).phase
                    &&& r == Step::Wait
                    &&& final(self).stale == old(self).stale
                    &&& final(self).close_requested
                },
                Event::Resized(_) => {
                    &&& final(self).phase == old(self).phase
                    &&& r == Step::Wait
                    &&& final(self).stale
                    &&& final(self).close_requested == old(self).close_requested
                },
                Event::RedrawEventsCleared => {
                    &&& final(self).phase == (if old(self).phase is Idle {
                        Phase::Retiring
                    } else {
                        old(self).phase
                    })
                    &&& r == (if old(self).phase is Idle {
                        Step::RetireCompleted
                    } else {
                        Step::Wait
                    })
                    &&& final(self).stale == old(self).stale
                    &&& final(self).close_requested == old(self).close_requested
                },
                Event::Other => *final(self) == *old(self) && r == Step::Wait,
            },
    {
        if matches!(self.phase, Phase::Exited) {
            return Step::Exit(self.sync.join_target());
        }
        match event {
            Event::CloseRequested => {
                if matches!(self.phase, Phase::Idle) {
                    self.phase = Phase::Exited;
                    Step::Exit(self.sync.join_target())
                } else {
                    self.close_requested = true;
                    Step::Wait
                }
            },
            Event::Resized(_) => {
                self.stale = true;
                Step::Wait
            },
            Event::RedrawEventsCleared => {
                if matches!(self.phase, Phase::Idle) {
                    self.phase = Phase::Retiring;
                    Step::RetireCompleted
                } else {
                    Step::Wait
                }
            },
            Event::Other => Step::Wait,
        }
    }

    /// Goes on after finished work was reclaimed: rebuild the chain at the
    /// window's current size if it is stale, else acquire an image.
    pub fn retired(&mut self, window: Extent) -> (r: Step)
        requires
            old(self).wf(),
            old(self).phase is Retiring,
        ensures
            final(self).wf(),
            final(self).config == old(self).config,
            final(self).targets@ == old(self).targets@,
            final(self).viewport == old(self).viewport,
            final(self).sync == old(self).sync,
            final(self).close_requested == old(self).close_requested,
            old(self).stale ==> {
                &&& final(self).phase == Phase::Rebuilding(window)
                &&& !final(self).stale
                &&& r == Step::Rebuild(recreated(old(self).config, window))
            },
            !old(self).stale ==> {
                &&& final(self).phase == Phase::Acquiring
                &&& !final(self).stale
                &&& r == Step::Acquire
            },
    {
        if self.stale {
            self.stale = false;
            self.phase = Phase::Rebuilding(window);
            Step::Rebuild(recreate_config(self.config, window))
        } else {
            self.phase = Phase::Acquiring;
            Step::Acquire
        }
    }

    /// Takes the outcome of a rebuild. On success the configuration takes
    /// the new size, the render targets and the viewport are rebuilt from
    /// the new images, and the frame goes on to acquisition. A refused size
    /// skips the frame and leaves the chain stale; any other failure is
    /// fatal.
    pub fn rebuilt(&mut self, outcome: RebuildOutcome) -> (r: Step)
        requires
            old(self).wf(),
            old(self).phase is Rebuilding,
        ensures
            final(self).wf(),
            final(self).sync == old(self).sync,
            final(self).close_requested == old(self).close_requested,
            match outcome {
                RebuildOutcome::Built(images) => if images@.len() > 0 {
                    &&& final(self).config == recreated(old(self).config, old(self).phase->Rebuilding_0)
                    &&& final(self).targets@ == targets_for(images@)
                    &&& final(self).viewport.size() == images@[0]
                    &&& final(self).phase == Phase::Acquiring
                    &&& final(self).stale == old(self).stale
                    &&& r == Step::Acquire
                } else {
                    &&& final(self).phase == Phase::Exited
                    &&& r == Step::Fatal(FatalError::NoImages)
                },
                RebuildOutcome::UnsupportedDimensions => {
                    &&& final(self).config == old(self).config
                    &&& final(self).targets@ == old(self).targets@
                    &&& final(self).viewport == old(self).viewport
                    &&& final(self).skipped_frame(r)
                },
                RebuildOutcome::Failed => {
                    &&& final(self).phase == Phase::Exited
                    &&& r == Step::Fatal(FatalError::RebuildFailed)
                },
            },
    {
        let size = match self.phase {
            Phase::Rebuilding(size) => size,
            _ => self.config.extent,
        };
        match outcome {
            RebuildOutcome::Built(images) => {
                if images.len() == 0 {
                    self.phase = Phase::Exited;
                    return Step::Fatal(FatalError::NoImages);
                }
                self.targets = build_render_targets(&images, &mut self.viewport);
                self.config = recreate_config(self.config, size);
                self.phase = Phase::Acquiring;
                Step::Acquire
            },
            RebuildOutcome::UnsupportedDimensions => {
                self.stale = true;
                self.finish_frame(false)
            },
            RebuildOutcome::Failed => {
                self.phase = Phase::Exited;
                Step::Fatal(FatalError::RebuildFailed)
            },
        }
    }

    /// Takes the outcome of acquiring an image. An acquired image is handed
    /// out for submission, joined with the live token; a suboptimal one also
    /// marks the chain for a rebuild at the next frame. An out-of-date
    /// surface skips the frame and leaves the chain stale; any other failure
    /// is fatal.
    pub fn acquired(&mut self, outcome: AcquireOutcome) -> (r: Step)
        requires
            old(self).wf(),
            old(self).phase is Acquiring,
        ensures
            final(self).wf(),
            final(self).config == old(self).config,
            final(self).targets@ == old(self).targets@,
            final(self).viewport == old(self).viewport,
            final(self).sync == old(self).sync,
            final(self).close_requested == old(self).close_requested,
            match outcome {
                AcquireOutcome::Acquired { image_index, suboptimal } => if image_index
                    < old(self).targets@.len() {
                    &&& final(self).phase == Phase::Submitting(image_index)
                    &&& final(self).stale == (old(self).stale || suboptimal)
                    &&& r == Step::Submit(
                        Submission { image_index, wait_on: old(self).sync.token, clear: black() },
                    )
                    &&& old(self).sync.joinable()
                } else {
                    &&& final(self).phase == Phase::Exited
                    &&& r == Step::Fatal(FatalError::ImageIndexOutOfRange)
                },
                AcquireOutcome::OutOfDate => final(self).skipped_frame(r),
                AcquireOutcome::Failed => {
                    &&& final(self).phase == Phase::Exited
                    &&& r == Step::Fatal(FatalError::AcquireFailed)
                },
            },
    {
        match outcome {
            AcquireOutcome::Acquired { image_index, suboptimal } => {
                if image_index >= self.targets.len() {
                    self.phase = Phase::Exited;
                    return Step::Fatal(FatalError::ImageIndexOutOfRange);
                }
                if suboptimal {
                    self.stale = true;
                }
                self.phase = Phase::Submitting(image_index);
                let wait_on = self.sync.join_target();
                Step::Submit(Submission { image_index, wait_on, clear: ClearColor { r: 0, g: 0, b: 0, a: 255 } })
            },
            AcquireOutcome::OutOfDate => {
                self.stale = true;
                self.finish_frame(false)
            },
            AcquireOutcome::Failed => {
                self.phase = Phase::Exited;
                Step::Fatal(FatalError::AcquireFailed)
            },
        }
    }

    /// Takes the outcome of flushing the submitted frame and replaces the
    /// live token with the new one (a completed token if the flush failed).
    /// An out-of-date surface marks the chain stale; any other failure drops
    /// the frame and the loop goes on. A close requested during the frame
    /// ends the loop now, with the new token to wait on.
    pub fn flushed(&mut self, outcome: FlushOutcome) -> (r: Step)
        requires
            old(self).wf(),
            old(self).phase is Submitting,
        ensures
            final(self).wf(),
            final(self).config == old(self).config,
            final(self).targets@ == old(self).targets@,
            final(self).viewport == old(self).viewport,
            final(self).close_requested == old(self).close_requested,
            final(self).phase == frame_end_phase(old(self).close_requested),
            final(self).stale == (old(self).stale || outcome == FlushOutcome::OutOfDate),
            final(self).sync.token == (if outcome == FlushOutcome::Flushed {
                FrameToken::Pending
            } else {
                FrameToken::AlreadyComplete
            }),
            old(self).sync.token is Pending ==> final(self).sync.discarded@.contains(
                old(self).sync.live(),
            ),
            r == (if old(self).close_requested {
                Step::Exit(final(self).sync.token)
            } else if outcome == FlushOutcome::Failed {
                Step::FrameDropped
            } else {
                Step::Wait
            }),
    {
        let stale = self.sync.complete_submission(outcome);
        if stale {
            self.stale = true;
        }
        self.finish_frame(outcome == FlushOutcome::Failed)
    }
}

} // verus!
