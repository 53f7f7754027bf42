use vstd::prelude::*;

verus! {

/// How many frames the CPU may record ahead of the GPU.
pub const MAX_FRAMES_IN_FLIGHT: usize = 2;

/// Where the renderer stands with the swapchain image of the current frame.
#[derive(Copy, Clone, Debug, PartialEq, Eq)]
pub enum ImageIndex {
    /// Waiting to acquire an image.
    Acquiring,
    /// Recording commands for the acquired image.
    Recording(u32),
    /// The image's commands are submitted; it waits to be presented.
    Presenting(u32),
}

/// What acquiring the next swapchain image gave.
#[derive(Copy, Clone, Debug, PartialEq, Eq)]
pub enum AcquireOutcome {
    /// An image was acquired; `suboptimal` when the swapchain no longer
    /// matches the surface exactly.
    Acquired { image_index: u32, suboptimal: bool },
    /// The swapchain no longer matches the surface and must be recreated first.
    OutOfDate,
}

/// What presenting an image gave.
#[derive(Copy, Clone, Debug, PartialEq, Eq)]
pub enum PresentOutcome {
    Presented,
    Suboptimal,
    OutOfDate,
}

/// The renderer's frame pacing: which image it works on, which of its
/// frames in flight is current, and whether the swapchain must be recreated.
#[derive(Copy, Clone, Debug, PartialEq, Eq)]
pub struct FrameState {
    pub image_index: ImageIndex,
    pub recreate_swapchain: bool,
    pub window_size: (u32, u32),
    pub current_frame: usize,
}

/// The state after acquisition gave `outcome`; unchanged when the image
/// must be acquired again.
pub open spec fn after_acquire(s: FrameState, outcome: AcquireOutcome, framebuffer_resized: bool) -> FrameState {
    match outcome {
        AcquireOutcome::Acquired { image_index, suboptimal } => FrameState {
            image_index: ImageIndex::Recording(image_index),
            recreate_swapchain: suboptimal || framebuffer_resized,
            ..s
        },
        AcquireOutcome::OutOfDate => s,
    }
}

/// The state once the recorded image is submitted: it waits for
/// presentation, and the next frame in flight becomes current.
pub open spec fn after_draw(s: FrameState) -> FrameState {
    FrameState {
        image_index: ImageIndex::Presenting(s.image_index->Recording_0),
        current_frame: ((s.current_frame + 1) % (MAX_FRAMES_IN_FLIGHT as int)) as usize,
        ..s
    }
}

/// The state once presentation starts: waiting for the next image.
pub open spec fn after_present(s: FrameState) -> FrameState {
    FrameState { image_index: ImageIndex::Acquiring, ..s }
}

/// The state once presentation gave `outcome`.
pub open spec fn after_presented(s: FrameState, outcome: PresentOutcome) -> FrameState {
    FrameState {
        recreate_swapchain: s.recreate_swapchain || outcome != PresentOutcome::Presented,
        ..s
    }
}

/// One frame, from acquiring an image to presenting it, brings the renderer
/// back to waiting for an image, with the next frame in flight current and
/// the frames in flight taken in turn; the swapchain is recreated after it
/// exactly when acquisition or presentation asked for that.
pub proof fn lemma_frame_cycle(
    s: FrameState,
    image_index: u32,
    suboptimal: bool,
    framebuffer_resized: bool,
    presented: PresentOutcome,
)
    requires
        s.wf(),
        s.image_index == ImageIndex::Acquiring,
    ensures
        ({
            let acquired = after_acquire(
                s,
                AcquireOutcome::Acquired { image_index, suboptimal },
                framebuffer_resized,
            );
            let done = after_presented(after_present(after_draw(acquired)), presented);
            &&& done.wf()
            &&& done.image_index == ImageIndex::Acquiring
            &&& done.current_frame != s.current_frame
            &&& done.window_size == s.window_size
            &&& done.recreate_swapchain == (suboptimal || framebuffer_resized || presented
                != PresentOutcome::Presented)
            &&& after_draw(acquired).image_index == ImageIndex::Presenting(image_index)
        }),
{
}

/// An acquisition that found the swapchain out of date changes nothing but
/// clears the resize; the image acquired on the next attempt then asks for
/// recreation only when it is suboptimal itself.
pub proof fn lemma_acquire_retry(s: FrameState, image_index: u32, suboptimal: bool, framebuffer_resized: bool)
    requires
        s.image_index == ImageIndex::Acquiring,
    ensures
        after_acquire(s, AcquireOutcome::OutOfDate, framebuffer_resized) == s,
        after_acquire(s, AcquireOutcome::Acquired { image_index, suboptimal }, false).recreate_swapchain
            == suboptimal,
{
}

impl FrameState {
    /// Well formed: the current frame is one of the frames in flight.
    pub open spec fn wf(self) -> bool {
        self.current_frame < MAX_FRAMES_IN_FLIGHT
    }

    /// Waiting for the first image, with the window's initial size.
    pub fn new(width: u32, height: u32) -> (r: Self)
        ensures
            r.wf(),
            r == (FrameState {
                image_index: ImageIndex::Acquiring,
                recreate_swapchain: false,
                window_size: (width, height),
                current_frame: 0,
            }),
    {
        FrameState {
            image_index: ImageIndex::Acquiring,
            recreate_swapchain: false,
            window_size: (width, height),
            current_frame: 0,
        }
    }

    /// Takes the window's new size in pixels, unless either side is one pixel or less.
    pub fn update_window_size(&mut self, size: (u32, u32))
        ensures
            *final(self) == (FrameState {
                window_size: if size.0 > 1 && size.1 > 1 {
                    size
                } else {
                    old(self).window_size
                },
                ..*old(self)
            }),
    {
        if size.0 > 1 && size.1 > 1 {
            self.window_size = size;
        }
    }

    /// Records what acquiring an image gave, with `framebuffer_resized`
    /// telling whether the window was resized since the last frame. Returns
    /// whether the swapchain must be recreated and the image acquired again;
    /// the recreated swapchain already has the new size, so the resize is
    /// then cleared for the next attempt. Otherwise the image is now being
    /// recorded, and the swapchain is to be recreated after presentation when
    /// it was suboptimal or the framebuffer was resized.
    pub fn acquired(&mut self, outcome: AcquireOutcome, framebuffer_resized: &mut bool) -> (retry: bool)
        requires
            old(self).image_index == ImageIndex::Acquiring,
        ensures
            retry == (outcome == AcquireOutcome::OutOfDate),
            *final(self) == after_acquire(*old(self), outcome, *old(framebuffer_resized)),
            *final(framebuffer_resized) == (*old(framebuffer_resized) && !retry),
    {
        match outcome {
            AcquireOutcome::Acquired { image_index, suboptimal } => {
                self.image_index = ImageIndex::Recording(image_index);
                self.recreate_swapchain = suboptimal || *framebuffer_resized;
                false
            },
            AcquireOutcome::OutOfDate => {
                *framebuffer_resized = false;
                true
            },
        }
    }

    /// Starts drawing the acquired image: returns the image and the frame in
    /// flight to record with, marks the image as waiting for presentation and
    /// moves on to the next frame in flight.
    pub fn draw(&mut self) -> (r: (u32, usize))
        requires
            old(self).wf(),
            old(self).image_index is Recording,
        ensures
            final(self).wf(),
            r == (old(self).image_index->Recording_0, old(self).current_frame),
            *final(self) == after_draw(*old(self)),
    {
        let image_index = match self.image_index {
            ImageIndex::Recording(idx) => idx,
            _ => 0,
        };
        let frame = self.current_frame;
        self.image_index = ImageIndex::Presenting(image_index);
        self.current_frame = (self.current_frame + 1) % MAX_FRAMES_IN_FLIGHT;
        (image_index, frame)
    }

    /// Starts presenting the drawn image: returns it and goes back to waiting
    /// for the next image.
    pub fn present(&mut self) -> (r: u32)
        requires
            old(self).image_index is Presenting,
        ensures
            r == old(self).image_index->Presenting_0,
            *final(self) == after_present(*old(self)),
    {
        let image_index = match self.image_index {
            ImageIndex::Presenting(idx) => idx,
            _ => 0,
        };
        self.image_index = ImageIndex::Acquiring;
        image_index
    }

    /// Records what presenting gave. Returns whether the swapchain is to be
    /// recreated now: when presentation found it suboptimal or out of date,
    /// or acquisition had already asked for it.
    pub fn presented(&mut self, outcome: PresentOutcome) -> (recreate: bool)
        ensures
            *final(self) == after_presented(*old(self), outcome),
            recreate == final(self).recreate_swapchain,
    {
        match outcome {
            PresentOutcome::Presented => (),
            PresentOutcome::Suboptimal | PresentOutcome::OutOfDate => {
                self.recreate_swapchain = true;
            },
        }
        self.recreate_swapchain
    }
}

} // verus!
