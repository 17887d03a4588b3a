use vstd::prelude::*;

verus! {

/// What a resize asks of the device side.
#[derive(Clone, Copy, Debug, PartialEq, Eq, Structural)]
pub enum ResizeAction {
    /// Same size as before: nothing to do.
    Unchanged,
    /// A dimension is zero: the surface cannot be presented; rendering pauses.
    Suspend,
    /// Rebuild the swap configuration and re-upload the camera uniform.
    Reconfigure,
}

/// What a frame does.
#[derive(Clone, Copy, Debug, PartialEq, Eq, Structural)]
pub enum FrameAction {
    /// The surface has a zero dimension: return at once.
    Skip,
    /// Acquire a drawable, record one pass, submit and present.
    Draw,
}

/// What to do when acquiring the next drawable fails.
#[derive(Clone, Copy, Debug, PartialEq, Eq, Structural)]
pub enum AcquireAction {
    /// Reconfigure the surface and try once more.
    RetryAfterReconfigure,
    /// A second consecutive failure: the surface cannot be recovered.
    Fatal,
}

/// Render surface state: the drawable size and whether an acquisition has
/// already been retried since the last success.
#[derive(Clone, Copy, Debug, PartialEq, Eq, Structural)]
pub struct SurfaceTracker {
    pub width: u32,
    pub height: u32,
    pub retried: bool,
}

impl SurfaceTracker {
    /// Both dimensions are non-zero.
    pub open spec fn presentable(self) -> bool {
        self.width > 0 && self.height > 0
    }

    pub open spec fn resize_action(self, width: u32, height: u32) -> ResizeAction {
        if self.width == width && self.height == height {
            ResizeAction::Unchanged
        } else if width == 0 || height == 0 {
            ResizeAction::Suspend
        } else {
            ResizeAction::Reconfigure
        }
    }

    pub open spec fn resized(self, width: u32, height: u32) -> Self {
        SurfaceTracker { width, height, ..self }
    }

    pub open spec fn frame_action(self) -> FrameAction {
        if self.presentable() {
            FrameAction::Draw
        } else {
            FrameAction::Skip
        }
    }

    /// A surface configured for `width` by `height`.
    pub fn new(width: u32, height: u32) -> (r: Self)
        ensures
            r.width == width,
            r.height == height,
            !r.retried,
    {
        SurfaceTracker { width, height, retried: false }
    }

    pub fn is_presentable(&self) -> (r: bool)
        ensures
            r == self.presentable(),
    {
        self.width > 0 && self.height > 0
    }

    /// Records a new drawable size and says what the device side must do.
    pub fn resize(&mut self, width: u32, height: u32) -> (r: ResizeAction)
        ensures
            r == old(self).resize_action(width, height),
            *final(self) == old(self).resized(width, height),
    {
        if self.width == width && self.height == height {
            return ResizeAction::Unchanged;
        }
        self.width = width;
        self.height = height;
        if width > 0 && height > 0 {
            ResizeAction::Reconfigure
        } else {
            ResizeAction::Suspend
        }
    }

    /// Whether a frame is drawn or skipped.
    pub fn begin_frame(&self) -> (r: FrameAction)
        ensures
            r == self.frame_action(),
    {
        if self.width > 0 && self.height > 0 {
            FrameAction::Draw
        } else {
            FrameAction::Skip
        }
    }

    /// Records a failed acquisition: the first is retried, a second in a row is fatal.
    pub fn acquire_failed(&mut self) -> (r: AcquireAction)
        ensures
            r == (if old(self).retried { AcquireAction::Fatal } else { AcquireAction::RetryAfterReconfigure }),
            final(self).retried,
            final(self).width == old(self).width,
            final(self).height == old(self).height,
    {
        if self.retried {
            AcquireAction::Fatal
        } else {
            self.retried = true;
            AcquireAction::RetryAfterReconfigure
        }
    }

    /// Records a successful acquisition, which ends a run of failures.
    pub fn acquire_succeeded(&mut self)
        ensures
            *final(self) == (SurfaceTracker { retried: false, ..*old(self) }),
    {
        self.retried = false;
    }
}

/// Resizing to the same dimensions twice in a row asks for no second
/// reconfiguration.
pub proof fn lemma_repeated_resize_unchanged(s: SurfaceTracker, width: u32, height: u32)
    ensures
        s.resized(width, height).resize_action(width, height) == ResizeAction::Unchanged,
        s.resized(width, height).resized(width, height) == s.resized(width, height),
{
}

/// A resize with a zero dimension suspends rendering: every later frame is
/// skipped while further resizes keep a zero dimension, and the first resize to
/// non-zero dimensions both reconfigures the surface and brings drawing back.
pub proof fn lemma_zero_size_suspends(s: SurfaceTracker, width: u32, height: u32, later: Seq<(u32, u32)>)
    requires
        width == 0 || height == 0,
    ensures
        s.resized(width, height).frame_action() == FrameAction::Skip,
        forall|i: int| 0 <= i < later.len() ==> ((#[trigger] later[i]).0 == 0 || later[i].1 == 0) ==> resize_all(s.resized(width, height), later.take(i + 1)).frame_action() == FrameAction::Skip,
        forall|w: u32, h: u32| w > 0 && h > 0 ==> {
            &&& #[trigger] s.resized(width, height).resize_action(w, h) == ResizeAction::Reconfigure
            &&& s.resized(width, height).resized(w, h).frame_action() == FrameAction::Draw
        },
{
    assert forall|i: int| 0 <= i < later.len() implies ((#[trigger] later[i]).0 == 0 || later[i].1 == 0) ==> resize_all(s.resized(width, height), later.take(i + 1)).frame_action() == FrameAction::Skip by {
        let t = later.take(i + 1);
        assert(t.drop_last() =~= later.take(i));
        assert(t.last() == later[i]);
    }
}

/// The state after the resizes of `sizes`, in order.
pub open spec fn resize_all(s: SurfaceTracker, sizes: Seq<(u32, u32)>) -> SurfaceTracker
    decreases sizes.len(),
{
    if sizes.len() == 0 {
        s
    } else {
        let t = resize_all(s, sizes.drop_last());
        t.resized(sizes.last().0, sizes.last().1)
    }
}

} // verus!
