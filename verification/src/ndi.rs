//! The live video output: the frame handed to the sender for a normalized
//! pixel buffer, and the limiter that spaces sends in time.

use crate::readback::{NormalizedPixelBuffer, PixelBuffer, BYTES_PER_PIXEL};
use vstd::prelude::*;

verus! {

/// A progressive RGBA video frame as the sender takes it: resolution and
/// line stride as signed 32-bit numbers, and the pixel bytes.
#[derive(Clone, Debug, PartialEq, Eq)]
pub struct VideoFrame {
    pub xres: i32,
    pub yres: i32,
    pub line_stride_in_bytes: i32,
    pub data: Vec<u8>,
}

/// A video frame as a value.
pub struct VideoFrameView {
    pub xres: int,
    pub yres: int,
    pub line_stride_in_bytes: int,
    pub data: Seq<u8>,
}

impl View for VideoFrame {
    type V = VideoFrameView;

    open spec fn view(&self) -> VideoFrameView {
        VideoFrameView {
            xres: self.xres as int,
            yres: self.yres as int,
            line_stride_in_bytes: self.line_stride_in_bytes as int,
            data: self.data@,
        }
    }
}

/// Width, height and line stride of the image all fit in an `i32`.
pub open spec fn fits_video_frame(image: PixelBuffer) -> bool {
    &&& image.width * BYTES_PER_PIXEL <= i32::MAX
    &&& image.height <= i32::MAX
}

/// The frame for an image: same extent, same bytes, rows four bytes per
/// pixel apart.
pub open spec fn video_frame_of(image: PixelBuffer) -> VideoFrameView {
    VideoFrameView {
        xres: image.width as int,
        yres: image.height as int,
        line_stride_in_bytes: image.width * BYTES_PER_PIXEL,
        data: image.data,
    }
}

/// What `ndi_send_buffer` hands to the sender.
pub open spec fn frame_to_send(image: Option<PixelBuffer>) -> Option<VideoFrameView> {
    match image {
        Some(image) => if fits_video_frame(image) {
            Some(video_frame_of(image))
        } else {
            None
        },
        None => None,
    }
}

/// The frame to send for what was read back this tick: none where nothing
/// was read back, and none where the image is too large for a frame.
pub fn ndi_send_buffer(image: Option<NormalizedPixelBuffer>) -> (frame: Option<VideoFrame>)
    ensures
        match frame {
            Some(frame) => image matches Some(image) && frame_to_send(Some(image@)) == Some(
                frame@,
            ),
            None => image matches Some(image) ==> frame_to_send(Some(image@)) is None,
        },
{
    let image = match image {
        Some(image) => image,
        None => {
            return None;
        },
    };
    if image.width > 0x1fff_ffff || image.height > 0x7fff_ffff {
        return None;
    }
    let x: i32 = image.width as i32;
    let y: i32 = image.height as i32;
    Some(VideoFrame { xres: x, yres: y, line_stride_in_bytes: x * 4, data: image.data })
}

/// State of a rate limiter: the interval between sends and the time that
/// has passed since the last interval ended, both in the caller's unit.
pub struct Limiter {
    pub interval: nat,
    pub elapsed: nat,
}

impl Limiter {
    /// Less than one interval has been gathered.
    pub open spec fn wf(self) -> bool {
        if self.interval == 0 {
            self.elapsed == 0
        } else {
            self.elapsed < self.interval
        }
    }

    /// A send is due once `delta` more has passed.
    pub open spec fn due_after(self, delta: nat) -> bool {
        self.elapsed + delta >= self.interval
    }

    /// The state once `delta` more has passed: whole intervals are dropped,
    /// the rest is kept for the next one.
    pub open spec fn after(self, delta: nat) -> Limiter {
        Limiter {
            interval: self.interval,
            elapsed: if self.interval == 0 {
                0
            } else {
                (self.elapsed + delta) % self.interval
            },
        }
    }

    /// The state after the ticks `deltas`, in order.
    pub open spec fn after_all(self, deltas: Seq<u64>) -> Limiter
        decreases deltas.len(),
    {
        if deltas.len() == 0 {
            self
        } else {
            self.after_all(deltas.drop_last()).after(deltas.last() as nat)
        }
    }

    /// How many of the ticks `deltas` found a send due.
    pub open spec fn sends(self, deltas: Seq<u64>) -> nat
        decreases deltas.len(),
    {
        if deltas.len() == 0 {
            0
        } else {
            let before = self.after_all(deltas.drop_last());
            self.sends(deltas.drop_last()) + if before.due_after(deltas.last() as nat) {
                1nat
            } else {
                0nat
            }
        }
    }
}

/// The time that the ticks `deltas` cover.
pub open spec fn total_time(deltas: Seq<u64>) -> nat
    decreases deltas.len(),
{
    if deltas.len() == 0 {
        0
    } else {
        total_time(deltas.drop_last()) + deltas.last() as nat
    }
}

/// However the ticks are spaced, each send accounts for a whole interval of
/// the time that has passed: the sends, times the interval, plus what is
/// gathered towards the next one, do not exceed the time gathered before
/// plus the time the ticks cover. And no tick sends twice.
pub proof fn lemma_sends_are_spaced(limiter: Limiter, deltas: Seq<u64>)
    requires
        limiter.wf(),
    ensures
        limiter.after_all(deltas).wf(),
        limiter.after_all(deltas).interval == limiter.interval,
        limiter.sends(deltas) * limiter.interval + limiter.after_all(deltas).elapsed
            <= limiter.elapsed + total_time(deltas),
        limiter.sends(deltas) <= deltas.len(),
    decreases deltas.len(),
{
    let interval = limiter.interval as int;
    if deltas.len() > 0 {
        let earlier = deltas.drop_last();
        lemma_sends_are_spaced(limiter, earlier);
        let before = limiter.after_all(earlier);
        let delta = deltas.last() as nat;
        let sent = limiter.sends(earlier) as int;
        let sent_now = limiter.sends(deltas) as int;
        let gathered = (before.elapsed + delta) as int;
        assert(limiter.after_all(deltas) == before.after(delta));
        if interval > 0 {
            vstd::arithmetic::div_mod::lemma_fundamental_div_mod(gathered, interval);
            vstd::arithmetic::div_mod::lemma_mod_bound(gathered, interval);
            if before.due_after(delta) {
                assert(sent_now == sent + 1);
                assert(interval * (gathered / interval) >= interval) by (nonlinear_arith)
                    requires
                        gathered == interval * (gathered / interval) + gathered % interval,
                        gathered % interval < interval,
                        gathered >= interval,
                        interval > 0,
                ;
                assert(sent_now * interval == sent * interval + interval) by (nonlinear_arith)
                    requires
                        sent_now == sent + 1,
                ;
            } else {
                assert(sent_now == sent);
                vstd::arithmetic::div_mod::lemma_small_mod(gathered as nat, interval as nat);
            }
        } else {
            assert(sent_now * interval == 0 && sent * interval == 0) by (nonlinear_arith)
                requires
                    interval == 0,
            ;
        }
    } else {
        assert(limiter.sends(deltas) * interval == 0) by (nonlinear_arith)
            requires
                limiter.sends(deltas) == 0,
        ;
    }
}

/// Spaces the sends of one consumer: a send is due on the tick on which an
/// interval has passed since the last one.
#[derive(Clone, Copy, Debug)]
pub struct NDIExportRateLimiter {
    interval: u64,
    elapsed: u64,
}

impl View for NDIExportRateLimiter {
    type V = Limiter;

    closed spec fn view(&self) -> Limiter {
        Limiter { interval: self.interval as nat, elapsed: self.elapsed as nat }
    }
}

impl NDIExportRateLimiter {
    #[verifier::type_invariant]
    spec fn gathers_less_than_an_interval(self) -> bool {
        self@.wf()
    }

    /// A limiter with the given interval, at the start of an interval. With
    /// an interval of 0 every tick is due.
    pub fn new(interval: u64) -> (limiter: NDIExportRateLimiter)
        ensures
            limiter@ == (Limiter { interval: interval as nat, elapsed: 0 }),
            limiter@.wf(),
    {
        NDIExportRateLimiter { interval, elapsed: 0 }
    }

    /// The interval between two sends.
    pub fn interval(&self) -> (interval: u64)
        ensures
            interval == self@.interval,
    {
        self.interval
    }

    /// The time gathered towards the next send.
    pub fn elapsed(&self) -> (elapsed: u64)
        ensures
            elapsed == self@.elapsed,
            self@.wf(),
    {
        proof {
            use_type_invariant(self);
        }
        self.elapsed
    }

    /// Lets `delta` pass and says whether a send is due now.
    pub fn tick(&mut self, delta: u64) -> (due: bool)
        ensures
            old(self)@.wf(),
            due == old(self)@.due_after(delta as nat),
            final(self)@ == old(self)@.after(delta as nat),
            final(self)@.wf(),
    {
        proof {
            use_type_invariant(&*self);
        }
        if self.interval == 0 {
            return true;
        }
        let interval: u128 = self.interval as u128;
        let gathered: u128 = self.elapsed as u128 + delta as u128;
        self.elapsed = (gathered % interval) as u64;
        gathered >= interval
    }
}

} // verus!
