//! The user's handle on an encoder: configuration and encoding context.

use crate::api::config::{spec_preset_config, spec_validate, EncoderConfig, InvalidConfig};
use crate::api::frame_queue::{keeps_tail, lemma_keeps_tail_refl};
use crate::api::internal::ContextInner;
use crate::api::schedule::{initial_view, ContextView};
use crate::api::status::{EncoderStatus, FrameParameters, Packet};
use crate::frame::{frame_fits, frame_fits_check, spec_luma_dim, Frame};
use crate::pixel::Pixel;
use vstd::prelude::*;

verus! {

/// The size of a superblock, the unit that planes are padded to.
pub const SB_SIZE: usize = 64;

/// The margin around a frame that motion vectors may reach.
pub const FRAME_MARGIN: usize = 24;

/// The minimum padding of the luma plane of a frame.
pub const LUMA_PADDING: usize = SB_SIZE + FRAME_MARGIN;

/// Something that can be sent to a context: a frame, with or without
/// parameters, or `None` for the end of the input.
pub trait IntoFrame<T: Pixel>: Sized {
    /// Whether a frame is sent.
    spec fn spec_has_frame(&self) -> bool;

    /// The parameters sent with it.
    spec fn spec_params(&self) -> Option<FrameParameters>;

    /// The frame sent, if any.
    spec fn spec_frame(&self) -> Option<Frame<T>>;

    /// Splits into the frame and its parameters.
    fn into_frame(self) -> (r: (Option<Frame<T>>, Option<FrameParameters>))
        ensures
            (r.0 is Some) == self.spec_has_frame(),
            r.1 == self.spec_params(),
            r.0 == self.spec_frame(),
    ;
}

impl<T: Pixel> IntoFrame<T> for Option<Frame<T>> {
    open spec fn spec_has_frame(&self) -> bool {
        *self is Some
    }

    open spec fn spec_params(&self) -> Option<FrameParameters> {
        None
    }

    open spec fn spec_frame(&self) -> Option<Frame<T>> {
        *self
    }

    fn into_frame(self) -> (r: (Option<Frame<T>>, Option<FrameParameters>)) {
        (self, None)
    }
}

impl<T: Pixel> IntoFrame<T> for Frame<T> {
    open spec fn spec_has_frame(&self) -> bool {
        true
    }

    open spec fn spec_params(&self) -> Option<FrameParameters> {
        None
    }

    open spec fn spec_frame(&self) -> Option<Frame<T>> {
        Some(*self)
    }

    fn into_frame(self) -> (r: (Option<Frame<T>>, Option<FrameParameters>)) {
        (Some(self), None)
    }
}

impl<T: Pixel> IntoFrame<T> for (Frame<T>, FrameParameters) {
    open spec fn spec_has_frame(&self) -> bool {
        true
    }

    open spec fn spec_params(&self) -> Option<FrameParameters> {
        Some(self.1)
    }

    open spec fn spec_frame(&self) -> Option<Frame<T>> {
        Some(self.0)
    }

    fn into_frame(self) -> (r: (Option<Frame<T>>, Option<FrameParameters>)) {
        (Some(self.0), Some(self.1))
    }
}

impl<T: Pixel> IntoFrame<T> for (Frame<T>, Option<FrameParameters>) {
    open spec fn spec_has_frame(&self) -> bool {
        true
    }

    open spec fn spec_params(&self) -> Option<FrameParameters> {
        self.1
    }

    open spec fn spec_frame(&self) -> Option<Frame<T>> {
        Some(self.0)
    }

    fn into_frame(self) -> (r: (Option<Frame<T>>, Option<FrameParameters>)) {
        (Some(self.0), self.1)
    }
}

/// Encoder settings and the number of threads.
#[derive(Debug, Clone, Copy, PartialEq, Eq, Structural)]
pub struct Config {
    /// The encoder settings.
    pub enc: EncoderConfig,
    /// Number of worker threads; 0 picks one per CPU.
    pub threads: usize,
}

impl Config {
    /// The default settings: those of speed preset 6, one thread per CPU.
    pub fn new() -> (c: Config)
        ensures
            c.enc == spec_preset_config(6),
            c.enc.width == 640 && c.enc.height == 480,
            c.enc.bit_depth == 8,
            c.enc.min_key_frame_interval == 12,
            c.enc.max_key_frame_interval == 240,
            c.enc.quantizer == 100,
            !c.enc.low_latency,
            c.enc.speed_settings.rdo_lookahead_frames == 20,
            !c.enc.speed_settings.multiref,
            c.threads == 0,
            spec_validate(c.enc) is Ok,
    {
        Config { enc: EncoderConfig::default(), threads: 0 }
    }

    /// These settings with the given encoder settings.
    pub fn with_encoder_config(self, enc: EncoderConfig) -> (c: Config)
        ensures
            c == (Config { enc, ..self }),
    {
        Config { enc, ..self }
    }

    /// These settings with the given number of threads.
    pub fn with_threads(self, threads: usize) -> (c: Config)
        ensures
            c == (Config { threads, ..self }),
    {
        Config { threads, ..self }
    }

    /// Checks the encoder settings.
    pub fn validate(&self) -> (r: Result<(), InvalidConfig>)
        ensures
            r == spec_validate(self.enc),
    {
        self.enc.validate()
    }

    /// A new encoding context: `Err` with the reason when the settings are
    /// refused, or when frames of the configured size cannot be allocated on
    /// this machine (reported as an invalid width).
    pub fn new_context<T: Pixel>(&self) -> (r: Result<Context<T>, InvalidConfig>)
        ensures
            spec_validate(self.enc) is Err ==> r == Err::<Context<T>, InvalidConfig>(
                spec_validate(self.enc)->Err_0,
            ),
            spec_validate(self.enc) is Ok ==> (r is Ok <==> frame_fits(
                self.enc.width,
                self.enc.height,
                self.enc.chroma_sampling,
                SB_SIZE,
                LUMA_PADDING,
                T::spec_size(),
            )),
            spec_validate(self.enc) is Ok && r is Err ==> r == Err::<Context<T>, InvalidConfig>(
                InvalidConfig::InvalidWidth,
            ),
            r matches Ok(ctx) ==> ctx.wf() && !ctx.is_flushing && ctx.inner@ == initial_view(
                self.enc,
                ctx.inner.inter_cfg,
            ) && ctx.inner.inter_cfg.reorder == !self.enc.low_latency,
    {
        match self.enc.validate() {
            Err(e) => Err(e),
            Ok(()) => {
                if !frame_fits_check(
                    self.enc.width,
                    self.enc.height,
                    self.enc.chroma_sampling,
                    SB_SIZE,
                    LUMA_PADDING,
                    T::size(),
                ) {
                    return Err(InvalidConfig::InvalidWidth);
                }
                Ok(Context { inner: ContextInner::new(&self.enc), is_flushing: false })
            },
        }
    }
}

impl Default for Config {
    /// The default settings: those of speed preset 6, one thread per CPU.
    fn default() -> (c: Config)
        ensures
            c.enc == spec_preset_config(6),
            c.enc.width == 640 && c.enc.height == 480,
            c.enc.bit_depth == 8,
            c.enc.min_key_frame_interval == 12,
            c.enc.max_key_frame_interval == 240,
            c.enc.quantizer == 100,
            !c.enc.low_latency,
            c.enc.speed_settings.rdo_lookahead_frames == 20,
            !c.enc.speed_settings.multiref,
            c.threads == 0,
            spec_validate(c.enc) is Ok,
    {
        Config::new()
    }
}

/// An encoding context: frames go in, packets come out.
pub struct Context<T: Pixel> {
    /// The scheduling state.
    pub inner: ContextInner<T>,
    /// Whether the end of the input was sent.
    pub is_flushing: bool,
}

impl<T: Pixel> Context<T> {
    /// The invariant of a context.
    pub open spec fn wf(&self) -> bool {
        &&& self.inner.wf()
        &&& frame_fits(
            self.inner.config.width,
            self.inner.config.height,
            self.inner.config.chroma_sampling,
            SB_SIZE,
            LUMA_PADDING,
            T::spec_size(),
        )
        &&& self.is_flushing == (self.inner.limit is Some)
    }

    /// A new frame of the configured size, with every sample zero.
    pub fn new_frame(&self) -> (f: Frame<T>)
        requires
            self.wf(),
        ensures
            f.wf(),
            f.planes[0].cfg.width == spec_luma_dim(self.inner.config.width),
            f.planes[0].cfg.height == spec_luma_dim(self.inner.config.height),
    {
        proof {
            vstd::arithmetic::power2::lemma2_to64();
            crate::math::lemma_round_up(self.inner.config.width as int, 8);
            crate::math::lemma_round_up(self.inner.config.height as int, 8);
        }
        Frame::new_with_padding(
            self.inner.config.width,
            self.inner.config.height,
            self.inner.config.chroma_sampling,
            SB_SIZE,
            LUMA_PADDING,
        )
    }

    /// Sends a frame, a frame with parameters, or the end of the input
    /// (`None`). After the end of the input, frames are refused with
    /// `EnoughData` and a second end of input is ignored. The end of the input
    /// fixes the number of frames to encode.
    pub fn send_frame<F: IntoFrame<T>>(&mut self, frame: F) -> (r: Result<(), EncoderStatus>)
        requires
            old(self).wf(),
        ensures
            final(self).wf(),
            old(self).is_flushing || !old(self).inner@.in_range() ==> final(self).inner.frame_q
                == old(self).inner.frame_q,
            !old(self).is_flushing && old(self).inner@.in_range() ==> {
                let q = final(self).inner.frame_q;
                let p = old(self).inner.frame_q;
                let fc = old(self).inner.frame_count;
                &&& q.start() <= fc < q.start() + q.entries().len()
                &&& q.entries()[fc - q.start()] == frame.spec_frame()
                &&& forall|k: int|
                    q.start() <= k < q.start() + q.entries().len() && k != fc
                        ==> #[trigger] q.entries()[k - q.start()] == p.entries()[k - p.start()]
            },
            old(self).is_flushing ==> final(self).is_flushing,
            !frame.spec_has_frame() && old(self).inner@.in_range() ==> final(self).is_flushing,
            ({
                let with_frame = frame.spec_has_frame();
                let params = frame.spec_params();
                let v = old(self).inner@;
                if !with_frame && old(self).is_flushing {
                    r is Ok && final(self).inner@ == v
                } else if with_frame && old(self).is_flushing {
                    r == Err::<(), EncoderStatus>(EncoderStatus::EnoughData) && final(self).inner@ == v
                } else if !v.in_range() {
                    r == Err::<(), EncoderStatus>(EncoderStatus::Failure) && final(self).inner@ == v
                } else if !with_frame {
                    r is Ok && final(self).inner@ == (ContextView {
                        limit: Some(v.frame_count),
                        ..v
                    }).send_frame(false, params)
                } else {
                    r is Ok && final(self).inner@ == v.send_frame(true, params)
                }
            }),
    {
        let (frame, params) = frame.into_frame();
        if frame.is_none() {
            if self.is_flushing {
                return Ok(());
            }
        } else if self.is_flushing {
            return Err(EncoderStatus::EnoughData);
        }
        if !self.inner.counters_in_range() {
            return Err(EncoderStatus::Failure);
        }
        if frame.is_none() {
            self.inner.limit = Some(self.inner.frame_count);
            self.is_flushing = true;
        }
        self.inner.send_frame(frame, params)
    }

    /// Ends the input: the number of frames to encode becomes the number of
    /// frames sent. A second call changes nothing.
    pub fn flush(&mut self)
        requires
            old(self).wf(),
        ensures
            final(self).wf(),
            old(self).is_flushing || old(self).inner@.in_range() ==> final(self).is_flushing,
            ({
                let v = old(self).inner@;
                if old(self).is_flushing || !v.in_range() {
                    final(self).inner@ == v && final(self).is_flushing == old(self).is_flushing
                } else {
                    final(self).inner@ == (ContextView { limit: Some(v.frame_count), ..v }).send_frame(
                        false,
                        None,
                    )
                }
            }),
            old(self).is_flushing || !old(self).inner@.in_range() ==> final(self).inner.frame_q
                == old(self).inner.frame_q,
            !old(self).is_flushing && old(self).inner@.in_range() ==> {
                let q = final(self).inner.frame_q;
                let p = old(self).inner.frame_q;
                let fc = old(self).inner.frame_count;
                &&& q.start() <= fc < q.start() + q.entries().len()
                &&& q.entries()[fc - q.start()] is None
                &&& forall|k: int|
                    q.start() <= k < q.start() + q.entries().len() && k != fc
                        ==> #[trigger] q.entries()[k - q.start()] == p.entries()[k - p.start()]
            },
    {
        let _ = self.send_frame(None::<Frame<T>>);
    }

    /// Hands out the next packet, or says why there is none.
    pub fn receive_packet(&mut self) -> (r: Result<Packet, EncoderStatus>)
        requires
            old(self).wf(),
        ensures
            final(self).wf(),
            final(self).is_flushing == old(self).is_flushing,
            old(self).inner@.in_range() ==> (final(self).inner@, r) == old(
                self,
            ).inner@.receive_packet(),
            keeps_tail(&final(self).inner.frame_q, &old(self).inner.frame_q),
            r is Err ==> final(self).inner.frame_q == old(self).inner.frame_q,
            !old(self).inner@.in_range() ==> r == Err::<Packet, EncoderStatus>(EncoderStatus::Failure)
                && final(self).inner@ == old(self).inner@,
    {
        if !self.inner.counters_in_range() {
            proof {
                lemma_keeps_tail_refl(&self.inner.frame_q);
            }
            return Err(EncoderStatus::Failure);
        }
        self.inner.receive_packet()
    }
}

} // verus!
