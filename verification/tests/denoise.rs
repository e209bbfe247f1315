use rav1e::api::frame_queue::FrameQueue;
use rav1e::api::status::EncoderStatus;
use rav1e::denoise::{FftDenoiser, FftTransform};
use rav1e::frame::Frame;
use rav1e::pixel::ChromaSampling;

#[test]
fn luma_block_layout() {
  let t = FftTransform::new::<u8>(0, 64, 48, ChromaSampling::Cs420);
  assert_eq!((t.n_overlap_x, t.n_overlap_y), (5, 4));
  assert_eq!((t.cover_width, t.cover_height, t.cover_pitch), (120, 98, 120));
  assert_eq!(t.cover_buf.len(), 98 * 120);
  assert_eq!(t.in_size, 20480);
  assert_eq!((t.out_width, t.out_pitch_elems, t.out_size), (17, 18, 11520));
  assert_eq!(t.block_count, 20);
}

#[test]
fn chroma_block_layout_is_subsampled() {
  let t = FftTransform::new::<u16>(1, 64, 48, ChromaSampling::Cs420);
  assert_eq!((t.n_overlap_x, t.n_overlap_y), (3, 3));
  assert_eq!(t.cover_width, 76);
  assert_eq!(t.cover_pitch, 80 * 2);
}

#[test]
fn denoiser_waits_for_frames() {
  let mut d: FftDenoiser<u8> = FftDenoiser::new(64, 48, 8, ChromaSampling::Cs420);
  assert_eq!(d.cur_frameno, 0);
  let mut q: FrameQueue<u8> = FrameQueue::new(0);
  assert_eq!(d.filter_frame(&q).err(), Some(EncoderStatus::NeedMoreData));
  q.push(Some(Frame::new_with_padding(64, 48, ChromaSampling::Cs420, 64, 16)));
  q.push(Some(Frame::new_with_padding(64, 48, ChromaSampling::Cs420, 64, 16)));
  // Without the frame before the current one, the filter cannot start.
  assert_eq!(d.filter_frame(&q).err(), Some(EncoderStatus::NeedMoreData));
  assert_eq!(d.cur_frameno, 0);
}
