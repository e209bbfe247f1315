use rav1e::api::config::{EncoderConfig, Rational, SceneDetectionSpeed};
use rav1e::api::context::{Config, Context};
use rav1e::api::frame_info::FrameType;
use rav1e::api::status::{EncoderStatus, FrameParameters, FrameTypeOverride, Opaque};
use rav1e::frame::Frame;
use rav1e::pixel::{ChromaSampling, Pixel};

fn setup_config(
  w: usize, h: usize, speed: usize, quantizer: usize, bit_depth: usize,
  chroma_sampling: ChromaSampling, min_keyint: u64, max_keyint: u64,
  bitrate: i32, low_latency: bool, switch_frame_interval: u64,
  no_scene_detection: bool, rdo_lookahead_frames: usize,
  min_quantizer: Option<u8>,
) -> Config {
  let mut enc = EncoderConfig::with_speed_preset(speed);
  enc.quantizer = quantizer;
  enc.min_key_frame_interval = min_keyint;
  enc.max_key_frame_interval = max_keyint;
  enc.low_latency = low_latency;
  enc.switch_frame_interval = switch_frame_interval;
  enc.width = w;
  enc.height = h;
  enc.bit_depth = bit_depth;
  enc.chroma_sampling = chroma_sampling;
  enc.bitrate = bitrate;
  if no_scene_detection {
    enc.speed_settings.scene_detection_mode = SceneDetectionSpeed::Off;
  }
  enc.speed_settings.rdo_lookahead_frames = rdo_lookahead_frames;
  if let Some(min_quantizer) = min_quantizer {
    enc.min_quantizer = min_quantizer;
  }

  Config::new().with_encoder_config(enc).with_threads(1)
}

fn setup_encoder<T: Pixel>(
  w: usize, h: usize, speed: usize, quantizer: usize, bit_depth: usize,
  chroma_sampling: ChromaSampling, min_keyint: u64, max_keyint: u64,
  bitrate: i32, low_latency: bool, switch_frame_interval: u64,
  no_scene_detection: bool, rdo_lookahead_frames: usize,
  min_quantizer: Option<u8>,
) -> Context<T> {
  let cfg = setup_config(
    w,
    h,
    speed,
    quantizer,
    bit_depth,
    chroma_sampling,
    min_keyint,
    max_keyint,
    bitrate,
    low_latency,
    switch_frame_interval,
    no_scene_detection,
    rdo_lookahead_frames,
    min_quantizer,
  );
  cfg.new_context().unwrap()
}

fn fill_frame_const<T: Pixel>(frame: &mut Frame<T>, value: T) {
  for plane in frame.planes.iter_mut() {
    let stride = plane.cfg.stride;
    for row in plane.data.chunks_mut(stride) {
      for pixel in row {
        *pixel = value;
      }
    }
  }
}

struct TestFrameSender<T: Pixel> {
  ctx: Context<T>,
  scene_change_at: u64,
  limit: u64,
}

impl<T> TestFrameSender<T>
where
  T: Pixel,
{
  fn process_frame(&mut self) {
    for i in 0..self.limit {
      send_frame_kf(&mut self.ctx, i == self.scene_change_at);
    }
    self.ctx.flush();
    loop {
      match self.ctx.receive_packet() {
        Ok(_)
        | Err(EncoderStatus::LimitReached)
        | Err(EncoderStatus::Encoded) => {
          break;
        }
        _ => (),
      }
    }
  }
}

fn send_test_frame<T: Pixel>(ctx: &mut Context<T>, content_value: T) {
  let mut input = ctx.new_frame();
  fill_frame_const(&mut input, content_value);
  let _ = ctx.send_frame(input);
}

fn send_frame_kf<T: Pixel>(ctx: &mut Context<T>, keyframe: bool) {
  let input = ctx.new_frame();

  let frame_type_override =
    if keyframe { FrameTypeOverride::Key } else { FrameTypeOverride::No };

  let opaque = Some(Opaque::new(keyframe as u64));

  let fp = FrameParameters { frame_type_override, opaque };

  let _ = ctx.send_frame((input, fp));
}

#[test]
fn switch_frame_interval() {
  // Test output_frameno configurations when there are <missing> less frames
  // than the perfect subgop size, in no-reorder mode.
  let expected = [
    (0, FrameType::KEY),
    (1, FrameType::INTER),
    (2, FrameType::SWITCH),
    (3, FrameType::INTER),
    (4, FrameType::SWITCH),
    (5, FrameType::KEY),
    (6, FrameType::INTER),
    (7, FrameType::SWITCH),
    (8, FrameType::INTER),
    (9, FrameType::SWITCH),
  ];

  let ctx = setup_encoder::<u8>(
    64,
    80,
    10,
    100,
    8,
    ChromaSampling::Cs420,
    5,
    5,
    0,
    true,
    2,
    true,
    10,
    None,
  );
  let limit = 10;
  let mut sender =
    TestFrameSender { ctx, limit: limit as u64, scene_change_at: 5 };
  for i in 0..limit {
    sender.process_frame();
    let frame = if i % 5 == 0 {
      &sender.ctx.inner.current_keyframe
    } else {
      sender.ctx.inner.current_frame_group[0].as_ref().unwrap()
    };
    assert_eq!(frame.input_frameno, expected[i].0);
    assert_eq!(frame.frame_type, expected[i].1);
  }
}

#[derive(Clone, Copy)]
struct LookaheadTestExpectations {
  post_receive_input_frameno: [u64; 60],
  post_receive_frame_q_lens: [usize; 60],
}

#[test]
fn lookahead_size_properly_bounded_8() {
  const LOOKAHEAD_SIZE: usize = 8;
  const EXPECTATIONS: LookaheadTestExpectations = LookaheadTestExpectations {
    post_receive_input_frameno: [
      0, 0, 0, 0, 0, 0, 0, 0, 1, 1, 1, 4, 5, 5, 5, 8, 9, 9, 9, 12, 13, 13, 13,
      16, 17, 17, 17, 20, 21, 21, 21, 24, 25, 25, 25, 28, 29, 29, 29, 32, 33,
      33, 33, 36, 37, 37, 37, 40, 41, 41, 41, 44, 45, 45, 45, 48, 49, 49, 49,
      52,
    ],
    post_receive_frame_q_lens: [
      1, 2, 3, 4, 5, 6, 7, 8, 9, 10, 11, 10, 10, 11, 12, 10, 10, 11, 12, 10,
      10, 11, 12, 10, 10, 11, 12, 10, 10, 11, 12, 10, 10, 11, 12, 10, 10, 11,
      12, 10, 10, 11, 12, 10, 10, 11, 12, 10, 10, 11, 12, 10, 10, 11, 12, 10,
      10, 11, 12, 10,
    ],
  };
  lookahead_size_properly_bounded(LOOKAHEAD_SIZE, false, &EXPECTATIONS);
}

#[test]
fn lookahead_size_properly_bounded_10() {
  const LOOKAHEAD_SIZE: usize = 10;
  const EXPECTATIONS: LookaheadTestExpectations = LookaheadTestExpectations {
    post_receive_input_frameno: [
      0, 0, 0, 0, 0, 0, 0, 0, 0, 0, 1, 1, 1, 4, 5, 5, 5, 8, 9, 9, 9, 12, 13,
      13, 13, 16, 17, 17, 17, 20, 21, 21, 21, 24, 25, 25, 25, 28, 29, 29, 29,
      32, 33, 33, 33, 36, 37, 37, 37, 40, 41, 41, 41, 44, 45, 45, 45, 48, 49,
      49,
    ],
    post_receive_frame_q_lens: [
      1, 2, 3, 4, 5, 6, 7, 8, 9, 10, 11, 12, 13, 12, 12, 13, 14, 12, 12, 13,
      14, 12, 12, 13, 14, 12, 12, 13, 14, 12, 12, 13, 14, 12, 12, 13, 14, 12,
      12, 13, 14, 12, 12, 13, 14, 12, 12, 13, 14, 12, 12, 13, 14, 12, 12, 13,
      14, 12, 12, 13,
    ],
  };
  lookahead_size_properly_bounded(LOOKAHEAD_SIZE, false, &EXPECTATIONS);
}

#[test]
fn lookahead_size_properly_bounded_16() {
  const LOOKAHEAD_SIZE: usize = 16;
  const EXPECTATIONS: LookaheadTestExpectations = LookaheadTestExpectations {
    post_receive_input_frameno: [
      0, 0, 0, 0, 0, 0, 0, 0, 0, 0, 0, 0, 0, 0, 0, 0, 1, 1, 1, 4, 5, 5, 5, 8,
      9, 9, 9, 12, 13, 13, 13, 16, 17, 17, 17, 20, 21, 21, 21, 24, 25, 25, 25,
      28, 29, 29, 29, 32, 33, 33, 33, 36, 37, 37, 37, 40, 41, 41, 41, 44,
    ],
    post_receive_frame_q_lens: [
      1, 2, 3, 4, 5, 6, 7, 8, 9, 10, 11, 12, 13, 14, 15, 16, 17, 18, 19, 18,
      18, 19, 20, 18, 18, 19, 20, 18, 18, 19, 20, 18, 18, 19, 20, 18, 18, 19,
      20, 18, 18, 19, 20, 18, 18, 19, 20, 18, 18, 19, 20, 18, 18, 19, 20, 18,
      18, 19, 20, 18,
    ],
  };
  lookahead_size_properly_bounded(LOOKAHEAD_SIZE, false, &EXPECTATIONS);
}

#[test]
fn lookahead_size_properly_bounded_lowlatency_8() {
  const LOOKAHEAD_SIZE: usize = 8;
  const EXPECTATIONS: LookaheadTestExpectations = LookaheadTestExpectations {
    post_receive_input_frameno: [
      0, 0, 0, 0, 0, 0, 0, 0, 1, 2, 3, 4, 5, 6, 7, 8, 9, 10, 11, 12, 13, 14,
      15, 16, 17, 18, 19, 20, 21, 22, 23, 24, 25, 26, 27, 28, 29, 30, 31, 32,
      33, 34, 35, 36, 37, 38, 39, 40, 41, 42, 43, 44, 45, 46, 47, 48, 49, 50,
      51, 52,
    ],
    post_receive_frame_q_lens: [
      1, 2, 3, 4, 5, 6, 7, 8, 9, 10, 10, 10, 10, 10, 10, 10, 10, 10, 10, 10,
      10, 10, 10, 10, 10, 10, 10, 10, 10, 10, 10, 10, 10, 10, 10, 10, 10, 10,
      10, 10, 10, 10, 10, 10, 10, 10, 10, 10, 10, 10, 10, 10, 10, 10, 10, 10,
      10, 10, 10, 10,
    ],
  };
  lookahead_size_properly_bounded(LOOKAHEAD_SIZE, true, &EXPECTATIONS);
}

#[test]
fn lookahead_size_properly_bounded_lowlatency_1() {
  const LOOKAHEAD_SIZE: usize = 1;
  const EXPECTATIONS: LookaheadTestExpectations = LookaheadTestExpectations {
    post_receive_input_frameno: [
      0, 1, 2, 3, 4, 5, 6, 7, 8, 9, 10, 11, 12, 13, 14, 15, 16, 17, 18, 19,
      20, 21, 22, 23, 24, 25, 26, 27, 28, 29, 30, 31, 32, 33, 34, 35, 36, 37,
      38, 39, 40, 41, 42, 43, 44, 45, 46, 47, 48, 49, 50, 51, 52, 53, 54, 55,
      56, 57, 58, 59,
    ],
    post_receive_frame_q_lens: [
      1, 2, 3, 3, 3, 3, 3, 3, 3, 3, 3, 3, 3, 3, 3, 3, 3, 3, 3, 3, 3, 3, 3, 3,
      3, 3, 3, 3, 3, 3, 3, 3, 3, 3, 3, 3, 3, 3, 3, 3, 3, 3, 3, 3, 3, 3, 3, 3,
      3, 3, 3, 3, 3, 3, 3, 3, 3, 3, 3, 3,
    ],
  };
  lookahead_size_properly_bounded(LOOKAHEAD_SIZE, true, &EXPECTATIONS);
}

fn lookahead_size_properly_bounded(
  rdo_lookahead: usize, low_latency: bool,
  expectations: &LookaheadTestExpectations,
) {
  // Test that lookahead reads in the proper number of frames at once

  let mut ctx = setup_encoder::<u8>(
    64,
    80,
    10,
    100,
    8,
    ChromaSampling::Cs420,
    0,
    100,
    0,
    low_latency,
    0,
    true,
    rdo_lookahead,
    None,
  );

  const LIMIT: usize = 60;

  let mut post_receive_input_frameno = [0; LIMIT];
  let mut post_receive_frame_q_lens = [0; LIMIT];

  for i in 0..LIMIT {
    let input = ctx.new_frame();
    let _ = ctx.send_frame(input);
    while ctx.receive_packet().is_ok() {
      // Receive packets until lookahead consumed, due to pyramids receiving frames in groups
    }
    post_receive_input_frameno[i] = ctx.inner.input_frameno;
    post_receive_frame_q_lens[i] = ctx.inner.frame_q.len();
  }

  assert_eq!(
    &post_receive_input_frameno[..],
    &expectations.post_receive_input_frameno[..]
  );
  assert_eq!(
    &post_receive_frame_q_lens[..],
    &expectations.post_receive_frame_q_lens[..]
  );

  ctx.flush();
  let end = ctx.inner.frame_q.get(&(LIMIT as u64));
  assert!(end.is_some());
  assert!(end.unwrap().is_none());

  loop {
    match ctx.receive_packet() {
      Ok(_) | Err(EncoderStatus::Encoded) => {
        // Receive packets until all frames consumed
      }
      _ => {
        break;
      }
    }
  }
  assert_eq!(ctx.inner.frames_processed, LIMIT as u64);
}

#[test]
fn tile_cols_overflow() {
  let mut enc = EncoderConfig::default();
  enc.tile_cols = usize::max_value();
  let config = Config::new().with_encoder_config(enc);
  let _: Result<Context<u8>, _> = config.new_context();
}

#[test]
fn max_key_frame_interval_overflow() {
  let mut enc = EncoderConfig::default();
  enc.max_key_frame_interval = i32::max_value() as u64;
  enc.reservoir_frame_delay = None;
  let config = Config::new().with_encoder_config(enc);
  let _: Result<Context<u8>, _> = config.new_context();
}

#[test]
fn target_bitrate_overflow() {
  let mut enc = EncoderConfig::default();
  enc.bitrate = i32::max_value();
  enc.time_base = Rational::new(i64::max_value() as u64, 1);
  let config = Config::new().with_encoder_config(enc);
  let _: Result<Context<u8>, _> = config.new_context();
}

#[test]
fn time_base_den_divide_by_zero() {
  let mut enc = EncoderConfig::default();
  enc.time_base = Rational::new(1, 0);
  let config = Config::new().with_encoder_config(enc);
  let _: Result<Context<u8>, _> = config.new_context();
}

#[test]
fn large_width_assert() {
  let mut enc = EncoderConfig::default();
  enc.width = u32::max_value() as usize;
  let config = Config::new().with_encoder_config(enc);
  let _: Result<Context<u8>, _> = config.new_context();
}

#[test]
fn reservoir_max_overflow() {
  let mut enc = EncoderConfig::default();
  enc.reservoir_frame_delay = Some(i32::max_value());
  enc.bitrate = i32::max_value();
  enc.time_base = Rational::new(i32::max_value() as u64 * 2, 1);
  let config = Config::new().with_encoder_config(enc);
  let _: Result<Context<u8>, _> = config.new_context();
}

#[test]
fn zero_width() {
  let mut enc = EncoderConfig::default();
  enc.width = 0;
  let config = Config::new().with_encoder_config(enc);
  let res: Result<Context<u8>, _> = config.new_context();
  assert!(res.is_err());
}

#[test]
fn rdo_lookahead_frames_overflow() {
  let mut enc = EncoderConfig::default();
  enc.speed_settings.rdo_lookahead_frames = usize::max_value();
  let config = Config::new().with_encoder_config(enc);
  let res: Result<Context<u8>, _> = config.new_context();
  assert!(res.is_err());
}

#[test]
fn zero_frames() {
  let config = Config::default();
  let mut ctx: Context<u8> = config.new_context().unwrap();
  ctx.flush();
  assert_eq!(ctx.receive_packet(), Err(EncoderStatus::LimitReached));
}

#[test]
fn constant_frames_are_accepted_and_shown_in_order() {
  let mut ctx = setup_encoder::<u16>(
    16,
    16,
    10,
    100,
    10,
    ChromaSampling::Cs444,
    0,
    100,
    0,
    true,
    0,
    true,
    1,
    None,
  );
  for i in 0..5u16 {
    send_test_frame(&mut ctx, i);
  }
  ctx.flush();
  let mut shown = Vec::new();
  loop {
    match ctx.receive_packet() {
      Ok(pkt) => shown.push(pkt.input_frameno),
      Err(EncoderStatus::Encoded) => {}
      Err(_) => break,
    }
  }
  assert_eq!(shown, vec![0, 1, 2, 3, 4]);
}

#[test]
fn test_opaque_delivery() {
  let mut ctx = setup_encoder::<u8>(
    64,
    80,
    10,
    100,
    8,
    ChromaSampling::Cs420,
    0,
    5,
    0,
    true,
    0,
    false,
    10,
    None,
  );

  let kf_at = 3;

  let limit = 10;
  for i in 0..limit {
    send_frame_kf(&mut ctx, kf_at == i);
  }
  ctx.flush();

  while let Ok(pkt) = ctx.receive_packet() {
    let input_frameno = pkt.input_frameno;
    if let Some(opaque) = pkt.opaque {
      assert_eq!(opaque.value, (input_frameno == kf_at) as u64);
    }
  }
}

#[test]
fn reordered_frames_are_shown_in_input_order() {
  let mut ctx = setup_encoder::<u8>(
    64,
    80,
    10,
    100,
    8,
    ChromaSampling::Cs420,
    0,
    100,
    0,
    false,
    0,
    true,
    10,
    None,
  );
  for _ in 0..9 {
    send_test_frame(&mut ctx, 0u8);
  }
  ctx.flush();
  let mut shown = Vec::new();
  loop {
    match ctx.receive_packet() {
      Ok(pkt) => shown.push(pkt.input_frameno),
      Err(EncoderStatus::Encoded) => {}
      Err(_) => break,
    }
  }
  assert_eq!(shown, (0..9).collect::<Vec<u64>>());
}

#[test]
fn forced_keyframe_is_coded_as_keyframe() {
  let mut ctx = setup_encoder::<u8>(
    64,
    80,
    10,
    100,
    8,
    ChromaSampling::Cs420,
    0,
    100,
    0,
    true,
    0,
    true,
    10,
    None,
  );
  for i in 0..6 {
    send_frame_kf(&mut ctx, i == 4);
  }
  ctx.flush();
  let mut kinds = Vec::new();
  loop {
    match ctx.receive_packet() {
      Ok(pkt) => kinds.push((pkt.input_frameno, pkt.frame_type)),
      Err(EncoderStatus::Encoded) => {}
      Err(_) => break,
    }
  }
  assert_eq!(kinds.len(), 6);
  assert_eq!(kinds[0], (0, FrameType::KEY));
  assert_eq!(kinds[4], (4, FrameType::KEY));
  assert_eq!(kinds[3], (3, FrameType::INTER));
}

#[test]
fn next_keyframe_bounded_by_interval_and_limit() {
  let mut ctx = setup_encoder::<u8>(
    64,
    80,
    10,
    100,
    8,
    ChromaSampling::Cs420,
    0,
    30,
    0,
    true,
    0,
    true,
    10,
    None,
  );
  assert_eq!(ctx.inner.next_keyframe_input_frameno(0, false), 30);
  for _ in 0..5 {
    send_test_frame(&mut ctx, 0u8);
  }
  ctx.flush();
  assert_eq!(ctx.inner.next_keyframe_input_frameno(0, false), 5);
  assert_eq!(ctx.inner.next_keyframe_input_frameno(0, true), 30);
}

#[test]
fn importance_frames_of_first_frame() {
  let mut ctx = setup_encoder::<u8>(
    64,
    80,
    10,
    100,
    8,
    ChromaSampling::Cs420,
    0,
    100,
    0,
    true,
    0,
    true,
    10,
    None,
  );
  for _ in 0..4 {
    send_test_frame(&mut ctx, 0u8);
  }
  let set = ctx.inner.importance_frame_set();
  assert_eq!(set, vec![0, 1, 2, 3]);
  let refs = ctx.inner.importance_ref_frames(&set);
  assert_eq!(refs.len(), 3);
  assert_eq!(refs[0], (3, vec![2, 1]));
  assert_eq!(refs[1], (2, vec![3, 1, 0]));
  assert_eq!(refs[2], (1, vec![2, 0]));
}

#[test]
fn queue_holds_the_frame_sent() {
  let mut ctx: Context<u8> = Config::new().new_context().unwrap();
  let mut f = ctx.new_frame();
  let stride = f.planes[0].cfg.stride;
  let origin = f.planes[0].cfg.yorigin * stride + f.planes[0].cfg.xorigin;
  f.planes[0].data[origin] = 77;
  let _ = ctx.send_frame(ctx.new_frame());
  let _ = ctx.send_frame(f);
  match ctx.inner.frame_q.get(&1) {
    Some(Some(held)) => assert_eq!(held.planes[0].data[origin], 77),
    _ => panic!("frame 1 not queued"),
  }
  match ctx.inner.frame_q.get(&0) {
    Some(Some(held)) => assert_eq!(held.planes[0].data[origin], 0),
    _ => panic!("frame 0 not queued"),
  }
  ctx.flush();
  assert!(matches!(ctx.inner.frame_q.get(&2), Some(None)));
}
