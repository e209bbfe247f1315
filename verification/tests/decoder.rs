use rav1e::api::config::Rational;
use rav1e::decoder::{map_y4m_color_space, video_details, y4m_bit_depth, Y4mColorspace};
use rav1e::pixel::{ChromaSamplePosition, ChromaSampling};

#[test]
fn color_space_mapping() {
  assert_eq!(
    map_y4m_color_space(Y4mColorspace::C420mpeg2),
    (ChromaSampling::Cs420, ChromaSamplePosition::Vertical)
  );
  assert_eq!(
    map_y4m_color_space(Y4mColorspace::Cmono),
    (ChromaSampling::Cs400, ChromaSamplePosition::Unknown)
  );
  assert_eq!(
    map_y4m_color_space(Y4mColorspace::C422p12),
    (ChromaSampling::Cs422, ChromaSamplePosition::Colocated)
  );
  assert_eq!(
    map_y4m_color_space(Y4mColorspace::C420jpeg),
    (ChromaSampling::Cs420, ChromaSamplePosition::Unknown)
  );
}

#[test]
fn bit_depths() {
  assert_eq!(y4m_bit_depth(Y4mColorspace::C444p10), 10);
  assert_eq!(y4m_bit_depth(Y4mColorspace::Cmono12), 12);
  assert_eq!(y4m_bit_depth(Y4mColorspace::C420paldv), 8);
}

#[test]
fn details_of_a_stream() {
  let d = video_details(640, 480, 0, 0, Y4mColorspace::C420p10, 30000, 1001);
  assert_eq!(d.bit_depth, 10);
  assert_eq!(d.sample_aspect_ratio, Rational::new(1, 1));
  assert_eq!(d.time_base, Rational::new(1001, 30000));
  assert_eq!(d.chroma_sampling, ChromaSampling::Cs420);
  let e = video_details(720, 576, 16, 15, Y4mColorspace::C444, 25, 1);
  assert_eq!(e.sample_aspect_ratio, Rational::new(16, 15));
  assert_eq!(e.time_base, Rational::new(1, 25));
}
