use kifs_raymarching::uniform::{
    ScreenData, SizeUniform, SizeUniformData, Uniform, UniformData, UniformDataDescriptor,
};

#[test]
fn size_record_bytes_are_little_endian() {
    let d = SizeUniformData::new(1920, 1080);
    assert_eq!(d.to_bytes(), vec![0x80, 0x07, 0, 0, 0x38, 0x04, 0, 0]);
    let big = SizeUniform::new(0x0102_0304, u32::MAX);
    assert_eq!(big.to_bytes(), vec![4, 3, 2, 1, 255, 255, 255, 255]);
    assert_eq!(SizeUniformData::default().to_bytes(), vec![0; 8]);
}

#[test]
fn screen_round_trips_through_its_record() {
    let s = ScreenData::new(800, 600);
    let d = s.into_uniform_data();
    assert_eq!(d, SizeUniformData::new(800, 600));
    assert_eq!(ScreenData::from_uniform_data(d), s);
}

#[test]
fn resize_with_zero_dimension_is_ignored() {
    let mut s = ScreenData::new(800, 600);
    assert!(!s.resize(0, 480));
    assert_eq!(s, ScreenData::new(800, 600));
    assert!(!s.resize(640, 0));
    assert_eq!(s, ScreenData::new(800, 600));
    assert!(s.resize(640, 480));
    assert_eq!(s, ScreenData::new(640, 480));
}

#[test]
fn uniform_is_written_whole() {
    let (mut uniform, bytes) = Uniform::<SizeUniformData>::create_uniform(ScreenData::new(2, 3));
    assert_eq!(bytes, vec![2, 0, 0, 0, 3, 0, 0, 0]);
    assert_eq!(uniform.width(), 2);
    assert_eq!(uniform.height(), 3);
    let bytes = uniform.update_uniform(ScreenData::new(256, 65536));
    assert_eq!(bytes, vec![0, 1, 0, 0, 0, 0, 1, 0]);
    assert_eq!(uniform.data(), SizeUniformData::new(256, 65536));
    let screen: ScreenData = uniform.data_descriptor();
    assert_eq!(screen, ScreenData::new(256, 65536));
}
