use icapture::codec::Codec;

#[test]
fn fourcc_packs_the_tag_low_byte_first() {
    assert_eq!(Codec::H264.fourcc(), 0x3436_3248);
    assert_eq!(Codec::H264.fourcc().to_le_bytes(), *b"H264");
    assert_eq!(Codec::MJPG.fourcc().to_le_bytes(), *b"MJPG");
    assert_eq!(Codec::WMV3.fourcc().to_le_bytes(), *b"WMV3");
}

#[test]
fn each_codec_has_its_container() {
    assert_eq!(Codec::H264.file_extension(), "mp4");
    assert_eq!(Codec::MJPG.file_extension(), "avi");
    assert_eq!(Codec::WMV3.file_extension(), "wmv");
}
