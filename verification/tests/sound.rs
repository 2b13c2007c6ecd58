use canon_3d::sound::{push_sample, wav_header};

#[test]
fn the_wav_header_describes_mono_16_bit_pcm() {
    let header = wav_header(22050, 10);
    assert_eq!(header.len(), 44);
    assert_eq!(&header[0..4], b"RIFF");
    assert_eq!(&header[4..8], &56u32.to_le_bytes());
    assert_eq!(&header[8..16], b"WAVEfmt ");
    assert_eq!(&header[16..20], &16u32.to_le_bytes());
    assert_eq!(&header[20..24], &[1, 0, 1, 0]);
    assert_eq!(&header[24..28], &22050u32.to_le_bytes());
    assert_eq!(&header[28..32], &44100u32.to_le_bytes());
    assert_eq!(&header[32..36], &[2, 0, 16, 0]);
    assert_eq!(&header[36..40], b"data");
    assert_eq!(&header[40..44], &20u32.to_le_bytes());
}

#[test]
fn samples_are_little_endian_twos_complement() {
    let mut bytes = Vec::new();
    push_sample(&mut bytes, 1);
    push_sample(&mut bytes, -1);
    push_sample(&mut bytes, i16::MIN);
    push_sample(&mut bytes, 0x1234);
    assert_eq!(bytes, vec![1, 0, 0xff, 0xff, 0x00, 0x80, 0x34, 0x12]);
}
