use voiceforge::audio::{
    check_decoded, classify_header, progress_update, track_shape, AudioShape, DecoderError,
    HeaderVerdict, PlaybackError,
};

#[test]
fn test_frame_count_and_mono_shape() {
    let stereo = AudioShape { sample_count: 44100, sample_rate: 22050, channels: 2 };
    assert_eq!(stereo.frame_count(), 22050);
    assert_eq!(
        stereo.to_mono(),
        AudioShape { sample_count: 22050, sample_rate: 22050, channels: 1 }
    );
    let odd = AudioShape { sample_count: 7, sample_rate: 8000, channels: 2 };
    assert_eq!(odd.frame_count(), 3);
    let none = AudioShape { sample_count: 7, sample_rate: 8000, channels: 0 };
    assert_eq!(none.frame_count(), 0);
    assert_eq!(none.to_mono(), AudioShape { sample_count: 0, sample_rate: 8000, channels: 1 });
    let mono = AudioShape { sample_count: 9, sample_rate: 8000, channels: 1 };
    assert_eq!(mono.to_mono(), mono);
}

#[test]
fn test_track_shape_errors() {
    assert!(matches!(
        track_shape(None, Some(2)),
        Err(DecoderError::UnsupportedFormat(ref m)) if m == "unknown sample rate"
    ));
    assert!(matches!(
        track_shape(None, None),
        Err(DecoderError::UnsupportedFormat(ref m)) if m == "unknown sample rate"
    ));
    assert!(matches!(
        track_shape(Some(44100), None),
        Err(DecoderError::UnsupportedFormat(ref m)) if m == "unknown channel layout"
    ));
    assert!(matches!(
        track_shape(Some(44100), Some(0)),
        Err(DecoderError::UnsupportedFormat(ref m)) if m == "zero channels"
    ));
    assert!(matches!(track_shape(Some(44100), Some(2)), Ok((44100, 2))));
    assert!(matches!(track_shape(Some(0), Some(1)), Ok((0, 1))));
}

#[test]
fn test_progress_update() {
    assert_eq!(progress_update(0, Some(1000), 0), None);
    assert_eq!(progress_update(10, Some(1000), 0), Some(1));
    assert_eq!(progress_update(19, Some(1000), 1), None);
    assert_eq!(progress_update(500, Some(1000), 49), Some(50));
    assert_eq!(progress_update(1000, Some(1000), 99), Some(100));
    assert_eq!(progress_update(5000, Some(1000), 99), Some(100));
    assert_eq!(progress_update(5000, Some(1000), 100), None);
    assert_eq!(progress_update(5000, Some(0), 7), None);
    assert_eq!(progress_update(5000, None, 7), None);
    assert_eq!(progress_update(u64::MAX, Some(u64::MAX), 0), Some(100));
    assert_eq!(progress_update(u64::MAX / 2, Some(u64::MAX), 0), Some(49));
}

#[test]
fn test_check_decoded() {
    assert!(check_decoded(1).is_ok());
    assert!(matches!(
        check_decoded(0),
        Err(DecoderError::Decode(ref m)) if m == "no audio samples decoded"
    ));
}

#[test]
fn test_error_texts() {
    assert_eq!(DecoderError::Io("denied".to_string()).describe(), "I/O error: denied");
    assert_eq!(
        DecoderError::UnsupportedFormat("zero channels".to_string()).describe(),
        "unsupported format: zero channels"
    );
    assert_eq!(
        DecoderError::UnsupportedCodec("opus".to_string()).describe(),
        "unsupported codec: opus"
    );
    assert_eq!(DecoderError::Decode("bad".to_string()).describe(), "decode error: bad");
    assert_eq!(
        PlaybackError("no output audio device found".to_string()).describe(),
        "playback error: no output audio device found"
    );
}

#[test]
fn test_header_signatures() {
    assert_eq!(classify_header(b""), HeaderVerdict::Empty);
    assert_eq!(classify_header(b"RIFF\x24\x00\x00\x00WAVE"), HeaderVerdict::Audio);
    assert_eq!(classify_header(b"RIFF\x24\x00\x00\x00WAVEfmt "), HeaderVerdict::Audio);
    assert_eq!(classify_header(b"RIFF\x24\x00\x00\x00AVI "), HeaderVerdict::Unrecognized);
    assert_eq!(classify_header(b"RIFF\x24\x00\x00\x00WAV"), HeaderVerdict::Unrecognized);
    assert_eq!(classify_header(b"fLaC"), HeaderVerdict::Audio);
    assert_eq!(classify_header(b"OggS\x00\x02"), HeaderVerdict::Audio);
    assert_eq!(classify_header(b"ID3\x04"), HeaderVerdict::Audio);
    assert_eq!(classify_header(b"ID3"), HeaderVerdict::Unrecognized);
    assert_eq!(classify_header(&[0xff, 0xfb, 0x90, 0x00]), HeaderVerdict::Audio);
    assert_eq!(classify_header(&[0xff, 0xe0, 0x00, 0x00]), HeaderVerdict::Audio);
    assert_eq!(classify_header(&[0xff, 0xdf, 0x00, 0x00]), HeaderVerdict::Unrecognized);
    assert_eq!(classify_header(b"\x00\x00\x00\x20ftypM4A "), HeaderVerdict::Audio);
    assert_eq!(classify_header(b"\x00\x00\x00\x20fty"), HeaderVerdict::Unrecognized);
    assert_eq!(classify_header(b"FORM\x00\x00\x00\x10AIFF"), HeaderVerdict::Audio);
    assert_eq!(classify_header(b"FORM\x00\x00\x00\x10AIFC"), HeaderVerdict::Unrecognized);
    assert_eq!(classify_header(b"hello, world"), HeaderVerdict::Unrecognized);
    assert_eq!(classify_header(b"x"), HeaderVerdict::Unrecognized);
}
