use sonic_flow::format::AudioFormatType;

#[test]
fn format_type_from_extension() {
    assert_eq!(AudioFormatType::from_extension("mp3"), AudioFormatType::Mp3);
    assert_eq!(AudioFormatType::from_extension("MP3"), AudioFormatType::Mp3);
    assert_eq!(
        AudioFormatType::from_extension("flac"),
        AudioFormatType::Flac
    );
    assert_eq!(AudioFormatType::from_extension("ogg"), AudioFormatType::Ogg);
    assert_eq!(AudioFormatType::from_extension("oga"), AudioFormatType::Ogg);
    assert_eq!(
        AudioFormatType::from_extension("opus"),
        AudioFormatType::Opus
    );
    assert_eq!(
        AudioFormatType::from_extension("xyz"),
        AudioFormatType::Unknown("xyz".to_string())
    );
}

#[test]
fn format_type_is_supported() {
    assert!(AudioFormatType::Mp3.is_supported());
    assert!(AudioFormatType::Flac.is_supported());
    assert!(AudioFormatType::Opus.is_supported());
    assert!(!AudioFormatType::Unknown("xyz".to_string()).is_supported());
}

#[test]
fn test_mp3_format_detection() {
    assert_eq!(AudioFormatType::from_extension("mp3"), AudioFormatType::Mp3);
    assert_eq!(AudioFormatType::from_extension("MP3"), AudioFormatType::Mp3);
}

#[test]
fn test_mp3_bitrate_info() {}

#[test]
fn unknown_extension_is_kept_in_lower_case() {
    assert_eq!(
        AudioFormatType::from_extension("XyZ"),
        AudioFormatType::Unknown("xyz".to_string())
    );
    assert_eq!(AudioFormatType::from_extension("M4A"), AudioFormatType::Aac);
    assert_eq!(AudioFormatType::from_extension("aac"), AudioFormatType::Aac);
    assert_eq!(AudioFormatType::from_extension("Wav"), AudioFormatType::Wav);
}

#[test]
fn codec_names_and_lower_case_names() {
    assert_eq!(AudioFormatType::Mp3.codec_name(), "MP3");
    assert_eq!(AudioFormatType::Flac.codec_name(), "FLAC");
    assert_eq!(AudioFormatType::Wav.codec_name(), "PCM");
    assert_eq!(AudioFormatType::Ogg.codec_name(), "Vorbis");
    assert_eq!(AudioFormatType::Aac.codec_name(), "AAC");
    assert_eq!(AudioFormatType::Opus.codec_name(), "Opus");
    assert_eq!(AudioFormatType::Unknown("xyz".into()).codec_name(), "Unknown");
    assert_eq!(AudioFormatType::Ogg.as_str(), "ogg");
    assert_eq!(AudioFormatType::Unknown("xyz".into()).as_str(), "xyz");
    assert_eq!(AudioFormatType::from_extension("m4a").as_str(), "aac");
}
