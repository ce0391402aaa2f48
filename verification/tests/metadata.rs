use sonic_flow::metadata::{
    ArtworkType, FlacStreamInfo, Id3Frame, Id3Tag, MetadataExtractor, MetadataSource, PictureData,
    TrackMetadata, WavSpec,
};
use sonic_flow::tags::TagMap;
use sonic_flow::time::Duration;

#[test]
fn test_metadata_default() {
    let metadata = TrackMetadata::default();
    assert!(metadata.title.is_none());
    assert!(metadata.artist.is_none());
    assert!(metadata.custom_tags.is_empty());
}

#[test]
fn test_artwork_type_conversion() {
    // The ID3 code of the front cover picture type.
    assert_eq!(
        MetadataExtractor::convert_id3_picture_type(3),
        ArtworkType::FrontCover
    );
}

#[test]
fn picture_type_codes() {
    assert_eq!(MetadataExtractor::convert_id3_picture_type(5), ArtworkType::LeafletPage);
    assert_eq!(MetadataExtractor::convert_id3_picture_type(17), ArtworkType::ColouredFish);
    assert_eq!(
        MetadataExtractor::convert_id3_picture_type(0),
        ArtworkType::Other("Unknown".into())
    );
    assert_eq!(
        MetadataExtractor::convert_flac_picture_type(5),
        ArtworkType::Other("Unknown".into())
    );
    assert_eq!(MetadataExtractor::convert_flac_picture_type(20), ArtworkType::PublisherLogotype);
}

#[test]
fn source_by_extension() {
    assert_eq!(MetadataExtractor::source_for("a/b.MP3"), MetadataSource::Mp3);
    assert_eq!(MetadataExtractor::source_for("x.flac"), MetadataSource::Flac);
    assert_eq!(MetadataExtractor::source_for("x.wav"), MetadataSource::Wav);
    assert_eq!(MetadataExtractor::source_for("x.ogg"), MetadataSource::Ogg);
    assert_eq!(MetadataExtractor::source_for("x.aac"), MetadataSource::M4a);
    assert_eq!(MetadataExtractor::source_for("x.M4A"), MetadataSource::M4a);
    assert_eq!(MetadataExtractor::source_for("x.opus"), MetadataSource::Generic);
    assert_eq!(MetadataExtractor::source_for("noext"), MetadataSource::Generic);
}

#[test]
fn ogg_and_m4a_give_empty_metadata() {
    let m = MetadataExtractor::extract_ogg_metadata("a.ogg").unwrap();
    assert!(m.title.is_none() && m.format.is_none() && m.custom_tags.is_empty());
    let m = MetadataExtractor::extract_m4a_metadata("a.m4a").unwrap();
    assert!(m.duration.is_none());
}

fn frame(id: &str, text: Option<&str>) -> Id3Frame {
    Id3Frame { id: id.into(), text: text.map(|t| t.to_string()) }
}

#[test]
fn id3_tags_fill_fields() {
    let tag = Id3Tag {
        title: Some("Song".into()),
        artist: Some("Band".into()),
        album: None,
        album_artist: None,
        year: Some(-1),
        track: Some(4),
        total_tracks: None,
        disc: None,
        total_discs: Some(2),
        genre: Some("Rock".into()),
        frames: vec![
            frame("TCOM", Some("Composer A")),
            frame("TXXX", Some("x")),
            frame("TCOM", None),
            frame("TPE3", Some("Cond")),
            frame("COMM", None),
            frame("TXXX", Some("y")),
            frame("APIC", None),
        ],
        picture: Some(PictureData {
            mime_type: "image/png".into(),
            description: "cover".into(),
            type_code: 3,
            width: 10,
            height: 10,
            data: vec![1, 2, 3],
        }),
        file_size: 1234,
    };
    let m = MetadataExtractor::from_id3(tag);
    assert_eq!(m.title.as_deref(), Some("Song"));
    assert_eq!(m.year, Some(u32::MAX));
    assert_eq!(m.track_number, Some(4));
    assert_eq!(m.disc_total, Some(2));
    assert_eq!(m.composer, None);
    assert_eq!(m.conductor.as_deref(), Some("Cond"));
    assert_eq!(m.custom_tags.get("TXXX").map(|s| s.as_str()), Some("y"));
    assert_eq!(m.custom_tags.len(), 1);
    assert_eq!(m.file_size, Some(1234));
    assert_eq!(m.format.as_deref(), Some("MP3"));
    let art = m.artwork.unwrap();
    assert_eq!(art.artwork_type, ArtworkType::FrontCover);
    assert_eq!(art.width, None);
    assert_eq!(art.description.as_deref(), Some("cover"));
    assert_eq!(art.data, vec![1, 2, 3]);
}

#[test]
fn flac_comments_fill_fields() {
    let comments = vec![
        ("title".to_string(), vec!["T1".to_string(), "T2".to_string()]),
        ("Date".to_string(), vec!["2001".to_string()]),
        ("YEAR".to_string(), vec!["+1999".to_string()]),
        ("TrackNumber".to_string(), vec!["7x".to_string()]),
        ("DISCTOTAL".to_string(), vec!["4294967296".to_string()]),
        ("Mood".to_string(), vec!["calm".to_string()]),
        ("EMPTY".to_string(), vec![]),
        ("GENRE".to_string(), vec!["Jazz".to_string()]),
    ];
    let stream = FlacStreamInfo {
        sample_rate: 44100,
        num_channels: 2,
        bits_per_sample: 16,
        total_samples: 441000,
        length: Duration::from_secs(10),
    };
    let m = MetadataExtractor::from_flac(comments, Some(stream), None, 99);
    assert_eq!(m.title.as_deref(), Some("T1"));
    assert_eq!(m.year, Some(1999));
    assert_eq!(m.track_number, None);
    assert_eq!(m.disc_total, None);
    assert_eq!(m.genre.as_deref(), Some("Jazz"));
    assert_eq!(m.custom_tags.get("Mood").map(|s| s.as_str()), Some("calm"));
    assert!(m.custom_tags.get("EMPTY").is_none());
    assert_eq!(m.sample_rate, Some(44100));
    assert_eq!(m.channels, Some(2));
    assert_eq!(m.bit_depth, Some(16));
    assert_eq!(m.duration, Some(Duration::from_secs(10)));
    assert_eq!(m.format.as_deref(), Some("FLAC"));
    assert_eq!(m.encoding.as_deref(), Some("Lossless"));
    assert!(m.artwork.is_none());

    let silent = FlacStreamInfo { total_samples: 0, ..stream };
    let m = MetadataExtractor::from_flac(vec![], Some(silent), None, 0);
    assert_eq!(m.duration, None);
}

#[test]
fn wav_header_fills_fields() {
    let spec = WavSpec { sample_rate: 48000, channels: 2, bits_per_sample: 24 };
    let m = MetadataExtractor::from_wav(spec, Duration::from_millis(1500), 10);
    assert_eq!(m.bitrate, Some(48000 * 2 * 24));
    assert_eq!(m.duration, Some(Duration::from_millis(1500)));
    assert_eq!(m.format.as_deref(), Some("WAV"));
    assert_eq!(m.encoding.as_deref(), Some("PCM"));
}

#[test]
fn generic_tags_fill_fields() {
    let tags = vec![
        ("TITLE".to_string(), "Name".to_string()),
        ("title".to_string(), "lower".to_string()),
        ("DATE".to_string(), "2020".to_string()),
        ("TRACK".to_string(), "3".to_string()),
        ("TRACK".to_string(), "-3".to_string()),
    ];
    let m = MetadataExtractor::from_generic_tags(tags);
    assert_eq!(m.title.as_deref(), Some("Name"));
    assert_eq!(m.year, Some(2020));
    assert_eq!(m.track_number, None);
    assert_eq!(m.custom_tags.get("title").map(|s| s.as_str()), Some("lower"));
}

#[test]
fn tag_map_keeps_latest_value() {
    let mut t = TagMap::new();
    assert!(t.is_empty());
    t.insert("a".into(), "1".into());
    t.insert("b".into(), "2".into());
    t.insert("a".into(), "3".into());
    assert_eq!(t.len(), 2);
    assert_eq!(t.get("a").map(|s| s.as_str()), Some("3"));
    assert_eq!(t.entries()[0].0, "a");
    assert!(t.get("c").is_none());
}

#[test]
fn reader_chosen_by_extension() {
    assert_eq!(MetadataExtractor::source_for_ext("MP3"), MetadataSource::Mp3);
    assert_eq!(MetadataExtractor::source_for_ext("aac"), MetadataSource::M4a);
    assert_eq!(MetadataExtractor::source_for_ext("Oga"), MetadataSource::Generic);
    assert_eq!(MetadataExtractor::source_for_ext(""), MetadataSource::Generic);
}
