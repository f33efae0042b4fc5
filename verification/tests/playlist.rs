use vvtv_core::processor::playlist::{float_text_ok, parse_dash_manifest, HlsPlaylist};

fn accepts(text: &str) -> bool {
    let chars: Vec<char> = text.chars().collect();
    float_text_ok(&chars, 0, chars.len())
}

#[test]
fn float_text_agrees_with_std() {
    let samples = [
        "0", "4", "4.0", "10.5", ".5", "5.", "-1", "+2.25", "1e3", "1E-3", "2.5e+10", ".e1", "e5", ".", "", "+",
        "-", "1e", "1e+", "inf", "INF", "-Infinity", "nan", "NaN", "+nan", "infinit", "1.2.3", " 1", "1 ", "1,0",
        "0x10", "1_000", "٣", "1e1000", "00.00", "1..2",
    ];
    for s in samples {
        assert_eq!(accepts(s), s.parse::<f64>().is_ok(), "{:?}", s);
    }
}

const PLAYLIST: &str = "  #EXTM3U
#EXT-X-VERSION:6
#EXT-X-TARGETDURATION:10
#EXT-X-MEDIA-SEQUENCE:42
#EXTINF:9.009,
segment0.ts
#EXTINF:8.5,,
#EXT-X-DISCONTINUITY
segment1.ts
orphan.ts

#EXT-X-ENDLIST
";

#[test]
fn hls_playlist_reads_tags_and_segments() {
    let playlist = HlsPlaylist::parse(PLAYLIST).unwrap();
    assert_eq!(playlist.version, 6);
    assert_eq!(playlist.target_duration.as_deref(), Some("10"));
    assert_eq!(playlist.media_sequence, 42);
    assert_eq!(playlist.segments.len(), 2);
    assert_eq!(playlist.segments[0].duration, "9.009");
    assert_eq!(playlist.segments[0].uri, "segment0.ts");
    assert_eq!(playlist.segments[1].duration, "8.5");
    assert_eq!(playlist.segments[1].uri, "segment1.ts");
}

#[test]
fn hls_playlist_defaults() {
    let playlist = HlsPlaylist::parse("#EXTM3U\r\n#EXTINF:4,\r\na.ts\r\n").unwrap();
    assert_eq!(playlist.version, 3);
    assert_eq!(playlist.target_duration, None);
    assert_eq!(playlist.media_sequence, 0);
    assert_eq!(playlist.segments[0].uri, "a.ts");
}

#[test]
fn hls_playlist_errors() {
    let err = |text: &str| HlsPlaylist::parse(text).err().unwrap();
    assert_eq!(err("#EXT-X-VERSION:3\n"), "missing #EXTM3U header");
    assert_eq!(err("#EXTM3U\n#EXT-X-VERSION:x\n"), "invalid EXT-X-VERSION");
    assert_eq!(err("#EXTM3U\n#EXT-X-VERSION:4294967296\n"), "invalid EXT-X-VERSION");
    assert_eq!(err("#EXTM3U\n#EXT-X-TARGETDURATION:ten\n"), "invalid EXT-X-TARGETDURATION");
    assert_eq!(err("#EXTM3U\n#EXT-X-MEDIA-SEQUENCE:-1\n"), "invalid EXT-X-MEDIA-SEQUENCE");
    assert_eq!(err("#EXTM3U\n#EXTINF:4.0,title\na.ts\n"), "invalid EXTINF duration");
    assert_eq!(err("#EXTM3U\n#EXTINF:4.0,\n#EXT-X-ENDLIST\n"), "playlist missing segments");
    assert_eq!(err("#EXTM3U\nsegment.ts\n"), "playlist missing segments");
}

#[test]
fn dash_manifest_reads_segment_urls() {
    let manifest = r#"<SegmentList>
  <SegmentURL media="seg-1.m4s" duration="4.5"/>
  <SegmentURL   media="seg-2.m4s"/>
  <SegmentURL media="seg-3.m4s" duration="long"/>
</SegmentList>"#;
    let segments = parse_dash_manifest(manifest).unwrap();
    assert_eq!(segments.len(), 3);
    assert_eq!(segments[0].uri, "seg-1.m4s");
    assert_eq!(segments[0].duration.as_deref(), Some("4.5"));
    assert_eq!(segments[1].uri, "seg-2.m4s");
    assert_eq!(segments[1].duration, None);
    assert_eq!(segments[2].duration, None);
}

#[test]
fn dash_manifest_without_segments_is_refused() {
    assert_eq!(parse_dash_manifest("<MPD></MPD>").err().unwrap(), "no SegmentURL entries found");
}
