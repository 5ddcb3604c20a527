use music_player::probe::probe_stream;
use music_player::{
    find_files, read_mp3_metadata, record_of_probe, MediaFile, MetaData, MetaDataVisual,
    PlayerError, Probed, TagEntry, TagValue,
};

/// One MPEG-1 layer III frame at 128 kbit/s and 44.1 kHz, with an empty body.
fn silent_frame() -> Vec<u8> {
    let mut frame = vec![0xff, 0xfb, 0x90, 0x00];
    frame.resize(417, 0);
    frame
}

fn audio() -> Vec<u8> {
    let mut bytes = silent_frame();
    bytes.extend(silent_frame());
    bytes.extend(silent_frame());
    bytes
}

fn frame(id: &str, body: &[u8]) -> Vec<u8> {
    let mut bytes = id.as_bytes().to_vec();
    bytes.extend((body.len() as u32).to_be_bytes());
    bytes.extend([0, 0]);
    bytes.extend(body);
    bytes
}

fn text_frame(id: &str, text: &str) -> Vec<u8> {
    let mut body = vec![0];
    body.extend(text.as_bytes());
    frame(id, &body)
}

fn picture_frame(media_type: &str, data: &[u8]) -> Vec<u8> {
    let mut body = vec![0];
    body.extend(media_type.as_bytes());
    body.push(0);
    body.push(3);
    body.push(0);
    body.extend(data);
    frame("APIC", &body)
}

fn syncsafe(size: u32) -> [u8; 4] {
    [
        ((size >> 21) & 0x7f) as u8,
        ((size >> 14) & 0x7f) as u8,
        ((size >> 7) & 0x7f) as u8,
        (size & 0x7f) as u8,
    ]
}

fn tag_block_of_version(version: u8, frames: &[Vec<u8>]) -> Vec<u8> {
    let mut body: Vec<u8> = Vec::new();
    for f in frames {
        body.extend(f);
    }
    body.extend([0; 16]);
    let mut bytes = b"ID3".to_vec();
    bytes.extend([version, 0, 0]);
    bytes.extend(syncsafe(body.len() as u32));
    bytes.extend(body);
    bytes
}

fn tag_block(frames: &[Vec<u8>]) -> Vec<u8> {
    tag_block_of_version(3, frames)
}

/// A frame of a version 2.4 tag, whose size is written seven bits to a byte.
fn late_frame(id: &str, body: &[u8]) -> Vec<u8> {
    let mut bytes = id.as_bytes().to_vec();
    bytes.extend(syncsafe(body.len() as u32));
    bytes.extend([0, 0]);
    bytes.extend(body);
    bytes
}

/// A frame of a version 2.2 tag: three letters, three bytes of size, no flags.
fn early_frame(id: &str, body: &[u8]) -> Vec<u8> {
    let mut bytes = id.as_bytes().to_vec();
    bytes.extend(&(body.len() as u32).to_be_bytes()[1..]);
    bytes.extend(body);
    bytes
}

fn tagged(frames: &[Vec<u8>]) -> Vec<u8> {
    let mut bytes = tag_block(frames);
    bytes.extend(audio());
    bytes
}

fn path(name: &str) -> String {
    name.to_string()
}

fn text(value: &str) -> Option<String> {
    Some(value.to_string())
}

fn assert_bare(record: &MetaData, at: &str) {
    assert_eq!(record.path(), at);
    assert_eq!(record.title(), &None);
    assert_eq!(record.artist(), &None);
    assert_eq!(record.group(), &None);
    assert_eq!(record.album(), &None);
    assert_eq!(record.track_number(), &None);
    assert!(record.visual().is_none());
}

#[test]
fn reads_the_five_text_frames() {
    let bytes = tagged(&[
        text_frame("TIT2", "Song One"),
        text_frame("TALB", "First Album"),
        text_frame("TPE1", "Artist X"),
        text_frame("TPE2", "The Group"),
        text_frame("TRCK", "3/12"),
    ]);
    let record = read_mp3_metadata(&path("/music/track1.mp3"), Some(bytes)).unwrap();
    assert_eq!(record.path(), "/music/track1.mp3");
    assert_eq!(record.title(), &text("Song One"));
    assert_eq!(record.album(), &text("First Album"));
    assert_eq!(record.artist(), &text("Artist X"));
    assert_eq!(record.group(), &text("The Group"));
    assert_eq!(record.track_number(), &text("3/12"));
    assert!(record.visual().is_none());
}

#[test]
fn frames_with_other_keys_are_ignored() {
    let bytes = tagged(&[
        text_frame("TCON", "Anime"),
        text_frame("TYER", "2009"),
        text_frame("TPE1", "Artist X"),
    ]);
    let record = read_mp3_metadata(&path("a.mp3"), Some(bytes)).unwrap();
    assert_eq!(record.artist(), &text("Artist X"));
    assert_eq!(record.title(), &None);
    assert_eq!(record.album(), &None);
    assert_eq!(record.group(), &None);
    assert_eq!(record.track_number(), &None);
}

#[test]
fn file_without_recognized_frames_gives_bare_record() {
    let bytes = tagged(&[text_frame("TCON", "Anime"), text_frame("TYER", "2009")]);
    let record = read_mp3_metadata(&path("a.mp3"), Some(bytes)).unwrap();
    assert_bare(&record, "a.mp3");
}

#[test]
fn tag_block_without_frames_gives_bare_record() {
    let record = read_mp3_metadata(&path("empty.mp3"), Some(tagged(&[]))).unwrap();
    assert_bare(&record, "empty.mp3");
}

#[test]
fn file_without_tag_block_gives_bare_record() {
    let record = read_mp3_metadata(&path("plain.mp3"), Some(audio())).unwrap();
    assert_bare(&record, "plain.mp3");
}

#[test]
fn last_of_several_images_is_the_cover_art() {
    let bytes = tagged(&[
        picture_frame("image/png", &[1, 2, 3, 4, 5, 6]),
        text_frame("TIT2", "Song"),
        picture_frame("image/jpeg", &[0xff, 0xd8, 0xff, 0xe0, 9, 8, 7]),
    ]);
    let record = read_mp3_metadata(&path("a.mp3"), Some(bytes)).unwrap();
    let cover = record.visual().as_ref().unwrap();
    assert_eq!(cover.media_type, "image/jpeg");
    assert_eq!(cover.data, vec![0xff, 0xd8, 0xff, 0xe0, 9, 8, 7]);
    assert_eq!(record.title(), &text("Song"));
}

#[test]
fn single_image_is_the_cover_art() {
    let bytes = tagged(&[picture_frame("image/png", &[1, 2, 3])]);
    let record = read_mp3_metadata(&path("a.mp3"), Some(bytes)).unwrap();
    let cover = record.visual().as_ref().unwrap();
    assert_eq!(cover.media_type, "image/png");
    assert_eq!(cover.data, vec![1, 2, 3]);
}

#[test]
fn later_frame_with_the_same_key_wins() {
    let bytes = tagged(&[text_frame("TIT2", "Old Title"), text_frame("TIT2", "New Title")]);
    let record = read_mp3_metadata(&path("a.mp3"), Some(bytes)).unwrap();
    assert_eq!(record.title(), &text("New Title"));
}

#[test]
fn only_the_first_metadata_block_is_read() {
    let mut bytes = tag_block(&[text_frame("TIT2", "First Block")]);
    bytes.extend(tag_block(&[text_frame("TIT2", "Second Block"), text_frame("TALB", "Late")]));
    bytes.extend(audio());
    let record = read_mp3_metadata(&path("a.mp3"), Some(bytes)).unwrap();
    assert_eq!(record.title(), &text("First Block"));
    assert_eq!(record.album(), &None);
}

#[test]
fn text_in_utf16_is_read() {
    let mut body = vec![1, 0xff, 0xfe];
    for unit in "Song One".encode_utf16() {
        body.extend(unit.to_le_bytes());
    }
    let record = read_mp3_metadata(&path("a.mp3"), Some(tagged(&[frame("TIT2", &body)]))).unwrap();
    assert_eq!(record.title(), &text("Song One"));
}

#[test]
fn text_in_utf8_of_a_late_tag_is_read() {
    let mut title = vec![3];
    title.extend("マイドライブ".as_bytes());
    let mut artist = vec![3];
    artist.extend("eYe's".as_bytes());
    let mut bytes = tag_block_of_version(
        4,
        &[late_frame("TIT2", &title), late_frame("TPE1", &artist)],
    );
    bytes.extend(audio());
    let record = read_mp3_metadata(&path("a.mp3"), Some(bytes)).unwrap();
    assert_eq!(record.title(), &text("マイドライブ"));
    assert_eq!(record.artist(), &text("eYe's"));
}

#[test]
fn last_value_of_a_frame_with_several_values_wins() {
    let record = read_mp3_metadata(
        &path("a.mp3"),
        Some(tagged(&[frame("TPE1", b"\0First Artist\0Second Artist")])),
    )
    .unwrap();
    assert_eq!(record.artist(), &text("Second Artist"));
}

#[test]
fn early_tags_carry_other_keys() {
    let mut bytes = tag_block_of_version(
        2,
        &[early_frame("TT2", b"\0Song One"), early_frame("TP1", b"\0Artist X")],
    );
    bytes.extend(audio());
    let record = read_mp3_metadata(&path("old.mp3"), Some(bytes)).unwrap();
    assert_bare(&record, "old.mp3");
}

#[test]
fn stream_of_another_container_is_unsupported() {
    let mut bytes = b"RIFF\x24\x00\x00\x00WAVEfmt \x10\x00\x00\x00\x01\x00\x01\x00".to_vec();
    bytes.extend(b"\x44\xac\x00\x00\x88\x58\x01\x00\x02\x00\x10\x00data\x00\x00\x00\x00");
    let reading = read_mp3_metadata(&path("a.wav"), Some(bytes));
    assert_eq!(reading.unwrap_err(), PlayerError::UnsupportedFormat);
}

#[test]
fn missing_file_is_a_media_open_error() {
    let reading = read_mp3_metadata(&path("/nowhere/missing.mp3"), None);
    assert_eq!(reading.unwrap_err(), PlayerError::MediaOpen);
}

#[test]
fn empty_path_is_a_media_open_error() {
    let reading = read_mp3_metadata(&path(""), Some(audio()));
    assert_eq!(reading.unwrap_err(), PlayerError::MediaOpen);
}

#[test]
fn stream_that_no_format_accepts_is_unsupported() {
    let bytes = b"these bytes are a letter, not a piece of music".to_vec();
    let reading = read_mp3_metadata(&path("letter.txt"), Some(bytes));
    assert_eq!(reading.unwrap_err(), PlayerError::UnsupportedFormat);
}

#[test]
fn empty_stream_is_unsupported() {
    let reading = read_mp3_metadata(&path("empty.mp3"), Some(Vec::new()));
    assert_eq!(reading.unwrap_err(), PlayerError::UnsupportedFormat);
}

#[test]
fn tag_block_without_audio_is_unsupported() {
    let bytes = tag_block(&[text_frame("TIT2", "Song One")]);
    let reading = read_mp3_metadata(&path("a.mp3"), Some(bytes));
    assert_eq!(reading.unwrap_err(), PlayerError::UnsupportedFormat);
}

#[test]
fn restricted_tag_header_is_unsupported() {
    let mut bytes = b"ID3".to_vec();
    bytes.extend([4, 0, 0x40, 0, 0, 0, 12]);
    bytes.extend([0, 0, 0, 6, 1, 0x10, 1, 0x40]);
    bytes.extend([0; 4]);
    bytes.extend(audio());
    let reading = read_mp3_metadata(&path("a.mp3"), Some(bytes));
    assert_eq!(reading.unwrap_err(), PlayerError::UnsupportedFormat);
}

#[test]
fn repeated_reads_give_the_same_record() {
    let bytes = tagged(&[text_frame("TIT2", "Song One"), picture_frame("image/png", &[7; 9])]);
    let first = read_mp3_metadata(&path("a.mp3"), Some(bytes.clone())).unwrap();
    let second = read_mp3_metadata(&path("a.mp3"), Some(bytes)).unwrap();
    assert_eq!(first.title(), second.title());
    assert_eq!(first.visual().as_ref().unwrap().data, second.visual().as_ref().unwrap().data);
    assert_eq!(first.to_display_string(), second.to_display_string());
}

#[test]
fn listing_of_a_tagged_and_an_untagged_track() {
    let files = vec![
        MediaFile {
            path: path("/music/track1.mp3"),
            contents: Some(tagged(&[
                text_frame("TIT2", "Song One"),
                text_frame("TPE1", "Artist X"),
                picture_frame("image/jpeg", &[0xff, 0xd8, 0xff, 0xe0, 0, 16, 0x4a, 0x46]),
            ])),
        },
        MediaFile { path: path("/music/track2.mp3"), contents: Some(audio()) },
    ];
    let listing = find_files(files);
    assert_eq!(listing.len(), 2);
    let first = listing[0].as_ref().unwrap();
    assert_eq!(first.path(), "/music/track1.mp3");
    assert_eq!(first.title(), &text("Song One"));
    assert_eq!(first.artist(), &text("Artist X"));
    assert_eq!(first.visual().as_ref().unwrap().media_type, "image/jpeg");
    assert_eq!(first.group(), &None);
    assert_eq!(first.album(), &None);
    assert_eq!(first.track_number(), &None);
    assert_bare(listing[1].as_ref().unwrap(), "/music/track2.mp3");
}

#[test]
fn one_bad_file_does_not_end_the_listing() {
    let files = vec![
        MediaFile { path: path("a.mp3"), contents: Some(tagged(&[text_frame("TIT2", "A")])) },
        MediaFile { path: path("b.txt"), contents: Some(b"no music in here at all".to_vec()) },
        MediaFile { path: path("c.mp3"), contents: None },
        MediaFile { path: path("d.mp3"), contents: Some(tagged(&[text_frame("TIT2", "D")])) },
    ];
    let listing = find_files(files);
    assert_eq!(listing.len(), 4);
    assert_eq!(listing[0].as_ref().unwrap().title(), &text("A"));
    assert_eq!(listing[1].as_ref().unwrap_err(), &PlayerError::UnsupportedFormat);
    assert_eq!(listing[2].as_ref().unwrap_err(), &PlayerError::MediaOpen);
    assert_eq!(listing[3].as_ref().unwrap().title(), &text("D"));
    assert_eq!(listing[3].as_ref().unwrap().path(), "d.mp3");
}

#[test]
fn listing_of_no_files_is_empty() {
    assert!(find_files(Vec::new()).is_empty());
}

fn text_entry(key: &str, value: &str) -> TagEntry {
    TagEntry { key: key.to_string(), value: TagValue::Text(value.to_string()) }
}

#[test]
fn probe_hands_out_tags_and_images_in_container_order() {
    let bytes = tagged(&[
        text_frame("TPE1", "Artist X"),
        picture_frame("image/png", &[1, 2, 3]),
        text_frame("TIT2", "Song One"),
        text_frame("TCON", "Anime"),
        picture_frame("image/jpeg", &[4, 5]),
    ]);
    let expected = Probed::Block {
        tags: vec![
            text_entry("TPE1", "Artist X"),
            text_entry("TIT2", "Song One"),
            text_entry("TCON", "Anime"),
        ],
        visuals: vec![
            MetaDataVisual { media_type: "image/png".to_string(), data: vec![1, 2, 3] },
            MetaDataVisual { media_type: "image/jpeg".to_string(), data: vec![4, 5] },
        ],
    };
    assert_eq!(probe_stream(&bytes), expected);
}

#[test]
fn probe_hands_out_values_that_are_no_text() {
    let bytes = tagged(&[
        frame("PCNT", &[0, 0, 1, 2]),
        frame("MCDI", &[9, 8, 7]),
        frame("POPM", b"someone@example.org\0\xc4"),
    ]);
    let expected = Probed::Block {
        tags: vec![
            TagEntry { key: "PCNT".to_string(), value: TagValue::UnsignedInt(258) },
            TagEntry { key: "MCDI".to_string(), value: TagValue::Binary(vec![9, 8, 7]) },
            TagEntry {
                key: "POPM:someone@example.org".to_string(),
                value: TagValue::UnsignedInt(196),
            },
        ],
        visuals: Vec::new(),
    };
    assert_eq!(probe_stream(&bytes), expected);
}

#[test]
fn probe_of_a_stream_without_tag_block_finds_no_block() {
    assert_eq!(probe_stream(&audio()), Probed::NoBlock);
}

#[test]
fn probe_of_a_tag_block_without_frames_finds_an_empty_block() {
    assert_eq!(probe_stream(&tagged(&[])), Probed::Block { tags: Vec::new(), visuals: Vec::new() });
}

#[test]
fn probe_rejects_what_no_format_accepts() {
    assert_eq!(probe_stream(&Vec::new()), Probed::Rejected);
    assert_eq!(probe_stream(&b"not a piece of music, just words".to_vec()), Probed::Rejected);
    assert_eq!(probe_stream(&tag_block(&[text_frame("TIT2", "Song")])), Probed::Rejected);
}

#[test]
fn probe_turns_away_a_restricted_tag_header() {
    let mut bytes = b"ID3".to_vec();
    bytes.extend([4, 0, 0x40, 0, 0, 0, 12]);
    bytes.extend([0, 0, 0, 6, 1, 0x10, 1, 0xc0]);
    bytes.extend([0; 4]);
    bytes.extend(audio());
    assert_eq!(probe_stream(&bytes), Probed::Rejected);
}

#[test]
fn probe_takes_a_tag_header_whose_restrictions_lack_the_bit() {
    let mut bytes = b"ID3".to_vec();
    bytes.extend([4, 0, 0x40, 0, 0, 0, 45]);
    bytes.extend([0, 0, 0, 6, 1, 0x10, 1, 0x80]);
    bytes.extend(late_frame("TIT2", b"\x03Song One"));
    bytes.extend([0; 18]);
    bytes.extend(audio());
    let record = read_mp3_metadata(&path("a.mp3"), Some(bytes)).unwrap();
    assert_eq!(record.title(), &text("Song One"));
}

#[test]
fn record_of_a_rejected_stream_is_an_unsupported_format() {
    let reading = record_of_probe(&path("a.mp3"), &Probed::Rejected);
    assert_eq!(reading, Err(PlayerError::UnsupportedFormat));
}

#[test]
fn record_of_a_stream_without_block_is_bare() {
    let reading = record_of_probe(&path("a.mp3"), &Probed::NoBlock);
    assert_eq!(reading, Ok(MetaData::new(&path("a.mp3"))));
}

#[test]
fn record_of_a_block_is_made_from_its_tags_and_images() {
    let block = Probed::Block {
        tags: vec![text_entry("TALB", "Album"), text_entry("TXXX:mood", "calm")],
        visuals: vec![MetaDataVisual { media_type: "image/png".to_string(), data: vec![1] }],
    };
    let record = record_of_probe(&path("a.mp3"), &block).unwrap();
    assert_eq!(record.path(), "a.mp3");
    assert_eq!(record.album(), &text("Album"));
    assert_eq!(record.title(), &None);
    assert_eq!(
        record.visual(),
        &Some(MetaDataVisual { media_type: "image/png".to_string(), data: vec![1] })
    );
}

#[test]
fn test() {
    let directory = vec![
        MediaFile {
            path: path("/music/Anime/eYe's/track1.mp3"),
            contents: Some(tagged(&[
                text_frame("TIT2", "Song One"),
                text_frame("TPE1", "Artist X"),
                picture_frame("image/jpeg", &[0xff, 0xd8, 0xff, 0xe0, 0, 16, 0x4a]),
            ])),
        },
        MediaFile { path: path("/music/Anime/eYe's/track2.mp3"), contents: Some(audio()) },
    ];
    let mut lines = Vec::new();
    for reading in find_files(directory) {
        let line = reading.unwrap().to_display_string();
        println!("{}", line);
        lines.push(line);
    }
    assert_eq!(
        lines,
        vec![
            "path:/music/Anime/eYe's/track1.mp3, title:Song One, artist:Artist X, group:, album:, \
             track_number:, visual:(media_type: image/jpeg, data:255,216,255,224,0,...255,224,0,16,74), ",
            "path:/music/Anime/eYe's/track2.mp3, title:, artist:, group:, album:, track_number:, \
             visual:(media_type: , data:,...), ",
        ]
    );
}

/// The header of a version 2.4 tag whose restrictions byte has bit `0x40` set.
fn restricted_header() -> Vec<u8> {
    let mut bytes = vec![0x49, 0x44, 0x33, 0x04, 0x00, 0x40];
    bytes.extend([0; 8]);
    bytes.extend([0x01, 0x10, 0x01, 0x40]);
    bytes
}

#[test]
fn restricted_header_behind_the_audio_is_never_read() {
    let mut bytes = audio();
    bytes.extend(restricted_header());
    assert_eq!(probe_stream(&bytes), Probed::NoBlock);
    let record = read_mp3_metadata(&path("a.mp3"), Some(bytes)).unwrap();
    assert_bare(&record, "a.mp3");
}

#[test]
fn restricted_header_inside_a_picture_is_part_of_the_cover_art() {
    let mut picture = vec![0xff, 0xd8, 0xff, 0xe0];
    picture.extend(restricted_header());
    picture.extend([7, 7, 7]);
    let bytes = tagged(&[text_frame("TIT2", "Song One"), picture_frame("image/jpeg", &picture)]);
    let record = read_mp3_metadata(&path("a.mp3"), Some(bytes)).unwrap();
    assert_eq!(record.title(), &text("Song One"));
    assert_eq!(
        record.visual(),
        &Some(MetaDataVisual { media_type: "image/jpeg".to_string(), data: picture })
    );
}

#[test]
fn restricted_header_inside_a_text_frame_is_part_of_the_text() {
    let mut body = vec![0];
    body.extend(b"ID3");
    body.extend([4, 1, 0x40, 1, 1, 1, 1, 1, 1, 1, 1, 1, 0x10, 1, 0x40]);
    let bytes = tagged(&[frame("TPE1", &body), text_frame("TIT2", "Song One")]);
    let record = read_mp3_metadata(&path("a.mp3"), Some(bytes)).unwrap();
    assert_eq!(record.title(), &text("Song One"));
    assert!(record.artist().as_ref().unwrap().starts_with("ID3"));
}

#[test]
fn restricted_header_of_a_second_tag_block_is_turned_away() {
    let mut bytes = tag_block(&[text_frame("TIT2", "Song One")]);
    bytes.extend(restricted_header());
    bytes.extend([0; 8]);
    bytes.extend(audio());
    assert_eq!(probe_stream(&bytes), Probed::Rejected);
}

#[test]
fn junk_ahead_of_the_tag_block_is_passed_over() {
    let mut bytes = vec![0, 1, 2, 3, 4, 5, 6];
    bytes.extend(tagged(&[text_frame("TALB", "Album")]));
    let record = read_mp3_metadata(&path("a.mp3"), Some(bytes)).unwrap();
    assert_eq!(record.album(), &text("Album"));
}

#[test]
fn junk_between_tag_block_and_audio_is_passed_over() {
    let mut bytes = tag_block(&[text_frame("TALB", "Album")]);
    bytes.extend([0, 1, 2, 3, 4, 5, 6, 0, 0]);
    bytes.extend(audio());
    let record = read_mp3_metadata(&path("a.mp3"), Some(bytes)).unwrap();
    assert_eq!(record.album(), &text("Album"));
}
