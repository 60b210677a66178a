use lofty::file::{FileType, TaggedFile};
use lofty::properties::FileProperties;
use lofty::tag::{ItemKey, Tag, TagType};
use music_tagger::error::ErrorKind;
use music_tagger::fields::{GainField, NumberField, StarLevel, TagKind, TextField, Update};
use music_tagger::replay_gain::{GainValue, MAX_MILLIONTHS};
use music_tagger::tagger::MusicTagger;

fn session(file_type: FileType, tag: Tag) -> MusicTagger {
    let mut tagger = MusicTagger::new();
    tagger
        .load_parsed(vec![0u8; 8], Ok(TaggedFile::new(file_type, FileProperties::default(), vec![tag])))
        .unwrap();
    tagger
}

fn vorbis() -> MusicTagger {
    session(FileType::Flac, Tag::new(TagType::VorbisComments))
}

fn text(s: &str) -> Update<String> {
    Update::SetTo(s.to_string())
}

#[test]
fn every_text_field_is_absent_in_an_empty_tag() {
    let tagger = vorbis();
    for field in [
        TextField::Title,
        TextField::Artist,
        TextField::Album,
        TextField::Genre,
        TextField::Comment,
        TextField::AlbumArtist,
        TextField::Composer,
        TextField::Conductor,
        TextField::Lyricist,
        TextField::Publisher,
        TextField::Lyrics,
        TextField::Copyright,
    ] {
        assert_eq!(tagger.text(field).unwrap(), None);
    }
    assert_eq!(tagger.year().unwrap(), None);
    assert_eq!(tagger.rating().unwrap(), None);
    assert_eq!(tagger.get_pictures().unwrap().map(|p| p.len()), None);
}

#[test]
fn every_text_field_reads_back_what_was_stored() {
    let mut tagger = vorbis();
    let fields = [
        TextField::Title,
        TextField::Artist,
        TextField::Album,
        TextField::Genre,
        TextField::Comment,
        TextField::AlbumArtist,
        TextField::Composer,
        TextField::Conductor,
        TextField::Lyricist,
        TextField::Publisher,
        TextField::Lyrics,
        TextField::Copyright,
    ];
    for (i, field) in fields.iter().enumerate() {
        tagger.set_text(*field, text(&format!("value {}", i))).unwrap();
    }
    for (i, field) in fields.iter().enumerate() {
        assert_eq!(tagger.text(*field).unwrap(), Some(format!("value {}", i)));
    }
}

#[test]
fn named_text_accessors_go_to_their_own_field() {
    let mut tagger = vorbis();
    tagger.set_title(text("t")).unwrap();
    tagger.set_artist(text("a")).unwrap();
    tagger.set_album(text("al")).unwrap();
    tagger.set_genre(text("g")).unwrap();
    tagger.set_comment(text("c")).unwrap();
    tagger.set_album_artist(text("aa")).unwrap();
    tagger.set_composer(text("co")).unwrap();
    tagger.set_conductor(text("cd")).unwrap();
    tagger.set_lyricist(text("ly")).unwrap();
    tagger.set_publisher(text("p")).unwrap();
    tagger.set_lyrics(text("la la")).unwrap();
    tagger.set_copyright(text("(c)")).unwrap();
    assert_eq!(tagger.title().unwrap(), Some("t".to_string()));
    assert_eq!(tagger.artist().unwrap(), Some("a".to_string()));
    assert_eq!(tagger.album().unwrap(), Some("al".to_string()));
    assert_eq!(tagger.genre().unwrap(), Some("g".to_string()));
    assert_eq!(tagger.comment().unwrap(), Some("c".to_string()));
    assert_eq!(tagger.album_artist().unwrap(), Some("aa".to_string()));
    assert_eq!(tagger.composer().unwrap(), Some("co".to_string()));
    assert_eq!(tagger.conductor().unwrap(), Some("cd".to_string()));
    assert_eq!(tagger.lyricist().unwrap(), Some("ly".to_string()));
    assert_eq!(tagger.publisher().unwrap(), Some("p".to_string()));
    assert_eq!(tagger.lyrics().unwrap(), Some("la la".to_string()));
    assert_eq!(tagger.copyright().unwrap(), Some("(c)".to_string()));
    assert_eq!(tagger.text(TextField::Title).unwrap(), Some("t".to_string()));
    assert_eq!(tagger.text(TextField::Copyright).unwrap(), Some("(c)".to_string()));
}

#[test]
fn fields_are_stored_under_their_native_keys() {
    let mut tag = Tag::new(TagType::VorbisComments);
    tag.insert_text(ItemKey::TrackTitle, "t".to_string());
    tag.insert_text(ItemKey::TrackArtist, "a".to_string());
    tag.insert_text(ItemKey::AlbumTitle, "al".to_string());
    tag.insert_text(ItemKey::Genre, "g".to_string());
    tag.insert_text(ItemKey::Comment, "c".to_string());
    tag.insert_text(ItemKey::AlbumArtist, "aa".to_string());
    tag.insert_text(ItemKey::Composer, "co".to_string());
    tag.insert_text(ItemKey::Conductor, "cd".to_string());
    tag.insert_text(ItemKey::Lyricist, "ly".to_string());
    tag.insert_text(ItemKey::Publisher, "p".to_string());
    tag.insert_text(ItemKey::Lyrics, "la la".to_string());
    tag.insert_text(ItemKey::CopyrightMessage, "(c)".to_string());
    tag.insert_text(ItemKey::TrackNumber, "3".to_string());
    tag.insert_text(ItemKey::TrackTotal, "12".to_string());
    tag.insert_text(ItemKey::DiscNumber, "1".to_string());
    tag.insert_text(ItemKey::DiscTotal, "2".to_string());
    tag.insert_text(ItemKey::ReplayGainTrackGain, "-6.50 dB".to_string());
    tag.insert_text(ItemKey::ReplayGainTrackPeak, "0.987654".to_string());
    tag.insert_text(ItemKey::ReplayGainAlbumGain, "+1.25 dB".to_string());
    tag.insert_text(ItemKey::ReplayGainAlbumPeak, "1.000000".to_string());
    tag.insert_text(ItemKey::RecordingDate, "1999-12-31".to_string());
    let tagger = session(FileType::Flac, tag);
    assert_eq!(tagger.title().unwrap(), Some("t".to_string()));
    assert_eq!(tagger.artist().unwrap(), Some("a".to_string()));
    assert_eq!(tagger.album().unwrap(), Some("al".to_string()));
    assert_eq!(tagger.genre().unwrap(), Some("g".to_string()));
    assert_eq!(tagger.comment().unwrap(), Some("c".to_string()));
    assert_eq!(tagger.album_artist().unwrap(), Some("aa".to_string()));
    assert_eq!(tagger.composer().unwrap(), Some("co".to_string()));
    assert_eq!(tagger.conductor().unwrap(), Some("cd".to_string()));
    assert_eq!(tagger.lyricist().unwrap(), Some("ly".to_string()));
    assert_eq!(tagger.publisher().unwrap(), Some("p".to_string()));
    assert_eq!(tagger.lyrics().unwrap(), Some("la la".to_string()));
    assert_eq!(tagger.copyright().unwrap(), Some("(c)".to_string()));
    assert_eq!(tagger.track_number().unwrap(), Some(3));
    assert_eq!(tagger.track_total().unwrap(), Some(12));
    assert_eq!(tagger.disc_number().unwrap(), Some(1));
    assert_eq!(tagger.discs_total().unwrap(), Some(2));
    assert_eq!(tagger.track_replay_gain().unwrap(), Some(GainValue { millionths: -6_500_000 }));
    assert_eq!(tagger.track_replay_peak().unwrap(), Some(GainValue { millionths: 987_654 }));
    assert_eq!(tagger.album_replay_gain().unwrap(), Some(GainValue { millionths: 1_250_000 }));
    assert_eq!(tagger.album_replay_peak().unwrap(), Some(GainValue { millionths: 1_000_000 }));
    assert_eq!(tagger.year().unwrap(), Some(1999));
}

#[test]
fn an_empty_text_is_stored_and_a_cleared_field_is_absent() {
    let mut tagger = vorbis();
    tagger.set_title(text("")).unwrap();
    assert_eq!(tagger.title().unwrap(), Some(String::new()));
    tagger.set_title(Update::Clear).unwrap();
    assert_eq!(tagger.title().unwrap(), None);
    tagger.set_title(Update::Clear).unwrap();
    assert_eq!(tagger.title().unwrap(), None);
}

#[test]
fn storing_a_field_leaves_the_others_alone() {
    let mut tagger = vorbis();
    tagger.set_title(text("t")).unwrap();
    tagger.set_track_number(Update::SetTo(4)).unwrap();
    tagger.set_rating(Update::SetTo(2)).unwrap();
    tagger.set_artist(text("a")).unwrap();
    tagger.set_artist(text("b")).unwrap();
    tagger.set_album(text("x")).unwrap();
    tagger.set_album(Update::Clear).unwrap();
    assert_eq!(tagger.title().unwrap(), Some("t".to_string()));
    assert_eq!(tagger.artist().unwrap(), Some("b".to_string()));
    assert_eq!(tagger.album().unwrap(), None);
    assert_eq!(tagger.track_number().unwrap(), Some(4));
    assert_eq!(tagger.rating().unwrap(), Some(2));
}

#[test]
fn a_field_that_the_format_has_no_key_for_is_left_as_it_is() {
    let mut tagger = session(FileType::Mpeg, Tag::new(TagType::Id3v1));
    tagger.set_composer(text("c")).unwrap();
    assert_eq!(tagger.composer().unwrap(), None);
    tagger.set_rating(Update::SetTo(4)).unwrap();
    assert_eq!(tagger.rating().unwrap(), None);
    tagger.set_title(text("t")).unwrap();
    assert_eq!(tagger.title().unwrap(), Some("t".to_string()));
}

#[test]
fn numbers_read_back_as_they_were_stored() {
    let mut tagger = vorbis();
    for (field, n) in [
        (NumberField::TrackNumber, 0u32),
        (NumberField::TrackTotal, 12),
        (NumberField::DiscNumber, 1),
        (NumberField::DiscTotal, u32::MAX),
    ] {
        tagger.set_number(field, Update::SetTo(n)).unwrap();
        assert_eq!(tagger.number(field).unwrap(), Some(n));
    }
    tagger.set_track_number(Update::SetTo(9)).unwrap();
    tagger.set_track_total(Update::SetTo(10)).unwrap();
    tagger.set_disc_number(Update::SetTo(2)).unwrap();
    tagger.set_discs_total(Update::SetTo(3)).unwrap();
    assert_eq!(tagger.track_number().unwrap(), Some(9));
    assert_eq!(tagger.track_total().unwrap(), Some(10));
    assert_eq!(tagger.disc_number().unwrap(), Some(2));
    assert_eq!(tagger.discs_total().unwrap(), Some(3));
    tagger.set_track_number(Update::Clear).unwrap();
    assert_eq!(tagger.track_number().unwrap(), None);
    assert_eq!(tagger.track_total().unwrap(), Some(10));
}

#[test]
fn a_numeric_field_is_read_as_an_unsigned_number() {
    for (text, number) in [
        ("0", Some(0u32)),
        ("12", Some(12)),
        ("+12", Some(12)),
        ("007", Some(7)),
        ("4294967295", Some(u32::MAX)),
        ("4294967296", None),
        ("-0", None),
        ("-1", None),
        ("", None),
        ("+", None),
        (" 1", None),
        ("1 ", None),
        ("1.0", None),
    ] {
        let mut tag = Tag::new(TagType::VorbisComments);
        tag.insert_text(ItemKey::TrackNumber, text.to_string());
        let tagger = session(FileType::Flac, tag);
        assert_eq!(tagger.track_number().unwrap(), number, "{:?}", text);
    }
}

#[test]
fn a_number_is_stored_as_its_shortest_decimal_text() {
    let mut tagger = vorbis();
    tagger.set_track_number(Update::SetTo(7)).unwrap();
    tagger.set_discs_total(Update::SetTo(0)).unwrap();
    tagger.save_buffer().unwrap_err();
    let mut flac = MusicTagger::new();
    let mut bytes = b"fLaC".to_vec();
    bytes.extend_from_slice(&[0x00, 0, 0, 34, 0x10, 0x00, 0x10, 0x00, 0, 0, 0, 0, 0, 0]);
    bytes.extend_from_slice(&[0x0A, 0xC4, 0x42, 0xF0, 0x00, 0x06, 0xBA, 0xA8]);
    bytes.extend_from_slice(&[0; 16]);
    bytes.extend_from_slice(&[0x84, 0, 0, 8, 0, 0, 0, 0, 0, 0, 0, 0]);
    flac.load_buffer(bytes).unwrap();
    flac.set_track_number(Update::SetTo(4_000_000_000)).unwrap();
    flac.save_buffer().unwrap();
    let saved = flac.buffer().unwrap();
    assert!(saved.windows(22).any(|w| w == b"TRACKNUMBER=4000000000"));
}

#[test]
fn a_numeric_field_that_holds_no_number_is_absent() {
    let mut tag = Tag::new(TagType::VorbisComments);
    tag.insert_text(ItemKey::TrackNumber, "3/12".to_string());
    tag.insert_text(ItemKey::DiscNumber, "one".to_string());
    let tagger = session(FileType::Flac, tag);
    assert_eq!(tagger.track_number().unwrap(), None);
    assert_eq!(tagger.disc_number().unwrap(), None);
}

#[test]
fn ratings_from_one_to_five_read_back() {
    let mut tagger = vorbis();
    for stars in 1..=5 {
        tagger.set_rating(Update::SetTo(stars)).unwrap();
        assert_eq!(tagger.rating().unwrap(), Some(stars as u32));
    }
    tagger.set_rating(Update::Clear).unwrap();
    assert_eq!(tagger.rating().unwrap(), None);
}

#[test]
fn ratings_read_back_in_every_format_that_keeps_them() {
    for (file_type, tag_type) in [
        (FileType::Mpeg, TagType::Id3v2),
        (FileType::Flac, TagType::VorbisComments),
        (FileType::Mp4, TagType::Mp4Ilst),
        (FileType::Wav, TagType::RiffInfo),
    ] {
        let mut tagger = session(file_type, Tag::new(tag_type));
        tagger.set_rating(Update::SetTo(4)).unwrap();
        assert_eq!(tagger.rating().unwrap(), Some(4), "{:?}", tag_type);
    }
}

#[test]
fn a_rating_outside_one_to_five_is_an_invalid_argument() {
    let mut tagger = vorbis();
    tagger.set_rating(Update::SetTo(3)).unwrap();
    for stars in [0, 6, -1, 100, i32::MIN, i32::MAX] {
        let err = tagger.set_rating(Update::SetTo(stars)).unwrap_err();
        assert_eq!(err.kind(), ErrorKind::InvalidArgument);
        assert_eq!(tagger.rating().unwrap(), Some(3));
    }
    let mut unloaded = MusicTagger::new();
    let err = unloaded.set_rating(Update::SetTo(9)).unwrap_err();
    assert_eq!(err.kind(), ErrorKind::InvalidArgument);
    assert!(unloaded.is_disposed());
}

#[test]
fn a_rating_is_stored_as_one_popularity_record() {
    let mut tagger = vorbis();
    tagger.set_rating(Update::SetTo(5)).unwrap();
    tagger.set_rating(Update::SetTo(3)).unwrap();
    assert_eq!(tagger.rating().unwrap(), Some(3));
}

#[test]
fn a_stored_rating_outside_the_five_levels_is_absent() {
    let mut tag = Tag::new(TagType::VorbisComments);
    tag.insert_text(ItemKey::Popularimeter, "MusicBee|9|0".to_string());
    let tagger = session(FileType::Flac, tag);
    assert_eq!(tagger.rating().unwrap(), None);
    let mut tag = Tag::new(TagType::VorbisComments);
    tag.insert_text(ItemKey::Popularimeter, "not a record".to_string());
    let tagger = session(FileType::Flac, tag);
    assert_eq!(tagger.rating().unwrap(), None);
}

#[test]
fn years_read_back_in_every_format() {
    for (file_type, tag_type) in [
        (FileType::Mpeg, TagType::Id3v2),
        (FileType::Mpeg, TagType::Id3v1),
        (FileType::Flac, TagType::VorbisComments),
        (FileType::Mp4, TagType::Mp4Ilst),
        (FileType::Wav, TagType::RiffInfo),
        (FileType::Ape, TagType::Ape),
    ] {
        let mut tagger = session(file_type, Tag::new(tag_type));
        tagger.set_year(Update::SetTo(7)).unwrap();
        assert_eq!(tagger.year().unwrap(), Some(7), "{:?}", tag_type);
        tagger.set_year(Update::SetTo(0)).unwrap();
        assert_eq!(tagger.year().unwrap(), Some(0), "{:?}", tag_type);
    }
}

#[test]
fn years_read_back() {
    let mut tagger = vorbis();
    tagger.set_year(Update::SetTo(1999)).unwrap();
    assert_eq!(tagger.year().unwrap(), Some(1999));
    tagger.set_year(Update::SetTo(2024)).unwrap();
    assert_eq!(tagger.year().unwrap(), Some(2024));
    tagger.set_title(text("t")).unwrap();
    tagger.set_year(Update::Clear).unwrap();
    assert_eq!(tagger.year().unwrap(), None);
    assert_eq!(tagger.title().unwrap(), Some("t".to_string()));
}

#[test]
fn a_year_of_more_than_four_digits_is_an_invalid_argument() {
    let mut tagger = vorbis();
    tagger.set_year(Update::SetTo(9999)).unwrap();
    assert_eq!(tagger.year().unwrap(), Some(9999));
    for year in [10_000, 65_536, u32::MAX] {
        let err = tagger.set_year(Update::SetTo(year)).unwrap_err();
        assert_eq!(err.kind(), ErrorKind::InvalidArgument);
        assert_eq!(tagger.year().unwrap(), Some(9999));
    }
}

#[test]
fn gains_are_stored_with_two_decimals_and_the_unit() {
    let mut tagger = vorbis();
    tagger.set_track_replay_gain(Update::SetTo(GainValue { millionths: -6_543_210 })).unwrap();
    tagger.set_album_replay_gain(Update::SetTo(GainValue { millionths: 1_230_000 })).unwrap();
    assert_eq!(tagger.track_replay_gain().unwrap(), Some(GainValue { millionths: -6_540_000 }));
    assert_eq!(tagger.album_replay_gain().unwrap(), Some(GainValue { millionths: 1_230_000 }));
    tagger.save_buffer().unwrap_err();
}

#[test]
fn peaks_are_stored_with_six_decimals() {
    let mut tagger = vorbis();
    tagger.set_track_replay_peak(Update::SetTo(GainValue { millionths: 987_654 })).unwrap();
    tagger.set_album_replay_peak(Update::SetTo(GainValue { millionths: 1_000_001 })).unwrap();
    assert_eq!(tagger.track_replay_peak().unwrap(), Some(GainValue { millionths: 987_654 }));
    assert_eq!(tagger.album_replay_peak().unwrap(), Some(GainValue { millionths: 1_000_001 }));
    assert_eq!(tagger.gain(GainField::TrackPeak).unwrap(), Some(GainValue { millionths: 987_654 }));
    tagger.set_gain(GainField::TrackPeak, Update::Clear).unwrap();
    assert_eq!(tagger.track_replay_peak().unwrap(), None);
    assert_eq!(tagger.album_replay_peak().unwrap(), Some(GainValue { millionths: 1_000_001 }));
}

#[test]
fn a_loudness_value_beyond_the_valid_range_is_an_invalid_argument() {
    let mut tagger = vorbis();
    tagger.set_track_replay_gain(Update::SetTo(GainValue { millionths: 1_000_000 })).unwrap();
    for millionths in [MAX_MILLIONTHS + 1, -MAX_MILLIONTHS - 1, i64::MAX, i64::MIN] {
        let value = GainValue { millionths };
        let err = tagger.set_track_replay_gain(Update::SetTo(value)).unwrap_err();
        assert_eq!(err.kind(), ErrorKind::InvalidArgument);
        let err = tagger.set_album_replay_peak(Update::SetTo(value)).unwrap_err();
        assert_eq!(err.kind(), ErrorKind::InvalidArgument);
    }
    assert_eq!(tagger.track_replay_gain().unwrap(), Some(GainValue { millionths: 1_000_000 }));
    assert_eq!(tagger.album_replay_peak().unwrap(), None);
    tagger.set_album_replay_peak(Update::SetTo(GainValue { millionths: MAX_MILLIONTHS })).unwrap();
    assert_eq!(
        tagger.album_replay_peak().unwrap(),
        Some(GainValue { millionths: MAX_MILLIONTHS })
    );
    let mut unloaded = MusicTagger::new();
    let value = GainValue { millionths: i64::MAX };
    let err = unloaded.set_track_replay_gain(Update::SetTo(value)).unwrap_err();
    assert_eq!(err.kind(), ErrorKind::InvalidArgument);
}

#[test]
fn a_loudness_text_of_another_writer_is_read_leniently() {
    let mut tag = Tag::new(TagType::VorbisComments);
    tag.insert_text(ItemKey::ReplayGainTrackGain, "  -7.5dB ".to_string());
    tag.insert_text(ItemKey::ReplayGainAlbumGain, "loud".to_string());
    let tagger = session(FileType::Flac, tag);
    assert_eq!(tagger.track_replay_gain().unwrap(), Some(GainValue { millionths: -7_500_000 }));
    assert_eq!(tagger.album_replay_gain().unwrap(), None);
}

#[test]
fn star_levels_and_numbers_of_stars() {
    assert_eq!(StarLevel::from_stars(1), Some(StarLevel::One));
    assert_eq!(StarLevel::from_stars(5), Some(StarLevel::Five));
    assert_eq!(StarLevel::from_stars(0), None);
    assert_eq!(StarLevel::from_stars(6), None);
    assert_eq!(StarLevel::from_stars(-3), None);
    for stars in 1..=5i64 {
        assert_eq!(StarLevel::from_stars(stars).map(|l| l.stars()), Some(stars as u32));
    }
}

#[test]
fn tag_kinds_have_labels() {
    assert_eq!(TagKind::Id3v2.label(), Some("ID3V2".to_string()));
    assert_eq!(TagKind::Mp4Ilst.label(), Some("ILST".to_string()));
    assert_eq!(TagKind::Other.label(), None);
}
