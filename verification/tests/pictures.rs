use lofty::file::{FileType, TaggedFile};
use lofty::picture::{MimeType, Picture, PictureType};
use lofty::properties::FileProperties;
use lofty::tag::{Tag, TagType};
use music_tagger::fields::Update;
use music_tagger::meta_picture::{
    from_lofty_picture, from_lofty_picture_slice, to_lofty_picture, MetaPicture,
};
use music_tagger::tagger::MusicTagger;

fn session(tag: Tag) -> MusicTagger {
    let mut tagger = MusicTagger::new();
    let file = TaggedFile::new(FileType::Flac, FileProperties::default(), vec![tag]);
    tagger.load_parsed(vec![0u8; 8], Ok(file)).unwrap();
    tagger
}

fn item(cover_type: &str, data: &[u8]) -> MetaPicture {
    MetaPicture {
        cover_type: cover_type.to_string(),
        mime_type: Some("image/png".to_string()),
        description: Some(format!("{} bytes", data.len())),
        data: data.to_vec(),
    }
}

fn covers(tagger: &MusicTagger) -> Vec<(String, Vec<u8>)> {
    tagger
        .get_pictures()
        .unwrap()
        .unwrap_or_default()
        .into_iter()
        .map(|p| (p.cover_type, p.data))
        .collect()
}

#[test]
fn a_new_item_is_a_front_cover() {
    let picture = MetaPicture::new("image/jpeg".to_string(), vec![1, 2, 3], None);
    assert_eq!(picture.cover_type, "Cover Art (Front)");
    assert_eq!(picture.mime_type, Some("image/jpeg".to_string()));
    assert_eq!(picture.description, None);
    assert_eq!(picture.data, vec![1, 2, 3]);
    let picture = MetaPicture::new(String::new(), Vec::new(), Some("d".to_string()));
    assert_eq!(picture.description, Some("d".to_string()));
}

#[test]
fn an_item_becomes_a_picture_of_its_type() {
    let picture = to_lofty_picture(&item("Cover Art (Back)", &[7, 8]));
    assert_eq!(picture.pic_type(), PictureType::CoverBack);
    assert_eq!(picture.mime_type(), Some(&MimeType::Png));
    assert_eq!(picture.description(), Some("2 bytes"));
    assert_eq!(picture.data(), &[7, 8]);
    let bare = MetaPicture {
        cover_type: "no such type".to_string(),
        mime_type: None,
        description: None,
        data: vec![],
    };
    let picture = to_lofty_picture(&bare);
    assert_eq!(picture.pic_type(), PictureType::Undefined(0));
    assert_eq!(picture.mime_type(), None);
    assert_eq!(picture.description(), None);
    assert!(picture.data().is_empty());
}

#[test]
fn a_picture_becomes_an_item_with_the_name_of_its_type() {
    let picture = Picture::unchecked(vec![1, 2])
        .pic_type(PictureType::Artist)
        .mime_type(MimeType::Jpeg)
        .description("someone")
        .build();
    let item = from_lofty_picture(&picture);
    assert_eq!(item.cover_type, "Cover Art (Artist)");
    assert_eq!(item.mime_type, Some("image/jpeg".to_string()));
    assert_eq!(item.description, Some("someone".to_string()));
    assert_eq!(item.data, vec![1, 2]);
}

#[test]
fn a_picture_of_a_type_without_a_name_is_unknown() {
    let picture = Picture::unchecked(vec![5]).pic_type(PictureType::Undefined(77)).build();
    let item = from_lofty_picture(&picture);
    assert_eq!(item.cover_type, "Unknown");
    assert_eq!(item.mime_type, None);
    assert_eq!(item.description, None);
    assert_eq!(item.data, vec![5]);
}

#[test]
fn an_empty_list_of_pictures_is_absent() {
    assert!(from_lofty_picture_slice(&[]).is_none());
    let pictures = vec![
        Picture::unchecked(vec![1]).pic_type(PictureType::CoverFront).build(),
        Picture::unchecked(vec![2]).pic_type(PictureType::CoverBack).build(),
    ];
    let items = from_lofty_picture_slice(&pictures).unwrap();
    assert_eq!(items.len(), 2);
    assert_eq!(items[0].cover_type, "Cover Art (Front)");
    assert_eq!(items[1].cover_type, "Cover Art (Back)");
    assert_eq!(items[1].data, vec![2]);
}

#[test]
fn a_tag_without_pictures_has_no_artwork() {
    let tagger = session(Tag::new(TagType::VorbisComments));
    assert!(tagger.get_pictures().unwrap().is_none());
}

#[test]
fn artwork_reads_back_in_order() {
    let mut tagger = session(Tag::new(TagType::VorbisComments));
    let list = vec![
        item("Cover Art (Front)", &[1]),
        item("Cover Art (Back)", &[2, 2]),
        item("Cover Art (Artist)", &[3, 3, 3]),
    ];
    tagger.set_pictures(Update::SetTo(list)).unwrap();
    let read = tagger.get_pictures().unwrap().unwrap();
    assert_eq!(read.len(), 3);
    assert_eq!(read[0].cover_type, "Cover Art (Front)");
    assert_eq!(read[0].mime_type, Some("image/png".to_string()));
    assert_eq!(read[0].description, Some("1 bytes".to_string()));
    assert_eq!(read[0].data, vec![1]);
    assert_eq!(read[1].cover_type, "Cover Art (Back)");
    assert_eq!(read[1].data, vec![2, 2]);
    assert_eq!(read[2].cover_type, "Cover Art (Artist)");
    assert_eq!(read[2].data, vec![3, 3, 3]);
}

#[test]
fn a_shorter_list_replaces_in_place_and_removes_the_rest() {
    let mut tag = Tag::new(TagType::VorbisComments);
    for (i, kind) in
        [PictureType::CoverFront, PictureType::CoverBack, PictureType::Artist].into_iter().enumerate()
    {
        tag.push_picture(Picture::unchecked(vec![i as u8]).pic_type(kind).build());
    }
    let mut tagger = session(tag);
    assert_eq!(covers(&tagger).len(), 3);
    tagger.set_pictures(Update::SetTo(vec![item("Cover Art (Media)", &[9])])).unwrap();
    assert_eq!(covers(&tagger), vec![("Cover Art (Media)".to_string(), vec![9])]);
}

#[test]
fn a_longer_list_replaces_in_place_and_appends() {
    let mut tag = Tag::new(TagType::VorbisComments);
    tag.push_picture(Picture::unchecked(vec![0]).pic_type(PictureType::CoverFront).build());
    let mut tagger = session(tag);
    let list = vec![
        item("Cover Art (Back)", &[1]),
        item("Cover Art (Artist)", &[2]),
        item("Cover Art (Band)", &[3]),
    ];
    tagger.set_pictures(Update::SetTo(list)).unwrap();
    assert_eq!(
        covers(&tagger),
        vec![
            ("Cover Art (Back)".to_string(), vec![1]),
            ("Cover Art (Artist)".to_string(), vec![2]),
            ("Cover Art (Band)".to_string(), vec![3]),
        ]
    );
}

#[test]
fn clearing_or_an_empty_list_removes_all_artwork() {
    let mut tag = Tag::new(TagType::VorbisComments);
    tag.push_picture(Picture::unchecked(vec![0]).pic_type(PictureType::CoverFront).build());
    tag.push_picture(Picture::unchecked(vec![1]).pic_type(PictureType::CoverBack).build());
    let mut tagger = session(tag.clone());
    tagger.set_pictures(Update::Clear).unwrap();
    assert!(tagger.get_pictures().unwrap().is_none());
    let mut tagger = session(tag);
    tagger.set_pictures(Update::SetTo(Vec::new())).unwrap();
    assert!(tagger.get_pictures().unwrap().is_none());
}

#[test]
fn a_cover_type_without_a_picture_type_reads_back_as_unknown() {
    let mut tagger = session(Tag::new(TagType::VorbisComments));
    tagger.set_pictures(Update::SetTo(vec![item("Holiday snapshot", &[4])])).unwrap();
    assert_eq!(covers(&tagger), vec![("Unknown".to_string(), vec![4])]);
}

#[test]
fn mime_types_are_read_back_in_their_usual_spelling() {
    let mut tagger = session(Tag::new(TagType::VorbisComments));
    let mut first = item("Cover Art (Front)", &[1]);
    first.mime_type = Some("IMAGE/JPG".to_string());
    let mut second = item("Cover Art (Back)", &[2]);
    second.mime_type = Some("image/webp".to_string());
    let mut third = item("Cover Art (Band)", &[3]);
    third.mime_type = None;
    third.description = None;
    tagger.set_pictures(Update::SetTo(vec![first, second, third])).unwrap();
    let read = tagger.get_pictures().unwrap().unwrap();
    assert_eq!(read[0].mime_type, Some("image/jpeg".to_string()));
    assert_eq!(read[1].mime_type, Some("image/webp".to_string()));
    assert_eq!(read[2].mime_type, None);
    assert_eq!(read[2].description, None);
}

#[test]
fn changing_a_returned_item_does_not_change_the_tag() {
    let mut tagger = session(Tag::new(TagType::VorbisComments));
    tagger.set_pictures(Update::SetTo(vec![item("Cover Art (Front)", &[1, 2, 3])])).unwrap();
    let mut read = tagger.get_pictures().unwrap().unwrap();
    read[0].data.clear();
    read[0].cover_type = "Cover Art (Back)".to_string();
    assert_eq!(covers(&tagger), vec![("Cover Art (Front)".to_string(), vec![1, 2, 3])]);
}

#[test]
fn artwork_leaves_the_text_fields_alone() {
    let mut tagger = session(Tag::new(TagType::VorbisComments));
    tagger.set_title(Update::SetTo("t".to_string())).unwrap();
    tagger.set_pictures(Update::SetTo(vec![item("Cover Art (Front)", &[1])])).unwrap();
    tagger.set_artist(Update::SetTo("a".to_string())).unwrap();
    assert_eq!(tagger.title().unwrap(), Some("t".to_string()));
    assert_eq!(tagger.artist().unwrap(), Some("a".to_string()));
    assert_eq!(covers(&tagger).len(), 1);
}
