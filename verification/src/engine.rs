//! The container engine: the outside types that hold a parsed file, what they
//! hold as contracts speak of it, and one thin function for each engine call
//! that the library makes. Nothing in this file is proved; each contract says
//! what the engine's source shows of the call.

use vstd::prelude::*;
use crate::decimal::{decimal_text, spec_parse_u32};
use crate::fields::{Field, GainField, NumberField, StarLevel, TagKind, TextField};
use crate::meta_picture::{opt_text, MetaPicture, PictureModel, PictureParts};
use crate::quality::{AudioProperties, ContainerKind};
use lofty::file::{AudioFile, FileType, TaggedFile, TaggedFileExt};
use lofty::picture::{MimeType, Picture, PictureType};
use lofty::tag::items::popularimeter::{Popularimeter, StarRating};
use lofty::tag::items::Timestamp;
use lofty::tag::{Accessor, ItemKey, Tag, TagType};

verus! {

#[verifier::external_type_specification]
#[verifier::external_body]
pub struct ExTaggedFile(TaggedFile);

#[verifier::external_type_specification]
#[verifier::external_body]
pub struct ExTag(Tag);

#[verifier::external_type_specification]
#[verifier::external_body]
pub struct ExPicture(Picture);

#[verifier::external_type_specification]
#[verifier::external_body]
pub struct ExItemKey(ItemKey);

/// What a parsed file holds.
pub ghost struct FileModel {
    pub container: ContainerKind,
    pub audio: AudioProperties,
    /// The file's tags, in the file's own order.
    pub tags: Seq<Tag>,
    /// The position of the first tag of the container's primary format, if
    /// there is one.
    pub primary: Option<int>,
}

/// What a tag holds. The rating is read with the engine's own rating
/// providers, as they are while the process registers none of its own.
pub ghost struct TagModel {
    pub kind: TagKind,
    /// The fields that the tag's format has a native key for.
    pub accepts: Set<Field>,
    /// For each field whose key has items in the tag, and a text item first
    /// among them, that text.
    pub texts: Map<Field, Seq<char>>,
    /// The first star rating that the tag's popularity records give.
    pub rating: Option<StarLevel>,
    /// Whether the tag's format has a native key for recording dates.
    pub accepts_date: bool,
    /// The year of the tag's recording date.
    pub year: Option<u32>,
    pub pictures: Seq<PictureModel>,
}

/// What a parsed file holds.
pub uninterp spec fn file_model(file: TaggedFile) -> FileModel;

/// What a tag holds.
pub uninterp spec fn tag_model(tag: Tag) -> TagModel;

/// What a picture holds.
pub uninterp spec fn picture_model(picture: Picture) -> PictureModel;

/// The field that a native key stands for, if it stands for one.
pub uninterp spec fn item_key_field(key: ItemKey) -> Option<Field>;

/// The file that parsing a buffer gives, where the buffer holds an audio
/// file that the engine can read, with the options it starts with and no
/// resolver of the process's own.
pub uninterp spec fn file_of_bytes(bytes: Seq<u8>) -> Option<TaggedFile>;

/// What writing a file's tags into a container gives: the bytes written, or
/// the message of the failure. The engine writes with the options it starts
/// with and no resolver of the process's own.
pub uninterp spec fn rendered(file: TaggedFile, base: Seq<u8>) -> Result<Seq<u8>, Seq<char>>;

/// Whether a text is the name of one of the engine's picture types.
pub open spec fn spec_is_cover_key(key: Seq<char>) -> bool {
    key == "Cover Art (Other)"@
        || key == "Cover Art (Png Icon)"@
        || key == "Cover Art (Icon)"@
        || key == "Cover Art (Front)"@
        || key == "Cover Art (Back)"@
        || key == "Cover Art (Leaflet)"@
        || key == "Cover Art (Media)"@
        || key == "Cover Art (Lead Artist)"@
        || key == "Cover Art (Artist)"@
        || key == "Cover Art (Conductor)"@
        || key == "Cover Art (Band)"@
        || key == "Cover Art (Composer)"@
        || key == "Cover Art (Lyricist)"@
        || key == "Cover Art (Recording Location)"@
        || key == "Cover Art (During Recording)"@
        || key == "Cover Art (During Performance)"@
        || key == "Cover Art (Video Capture)"@
        || key == "Cover Art (Fish)"@
        || key == "Cover Art (Illustration)"@
        || key == "Cover Art (Band Logotype)"@
        || key == "Cover Art (Publisher Logotype)"@
}

/// The name of the picture type that a cover-type name selects: the name
/// itself where it is the name of a picture type; none for any other text,
/// which selects a type without a name.
pub open spec fn spec_canonical_cover_key(cover_type: Seq<char>) -> Option<Seq<char>> {
    if spec_is_cover_key(cover_type) {
        Some(cover_type)
    } else {
        None
    }
}

/// The MIME type that a MIME string is stored as.
pub uninterp spec fn canonical_mime(mime: Seq<char>) -> Seq<char>;

/// The text of a popularity record of the given level, for the player
/// `MusicBee` and a play count of zero.
pub open spec fn rating_text(level: StarLevel) -> Seq<char> {
    "MusicBee|"@ + seq![
        match level {
            StarLevel::One => '1',
            StarLevel::Two => '2',
            StarLevel::Three => '3',
            StarLevel::Four => '4',
            StarLevel::Five => '5',
        },
    ] + "|0"@
}

/// The number that a tag holds under a numeric field: the one that the text
/// under the field writes, if there is a text and it writes one.
pub open spec fn spec_number_read(tag: TagModel, field: NumberField) -> Option<u32> {
    if tag.texts.contains_key(Field::Number(field)) {
        spec_parse_u32(tag.texts[Field::Number(field)])
    } else {
        None
    }
}

/// A tag after a number was stored under a numeric field: the number's
/// shortest decimal text stands under the field where the tag's format has
/// a native key for it; else the tag is as it was.
pub open spec fn spec_number_stored(before: TagModel, field: NumberField, value: u32) -> TagModel {
    if before.accepts.contains(Field::Number(field)) {
        TagModel {
            texts: before.texts.insert(Field::Number(field), decimal_text(value as nat)),
            ..before
        }
    } else {
        before
    }
}

/// A tag after a numeric field was removed: nothing stands under the field.
pub open spec fn spec_number_removed(before: TagModel, field: NumberField) -> TagModel {
    TagModel { texts: before.texts.remove(Field::Number(field)), ..before }
}

/// What a stored picture built from an artwork item holds.
pub open spec fn spec_stored_of(item: MetaPicture) -> PictureModel {
    PictureModel {
        cover_key: spec_canonical_cover_key(item.cover_type@),
        mime_type: match item.mime_type {
            Some(m) => Some(canonical_mime(m@)),
            None => None,
        },
        description: opt_text(item.description),
        data: item.data@,
    }
}

/// `Probe::new` on a cursor over the bytes, then `guess_file_type` and `read`:
/// the parsed file, or the message of the first failure. The guess names no
/// format of the process's own while the process registers no resolver, so
/// `read` has none to look up.
#[verifier::external_body]
pub(crate) fn probe_bytes(bytes: &Vec<u8>) -> (r: Result<TaggedFile, String>)
    ensures
        r is Ok <==> file_of_bytes(bytes@) is Some,
        r is Ok ==> r->Ok_0 == file_of_bytes(bytes@)->0,
{
    lofty::probe::Probe::new(std::io::Cursor::new(bytes)).guess_file_type().map_err(
        |e| e.to_string(),
    )?.read().map_err(|e| e.to_string())
}

/// `TaggedFileExt::file_type`, variant by variant.
#[verifier::external_body]
pub(crate) fn file_container(file: &TaggedFile) -> (r: ContainerKind)
    ensures
        r == file_model(*file).container,
{
    match file.file_type() {
        FileType::Aac => ContainerKind::Aac,
        FileType::Aiff => ContainerKind::Aiff,
        FileType::Ape => ContainerKind::Ape,
        FileType::Flac => ContainerKind::Flac,
        FileType::Mpeg => ContainerKind::Mpeg,
        FileType::Mp4 => ContainerKind::Mp4,
        FileType::Mpc => ContainerKind::Mpc,
        FileType::Opus => ContainerKind::Opus,
        FileType::Vorbis => ContainerKind::Vorbis,
        FileType::Speex => ContainerKind::Speex,
        FileType::Wav => ContainerKind::Wav,
        FileType::WavPack => ContainerKind::WavPack,
        _ => ContainerKind::Other,
    }
}

/// `AudioFile::properties`, getter by getter.
#[verifier::external_body]
pub(crate) fn file_audio(file: &TaggedFile) -> (r: AudioProperties)
    ensures
        r == file_model(*file).audio,
{
    let properties = file.properties();
    AudioProperties {
        sample_rate: properties.sample_rate(),
        bit_depth: properties.bit_depth(),
        channels: properties.channels(),
        audio_bitrate: properties.audio_bitrate(),
        duration_nanos: properties.duration().as_nanos(),
    }
}

/// `TaggedFileExt::primary_tag`: the first tag of the container's primary
/// format. A container of a format that the engine does not know by name is
/// left out: the engine looks its primary format up and panics where nothing
/// is registered for it.
#[verifier::external_body]
pub(crate) fn primary_tag(file: &TaggedFile) -> (r: Option<&Tag>)
    requires
        file_model(*file).container != ContainerKind::Other,
    ensures
        r is Some <==> file_model(*file).primary is Some,
        r is Some ==> 0 <= file_model(*file).primary->0 < file_model(*file).tags.len(),
        r is Some ==> *r->0 == file_model(*file).tags[file_model(*file).primary->0],
{
    file.primary_tag()
}

/// `TaggedFileExt::first_tag`: the first tag in the file's order.
#[verifier::external_body]
pub(crate) fn first_tag(file: &TaggedFile) -> (r: Option<&Tag>)
    ensures
        r is Some <==> file_model(*file).tags.len() > 0,
        r is Some ==> *r->0 == file_model(*file).tags[0],
{
    file.first_tag()
}

/// `TaggedFileExt::primary_tag_mut`: the tag that `primary_tag` gives, to be
/// changed in place. Nothing else in the file changes, and the primary
/// position stays where it is as long as the tag keeps its format. A
/// container of a format without a name is left out, as for `primary_tag`.
#[verifier::external_body]
pub(crate) fn primary_tag_mut(file: &mut TaggedFile) -> (r: Option<&mut Tag>)
    requires
        file_model(*old(file)).container != ContainerKind::Other,
    ensures
        r is Some <==> file_model(*old(file)).primary is Some,
        r is Some ==> 0 <= file_model(*old(file)).primary->0 < file_model(*old(file)).tags.len(),
        match r {
            Some(t) => {
                &&& *t == file_model(*old(file)).tags[file_model(*old(file)).primary->0]
                &&& file_model(*final(file)).tags == file_model(*old(file)).tags.update(
                    file_model(*old(file)).primary->0,
                    *final(t),
                )
                &&& file_model(*final(file)).container == file_model(*old(file)).container
                &&& file_model(*final(file)).audio == file_model(*old(file)).audio
                &&& tag_model(*final(t)).kind == tag_model(*t).kind ==> file_model(
                    *final(file),
                ).primary == file_model(*old(file)).primary
            },
            None => file_model(*final(file)) == file_model(*old(file)),
        },
{
    file.primary_tag_mut()
}

/// `TaggedFileExt::first_tag_mut`: the tag that `first_tag` gives, to be
/// changed in place. Nothing else in the file changes, and the primary
/// position stays where it is as long as the tag keeps its format.
#[verifier::external_body]
pub(crate) fn first_tag_mut(file: &mut TaggedFile) -> (r: Option<&mut Tag>)
    ensures
        r is Some <==> file_model(*old(file)).tags.len() > 0,
        match r {
            Some(t) => {
                &&& *t == file_model(*old(file)).tags[0]
                &&& file_model(*final(file)).tags == file_model(*old(file)).tags.update(
                    0,
                    *final(t),
                )
                &&& file_model(*final(file)).container == file_model(*old(file)).container
                &&& file_model(*final(file)).audio == file_model(*old(file)).audio
                &&& tag_model(*final(t)).kind == tag_model(*t).kind ==> file_model(
                    *final(file),
                ).primary == file_model(*old(file)).primary
            },
            None => file_model(*final(file)) == file_model(*old(file)),
        },
{
    file.first_tag_mut()
}

/// `AudioFile::save_to` with the default write options, on a cursor over a
/// copy of `base`: the bytes written, or the failure's message. A container
/// of a format without a name is left out: the engine looks up which tags
/// such a format can hold and panics where nothing is registered for it.
#[verifier::external_body]
pub(crate) fn render(file: &TaggedFile, base: &Vec<u8>) -> (r: Result<Vec<u8>, String>)
    requires
        file_model(*file).container != ContainerKind::Other,
    ensures
        r is Ok <==> rendered(*file, base@) is Ok,
        r is Ok ==> r->Ok_0@ == rendered(*file, base@)->Ok_0,
        r is Err ==> r->Err_0@ == rendered(*file, base@)->Err_0,
{
    let mut out = std::io::Cursor::new(base.clone());
    file.save_to(&mut out, lofty::config::WriteOptions::default()).map_err(|e| e.to_string())?;
    Ok(out.into_inner())
}

/// `Tag::tag_type`, variant by variant.
#[verifier::external_body]
pub(crate) fn tag_kind(tag: &Tag) -> (r: TagKind)
    ensures
        r == tag_model(*tag).kind,
{
    match tag.tag_type() {
        TagType::Ape => TagKind::Ape,
        TagType::Id3v1 => TagKind::Id3v1,
        TagType::Id3v2 => TagKind::Id3v2,
        TagType::Mp4Ilst => TagKind::Mp4Ilst,
        TagType::VorbisComments => TagKind::VorbisComments,
        TagType::RiffInfo => TagKind::RiffInfo,
        TagType::AiffText => TagKind::AiffText,
        _ => TagKind::Other,
    }
}

/// The native key of each text field.
#[verifier::external_body]
pub(crate) fn text_item_key(field: TextField) -> (r: ItemKey)
    ensures
        item_key_field(r) == Some(Field::Text(field)),
{
    match field {
        TextField::Title => ItemKey::TrackTitle,
        TextField::Artist => ItemKey::TrackArtist,
        TextField::Album => ItemKey::AlbumTitle,
        TextField::Genre => ItemKey::Genre,
        TextField::Comment => ItemKey::Comment,
        TextField::AlbumArtist => ItemKey::AlbumArtist,
        TextField::Composer => ItemKey::Composer,
        TextField::Conductor => ItemKey::Conductor,
        TextField::Lyricist => ItemKey::Lyricist,
        TextField::Publisher => ItemKey::Publisher,
        TextField::Lyrics => ItemKey::Lyrics,
        TextField::Copyright => ItemKey::CopyrightMessage,
    }
}

/// The native key of each loudness field.
#[verifier::external_body]
pub(crate) fn gain_item_key(field: GainField) -> (r: ItemKey)
    ensures
        item_key_field(r) == Some(Field::Gain(field)),
{
    match field {
        GainField::TrackGain => ItemKey::ReplayGainTrackGain,
        GainField::TrackPeak => ItemKey::ReplayGainTrackPeak,
        GainField::AlbumGain => ItemKey::ReplayGainAlbumGain,
        GainField::AlbumPeak => ItemKey::ReplayGainAlbumPeak,
    }
}

/// The native key of popularity records.
#[verifier::external_body]
pub(crate) fn rating_item_key() -> (r: ItemKey)
    ensures
        item_key_field(r) == Some(Field::Rating),
{
    ItemKey::Popularimeter
}

/// `Tag::get_string`: the text of the first item under the key, if that item
/// is text.
#[verifier::external_body]
pub(crate) fn tag_get_string(tag: &Tag, key: ItemKey) -> (r: Option<String>)
    requires
        item_key_field(key) is Some,
    ensures
        r is Some <==> tag_model(*tag).texts.contains_key(item_key_field(key)->0),
        r is Some ==> r->0@ == tag_model(*tag).texts[item_key_field(key)->0],
{
    tag.get_string(key).map(String::from)
}

/// `Tag::insert_text`: where the tag's format has a native key for the field,
/// every item under the key gives way to one text item, and the call returns
/// true; else nothing changes. A popularity record written this way, for
/// `MusicBee` and with a play count of zero, is read back as its star level.
#[verifier::external_body]
pub(crate) fn tag_insert_text(tag: &mut Tag, key: ItemKey, text: String) -> (r: bool)
    requires
        item_key_field(key) is Some,
    ensures
        r == tag_model(*old(tag)).accepts.contains(item_key_field(key)->0),
        r ==> tag_model(*final(tag)).texts == tag_model(*old(tag)).texts.insert(
            item_key_field(key)->0,
            text@,
        ),
        !r ==> tag_model(*final(tag)) == tag_model(*old(tag)),
        item_key_field(key) != Some(Field::Rating) ==> tag_model(*final(tag)).rating == tag_model(
            *old(tag),
        ).rating,
        r ==> forall|level: StarLevel|
            item_key_field(key) == Some(Field::Rating) && text@ == #[trigger] rating_text(level)
                ==> tag_model(*final(tag)).rating == Some(level),
        tag_model(*final(tag)).kind == tag_model(*old(tag)).kind,
        tag_model(*final(tag)).accepts == tag_model(*old(tag)).accepts,
        tag_model(*final(tag)).accepts_date == tag_model(*old(tag)).accepts_date,
        tag_model(*final(tag)).year == tag_model(*old(tag)).year,
        tag_model(*final(tag)).pictures == tag_model(*old(tag)).pictures,
{
    tag.insert_text(key, text)
}

/// `Tag::remove_key`: every item under the key leaves the tag.
#[verifier::external_body]
pub(crate) fn tag_remove_key(tag: &mut Tag, key: ItemKey)
    requires
        item_key_field(key) is Some,
    ensures
        tag_model(*final(tag)).texts == tag_model(*old(tag)).texts.remove(item_key_field(key)->0),
        tag_model(*final(tag)).rating == if item_key_field(key) == Some(Field::Rating) {
            None
        } else {
            tag_model(*old(tag)).rating
        },
        tag_model(*final(tag)).kind == tag_model(*old(tag)).kind,
        tag_model(*final(tag)).accepts == tag_model(*old(tag)).accepts,
        tag_model(*final(tag)).accepts_date == tag_model(*old(tag)).accepts_date,
        tag_model(*final(tag)).year == tag_model(*old(tag)).year,
        tag_model(*final(tag)).pictures == tag_model(*old(tag)).pictures,
{
    tag.remove_key(key)
}

/// `Accessor::track`: the text under the track-number key, read as
/// `u32::from_str` reads it.
#[verifier::external_body]
pub(crate) fn tag_track(tag: &Tag) -> (r: Option<u32>)
    ensures
        r == spec_number_read(tag_model(*tag), NumberField::TrackNumber),
{
    tag.track()
}

/// `Accessor::set_track`: `Tag::insert_text` with the track-number key and
/// the number's decimal text.
#[verifier::external_body]
pub(crate) fn tag_set_track(tag: &mut Tag, value: u32)
    ensures
        tag_model(*final(tag)) == spec_number_stored(
            tag_model(*old(tag)),
            NumberField::TrackNumber,
            value,
        ),
{
    tag.set_track(value)
}

/// `Accessor::remove_track`: `Tag::remove_key` with the track-number key.
#[verifier::external_body]
pub(crate) fn tag_remove_track(tag: &mut Tag)
    ensures
        tag_model(*final(tag)) == spec_number_removed(tag_model(*old(tag)), NumberField::TrackNumber),
{
    tag.remove_track()
}

/// `Accessor::track_total`: the text under the track-total key, read as
/// `u32::from_str` reads it.
#[verifier::external_body]
pub(crate) fn tag_track_total(tag: &Tag) -> (r: Option<u32>)
    ensures
        r == spec_number_read(tag_model(*tag), NumberField::TrackTotal),
{
    tag.track_total()
}

/// `Accessor::set_track_total`: `Tag::insert_text` with the track-total key and
/// the number's decimal text.
#[verifier::external_body]
pub(crate) fn tag_set_track_total(tag: &mut Tag, value: u32)
    ensures
        tag_model(*final(tag)) == spec_number_stored(
            tag_model(*old(tag)),
            NumberField::TrackTotal,
            value,
        ),
{
    tag.set_track_total(value)
}

/// `Accessor::remove_track_total`: `Tag::remove_key` with the track-total key.
#[verifier::external_body]
pub(crate) fn tag_remove_track_total(tag: &mut Tag)
    ensures
        tag_model(*final(tag)) == spec_number_removed(tag_model(*old(tag)), NumberField::TrackTotal),
{
    tag.remove_track_total()
}

/// `Accessor::disk`: the text under the disc-number key, read as
/// `u32::from_str` reads it.
#[verifier::external_body]
pub(crate) fn tag_disk(tag: &Tag) -> (r: Option<u32>)
    ensures
        r == spec_number_read(tag_model(*tag), NumberField::DiscNumber),
{
    tag.disk()
}

/// `Accessor::set_disk`: `Tag::insert_text` with the disc-number key and
/// the number's decimal text.
#[verifier::external_body]
pub(crate) fn tag_set_disk(tag: &mut Tag, value: u32)
    ensures
        tag_model(*final(tag)) == spec_number_stored(
            tag_model(*old(tag)),
            NumberField::DiscNumber,
            value,
        ),
{
    tag.set_disk(value)
}

/// `Accessor::remove_disk`: `Tag::remove_key` with the disc-number key.
#[verifier::external_body]
pub(crate) fn tag_remove_disk(tag: &mut Tag)
    ensures
        tag_model(*final(tag)) == spec_number_removed(tag_model(*old(tag)), NumberField::DiscNumber),
{
    tag.remove_disk()
}

/// `Accessor::disk_total`: the text under the disc-total key, read as
/// `u32::from_str` reads it.
#[verifier::external_body]
pub(crate) fn tag_disk_total(tag: &Tag) -> (r: Option<u32>)
    ensures
        r == spec_number_read(tag_model(*tag), NumberField::DiscTotal),
{
    tag.disk_total()
}

/// `Accessor::set_disk_total`: `Tag::insert_text` with the disc-total key and
/// the number's decimal text.
#[verifier::external_body]
pub(crate) fn tag_set_disk_total(tag: &mut Tag, value: u32)
    ensures
        tag_model(*final(tag)) == spec_number_stored(
            tag_model(*old(tag)),
            NumberField::DiscTotal,
            value,
        ),
{
    tag.set_disk_total(value)
}

/// `Accessor::remove_disk_total`: `Tag::remove_key` with the disc-total key.
#[verifier::external_body]
pub(crate) fn tag_remove_disk_total(tag: &mut Tag)
    ensures
        tag_model(*final(tag)) == spec_number_removed(tag_model(*old(tag)), NumberField::DiscTotal),
{
    tag.remove_disk_total()
}

/// The first record of `Tag::ratings`, by its star level.
#[verifier::external_body]
pub(crate) fn tag_first_rating(tag: &Tag) -> (r: Option<StarLevel>)
    ensures
        r == tag_model(*tag).rating,
{
    tag.ratings().next().map(
        |record| match record.rating() {
            StarRating::One => StarLevel::One,
            StarRating::Two => StarLevel::Two,
            StarRating::Three => StarLevel::Three,
            StarRating::Four => StarLevel::Four,
            StarRating::Five => StarLevel::Five,
        },
    )
}

/// `Popularimeter::musicbee` with a play count of zero, as text: the player's
/// name, the number of stars and the play count, with `|` between them.
#[verifier::external_body]
pub(crate) fn popularity_text(level: StarLevel) -> (r: String)
    ensures
        r@ == rating_text(level),
{
    let stars = match level {
        StarLevel::One => StarRating::One,
        StarLevel::Two => StarRating::Two,
        StarLevel::Three => StarRating::Three,
        StarLevel::Four => StarRating::Four,
        StarLevel::Five => StarRating::Five,
    };
    Popularimeter::musicbee(stars, 0).to_string()
}

/// The year of `Accessor::date`.
#[verifier::external_body]
pub(crate) fn tag_year(tag: &Tag) -> (r: Option<u32>)
    ensures
        r == tag_model(*tag).year,
{
    tag.date().map(|date| u32::from(date.year))
}

/// `Accessor::set_date` with a date that holds a year only: the date is
/// stored as the year's four digits where the tag's format has a native key
/// for recording dates, and read back as that year. The keyed text of the
/// vocabulary, the rating and the pictures stay as they are.
#[verifier::external_body]
pub(crate) fn tag_set_year(tag: &mut Tag, year: u16)
    requires
        year <= 9999,
    ensures
        tag_model(*old(tag)).accepts_date ==> tag_model(*final(tag)).year == Some(year as u32),
        tag_model(*final(tag)).texts == tag_model(*old(tag)).texts,
        tag_model(*final(tag)).rating == tag_model(*old(tag)).rating,
        tag_model(*final(tag)).kind == tag_model(*old(tag)).kind,
        tag_model(*final(tag)).accepts == tag_model(*old(tag)).accepts,
        tag_model(*final(tag)).accepts_date == tag_model(*old(tag)).accepts_date,
        tag_model(*final(tag)).pictures == tag_model(*old(tag)).pictures,
{
    tag.set_date(Timestamp { year, ..Timestamp::default() })
}

/// `Accessor::remove_date`: the tag holds no date afterwards.
#[verifier::external_body]
pub(crate) fn tag_remove_year(tag: &mut Tag)
    ensures
        tag_model(*final(tag)).year is None,
        tag_model(*final(tag)).texts == tag_model(*old(tag)).texts,
        tag_model(*final(tag)).rating == tag_model(*old(tag)).rating,
        tag_model(*final(tag)).kind == tag_model(*old(tag)).kind,
        tag_model(*final(tag)).accepts == tag_model(*old(tag)).accepts,
        tag_model(*final(tag)).accepts_date == tag_model(*old(tag)).accepts_date,
        tag_model(*final(tag)).pictures == tag_model(*old(tag)).pictures,
{
    tag.remove_date()
}

/// `Tag::pictures`: the tag's pictures, in order.
#[verifier::external_body]
pub(crate) fn tag_pictures(tag: &Tag) -> (r: &[Picture])
    ensures
        r@.len() == tag_model(*tag).pictures.len(),
        forall|i: int|
            0 <= i < r@.len() ==> picture_model(#[trigger] r@[i]) == tag_model(*tag).pictures[i],
{
    tag.pictures()
}

/// `Tag::set_picture`: the picture takes the place at the index, or the end
/// of the list where the index lies beyond it.
#[verifier::external_body]
pub(crate) fn tag_set_picture(tag: &mut Tag, index: usize, picture: Picture)
    ensures
        tag_model(*final(tag)).pictures == if index < tag_model(*old(tag)).pictures.len() {
            tag_model(*old(tag)).pictures.update(index as int, picture_model(picture))
        } else {
            tag_model(*old(tag)).pictures.push(picture_model(picture))
        },
        tag_model(*final(tag)).texts == tag_model(*old(tag)).texts,
        tag_model(*final(tag)).rating == tag_model(*old(tag)).rating,
        tag_model(*final(tag)).kind == tag_model(*old(tag)).kind,
        tag_model(*final(tag)).accepts == tag_model(*old(tag)).accepts,
        tag_model(*final(tag)).accepts_date == tag_model(*old(tag)).accepts_date,
        tag_model(*final(tag)).year == tag_model(*old(tag)).year,
{
    tag.set_picture(index, picture)
}

/// `Tag::remove_picture`: the picture at the index leaves the list.
#[verifier::external_body]
pub(crate) fn tag_remove_picture(tag: &mut Tag, index: usize)
    requires
        index < tag_model(*old(tag)).pictures.len(),
    ensures
        tag_model(*final(tag)).pictures == tag_model(*old(tag)).pictures.remove(index as int),
        tag_model(*final(tag)).texts == tag_model(*old(tag)).texts,
        tag_model(*final(tag)).rating == tag_model(*old(tag)).rating,
        tag_model(*final(tag)).kind == tag_model(*old(tag)).kind,
        tag_model(*final(tag)).accepts == tag_model(*old(tag)).accepts,
        tag_model(*final(tag)).accepts_date == tag_model(*old(tag)).accepts_date,
        tag_model(*final(tag)).year == tag_model(*old(tag)).year,
{
    tag.remove_picture(index);
}

/// A picture's getters: `pic_type` by `PictureType::as_ape_key`, `mime_type`
/// by `MimeType::as_str`, `description` and `data`.
#[verifier::external_body]
pub(crate) fn picture_parts(picture: &Picture) -> (r: PictureParts)
    ensures
        r@ == picture_model(*picture),
{
    PictureParts {
        cover_key: picture.pic_type().as_ape_key().map(String::from),
        mime_type: picture.mime_type().map(|mime| mime.as_str().to_string()),
        description: picture.description().map(String::from),
        data: picture.data().to_vec(),
    }
}

/// `Picture::unchecked` and its builder: a picture of the type that
/// `PictureType::from_ape_key` selects and the MIME type that
/// `MimeType::from_str` selects, with the item's description and bytes. The
/// type's name, as `PictureType::as_ape_key` gives it, is the item's cover
/// type where that is one of the names, and there is none otherwise.
#[verifier::external_body]
pub fn to_lofty_picture(pic: &MetaPicture) -> (r: Picture)
    ensures
        picture_model(r).cover_key == spec_canonical_cover_key(pic.cover_type@),
        picture_model(r).mime_type == match pic.mime_type {
            Some(m) => Some(canonical_mime(m@)),
            None => None,
        },
        picture_model(r).description == opt_text(pic.description),
        picture_model(r).data == pic.data@,
{
    let builder = Picture::unchecked(pic.data.clone()).pic_type(
        PictureType::from_ape_key(pic.cover_type.as_str()),
    );
    let builder = match &pic.mime_type {
        Some(mime) => builder.mime_type(MimeType::from_str(mime.as_str())),
        None => builder,
    };
    let builder = match &pic.description {
        Some(text) => builder.description(text.clone()),
        None => builder,
    };
    builder.build()
}

/// `PictureType::as_ape_key` of the front cover.
#[verifier::external_body]
pub(crate) fn front_cover_key() -> (r: String)
    ensures
        r@ == "Cover Art (Front)"@,
{
    PictureType::CoverFront.as_ape_key().map(String::from).unwrap_or_default()
}

} // verus!
