//! A getter and a setter for each field of the vocabulary.

use vstd::prelude::*;
use crate::engine::{
    gain_item_key, rating_item_key, spec_number_read, spec_number_removed, spec_number_stored,
    tag_disk, tag_disk_total, tag_first_rating, tag_get_string, tag_kind, tag_pictures,
    tag_track, tag_track_total, tag_year, text_item_key, TagModel,
};
use crate::error::{ErrorKind, TaggerError};
use crate::fields::{Field, GainField, NumberField, StarLevel, TextField, Update};
use crate::meta_picture::{from_lofty_picture_slice, opt_text, spec_item_of, MetaPicture};
use crate::replay_gain::{
    format_replaygain_gain, format_replaygain_peak, parse_replaygain_value, spec_format_gain,
    spec_format_peak, spec_parse_replaygain, GainValue,
};
use crate::tagger::edit::{
    spec_stored_list, spec_with_rating, spec_with_text, spec_with_year, spec_without_rating,
    spec_without_text, TagEdit,
};
use crate::tagger::{MusicTagger, SessionModel};

verus! {

/// The text stored under a field of the selected tag, if there is any.
pub open spec fn spec_stored_text(session: SessionModel, field: Field) -> Option<Seq<char>> {
    if session.tag().texts.contains_key(field) {
        Some(session.tag().texts[field])
    } else {
        None
    }
}

/// The artwork list that a setter was asked for: the items given, or none.
pub open spec fn spec_update_artwork(update: Update<Vec<MetaPicture>>) -> Seq<MetaPicture> {
    match update {
        Update::SetTo(items) => items@,
        Update::Clear => Seq::empty(),
    }
}

/// What a setter was asked to store, as contracts speak of it.
pub open spec fn spec_update_text(update: Update<String>) -> Option<Seq<char>> {
    match update {
        Update::SetTo(text) => Some(text@),
        Update::Clear => None,
    }
}

/// A tag after a setter of a keyed-text field: the text stored, or the field
/// cleared.
pub open spec fn spec_text_update(before: TagModel, field: Field, text: Option<Seq<char>>) -> TagModel {
    match text {
        Some(t) => spec_with_text(before, field, t),
        None => spec_without_text(before, field),
    }
}

/// What every setter owes once its argument is accepted: on an unloaded
/// session it fails with `Disposed`; on a loaded one it succeeds, the
/// selected tag becomes `tag_after`, and nothing else changes.
pub open spec fn spec_set_outcome(
    before: Option<SessionModel>,
    after: Option<SessionModel>,
    r: Result<(), TaggerError>,
    tag_after: TagModel,
) -> bool {
    match before {
        None => r is Err && r->Err_0.kind() == ErrorKind::Disposed && after is None,
        Some(b) => r is Ok && after is Some && b.same_but_tag(after->0) && after->0.tag()
            == tag_after,
    }
}

/// What a getter of a text field owes: `Disposed` on an unloaded session,
/// else the text stored under the field, if there is any.
pub open spec fn spec_read_text(
    session: Option<SessionModel>,
    field: TextField,
    r: Result<Option<String>, TaggerError>,
) -> bool {
    match session {
        None => r is Err && r->Err_0.kind() == ErrorKind::Disposed,
        Some(s) => r is Ok && opt_text(r->Ok_0) == spec_stored_text(s, Field::Text(field)),
    }
}

/// The number that the text stored under a numeric field writes, if there is
/// a text and it writes one.
pub open spec fn spec_stored_number(session: SessionModel, field: NumberField) -> Option<u32> {
    spec_number_read(session.tag(), field)
}

/// What a getter of a numeric field owes: `Disposed` on an unloaded session,
/// else the number stored under the field, if there is one.
pub open spec fn spec_read_number(
    session: Option<SessionModel>,
    field: NumberField,
    r: Result<Option<u32>, TaggerError>,
) -> bool {
    match session {
        None => r is Err && r->Err_0.kind() == ErrorKind::Disposed,
        Some(s) => r is Ok && r->Ok_0 == spec_stored_number(s, field),
    }
}

/// A tag after a setter of a numeric field: the number stored as its
/// shortest decimal text, or the field cleared.
pub open spec fn spec_number_update(before: TagModel, field: NumberField, update: Update<u32>) -> TagModel {
    match update {
        Update::SetTo(n) => spec_number_stored(before, field, n),
        Update::Clear => spec_number_removed(before, field),
    }
}

/// The value, in millionths, that the text stored under a loudness field
/// writes, if there is a text and it writes one.
pub open spec fn spec_stored_gain(session: SessionModel, field: GainField) -> Option<int> {
    match spec_stored_text(session, Field::Gain(field)) {
        Some(text) => spec_parse_replaygain(text),
        None => None,
    }
}

/// What a getter of a loudness field owes: `Disposed` on an unloaded
/// session, else the value stored under the field, if there is one.
pub open spec fn spec_read_gain(
    session: Option<SessionModel>,
    field: GainField,
    r: Result<Option<GainValue>, TaggerError>,
) -> bool {
    match session {
        None => r is Err && r->Err_0.kind() == ErrorKind::Disposed,
        Some(s) => r is Ok && match spec_stored_gain(s, field) {
            Some(v) => r->Ok_0 == Some(GainValue { millionths: v as i64 }) && r->Ok_0->0.wf(),
            None => r->Ok_0 is None,
        },
    }
}

/// The text that a loudness value is stored as: a gain's text for the two
/// gains, a peak's text for the two peaks.
pub open spec fn spec_gain_text(field: GainField, value: GainValue) -> Seq<char> {
    match field {
        GainField::TrackGain | GainField::AlbumGain => spec_format_gain(value.millionths as int),
        GainField::TrackPeak | GainField::AlbumPeak => spec_format_peak(value.millionths as int),
    }
}

/// What a setter of a loudness field owes: a value beyond the valid range
/// fails with `InvalidArgument` and changes nothing; any other is stored as
/// its text, and a clear removes the field, as every setter does it.
pub open spec fn spec_set_gain_outcome(
    before: Option<SessionModel>,
    after: Option<SessionModel>,
    r: Result<(), TaggerError>,
    field: GainField,
    update: Update<GainValue>,
) -> bool {
    match update {
        Update::SetTo(value) => if value.wf() {
            spec_set_outcome(
                before,
                after,
                r,
                spec_with_text(before->0.tag(), Field::Gain(field), spec_gain_text(field, value)),
            )
        } else {
            r is Err && r->Err_0.kind() == ErrorKind::InvalidArgument && after == before
        },
        Update::Clear => spec_set_outcome(
            before,
            after,
            r,
            spec_without_text(before->0.tag(), Field::Gain(field)),
        ),
    }
}

impl MusicTagger {
    /// The text stored under a text field of the selected tag.
    pub fn text(&self, field: TextField) -> (r: Result<Option<String>, TaggerError>)
        requires
            self.wf(),
        ensures
            spec_read_text(self@, field, r),
    {
        match self.try_tag()? {
            Some(tag) => Ok(tag_get_string(tag, text_item_key(field))),
            None => Ok(None),
        }
    }

    /// Stores a text under a text field of the selected tag, or clears the
    /// field. A field that the tag's format has no native key for is left as
    /// it is.
    pub fn set_text(&mut self, field: TextField, update: Update<String>) -> (r: Result<
        (),
        TaggerError,
    >)
        requires
            old(self).wf(),
        ensures
            final(self).wf(),
            spec_set_outcome(
                old(self)@,
                final(self)@,
                r,
                spec_text_update(old(self)@->0.tag(), Field::Text(field), spec_update_text(update)),
            ),
    {
        match update {
            Update::SetTo(text) => self.try_tag_mut(
                TagEdit::SetText { key: text_item_key(field), text },
            ),
            Update::Clear => self.try_tag_mut(TagEdit::Remove { key: text_item_key(field) }),
        }
    }

    /// The star rating of the selected tag, from 1 to 5; none where the tag
    /// holds no rating of those five.
    pub fn rating(&self) -> (r: Result<Option<u32>, TaggerError>)
        requires
            self.wf(),
        ensures
            self@ is None ==> r is Err && r->Err_0.kind() == ErrorKind::Disposed,
            self@ is Some ==> r is Ok && match self@->0.tag().rating {
                Some(level) => r->Ok_0 == Some(level.spec_stars() as u32),
                None => r->Ok_0 is None,
            },
    {
        match self.try_tag()? {
            Some(tag) => match tag_first_rating(tag) {
                Some(level) => Ok(Some(level.stars())),
                None => Ok(None),
            },
            None => Ok(None),
        }
    }

    /// Stores a star rating from 1 to 5 in the selected tag, or clears the
    /// rating. Any other number fails with `InvalidArgument` and changes
    /// nothing. A tag whose format has no native key for ratings is left as
    /// it is.
    pub fn set_rating(&mut self, update: Update<i32>) -> (r: Result<(), TaggerError>)
        requires
            old(self).wf(),
        ensures
            final(self).wf(),
            match update {
                Update::SetTo(stars) => match StarLevel::spec_from_stars(stars as int) {
                    Some(level) => spec_set_outcome(
                        old(self)@,
                        final(self)@,
                        r,
                        spec_with_rating(old(self)@->0.tag(), level),
                    ),
                    None => r is Err && r->Err_0.kind() == ErrorKind::InvalidArgument && final(self)@ == old(self)@,
                },
                Update::Clear => spec_set_outcome(
                    old(self)@,
                    final(self)@,
                    r,
                    spec_without_rating(old(self)@->0.tag()),
                ),
            },
    {
        match update {
            Update::SetTo(stars) => match StarLevel::from_stars(stars as i64) {
                Some(level) => self.try_tag_mut(TagEdit::SetRating { level }),
                None => Err(TaggerError::InvalidArgument),
            },
            Update::Clear => self.try_tag_mut(TagEdit::Remove { key: rating_item_key() }),
        }
    }

    /// The year of the selected tag's recording date.
    pub fn year(&self) -> (r: Result<Option<u32>, TaggerError>)
        requires
            self.wf(),
        ensures
            self@ is None ==> r is Err && r->Err_0.kind() == ErrorKind::Disposed,
            self@ is Some ==> r is Ok && r->Ok_0 == self@->0.tag().year,
    {
        match self.try_tag()? {
            Some(tag) => Ok(tag_year(tag)),
            None => Ok(None),
        }
    }

    /// Stores a year as the selected tag's recording date, or clears the date.
    /// A year of more than four digits fails with `InvalidArgument` and
    /// changes nothing. Of the tag, only the year changes; it is the year
    /// given where the tag's format has a native key for recording dates.
    pub fn set_year(&mut self, update: Update<u32>) -> (r: Result<(), TaggerError>)
        requires
            old(self).wf(),
        ensures
            final(self).wf(),
            match update {
                Update::SetTo(year) => if year <= 9999 {
                    spec_set_outcome(
                        old(self)@,
                        final(self)@,
                        r,
                        spec_with_year(old(self)@->0.tag(), year, final(self)@->0.tag().year),
                    )
                } else {
                    r is Err && r->Err_0.kind() == ErrorKind::InvalidArgument && final(self)@
                        == old(self)@
                },
                Update::Clear => spec_set_outcome(
                    old(self)@,
                    final(self)@,
                    r,
                    TagModel { year: None, ..old(self)@->0.tag() },
                ),
            },
    {
        match update {
            Update::SetTo(year) => {
                if year > 9999 {
                    return Err(TaggerError::InvalidArgument);
                }
                self.try_tag_mut(TagEdit::SetYear { year: year as u16 })
            },
            Update::Clear => self.try_tag_mut(TagEdit::RemoveYear),
        }
    }

    /// The name of the selected tag's format, where it has one.
    pub fn tag_type(&self) -> (r: Result<Option<String>, TaggerError>)
        requires
            self.wf(),
        ensures
            self@ is None ==> r is Err && r->Err_0.kind() == ErrorKind::Disposed,
            self@ is Some ==> r is Ok && opt_text(r->Ok_0) == self@->0.tag().kind.spec_label(),
    {
        match self.try_tag()? {
            Some(tag) => Ok(tag_kind(tag).label()),
            None => Ok(None),
        }
    }

    /// The artwork of the selected tag, in order; none where the tag holds no
    /// picture.
    pub fn get_pictures(&self) -> (r: Result<Option<Vec<MetaPicture>>, TaggerError>)
        requires
            self.wf(),
        ensures
            self@ is None ==> r is Err && r->Err_0.kind() == ErrorKind::Disposed,
            self@ is Some ==> r is Ok,
            self@ is Some ==> (r->Ok_0 is None <==> self@->0.tag().pictures.len() == 0),
            self@ is Some && r->Ok_0 is Some ==> r->Ok_0->0@.len()
                == self@->0.tag().pictures.len(),
            self@ is Some && r->Ok_0 is Some ==> forall|i: int|
                0 <= i < self@->0.tag().pictures.len() ==> (#[trigger] r->Ok_0->0@[i])@
                    == spec_item_of(self@->0.tag().pictures[i]),
    {
        match self.try_tag()? {
            Some(tag) => Ok(from_lofty_picture_slice(tag_pictures(tag))),
            None => Ok(None),
        }
    }

    /// Makes the artwork of the selected tag the given list: each item takes
    /// the place of its index, and what the tag held beyond the list's end is
    /// taken out, from the last picture down. Clearing asks for the empty
    /// list.
    pub fn set_pictures(&mut self, update: Update<Vec<MetaPicture>>) -> (r: Result<
        (),
        TaggerError,
    >)
        requires
            old(self).wf(),
        ensures
            final(self).wf(),
            spec_set_outcome(
                old(self)@,
                final(self)@,
                r,
                TagModel {
                    pictures: spec_stored_list(spec_update_artwork(update)),
                    ..old(self)@->0.tag()
                },
            ),
    {
        match update {
            Update::SetTo(pictures) => self.try_tag_mut(TagEdit::SetArtwork { pictures }),
            Update::Clear => self.try_tag_mut(TagEdit::SetArtwork { pictures: Vec::new() }),
        }
    }

    /// The number stored under a numeric field of the selected tag; none
    /// where the field is absent or its text writes no number.
    pub fn number(&self, field: NumberField) -> (r: Result<Option<u32>, TaggerError>)
        requires
            self.wf(),
        ensures
            spec_read_number(self@, field, r),
    {
        match self.try_tag()? {
            Some(tag) => Ok(
                match field {
                    NumberField::TrackNumber => tag_track(tag),
                    NumberField::TrackTotal => tag_track_total(tag),
                    NumberField::DiscNumber => tag_disk(tag),
                    NumberField::DiscTotal => tag_disk_total(tag),
                },
            ),
            None => Ok(None),
        }
    }

    /// Stores a number under a numeric field of the selected tag, as its
    /// shortest decimal text, or clears the field. A field that the tag's
    /// format has no native key for is left as it is.
    pub fn set_number(&mut self, field: NumberField, update: Update<u32>) -> (r: Result<
        (),
        TaggerError,
    >)
        requires
            old(self).wf(),
        ensures
            final(self).wf(),
            spec_set_outcome(
                old(self)@,
                final(self)@,
                r,
                spec_number_update(old(self)@->0.tag(), field, update),
            ),
    {
        match update {
            Update::SetTo(value) => self.try_tag_mut(TagEdit::SetNumber { field, value }),
            Update::Clear => self.try_tag_mut(TagEdit::RemoveNumber { field }),
        }
    }

    /// The value stored under a loudness field of the selected tag; none
    /// where the field is absent or its text writes no decimal number.
    pub fn gain(&self, field: GainField) -> (r: Result<Option<GainValue>, TaggerError>)
        requires
            self.wf(),
        ensures
            spec_read_gain(self@, field, r),
    {
        match self.try_tag()? {
            Some(tag) => match tag_get_string(tag, gain_item_key(field)) {
                Some(text) => Ok(parse_replaygain_value(text.as_str())),
                None => Ok(None),
            },
            None => Ok(None),
        }
    }

    /// Stores a value under a loudness field of the selected tag, as a gain's
    /// or a peak's text, or clears the field. A value beyond the valid range
    /// fails with `InvalidArgument` and changes nothing. A field that the
    /// tag's format has no native key for is left as it is.
    pub fn set_gain(&mut self, field: GainField, update: Update<GainValue>) -> (r: Result<
        (),
        TaggerError,
    >)
        requires
            old(self).wf(),
        ensures
            final(self).wf(),
            spec_set_gain_outcome(old(self)@, final(self)@, r, field, update),
    {
        match update {
            Update::SetTo(value) => {
                if !value.is_valid() {
                    return Err(TaggerError::InvalidArgument);
                }
                let text = match field {
                    GainField::TrackGain | GainField::AlbumGain => format_replaygain_gain(value),
                    GainField::TrackPeak | GainField::AlbumPeak => format_replaygain_peak(value),
                };
                self.try_tag_mut(TagEdit::SetText { key: gain_item_key(field), text })
            },
            Update::Clear => self.try_tag_mut(TagEdit::Remove { key: gain_item_key(field) }),
        }
    }

    /// The track's title.
    pub fn title(&self) -> (r: Result<Option<String>, TaggerError>)
        requires
            self.wf(),
        ensures
            spec_read_text(self@, TextField::Title, r),
    {
        self.text(TextField::Title)
    }

    /// Stores or clears the track's title.
    pub fn set_title(&mut self, title: Update<String>) -> (r: Result<(), TaggerError>)
        requires
            old(self).wf(),
        ensures
            final(self).wf(),
            spec_set_outcome(
                old(self)@,
                final(self)@,
                r,
                spec_text_update(
                    old(self)@->0.tag(),
                    Field::Text(TextField::Title),
                    spec_update_text(title),
                ),
            ),
    {
        self.set_text(TextField::Title, title)
    }

    /// The track's artist.
    pub fn artist(&self) -> (r: Result<Option<String>, TaggerError>)
        requires
            self.wf(),
        ensures
            spec_read_text(self@, TextField::Artist, r),
    {
        self.text(TextField::Artist)
    }

    /// Stores or clears the track's artist.
    pub fn set_artist(&mut self, artist: Update<String>) -> (r: Result<(), TaggerError>)
        requires
            old(self).wf(),
        ensures
            final(self).wf(),
            spec_set_outcome(
                old(self)@,
                final(self)@,
                r,
                spec_text_update(
                    old(self)@->0.tag(),
                    Field::Text(TextField::Artist),
                    spec_update_text(artist),
                ),
            ),
    {
        self.set_text(TextField::Artist, artist)
    }

    /// The album's name.
    pub fn album(&self) -> (r: Result<Option<String>, TaggerError>)
        requires
            self.wf(),
        ensures
            spec_read_text(self@, TextField::Album, r),
    {
        self.text(TextField::Album)
    }

    /// Stores or clears the album's name.
    pub fn set_album(&mut self, album: Update<String>) -> (r: Result<(), TaggerError>)
        requires
            old(self).wf(),
        ensures
            final(self).wf(),
            spec_set_outcome(
                old(self)@,
                final(self)@,
                r,
                spec_text_update(
                    old(self)@->0.tag(),
                    Field::Text(TextField::Album),
                    spec_update_text(album),
                ),
            ),
    {
        self.set_text(TextField::Album, album)
    }

    /// The genre.
    pub fn genre(&self) -> (r: Result<Option<String>, TaggerError>)
        requires
            self.wf(),
        ensures
            spec_read_text(self@, TextField::Genre, r),
    {
        self.text(TextField::Genre)
    }

    /// Stores or clears the genre.
    pub fn set_genre(&mut self, genre: Update<String>) -> (r: Result<(), TaggerError>)
        requires
            old(self).wf(),
        ensures
            final(self).wf(),
            spec_set_outcome(
                old(self)@,
                final(self)@,
                r,
                spec_text_update(
                    old(self)@->0.tag(),
                    Field::Text(TextField::Genre),
                    spec_update_text(genre),
                ),
            ),
    {
        self.set_text(TextField::Genre, genre)
    }

    /// The comment.
    pub fn comment(&self) -> (r: Result<Option<String>, TaggerError>)
        requires
            self.wf(),
        ensures
            spec_read_text(self@, TextField::Comment, r),
    {
        self.text(TextField::Comment)
    }

    /// Stores or clears the comment.
    pub fn set_comment(&mut self, comment: Update<String>) -> (r: Result<(), TaggerError>)
        requires
            old(self).wf(),
        ensures
            final(self).wf(),
            spec_set_outcome(
                old(self)@,
                final(self)@,
                r,
                spec_text_update(
                    old(self)@->0.tag(),
                    Field::Text(TextField::Comment),
                    spec_update_text(comment),
                ),
            ),
    {
        self.set_text(TextField::Comment, comment)
    }

    /// The artist of the album as a whole.
    pub fn album_artist(&self) -> (r: Result<Option<String>, TaggerError>)
        requires
            self.wf(),
        ensures
            spec_read_text(self@, TextField::AlbumArtist, r),
    {
        self.text(TextField::AlbumArtist)
    }

    /// Stores or clears the artist of the album as a whole.
    pub fn set_album_artist(&mut self, album_artist: Update<String>) -> (r: Result<(), TaggerError>)
        requires
            old(self).wf(),
        ensures
            final(self).wf(),
            spec_set_outcome(
                old(self)@,
                final(self)@,
                r,
                spec_text_update(
                    old(self)@->0.tag(),
                    Field::Text(TextField::AlbumArtist),
                    spec_update_text(album_artist),
                ),
            ),
    {
        self.set_text(TextField::AlbumArtist, album_artist)
    }

    /// The composer.
    pub fn composer(&self) -> (r: Result<Option<String>, TaggerError>)
        requires
            self.wf(),
        ensures
            spec_read_text(self@, TextField::Composer, r),
    {
        self.text(TextField::Composer)
    }

    /// Stores or clears the composer.
    pub fn set_composer(&mut self, composer: Update<String>) -> (r: Result<(), TaggerError>)
        requires
            old(self).wf(),
        ensures
            final(self).wf(),
            spec_set_outcome(
                old(self)@,
                final(self)@,
                r,
                spec_text_update(
                    old(self)@->0.tag(),
                    Field::Text(TextField::Composer),
                    spec_update_text(composer),
                ),
            ),
    {
        self.set_text(TextField::Composer, composer)
    }

    /// The conductor.
    pub fn conductor(&self) -> (r: Result<Option<String>, TaggerError>)
        requires
            self.wf(),
        ensures
            spec_read_text(self@, TextField::Conductor, r),
    {
        self.text(TextField::Conductor)
    }

    /// Stores or clears the conductor.
    pub fn set_conductor(&mut self, conductor: Update<String>) -> (r: Result<(), TaggerError>)
        requires
            old(self).wf(),
        ensures
            final(self).wf(),
            spec_set_outcome(
                old(self)@,
                final(self)@,
                r,
                spec_text_update(
                    old(self)@->0.tag(),
                    Field::Text(TextField::Conductor),
                    spec_update_text(conductor),
                ),
            ),
    {
        self.set_text(TextField::Conductor, conductor)
    }

    /// The lyricist.
    pub fn lyricist(&self) -> (r: Result<Option<String>, TaggerError>)
        requires
            self.wf(),
        ensures
            spec_read_text(self@, TextField::Lyricist, r),
    {
        self.text(TextField::Lyricist)
    }

    /// Stores or clears the lyricist.
    pub fn set_lyricist(&mut self, lyricist: Update<String>) -> (r: Result<(), TaggerError>)
        requires
            old(self).wf(),
        ensures
            final(self).wf(),
            spec_set_outcome(
                old(self)@,
                final(self)@,
                r,
                spec_text_update(
                    old(self)@->0.tag(),
                    Field::Text(TextField::Lyricist),
                    spec_update_text(lyricist),
                ),
            ),
    {
        self.set_text(TextField::Lyricist, lyricist)
    }

    /// The publisher.
    pub fn publisher(&self) -> (r: Result<Option<String>, TaggerError>)
        requires
            self.wf(),
        ensures
            spec_read_text(self@, TextField::Publisher, r),
    {
        self.text(TextField::Publisher)
    }

    /// Stores or clears the publisher.
    pub fn set_publisher(&mut self, publisher: Update<String>) -> (r: Result<(), TaggerError>)
        requires
            old(self).wf(),
        ensures
            final(self).wf(),
            spec_set_outcome(
                old(self)@,
                final(self)@,
                r,
                spec_text_update(
                    old(self)@->0.tag(),
                    Field::Text(TextField::Publisher),
                    spec_update_text(publisher),
                ),
            ),
    {
        self.set_text(TextField::Publisher, publisher)
    }

    /// The lyrics.
    pub fn lyrics(&self) -> (r: Result<Option<String>, TaggerError>)
        requires
            self.wf(),
        ensures
            spec_read_text(self@, TextField::Lyrics, r),
    {
        self.text(TextField::Lyrics)
    }

    /// Stores or clears the lyrics.
    pub fn set_lyrics(&mut self, lyrics: Update<String>) -> (r: Result<(), TaggerError>)
        requires
            old(self).wf(),
        ensures
            final(self).wf(),
            spec_set_outcome(
                old(self)@,
                final(self)@,
                r,
                spec_text_update(
                    old(self)@->0.tag(),
                    Field::Text(TextField::Lyrics),
                    spec_update_text(lyrics),
                ),
            ),
    {
        self.set_text(TextField::Lyrics, lyrics)
    }

    /// The copyright notice.
    pub fn copyright(&self) -> (r: Result<Option<String>, TaggerError>)
        requires
            self.wf(),
        ensures
            spec_read_text(self@, TextField::Copyright, r),
    {
        self.text(TextField::Copyright)
    }

    /// Stores or clears the copyright notice.
    pub fn set_copyright(&mut self, copyright: Update<String>) -> (r: Result<(), TaggerError>)
        requires
            old(self).wf(),
        ensures
            final(self).wf(),
            spec_set_outcome(
                old(self)@,
                final(self)@,
                r,
                spec_text_update(
                    old(self)@->0.tag(),
                    Field::Text(TextField::Copyright),
                    spec_update_text(copyright),
                ),
            ),
    {
        self.set_text(TextField::Copyright, copyright)
    }

    /// The track's number.
    pub fn track_number(&self) -> (r: Result<Option<u32>, TaggerError>)
        requires
            self.wf(),
        ensures
            spec_read_number(self@, NumberField::TrackNumber, r),
    {
        self.number(NumberField::TrackNumber)
    }

    /// Stores or clears the track's number.
    pub fn set_track_number(&mut self, track_number: Update<u32>) -> (r: Result<(), TaggerError>)
        requires
            old(self).wf(),
        ensures
            final(self).wf(),
            spec_set_outcome(
                old(self)@,
                final(self)@,
                r,
                spec_number_update(old(self)@->0.tag(), NumberField::TrackNumber, track_number),
            ),
    {
        self.set_number(NumberField::TrackNumber, track_number)
    }

    /// The disc's number.
    pub fn disc_number(&self) -> (r: Result<Option<u32>, TaggerError>)
        requires
            self.wf(),
        ensures
            spec_read_number(self@, NumberField::DiscNumber, r),
    {
        self.number(NumberField::DiscNumber)
    }

    /// Stores or clears the disc's number.
    pub fn set_disc_number(&mut self, disc_number: Update<u32>) -> (r: Result<(), TaggerError>)
        requires
            old(self).wf(),
        ensures
            final(self).wf(),
            spec_set_outcome(
                old(self)@,
                final(self)@,
                r,
                spec_number_update(old(self)@->0.tag(), NumberField::DiscNumber, disc_number),
            ),
    {
        self.set_number(NumberField::DiscNumber, disc_number)
    }

    /// The number of tracks of the album.
    pub fn track_total(&self) -> (r: Result<Option<u32>, TaggerError>)
        requires
            self.wf(),
        ensures
            spec_read_number(self@, NumberField::TrackTotal, r),
    {
        self.number(NumberField::TrackTotal)
    }

    /// Stores or clears the number of tracks of the album.
    pub fn set_track_total(&mut self, track_total: Update<u32>) -> (r: Result<(), TaggerError>)
        requires
            old(self).wf(),
        ensures
            final(self).wf(),
            spec_set_outcome(
                old(self)@,
                final(self)@,
                r,
                spec_number_update(old(self)@->0.tag(), NumberField::TrackTotal, track_total),
            ),
    {
        self.set_number(NumberField::TrackTotal, track_total)
    }

    /// The number of discs of the album.
    pub fn discs_total(&self) -> (r: Result<Option<u32>, TaggerError>)
        requires
            self.wf(),
        ensures
            spec_read_number(self@, NumberField::DiscTotal, r),
    {
        self.number(NumberField::DiscTotal)
    }

    /// Stores or clears the number of discs of the album.
    pub fn set_discs_total(&mut self, discs_total: Update<u32>) -> (r: Result<(), TaggerError>)
        requires
            old(self).wf(),
        ensures
            final(self).wf(),
            spec_set_outcome(
                old(self)@,
                final(self)@,
                r,
                spec_number_update(old(self)@->0.tag(), NumberField::DiscTotal, discs_total),
            ),
    {
        self.set_number(NumberField::DiscTotal, discs_total)
    }

    /// The track's gain in decibels.
    pub fn track_replay_gain(&self) -> (r: Result<Option<GainValue>, TaggerError>)
        requires
            self.wf(),
        ensures
            spec_read_gain(self@, GainField::TrackGain, r),
    {
        self.gain(GainField::TrackGain)
    }

    /// Stores or clears the track's gain in decibels.
    pub fn set_track_replay_gain(&mut self, track_replay_gain: Update<GainValue>) -> (r: Result<(), TaggerError>)
        requires
            old(self).wf(),
        ensures
            final(self).wf(),
            spec_set_gain_outcome(old(self)@, final(self)@, r, GainField::TrackGain, track_replay_gain),
    {
        self.set_gain(GainField::TrackGain, track_replay_gain)
    }

    /// The track's peak amplitude.
    pub fn track_replay_peak(&self) -> (r: Result<Option<GainValue>, TaggerError>)
        requires
            self.wf(),
        ensures
            spec_read_gain(self@, GainField::TrackPeak, r),
    {
        self.gain(GainField::TrackPeak)
    }

    /// Stores or clears the track's peak amplitude.
    pub fn set_track_replay_peak(&mut self, track_replay_peak: Update<GainValue>) -> (r: Result<(), TaggerError>)
        requires
            old(self).wf(),
        ensures
            final(self).wf(),
            spec_set_gain_outcome(old(self)@, final(self)@, r, GainField::TrackPeak, track_replay_peak),
    {
        self.set_gain(GainField::TrackPeak, track_replay_peak)
    }

    /// The album's gain in decibels.
    pub fn album_replay_gain(&self) -> (r: Result<Option<GainValue>, TaggerError>)
        requires
            self.wf(),
        ensures
            spec_read_gain(self@, GainField::AlbumGain, r),
    {
        self.gain(GainField::AlbumGain)
    }

    /// Stores or clears the album's gain in decibels.
    pub fn set_album_replay_gain(&mut self, album_replay_gain: Update<GainValue>) -> (r: Result<(), TaggerError>)
        requires
            old(self).wf(),
        ensures
            final(self).wf(),
            spec_set_gain_outcome(old(self)@, final(self)@, r, GainField::AlbumGain, album_replay_gain),
    {
        self.set_gain(GainField::AlbumGain, album_replay_gain)
    }

    /// The album's peak amplitude.
    pub fn album_replay_peak(&self) -> (r: Result<Option<GainValue>, TaggerError>)
        requires
            self.wf(),
        ensures
            spec_read_gain(self@, GainField::AlbumPeak, r),
    {
        self.gain(GainField::AlbumPeak)
    }

    /// Stores or clears the album's peak amplitude.
    pub fn set_album_replay_peak(&mut self, album_replay_peak: Update<GainValue>) -> (r: Result<(), TaggerError>)
        requires
            old(self).wf(),
        ensures
            final(self).wf(),
            spec_set_gain_outcome(old(self)@, final(self)@, r, GainField::AlbumPeak, album_replay_peak),
    {
        self.set_gain(GainField::AlbumPeak, album_replay_peak)
    }
}

} // verus!
