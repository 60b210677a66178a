//! What holds across calls: a setter and the getters after it go to the same
//! tag, and what a setter stores, the getter of the same field reads back.

use vstd::prelude::*;
use crate::decimal::lemma_u32_round_trip;
use crate::engine::{
    spec_is_cover_key, spec_number_read, spec_number_removed, spec_number_stored,
    spec_stored_of, TagModel,
};
use crate::fields::{Field, GainField, NumberField, StarLevel};
use crate::meta_picture::{spec_item_of, MetaPicture, UNKNOWN_COVER_TYPE};
use crate::replay_gain::{
    lemma_gain_round_trip, lemma_peak_round_trip, lemma_rounded_gain_is_near,
    spec_parse_replaygain, spec_rounded_gain, GainValue,
};
use crate::tagger::edit::{
    spec_with_rating, spec_with_text, spec_with_year, spec_without_rating, spec_without_text,
};
use crate::tagger::fields::spec_gain_text;
use crate::tagger::SessionModel;

verus! {

/// A change to the selected tag leaves the selection where it was: the
/// getters after a setter read the tag that the setter wrote, and the
/// session is still well formed.
pub proof fn lemma_selection_is_stable(before: SessionModel, after: SessionModel)
    requires
        before.wf(),
        before.same_but_tag(after),
    ensures
        after.selected() == before.selected(),
        after.tags().len() == before.tags().len(),
        forall|i: int|
            0 <= i < before.tags().len() && i != before.selected() ==> after.tags()[i]
                == before.tags()[i],
        after.wf(),
{
}

/// A rating of 1 to 5 stars that was stored is the tag's rating afterwards,
/// in a tag whose format has a native key for ratings.
pub proof fn lemma_rating_reads_back(before: TagModel, stars: int)
    requires
        1 <= stars <= 5,
        before.accepts.contains(Field::Rating),
    ensures
        StarLevel::spec_from_stars(stars) is Some,
        spec_with_rating(before, StarLevel::spec_from_stars(stars)->0).rating is Some,
        spec_with_rating(before, StarLevel::spec_from_stars(stars)->0).rating->0.spec_stars()
            == stars,
{
}

/// A tag whose rating was cleared has none.
pub proof fn lemma_cleared_rating_is_absent(before: TagModel)
    ensures
        spec_without_rating(before).rating is None,
{
}

/// A year that was stored is the tag's year afterwards, in a tag whose
/// format has a native key for recording dates.
pub proof fn lemma_year_reads_back(before: TagModel, year: u32, otherwise: Option<u32>)
    requires
        before.accepts_date,
    ensures
        spec_with_year(before, year, otherwise).year == Some(year),
{
}

/// An artwork item that was stored is read back with its description and its
/// bytes as they were, and with its cover type where that is the name of a
/// picture type; any other cover type is read back as `Unknown`.
pub proof fn lemma_artwork_reads_back(item: MetaPicture)
    ensures
        spec_item_of(spec_stored_of(item)).description == item@.description,
        spec_item_of(spec_stored_of(item)).data == item@.data,
        spec_item_of(spec_stored_of(item)).mime_type is Some <==> item@.mime_type is Some,
        spec_is_cover_key(item@.cover_type) ==> spec_item_of(spec_stored_of(item)).cover_type
            == item@.cover_type,
        !spec_is_cover_key(item@.cover_type) ==> spec_item_of(spec_stored_of(item)).cover_type
            == UNKNOWN_COVER_TYPE@,
        spec_is_cover_key("Cover Art (Front)"@),
{
}

/// A text that was stored under a field stands there afterwards, in a tag
/// whose format has a native key for the field, and the other fields are as
/// they were.
pub proof fn lemma_text_reads_back(before: TagModel, field: Field, text: Seq<char>, other: Field)
    requires
        before.accepts.contains(field),
        other != field,
    ensures
        spec_with_text(before, field, text).texts.contains_key(field),
        spec_with_text(before, field, text).texts[field] == text,
        spec_with_text(before, field, text).texts.contains_key(other)
            == before.texts.contains_key(other),
        before.texts.contains_key(other) ==> spec_with_text(before, field, text).texts[other]
            == before.texts[other],
{
}

/// A field that was cleared is absent afterwards, whatever the tag's format.
pub proof fn lemma_cleared_text_is_absent(before: TagModel, field: Field)
    ensures
        !spec_without_text(before, field).texts.contains_key(field),
{
}

/// A number that was stored under a numeric field is read back as it was,
/// in a tag whose format has a native key for the field.
pub proof fn lemma_number_reads_back(before: TagModel, field: NumberField, n: u32)
    requires
        before.accepts.contains(Field::Number(field)),
    ensures
        spec_number_read(spec_number_stored(before, field, n), field) == Some(n),
        spec_number_read(spec_number_removed(before, field), field) is None,
{
    lemma_u32_round_trip(n);
}

/// A gain that was stored is read back rounded to hundredths of a decibel:
/// within half a hundredth of what it was, and as it was where it had no
/// more than two decimals.
pub proof fn lemma_gain_reads_back(before: TagModel, field: GainField, value: GainValue)
    requires
        value.wf(),
        field == GainField::TrackGain || field == GainField::AlbumGain,
        before.accepts.contains(Field::Gain(field)),
    ensures
        -5_000 <= spec_rounded_gain(value.millionths as int) - value.millionths <= 5_000,
        value.millionths % 10_000 == 0 ==> spec_rounded_gain(value.millionths as int)
            == value.millionths,
        spec_parse_replaygain(
            spec_with_text(before, Field::Gain(field), spec_gain_text(field, value)).texts[Field::Gain(
                field,
            )],
        ) == Some(spec_rounded_gain(value.millionths as int)),
{
    lemma_gain_round_trip(value.millionths);
    lemma_rounded_gain_is_near(value.millionths);
}

/// A peak that was stored is read back as it was, to the millionth.
pub proof fn lemma_peak_reads_back(before: TagModel, field: GainField, value: GainValue)
    requires
        value.wf(),
        field == GainField::TrackPeak || field == GainField::AlbumPeak,
        before.accepts.contains(Field::Gain(field)),
    ensures
        spec_parse_replaygain(
            spec_with_text(before, Field::Gain(field), spec_gain_text(field, value)).texts[Field::Gain(
                field,
            )],
        ) == Some(value.millionths as int),
{
    lemma_peak_round_trip(value.millionths);
}

} // verus!
