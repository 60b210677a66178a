//! The changes that a setter makes to a tag, and what each leaves behind.

use vstd::prelude::*;
use crate::artwork::{
    lemma_plan_step, reconcile_plan, spec_midway, spec_plan, spec_plan_len, ArtworkOp,
};
use crate::engine::{
    item_key_field, picture_model, popularity_text, rating_item_key, rating_text,
    spec_number_removed, spec_number_stored, spec_stored_of, tag_insert_text, tag_model,
    tag_pictures, tag_remove_disk, tag_remove_disk_total, tag_remove_key, tag_remove_picture,
    tag_remove_track, tag_remove_track_total, tag_remove_year, tag_set_disk, tag_set_disk_total,
    tag_set_picture, tag_set_track, tag_set_track_total, tag_set_year, to_lofty_picture,
    TagModel,
};
use crate::fields::{Field, NumberField, StarLevel};
use crate::meta_picture::{MetaPicture, PictureModel};
use lofty::tag::{ItemKey, Tag};

verus! {

/// A change to one tag.
pub(crate) enum TagEdit {
    SetText { key: ItemKey, text: String },
    Remove { key: ItemKey },
    SetNumber { field: NumberField, value: u32 },
    RemoveNumber { field: NumberField },
    SetRating { level: StarLevel },
    SetYear { year: u16 },
    RemoveYear,
    SetArtwork { pictures: Vec<MetaPicture> },
}

/// What a tag stores for a list of artwork items, item by item.
pub open spec fn spec_stored_list(items: Seq<MetaPicture>) -> Seq<PictureModel> {
    Seq::new(items.len(), |i: int| spec_stored_of(items[i]))
}

/// A tag after text was stored under a field: the text stands under the
/// field where the tag's format has a native key for it; else the tag is as
/// it was.
pub open spec fn spec_with_text(before: TagModel, field: Field, text: Seq<char>) -> TagModel {
    if before.accepts.contains(field) {
        TagModel { texts: before.texts.insert(field, text), ..before }
    } else {
        before
    }
}

/// A tag after a field was cleared: nothing stands under the field.
pub open spec fn spec_without_text(before: TagModel, field: Field) -> TagModel {
    TagModel { texts: before.texts.remove(field), ..before }
}

/// A tag after a star level was stored: the level is the tag's rating, and
/// its record stands under the rating field, where the tag's format has a
/// native key for ratings; else the tag is as it was.
pub open spec fn spec_with_rating(before: TagModel, level: StarLevel) -> TagModel {
    if before.accepts.contains(Field::Rating) {
        TagModel {
            texts: before.texts.insert(Field::Rating, rating_text(level)),
            rating: Some(level),
            ..before
        }
    } else {
        before
    }
}

/// A tag after a year was stored: the year is that of the tag's date where
/// the tag's format has a native key for recording dates; else the tag's
/// year is `otherwise`. Nothing else changes.
pub open spec fn spec_with_year(before: TagModel, year: u32, otherwise: Option<u32>) -> TagModel {
    TagModel {
        year: if before.accepts_date {
            Some(year)
        } else {
            otherwise
        },
        ..before
    }
}

/// A tag after its rating was cleared.
pub open spec fn spec_without_rating(before: TagModel) -> TagModel {
    TagModel { texts: before.texts.remove(Field::Rating), rating: None, ..before }
}

/// Whether `after` is what an edit makes of `before`.
pub(crate) open spec fn spec_edited(before: TagModel, edit: TagEdit, after: TagModel) -> bool {
    match edit {
        TagEdit::SetText { key, text } => after == spec_with_text(
            before,
            item_key_field(key)->0,
            text@,
        ),
        TagEdit::Remove { key } => if item_key_field(key) == Some(Field::Rating) {
            after == spec_without_rating(before)
        } else {
            after == spec_without_text(before, item_key_field(key)->0)
        },
        TagEdit::SetNumber { field, value } => after == spec_number_stored(before, field, value),
        TagEdit::RemoveNumber { field } => after == spec_number_removed(before, field),
        TagEdit::SetRating { level } => after == spec_with_rating(before, level),
        TagEdit::SetYear { year } => year <= 9999 && after == spec_with_year(
            before,
            year as u32,
            after.year,
        ),
        TagEdit::RemoveYear => after == (TagModel { year: None, ..before }),
        TagEdit::SetArtwork { pictures } => after == (TagModel {
            pictures: spec_stored_list(pictures@),
            ..before
        }),
    }
}

/// Whether an edit can be carried out.
pub(crate) open spec fn spec_edit_ok(edit: TagEdit) -> bool {
    match edit {
        TagEdit::SetText { key, text } => item_key_field(key) is Some && item_key_field(key)
            != Some(Field::Rating),
        TagEdit::Remove { key } => item_key_field(key) is Some,
        TagEdit::SetYear { year } => year <= 9999,
        _ => true,
    }
}

/// Stores a number under a numeric field of a tag.
fn store_number(tag: &mut Tag, field: NumberField, value: u32)
    ensures
        tag_model(*final(tag)) == spec_number_stored(tag_model(*old(tag)), field, value),
{
    match field {
        NumberField::TrackNumber => tag_set_track(tag, value),
        NumberField::TrackTotal => tag_set_track_total(tag, value),
        NumberField::DiscNumber => tag_set_disk(tag, value),
        NumberField::DiscTotal => tag_set_disk_total(tag, value),
    }
}

/// Removes a numeric field from a tag.
fn remove_number(tag: &mut Tag, field: NumberField)
    ensures
        tag_model(*final(tag)) == spec_number_removed(tag_model(*old(tag)), field),
{
    match field {
        NumberField::TrackNumber => tag_remove_track(tag),
        NumberField::TrackTotal => tag_remove_track_total(tag),
        NumberField::DiscNumber => tag_remove_disk(tag),
        NumberField::DiscTotal => tag_remove_disk_total(tag),
    }
}

/// Makes the pictures of a tag the given ones, by the steps of the plan for
/// the two lengths.
fn reconcile_pictures(tag: &mut Tag, pictures: &Vec<MetaPicture>)
    ensures
        tag_model(*final(tag)) == (TagModel {
            pictures: spec_stored_list(pictures@),
            ..tag_model(*old(tag))
        }),
{
    let ghost before = tag_model(*tag);
    let ghost desired = spec_stored_list(pictures@);
    let current = tag_pictures(tag).len();
    let plan = reconcile_plan(current, pictures.len());
    let mut k: usize = 0;
    proof {
        assert(spec_midway(before.pictures, desired, 0) =~= before.pictures);
    }
    while k < plan.len()
        invariant
            k <= plan@.len(),
            current == before.pictures.len(),
            desired == spec_stored_list(pictures@),
            plan@ == spec_plan(current as nat, pictures@.len()),
            plan@.len() == spec_plan_len(current as nat, pictures@.len()),
            tag_model(*tag) == (TagModel {
                pictures: spec_midway(before.pictures, desired, k as nat),
                ..before
            }),
        decreases plan@.len() - k,
    {
        proof {
            lemma_plan_step(before.pictures, desired, k as nat);
        }
        match plan[k] {
            ArtworkOp::SetAt(i) => {
                let picture = to_lofty_picture(&pictures[i]);
                assert(picture_model(picture) == desired[i as int]);
                tag_set_picture(tag, i, picture);
            },
            ArtworkOp::RemoveAt(i) => {
                tag_remove_picture(tag, i);
            },
        }
        k += 1;
    }
    proof {
        assert(spec_midway(before.pictures, desired, k as nat) =~= desired);
    }
}

/// Carries out an edit on a tag.
pub(crate) fn apply_edit(tag: &mut Tag, edit: TagEdit)
    requires
        spec_edit_ok(edit),
    ensures
        spec_edited(tag_model(*old(tag)), edit, tag_model(*final(tag))),
        tag_model(*final(tag)).kind == tag_model(*old(tag)).kind,
        tag_model(*final(tag)).accepts == tag_model(*old(tag)).accepts,
{
    match edit {
        TagEdit::SetText { key, text } => {
            let _ = tag_insert_text(tag, key, text);
        },
        TagEdit::Remove { key } => {
            tag_remove_key(tag, key);
        },
        TagEdit::SetNumber { field, value } => {
            store_number(tag, field, value);
        },
        TagEdit::RemoveNumber { field } => {
            remove_number(tag, field);
        },
        TagEdit::SetRating { level } => {
            let text = popularity_text(level);
            let _ = tag_insert_text(tag, rating_item_key(), text);
        },
        TagEdit::SetYear { year } => {
            tag_set_year(tag, year);
        },
        TagEdit::RemoveYear => {
            tag_remove_year(tag);
        },
        TagEdit::SetArtwork { pictures } => {
            reconcile_pictures(tag, &pictures);
        },
    }
}

} // verus!
