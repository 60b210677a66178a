//! The uniform field vocabulary that every tag format is read and written through.

use vstd::prelude::*;

verus! {

/// A text field of the vocabulary.
#[derive(Debug, Clone, Copy, PartialEq, Eq, Structural)]
pub enum TextField {
    Title,
    Artist,
    Album,
    Genre,
    Comment,
    AlbumArtist,
    Composer,
    Conductor,
    Lyricist,
    Publisher,
    Lyrics,
    Copyright,
}

/// A numeric field that is kept as decimal text in the tag.
#[derive(Debug, Clone, Copy, PartialEq, Eq, Structural)]
pub enum NumberField {
    TrackNumber,
    TrackTotal,
    DiscNumber,
    DiscTotal,
}

/// A loudness-normalization field.
#[derive(Debug, Clone, Copy, PartialEq, Eq, Structural)]
pub enum GainField {
    TrackGain,
    TrackPeak,
    AlbumGain,
    AlbumPeak,
}

/// A field that a tag keeps as keyed text.
#[derive(Debug, Clone, Copy, PartialEq, Eq, Structural)]
pub enum Field {
    Text(TextField),
    Number(NumberField),
    Gain(GainField),
    Rating,
}

/// The format of a tag.
#[derive(Debug, Clone, Copy, PartialEq, Eq, Structural)]
pub enum TagKind {
    Ape,
    Id3v1,
    Id3v2,
    Mp4Ilst,
    VorbisComments,
    RiffInfo,
    AiffText,
    Other,
}

/// A whole number of stars.
#[derive(Debug, Clone, Copy, PartialEq, Eq, Structural)]
pub enum StarLevel {
    One,
    Two,
    Three,
    Four,
    Five,
}

/// What a setter is asked to do with a field.
#[derive(Debug, Clone)]
pub enum Update<T> {
    /// Store this value.
    SetTo(T),
    /// Remove the field from the tag.
    Clear,
}

impl TagKind {
    /// The name a tag format is reported under, where it has one.
    pub open spec fn spec_label(self) -> Option<Seq<char>> {
        match self {
            TagKind::AiffText => Some("AIFF"@),
            TagKind::Ape => Some("APE"@),
            TagKind::Id3v1 => Some("ID3V1"@),
            TagKind::Id3v2 => Some("ID3V2"@),
            TagKind::Mp4Ilst => Some("ILST"@),
            TagKind::RiffInfo => Some("RIFF"@),
            TagKind::VorbisComments => Some("VORBIS"@),
            TagKind::Other => None,
        }
    }

    /// The name a tag format is reported under, where it has one.
    pub fn label(self) -> (r: Option<String>)
        ensures
            r is Some == self.spec_label() is Some,
            r is Some ==> r->0@ == self.spec_label()->0,
    {
        match self {
            TagKind::AiffText => Some("AIFF".to_string()),
            TagKind::Ape => Some("APE".to_string()),
            TagKind::Id3v1 => Some("ID3V1".to_string()),
            TagKind::Id3v2 => Some("ID3V2".to_string()),
            TagKind::Mp4Ilst => Some("ILST".to_string()),
            TagKind::RiffInfo => Some("RIFF".to_string()),
            TagKind::VorbisComments => Some("VORBIS".to_string()),
            TagKind::Other => None,
        }
    }
}

impl StarLevel {
    /// The number of stars, from 1 to 5.
    pub open spec fn spec_stars(self) -> int {
        match self {
            StarLevel::One => 1,
            StarLevel::Two => 2,
            StarLevel::Three => 3,
            StarLevel::Four => 4,
            StarLevel::Five => 5,
        }
    }

    /// The level of a number of stars; none outside 1 to 5.
    pub open spec fn spec_from_stars(stars: int) -> Option<StarLevel> {
        if stars == 1 {
            Some(StarLevel::One)
        } else if stars == 2 {
            Some(StarLevel::Two)
        } else if stars == 3 {
            Some(StarLevel::Three)
        } else if stars == 4 {
            Some(StarLevel::Four)
        } else if stars == 5 {
            Some(StarLevel::Five)
        } else {
            None
        }
    }

    /// The number of stars, from 1 to 5.
    pub fn stars(self) -> (n: u32)
        ensures
            n == self.spec_stars(),
            1 <= n <= 5,
            Self::spec_from_stars(n as int) == Some(self),
    {
        match self {
            StarLevel::One => 1,
            StarLevel::Two => 2,
            StarLevel::Three => 3,
            StarLevel::Four => 4,
            StarLevel::Five => 5,
        }
    }

    /// The level of a number of stars; none outside 1 to 5.
    pub fn from_stars(stars: i64) -> (r: Option<StarLevel>)
        ensures
            r == Self::spec_from_stars(stars as int),
            r is Some <==> 1 <= stars <= 5,
            r is Some ==> r->0.spec_stars() == stars,
    {
        match stars {
            1 => Some(StarLevel::One),
            2 => Some(StarLevel::Two),
            3 => Some(StarLevel::Three),
            4 => Some(StarLevel::Four),
            5 => Some(StarLevel::Five),
            _ => None,
        }
    }
}

} // verus!
