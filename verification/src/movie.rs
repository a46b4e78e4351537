//! The movie catalog data model and its string codecs.

use vstd::prelude::*;

use crate::ids::fresh_id;
use crate::text::str_eq;

verus! {

/// The audience rating of a movie.
#[derive(Clone, Copy, Debug, PartialEq, Eq, Structural)]
pub enum MPAARating {
    GeneralAudiences,
    ParentalGuidance,
    ParentsStronglyCautioned,
    Restricted,
    AdultsOnly,
}

/// The canonical name of each rating.
pub open spec fn mpaa_string(r: MPAARating) -> Seq<char> {
    match r {
        MPAARating::GeneralAudiences => "GeneralAudiences"@,
        MPAARating::ParentalGuidance => "ParentalGuidance"@,
        MPAARating::ParentsStronglyCautioned => "ParentsStronglyCautioned"@,
        MPAARating::Restricted => "Restricted"@,
        MPAARating::AdultsOnly => "AdultsOnly"@,
    }
}

/// The rating a canonical name denotes, if any.
pub open spec fn mpaa_of_string(s: Seq<char>) -> Option<MPAARating> {
    if s == "GeneralAudiences"@ {
        Some(MPAARating::GeneralAudiences)
    } else if s == "ParentalGuidance"@ {
        Some(MPAARating::ParentalGuidance)
    } else if s == "ParentsStronglyCautioned"@ {
        Some(MPAARating::ParentsStronglyCautioned)
    } else if s == "Restricted"@ {
        Some(MPAARating::Restricted)
    } else if s == "AdultsOnly"@ {
        Some(MPAARating::AdultsOnly)
    } else {
        None
    }
}

impl MPAARating {
    /// Parses a canonical rating name; unknown strings yield `None`.
    pub fn from_string(rating_string: &str) -> (r: Option<MPAARating>)
        ensures
            r == mpaa_of_string(rating_string@),
    {
        if str_eq(rating_string, "GeneralAudiences") {
            Some(MPAARating::GeneralAudiences)
        } else if str_eq(rating_string, "ParentalGuidance") {
            Some(MPAARating::ParentalGuidance)
        } else if str_eq(rating_string, "ParentsStronglyCautioned") {
            Some(MPAARating::ParentsStronglyCautioned)
        } else if str_eq(rating_string, "Restricted") {
            Some(MPAARating::Restricted)
        } else if str_eq(rating_string, "AdultsOnly") {
            Some(MPAARating::AdultsOnly)
        } else {
            None
        }
    }

    /// The canonical name of this rating.
    pub fn string(&self) -> (r: String)
        ensures
            r@ == mpaa_string(*self),
    {
        match self {
            MPAARating::GeneralAudiences => "GeneralAudiences".to_owned(),
            MPAARating::ParentalGuidance => "ParentalGuidance".to_owned(),
            MPAARating::ParentsStronglyCautioned => "ParentsStronglyCautioned".to_owned(),
            MPAARating::Restricted => "Restricted".to_owned(),
            MPAARating::AdultsOnly => "AdultsOnly".to_owned(),
        }
    }
}

/// Law: printing a rating's canonical name and parsing it back yields the
/// same rating.
pub proof fn lemma_mpaa_round_trip(r: MPAARating)
    ensures
        mpaa_of_string(mpaa_string(r)) == Some(r),
{
    reveal_strlit("GeneralAudiences");
    reveal_strlit("ParentalGuidance");
    reveal_strlit("ParentsStronglyCautioned");
    reveal_strlit("Restricted");
    reveal_strlit("AdultsOnly");
    assert("GeneralAudiences"@.len() == 16);
    assert("ParentalGuidance"@.len() == 16);
    assert("ParentsStronglyCautioned"@.len() == 24);
    assert("Restricted"@.len() == 10);
    assert("AdultsOnly"@.len() == 10);
    assert("ParentalGuidance"@[0] != "GeneralAudiences"@[0]);
    assert("AdultsOnly"@[0] != "Restricted"@[0]);
    match r {
        MPAARating::GeneralAudiences => {
            assert(mpaa_of_string("GeneralAudiences"@) == Some(MPAARating::GeneralAudiences));
        },
        MPAARating::ParentalGuidance => {
            assert(mpaa_of_string("ParentalGuidance"@) == Some(MPAARating::ParentalGuidance));
        },
        MPAARating::ParentsStronglyCautioned => {
            assert(mpaa_of_string("ParentsStronglyCautioned"@) == Some(
                MPAARating::ParentsStronglyCautioned,
            ));
        },
        MPAARating::Restricted => {
            assert(mpaa_of_string("Restricted"@) == Some(MPAARating::Restricted));
        },
        MPAARating::AdultsOnly => {
            assert(mpaa_of_string("AdultsOnly"@) == Some(MPAARating::AdultsOnly));
        },
    }
}

/// The physical format a movie is kept on.
#[derive(Clone, Copy, Debug, PartialEq, Eq, Structural)]
pub enum MotionPictureFormat {
    BluRay,
    UltraHD,
    DVD,
    VHS,
}

/// The canonical name of each format.
pub open spec fn format_string(f: MotionPictureFormat) -> Seq<char> {
    match f {
        MotionPictureFormat::BluRay => "BluRay"@,
        MotionPictureFormat::UltraHD => "UltraHD"@,
        MotionPictureFormat::DVD => "DVD"@,
        MotionPictureFormat::VHS => "VHS"@,
    }
}

/// The format a canonical name denotes, if any.
pub open spec fn format_of_string(s: Seq<char>) -> Option<MotionPictureFormat> {
    if s == "BluRay"@ {
        Some(MotionPictureFormat::BluRay)
    } else if s == "UltraHD"@ {
        Some(MotionPictureFormat::UltraHD)
    } else if s == "DVD"@ {
        Some(MotionPictureFormat::DVD)
    } else if s == "VHS"@ {
        Some(MotionPictureFormat::VHS)
    } else {
        None
    }
}

impl MotionPictureFormat {
    /// Parses a canonical format name; unknown strings yield `None`.
    pub fn from_string(format_string: &str) -> (r: Option<MotionPictureFormat>)
        ensures
            r == format_of_string(format_string@),
    {
        if str_eq(format_string, "BluRay") {
            Some(MotionPictureFormat::BluRay)
        } else if str_eq(format_string, "UltraHD") {
            Some(MotionPictureFormat::UltraHD)
        } else if str_eq(format_string, "DVD") {
            Some(MotionPictureFormat::DVD)
        } else if str_eq(format_string, "VHS") {
            Some(MotionPictureFormat::VHS)
        } else {
            None
        }
    }

    /// The canonical name of this format.
    pub fn string(&self) -> (r: String)
        ensures
            r@ == format_string(*self),
    {
        match self {
            MotionPictureFormat::BluRay => "BluRay".to_owned(),
            MotionPictureFormat::UltraHD => "UltraHD".to_owned(),
            MotionPictureFormat::DVD => "DVD".to_owned(),
            MotionPictureFormat::VHS => "VHS".to_owned(),
        }
    }
}

/// Law: printing a format's canonical name and parsing it back yields the
/// same format.
pub proof fn lemma_format_round_trip(f: MotionPictureFormat)
    ensures
        format_of_string(format_string(f)) == Some(f),
{
    reveal_strlit("BluRay");
    reveal_strlit("UltraHD");
    reveal_strlit("DVD");
    reveal_strlit("VHS");
    assert("BluRay"@.len() == 6);
    assert("UltraHD"@.len() == 7);
    assert("DVD"@.len() == 3);
    assert("VHS"@.len() == 3);
    assert("VHS"@[0] != "DVD"@[0]);
    match f {
        MotionPictureFormat::BluRay => {
            assert(format_of_string("BluRay"@) == Some(MotionPictureFormat::BluRay));
        },
        MotionPictureFormat::UltraHD => {
            assert(format_of_string("UltraHD"@) == Some(MotionPictureFormat::UltraHD));
        },
        MotionPictureFormat::DVD => {
            assert(format_of_string("DVD"@) == Some(MotionPictureFormat::DVD));
        },
        MotionPictureFormat::VHS => {
            assert(format_of_string("VHS"@) == Some(MotionPictureFormat::VHS));
        },
    }
}

/// A movie record of the catalog.
#[derive(Clone, Debug)]
pub struct Movie {
    pub id: String,
    pub title: String,
    pub format: MotionPictureFormat,
    pub rating: MPAARating,
}

impl Movie {
    /// Builds a movie from caller-supplied fields under a freshly drawn id.
    /// Returns `None` exactly when the format or the rating string is
    /// unknown.
    pub fn new(title: &str, format: &str, rating: &str) -> (r: Option<Movie>)
        ensures
            r is Some <==> (format_of_string(format@) is Some && mpaa_of_string(rating@) is Some),
            r matches Some(m) ==> m.title@ == title@ && Some(m.format) == format_of_string(format@)
                && Some(m.rating) == mpaa_of_string(rating@) && m.id@.len() == 36,
    {
        let format = match MotionPictureFormat::from_string(format) {
            Some(f) => f,
            None => {
                return None;
            },
        };
        let rating = match MPAARating::from_string(rating) {
            Some(x) => x,
            None => {
                return None;
            },
        };
        Some(Movie { id: fresh_id(), title: title.to_owned(), format, rating })
    }

    /// Rebuilds a movie from stored row fields, keeping the stored id.
    /// Returns `None` exactly when the format or the rating string is
    /// unknown.
    pub fn from_fields(id: String, title: String, format: &str, rating: &str) -> (r: Option<Movie>)
        ensures
            r is Some <==> (format_of_string(format@) is Some && mpaa_of_string(rating@) is Some),
            r matches Some(m) ==> m.id@ == id@ && m.title@ == title@ && Some(m.format)
                == format_of_string(format@) && Some(m.rating) == mpaa_of_string(rating@),
    {
        let format = match MotionPictureFormat::from_string(format) {
            Some(f) => f,
            None => {
                return None;
            },
        };
        let rating = match MPAARating::from_string(rating) {
            Some(x) => x,
            None => {
                return None;
            },
        };
        Some(Movie { id, title, format, rating })
    }
}

} // verus!
