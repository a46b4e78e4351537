//! The game catalog data model and its string codecs.

use vstd::prelude::*;

use crate::ids::fresh_id;
use crate::text::str_eq;

verus! {

/// The platform a game runs on.
#[derive(Clone, Copy, Debug, PartialEq, Eq, Structural)]
pub enum PlatformType {
    Playstation1,
    Playstation2,
    Playstation3,
    Playstation4,
    Playstation5,
    NES,
    SNES,
    N64,
    GameCube,
    Wii,
    WiiU,
    Switch,
    Switch2,
    NintendoDS,
    Nintendo3DS,
    Computer,
}

/// The canonical name of each platform.
pub open spec fn platform_string(p: PlatformType) -> Seq<char> {
    match p {
        PlatformType::NES => "NES"@,
        PlatformType::SNES => "SNES"@,
        PlatformType::N64 => "N64"@,
        PlatformType::GameCube => "GameCube"@,
        PlatformType::Wii => "Wii"@,
        PlatformType::WiiU => "WiiU"@,
        PlatformType::Switch => "Switch"@,
        PlatformType::Switch2 => "Switch2"@,
        PlatformType::NintendoDS => "NintendoDS"@,
        PlatformType::Nintendo3DS => "Nintendo3DS"@,
        PlatformType::Computer => "Computer"@,
        PlatformType::Playstation1 => "Playstation1"@,
        PlatformType::Playstation2 => "Playstation2"@,
        PlatformType::Playstation3 => "Playstation3"@,
        PlatformType::Playstation4 => "Playstation4"@,
        PlatformType::Playstation5 => "Playstation5"@,
    }
}

/// The platform a canonical name denotes, if any.
pub open spec fn platform_of_string(s: Seq<char>) -> Option<PlatformType> {
    if s == "NES"@ {
        Some(PlatformType::NES)
    } else if s == "SNES"@ {
        Some(PlatformType::SNES)
    } else if s == "N64"@ {
        Some(PlatformType::N64)
    } else if s == "GameCube"@ {
        Some(PlatformType::GameCube)
    } else if s == "Wii"@ {
        Some(PlatformType::Wii)
    } else if s == "WiiU"@ {
        Some(PlatformType::WiiU)
    } else if s == "Switch"@ {
        Some(PlatformType::Switch)
    } else if s == "Switch2"@ {
        Some(PlatformType::Switch2)
    } else if s == "NintendoDS"@ {
        Some(PlatformType::NintendoDS)
    } else if s == "Nintendo3DS"@ {
        Some(PlatformType::Nintendo3DS)
    } else if s == "Computer"@ {
        Some(PlatformType::Computer)
    } else if s == "Playstation1"@ {
        Some(PlatformType::Playstation1)
    } else if s == "Playstation2"@ {
        Some(PlatformType::Playstation2)
    } else if s == "Playstation3"@ {
        Some(PlatformType::Playstation3)
    } else if s == "Playstation4"@ {
        Some(PlatformType::Playstation4)
    } else if s == "Playstation5"@ {
        Some(PlatformType::Playstation5)
    } else {
        None
    }
}

impl PlatformType {
    /// Parses a canonical platform name; unknown strings yield `None`.
    pub fn platform_from_string(type_string: &str) -> (r: Option<PlatformType>)
        ensures
            r == platform_of_string(type_string@),
    {
        if str_eq(type_string, "NES") {
            Some(PlatformType::NES)
        } else if str_eq(type_string, "SNES") {
            Some(PlatformType::SNES)
        } else if str_eq(type_string, "N64") {
            Some(PlatformType::N64)
        } else if str_eq(type_string, "GameCube") {
            Some(PlatformType::GameCube)
        } else if str_eq(type_string, "Wii") {
            Some(PlatformType::Wii)
        } else if str_eq(type_string, "WiiU") {
            Some(PlatformType::WiiU)
        } else if str_eq(type_string, "Switch") {
            Some(PlatformType::Switch)
        } else if str_eq(type_string, "Switch2") {
            Some(PlatformType::Switch2)
        } else if str_eq(type_string, "NintendoDS") {
            Some(PlatformType::NintendoDS)
        } else if str_eq(type_string, "Nintendo3DS") {
            Some(PlatformType::Nintendo3DS)
        } else if str_eq(type_string, "Computer") {
            Some(PlatformType::Computer)
        } else if str_eq(type_string, "Playstation1") {
            Some(PlatformType::Playstation1)
        } else if str_eq(type_string, "Playstation2") {
            Some(PlatformType::Playstation2)
        } else if str_eq(type_string, "Playstation3") {
            Some(PlatformType::Playstation3)
        } else if str_eq(type_string, "Playstation4") {
            Some(PlatformType::Playstation4)
        } else if str_eq(type_string, "Playstation5") {
            Some(PlatformType::Playstation5)
        } else {
            None
        }
    }

    /// The canonical name of this platform.
    pub fn string(self) -> (r: String)
        ensures
            r@ == platform_string(self),
    {
        match self {
            PlatformType::NES => "NES".to_owned(),
            PlatformType::SNES => "SNES".to_owned(),
            PlatformType::N64 => "N64".to_owned(),
            PlatformType::GameCube => "GameCube".to_owned(),
            PlatformType::Wii => "Wii".to_owned(),
            PlatformType::WiiU => "WiiU".to_owned(),
            PlatformType::Switch => "Switch".to_owned(),
            PlatformType::Switch2 => "Switch2".to_owned(),
            PlatformType::NintendoDS => "NintendoDS".to_owned(),
            PlatformType::Nintendo3DS => "Nintendo3DS".to_owned(),
            PlatformType::Computer => "Computer".to_owned(),
            PlatformType::Playstation1 => "Playstation1".to_owned(),
            PlatformType::Playstation2 => "Playstation2".to_owned(),
            PlatformType::Playstation3 => "Playstation3".to_owned(),
            PlatformType::Playstation4 => "Playstation4".to_owned(),
            PlatformType::Playstation5 => "Playstation5".to_owned(),
        }
    }
}

/// Law: printing a platform's canonical name and parsing it back yields the
/// same platform.
pub proof fn lemma_platform_round_trip(p: PlatformType)
    ensures
        platform_of_string(platform_string(p)) == Some(p),
{
    reveal_strlit("NES");
    reveal_strlit("SNES");
    reveal_strlit("N64");
    reveal_strlit("GameCube");
    reveal_strlit("Wii");
    reveal_strlit("WiiU");
    reveal_strlit("Switch");
    reveal_strlit("Switch2");
    reveal_strlit("NintendoDS");
    reveal_strlit("Nintendo3DS");
    reveal_strlit("Computer");
    reveal_strlit("Playstation1");
    reveal_strlit("Playstation2");
    reveal_strlit("Playstation3");
    reveal_strlit("Playstation4");
    reveal_strlit("Playstation5");
    assert("N64"@[1] != "NES"@[1]);
    assert("Wii"@[0] != "NES"@[0]);
    assert("Wii"@[0] != "N64"@[0]);
    assert("WiiU"@[0] != "SNES"@[0]);
    assert("Computer"@[0] != "GameCube"@[0]);
    assert("Playstation2"@[11] != "Playstation1"@[11]);
    assert("Playstation3"@[11] != "Playstation1"@[11]);
    assert("Playstation3"@[11] != "Playstation2"@[11]);
    assert("Playstation4"@[11] != "Playstation1"@[11]);
    assert("Playstation4"@[11] != "Playstation2"@[11]);
    assert("Playstation4"@[11] != "Playstation3"@[11]);
    assert("Playstation5"@[11] != "Playstation1"@[11]);
    assert("Playstation5"@[11] != "Playstation2"@[11]);
    assert("Playstation5"@[11] != "Playstation3"@[11]);
    assert("Playstation5"@[11] != "Playstation4"@[11]);
    assert("NES"@.len() == 3);
    assert("SNES"@.len() == 4);
    assert("N64"@.len() == 3);
    assert("GameCube"@.len() == 8);
    assert("Wii"@.len() == 3);
    assert("WiiU"@.len() == 4);
    assert("Switch"@.len() == 6);
    assert("Switch2"@.len() == 7);
    assert("NintendoDS"@.len() == 10);
    assert("Nintendo3DS"@.len() == 11);
    assert("Computer"@.len() == 8);
    assert("Playstation1"@.len() == 12);
    assert("Playstation2"@.len() == 12);
    assert("Playstation3"@.len() == 12);
    assert("Playstation4"@.len() == 12);
    assert("Playstation5"@.len() == 12);
    match p {
        PlatformType::NES => {
            assert(platform_of_string("NES"@) == Some(PlatformType::NES));
        },
        PlatformType::SNES => {
            assert(platform_of_string("SNES"@) == Some(PlatformType::SNES));
        },
        PlatformType::N64 => {
            assert(platform_of_string("N64"@) == Some(PlatformType::N64));
        },
        PlatformType::GameCube => {
            assert(platform_of_string("GameCube"@) == Some(PlatformType::GameCube));
        },
        PlatformType::Wii => {
            assert(platform_of_string("Wii"@) == Some(PlatformType::Wii));
        },
        PlatformType::WiiU => {
            assert(platform_of_string("WiiU"@) == Some(PlatformType::WiiU));
        },
        PlatformType::Switch => {
            assert(platform_of_string("Switch"@) == Some(PlatformType::Switch));
        },
        PlatformType::Switch2 => {
            assert(platform_of_string("Switch2"@) == Some(PlatformType::Switch2));
        },
        PlatformType::NintendoDS => {
            assert(platform_of_string("NintendoDS"@) == Some(PlatformType::NintendoDS));
        },
        PlatformType::Nintendo3DS => {
            assert(platform_of_string("Nintendo3DS"@) == Some(PlatformType::Nintendo3DS));
        },
        PlatformType::Computer => {
            assert(platform_of_string("Computer"@) == Some(PlatformType::Computer));
        },
        PlatformType::Playstation1 => {
            assert(platform_of_string("Playstation1"@) == Some(PlatformType::Playstation1));
        },
        PlatformType::Playstation2 => {
            assert(platform_of_string("Playstation2"@) == Some(PlatformType::Playstation2));
        },
        PlatformType::Playstation3 => {
            assert(platform_of_string("Playstation3"@) == Some(PlatformType::Playstation3));
        },
        PlatformType::Playstation4 => {
            assert(platform_of_string("Playstation4"@) == Some(PlatformType::Playstation4));
        },
        PlatformType::Playstation5 => {
            assert(platform_of_string("Playstation5"@) == Some(PlatformType::Playstation5));
        },
    }
}

/// The content rating of a game.
#[derive(Clone, Copy, Debug, PartialEq, Eq, Structural)]
pub enum ESRBRating {
    Everyone,
    Everyone10,
    Teen,
    Mature,
    AdultOnly,
}

/// The canonical name of each rating.
pub open spec fn esrb_string(r: ESRBRating) -> Seq<char> {
    match r {
        ESRBRating::Everyone => "Everyone"@,
        ESRBRating::Everyone10 => "Everyone10"@,
        ESRBRating::Teen => "Teen"@,
        ESRBRating::Mature => "Mature"@,
        ESRBRating::AdultOnly => "AdultOnly"@,
    }
}

/// The rating a canonical name denotes, if any.
pub open spec fn esrb_of_string(s: Seq<char>) -> Option<ESRBRating> {
    if s == "Everyone"@ {
        Some(ESRBRating::Everyone)
    } else if s == "Everyone10"@ {
        Some(ESRBRating::Everyone10)
    } else if s == "Teen"@ {
        Some(ESRBRating::Teen)
    } else if s == "Mature"@ {
        Some(ESRBRating::Mature)
    } else if s == "AdultOnly"@ {
        Some(ESRBRating::AdultOnly)
    } else {
        None
    }
}

impl ESRBRating {
    /// Parses a canonical rating name; unknown strings yield `None`.
    pub fn rating_from_string(rating_string: &str) -> (r: Option<ESRBRating>)
        ensures
            r == esrb_of_string(rating_string@),
    {
        if str_eq(rating_string, "Everyone") {
            Some(ESRBRating::Everyone)
        } else if str_eq(rating_string, "Everyone10") {
            Some(ESRBRating::Everyone10)
        } else if str_eq(rating_string, "Teen") {
            Some(ESRBRating::Teen)
        } else if str_eq(rating_string, "Mature") {
            Some(ESRBRating::Mature)
        } else if str_eq(rating_string, "AdultOnly") {
            Some(ESRBRating::AdultOnly)
        } else {
            None
        }
    }

    /// The canonical name of this rating.
    pub fn string(self) -> (r: String)
        ensures
            r@ == esrb_string(self),
    {
        match self {
            ESRBRating::Everyone => "Everyone".to_owned(),
            ESRBRating::Everyone10 => "Everyone10".to_owned(),
            ESRBRating::Teen => "Teen".to_owned(),
            ESRBRating::Mature => "Mature".to_owned(),
            ESRBRating::AdultOnly => "AdultOnly".to_owned(),
        }
    }
}

/// Law: printing a rating's canonical name and parsing it back yields the
/// same rating.
pub proof fn lemma_esrb_round_trip(r: ESRBRating)
    ensures
        esrb_of_string(esrb_string(r)) == Some(r),
{
    reveal_strlit("Everyone");
    reveal_strlit("Everyone10");
    reveal_strlit("Teen");
    reveal_strlit("Mature");
    reveal_strlit("AdultOnly");
    assert("Everyone"@.len() == 8);
    assert("Everyone10"@.len() == 10);
    assert("Teen"@.len() == 4);
    assert("Mature"@.len() == 6);
    assert("AdultOnly"@.len() == 9);
    match r {
        ESRBRating::Everyone => {
            assert(esrb_of_string("Everyone"@) == Some(ESRBRating::Everyone));
        },
        ESRBRating::Everyone10 => {
            assert(esrb_of_string("Everyone10"@) == Some(ESRBRating::Everyone10));
        },
        ESRBRating::Teen => {
            assert(esrb_of_string("Teen"@) == Some(ESRBRating::Teen));
        },
        ESRBRating::Mature => {
            assert(esrb_of_string("Mature"@) == Some(ESRBRating::Mature));
        },
        ESRBRating::AdultOnly => {
            assert(esrb_of_string("AdultOnly"@) == Some(ESRBRating::AdultOnly));
        },
    }
}

/// A game record of the catalog.
#[derive(Clone, Debug)]
pub struct Game {
    pub id: String,
    pub title: String,
    pub platform: PlatformType,
    pub rating: ESRBRating,
    pub number_of_players: u8,
}

impl Game {
    /// Builds a game from caller-supplied fields under a freshly drawn id.
    /// Returns `None` exactly when the platform or the rating string is
    /// unknown.
    pub fn new(title: String, platform: &str, rating: &str, number_of_players: u8) -> (r: Option<
        Game,
    >)
        ensures
            r is Some <==> (platform_of_string(platform@) is Some && esrb_of_string(rating@)
                is Some),
            r matches Some(g) ==> g.title@ == title@ && Some(g.platform) == platform_of_string(
                platform@,
            ) && Some(g.rating) == esrb_of_string(rating@) && g.number_of_players
                == number_of_players && g.id@.len() == 36,
    {
        let platform = match PlatformType::platform_from_string(platform) {
            Some(p) => p,
            None => {
                return None;
            },
        };
        let rating = match ESRBRating::rating_from_string(rating) {
            Some(x) => x,
            None => {
                return None;
            },
        };
        Some(Game { id: fresh_id(), title, platform, rating, number_of_players })
    }

    /// Rebuilds a game from stored row fields, keeping the stored id.
    /// Returns `None` exactly when the platform or the rating string is
    /// unknown.
    pub fn from_fields(
        id: String,
        title: String,
        platform: &str,
        rating: &str,
        number_of_players: u8,
    ) -> (r: Option<Game>)
        ensures
            r is Some <==> (platform_of_string(platform@) is Some && esrb_of_string(rating@)
                is Some),
            r matches Some(g) ==> g.id@ == id@ && g.title@ == title@ && Some(g.platform)
                == platform_of_string(platform@) && Some(g.rating) == esrb_of_string(rating@)
                && g.number_of_players == number_of_players,
    {
        let platform = match PlatformType::platform_from_string(platform) {
            Some(p) => p,
            None => {
                return None;
            },
        };
        let rating = match ESRBRating::rating_from_string(rating) {
            Some(x) => x,
            None => {
                return None;
            },
        };
        Some(Game { id, title, platform, rating, number_of_players })
    }
}

} // verus!
