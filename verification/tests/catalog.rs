use media_catalog_auth::game::{ESRBRating, Game, PlatformType};
use media_catalog_auth::movie::{MPAARating, MotionPictureFormat, Movie};
use media_catalog_auth::service_errors::ServiceError;

#[test]
fn test_movie_encoding() {
    let expected_movie = Movie {
        id: "".to_string(),
        title: "Troy".to_string(),
        format: MotionPictureFormat::DVD,
        rating: MPAARating::Restricted,
    };
    let movie = Movie::from_fields("".to_string(), "Troy".to_string(), "DVD", "Restricted")
        .unwrap();
    assert_eq!(expected_movie.id, movie.id);
    assert_eq!(expected_movie.title, movie.title);
    assert_eq!(expected_movie.format, movie.format);
    assert_eq!(expected_movie.rating, movie.rating);
}

#[test]
fn test_game_encoding() {
    let expected_game = Game {
        id: "".to_string(),
        title: "syphon filter 2".to_string(),
        rating: ESRBRating::Mature,
        platform: PlatformType::Playstation1,
        number_of_players: 1,
    };
    let game = Game::from_fields(
        "".to_string(),
        "syphon filter 2".to_string(),
        "Playstation1",
        "Mature",
        1,
    )
    .unwrap();
    assert_eq!(expected_game.id, game.id);
    assert_eq!(expected_game.title, game.title);
    assert_eq!(expected_game.platform, game.platform);
    assert_eq!(expected_game.rating, game.rating);
    assert_eq!(expected_game.number_of_players, game.number_of_players);
}

#[test]
fn platform_names_round_trip() {
    let platforms = [
        PlatformType::Playstation1,
        PlatformType::Playstation2,
        PlatformType::Playstation3,
        PlatformType::Playstation4,
        PlatformType::Playstation5,
        PlatformType::NES,
        PlatformType::SNES,
        PlatformType::N64,
        PlatformType::GameCube,
        PlatformType::Wii,
        PlatformType::WiiU,
        PlatformType::Switch,
        PlatformType::Switch2,
        PlatformType::NintendoDS,
        PlatformType::Nintendo3DS,
        PlatformType::Computer,
    ];
    for p in platforms {
        assert_eq!(PlatformType::platform_from_string(&p.string()), Some(p));
    }
}

#[test]
fn esrb_names_round_trip() {
    let ratings = [
        ESRBRating::Everyone,
        ESRBRating::Everyone10,
        ESRBRating::Teen,
        ESRBRating::Mature,
        ESRBRating::AdultOnly,
    ];
    for r in ratings {
        assert_eq!(ESRBRating::rating_from_string(&r.string()), Some(r));
    }
}

#[test]
fn mpaa_names_round_trip() {
    let ratings = [
        MPAARating::GeneralAudiences,
        MPAARating::ParentalGuidance,
        MPAARating::ParentsStronglyCautioned,
        MPAARating::Restricted,
        MPAARating::AdultsOnly,
    ];
    for r in &ratings {
        assert_eq!(MPAARating::from_string(&r.string()), Some(*r));
    }
}

#[test]
fn format_names_round_trip() {
    let formats = [
        MotionPictureFormat::BluRay,
        MotionPictureFormat::UltraHD,
        MotionPictureFormat::DVD,
        MotionPictureFormat::VHS,
    ];
    for f in &formats {
        assert_eq!(MotionPictureFormat::from_string(&f.string()), Some(*f));
    }
}

#[test]
fn unknown_names_parse_to_none() {
    assert_eq!(PlatformType::platform_from_string("Dreamcast"), None);
    assert_eq!(PlatformType::platform_from_string(""), None);
    assert_eq!(ESRBRating::rating_from_string("RatedZ"), None);
    assert_eq!(MPAARating::from_string("Unrated"), None);
    assert_eq!(MotionPictureFormat::from_string("Betamax"), None);
}

#[test]
fn new_game_parses_fields_and_draws_an_id() {
    let game = Game::new("syphon filter 2".to_string(), "Playstation1", "Mature", 1).unwrap();
    assert_eq!(game.title, "syphon filter 2");
    assert_eq!(game.platform, PlatformType::Playstation1);
    assert_eq!(game.rating, ESRBRating::Mature);
    assert_eq!(game.number_of_players, 1);
    assert_eq!(game.id.len(), 36);
}

#[test]
fn new_game_rejects_unknown_fields() {
    assert!(Game::new("x".to_string(), "Dreamcast", "Mature", 1).is_none());
    assert!(Game::new("x".to_string(), "Wii", "RatedZ", 1).is_none());
}

#[test]
fn new_movie_parses_fields_and_draws_an_id() {
    let movie = Movie::new("Troy", "DVD", "Restricted").unwrap();
    assert_eq!(movie.title, "Troy");
    assert_eq!(movie.format, MotionPictureFormat::DVD);
    assert_eq!(movie.rating, MPAARating::Restricted);
    assert_eq!(movie.id.len(), 36);
}

#[test]
fn new_movie_rejects_unknown_fields() {
    assert!(Movie::new("Troy", "Betamax", "Restricted").is_none());
    assert!(Movie::new("Troy", "DVD", "Unrated").is_none());
}

#[test]
fn service_error_status_codes() {
    assert_eq!(ServiceError::ConnectionFailure.status_code(), 500);
    assert_eq!(ServiceError::GameNotFound.status_code(), 404);
    assert_eq!(ServiceError::MovieNotFound.status_code(), 404);
    assert_eq!(ServiceError::FailedToMakeGame.status_code(), 418);
    assert_eq!(ServiceError::FailedToMakeMovie.status_code(), 418);
    assert_eq!(ServiceError::FailedToUpdateGame.status_code(), 500);
    assert_eq!(ServiceError::FailedToUpdateMovie.status_code(), 500);
}

#[test]
fn service_error_messages() {
    assert_eq!(ServiceError::ConnectionFailure.message(), "failed to connect to DB.");
    assert_eq!(ServiceError::GameNotFound.message(), "Failed to find a game for specified id");
    assert_eq!(ServiceError::MovieNotFound.message(), "Failed to find a movie for specified id");
    assert_eq!(ServiceError::FailedToMakeGame.message(), "Failed to make new game");
    assert_eq!(ServiceError::FailedToMakeMovie.message(), "Failed to make new movie");
    assert_eq!(ServiceError::FailedToUpdateGame.message(), "Failed to update game");
    assert_eq!(ServiceError::FailedToUpdateMovie.message(), "Failed to update movie");
}
