use galaxy_graphql::satellites::{
    can_see_life_exists, satellites_from_entities, LandingDate, LifeExists, Planet, Satellite, SatelliteEntity,
    Storage,
};

fn rows() -> Vec<SatelliteEntity> {
    vec![
        SatelliteEntity {
            id: 1,
            name: "Moon".to_string(),
            life_exists: "OPEN_QUESTION".to_string(),
            first_spacecraft_landing_date: Some(LandingDate { year: 1959, month: 9, day: 13 }),
            planet_id: 3,
        },
        SatelliteEntity {
            id: 8,
            name: "Titan".to_string(),
            life_exists: "NO_DATA".to_string(),
            first_spacecraft_landing_date: None,
            planet_id: 6,
        },
    ]
}

fn check_satellite(s: &Satellite, name: &str, date: Option<LandingDate>, life_exists: LifeExists) {
    assert_eq!(s.name, name);
    assert_eq!(s.first_spacecraft_landing_date, date);
    assert_eq!(s.life_exists, life_exists);
}

#[test]
fn test_get_satellites() {
    let all = satellites_from_entities(&rows());
    assert_eq!(all.len(), 2);
    check_satellite(&all[0], "Moon", Some(LandingDate { year: 1959, month: 9, day: 13 }), LifeExists::OpenQuestion);
    check_satellite(&all[1], "Titan", None, LifeExists::NoData);
    assert_eq!(all[1].id, "8");
}

#[test]
fn test_get_satellite() {
    let moon = Satellite::from_entity(&rows()[0]);
    check_satellite(&moon, "Moon", Some(LandingDate { year: 1959, month: 9, day: 13 }), LifeExists::OpenQuestion);
    assert_eq!(moon.id, "1");
}

#[test]
fn life_exists_only_for_admin_text() {
    let moon = Satellite::from_entity(&rows()[0]);
    assert!(can_see_life_exists(Some("admin")));
    assert!(!can_see_life_exists(Some("ADMIN")));
    assert!(!can_see_life_exists(Some("user")));
    assert!(!can_see_life_exists(None));
    assert_eq!(moon.life_exists_for(Some("admin")), LifeExists::OpenQuestion);
}

#[test]
fn life_exists_texts() {
    for (l, text) in [(LifeExists::Yes, "YES"), (LifeExists::OpenQuestion, "OPEN_QUESTION"), (LifeExists::NoData, "NO_DATA")] {
        assert_eq!(l.to_string(), text);
        assert_eq!(LifeExists::parse(text).unwrap(), l);
    }
    assert!(LifeExists::parse("OpenQuestion").is_err());
}

#[test]
fn storage_holds_the_moon() {
    let storage = Storage::new();
    let all = storage.satellites();
    assert_eq!(all.len(), 1);
    assert_eq!(all[0].id, "1");
    check_satellite(&all[0], "Moon", Some(LandingDate { year: 1959, month: 9, day: 13 }), LifeExists::OpenQuestion);
    assert_eq!(all[0].planet_id, 3);
}

#[test]
fn storage_satellites_by_planet() {
    let storage = Storage::new();
    assert_eq!(storage.satellites_by_planet_id("3").len(), 1);
    assert_eq!(storage.satellites_by_planet_id("4").len(), 0);
    let earth = Planet::with_id("3".to_string());
    assert_eq!(earth.id_number(), 3);
}
