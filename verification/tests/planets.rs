use std::str::FromStr;

use bigdecimal::BigDecimal;
use galaxy_graphql::planets::{
    details_by_planet_id, new_planet_entities, CustomBigDecimal, CustomBigInt, Details, DetailsEntity,
    DetailsInput, Planet, PlanetEntity, PlanetInput, PlanetType,
};

fn dec(s: &str) -> BigDecimal {
    BigDecimal::from_str(s).unwrap()
}

fn check_planet(planet: &Planet, id: i32, name: &str, type_: &str) {
    assert_eq!(planet.id, id.to_string());
    assert_eq!(planet.name, name);
    assert_eq!(planet.type_.to_string(), type_);
}

fn planet_with_details(id: i32, name: &str, type_: &str, mean_radius: &str, population: Option<&str>) -> (Planet, Details) {
    let entity = PlanetEntity { id, name: name.to_string(), type_: type_.to_string() };
    let details = DetailsEntity {
        id,
        mean_radius: dec(mean_radius),
        mass: dec("1e24"),
        population: population.map(dec),
        planet_id: id,
    };
    (Planet::from_entity(&entity), Details::from(&details))
}

fn check_planet_details(details: &Details, mean_radius: &str) {
    let text = match details {
        Details::InhabitedPlanetDetails(d) => d.mean_radius.to_value(),
        Details::UninhabitedPlanetDetails(d) => d.mean_radius.to_value(),
    };
    assert_eq!(text, mean_radius);
}

#[test]
fn test_get_planets() {
    let rows = [
        (1, "Mercury", "TERRESTRIAL_PLANET", "2439.7"),
        (3, "Earth", "TERRESTRIAL_PLANET", "6371.0"),
        (8, "Neptune", "ICE_GIANT", "24622.0"),
    ];
    for (id, name, type_, mean_radius) in rows {
        let (planet, details) = planet_with_details(id, name, type_, mean_radius, None);
        check_planet(&planet, id, name, type_);
        check_planet_details(&details, mean_radius);
        assert_eq!(planet.id_number(), id);
        assert!(planet.is_rotating_around_sun());
    }
}

#[test]
fn test_get_planet_by_id() {
    let (earth, details) = planet_with_details(3, "Earth", "TERRESTRIAL_PLANET", "6371.0", Some("7.53"));
    check_planet(&earth, 3, "Earth", "TERRESTRIAL_PLANET");
    check_planet_details(&details, "6371.0");
    assert!(matches!(details, Details::InhabitedPlanetDetails(_)));
}

#[test]
fn test_get_planet_by_id_with_variable() {
    let (jupiter, details) = planet_with_details(5, "Jupiter", "GAS_GIANT", "69911.0", None);
    check_planet(&jupiter, 5, "Jupiter", "GAS_GIANT");
    check_planet_details(&details, "69911.0");
    assert_eq!(galaxy_graphql::ids::parse_id(&jupiter.id), 5);
}

#[test]
fn planet_type_texts() {
    for (t, text) in [
        (PlanetType::TerrestrialPlanet, "TERRESTRIAL_PLANET"),
        (PlanetType::GasGiant, "GAS_GIANT"),
        (PlanetType::IceGiant, "ICE_GIANT"),
        (PlanetType::DwarfPlanet, "DWARF_PLANET"),
    ] {
        assert_eq!(t.to_string(), text);
        assert_eq!(PlanetType::parse(text).unwrap(), t);
    }
    assert!(PlanetType::parse("GasGiant").is_err());
}

#[test]
fn details_follow_population() {
    let inhabited = DetailsEntity { id: 1, mean_radius: dec("6371.0"), mass: dec("5.97e24"), population: Some(dec("7.53")), planet_id: 3 };
    match Details::from(&inhabited) {
        Details::InhabitedPlanetDetails(d) => {
            assert_eq!(d.mean_radius.to_value(), "6371.0");
            assert_eq!(d.population.to_value(), "7.53");
            assert_eq!(d.mass.0, dec("5970000000000000000000000"));
        }
        Details::UninhabitedPlanetDetails(_) => panic!("expected an inhabited planet"),
    }
    let uninhabited = DetailsEntity { id: 2, mean_radius: dec("24622.0"), mass: dec("1.02e26"), population: None, planet_id: 8 };
    assert!(matches!(Details::from_entity(&uninhabited), Details::UninhabitedPlanetDetails(_)));
}

#[test]
fn loader_keys_details_by_planet() {
    let rows = vec![
        DetailsEntity { id: 1, mean_radius: dec("2439.7"), mass: dec("3.3e23"), population: None, planet_id: 1 },
        DetailsEntity { id: 2, mean_radius: dec("6371.0"), mass: dec("5.97e24"), population: Some(dec("7.53")), planet_id: 3 },
        DetailsEntity { id: 3, mean_radius: dec("6371.5"), mass: dec("5.97e24"), population: None, planet_id: 3 },
    ];
    let map = details_by_planet_id(&rows);
    assert_eq!(map.len(), 2);
    match &map[&3] {
        Details::UninhabitedPlanetDetails(d) => assert_eq!(d.mean_radius.to_value(), "6371.5"),
        Details::InhabitedPlanetDetails(_) => panic!("the last row counts"),
    }
    assert!(map.contains_key(&1));
}

#[test]
fn decimal_scalars() {
    assert_eq!(CustomBigDecimal::parse("10.7").ok().unwrap().to_value(), "10.7");
    assert!(CustomBigDecimal::parse("ten").is_err());
    assert_eq!(CustomBigInt::parse("6.42e+23").ok().unwrap().0, dec("642000000000000000000000"));
    assert!(CustomBigInt::parse("").is_err());
    assert_eq!(CustomBigDecimal::parse("2439.7").ok().unwrap().0, dec("2439.7"));
}

#[test]
fn decimal_scalar_text_reads_back_as_the_same_decimal() {
    for text in ["2439.7", "5e2", "0.000", "-1.23E-8", "1e20", "12345678901234567890.5"] {
        let x = CustomBigDecimal::parse(text).ok().unwrap();
        let written = x.to_value();
        let y = CustomBigDecimal::parse(&written).ok().unwrap();
        assert!(y == x);
        assert_eq!(y.0, x.0);
    }
    assert_eq!(CustomBigDecimal::parse("5e2").ok().unwrap().to_value(), "500");
    assert!(CustomBigDecimal::parse("1.0").ok().unwrap() == CustomBigDecimal::parse("1").ok().unwrap());
    assert!(!(CustomBigDecimal::parse("1.5").ok().unwrap() == CustomBigDecimal::parse("1").ok().unwrap()));
}

#[test]
fn test_create_planet() {
    let input = PlanetInput {
        name: "Test planet".to_string(),
        type_: PlanetType::TerrestrialPlanet,
        details: DetailsInput {
            mean_radius: CustomBigDecimal::parse("10.7").ok().unwrap(),
            mass: CustomBigInt::parse("6.42e+23").ok().unwrap(),
            population: Some(CustomBigDecimal::parse("0.5").ok().unwrap()),
        },
    };
    let (planet, details) = new_planet_entities(input);
    assert_eq!(planet.name, "Test planet");
    assert_eq!(planet.type_, "TERRESTRIAL_PLANET");
    assert_eq!(details.mean_radius, dec("10.7"));
    assert_eq!(details.mass, dec("6.42e+23"));
    assert_eq!(details.mass.to_string(), dec("6.42e+23").to_string());
    assert_eq!(details.population, Some(dec("0.5")));
    assert_eq!(details.planet_id, 0);
}
