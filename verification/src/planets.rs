//! Planets: the stored rows, the objects the planets service shows, the
//! details of a planet (inhabited or not), the decimal scalars, and the rows
//! that creating a planet stores.
use std::collections::HashMap;

use vstd::prelude::*;

use crate::ids::{decimal_text, i32_to_text, parse_i32, parse_i32_spec};
use crate::text::str_eq;

verus! {

broadcast use vstd::std_specs::hash::group_hash_axioms;

#[verifier::external_type_specification]
#[verifier::external_body]
pub struct ExBigDecimal(bigdecimal::BigDecimal);

/// `BigDecimal::clone`: the derived clone, equal to its source.
pub assume_specification[ <bigdecimal::BigDecimal as Clone>::clone ](b: &bigdecimal::BigDecimal) -> (r: bigdecimal::BigDecimal)
    ensures
        r == *b,
;

/// Whether `BigDecimal::from_str` accepts the text: a function of the text
/// alone.
pub uninterp spec fn decimal_text_is_valid(text: Seq<char>) -> bool;

/// The decimal that `BigDecimal::from_str` reads from an accepted text: a
/// function of the text alone.
pub uninterp spec fn decimal_of_text(text: Seq<char>) -> bigdecimal::BigDecimal;

/// The text that `BigDecimal::to_string` writes for a decimal: a function of
/// the decimal alone.
pub uninterp spec fn text_of_decimal(value: bigdecimal::BigDecimal) -> Seq<char>;

/// Whether two decimals are equal by `BigDecimal`'s `==`, which compares
/// their numeric values (so `5e2` equals `500`): a function of the two alone.
pub uninterp spec fn decimals_equal(a: bigdecimal::BigDecimal, b: bigdecimal::BigDecimal) -> bool;

/// `BigDecimal::from_str`, its error written as the text of its `Display`.
/// It succeeds exactly on the texts it accepts, and gives the decimal read.
#[verifier::external_body]
fn parse_big_decimal(text: &str) -> (r: Result<bigdecimal::BigDecimal, String>)
    ensures
        r is Ok <==> decimal_text_is_valid(text@),
        r matches Ok(v) ==> v == decimal_of_text(text@),
{
    <bigdecimal::BigDecimal as core::str::FromStr>::from_str(text).map_err(|e| e.to_string())
}

/// `BigDecimal::to_string`. As the round-trip tests in the bigdecimal source
/// show (`test_parse_roundtrip`, the `fmt_boundaries` cases), `from_str`
/// accepts every text it writes and reads back a decimal equal, by `==`, to
/// the one written. The two need not agree in scale: `5e2` is written `500`,
/// which reads back with scale 0.
#[verifier::external_body]
fn big_decimal_text(value: &bigdecimal::BigDecimal) -> (r: String)
    ensures
        r@ == text_of_decimal(*value),
        decimal_text_is_valid(r@),
        decimals_equal(decimal_of_text(r@), *value),
{
    value.to_string()
}

/// `BigDecimal`'s `==`.
#[verifier::external_body]
fn big_decimal_eq(a: &bigdecimal::BigDecimal, b: &bigdecimal::BigDecimal) -> (r: bool)
    ensures
        r == decimals_equal(*a, *b),
{
    a == b
}

/// A planet's kind, from an astronomical point of view.
#[derive(Clone, Copy, Debug, PartialEq, Eq, Structural)]
pub enum PlanetType {
    TerrestrialPlanet,
    GasGiant,
    IceGiant,
    DwarfPlanet,
}

/// The text of a planet type (`SCREAMING_SNAKE_CASE` of its name).
pub open spec fn planet_type_name(t: PlanetType) -> Seq<char> {
    match t {
        PlanetType::TerrestrialPlanet => "TERRESTRIAL_PLANET"@,
        PlanetType::GasGiant => "GAS_GIANT"@,
        PlanetType::IceGiant => "ICE_GIANT"@,
        PlanetType::DwarfPlanet => "DWARF_PLANET"@,
    }
}

/// The planet type a text names exactly, if any.
pub open spec fn parse_planet_type_spec(s: Seq<char>) -> Option<PlanetType> {
    if s == "TERRESTRIAL_PLANET"@ {
        Some(PlanetType::TerrestrialPlanet)
    } else if s == "GAS_GIANT"@ {
        Some(PlanetType::GasGiant)
    } else if s == "ICE_GIANT"@ {
        Some(PlanetType::IceGiant)
    } else if s == "DWARF_PLANET"@ {
        Some(PlanetType::DwarfPlanet)
    } else {
        None
    }
}

impl PlanetType {
    /// The text of the type, as strum's `Display` writes it.
    pub fn to_string(&self) -> (r: String)
        ensures
            r@ == planet_type_name(*self),
    {
        match self {
            PlanetType::TerrestrialPlanet => String::from_str("TERRESTRIAL_PLANET"),
            PlanetType::GasGiant => String::from_str("GAS_GIANT"),
            PlanetType::IceGiant => String::from_str("ICE_GIANT"),
            PlanetType::DwarfPlanet => String::from_str("DWARF_PLANET"),
        }
    }

    /// The type that `s` names exactly, or strum's `VariantNotFound`.
    pub fn parse(s: &str) -> (r: Result<PlanetType, strum::ParseError>)
        ensures
            match parse_planet_type_spec(s@) {
                Some(t) => r == Ok::<PlanetType, strum::ParseError>(t),
                None => r is Err,
            },
    {
        if str_eq(s, "TERRESTRIAL_PLANET") {
            Ok(PlanetType::TerrestrialPlanet)
        } else if str_eq(s, "GAS_GIANT") {
            Ok(PlanetType::GasGiant)
        } else if str_eq(s, "ICE_GIANT") {
            Ok(PlanetType::IceGiant)
        } else if str_eq(s, "DWARF_PLANET") {
            Ok(PlanetType::DwarfPlanet)
        } else {
            Err(crate::role::variant_not_found())
        }
    }
}

/// Law: the text of a planet type names that type.
pub proof fn planet_type_text_round_trip(t: PlanetType)
    ensures
        parse_planet_type_spec(planet_type_name(t)) == Some(t),
{
    reveal_strlit("TERRESTRIAL_PLANET");
    reveal_strlit("GAS_GIANT");
    reveal_strlit("ICE_GIANT");
    reveal_strlit("DWARF_PLANET");
    assert("TERRESTRIAL_PLANET"@ != "GAS_GIANT"@ && "TERRESTRIAL_PLANET"@ != "ICE_GIANT"@
        && "TERRESTRIAL_PLANET"@ != "DWARF_PLANET"@) by {
        assert("TERRESTRIAL_PLANET"@.len() == 18);
    }
    assert("GAS_GIANT"@ != "ICE_GIANT"@) by {
        assert("GAS_GIANT"@[0] != "ICE_GIANT"@[0]);
    }
    assert("GAS_GIANT"@ != "DWARF_PLANET"@ && "ICE_GIANT"@ != "DWARF_PLANET"@) by {
        assert("DWARF_PLANET"@.len() == 12);
    }
}

/// A stored planet.
pub struct PlanetEntity {
    pub id: i32,
    pub name: String,
    pub type_: String,
}

/// The stored details of a planet; a population means it is inhabited.
pub struct DetailsEntity {
    pub id: i32,
    pub mean_radius: bigdecimal::BigDecimal,
    pub mass: bigdecimal::BigDecimal,
    pub population: Option<bigdecimal::BigDecimal>,
    pub planet_id: i32,
}

/// A planet to be stored.
pub struct NewPlanetEntity {
    pub name: String,
    pub type_: String,
}

/// Details to be stored for a planet.
pub struct NewDetailsEntity {
    pub mean_radius: bigdecimal::BigDecimal,
    pub mass: bigdecimal::BigDecimal,
    pub population: Option<bigdecimal::BigDecimal>,
    pub planet_id: i32,
}

/// The GraphQL scalar `BigInt` (a mass in kilograms, such as `6.42e+23`).
pub struct CustomBigInt(pub bigdecimal::BigDecimal);

/// The GraphQL scalar `BigDecimal`.
pub struct CustomBigDecimal(pub bigdecimal::BigDecimal);

impl CustomBigInt {
    /// Reads the scalar from its text, or gives the text of the decimal
    /// parser's error.
    pub fn parse(text: &str) -> (r: Result<CustomBigInt, String>)
        ensures
            r is Ok <==> decimal_text_is_valid(text@),
            r matches Ok(v) ==> v.0 == decimal_of_text(text@),
    {
        match parse_big_decimal(text) {
            Ok(value) => Ok(CustomBigInt(value)),
            Err(e) => Err(e),
        }
    }
}

impl CustomBigDecimal {
    /// Reads the scalar from its text, or gives the text of the decimal
    /// parser's error.
    pub fn parse(text: &str) -> (r: Result<CustomBigDecimal, String>)
        ensures
            r is Ok <==> decimal_text_is_valid(text@),
            r matches Ok(v) ==> v.0 == decimal_of_text(text@),
    {
        match parse_big_decimal(text) {
            Ok(value) => Ok(CustomBigDecimal(value)),
            Err(e) => Err(e),
        }
    }

    /// The text of the scalar (the GraphQL value it is sent as). The scalar
    /// reads it back as a decimal equal to its own.
    pub fn to_value(&self) -> (r: String)
        ensures
            r@ == text_of_decimal(self.0),
            decimal_text_is_valid(r@),
            decimals_equal(decimal_of_text(r@), self.0),
    {
        big_decimal_text(&self.0)
    }
}

impl PartialEq for CustomBigDecimal {
    /// Equal decimals, by `BigDecimal`'s `==`.
    fn eq(&self, other: &CustomBigDecimal) -> (r: bool) {
        big_decimal_eq(&self.0, &other.0)
    }
}

impl vstd::std_specs::cmp::PartialEqSpecImpl for CustomBigDecimal {
    open spec fn obeys_eq_spec() -> bool {
        true
    }

    open spec fn eq_spec(&self, other: &CustomBigDecimal) -> bool {
        decimals_equal(self.0, other.0)
    }
}

/// The details of an inhabited planet.
pub struct InhabitedPlanetDetails {
    pub mean_radius: CustomBigDecimal,
    pub mass: CustomBigInt,
    /// In billions.
    pub population: CustomBigDecimal,
}

/// The details of an uninhabited planet.
pub struct UninhabitedPlanetDetails {
    pub mean_radius: CustomBigDecimal,
    pub mass: CustomBigInt,
}

/// The details of a planet.
pub enum Details {
    InhabitedPlanetDetails(InhabitedPlanetDetails),
    UninhabitedPlanetDetails(UninhabitedPlanetDetails),
}

/// The details that a stored row describes: inhabited exactly when the row
/// has a population.
pub open spec fn details_of(e: DetailsEntity) -> Details {
    match e.population {
        Some(p) => Details::InhabitedPlanetDetails(
            InhabitedPlanetDetails {
                mean_radius: CustomBigDecimal(e.mean_radius),
                mass: CustomBigInt(e.mass),
                population: CustomBigDecimal(p),
            },
        ),
        None => Details::UninhabitedPlanetDetails(
            UninhabitedPlanetDetails { mean_radius: CustomBigDecimal(e.mean_radius), mass: CustomBigInt(e.mass) },
        ),
    }
}

/// Law: the details that a stored row describes carry the row's own mean
/// radius and mass, and its population exactly when it has one; they are
/// inhabited exactly when the row has a population.
pub proof fn details_carry_the_row_values(e: DetailsEntity)
    ensures
        match details_of(e) {
            Details::InhabitedPlanetDetails(d) => {
                &&& d.mean_radius.0 == e.mean_radius
                &&& d.mass.0 == e.mass
                &&& e.population == Some(d.population.0)
            },
            Details::UninhabitedPlanetDetails(d) => {
                &&& d.mean_radius.0 == e.mean_radius
                &&& d.mass.0 == e.mass
                &&& e.population is None
            },
        },
{
}

impl Details {
    /// The details that a stored row describes.
    pub fn from_entity(entity: &DetailsEntity) -> (r: Details)
        ensures
            r == details_of(*entity),
    {
        match &entity.population {
            Some(population) => Details::InhabitedPlanetDetails(
                InhabitedPlanetDetails {
                    mean_radius: CustomBigDecimal(entity.mean_radius.clone()),
                    mass: CustomBigInt(entity.mass.clone()),
                    population: CustomBigDecimal(population.clone()),
                },
            ),
            None => Details::UninhabitedPlanetDetails(
                UninhabitedPlanetDetails {
                    mean_radius: CustomBigDecimal(entity.mean_radius.clone()),
                    mass: CustomBigInt(entity.mass.clone()),
                },
            ),
        }
    }
}

impl From<&DetailsEntity> for Details {
    /// The details that a stored row describes.
    fn from(entity: &DetailsEntity) -> (r: Details) {
        Details::from_entity(entity)
    }
}

impl vstd::std_specs::convert::FromSpecImpl<&DetailsEntity> for Details {
    open spec fn obeys_from_spec() -> bool {
        true
    }

    open spec fn from_spec(v: &DetailsEntity) -> Details {
        details_of(*v)
    }
}

/// The details of each planet among the rows, keyed by planet id; for a
/// planet with several rows the last one counts.
pub open spec fn details_map(rows: Seq<DetailsEntity>) -> Map<i32, Details>
    decreases rows.len(),
{
    if rows.len() == 0 {
        Map::empty()
    } else {
        details_map(rows.drop_last()).insert(rows.last().planet_id, details_of(rows.last()))
    }
}

/// The details of the planets that the loaded rows describe, keyed by planet
/// id (what the details loader answers for a batch of ids).
pub fn details_by_planet_id(rows: &Vec<DetailsEntity>) -> (r: HashMap<i32, Details>)
    ensures
        r@ == details_map(rows@),
{
    let mut map: HashMap<i32, Details> = HashMap::new();
    let mut i: usize = 0;
    while i < rows.len()
        invariant
            i <= rows@.len(),
            map@ == details_map(rows@.subrange(0, i as int)),
        decreases rows@.len() - i,
    {
        let row = &rows[i];
        let details = Details::from_entity(row);
        map.insert(row.planet_id, details);
        proof {
            let next = rows@.subrange(0, i + 1);
            assert(next.drop_last() =~= rows@.subrange(0, i as int));
            assert(next.last() == rows@[i as int]);
        }
        i = i + 1;
    }
    assert(rows@.subrange(0, rows@.len() as int) =~= rows@);
    map
}

/// Law: the planets the loader answers for are exactly those of the rows,
/// and each gets the details of its last row.
pub proof fn details_map_holds_last_row(rows: Seq<DetailsEntity>, i: int)
    requires
        0 <= i < rows.len(),
        forall|j: int| i < j < rows.len() ==> (#[trigger] rows[j]).planet_id != rows[i].planet_id,
    ensures
        details_map(rows).contains_key(rows[i].planet_id),
        details_map(rows)[rows[i].planet_id] == details_of(rows[i]),
    decreases rows.len(),
{
    if i < rows.len() - 1 {
        let front = rows.drop_last();
        assert forall|j: int| i < j < front.len() implies (#[trigger] front[j]).planet_id != front[i].planet_id by {
            assert(front[j] == rows[j]);
        }
        details_map_holds_last_row(front, i);
        assert(rows.last() == rows[rows.len() - 1]);
    }
}

/// Law: a planet id is among the loader's answers only if a row has it.
pub proof fn details_map_only_rows(rows: Seq<DetailsEntity>, id: i32)
    ensures
        details_map(rows).contains_key(id) ==> exists|j: int| 0 <= j < rows.len() && (#[trigger] rows[j]).planet_id == id,
    decreases rows.len(),
{
    if rows.len() > 0 {
        details_map_only_rows(rows.drop_last(), id);
        if details_map(rows.drop_last()).contains_key(id) {
            let j = choose|j: int| 0 <= j < rows.drop_last().len() && (#[trigger] rows.drop_last()[j]).planet_id == id;
            assert(rows[j] == rows.drop_last()[j]);
        } else if details_map(rows).contains_key(id) {
            assert(rows[rows.len() - 1].planet_id == id);
        }
    }
}

/// A planet as the planets service shows it.
pub struct Planet {
    pub id: String,
    pub name: String,
    pub type_: PlanetType,
}

impl Planet {
    /// The planet that a stored row describes; the row's type text names a
    /// planet type. Its id is the decimal text of the row's id.
    pub fn from_entity(entity: &PlanetEntity) -> (r: Planet)
        requires
            parse_planet_type_spec(entity.type_@) is Some,
        ensures
            r.id@ == decimal_text(entity.id as int),
            r.name@ == entity.name@,
            Some(r.type_) == parse_planet_type_spec(entity.type_@),
    {
        let type_ = match PlanetType::parse(entity.type_.as_str()) {
            Ok(t) => t,
            Err(_) => PlanetType::TerrestrialPlanet,
        };
        Planet { id: i32_to_text(entity.id), name: entity.name.clone(), type_ }
    }

    /// The stored id of the planet, read from its id text.
    pub fn id_number(&self) -> (r: i32)
        requires
            parse_i32_spec(self.id@) is Some,
        ensures
            Some(r) == parse_i32_spec(self.id@),
    {
        crate::ids::parse_id(self.id.as_str())
    }

    /// A planet is always said to rotate around the sun.
    pub fn is_rotating_around_sun(&self) -> (r: bool)
        ensures
            r,
    {
        true
    }
}

/// The input of the details of a new planet.
pub struct DetailsInput {
    /// In kilometers.
    pub mean_radius: CustomBigDecimal,
    /// In kilograms.
    pub mass: CustomBigInt,
    /// In billions.
    pub population: Option<CustomBigDecimal>,
}

/// The input of a new planet.
pub struct PlanetInput {
    pub name: String,
    pub type_: PlanetType,
    pub details: DetailsInput,
}

/// The rows to store for a new planet: the planet (its type as text) and its
/// details, whose planet id is set once the planet is stored. The mass is
/// stored as the decimal that its text reads back to.
pub fn new_planet_entities(planet: PlanetInput) -> (r: (NewPlanetEntity, NewDetailsEntity))
    ensures
        r.0.name@ == planet.name@,
        r.0.type_@ == planet_type_name(planet.type_),
        r.1.mean_radius == planet.details.mean_radius.0,
        r.1.mass == decimal_of_text(text_of_decimal(planet.details.mass.0)),
        decimals_equal(r.1.mass, planet.details.mass.0),
        r.1.population == (match planet.details.population {
            Some(p) => Some(p.0),
            None => None,
        }),
        r.1.planet_id == 0,
{
    let type_ = planet.type_.to_string();
    let new_planet = NewPlanetEntity { name: planet.name, type_ };
    let details = planet.details;
    let mass_text = big_decimal_text(&details.mass.0);
    let mass = match parse_big_decimal(mass_text.as_str()) {
        Ok(value) => value,
        Err(_) => details.mass.0,
    };
    let population = match details.population {
        Some(p) => Some(p.0),
        None => None,
    };
    let new_details = NewDetailsEntity {
        mean_radius: details.mean_radius.0,
        mass,
        population,
        planet_id: 0,
    };
    (new_planet, new_details)
}

} // verus!
