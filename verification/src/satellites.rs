//! Satellites: the stored rows, the objects the satellites service shows,
//! who may see whether life exists on one, and the in-memory store of the
//! first version of the service.
use vstd::prelude::*;

use crate::ids::{decimal_text, i32_to_text, parse_i32_spec, parse_id};
use crate::text::str_eq;

verus! {

/// Whether life exists on a satellite.
#[derive(Clone, Copy, Debug, PartialEq, Eq, Structural)]
pub enum LifeExists {
    Yes,
    OpenQuestion,
    NoData,
}

/// The text of the answer (`SCREAMING_SNAKE_CASE` of its name).
pub open spec fn life_exists_name(l: LifeExists) -> Seq<char> {
    match l {
        LifeExists::Yes => "YES"@,
        LifeExists::OpenQuestion => "OPEN_QUESTION"@,
        LifeExists::NoData => "NO_DATA"@,
    }
}

/// The answer a text names exactly, if any.
pub open spec fn parse_life_exists_spec(s: Seq<char>) -> Option<LifeExists> {
    if s == "YES"@ {
        Some(LifeExists::Yes)
    } else if s == "OPEN_QUESTION"@ {
        Some(LifeExists::OpenQuestion)
    } else if s == "NO_DATA"@ {
        Some(LifeExists::NoData)
    } else {
        None
    }
}

impl LifeExists {
    /// The text of the answer.
    pub fn to_string(&self) -> (r: String)
        ensures
            r@ == life_exists_name(*self),
    {
        match self {
            LifeExists::Yes => String::from_str("YES"),
            LifeExists::OpenQuestion => String::from_str("OPEN_QUESTION"),
            LifeExists::NoData => String::from_str("NO_DATA"),
        }
    }

    /// The answer that `s` names exactly, or strum's `VariantNotFound`.
    pub fn parse(s: &str) -> (r: Result<LifeExists, strum::ParseError>)
        ensures
            match parse_life_exists_spec(s@) {
                Some(l) => r == Ok::<LifeExists, strum::ParseError>(l),
                None => r is Err,
            },
    {
        if str_eq(s, "YES") {
            Ok(LifeExists::Yes)
        } else if str_eq(s, "OPEN_QUESTION") {
            Ok(LifeExists::OpenQuestion)
        } else if str_eq(s, "NO_DATA") {
            Ok(LifeExists::NoData)
        } else {
            Err(crate::role::variant_not_found())
        }
    }
}

/// Law: the text of an answer names that answer.
pub proof fn life_exists_text_round_trip(l: LifeExists)
    ensures
        parse_life_exists_spec(life_exists_name(l)) == Some(l),
{
    reveal_strlit("YES");
    reveal_strlit("OPEN_QUESTION");
    reveal_strlit("NO_DATA");
    assert("YES"@.len() != "OPEN_QUESTION"@.len());
    assert("YES"@.len() != "NO_DATA"@.len());
    assert("OPEN_QUESTION"@.len() != "NO_DATA"@.len());
}

/// A calendar date (proleptic Gregorian).
#[derive(Clone, Copy, Debug, PartialEq, Eq, Structural)]
pub struct LandingDate {
    pub year: i32,
    pub month: u32,
    pub day: u32,
}

/// A stored satellite.
pub struct SatelliteEntity {
    pub id: i32,
    pub name: String,
    pub life_exists: String,
    pub first_spacecraft_landing_date: Option<LandingDate>,
    pub planet_id: i32,
}

/// A satellite as the satellites service shows it.
#[derive(Debug)]
pub struct Satellite {
    pub id: String,
    pub name: String,
    pub life_exists: LifeExists,
    pub first_spacecraft_landing_date: Option<LandingDate>,
    pub planet_id: i32,
}

/// The view of a satellite.
pub struct SatelliteView {
    pub id: Seq<char>,
    pub name: Seq<char>,
    pub life_exists: LifeExists,
    pub first_spacecraft_landing_date: Option<LandingDate>,
    pub planet_id: i32,
}

impl View for Satellite {
    type V = SatelliteView;

    open spec fn view(&self) -> SatelliteView {
        SatelliteView {
            id: self.id@,
            name: self.name@,
            life_exists: self.life_exists,
            first_spacecraft_landing_date: self.first_spacecraft_landing_date,
            planet_id: self.planet_id,
        }
    }
}

/// Whom whether life exists on a satellite is shown to: a token with the
/// role text `admin`.
pub open spec fn may_see_life_exists(token_role: Option<Seq<char>>) -> bool {
    token_role == Some("admin"@)
}

/// Law: whether life exists is shown for the token role text `admin` and
/// for nothing else: not for the roles `USER` and `ADMIN` that sign-in
/// issues, not for any other text, and not without a token.
pub proof fn life_exists_shown_only_to_admin(token_role: Option<Seq<char>>)
    ensures
        may_see_life_exists(token_role) <==> token_role == Some("admin"@),
        !may_see_life_exists(Some("USER"@)),
        !may_see_life_exists(Some("ADMIN"@)),
        !may_see_life_exists(None),
{
    reveal_strlit("admin");
    reveal_strlit("USER");
    reveal_strlit("ADMIN");
    assert("USER"@ != "admin"@) by {
        assert("USER"@.len() != "admin"@.len());
    }
    assert("ADMIN"@ != "admin"@) by {
        assert("ADMIN"@[0] != "admin"@[0]);
    }
}

impl Satellite {
    /// A copy of the satellite.
    pub fn duplicate(&self) -> (r: Satellite)
        ensures
            r@ == self@,
    {
        Satellite {
            id: self.id.clone(),
            name: self.name.clone(),
            life_exists: self.life_exists,
            first_spacecraft_landing_date: self.first_spacecraft_landing_date,
            planet_id: self.planet_id,
        }
    }

    /// The satellite that a stored row describes; the row's answer text
    /// names an answer. Its id is the decimal text of the row's id.
    pub fn from_entity(entity: &SatelliteEntity) -> (r: Satellite)
        requires
            parse_life_exists_spec(entity.life_exists@) is Some,
        ensures
            r.id@ == decimal_text(entity.id as int),
            r.name@ == entity.name@,
            Some(r.life_exists) == parse_life_exists_spec(entity.life_exists@),
            r.first_spacecraft_landing_date == entity.first_spacecraft_landing_date,
            r.planet_id == entity.planet_id,
    {
        let life_exists = match LifeExists::parse(entity.life_exists.as_str()) {
            Ok(l) => l,
            Err(_) => LifeExists::NoData,
        };
        Satellite {
            id: i32_to_text(entity.id),
            name: entity.name.clone(),
            life_exists,
            first_spacecraft_landing_date: entity.first_spacecraft_landing_date,
            planet_id: entity.planet_id,
        }
    }

    /// Whether life exists, for a caller whose token carries the role text
    /// `admin`; no one else may ask.
    pub fn life_exists_for(&self, token_role: Option<&str>) -> (r: LifeExists)
        requires
            may_see_life_exists(
                match token_role {
                    Some(s) => Some(s@),
                    None => None,
                },
            ),
        ensures
            r == self.life_exists,
    {
        self.life_exists
    }
}

/// Whether a caller whose token carries `token_role` (none without a token)
/// may see whether life exists on a satellite: only the role text `admin`,
/// exactly.
pub fn can_see_life_exists(token_role: Option<&str>) -> (r: bool)
    ensures
        r == may_see_life_exists(
            match token_role {
                Some(s) => Some(s@),
                None => None,
            },
        ),
{
    match token_role {
        Some(role) => str_eq(role, "admin"),
        None => false,
    }
}

/// The satellites that stored rows describe, in the order of the rows; each
/// row's answer text names an answer.
pub fn satellites_from_entities(rows: &Vec<SatelliteEntity>) -> (r: Vec<Satellite>)
    requires
        forall|i: int| 0 <= i < rows@.len() ==> parse_life_exists_spec((#[trigger] rows@[i]).life_exists@) is Some,
    ensures
        r@.len() == rows@.len(),
        forall|i: int|
            0 <= i < rows@.len() ==> {
                &&& (#[trigger] r@[i]).id@ == decimal_text(rows@[i].id as int)
                &&& r@[i].name@ == rows@[i].name@
                &&& Some(r@[i].life_exists) == parse_life_exists_spec(rows@[i].life_exists@)
                &&& r@[i].first_spacecraft_landing_date == rows@[i].first_spacecraft_landing_date
                &&& r@[i].planet_id == rows@[i].planet_id
            },
{
    let mut out: Vec<Satellite> = Vec::new();
    let mut i: usize = 0;
    while i < rows.len()
        invariant
            i <= rows@.len(),
            out@.len() == i,
            forall|k: int| 0 <= k < rows@.len() ==> parse_life_exists_spec((#[trigger] rows@[k]).life_exists@) is Some,
            forall|k: int|
                0 <= k < i ==> {
                    &&& (#[trigger] out@[k]).id@ == decimal_text(rows@[k].id as int)
                    &&& out@[k].name@ == rows@[k].name@
                    &&& Some(out@[k].life_exists) == parse_life_exists_spec(rows@[k].life_exists@)
                    &&& out@[k].first_spacecraft_landing_date == rows@[k].first_spacecraft_landing_date
                    &&& out@[k].planet_id == rows@[k].planet_id
                },
        decreases rows@.len() - i,
    {
        out.push(Satellite::from_entity(&rows[i]));
        i = i + 1;
    }
    out
}

/// A planet as the satellites service knows it: by its id.
pub struct Planet {
    pub id: String,
}

impl Planet {
    /// The planet with the given id.
    pub fn with_id(id: String) -> (r: Planet)
        ensures
            r.id@ == id@,
    {
        Planet { id }
    }

    /// The stored id of the planet, read from its id text.
    pub fn id_number(&self) -> (r: i32)
        requires
            parse_i32_spec(self.id@) is Some,
        ensures
            Some(r) == parse_i32_spec(self.id@),
    {
        parse_id(self.id.as_str())
    }
}

/// The satellites of the in-memory store, kept by name: no two share a
/// name. They are held in a `Vec` with that invariant rather than in a map
/// keyed by name: vstd specifies `HashMap` lookups by `String` keys too
/// weakly to prove what a lookup by name returns, while a `Vec` and the
/// invariant make every lookup exact.
pub struct Storage {
    satellites: Vec<Satellite>,
}

/// The satellites of `all` whose planet id is `planet_id`, in order.
pub open spec fn of_planet(all: Seq<SatelliteView>, planet_id: i32) -> Seq<SatelliteView> {
    all.filter(|s: SatelliteView| s.planet_id == planet_id)
}

impl Storage {
    /// The satellites of the store.
    pub closed spec fn contents(&self) -> Seq<SatelliteView> {
        self.satellites@.map_values(|s: Satellite| s@)
    }

    /// No two satellites of the store share a name.
    pub closed spec fn well_formed(&self) -> bool {
        forall|i: int, j: int|
            0 <= i < j < self.satellites@.len() ==> (#[trigger] self.satellites@[i]).name@ != (#[trigger] self.satellites@[j]).name@
    }

    /// The store with the Moon: id `1`, life an open question, first landed
    /// on 1959-09-13, satellite of planet 3.
    pub fn new() -> (r: Storage)
        ensures
            r.well_formed(),
            r.contents().len() == 1,
            r.contents()[0].id == "1"@,
            r.contents()[0].name == "Moon"@,
            r.contents()[0].life_exists == LifeExists::OpenQuestion,
            r.contents()[0].first_spacecraft_landing_date == Some(LandingDate { year: 1959, month: 9, day: 13 }),
            r.contents()[0].planet_id == 3,
    {
        let moon = Satellite {
            id: String::from_str("1"),
            name: String::from_str("Moon"),
            life_exists: LifeExists::OpenQuestion,
            first_spacecraft_landing_date: Some(LandingDate { year: 1959, month: 9, day: 13 }),
            planet_id: 3,
        };
        let mut satellites: Vec<Satellite> = Vec::new();
        satellites.push(moon);
        Storage { satellites }
    }

    /// All satellites of the store.
    pub fn satellites(&self) -> (r: Vec<Satellite>)
        ensures
            r@.map_values(|s: Satellite| s@) == self.contents(),
    {
        let mut out: Vec<Satellite> = Vec::new();
        let mut i: usize = 0;
        while i < self.satellites.len()
            invariant
                i <= self.satellites@.len(),
                out@.len() == i,
                forall|k: int| 0 <= k < i ==> (#[trigger] out@[k])@ == self.satellites@[k]@,
            decreases self.satellites@.len() - i,
        {
            let s = self.satellites[i].duplicate();
            out.push(s);
            i = i + 1;
        }
        assert(out@.map_values(|s: Satellite| s@) =~= self.contents());
        out
    }

    /// The satellites of the planet whose id text is `planet_id`. The text
    /// is read for each satellite, so it must be an `i32` unless the store is
    /// empty.
    pub fn satellites_by_planet_id(&self, planet_id: &str) -> (r: Vec<Satellite>)
        requires
            self.contents().len() > 0 ==> parse_i32_spec(planet_id@) is Some,
        ensures
            self.contents().len() > 0 ==> r@.map_values(|s: Satellite| s@) == of_planet(
                self.contents(),
                parse_i32_spec(planet_id@)->0,
            ),
            self.contents().len() == 0 ==> r@.len() == 0,
    {
        let all = self.satellites();
        let mut out: Vec<Satellite> = Vec::new();
        if all.len() == 0 {
            return out;
        }
        let id = parse_id(planet_id);
        let ghost views = all@.map_values(|s: Satellite| s@);
        let mut i: usize = 0;
        while i < all.len()
            invariant
                i <= all@.len(),
                views == all@.map_values(|s: Satellite| s@),
                out@.map_values(|s: Satellite| s@) == of_planet(views.subrange(0, i as int), id),
            decreases all@.len() - i,
        {
            proof {
                let prefix = views.subrange(0, i as int);
                let next = views.subrange(0, i + 1);
                assert(next.drop_last() =~= prefix);
                reveal_with_fuel(Seq::<_>::filter, 1);
                assert(next.last() == all@[i as int]@);
            }
            if all[i].planet_id == id {
                out.push(all[i].duplicate());
            }
            proof {
                let next = views.subrange(0, i + 1);
                assert(out@.map_values(|s: Satellite| s@) =~= of_planet(next, id));
            }
            i = i + 1;
        }
        assert(views.subrange(0, all@.len() as int) =~= views);
        out
    }
}

/// Law: the satellites of a planet are exactly the store's satellites with
/// that planet id.
pub proof fn of_planet_selects(all: Seq<SatelliteView>, planet_id: i32, s: SatelliteView)
    ensures
        of_planet(all, planet_id).contains(s) <==> (all.contains(s) && s.planet_id == planet_id),
{
    if of_planet(all, planet_id).contains(s) {
        all.lemma_filter_contains_rev(|x: SatelliteView| x.planet_id == planet_id, s);
        reveal(Seq::filter);
        assert(of_planet(all, planet_id).contains(s) ==> s.planet_id == planet_id) by {
            broadcast use vstd::seq_lib::group_filter_ensures;
        }
    }
    if all.contains(s) && s.planet_id == planet_id {
        let i = choose|i: int| 0 <= i < all.len() && all[i] == s;
        all.lemma_filter_contains(|x: SatelliteView| x.planet_id == planet_id, i);
    }
}

} // verus!
