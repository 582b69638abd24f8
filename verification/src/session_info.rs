//! iRacing SessionInfo YAML parser and driver roster.
//!
//! iRacing exposes a `SessionInfo` text with the full entry list: car number,
//! driver name, team name, car class. A counter in the telemetry stream says
//! when the text has changed.

use std::collections::HashMap;

use vstd::prelude::*;
use vstd::string::*;

use crate::text::{decimal_text, integer_text, is_blank};
use crate::yaml::{number_text, parse_yaml, yaml_field};

verus! {

broadcast use vstd::std_specs::hash::group_hash_axioms;

/// The characters of a text that may be absent.
pub open spec fn opt_view(s: Option<String>) -> Option<Seq<char>> {
    match s {
        Some(t) => Some(t@),
        None => None,
    }
}

/// Resolved identity for a single car slot in the iRacing entry list.
#[derive(Debug, PartialEq)]
pub struct CarRef {
    pub car_idx: u8,
    /// iRacing car number string (e.g. `"42"`, `"042"`, `"P1"`).
    pub car_number: String,
    /// Driver display name as returned by iRacing (`UserName`).
    pub driver_name: String,
    pub team_name: Option<String>,
    pub car_class_short_name: Option<String>,
    pub car_class_id: Option<u32>,
    /// iRacing CustID.
    pub user_id: Option<u32>,
    /// Rating, where it is known.
    pub irating: Option<u32>,
    /// Licence, where it is known.
    pub lic_string: Option<String>,
    /// Flair, where it is known.
    pub flair_name: Option<String>,
}

/// The identity that a [`CarRef`] holds.
#[verifier::ext_equal]
pub struct CarRefView {
    pub car_idx: u8,
    pub car_number: Seq<char>,
    pub driver_name: Seq<char>,
    pub team_name: Option<Seq<char>>,
    pub car_class_short_name: Option<Seq<char>>,
    pub car_class_id: Option<u32>,
    pub user_id: Option<u32>,
    pub irating: Option<u32>,
    pub lic_string: Option<Seq<char>>,
    pub flair_name: Option<Seq<char>>,
}

impl View for CarRef {
    type V = CarRefView;

    open spec fn view(&self) -> CarRefView {
        CarRefView {
            car_idx: self.car_idx,
            car_number: self.car_number@,
            driver_name: self.driver_name@,
            team_name: opt_view(self.team_name),
            car_class_short_name: opt_view(self.car_class_short_name),
            car_class_id: self.car_class_id,
            user_id: self.user_id,
            irating: self.irating,
            lic_string: opt_view(self.lic_string),
            flair_name: opt_view(self.flair_name),
        }
    }
}

/// A copy of a text that may be absent.
pub fn clone_opt(s: &Option<String>) -> (r: Option<String>)
    ensures
        r == *s,
{
    match s {
        Some(t) => Some(t.clone()),
        None => None,
    }
}

impl Clone for CarRef {
    fn clone(&self) -> (r: Self)
        ensures
            r == *self,
    {
        CarRef {
            car_idx: self.car_idx,
            car_number: self.car_number.clone(),
            driver_name: self.driver_name.clone(),
            team_name: clone_opt(&self.team_name),
            car_class_short_name: clone_opt(&self.car_class_short_name),
            car_class_id: self.car_class_id,
            user_id: self.user_id,
            irating: self.irating,
            lic_string: clone_opt(&self.lic_string),
            flair_name: clone_opt(&self.flair_name),
        }
    }
}

/// One entry of `DriverInfo.Drivers` as it is written.
#[derive(Debug, PartialEq)]
pub struct YamlDriver {
    pub car_idx: u8,
    pub user_name: String,
    pub user_id: Option<u32>,
    pub team_name: Option<String>,
    pub car_number: String,
    pub car_class_id: Option<u32>,
    pub car_class_short_name: Option<String>,
}

/// What a [`YamlDriver`] holds.
#[verifier::ext_equal]
pub struct YamlDriverView {
    pub car_idx: u8,
    pub user_name: Seq<char>,
    pub user_id: Option<u32>,
    pub team_name: Option<Seq<char>>,
    pub car_number: Seq<char>,
    pub car_class_id: Option<u32>,
    pub car_class_short_name: Option<Seq<char>>,
}

impl View for YamlDriver {
    type V = YamlDriverView;

    open spec fn view(&self) -> YamlDriverView {
        YamlDriverView {
            car_idx: self.car_idx,
            user_name: self.user_name@,
            user_id: self.user_id,
            team_name: opt_view(self.team_name),
            car_number: self.car_number@,
            car_class_id: self.car_class_id,
            car_class_short_name: opt_view(self.car_class_short_name),
        }
    }
}

/// Why a `SessionInfo` text gives no roster.
#[derive(Debug)]
pub enum SessionInfoError {
    /// The text is not YAML.
    Yaml(serde_yaml::Error),
    /// The document has no list `DriverInfo.Drivers`.
    NoDrivers,
    /// The entry at this place of the list lacks a field or has one of the wrong
    /// kind.
    BadDriver(usize),
}

/// A blank text counts as absent.
pub open spec fn normalised(s: Option<Seq<char>>) -> Option<Seq<char>> {
    match s {
        Some(t) => if crate::text::blank(t) {
            None
        } else {
            Some(t)
        },
        None => None,
    }
}

/// Normalise iRacing's empty-string sentinels to `None`.
pub fn non_empty(s: Option<String>) -> (r: Option<String>)
    ensures
        opt_view(r) == normalised(opt_view(s)),
{
    match s {
        Some(t) => if is_blank(t.as_str()) {
            None
        } else {
            Some(t)
        },
        None => None,
    }
}

/// The car that an entry describes.
pub open spec fn car_of(d: YamlDriverView) -> CarRefView {
    CarRefView {
        car_idx: d.car_idx,
        car_number: d.car_number,
        driver_name: d.user_name,
        team_name: normalised(d.team_name),
        car_class_short_name: normalised(d.car_class_short_name),
        car_class_id: d.car_class_id,
        user_id: d.user_id,
        irating: None,
        lic_string: None,
        flair_name: None,
    }
}

/// The roster of a list of entries; of two entries for a slot the later counts.
pub open spec fn roster_of(drivers: Seq<YamlDriverView>) -> Map<u8, CarRefView>
    decreases drivers.len(),
{
    if drivers.len() == 0 {
        Map::empty()
    } else {
        roster_of(drivers.drop_last()).insert(drivers.last().car_idx, car_of(drivers.last()))
    }
}

/// The roster of a list of cars; of two cars for a slot the later counts.
pub open spec fn roster_of_cars(cars: Seq<CarRef>) -> Map<u8, CarRefView>
    decreases cars.len(),
{
    if cars.len() == 0 {
        Map::empty()
    } else {
        roster_of_cars(cars.drop_last()).insert(cars.last().car_idx, cars.last()@)
    }
}

/// Immutable roster built from one parse of the `SessionInfo` YAML.
pub struct SessionRoster {
    cars: HashMap<u8, CarRef>,
}

impl View for SessionRoster {
    type V = Map<u8, CarRefView>;

    closed spec fn view(&self) -> Map<u8, CarRefView> {
        self.cars@.map_values(|c: CarRef| c@)
    }
}

impl SessionRoster {
    /// Look up a car by its `carIdx` slot number.
    pub fn lookup(&self, car_idx: u8) -> (r: Option<&CarRef>)
        ensures
            r is Some <==> self@.contains_key(car_idx),
            r matches Some(c) ==> c@ == self@[car_idx],
    {
        self.cars.get(&car_idx)
    }

    /// Number of car slots in the roster (includes inactive pacecar slots).
    pub fn len(&self) -> (r: usize)
        ensures
            r == self@.dom().len(),
    {
        assert(self@.dom() =~= self.cars@.dom());
        self.cars.len()
    }

    /// Whether the roster names no car.
    pub fn is_empty(&self) -> (r: bool)
        ensures
            r == self@.dom().is_empty(),
    {
        assert(self@.dom() =~= self.cars@.dom());
        self.cars.is_empty()
    }

    /// A roster of the given cars.
    pub fn from_cars(cars: Vec<CarRef>) -> (r: Self)
        ensures
            r@ == roster_of_cars(cars@),
    {
        let mut out: HashMap<u8, CarRef> = HashMap::new();
        let mut i: usize = 0;
        assert(out@.map_values(|c: CarRef| c@) =~= roster_of_cars(cars@.take(0)));
        while i < cars.len()
            invariant
                i <= cars@.len(),
                out@.map_values(|c: CarRef| c@) == roster_of_cars(cars@.take(i as int)),
            decreases cars.len() - i,
        {
            let car: CarRef = cars[i].clone();
            let slot: u8 = car.car_idx;
            let ghost before = out@;
            out.insert(slot, car);
            proof {
                assert(cars@.take(i + 1).drop_last() =~= cars@.take(i as int));
                assert(out@.map_values(|c: CarRef| c@) =~= before.map_values(
                    |c: CarRef| c@,
                ).insert(slot, car@));
            }
            i = i + 1;
        }
        assert(cars@.take(i as int) =~= cars@);
        SessionRoster { cars: out }
    }

    /// The roster of a list of entries.
    pub fn from_drivers(drivers: Vec<YamlDriver>) -> (r: Self)
        ensures
            r@ == roster_of(drivers@.map_values(|d: YamlDriver| d@)),
    {
        let ghost views = drivers@.map_values(|d: YamlDriver| d@);
        let mut out: HashMap<u8, CarRef> = HashMap::new();
        let mut i: usize = 0;
        assert(out@.map_values(|c: CarRef| c@) =~= roster_of(views.take(0)));
        while i < drivers.len()
            invariant
                i <= drivers@.len(),
                views == drivers@.map_values(|d: YamlDriver| d@),
                out@.map_values(|c: CarRef| c@) == roster_of(views.take(i as int)),
            decreases drivers.len() - i,
        {
            let d: &YamlDriver = &drivers[i];
            let slot: u8 = d.car_idx;
            let car: CarRef = CarRef {
                car_idx: d.car_idx,
                car_number: d.car_number.clone(),
                driver_name: d.user_name.clone(),
                team_name: non_empty(clone_opt(&d.team_name)),
                car_class_short_name: non_empty(clone_opt(&d.car_class_short_name)),
                car_class_id: d.car_class_id,
                user_id: d.user_id,
                irating: None,
                lic_string: None,
                flair_name: None,
            };
            let ghost before = out@;
            out.insert(slot, car);
            proof {
                assert(views.take(i + 1).drop_last() =~= views.take(i as int));
                assert(views.take(i + 1).last() == d@);
                assert(out@.map_values(|c: CarRef| c@) =~= before.map_values(
                    |c: CarRef| c@,
                ).insert(slot, car@));
            }
            i = i + 1;
        }
        assert(views.take(i as int) =~= views);
        SessionRoster { cars: out }
    }
}

/// The text of a scalar. An integer stands for its decimal digits, a fraction for the
/// number as it is written out, and a null for the empty text; collections have none.
/// A value does not keep how its scalar was spelled.
pub open spec fn scalar_text(v: serde_yaml::Value) -> Option<Seq<char>> {
    match crate::yaml::yaml_shape(v) {
        crate::yaml::YamlShape::Text(s) => Some(s),
        crate::yaml::YamlShape::Integer(n) => Some(crate::text::integer(n)),
        crate::yaml::YamlShape::Bool(b) => Some(
            if b {
                "true"@
            } else {
                "false"@
            },
        ),
        crate::yaml::YamlShape::Null => Some("".view()),
        crate::yaml::YamlShape::Float => crate::yaml::number_words(v),
        _ => None,
    }
}

/// The text of a scalar.
fn text_of(v: &serde_yaml::Value) -> (r: Option<String>)
    ensures
        opt_view(r) == scalar_text(*v),
{
    if let Some(s) = v.as_str() {
        return Some(s.to_owned());
    }
    if let Some(n) = v.as_u64() {
        return Some(decimal_text(n));
    }
    if let Some(n) = v.as_i64() {
        return Some(integer_text(n));
    }
    if let Some(b) = v.as_bool() {
        return Some(
            if b {
                "true".to_owned()
            } else {
                "false".to_owned()
            },
        );
    }
    if v.is_null() {
        return Some("".to_owned());
    }
    number_text(v)
}

/// The value under a key.
pub open spec fn field_of(v: serde_yaml::Value, key: Seq<char>) -> Option<serde_yaml::Value> {
    match crate::yaml::yaml_shape(v) {
        crate::yaml::YamlShape::Mapping(m) => if m.contains_key(key) {
            Some(m[key])
        } else {
            None
        },
        _ => None,
    }
}

/// A field that must be there, as a text.
pub open spec fn needed_text(v: serde_yaml::Value, key: Seq<char>) -> Option<Seq<char>> {
    match field_of(v, key) {
        Some(x) => scalar_text(x),
        None => None,
    }
}

/// A field that may be absent or null, as a text; the outer `None` is an error.
pub open spec fn allowed_text(v: serde_yaml::Value, key: Seq<char>) -> Option<Option<Seq<char>>> {
    match field_of(v, key) {
        Some(x) => if crate::yaml::yaml_shape(x) is Null {
            Some(None)
        } else {
            match scalar_text(x) {
                Some(t) => Some(Some(t)),
                None => None,
            }
        },
        None => Some(None),
    }
}

/// A whole number between 0 and `max`.
pub open spec fn whole(v: serde_yaml::Value, max: int) -> Option<int> {
    match crate::yaml::yaml_shape(v) {
        crate::yaml::YamlShape::Integer(n) => if 0 <= n <= max {
            Some(n)
        } else {
            None
        },
        _ => None,
    }
}

/// A field that may be absent or null, as a number; the outer `None` is an error.
pub open spec fn allowed_u32(v: serde_yaml::Value, key: Seq<char>) -> Option<Option<u32>> {
    match field_of(v, key) {
        Some(x) => if crate::yaml::yaml_shape(x) is Null {
            Some(None)
        } else {
            match whole(x, u32::MAX as int) {
                Some(n) => Some(Some(n as u32)),
                None => None,
            }
        },
        None => Some(None),
    }
}

/// The slot that an entry is for.
pub open spec fn slot_of(v: serde_yaml::Value) -> Option<u8> {
    match field_of(v, "CarIdx"@) {
        Some(x) => match whole(x, 255) {
            Some(n) => Some(n as u8),
            None => None,
        },
        None => None,
    }
}

/// The entry that a value describes, `None` where a field is missing or wrong.
pub open spec fn driver_in(v: serde_yaml::Value) -> Option<YamlDriverView> {
    match (
        slot_of(v),
        needed_text(v, "UserName"@),
        allowed_u32(v, "UserID"@),
        allowed_text(v, "TeamName"@),
        needed_text(v, "CarNumber"@),
        allowed_u32(v, "CarClassID"@),
        allowed_text(v, "CarClassShortName"@),
    ) {
        (
            Some(car_idx),
            Some(user_name),
            Some(user_id),
            Some(team_name),
            Some(car_number),
            Some(car_class_id),
            Some(car_class_short_name),
        ) => Some(
            YamlDriverView {
                car_idx,
                user_name,
                user_id,
                team_name,
                car_number,
                car_class_id,
                car_class_short_name,
            },
        ),
        _ => None,
    }
}

/// The entries of a list, up to its first wrong one.
pub open spec fn drivers_before(items: Seq<serde_yaml::Value>, n: nat) -> Seq<YamlDriverView> {
    Seq::new(n, |i: int| driver_in(items[i])->0)
}

/// Whether every item describes an entry.
pub open spec fn all_drivers(items: Seq<serde_yaml::Value>) -> bool {
    forall|i: int| 0 <= i < items.len() ==> driver_in(#[trigger] items[i]) is Some
}

/// Place of the first item from `from` on that describes no entry.
pub open spec fn first_bad(items: Seq<serde_yaml::Value>, from: int) -> Option<int>
    decreases items.len() - from,
{
    if from >= items.len() {
        None
    } else if driver_in(items[from]) is None {
        Some(from)
    } else {
        first_bad(items, from + 1)
    }
}

/// The list `DriverInfo.Drivers`; one that is left empty has no entries.
pub open spec fn driver_list(v: serde_yaml::Value) -> Option<Seq<serde_yaml::Value>> {
    match field_of(v, "DriverInfo"@) {
        Some(info) => match field_of(info, "Drivers"@) {
            Some(list) => match crate::yaml::yaml_shape(list) {
                crate::yaml::YamlShape::Sequence(items) => Some(items),
                crate::yaml::YamlShape::Null => Some(Seq::empty()),
                _ => None,
            },
            None => None,
        },
        None => None,
    }
}

/// The entries of a text, `None` where it does not give them.
pub open spec fn drivers_in(text: Seq<char>) -> Option<Seq<YamlDriverView>> {
    match crate::yaml::yaml_document(text) {
        Some(v) => match driver_list(v) {
            Some(items) => if all_drivers(items) {
                Some(drivers_before(items, items.len()))
            } else {
                None
            },
            None => None,
        },
        None => None,
    }
}

/// Place of the first entry of a text that is not well formed.
pub open spec fn first_bad_entry(text: Seq<char>) -> Option<int> {
    match crate::yaml::yaml_document(text) {
        Some(v) => match driver_list(v) {
            Some(items) => first_bad(items, 0),
            None => None,
        },
        None => None,
    }
}

fn required_text(v: &serde_yaml::Value, key: &str) -> (r: Option<String>)
    ensures
        opt_view(r) == needed_text(*v, key@),
{
    match yaml_field(v, key) {
        Some(x) => text_of(x),
        None => None,
    }
}

/// A text that may be absent, the outer `None` an error.
pub open spec fn opt_opt_view(s: Option<Option<String>>) -> Option<Option<Seq<char>>> {
    match s {
        Some(t) => Some(opt_view(t)),
        None => None,
    }
}

fn optional_text(v: &serde_yaml::Value, key: &str) -> (r: Option<Option<String>>)
    ensures
        opt_opt_view(r) == allowed_text(*v, key@),
{
    match yaml_field(v, key) {
        Some(x) => if x.is_null() {
            Some(None)
        } else {
            match text_of(x) {
                Some(t) => Some(Some(t)),
                None => None,
            }
        },
        None => Some(None),
    }
}

fn optional_u32(v: &serde_yaml::Value, key: &str) -> (r: Option<Option<u32>>)
    ensures
        r == allowed_u32(*v, key@),
{
    match yaml_field(v, key) {
        Some(x) => if x.is_null() {
            Some(None)
        } else {
            match x.as_u64() {
                Some(n) => if n <= u32::MAX as u64 {
                    Some(Some(n as u32))
                } else {
                    None
                },
                None => None,
            }
        },
        None => Some(None),
    }
}

/// The entry that a value describes.
pub fn decode_driver(v: &serde_yaml::Value) -> (r: Option<YamlDriver>)
    ensures
        match r {
            Some(d) => driver_in(*v) == Some(d@),
            None => driver_in(*v) is None,
        },
{
    let car_idx: u8 = match yaml_field(v, "CarIdx") {
        Some(x) => match x.as_u64() {
            Some(n) => if n <= 255 {
                n as u8
            } else {
                return None;
            },
            None => {
                return None;
            },
        },
        None => {
            return None;
        },
    };
    let user_name: Option<String> = required_text(v, "UserName");
    let user_id: Option<Option<u32>> = optional_u32(v, "UserID");
    let team_name: Option<Option<String>> = optional_text(v, "TeamName");
    let car_number: Option<String> = required_text(v, "CarNumber");
    let car_class_id: Option<Option<u32>> = optional_u32(v, "CarClassID");
    let short_name: Option<Option<String>> = optional_text(v, "CarClassShortName");
    match (user_name, user_id, team_name, car_number, car_class_id, short_name) {
        (
            Some(user_name),
            Some(user_id),
            Some(team_name),
            Some(car_number),
            Some(car_class_id),
            Some(car_class_short_name),
        ) => Some(
            YamlDriver {
                car_idx,
                user_name,
                user_id,
                team_name,
                car_number,
                car_class_id,
                car_class_short_name,
            },
        ),
        _ => None,
    }
}

/// The entries of a parsed document.
pub fn decode_drivers(v: &serde_yaml::Value) -> (r: Result<Vec<YamlDriver>, SessionInfoError>)
    ensures
        match r {
            Ok(d) => driver_list(*v) matches Some(items) && all_drivers(items) && d@.map_values(
                |x: YamlDriver| x@,
            ) == drivers_before(items, items.len()) && first_bad(items, 0) is None,
            Err(SessionInfoError::NoDrivers) => driver_list(*v) is None,
            Err(SessionInfoError::BadDriver(i)) => driver_list(*v) matches Some(items)
                && !all_drivers(items) && first_bad(items, 0) == Some(i as int),
            Err(SessionInfoError::Yaml(_)) => false,
        },
{
    let info: &serde_yaml::Value = match yaml_field(v, "DriverInfo") {
        Some(x) => x,
        None => {
            return Err(SessionInfoError::NoDrivers);
        },
    };
    let list: &serde_yaml::Value = match yaml_field(info, "Drivers") {
        Some(x) => x,
        None => {
            return Err(SessionInfoError::NoDrivers);
        },
    };
    if list.is_null() {
        let none: Vec<YamlDriver> = Vec::new();
        assert(none@.map_values(|x: YamlDriver| x@) =~= drivers_before(Seq::empty(), 0));
        return Ok(none);
    }
    let items: &Vec<serde_yaml::Value> = match list.as_sequence() {
        Some(x) => x,
        None => {
            return Err(SessionInfoError::NoDrivers);
        },
    };
    let mut out: Vec<YamlDriver> = Vec::new();
    let mut i: usize = 0;
    while i < items.len()
        invariant
            i <= items@.len(),
            driver_list(*v) == Some(items@),
            all_drivers(items@.take(i as int)),
            first_bad(items@, 0) == first_bad(items@, i as int),
            out@.map_values(|x: YamlDriver| x@) == drivers_before(items@, i as nat),
        decreases items.len() - i,
    {
        match decode_driver(&items[i]) {
            Some(d) => {
                let ghost before = out@;
                out.push(d);
                proof {
                    assert(out@.map_values(|x: YamlDriver| x@) =~= before.map_values(
                        |x: YamlDriver| x@,
                    ).push(d@));
                    assert(out@.map_values(|x: YamlDriver| x@) =~= drivers_before(
                        items@,
                        (i + 1) as nat,
                    ));
                    assert forall|j: int| 0 <= j < i + 1 implies driver_in(
                        #[trigger] items@.take(i + 1)[j],
                    ) is Some by {
                        if j < i {
                            assert(driver_in(items@.take(i as int)[j]) is Some);
                        }
                    }
                }
            },
            None => {
                return Err(SessionInfoError::BadDriver(i));
            },
        }
        i = i + 1;
    }
    assert(items@.take(i as int) =~= items@);
    Ok(out)
}

/// The number `WeekendInfo.SubSessionID` of a text, where it has one.
pub open spec fn sub_session_in(text: Seq<char>) -> Option<i64> {
    match crate::yaml::yaml_document(text) {
        Some(v) => match field_of(v, "WeekendInfo"@) {
            Some(info) => match field_of(info, "SubSessionID"@) {
                Some(id) => match crate::yaml::yaml_shape(id) {
                    crate::yaml::YamlShape::Integer(n) => if n <= i64::MAX {
                        Some(n as i64)
                    } else {
                        None
                    },
                    _ => None,
                },
                None => None,
            },
            None => None,
        },
        None => None,
    }
}

/// The sub-session that a raw `SessionInfo` YAML string names.
pub fn parse_sub_session_id(yaml_str: &str) -> (r: Option<i64>)
    ensures
        r == sub_session_in(yaml_str@),
{
    match parse_yaml(yaml_str) {
        Ok(v) => match yaml_field(&v, "WeekendInfo") {
            Some(info) => match yaml_field(info, "SubSessionID") {
                Some(id) => id.as_i64(),
                None => None,
            },
            None => None,
        },
        Err(_) => None,
    }
}

/// Stateless YAML parser. Call [`SessionInfoParser::build`] whenever the
/// `SessionInfoUpdate` counter changes.
pub struct SessionInfoParser;

impl SessionInfoParser {
    /// Parse a raw `SessionInfo` YAML string into a [`SessionRoster`].
    ///
    /// Returns an error if the YAML is malformed, the required
    /// `DriverInfo.Drivers` key is missing, or an entry is not well formed.
    pub fn build(yaml_str: &str) -> (r: Result<SessionRoster, SessionInfoError>)
        ensures
            r is Ok <==> drivers_in(yaml_str@) is Some,
            r matches Ok(roster) ==> roster@ == roster_of(drivers_in(yaml_str@)->0),
            r matches Err(SessionInfoError::Yaml(_)) <==> crate::yaml::yaml_document(
                yaml_str@,
            ) is None,
            r matches Err(SessionInfoError::Yaml(e)) ==> crate::yaml::yaml_parsed(yaml_str@)
                == Err::<serde_yaml::Value, serde_yaml::Error>(e),
            r matches Err(SessionInfoError::NoDrivers) <==> (crate::yaml::yaml_document(
                yaml_str@,
            ) matches Some(v) && driver_list(v) is None),
            r matches Err(SessionInfoError::BadDriver(_)) <==> first_bad_entry(yaml_str@) is Some,
            r matches Err(SessionInfoError::BadDriver(i)) ==> first_bad_entry(yaml_str@) == Some(
                i as int,
            ),
    {
        match parse_yaml(yaml_str) {
            Ok(v) => match decode_drivers(&v) {
                Ok(drivers) => Ok(SessionRoster::from_drivers(drivers)),
                Err(e) => Err(e),
            },
            Err(e) => Err(SessionInfoError::Yaml(e)),
        }
    }
}

/// What a [`RosterCache`] holds.
#[verifier::ext_equal]
pub struct RosterCacheView {
    pub last_tick: Option<u32>,
    pub roster: Option<Map<u8, CarRefView>>,
}

/// Wraps a [`SessionRoster`] and tracks the last-parsed `SessionInfoUpdate`
/// tick so callers can detect when a re-parse is needed.
///
/// The cache starts empty (no roster). Call [`needs_update`] each frame;
/// when it returns `true`, read the YAML string and call [`update`].
///
/// [`needs_update`]: RosterCache::needs_update
/// [`update`]: RosterCache::update
pub struct RosterCache {
    last_tick: Option<u32>,
    roster: Option<SessionRoster>,
}

impl View for RosterCache {
    type V = RosterCacheView;

    closed spec fn view(&self) -> RosterCacheView {
        RosterCacheView {
            last_tick: self.last_tick,
            roster: match self.roster {
                Some(r) => Some(r@),
                None => None,
            },
        }
    }
}

impl Default for RosterCache {
    /// A cache that was never populated.
    fn default() -> (r: Self)
        ensures
            r@ == (RosterCacheView { last_tick: None, roster: None }),
    {
        RosterCache::new()
    }
}

impl RosterCache {
    /// A cache that was never populated.
    pub fn new() -> (r: Self)
        ensures
            r@ == (RosterCacheView { last_tick: None, roster: None }),
    {
        RosterCache { last_tick: None, roster: None }
    }

    /// Returns `true` if `current_tick` differs from the last tick this cache
    /// was updated at, or if the cache has never been populated.
    pub fn needs_update(&self, current_tick: u32) -> (r: bool)
        ensures
            r == (self@.last_tick != Some(current_tick)),
    {
        match self.last_tick {
            Some(t) => t != current_tick,
            None => true,
        }
    }

    /// Parse `yaml_str` and store the resulting roster tagged with `tick`.
    ///
    /// Replaces the previous roster on success. On failure the previous roster
    /// (if any) is retained and the tick is **not** advanced, so the next frame
    /// will retry.
    pub fn update(&mut self, tick: u32, yaml_str: &str) -> (r: Result<(), SessionInfoError>)
        ensures
            r is Ok <==> drivers_in(yaml_str@) is Some,
            r is Ok ==> final(self)@ == (RosterCacheView {
                last_tick: Some(tick),
                roster: Some(roster_of(drivers_in(yaml_str@)->0)),
            }),
            r is Err ==> *final(self) == *old(self),
            r matches Err(SessionInfoError::Yaml(_)) <==> crate::yaml::yaml_document(
                yaml_str@,
            ) is None,
            r matches Err(SessionInfoError::Yaml(e)) ==> crate::yaml::yaml_parsed(yaml_str@)
                == Err::<serde_yaml::Value, serde_yaml::Error>(e),
            r matches Err(SessionInfoError::NoDrivers) <==> (crate::yaml::yaml_document(
                yaml_str@,
            ) matches Some(v) && driver_list(v) is None),
            r matches Err(SessionInfoError::BadDriver(_)) <==> first_bad_entry(yaml_str@) is Some,
            r matches Err(SessionInfoError::BadDriver(i)) ==> first_bad_entry(yaml_str@) == Some(
                i as int,
            ),
    {
        match SessionInfoParser::build(yaml_str) {
            Ok(roster) => {
                self.roster = Some(roster);
                self.last_tick = Some(tick);
                Ok(())
            },
            Err(e) => Err(e),
        }
    }

    /// Returns the current roster, or `None` if the cache has never been
    /// successfully populated.
    pub fn roster(&self) -> (r: Option<&SessionRoster>)
        ensures
            r is Some <==> self@.roster is Some,
            r matches Some(x) ==> self@.roster == Some(x@),
    {
        self.roster.as_ref()
    }
}

/// Of the entries for a slot the last one is found there.
pub proof fn roster_has_the_last_entry_of_a_slot(drivers: Seq<YamlDriverView>, i: int)
    requires
        0 <= i < drivers.len(),
        forall|j: int|
            i < j < drivers.len() ==> (#[trigger] drivers[j]).car_idx != drivers[i].car_idx,
    ensures
        roster_of(drivers).contains_key(drivers[i].car_idx),
        roster_of(drivers)[drivers[i].car_idx] == car_of(drivers[i]),
    decreases drivers.len(),
{
    let front = drivers.drop_last();
    if i < front.len() {
        assert forall|j: int| i < j < front.len() implies (#[trigger] front[j]).car_idx
            != front[i].car_idx by {
            assert(drivers[j].car_idx != drivers[i].car_idx);
        }
        roster_has_the_last_entry_of_a_slot(front, i);
        assert(drivers[drivers.len() - 1].car_idx != drivers[i].car_idx);
    }
}

/// A slot that no entry names is not on the roster.
pub proof fn roster_lacks_unnamed_slots(drivers: Seq<YamlDriverView>, slot: u8)
    requires
        forall|i: int| 0 <= i < drivers.len() ==> (#[trigger] drivers[i]).car_idx != slot,
    ensures
        !roster_of(drivers).contains_key(slot),
    decreases drivers.len(),
{
    if drivers.len() > 0 {
        let front = drivers.drop_last();
        assert forall|i: int| 0 <= i < front.len() implies (#[trigger] front[i]).car_idx
            != slot by {
            assert(drivers[i].car_idx != slot);
        }
        roster_lacks_unnamed_slots(front, slot);
        assert(drivers[drivers.len() - 1].car_idx != slot);
    }
}

/// An entry is read where it has a slot between 0 and 255, a name and a number, and
/// nothing that it may leave out is of the wrong kind; what it leaves out is absent.
pub proof fn an_entry_needs_slot_name_and_number(v: serde_yaml::Value)
    ensures
        driver_in(v) matches Some(d) ==> {
            &&& field_of(v, "CarIdx"@) is Some
            &&& crate::yaml::yaml_shape(field_of(v, "CarIdx"@)->0)
                == crate::yaml::YamlShape::Integer(d.car_idx as int)
            &&& Some(d.user_name) == needed_text(v, "UserName"@)
            &&& Some(d.car_number) == needed_text(v, "CarNumber"@)
            &&& field_of(v, "UserID"@) is None ==> d.user_id is None
            &&& field_of(v, "TeamName"@) is None ==> d.team_name is None
            &&& field_of(v, "CarClassID"@) is None ==> d.car_class_id is None
            &&& field_of(v, "CarClassShortName"@) is None ==> d.car_class_short_name is None
            &&& d.user_id is Some ==> crate::yaml::yaml_shape(field_of(v, "UserID"@)->0)
                == crate::yaml::YamlShape::Integer(d.user_id->0 as int)
            &&& d.car_class_id is Some ==> crate::yaml::yaml_shape(field_of(v, "CarClassID"@)->0)
                == crate::yaml::YamlShape::Integer(d.car_class_id->0 as int)
        },
        field_of(v, "CarIdx"@) is None || field_of(v, "UserName"@) is None || field_of(
            v,
            "CarNumber"@,
        ) is None ==> driver_in(v) is None,
        field_of(v, "CarIdx"@) matches Some(x) && (crate::yaml::yaml_shape(
            x,
        ) matches crate::yaml::YamlShape::Integer(n) && (n < 0 || n > 255)) ==> driver_in(v)
            is None,
{
}

/// The first entry that is not well formed is the one that is named: those before it are.
pub proof fn the_first_bad_entry_is_named(items: Seq<serde_yaml::Value>, from: int)
    requires
        0 <= from <= items.len(),
    ensures
        match first_bad(items, from) {
            Some(k) => {
                &&& from <= k < items.len()
                &&& driver_in(items[k]) is None
                &&& forall|i: int| from <= i < k ==> driver_in(#[trigger] items[i]) is Some
            },
            None => forall|i: int|
                from <= i < items.len() ==> driver_in(#[trigger] items[i]) is Some,
        },
    decreases items.len() - from,
{
    if from < items.len() && driver_in(items[from]) is Some {
        the_first_bad_entry_is_named(items, from + 1);
    }
}

/// A car has the slot, the number, the name, the class and the account of its entry; a
/// team or a class that is blank counts as absent.
pub proof fn a_car_is_what_its_entry_says(d: YamlDriverView)
    ensures
        ({
            let c = car_of(d);
            &&& c.car_idx == d.car_idx
            &&& c.car_number == d.car_number
            &&& c.driver_name == d.user_name
            &&& c.car_class_id == d.car_class_id
            &&& c.user_id == d.user_id
            &&& d.team_name is Some && !crate::text::blank(d.team_name->0) ==> c.team_name
                == d.team_name
            &&& d.team_name is None || crate::text::blank(d.team_name->0) ==> c.team_name is None
            &&& d.car_class_short_name is Some && !crate::text::blank(d.car_class_short_name->0)
                ==> c.car_class_short_name == d.car_class_short_name
            &&& d.car_class_short_name is None || crate::text::blank(d.car_class_short_name->0)
                ==> c.car_class_short_name is None
        }),
{
}

} // verus!
