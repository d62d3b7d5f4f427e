//! Domain records decoded from the two input files.
//!
//! A primary row becomes a [`RawAccident`], a supplementary row a
//! [`RawInvolvedPerson`].  Each record carries a generated surrogate
//! identifier, assigned at decode time and never derived from the input;
//! an involved person additionally carries its parent accident's surrogate
//! identifier.  The (prefecture, police station, main number) triple is the
//! natural key used only for cross-file correlation, never for storage.
//!
//! The mathematical view of a record is the record without its generated
//! identifiers: decoding is a function of the input up to those identifiers.

use vstd::prelude::*;

use crate::datetime::{OffsetDateTime, Time};
use crate::geo::GeoPoint;

verus! {

/// Composite natural key of an accident within the dataset.
#[derive(Debug, Clone, PartialEq, Eq, Hash)]
pub struct RawAccidentIdentifier {
    /// Prefecture code.
    pub prefecture_code: String,
    /// Police-station code.
    pub police_station_code: String,
    /// Main sheet number.
    pub main_number: i32,
}

impl RawAccidentIdentifier {
    /// The key as a mathematical value.
    pub open spec fn key(self) -> (Seq<char>, Seq<char>, int) {
        (self.prefecture_code@, self.police_station_code@, self.main_number as int)
    }

    /// Whether two identifiers name the same accident.
    pub fn eq_key(&self, other: &RawAccidentIdentifier) -> (r: bool)
        ensures
            r == (self.key() == other.key()),
    {
        let same = self.prefecture_code == other.prefecture_code
            && self.police_station_code == other.police_station_code && self.main_number
            == other.main_number;
        proof {
            if same {
                assert(self.key() == other.key());
            }
        }
        same
    }
}

/// One traffic accident, decoded from a primary row.
#[derive(Debug, Clone, PartialEq)]
pub struct RawAccident {
    /// Generated surrogate identifier.
    pub id: u128,
    /// Prefecture code.
    pub prefecture_code: String,
    /// Police-station code.
    pub police_station_code: String,
    /// Main sheet number.
    pub main_number: i32,
    /// Accident detail code.
    pub accident_detail_code: String,
    /// Number of deaths.
    pub number_of_deaths: i32,
    /// Number of injuries.
    pub number_of_injuries: i32,
    /// Route code: the first four characters of the combined route field.
    pub route_code: String,
    /// Route class code: the fifth character of the combined route field.
    pub route_class_code: String,
    /// Location code.
    pub location_code: i32,
    /// Municipal JIS code resolved through the administrative-code table.
    pub city_jis_code: String,
    /// Occurrence date-time (fixed +9:00 offset).
    pub occurred_at: OffsetDateTime,
    /// Day/night code.
    pub day_night_code: String,
    /// Sunrise time.
    pub sunrise_time: Time,
    /// Sunset time.
    pub sunset_time: Time,
    /// Weather code.
    pub weather_code: String,
    /// District code.
    pub district_code: String,
    /// Road-surface condition code.
    pub surface_condition_code: String,
    /// Road model code.
    pub road_model_code: String,
    /// Traffic-signal code.
    pub traffic_signal_code: String,
    /// Stop-regulation sign code (party A).
    pub stop_regulation_sign_a_code: String,
    /// Stop-regulation display code (party A).
    pub stop_regulation_display_a_code: String,
    /// Stop-regulation sign code (party B).
    pub stop_regulation_sign_b_code: String,
    /// Stop-regulation display code (party B).
    pub stop_regulation_display_b_code: String,
    /// Road-width code.
    pub road_width_code: String,
    /// Road-alignment code.
    pub road_alignment_code: String,
    /// Collision-point code.
    pub collision_point_code: String,
    /// Zone-regulation code.
    pub zone_regulation_code: String,
    /// Central-separation code.
    pub central_separation_code: String,
    /// Road-segmentation code.
    pub road_segmentation_code: String,
    /// Accident-type code.
    pub accident_type_code: String,
    /// Age code (party A).
    pub age_a_code: String,
    /// Age code (party B).
    pub age_b_code: String,
    /// Party-type code (party A).
    pub party_a_code: String,
    /// Party-type code (party B).
    pub party_b_code: String,
    /// Purpose code (party A).
    pub purpose_a_code: String,
    /// Purpose code (party B).
    pub purpose_b_code: String,
    /// Vehicle-type code (party A).
    pub vehicle_type_a_code: String,
    /// Vehicle-type code (party B).
    pub vehicle_type_b_code: String,
    /// Automatic-car code (party A).
    pub automatic_a_code: String,
    /// Automatic-car code (party B).
    pub automatic_b_code: String,
    /// Support-car code (party A).
    pub support_car_a_code: String,
    /// Support-car code (party B).
    pub support_car_b_code: String,
    /// Speed-regulation code (party A).
    pub speed_regulation_a_code: String,
    /// Speed-regulation code (party B).
    pub speed_regulation_b_code: String,
    /// Vehicle collision part (party A).
    pub collision_part_a: String,
    /// Vehicle collision part (party B).
    pub collision_part_b: String,
    /// Vehicle-damage code (party A).
    pub vehicle_damage_a_code: String,
    /// Vehicle-damage code (party B).
    pub vehicle_damage_b_code: String,
    /// Airbag code (party A).
    pub airbag_a_code: String,
    /// Airbag code (party B).
    pub airbag_b_code: String,
    /// Side-airbag code (party A).
    pub side_airbag_a_code: String,
    /// Side-airbag code (party B).
    pub side_airbag_b_code: String,
    /// Injury code (party A).
    pub injury_a_code: String,
    /// Injury code (party B).
    pub injury_b_code: String,
    /// Location, reconstructed from the packed latitude and longitude.
    pub location: GeoPoint,
    /// Weekday code.
    pub week_code: String,
    /// Holiday code.
    pub holiday_code: String,
    /// Days since cognitive test (party A).
    pub cognitive_days_a: i32,
    /// Days since cognitive test (party B).
    pub cognitive_days_b: i32,
    /// Driving-practice code (party A).
    pub driving_practice_a_code: String,
    /// Driving-practice code (party B).
    pub driving_practice_b_code: String,
}

/// The mathematical content of a [`RawAccident`]: every field except the
/// generated surrogate identifier.
pub struct AccidentView {
    pub prefecture_code: Seq<char>,
    pub police_station_code: Seq<char>,
    pub main_number: i32,
    pub accident_detail_code: Seq<char>,
    pub number_of_deaths: i32,
    pub number_of_injuries: i32,
    pub route_code: Seq<char>,
    pub route_class_code: Seq<char>,
    pub location_code: i32,
    pub city_jis_code: Seq<char>,
    pub occurred_at: OffsetDateTime,
    pub day_night_code: Seq<char>,
    pub sunrise_time: Time,
    pub sunset_time: Time,
    pub weather_code: Seq<char>,
    pub district_code: Seq<char>,
    pub surface_condition_code: Seq<char>,
    pub road_model_code: Seq<char>,
    pub traffic_signal_code: Seq<char>,
    pub stop_regulation_sign_a_code: Seq<char>,
    pub stop_regulation_display_a_code: Seq<char>,
    pub stop_regulation_sign_b_code: Seq<char>,
    pub stop_regulation_display_b_code: Seq<char>,
    pub road_width_code: Seq<char>,
    pub road_alignment_code: Seq<char>,
    pub collision_point_code: Seq<char>,
    pub zone_regulation_code: Seq<char>,
    pub central_separation_code: Seq<char>,
    pub road_segmentation_code: Seq<char>,
    pub accident_type_code: Seq<char>,
    pub age_a_code: Seq<char>,
    pub age_b_code: Seq<char>,
    pub party_a_code: Seq<char>,
    pub party_b_code: Seq<char>,
    pub purpose_a_code: Seq<char>,
    pub purpose_b_code: Seq<char>,
    pub vehicle_type_a_code: Seq<char>,
    pub vehicle_type_b_code: Seq<char>,
    pub automatic_a_code: Seq<char>,
    pub automatic_b_code: Seq<char>,
    pub support_car_a_code: Seq<char>,
    pub support_car_b_code: Seq<char>,
    pub speed_regulation_a_code: Seq<char>,
    pub speed_regulation_b_code: Seq<char>,
    pub collision_part_a: Seq<char>,
    pub collision_part_b: Seq<char>,
    pub vehicle_damage_a_code: Seq<char>,
    pub vehicle_damage_b_code: Seq<char>,
    pub airbag_a_code: Seq<char>,
    pub airbag_b_code: Seq<char>,
    pub side_airbag_a_code: Seq<char>,
    pub side_airbag_b_code: Seq<char>,
    pub injury_a_code: Seq<char>,
    pub injury_b_code: Seq<char>,
    pub location: GeoPoint,
    pub week_code: Seq<char>,
    pub holiday_code: Seq<char>,
    pub cognitive_days_a: i32,
    pub cognitive_days_b: i32,
    pub driving_practice_a_code: Seq<char>,
    pub driving_practice_b_code: Seq<char>,
}

impl View for RawAccident {
    type V = AccidentView;

    open spec fn view(&self) -> AccidentView {
        AccidentView {
            prefecture_code: self.prefecture_code@,
            police_station_code: self.police_station_code@,
            main_number: self.main_number,
            accident_detail_code: self.accident_detail_code@,
            number_of_deaths: self.number_of_deaths,
            number_of_injuries: self.number_of_injuries,
            route_code: self.route_code@,
            route_class_code: self.route_class_code@,
            location_code: self.location_code,
            city_jis_code: self.city_jis_code@,
            occurred_at: self.occurred_at,
            day_night_code: self.day_night_code@,
            sunrise_time: self.sunrise_time,
            sunset_time: self.sunset_time,
            weather_code: self.weather_code@,
            district_code: self.district_code@,
            surface_condition_code: self.surface_condition_code@,
            road_model_code: self.road_model_code@,
            traffic_signal_code: self.traffic_signal_code@,
            stop_regulation_sign_a_code: self.stop_regulation_sign_a_code@,
            stop_regulation_display_a_code: self.stop_regulation_display_a_code@,
            stop_regulation_sign_b_code: self.stop_regulation_sign_b_code@,
            stop_regulation_display_b_code: self.stop_regulation_display_b_code@,
            road_width_code: self.road_width_code@,
            road_alignment_code: self.road_alignment_code@,
            collision_point_code: self.collision_point_code@,
            zone_regulation_code: self.zone_regulation_code@,
            central_separation_code: self.central_separation_code@,
            road_segmentation_code: self.road_segmentation_code@,
            accident_type_code: self.accident_type_code@,
            age_a_code: self.age_a_code@,
            age_b_code: self.age_b_code@,
            party_a_code: self.party_a_code@,
            party_b_code: self.party_b_code@,
            purpose_a_code: self.purpose_a_code@,
            purpose_b_code: self.purpose_b_code@,
            vehicle_type_a_code: self.vehicle_type_a_code@,
            vehicle_type_b_code: self.vehicle_type_b_code@,
            automatic_a_code: self.automatic_a_code@,
            automatic_b_code: self.automatic_b_code@,
            support_car_a_code: self.support_car_a_code@,
            support_car_b_code: self.support_car_b_code@,
            speed_regulation_a_code: self.speed_regulation_a_code@,
            speed_regulation_b_code: self.speed_regulation_b_code@,
            collision_part_a: self.collision_part_a@,
            collision_part_b: self.collision_part_b@,
            vehicle_damage_a_code: self.vehicle_damage_a_code@,
            vehicle_damage_b_code: self.vehicle_damage_b_code@,
            airbag_a_code: self.airbag_a_code@,
            airbag_b_code: self.airbag_b_code@,
            side_airbag_a_code: self.side_airbag_a_code@,
            side_airbag_b_code: self.side_airbag_b_code@,
            injury_a_code: self.injury_a_code@,
            injury_b_code: self.injury_b_code@,
            location: self.location,
            week_code: self.week_code@,
            holiday_code: self.holiday_code@,
            cognitive_days_a: self.cognitive_days_a,
            cognitive_days_b: self.cognitive_days_b,
            driving_practice_a_code: self.driving_practice_a_code@,
            driving_practice_b_code: self.driving_practice_b_code@,
        }
    }
}

impl RawAccident {
    /// The record's internal invariant: the occurrence date-time and both
    /// times of day are real calendar values.
    pub open spec fn wf(self) -> bool {
        self.occurred_at.wf() && self.sunrise_time.wf() && self.sunset_time.wf()
    }

    /// The natural key of this accident, as a value.
    pub open spec fn spec_key(self) -> (Seq<char>, Seq<char>, int) {
        (self.prefecture_code@, self.police_station_code@, self.main_number as int)
    }

    /// Returns the accident's composite natural key.
    pub fn identifier(&self) -> (r: RawAccidentIdentifier)
        ensures
            r.key() == self.spec_key(),
    {
        RawAccidentIdentifier {
            prefecture_code: self.prefecture_code.clone(),
            police_station_code: self.police_station_code.clone(),
            main_number: self.main_number,
        }
    }
}

/// A non-principal party to an accident, decoded from a supplementary row.
#[derive(Debug, Clone, PartialEq)]
pub struct RawInvolvedPerson {
    /// Generated surrogate identifier.
    pub id: u128,
    /// Surrogate identifier of the parent accident, resolved through the
    /// identity index built from the primary file.
    pub accident_id: u128,
    /// Supplementary sheet number.
    pub sub_number: i32,
    /// Party-type code.
    pub party_code: String,
    /// Purpose code; absent when not applicable.
    pub purpose_code: Option<String>,
    /// Vehicle-type code; absent when not applicable.
    pub vehicle_type_code: Option<String>,
    /// Riding-type code.
    pub riding_type_code: String,
    /// Riding-class code.
    pub riding_class_code: String,
    /// Support-car code.
    pub support_car_code: String,
    /// Airbag code.
    pub airbag_code: String,
    /// Side-airbag code.
    pub side_airbag_code: String,
    /// Injury code.
    pub injury_code: String,
    /// Vehicle collision part; absent when not applicable.
    pub collision_part: Option<String>,
    /// Vehicle-damage code; absent when not applicable.
    pub vehicle_damage_code: Option<String>,
}

/// The mathematical content of a [`RawInvolvedPerson`]: every field except
/// the two generated surrogate identifiers.
pub struct InvolvedPersonView {
    pub sub_number: i32,
    pub party_code: Seq<char>,
    pub purpose_code: Option<Seq<char>>,
    pub vehicle_type_code: Option<Seq<char>>,
    pub riding_type_code: Seq<char>,
    pub riding_class_code: Seq<char>,
    pub support_car_code: Seq<char>,
    pub airbag_code: Seq<char>,
    pub side_airbag_code: Seq<char>,
    pub injury_code: Seq<char>,
    pub collision_part: Option<Seq<char>>,
    pub vehicle_damage_code: Option<Seq<char>>,
}

impl View for RawInvolvedPerson {
    type V = InvolvedPersonView;

    open spec fn view(&self) -> InvolvedPersonView {
        InvolvedPersonView {
            sub_number: self.sub_number,
            party_code: self.party_code@,
            purpose_code: self.purpose_code.deep_view(),
            vehicle_type_code: self.vehicle_type_code.deep_view(),
            riding_type_code: self.riding_type_code@,
            riding_class_code: self.riding_class_code@,
            support_car_code: self.support_car_code@,
            airbag_code: self.airbag_code@,
            side_airbag_code: self.side_airbag_code@,
            injury_code: self.injury_code@,
            collision_part: self.collision_part.deep_view(),
            vehicle_damage_code: self.vehicle_damage_code.deep_view(),
        }
    }
}

/// Relies on `uuid::Uuid::new_v4` (a version-4 random UUID, here carried as
/// its 128-bit value) to generate surrogate identifiers at decode time.
/// The value is random: nothing is promised about it, and no two calls are
/// promised equal or unequal.
#[verifier::external_body]
pub(crate) fn fresh_surrogate_id() -> u128 {
    uuid::Uuid::new_v4().as_u128()
}

} // verus!
