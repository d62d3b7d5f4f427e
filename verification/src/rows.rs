//! Row decoders: one raw row plus auxiliary lookup tables into one domain
//! record.
//!
//! Fields are addressed purely by zero-based column index.  Checks run in a
//! fixed order — structure (enough columns), the reference lookup, numeric
//! columns in column order, date-time and time-of-day validity, the combined
//! route field, the two packed angles, and the trailing numeric columns —
//! and the first failing check aborts the row with an error carrying the
//! 1-based row number and, where meaningful, column number and raw value.

use vstd::prelude::*;

use crate::assemble::{
    datetime_cols_ok, read_datetime_columns, read_point_column, read_time_columns,
    spec_datetime_value, spec_read_datetime_columns, spec_read_time_columns, spec_time_value,
    time_cols_ok,
};
use crate::columns::{
    read_i32_column, read_optional_str_column, read_str_column, spec_i32_cell,
    spec_read_i32_column,
};
use crate::correlate::{IdentityIndex, NaturalKey};
use crate::errors::DecodeError;
use crate::geo::{spec_dms_to_angle, GeoPoint};
use crate::models::{
    fresh_surrogate_id, AccidentView, InvolvedPersonView, RawAccident, RawAccidentIdentifier,
    RawInvolvedPerson,
};
use crate::table::CodeTable;

verus! {

/// Number of columns a primary row must have.
pub const ACCIDENT_COLUMNS: usize = 68;

/// Number of columns a supplementary row must have.
pub const PERSON_COLUMNS: usize = 16;

/// The combined administrative code of a primary row: the prefecture code
/// followed by the municipality code.
pub open spec fn combined_city_code(rowv: Seq<Seq<char>>) -> Seq<char> {
    rowv[1] + rowv[9]
}

/// Every check a primary row must pass to decode: enough columns, a mapped
/// administrative code, numeric cells that parse, a valid occurrence
/// date-time, valid sunrise and sunset times, a sliceable route field, and
/// two well-formed packed angles.
pub open spec fn accident_row_ok(rowv: Seq<Seq<char>>, cities: Map<Seq<char>, Seq<char>>) -> bool {
    &&& rowv.len() >= 68
    &&& cities.contains_key(combined_city_code(rowv))
    &&& spec_i32_cell(rowv, 3) is Some
    &&& spec_i32_cell(rowv, 5) is Some
    &&& spec_i32_cell(rowv, 6) is Some
    &&& spec_i32_cell(rowv, 8) is Some
    &&& datetime_cols_ok(rowv, 10)
    &&& time_cols_ok(rowv, 16)
    &&& time_cols_ok(rowv, 18)
    &&& rowv[7].len() >= 5
    &&& spec_dms_to_angle(rowv[60], 2) is Some
    &&& spec_dms_to_angle(rowv[61], 3) is Some
    &&& spec_i32_cell(rowv, 64) is Some
    &&& spec_i32_cell(rowv, 65) is Some
}

/// The accident record described by a primary row, field by field;
/// meaningful when `accident_row_ok` holds.
pub open spec fn spec_accident_fields(
    rowv: Seq<Seq<char>>,
    cities: Map<Seq<char>, Seq<char>>,
) -> AccidentView {
    AccidentView {
        prefecture_code: rowv[1],
        police_station_code: rowv[2],
        main_number: spec_i32_cell(rowv, 3).unwrap(),
        accident_detail_code: rowv[4],
        number_of_deaths: spec_i32_cell(rowv, 5).unwrap(),
        number_of_injuries: spec_i32_cell(rowv, 6).unwrap(),
        route_code: rowv[7].subrange(0, 4),
        route_class_code: rowv[7].subrange(4, 5),
        location_code: spec_i32_cell(rowv, 8).unwrap(),
        city_jis_code: cities[combined_city_code(rowv)],
        occurred_at: spec_datetime_value(rowv, 10),
        day_night_code: rowv[15],
        sunrise_time: spec_time_value(rowv, 16),
        sunset_time: spec_time_value(rowv, 18),
        weather_code: rowv[20],
        district_code: rowv[21],
        surface_condition_code: rowv[22],
        road_model_code: rowv[23],
        traffic_signal_code: rowv[24],
        stop_regulation_sign_a_code: rowv[25],
        stop_regulation_display_a_code: rowv[26],
        stop_regulation_sign_b_code: rowv[27],
        stop_regulation_display_b_code: rowv[28],
        road_width_code: rowv[29],
        road_alignment_code: rowv[30],
        collision_point_code: rowv[31],
        zone_regulation_code: rowv[32],
        central_separation_code: rowv[33],
        road_segmentation_code: rowv[34],
        accident_type_code: rowv[35],
        age_a_code: rowv[36],
        age_b_code: rowv[37],
        party_a_code: rowv[38],
        party_b_code: rowv[39],
        purpose_a_code: rowv[40],
        purpose_b_code: rowv[41],
        vehicle_type_a_code: rowv[42],
        vehicle_type_b_code: rowv[43],
        automatic_a_code: rowv[44],
        automatic_b_code: rowv[45],
        support_car_a_code: rowv[46],
        support_car_b_code: rowv[47],
        speed_regulation_a_code: rowv[48],
        speed_regulation_b_code: rowv[49],
        collision_part_a: rowv[50],
        collision_part_b: rowv[51],
        vehicle_damage_a_code: rowv[52],
        vehicle_damage_b_code: rowv[53],
        airbag_a_code: rowv[54],
        airbag_b_code: rowv[55],
        side_airbag_a_code: rowv[56],
        side_airbag_b_code: rowv[57],
        injury_a_code: rowv[58],
        injury_b_code: rowv[59],
        location: GeoPoint {
            longitude_mas: spec_dms_to_angle(rowv[61], 3).unwrap(),
            latitude_mas: spec_dms_to_angle(rowv[60], 2).unwrap(),
        },
        week_code: rowv[62],
        holiday_code: rowv[63],
        cognitive_days_a: spec_i32_cell(rowv, 64).unwrap(),
        cognitive_days_b: spec_i32_cell(rowv, 65).unwrap(),
        driving_practice_a_code: rowv[66],
        driving_practice_b_code: rowv[67],
    }
}

/// What decoding a primary row returns: on the first failing check, in
/// check order, exactly the error that names it; otherwise a record whose
/// every field but the surrogate identifier is pinned by the row and the
/// table.
pub open spec fn accident_row_result_matches(
    r: Result<RawAccident, DecodeError>,
    rowv: Seq<Seq<char>>,
    cities: Map<Seq<char>, Seq<char>>,
    ri: int,
) -> bool {
    if rowv.len() < 68 {
        r == Err::<RawAccident, DecodeError>(
            DecodeError::ColumnOutOfRange { row: (ri + 1) as usize },
        )
    } else if !cities.contains_key(combined_city_code(rowv)) {
        r matches Err(DecodeError::CityCodeNotFound { row, code }) && row == ri + 1 && code@
            == combined_city_code(rowv)
    } else if spec_read_i32_column(rowv, ri, 3) is Err {
        r == Err::<RawAccident, DecodeError>(spec_read_i32_column(rowv, ri, 3)->Err_0)
    } else if spec_read_i32_column(rowv, ri, 5) is Err {
        r == Err::<RawAccident, DecodeError>(spec_read_i32_column(rowv, ri, 5)->Err_0)
    } else if spec_read_i32_column(rowv, ri, 6) is Err {
        r == Err::<RawAccident, DecodeError>(spec_read_i32_column(rowv, ri, 6)->Err_0)
    } else if spec_read_i32_column(rowv, ri, 8) is Err {
        r == Err::<RawAccident, DecodeError>(spec_read_i32_column(rowv, ri, 8)->Err_0)
    } else if spec_read_datetime_columns(rowv, ri, 10) is Err {
        r == Err::<RawAccident, DecodeError>(spec_read_datetime_columns(rowv, ri, 10)->Err_0)
    } else if spec_read_time_columns(rowv, ri, 16) is Err {
        r == Err::<RawAccident, DecodeError>(spec_read_time_columns(rowv, ri, 16)->Err_0)
    } else if spec_read_time_columns(rowv, ri, 18) is Err {
        r == Err::<RawAccident, DecodeError>(spec_read_time_columns(rowv, ri, 18)->Err_0)
    } else if rowv[7].len() < 5 {
        r matches Err(DecodeError::MalformedRoute { row, value }) && row == ri + 1 && value@
            == rowv[7]
    } else if spec_dms_to_angle(rowv[60], 2) is None {
        r matches Err(DecodeError::MalformedAngle { row, column, value }) && row == ri + 1 && column
            == 61 && value@ == rowv[60]
    } else if spec_dms_to_angle(rowv[61], 3) is None {
        r matches Err(DecodeError::MalformedAngle { row, column, value }) && row == ri + 1 && column
            == 62 && value@ == rowv[61]
    } else if spec_read_i32_column(rowv, ri, 64) is Err {
        r == Err::<RawAccident, DecodeError>(spec_read_i32_column(rowv, ri, 64)->Err_0)
    } else if spec_read_i32_column(rowv, ri, 65) is Err {
        r == Err::<RawAccident, DecodeError>(spec_read_i32_column(rowv, ri, 65)->Err_0)
    } else {
        r matches Ok(a) && a@ == spec_accident_fields(rowv, cities)
    }
}

/// Decodes one primary row into an accident record, resolving the combined
/// administrative code through `cities`.
///
/// Succeeds exactly when the row passes every check of `accident_row_ok`;
/// the record's every field except the generated surrogate identifier is a
/// function of the row and the table.  On failure the error names the first
/// failing check.
pub fn row_to_accident(row: &Vec<String>, row_index: usize, cities: &CodeTable) -> (r: Result<
    RawAccident,
    DecodeError,
>)
    requires
        row_index < usize::MAX,
    ensures
        accident_row_result_matches(r, row.deep_view(), cities@, row_index as int),
        r is Ok <==> accident_row_ok(row.deep_view(), cities@),
        r matches Ok(a) ==> a.wf(),
{
    if row.len() < ACCIDENT_COLUMNS {
        return Err(DecodeError::ColumnOutOfRange { row: row_index + 1 });
    }
    let prefecture_code = read_str_column(row, row_index, 1)?;
    let city_code = read_str_column(row, row_index, 9)?;
    let combined = prefecture_code.clone().concat(city_code.as_str());
    let city_jis_code = match cities.lookup(&combined) {
        Some(v) => v,
        None => {
            return Err(DecodeError::CityCodeNotFound { row: row_index + 1, code: combined });
        },
    };
    let main_number = read_i32_column(row, row_index, 3)?;
    let number_of_deaths = read_i32_column(row, row_index, 5)?;
    let number_of_injuries = read_i32_column(row, row_index, 6)?;
    let location_code = read_i32_column(row, row_index, 8)?;
    let occurred_at = read_datetime_columns(row, row_index, 10)?;
    let sunrise_time = read_time_columns(row, row_index, 16)?;
    let sunset_time = read_time_columns(row, row_index, 18)?;
    let route = read_str_column(row, row_index, 7)?;
    if route.as_str().unicode_len() < 5 {
        return Err(DecodeError::MalformedRoute { row: row_index + 1, value: route });
    }
    let route_code = route.as_str().substring_char(0, 4).to_owned();
    let route_class_code = route.as_str().substring_char(4, 5).to_owned();
    let location = read_point_column(row, row_index, 60)?;
    let cognitive_days_a = read_i32_column(row, row_index, 64)?;
    let cognitive_days_b = read_i32_column(row, row_index, 65)?;
    Ok(
        RawAccident {
            id: fresh_surrogate_id(),
            prefecture_code,
            police_station_code: read_str_column(row, row_index, 2)?,
            main_number,
            accident_detail_code: read_str_column(row, row_index, 4)?,
            number_of_deaths,
            number_of_injuries,
            route_code,
            route_class_code,
            location_code,
            city_jis_code,
            occurred_at,
            day_night_code: read_str_column(row, row_index, 15)?,
            sunrise_time,
            sunset_time,
            weather_code: read_str_column(row, row_index, 20)?,
            district_code: read_str_column(row, row_index, 21)?,
            surface_condition_code: read_str_column(row, row_index, 22)?,
            road_model_code: read_str_column(row, row_index, 23)?,
            traffic_signal_code: read_str_column(row, row_index, 24)?,
            stop_regulation_sign_a_code: read_str_column(row, row_index, 25)?,
            stop_regulation_display_a_code: read_str_column(row, row_index, 26)?,
            stop_regulation_sign_b_code: read_str_column(row, row_index, 27)?,
            stop_regulation_display_b_code: read_str_column(row, row_index, 28)?,
            road_width_code: read_str_column(row, row_index, 29)?,
            road_alignment_code: read_str_column(row, row_index, 30)?,
            collision_point_code: read_str_column(row, row_index, 31)?,
            zone_regulation_code: read_str_column(row, row_index, 32)?,
            central_separation_code: read_str_column(row, row_index, 33)?,
            road_segmentation_code: read_str_column(row, row_index, 34)?,
            accident_type_code: read_str_column(row, row_index, 35)?,
            age_a_code: read_str_column(row, row_index, 36)?,
            age_b_code: read_str_column(row, row_index, 37)?,
            party_a_code: read_str_column(row, row_index, 38)?,
            party_b_code: read_str_column(row, row_index, 39)?,
            purpose_a_code: read_str_column(row, row_index, 40)?,
            purpose_b_code: read_str_column(row, row_index, 41)?,
            vehicle_type_a_code: read_str_column(row, row_index, 42)?,
            vehicle_type_b_code: read_str_column(row, row_index, 43)?,
            automatic_a_code: read_str_column(row, row_index, 44)?,
            automatic_b_code: read_str_column(row, row_index, 45)?,
            support_car_a_code: read_str_column(row, row_index, 46)?,
            support_car_b_code: read_str_column(row, row_index, 47)?,
            speed_regulation_a_code: read_str_column(row, row_index, 48)?,
            speed_regulation_b_code: read_str_column(row, row_index, 49)?,
            collision_part_a: read_str_column(row, row_index, 50)?,
            collision_part_b: read_str_column(row, row_index, 51)?,
            vehicle_damage_a_code: read_str_column(row, row_index, 52)?,
            vehicle_damage_b_code: read_str_column(row, row_index, 53)?,
            airbag_a_code: read_str_column(row, row_index, 54)?,
            airbag_b_code: read_str_column(row, row_index, 55)?,
            side_airbag_a_code: read_str_column(row, row_index, 56)?,
            side_airbag_b_code: read_str_column(row, row_index, 57)?,
            injury_a_code: read_str_column(row, row_index, 58)?,
            injury_b_code: read_str_column(row, row_index, 59)?,
            location,
            week_code: read_str_column(row, row_index, 62)?,
            holiday_code: read_str_column(row, row_index, 63)?,
            cognitive_days_a,
            cognitive_days_b,
            driving_practice_a_code: read_str_column(row, row_index, 66)?,
            driving_practice_b_code: read_str_column(row, row_index, 67)?,
        },
    )
}

/// The composite natural key carried by a supplementary row, meaningful
/// when its main number parses.
pub open spec fn person_natural_key(rowv: Seq<Seq<char>>) -> NaturalKey {
    (rowv[1], rowv[2], spec_i32_cell(rowv, 3).unwrap() as int)
}

/// Every check a supplementary row must pass to decode: enough columns, a
/// main number and sub number that parse, and a composite key that the
/// identity index resolves.
pub open spec fn person_row_ok(rowv: Seq<Seq<char>>, index: Map<NaturalKey, u128>) -> bool {
    &&& rowv.len() >= 16
    &&& spec_i32_cell(rowv, 3) is Some
    &&& index.contains_key(person_natural_key(rowv))
    &&& spec_i32_cell(rowv, 4) is Some
}

/// The involved-person record described by a supplementary row, field by
/// field; meaningful when `person_row_ok` holds.
pub open spec fn spec_person_fields(rowv: Seq<Seq<char>>) -> InvolvedPersonView {
    InvolvedPersonView {
        sub_number: spec_i32_cell(rowv, 4).unwrap(),
        party_code: rowv[5],
        purpose_code: if rowv[6].len() == 0 {
            None
        } else {
            Some(rowv[6])
        },
        vehicle_type_code: if rowv[7].len() == 0 {
            None
        } else {
            Some(rowv[7])
        },
        riding_type_code: rowv[8],
        riding_class_code: rowv[9],
        support_car_code: rowv[10],
        airbag_code: rowv[11],
        side_airbag_code: rowv[12],
        injury_code: rowv[13],
        collision_part: if rowv[14].len() == 0 {
            None
        } else {
            Some(rowv[14])
        },
        vehicle_damage_code: if rowv[15].len() == 0 {
            None
        } else {
            Some(rowv[15])
        },
    }
}

/// What decoding a supplementary row returns: on the first failing check,
/// in check order, exactly the error that names it — an unresolved key is a
/// reference error carrying the full composite key — and otherwise a record
/// whose parent reference is the index's surrogate for that key and whose
/// other fields are pinned by the row.
pub open spec fn person_row_result_matches(
    r: Result<RawInvolvedPerson, DecodeError>,
    rowv: Seq<Seq<char>>,
    index: Map<NaturalKey, u128>,
    ri: int,
) -> bool {
    if rowv.len() < 16 {
        r == Err::<RawInvolvedPerson, DecodeError>(
            DecodeError::ColumnOutOfRange { row: (ri + 1) as usize },
        )
    } else if spec_read_i32_column(rowv, ri, 3) is Err {
        r == Err::<RawInvolvedPerson, DecodeError>(spec_read_i32_column(rowv, ri, 3)->Err_0)
    } else if !index.contains_key(person_natural_key(rowv)) {
        r matches Err(DecodeError::AccidentNotFound { row, identifier }) && row == ri + 1
            && identifier.key() == person_natural_key(rowv)
    } else if spec_read_i32_column(rowv, ri, 4) is Err {
        r == Err::<RawInvolvedPerson, DecodeError>(spec_read_i32_column(rowv, ri, 4)->Err_0)
    } else {
        r matches Ok(p) && p@ == spec_person_fields(rowv) && p.accident_id == index[
            person_natural_key(rowv)
        ]
    }
}

/// Decodes one supplementary row into an involved-person record, resolving
/// the parent accident through the identity index.
///
/// Succeeds exactly when the row passes every check of `person_row_ok`; the
/// parent reference is the surrogate identifier the index holds for the
/// row's composite key, and every other field except the record's own
/// generated identifier is a function of the row.  On failure the error
/// names the first failing check; an unmatched key reports the full key.
pub fn row_to_involved_person(
    row: &Vec<String>,
    row_index: usize,
    accident_ids: &IdentityIndex,
) -> (r: Result<RawInvolvedPerson, DecodeError>)
    requires
        row_index < usize::MAX,
    ensures
        person_row_result_matches(r, row.deep_view(), accident_ids@, row_index as int),
        r is Ok <==> person_row_ok(row.deep_view(), accident_ids@),
{
    if row.len() < PERSON_COLUMNS {
        return Err(DecodeError::ColumnOutOfRange { row: row_index + 1 });
    }
    let prefecture_code = read_str_column(row, row_index, 1)?;
    let police_station_code = read_str_column(row, row_index, 2)?;
    let main_number = read_i32_column(row, row_index, 3)?;
    let identifier = RawAccidentIdentifier { prefecture_code, police_station_code, main_number };
    let accident_id = match accident_ids.resolve(&identifier) {
        Some(id) => id,
        None => {
            return Err(DecodeError::AccidentNotFound { row: row_index + 1, identifier });
        },
    };
    Ok(
        RawInvolvedPerson {
            id: fresh_surrogate_id(),
            accident_id,
            sub_number: read_i32_column(row, row_index, 4)?,
            party_code: read_str_column(row, row_index, 5)?,
            purpose_code: read_optional_str_column(row, row_index, 6)?,
            vehicle_type_code: read_optional_str_column(row, row_index, 7)?,
            riding_type_code: read_str_column(row, row_index, 8)?,
            riding_class_code: read_str_column(row, row_index, 9)?,
            support_car_code: read_str_column(row, row_index, 10)?,
            airbag_code: read_str_column(row, row_index, 11)?,
            side_airbag_code: read_str_column(row, row_index, 12)?,
            injury_code: read_str_column(row, row_index, 13)?,
            collision_part: read_optional_str_column(row, row_index, 14)?,
            vehicle_damage_code: read_optional_str_column(row, row_index, 15)?,
        },
    )
}

/// Same-row determinism for accidents: two records decoded from the same
/// row with the same administrative-code table agree on every field; only
/// the generated surrogate identifier may differ.
pub proof fn lemma_accident_decode_deterministic(
    a: RawAccident,
    b: RawAccident,
    rowv: Seq<Seq<char>>,
    cities: Map<Seq<char>, Seq<char>>,
    ri_a: int,
    ri_b: int,
)
    requires
        accident_row_result_matches(Ok(a), rowv, cities, ri_a),
        accident_row_result_matches(Ok(b), rowv, cities, ri_b),
    ensures
        a@ == b@,
{
}

/// Same-row determinism for involved persons: two records decoded from the
/// same row with the same identity index agree on every field, the parent
/// reference included; only the record's own generated surrogate identifier
/// may differ.
pub proof fn lemma_person_decode_deterministic(
    a: RawInvolvedPerson,
    b: RawInvolvedPerson,
    rowv: Seq<Seq<char>>,
    index: Map<NaturalKey, u128>,
    ri_a: int,
    ri_b: int,
)
    requires
        person_row_result_matches(Ok(a), rowv, index, ri_a),
        person_row_result_matches(Ok(b), rowv, index, ri_b),
    ensures
        a@ == b@,
        a.accident_id == b.accident_id,
{
}

} // verus!
