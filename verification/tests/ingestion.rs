//! Ingestion tests: whole-file decoding, row-scoped failures with their
//! diagnostics, cross-file identity correlation, and idempotence up to
//! generated identifiers.

use taod::correlate::build_identity_index;
use taod::datetime::DateTimeError;
use taod::errors::DecodeError;
use taod::ingest::{decode_import, read_accidents, read_involved_persons};
use taod::models::RawAccident;
use taod::rows::{row_to_accident, row_to_involved_person};
use taod::table::CodeTable;

const BASE_PRIMARY_ROW: &str = "1,10,059,0001,2,000,001,40010,0000,104,2022,01,22,14,18,12,06,59,16,33,5,1,3,14,7,00,00,00,00,04,9,01,70,1,4,21,35,25,03,04,31,31,01,01,1,1,00,00,04,04,30,30,3,3,2,2,2,2,2,4,430234789,1412612831,7,3,9999,9999,1,1";

const BASE_SECONDARY_ROW: &str = "1,10,059,0001,2,03,,01,1,1,00,2,2,4,30,3";

fn split_row(row: &str) -> Vec<String> {
    row.split(',').map(|cell| cell.to_string()).collect()
}

fn city_table() -> CodeTable {
    let mut cities = CodeTable::new();
    cities.insert("10104".to_string(), "01104".to_string());
    cities
}

fn header(columns: usize) -> String {
    (0..columns)
        .map(|i| format!("h{}", i))
        .collect::<Vec<String>>()
        .join(",")
}

fn csv_bytes(columns: usize, rows: &[Vec<String>]) -> Vec<u8> {
    let mut text = header(columns);
    for row in rows {
        text.push('\n');
        text.push_str(&row.join(","));
    }
    text.into_bytes()
}

fn second_primary_row() -> Vec<String> {
    let mut row = split_row(BASE_PRIMARY_ROW);
    row[3] = "0002".to_string();
    row[5] = "001".to_string();
    row[17] = "58".to_string();
    row
}

fn assert_same_accident_fields(a: &RawAccident, b: &RawAccident) {
    assert_eq!(a.prefecture_code, b.prefecture_code);
    assert_eq!(a.police_station_code, b.police_station_code);
    assert_eq!(a.main_number, b.main_number);
    assert_eq!(a.accident_detail_code, b.accident_detail_code);
    assert_eq!(a.number_of_deaths, b.number_of_deaths);
    assert_eq!(a.number_of_injuries, b.number_of_injuries);
    assert_eq!(a.route_code, b.route_code);
    assert_eq!(a.route_class_code, b.route_class_code);
    assert_eq!(a.location_code, b.location_code);
    assert_eq!(a.city_jis_code, b.city_jis_code);
    assert_eq!(a.occurred_at, b.occurred_at);
    assert_eq!(a.day_night_code, b.day_night_code);
    assert_eq!(a.sunrise_time, b.sunrise_time);
    assert_eq!(a.sunset_time, b.sunset_time);
    assert_eq!(a.weather_code, b.weather_code);
    assert_eq!(a.district_code, b.district_code);
    assert_eq!(a.surface_condition_code, b.surface_condition_code);
    assert_eq!(a.road_model_code, b.road_model_code);
    assert_eq!(a.traffic_signal_code, b.traffic_signal_code);
    assert_eq!(a.stop_regulation_sign_a_code, b.stop_regulation_sign_a_code);
    assert_eq!(a.stop_regulation_display_a_code, b.stop_regulation_display_a_code);
    assert_eq!(a.stop_regulation_sign_b_code, b.stop_regulation_sign_b_code);
    assert_eq!(a.stop_regulation_display_b_code, b.stop_regulation_display_b_code);
    assert_eq!(a.road_width_code, b.road_width_code);
    assert_eq!(a.road_alignment_code, b.road_alignment_code);
    assert_eq!(a.collision_point_code, b.collision_point_code);
    assert_eq!(a.zone_regulation_code, b.zone_regulation_code);
    assert_eq!(a.central_separation_code, b.central_separation_code);
    assert_eq!(a.road_segmentation_code, b.road_segmentation_code);
    assert_eq!(a.accident_type_code, b.accident_type_code);
    assert_eq!(a.age_a_code, b.age_a_code);
    assert_eq!(a.age_b_code, b.age_b_code);
    assert_eq!(a.party_a_code, b.party_a_code);
    assert_eq!(a.party_b_code, b.party_b_code);
    assert_eq!(a.purpose_a_code, b.purpose_a_code);
    assert_eq!(a.purpose_b_code, b.purpose_b_code);
    assert_eq!(a.vehicle_type_a_code, b.vehicle_type_a_code);
    assert_eq!(a.vehicle_type_b_code, b.vehicle_type_b_code);
    assert_eq!(a.automatic_a_code, b.automatic_a_code);
    assert_eq!(a.automatic_b_code, b.automatic_b_code);
    assert_eq!(a.support_car_a_code, b.support_car_a_code);
    assert_eq!(a.support_car_b_code, b.support_car_b_code);
    assert_eq!(a.speed_regulation_a_code, b.speed_regulation_a_code);
    assert_eq!(a.speed_regulation_b_code, b.speed_regulation_b_code);
    assert_eq!(a.collision_part_a, b.collision_part_a);
    assert_eq!(a.collision_part_b, b.collision_part_b);
    assert_eq!(a.vehicle_damage_a_code, b.vehicle_damage_a_code);
    assert_eq!(a.vehicle_damage_b_code, b.vehicle_damage_b_code);
    assert_eq!(a.airbag_a_code, b.airbag_a_code);
    assert_eq!(a.airbag_b_code, b.airbag_b_code);
    assert_eq!(a.side_airbag_a_code, b.side_airbag_a_code);
    assert_eq!(a.side_airbag_b_code, b.side_airbag_b_code);
    assert_eq!(a.injury_a_code, b.injury_a_code);
    assert_eq!(a.injury_b_code, b.injury_b_code);
    assert_eq!(a.location, b.location);
    assert_eq!(a.week_code, b.week_code);
    assert_eq!(a.holiday_code, b.holiday_code);
    assert_eq!(a.cognitive_days_a, b.cognitive_days_a);
    assert_eq!(a.cognitive_days_b, b.cognitive_days_b);
    assert_eq!(a.driving_practice_a_code, b.driving_practice_a_code);
    assert_eq!(a.driving_practice_b_code, b.driving_practice_b_code);
}

#[test]
fn accident_city_code_not_found() {
    let row = split_row(BASE_PRIMARY_ROW);
    let empty = CodeTable::new();
    assert_eq!(
        row_to_accident(&row, 0, &empty),
        Err(DecodeError::CityCodeNotFound {
            row: 1,
            code: "10104".to_string()
        })
    );
}

#[test]
fn accident_short_row_is_structural() {
    let mut row = split_row(BASE_PRIMARY_ROW);
    row.pop();
    assert_eq!(
        row_to_accident(&row, 6, &city_table()),
        Err(DecodeError::ColumnOutOfRange { row: 7 })
    );
}

#[test]
fn accident_non_numeric_cell_names_its_column() {
    let mut row = split_row(BASE_PRIMARY_ROW);
    row[3] = "12x".to_string();
    assert_eq!(
        row_to_accident(&row, 0, &city_table()),
        Err(DecodeError::NonNumericValue { row: 1, column: 4 })
    );
    let mut row = split_row(BASE_PRIMARY_ROW);
    row[12] = "".to_string();
    assert_eq!(
        row_to_accident(&row, 0, &city_table()),
        Err(DecodeError::NonNumericValue { row: 1, column: 13 })
    );
}

#[test]
fn accident_invalid_month_names_the_datetime_group() {
    let mut row = split_row(BASE_PRIMARY_ROW);
    row[11] = "13".to_string();
    assert_eq!(
        row_to_accident(&row, 0, &city_table()),
        Err(DecodeError::DateTimeOutOfRange {
            row: 1,
            column: 11,
            error: DateTimeError::MonthOutOfRange { month: 13 }
        })
    );
}

#[test]
fn accident_invalid_times_name_their_group() {
    let mut row = split_row(BASE_PRIMARY_ROW);
    row[16] = "24".to_string();
    assert_eq!(
        row_to_accident(&row, 0, &city_table()),
        Err(DecodeError::DateTimeOutOfRange {
            row: 1,
            column: 17,
            error: DateTimeError::HourOutOfRange { hour: 24 }
        })
    );
    let mut row = split_row(BASE_PRIMARY_ROW);
    row[19] = "60".to_string();
    assert_eq!(
        row_to_accident(&row, 0, &city_table()),
        Err(DecodeError::DateTimeOutOfRange {
            row: 1,
            column: 19,
            error: DateTimeError::MinuteOutOfRange { minute: 60 }
        })
    );
}

#[test]
fn accident_short_route_is_malformed() {
    let mut row = split_row(BASE_PRIMARY_ROW);
    row[7] = "401".to_string();
    assert_eq!(
        row_to_accident(&row, 0, &city_table()),
        Err(DecodeError::MalformedRoute {
            row: 1,
            value: "401".to_string()
        })
    );
}

#[test]
fn accident_malformed_angles_name_their_column() {
    let mut row = split_row(BASE_PRIMARY_ROW);
    row[60] = "43023478a".to_string();
    assert_eq!(
        row_to_accident(&row, 0, &city_table()),
        Err(DecodeError::MalformedAngle {
            row: 1,
            column: 61,
            value: "43023478a".to_string()
        })
    );
    let mut row = split_row(BASE_PRIMARY_ROW);
    row[61] = "1412".to_string();
    assert_eq!(
        row_to_accident(&row, 0, &city_table()),
        Err(DecodeError::MalformedAngle {
            row: 1,
            column: 62,
            value: "1412".to_string()
        })
    );
}

#[test]
fn involved_person_resolves_its_parent() {
    let accident = row_to_accident(&split_row(BASE_PRIMARY_ROW), 0, &city_table()).unwrap();
    let accidents = vec![accident];
    let index = build_identity_index(&accidents);
    let person = row_to_involved_person(&split_row(BASE_SECONDARY_ROW), 0, &index).unwrap();
    assert_eq!(person.accident_id, accidents[0].id);
    assert_eq!(person.sub_number, 2);
    assert_eq!(person.party_code, "03");
    assert_eq!(person.purpose_code, None);
    assert_eq!(person.vehicle_type_code, Some("01".to_string()));
    assert_eq!(person.riding_type_code, "1");
    assert_eq!(person.riding_class_code, "1");
    assert_eq!(person.support_car_code, "00");
    assert_eq!(person.airbag_code, "2");
    assert_eq!(person.side_airbag_code, "2");
    assert_eq!(person.injury_code, "4");
    assert_eq!(person.collision_part, Some("30".to_string()));
    assert_eq!(person.vehicle_damage_code, Some("3".to_string()));
}

#[test]
fn involved_person_empty_cell_is_absent_not_zero() {
    let accident = row_to_accident(&split_row(BASE_PRIMARY_ROW), 0, &city_table()).unwrap();
    let accidents = vec![accident];
    let index = build_identity_index(&accidents);
    let mut row = split_row(BASE_SECONDARY_ROW);
    row[6] = "0".to_string();
    let person = row_to_involved_person(&row, 0, &index).unwrap();
    assert_eq!(person.purpose_code, Some("0".to_string()));
}

#[test]
fn involved_person_unmatched_key_is_a_reference_error() {
    let accident = row_to_accident(&split_row(BASE_PRIMARY_ROW), 0, &city_table()).unwrap();
    let accidents = vec![accident];
    let index = build_identity_index(&accidents);
    let mut row = split_row(BASE_SECONDARY_ROW);
    row[3] = "0002".to_string();
    match row_to_involved_person(&row, 4, &index) {
        Err(DecodeError::AccidentNotFound { row, identifier }) => {
            assert_eq!(row, 5);
            assert_eq!(identifier.prefecture_code, "10");
            assert_eq!(identifier.police_station_code, "059");
            assert_eq!(identifier.main_number, 2);
        },
        other => panic!("expected a reference error, got {:?}", other),
    }
}

#[test]
fn involved_person_non_numeric_main_number() {
    let index = build_identity_index(&Vec::new());
    let mut row = split_row(BASE_SECONDARY_ROW);
    row[3] = "x".to_string();
    assert_eq!(
        row_to_involved_person(&row, 0, &index),
        Err(DecodeError::NonNumericValue { row: 1, column: 4 })
    );
}

#[test]
fn read_accidents_decodes_a_whole_file_in_order() {
    let rows = vec![split_row(BASE_PRIMARY_ROW), second_primary_row()];
    let bytes = csv_bytes(68, &rows);
    let accidents = read_accidents(&bytes, &city_table()).unwrap();
    assert_eq!(accidents.len(), 2);
    assert_eq!(accidents[0].main_number, 1);
    assert_eq!(accidents[1].main_number, 2);
    assert_eq!(accidents[1].sunrise_time.minute(), 58);
    assert_eq!(accidents[0].city_jis_code, "01104");
}

#[test]
fn read_accidents_trims_cells() {
    let mut row = split_row(BASE_PRIMARY_ROW);
    row[20] = " 5 ".to_string();
    row[3] = " 0001 ".to_string();
    let bytes = csv_bytes(68, &[row].to_vec());
    let accidents = read_accidents(&bytes, &city_table()).unwrap();
    assert_eq!(accidents[0].weather_code, "5");
    assert_eq!(accidents[0].main_number, 1);
}

#[test]
fn read_accidents_decodes_the_legacy_encoding() {
    let mut row = split_row(BASE_PRIMARY_ROW);
    row[4] = "#".to_string();
    let marked = csv_bytes(68, &[row].to_vec());
    let mut bytes: Vec<u8> = Vec::new();
    for &b in marked.iter() {
        if b == b'#' {
            bytes.push(0x93);
            bytes.push(0x8c);
        } else {
            bytes.push(b);
        }
    }
    let accidents = read_accidents(&bytes, &city_table()).unwrap();
    assert_eq!(accidents[0].accident_detail_code, "\u{6771}");
}

#[test]
fn read_accidents_rejects_ragged_text() {
    let mut short = split_row(BASE_PRIMARY_ROW);
    short.pop();
    let bytes = csv_bytes(68, &[split_row(BASE_PRIMARY_ROW), short].to_vec());
    assert_eq!(
        read_accidents(&bytes, &city_table()),
        Err(DecodeError::MalformedText)
    );
}

#[test]
fn read_accidents_stops_at_the_first_bad_row() {
    let mut bad = split_row(BASE_PRIMARY_ROW);
    bad[11] = "13".to_string();
    let bytes = csv_bytes(68, &[split_row(BASE_PRIMARY_ROW), bad].to_vec());
    assert_eq!(
        read_accidents(&bytes, &city_table()),
        Err(DecodeError::DateTimeOutOfRange {
            row: 2,
            column: 11,
            error: DateTimeError::MonthOutOfRange { month: 13 }
        })
    );
}

#[test]
fn decode_import_links_both_files() {
    let main_bytes = csv_bytes(68, &[split_row(BASE_PRIMARY_ROW), second_primary_row()]);
    let mut second_person = split_row(BASE_SECONDARY_ROW);
    second_person[3] = "0002".to_string();
    second_person[4] = "3".to_string();
    let support_bytes = csv_bytes(
        16,
        &[
            split_row(BASE_SECONDARY_ROW),
            second_person,
            split_row(BASE_SECONDARY_ROW),
        ],
    );
    let (accidents, persons) = decode_import(&main_bytes, &support_bytes, &city_table()).unwrap();
    assert_eq!(accidents.len(), 2);
    assert_eq!(persons.len(), 3);
    assert_eq!(persons[0].accident_id, accidents[0].id);
    assert_eq!(persons[1].accident_id, accidents[1].id);
    assert_eq!(persons[2].accident_id, accidents[0].id);
    assert_ne!(persons[0].id, persons[2].id);
}

#[test]
fn decode_import_fails_on_an_unmatched_key() {
    let main_bytes = csv_bytes(68, &[split_row(BASE_PRIMARY_ROW)]);
    let mut person = split_row(BASE_SECONDARY_ROW);
    person[2] = "060".to_string();
    let support_bytes = csv_bytes(16, &[split_row(BASE_SECONDARY_ROW), person]);
    match decode_import(&main_bytes, &support_bytes, &city_table()) {
        Err(DecodeError::AccidentNotFound { row, identifier }) => {
            assert_eq!(row, 2);
            assert_eq!(identifier.police_station_code, "060");
        },
        other => panic!("expected a reference error, got {:?}", other),
    }
}

#[test]
fn decoding_twice_differs_only_in_generated_identifiers() {
    let main_bytes = csv_bytes(68, &[split_row(BASE_PRIMARY_ROW), second_primary_row()]);
    let support_bytes = csv_bytes(16, &[split_row(BASE_SECONDARY_ROW)]);
    let cities = city_table();
    let (accidents1, persons1) = decode_import(&main_bytes, &support_bytes, &cities).unwrap();
    let (accidents2, persons2) = decode_import(&main_bytes, &support_bytes, &cities).unwrap();
    assert_eq!(accidents1.len(), accidents2.len());
    for (a, b) in accidents1.iter().zip(accidents2.iter()) {
        assert_same_accident_fields(a, b);
        assert_ne!(a.id, b.id);
    }
    assert_eq!(persons1.len(), persons2.len());
    for (p, q) in persons1.iter().zip(persons2.iter()) {
        assert_ne!(p.id, q.id);
        assert_eq!(p.sub_number, q.sub_number);
        assert_eq!(p.party_code, q.party_code);
        assert_eq!(p.purpose_code, q.purpose_code);
        assert_eq!(p.vehicle_type_code, q.vehicle_type_code);
        assert_eq!(p.riding_type_code, q.riding_type_code);
        assert_eq!(p.riding_class_code, q.riding_class_code);
        assert_eq!(p.support_car_code, q.support_car_code);
        assert_eq!(p.airbag_code, q.airbag_code);
        assert_eq!(p.side_airbag_code, q.side_airbag_code);
        assert_eq!(p.injury_code, q.injury_code);
        assert_eq!(p.collision_part, q.collision_part);
        assert_eq!(p.vehicle_damage_code, q.vehicle_damage_code);
    }
    assert_eq!(persons1[0].accident_id, accidents1[0].id);
    assert_eq!(persons2[0].accident_id, accidents2[0].id);
}

#[test]
fn read_involved_persons_keeps_file_order() {
    let accident = row_to_accident(&split_row(BASE_PRIMARY_ROW), 0, &city_table()).unwrap();
    let accidents = vec![accident];
    let index = build_identity_index(&accidents);
    let mut second = split_row(BASE_SECONDARY_ROW);
    second[4] = "3".to_string();
    let bytes = csv_bytes(16, &[split_row(BASE_SECONDARY_ROW), second]);
    let persons = read_involved_persons(&bytes, &index).unwrap();
    assert_eq!(persons.len(), 2);
    assert_eq!(persons[0].sub_number, 2);
    assert_eq!(persons[1].sub_number, 3);
}
