//! Decoder tests: date-time assembly, time-of-day assembly, packed-angle
//! decoding, and a full primary-row decode.

use taod::datetime::{offset_datetime, time};
use taod::geo::{dms_to_latitude, dms_to_longitude};
use taod::rows::row_to_accident;
use taod::table::CodeTable;

/// Decimal degrees of an angle in milli-arcseconds.
fn angle_degrees(mas: u64) -> f64 {
    mas as f64 / 3_600_000.0
}

fn split_row(row: &str) -> Vec<String> {
    row.split(',').map(|cell| cell.to_string()).collect()
}

#[test]
fn readers_offset_datetime_ok() {
    let datetime = offset_datetime(2021, 1, 1, 10, 30).unwrap();
    assert_eq!(datetime.year(), 2021);
    assert_eq!(datetime.month(), 1);
    assert_eq!(datetime.day(), 1);
    assert_eq!(datetime.hour(), 10);
    assert_eq!(datetime.minute(), 30);
    assert_eq!(datetime.second(), 0);
    assert_eq!(datetime.offset_hours(), 9);
}

#[test]
fn files_offset_datetime_ok() {
    let datetime = offset_datetime(2021, 1, 1, 10, 30).unwrap();
    assert_eq!(datetime.year(), 2021);
    assert_eq!(datetime.month(), 1);
    assert_eq!(datetime.day(), 1);
    assert_eq!(datetime.hour(), 10);
    assert_eq!(datetime.minute(), 30);
    assert_eq!(datetime.second(), 0);
    assert_eq!(datetime.offset_hours(), 9);
}

#[test]
fn readers_offset_datetime_fail() {
    assert!(offset_datetime(2021, 13, 1, 10, 30).is_err());
    assert!(offset_datetime(2021, 1, 32, 10, 30).is_err());
    assert!(offset_datetime(2021, 1, 1, 24, 30).is_err());
    assert!(offset_datetime(2021, 1, 1, 10, 60).is_err());
}

#[test]
fn files_offset_datetime_fail() {
    assert!(offset_datetime(2021, 13, 1, 10, 30).is_err());
    assert!(offset_datetime(2021, 1, 32, 10, 30).is_err());
    assert!(offset_datetime(2021, 1, 1, 24, 30).is_err());
    assert!(offset_datetime(2021, 1, 1, 10, 60).is_err());
}

#[test]
fn readers_time_ok() {
    let time = time(10, 30).unwrap();
    assert_eq!(time.hour(), 10);
    assert_eq!(time.minute(), 30);
    assert_eq!(time.second(), 0);
}

#[test]
fn files_time_ok() {
    let time = time(10, 30).unwrap();
    assert_eq!(time.hour(), 10);
    assert_eq!(time.minute(), 30);
    assert_eq!(time.second(), 0);
}

#[test]
fn readers_time_fail() {
    assert!(time(24, 30).is_err());
    assert!(time(10, 60).is_err());
}

#[test]
fn files_time_fail() {
    assert!(time(24, 30).is_err());
    assert!(time(10, 60).is_err());
}

#[test]
fn readers_dms_to_latitude_ok() {
    assert_eq!(angle_degrees(dms_to_latitude("350000000").unwrap()), 35.0);
    assert_eq!(
        angle_degrees(dms_to_latitude("353000000").unwrap()),
        35.0 + 30.0 / 60.0
    );
    let result = angle_degrees(dms_to_latitude("353030123").unwrap());
    let expected = 35.0 + 30.0 / 60.0 + 30.123 / 3600.0;
    assert!(
        (result - expected).abs() < 1e-11,
        "expected: {}, result: {}",
        expected,
        result
    );
}

#[test]
fn files_dms_to_latitude_ok() {
    assert_eq!(angle_degrees(dms_to_latitude("350000000").unwrap()), 35.0);
    assert_eq!(
        angle_degrees(dms_to_latitude("353000000").unwrap()),
        35.0 + 30.0 / 60.0
    );
    let result = angle_degrees(dms_to_latitude("353030123").unwrap());
    let expected = 35.0 + 30.0 / 60.0 + 30.123 / 3600.0;
    assert!(
        (result - expected).abs() < 1e-11,
        "expected: {}, result: {}",
        expected,
        result
    );
}

#[test]
fn readers_dms_to_longitude_ok() {
    assert_eq!(angle_degrees(dms_to_longitude("1350000000").unwrap()), 135.0);
    assert_eq!(
        angle_degrees(dms_to_longitude("1353000000").unwrap()),
        135.0 + 30.0 / 60.0
    );
    let result = angle_degrees(dms_to_longitude("1353030123").unwrap());
    let expected = 135.0 + 30.0 / 60.0 + 30.123 / 3600.0;
    assert!(
        (result - expected).abs() < 1e-11,
        "expected: {}, result: {}",
        expected,
        result
    );
}

#[test]
fn files_dms_to_longitude_ok() {
    assert_eq!(angle_degrees(dms_to_longitude("1350000000").unwrap()), 135.0);
    assert_eq!(
        angle_degrees(dms_to_longitude("1353000000").unwrap()),
        135.0 + 30.0 / 60.0
    );
    let result = angle_degrees(dms_to_longitude("1353030123").unwrap());
    let expected = 135.0 + 30.0 / 60.0 + 30.123 / 3600.0;
    assert!(
        (result - expected).abs() < 1e-11,
        "expected: {}, result: {}",
        expected,
        result
    );
}

#[test]
fn readers_row_to_accident_ok() {
    let row = split_row(
        "1,10,059,0001,2,000,001,40010,0000,104,2022,01,22,14,18,12,06,59,16,33,5,1,3,14,7,00,00,00,00,04,9,01,70,1,4,21,35,25,03,04,31,31,01,01,1,1,00,00,04,04,30,30,3,3,2,2,2,2,2,4,430234789,1412612831,7,3,9999,9999,1,1",
    );
    let mut cities = CodeTable::new();
    cities.insert(String::from("10104"), String::from("01104"));
    let accident = row_to_accident(&row, 0, &cities).unwrap();

    assert_eq!(accident.prefecture_code, "10");
    assert_eq!(accident.police_station_code, "059");
    assert_eq!(accident.main_number, 1);
    assert_eq!(accident.accident_detail_code, "2");
    assert_eq!(accident.number_of_deaths, 0);
    assert_eq!(accident.number_of_injuries, 1);
    assert_eq!(accident.route_code, "4001");
    assert_eq!(accident.route_class_code, "0");
    assert_eq!(accident.location_code, 0);
    assert_eq!(accident.city_jis_code, "01104");
    assert_eq!(accident.occurred_at.year(), 2022);
    assert_eq!(accident.occurred_at.month(), 1);
    assert_eq!(accident.occurred_at.day(), 22);
    assert_eq!(accident.occurred_at.hour(), 14);
    assert_eq!(accident.occurred_at.minute(), 18);
    assert_eq!(accident.occurred_at.second(), 0);
    assert_eq!(accident.occurred_at.offset_hours(), 9);
    assert_eq!(accident.day_night_code, "12");
    assert_eq!(accident.sunrise_time.hour(), 6);
    assert_eq!(accident.sunrise_time.minute(), 59);
    assert_eq!(accident.sunset_time.hour(), 16);
    assert_eq!(accident.sunset_time.minute(), 33);
    assert_eq!(accident.weather_code, "5");
    assert_eq!(accident.district_code, "1");
    assert_eq!(accident.surface_condition_code, "3");
    assert_eq!(accident.road_model_code, "14");
    assert_eq!(accident.traffic_signal_code, "7");
    assert_eq!(accident.stop_regulation_sign_a_code, "00");
    assert_eq!(accident.stop_regulation_display_a_code, "00");
    assert_eq!(accident.stop_regulation_sign_b_code, "00");
    assert_eq!(accident.stop_regulation_display_b_code, "00");
    assert_eq!(accident.road_width_code, "04");
    assert_eq!(accident.road_alignment_code, "9");
    assert_eq!(accident.collision_point_code, "01");
    assert_eq!(accident.zone_regulation_code, "70");
    assert_eq!(accident.central_separation_code, "1");
    assert_eq!(accident.road_segmentation_code, "4");
    assert_eq!(accident.accident_type_code, "21");
    assert_eq!(accident.age_a_code, "35");
    assert_eq!(accident.age_b_code, "25");
    assert_eq!(accident.party_a_code, "03");
    assert_eq!(accident.party_b_code, "04");
    assert_eq!(accident.purpose_a_code, "31");
    assert_eq!(accident.purpose_b_code, "31");
    assert_eq!(accident.vehicle_type_a_code, "01");
    assert_eq!(accident.vehicle_type_b_code, "01");
    assert_eq!(accident.automatic_a_code, "1");
    assert_eq!(accident.automatic_b_code, "1");
    assert_eq!(accident.support_car_a_code, "00");
    assert_eq!(accident.support_car_b_code, "00");
    assert_eq!(accident.speed_regulation_a_code, "04");
    assert_eq!(accident.speed_regulation_b_code, "04");
    assert_eq!(accident.collision_part_a, "30");
    assert_eq!(accident.collision_part_b, "30");
    assert_eq!(accident.vehicle_damage_a_code, "3");
    assert_eq!(accident.vehicle_damage_b_code, "3");
    assert_eq!(accident.airbag_a_code, "2");
    assert_eq!(accident.airbag_b_code, "2");
    assert_eq!(accident.side_airbag_a_code, "2");
    assert_eq!(accident.side_airbag_b_code, "2");
    assert_eq!(accident.injury_a_code, "2");
    assert_eq!(accident.injury_b_code, "4");
    assert_eq!(
        accident.location.latitude_mas,
        43 * 3_600_000 + 2 * 60_000 + 34_789
    );
    assert_eq!(
        accident.location.longitude_mas,
        141 * 3_600_000 + 26 * 60_000 + 12_831
    );
    let latitude = accident.location.latitude_mas as f64 / 3_600_000.0;
    let longitude = accident.location.longitude_mas as f64 / 3_600_000.0;
    let expected_latitude = 43.0 + 2.0 / 60.0 + 34.789 / 3600.0;
    let expected_longitude = 141.0 + 26.0 / 60.0 + 12.831 / 3600.0;
    assert!((latitude - expected_latitude).abs() < 1e-11);
    assert!((longitude - expected_longitude).abs() < 1e-11);
    assert_eq!(accident.week_code, "7");
    assert_eq!(accident.holiday_code, "3");
    assert_eq!(accident.cognitive_days_a, 9999);
    assert_eq!(accident.cognitive_days_b, 9999);
    assert_eq!(accident.driving_practice_a_code, "1");
    assert_eq!(accident.driving_practice_b_code, "1");
}
