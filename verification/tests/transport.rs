use rdr_compose::detection::{ArmorType, CarType, Color};
use rdr_compose::transport::message_payload;

#[test]
fn payload_of_one_frame_is_the_frame() {
    assert_eq!(message_payload(&vec![vec![1, 2, 3]]), vec![1, 2, 3]);
}

#[test]
fn payload_of_several_frames_is_their_concatenation() {
    assert_eq!(message_payload(&vec![vec![8, 1], vec![], vec![0x12, 0x00]]), vec![8, 1, 0x12, 0x00]);
    assert_eq!(message_payload(&vec![]), Vec::<u8>::new());
}

#[test]
fn detection_codes() {
    assert_eq!(Color::BLUE.code(), 0);
    assert_eq!(Color::P.code(), 3);
    assert_eq!(ArmorType::GUARD.code(), 0);
    assert_eq!(ArmorType::OUTPOST.code(), 6);
    assert_eq!(ArmorType::NONE.code(), 9);
    assert_eq!(CarType::WATCHER.code(), 1);
    assert_eq!(CarType::BASE.code(), 2);
}

use rdr_compose::detection::{report_order, summarize, Sighting};

#[test]
fn names_match_debug() {
    assert_eq!(Color::RED.name(), format!("{:?}", Color::RED));
    assert_eq!(ArmorType::BASE_SMALL.name(), format!("{:?}", ArmorType::BASE_SMALL));
    assert_eq!(CarType::WATCHER.name(), format!("{:?}", CarType::WATCHER));
}

#[test]
fn report_order_is_car_base_watcher() {
    assert_eq!(report_order(), vec![CarType::CAR, CarType::BASE, CarType::WATCHER]);
}

#[test]
fn summaries_per_vehicle_kind() {
    let sightings = vec![
        Sighting { car_type: CarType::CAR, car_color: Color::RED, armor_type: ArmorType::N3 },
        Sighting { car_type: CarType::BASE, car_color: Color::BLUE, armor_type: ArmorType::BASE_BIG },
        Sighting { car_type: CarType::CAR, car_color: Color::BLUE, armor_type: ArmorType::N1 },
    ];
    assert_eq!(summarize(&sightings, CarType::CAR), (2, "RED N3, BLUE N1".to_string()));
    assert_eq!(summarize(&sightings, CarType::BASE), (1, "BLUE BASE_BIG".to_string()));
    assert_eq!(summarize(&sightings, CarType::WATCHER), (0, String::new()));
}
