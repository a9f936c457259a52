use bar::base::{
    clock_label, get_desired_size_base, volume_from_reading, volume_label, LocalTime, VolumeReading,
};
use bar::model::Size;

#[test]
fn base_size() {
    assert_eq!(get_desired_size_base(), Size { width: 400, height: 40 });
}

#[test]
fn volume_text() {
    assert_eq!(volume_label(&Some("42%".to_string())), "42%");
    assert_eq!(volume_label(&None), "\u{f0581}");
}

#[test]
fn muted_reading_is_dropped() {
    let muted = VolumeReading { level: 0, printed: "0%".to_string() };
    assert_eq!(volume_from_reading(muted), None);
    let loud = VolumeReading { level: 65536, printed: "100%".to_string() };
    assert_eq!(volume_from_reading(loud), Some("100%".to_string()));
}

#[test]
fn clock_text() {
    let t = LocalTime { year: 2024, month: 1, day: 5, hour: 9, minute: 7 };
    assert_eq!(clock_label(t), Some("Fri Jan  5 09:07".to_string()));
    let t = LocalTime { year: 2024, month: 2, day: 29, hour: 23, minute: 59 };
    assert_eq!(clock_label(t), Some("Thu Feb 29 23:59".to_string()));
}

#[test]
fn clock_rejects_missing_minutes() {
    assert_eq!(clock_label(LocalTime { year: 2023, month: 2, day: 29, hour: 0, minute: 0 }), None);
    assert_eq!(clock_label(LocalTime { year: 2023, month: 4, day: 31, hour: 0, minute: 0 }), None);
    assert_eq!(clock_label(LocalTime { year: 2023, month: 13, day: 1, hour: 0, minute: 0 }), None);
    assert_eq!(clock_label(LocalTime { year: 2023, month: 1, day: 1, hour: 24, minute: 0 }), None);
    assert_eq!(clock_label(LocalTime { year: 2023, month: 1, day: 1, hour: 0, minute: 60 }), None);
    assert_eq!(clock_label(LocalTime { year: 262143, month: 1, day: 1, hour: 0, minute: 0 }), None);
    assert!(clock_label(LocalTime { year: 262142, month: 1, day: 1, hour: 0, minute: 0 }).is_some());
    assert!(clock_label(LocalTime { year: -262143, month: 1, day: 1, hour: 0, minute: 0 }).is_some());
    assert!(clock_label(LocalTime { year: 2000, month: 2, day: 29, hour: 0, minute: 0 }).is_some());
    assert_eq!(clock_label(LocalTime { year: 1900, month: 2, day: 29, hour: 0, minute: 0 }), None);
}
