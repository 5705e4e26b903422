use plantbuddy::color::RGBColor;
use plantbuddy::sensors::Sensortypes;

#[test]
fn test_sensortypes_get_name() {
    let sensor_type = Sensortypes::Feuchtigkeit;
    assert_eq!(sensor_type.get_name(), "soil-moisture");
}

#[test]
fn test_sensortypes_get_color() {
    let sensor_type = Sensortypes::Feuchtigkeit;
    assert_eq!(sensor_type.get_color(), RGBColor(0, 0, 255));
}

#[test]
fn test_sensortypes_iter() {
    let sensor_types: Vec<_> = Sensortypes::iter().into_iter().collect();
    assert_eq!(
        sensor_types,
        vec![
            Sensortypes::Feuchtigkeit,
            Sensortypes::Luftfeuchtigkeit,
            Sensortypes::Temperatur,
            Sensortypes::Licht
        ]
    );
}

#[test]
fn sensor_names_and_labels() {
    assert_eq!(Sensortypes::Luftfeuchtigkeit.get_name(), "humidity");
    assert_eq!(Sensortypes::Temperatur.get_name(), "temperature");
    assert_eq!(Sensortypes::Licht.get_name(), "light");
    assert_eq!(Sensortypes::Licht.label(), "Licht");
    assert_eq!(Sensortypes::Licht.get_color(), RGBColor(255, 255, 0));
    for (i, s) in Sensortypes::iter().into_iter().enumerate() {
        assert_eq!(s.index(), i);
        assert_eq!(Sensortypes::from_name(&s.get_name()), Some(s));
    }
    assert_eq!(Sensortypes::from_name("pressure"), None);
}

#[test]
fn offset_colors() {
    assert_eq!(Sensortypes::Feuchtigkeit.color_with_offsets(1, 2, 3), RGBColor(1, 2, 252));
    assert_eq!(Sensortypes::Luftfeuchtigkeit.color_with_offsets(1, 2, 3), RGBColor(1, 252, 2));
    assert_eq!(Sensortypes::Temperatur.color_with_offsets(1, 2, 3), RGBColor(252, 1, 2));
    assert_eq!(Sensortypes::Licht.color_with_offsets(1, 2, 50), RGBColor(205, 205, 1));
    for _ in 0..50 {
        let c = Sensortypes::Licht.get_color_with_random_offset();
        assert!(c.0 >= 205 && c.0 == c.1);
        let c = Sensortypes::Feuchtigkeit.get_color_with_random_offset();
        assert!(c.2 >= 205);
    }
}
