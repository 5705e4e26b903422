use plantbuddy::home::{HomeCommand, HomeMessage, HomePage};
use plantbuddy::requests::{GraphData, PlantGroupMetadata, PlantMetadata};
use plantbuddy::sensors::Sensortypes;

#[test]
fn test_home_page_creation() {
    let page = HomePage::new();

    assert_eq!(page.timerange.0, "2019-01-01T00:00:00.000Z".to_string());
    assert_eq!(page.show_modal, false);
    assert_eq!(page.modal_is_plant, true);
    assert_eq!(page.new_plant, PlantMetadata::default());
    assert_eq!(page.new_group, PlantGroupMetadata::default());
    assert_eq!(page.active_sensor, Sensortypes::Luftfeuchtigkeit);
}

#[test]
fn test_field_updated() {
    let mut page = HomePage::new();
    let index = 0;
    let value = String::from("My plant");

    page.update(HomeMessage::FieldUpdated(index, value.clone()));

    assert_eq!(page.new_plant.name, value);
}

#[test]
fn test_open_modal_plant() {
    let mut page = HomePage::new();

    page.update(HomeMessage::OpenModalPlant);

    assert_eq!(page.show_modal, true);
    assert_eq!(page.modal_is_plant, true);
}

#[test]
fn test_open_modal_group() {
    let mut page = HomePage::new();

    page.update(HomeMessage::OpenModalGroup);

    assert_eq!(page.show_modal, true);
    assert_eq!(page.modal_is_plant, false);
}

#[test]
fn test_close_modal() {
    let mut page = HomePage::new();
    page.show_modal = true;

    page.update(HomeMessage::CloseModal);

    assert_eq!(page.show_modal, false);
}

#[test]
fn new_plant_is_sent_with_split_tips_and_group() {
    let mut page = HomePage::new();
    page.update(HomeMessage::OpenModalPlant);
    page.update(HomeMessage::FieldUpdated(3, "water;sun".to_string()));
    page.update(HomeMessage::FieldUpdated(5, "12".to_string()));
    match page.update(HomeMessage::OkButtonPressed) {
        HomeCommand::CreatePlant { plant, group_id } => {
            assert_eq!(plant.additionalCareTips, vec!["water".to_string(), "sun".to_string()]);
            assert_eq!(group_id, 12);
        },
        other => panic!("unexpected {:?}", other),
    }
    assert!(!page.show_modal);
    page.update(HomeMessage::FieldUpdated(5, "x".to_string()));
    match page.update(HomeMessage::OkButtonPressed) {
        HomeCommand::CreatePlant { group_id, .. } => assert_eq!(group_id, 0),
        other => panic!("unexpected {:?}", other),
    }
}

#[test]
fn new_group_is_sent_with_typed_ranges() {
    let mut page = HomePage::new();
    page.update(HomeMessage::OpenModalGroup);
    page.update(HomeMessage::FieldUpdated(8, "a;b".to_string()));
    page.update(HomeMessage::FieldUpdated(9, "40;10".to_string()));
    page.update(HomeMessage::FieldUpdated(10, "x;-5".to_string()));
    match page.update(HomeMessage::OkButtonPressed) {
        HomeCommand::CreateGroup { group } => {
            assert_eq!(group.careTips, vec!["a".to_string(), "b".to_string()]);
            assert_eq!((group.sensorRanges[0].max, group.sensorRanges[0].min), (40, 10));
            assert_eq!((group.sensorRanges[1].max, group.sensorRanges[1].min), (0, -5));
            assert_eq!((group.sensorRanges[2].max, group.sensorRanges[2].min), (0, 0));
        },
        other => panic!("unexpected {:?}", other),
    }
}

#[test]
fn group_readings_are_fetched_once_then_kept() {
    let mut page = HomePage::new();
    assert!(matches!(page.update(HomeMessage::Refresh), HomeCommand::FetchOverview));
    page.receive_overview(
        vec![("1".to_string(), "Kräuter".to_string()), ("2".to_string(), "Kakteen".to_string())],
        vec![("7".to_string(), "Basilikum".to_string())],
    );
    assert_eq!(page.group_ids, vec!["1".to_string(), "2".to_string()]);
    match page.update(HomeMessage::SwitchGraph(Sensortypes::Temperatur)) {
        HomeCommand::FetchGroupGraphs { group_ids, sensor, .. } => {
            assert_eq!(group_ids, vec!["1".to_string(), "2".to_string()]);
            assert_eq!(sensor, Sensortypes::Temperatur);
        },
        other => panic!("unexpected {:?}", other),
    }
    let reply = vec![(GraphData { values: vec![20, 21], timestamps: vec!["t1".into(), "t2".into()] }, "2".to_string())];
    assert!(page.group_reply_is_drawable(&reply));
    page.receive_group_graphs(Sensortypes::Temperatur, reply);
    assert_eq!(page.group_names, vec!["Kakteen".to_string()]);
    assert_eq!(page.charts.charts.len(), 1);
    assert_eq!(page.charts.charts[0].name, "Kakteen-Temperatur");
    page.update(HomeMessage::SwitchGraph(Sensortypes::Licht));
    assert!(matches!(page.update(HomeMessage::SwitchGraph(Sensortypes::Temperatur)), HomeCommand::Nothing));
    assert_eq!(page.charts.charts[0].y, vec![20, 21]);
    assert_eq!(page.title(), "Dashboard");
}

#[test]
fn reply_with_unknown_group_cannot_be_drawn() {
    let page = HomePage::new();
    let reply = vec![(GraphData { values: vec![1], timestamps: vec!["t".into()] }, "99".to_string())];
    assert!(!page.group_reply_is_drawable(&reply));
}
