use plantbuddy::detail::{
    plant_readings_are_drawable, DetailCommand, DetailMessage, DetailPage, DetailPlant, SensorBorders,
};
use plantbuddy::requests::{GraphData, PlantMetadata};
use plantbuddy::sensors::Sensortypes;

#[test]
fn test_detail_page_insert_newline_to_string() {
    let detail_page = DetailPage::new();
    let string = "Lorem ipsum dolor sit amet, consectetur adipiscing elit.";
    let expected = "Lorem ipsum dolor sit amet, \nconsectetur adipiscing elit. ";
    assert_eq!(detail_page.insert_newline_to_string(string.to_string()), expected);
}

#[test]
fn test_detail_page_new() {
    let detail_page = DetailPage::new();
    assert_eq!(detail_page.active_sensor, Sensortypes::Feuchtigkeit);
    assert_eq!(detail_page.id_names, vec![]);
    assert_eq!(detail_page.modal, false);
    assert_eq!(detail_page.modal_is_plant, true);
    assert_eq!(detail_page.careTips, String::new());
    assert_eq!(detail_page.sensor_border, SensorBorders::new());
    assert_eq!(detail_page.additionalCareTips, String::new());
    assert_eq!(detail_page.message, DetailMessage::Pending);
}

fn sample_plant() -> PlantMetadata {
    let mut p = PlantMetadata::default();
    p.name = "Ficus".to_string();
    p.additionalCareTips = vec!["water".to_string(), "shade".to_string()];
    p.plantGroup.careTips = vec!["warm".to_string()];
    p.plantGroup.id = 4;
    p.plantGroup.sensorRanges[0].max = 60;
    p.plantGroup.sensorRanges[0].min = 20;
    p.plantGroup.sensorRanges[2].max = 30;
    p.plantGroup.sensorRanges[2].min = -5;
    p
}

#[test]
fn plant_data_flow() {
    let mut page = DetailPage::new();
    assert!(matches!(page.update(DetailMessage::Load), DetailCommand::FetchPlantList));
    page.receive_plant_list(vec![("4".to_string(), "Ficus".to_string())]);
    assert_eq!(page.id_names.len(), 1);
    match page.update(DetailMessage::PlantData("4".to_string())) {
        DetailCommand::FetchPlant { plant_id, sensor, .. } => {
            assert_eq!(plant_id, "4");
            assert_eq!(sensor, Sensortypes::Feuchtigkeit);
        },
        other => panic!("unexpected {:?}", other),
    }
    let graphs = vec![GraphData { values: vec![30, 35, 40], timestamps: vec!["a".into(), "b".into(), "c".into()] }];
    page.receive_plant("4".to_string(), graphs, sample_plant());
    assert_eq!(page.plant.id, "4");
    assert_eq!(page.additionalCareTips, "water;shade;");
    assert_eq!(page.careTips, "warm;");
    assert_eq!(page.sensor_border.get(Sensortypes::Feuchtigkeit), Some("60;20".to_string()));
    assert_eq!(page.sensor_border.get(Sensortypes::Luftfeuchtigkeit), Some("0;0".to_string()));
    assert_eq!(page.sensor_border.get(Sensortypes::Temperatur), Some("30;-5".to_string()));
    assert_eq!(page.sensor_border.get(Sensortypes::Licht), Some("0;0".to_string()));
    assert_eq!(page.plant.charts.charts.len(), 3);
    assert_eq!(page.plant.charts.charts[0].name, "Ficus-Feuchtigkeit");
    assert_eq!(page.plant.charts.charts[1].name, "\"Ficus\"_Max_Grenze");
    assert_eq!(page.plant.charts.charts[1].y, vec![60, 60, 60]);
    assert_eq!(page.plant.charts.charts[2].name, "\"Ficus\"_Min_Grenze");
    assert_eq!(page.plant.charts.charts[2].x, vec![0, 1, 2]);
    assert_eq!(page.message, DetailMessage::Loaded);
    assert_eq!(page.title(), "Detailübersicht");
}

#[test]
fn editing_and_saving() {
    let mut page = DetailPage::new();
    page.receive_plant("4".to_string(), vec![], sample_plant());
    page.update(DetailMessage::OpenModalPlant);
    page.update(DetailMessage::FieldUpdated(5, "a;b".to_string()));
    match page.update(DetailMessage::OkButtonPressed) {
        DetailCommand::SavePlant { plant, group_id, plant_id } => {
            assert_eq!(plant.additionalCareTips, vec!["a".to_string(), "b".to_string()]);
            assert_eq!(group_id, 4);
            assert_eq!(plant_id, "4");
        },
        other => panic!("unexpected {:?}", other),
    }
    page.update(DetailMessage::OpenModalGroup);
    page.update(DetailMessage::FieldUpdated(10, "80;40".to_string()));
    match page.update(DetailMessage::OkButtonPressed) {
        DetailCommand::SaveGroup { group, group_id } => {
            assert_eq!(group_id, "4");
            assert_eq!((group.sensorRanges[0].max, group.sensorRanges[0].min), (60, 20));
            assert_eq!((group.sensorRanges[1].max, group.sensorRanges[1].min), (80, 40));
            assert_eq!((group.sensorRanges[2].max, group.sensorRanges[2].min), (30, -5));
            assert_eq!(group.careTips, vec!["warm".to_string(), "".to_string()]);
        },
        other => panic!("unexpected {:?}", other),
    }
    assert!(!page.modal);
    page.update(DetailMessage::FieldUpdated(4, "abc".to_string()));
    assert_eq!(page.plant.data.plantGroup.id, 1);
}

#[test]
fn switching_and_deleting() {
    let mut page = DetailPage::new();
    page.update(DetailMessage::Search("8".to_string()));
    match page.update(DetailMessage::SwitchGraph(Sensortypes::Licht)) {
        DetailCommand::FetchGraph { plant_id, sensor, .. } => {
            assert_eq!(plant_id, "8");
            assert_eq!(sensor, Sensortypes::Licht);
        },
        other => panic!("unexpected {:?}", other),
    }
    assert_eq!(page.active_sensor, Sensortypes::Licht);
    match page.update(DetailMessage::SwitchTime(chrono::TimeDelta::hours(6))) {
        DetailCommand::FetchGraph { sensor, timerange, .. } => {
            assert_eq!(sensor, Sensortypes::Licht);
            assert_eq!(timerange, page.timerange);
        },
        other => panic!("unexpected {:?}", other),
    }
    assert_eq!(page.message, DetailMessage::Pending);
    page.receive_graph(Sensortypes::Licht, vec![]);
    assert!(page.plant.charts.charts.is_empty());
    assert_eq!(page.message, DetailMessage::Loaded);
    match page.update(DetailMessage::Delete) {
        DetailCommand::DeletePlant { plant_id } => assert_eq!(plant_id, "8"),
        other => panic!("unexpected {:?}", other),
    }
    page.modal = true;
    page.update(DetailMessage::DeleteSuccess);
    assert!(!page.modal);
    assert_eq!(page.message, DetailMessage::Pending);
}

#[test]
fn detail_plant_new_draws_soil_moisture() {
    let graphs = vec![GraphData { values: vec![1, 2], timestamps: vec!["a".into(), "b".into()] }];
    let plant = DetailPlant::new("1".to_string(), graphs, sample_plant());
    assert_eq!(plant.charts.charts.len(), 1);
    assert_eq!(plant.charts.charts[0].name, "Ficus-Feuchtigkeit");
    assert_eq!(plant.charts.message, DetailMessage::Loaded);
}

#[test]
fn group_ranges_need_inputs() {
    let mut page = DetailPage::new();
    assert!(!page.ranges_have_inputs());
    page.update(DetailMessage::FieldUpdated(9, "1;0".to_string()));
    page.update(DetailMessage::FieldUpdated(10, "2;0".to_string()));
    assert!(!page.ranges_have_inputs());
    page.update(DetailMessage::FieldUpdated(11, "3;0".to_string()));
    assert!(page.ranges_have_inputs());
    let mut loaded = DetailPage::new();
    loaded.receive_plant("4".to_string(), vec![], sample_plant());
    assert!(loaded.ranges_have_inputs());
}

#[test]
fn range_lines_are_named_after_the_debug_form_of_the_plant() {
    let mut plant = sample_plant();
    plant.name = "Ficus \"B\"".to_string();
    let graphs = vec![GraphData { values: vec![1, 2], timestamps: vec!["a".into(), "b".into()] }];
    let mut page = DetailPage::new();
    page.receive_plant("4".to_string(), graphs, plant);
    let lines = page.min_max_graphs(Sensortypes::Feuchtigkeit);
    assert_eq!(lines.len(), 2);
    assert_eq!(lines[0].name, "\"Ficus \\\"B\\\"\"_Max_Grenze");
    assert_eq!(lines[1].name, "\"Ficus \\\"B\\\"\"_Min_Grenze");
    assert_eq!(lines[0].y, vec![60, 60]);
    assert_eq!(lines[1].y, vec![20, 20]);
}

#[test]
fn readings_of_one_plant_are_drawable() {
    let one = GraphData { values: vec![1], timestamps: vec!["a".into()] };
    assert!(plant_readings_are_drawable(&vec![]));
    assert!(plant_readings_are_drawable(&vec![one.clone()]));
    assert!(!plant_readings_are_drawable(&vec![one.clone(), one]));
}

#[test]
fn a_time_switch_takes_over_the_computed_range() {
    let mut page = DetailPage::new();
    page.update(DetailMessage::Search("8".to_string()));
    page.message = DetailMessage::Loaded;
    let range = ("2024-01-01T00:00:00.000Z".to_string(), "2024-01-02T00:00:00.000Z".to_string());
    match page.switch_time_to(Some(range.clone())) {
        DetailCommand::FetchGraph { plant_id, sensor, timerange } => {
            assert_eq!(plant_id, "8");
            assert_eq!(sensor, Sensortypes::Feuchtigkeit);
            assert_eq!(timerange, range);
        },
        other => panic!("unexpected {:?}", other),
    }
    assert_eq!(page.timerange, range);
    assert_eq!(page.message, DetailMessage::Pending);
    page.switch_time_to(None);
    assert_eq!(page.timerange, range);
}
