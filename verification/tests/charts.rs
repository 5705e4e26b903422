use plantbuddy::color::RGBColor;
use plantbuddy::graphs::{can_draw, PlantChart, PlantCharts};
use plantbuddy::requests::GraphData;
use plantbuddy::sensors::Sensortypes;

const RED: RGBColor = RGBColor(255, 0, 0);
const BLUE: RGBColor = RGBColor(0, 0, 255);

#[test]
fn test_plant_chart_new() {
    let chart = PlantChart::new("Test".to_string(), vec![1, 2, 3], vec![4, 5, 6], RED);
    assert_eq!(chart.name, "Test");
    assert_eq!(chart.x, vec![1, 2, 3]);
    assert_eq!(chart.y, vec![4, 5, 6]);
    assert_eq!(chart.get_color(), RED);
}

#[test]
fn test_plant_chart_test() {
    let chart = PlantChart::test();
    assert_eq!(chart.name, "Test");
    assert_eq!(chart.x, vec![0, 0, 0, 0, 0, 0]);
    assert_eq!(chart.y, vec![0, 1, 2, 3, 4, 5]);
    assert_eq!(chart.get_color(), BLUE);
}

#[test]
fn test_plant_charts_new() {
    let message = "Message".to_string();
    let chart1 = PlantChart::new("Test1".to_string(), vec![1, 2, 3], vec![4, 5, 6], RED);
    let chart2 = PlantChart::new("Test2".to_string(), vec![1, 2, 3], vec![4, 5, 6], BLUE);
    let charts = PlantCharts::new(vec![chart1, chart2], message.clone());
    assert_eq!(charts.charts.len(), 2);
    assert_eq!(charts.message, message);
}

#[test]
fn test_plant_charts_test() {
    let message = "Message".to_string();
    let charts = PlantCharts::test(message.clone());
    assert_eq!(charts.charts.len(), 1);
    assert_eq!(charts.message, message);
}

#[test]
fn test_largest_x_y() {
    let chart1 = PlantChart::new("Test1".to_string(), vec![1, 2, 3], vec![4, 5, 6], RED);
    let chart2 = PlantChart::new("Test2".to_string(), vec![7, 8, 9], vec![10, 11, 12], BLUE);
    let charts = PlantCharts::new(vec![chart1, chart2], "Message".to_string());
    assert_eq!(charts.largest_x_y(), (9, 12));
}

#[test]
fn largest_x_y_starts_from_zero_and_pairs_points() {
    let negative = PlantChart::new("n".to_string(), vec![-5, -2], vec![-1, -9], RED);
    let charts = PlantCharts::new(vec![negative], 0u8);
    assert_eq!(charts.largest_x_y(), (0, 0));
    // The 100 has no y partner, so it is no point.
    let uneven = PlantChart::new("u".to_string(), vec![3, 100], vec![7], RED);
    let charts = PlantCharts::new(vec![uneven], 0u8);
    assert_eq!(charts.largest_x_y(), (3, 7));
    let empty: PlantCharts<u8> = PlantCharts::new(vec![], 0);
    assert_eq!(empty.largest_x_y(), (0, 0));
}

#[test]
fn create_charts_names_counts_and_colors() {
    let data = vec![
        GraphData { values: vec![10, 20, 30], timestamps: vec!["a".into(), "b".into(), "c".into()] },
        GraphData { values: vec![5], timestamps: vec!["d".into()] },
    ];
    let names = vec!["Ficus".to_string(), "Kaktus".to_string()];
    assert!(can_draw(&data, &names));
    let charts = PlantCharts::create_charts(1u8, data, Sensortypes::Temperatur, names);
    assert_eq!(charts.charts.len(), 2);
    assert_eq!(charts.charts[0].name, "Ficus-Temperatur");
    assert_eq!(charts.charts[0].x, vec![0, 1, 2]);
    assert_eq!(charts.charts[0].y, vec![10, 20, 30]);
    assert_eq!(charts.charts[1].name, "Kaktus-Temperatur");
    assert_eq!(charts.charts[1].x, vec![0]);
    for chart in &charts.charts {
        assert!(chart.color.0 >= 205);
    }
    assert_eq!(charts.message, 1);
}

#[test]
fn cannot_draw_without_enough_names() {
    let data = vec![GraphData { values: vec![1], timestamps: vec!["t".into()] }];
    assert!(!can_draw(&data, &vec![]));
    assert!(can_draw(&vec![], &vec![]));
}

#[test]
fn default_chart_is_empty_and_blue() {
    let chart = PlantChart::default();
    assert_eq!(chart.name, "");
    assert!(chart.x.is_empty());
    assert!(chart.y.is_empty());
    assert_eq!(chart.get_color(), BLUE);
}
