use plantbuddy::requests::{
    basic_authorization, collect_successes, encode_credentials, id_names_from_overview,
    is_null_reply, login_user, user_from_login_reply,
    user_from_reply, PlantGroupMetadata, PlantMetadata, RequestResult, Route, TempCreationUser,
};
use plantbuddy::role::PlantBuddyRole;

#[test]
fn test_encode_credentials() {
    let username = "testuser".to_string();
    let password = "testpassword".to_string();
    let result = encode_credentials(username, password);
    assert_eq!(result, "dGVzdHVzZXI6dGVzdHBhc3N3b3Jk");
}

#[test]
fn authorization_header() {
    assert_eq!(basic_authorization("a".to_string(), "b".to_string()), "Basic YTpi");
    assert_eq!(encode_credentials(String::new(), String::new()), "Og==");
}

#[test]
fn route_urls() {
    assert_eq!(Route::Login.url(), "https://pb.mfloto.com/v1/user/login");
    assert_eq!(Route::Users.url(), "https://pb.mfloto.com/v1/users");
    assert_eq!(Route::NewUser.url(), "https://pb.mfloto.com/v1/user");
    assert_eq!(Route::User(17).url(), "https://pb.mfloto.com/v1/user/17");
    assert_eq!(Route::Plants.url(), "https://pb.mfloto.com/v1/plant");
    assert_eq!(Route::Plant("3".to_string()).url(), "https://pb.mfloto.com/v1/plant/3");
    assert_eq!(Route::PlantGroups.url(), "https://pb.mfloto.com/v1/plant-group");
    assert_eq!(Route::PlantGroup("9".to_string()).url(), "https://pb.mfloto.com/v1/plant-group/9");
    assert_eq!(Route::PlantsOverview.url(), "https://pb.mfloto.com/v1/plants/overview");
    assert_eq!(Route::PlantGroupsOverview.url(), "https://pb.mfloto.com/v1/plant-groups/overview");
    let r = Route::SensorData {
        sensor: "humidity".to_string(),
        id: "4".to_string(),
        from: "2019-01-01T00:00:00.000Z".to_string(),
        to: "2023-05-29T23:00:00.000Z".to_string(),
    };
    assert_eq!(
        r.url(),
        "https://pb.mfloto.com/v1/sensor-data?sensor=humidity&plant=4&from=2019-01-01T00:00:00.000Z&to=2023-05-29T23:00:00.000Z"
    );
}

#[test]
fn null_replies() {
    assert!(is_null_reply("{\"data\":null}", "data"));
    assert!(is_null_reply("{\"plants\":null}", "plants"));
    assert!(!is_null_reply("{\"plants\":[]}", "plants"));
    assert!(!is_null_reply("{\"data\":null}", "plants"));
}

#[test]
fn successes_keep_their_order() {
    let results: Vec<RequestResult<u32>> = vec![Ok(1), Err("x".to_string()), Ok(3), Err("y".to_string())];
    assert_eq!(collect_successes(results), vec![1, 3]);
    let none: Vec<RequestResult<u32>> = vec![Err("z".to_string())];
    assert_eq!(collect_successes(none), Vec::<u32>::new());
}

#[test]
fn login_reply_and_user_reply() {
    assert_eq!(
        login_user("a".to_string(), "b".to_string(), Some(1)),
        Some(TempCreationUser { name: "a".to_string(), password: "b".to_string(), role: 1 })
    );
    assert_eq!(login_user("a".to_string(), "b".to_string(), None), None);
    let u = user_from_reply(5, "eve".to_string(), 0).unwrap();
    assert_eq!((u.id, u.name.as_str(), u.password.as_str(), u.role), (5, "eve", "", PlantBuddyRole::Admin));
    assert!(user_from_reply(5, "eve".to_string(), 3).is_none());
}

#[test]
fn default_plant_and_group() {
    let g = PlantGroupMetadata::default();
    assert_eq!(g.id, 0);
    assert_eq!(g.sensorRanges.len(), 3);
    assert_eq!(g.sensorRanges[0].sensorType.name, "soil-moisture");
    assert_eq!(g.sensorRanges[2].sensorType.unit, "celcius");
    let p = PlantMetadata::default();
    assert_eq!(p.name, "");
    assert_eq!(p.plantGroup, g);
    assert_eq!(p.clone(), p);
}

#[test]
fn login_reply_gives_the_role() {
    let u = user_from_login_reply("ann".to_string(), "pw".to_string(), "{\"role\":1,\"id\":4}");
    assert_eq!(u, Some(TempCreationUser { name: "ann".to_string(), password: "pw".to_string(), role: 1 }));
    assert_eq!(user_from_login_reply("a".to_string(), "b".to_string(), "{\"role\":\"x\"}"), None);
    assert_eq!(user_from_login_reply("a".to_string(), "b".to_string(), "not json"), None);
}

#[test]
fn overview_replies() {
    let reply = "{\"plants\":[{\"id\":3,\"name\":\"Ficus\"},{\"id\":7,\"name\":\"Aloe\"}]}";
    assert_eq!(
        id_names_from_overview(reply, "plants"),
        Some(vec![
            ("3".to_string(), "\"Ficus\"".to_string()),
            ("7".to_string(), "\"Aloe\"".to_string()),
        ])
    );
    assert_eq!(id_names_from_overview("{\"plantGroups\":null}", "plantGroups"), Some(vec![]));
    assert_eq!(id_names_from_overview("{\"plants\":[{\"id\":3}]}", "plants"), None);
    assert_eq!(id_names_from_overview("oops", "plants"), None);
}

#[test]
fn encoded_credentials_have_base64_shape() {
    for (u, p) in [("a", ""), ("ab", "c"), ("jürgen", "pässwort"), ("", "")] {
        let e = encode_credentials(u.to_string(), p.to_string());
        let n = u.len() + 1 + p.len();
        assert_eq!(e.len(), (n + 2) / 3 * 4);
        assert!(e.chars().all(|c| c.is_ascii_alphanumeric() || c == '+' || c == '/' || c == '='));
        let decoded = base64::Engine::decode(&base64::engine::general_purpose::STANDARD, &e).unwrap();
        assert_eq!(decoded, format!("{}:{}", u, p).into_bytes());
    }
    assert_eq!(encode_credentials("M".to_string(), "a".to_string()), "TTph");
}
