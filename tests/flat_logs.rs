use rolex::error::LogError;
use rolex::exposure_log::ExposureLog;
use rolex::json::JsonValue;
use rolex::narrative_log::NarrativeLog;

fn document(v: serde_json::Value) -> JsonValue {
    match v {
        serde_json::Value::Null => JsonValue::Null,
        serde_json::Value::Bool(b) => JsonValue::Bool(b),
        serde_json::Value::Number(n) => match n.as_u64() {
            Some(u) => JsonValue::UInt(u),
            None => JsonValue::Number(n.to_string()),
        },
        serde_json::Value::String(s) => JsonValue::Str(s),
        serde_json::Value::Array(items) => JsonValue::Array(items.into_iter().map(document).collect()),
        serde_json::Value::Object(members) => {
            JsonValue::Object(members.into_iter().map(|(k, v)| (k, document(v))).collect())
        }
    }
}

fn parse(json: &str) -> JsonValue {
    document(serde_json::from_str(json).unwrap())
}

fn text(s: &str) -> JsonValue {
    JsonValue::Str(s.to_string())
}

fn texts(items: &[&str]) -> JsonValue {
    JsonValue::Array(items.iter().map(|s| text(s)).collect())
}

fn object(members: Vec<(&str, JsonValue)>) -> JsonValue {
    JsonValue::Object(members.into_iter().map(|(k, v)| (k.to_string(), v)).collect())
}

fn exposure_members() -> Vec<(&'static str, JsonValue)> {
    vec![
        ("id", text("000f68b2-e560-40ce-bdbc-a57b3363e1e9")),
        ("site_id", text("summit")),
        ("obs_id", text("AT_O_20220608_000168")),
        ("instrument", text("LATISS")),
        ("day_obs", JsonValue::UInt(20220608)),
        ("seq_num", JsonValue::UInt(168)),
        ("message_text", text("")),
        ("level", JsonValue::UInt(20)),
        ("tags", JsonValue::Array(vec![])),
        ("urls", JsonValue::Array(vec![])),
        ("user_id", text("slimleashma")),
        ("user_agent", text("notebook:nublado")),
        ("is_human", JsonValue::Bool(true)),
        ("is_valid", JsonValue::Bool(true)),
        ("exposure_flag", text("junk")),
        ("date_added", text("2022-06-08T23:19:38.906593")),
        ("date_invalidated", JsonValue::Null),
        ("parent_id", JsonValue::Null),
    ]
}

fn narrative_members(components: JsonValue, urls: JsonValue) -> Vec<(&'static str, JsonValue)> {
    vec![
        ("id", text("04be0aef-e22a-4742-a5c0-0dab847ec237")),
        ("site_id", text("summit")),
        ("message_text", text("LOVE OLE test from upper panel")),
        ("level", JsonValue::UInt(0)),
        ("tags", texts(&["observatorysoftwaretools", "love"])),
        ("urls", urls),
        ("time_lost", JsonValue::Number("24.01".to_string())),
        ("date_begin", text("2023-02-19T17:17:09.794000")),
        ("user_id", text("admin@love02.cp.lsst.org")),
        ("user_agent", text("LOVE")),
        ("is_human", JsonValue::Bool(true)),
        ("is_valid", JsonValue::Bool(true)),
        ("date_added", text("2023-02-20T17:20:19.169017")),
        ("date_invalidated", JsonValue::Null),
        ("parent_id", JsonValue::Null),
        ("systems", texts(&["ObservatorySoftwareTools"])),
        ("subsystems", texts(&["LOVE"])),
        ("cscs", JsonValue::Array(vec![])),
        ("date_end", text("2023-02-20T17:17:46.794000")),
        ("components", components),
        ("primary_software_components", JsonValue::Null),
        ("primary_hardware_components", JsonValue::Null),
    ]
}

#[test]
fn exposure_log_test_deserialize() {
    let exposure_log_json = r#"{"id":"000f68b2-e560-40ce-bdbc-a57b3363e1e9","site_id":"summit","obs_id":"AT_O_20220608_000168","instrument":"LATISS","day_obs":20220608,"seq_num":168,"message_text":"","level":20,"tags":[],"urls":[],"user_id":"slimleashma","user_agent":"notebook:nublado","is_human":true,"is_valid":true,"exposure_flag":"junk","date_added":"2022-06-08T23:19:38.906593","date_invalidated":null,"parent_id":null}"#;

    let exposure_log = ExposureLog::from_json(&parse(exposure_log_json)).unwrap();

    assert_eq!(exposure_log.id, "000f68b2-e560-40ce-bdbc-a57b3363e1e9");
    assert_eq!(exposure_log.site_id, "summit");
    assert_eq!(exposure_log.obs_id, "AT_O_20220608_000168");
    assert_eq!(exposure_log.instrument, "LATISS");
    assert_eq!(exposure_log.day_obs, 20220608);
    assert_eq!(exposure_log.seq_num, 168);
    assert_eq!(exposure_log.message_text, "");
    assert_eq!(exposure_log.level, 20);
    assert!(exposure_log.tags.is_empty());
    assert!(exposure_log.urls.is_empty());
    assert_eq!(exposure_log.user_id, "slimleashma");
    assert_eq!(exposure_log.user_agent, "notebook:nublado");
    assert_eq!(exposure_log.is_human, true);
    assert_eq!(exposure_log.is_valid, true);
    assert_eq!(exposure_log.exposure_flag, "junk");
    assert_eq!(
        exposure_log.date_added.unwrap(),
        "2022-06-08T23:19:38.906593"
    );
    assert_eq!(exposure_log.date_invalidated, None);
    assert_eq!(exposure_log.parent_id, None);
}

#[test]
fn narrative_log_test_deserialize() {
    let narrative_log_json = r#"{"id":"04be0aef-e22a-4742-a5c0-0dab847ec237","site_id":"summit","message_text":"LOVE OLE test from upper panel","level":0,"tags":["observatorysoftwaretools","love"],"urls":[],"time_lost":24.01,"date_begin":"2023-02-19T17:17:09.794000","user_id":"admin@love02.cp.lsst.org","user_agent":"LOVE","is_human":true,"is_valid":true,"date_added":"2023-02-20T17:20:19.169017","date_invalidated":null,"parent_id":null,"systems":["ObservatorySoftwareTools"],"subsystems":["LOVE"],"cscs":[],"date_end":"2023-02-20T17:17:46.794000","components":null,"primary_software_components":null,"primary_hardware_components":null}"#;

    let narrative_log = NarrativeLog::from_json(&parse(narrative_log_json)).unwrap();

    assert_eq!(narrative_log.id, "04be0aef-e22a-4742-a5c0-0dab847ec237");
    assert_eq!(narrative_log.site_id, "summit");
    assert_eq!(narrative_log.message_text, "LOVE OLE test from upper panel");
    assert_eq!(narrative_log.level, 0);

    assert_eq!(narrative_log.tags.len(), 2);
    let val1 = "observatorysoftwaretools".to_owned();
    let val2 = "love".to_owned();
    assert!(narrative_log.tags.contains(&val1));
    assert!(narrative_log.tags.contains(&val2));
    assert!(narrative_log.urls.is_empty());

    assert_eq!(narrative_log.time_lost.parse::<f32>().unwrap(), 24.01);
    assert_eq!(narrative_log.date_begin, "2023-02-19T17:17:09.794000");
    assert_eq!(narrative_log.user_id, "admin@love02.cp.lsst.org");
    assert_eq!(narrative_log.user_agent, "LOVE");
    assert_eq!(narrative_log.is_human, true);
    assert_eq!(narrative_log.is_valid, true);
    assert_eq!(narrative_log.date_added, "2023-02-20T17:20:19.169017");
    assert_eq!(narrative_log.date_invalidated, None);
    assert_eq!(narrative_log.parent_id, None);
    assert_eq!(narrative_log.date_end, "2023-02-20T17:17:46.794000");
    assert_eq!(narrative_log.components, None);
    assert_eq!(narrative_log.primary_software_components, None);
    assert_eq!(narrative_log.primary_hardware_components, None);
}

#[test]
fn exposure_list_keeps_one_record_per_element_in_order() {
    let mut second = exposure_members();
    second[0] = ("id", text("second"));
    second[5] = ("seq_num", JsonValue::UInt(169));
    let array = JsonValue::Array(vec![object(exposure_members()), object(second)]);
    let logs = ExposureLog::list_from_json(&array).unwrap();
    assert_eq!(logs.len(), 2);
    assert_eq!(logs[0].id, "000f68b2-e560-40ce-bdbc-a57b3363e1e9");
    assert_eq!(logs[0].seq_num, 168);
    assert_eq!(logs[1].id, "second");
    assert_eq!(logs[1].seq_num, 169);
}

#[test]
fn exposure_list_of_nothing_is_empty() {
    let logs = ExposureLog::list_from_json(&JsonValue::Array(vec![])).unwrap();
    assert!(logs.is_empty());
}

#[test]
fn exposure_members_in_another_order_read_the_same() {
    let mut members = exposure_members();
    members.reverse();
    let log = ExposureLog::from_json(&object(members)).unwrap();
    assert_eq!(log.id, "000f68b2-e560-40ce-bdbc-a57b3363e1e9");
    assert_eq!(log.day_obs, 20220608);
    assert_eq!(log.date_added.as_deref(), Some("2022-06-08T23:19:38.906593"));
}

#[test]
fn exposure_missing_optional_members_are_absent() {
    let members: Vec<_> = exposure_members()
        .into_iter()
        .filter(|(k, _)| *k != "parent_id" && *k != "date_added")
        .collect();
    let log = ExposureLog::from_json(&object(members)).unwrap();
    assert_eq!(log.parent_id, None);
    assert_eq!(log.date_added, None);
}

#[test]
fn exposure_missing_required_member_fails_to_parse() {
    let members: Vec<_> = exposure_members().into_iter().filter(|(k, _)| *k != "obs_id").collect();
    assert!(matches!(ExposureLog::from_json(&object(members)), Err(LogError::Parse)));
}

#[test]
fn exposure_wrong_type_fails_to_parse() {
    let mut members = exposure_members();
    members[4] = ("day_obs", text("20220608"));
    assert!(matches!(ExposureLog::from_json(&object(members)), Err(LogError::Parse)));
}

#[test]
fn exposure_list_with_one_bad_element_fails_whole() {
    let mut bad = exposure_members();
    bad[12] = ("is_human", JsonValue::Null);
    let array = JsonValue::Array(vec![object(exposure_members()), object(bad)]);
    assert!(matches!(ExposureLog::list_from_json(&array), Err(LogError::Parse)));
}

#[test]
fn exposure_list_of_non_array_fails_to_parse() {
    assert!(matches!(
        ExposureLog::list_from_json(&object(exposure_members())),
        Err(LogError::Parse)
    ));
}

#[test]
fn exposure_image_url_from_day_obs_and_seq_num() {
    let log = ExposureLog::from_json(&object(exposure_members())).unwrap();
    let images = log.get_attached_images();
    assert_eq!(images.len(), 1);
    assert!(images[0].contains("dayObs_2022-06-08_seqNum_168"));
    assert_eq!(
        images[0],
        "https://storage.googleapis.com/rubintv_data/auxtel_monitor/auxtel-monitor_dayObs_2022-06-08_seqNum_168.png"
    );
}

#[test]
fn exposure_image_url_pads_short_year() {
    let mut members = exposure_members();
    members[4] = ("day_obs", JsonValue::UInt(990105));
    members[5] = ("seq_num", JsonValue::UInt(7));
    let log = ExposureLog::from_json(&object(members)).unwrap();
    assert!(log.get_attached_images()[0].ends_with("dayObs_0099-01-05_seqNum_7.png"));
}

#[test]
fn exposure_label_and_date_accessors() {
    let log = ExposureLog::from_json(&object(exposure_members())).unwrap();
    assert_eq!(log.get_labels_as_str(), "LATISS");
    assert_eq!(log.get_date_added().as_deref(), Some("2022-06-08T23:19:38.906593"));
}

#[test]
fn narrative_attached_images_keep_image_urls_in_order() {
    let urls = texts(&["a.txt", "b.png", "c.jpeg", "d.jpg", "e.jpgx"]);
    let log = NarrativeLog::from_json(&object(narrative_members(JsonValue::Null, urls))).unwrap();
    assert_eq!(log.get_attached_images(), vec!["b.png", "c.jpeg", "d.jpg"]);
}

#[test]
fn narrative_attached_images_scenario() {
    let urls = texts(&["a.txt", "b.png", "c.jpeg"]);
    let log = NarrativeLog::from_json(&object(narrative_members(JsonValue::Null, urls))).unwrap();
    assert_eq!(log.get_attached_images(), vec!["b.png", "c.jpeg"]);
}

#[test]
fn narrative_labels_default_when_components_absent() {
    let log = NarrativeLog::from_json(&object(narrative_members(
        JsonValue::Null,
        JsonValue::Array(vec![]),
    )))
    .unwrap();
    assert_eq!(log.get_labels(), vec!["None"]);
    assert_eq!(log.get_labels_as_str(), "");
    assert_eq!(log.get_date_added(), "2023-02-20T17:20:19.169017");
}

#[test]
fn narrative_labels_from_components() {
    let log = NarrativeLog::from_json(&object(narrative_members(
        texts(&["M1M3", "TMA"]),
        JsonValue::Array(vec![]),
    )))
    .unwrap();
    assert_eq!(log.get_labels(), vec!["M1M3", "TMA"]);
    assert_eq!(log.get_labels_as_str(), "M1M3 TMA ");
}

#[test]
fn narrative_whole_number_time_lost_reads_as_text() {
    let mut members = narrative_members(JsonValue::Null, JsonValue::Array(vec![]));
    members[6] = ("time_lost", JsonValue::UInt(24));
    let log = NarrativeLog::from_json(&object(members)).unwrap();
    assert_eq!(log.time_lost, "24");
}

#[test]
fn narrative_components_of_wrong_type_fail_to_parse() {
    let members = narrative_members(JsonValue::Bool(false), JsonValue::Array(vec![]));
    assert!(matches!(NarrativeLog::from_json(&object(members)), Err(LogError::Parse)));
}

#[test]
fn narrative_list_reads_each_element() {
    let array = JsonValue::Array(vec![
        object(narrative_members(JsonValue::Null, JsonValue::Array(vec![]))),
        object(narrative_members(texts(&["x"]), texts(&["p.png"]))),
    ]);
    let logs = NarrativeLog::list_from_json(&array).unwrap();
    assert_eq!(logs.len(), 2);
    assert_eq!(logs[1].components, Some(vec!["x".to_string()]));
    assert_eq!(logs[1].urls, vec!["p.png".to_string()]);
}
