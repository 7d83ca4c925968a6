use tetris::config::Config;
use tetris::record::Record;

#[test]
fn url_joins_address_path_and_key() {
    let config = Config { db_url: "https://db.example".to_string(), api_key: "k3y".to_string() };
    assert_eq!(Record::url(&config), "https://db.example/score.json?auth=k3y");
}

#[test]
fn url_of_empty_config_is_the_path() {
    let config = Config { db_url: String::new(), api_key: String::new() };
    assert_eq!(Record::url(&config), "/score.json?auth=");
}

#[test]
fn url_leaves_the_config_as_it_is() {
    let config = Config { db_url: "a".to_string(), api_key: "b".to_string() };
    let _ = Record::url(&config);
    assert_eq!(config, Config { db_url: "a".to_string(), api_key: "b".to_string() });
}

#[test]
fn records_are_equal_when_their_values_are() {
    assert_eq!(Record { value: 7 }, Record { value: 7 });
    assert_ne!(Record { value: 7 }, Record { value: 8 });
    assert_eq!(Record { value: u16::MAX }.value, 65535);
}
