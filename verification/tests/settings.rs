use toml_settings::{SettingOption, Settings, SettingsError};

fn option(name: &str, value: &str, default_value: Option<&str>) -> SettingOption {
    SettingOption {
        name: name.to_string(),
        value: value.to_string(),
        default_value: default_value.map(|d| d.to_string()),
    }
}

#[test]
fn settings_create() {
    let filename = "Test_1.toml";

    let s = Settings::init(filename).unwrap();
    assert_eq!(s.path(), filename);

    assert_eq!(s.write_comment("testing!"), "# testing!\n");
}

#[test]
fn add_setting() {
    let filename = "Test_2.toml";

    let s = Settings::init(filename).unwrap();

    assert_eq!(s.add_header("test"), "[test]\n");
    assert_eq!(s.add_setting(option("option", "bool", Some("true")), None), "option = true\n");
    assert_eq!(
        s.add_setting(option("option_default", "bool", None), Some(2)),
        "option_default = false\n\n"
    );

    assert_eq!(s.add_setting(option("option_num", "number", Some("5")), None), "option_num = 5\n");
    assert_eq!(
        s.add_setting(option("option_num_default", "number", None), Some(2)),
        "option_num_default = 0\n\n"
    );

    assert_eq!(
        s.add_setting(option("option_string", "string", Some("test")), None),
        "option_string = \"test\"\n"
    );
    assert_eq!(
        s.add_setting(option("option_string_default", "string", None), Some(2)),
        "option_string_default = \"\"\n\n"
    );
}

#[test]
fn add_settings() {
    let filename = "Test_3.toml";

    let s = Settings::init(filename).unwrap();

    let test = [
        option("option_bool", "bool", Some("true")),
        option("option_bool_default", "bool", None),
        option("option_num", "number", Some("5")),
        option("option_num_default", "number", None),
        option("option_string", "string", Some("test")),
        option("option_string_default", "string", None),
    ];

    let texts = s.add_settings(test.to_vec(), None);
    assert_eq!(
        texts,
        vec![
            "option_bool = true\n",
            "option_bool_default = false\n",
            "option_num = 5\n",
            "option_num_default = 0\n",
            "option_string = \"test\"\n",
            "option_string_default = \"\"\n",
        ]
    );
}

#[test]
fn init_refuses_a_path_without_the_token() {
    assert!(matches!(Settings::init("settings.txt"), Err(SettingsError::Validation)));
    assert!(matches!(Settings::init(""), Err(SettingsError::Validation)));
    assert!(matches!(Settings::init("tom"), Err(SettingsError::Validation)));
    assert!(matches!(Settings::init("to.ml"), Err(SettingsError::Validation)));
}

#[test]
fn init_is_case_sensitive() {
    assert!(matches!(Settings::init("Settings.TOML"), Err(SettingsError::Validation)));
    assert!(matches!(Settings::init("Settings.Toml"), Err(SettingsError::Validation)));
}

#[test]
fn init_accepts_the_token_anywhere() {
    assert!(Settings::init("Test.toml").is_ok());
    assert!(Settings::init("toml").is_ok());
    assert!(Settings::init("tomlike/settings.txt").is_ok());
    assert!(Settings::init("dir/atomless").is_ok());
    assert!(Settings::init("ttoml").is_ok());
    assert!(Settings::init("cfg/\u{e9}t\u{e9}.toml.bak").is_ok());
}

#[test]
fn init_keeps_the_path() {
    let s = Settings::init("some dir/My Settings.toml").unwrap();
    assert_eq!(s.path(), "some dir/My Settings.toml");
}

#[test]
fn header_is_written_verbatim() {
    let s = Settings::init("a.toml").unwrap();
    assert_eq!(s.add_header("test"), "[test]\n");
    assert_eq!(s.add_header(""), "[]\n");
    assert_eq!(s.add_header("a]b[c"), "[a]b[c]\n");
    assert_eq!(s.add_header("two words"), "[two words]\n");
}

#[test]
fn comment_is_written_verbatim() {
    let s = Settings::init("a.toml").unwrap();
    assert_eq!(s.write_comment(""), "# \n");
    assert_eq!(s.write_comment("one\ntwo"), "# one\ntwo\n");
    assert_eq!(s.write_comment("# nested"), "# # nested\n");
}

#[test]
fn spaces_in_a_name_become_underscores() {
    let s = Settings::init("a.toml").unwrap();
    assert_eq!(s.add_setting(option("my option", "bool", None), None), "my_option = false\n");
    assert_eq!(
        s.add_setting(option(" a  b ", "number", Some("1")), Some(0)),
        "_a__b_ = 1"
    );
    assert_eq!(
        s.add_setting(option("Tab\there-Kept", "number", None), Some(0)),
        "Tab\there-Kept = 0"
    );
}

#[test]
fn trailing_newlines_follow_spaces() {
    let s = Settings::init("a.toml").unwrap();
    assert_eq!(s.add_setting(option("k", "bool", None), Some(0)), "k = false");
    assert_eq!(s.add_setting(option("k", "bool", None), None), "k = false\n");
    assert_eq!(s.add_setting(option("k", "bool", None), Some(1)), "k = false\n");
    assert_eq!(s.add_setting(option("k", "bool", None), Some(3)), "k = false\n\n\n");
}

#[test]
fn add_settings_keeps_order_and_endings() {
    let s = Settings::init("a.toml").unwrap();
    let texts = s.add_settings(
        vec![
            option("c", "bool", None),
            option("a", "number", Some("7")),
            option("b", "string", Some("x")),
        ],
        None,
    );
    assert_eq!(texts.len(), 3);
    assert_eq!(texts.concat(), "c = false\na = 7\nb = \"x\"\n");

    let none = s.add_settings(Vec::new(), Some(4));
    assert!(none.is_empty());

    let wide = s.add_settings(vec![option("a", "bool", None), option("b", "bool", None)], Some(2));
    assert_eq!(wide, vec!["a = false\n\n", "b = false\n\n"]);
}
