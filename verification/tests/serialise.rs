//! The text forms that the websocket messages use for these values: each value is
//! written as a JSON string and read back from one.
use vrc_logger::vrc::websocket::content_refresh::action_type::ActionType;
use vrc_logger::vrc::websocket::content_refresh::content_type::Type;
use vrc_logger::vrc::websocket::location::Location;
use vrc_logger::vrc::websocket::notification_v2::category::NotificationV2Category;
use vrc_logger::vrc::websocket::notification_v2::notification_type::NotificationV2Type;
use vrc_logger::vrc::websocket::notification_v2::resonse_icon::NotificationV2ResponseIcon;
use vrc_logger::vrc::websocket::platform::Platform;

#[test]
fn action_type_test_serialise() {
    for (string, expected) in [
        (r#""created""#, ActionType::Created),
        (r#""deleted""#, ActionType::Deleted),
    ] {
        println!("serialising {expected:?}");
        let text: &str = expected.clone().into();
        assert_eq!(serde_json::to_string(text).unwrap(), string.to_string());
        println!("deserialising {string}");
        let read: String = serde_json::from_str(string).unwrap();
        assert_eq!(ActionType::try_from(read.as_str()).unwrap(), expected)
    }
}

#[test]
fn type_test_serialise() {
    for (string, expected) in [
        (r#""gallery""#, Type::Gallery),
        (r#""icon""#, Type::Icon),
        (r#""emoji""#, Type::Emoji),
        (r#""avatar""#, Type::Avatar),
        (r#""world""#, Type::World),
        (r#""ios""#, Type::Other("ios".to_string())),
        (r#""other""#, Type::Other("other".to_string())),
    ] {
        println!("serialising {expected:?}");
        assert_eq!(serde_json::to_string(&String::from(expected.clone())).unwrap(), string.to_string());
        println!("deserialising {string}");
        let read: String = serde_json::from_str(string).unwrap();
        assert_eq!(Type::from(read.as_str()), expected)
    }
}

#[test]
fn location_test_serialise() {
    for (string, expected) in [
        (r#""offline""#, Location::Offline),
        (r#""traveling""#, Location::Traveling),
        (r#""private""#, Location::Private),
        (r#""""#, Location::Null),
        (r#""ios""#, Location::Other("ios".to_string())),
        (r#""other""#, Location::Other("other".to_string())),
    ] {
        println!("serialising {expected:?}");
        assert_eq!(serde_json::to_string(&String::from(expected.clone())).unwrap(), string.to_string());
        println!("deserialising {string}");
        let read: String = serde_json::from_str(string).unwrap();
        assert_eq!(Location::from(read.as_str()), expected)
    }
}

#[test]
fn category_test_serialise() {
    for (string, expected) in [
        (r#""social.group""#, NotificationV2Category::SocialGroup),
        (r#""ios""#, NotificationV2Category::Other("ios".to_string())),
        (r#""other""#, NotificationV2Category::Other("other".to_string())),
    ] {
        println!("serialising {expected:?}");
        assert_eq!(serde_json::to_string(&String::from(expected.clone())).unwrap(), string.to_string());
        println!("deserialising {string}");
        let read: String = serde_json::from_str(string).unwrap();
        assert_eq!(NotificationV2Category::from(read.as_str()), expected)
    }
}

#[test]
fn resonse_icon_test_serialise() {
    for (string, expected) in [
        (r#""check""#, NotificationV2ResponseIcon::Check),
        (r#""bell-slash""#, NotificationV2ResponseIcon::BellSlash),
        (r#""ios""#, NotificationV2ResponseIcon::Other("ios".to_string())),
        (r#""other""#, NotificationV2ResponseIcon::Other("other".to_string())),
    ] {
        println!("serialising {expected:?}");
        assert_eq!(serde_json::to_string(&String::from(expected.clone())).unwrap(), string.to_string());
        println!("deserialising {string}");
        let read: String = serde_json::from_str(string).unwrap();
        assert_eq!(NotificationV2ResponseIcon::from(read.as_str()), expected)
    }
}

#[test]
fn notification_v2_type_test_serialise() {
    for (string, expected) in [
        (r#""group.announcement""#, NotificationV2Type::GroupAnnouncement),
        (r#""ios""#, NotificationV2Type::Other("ios".to_string())),
        (r#""other""#, NotificationV2Type::Other("other".to_string())),
    ] {
        println!("serialising {expected:?}");
        assert_eq!(serde_json::to_string(&String::from(expected.clone())).unwrap(), string.to_string());
        println!("deserialising {string}");
        let read: String = serde_json::from_str(string).unwrap();
        assert_eq!(NotificationV2Type::from(read.as_str()), expected)
    }
}

#[test]
fn platform_test_serialise() {
    for (string, expected) in [
        (r#""standalonewindows""#, Platform::StandaloneWindows),
        (r#""android""#, Platform::Android),
        (r#""web""#, Platform::Web),
        (r#""""#, Platform::Null),
        (r#""ios""#, Platform::Other("ios".to_string())),
        (r#""other""#, Platform::Other("other".to_string())),
    ] {
        println!("serialising {expected:?}");
        assert_eq!(serde_json::to_string(&String::from(expected.clone())).unwrap(), string.to_string());
        println!("deserialising {string}");
        let read: String = serde_json::from_str(string).unwrap();
        assert_eq!(Platform::from(read.as_str()), expected)
    }
}

#[test]
fn action_type_rejects_other_text() {
    assert_eq!(ActionType::try_from("updated"), Err("updated"));
    assert_eq!(ActionType::try_from(""), Err(""));
    assert_eq!(ActionType::try_from("Created"), Err("Created"));
}

#[test]
fn reserved_text_in_other_reads_as_named_variant() {
    // writing `Other("offline")` and reading it back gives `Offline`
    let written = String::from(Location::Other("offline".to_string()));
    assert_eq!(written, "offline");
    assert_eq!(Location::from(written.as_str()), Location::Offline);
    let written = String::from(Platform::Other("web".to_string()));
    assert_eq!(Platform::from(written.as_str()), Platform::Web);
}

#[test]
fn text_round_trip_of_any_text() {
    for text in ["", "offline", "wrld_1234:5678~private", "gallery", "bell-slash", "Ünïcödé"] {
        assert_eq!(String::from(Location::from(text)), text);
        assert_eq!(String::from(Platform::from(text)), text);
        assert_eq!(String::from(Type::from(text)), text);
        assert_eq!(String::from(NotificationV2Category::from(text)), text);
        assert_eq!(String::from(NotificationV2ResponseIcon::from(text)), text);
        assert_eq!(String::from(NotificationV2Type::from(text)), text);
    }
}

#[test]
fn platform_display_forms() {
    let p = Platform::Other("ios".to_string());
    let borrowed: &str = (&p).into();
    assert_eq!(borrowed, "ios");
    assert_eq!(p.to_string(), "ios");
    assert_eq!(Platform::StandaloneWindows.to_string(), "standalonewindows");
    assert_eq!(Platform::Null.to_string(), "");
    assert_eq!(Location::Null.to_text(), "");
    assert_eq!(Location::Other("wrld_x".to_string()).to_text(), "wrld_x");
}
