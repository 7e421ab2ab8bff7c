use vrc_logger::relay::{
    bio_links_text, bio_text, decide_invite, friend_location_lines, friend_online_lines, get_url,
    image_description, invite_failed_text, invite_sent_text, invite_targets, is_owner, labelled,
    platform_line, refusal_text, select_account, status_line, title, undecodable_data_line,
    undecodable_error_line, undecodable_title, unreadable_button_text, user_title, InviteAccount,
    InviteDecision, UserPlaces, notice_for, find_tracked, Delivery, Incoming, Profile, RelayEvent,
    TrackedUser,
};
use std::collections::HashSet;
use vrc_logger::text::{
    decimal_text, first_index_of, last_index_before, signed_decimal_text, split_once_at,
    str_equals, two_digit_text,
};
use vrc_logger::vrc::auth::{ApiKey, Auth, BasicAuth};
use vrc_logger::vrc::session::{CurrentUserReply, Session, SessionRefusal};
use vrc_logger::vrc::websocket::connection::{
    frame_disposition, should_reopen, websocket_path_and_query, FrameDisposition, Reconnect,
    WsAction, WsEvent,
};
use vrc_logger::vrc::websocket::location::Location;
use vrc_logger::vrc::websocket::platform::Platform;
use vrc_logger::vrc::{TwoFaCheck, TwoFaMethod};

#[test]
fn text_helpers() {
    assert!(str_equals("abc", "abc"));
    assert!(!str_equals("abc", "abd"));
    assert!(!str_equals("ab", "abc"));
    assert!(str_equals("", ""));
    assert_eq!(first_index_of("a:b:c", ':'), Some(1));
    assert_eq!(first_index_of("abc", ':'), None);
    assert_eq!(last_index_before("a-b-c", '-', 5), Some(3));
    assert_eq!(last_index_before("a-b-c", '-', 3), Some(1));
    assert_eq!(last_index_before("a-b-c", '-', 1), None);
    assert_eq!(split_once_at("wrld:123~x:y", ':'), Some(("wrld".to_string(), "123~x:y".to_string())));
    assert_eq!(split_once_at("nocolon", ':'), None);
    assert_eq!(split_once_at(":", ':'), Some((String::new(), String::new())));
    assert_eq!(decimal_text(0), "0");
    assert_eq!(decimal_text(4294967295), "4294967295");
    assert_eq!(two_digit_text(3), "03");
    assert_eq!(two_digit_text(42), "42");
    assert_eq!(two_digit_text(123), "123");
    assert_eq!(signed_decimal_text(-7), "-7");
    assert_eq!(signed_decimal_text(2024), "2024");
}

#[test]
fn two_fa_method_names_and_checks() {
    assert_eq!(TwoFaMethod::default(), TwoFaMethod::Email);
    assert_eq!(TwoFaMethod::Email.to_string(), "Email");
    assert_eq!(TwoFaMethod::OTP.to_string(), "OTP");
    assert_eq!(TwoFaMethod::TOTP.to_string(), "Recovery Code");
    assert_eq!(TwoFaMethod::Email.check(), TwoFaCheck::EmailCode);
    assert_eq!(TwoFaMethod::OTP.check(), TwoFaCheck::AuthenticatorCode);
    assert_eq!(TwoFaMethod::TOTP.check(), TwoFaCheck::RecoveryCode);
}

#[test]
fn auth_defaults_and_conversions() {
    let basic = BasicAuth::default();
    assert_eq!(basic.username, "");
    assert_eq!(basic.password, None);
    let key = ApiKey::default();
    assert_eq!(key.prefix, None);
    assert_eq!(key.key, "");
    let auth = Auth::default();
    assert!(auth.basic_auth.is_none() && auth.api_key.is_none());
    assert!(auth.oauth_access_token.is_none() && auth.bearer_access_token.is_none());
    let pair = ("me".to_string(), Some("secret".to_string()));
    let basic = BasicAuth::from(pair.clone());
    assert_eq!(basic.username, "me");
    assert_eq!(basic.to_pair(), pair);
}

#[test]
fn request_auth_copies_all_credentials() {
    let auth = Auth {
        basic_auth: Some(BasicAuth { username: "u".to_string(), password: None }),
        oauth_access_token: Some("o".to_string()),
        bearer_access_token: None,
        api_key: Some(ApiKey { prefix: Some("p".to_string()), key: "k".to_string() }),
    };
    let r = auth.request_auth();
    assert_eq!(r.basic_auth, Some(("u".to_string(), None)));
    assert_eq!(r.oauth_access_token, Some("o".to_string()));
    assert_eq!(r.bearer_access_token, None);
    assert_eq!(r.api_key, Some((Some("p".to_string()), "k".to_string())));
}

fn pair(name: &str) -> (String, Option<String>) {
    (name.to_string(), Some("pw".to_string()))
}

#[test]
fn session_login_and_logout() {
    let mut s: Session<u32> = Session::new(Auth::default());
    assert_eq!(s.set_auth(pair("first")), Ok(()));
    assert_eq!(s.auth.basic_auth.as_ref().unwrap().username, "first");
    let request = s.login_request(false).unwrap();
    assert_eq!(request.basic_auth, Some(pair("first")));
    let request = s.login_request(true).unwrap();
    assert_eq!(request.basic_auth, None);
    assert!(!s.finish_login(CurrentUserReply::RequiresTwoFactorAuth));
    assert_eq!(s.logged_in, None);
    assert!(s.finish_login(CurrentUserReply::CurrentUser(7)));
    assert_eq!(s.logged_in, Some(7));
    // while logged in, the basic auth cannot change and no second login starts
    assert_eq!(s.set_auth(pair("second")), Err(()));
    assert_eq!(s.auth.basic_auth.as_ref().unwrap().username, "first");
    assert_eq!(s.login_request(false).err(), Some(SessionRefusal::AlreadyLoggedIn));
    assert!(s.logout_request().is_ok());
    s.finish_logout();
    assert_eq!(s.logged_in, None);
    assert!(s.auth.basic_auth.is_none());
    assert_eq!(s.logout_request().err(), Some(SessionRefusal::NotLoggedIn));
    assert_eq!(s.set_auth(pair("second")), Ok(()));
}

#[test]
fn session_check_of_stored_login() {
    let mut s: Session<u32> = Session::new(Auth::default());
    s.set_auth(pair("x")).unwrap();
    assert_eq!(s.check_request().basic_auth, None);
    assert!(s.finish_check(CurrentUserReply::CurrentUser(1)));
    assert_eq!(s.logged_in, Some(1));
    assert!(!s.finish_check(CurrentUserReply::RequiresTwoFactorAuth));
    assert_eq!(s.logged_in, None);
    assert!(s.finish_check(CurrentUserReply::CurrentUser(2)));
    assert_eq!(s.logged_in, Some(2));
    assert!(!s.finish_check(CurrentUserReply::Failed));
    assert_eq!(s.logged_in, None);
}

#[test]
fn reconnect_gives_up_after_eleven_failures() {
    let mut r = Reconnect::new();
    assert!(r.waits_for_message() && !r.waits_for_reconnect() && !r.waits_for_timeout());
    assert!(matches!(r.step::<u8>(WsEvent::Received(5)), WsAction::Deliver(5)));
    assert!(matches!(r.step::<u8>(WsEvent::StreamEnded), WsAction::Continue));
    assert!(r.waits_for_reconnect() && !r.waits_for_message());
    for n in 1..=10u32 {
        assert!(matches!(r.step::<u8>(WsEvent::ReconnectFailed), WsAction::Continue));
        assert_eq!(r.failed_reconnect_count, n);
        assert!(r.waits_for_timeout());
        assert!(matches!(r.step::<u8>(WsEvent::TimeoutElapsed), WsAction::Continue));
        assert!(!r.waits_for_timeout());
    }
    assert!(matches!(r.step::<u8>(WsEvent::ReconnectFailed), WsAction::Stop));
}

#[test]
fn reconnect_recovers_and_stops_on_request() {
    let mut r = Reconnect::new();
    r.step::<u8>(WsEvent::StreamEnded);
    r.step::<u8>(WsEvent::ReconnectFailed);
    assert!(matches!(r.step::<u8>(WsEvent::Reconnected), WsAction::Continue));
    assert!(r.waits_for_message());
    assert_eq!(r.failed_reconnect_count, 1);
    assert!(matches!(r.step::<u8>(WsEvent::TerminationRequested), WsAction::Stop));
}

#[test]
fn frames_and_reopening() {
    assert_eq!(frame_disposition(true, 10), FrameDisposition::End);
    assert_eq!(frame_disposition(false, 0), FrameDisposition::KeepAlive);
    assert_eq!(frame_disposition(false, 3), FrameDisposition::Decode);
    assert!(should_reopen(true, true));
    assert!(!should_reopen(true, false));
    assert!(!should_reopen(false, true));
    assert_eq!(websocket_path_and_query("tok"), "/?authToken=tok");
}

#[test]
fn invite_targets_from_locations() {
    let locs = [
        Location::Other("wrld_a:123~private".to_string()),
        Location::Traveling,
        Location::Other("nocolon".to_string()),
    ];
    let olocs = [None, Some(Location::Other("wrld_b:9".to_string())), Some(Location::Offline)];
    assert_eq!(
        invite_targets(&locs, &olocs),
        vec![
            ("wrld_a".to_string(), "123~private".to_string()),
            ("wrld_b".to_string(), "9".to_string()),
        ]
    );
    assert!(invite_targets(&[], &[]).is_empty());
}

#[test]
fn user_places() {
    let places = UserPlaces {
        location: Some("wrld_a:1".to_string()),
        world_id: Some("wrld_a".to_string()),
        instance_id: None,
        traveling_to_world: None,
        traveling_to_location: Some("offline".to_string()),
        traveling_to_instance: Some("2".to_string()),
    };
    assert_eq!(
        places.lines(),
        vec![
            "Location: wrld_a:1".to_string(),
            "World Id: wrld_a".to_string(),
            "Traveling to Location: offline".to_string(),
            "Traveling to Instance: 2".to_string(),
        ]
    );
    assert_eq!(places.invite_targets(), vec![("wrld_a".to_string(), "1".to_string())]);
}

#[test]
fn notification_texts() {
    assert_eq!(labelled("World Id", "w"), "World Id: w");
    assert_eq!(user_title("FriendAdd", "bob", "Bobby"), "# FriendAdd - bob - Bobby");
    assert_eq!(title("FriendDelete", "bob"), "# FriendDelete - bob");
    assert_eq!(status_line("online", "active", "hi"), "State: online, Status: active, Description: hi");
    assert_eq!(bio_text("me"), "Bio:\n me");
    assert_eq!(image_description("Bobby"), "Profile Image of - Bobby");
    assert_eq!(bio_links_text(&["a".to_string(), "b".to_string()]), "Bio Links: \n 1. a\n 1. b");
    assert_eq!(bio_links_text(&[]), "Bio Links: ");
    assert_eq!(
        friend_online_lines(&Platform::Android, &Location::Private, true),
        vec!["Platform: android", "Location: private", "Can Request Invite: true"]
    );
    assert_eq!(
        friend_location_lines(&Location::Traveling, &Location::Other("w:1".to_string()), "w", false),
        vec!["Location: traveling", "Traveling to Location: w:1", "World Id: w", "Can Request Invite: false"]
    );
    assert_eq!(platform_line(&Platform::Web), "Platform: web");
    assert_eq!(undecodable_title(), "# Failed to Deserialize Websocket Message");
    assert_eq!(undecodable_error_line("bad"), "Error: `bad`");
    assert_eq!(undecodable_data_line("{}"), "Data: ```\n{}\n```");
}

#[test]
fn profile_image_choice() {
    assert_eq!(get_url(Some("icon"), "pic", "avatar"), "icon");
    assert_eq!(get_url(None, "pic", "avatar"), "pic");
    assert_eq!(get_url(None, "", "avatar"), "avatar");
}

fn account(id: &str, owners: &[u64]) -> InviteAccount {
    InviteAccount { vrc_user_id: id.to_string(), account_owners: owners.iter().copied().collect() }
}

#[test]
fn invite_decisions() {
    let accounts = [account("usr_a", &[1]), account("usr_b", &[2, 3]), account("usr_b", &[4])];
    assert_eq!(select_account(&accounts, 2, "usr_b"), Some(2));
    assert_eq!(select_account(&accounts, 0, "usr_b"), Some(1));
    assert_eq!(select_account(&accounts, 9, "usr_b"), Some(1));
    assert_eq!(select_account(&accounts, 0, "usr_c"), None);
    assert!(is_owner(&HashSet::from([2, 3]), 3));
    assert!(!is_owner(&HashSet::new(), 3));
    assert_eq!(decide_invite(&accounts, 1, "usr_b", 3), InviteDecision::Invite(1));
    assert_eq!(decide_invite(&accounts, 2, "usr_b", 3), InviteDecision::NotOwner);
    assert_eq!(decide_invite(&accounts, 0, "usr_c", 1), InviteDecision::NoAccount);
    assert_eq!(refusal_text(InviteDecision::NoAccount), "Did not find vrchat account to invite");
    assert!(refusal_text(InviteDecision::NotOwner).starts_with("You are NOT listed"));
    assert_eq!(invite_sent_text(), "Sent invite");
    assert_eq!(invite_failed_text("boom"), "Failed to send invite: boom");
    assert_eq!(unreadable_button_text("eof"), "Error deserializing id of Button: eof");
}

fn no_places() -> UserPlaces {
    UserPlaces {
        location: None,
        world_id: None,
        instance_id: None,
        traveling_to_world: None,
        traveling_to_location: None,
        traveling_to_instance: None,
    }
}

fn profile(name: &str, places: UserPlaces) -> Profile {
    Profile {
        display_name: name.to_string(),
        state: "online".to_string(),
        status: "active".to_string(),
        status_description: "hi".to_string(),
        bio: "me".to_string(),
        bio_links: vec!["l".to_string()],
        icon_url: None,
        profile_pic_override_thumbnail: "".to_string(),
        current_avatar_thumbnail_image_url: "avatar".to_string(),
        places,
    }
}

fn followed() -> Vec<TrackedUser> {
    vec![
        TrackedUser { vrc_user_id: "usr_a".to_string(), backup_name: "alice".to_string(), forward_ids: HashSet::from([7]) },
        TrackedUser { vrc_user_id: "usr_b".to_string(), backup_name: "bob".to_string(), forward_ids: HashSet::from([8, 9]) },
    ]
}

#[test]
fn tracked_user_lookup() {
    let f = followed();
    assert_eq!(find_tracked(&f, "usr_b"), Some(1));
    assert_eq!(find_tracked(&f, "usr_a"), Some(0));
    assert_eq!(find_tracked(&f, "usr_c"), None);
    assert_eq!(find_tracked(&[], "usr_a"), None);
}

#[test]
fn notice_for_friend_online() {
    let f = followed();
    let incoming = Incoming::Event(RelayEvent::FriendOnline {
        user_id: "usr_b".to_string(),
        profile: profile("Bobby", no_places()),
        platform: Platform::Android,
        location: Location::Other("wrld_x:42".to_string()),
        can_request_invite: true,
    });
    let n = notice_for(&f, &incoming).unwrap();
    assert_eq!(n.delivery, Delivery::Forwards(1));
    assert_eq!(
        n.lines,
        vec![
            "# FriendOnline - bob - Bobby",
            "State: online, Status: active, Description: hi",
            "Bio:\n me",
            "Bio Links: \n 1. l",
            "Platform: android",
            "Location: wrld_x:42",
            "Can Request Invite: true",
        ]
    );
    assert_eq!(n.image, Some(("avatar".to_string(), "Profile Image of - Bobby".to_string())));
    assert_eq!(n.invite_row, Some(vec![("wrld_x".to_string(), "42".to_string())]));
}

#[test]
fn notice_for_friend_without_profile() {
    let f = followed();
    let n = notice_for(&f, &Incoming::Event(RelayEvent::FriendOffline {
        user_id: "usr_a".to_string(),
        platform: Platform::Web,
    }))
    .unwrap();
    assert_eq!(n.delivery, Delivery::Forwards(0));
    assert_eq!(n.lines, vec!["# FriendOffline - alice", "Platform: web"]);
    assert_eq!(n.image, None);
    assert_eq!(n.invite_row, None);
    let d = notice_for(&f, &Incoming::Event(RelayEvent::FriendDelete { user_id: "usr_b".to_string() })).unwrap();
    assert_eq!(d.delivery, Delivery::Forwards(1));
    assert_eq!(d.lines, vec!["# FriendDelete - bob"]);
}

#[test]
fn notice_for_friend_update_and_location() {
    let f = followed();
    let places = UserPlaces { location: Some("wrld_p:1".to_string()), ..no_places() };
    let n = notice_for(&f, &Incoming::Event(RelayEvent::FriendUpdate {
        user_id: "usr_a".to_string(),
        profile: profile("Al", places),
    }))
    .unwrap();
    assert_eq!(n.lines.last().unwrap(), "Location: wrld_p:1");
    assert_eq!(n.invite_row, Some(vec![("wrld_p".to_string(), "1".to_string())]));
    let bare = notice_for(&f, &Incoming::Event(RelayEvent::FriendUpdate {
        user_id: "usr_a".to_string(),
        profile: profile("Al", no_places()),
    }))
    .unwrap();
    assert_eq!(bare.lines.len(), 4);
    assert_eq!(bare.invite_row, None);
    let moved = notice_for(&f, &Incoming::Event(RelayEvent::FriendLocation {
        user_id: "usr_b".to_string(),
        profile: profile("Bobby", no_places()),
        location: Location::Traveling,
        traveling_to_location: Location::Other("wrld_t:5".to_string()),
        world_id: "wrld_t".to_string(),
        can_request_invite: false,
    }))
    .unwrap();
    assert_eq!(moved.lines[4..], ["Location: traveling", "Traveling to Location: wrld_t:5", "World Id: wrld_t", "Can Request Invite: false"]);
    assert_eq!(moved.invite_row, Some(vec![("wrld_t".to_string(), "5".to_string())]));
}

#[test]
fn notice_routing() {
    let f = followed();
    assert!(notice_for(&f, &Incoming::Event(RelayEvent::FriendDelete { user_id: "usr_z".to_string() })).is_none());
    assert!(notice_for(&f, &Incoming::Event(RelayEvent::Unnotified)).is_none());
    assert!(notice_for(&f, &Incoming::Failed).is_none());
    let n = notice_for(&f, &Incoming::Undecodable { error: "bad".to_string(), data: "{}".to_string() }).unwrap();
    assert_eq!(n.delivery, Delivery::Owner);
    assert_eq!(n.lines, vec!["# Failed to Deserialize Websocket Message", "Error: `bad`", "Data: ```\n{}\n```"]);
    assert_eq!(n.image, None);
    assert_eq!(n.invite_row, None);
}

#[test]
fn reconnect_run_delivers_in_order_and_stops() {
    let mut r = Reconnect::new();
    let events = [
        WsEvent::Received(1u8),
        WsEvent::StreamEnded,
        WsEvent::ReconnectFailed,
        WsEvent::TimeoutElapsed,
        WsEvent::Reconnected,
        WsEvent::Received(2),
        WsEvent::TerminationRequested,
        WsEvent::Received(3),
    ];
    let mut delivered = vec![];
    let mut stopped = false;
    for e in events {
        match r.step(e) {
            WsAction::Deliver(m) => delivered.push(m),
            WsAction::Stop => {
                stopped = true;
                break;
            }
            _ => {}
        }
    }
    assert_eq!(delivered, vec![1, 2]);
    assert!(stopped);
}

#[test]
fn clone_of_location() {
    let l = Location::Other("wrld_c:3".to_string());
    assert_eq!(l.clone_location(), l);
    assert_eq!(Location::Private.clone_location(), Location::Private);
}
