use rich_presence::ActivityType;
use rich_presence::RichPresenceAssets;
use rich_presence::RichPresenceButton;
use rich_presence::RichPresenceConfig;
use rich_presence::RichPresenceParty;
use rich_presence::RichPresenceSecrets;
use rich_presence::RichPresenceTimestamps;
use rich_presence::build_payload;

fn empty_config(kind: ActivityType) -> RichPresenceConfig {
    RichPresenceConfig {
        application_id: None,
        activity_type: kind,
        details: None,
        state: None,
        assets: None,
        timestamps: None,
        buttons: None,
        party: None,
        secrets: None,
    }
}

#[test]
fn minimal_config_gives_kind_only_payload() {
    let p = build_payload(&empty_config(ActivityType::Competing));
    assert!(matches!(p.kind, ActivityType::Competing));
    assert!(p.details.is_none());
    assert!(p.state.is_none());
    assert!(p.assets.is_none());
    assert!(p.timestamps.is_none());
    assert!(p.buttons.is_none());
    assert!(p.party.is_none());
    assert!(p.secrets.is_none());
}

#[test]
fn each_activity_kind_is_forwarded() {
    let kinds = vec![
        ActivityType::Playing,
        ActivityType::Listening,
        ActivityType::Watching,
        ActivityType::Competing,
    ];
    for kind in kinds {
        let p = build_payload(&empty_config(kind));
        assert_eq!(p.kind, kind);
    }
}

#[test]
fn scenario_playing_with_details_only() {
    let mut config = empty_config(ActivityType::Playing);
    config.details = Some(String::from("Exploring"));
    let p = build_payload(&config);
    assert!(matches!(p.kind, ActivityType::Playing));
    assert_eq!(p.details.as_deref(), Some("Exploring"));
    assert!(p.state.is_none());
    assert!(p.assets.is_none());
    assert!(p.timestamps.is_none());
    assert!(p.buttons.is_none());
    assert!(p.party.is_none());
    assert!(p.secrets.is_none());
}

#[test]
fn present_fields_are_forwarded_exactly() {
    let config = RichPresenceConfig {
        application_id: Some(String::from("app-123")),
        activity_type: ActivityType::Listening,
        details: Some(String::from("details text")),
        state: Some(String::from("state text")),
        assets: Some(RichPresenceAssets {
            large_image: Some(String::from("big")),
            large_text: Some(String::from("big alt")),
            small_image: Some(String::from("small")),
            small_text: Some(String::from("small alt")),
        }),
        timestamps: Some(RichPresenceTimestamps { start: Some(100), end: Some(200) }),
        buttons: Some(vec![
            RichPresenceButton { label: String::from("first"), url: String::from("https://a") },
            RichPresenceButton { label: String::from("second"), url: String::from("https://b") },
        ]),
        party: Some(RichPresenceParty { id: Some(String::from("party-1")), size: Some([1, 4]) }),
        secrets: Some(RichPresenceSecrets {
            join: Some(String::from("join-token")),
            spectate: Some(String::from("spectate-token")),
            match_field: Some(String::from("match-token")),
        }),
    };
    let p = build_payload(&config);
    assert_eq!(p.details.as_deref(), Some("details text"));
    assert_eq!(p.state.as_deref(), Some("state text"));
    let assets = p.assets.expect("assets forwarded");
    assert_eq!(assets.large_image.as_deref(), Some("big"));
    assert_eq!(assets.large_text.as_deref(), Some("big alt"));
    assert_eq!(assets.small_image.as_deref(), Some("small"));
    assert_eq!(assets.small_text.as_deref(), Some("small alt"));
    let timestamps = p.timestamps.expect("timestamps forwarded");
    assert_eq!(timestamps.start, Some(100));
    assert_eq!(timestamps.end, Some(200));
    let buttons = p.buttons.expect("buttons forwarded");
    assert_eq!(buttons.len(), 2);
    assert_eq!(buttons[0].label, "first");
    assert_eq!(buttons[0].url, "https://a");
    assert_eq!(buttons[1].label, "second");
    assert_eq!(buttons[1].url, "https://b");
    let party = p.party.expect("party forwarded");
    assert_eq!(party.id.as_deref(), Some("party-1"));
    assert_eq!(party.size, Some([1, 4]));
    let secrets = p.secrets.expect("secrets forwarded");
    assert_eq!(secrets.join.as_deref(), Some("join-token"));
    assert_eq!(secrets.spectate.as_deref(), Some("spectate-token"));
}

#[test]
fn match_field_is_never_forwarded() {
    let mut with_match = empty_config(ActivityType::Playing);
    with_match.secrets = Some(RichPresenceSecrets {
        join: Some(String::from("j")),
        spectate: None,
        match_field: Some(String::from("never-sent")),
    });
    let mut without_match = empty_config(ActivityType::Playing);
    without_match.secrets = Some(RichPresenceSecrets {
        join: Some(String::from("j")),
        spectate: None,
        match_field: None,
    });
    let p1 = build_payload(&with_match);
    let p2 = build_payload(&without_match);
    let s1 = p1.secrets.expect("secrets present");
    let s2 = p2.secrets.expect("secrets present");
    assert_eq!(s1.join, s2.join);
    assert_eq!(s1.spectate, s2.spectate);
}

#[test]
fn application_id_is_never_forwarded() {
    let mut with_id = empty_config(ActivityType::Watching);
    with_id.application_id = Some(String::from("12345"));
    let p = build_payload(&with_id);
    assert!(p.details.is_none());
    assert!(p.state.is_none());
    assert!(p.assets.is_none());
    assert!(p.timestamps.is_none());
    assert!(p.buttons.is_none());
    assert!(p.party.is_none());
    assert!(p.secrets.is_none());
}

#[test]
fn empty_button_list_stays_an_empty_list() {
    let mut config = empty_config(ActivityType::Playing);
    config.buttons = Some(Vec::new());
    let p = build_payload(&config);
    let buttons = p.buttons.expect("empty list kept, not dropped");
    assert!(buttons.is_empty());
}

#[test]
fn timestamps_are_independently_optional() {
    let mut config = empty_config(ActivityType::Playing);
    config.timestamps = Some(RichPresenceTimestamps { start: Some(7), end: None });
    let p = build_payload(&config);
    let timestamps = p.timestamps.expect("timestamps forwarded");
    assert_eq!(timestamps.start, Some(7));
    assert_eq!(timestamps.end, None);
}

#[test]
fn full_config_clone_keeps_fields() {
    let mut config = empty_config(ActivityType::Listening);
    config.details = Some(String::from("d"));
    config.buttons = Some(vec![RichPresenceButton {
        label: String::from("l"),
        url: String::from("u"),
    }]);
    let cloned = config.clone();
    assert_eq!(cloned.details.as_deref(), Some("d"));
    let buttons = cloned.buttons.expect("buttons cloned");
    assert_eq!(buttons.len(), 1);
    assert_eq!(buttons[0].label, "l");
    assert_eq!(buttons[0].url, "u");
    assert!(matches!(cloned.activity_type, ActivityType::Listening));
}

#[test]
fn config_clone_keeps_fields() {
    let secrets = RichPresenceSecrets {
        join: Some(String::from("j")),
        spectate: Some(String::from("s")),
        match_field: None,
    };
    let cloned = secrets.clone();
    assert_eq!(cloned.join.as_deref(), Some("j"));
    assert_eq!(cloned.spectate.as_deref(), Some("s"));
    assert!(cloned.match_field.is_none());
}
