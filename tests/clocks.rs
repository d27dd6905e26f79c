use timezone_bot::commands::{
    check_personal_timezone, check_reply, complete_clock, personal_reply, handle_event, plan_channel_clock, plan_message_clock,
    remove_clock, set_personal_timezone, ClockOutcome, CommandError, PlatformEvent, Provisioned,
};
use timezone_bot::personal::PersonalStore;
use timezone_bot::quota::allow_creation;
use timezone_bot::registry::{ClockRecord, ClockRegistry, RecordError};
use timezone_bot::template::{contains_placeholder, resolve_preset, Preset, DEFAULT_FORMAT};
use timezone_bot::text::decimal;
use timezone_bot::zone::{parse_timezone, render, render_at, TimezoneError};

fn record(channel_id: u64, message_id: Option<u64>, guild_id: u64) -> ClockRecord {
    let tz = parse_timezone("Europe/London").unwrap();
    ClockRecord::new(channel_id, message_id, guild_id, tz, "%H:%M".to_string()).unwrap()
}

#[test]
fn preset_24_expands_to_emoji_format() {
    assert_eq!(resolve_preset("preset:24"), "🕒 %H:%M (%Z)");
}

#[test]
fn every_preset_expands() {
    assert_eq!(resolve_preset("preset:24:plain"), "%H:%M (%Z)");
    assert_eq!(resolve_preset("preset:24:minimal"), "%H:%M");
    assert_eq!(resolve_preset("preset:12"), "🕒 %I:%M %p (%Z)");
    assert_eq!(resolve_preset("preset:12:plain"), "%I:%M %p (%Z)");
    assert_eq!(resolve_preset("preset:12:minimal"), "%I:%M %p");
    assert_eq!(resolve_preset("preset:day"), "%A");
    assert_eq!(Preset::from_token("preset:day"), Some(Preset::Day));
    assert_eq!(Preset::from_token("preset:week"), None);
}

#[test]
fn unknown_preset_falls_back() {
    assert_eq!(resolve_preset("preset:x"), DEFAULT_FORMAT);
    assert_eq!(resolve_preset("preset:"), DEFAULT_FORMAT);
}

#[test]
fn template_without_placeholder_falls_back() {
    assert_eq!(resolve_preset("hello world"), DEFAULT_FORMAT);
    assert_eq!(resolve_preset(""), DEFAULT_FORMAT);
    assert_eq!(resolve_preset("100%"), DEFAULT_FORMAT);
    assert!(!contains_placeholder("%S only"));
}

#[test]
fn long_template_falls_back() {
    let long = format!("%H:%M {}", "x".repeat(59));
    assert_eq!(long.chars().count(), 65);
    assert_eq!(resolve_preset(&long), DEFAULT_FORMAT);
    let edge = format!("%H:%M {}", "x".repeat(58));
    assert_eq!(edge.chars().count(), 64);
    assert_eq!(resolve_preset(&edge), edge);
}

#[test]
fn valid_template_is_kept() {
    assert_eq!(resolve_preset("Time: %I:%M %p"), "Time: %I:%M %p");
    assert_eq!(resolve_preset("Day %d"), "Day %d");
    assert!(contains_placeholder("x%Z"));
}

#[test]
fn quota_boundary() {
    assert!(allow_creation(4, 5));
    assert!(!allow_creation(5, 5));
    assert!(!allow_creation(6, 5));
    assert!(!allow_creation(0, 0));
    assert!(allow_creation(0, 1));
}

#[test]
fn upsert_twice_keeps_one_row() {
    let mut store = PersonalStore::new();
    let a = parse_timezone("Europe/Paris").unwrap();
    let b = parse_timezone("Asia/Tokyo").unwrap();
    store.upsert(7, a);
    store.upsert(7, b);
    assert_eq!(store.len(), 1);
    assert_eq!(store.get(7).unwrap().name(), "Asia/Tokyo");
    assert!(store.get(8).is_none());
}

#[test]
fn deleting_channel_with_two_rows_removes_both() {
    let mut reg = ClockRegistry::new();
    reg.insert(record(10, None, 1));
    reg.insert(record(11, None, 1));
    reg.insert(record(10, Some(99), 1));
    assert_eq!(reg.delete_by_channel(10), 2);
    assert_eq!(reg.len(), 1);
    assert_eq!(reg.get(0).channel_id(), 11);
}

#[test]
fn deleting_channel_without_rows_is_noop() {
    let mut reg = ClockRegistry::new();
    reg.insert(record(11, None, 1));
    assert_eq!(reg.delete_by_channel(10), 0);
    assert_eq!(reg.len(), 1);
    let mut empty = ClockRegistry::new();
    assert_eq!(empty.delete_by_channel(10), 0);
    assert_eq!(empty.len(), 0);
}

#[test]
fn channel_deleted_event_reconciles() {
    let mut reg = ClockRegistry::new();
    reg.insert(record(10, None, 1));
    reg.insert(record(12, None, 2));
    assert_eq!(handle_event(&mut reg, PlatformEvent::Ready), 0);
    assert_eq!(handle_event(&mut reg, PlatformEvent::GuildDeleted { guild_id: 1 }), 0);
    assert_eq!(reg.len(), 2);
    assert_eq!(handle_event(&mut reg, PlatformEvent::ChannelDeleted { channel_id: 10 }), 1);
    assert_eq!(reg.len(), 1);
    assert_eq!(reg.get(0).channel_id(), 12);
}

#[test]
fn render_new_york_has_time_shape() {
    let tz = parse_timezone("America/New_York").unwrap();
    let text = render(&tz, "%H:%M (%Z)").unwrap();
    let chars: Vec<char> = text.chars().collect();
    assert!(chars.len() >= 9, "{}", text);
    assert!(chars[0].is_ascii_digit() && chars[1].is_ascii_digit());
    assert_eq!(chars[2], ':');
    assert!(chars[3].is_ascii_digit() && chars[4].is_ascii_digit());
    assert_eq!(chars[5], ' ');
    assert_eq!(chars[6], '(');
    assert_eq!(*chars.last().unwrap(), ')');
    let abbrev: String = chars[7..chars.len() - 1].iter().collect();
    assert!(abbrev == "EST" || abbrev == "EDT", "{}", abbrev);
}

#[test]
fn render_at_fixed_instant() {
    let ny = parse_timezone("America/New_York").unwrap();
    assert_eq!(render_at(&ny, 0, "%H:%M (%Z)").unwrap(), "19:00 (EST)");
    let utc = parse_timezone("UTC").unwrap();
    assert_eq!(render_at(&utc, 0, "%A %d").unwrap(), "Thursday 01");
    assert_eq!(render_at(&utc, 3600 * 13, "%I %p").unwrap(), "01 PM");
}

#[test]
fn render_refuses_bad_format() {
    let utc = parse_timezone("UTC").unwrap();
    assert!(render_at(&utc, 0, "%H %Q").is_none());
}

#[test]
fn parse_timezone_checks_names() {
    assert_eq!(parse_timezone("Europe/Berlin").unwrap().name(), "Europe/Berlin");
    assert_eq!(parse_timezone("Mars/Olympus").unwrap_err(), TimezoneError::Unknown);
    assert_eq!(parse_timezone("").unwrap_err(), TimezoneError::Unknown);
}

#[test]
fn record_rejects_bad_template() {
    let tz = parse_timezone("UTC").unwrap();
    assert_eq!(
        ClockRecord::new(1, None, 1, tz.clone(), String::new()).unwrap_err(),
        RecordError::BadTemplate
    );
    assert_eq!(
        ClockRecord::new(1, None, 1, tz, "x".repeat(65)).unwrap_err(),
        RecordError::BadTemplate
    );
}

#[test]
fn new_command_at_quota_is_rejected() {
    let mut reg = ClockRegistry::new();
    for c in 0..5u64 {
        reg.insert(record(100 + c, None, 3));
    }
    reg.insert(record(200, None, 4));
    let err = plan_channel_clock(&reg, 3, true, Some("UTC"), None, 5).unwrap_err();
    assert_eq!(err, CommandError::QuotaReached { max: 5 });
    assert!(err.message().contains('5'));
    assert_eq!(reg.count_by_guild(3), 5);
    assert_eq!(reg.len(), 6);
}

#[test]
fn new_command_below_quota_creates_clock() {
    let mut reg = ClockRegistry::new();
    reg.insert(record(100, None, 3));
    let plan = plan_channel_clock(&reg, 3, true, Some("Asia/Tokyo"), Some("preset:12"), 5).unwrap();
    assert_eq!(plan.template(), "🕒 %I:%M %p (%Z)");
    assert_eq!(plan.timezone().name(), "Asia/Tokyo");
    let out = complete_clock(&mut reg, plan, 3, Provisioned::Channel { channel_id: 101, restricted: true });
    assert_eq!(out, Ok(ClockOutcome::Created));
    assert_eq!(reg.count_by_guild(3), 2);
    assert_eq!(reg.get(1).channel_id(), 101);
    assert_eq!(reg.get(1).name_template(), "🕒 %I:%M %p (%Z)");
    assert_eq!(reg.get(1).timezone().name(), "Asia/Tokyo");
}

#[test]
fn partial_provisioning_still_records() {
    let mut reg = ClockRegistry::new();
    let plan = plan_channel_clock(&reg, 3, true, Some("UTC"), None, 5).unwrap();
    assert_eq!(plan.template(), DEFAULT_FORMAT);
    let out = complete_clock(&mut reg, plan, 3, Provisioned::Channel { channel_id: 5, restricted: false });
    assert_eq!(out, Ok(ClockOutcome::CreatedWithoutRestriction));
    assert_eq!(reg.len(), 1);
}

#[test]
fn failed_provisioning_records_nothing() {
    let mut reg = ClockRegistry::new();
    let plan = plan_channel_clock(&reg, 3, true, Some("UTC"), None, 5).unwrap();
    let out = complete_clock(&mut reg, plan, 3, Provisioned::Failed);
    assert_eq!(out, Err(CommandError::ProvisionFailed));
    assert_eq!(reg.len(), 0);
}

#[test]
fn space_command_records_message_clock() {
    let mut reg = ClockRegistry::new();
    let plan = plan_message_clock(true, Some("Europe/Paris"), Some("no placeholder")).unwrap();
    assert_eq!(plan.template(), DEFAULT_FORMAT);
    let out = complete_clock(&mut reg, plan, 8, Provisioned::Message { channel_id: 40, message_id: 41 });
    assert_eq!(out, Ok(ClockOutcome::Created));
    assert_eq!(reg.get(0).message_id(), Some(41));
    assert_eq!(reg.get(0).guild_id(), 8);
}

#[test]
fn plan_errors() {
    let reg = ClockRegistry::new();
    assert_eq!(
        plan_channel_clock(&reg, 1, false, Some("UTC"), None, 5).unwrap_err(),
        CommandError::NotAuthorized
    );
    assert_eq!(
        plan_channel_clock(&reg, 1, true, None, None, 5).unwrap_err(),
        CommandError::MissingTimezone
    );
    assert_eq!(
        plan_channel_clock(&reg, 1, true, Some("Nowhere/Place"), None, 5).unwrap_err(),
        CommandError::UnknownTimezone
    );
    assert_eq!(plan_message_clock(true, Some("utc"), None).unwrap_err(), CommandError::UnknownTimezone);
}

#[test]
fn check_needs_exactly_one_mention() {
    let mut store = PersonalStore::new();
    store.upsert(1, parse_timezone("UTC").unwrap());
    assert_eq!(check_personal_timezone(&store, &[]).unwrap_err(), CommandError::WrongMentionCount);
    assert_eq!(check_personal_timezone(&store, &[1, 2]).unwrap_err(), CommandError::WrongMentionCount);
    assert_eq!(store.len(), 1);
    assert_eq!(store.get(1).unwrap().name(), "UTC");
}

#[test]
fn check_reports_set_and_unset_users() {
    let mut store = PersonalStore::new();
    store.upsert(1, parse_timezone("Asia/Kolkata").unwrap());
    let (user, zone) = check_personal_timezone(&store, &[1]).unwrap();
    assert_eq!(user, 1);
    assert_eq!(zone.unwrap().name(), "Asia/Kolkata");
    let (user, zone) = check_personal_timezone(&store, &[2]).unwrap();
    assert_eq!(user, 2);
    assert!(zone.is_none());
}

#[test]
fn personal_command_sets_and_replaces() {
    let mut store = PersonalStore::new();
    assert_eq!(set_personal_timezone(&mut store, 5, None).unwrap_err(), CommandError::MissingTimezone);
    assert_eq!(
        set_personal_timezone(&mut store, 5, Some("Bad/Zone")).unwrap_err(),
        CommandError::UnknownTimezone
    );
    assert_eq!(store.len(), 0);
    assert_eq!(set_personal_timezone(&mut store, 5, Some("UTC")).unwrap().name(), "UTC");
    set_personal_timezone(&mut store, 5, Some("Europe/Rome")).unwrap();
    assert_eq!(store.len(), 1);
    assert_eq!(store.get(5).unwrap().name(), "Europe/Rome");
}

#[test]
fn remove_clock_by_channel_or_message() {
    let mut reg = ClockRegistry::new();
    reg.insert(record(10, None, 1));
    reg.insert(record(20, Some(21), 1));
    reg.insert(record(30, None, 2));
    assert_eq!(remove_clock(&mut reg, 1, false, 10), Err(CommandError::NotAuthorized));
    assert_eq!(reg.len(), 3);
    assert_eq!(remove_clock(&mut reg, 1, true, 30), Err(CommandError::NotFound));
    assert_eq!(remove_clock(&mut reg, 1, true, 21), Ok(()));
    assert_eq!(reg.len(), 2);
    assert_eq!(remove_clock(&mut reg, 1, true, 10), Ok(()));
    assert_eq!(reg.len(), 1);
    assert_eq!(reg.get(0).channel_id(), 30);
    assert!(reg.delete_by_explicit_request(30, 2));
    assert!(!reg.delete_by_explicit_request(30, 2));
}

#[test]
fn error_messages() {
    assert_eq!(
        CommandError::QuotaReached { max: 25 }.message(),
        "This server has reached its limit of 25 clock channels."
    );
    assert!(CommandError::UnknownTimezone.message().contains("IANA"));
    assert!(CommandError::WrongMentionCount.message().contains("exactly one"));
    assert!(CommandError::StoreUnavailable.message().contains("try again"));
}

#[test]
fn decimal_notation() {
    assert_eq!(decimal(0), "0");
    assert_eq!(decimal(7), "7");
    assert_eq!(decimal(1234), "1234");
    assert_eq!(decimal(u32::MAX), "4294967295");
}

#[test]
fn reply_texts() {
    assert_eq!(personal_reply("09:30"), "Your current time should be 09:30");
    assert_eq!(check_reply("ann", Some("10:00")), "ann's current time is `10:00`");
    assert_eq!(check_reply("bob", None), "bob has not set a personal timezone.");
    assert!(ClockOutcome::CreatedWithoutRestriction.message().contains("Connect"));
    assert_eq!(ClockOutcome::Created.message(), "The clock has been created.");
}

