use wallcraft::scheduler::{get_interval_secs, start_saved_schedule, start_scheduler_inner, stop_scheduler_inner, SchedulerState, TimerPlan};
use wallcraft::screens::{collect_screens, decimal_string, screen_from_monitor, MonitorReading};
use wallcraft::settings::Settings;
use wallcraft::spaces::{all_spaces_script, direct_wallpaper_targets, escape_script_text, script_image_list};

fn settings_with(interval: &str) -> Settings {
    Settings {
        api_key: String::new(),
        topic_slug: "nature".to_string(),
        update_interval: interval.to_string(),
    }
}

#[test]
fn interval_periods() {
    assert_eq!(get_interval_secs("30min"), 1800);
    assert_eq!(get_interval_secs("1hour"), 3600);
    assert_eq!(get_interval_secs("6hour"), 21600);
    assert_eq!(get_interval_secs("daily"), 86400);
    assert_eq!(get_interval_secs("manual"), 0);
    assert_eq!(get_interval_secs("weekly"), 0);
    assert_eq!(get_interval_secs(""), 0);
}

#[test]
fn manual_settings_stop_periodic_trigger() {
    let mut state = SchedulerState::new();
    let plan = start_scheduler_inner(&mut state, &settings_with("30min"));
    assert_eq!(plan, TimerPlan { cancel_running: false, start_every: Some(1800) });
    assert_eq!(state.period_secs, Some(1800));
    let plan = start_scheduler_inner(&mut state, &settings_with("manual"));
    assert_eq!(plan, TimerPlan { cancel_running: true, start_every: None });
    assert_eq!(state.period_secs, None);
}

#[test]
fn new_schedule_replaces_old_one() {
    let mut state = SchedulerState::new();
    start_scheduler_inner(&mut state, &settings_with("1hour"));
    let plan = start_scheduler_inner(&mut state, &settings_with("daily"));
    assert_eq!(plan, TimerPlan { cancel_running: true, start_every: Some(86400) });
    assert!(stop_scheduler_inner(&mut state));
    assert!(!stop_scheduler_inner(&mut state));
    assert_eq!(state.period_secs, None);
}

#[test]
fn default_settings_are_manual() {
    let s = Settings::default();
    assert_eq!(s.update_interval, "manual");
    assert!(s.api_key.is_empty());
    assert!(s.topic_slug.is_empty());
}

#[test]
fn decimal_strings() {
    assert_eq!(decimal_string(0), "0");
    assert_eq!(decimal_string(7), "7");
    assert_eq!(decimal_string(10), "10");
    assert_eq!(decimal_string(4096), "4096");
}

#[test]
fn monitors_become_logical_screens() {
    let monitors = vec![
        MonitorReading { name: Some("Built-in Retina Display".to_string()), x: 0, y: 0, width: 3024, height: 1964, scale_permille: 2000 },
        MonitorReading { name: None, x: 1512, y: -3, width: 2560, height: 1440, scale_permille: 1000 },
        MonitorReading { name: None, x: -2400, y: 0, width: 1920, height: 1080, scale_permille: 1250 },
    ];
    let s = collect_screens(&monitors);
    assert_eq!(s.len(), 3);
    assert_eq!((s[0].id.as_str(), s[0].name.as_str()), ("0", "Built-in Retina Display"));
    assert_eq!((s[0].x, s[0].y, s[0].width, s[0].height, s[0].scale_permille), (0, 0, 1512, 982, 2000));
    assert_eq!((s[1].id.as_str(), s[1].name.as_str()), ("1", "Display 2"));
    assert_eq!((s[1].x, s[1].y, s[1].width, s[1].height), (1512, -3, 2560, 1440));
    assert_eq!((s[2].id.as_str(), s[2].name.as_str()), ("2", "Display 3"));
    assert_eq!((s[2].x, s[2].y, s[2].width, s[2].height), (-1920, 0, 1536, 864));
}

#[test]
fn script_text_escaping() {
    assert_eq!(escape_script_text("plain"), "plain");
    assert_eq!(escape_script_text("a\"b\\c"), "a\\\"b\\\\c");
}

#[test]
fn script_list_up_to_last_wallpaper() {
    let paths = vec![Some("/w/a.jpg".to_string()), None, Some("/w/\"c\".jpg".to_string()), None];
    assert_eq!(script_image_list(&paths), "{\"/w/a.jpg\", \"\", \"/w/\\\"c\\\".jpg\"}");
    let script = all_spaces_script(&paths).unwrap();
    assert!(script.starts_with("tell application \"System Events\"\n  set imagePathsList to {\"/w/a.jpg\", "));
    assert!(script.ends_with("end tell"));
    assert!(script.contains("set picture to POSIX file imgPath"));
}

#[test]
fn no_script_without_wallpapers() {
    assert_eq!(all_spaces_script(&vec![None, None]), None);
    assert_eq!(all_spaces_script(&vec![]), None);
}

#[test]
fn direct_targets_skip_missing_and_extra_screens() {
    let paths = vec![Some("/w/0.jpg".to_string()), None, Some("/w/2.jpg".to_string()), Some("/w/3.jpg".to_string())];
    assert_eq!(
        direct_wallpaper_targets(&paths, 3),
        vec![(0, "/w/0.jpg".to_string()), (2, "/w/2.jpg".to_string())]
    );
    assert_eq!(direct_wallpaper_targets(&paths, 0), vec![]);
}

#[test]
fn saved_manual_settings_leave_timer_alone() {
    let mut state = SchedulerState::new();
    start_scheduler_inner(&mut state, &settings_with("6hour"));
    let plan = start_saved_schedule(&mut state, &settings_with("manual"));
    assert_eq!(plan, TimerPlan { cancel_running: false, start_every: None });
    assert_eq!(state.period_secs, Some(21600));
    let plan = start_saved_schedule(&mut state, &settings_with("30min"));
    assert_eq!(plan, TimerPlan { cancel_running: true, start_every: Some(1800) });
    assert_eq!(state.period_secs, Some(1800));
}

#[test]
fn logical_halves_round_away_from_zero() {
    let m = |x: i32, y: i32| MonitorReading { name: None, x, y, width: 3, height: 5, scale_permille: 2000 };
    let s = screen_from_monitor(&m(-1, 1), 0);
    assert_eq!((s.x, s.y, s.width, s.height), (-1, 1, 2, 3));
    let s = screen_from_monitor(&m(-3, 3), 4);
    assert_eq!((s.x, s.y), (-2, 2));
    assert_eq!((s.id.as_str(), s.name.as_str()), ("4", "Display 5"));
}
