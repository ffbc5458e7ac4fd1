use chott::environment::{compute_season, random_weather, season_of_month, EnvironmentManager, WorldTime};
use chott::error::AppError;
use chott::pages::{load_page_graph, valid_move, PageId};
use chott::session::{UserSession, SESSION_KEY};

#[test]
fn daytime_and_night() {
    for hour in 0u8..24 {
        let t = WorldTime { hour, _minute: 15 };
        assert_eq!(t.is_daytime(), (6..18).contains(&hour));
        assert_eq!(t.is_night(), !t.is_daytime());
    }
    assert!(WorldTime { hour: 6, _minute: 0 }.is_daytime());
    assert!(!WorldTime { hour: 18, _minute: 0 }.is_daytime());
}

#[test]
fn twilight_hours() {
    let tw: Vec<u8> = (0u8..24).filter(|h| WorldTime { hour: *h, _minute: 0 }._is_twilight()).collect();
    assert_eq!(tw, vec![5, 6, 17, 18]);
}

#[test]
fn seasons_by_month() {
    let names: Vec<String> = (0u32..14).map(season_of_month).collect();
    assert_eq!(
        names,
        vec![
            "Unknown", "Winter", "Winter", "Spring", "Spring", "Spring", "Summer", "Summer",
            "Summer", "Autumn", "Autumn", "Autumn", "Winter", "Unknown"
        ]
    );
}

#[test]
fn season_of_timestamp() {
    // 2015-05-15 00:00:00 UTC
    assert_eq!(compute_season(1431648000), "Spring");
    // 2021-01-01 00:00:00 UTC
    assert_eq!(compute_season(1609459200), "Winter");
    // 2021-07-01 00:00:00 UTC
    assert_eq!(compute_season(1625097600), "Summer");
    assert_eq!(compute_season(u64::MAX), "Unknown");
}

#[test]
fn weather_turns_every_minute() {
    assert_eq!(random_weather(0), "Clear");
    assert_eq!(random_weather(59), "Clear");
    assert_eq!(random_weather(60), "Rainy");
    assert_eq!(random_weather(120), "Cloudy");
    assert_eq!(random_weather(180), "Windy");
    assert_eq!(random_weather(240), "Clear");
}

#[test]
fn environment_is_cached_per_page() {
    let mut m = EnvironmentManager::new();
    assert!(m.cache.is_empty());
    let first = m.get_environment_for_page(&PageId::from_str("route-1")).unwrap();
    assert_eq!(m.cache.len(), 1);
    assert_eq!(first.weather, random_weather(first.timestamp));
    assert_eq!(first.season, compute_season(first.timestamp));
    let again = m.get_environment_for_page(&PageId::from_str("route-1")).unwrap();
    assert_eq!(again.timestamp, first.timestamp);
    assert_eq!(again.season, first.season);
    assert_eq!(m.cache.len(), 1);
    let _ = m.get_environment_for_page(&PageId::from_str("green-city")).unwrap();
    assert_eq!(m.cache.len(), 2);
}

#[test]
fn page_graph_shape() {
    let g = load_page_graph();
    assert_eq!(g.pages.len(), 3);
    let route = g.get(&PageId::from_str("route-1")).unwrap();
    assert_eq!(route.title, "Route 1");
    assert_eq!(route.connections.len(), 2);
    assert!(g.get(&PageId::from_str("cave")).is_none());
}

#[test]
fn moves_along_named_exits() {
    let g = load_page_graph();
    let here = PageId::from_str("route-1");
    assert_eq!(valid_move(&here, "South", &g).unwrap().target.as_string(), "small-town");
    assert_eq!(valid_move(&here, "North", &g).unwrap().target.as_string(), "green-city");
    assert!(valid_move(&here, "West", &g).is_none());
    assert!(valid_move(&PageId::from_str("cave"), "North", &g).is_none());
}

#[test]
fn session_follows_exits() {
    let g = load_page_graph();
    let s = UserSession::new("small-town");
    assert_eq!(s.current_page.as_string(), "small-town");
    let moved = s.follow("North", &g).unwrap();
    assert_eq!(moved.current_page.as_string(), "route-1");
    assert!(matches!(moved.follow("East", &g), Err(AppError::SessionError(_))));
    assert_eq!(SESSION_KEY, "user_session");
}

#[test]
fn error_from_string() {
    let e: AppError = AppError::from("boom".to_string());
    assert!(matches!(e, AppError::OtherError(m) if m == "boom"));
}
