use voxworld_web::session::{
    chat_should_send, lifecycle_step, request_stage, snapshot_selection, stage_label,
    CharacterRequest, ClientEvent, EventReaction, LifecycleEvent, SessionNotice, SessionPhase,
    SessionStage, SessionState,
};
use voxworld_web::sorting::{first_nearest, select_nearest, stable_sort_by_key};

#[test]
fn stage_labels() {
    assert_eq!(stage_label(SessionStage::Connecting), "connecting");
    assert_eq!(stage_label(SessionStage::Registered), "registered");
    assert_eq!(stage_label(SessionStage::CharacterCreated), "character_created");
    assert_eq!(stage_label(SessionStage::InGame), "in_game");
    assert_eq!(stage_label(SessionStage::CreatingCharacter), "creating_character");
    assert_eq!(stage_label(SessionStage::JoiningCharacter), "joining_character");
    assert_eq!(stage_label(SessionStage::BrowserDisconnected), "browser_disconnected");
}

#[test]
fn new_character_is_created_once_then_joined() {
    let mut s = SessionState::new();
    assert!(matches!(s.character_step(true, true, None), CharacterRequest::Wait));
    assert!(matches!(s.character_step(false, true, None), CharacterRequest::Create));
    assert!(matches!(s.character_step(false, true, None), CharacterRequest::Wait));
    assert!(matches!(s.on_event(ClientEvent::CharacterCreated), EventReaction::NotifyAndReloadCharacters(SessionNotice::Stage(SessionStage::CharacterCreated))));
    assert!(matches!(s.character_step(false, false, Some(42)), CharacterRequest::Join(42)));
    assert!(matches!(s.character_step(false, false, Some(42)), CharacterRequest::Wait));
    assert!(matches!(s.on_event(ClientEvent::CharacterJoined), EventReaction::Notify(SessionNotice::Stage(SessionStage::InGame))));
    assert!(s.in_game);
    assert!(matches!(s.character_step(false, true, None), CharacterRequest::Wait));
}

#[test]
fn character_error_allows_a_retry() {
    let mut s = SessionState::new();
    assert!(matches!(s.character_step(false, false, Some(1)), CharacterRequest::Join(1)));
    match s.on_event(ClientEvent::CharacterError("no slot".to_string())) {
        EventReaction::Notify(SessionNotice::Error(m)) => assert_eq!(m, "no slot"),
        _ => panic!("expected an error notice"),
    }
    assert!(!s.character_join_requested && !s.character_create_requested);
    assert!(matches!(s.character_step(false, false, Some(1)), CharacterRequest::Join(1)));
}

#[test]
fn listed_character_without_id_is_not_joined() {
    let mut s = SessionState::new();
    assert!(matches!(s.character_step(false, false, None), CharacterRequest::Wait));
    assert!(!s.character_join_requested);
}

#[test]
fn event_reactions() {
    let mut s = SessionState::new();
    match s.on_event(ClientEvent::Disconnect) {
        EventReaction::EndSession(m) => assert_eq!(m, "server disconnected the session"),
        _ => panic!(),
    }
    match s.on_event(ClientEvent::DisconnectionNotification(30)) {
        EventReaction::Notify(SessionNotice::Event(m)) => assert_eq!(m, "disconnecting in 30s"),
        _ => panic!(),
    }
    match s.on_event(ClientEvent::Chat("hello".to_string())) {
        EventReaction::Notify(SessionNotice::Event(m)) => assert_eq!(m, "hello"),
        _ => panic!(),
    }
    assert!(matches!(s.on_event(ClientEvent::Other), EventReaction::Ignore));
    assert_eq!(s, SessionState::new());
}

#[test]
fn request_stages() {
    assert_eq!(request_stage(&CharacterRequest::Create), Some(SessionStage::CreatingCharacter));
    assert_eq!(request_stage(&CharacterRequest::Join(3)), Some(SessionStage::JoiningCharacter));
    assert_eq!(request_stage(&CharacterRequest::Wait), None);
}

#[test]
fn chat_filter() {
    assert!(chat_should_send("hi"));
    assert!(chat_should_send("  hi  "));
    assert!(!chat_should_send(""));
    assert!(!chat_should_send(" \t\r\n"));
    assert!(!chat_should_send("\u{3000}\u{00a0}\u{2029}"));
    assert!(chat_should_send("\u{200b}"));
}

#[test]
fn snapshot_keeps_nearest_within_range() {
    let d = |v: f32| v.to_bits();
    let entities = vec![
        (d(10.0), "a"),
        (d(600.0), "far"),
        (d(1.5), "b"),
        (d(f32::NAN), "nan"),
        (d(10.0), "c"),
        (d(512.0), "edge"),
        (d(f32::INFINITY), "inf"),
        (d(0.0), "self"),
    ];
    let out = snapshot_selection(entities);
    let names: Vec<&str> = out.iter().map(|e| e.1).collect();
    assert_eq!(names, vec!["self", "b", "a", "c", "edge"]);
}

#[test]
fn snapshot_caps_at_96() {
    let entities: Vec<(u32, usize)> = (0..200).map(|i| (((200 - i) as f32).to_bits(), i)).collect();
    let out = snapshot_selection(entities);
    assert_eq!(out.len(), 96);
    assert_eq!(out[0].1, 199);
    assert!(out.windows(2).all(|w| w[0].0 <= w[1].0));
}

#[test]
fn stable_sort_matches_std_sort_by() {
    let items: Vec<(u32, usize)> = vec![(3, 0), (1, 1), (3, 2), (2, 3), (1, 4), (0, 5), (3, 6)];
    let mut expected = items.clone();
    expected.sort_by(|a, b| a.0.cmp(&b.0));
    assert_eq!(stable_sort_by_key(items.clone(), false), expected);
    let mut expected_desc = items.clone();
    expected_desc.sort_by(|a, b| b.0.cmp(&a.0));
    assert_eq!(stable_sort_by_key(items, true), expected_desc);
    assert_eq!(stable_sort_by_key(Vec::<(u32, u8)>::new(), false), vec![]);
}

#[test]
fn select_nearest_filters_sorts_truncates() {
    let items = vec![(5u32, 'a'), (9, 'b'), (1, 'c'), (5, 'd')];
    assert_eq!(select_nearest(items.clone(), 5, 2), vec![(1, 'c'), (5, 'a')]);
    assert_eq!(select_nearest(items, 0, 10), vec![]);
}

#[test]
fn first_nearest_prefers_first_minimum() {
    assert_eq!(first_nearest(&[7, 3, 9, 3], 10), Some(1));
    assert_eq!(first_nearest(&[7, 3, 9, 3], 2), None);
    assert_eq!(first_nearest(&[], 2), None);
    assert_eq!(first_nearest(&[12, 8], 10), Some(1));
}

#[test]
fn session_lifecycle_order() {
    let (phase, notice) = lifecycle_step(SessionPhase::Starting, LifecycleEvent::Start);
    assert_eq!(phase, SessionPhase::Connecting);
    assert!(matches!(notice, Some(SessionNotice::Stage(SessionStage::Connecting))));
    let (phase, notice) = lifecycle_step(phase, LifecycleEvent::ClientConnected);
    assert_eq!(phase, SessionPhase::Running);
    assert!(matches!(notice, Some(SessionNotice::Stage(SessionStage::Registered))));
    let (ended, notice) = lifecycle_step(phase, LifecycleEvent::BrowserClosed);
    assert_eq!(ended, SessionPhase::Ended);
    assert!(matches!(notice, Some(SessionNotice::Stage(SessionStage::BrowserDisconnected))));
    let (after, notice) = lifecycle_step(ended, LifecycleEvent::Failed("late".to_string()));
    assert_eq!(after, SessionPhase::Ended);
    assert!(notice.is_none());
    let (failed, notice) =
        lifecycle_step(SessionPhase::Connecting, LifecycleEvent::Failed("refused".to_string()));
    assert_eq!(failed, SessionPhase::Ended);
    assert!(matches!(notice, Some(SessionNotice::Error(m)) if m == "refused"));
    // Registration is not reported before connecting.
    let (phase, notice) = lifecycle_step(SessionPhase::Starting, LifecycleEvent::ClientConnected);
    assert_eq!(phase, SessionPhase::Starting);
    assert!(notice.is_none());
}
