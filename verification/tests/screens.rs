use fjarsyn::config::Config;
use fjarsyn::screens::{
    HomeAction, HomeMessage, HomeScreen, OnboardingAction, OnboardingMessage, OnboardingScreen,
    Route, ScreenError,
};

#[test]
fn onboarding_starts_with_the_given_address() {
    let screen = OnboardingScreen::new("ws://relay/ws".to_owned());
    assert_eq!(screen.server_url(), "ws://relay/ws");
}

#[test]
fn typing_replaces_the_address() {
    let config = Config::default();
    let mut screen = OnboardingScreen::new("a".to_owned());
    let action =
        screen.update(&config, true, OnboardingMessage::ServerUrlChanged("ws://new/ws".to_owned()));
    assert!(matches!(action, OnboardingAction::Nothing));
    assert_eq!(screen.server_url(), "ws://new/ws");
}

#[test]
fn saving_connects_to_the_configured_relay() {
    let config = Config::default();
    let mut screen = OnboardingScreen::new("ws://typed/ws".to_owned());
    let action = screen.update(&config, true, OnboardingMessage::SaveClicked);
    assert!(matches!(action, OnboardingAction::Connect(url) if url == "ws://127.0.0.1:30000/ws"));
    assert_eq!(screen.server_url(), "ws://typed/ws");
}

#[test]
fn saving_without_channels_does_nothing() {
    let config = Config::default();
    let mut screen = OnboardingScreen::new("ws://typed/ws".to_owned());
    let action = screen.update(&config, false, OnboardingMessage::SaveClicked);
    assert!(matches!(action, OnboardingAction::Nothing));
}

#[test]
fn a_standing_connection_completes_the_first_start() {
    let mut config = Config::default();
    config.bitrate = 123;
    let screen = OnboardingScreen::new("ws://typed/ws".to_owned());
    assert_eq!(screen.connected(&mut config), Route::Home);
    assert!(config.onboarding_done);
    assert_eq!(config.server_url, "ws://typed/ws");
    assert_eq!(config.bitrate, 123);
    assert_eq!(config.max_depacket_latency, 2000);
}

#[test]
fn typing_a_target_sets_it() {
    let mut screen = HomeScreen::new();
    let mut target = None;
    let action = screen.update(&mut target, true, HomeMessage::TargetIdChanged("peer".to_owned()));
    assert!(matches!(action, HomeAction::Nothing));
    assert_eq!(target, Some("peer".to_owned()));
    screen.update(&mut target, false, HomeMessage::TargetIdChanged("".to_owned()));
    assert_eq!(target, Some("".to_owned()));
}

#[test]
fn a_call_starts_only_when_the_call_layer_is_up() {
    let mut screen = HomeScreen::new();
    let mut target = Some("typed".to_owned());
    let action = screen.update(&mut target, true, HomeMessage::StartCall("peer".to_owned()));
    assert!(matches!(action, HomeAction::StartCall(id) if id == "peer"));
    let action = screen.update(&mut target, false, HomeMessage::StartCall("peer".to_owned()));
    assert!(matches!(action, HomeAction::Nothing));
    assert_eq!(target, Some("typed".to_owned()));
}

#[test]
fn copying_asks_for_the_clipboard() {
    let mut screen = HomeScreen::new();
    let mut target = None;
    let action = screen.update(&mut target, false, HomeMessage::CopyId("me".to_owned()));
    assert!(matches!(action, HomeAction::CopyToClipboard(text) if text == "me"));
    assert_eq!(target, None);
}

#[test]
fn routes_and_screen_errors_are_plain_values() {
    assert_ne!(Route::Home, Route::Call);
    assert_ne!(Route::Call, Route::Settings);
    let error = ScreenError::ScreenInitializationError("no window".to_owned());
    assert!(matches!(error, ScreenError::ScreenInitializationError(text) if text == "no window"));
}
