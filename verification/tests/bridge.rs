use flutter_embedder::bridge::{
    classify_engine_result, engine_result_is_fatal, route_channel, EngineResult, Lifecycle,
    MessageRoute, FRAME_INTERVAL_NS,
};

#[test]
fn the_four_known_result_codes_are_told_apart() {
    assert_eq!(classify_engine_result(0), EngineResult::Success);
    assert_eq!(classify_engine_result(1), EngineResult::InvalidLibraryVersion);
    assert_eq!(classify_engine_result(2), EngineResult::InvalidArguments);
    assert_eq!(classify_engine_result(3), EngineResult::InternalInconsistency);
    assert_eq!(classify_engine_result(4), EngineResult::UnknownError);
    assert_eq!(classify_engine_result(255), EngineResult::UnknownError);
}

#[test]
fn only_success_is_not_fatal() {
    assert!(!engine_result_is_fatal(EngineResult::Success));
    assert!(engine_result_is_fatal(EngineResult::InvalidLibraryVersion));
    assert!(engine_result_is_fatal(EngineResult::InvalidArguments));
    assert!(engine_result_is_fatal(EngineResult::InternalInconsistency));
    assert!(engine_result_is_fatal(EngineResult::UnknownError));
}

#[test]
fn the_frame_interval_is_one_sixtieth_of_a_second() {
    assert_eq!(FRAME_INTERVAL_NS, 16_666_666);
}

#[test]
fn the_textinput_channel_routes_to_the_keyboard() {
    assert_eq!(route_channel(&"flutter/textinput".to_string()), MessageRoute::TextInput);
}

#[test]
fn any_other_channel_is_acknowledged_as_unknown() {
    assert_eq!(route_channel(&"flutter/platform".to_string()), MessageRoute::Unknown);
    assert_eq!(route_channel(&"".to_string()), MessageRoute::Unknown);
    assert_eq!(route_channel(&"flutter/textinput2".to_string()), MessageRoute::Unknown);
}

#[test]
fn callbacks_run_only_between_start_and_shutdown() {
    let mut lc = Lifecycle::new();
    assert!(!lc.callbacks_allowed());
    lc.start();
    assert!(lc.callbacks_allowed());
    lc.begin_shutdown();
    assert!(!lc.callbacks_allowed());
}
