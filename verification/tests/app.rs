use sofie::app::App;
use sofie::errors::SofieError;

#[test]
fn app_test_sophia_send_sync() {
    fn assert_send_sync<T: Send + Sync>() {}
    assert_send_sync::<App>();
}

#[test]
fn app_test_sophia_clone() {
    let sophia1 = App::default();
    let _sophia2 = sophia1;
    let _sophia3 = App::default();
}

#[test]
fn sophia_test_sophia_send_sync() {
    fn assert_send_sync<T: Send + Sync>() {}
    assert_send_sync::<App>();
}

#[test]
fn app_test_sophia_error_handling() {
    let error = SofieError::ServerStart("Test error".to_string());

    let display_str = error.to_string();
    assert!(display_str.contains("Failed to start server"));
    assert!(display_str.contains("Test error"));

    let debug_str = format!("{:?}", error);
    assert!(debug_str.contains("ServerStart"));

    let error2 = SofieError::ServerStart("Test error".to_string());
    assert_eq!(error, error2);

    let error3 = SofieError::ServerStart("Different error".to_string());
    assert_ne!(error, error3);
}

#[test]
fn test_many_default_apps() {
    let sophia_instances: Vec<App> = (0..5).map(|_| App::default()).collect();

    assert_eq!(sophia_instances.len(), 5);

    for sophia in &sophia_instances {
        assert_eq!(sophia.config().port(), 8080);
    }
}
