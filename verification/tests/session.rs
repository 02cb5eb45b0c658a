use queue_session::commands::{
    create_queue, delete_message, list_queues, receive_messages, send_message,
    CreateQueueRequest, DeleteMessageRequest, ReceiveMessagesRequest, SendMessageRequest,
    RECEIVE_WAIT_SECONDS,
};
use queue_session::error::{QueueError, NOT_CONFIGURED_MESSAGE};
use queue_session::session::{
    connection_settings, ConnectionSettings, Session, CONFIGURED_MESSAGE,
    CREDENTIALS_PROVIDER_NAME, PLACEHOLDER_ACCESS_KEY_ID, PLACEHOLDER_SECRET_ACCESS_KEY,
};

fn configured(client: u32, endpoint: &str, region: &str) -> Session<u32> {
    let mut session = Session::new();
    session.configure(client, connection_settings(endpoint.to_string(), region.to_string()));
    session
}

#[test]
fn new_session_holds_nothing() {
    let session: Session<u32> = Session::new();
    assert!(!session.is_configured());
    assert_eq!(session.endpoint(), None);
    assert_eq!(session.region(), None);
    assert_eq!(session.get_client(), Err(QueueError::NotConfigured));
}

#[test]
fn default_session_holds_nothing() {
    let session: Session<String> = Session::default();
    assert!(!session.is_configured());
    assert_eq!(session.get_client(), Err(QueueError::NotConfigured));
}

#[test]
fn settings_carry_the_pair_and_the_placeholder_credentials() {
    let settings = connection_settings("http://localhost:4566".to_string(), "us-east-1".to_string());
    assert_eq!(
        settings,
        ConnectionSettings {
            endpoint: "http://localhost:4566".to_string(),
            region: "us-east-1".to_string(),
            access_key_id: "test".to_string(),
            secret_access_key: "test".to_string(),
            credentials_provider: "static",
        }
    );
    assert_eq!(PLACEHOLDER_ACCESS_KEY_ID, "test");
    assert_eq!(PLACEHOLDER_SECRET_ACCESS_KEY, "test");
    assert_eq!(CREDENTIALS_PROVIDER_NAME, "static");
}

#[test]
fn settings_accept_any_endpoint_and_region() {
    let settings = connection_settings(String::new(), "not a region".to_string());
    assert_eq!(settings.endpoint, "");
    assert_eq!(settings.region, "not a region");
}

#[test]
fn configure_confirms_and_stores_all_three() {
    let mut session: Session<u32> = Session::new();
    let settings = connection_settings("http://localhost:4566".to_string(), "us-east-1".to_string());
    let confirmation = session.configure(7, settings);
    assert_eq!(confirmation, "SQS configured successfully");
    assert_eq!(confirmation, CONFIGURED_MESSAGE);
    assert!(session.is_configured());
    assert_eq!(session.endpoint().map(String::as_str), Some("http://localhost:4566"));
    assert_eq!(session.region().map(String::as_str), Some("us-east-1"));
    assert_eq!(session.get_client(), Ok(7));
}

#[test]
fn configure_again_replaces_all_three() {
    let mut session = configured(1, "http://one:4566", "us-east-1");
    let held = session.get_client();
    session.configure(2, connection_settings("http://two:4566".to_string(), "eu-west-1".to_string()));
    assert_eq!(session.endpoint().map(String::as_str), Some("http://two:4566"));
    assert_eq!(session.region().map(String::as_str), Some("eu-west-1"));
    assert_eq!(session.get_client(), Ok(2));
    assert_eq!(held, Ok(1));
}

#[test]
fn every_command_is_turned_away_before_configuration() {
    let session: Session<u32> = Session::new();
    assert_eq!(list_queues(&session), Err(QueueError::NotConfigured));
    assert_eq!(
        create_queue(&session, "orders".to_string()),
        Err(QueueError::NotConfigured)
    );
    assert_eq!(
        send_message(&session, "http://h/1/orders".to_string(), "hello".to_string()),
        Err(QueueError::NotConfigured)
    );
    assert_eq!(
        receive_messages(&session, "http://h/1/orders".to_string(), 10),
        Err(QueueError::NotConfigured)
    );
    assert_eq!(
        delete_message(&session, "http://h/1/orders".to_string(), "r-1".to_string()),
        Err(QueueError::NotConfigured)
    );
}

#[test]
fn commands_are_turned_away_whatever_they_ask_for() {
    let session: Session<u32> = Session::new();
    for max in [i32::MIN, -1, 0, 1, 10, i32::MAX] {
        assert_eq!(
            receive_messages(&session, String::new(), max),
            Err(QueueError::NotConfigured)
        );
    }
    assert_eq!(create_queue(&session, String::new()), Err(QueueError::NotConfigured));
    assert_eq!(
        send_message(&session, String::new(), String::new()),
        Err(QueueError::NotConfigured)
    );
    assert_eq!(
        delete_message(&session, String::new(), String::new()),
        Err(QueueError::NotConfigured)
    );
}

#[test]
fn not_configured_reads_as_one_fixed_line() {
    let session: Session<u32> = Session::new();
    let error = list_queues(&session).unwrap_err();
    assert_eq!(error.message(), "SQS not configured");
    assert_eq!(error.message(), NOT_CONFIGURED_MESSAGE);
}

#[test]
fn commands_use_the_configured_client() {
    let session = configured(42, "http://localhost:4566", "us-east-1");
    assert_eq!(list_queues(&session), Ok(42));
    assert_eq!(
        create_queue(&session, "orders".to_string()),
        Ok((42, CreateQueueRequest { queue_name: "orders".to_string() }))
    );
    assert_eq!(
        send_message(&session, "http://h/1/orders".to_string(), "hello".to_string()),
        Ok((
            42,
            SendMessageRequest {
                queue_url: "http://h/1/orders".to_string(),
                message_body: "hello".to_string(),
            }
        ))
    );
    assert_eq!(
        delete_message(&session, "http://h/1/orders".to_string(), "r-1".to_string()),
        Ok((
            42,
            DeleteMessageRequest {
                queue_url: "http://h/1/orders".to_string(),
                receipt_handle: "r-1".to_string(),
            }
        ))
    );
    assert_eq!(session.endpoint().map(String::as_str), Some("http://localhost:4566"));
    assert_eq!(session.region().map(String::as_str), Some("us-east-1"));
}

#[test]
fn commands_use_the_new_client_after_configuring_again() {
    let mut session = configured(1, "http://one:4566", "us-east-1");
    assert_eq!(list_queues(&session), Ok(1));
    assert_eq!(list_queues(&session), Ok(1));
    session.configure(2, connection_settings("http://two:4566".to_string(), "eu-west-1".to_string()));
    assert_eq!(list_queues(&session), Ok(2));
    assert_eq!(
        create_queue(&session, "q".to_string()).map(|(client, _)| client),
        Ok(2)
    );
}

#[test]
fn receive_request_waits_five_seconds() {
    let session = configured(9, "http://localhost:4566", "us-east-1");
    assert_eq!(RECEIVE_WAIT_SECONDS, 5);
    assert_eq!(
        receive_messages(&session, "http://h/1/orders".to_string(), 10),
        Ok((
            9,
            ReceiveMessagesRequest {
                queue_url: "http://h/1/orders".to_string(),
                max_number_of_messages: 10,
                wait_time_seconds: 5,
            }
        ))
    );
}

#[test]
fn receive_request_passes_any_limit_on() {
    let session = configured(9, "http://localhost:4566", "us-east-1");
    for max in [i32::MIN, -1, 0, 1, 11, i32::MAX] {
        let (_, request) = receive_messages(&session, "u".to_string(), max).unwrap();
        assert_eq!(request.max_number_of_messages, max);
        assert_eq!(request.wait_time_seconds, 5);
    }
}

#[test]
fn create_request_passes_an_empty_name_on() {
    let session = configured(9, "http://localhost:4566", "us-east-1");
    assert_eq!(
        create_queue(&session, String::new()),
        Ok((9, CreateQueueRequest { queue_name: String::new() }))
    );
}
