use chat_client::{Action, ChatClient, ChatError, ChatLog, Msg, Req, UiState};

fn msg(sender: &str, content: &str) -> Msg {
    Msg::new(sender.to_string(), content.to_string())
}

fn connected(name: &str) -> (ChatClient, UiState) {
    let mut client = ChatClient::new();
    let mut ui = UiState::new();
    ui.set_input(name.to_string());
    let action = ui.submit();
    assert!(matches!(action, Some(Action::Connect(_))));
    assert!(client.connect_to_chat_server(&mut ui, Ok(())));
    (client, ui)
}

fn log_lines(client: &ChatClient) -> Vec<String> {
    client.chat().lines().clone()
}

#[test]
fn message_line_is_sender_colon_content() {
    assert_eq!(msg("bob", "hi").line(), "bob: hi");
    assert_eq!(msg("", "").line(), ": ");
    assert_eq!(msg("a: b", "c").line(), "a: b: c");
}

#[test]
fn submit_while_disconnected_connects_as_typed_name() {
    let mut client = ChatClient::new();
    let mut ui = UiState::new();
    ui.set_input("alice".to_string());
    let action = ui.submit();
    match action {
        Some(Action::Connect(Req { user_name })) => assert_eq!(user_name, "alice"),
        _ => panic!("expected a connect request"),
    }
    assert!(ui.submit().is_none());
    let started = client.connect_to_chat_server(&mut ui, Ok(()));
    assert!(started);
    assert!(ui.is_connected());
    assert_eq!(ui.username().unwrap(), "alice");
    assert_eq!(ui.user_input(), "");
    assert!(!ui.is_waiting());
    assert!(client.has_stream());
    assert!(client.stream_open());
}

#[test]
fn submit_while_connected_sends_under_identity() {
    let (_client, mut ui) = connected("alice");
    ui.set_input("hello".to_string());
    match ui.submit() {
        Some(Action::Send(m)) => {
            assert_eq!(m.user_name, "alice");
            assert_eq!(m.content, "hello");
        }
        _ => panic!("expected a send request"),
    }
    assert!(ui.submit().is_none());
    ui.send_finished(Ok(()));
    assert_eq!(ui.user_input(), "");
    assert_eq!(ui.username().unwrap(), "alice");
    assert!(!ui.is_waiting());
}

#[test]
fn failed_send_keeps_draft() {
    let (_client, mut ui) = connected("alice");
    ui.set_input("draft".to_string());
    assert!(ui.submit().is_some());
    ui.send_finished(Err(ChatError::Send));
    assert_eq!(ui.user_input(), "draft");
    assert_eq!(ui.username().unwrap(), "alice");
    assert!(!ui.is_waiting());
    assert!(matches!(ui.submit(), Some(Action::Send(_))));
}

#[test]
fn failed_connect_stays_disconnected_and_may_retry() {
    let mut client = ChatClient::new();
    let mut ui = UiState::new();
    ui.set_input("alice".to_string());
    assert!(ui.submit().is_some());
    assert!(!client.connect_to_chat_server(&mut ui, Err(ChatError::Connect)));
    assert!(!ui.is_connected());
    assert_eq!(ui.user_input(), "alice");
    assert!(!client.has_stream());
    assert!(matches!(ui.submit(), Some(Action::Connect(_))));
    assert!(client.connect_to_chat_server(&mut ui, Ok(())));
    assert!(ui.is_connected());
}

#[test]
fn double_connect_starts_one_pump() {
    let mut client = ChatClient::new();
    let mut ui = UiState::new();
    ui.set_input("alice".to_string());
    let mut starts = 0;
    let _ = ui.submit();
    let _ = ui.submit();
    if client.connect_to_chat_server(&mut ui, Ok(())) {
        starts += 1;
    }
    if client.connect_to_chat_server(&mut ui, Ok(())) {
        starts += 1;
    }
    assert_eq!(starts, 1);

    let mut other = UiState::new();
    other.set_input("bob".to_string());
    let _ = other.submit();
    assert!(!client.connect_to_chat_server(&mut other, Ok(())));
    assert_eq!(other.username().unwrap(), "bob");
    assert!(client.has_stream());
}

#[test]
fn connect_answer_without_request_changes_nothing() {
    let mut client = ChatClient::new();
    let mut ui = UiState::new();
    ui.set_input("alice".to_string());
    assert!(!client.connect_to_chat_server(&mut ui, Ok(())));
    assert!(!ui.is_connected());
    assert_eq!(ui.user_input(), "alice");
    assert!(!client.has_stream());
}

#[test]
fn pump_appends_received_message_at_end() {
    let (mut client, _ui) = connected("alice");
    assert!(client.deliver(&Ok(Some(msg("carol", "first")))));
    assert!(client.deliver(&Ok(Some(msg("bob", "hi")))));
    assert_eq!(log_lines(&client), vec!["carol: first".to_string(), "bob: hi".to_string()]);
}

#[test]
fn pump_keeps_delivery_order() {
    let (mut client, _ui) = connected("alice");
    let items: Vec<Result<Option<Msg>, ChatError>> = vec![
        Ok(Some(msg("a", "1"))),
        Ok(Some(msg("b", "2"))),
        Ok(Some(msg("a", "3"))),
    ];
    assert_eq!(client.pump(&items), 3);
    assert_eq!(client.chat().len(), 3);
    assert_eq!(log_lines(&client), vec!["a: 1", "b: 2", "a: 3"]);
    assert!(client.stream_open());
}

#[test]
fn pump_stops_when_stream_ends() {
    let (mut client, _ui) = connected("alice");
    let items: Vec<Result<Option<Msg>, ChatError>> =
        vec![Ok(Some(msg("bob", "hi"))), Ok(None), Ok(Some(msg("bob", "late")))];
    assert_eq!(client.pump(&items), 1);
    assert!(!client.stream_open());
    assert!(client.has_stream());
    assert_eq!(log_lines(&client), vec!["bob: hi"]);
    assert!(!client.deliver(&Ok(Some(msg("bob", "later")))));
    assert_eq!(client.chat().len(), 1);
}

#[test]
fn pump_stops_on_stream_error() {
    let (mut client, _ui) = connected("alice");
    assert!(!client.deliver(&Err(ChatError::Stream)));
    assert!(!client.stream_open());
    let items: Vec<Result<Option<Msg>, ChatError>> = vec![Ok(Some(msg("bob", "hi")))];
    assert_eq!(client.pump(&items), 0);
    assert_eq!(client.chat().len(), 0);
}

#[test]
fn pump_without_connect_appends_nothing() {
    let mut client = ChatClient::new();
    let items: Vec<Result<Option<Msg>, ChatError>> = vec![Ok(Some(msg("bob", "hi")))];
    assert_eq!(client.pump(&items), 0);
    assert!(!client.deliver(&Ok(Some(msg("bob", "hi")))));
    assert_eq!(client.chat().len(), 0);
}

#[test]
fn pump_over_no_items_keeps_stream_open() {
    let (mut client, _ui) = connected("alice");
    let items: Vec<Result<Option<Msg>, ChatError>> = Vec::new();
    assert_eq!(client.pump(&items), 0);
    assert!(client.stream_open());
}

#[test]
fn chat_log_appends_whole_lines() {
    let mut log = ChatLog::new();
    assert_eq!(log.len(), 0);
    log.append("x: y".to_string());
    log.push_message(&msg("bob", "hi"));
    assert_eq!(log.len(), 2);
    assert_eq!(log.line(0), "x: y");
    assert_eq!(log.line(1), "bob: hi");
}

#[test]
fn empty_input_is_still_submitted() {
    let mut ui = UiState::new();
    match ui.submit() {
        Some(Action::Connect(r)) => assert_eq!(r.user_name, ""),
        _ => panic!("expected a connect request"),
    }
}

#[test]
fn error_kinds_are_distinct() {
    assert_ne!(ChatError::Connect, ChatError::Send);
    assert_ne!(ChatError::Send, ChatError::Stream);
    assert_ne!(ChatError::Connect, ChatError::Stream);
}
