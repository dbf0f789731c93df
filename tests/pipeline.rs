use exo::{
    classify_body, classify_response, decimal_text, finish_load, render_content, render_error,
    status_line, BrowserController, ContentState, ExoError, Message, Shell, Url,
};

fn network_detail(e: &ExoError) -> String {
    match e {
        ExoError::Network(d) => d.clone(),
        other => panic!("expected a network error, got {:?}", other),
    }
}

#[test]
fn example_com_loads_in_order() {
    let mut controller = BrowserController::new();
    let url = controller.load_url("https://example.com".to_string()).expect("a fetch is due");
    assert_eq!(url.as_str(), "https://example.com/");
    controller.complete_load(url, Ok("<html>hi</html>".to_string()));
    let updates = controller.take_updates();
    assert_eq!(updates.len(), 2);
    match &updates[0] {
        ContentState::Loading(u) => assert_eq!(u.as_str(), "https://example.com/"),
        other => panic!("expected Loading, got {:?}", other),
    }
    match &updates[1] {
        ContentState::Loaded(u, output) => {
            assert_eq!(u.as_str(), "https://example.com/");
            assert_eq!(output.text_content, "<html>hi</html>");
        }
        other => panic!("expected Loaded, got {:?}", other),
    }
    assert!(controller.take_updates().is_empty());
}

#[test]
fn not_a_url_gives_one_error() {
    let mut controller = BrowserController::new();
    assert!(controller.load_url("not a url".to_string()).is_none());
    let updates = controller.take_updates();
    assert_eq!(updates.len(), 1);
    match &updates[0] {
        ContentState::Error(u, ExoError::UrlParse(detail)) => {
            assert_eq!(u.as_str(), "exo://error");
            assert_eq!(u.scheme(), "exo");
            assert!(detail.starts_with("Invalid URL [not a url]: "));
            assert_eq!(detail, "Invalid URL [not a url]: relative URL without a base");
        }
        other => panic!("expected a UrlParse error, got {:?}", other),
    }
}

#[test]
fn disallowed_scheme_is_an_error_without_fetch() {
    let mut controller = BrowserController::new();
    assert!(controller.load_url("ftp://x".to_string()).is_none());
    let updates = controller.take_updates();
    assert_eq!(updates.len(), 1);
    match &updates[0] {
        ContentState::Error(u, ExoError::UrlParse(detail)) => {
            assert_eq!(u.scheme(), "ftp");
            assert_eq!(u.as_str(), "ftp://x/");
            assert_eq!(detail, "scheme not supported");
        }
        other => panic!("expected a UrlParse error, got {:?}", other),
    }
    match controller.current_state() {
        ContentState::Error(_, ExoError::UrlParse(_)) => {}
        other => panic!("expected an error state, got {:?}", other),
    }
}

#[test]
fn http_scheme_is_fetched() {
    let mut controller = BrowserController::new();
    let url = controller.load_url("http://localhost:8080/a?b=c".to_string()).expect("a fetch is due");
    assert_eq!(url.scheme(), "http");
    assert_eq!(url.as_str(), "http://localhost:8080/a?b=c");
    match controller.current_state() {
        ContentState::Loading(u) => assert_eq!(u.as_str(), "http://localhost:8080/a?b=c"),
        other => panic!("expected Loading, got {:?}", other),
    }
}

#[test]
fn parse_normalises_the_url() {
    let url = Url::parse("HTTPS://Example.COM").expect("a valid URL");
    assert_eq!(url.as_str(), "https://example.com/");
    assert_eq!(url.scheme(), "https");
    assert_eq!(url.to_string(), "https://example.com/");
    assert!(url.has_scheme("https"));
    assert!(!url.has_scheme("http"));
    assert!(Url::parse("").is_err());
    assert_eq!(Url::parse("no scheme").unwrap_err(), "relative URL without a base");
}

#[test]
fn successful_fetch_is_loaded_with_the_body() {
    let url = Url::parse("https://example.org/page").unwrap();
    match finish_load(url, Ok("body text".to_string())) {
        ContentState::Loaded(u, output) => {
            assert_eq!(u.as_str(), "https://example.org/page");
            assert_eq!(output.text_content, "body text");
        }
        other => panic!("expected Loaded, got {:?}", other),
    }
}

#[test]
fn failed_fetch_is_an_error_state() {
    let mut controller = BrowserController::new();
    let url = controller.load_url("https://example.org".to_string()).unwrap();
    controller.complete_load(url, Err(ExoError::Network("HTTP Error: 404 Not Found".to_string())));
    let updates = controller.take_updates();
    assert_eq!(updates.len(), 2);
    match &updates[1] {
        ContentState::Error(u, ExoError::Network(detail)) => {
            assert_eq!(u.as_str(), "https://example.org/");
            assert_eq!(detail, "HTTP Error: 404 Not Found");
        }
        other => panic!("expected a network error, got {:?}", other),
    }
}

#[test]
fn not_found_status_names_the_code() {
    let err = classify_response(Ok(404)).unwrap_err();
    let detail = network_detail(&err);
    assert!(detail.contains("404"));
    assert_eq!(detail, "HTTP Error: 404 Not Found");
}

#[test]
fn success_statuses_go_on_to_the_body() {
    assert!(classify_response(Ok(200)).is_ok());
    assert!(classify_response(Ok(204)).is_ok());
    assert!(classify_response(Ok(299)).is_ok());
    assert!(classify_response(Ok(199)).is_err());
    assert!(classify_response(Ok(300)).is_err());
}

#[test]
fn server_error_status_text() {
    let err = classify_response(Ok(500)).unwrap_err();
    assert_eq!(network_detail(&err), "HTTP Error: 500 Internal Server Error");
}

#[test]
fn transport_failure_is_a_network_error() {
    let err = classify_response(Err("connection refused".to_string())).unwrap_err();
    assert_eq!(network_detail(&err), "Request failed: connection refused");
}

#[test]
fn body_read_failure_is_a_network_error() {
    let err = classify_body(Err("stream truncated".to_string())).unwrap_err();
    assert_eq!(network_detail(&err), "Failed to read response body: stream truncated");
    assert_eq!(classify_body(Ok("<p>ok</p>".to_string())).unwrap(), "<p>ok</p>");
}

#[test]
fn status_lines() {
    assert_eq!(status_line(404), "404 Not Found");
    assert_eq!(status_line(200), "200 OK");
    assert_eq!(status_line(999), "999 <unknown status code>");
    assert_eq!(status_line(42), "42 <unknown status code>");
    assert_eq!(status_line(1000), "1000 <unknown status code>");
}

#[test]
fn decimal_texts() {
    assert_eq!(decimal_text(0), "0");
    assert_eq!(decimal_text(7), "7");
    assert_eq!(decimal_text(10), "10");
    assert_eq!(decimal_text(404), "404");
    assert_eq!(decimal_text(65535), "65535");
}

#[test]
fn reloading_a_loaded_url_fetches_again() {
    let mut controller = BrowserController::new();
    let url = controller.load_url("https://example.com".to_string()).unwrap();
    controller.complete_load(url, Ok("first".to_string()));
    let again = controller.load_url("https://example.com".to_string()).expect("fetched again");
    controller.complete_load(again, Ok("second".to_string()));
    let updates = controller.take_updates();
    assert_eq!(updates.len(), 4);
    assert!(matches!(updates[2], ContentState::Loading(_)));
    match &updates[3] {
        ContentState::Loaded(_, output) => assert_eq!(output.text_content, "second"),
        other => panic!("expected Loaded, got {:?}", other),
    }
}

#[test]
fn a_new_controller_is_idle() {
    let mut controller = BrowserController::new();
    assert!(matches!(controller.current_state(), ContentState::Idle));
    assert!(controller.take_updates().is_empty());
}

#[test]
fn render_content_passes_text_through() {
    assert_eq!(render_content("<html>hi</html>").text_content, "<html>hi</html>");
    assert_eq!(render_content("").text_content, "");
}

#[test]
fn render_error_shows_the_debug_form() {
    let out = render_error(&ExoError::Network("HTTP Error: 404 Not Found".to_string()));
    assert_eq!(out.text_content, "Error loading page:\n\nNetwork(\"HTTP Error: 404 Not Found\")");
    assert_eq!(render_error(&ExoError::Unknown).text_content, "Error loading page:\n\nUnknown");
    assert_eq!(
        render_error(&ExoError::Core("boom".to_string())).text_content,
        "Error loading page:\n\nCore(\"boom\")"
    );
    let err = ExoError::UrlParse("say \"hi\"\n".to_string());
    assert_eq!(render_error(&err).text_content, format!("Error loading page:\n\n{:?}", err));
}

#[test]
fn debug_form_matches_derived_debug() {
    let errors = vec![
        ExoError::Network("a\\b".to_string()),
        ExoError::UrlParse("tab\there".to_string()),
        ExoError::Core("\"quoted\"".to_string()),
        ExoError::Unknown,
    ];
    for e in errors {
        assert_eq!(e.debug_form(), format!("{:?}", e));
    }
    assert_eq!(ExoError::UrlParse("x\"y".to_string()).debug_form(), "UrlParse(\"x\\\"y\")");
}

#[test]
fn error_messages_and_details() {
    assert_eq!(ExoError::UrlParse("bad".to_string()).message(), "URL parsing error: bad");
    assert_eq!(ExoError::Core("boom".to_string()).message(), "Browser core error: boom");
    assert_eq!(ExoError::Network("down".to_string()).message(), "Network error: down");
    assert_eq!(ExoError::Unknown.message(), "Unknown error");
    assert_eq!(ExoError::Core("boom".to_string()).detail(), Some("boom"));
    assert_eq!(ExoError::Unknown.detail(), None);
}

#[test]
fn shell_follows_messages() {
    let mut shell = Shell::new("https://example.com".to_string());
    assert_eq!(shell.content_text(), "Enter a URL and click 'Go'.");
    assert!(shell.update(Message::UrlInputChanged("not a url".to_string())).is_none());
    assert_eq!(shell.url_input, "not a url");
    assert_eq!(shell.update(Message::LoadButtonPressed), Some("not a url".to_string()));
    assert_eq!(shell.content_text(), "Loading exo://loading...");
    let mut controller = BrowserController::new();
    assert!(controller.load_url("not a url".to_string()).is_none());
    for state in controller.take_updates() {
        shell.update(Message::ContentUpdate(state));
    }
    assert_eq!(
        shell.content_text(),
        "Error: UrlParse(\"Invalid URL [not a url]: relative URL without a base\")"
    );
    shell.update(Message::UrlInputChanged("https://example.com".to_string()));
    let input = shell.update(Message::LoadButtonPressed).expect("a load is requested");
    assert_eq!(shell.content_text(), "Loading https://example.com/...");
    let url = controller.load_url(input).expect("a fetch is due");
    let done = finish_load(url, Ok("<b>page</b>".to_string()));
    assert!(shell.update(Message::ContentUpdate(done)).is_none());
    assert_eq!(shell.content_text(), "<b>page</b>");
}

#[test]
fn shell_shows_loading_for_any_parsable_scheme() {
    let mut shell = Shell::new("ftp://x".to_string());
    shell.update(Message::LoadButtonPressed);
    assert_eq!(shell.content_text(), "Loading ftp://x/...");
}

#[test]
fn placeholder_url_is_fixed() {
    let u = Url::placeholder();
    assert_eq!(u.as_str(), "exo://error");
    assert_eq!(u.scheme(), "exo");
    assert_eq!(Url::parse("exo://error").unwrap().as_str(), u.as_str());
    let l = Url::loading_placeholder();
    assert_eq!(l.as_str(), "exo://loading");
    assert_eq!(l.scheme(), "exo");
    assert_eq!(Url::parse("exo://loading").unwrap().as_str(), l.as_str());
}
