use gridelle::data::RepoSection;
use gridelle::data::RepoSummary;
use gridelle::data::SectionMeta;
use gridelle::loader::FetchOutcome;
use gridelle::loader::PortfolioLoadState;
use gridelle::loader::PortfolioLoader;
use gridelle::loader::resolve_outcome;

fn section(name: &str, item_names: &[&str]) -> RepoSection {
    RepoSection {
        name: name.to_string(),
        meta: SectionMeta::default(),
        items: item_names
            .iter()
            .map(|n| RepoSummary {
                name: n.to_string(),
                description: String::new(),
                image_url: None,
                repo_url: "https://example.com".to_string(),
                badges: None,
                updated_at: None,
            })
            .collect(),
    }
}

fn error_message(state: &PortfolioLoadState) -> &str {
    match state {
        PortfolioLoadState::Error(message) => message.as_str(),
        _ => panic!("expected an error state"),
    }
}

#[test]
fn start_loading_dispatches_exactly_one_fetch() {
    let mut loader = PortfolioLoader::new();
    assert!(matches!(loader.state(), PortfolioLoadState::NotStarted));
    let first = loader.start_loading();
    let second = loader.start_loading();
    assert!(first);
    assert!(!second);
    assert!(matches!(loader.state(), PortfolioLoadState::Loading));
}

#[test]
fn start_loading_after_loaded_keeps_sections() {
    let mut loader = PortfolioLoader::new();
    assert!(loader.start_loading());
    loader.finish_loading(FetchOutcome::Sections(vec![section("Tools", &["One", "Two"])]));
    let again = loader.start_loading();
    assert!(!again);
    match loader.state() {
        PortfolioLoadState::Loaded(sections) => {
            assert_eq!(sections.len(), 1);
            assert_eq!(sections[0].name, "Tools");
            assert_eq!(sections[0].items.len(), 2);
            assert_eq!(sections[0].items[0].name, "One");
            assert_eq!(sections[0].items[1].name, "Two");
        }
        _ => panic!("loader should stay loaded"),
    }
}

#[test]
fn start_loading_after_error_stays_in_error() {
    let mut loader = PortfolioLoader::new();
    assert!(loader.start_loading());
    loader.finish_loading(FetchOutcome::Transport("connection refused".to_string()));
    assert!(!loader.start_loading());
    assert_eq!(
        error_message(&loader.state()),
        "Network error: connection refused"
    );
}

#[test]
fn successful_load_keeps_document_order() {
    let mut loader = PortfolioLoader::new();
    assert!(matches!(loader.state(), PortfolioLoadState::NotStarted));
    assert!(loader.start_loading());
    assert!(matches!(loader.state(), PortfolioLoadState::Loading));
    loader.finish_loading(FetchOutcome::Sections(vec![
        section("Featured Work", &["A"]),
        section("Experiments", &["B", "C"]),
    ]));
    match loader.state() {
        PortfolioLoadState::Loaded(sections) => {
            assert_eq!(sections.len(), 2);
            assert_eq!(sections[0].name, "Featured Work");
            assert_eq!(sections[1].name, "Experiments");
        }
        _ => panic!("loader should be loaded"),
    }
}

#[test]
fn http_failure_message_mentions_the_status() {
    let mut loader = PortfolioLoader::new();
    assert!(loader.start_loading());
    loader.finish_loading(FetchOutcome::HttpFailure(
        500,
        "Internal Server Error".to_string(),
    ));
    let state = loader.state();
    let message = error_message(&state);
    assert!(message.contains("500"));
    assert_eq!(message, "HTTP error: 500 Internal Server Error");
}

#[test]
fn each_failure_resolves_to_its_message() {
    let transport = resolve_outcome(FetchOutcome::Transport("timed out".to_string()));
    assert_eq!(error_message(&transport), "Network error: timed out");

    let http = resolve_outcome(FetchOutcome::HttpFailure(404, "Not Found".to_string()));
    assert_eq!(error_message(&http), "HTTP error: 404 Not Found");

    let body = resolve_outcome(FetchOutcome::BodyNotText);
    assert_eq!(error_message(&body), "Response body is not valid UTF-8");

    let parse = resolve_outcome(FetchOutcome::Malformed("missing field".to_string()));
    assert_eq!(error_message(&parse), "YAML parse error: missing field");
}

#[test]
fn status_codes_render_in_decimal() {
    let smallest = resolve_outcome(FetchOutcome::HttpFailure(0, "Unknown".to_string()));
    assert_eq!(error_message(&smallest), "HTTP error: 0 Unknown");

    let largest = resolve_outcome(FetchOutcome::HttpFailure(65535, "Custom".to_string()));
    assert_eq!(error_message(&largest), "HTTP error: 65535 Custom");
}

#[test]
fn default_loader_and_state_start_not_started() {
    assert!(matches!(
        PortfolioLoadState::default(),
        PortfolioLoadState::NotStarted
    ));
    let loader = PortfolioLoader::default();
    assert!(matches!(loader.state(), PortfolioLoadState::NotStarted));
}

#[test]
fn state_is_a_snapshot_not_a_live_view() {
    let mut loader = PortfolioLoader::new();
    assert!(loader.start_loading());
    let snapshot = loader.state();
    loader.finish_loading(FetchOutcome::Sections(vec![section("New", &[])]));
    assert!(matches!(snapshot, PortfolioLoadState::Loading));
    assert!(matches!(loader.state(), PortfolioLoadState::Loaded(_)));
}
