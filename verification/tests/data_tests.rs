use gridelle::data::RepoSection;
use gridelle::data::RepoSummary;
use gridelle::data::SectionMeta;

fn summary(name: &str, description: &str, badges: Option<&str>) -> RepoSummary {
    RepoSummary {
        name: name.to_string(),
        description: description.to_string(),
        image_url: None,
        repo_url: "https://example.com".to_string(),
        badges: badges.map(|b| b.to_string()),
        updated_at: None,
    }
}

#[test]
fn matches_query_by_name() {
    let repo = RepoSummary {
        name: "Test Repo".to_string(),
        description: "A sample description".to_string(),
        image_url: None,
        repo_url: "https://example.com".to_string(),
        badges: None,
        updated_at: None,
    };
    assert!(repo.matches_query("test"));
    assert!(repo.matches_query("Repo"));
    assert!(!repo.matches_query("missing"));
}

#[test]
fn matches_query_by_description() {
    let repo = RepoSummary {
        name: "Example".to_string(),
        description: "A Rust project".to_string(),
        image_url: None,
        repo_url: "https://example.com".to_string(),
        badges: None,
        updated_at: None,
    };
    assert!(repo.matches_query("rust"));
    assert!(repo.matches_query("project"));
}

#[test]
fn matches_query_by_badges() {
    let repo = RepoSummary {
        name: "Example".to_string(),
        description: "Description".to_string(),
        image_url: None,
        repo_url: "https://example.com".to_string(),
        badges: Some("Rust, WebAssembly, egui".to_string()),
        updated_at: None,
    };
    assert!(repo.matches_query("webassembly"));
    assert!(repo.matches_query("egui"));
    assert!(!repo.matches_query("python"));
}

#[test]
fn matches_query_empty_returns_true() {
    let repo = RepoSummary {
        name: "Example".to_string(),
        description: "Description".to_string(),
        image_url: None,
        repo_url: "https://example.com".to_string(),
        badges: None,
        updated_at: None,
    };
    assert!(repo.matches_query(""));
}

#[test]
fn filter_by_query_filters_section_items() {
    let section = RepoSection {
        name: "Test Section".to_string(),
        meta: SectionMeta::default(),
        items: vec![
            RepoSummary {
                name: "Rust Project".to_string(),
                description: "A Rust library".to_string(),
                image_url: None,
                repo_url: "https://example.com/rust".to_string(),
                badges: Some("rust, wasm".to_string()),
                updated_at: None,
            },
            RepoSummary {
                name: "Python Project".to_string(),
                description: "A Python tool".to_string(),
                image_url: None,
                repo_url: "https://example.com/python".to_string(),
                badges: Some("python".to_string()),
                updated_at: None,
            },
        ],
    };

    let filtered = section.filter_by_query("rust");
    assert_eq!(filtered.items.len(), 1);
    assert_eq!(filtered.items[0].name, "Rust Project");

    let filtered_all = section.filter_by_query("");
    assert_eq!(filtered_all.items.len(), 2);
}

#[test]
fn matching_is_case_insensitive() {
    let repo = summary("Rust Project", "", None);
    assert!(repo.matches_query("RUST"));
    assert!(repo.matches_query("rust"));
    let shouting = summary("RUST PROJECT", "", None);
    assert!(shouting.matches_query("rust"));
}

#[test]
fn badge_list_matches_each_badge() {
    let repo = summary("Example", "Description", Some("rust, wasm"));
    assert!(repo.matches_query("wasm"));
    assert!(!repo.matches_query("python"));
}

#[test]
fn empty_query_preserves_items_and_order() {
    let section = RepoSection {
        name: "Everything".to_string(),
        meta: SectionMeta { row_key: Some("primary".to_string()) },
        items: vec![
            summary("First", "one", None),
            summary("Second", "two", Some("alpha")),
            summary("Third", "three", None),
        ],
    };
    let unfiltered = section.filter_by_query("");
    assert_eq!(unfiltered.name, "Everything");
    assert_eq!(unfiltered.meta.row_key.as_deref(), Some("primary"));
    assert_eq!(unfiltered.items.len(), 3);
    assert_eq!(unfiltered.items[0].name, "First");
    assert_eq!(unfiltered.items[1].name, "Second");
    assert_eq!(unfiltered.items[2].name, "Third");
}

#[test]
fn filtering_twice_gives_what_filtering_once_gives() {
    let section = RepoSection {
        name: "Mixed".to_string(),
        meta: SectionMeta::default(),
        items: vec![
            summary("Rust Project", "A Rust library", Some("rust, wasm")),
            summary("Python Project", "A Python tool", Some("python")),
            summary("Notes", "rustic writing", None),
        ],
    };
    let once = section.filter_by_query("rust");
    let twice = once.filter_by_query("rust");
    assert_eq!(once.items.len(), 2);
    assert_eq!(twice.items.len(), once.items.len());
    for (a, b) in once.items.iter().zip(twice.items.iter()) {
        assert_eq!(a.name, b.name);
    }
}

#[test]
fn cloned_section_equals_the_original() {
    let section = RepoSection {
        name: "Original".to_string(),
        meta: SectionMeta { row_key: Some("hero".to_string()) },
        items: vec![summary("Rust Project", "A Rust library", Some("rust, wasm"))],
    };
    let copy = section.clone();
    assert_eq!(copy.name, section.name);
    assert_eq!(copy.meta.row_key, section.meta.row_key);
    assert_eq!(copy.items.len(), section.items.len());
    assert_eq!(copy.items[0].name, section.items[0].name);
    assert_eq!(copy.items[0].badges, section.items[0].badges);
}

#[test]
fn filtered_items_keep_relative_order() {
    let section = RepoSection {
        name: "Ordered".to_string(),
        meta: SectionMeta::default(),
        items: vec![
            summary("alpha rust", "", None),
            summary("beta", "", None),
            summary("gamma rust", "", None),
            summary("delta rust", "", None),
        ],
    };
    let filtered = section.filter_by_query("rust");
    let names: Vec<&str> = filtered.items.iter().map(|i| i.name.as_str()).collect();
    assert_eq!(names, vec!["alpha rust", "gamma rust", "delta rust"]);
}
