use launcher::catalog::{filter, full_view, is_shown, App, Catalog, Category, FilteredView};
use launcher::launch::{shell_invocation, LaunchResult, SHELL, SHELL_RUN_SWITCH};
use launcher::loader::{choose_document, LoadError, FALLBACK_PATH, PRIMARY_PATH};
use launcher::selection::Launcher;
use launcher::text::contains_str;

fn app(name: &str) -> App {
    App {
        name: name.to_string(),
        command: format!("{}.exe", name),
        icon: None,
        description: None,
    }
}

fn category(name: &str, apps: &[&str]) -> Category {
    Category {
        name: name.to_string(),
        icon: None,
        apps: apps.iter().map(|a| app(a)).collect(),
    }
}

fn sample() -> Catalog {
    Catalog {
        categories: vec![
            category("Games", &["Chess", "Solitaire"]),
            category("Dev Tools", &["Editor", "Terminal"]),
            category("Office", &["Writer"]),
        ],
    }
}

fn shown_names(catalog: &Catalog, view: &FilteredView) -> Vec<String> {
    view.indices
        .iter()
        .map(|&i| catalog.categories[i].name.clone())
        .collect()
}

#[test]
fn substring_search_finds_runs() {
    assert!(contains_str("chess", "che"));
    assert!(contains_str("chess", "ess"));
    assert!(contains_str("chess", "chess"));
    assert!(contains_str("chess", ""));
    assert!(contains_str("", ""));
    assert!(!contains_str("chess", "chesss"));
    assert!(!contains_str("chess", "sc"));
    assert!(!contains_str("", "a"));
    assert!(contains_str("société", "été"));
}

#[test]
fn empty_query_shows_every_category_in_order() {
    let c = sample();
    let v = filter(&c, "");
    assert_eq!(v.indices, vec![0, 1, 2]);
    assert_eq!(full_view(&c).indices, vec![0, 1, 2]);
}

#[test]
fn filter_keeps_catalog_order() {
    let c = Catalog {
        categories: vec![
            category("Alpha", &["x"]),
            category("Beta", &["alphabet"]),
            category("Gamma", &["y"]),
            category("ALPHA two", &[]),
        ],
    };
    let v = filter(&c, "alpha");
    assert_eq!(v.indices, vec![0, 1, 3]);
    assert!(v.indices.windows(2).all(|w| w[0] < w[1]));
}

#[test]
fn match_ignores_case_of_query_and_names() {
    let c = sample();
    let v = filter(&c, "CHE");
    assert_eq!(shown_names(&c, &v), vec!["Games".to_string()]);
    let v = filter(&c, "zzz");
    assert!(v.indices.is_empty());
    assert!(is_shown(&c.categories[1], "dEV"));
    assert!(!is_shown(&c.categories[1], "games"));
}

#[test]
fn matched_category_keeps_all_its_apps() {
    let c = sample();
    let v = filter(&c, "term");
    assert_eq!(shown_names(&c, &v), vec!["Dev Tools".to_string()]);
    let mut l = Launcher::new(c);
    l.on_query_changed("term");
    assert_eq!(l.category_names(), vec!["Dev Tools".to_string()]);
    assert_eq!(l.category_index(), Some(0));
    assert_eq!(l.app_names(), vec!["Editor".to_string(), "Terminal".to_string()]);
}

#[test]
fn out_of_range_category_clears_selection() {
    let mut l = Launcher::new(sample());
    l.select_category(1);
    l.select_app(1);
    l.select_category(999);
    assert_eq!(l.category_index(), None);
    assert_eq!(l.app_index(), None);
    assert!(l.app_names().is_empty());
    assert!(l.resolve().is_none());
}

#[test]
fn view_change_resets_selection() {
    let mut l = Launcher::new(sample());
    l.select_category(2);
    l.select_app(0);
    l.on_view_changed(FilteredView { indices: vec![1] });
    assert_eq!(l.category_index(), Some(0));
    assert_eq!(l.app_index(), None);
    assert_eq!(l.app_names(), vec!["Editor".to_string(), "Terminal".to_string()]);
    l.on_view_changed(FilteredView { indices: vec![] });
    assert_eq!(l.category_index(), None);
    assert_eq!(l.app_index(), None);
    assert!(l.app_names().is_empty());
    assert!(l.category_names().is_empty());
}

#[test]
fn query_with_no_match_leaves_nothing_picked() {
    let mut l = Launcher::new(sample());
    l.select_category(1);
    l.on_query_changed("zzz");
    assert_eq!(l.category_index(), None);
    assert!(l.app_names().is_empty());
    l.on_query_changed("");
    assert_eq!(l.category_names().len(), 3);
    assert_eq!(l.category_index(), Some(0));
    assert_eq!(l.app_names(), vec!["Chess".to_string(), "Solitaire".to_string()]);
}

#[test]
fn resolve_picks_the_designated_app() {
    let c = Catalog {
        categories: vec![category("A", &["x", "y"]), category("B", &["z"])],
    };
    let mut l = Launcher::new(c);
    l.select_category(1);
    l.select_app(0);
    assert_eq!(l.resolve().map(|a| a.name.clone()), Some("z".to_string()));
}

#[test]
fn resolve_within_filtered_view() {
    let mut l = Launcher::new(sample());
    l.on_query_changed("writer");
    l.select_app(0);
    assert_eq!(l.resolve().map(|a| a.name.clone()), Some("Writer".to_string()));
    l.select_app(1);
    assert_eq!(l.app_index(), None);
    assert!(l.resolve().is_none());
}

#[test]
fn empty_catalog_has_nothing_to_pick() {
    let mut l = Launcher::new(Catalog { categories: vec![] });
    assert_eq!(l.category_index(), None);
    l.select_category(0);
    l.select_app(0);
    assert!(l.resolve().is_none());
    assert!(l.on_launch_requested().is_none());
}

#[test]
fn launch_request_runs_command_through_shell() {
    let mut l = Launcher::new(sample());
    assert!(l.on_launch_requested().is_none());
    l.select_category(1);
    l.select_app(1);
    let inv = l.on_launch_requested().unwrap();
    assert_eq!(inv.program, "cmd");
    assert_eq!(inv.args, vec!["/C".to_string(), "Terminal.exe".to_string()]);
}

#[test]
fn shell_invocation_passes_command_whole() {
    let inv = shell_invocation("notepad.exe a.txt && echo done");
    assert_eq!(inv.program, SHELL);
    assert_eq!(inv.args, vec![SHELL_RUN_SWITCH.to_string(), "notepad.exe a.txt && echo done".to_string()]);
    assert_ne!(LaunchResult::Spawned, LaunchResult::Failed("denied".to_string()));
}

#[test]
fn document_choice_prefers_primary_then_fallback() {
    assert_eq!(PRIMARY_PATH, "apps.json");
    assert_eq!(FALLBACK_PATH, "src/apps.json");
    assert_eq!(choose_document(Some("a".to_string()), Some("b".to_string())), Ok("a".to_string()));
    assert_eq!(choose_document(None, Some("b".to_string())), Ok("b".to_string()));
    assert_eq!(choose_document(None, None), Err(LoadError::NotFound));
    assert_ne!(LoadError::NotFound, LoadError::Malformed);
}
