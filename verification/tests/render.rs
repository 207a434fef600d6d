use project_list::render::{build_list, machine_round_trip, render_output, OutputMode};

#[test]
fn human_empty_prints_exactly_the_empty_message() {
    let items: Vec<String> = Vec::new();
    let out = build_list(&items, "Projects", "No projects found on this system.");
    assert_eq!(out, "No projects found on this system.");
    assert!(!out.contains("Projects"));
}

#[test]
fn human_two_items_prints_a_titled_list_in_order() {
    let items = vec!["proj-a".to_owned(), "proj-b".to_owned()];
    let out = build_list(&items, "Projects", "No projects found on this system.");
    assert_eq!(out, "Projects:\n  proj-a\n  proj-b\n");
}

#[test]
fn human_keeps_duplicates_unchanged() {
    let items = vec!["twin".to_owned(), "twin".to_owned()];
    let out = build_list(&items, "Projects", "No projects found on this system.");
    assert_eq!(out, "Projects:\n  twin\n  twin\n");
}

#[test]
fn render_human_mode_writes_the_human_form() {
    let items = vec!["proj-a".to_owned()];
    let out = render_output(&items, "Projects", "No projects found on this system.", OutputMode::Human);
    assert_eq!(out, "Projects:\n  proj-a\n");
}

#[test]
fn render_machine_mode_empty_is_an_empty_array() {
    let items: Vec<String> = Vec::new();
    let out = render_output(&items, "Projects", "No projects found on this system.", OutputMode::Machine);
    assert_eq!(out, "[]");
}

#[test]
fn render_machine_mode_is_a_pretty_array_preserving_order() {
    let items = vec!["proj-a".to_owned(), "proj-b".to_owned()];
    let out = render_output(&items, "Projects", "No projects found on this system.", OutputMode::Machine);
    assert_eq!(out, "[\n  \"proj-a\",\n  \"proj-b\"\n]");
    let back: Vec<String> = serde_json::from_str(&out).unwrap();
    assert_eq!(back, items);
}

#[test]
fn machine_output_round_trips() {
    let items = vec!["proj-a".to_owned(), "proj-b".to_owned()];
    assert_eq!(machine_round_trip(&items), items);
}

#[test]
fn machine_round_trip_keeps_an_empty_collection() {
    let items: Vec<String> = Vec::new();
    assert_eq!(machine_round_trip(&items), items);
}

#[test]
fn machine_round_trip_keeps_duplicates_and_escapes() {
    let items = vec!["twin".to_owned(), "twin".to_owned(), "a \"quoted\" name\n".to_owned()];
    assert_eq!(machine_round_trip(&items), items);
}

#[test]
fn machine_mode_serializes_every_string_collection() {
    let items = vec!["a \"quoted\" name\n".to_owned(), "newline \n and tab \t".to_owned()];
    let out = render_output(&items, "Projects", "No projects found on this system.", OutputMode::Machine);
    let back: Vec<String> = serde_json::from_str(&out).unwrap();
    assert_eq!(back, items);
}
