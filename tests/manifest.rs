use aoctool::{add_member, add_member_to_text, default_manifest, manifest_text, parse_manifest, Error};

fn add(text: &str, name: &str) -> Result<String, Error> {
    add_member_to_text(text, name)
}

#[test]
fn default_manifest_lists_no_member() {
    assert_eq!(default_manifest(), "[workspace]\nmembers = []\n");
}

#[test]
fn member_goes_into_empty_list() {
    assert_eq!(add("[workspace]\nmembers = []\n", "day07").unwrap(), "[workspace]\nmembers = [\"day07\"]\n");
}

#[test]
fn member_goes_to_the_end() {
    let text = "[workspace]\nmembers = [\"day01\", \"day03\"]\n";
    assert_eq!(add(text, "day02").unwrap(), "[workspace]\nmembers = [\"day01\", \"day03\", \"day02\"]\n");
}

#[test]
fn other_entries_and_comments_are_kept() {
    let text = "# top comment\n[package]\nname = \"x\"  # the name\n\n[workspace]\nresolver = \"2\"\nmembers = []\n\n[profile.release]\nlto = true\n";
    let out = add(text, "day01").unwrap();
    assert_eq!(
        out,
        "# top comment\n[package]\nname = \"x\"  # the name\n\n[workspace]\nresolver = \"2\"\nmembers = [\"day01\"]\n\n[profile.release]\nlto = true\n"
    );
}

#[test]
fn missing_workspace_is_created() {
    let out = add("[package]\nname = \"x\"\n", "day01").unwrap();
    assert!(out.starts_with("[package]\nname = \"x\"\n"));
    let mut doc = parse_manifest(&out).unwrap();
    assert_eq!(add_member(&mut doc, "day01"), Err(Error::CrateAlreadyExists("day01".to_string())));
}

#[test]
fn duplicate_member_is_refused() {
    let text = "[workspace]\nmembers = [\"day07\"]\n";
    let mut doc = parse_manifest(text).unwrap();
    assert_eq!(add_member(&mut doc, "day07"), Err(Error::CrateAlreadyExists("day07".to_string())));
    assert_eq!(manifest_text(&doc), text);
}

#[test]
fn malformed_workspace_is_refused() {
    assert_eq!(add("workspace = 1\n", "day01"), Err(Error::MalformedToml));
    assert_eq!(add("[workspace]\nmembers = \"day01\"\n", "day02"), Err(Error::MalformedToml));
    assert_eq!(add("workspace = { members = [] }\n", "day02"), Err(Error::MalformedToml));
}

#[test]
fn invalid_toml_is_refused() {
    assert_eq!(add("[workspace\nmembers = []\n", "day01"), Err(Error::ParseToml));
}

#[test]
fn unmodified_document_round_trips() {
    let text = "# c\n[workspace]\nmembers = [ \"a\" ,\"b\" ]\n";
    assert_eq!(manifest_text(&parse_manifest(text).unwrap()), text);
}

#[test]
fn document_and_text_agree() {
    let text = "[workspace]\nmembers = [\"day01\"]\n";
    let mut doc = parse_manifest(text).unwrap();
    add_member(&mut doc, "day02").unwrap();
    assert_eq!(add_member_to_text(text, "day02").unwrap(), manifest_text(&doc));
}

#[test]
fn leading_and_trailing_text_is_kept() {
    let text = "# leading\n\n[package]\nname = \"x\" # keep\n\n# trailing\n";
    let out = add(text, "day01").unwrap();
    assert_eq!(
        out,
        "# leading\n\n[package]\nname = \"x\" # keep\n\n[workspace]\nmembers = [\"day01\"]\n\n# trailing\n"
    );
    let mut doc = parse_manifest(&out).unwrap();
    assert_eq!(add_member(&mut doc, "day02"), Ok(()));
}
