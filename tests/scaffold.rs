use aoctool::{
    add_member, default_manifest, line_to_append, manifest_text, parse_manifest, render_templates, unit_name,
    TemplateContext,
};

#[test]
fn unit_seven_of_a_fresh_scope() {
    // a fresh implementation directory: default manifest and ignore file
    let mut ignore: Vec<u8> = Vec::new();
    if let Some(add) = line_to_append(&ignore, &b"/target/".to_vec()) {
        ignore.extend_from_slice(&add);
    }
    let name = unit_name(7);
    assert_eq!(name, "day07");

    let mut doc = parse_manifest(&default_manifest()).unwrap();
    add_member(&mut doc, &name).unwrap();
    assert_eq!(manifest_text(&doc), "[workspace]\nmembers = [\"day07\"]\n");

    let names = vec!["src/main.rs".to_string()];
    let texts = vec!["const DAY: u8 = {day};\nuse {package_name}::part1;\n".to_string()];
    let ctx = TemplateContext { year: 2023, day: 7, package_name: name.clone() };
    let out = render_templates(&names, &texts, &vec![false], &ctx).unwrap();
    assert_eq!(out, vec!["const DAY: u8 = 7;\nuse day07::part1;\n".to_string()]);

    assert_eq!(ignore, b"/target/\n".to_vec());
}
