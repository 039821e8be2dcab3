use aoctool::line_to_append;

fn bytes(s: &str) -> Vec<u8> {
    s.as_bytes().to_vec()
}

#[test]
fn missing_file_gets_the_line() {
    assert_eq!(line_to_append(&Vec::new(), &bytes("/target/")), Some(bytes("/target/\n")));
}

#[test]
fn present_line_is_not_appended() {
    assert_eq!(line_to_append(&bytes("a\n/target/\nb\n"), &bytes("/target/")), None);
    assert_eq!(line_to_append(&bytes("/target/\n"), &bytes("/target/")), None);
}

#[test]
fn appending_twice_leaves_one_line() {
    let mut file = bytes("inputs/\n");
    for _ in 0..2 {
        if let Some(add) = line_to_append(&file, &bytes("/target/")) {
            file.extend_from_slice(&add);
        }
    }
    assert_eq!(file, bytes("inputs/\n/target/\n"));
}

#[test]
fn line_must_stand_alone() {
    // inside another line, or without its terminator, it does not count
    assert_eq!(line_to_append(&bytes("x/target/\n"), &bytes("/target/")), Some(bytes("/target/\n")));
    assert_eq!(line_to_append(&bytes("/target/x\n"), &bytes("/target/")), Some(bytes("/target/\n")));
    assert_eq!(line_to_append(&bytes("a\n/target/"), &bytes("/target/")), Some(bytes("/target/\n")));
}

#[test]
fn binary_content_is_scanned() {
    let existing = vec![0xff, 0xfe, b'\n', b'o', b'k', b'\n'];
    assert_eq!(line_to_append(&existing, &bytes("ok")), None);
    assert_eq!(line_to_append(&existing, &vec![0xff, 0xfe]), None);
    assert_eq!(line_to_append(&existing, &vec![0xff]), Some(vec![0xff, b'\n']));
}

#[test]
fn line_with_terminator_never_matches() {
    assert_eq!(line_to_append(&bytes("a\nb\n"), &bytes("a\nb")), Some(bytes("a\nb\n")));
}
