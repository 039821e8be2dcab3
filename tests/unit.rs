use aoctool::skeleton;
use aoctool::{part1, part2, unit_name};

#[test]
fn unit_names_have_two_digits() {
    assert_eq!(unit_name(7), "day07");
    assert_eq!(unit_name(0), "day00");
    assert_eq!(unit_name(25), "day25");
    assert_eq!(unit_name(255), "day255");
    assert_eq!(unit_name(100), "day100");
}

#[test]
fn fresh_unit_has_no_solution() {
    assert_eq!(part1("inputs/input-07.txt"), Err(skeleton::Error::NoSolution));
    assert_eq!(part2(""), Err(skeleton::Error::NoSolution));
}
