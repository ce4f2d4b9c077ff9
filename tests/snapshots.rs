use value_copy::decimal::{push_decimal, push_signed};
use value_copy::{snapshots, snapshots_of, MyStruct, DAY, MONTH, STEP, YEAR};

#[test]
fn first_snapshot_shows_literal_values() {
    let shown = snapshots();
    assert_eq!(shown[0], MyStruct(2023, 10, 11));
    assert_eq!(shown[0].render(), "MyStruct(2023, 10, 11)");
}

#[test]
fn second_and_final_snapshots_show_mutated_values() {
    let shown = snapshots();
    assert_eq!(shown[1], MyStruct(2123, 10, 11));
    assert_eq!(shown[2], MyStruct(2123, 10, 11));
    assert_eq!(shown[1].render(), "MyStruct(2123, 10, 11)");
    assert_eq!(shown[2].render(), "MyStruct(2123, 10, 11)");
}

#[test]
fn copy_made_before_mutation_is_unaffected() {
    let mut original = MyStruct(YEAR, MONTH, DAY);
    let copy = original;
    original.add_to_first(STEP);
    assert_eq!(copy, MyStruct(2023, 10, 11));
    assert_eq!(original, MyStruct(2123, 10, 11));
    for step in [-5000, -1, 0, 1, 100, 7777] {
        let shown = snapshots_of(MyStruct(2023, 10, 11), step);
        assert_eq!(shown[0], MyStruct(2023, 10, 11));
        assert_eq!(shown[1], MyStruct(2023 + step, 10, 11));
        assert_eq!(shown[2], shown[1]);
    }
}

#[test]
fn each_line_carries_its_own_address() {
    let s = MyStruct(2023, 10, 11);
    let at_entry = s.line("0x7ffd0010");
    let at_param = s.line("0x7ffd00a8");
    assert!(at_entry.ends_with(" @ 0x7ffd0010"));
    assert!(at_param.ends_with(" @ 0x7ffd00a8"));
    assert_eq!(
        at_entry.trim_end_matches("0x7ffd0010"),
        at_param.trim_end_matches("0x7ffd00a8")
    );
}

#[test]
fn program_shows_three_lines_in_order() {
    let lines: Vec<String> = snapshots().iter().map(|s| s.line("0x1000")).collect();
    assert_eq!(
        lines,
        vec![
            "my_struct : MyStruct(2023, 10, 11) @ 0x1000".to_string(),
            "my_struct : MyStruct(2123, 10, 11) @ 0x1000".to_string(),
            "my_struct : MyStruct(2123, 10, 11) @ 0x1000".to_string(),
        ]
    );
}

#[test]
fn render_matches_debug_text() {
    for s in [
        MyStruct(0, 0, 0),
        MyStruct(-1, 9, 10),
        MyStruct(i32::MIN, i32::MAX, -100),
        MyStruct(2023, 10, 11),
    ] {
        assert_eq!(s.render(), format!("{:?}", s));
    }
    assert_eq!(
        MyStruct(i32::MIN, i32::MAX, -100).render(),
        "MyStruct(-2147483648, 2147483647, -100)"
    );
}

#[test]
fn add_to_first_keeps_other_fields() {
    let mut s = MyStruct(5, -6, 7);
    s.add_to_first(-10);
    assert_eq!(s, MyStruct(-5, -6, 7));
    let mut top = MyStruct(i32::MAX - 1, 0, 0);
    top.add_to_first(1);
    assert_eq!(top, MyStruct(i32::MAX, 0, 0));
}

#[test]
fn decimal_digits_are_appended() {
    let mut out = String::from("n=");
    push_decimal(&mut out, 0);
    assert_eq!(out, "n=0");
    push_decimal(&mut out, 4294967295);
    assert_eq!(out, "n=04294967295");
    let mut signed = String::new();
    push_signed(&mut signed, -907);
    assert_eq!(signed, "-907");
}
