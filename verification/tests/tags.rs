use coc_client::tags::{fix_tag, format_tag};

#[test]
fn format_tag_encodes_leading_hash() {
    assert_eq!(format_tag("#ABC123"), "%23ABC123");
}

#[test]
fn format_tag_prepends_when_no_hash() {
    assert_eq!(format_tag("ABC123"), "%23ABC123");
}

#[test]
fn format_tag_empty_input() {
    assert_eq!(format_tag(""), "%23");
}

#[test]
fn format_tag_encodes_only_the_leading_hash() {
    assert_eq!(format_tag("#A#B#"), "%23A#B#");
}

#[test]
fn fix_tag_uppercases_and_strips() {
    assert_eq!(fix_tag("abc 123"), "#ABC123");
}

#[test]
fn fix_tag_replaces_letter_o() {
    assert_eq!(fix_tag("po-co"), "#P0C0");
}

#[test]
fn fix_tag_keeps_canonical_input() {
    assert_eq!(fix_tag("#ABC123"), "#ABC123");
}

#[test]
fn fix_tag_empty_input() {
    assert_eq!(fix_tag(""), "#");
}

#[test]
fn fix_tag_drops_non_ascii() {
    assert_eq!(fix_tag("héllo #9"), "#HLL09");
}

#[test]
fn fix_tag_idempotent_on_samples() {
    let samples = [
        "",
        "#ABC123",
        "po-co",
        "  mixed Case O0o  ",
        "héllo wörld",
        "###",
        "0O0O",
        "a1b2c3",
    ];
    for s in samples {
        let once = fix_tag(s);
        let twice = fix_tag(&once);
        assert_eq!(twice, once);
    }
}
