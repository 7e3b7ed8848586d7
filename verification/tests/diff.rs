use matrix_sed::diff::{render_diff, render_segments, ChangeTag, DiffSegment};

fn segment(tag: ChangeTag, text: &str) -> DiffSegment {
    DiffSegment { tag, text: text.to_string() }
}

#[test]
fn render_diff_marks_the_new_word() {
    assert_eq!(render_diff("the cat sat", "the dog sat"), "the <u>dog</u> sat");
}

#[test]
fn render_diff_of_equal_texts_is_the_text() {
    assert_eq!(render_diff("the cat sat", "the cat sat"), "the cat sat");
    assert_eq!(render_diff("", ""), "");
}

#[test]
fn render_diff_drops_what_was_deleted() {
    assert_eq!(render_diff("the big cat", "the cat"), "the cat");
}

#[test]
fn render_diff_marks_what_was_added() {
    assert_eq!(render_diff("", "new"), "<u>new</u>");
    assert_eq!(render_diff("yo! foo bar baz", "yo! foo bor baz"), "yo! foo <u>bor</u> baz");
}

#[test]
fn render_diff_does_not_hand_a_text_back() {
    assert_ne!(render_diff("the cat sat", "the dog sat"), "the cat sat");
    assert_ne!(render_diff("the cat sat", "the dog sat"), "the dog sat");
}

#[test]
fn render_segments_in_order() {
    let segments = vec![
        segment(ChangeTag::Equal, "the "),
        segment(ChangeTag::Deleted, "cat"),
        segment(ChangeTag::Inserted, "dog"),
        segment(ChangeTag::Equal, " sat"),
    ];
    assert_eq!(render_segments(&segments), "the <u>dog</u> sat");
}

#[test]
fn render_segments_of_nothing_is_empty() {
    assert_eq!(render_segments(&Vec::new()), "");
    assert_eq!(render_segments(&vec![segment(ChangeTag::Deleted, "gone")]), "");
}

#[test]
fn render_segments_marks_each_inserted_piece() {
    let segments = vec![
        segment(ChangeTag::Inserted, "a"),
        segment(ChangeTag::Inserted, ""),
        segment(ChangeTag::Equal, "<b>"),
    ];
    assert_eq!(render_segments(&segments), "<u>a</u><u></u><b>");
}
