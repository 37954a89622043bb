use screeps_structure::tag::same_text;
use screeps_structure::{Handle, StructureKind};

#[test]
fn same_text_of_equal_strings() {
    assert!(same_text("", ""));
    assert!(same_text("spawn", "spawn"));
    assert!(same_text("keeperLair", "keeperLair"));
    assert!(same_text("w\u{e4}ll", "w\u{e4}ll"));
}

#[test]
fn same_text_of_strings_of_other_lengths() {
    assert!(!same_text("", "a"));
    assert!(!same_text("a", ""));
    assert!(!same_text("spawn", "spawns"));
    assert!(!same_text("powerSpawn", "spawn"));
}

#[test]
fn same_text_of_strings_of_one_length() {
    assert!(!same_text("lab", "lap"));
    assert!(!same_text("road", "Road"));
    assert!(!same_text("extension", "extractor"));
    assert!(!same_text("xpawn", "spawn"));
}

#[test]
fn same_text_tells_encodings_of_one_length_apart() {
    // Two bytes each, and the first byte is the same.
    assert!(!same_text("\u{e4}", "\u{e5}"));
    // Composed and decomposed forms are different texts.
    assert!(!same_text("\u{e4}", "a\u{308}"));
}

#[test]
fn from_tag_of_a_string_built_while_running() {
    let mut tag = String::from("power");
    tag.push_str("Bank");
    assert_eq!(StructureKind::from_tag(&tag), Some(StructureKind::PowerBank));
    tag.push('s');
    assert_eq!(StructureKind::from_tag(&tag), None);
}

#[test]
fn a_new_handle_holds_what_it_was_given() {
    let handle = Handle::new(-7, "observer", false, 11, 22);
    assert_eq!(handle.id, -7);
    assert_eq!(handle.structure_type, "observer");
    assert_eq!(handle.is_structure, false);
    assert_eq!(handle.hits, 11);
    assert_eq!(handle.hits_max, 22);
    assert_eq!(
        handle,
        Handle {
            id: -7,
            structure_type: String::from("observer"),
            is_structure: false,
            hits: 11,
            hits_max: 22,
        }
    );
}
