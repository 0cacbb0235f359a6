use speedy_spritesheets::paths::display_name;
use speedy_spritesheets::paths::has_png_suffix;
use std::path::PathBuf;

#[test]
fn display_name_is_the_final_segment() {
    assert_eq!(display_name(&PathBuf::from("/home/me/sprites/walk_01.png")), Some("walk_01.png".to_string()));
    assert_eq!(display_name(&PathBuf::from("walk_01.png")), Some("walk_01.png".to_string()));
    assert_eq!(display_name(&PathBuf::from("sprites/")), Some("sprites".to_string()));
}

#[test]
fn display_name_is_missing_where_the_path_names_no_file() {
    assert_eq!(display_name(&PathBuf::from("")), None);
    assert_eq!(display_name(&PathBuf::from("/")), None);
    assert_eq!(display_name(&PathBuf::from("..")), None);
    assert_eq!(display_name(&PathBuf::from("sprites/..")), None);
}

#[test]
fn png_suffix_is_recognised() {
    assert!(has_png_suffix("a.png"));
    assert!(has_png_suffix(".png"));
    assert!(has_png_suffix("archive.tar.png"));
    assert!(has_png_suffix("héros.png"));
}

#[test]
fn other_suffixes_are_not_png() {
    assert!(!has_png_suffix(""));
    assert!(!has_png_suffix("png"));
    assert!(!has_png_suffix("a.pn"));
    assert!(!has_png_suffix("a.PNG"));
    assert!(!has_png_suffix("a.png "));
    assert!(!has_png_suffix("a.jpg"));
    assert!(!has_png_suffix("apng"));
    assert!(!has_png_suffix("a.pngx"));
}

#[test]
fn display_name_depends_on_the_path_alone() {
    for text in ["/home/me/a.png", "b", "c/", "", "..", "d/e/.."] {
        let path = PathBuf::from(text);
        assert_eq!(display_name(&path), display_name(&path.clone()));
    }
}
