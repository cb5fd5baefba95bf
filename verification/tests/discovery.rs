use pngshrink::{classify_entries, has_png_extension, DirEntry};

fn file(path: &str) -> DirEntry {
    DirEntry { path: path.to_string(), is_dir: false }
}

fn dir(path: &str) -> DirEntry {
    DirEntry { path: path.to_string(), is_dir: true }
}

#[test]
fn extension_match_is_exact() {
    assert!(has_png_extension("a.png"));
    assert!(has_png_extension("dir/b.png"));
    assert!(has_png_extension("a..png"));
}

#[test]
fn extension_match_is_case_sensitive() {
    assert!(!has_png_extension("a.PNG"));
    assert!(!has_png_extension("a.Png"));
}

#[test]
fn hidden_file_without_stem_has_no_extension() {
    assert!(!has_png_extension(".png"));
    assert!(!has_png_extension("dir/.png"));
}

#[test]
fn multibyte_names_match_by_character() {
    assert!(has_png_extension("fötö.png"));
    assert!(!has_png_extension("bild.pnö"));
}

#[test]
fn other_names_do_not_match() {
    assert!(!has_png_extension("apng"));
    assert!(!has_png_extension("a.txt"));
    assert!(!has_png_extension("png"));
    assert!(!has_png_extension(""));
}

#[test]
fn directory_listing_is_split_into_files_and_subdirs() {
    // three matching files, two non-matching files and one subdirectory
    // holding one matching file: four candidate paths in all
    let root = vec![
        file("a.png"),
        file("notes.txt"),
        file("b.png"),
        dir("sub"),
        file("photo.jpg"),
        file("c.png"),
    ];
    let (pngs, dirs) = classify_entries(&root);
    assert_eq!(pngs, vec!["a.png", "b.png", "c.png"]);
    assert_eq!(dirs, vec!["sub"]);

    let sub = vec![file("sub/d.png"), file("sub/readme.md")];
    let (sub_pngs, sub_dirs) = classify_entries(&sub);
    assert_eq!(sub_pngs, vec!["sub/d.png"]);
    assert!(sub_dirs.is_empty());

    assert_eq!(pngs.len() + sub_pngs.len(), 4);
}

#[test]
fn directory_named_like_an_image_is_walked_not_collected() {
    let entries = vec![dir("x.png"), file("y.png")];
    let (pngs, dirs) = classify_entries(&entries);
    assert_eq!(pngs, vec!["y.png"]);
    assert_eq!(dirs, vec!["x.png"]);
}

#[test]
fn empty_listing_yields_nothing() {
    let (pngs, dirs) = classify_entries(&Vec::new());
    assert!(pngs.is_empty());
    assert!(dirs.is_empty());
}
