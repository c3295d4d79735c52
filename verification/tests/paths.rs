use cosmic_ray::Opt;

fn opt(filepath: &str, origin: &str) -> Opt {
    Opt {
        filepath: filepath.to_string(),
        origin: origin.to_string(),
        pos: None,
        pattern: 1,
    }
}

#[test]
fn backup_path_replaces_extension() {
    assert_eq!(opt("target.json", "orig").get_original_filepath(), "target.orig");
}

#[test]
fn backup_path_replaces_last_extension_only() {
    assert_eq!(
        opt("dir/file.tar.gz", "orig").get_original_filepath(),
        "dir/file.tar.orig"
    );
}

#[test]
fn backup_path_appends_when_no_extension() {
    assert_eq!(opt("noext", "orig").get_original_filepath(), "noext.orig");
}

#[test]
fn backup_path_keeps_hidden_file_name() {
    assert_eq!(opt(".hidden", "orig").get_original_filepath(), ".hidden.orig");
    assert_eq!(
        opt("dir/.hidden", "orig").get_original_filepath(),
        "dir/.hidden.orig"
    );
}

#[test]
fn backup_path_ignores_dot_in_directory() {
    assert_eq!(opt("a.b/c", "orig").get_original_filepath(), "a.b/c.orig");
}

#[test]
fn backup_path_with_custom_origin() {
    assert_eq!(opt("target.json", "bak").get_original_filepath(), "target.bak");
}
