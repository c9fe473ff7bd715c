use ssh_clipboard::path_list::{
    add_path_entry, normalize_path_entry, remove_path_entry, split_path_list,
};
use ssh_clipboard::shell_profile::{
    candidate_profile_files, remove_managed_block, render_path_block, upsert_managed_block, BlockError,
    PATH_MARKER_BEGIN, PATH_MARKER_END,
};

#[test]
fn add_remove_path_entry_is_idempotent() {
    let (added, changed) = add_path_entry("/usr/bin:/bin", "/home/u/.local/bin", ':', false);
    assert!(changed);
    let (added_again, changed_again) = add_path_entry(&added, "/home/u/.local/bin/", ':', false);
    assert!(!changed_again);
    assert_eq!(added, added_again);

    let (removed, changed_removed) =
        remove_path_entry(&added_again, "/home/u/.local/bin", ':', false);
    assert!(changed_removed);
    assert_eq!(removed, "/usr/bin:/bin");
}

#[test]
fn add_path_entry_normalizes_empty_segments() {
    let (updated, _) = add_path_entry("A;;B;", "C", ';', true);
    assert_eq!(updated, "A;B;C");
}

#[test]
fn path_entries_compare_case_and_slashes() {
    let (updated, changed) = add_path_entry("C:\\Tools;D:\\x", "c:/tools", ';', true);
    assert!(!changed);
    assert_eq!(updated, "C:\\Tools;D:\\x");
    let (updated, changed) = remove_path_entry(" C:\\Tools\\ ;D:\\x", "c:/TOOLS/", ';', true);
    assert!(changed);
    assert_eq!(updated, "D:\\x");
    let (same, changed) = remove_path_entry("a:b", "c", ':', false);
    assert!(!changed);
    assert_eq!(same, "a:b");
}

#[test]
fn split_and_normalize() {
    assert_eq!(split_path_list(" a : :b:", ':'), vec!["a", "b"]);
    assert!(split_path_list("", ':').is_empty());
    assert_eq!(normalize_path_entry(" /usr/Bin// ", false), "/usr/Bin");
    assert_eq!(normalize_path_entry("/", false), "/");
    assert_eq!(normalize_path_entry("C:\\Ab\\", true), "c:/ab");
}

#[test]
fn upsert_and_remove_managed_block_are_idempotent() {
    let block = render_path_block("/home/u/.local/bin");
    let (once, changed_once) = upsert_managed_block("", &block).unwrap();
    assert!(changed_once);
    let (twice, changed_twice) = upsert_managed_block(&once, &block).unwrap();
    assert!(!changed_twice);
    assert_eq!(once, twice);

    let (removed, changed_removed) = remove_managed_block(&twice).unwrap();
    assert!(changed_removed);
    assert_eq!(removed, "");
}

#[test]
fn path_block_layout_and_surroundings() {
    let block = render_path_block("/opt/a\"b");
    assert_eq!(
        block,
        format!("{PATH_MARKER_BEGIN}\nexport PATH=\"/opt/a\\\"b:$PATH\"\n{PATH_MARKER_END}\n")
    );
    let (with_block, _) = upsert_managed_block("alias x=y", &block).unwrap();
    assert_eq!(with_block, format!("alias x=y\n{block}"));
    let (replaced, changed) =
        upsert_managed_block(&format!("{with_block}\n\nexport A=1"), &block).unwrap();
    assert!(changed);
    assert_eq!(replaced, format!("alias x=y\n{block}export A=1\n"));
    let (removed, _) = remove_managed_block(&replaced).unwrap();
    assert_eq!(removed, "alias x=y\nexport A=1\n");
}

#[test]
fn malformed_markers_are_refused() {
    assert_eq!(
        upsert_managed_block(PATH_MARKER_BEGIN, "x"),
        Err(BlockError::Malformed)
    );
    assert_eq!(remove_managed_block(PATH_MARKER_END), Err(BlockError::Malformed));
    let reversed = format!("{PATH_MARKER_END}\n{PATH_MARKER_BEGIN}\n");
    assert_eq!(remove_managed_block(&reversed), Err(BlockError::OutOfOrder));
    assert_eq!(remove_managed_block("plain"), Ok(("plain".to_string(), false)));
}

#[test]
fn profile_candidates_are_profile_then_zprofile() {
    assert_eq!(candidate_profile_files("/home/u"), vec!["/home/u/.profile", "/home/u/.zprofile"]);
}
