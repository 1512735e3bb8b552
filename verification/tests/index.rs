use walrus_store::data::FileEntry;
use walrus_store::index::{
    copy_entry, deselect, display_id, displayable, download_name, entries_for, entry_matches, find_entry,
    is_selected, remove_entries, remove_entry, select, visible_entries,
};

fn entry(id: &str, name: &str) -> FileEntry {
    FileEntry::uploaded(id.to_string(), name.to_string(), "2024-05-06 07:08:09".to_string())
}

fn sample() -> Vec<FileEntry> {
    vec![
        entry("id-1", "Report.PDF"),
        entry("id-2", "notes.txt"),
        entry("id-1", "copy of report"),
        entry("ID-3", "photo.png"),
    ]
}

fn texts(items: &[&str]) -> Vec<String> {
    items.iter().map(|item| item.to_string()).collect()
}

#[test]
fn find_entry_takes_the_first_with_the_id() {
    let files = sample();
    assert_eq!(find_entry(&files, "id-1"), Some(&files[0]));
    assert_eq!(find_entry(&files, "id-2"), Some(&files[1]));
    assert_eq!(find_entry(&files, "id-3"), None);
    assert_eq!(find_entry(&Vec::new(), "id-1"), None);
}

#[test]
fn remove_entry_takes_every_entry_with_the_id() {
    let kept = remove_entry(sample(), "id-1");
    assert_eq!(kept, vec![entry("id-2", "notes.txt"), entry("ID-3", "photo.png")]);
    assert_eq!(remove_entry(sample(), "unknown"), sample());
    assert_eq!(remove_entry(Vec::new(), "id-1"), Vec::new());
    assert_eq!(find_entry(&kept, "id-1"), None);
}

#[test]
fn remove_entries_takes_each_id() {
    let kept = remove_entries(sample(), &texts(&["ID-3", "id-1", "none"]));
    assert_eq!(kept, vec![entry("id-2", "notes.txt")]);
    assert_eq!(remove_entries(sample(), &Vec::new()), sample());
}

#[test]
fn entries_for_follows_the_ids() {
    let files = sample();
    let chosen = entries_for(&files, &texts(&["ID-3", "missing", "id-1"]));
    assert_eq!(chosen, vec![entry("ID-3", "photo.png"), entry("id-1", "Report.PDF")]);
    assert_eq!(entries_for(&files, &Vec::new()), Vec::new());
}

#[test]
fn copy_entry_keeps_all_fields() {
    let entry = entry("a", "b");
    assert_eq!(copy_entry(&entry), entry);
}

#[test]
fn download_name_falls_back_to_the_id() {
    let files = sample();
    assert_eq!(download_name(&files, "id-2"), "notes.txt");
    assert_eq!(download_name(&files, "xyz"), "downloaded_file_xyz");
    assert_eq!(download_name(&Vec::new(), ""), "downloaded_file_");
}

#[test]
fn display_id_shortens_long_ids() {
    assert_eq!(display_id("short"), "short");
    assert_eq!(display_id("0123456789"), "0123456789");
    assert_eq!(display_id("0123456789a"), "0123456789...");
    assert_eq!(display_id("Gt72sjsONf_6ySL1Mzrxbjl5_WgEWDRjTWhxN8fBeus"), "Gt72sjsONf...");
    assert_eq!(display_id("ééééééé"), "ééééé...");
    assert_eq!(display_id("ééééé"), "ééééé");
    assert_eq!(display_id(""), "");
    assert!(displayable("0123456789a"));
    assert!(displayable("ééééééé"));
    assert!(displayable("aéééé"));
    assert!(!displayable("aééééé"));
    assert!(!displayable("012345678é0"));
}

#[test]
fn selection_holds_each_id_once() {
    let selected = select(Vec::new(), "a".to_string());
    let selected = select(selected, "b".to_string());
    let selected = select(selected, "a".to_string());
    assert_eq!(selected, texts(&["a", "b"]));
    assert!(is_selected(&selected, "a"));
    assert!(!is_selected(&selected, "c"));
    let selected = deselect(selected, "a");
    assert_eq!(selected, texts(&["b"]));
    assert!(!is_selected(&selected, "a"));
    let selected = deselect(selected, "zzz");
    assert_eq!(selected, texts(&["b"]));
    assert_eq!(deselect(Vec::new(), "a"), Vec::<String>::new());
}

#[test]
fn search_ignores_letter_case_and_reads_name_and_id() {
    let files = sample();
    assert!(entry_matches(&files[0], "report"));
    assert!(entry_matches(&files[0], "PDF"));
    assert!(entry_matches(&files[0], "ID-1"));
    assert!(entry_matches(&files[0], ""));
    assert!(!entry_matches(&files[0], "notes"));
    assert!(!entry_matches(&files[0], "report.pdfx"));
    assert_eq!(visible_entries(&files, "REPORT"), vec![&files[0], &files[2]]);
    assert_eq!(visible_entries(&files, "id-"), vec![&files[0], &files[1], &files[2], &files[3]]);
    assert_eq!(visible_entries(&files, "nothing"), Vec::<&FileEntry>::new());
    assert_eq!(visible_entries(&files, "").len(), 4);
}

#[test]
fn search_reads_letters_beyond_ascii() {
    let file = entry("标识-1", "Résumé 文件.PDF");
    assert!(entry_matches(&file, "résumé"));
    assert!(entry_matches(&file, "文件.pdf"));
    assert!(entry_matches(&file, "标识"));
    assert!(!entry_matches(&file, "resume"));
}
