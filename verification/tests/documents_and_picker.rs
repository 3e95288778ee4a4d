use edit_wasm::documents::{save_result, save_target, text_to_load};
use edit_wasm::file_picker::existence_query;
use edit_wasm::documents::{
    draw_handle_wants_exit, open_document, rename_after_save, wasm_draw_handle_save, wasm_save_file_as,
    DocumentInfo, SaveError, SaveOutcome,
};
use edit_wasm::file_picker::{
    finish_file_picker, overwrite_response, picker_activate, picker_activate_checked, picker_prepare,
    FilePicker,
};
use edit_wasm::state::{error_log_add, PickerMode, Requests};

fn doc(path: Option<&str>, name: &str, dirty: bool) -> DocumentInfo {
    DocumentInfo { path: path.map(|p| p.to_string()), filename: name.to_string(), has_file_id: false, dirty }
}

#[test]
fn quit_closes_clean_documents_and_stops_at_dirty_one() {
    let mut docs = vec![doc(None, "a", false), doc(None, "b", true), doc(None, "c", false)];
    let mut r = Requests::new();
    r.wants_exit = true;
    draw_handle_wants_exit(&mut docs, &mut r);
    assert_eq!(docs.len(), 2);
    assert_eq!(docs[0].filename, "b");
    assert!(r.wants_close);
    assert!(!r.exit);
}

#[test]
fn quit_ends_session_when_all_clean() {
    let mut docs = vec![doc(None, "a", false), doc(Some("x"), "x", false)];
    let mut r = Requests::new();
    draw_handle_wants_exit(&mut docs, &mut r);
    assert!(docs.is_empty());
    assert!(r.exit);
    assert!(!r.wants_close);
    let mut none: Vec<DocumentInfo> = Vec::new();
    let mut r2 = Requests::new();
    draw_handle_wants_exit(&mut none, &mut r2);
    assert!(r2.exit);
}

#[test]
fn save_without_document_or_path() {
    let mut docs: Vec<DocumentInfo> = Vec::new();
    let mut r = Requests::new();
    r.wants_save = true;
    assert!(wasm_draw_handle_save(&mut docs, &mut r, "text") == SaveOutcome::NoDocument);
    assert!(!r.wants_save);
    let mut docs = vec![doc(None, "Untitled-1.txt", true)];
    r.wants_save = true;
    assert!(wasm_draw_handle_save(&mut docs, &mut r, "text") == SaveOutcome::NeedsName);
    assert!(!r.wants_save);
    assert!(r.wants_file_picker == PickerMode::SaveAs);
    assert!(docs[0].dirty);
}

#[test]
fn save_as_without_document_is_ok() {
    let mut docs: Vec<DocumentInfo> = Vec::new();
    assert!(wasm_save_file_as(&mut docs, "n.txt", "text").is_ok());
    assert!(docs.is_empty());
}

#[test]
fn rename_after_successful_and_failed_save() {
    let mut docs = vec![doc(None, "Untitled", true), doc(Some("b"), "b", false)];
    assert!(rename_after_save(&mut docs, "new.txt", true).is_ok());
    assert_eq!(docs[0].path.as_deref(), Some("new.txt"));
    assert_eq!(docs[0].filename, "new.txt");
    assert!(!docs[0].dirty);
    assert_eq!(docs[1].filename, "b");
    let mut docs = vec![doc(Some("a"), "a", false)];
    assert!(rename_after_save(&mut docs, "z", false) == Err(SaveError::StorageRefused));
    assert_eq!(docs[0].path.as_deref(), Some("a"));
    assert!(docs[0].dirty);
}

#[test]
fn open_replaces_pristine_document() {
    let mut docs = vec![doc(None, "Untitled-1.txt", false), doc(Some("keep"), "keep", false)];
    open_document(&mut docs, "notes.txt");
    assert_eq!(docs.len(), 2);
    assert_eq!(docs[0].path.as_deref(), Some("notes.txt"));
    assert_eq!(docs[0].filename, "notes.txt");
    assert_eq!(docs[1].filename, "keep");
}

#[test]
fn open_keeps_modified_document() {
    let mut docs = vec![doc(None, "Untitled-1.txt", true)];
    open_document(&mut docs, "notes.txt");
    assert_eq!(docs.len(), 2);
    assert_eq!(docs[1].filename, "Untitled-1.txt");
    let mut empty: Vec<DocumentInfo> = Vec::new();
    open_document(&mut empty, "a");
    assert_eq!(empty.len(), 1);
}

#[test]
fn save_as_prefills_name() {
    let mut r = Requests::new();
    r.wants_file_picker = PickerMode::SaveAs;
    let mut p = FilePicker::new();
    picker_prepare(&mut r, &mut p, Some("draft.md"));
    assert!(r.wants_file_picker == PickerMode::SaveAsShown);
    assert_eq!(p.pending_name, "draft.md");
    let mut r = Requests::new();
    r.wants_file_picker = PickerMode::SaveAs;
    let mut p = FilePicker::new();
    picker_prepare(&mut r, &mut p, None);
    assert_eq!(p.pending_name, "Untitled.txt");
    picker_prepare(&mut r, &mut p, Some("other"));
    assert_eq!(p.pending_name, "Untitled.txt");
}

#[test]
fn save_as_keeps_typed_name() {
    let mut r = Requests::new();
    r.wants_file_picker = PickerMode::SaveAs;
    let mut p = FilePicker::new();
    p.pending_name = "typed".to_string();
    picker_prepare(&mut r, &mut p, Some("draft.md"));
    assert_eq!(p.pending_name, "typed");
}

#[test]
fn overwrite_needs_confirmation() {
    let mut p = FilePicker::new();
    p.pending_name = "a.txt".to_string();
    assert_eq!(picker_activate(&mut p, false, true), None);
    assert_eq!(p.overwrite_warning.as_deref(), Some("a.txt"));
    assert_eq!(overwrite_response(&mut p, true, false, false, None).as_deref(), Some("a.txt"));
    assert_eq!(p.overwrite_warning, None);
}

#[test]
fn overwrite_declined_or_dismissed() {
    let mut p = FilePicker::new();
    p.pending_name = "a.txt".to_string();
    picker_activate(&mut p, false, true);
    assert_eq!(overwrite_response(&mut p, false, false, false, None), None);
    assert_eq!(p.overwrite_warning.as_deref(), Some("a.txt"));
    assert_eq!(overwrite_response(&mut p, true, true, false, None), None);
    assert_eq!(p.overwrite_warning, None);
    picker_activate(&mut p, false, true);
    assert_eq!(overwrite_response(&mut p, true, false, true, None), None);
    assert_eq!(p.overwrite_warning, None);
}

#[test]
fn activation_of_new_name_and_in_open_dialog() {
    let mut p = FilePicker::new();
    assert_eq!(picker_activate(&mut p, true, false), None);
    p.pending_name = "b.txt".to_string();
    assert_eq!(picker_activate(&mut p, false, false).as_deref(), Some("b.txt"));
    assert_eq!(picker_activate(&mut p, true, true).as_deref(), Some("b.txt"));
    assert_eq!(picker_activate_checked(&mut p, true).as_deref(), Some("b.txt"));
    assert_eq!(p.overwrite_warning, None);
    assert_eq!(overwrite_response(&mut p, true, false, false, Some("x".to_string())).as_deref(), Some("x"));
}

#[test]
fn finishing_resets_the_dialog() {
    let mut r = Requests::new();
    r.wants_file_picker = PickerMode::Open;
    let mut p = FilePicker::new();
    p.pending_name = "x".to_string();
    p.entries = Some(vec!["x".to_string()]);
    assert!(!finish_file_picker(&mut r, &mut p, false, None));
    assert!(!finish_file_picker(&mut r, &mut p, false, Some(false)));
    assert_eq!(p.pending_name, "x");
    assert!(r.wants_file_picker == PickerMode::Open);
    assert!(finish_file_picker(&mut r, &mut p, false, Some(true)));
    assert!(r.wants_file_picker == PickerMode::Closed);
    assert_eq!(p.pending_name, "");
    assert!(p.entries.is_none());
    r.wants_file_picker = PickerMode::SaveAsShown;
    assert!(finish_file_picker(&mut r, &mut p, true, None));
    assert!(r.wants_file_picker == PickerMode::Closed);
}

#[test]
fn save_target_is_active_path() {
    assert_eq!(save_target(&Vec::new()), None);
    assert_eq!(save_target(&vec![doc(None, "x", true)]), None);
    assert_eq!(save_target(&vec![doc(Some("p.txt"), "display", true), doc(Some("q"), "q", false)]).as_deref(), Some("p.txt"));
}

#[test]
fn save_result_sets_dirty_flag() {
    let mut docs = vec![doc(Some("p"), "p", true), doc(None, "o", true)];
    assert!(save_result(&mut docs, true));
    assert!(!docs[0].dirty);
    assert!(docs[1].dirty);
    assert!(!save_result(&mut docs, false));
    assert!(docs[0].dirty);
    assert_eq!(docs[0].path.as_deref(), Some("p"));
}

#[test]
fn text_to_load_defaults_to_empty() {
    assert_eq!(text_to_load(Some("body".to_string())), "body");
    assert_eq!(text_to_load(None), "");
}

#[test]
fn existence_query_only_for_named_save_as() {
    let mut p = FilePicker::new();
    assert_eq!(existence_query(&p, false), None);
    p.pending_name = "f.txt".to_string();
    assert_eq!(existence_query(&p, true), None);
    assert_eq!(existence_query(&p, false).as_deref(), Some("f.txt"));
}

#[test]
fn failed_dialog_action_logs_an_error() {
    let mut r = Requests::new();
    r.wants_file_picker = PickerMode::SaveAsShown;
    let mut p = FilePicker::new();
    p.pending_name = "n".to_string();
    assert!(!finish_file_picker(&mut r, &mut p, false, Some(false)));
    assert_eq!(r.error_log_count, 1);
    assert!(r.wants_file_picker == PickerMode::SaveAsShown);
    assert_eq!(p.pending_name, "n");
    assert!(finish_file_picker(&mut r, &mut p, true, Some(false)));
    assert_eq!(r.error_log_count, 2);
    assert!(r.wants_file_picker == PickerMode::Closed);
    assert!(finish_file_picker(&mut r, &mut p, true, None));
    assert_eq!(r.error_log_count, 2);
}

#[test]
fn error_log_add_counts_and_saturates() {
    let mut r = Requests::new();
    error_log_add(&mut r);
    assert_eq!(r.error_log_count, 1);
    r.error_log_count = usize::MAX;
    error_log_add(&mut r);
    assert_eq!(r.error_log_count, usize::MAX);
}
