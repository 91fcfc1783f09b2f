use keyaura::export::{export_file_name, export_next, ExportNext, ExportOutcome};

#[test]
fn export_names_number_later_exports() {
    assert_eq!(export_file_name(0), "keyaura-settings.json");
    assert_eq!(export_file_name(1), "keyaura-settings (1).json");
    assert_eq!(export_file_name(9), "keyaura-settings (9).json");
    assert_eq!(export_file_name(10), "keyaura-settings (10).json");
    assert_eq!(export_file_name(407), "keyaura-settings (407).json");
    assert_eq!(
        export_file_name(u64::MAX),
        format!("keyaura-settings ({}).json", u64::MAX)
    );
}

#[test]
fn export_names_are_distinct() {
    let names: Vec<String> = (0..200).map(export_file_name).collect();
    for i in 0..names.len() {
        for j in 0..i {
            assert_ne!(names[i], names[j]);
        }
    }
}

#[test]
fn exporter_moves_on_only_past_taken_names() {
    assert_eq!(export_next(0, ExportOutcome::Created), ExportNext::Done);
    assert_eq!(export_next(0, ExportOutcome::AlreadyExists), ExportNext::TryNumber(1));
    assert_eq!(export_next(41, ExportOutcome::AlreadyExists), ExportNext::TryNumber(42));
    assert_eq!(export_next(3, ExportOutcome::Failed), ExportNext::GiveUp);
    assert_eq!(export_next(u64::MAX, ExportOutcome::AlreadyExists), ExportNext::GiveUp);
}
