use command_channel::startup::{startup_mode, StartupMode};

fn arguments(words: &[&str]) -> Vec<String> {
    words.iter().map(|w| w.to_string()).collect()
}

#[test]
fn export_flag_selects_the_one_shot_export() {
    assert_eq!(startup_mode(&arguments(&["app", "--specta"])), StartupMode::ExportSchema);
    assert_eq!(startup_mode(&arguments(&["--specta"])), StartupMode::ExportSchema);
    assert_eq!(startup_mode(&arguments(&["app", "-v", "--specta", "x"])), StartupMode::ExportSchema);
    assert_eq!(startup_mode(&arguments(&["app", "--specta", "--specta"])), StartupMode::ExportSchema);
}

#[test]
fn anything_else_serves() {
    assert_eq!(startup_mode(&arguments(&[])), StartupMode::Serve);
    assert_eq!(startup_mode(&arguments(&["app"])), StartupMode::Serve);
    assert_eq!(startup_mode(&arguments(&["app", "--spect"])), StartupMode::Serve);
    assert_eq!(startup_mode(&arguments(&["app", "--specta=1", "specta", "--SPECTA"])), StartupMode::Serve);
}
