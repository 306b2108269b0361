use sdf_modeler::sdf_ast::{SdfSettings, SsaaLevel};
use sdf_modeler::tab::{tab_title, CompileTrigger, NoticeLevel, TabState};

#[test]
fn default_settings_have_no_supersampling() {
    assert_eq!(SdfSettings::default().ssaa_level, SsaaLevel::Off);
}

#[test]
fn titles() {
    assert_eq!(tab_title(Some("castle")), "SDF: castle");
    assert_eq!(tab_title(None), "SDF Modeler");
}

#[test]
fn recompile_only_when_setting_changed_with_project() {
    let state = TabState::new(SsaaLevel::Off);
    assert!(!state.needs_recompile(SsaaLevel::Off, true));
    assert!(state.needs_recompile(SsaaLevel::Ssaa4x4, true));
    assert!(!state.needs_recompile(SsaaLevel::Ssaa4x4, false));
}

#[test]
fn successful_open_clears_error_and_notifies() {
    let mut state = TabState::new(SsaaLevel::Off);
    state.compiler_error = Some("old".to_string());
    let effects = state.apply_compile(
        CompileTrigger::OpenProject,
        Ok(("shader".to_string(), SsaaLevel::Ssaa2x2)),
    );
    assert!(effects.reset_resources);
    let notice = effects.notice.unwrap();
    assert_eq!(notice.message, "Project opened & compiled");
    assert_eq!(notice.level, NoticeLevel::Success);
    assert_eq!(state.current_shader, "shader");
    assert_eq!(state.compiler_error, None);
    assert_eq!(state.last_applied_ssaa, SsaaLevel::Ssaa2x2);
    assert!(!state.needs_recompile(SsaaLevel::Ssaa2x2, true));
}

#[test]
fn failed_open_records_error_and_warns() {
    let mut state = TabState::new(SsaaLevel::Off);
    let effects = state.apply_compile(CompileTrigger::OpenProject, Err("Rhai Error: x".to_string()));
    assert!(!effects.reset_resources);
    let notice = effects.notice.unwrap();
    assert_eq!(notice.message, "Project opened but compilation failed");
    assert_eq!(notice.level, NoticeLevel::Warning);
    assert_eq!(state.compiler_error, Some("Rhai Error: x".to_string()));
    assert_eq!(state.current_shader, "");
    assert_eq!(state.last_applied_ssaa, SsaaLevel::Off);
}

#[test]
fn run_outcomes() {
    let mut state = TabState::new(SsaaLevel::Off);
    let ok = state.apply_compile(CompileTrigger::Run, Ok(("s1".to_string(), SsaaLevel::Off)));
    assert_eq!(ok.notice.unwrap().message, "Project compiled");
    let err = state.apply_compile(CompileTrigger::Run, Err("bad".to_string()));
    assert!(err.notice.is_none());
    assert!(!err.reset_resources);
    assert_eq!(state.compiler_error, Some("bad".to_string()));
    assert_eq!(state.current_shader, "s1");
}

#[test]
fn settings_change_keeps_error_and_stays_quiet() {
    let mut state = TabState::new(SsaaLevel::Off);
    state.compiler_error = Some("shown".to_string());
    let ok = state.apply_compile(
        CompileTrigger::SettingsChanged,
        Ok(("s2".to_string(), SsaaLevel::Ssaa8x8)),
    );
    assert!(ok.reset_resources);
    assert!(ok.notice.is_none());
    assert_eq!(state.compiler_error, Some("shown".to_string()));
    assert_eq!(state.current_shader, "s2");
    let err = state.apply_compile(CompileTrigger::SettingsChanged, Err("e".to_string()));
    assert!(err.notice.is_none());
    assert_eq!(state.compiler_error, Some("shown".to_string()));
    assert_eq!(state.last_applied_ssaa, SsaaLevel::Ssaa8x8);
}
