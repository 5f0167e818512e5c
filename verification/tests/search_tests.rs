use rustautogui::backup::{backup_alias, contains, macos_backup_search, needs_backup_search, DEFAULT_ALIAS, DEFAULT_BCKP_ALIAS};
use rustautogui::errors::AutoGuiError;
use rustautogui::search::{search_loop_step, LoopStep, center_location, check_loop_timeout, find_image_on_screen, loop_timeout_warning, move_target, run_x_corr};
use rustautogui::template::{MatchInput, MatchMode, PreparedData, Template};

fn template(data: PreparedData<u8, u16>, mode: MatchMode) -> Template<u8, u16> {
    Template::new(data, (100, 200, 50, 60), mode, (10, 21))
}

fn image_message(e: &AutoGuiError) -> String {
    match e {
        AutoGuiError::ImageError(ie) => ie.message.clone(),
        other => panic!("unexpected error {:?}", other),
    }
}

#[test]
fn template_new_sets_fields() {
    let t = template(PreparedData::Segmented(1), MatchMode::Segmented);
    assert_eq!(t.region, (100, 200, 50, 60));
    assert_eq!(t.match_mode, Some(MatchMode::Segmented));
    assert_eq!((t.width, t.height), (10, 21));
}

#[test]
fn match_input_picks_the_prepared_data() {
    let t = template(PreparedData::Segmented(7), MatchMode::Segmented);
    assert!(matches!(t.match_input(), Ok(MatchInput::Segmented(&7))));
    let t = template(PreparedData::FFT(9), MatchMode::FFT);
    assert!(matches!(t.match_input(), Ok(MatchInput::FFT(&9))));
}

#[test]
fn match_input_refuses_mismatched_data() {
    let t = template(PreparedData::FFT(9), MatchMode::Segmented);
    let e = t.match_input().err().unwrap();
    assert_eq!(image_message(&e), "error in prepared data type. Matchmode does not match prepare data type");
    let t = template(PreparedData::NotPrepared, MatchMode::FFT);
    assert!(t.match_input().is_err());
}

#[test]
fn match_input_refuses_template_without_mode() {
    let mut t = template(PreparedData::Segmented(1), MatchMode::Segmented);
    t.match_mode = None;
    let e = t.match_input().err().unwrap();
    assert_eq!(
        image_message(&e),
        "No template chosen and no template data prepared. Please run load_and_prepare_template before searching image on screen"
    );
}

#[test]
fn run_x_corr_reports_only_nonempty_results() {
    assert_eq!(run_x_corr::<f32>(vec![]), None);
    assert_eq!(run_x_corr(vec![(1, 2, 0.5f32)]), Some(vec![(1, 2, 0.5f32)]));
}

#[test]
fn find_image_on_screen_centres_locations() {
    let t = template(PreparedData::Segmented(1), MatchMode::Segmented);
    assert_eq!(center_location(&t, 1, 2), (1 + 100 + 5, 2 + 200 + 10));
    let found = Some(vec![(1u32, 2u32, 0.9f32), (0, 0, 0.7)]);
    assert_eq!(find_image_on_screen(&t, found), Some(vec![(106, 212, 0.9), (105, 210, 0.7)]));
    assert_eq!(find_image_on_screen::<u8, u16, f32>(&t, None), None);
}

#[test]
fn move_target_is_the_first_location() {
    assert_eq!(move_target(&Some(vec![(4u32, 5u32, 0.1f32), (6, 7, 0.9)])), Some((4, 5)));
    assert_eq!(move_target::<f32>(&None), None);
}

#[test]
fn loop_timeout_rules() {
    assert!(loop_timeout_warning(0, false));
    assert!(!loop_timeout_warning(0, true));
    assert!(!loop_timeout_warning(5, false));
    assert!(check_loop_timeout(5, 5).is_ok());
    assert!(check_loop_timeout(1_000_000, 0).is_ok());
    let e = check_loop_timeout(6, 5).unwrap_err();
    assert_eq!(image_message(&e), "loop find image timed out. Could not find image");
}

#[test]
fn contains_finds_substrings() {
    assert!(contains("hello world", "lo w"));
    assert!(contains("abc", ""));
    assert!(contains("abc", "abc"));
    assert!(!contains("abc", "abcd"));
    assert!(!contains("abc", "ac"));
}

#[test]
fn backup_alias_is_built_from_the_alias() {
    assert_eq!(backup_alias("socket"), format!("socket_{}", DEFAULT_BCKP_ALIAS));
    assert_eq!(backup_alias(DEFAULT_ALIAS), DEFAULT_BCKP_ALIAS.to_string());
}

#[test]
fn backup_search_runs_once() {
    assert!(needs_backup_search(true, "socket"));
    assert!(!needs_backup_search(false, "socket"));
    let alias = backup_alias("socket");
    assert!(!needs_backup_search(true, &alias));
    assert_eq!(macos_backup_search(true, "socket", &None::<u8>), Some(alias.clone()));
    assert_eq!(macos_backup_search(true, "socket", &Some(1u8)), None);
    assert_eq!(macos_backup_search(true, &alias, &None::<u8>), None);
    assert_eq!(macos_backup_search(false, "socket", &None::<u8>), None);
}

#[test]
fn timed_out_loop_stays_timed_out() {
    assert!(check_loop_timeout(6, 5).is_err());
    assert!(check_loop_timeout(60, 5).is_err());
    assert!(check_loop_timeout(u64::MAX, 5).is_err());
}

#[test]
fn search_loop_step_decides_each_round() {
    assert!(matches!(search_loop_step::<u8>(0, 5, None), LoopStep::Search));
    assert!(matches!(search_loop_step::<u8>(3, 5, Some(Ok(None))), LoopStep::Search));
    assert!(matches!(search_loop_step(9, 5, Some(Ok(Some(7u8)))), LoopStep::Finish(Ok(Some(7)))));
    match search_loop_step::<u8>(6, 5, Some(Ok(None))) {
        LoopStep::Finish(Err(e)) => assert_eq!(image_message(&e), "loop find image timed out. Could not find image"),
        _ => panic!("expected a timeout"),
    }
    let err = AutoGuiError::OSFailure("gone".to_string());
    assert!(matches!(search_loop_step::<u8>(0, 5, Some(Err(err))), LoopStep::Finish(Err(AutoGuiError::OSFailure(_)))));
    assert!(matches!(search_loop_step::<u8>(u64::MAX, 0, None), LoopStep::Search));
}
