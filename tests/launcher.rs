use lethelauncher::config::{parse_config, ConfigError, LaunchConfig};
use lethelauncher::menu::{choice_from_trimmed, parse_choice, MenuChoice};
use lethelauncher::session::{
    initial_stage, rename_outcome, step, toggle_paths, Effect, Event, RenameOutcome, Stage,
};
use lethelauncher::toggle::{detect_state, plan_rename, DllState, RenamePlan};
use lethelauncher::validate::{
    check_associated_files_exists, check_file_exists, validate, MissingFile, Presence,
};

const SAMPLE: &str = "[paths]\nlimbus = \"game.exe\"\nwinhttp = \"winhttp.dll\"\nrenamed = \"winhttp.dll.bak\"\n";

fn sample_config() -> LaunchConfig {
    parse_config(SAMPLE).unwrap()
}

/// Applies a planned rename to a model of the disk, as the driving program would.
fn apply(disk: &mut Vec<String>, from: &str, to: &str) -> RenamePlan {
    let plan = plan_rename(disk.iter().any(|p| p == from), disk.iter().any(|p| p == to));
    if plan == RenamePlan::Rename {
        disk.retain(|p| p != from);
        disk.push(to.to_string());
    }
    plan
}

#[test]
fn parses_all_three_paths() {
    let cfg = sample_config();
    assert_eq!(cfg.executable, "game.exe");
    assert_eq!(cfg.active_dll, "winhttp.dll");
    assert_eq!(cfg.disabled_dll, "winhttp.dll.bak");
}

#[test]
fn rejects_text_that_is_not_toml() {
    match parse_config("[paths\nlimbus = ") {
        Err(ConfigError::Syntax(msg)) => assert!(!msg.is_empty()),
        other => panic!("unexpected {:?}", other),
    }
}

#[test]
fn rejects_a_document_without_paths() {
    assert!(matches!(parse_config("title = \"x\"\n"), Err(ConfigError::MissingSection)));
    assert!(matches!(parse_config("paths = 3\n"), Err(ConfigError::MissingSection)));
    assert!(matches!(parse_config(""), Err(ConfigError::MissingSection)));
}

#[test]
fn names_the_first_missing_key() {
    let text = "[paths]\nlimbus = \"game.exe\"\nrenamed = \"b\"\n";
    match parse_config(text) {
        Err(ConfigError::MissingKey(k)) => assert_eq!(k, "winhttp"),
        other => panic!("unexpected {:?}", other),
    }
    let text = "[paths]\nwinhttp = \"a\"\n";
    match parse_config(text) {
        Err(ConfigError::MissingKey(k)) => assert_eq!(k, "limbus"),
        other => panic!("unexpected {:?}", other),
    }
}

#[test]
fn a_key_that_is_not_a_string_is_missing() {
    let text = "[paths]\nlimbus = \"game.exe\"\nwinhttp = \"a\"\nrenamed = 7\n";
    match parse_config(text) {
        Err(ConfigError::MissingKey(k)) => assert_eq!(k, "renamed"),
        other => panic!("unexpected {:?}", other),
    }
}

#[test]
fn all_paths_present_passes_both_checks() {
    let cfg = sample_config();
    assert!(check_file_exists(&cfg.executable, true).is_ok());
    assert!(check_associated_files_exists(&cfg.active_dll, true, &cfg.disabled_dll, true).is_ok());
    let p = Presence { executable: true, active_dll: true, disabled_dll: true };
    assert!(validate(&cfg, p).is_empty());
}

#[test]
fn missing_primary_is_named() {
    match check_file_exists("game.exe", false) {
        Err(MissingFile::File(p)) => assert_eq!(p, "game.exe"),
        other => panic!("unexpected {:?}", other),
    }
    let cfg = sample_config();
    let p = Presence { executable: false, active_dll: true, disabled_dll: false };
    let reports = validate(&cfg, p);
    assert_eq!(reports.len(), 1);
    assert!(matches!(&reports[0], MissingFile::File(x) if x == "game.exe"));
}

#[test]
fn missing_pair_names_both() {
    match check_associated_files_exists("winhttp.dll", false, "winhttp.dll.bak", false) {
        Err(MissingFile::Pair(a, b)) => {
            assert_eq!(a, "winhttp.dll");
            assert_eq!(b, "winhttp.dll.bak");
        }
        other => panic!("unexpected {:?}", other),
    }
    assert!(check_associated_files_exists("a", false, "b", true).is_ok());
    assert!(check_associated_files_exists("a", true, "b", false).is_ok());
}

#[test]
fn validation_reports_both_failures_in_order() {
    let cfg = sample_config();
    let p = Presence { executable: false, active_dll: false, disabled_dll: false };
    let reports = validate(&cfg, p);
    assert_eq!(reports.len(), 2);
    assert!(matches!(&reports[0], MissingFile::File(x) if x == "game.exe"));
    assert!(
        matches!(&reports[1], MissingFile::Pair(a, b) if a == "winhttp.dll" && b == "winhttp.dll.bak")
    );
}

#[test]
fn rename_plans() {
    assert_eq!(plan_rename(true, false), RenamePlan::Rename);
    assert_eq!(plan_rename(true, true), RenamePlan::AlreadyInPlace);
    assert_eq!(plan_rename(false, true), RenamePlan::AlreadyInPlace);
    assert_eq!(plan_rename(false, false), RenamePlan::SourceMissing);
}

#[test]
fn toggle_is_idempotent() {
    let mut disk = vec!["b".to_string()];
    assert_eq!(apply(&mut disk, "a", "b"), RenamePlan::AlreadyInPlace);
    assert_eq!(disk, vec!["b".to_string()]);
    assert_eq!(rename_outcome(RenamePlan::AlreadyInPlace, false), RenameOutcome::AlreadyInPlace);
}

#[test]
fn toggle_round_trip() {
    let mut disk = vec!["game.exe".to_string(), "a".to_string()];
    assert_eq!(apply(&mut disk, "a", "b"), RenamePlan::Rename);
    assert!(disk.contains(&"b".to_string()) && !disk.contains(&"a".to_string()));
    assert_eq!(apply(&mut disk, "b", "a"), RenamePlan::Rename);
    disk.sort();
    assert_eq!(disk, vec!["a".to_string(), "game.exe".to_string()]);
}

#[test]
fn state_detection() {
    assert_eq!(detect_state(true, false), Some(DllState::Active));
    assert_eq!(detect_state(false, true), Some(DllState::Disabled));
    assert_eq!(detect_state(true, true), Some(DllState::Active));
    assert_eq!(detect_state(false, false), None);
}

#[test]
fn menu_choices() {
    assert_eq!(parse_choice("0\n"), MenuChoice::DisableMod);
    assert_eq!(parse_choice("  1 \r\n"), MenuChoice::EnableMod);
    assert_eq!(parse_choice("2"), MenuChoice::Exit);
    assert_eq!(choice_from_trimmed(" 1"), MenuChoice::Invalid);
    assert_eq!(choice_from_trimmed("1"), MenuChoice::EnableMod);
}

#[test]
fn invalid_input_only_reaches_acknowledgment() {
    for line in ["x", "3", "", "00", "\n"] {
        let choice = parse_choice(line);
        assert_eq!(choice, MenuChoice::Invalid);
        let (stage, effect) = step(Stage::AwaitingChoice, Event::Chosen(choice));
        assert_eq!(stage, Stage::AwaitingAck);
        assert_eq!(effect, Some(Effect::PromptAck));
        let (stage, effect) = step(stage, Event::Spawned(true));
        assert_eq!((stage, effect), (Stage::AwaitingAck, None));
        let (stage, effect) = step(stage, Event::Acknowledged);
        assert_eq!((stage, effect), (Stage::Done, None));
    }
}

#[test]
fn exit_terminates_at_once() {
    let (stage, effect) = step(Stage::AwaitingChoice, Event::Chosen(parse_choice("2\n")));
    assert_eq!((stage, effect), (Stage::Done, Some(Effect::Exit)));
    assert_eq!(step(stage, Event::Acknowledged), (Stage::Done, None));
    assert_eq!(step(stage, Event::Renamed(RenameOutcome::Renamed)), (Stage::Done, None));
}

#[test]
fn failures_before_the_menu_go_to_acknowledgment() {
    let s = initial_stage();
    assert_eq!(step(s, Event::ConfigLoaded(false)), (Stage::AwaitingAck, Some(Effect::PromptAck)));
    let (s, e) = step(s, Event::ConfigLoaded(true));
    assert_eq!((s, e), (Stage::AwaitingProbe, Some(Effect::ProbePaths)));
    let p = Presence { executable: true, active_dll: false, disabled_dll: false };
    assert_eq!(step(s, Event::Probed(p)), (Stage::AwaitingAck, Some(Effect::PromptAck)));
}

#[test]
fn failed_rename_does_not_launch() {
    assert_eq!(rename_outcome(RenamePlan::Rename, false), RenameOutcome::Failed);
    assert_eq!(
        step(Stage::AwaitingRename, Event::Renamed(RenameOutcome::Failed)),
        (Stage::AwaitingAck, Some(Effect::PromptAck))
    );
    assert_eq!(
        step(Stage::AwaitingRename, Event::Renamed(RenameOutcome::SourceMissing)),
        (Stage::AwaitingSpawn, Some(Effect::Launch))
    );
    assert_eq!(
        step(Stage::AwaitingSpawn, Event::Spawned(false)),
        (Stage::AwaitingAck, Some(Effect::PromptAck))
    );
}

#[test]
fn disable_mod_scenario() {
    let cfg = sample_config();
    let mut disk = vec!["game.exe".to_string(), "winhttp.dll".to_string()];
    let present = |d: &Vec<String>, p: &str| d.iter().any(|x| x == p);
    let presence = Presence {
        executable: present(&disk, &cfg.executable),
        active_dll: present(&disk, &cfg.active_dll),
        disabled_dll: present(&disk, &cfg.disabled_dll),
    };
    assert!(validate(&cfg, presence).is_empty());
    let s = initial_stage();
    let (s, _) = step(s, Event::ConfigLoaded(true));
    let (s, e) = step(s, Event::Probed(presence));
    assert_eq!(e, Some(Effect::ShowMenu));
    let (s, e) = step(s, Event::Chosen(parse_choice("0\n")));
    assert_eq!(e, Some(Effect::Toggle(DllState::Disabled)));
    let (from, to) = toggle_paths(&cfg, DllState::Disabled);
    assert_eq!((from.as_str(), to.as_str()), ("winhttp.dll", "winhttp.dll.bak"));
    let plan = apply(&mut disk, &from, &to);
    assert_eq!(plan, RenamePlan::Rename);
    assert!(present(&disk, "winhttp.dll.bak") && !present(&disk, "winhttp.dll"));
    let (s, e) = step(s, Event::Renamed(rename_outcome(plan, true)));
    assert_eq!((s, e), (Stage::AwaitingSpawn, Some(Effect::Launch)));
    let (s, e) = step(s, Event::Spawned(true));
    assert_eq!((s, e), (Stage::AwaitingAck, Some(Effect::PromptAck)));
}

#[test]
fn enable_mod_paths() {
    let cfg = sample_config();
    let (from, to) = toggle_paths(&cfg, DllState::Active);
    assert_eq!((from.as_str(), to.as_str()), ("winhttp.dll.bak", "winhttp.dll"));
    assert_eq!(
        step(Stage::AwaitingChoice, Event::Chosen(MenuChoice::EnableMod)),
        (Stage::AwaitingRename, Some(Effect::Toggle(DllState::Active)))
    );
}
