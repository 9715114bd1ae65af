use openmc_lite::create::{
    validate_icon, validate_name, validate_version, versions_of_channel, CreateInstance,
    ManifestEntry, StepOutcome, LAST_STEP, MIN_NAME_LEN,
};
use openmc_lite::instance::LauncherInstance;
use openmc_lite::session::UserSession;
use openmc_lite::settings::LauncherSettings;
use openmc_lite::theme::ThemeType;
use openmc_lite::toast::{OpenMCToastKind, Toast};
use openmc_lite::version::MinecraftVersion;

fn settings_with(names: &[&str]) -> LauncherSettings {
    let mut cfg = LauncherSettings {
        theme: ThemeType::Light,
        session: UserSession::with_generated_name("quiet-river"),
        last_launched: None,
        instances: Vec::new(),
        exists_icons: true,
    };
    for n in names {
        cfg.add_instance(LauncherInstance::new(n.to_string(), None), format!("/d/{}", n));
    }
    cfg
}

fn rejected(reason: &str) -> StepOutcome {
    StepOutcome::Rejected(Toast {
        kind: OpenMCToastKind::Error,
        title: "Invalid Input".to_string(),
        desc: reason.to_string(),
    })
}

#[test]
fn wizard_constants() {
    assert_eq!(LAST_STEP, 2);
    assert_eq!(MIN_NAME_LEN, 5);
}

#[test]
fn empty_name_is_refused() {
    let cfg = settings_with(&[]);
    let w = CreateInstance::new();
    assert_eq!(validate_name(&w, &cfg), Err("The name cannot empty".to_string()));
}

#[test]
fn short_name_is_refused() {
    let cfg = settings_with(&[]);
    let mut w = CreateInstance::new();
    for short in ["a", "abc", "Test"] {
        w.set_name(short);
        assert_eq!(validate_name(&w, &cfg), Err("The name size need more than 5".to_string()));
    }
    w.set_name("Tests");
    assert_eq!(validate_name(&w, &cfg), Ok(()));
}

#[test]
fn name_length_counts_bytes() {
    let cfg = settings_with(&[]);
    let mut w = CreateInstance::new();
    w.set_name("ñandú");
    assert_eq!(validate_name(&w, &cfg), Ok(()));
    w.set_name("ñam");
    assert_eq!(validate_name(&w, &cfg), Err("The name size need more than 5".to_string()));
}

#[test]
fn duplicate_name_is_refused_and_case_variant_is_accepted() {
    let cfg = settings_with(&["TestInstance"]);
    let mut w = CreateInstance::new();
    w.set_name("TestInstance");
    assert_eq!(
        validate_name(&w, &cfg),
        Err("An instance of this name already exists".to_string())
    );
    w.set_name("testinstance");
    assert_eq!(validate_name(&w, &cfg), Ok(()));
    w.set_name("TESTINSTANCE");
    assert_eq!(validate_name(&w, &cfg), Ok(()));
}

#[test]
fn icon_must_be_chosen_and_exist() {
    let mut w = CreateInstance::new();
    assert_eq!(validate_icon(&w, true), Err("Please select one icon".to_string()));
    assert_eq!(validate_icon(&w, false), Err("Please select one icon".to_string()));
    w.set_icon("/icons/apple.png");
    assert_eq!(validate_icon(&w, false), Err("The icon file not exists".to_string()));
    assert_eq!(validate_icon(&w, true), Ok(()));
}

#[test]
fn version_must_be_chosen() {
    let mut w = CreateInstance::new();
    assert_eq!(validate_version(&w), Err("Please select one version".to_string()));
    w.set_version(0, "1.20.1");
    assert_eq!(validate_version(&w), Ok(()));
}

#[test]
fn set_version_maps_tabs_to_channels() {
    let mut w = CreateInstance::new();
    w.set_version(0, "1.20.1");
    assert_eq!(w.version_selected(), Some(MinecraftVersion::Release("1.20.1".to_string())));
    w.set_version(1, "23w14a");
    assert_eq!(w.version_selected(), Some(MinecraftVersion::Snapshot("23w14a".to_string())));
    w.set_version(2, "b1.7.3");
    assert_eq!(w.version_selected(), Some(MinecraftVersion::OldBeta("b1.7.3".to_string())));
    w.set_version(3, "a1.2.6");
    assert_eq!(w.version_selected(), Some(MinecraftVersion::OldAlpha("a1.2.6".to_string())));
    w.set_version(3, "");
    assert_eq!(w.version_selected(), Some(MinecraftVersion::OldAlpha("a1.2.6".to_string())));
    w.set_version(4, "x");
    assert_eq!(w.version_selected(), None);
}

#[test]
fn set_icon_ignores_an_empty_choice() {
    let mut w = CreateInstance::new();
    w.set_icon("/icons/apple.png");
    w.set_icon("");
    assert_eq!(w.icon_selected(), "/icons/apple.png");
}

#[test]
fn going_back_is_always_possible_and_stops_at_the_first_step() {
    let cfg = settings_with(&[]);
    let mut w = CreateInstance::new();
    w.prev();
    assert_eq!(w.current_step(), 0);
    w.set_name("TestInstance");
    assert_eq!(w.next(&cfg, false), StepOutcome::Advanced);
    assert_eq!(w.current_step(), 1);
    w.prev();
    assert_eq!(w.current_step(), 0);
    assert_eq!(w.name(), "TestInstance");
}

#[test]
fn a_refused_step_does_not_advance() {
    let cfg = settings_with(&[]);
    let mut w = CreateInstance::new();
    w.set_name("TestInstance");
    assert_eq!(w.next(&cfg, true), StepOutcome::Advanced);
    assert_eq!(w.next(&cfg, true), rejected("Please select one icon"));
    assert_eq!(w.current_step(), 1);
    w.set_icon("/icons/gone.png");
    assert_eq!(w.next(&cfg, false), rejected("The icon file not exists"));
    assert_eq!(w.current_step(), 1);
    assert_eq!(w.next(&cfg, true), StepOutcome::Advanced);
    assert_eq!(w.next(&cfg, true), rejected("Please select one version"));
    assert_eq!(w.current_step(), 2);
}

#[test]
fn create_instance_end_to_end() {
    let mut cfg = settings_with(&[]);
    let mut w = CreateInstance::new();
    w.set_name("Test");
    assert_eq!(w.next(&cfg, true), rejected("The name size need more than 5"));
    assert_eq!(w.current_step(), 0);
    w.set_name("TestInstance");
    assert_eq!(w.next(&cfg, true), StepOutcome::Advanced);
    w.set_icon("/icons/apple.png");
    assert_eq!(w.next(&cfg, true), StepOutcome::Advanced);
    w.set_version(0, "1.20.1");
    let outcome = w.next(&cfg, true);
    let expected = LauncherInstance {
        name: "TestInstance".to_string(),
        path: String::new(),
        version: Some(MinecraftVersion::Release("1.20.1".to_string())),
        downloaded: false,
        downloading: false,
    };
    assert_eq!(
        outcome,
        StepOutcome::Finished { instance: expected.clone(), icon: "/icons/apple.png".to_string() }
    );
    if let StepOutcome::Finished { instance, icon: _ } = outcome {
        cfg.add_instance(instance, "/data/instances/TestInstance".to_string());
    }
    assert_eq!(cfg.instances.len(), 1);
    assert_eq!(cfg.instances[0].name, "TestInstance");
    assert!(!cfg.instances[0].downloaded);
    assert_eq!(cfg.instances[0].path, "/data/instances/TestInstance");
}

#[test]
fn reset_forgets_everything() {
    let cfg = settings_with(&[]);
    let mut w = CreateInstance::new();
    w.set_name("TestInstance");
    w.next(&cfg, true);
    w.set_icon("/icons/apple.png");
    w.set_version(1, "23w14a");
    w.reset();
    assert_eq!(w, CreateInstance::new());
    assert_eq!(w.current_step(), 0);
    assert_eq!(w.name(), "");
    assert_eq!(w.icon_selected(), "");
    assert_eq!(w.version_selected(), None);
}

#[test]
fn wizard_steps_row_follows_the_current_step() {
    let cfg = settings_with(&[]);
    let mut w = CreateInstance::new();
    let row = w.steps();
    assert_eq!(row.len(), 3);
    assert_eq!(row.current(), 0);
    assert_eq!(row.label(0), Some("Name".to_string()));
    assert_eq!(row.label(1), Some("Icon".to_string()));
    assert_eq!(row.label(2), Some("Version".to_string()));
    assert_eq!(row.label(3), None);
    w.set_name("TestInstance");
    w.next(&cfg, true);
    assert_eq!(w.steps().current(), 1);
}

#[test]
fn versions_are_listed_by_channel_in_manifest_order() {
    let entry = |t: &str, id: &str| ManifestEntry { version_type: t.to_string(), id: id.to_string() };
    let manifest = vec![
        entry("release", "1.20.1"),
        entry("snapshot", "23w14a"),
        entry("release", "1.19.4"),
        entry("old_beta", "b1.7.3"),
        entry("old_alpha", "a1.2.6"),
        entry("unknown", "x"),
    ];
    assert_eq!(versions_of_channel(&manifest, "release"), vec!["1.20.1", "1.19.4"]);
    assert_eq!(versions_of_channel(&manifest, "snapshot"), vec!["23w14a"]);
    assert_eq!(versions_of_channel(&manifest, "old_beta"), vec!["b1.7.3"]);
    assert_eq!(versions_of_channel(&manifest, "old_alpha"), vec!["a1.2.6"]);
    assert!(versions_of_channel(&manifest, "Release").is_empty());
}
