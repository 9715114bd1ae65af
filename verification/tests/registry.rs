use openmc_lite::args::{OpenMCArgs, OpenMCommands};
use openmc_lite::instance::{DownloadState, LauncherInstance};
use openmc_lite::screens::{initial_view, ViewType};
use openmc_lite::session::UserSession;
use openmc_lite::settings::{instance_folder, instance_folders, LauncherSettings, Startup};
use openmc_lite::theme::ThemeType;
use openmc_lite::version::MinecraftVersion;

fn empty_settings() -> LauncherSettings {
    LauncherSettings {
        theme: ThemeType::Light,
        session: UserSession::with_generated_name("quiet-river"),
        last_launched: None,
        instances: Vec::new(),
        exists_icons: false,
    }
}

fn instance(name: &str) -> LauncherInstance {
    LauncherInstance::new(
        name.to_string(),
        Some(MinecraftVersion::Release("1.20.1".to_string())),
    )
}

#[test]
fn add_instance_stamps_the_path_and_is_found() {
    let mut cfg = empty_settings();
    let path = cfg.add_instance(instance("Survival"), "/data/instances/Survival".to_string());
    assert_eq!(path, "/data/instances/Survival");
    let found = cfg.find_instance("Survival").unwrap();
    assert_eq!(found.name, "Survival");
    assert_eq!(found.path, "/data/instances/Survival");
    assert_eq!(found.version, Some(MinecraftVersion::Release("1.20.1".to_string())));
    assert!(!found.downloaded);
    assert!(!found.downloading);
    assert_eq!(cfg.instances.len(), 1);
}

#[test]
fn first_instance_becomes_last_launched() {
    let mut cfg = empty_settings();
    cfg.add_instance(instance("First"), "/d/First".to_string());
    assert_eq!(cfg.last_launched.as_ref().unwrap().name, "First");
    assert_eq!(cfg.last_launched.as_ref().unwrap().path, "/d/First");
    cfg.add_instance(instance("Second"), "/d/Second".to_string());
    assert_eq!(cfg.last_launched.as_ref().unwrap().name, "First");
    assert_eq!(cfg.instances.len(), 2);
    assert_eq!(cfg.instances[1].name, "Second");
}

#[test]
fn add_instance_fills_an_empty_last_launched() {
    let mut cfg = empty_settings();
    cfg.add_instance(instance("First"), "/d/First".to_string());
    cfg.last_launched = None;
    cfg.add_instance(instance("Second"), "/d/Second".to_string());
    assert_eq!(cfg.last_launched.as_ref().unwrap().name, "Second");
}

#[test]
fn try_add_instance_refuses_an_empty_path() {
    let mut cfg = empty_settings();
    let before = cfg.clone();
    assert_eq!(cfg.try_add_instance(instance("Alpha"), String::new()), None);
    assert_eq!(cfg, before);
    assert_eq!(
        cfg.try_add_instance(instance("Alpha"), "/d/a".to_string()),
        Some("/d/a".to_string())
    );
    assert_eq!(cfg.instances.len(), 1);
    assert_eq!(cfg.instances[0].path, "/d/a");
    assert_eq!(cfg.last_launched.as_ref().unwrap().name, "Alpha");
}

#[test]
fn instance_folders_are_the_folder_and_its_four_subfolders() {
    assert_eq!(instance_folder("Survival"), "instances/Survival");
    assert_eq!(
        instance_folders("Survival"),
        vec![
            "instances/Survival".to_string(),
            "instances/Survival/mods".to_string(),
            "instances/Survival/resourcepacks".to_string(),
            "instances/Survival/saves".to_string(),
            "instances/Survival/shaderpacks".to_string(),
        ]
    );
}

#[test]
fn remove_instance_twice_is_a_no_op_the_second_time() {
    let mut cfg = empty_settings();
    cfg.add_instance(instance("First"), "/d/First".to_string());
    cfg.add_instance(instance("Second"), "/d/Second".to_string());
    assert!(cfg.remove_instance("First"));
    assert_eq!(cfg.instances.len(), 1);
    assert_eq!(cfg.instances[0].name, "Second");
    let after_first = cfg.clone();
    assert!(!cfg.remove_instance("First"));
    assert_eq!(cfg, after_first);
}

#[test]
fn remove_instance_clears_last_launched_whichever_it_was() {
    let mut cfg = empty_settings();
    cfg.add_instance(instance("First"), "/d/First".to_string());
    cfg.add_instance(instance("Second"), "/d/Second".to_string());
    assert_eq!(cfg.last_launched.as_ref().unwrap().name, "First");
    assert!(cfg.remove_instance("Second"));
    assert_eq!(cfg.last_launched, None);
}

#[test]
fn remove_instance_of_an_unknown_name_changes_nothing() {
    let mut cfg = empty_settings();
    cfg.add_instance(instance("First"), "/d/First".to_string());
    let before = cfg.clone();
    assert!(!cfg.remove_instance("first"));
    assert_eq!(cfg, before);
    assert_eq!(cfg.last_launched.as_ref().unwrap().name, "First");
}

#[test]
fn remove_instance_takes_the_first_of_two_namesakes() {
    let mut cfg = empty_settings();
    cfg.add_instance(instance("Twin"), "/d/one".to_string());
    cfg.add_instance(instance("Twin"), "/d/two".to_string());
    assert!(cfg.remove_instance("Twin"));
    assert_eq!(cfg.instances.len(), 1);
    assert_eq!(cfg.instances[0].path, "/d/two");
    assert!(cfg.remove_instance("Twin"));
    assert!(cfg.instances.is_empty());
}

#[test]
fn position_finds_the_first_match_only() {
    let mut cfg = empty_settings();
    cfg.add_instance(instance("Alpha"), "/d/a".to_string());
    cfg.add_instance(instance("Bravo"), "/d/b".to_string());
    cfg.add_instance(instance("Bravo"), "/d/c".to_string());
    assert_eq!(cfg.position("Alpha"), Some(0));
    assert_eq!(cfg.position("Bravo"), Some(1));
    assert_eq!(cfg.position("bravo"), None);
    assert_eq!(cfg.find_instance("Bravo").unwrap().path, "/d/b");
    assert_eq!(cfg.find_instance("Charlie"), None);
}

#[test]
fn update_instance_replaces_by_name() {
    let mut cfg = empty_settings();
    cfg.add_instance(instance("Alpha"), "/d/a".to_string());
    cfg.add_instance(instance("Bravo"), "/d/b".to_string());
    let mut copy = cfg.instances[1].clone();
    copy.downloaded = true;
    cfg.update_instance(&copy);
    assert!(!cfg.instances[0].downloaded);
    assert!(cfg.instances[1].downloaded);
    assert_eq!(cfg.instances[1].path, "/d/b");
    assert_eq!(cfg.instances[1].state(), DownloadState::Downloaded);
}

#[test]
fn persisted_settings_drop_the_transient_flags() {
    let mut cfg = empty_settings();
    cfg.add_instance(instance("Alpha"), "/d/a".to_string());
    cfg.add_instance(instance("Bravo"), "/d/b".to_string());
    cfg.add_instance(instance("Charlie"), "/d/c".to_string());
    cfg.instances[0].downloading = true;
    cfg.instances[1].downloaded = true;
    cfg.exists_icons = true;
    cfg.last_launched.as_mut().unwrap().downloading = true;
    let reloaded = cfg.persisted();
    assert_eq!(reloaded.instances.len(), 3);
    for (before, after) in cfg.instances.iter().zip(reloaded.instances.iter()) {
        assert_eq!(after.name, before.name);
        assert_eq!(after.path, before.path);
        assert_eq!(after.version, before.version);
        assert_eq!(after.downloaded, before.downloaded);
        assert!(!after.downloading);
    }
    assert!(!reloaded.exists_icons);
    assert!(!reloaded.last_launched.as_ref().unwrap().downloading);
    assert_eq!(reloaded.theme, cfg.theme);
    assert_eq!(reloaded.session, cfg.session);
    assert_eq!(reloaded.persisted(), reloaded);
}

#[test]
fn an_instance_stuck_in_download_reloads_as_not_downloaded() {
    let mut stuck = instance("Alpha");
    stuck.downloading = true;
    assert_eq!(stuck.state(), DownloadState::Downloading);
    assert_eq!(stuck.persisted().state(), DownloadState::NotDownloaded);
}

#[test]
fn launch_command_exits_with_zero_for_a_known_instance() {
    let mut cfg = empty_settings();
    cfg.add_instance(instance("Alpha"), "/d/a".to_string());
    let opts = OpenMCArgs {
        theme: None,
        no_gui: false,
        command: Some(OpenMCommands::Launch { instance: "Alpha".to_string() }),
    };
    assert_eq!(
        LauncherSettings::new(cfg, opts, None),
        Startup::Exit { code: 0, message: "Launching Instance 'Alpha'".to_string() }
    );
}

#[test]
fn launch_command_exits_with_one_for_an_unknown_instance() {
    let mut cfg = empty_settings();
    cfg.add_instance(instance("Alpha"), "/d/a".to_string());
    let opts = OpenMCArgs {
        theme: Some(ThemeType::Dark),
        no_gui: true,
        command: Some(OpenMCommands::Launch { instance: "alpha".to_string() }),
    };
    assert_eq!(
        LauncherSettings::new(cfg, opts, Some(30)),
        Startup::Exit { code: 1, message: "Instance 'alpha' not exists".to_string() }
    );
}

#[test]
fn startup_without_a_command_applies_theme_and_icon_flag() {
    let mut cfg = empty_settings();
    cfg.add_instance(instance("Alpha"), "/d/a".to_string());
    let opts = OpenMCArgs { theme: Some(ThemeType::Dark), no_gui: false, command: None };
    let mut expected = cfg.clone();
    expected.theme = ThemeType::Dark;
    expected.exists_icons = true;
    assert_eq!(LauncherSettings::new(cfg.clone(), opts, Some(2)), Startup::Run(expected));

    let opts = OpenMCArgs { theme: None, no_gui: false, command: None };
    let mut expected = cfg.clone();
    expected.exists_icons = false;
    assert_eq!(LauncherSettings::new(cfg.clone(), opts, Some(1)), Startup::Run(expected.clone()));
    let opts = OpenMCArgs { theme: None, no_gui: false, command: None };
    assert_eq!(LauncherSettings::new(cfg, opts, None), Startup::Run(expected));
}

#[test]
fn choose_last_launched_follows_the_picked_name() {
    let mut cfg = empty_settings();
    assert!(!cfg.choose_last_launched("Alpha"));
    cfg.add_instance(instance("Alpha"), "/d/a".to_string());
    cfg.add_instance(instance("Bravo"), "/d/b".to_string());
    assert!(!cfg.choose_last_launched("Alpha"));
    assert!(cfg.choose_last_launched("Bravo"));
    assert_eq!(cfg.last_launched.as_ref().unwrap().path, "/d/b");
    assert!(!cfg.choose_last_launched("Missing"));
    assert_eq!(cfg.last_launched.as_ref().unwrap().name, "Bravo");
}

#[test]
fn launcher_opens_on_instances_until_one_exists() {
    let mut cfg = empty_settings();
    assert_eq!(initial_view(&cfg), ViewType::Instances);
    cfg.add_instance(instance("Alpha"), "/d/a".to_string());
    assert_eq!(initial_view(&cfg), ViewType::Home);
}

#[test]
fn default_settings_are_empty_and_light() {
    let cfg = LauncherSettings::default();
    assert_eq!(cfg.theme, ThemeType::Light);
    assert!(cfg.instances.is_empty());
    assert_eq!(cfg.last_launched, None);
    assert!(!cfg.exists_icons);
    assert!(!cfg.session.is_logged());
    assert_eq!(cfg.session.uuid, "null");
    assert_eq!(cfg.session.access_token, "null");
    assert_eq!(cfg.session.origin, "");
    assert!(!cfg.session.name.is_empty());
    assert!(cfg.session.name.contains(' '));
}

#[test]
fn default_instance_is_blank() {
    let i = LauncherInstance::default();
    assert_eq!(i.name, "");
    assert_eq!(i.path, "");
    assert_eq!(i.version, None);
    assert_eq!(i.state(), DownloadState::NotDownloaded);
    assert_eq!(instance("Alpha").to_string(), "Alpha");
}
