use bevy_mod_gba::{AgbSoundPlugin, Frequency, Mixer, System, World};

fn booted() -> World {
    let mut world = World::new();
    world.deposit_sound_controller();
    world.deposit_mixer_controller();
    world
}

#[test]
fn default_plugin_has_everything_off() {
    let plugin = AgbSoundPlugin::default();
    assert!(!plugin.enable_dmg);
    assert_eq!(plugin.mixer_frequency, None);
}

#[test]
fn new_world_is_empty() {
    let world = World::new();
    assert!(!world.has_sound_controller());
    assert!(!world.has_mixer_controller());
    assert!(!world.has_channel1());
    assert!(!world.has_channel2());
    assert!(!world.has_noise());
    assert_eq!(world.mixer(), None);
    assert!(!world.sound_enabled());
    assert!(world.post_update().is_empty());
}

#[test]
fn deposits_put_the_controllers_into_the_table() {
    let world = booted();
    assert!(world.has_sound_controller());
    assert!(world.has_mixer_controller());
    assert!(!world.sound_enabled());
    assert_eq!(world.mixer(), None);
}

#[test]
fn build_adds_the_one_system() {
    let plugin = AgbSoundPlugin { enable_dmg: true, mixer_frequency: Some(Frequency::Hz18157) };
    let mut world = booted();
    plugin.build(&mut world);
    assert_eq!(world.post_update().as_slice(), &[System::MixerFrame]);
    assert!(world.has_sound_controller());
    assert!(world.has_mixer_controller());
    assert_eq!(world.mixer(), None);
}

#[test]
fn plugin_names_the_one_system() {
    let plugin = AgbSoundPlugin::default();
    assert_eq!(plugin.post_update_systems(), vec![System::MixerFrame]);
}

#[test]
fn disabled_plugin_changes_nothing() {
    let plugin = AgbSoundPlugin { enable_dmg: false, mixer_frequency: None };
    let mut world = booted();
    plugin.build(&mut world);
    plugin.finish(&mut world);
    assert!(world.has_sound_controller());
    assert!(world.has_mixer_controller());
    assert!(!world.has_channel1());
    assert!(!world.has_channel2());
    assert!(!world.has_noise());
    assert!(!world.sound_enabled());
    assert_eq!(world.mixer(), None);
    for _ in 0..5 {
        assert_eq!(world.update(), 0);
    }
    assert_eq!(world.mixer(), None);
    assert!(!world.has_channel1());
}

#[test]
fn dmg_alone_publishes_channels_and_noise() {
    let plugin = AgbSoundPlugin { enable_dmg: true, mixer_frequency: None };
    let mut world = booted();
    plugin.finish(&mut world);
    assert!(world.has_channel1());
    assert!(world.has_channel2());
    assert!(world.has_noise());
    assert!(world.sound_enabled());
    assert!(!world.has_sound_controller());
    // the mixer's part is off: its controller stays where it was
    assert!(world.has_mixer_controller());
    assert_eq!(world.mixer(), None);
}

#[test]
fn mixer_alone_publishes_an_enabled_mixer() {
    let plugin = AgbSoundPlugin { enable_dmg: false, mixer_frequency: Some(Frequency::Hz32768) };
    let mut world = booted();
    plugin.build(&mut world);
    plugin.finish(&mut world);
    assert_eq!(world.mixer(), Some(Mixer { frequency: Frequency::Hz32768, enabled: true }));
    assert!(!world.has_mixer_controller());
    // the chip's part is off: its controller stays where it was
    assert!(world.has_sound_controller());
    assert!(!world.sound_enabled());
    assert!(!world.has_channel1());
    assert!(!world.has_channel2());
    assert!(!world.has_noise());
    // the first update after the setup services the mixer
    assert_eq!(world.update(), 1);
}

#[test]
fn both_parts_on() {
    let plugin = AgbSoundPlugin { enable_dmg: true, mixer_frequency: Some(Frequency::Hz10512) };
    let mut world = booted();
    plugin.build(&mut world);
    plugin.finish(&mut world);
    assert!(world.has_channel1());
    assert!(world.has_channel2());
    assert!(world.has_noise());
    assert!(world.sound_enabled());
    assert!(!world.has_sound_controller());
    assert!(!world.has_mixer_controller());
    assert_eq!(world.mixer(), Some(Mixer { frequency: Frequency::Hz10512, enabled: true }));
}

#[test]
fn missing_controllers_are_tolerated() {
    let plugin = AgbSoundPlugin { enable_dmg: true, mixer_frequency: Some(Frequency::Hz10512) };
    let mut world = World::new();
    plugin.build(&mut world);
    plugin.finish(&mut world);
    assert!(!world.has_channel1());
    assert!(!world.has_channel2());
    assert!(!world.has_noise());
    assert!(!world.sound_enabled());
    assert_eq!(world.mixer(), None);
    assert_eq!(world.update(), 0);
}

#[test]
fn one_missing_controller_does_not_stop_the_other_part() {
    let plugin = AgbSoundPlugin { enable_dmg: true, mixer_frequency: Some(Frequency::Hz18157) };

    let mut only_sound = World::new();
    only_sound.deposit_sound_controller();
    plugin.finish(&mut only_sound);
    assert!(only_sound.has_channel1());
    assert!(only_sound.has_channel2());
    assert!(only_sound.has_noise());
    assert_eq!(only_sound.mixer(), None);

    let mut only_mixer = World::new();
    only_mixer.deposit_mixer_controller();
    plugin.finish(&mut only_mixer);
    assert!(!only_mixer.has_channel1());
    assert!(!only_mixer.has_channel2());
    assert!(!only_mixer.has_noise());
    assert!(!only_mixer.sound_enabled());
    assert_eq!(only_mixer.mixer(), Some(Mixer { frequency: Frequency::Hz18157, enabled: true }));
}

#[test]
fn second_finish_changes_nothing() {
    let plugin = AgbSoundPlugin { enable_dmg: true, mixer_frequency: Some(Frequency::Hz10512) };
    let mut world = booted();
    plugin.finish(&mut world);
    let other = AgbSoundPlugin { enable_dmg: true, mixer_frequency: Some(Frequency::Hz32768) };
    other.finish(&mut world);
    // the first mixer stays: the second run found no controller to make one from
    assert_eq!(world.mixer(), Some(Mixer { frequency: Frequency::Hz10512, enabled: true }));
    assert!(world.has_channel1());
    assert!(world.has_channel2());
    assert!(world.has_noise());
    assert!(!world.has_sound_controller());
    assert!(!world.has_mixer_controller());
}

#[test]
fn every_update_services_the_mixer_once() {
    let plugin = AgbSoundPlugin { enable_dmg: false, mixer_frequency: Some(Frequency::Hz10512) };
    let mut world = booted();
    plugin.build(&mut world);
    plugin.finish(&mut world);
    let mut total = 0;
    for _ in 0..10 {
        let serviced = world.update();
        assert_eq!(serviced, 1);
        total += serviced;
    }
    assert_eq!(total, 10);
}

#[test]
fn updates_before_the_setup_service_nothing() {
    let plugin = AgbSoundPlugin { enable_dmg: false, mixer_frequency: Some(Frequency::Hz10512) };
    let mut world = booted();
    plugin.build(&mut world);
    assert_eq!(world.update(), 0);
    assert_eq!(world.update(), 0);
    plugin.finish(&mut world);
    assert_eq!(world.update(), 1);
}

#[test]
fn a_plugin_built_twice_services_twice() {
    let plugin = AgbSoundPlugin { enable_dmg: false, mixer_frequency: Some(Frequency::Hz10512) };
    let mut world = booted();
    plugin.build(&mut world);
    plugin.build(&mut world);
    plugin.finish(&mut world);
    assert_eq!(world.post_update().len(), 2);
    assert_eq!(world.update(), 2);
}

#[test]
fn without_the_system_nothing_is_serviced() {
    let plugin = AgbSoundPlugin { enable_dmg: false, mixer_frequency: Some(Frequency::Hz10512) };
    let mut world = booted();
    plugin.finish(&mut world);
    assert!(world.mixer().is_some());
    assert_eq!(world.update(), 0);
}

#[test]
fn system_services_only_a_mixer_that_is_there() {
    assert!(System::MixerFrame.services(true));
    assert!(!System::MixerFrame.services(false));
}

#[test]
fn run_system_reports_whether_it_serviced() {
    let plugin = AgbSoundPlugin { enable_dmg: false, mixer_frequency: Some(Frequency::Hz10512) };
    let mut world = booted();
    assert!(!world.run_system(System::MixerFrame));
    plugin.finish(&mut world);
    assert!(world.run_system(System::MixerFrame));
}
