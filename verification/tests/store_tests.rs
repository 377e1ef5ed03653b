use light_editor::color::EditColor;
use light_editor::store::{
    LightStore, DEFAULT_AMBIENT_BRIGHTNESS_CODE, DEFAULT_FALLOFF_CODE, DEFAULT_INTENSITY_CODE,
    DEFAULT_RADIUS_CODE, ORIGIN_CODE,
};

#[test]
fn spawn_assigns_sequential_spotlight_names() {
    let mut store = LightStore::new();
    for _ in 0..5 {
        store.spawn_point_light();
    }
    let names: Vec<&str> = store.lights.iter().map(|l| l.display_name.as_str()).collect();
    assert_eq!(
        names,
        vec!["Spotlight 1", "Spotlight 2", "Spotlight 3", "Spotlight 4", "Spotlight 5"]
    );
}

#[test]
fn spawn_uses_fixed_defaults() {
    let mut store = LightStore::new();
    let id = store.spawn_point_light();
    assert_eq!(id, 0);
    let l = &store.lights[0];
    assert_eq!(f32::from_bits(l.intensity), 5.0);
    assert_eq!(f32::from_bits(l.radius), 32.0);
    assert_eq!(f32::from_bits(l.falloff), 0.0);
    assert_eq!(l.position_x, ORIGIN_CODE);
    assert_eq!(l.position_y, ORIGIN_CODE);
    assert_eq!(l.color.red.num, 255);
    assert_eq!(l.color.red.den, 255);
    assert_eq!(l.edit_buffer, l.display_name);
    assert_eq!(f32::from_bits(DEFAULT_INTENSITY_CODE), 5.0);
    assert_eq!(f32::from_bits(DEFAULT_RADIUS_CODE), 32.0);
    assert_eq!(f32::from_bits(DEFAULT_FALLOFF_CODE), 0.0);
    assert_eq!(f32::from_bits(store.ambient.brightness), 1.0);
    assert_eq!(f32::from_bits(DEFAULT_AMBIENT_BRIGHTNESS_CODE), 1.0);
}

#[test]
fn duplicating_first_of_three_appends_count_before_duplication() {
    let mut store = LightStore::new();
    store.spawn_point_light();
    store.spawn_point_light();
    store.spawn_point_light();
    let new_id = store.duplicate(0);
    assert_eq!(new_id, 3);
    assert_eq!(store.lights.len(), 4);
    // count before duplication (3), not after (4)
    assert_eq!(store.lights[3].display_name, "Spotlight 1 3");
    assert_eq!(store.lights[3].edit_buffer, "Spotlight 1 3");
}

#[test]
fn duplicate_copies_every_parameter() {
    let mut store = LightStore::new();
    let id = store.spawn_point_light();
    store.set_position(id, 17, 23);
    store.set_intensity(id, 41);
    store.set_radius(id, 59);
    store.set_falloff(id, 67);
    store.set_color_from_edit(id, EditColor { red: 10, green: 20, blue: 30 });
    let copy = store.duplicate(id);
    let src = &store.lights[id];
    let dup = &store.lights[copy];
    assert_eq!(dup.position_x, src.position_x);
    assert_eq!(dup.position_y, src.position_y);
    assert_eq!(dup.intensity, src.intensity);
    assert_eq!(dup.radius, src.radius);
    assert_eq!(dup.falloff, src.falloff);
    assert_eq!(dup.color, src.color);
    assert_eq!(dup.display_name, "Spotlight 1 1");
}

#[test]
fn typing_without_focus_loss_does_not_rename() {
    let mut store = LightStore::new();
    let id = store.spawn_point_light();
    store.set_edit_buffer(id, String::from("Torch"));
    let renamed = store.commit_rename(id, false);
    assert!(!renamed);
    assert_eq!(store.lights[id].display_name, "Spotlight 1");
    assert_eq!(store.lights[id].edit_buffer, "Torch");
}

#[test]
fn focus_loss_with_unchanged_buffer_triggers_no_rename() {
    let mut store = LightStore::new();
    let id = store.spawn_point_light();
    let renamed = store.commit_rename(id, true);
    assert!(!renamed);
    assert_eq!(store.lights[id].display_name, "Spotlight 1");
}

#[test]
fn focus_loss_with_changed_buffer_commits_and_resyncs() {
    let mut store = LightStore::new();
    let id = store.spawn_point_light();
    store.set_edit_buffer(id, String::from("Torch"));
    let renamed = store.commit_rename(id, true);
    assert!(renamed);
    assert_eq!(store.lights[id].display_name, "Torch");
    assert_eq!(store.lights[id].edit_buffer, "Torch");
}

#[test]
fn duplicate_of_renamed_light_uses_committed_name() {
    let mut store = LightStore::new();
    let id = store.spawn_point_light();
    store.set_edit_buffer(id, String::from("Torch"));
    store.commit_rename(id, true);
    let copy = store.duplicate(id);
    assert_eq!(store.lights[copy].display_name, "Torch 1");
}

#[test]
fn setters_overwrite_unconditionally() {
    let mut store = LightStore::new();
    let id = store.spawn_point_light();
    // any 32-bit code is accepted, including ones encoding out-of-range
    // values: no validation, no clamping
    let negative_radius = (-3.5f32).to_bits();
    store.set_radius(id, negative_radius);
    assert_eq!(f32::from_bits(store.lights[id].radius), -3.5);
    store.set_ambient((-0.25f32).to_bits(), EditColor { red: 0, green: 128, blue: 255 });
    assert_eq!(f32::from_bits(store.ambient.brightness), -0.25);
    assert_eq!(store.ambient.color.green.num, 128);
    assert_eq!(store.ambient.color.green.den, 255);
}

#[test]
fn names_render_multi_digit_ordinals() {
    let mut store = LightStore::new();
    for _ in 0..12 {
        store.spawn_point_light();
    }
    assert_eq!(store.lights[9].display_name, "Spotlight 10");
    assert_eq!(store.lights[11].display_name, "Spotlight 12");
    assert_eq!(light_editor::names::u64_to_dec(90210), "90210");
    assert_eq!(light_editor::names::u64_to_dec(0), "0");
}
