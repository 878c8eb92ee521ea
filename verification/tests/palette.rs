use kannaka_tui::palette::{agent_color, bus_subject_color, level_color, mode_color, Color};

#[test]
fn the_brand_has_its_parts() {
    assert_eq!(Color::Bg.parts(), (10, 10, 26));
    assert_eq!(Color::Accent.parts(), (123, 104, 238));
    assert_eq!(Color::Rgb(1, 2, 3).parts(), (1, 2, 3));
}

#[test]
fn subjects_have_their_colours() {
    assert_eq!(bus_subject_color("QUEEN.phase.a"), Color::Dim);
    assert_eq!(bus_subject_color("QUEEN.vote"), Color::Rgb(180, 140, 255));
    assert_eq!(bus_subject_color("KANNAKA.consciousness"), Color::Accent);
    assert_eq!(bus_subject_color("KANNAKA.memory.new"), Color::Success);
    assert_eq!(bus_subject_color("KANNAKA.substrate.phi"), Color::Info);
    assert_eq!(bus_subject_color("KANNAKA.dreams"), Color::Warning);
    assert_eq!(bus_subject_color("KANNAKA.x"), Color::Accent);
    assert_eq!(bus_subject_color("RADIO.x"), Color::Rgb(255, 100, 200));
    assert_eq!(bus_subject_color("KAX.x"), Color::Rgb(100, 200, 255));
    assert_eq!(bus_subject_color("EYE.x"), Color::Rgb(255, 200, 100));
    assert_eq!(bus_subject_color("tui.error"), Color::Error);
    assert_eq!(bus_subject_color("other"), Color::Text);
}

#[test]
fn levels_go_without_regard_to_case() {
    assert_eq!(level_color("RESONANT"), Color::Success);
    assert_eq!(level_color("Awakened"), Color::Success);
    assert_eq!(level_color("Coherent"), Color::Info);
    assert_eq!(level_color("developing"), Color::Warning);
    assert_eq!(level_color("Unknown"), Color::Dim);
}

#[test]
fn agents_go_by_their_handedness() {
    assert_eq!(agent_color("left", Color::Warning), Color::Rgb(255, 120, 120));
    assert_eq!(agent_color("right", Color::Warning), Color::Rgb(120, 200, 255));
    assert_eq!(agent_color("chiral", Color::Warning), Color::Rgb(255, 180, 100));
    assert_eq!(agent_color("achiral", Color::Warning), Color::Warning);
}

#[test]
fn modes_have_their_colours() {
    assert_eq!(mode_color("yolo"), Color::Error);
    assert_eq!(mode_color("plan"), Color::Info);
    assert_eq!(mode_color("auto-edit"), Color::Warning);
    assert_eq!(mode_color("default"), Color::Success);
}
