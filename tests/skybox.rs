use creative_bevy::{CubemapState, SkyboxAction, CUBEMAP_FACES};

#[test]
fn skybox_installs_once_when_loaded() {
    let mut state = CubemapState::new();
    assert_eq!(state.on_frame(false, 0), SkyboxAction::Wait);
    assert!(!state.is_loaded);
    assert_eq!(state.on_frame(true, 1), SkyboxAction::Install { reinterpret: true });
    assert!(state.is_loaded);
    assert_eq!(state.on_frame(true, 1), SkyboxAction::Wait);
}

#[test]
fn layered_cubemap_is_not_reinterpreted() {
    let mut state = CubemapState::new();
    assert_eq!(state.on_frame(true, CUBEMAP_FACES), SkyboxAction::Install { reinterpret: false });
}
