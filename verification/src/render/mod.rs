pub mod editor_hud;
pub mod fly_camera;
pub mod instance;
pub mod palette_overlay;
