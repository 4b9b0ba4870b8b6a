//! pet2d: the decision logic of a lightweight 2D engine for desktop games
//! and desktop pets, verified with Verus. The window system, the GPU and
//! the floating-point geometry live in the application around it; this
//! library holds what the engine decides: how window events become input
//! state, when a frame wait resolves, how assets are cached, how draws are
//! batched per texture, which spritesheet cell and animation frame show, and
//! how the render surface is configured.

pub mod assets;
pub mod batch;
pub mod context;
pub mod decode;
pub mod frame;
pub mod input;
pub mod keycode;
pub mod keyset;
pub mod mouse;
pub mod native;
pub mod spritesheet;
pub mod sprite;
pub mod surface;
pub mod window;

pub use assets::AssetServer;
pub use batch::{DrawGroup, SpriteBatch};
pub use context::Context;
pub use decode::{decode_image, decode_image_file, rgba8_row_bytes, DecodeError, DecodedImage, ImageKind};
pub use frame::{next_frame, NextFrame};
pub use input::{is_key_down, is_key_pressed, is_mouse_button_down, InputState, KeyEvent};
pub use keycode::KeyCode;
pub use keyset::{ButtonSet, KeySet, SetElement, SmallSet};
pub use mouse::MouseButton;
pub use native::{ElementState, NativeKeyCode, NativeMouseButton};
pub use spritesheet::{frame_cell, Playback};
pub use sprite::circle_fan_indices;
pub use surface::{
    choose_alpha_mode, resize_target, surface_configuration, surface_error_recovery,
    CompositeAlphaMode, FrameRecovery, SurfaceCapabilities, SurfaceError, SurfaceSettings,
};
pub use window::{PetWindowOptions, WindowLevel};
