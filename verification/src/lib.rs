//! Frame execution core of a GPU renderer: the decisions that turn a built
//! frame and queued texture-cache updates into an ordered list of device
//! commands, with every rule stated as a contract and proved.
//!
//! The core touches neither the graphics device nor the application's
//! external image handler. A render goes in three steps:
//!
//! 1. `Renderer::render_requests` says what the render needs from outside:
//!    the textures that the device has to create, and the external images
//!    that the handler has to lock.
//! 2. `Renderer::render` takes what was provided, changes the renderer's
//!    state, and gives the commands to perform.
//! 3. The caller performs the commands in order.
//!
//! Whatever is wrong with the frame or with the queued operations is found
//! before anything is changed: a render that fails leaves the renderer as
//! it was and gives no command.

pub mod types;
pub mod shader;
pub mod command;
pub mod texture_cache;
pub mod gpu_store;
pub mod tiling;
pub mod render_target;
pub mod checks;
pub mod external_image;
pub mod result_channel;
pub mod renderer;
pub mod batch;
pub mod frame_loop;
