//! The video unit: display timing, video RAM and the framebuffer.

pub mod gpu;

pub use self::gpu::Gpu;
pub use self::gpu::GpuView;
pub use self::gpu::Mode;
pub use self::gpu::Timing;
