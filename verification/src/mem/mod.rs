//! The memory interconnect and the boot image.

pub mod bios;
pub mod mmu;

pub use self::bios::BIOS;
pub use self::mmu::Mmu;
pub use self::mmu::MmuView;
