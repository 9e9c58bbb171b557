//! Model of the RetroLudos 16-bit CPU: its instruction set (register codes,
//! a prefix-coded catalog of instruction formats, and a codec between typed
//! instructions and 16-bit words) and its memory subsystem (byte-addressable
//! devices routed through an overlap-safe multiplexer).

pub mod codec;
pub mod device;
pub mod isa;
pub mod mux;
pub mod registers;

pub use codec::decode;
pub use codec::encode;
pub use codec::DecodeError;
pub use device::InvalidAddress;
pub use device::InvalidMemoryDevice;
pub use device::MemoryDevice;
pub use device::VirtualMemoryCard;
pub use isa::Instruction;
pub use isa::InstructionTag;
pub use mux::MemoryMultiplexer;
pub use registers::IntRegister;
pub use registers::RatioRegister;
