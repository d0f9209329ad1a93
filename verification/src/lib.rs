//! A minimal USB device inspector library.
//!
//! The library holds the verified logic of a small inspector: scanning an
//! enumerated device list for the first device with a given vendor/product
//! identity that can be opened, and rendering the descriptor fields of an
//! opened device as output lines.

pub mod decimal;
pub mod locator;
pub mod printer;

pub use decimal::dec_string;
pub use locator::Descriptor;
pub use locator::DeviceProbe;
pub use locator::locate;
pub use locator::locate_from_enumeration;
pub use locator::should_try_open;
pub use printer::DeviceReads;
pub use printer::InfoError;
pub use printer::render_device_info;
pub use printer::wants_string_reads;
