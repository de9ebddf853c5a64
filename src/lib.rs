//! Discovery of nearby Bluetooth peripherals and the connection and
//! receive-loop decisions for an RFCOMM stream to each of them.
//!
//! The operating system is reached by the caller: the types here decide which
//! call comes next and what its outcome means.
pub mod bt_magic;
pub mod catalog;
pub mod data_types;
pub mod receive;
pub mod session;

pub use bt_magic::BtMagic;
pub use catalog::{CatalogError, Discovery, SearchParams};
pub use data_types::{BtAddress, DeviceData, DeviceInfo};
pub use receive::{RecvAction, RECV_BUFFER_LEN};
pub use session::{BtSocketAddress, Guid, Session, SessionAction, SessionError, SessionState};
