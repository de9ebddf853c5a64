use vstd::prelude::*;
use crate::catalog::{search_params_spec, CatalogError, Discovery, SearchParams};
use crate::data_types::{address_value, DeviceData, DeviceInfo};
use crate::receive::{recv_action, RecvAction, RECV_BUFFER_LEN};
use crate::session::{
    base_uuid_tail, uuid16_guid, version_word, BtSocketAddress, Guid, Session, SessionState,
    RFCOMM_UUID16, STACK_VERSION_MAJOR, STACK_VERSION_MINOR,
};

verus! {

/// Entry point to discovery and to the connection of each device.
pub struct BtMagic;

impl Default for BtMagic {
    fn default() -> (r: Self)
        ensures
            r == BtMagic,
    {
        BtMagic
    }
}

impl BtMagic {
    pub fn new() -> (r: Self)
        ensures
            r == BtMagic,
    {
        BtMagic
    }

    /// What the inquiry asks for.
    pub fn search_params(&self) -> (r: SearchParams)
        ensures
            r == search_params_spec(),
    {
        SearchParams {
            return_authenticated: true,
            return_remembered: false,
            return_unknown: true,
            return_connected: true,
            issue_inquiry: true,
            timeout_multiplier: 2,
        }
    }

    /// Begins discovery with the result of the first lookup: without a device
    /// there, nothing is found and no further lookup may be made.
    pub fn find_devices(&self, first: Option<DeviceInfo>) -> (r: Result<Discovery, CatalogError>)
        ensures
            first is None ==> r == Err::<Discovery, CatalogError>(CatalogError::DeviceNotFound),
            first is Some ==> r is Ok && r->Ok_0.devices_spec() == seq![first->Some_0]
                && !r->Ok_0.is_finished(),
    {
        Discovery::start(first)
    }

    /// A session for one device: version 2.2 of the network subsystem, then
    /// an RFCOMM connection to the device's address on a port the stack
    /// resolves.
    pub fn connect(&self, device_data: &DeviceData) -> (r: Session)
        ensures
            r.state_spec() == SessionState::Uninitialized,
            r.version_spec() == version_word(STACK_VERSION_MAJOR, STACK_VERSION_MINOR),
            r.address_spec().service_class_id == uuid16_guid(RFCOMM_UUID16),
            r.address_spec().port == 0,
            r.address_spec().bt_addr == address_value(device_data.address.raw@),
    {
        let address = BtSocketAddress {
            service_class_id: self.uuid16_to_guid(RFCOMM_UUID16),
            port: 0,
            bt_addr: device_data.address.value(),
        };
        Session::new(self.makeword(STACK_VERSION_MAJOR, STACK_VERSION_MINOR), address)
    }

    /// What to do after a read on the non-blocking socket returned
    /// `read_result`.
    pub fn recv(&self, read_result: i32) -> (r: RecvAction)
        ensures
            r == recv_action(read_result),
    {
        if read_result < 0 {
            RecvAction::Retry
        } else if read_result == 0 {
            RecvAction::Close
        } else if read_result > RECV_BUFFER_LEN as i32 {
            RecvAction::Report(RECV_BUFFER_LEN)
        } else {
            RecvAction::Report(read_result as usize)
        }
    }

    /// The 16-bit word with low byte `lo` and high byte `hi`.
    pub fn makeword(&self, lo: u16, hi: u16) -> (r: u16)
        ensures
            r == version_word(lo, hi),
    {
        let r = (lo & 0xff) | ((hi & 0xff) << 8);
        assert(((lo & 0xff) | ((hi & 0xff) << 8)) == (lo % 256) + 256 * (hi % 256))
            by (bit_vector);
        r
    }

    /// Expands a 16-bit UUID with the Bluetooth base UUID
    /// `xxxxxxxx-0000-1000-8000-00805F9B34FB`.
    pub fn uuid16_to_guid(&self, uuid16: u32) -> (r: Guid)
        ensures
            r == uuid16_guid(uuid16),
            r.data4@ == base_uuid_tail(),
    {
        let r = Guid {
            data1: uuid16,
            data2: 0x0000,
            data3: 0x1000,
            data4: [0x80, 0x00, 0x00, 0x80, 0x5F, 0x9B, 0x34, 0xFB],
        };
        assert(r.data4@ =~= base_uuid_tail());
        r
    }
}

} // verus!
