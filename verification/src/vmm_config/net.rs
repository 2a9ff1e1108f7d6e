//! Network interfaces as they are configured before boot, and the list that
//! holds them.

use super::rate_limiter::RateLimiterConfig;
use crate::text::{padded_digits, push_padded_digits};
use vstd::prelude::*;
use vstd::string::*;

verus! {

/// A hardware address of six bytes.
#[derive(Clone, Copy, Debug, PartialEq, Eq, Structural)]
pub struct MacAddr {
    b0: u8,
    b1: u8,
    b2: u8,
    b3: u8,
    b4: u8,
    b5: u8,
}

impl View for MacAddr {
    type V = Seq<u8>;

    /// The six bytes, in the order in which they are written.
    closed spec fn view(&self) -> Seq<u8> {
        seq![self.b0, self.b1, self.b2, self.b3, self.b4, self.b5]
    }
}

/// One byte as two lower-case hexadecimal digits.
pub open spec fn hex_byte(b: u8) -> Seq<char> {
    padded_digits(b as nat, 16, 2)
}

/// An address as text: its bytes in hexadecimal, with colons between them.
pub open spec fn mac_text(bytes: Seq<u8>) -> Seq<char> {
    hex_byte(bytes[0]) + seq![':'] + hex_byte(bytes[1]) + seq![':'] + hex_byte(bytes[2]) + seq![
        ':',
    ] + hex_byte(bytes[3]) + seq![':'] + hex_byte(bytes[4]) + seq![':'] + hex_byte(bytes[5])
}

impl MacAddr {
    /// The address with the given bytes.
    pub fn from_bytes(bytes: [u8; 6]) -> (r: MacAddr)
        ensures
            r@ == bytes@,
    {
        let r = MacAddr {
            b0: bytes[0],
            b1: bytes[1],
            b2: bytes[2],
            b3: bytes[3],
            b4: bytes[4],
            b5: bytes[5],
        };
        assert(r@ =~= bytes@);
        r
    }

    /// The bytes of the address.
    pub fn get_bytes(&self) -> (r: [u8; 6])
        ensures
            r@ == self@,
    {
        let r = [self.b0, self.b1, self.b2, self.b3, self.b4, self.b5];
        assert(r@ =~= self@);
        r
    }

    /// Two addresses with the same bytes are the same address.
    pub proof fn lemma_view_decides(self, other: MacAddr)
        ensures
            (self@ == other@) <==> self == other,
    {
        if self@ == other@ {
            assert(self@[0] == other@[0]);
            assert(self@[1] == other@[1]);
            assert(self@[2] == other@[2]);
            assert(self@[3] == other@[3]);
            assert(self@[4] == other@[4]);
            assert(self@[5] == other@[5]);
        }
    }

    /// The address as text, such as `12:34:56:78:9a:bc`.
    pub fn text(&self) -> (r: String)
        ensures
            r@ == mac_text(self@),
    {
        let mut out = String::new();
        push_padded_digits(&mut out, self.b0 as u64, 16, 2);
        out.push(':');
        push_padded_digits(&mut out, self.b1 as u64, 16, 2);
        out.push(':');
        push_padded_digits(&mut out, self.b2 as u64, 16, 2);
        out.push(':');
        push_padded_digits(&mut out, self.b3 as u64, 16, 2);
        out.push(':');
        push_padded_digits(&mut out, self.b4 as u64, 16, 2);
        out.push(':');
        push_padded_digits(&mut out, self.b5 as u64, 16, 2);
        assert(out@ =~= mac_text(self@));
        out
    }
}

/// Why a tap device could not be opened.
#[derive(Clone, Debug, PartialEq, Eq)]
pub enum TapError {
    /// The tun device could not be opened; with the cause.
    OpenTun(String),
    /// The tap device could not be created; with the cause.
    CreateTap(String),
    /// The name is not one that an interface can have.
    InvalidIfname,
    /// A control call on the device failed; with the cause.
    IoctlError(String),
    /// The socket for the control calls could not be created; with the cause.
    CreateSocket(String),
}

impl TapError {
    /// The text of `message`.
    pub open spec fn message_spec(self) -> Seq<char> {
        match self {
            TapError::OpenTun(cause) => "Couldn't open /dev/net/tun: "@ + cause@,
            TapError::CreateTap(cause) => "Unable to create tap interface: "@ + cause@,
            TapError::InvalidIfname => "Invalid interface name"@,
            TapError::IoctlError(cause) => "Failed to configure the tap interface: "@ + cause@,
            TapError::CreateSocket(cause) => "Unable to create a socket for the tap interface: "@
                + cause@,
        }
    }

    /// A sentence that describes the error.
    pub fn message(&self) -> (r: String)
        ensures
            r@ == self.message_spec(),
    {
        match self {
            TapError::OpenTun(cause) => {
                let mut text = String::from_str("Couldn't open /dev/net/tun: ");
                text.append(cause.as_str());
                text
            },
            TapError::CreateTap(cause) => {
                let mut text = String::from_str("Unable to create tap interface: ");
                text.append(cause.as_str());
                text
            },
            TapError::InvalidIfname => String::from_str("Invalid interface name"),
            TapError::IoctlError(cause) => {
                let mut text = String::from_str("Failed to configure the tap interface: ");
                text.append(cause.as_str());
                text
            },
            TapError::CreateSocket(cause) => {
                let mut text = String::from_str(
                    "Unable to create a socket for the tap interface: ",
                );
                text.append(cause.as_str());
                text
            },
        }
    }
}

/// Why an operation on a network interface was refused.
#[derive(Clone, Debug, PartialEq, Eq)]
pub enum NetworkInterfaceError {
    /// Another interface has this guest address.
    GuestMacAddressInUse(MacAddr),
    /// Another interface uses this host tap device.
    HostDeviceNameInUse(String),
    /// No interface has this id.
    DeviceIdNotFound,
    /// The microVM has booted; the configuration can no longer change.
    UpdateNotAllowedPostBoot,
    /// The running device has no event handler registered; with the cause.
    EpollHandlerNotFound(String),
    /// The rate limiters of the running device could not be replaced; with the
    /// cause.
    RateLimiterUpdateFailed(String),
    /// The tap device could not be opened.
    OpenTap(TapError),
}

impl NetworkInterfaceError {
    /// The text of `message`.
    pub open spec fn message_spec(self) -> Seq<char> {
        match self {
            NetworkInterfaceError::GuestMacAddressInUse(mac) => "The guest MAC address "@
                + mac_text(mac@) + " is already in use."@,
            NetworkInterfaceError::HostDeviceNameInUse(name) => "The host device name "@ + name@
                + " is already in use."@,
            NetworkInterfaceError::DeviceIdNotFound => "Invalid interface ID - not found."@,
            NetworkInterfaceError::UpdateNotAllowedPostBoot => "The update operation is not allowed after boot."@,
            NetworkInterfaceError::EpollHandlerNotFound(cause) => "Event handler not found: "@
                + cause@,
            NetworkInterfaceError::RateLimiterUpdateFailed(cause) => "Failed to update the rate limiters: "@
                + cause@,
            NetworkInterfaceError::OpenTap(e) => "Cannot open TAP device. "@ + e.message_spec(),
        }
    }

    /// A sentence that describes the error.
    pub fn message(&self) -> (r: String)
        ensures
            r@ == self.message_spec(),
    {
        match self {
            NetworkInterfaceError::GuestMacAddressInUse(mac) => {
                let mut text = String::from_str("The guest MAC address ");
                text.append(mac.text().as_str());
                text.append(" is already in use.");
                text
            },
            NetworkInterfaceError::HostDeviceNameInUse(name) => {
                let mut text = String::from_str("The host device name ");
                text.append(name.as_str());
                text.append(" is already in use.");
                text
            },
            NetworkInterfaceError::DeviceIdNotFound => String::from_str(
                "Invalid interface ID - not found.",
            ),
            NetworkInterfaceError::UpdateNotAllowedPostBoot => String::from_str(
                "The update operation is not allowed after boot.",
            ),
            NetworkInterfaceError::EpollHandlerNotFound(cause) => {
                let mut text = String::from_str("Event handler not found: ");
                text.append(cause.as_str());
                text
            },
            NetworkInterfaceError::RateLimiterUpdateFailed(cause) => {
                let mut text = String::from_str("Failed to update the rate limiters: ");
                text.append(cause.as_str());
                text
            },
            NetworkInterfaceError::OpenTap(e) => {
                let mut text = String::from_str("Cannot open TAP device. ");
                text.append(e.message().as_str());
                text
            },
        }
    }
}

/// One network interface: which host tap device backs it and how the guest
/// sees it.
#[derive(Debug, PartialEq, Eq)]
pub struct NetworkInterfaceConfig {
    /// The name by which the interface is known.
    pub iface_id: String,
    /// The name of the tap device on the host.
    pub host_dev_name: String,
    /// The hardware address that the guest sees, if one is fixed.
    pub guest_mac: Option<MacAddr>,
    /// The limits on what the guest receives, if any.
    pub rx_rate_limiter: Option<RateLimiterConfig>,
    /// The limits on what the guest sends, if any.
    pub tx_rate_limiter: Option<RateLimiterConfig>,
    /// Whether the interface answers requests to the metadata service.
    pub allow_mmds_requests: bool,
}

impl Clone for NetworkInterfaceConfig {
    fn clone(&self) -> (r: Self)
        ensures
            r == *self,
    {
        NetworkInterfaceConfig {
            iface_id: self.iface_id.clone(),
            host_dev_name: self.host_dev_name.clone(),
            guest_mac: self.guest_mac,
            rx_rate_limiter: self.rx_rate_limiter,
            tx_rate_limiter: self.tx_rate_limiter,
            allow_mmds_requests: self.allow_mmds_requests,
        }
    }
}

impl NetworkInterfaceConfig {
    /// The hardware address that the guest sees, if one is fixed.
    pub fn guest_mac(&self) -> (r: Option<MacAddr>)
        ensures
            r == self.guest_mac,
    {
        self.guest_mac
    }

    /// Whether the interface answers requests to the metadata service.
    pub fn allow_mmds_requests(&self) -> (r: bool)
        ensures
            r == self.allow_mmds_requests,
    {
        self.allow_mmds_requests
    }

    /// This configuration with the rate limiters that `update` names laid over
    /// its own.
    pub open spec fn with_limits(self, update: NetworkInterfaceUpdateConfig)
        -> NetworkInterfaceConfig {
        NetworkInterfaceConfig {
            rx_rate_limiter: merged_limits(self.rx_rate_limiter, update.rx_rate_limiter),
            tx_rate_limiter: merged_limits(self.tx_rate_limiter, update.tx_rate_limiter),
            ..self
        }
    }
}

/// The limits `old` after `new` was laid over them: without `new` they stay,
/// without `old` they are `new`.
pub open spec fn merged_limits(old: Option<RateLimiterConfig>, new: Option<RateLimiterConfig>)
    -> Option<RateLimiterConfig> {
    match new {
        None => old,
        Some(n) => match old {
            None => Some(n),
            Some(o) => Some(o.updated(n)),
        },
    }
}

/// New rate limiters for an interface. A limiter or a bucket that is left out
/// stays as it is.
#[derive(Debug, PartialEq, Eq)]
pub struct NetworkInterfaceUpdateConfig {
    /// The name by which the interface is known.
    pub iface_id: String,
    /// New limits on what the guest receives, if any.
    pub rx_rate_limiter: Option<RateLimiterConfig>,
    /// New limits on what the guest sends, if any.
    pub tx_rate_limiter: Option<RateLimiterConfig>,
}

/// Whether some interface in `list` has the id `id`.
pub open spec fn has_iface(list: Seq<NetworkInterfaceConfig>, id: Seq<char>) -> bool {
    exists|i: int| 0 <= i < list.len() && (#[trigger] list[i]).iface_id@ == id
}

/// The place in `list` of an interface with the id `id`.
pub open spec fn iface_position(list: Seq<NetworkInterfaceConfig>, id: Seq<char>) -> int {
    choose|i: int| 0 <= i < list.len() && (#[trigger] list[i]).iface_id@ == id
}

/// Whether an interface of `list`, other than the one at `except`, has the
/// guest address `mac`.
pub open spec fn mac_in_use(list: Seq<NetworkInterfaceConfig>, mac: MacAddr, except: int) -> bool {
    exists|i: int| 0 <= i < list.len() && i != except && (#[trigger] list[i]).guest_mac == Some(mac)
}

/// Whether an interface of `list`, other than the one at `except`, uses the
/// host tap device `name`.
pub open spec fn host_name_in_use(list: Seq<NetworkInterfaceConfig>, name: Seq<char>, except: int)
    -> bool {
    exists|i: int| 0 <= i < list.len() && i != except && (#[trigger] list[i]).host_dev_name@ == name
}

/// No two interfaces of `list` share an id.
pub open spec fn iface_ids_unique(list: Seq<NetworkInterfaceConfig>) -> bool {
    forall|i: int, j: int|
        0 <= i < j < list.len() ==> (#[trigger] list[i]).iface_id@ != (#[trigger] list[j]).iface_id@
}

/// No two interfaces of `list` share a guest address.
pub open spec fn macs_unique(list: Seq<NetworkInterfaceConfig>) -> bool {
    forall|i: int, j: int|
        0 <= i < j < list.len() && (#[trigger] list[i]).guest_mac is Some ==> list[i].guest_mac != (
        #[trigger] list[j]).guest_mac
}

/// No two interfaces of `list` share a host tap device.
pub open spec fn host_names_unique(list: Seq<NetworkInterfaceConfig>) -> bool {
    forall|i: int, j: int|
        0 <= i < j < list.len() ==> (#[trigger] list[i]).host_dev_name@ != (
        #[trigger] list[j]).host_dev_name@
}

/// What a list of network interfaces must satisfy.
pub open spec fn net_list_valid(list: Seq<NetworkInterfaceConfig>) -> bool {
    iface_ids_unique(list) && macs_unique(list) && host_names_unique(list)
}

/// The list after `config` was inserted, or why the insertion is refused.
///
/// A configuration whose id is in the list replaces the one there, in place;
/// any other goes to the end. Either way its guest address and its host tap
/// device must be free, that is used by no other interface.
pub open spec fn net_insert_result(list: Seq<NetworkInterfaceConfig>, config: NetworkInterfaceConfig)
    -> Result<Seq<NetworkInterfaceConfig>, NetworkInterfaceError> {
    let place = if has_iface(list, config.iface_id@) {
        iface_position(list, config.iface_id@)
    } else {
        list.len() as int
    };
    if config.guest_mac is Some && mac_in_use(list, config.guest_mac->0, place) {
        Err(NetworkInterfaceError::GuestMacAddressInUse(config.guest_mac->0))
    } else if host_name_in_use(list, config.host_dev_name@, place) {
        Err(NetworkInterfaceError::HostDeviceNameInUse(config.host_dev_name))
    } else if place < list.len() {
        Ok(list.update(place, config))
    } else {
        Ok(list.push(config))
    }
}

/// The list after the rate limiters of one interface were updated, or why the
/// update is refused.
pub open spec fn net_update_result(
    list: Seq<NetworkInterfaceConfig>,
    update: NetworkInterfaceUpdateConfig,
) -> Result<Seq<NetworkInterfaceConfig>, NetworkInterfaceError> {
    if has_iface(list, update.iface_id@) {
        let i = iface_position(list, update.iface_id@);
        Ok(list.update(i, list[i].with_limits(update)))
    } else {
        Err(NetworkInterfaceError::DeviceIdNotFound)
    }
}

/// In a list without repeated ids, an interface's id leads back to its place.
pub proof fn lemma_iface_position(list: Seq<NetworkInterfaceConfig>, i: int)
    requires
        iface_ids_unique(list),
        0 <= i < list.len(),
    ensures
        has_iface(list, list[i].iface_id@),
        iface_position(list, list[i].iface_id@) == i,
{
    let id = list[i].iface_id@;
    let p = iface_position(list, id);
    assert(0 <= p < list.len() && list[p].iface_id@ == id);
    if p < i {
        assert(list[p].iface_id@ != list[i].iface_id@);
    } else if i < p {
        assert(list[i].iface_id@ != list[p].iface_id@);
    }
}

/// Replacing or adding an interface whose id, guest address and host tap
/// device clash with no other interface keeps a list valid.
proof fn lemma_place_keeps_valid(
    list: Seq<NetworkInterfaceConfig>,
    config: NetworkInterfaceConfig,
    place: int,
)
    requires
        net_list_valid(list),
        0 <= place <= list.len(),
        forall|i: int|
            0 <= i < list.len() && i != place ==> (#[trigger] list[i]).iface_id@ != config.iface_id@,
        config.guest_mac is Some ==> !mac_in_use(list, config.guest_mac->0, place),
        !host_name_in_use(list, config.host_dev_name@, place),
    ensures
        net_list_valid(
            if place < list.len() {
                list.update(place, config)
            } else {
                list.push(config)
            },
        ),
{
    let after = if place < list.len() {
        list.update(place, config)
    } else {
        list.push(config)
    };
    assert forall|a: int, b: int| 0 <= a < b < after.len() implies (#[trigger] after[a]).iface_id@
        != (#[trigger] after[b]).iface_id@ by {
        if a != place && b != place {
            assert(list[a].iface_id@ != list[b].iface_id@);
        } else if a != place {
            assert(list[a].iface_id@ != config.iface_id@);
        } else {
            assert(list[b].iface_id@ != config.iface_id@);
        }
    }
    assert forall|a: int, b: int|
        0 <= a < b < after.len() && (#[trigger] after[a]).guest_mac is Some implies after[a].guest_mac
        != (#[trigger] after[b]).guest_mac by {
        if a != place && b != place {
            assert(list[a].guest_mac is Some ==> list[a].guest_mac != list[b].guest_mac);
        } else if a != place {
            assert(list[a].guest_mac is Some);
            if config.guest_mac is Some {
                assert(list[a].guest_mac != Some(config.guest_mac->0));
            }
        } else {
            assert(list[b].guest_mac != Some(config.guest_mac->0));
        }
    }
    assert forall|a: int, b: int| 0 <= a < b < after.len() implies (#[trigger] after[a]).host_dev_name@
        != (#[trigger] after[b]).host_dev_name@ by {
        if a != place && b != place {
            assert(list[a].host_dev_name@ != list[b].host_dev_name@);
        } else if a != place {
            assert(list[a].host_dev_name@ != config.host_dev_name@);
        } else {
            assert(list[b].host_dev_name@ != config.host_dev_name@);
        }
    }
}

/// An insertion that succeeds leaves a valid list, in which no two interfaces
/// share a guest address or a host tap device; it replaces where the id was
/// known and adds one entry where it was not.
pub proof fn lemma_net_insert_keeps_valid(
    list: Seq<NetworkInterfaceConfig>,
    config: NetworkInterfaceConfig,
)
    requires
        net_list_valid(list),
    ensures
        net_insert_result(list, config) matches Ok(after) ==> {
            &&& net_list_valid(after)
            &&& has_iface(after, config.iface_id@)
            &&& after[iface_position(after, config.iface_id@)] == config
            &&& has_iface(list, config.iface_id@) ==> after.len() == list.len()
            &&& !has_iface(list, config.iface_id@) ==> after.len() == list.len() + 1
        },
{
    if let Ok(after) = net_insert_result(list, config) {
        let place = if has_iface(list, config.iface_id@) {
            iface_position(list, config.iface_id@)
        } else {
            list.len() as int
        };
        assert forall|i: int| 0 <= i < list.len() && i != place implies (#[trigger] list[i]).iface_id@
            != config.iface_id@ by {
            if has_iface(list, config.iface_id@) {
                if i < place {
                    assert(list[i].iface_id@ != list[place].iface_id@);
                } else {
                    assert(list[place].iface_id@ != list[i].iface_id@);
                }
            }
        }
        lemma_place_keeps_valid(list, config, place);
        assert(after[place].iface_id@ == config.iface_id@);
        lemma_iface_position(after, place);
    }
}

/// The list after each of `requests` was tried in turn; a refused insertion
/// leaves the list as it was.
pub open spec fn net_insert_all(
    list: Seq<NetworkInterfaceConfig>,
    requests: Seq<NetworkInterfaceConfig>,
) -> Seq<NetworkInterfaceConfig>
    decreases requests.len(),
{
    if requests.len() == 0 {
        list
    } else {
        let before = net_insert_all(list, requests.drop_last());
        match net_insert_result(before, requests.last()) {
            Ok(after) => after,
            Err(_) => before,
        }
    }
}

/// However many insertions are tried on a valid list, and whichever of them
/// succeed, no two interfaces of the list share a guest address, a host tap
/// device or an id.
pub proof fn lemma_net_insert_all_keeps_valid(
    list: Seq<NetworkInterfaceConfig>,
    requests: Seq<NetworkInterfaceConfig>,
)
    requires
        net_list_valid(list),
    ensures
        net_list_valid(net_insert_all(list, requests)),
    decreases requests.len(),
{
    if requests.len() > 0 {
        lemma_net_insert_all_keeps_valid(list, requests.drop_last());
        lemma_net_insert_keeps_valid(net_insert_all(list, requests.drop_last()), requests.last());
    }
}

/// The network interfaces of a microVM.
#[derive(Debug)]
pub struct NetworkInterfaceConfigs {
    if_list: Vec<NetworkInterfaceConfig>,
}

impl View for NetworkInterfaceConfigs {
    type V = Seq<NetworkInterfaceConfig>;

    /// The interfaces, first to last.
    closed spec fn view(&self) -> Seq<NetworkInterfaceConfig> {
        self.if_list@
    }
}

impl NetworkInterfaceConfigs {
    /// The list is valid: no id, no guest address and no host tap device twice.
    pub open spec fn wf(&self) -> bool {
        net_list_valid(self@)
    }

    /// An empty list.
    pub fn new() -> (r: Self)
        ensures
            r.wf(),
            r@ == Seq::<NetworkInterfaceConfig>::empty(),
    {
        NetworkInterfaceConfigs { if_list: Vec::new() }
    }

    /// The interfaces, first to last.
    pub fn if_list(&self) -> (r: &Vec<NetworkInterfaceConfig>)
        ensures
            r@ == self@,
    {
        &self.if_list
    }

    /// The number of interfaces.
    pub fn len(&self) -> (r: usize)
        ensures
            r == self@.len(),
    {
        self.if_list.len()
    }

    /// The place of the interface with the id `iface_id`, if there is one.
    pub fn get_index_of_iface_id(&self, iface_id: &str) -> (r: Option<usize>)
        ensures
            match r {
                Some(i) => i < self@.len() && self@[i as int].iface_id@ == iface_id@,
                None => !has_iface(self@, iface_id@),
            },
    {
        let mut i: usize = 0;
        while i < self.if_list.len()
            invariant
                i <= self.if_list.len(),
                forall|j: int| 0 <= j < i ==> (#[trigger] self.if_list@[j]).iface_id@ != iface_id@,
            decreases self.if_list.len() - i,
        {
            if self.if_list[i].iface_id.as_str().eq(iface_id) {
                return Some(i);
            }
            i = i + 1;
        }
        None
    }

    fn mac_taken(&self, mac: MacAddr, except: usize) -> (r: bool)
        ensures
            r == mac_in_use(self@, mac, except as int),
    {
        let mut i: usize = 0;
        while i < self.if_list.len()
            invariant
                i <= self.if_list.len(),
                forall|j: int|
                    0 <= j < i && j != except ==> (#[trigger] self.if_list@[j]).guest_mac != Some(
                        mac,
                    ),
            decreases self.if_list.len() - i,
        {
            if i != except {
                if let Some(other) = self.if_list[i].guest_mac {
                    if other == mac {
                        return true;
                    }
                }
            }
            i = i + 1;
        }
        false
    }

    fn host_name_taken(&self, name: &str, except: usize) -> (r: bool)
        ensures
            r == host_name_in_use(self@, name@, except as int),
    {
        let mut i: usize = 0;
        while i < self.if_list.len()
            invariant
                i <= self.if_list.len(),
                forall|j: int|
                    0 <= j < i && j != except ==> (#[trigger] self.if_list@[j]).host_dev_name@
                        != name@,
            decreases self.if_list.len() - i,
        {
            if i != except && self.if_list[i].host_dev_name.as_str().eq(name) {
                return true;
            }
            i = i + 1;
        }
        false
    }

    /// Inserts `config`, or replaces the interface that has its id. A refused
    /// insertion leaves the list as it was.
    pub fn insert(&mut self, config: NetworkInterfaceConfig) -> (r: Result<
        (),
        NetworkInterfaceError,
    >)
        requires
            old(self).wf(),
        ensures
            final(self).wf(),
            match r {
                Ok(()) => net_insert_result(old(self)@, config) == Ok::<
                    Seq<NetworkInterfaceConfig>,
                    NetworkInterfaceError,
                >(final(self)@),
                Err(e) => net_insert_result(old(self)@, config) == Err::<
                    Seq<NetworkInterfaceConfig>,
                    NetworkInterfaceError,
                >(e) && final(self)@ == old(self)@,
            },
    {
        proof {
            lemma_net_insert_keeps_valid(self@, config);
        }
        let found = self.get_index_of_iface_id(config.iface_id.as_str());
        let place = match found {
            Some(i) => {
                proof {
                    lemma_iface_position(self@, i as int);
                }
                i
            },
            None => self.if_list.len(),
        };
        if let Some(mac) = config.guest_mac {
            if self.mac_taken(mac, place) {
                return Err(NetworkInterfaceError::GuestMacAddressInUse(mac));
            }
        }
        if self.host_name_taken(config.host_dev_name.as_str(), place) {
            return Err(NetworkInterfaceError::HostDeviceNameInUse(config.host_dev_name.clone()));
        }
        if place < self.if_list.len() {
            self.if_list.set(place, config);
        } else {
            self.if_list.push(config);
        }
        Ok(())
    }

    /// Lays the rate limiters that `update` names over those of the interface
    /// that it names. Where there is no such interface the list stays as it
    /// was.
    pub fn update_rate_limiters(&mut self, update: &NetworkInterfaceUpdateConfig) -> (r: Result<
        (),
        NetworkInterfaceError,
    >)
        requires
            old(self).wf(),
        ensures
            final(self).wf(),
            match r {
                Ok(()) => net_update_result(old(self)@, *update) == Ok::<
                    Seq<NetworkInterfaceConfig>,
                    NetworkInterfaceError,
                >(final(self)@),
                Err(e) => net_update_result(old(self)@, *update) == Err::<
                    Seq<NetworkInterfaceConfig>,
                    NetworkInterfaceError,
                >(e) && final(self)@ == old(self)@,
            },
    {
        let i = match self.get_index_of_iface_id(update.iface_id.as_str()) {
            None => {
                return Err(NetworkInterfaceError::DeviceIdNotFound);
            },
            Some(i) => i,
        };
        proof {
            lemma_iface_position(self@, i as int);
        }
        let mut config = self.if_list[i].clone();
        config.rx_rate_limiter = merge_limits(config.rx_rate_limiter, update.rx_rate_limiter);
        config.tx_rate_limiter = merge_limits(config.tx_rate_limiter, update.tx_rate_limiter);
        let ghost before = self@;
        self.if_list.set(i, config);
        proof {
            let after = self@;
            assert forall|a: int, b: int| 0 <= a < b < after.len() implies (#[trigger] after[a]).iface_id@
                != (#[trigger] after[b]).iface_id@ by {
                assert(before[a].iface_id@ != before[b].iface_id@);
            }
            assert forall|a: int, b: int|
                0 <= a < b < after.len() && (#[trigger] after[a]).guest_mac is Some implies after[a].guest_mac
                != (#[trigger] after[b]).guest_mac by {
                assert(before[a].guest_mac is Some ==> before[a].guest_mac != before[b].guest_mac);
            }
            assert forall|a: int, b: int| 0 <= a < b < after.len() implies (
            #[trigger] after[a]).host_dev_name@ != (#[trigger] after[b]).host_dev_name@ by {
                assert(before[a].host_dev_name@ != before[b].host_dev_name@);
            }
        }
        Ok(())
    }
}

/// Lays the limits `new` over `old`.
fn merge_limits(old: Option<RateLimiterConfig>, new: Option<RateLimiterConfig>) -> (r: Option<
    RateLimiterConfig,
>)
    ensures
        r == merged_limits(old, new),
{
    match new {
        None => old,
        Some(n) => match old {
            None => Some(n),
            Some(o) => {
                let mut merged = o;
                merged.update(&n);
                Some(merged)
            },
        },
    }
}

} // verus!
