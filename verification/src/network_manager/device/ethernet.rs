//! Connecting an ethernet device.

use vstd::prelude::*;
use crate::network_manager::dbus::{path_arg, root_arg, usable_path, CallArg, MethodCall, NM_SERVICE_INTERFACE, NM_SERVICE_PATH};
use crate::network_manager::device::wifi_sta::is_add_and_activate_call;
use crate::network_manager::device::{Device, PathGetter};
use crate::network_manager::errors::NetworkManagerError;
use crate::network_manager::utils::{add_str, add_val};
use crate::settings::{AddressEntry, SettingValue, SettingsMap, ValueView, VariantMap};
use crate::text::{ipv4_number, ipv4_text, owned, str_eq, Ipv4Address};

verus! {

/// The "connection" section of an ethernet connection.
pub open spec fn ethernet_connection(name: Seq<char>, interface: Seq<char>) -> Map<Seq<char>, ValueView> {
    Map::empty().insert("id"@, ValueView::Str(name)).insert("interface-name"@, ValueView::Str(interface)).insert(
        "type"@,
        ValueView::Str("802-3-ethernet"@),
    )
}

/// The "ipv4" section of an ethernet connection: the method, with the gateway and the
/// address when the method is "manual", then the two name servers and the search domain.
pub open spec fn ethernet_ipv4(
    address: Ipv4Address,
    prefix: u8,
    gateway: Ipv4Address,
    dns_addr_1: Ipv4Address,
    dns_addr_2: Ipv4Address,
    dns_search: Seq<char>,
    method: Seq<char>,
) -> Map<Seq<char>, ValueView> {
    let base = Map::empty().insert("method"@, ValueView::Str(method));
    let addressed = if method == "manual"@ {
        base.insert("gateway"@, ValueView::Str(ipv4_text(gateway))).insert(
            "address-data"@,
            ValueView::Addresses(seq![(ipv4_text(address), prefix as u32)]),
        )
    } else {
        base
    };
    addressed.insert(
        "dns"@,
        ValueView::UIntList(seq![ipv4_number(dns_addr_1) as u32, ipv4_number(dns_addr_2) as u32]),
    ).insert("dns-search"@, ValueView::StrList(seq![dns_search]))
}

/// A device that can be connected over ethernet.
pub trait EthernetDevice {
    /// The bus path of the device.
    spec fn device_path(&self) -> Seq<char>;

    /// The network interface of the device.
    spec fn device_interface(&self) -> Seq<char>;

    /// The call that adds and activates a connection named `connection_name` on the
    /// device: with the given addressing method ("manual" also sets the address with its
    /// prefix and the gateway), two name servers and a search domain. An invalid device
    /// path is an error.
    fn connect(
        &self,
        address: Ipv4Address,
        address_netmask_bit_count: u8,
        gateway: Ipv4Address,
        dns_addr_1: Ipv4Address,
        dns_addr_2: Ipv4Address,
        dns_search: &str,
        method: &str,
        connection_name: &str,
    ) -> (r: Result<MethodCall, NetworkManagerError>)
        ensures
            r is Ok <==> usable_path(self.device_path()),
            r matches Ok(c) ==> is_add_and_activate_call(
                c,
                Map::empty().insert("connection"@, ethernet_connection(connection_name@, self.device_interface())).insert(
                    "ipv4"@,
                    ethernet_ipv4(
                        address,
                        address_netmask_bit_count,
                        gateway,
                        dns_addr_1,
                        dns_addr_2,
                        dns_search@,
                        method@,
                    ),
                ),
                self.device_path(),
                "/"@,
            ),
    ;
}

impl EthernetDevice for Device {
    open spec fn device_path(&self) -> Seq<char> {
        self.path_view()
    }

    open spec fn device_interface(&self) -> Seq<char> {
        self.interface_view()
    }

    fn connect(
        &self,
        address: Ipv4Address,
        address_netmask_bit_count: u8,
        gateway: Ipv4Address,
        dns_addr_1: Ipv4Address,
        dns_addr_2: Ipv4Address,
        dns_search: &str,
        method: &str,
        connection_name: &str,
    ) -> (r: Result<MethodCall, NetworkManagerError>)
    {
        let mut connection = VariantMap::new();
        add_str(&mut connection, "id", connection_name);
        add_str(&mut connection, "interface-name", self.interface());
        add_str(&mut connection, "type", "802-3-ethernet");

        let mut ipv4 = VariantMap::new();
        add_str(&mut ipv4, "method", method);
        if str_eq(method, "manual") {
            add_str(&mut ipv4, "gateway", gateway.to_text().as_str());
            let mut addresses: Vec<AddressEntry> = Vec::new();
            addresses.push(AddressEntry { address: address.to_text(), prefix: address_netmask_bit_count as u32 });
            proof {
                assert(addresses@.map_values(|e: AddressEntry| (e.address@, e.prefix)) =~= seq![
                    (ipv4_text(address), address_netmask_bit_count as u32),
                ]);
            }
            add_val(&mut ipv4, "address-data", SettingValue::Addresses(addresses));
        }
        let mut dns: Vec<u32> = Vec::new();
        dns.push(dns_addr_1.to_u32());
        dns.push(dns_addr_2.to_u32());
        proof {
            assert(dns@ =~= seq![ipv4_number(dns_addr_1) as u32, ipv4_number(dns_addr_2) as u32]);
        }
        add_val(&mut ipv4, "dns", SettingValue::UIntList(dns));
        let mut search: Vec<String> = Vec::new();
        search.push(owned(dns_search));
        proof {
            assert(search@.map_values(|s: String| s@) =~= seq![dns_search@]);
        }
        add_val(&mut ipv4, "dns-search", SettingValue::StrList(search));

        let mut settings = SettingsMap::new();
        settings.insert(owned("connection"), connection);
        settings.insert(owned("ipv4"), ipv4);

        let device = match path_arg(self.path()) {
            Ok(a) => a,
            Err(e) => return Err(e),
        };
        let mut args: Vec<CallArg> = Vec::new();
        args.push(CallArg::Settings(settings));
        args.push(device);
        args.push(root_arg());
        Ok(MethodCall {
            object: owned(NM_SERVICE_PATH),
            interface: NM_SERVICE_INTERFACE,
            method: "AddAndActivateConnection",
            args,
        })
    }
}

} // verus!
