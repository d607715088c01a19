//! Service identities and addresses: the names under which the HAR-SDV
//! proxies are known to SDV service discovery, the registrations they make,
//! the lookups by name, and the addresses the services listen and connect at.

use crate::text::{decimal, i64_text};
use vstd::prelude::*;

verus! {

/// The fully qualified name of a service instance.
#[derive(Debug)]
pub struct ServiceFqin {
    pub vm_name: String,
    pub package_name: String,
    pub service_name: String,
    pub instance_name: String,
}

/// The four parts of a name, by view.
pub open spec fn fqin_parts(f: ServiceFqin) -> (Seq<char>, Seq<char>, Seq<char>, Seq<char>) {
    (f.vm_name@, f.package_name@, f.service_name@, f.instance_name@)
}

/// The name of a HAR-SDV service bundle: its VM, its package, the given
/// bundle, the default instance.
pub open spec fn bundle_fqin(service: Seq<char>) -> (Seq<char>, Seq<char>, Seq<char>, Seq<char>) {
    ("local-vm"@, "com.sdv.google.display_safety"@, service, "default"@)
}

/// The name of the HAR-SDV DriverUI proxy service.
pub fn get_har_sdv_driverui_service_fqin() -> (f: ServiceFqin)
    ensures
        fqin_parts(f) == bundle_fqin("DriverUIService"@),
{
    ServiceFqin {
        vm_name: String::from_str("local-vm"),
        package_name: String::from_str("com.sdv.google.display_safety"),
        service_name: String::from_str("DriverUIService"),
        instance_name: String::from_str("default"),
    }
}

/// The name of the HAR-SDV camera proxy service.
pub fn get_har_sdv_camera_service_fqin() -> (f: ServiceFqin)
    ensures
        fqin_parts(f) == bundle_fqin("CameraService"@),
{
    ServiceFqin {
        vm_name: String::from_str("local-vm"),
        package_name: String::from_str("com.sdv.google.display_safety"),
        service_name: String::from_str("CameraService"),
        instance_name: String::from_str("default"),
    }
}

/// A lookup in service discovery: an empty VM or instance name matches any.
#[derive(Debug)]
pub struct ServiceQuery {
    pub vm_name: Option<String>,
    pub package_name: String,
    pub service_name: String,
    pub instance_name: Option<String>,
}

/// A name part that restricts a lookup only when it is not empty.
pub open spec fn optional_part(s: Seq<char>, q: Option<String>) -> bool {
    if s.len() == 0 {
        q is None
    } else {
        q matches Some(v) && v@ == s
    }
}

/// Some of a copy of `s` when it is not empty.
fn non_empty(s: &String) -> (r: Option<String>)
    ensures
        optional_part(s@, r),
{
    if s.as_str().unicode_len() == 0 {
        None
    } else {
        Some(s.clone())
    }
}

/// The lookup for the services that carry a name.
pub fn service_query(fqin: &ServiceFqin) -> (q: ServiceQuery)
    ensures
        optional_part(fqin.vm_name@, q.vm_name),
        q.package_name@ == fqin.package_name@,
        q.service_name@ == fqin.service_name@,
        optional_part(fqin.instance_name@, q.instance_name),
{
    ServiceQuery {
        vm_name: non_empty(&fqin.vm_name),
        package_name: fqin.package_name.clone(),
        service_name: fqin.service_name.clone(),
        instance_name: non_empty(&fqin.instance_name),
    }
}

/// The service a lookup settles on: the first one found, if any.
pub fn first_found_service<T>(found: Vec<T>) -> (r: Option<T>)
    ensures
        found@.len() == 0 ==> r is None,
        found@.len() > 0 ==> r == Some(found@[0]),
{
    let mut found = found;
    if found.len() == 0 {
        None
    } else {
        Some(found.remove(0))
    }
}

/// What a proxy registers with service discovery: its public key, its name,
/// custom metadata and the port it listens at.
#[derive(Debug)]
pub struct ServiceRegistration {
    pub public_key: Vec<u8>,
    pub fqin: ServiceFqin,
    pub custom_data: Vec<u8>,
    pub listening_port: i32,
}

/// The port at which the DriverUI proxy listens.
pub const DRIVERUI_RPC_SERVER_PORT: i32 = 7000;

/// The port at which the camera proxy listens.
pub const CAMERA_RPC_SERVER_PORT: i32 = 8000;

/// The host at which the proxies listen.
pub open spec fn rpc_server_host() -> Seq<char> {
    "0.0.0.0"@
}

/// The bytes of a text.
pub open spec fn ascii_bytes(s: Seq<char>) -> Seq<u8> {
    s.map_values(|c: char| c as u8)
}

/// The key under which the DriverUI proxy registers.
pub open spec fn driverui_public_key() -> Seq<u8> {
    ascii_bytes("HARSDVGATEWAY-7890123456_______"@).push(0u8)
}

/// The key under which the camera proxy registers.
pub open spec fn camera_public_key() -> Seq<u8> {
    ascii_bytes("HARSDVGATEWAY-CAMERA-7890123456"@).push(0u8)
}

/// The name under which a proxy of the HAR-SDV process registers.
pub open spec fn process_proxy_fqin(service: Seq<char>) -> (Seq<char>, Seq<char>, Seq<char>, Seq<char>) {
    (""@, "android.sdv.displaysafety"@, service, "default"@)
}

/// The bytes of an ASCII text, with a zero byte at the end.
fn zero_terminated(s: &str) -> (v: Vec<u8>)
    requires
        s.is_ascii(),
    ensures
        v@ == ascii_bytes(s@).push(0u8),
{
    let mut v: Vec<u8> = Vec::new();
    let n = s.unicode_len();
    let mut i: usize = 0;
    while i < n
        invariant
            i <= n,
            n == s@.len(),
            s.is_ascii(),
            v@ == ascii_bytes(s@.subrange(0, i as int)),
        decreases n - i,
    {
        let c = s.get_char(i);
        v.push(c as u8);
        i = i + 1;
        assert(v@ =~= ascii_bytes(s@.subrange(0, i as int)));
    }
    assert(s@.subrange(0, n as int) =~= s@);
    v.push(0u8);
    v
}

/// The registration of the DriverUI proxy of the HAR-SDV process.
pub fn driverui_proxy_registration() -> (r: ServiceRegistration)
    ensures
        r.public_key@ == driverui_public_key(),
        fqin_parts(r.fqin) == process_proxy_fqin("DriverUIService"@),
        r.custom_data@ == Seq::<u8>::empty(),
        r.listening_port == DRIVERUI_RPC_SERVER_PORT,
{
    let key = "HARSDVGATEWAY-7890123456_______";
    proof {
        reveal_strlit("HARSDVGATEWAY-7890123456_______");
    }
    ServiceRegistration {
        public_key: zero_terminated(key),
        fqin: ServiceFqin {
            vm_name: String::from_str(""),
            package_name: String::from_str("android.sdv.displaysafety"),
            service_name: String::from_str("DriverUIService"),
            instance_name: String::from_str("default"),
        },
        custom_data: Vec::new(),
        listening_port: DRIVERUI_RPC_SERVER_PORT,
    }
}

/// The registration of the camera proxy of the HAR-SDV process.
pub fn camera_proxy_registration() -> (r: ServiceRegistration)
    ensures
        r.public_key@ == camera_public_key(),
        fqin_parts(r.fqin) == process_proxy_fqin("CameraService"@),
        r.custom_data@ == Seq::<u8>::empty(),
        r.listening_port == CAMERA_RPC_SERVER_PORT,
{
    let key = "HARSDVGATEWAY-CAMERA-7890123456";
    proof {
        reveal_strlit("HARSDVGATEWAY-CAMERA-7890123456");
    }
    ServiceRegistration {
        public_key: zero_terminated(key),
        fqin: ServiceFqin {
            vm_name: String::from_str(""),
            package_name: String::from_str("android.sdv.displaysafety"),
            service_name: String::from_str("CameraService"),
            instance_name: String::from_str("default"),
        },
        custom_data: Vec::new(),
        listening_port: CAMERA_RPC_SERVER_PORT,
    }
}

/// `host:port`.
pub fn host_port(host: &str, port: i32) -> (s: String)
    ensures
        s@ == host@ + ":"@ + decimal(port as int),
{
    let mut s = String::from_str(host);
    s.append(":");
    let p = i64_text(port as i64);
    s.append(p.as_str());
    s
}

/// The address at which the DriverUI proxy listens.
pub fn driverui_server_address() -> (s: String)
    ensures
        s@ == rpc_server_host() + ":"@ + decimal(DRIVERUI_RPC_SERVER_PORT as int),
{
    host_port("0.0.0.0", DRIVERUI_RPC_SERVER_PORT)
}

/// The address at which the camera proxy listens.
pub fn camera_server_address() -> (s: String)
    ensures
        s@ == rpc_server_host() + ":"@ + decimal(CAMERA_RPC_SERVER_PORT as int),
{
    host_port("0.0.0.0", CAMERA_RPC_SERVER_PORT)
}

/// The port of the vehicle data server on the safety monitor.
pub const QNX_VEHICLE_DATA_PORT: i32 = 50051;

/// The address of the vehicle data server on the safety monitor, when its IP
/// is known; without an IP there is nothing to connect to.
pub fn qnx_vehicle_data_address(ip: Option<String>) -> (r: Option<String>)
    ensures
        ip is None ==> r is None,
        ip matches Some(i) ==> r matches Some(a) && a@ == i@ + ":"@ + decimal(
            QNX_VEHICLE_DATA_PORT as int,
        ),
{
    match ip {
        Some(i) => Some(host_port(i.as_str(), QNX_VEHICLE_DATA_PORT)),
        None => None,
    }
}

} // verus!
