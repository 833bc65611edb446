//! Network interfaces as the runtime knows them.
//!
//! Finding the interfaces of a machine is for the program around the
//! library. What is here is what is decided once they are found: which
//! platform they belong to, which of them are wireless, and what it takes to
//! put one into monitor mode.

use crate::address::{parsed_octets, MacAddress};
use crate::error::DeauthError;
use crate::platform::str_eq;
use vstd::prelude::*;

verus! {

/// The kind of an interface.
#[derive(Debug, Clone, Copy, PartialEq, Eq, Structural)]
pub enum InterfaceType {
    /// Wireless.
    WiFi,
    /// Wired.
    Ethernet,
    /// The loopback interface.
    Loopback,
    /// Anything else.
    Other,
}

/// Whether an interface is up.
#[derive(Debug, Clone, Copy, PartialEq, Eq, Structural)]
pub enum InterfaceStatus {
    /// Up.
    Up,
    /// Down.
    Down,
    /// Not known.
    Unknown,
}

/// What Linux knows of an interface.
#[derive(Debug, Clone)]
pub struct LinuxInterfaceData {
    /// The interface index.
    pub ifindex: u32,
    /// The interface flags.
    pub flags: u32,
    /// The driver's name.
    pub driver: String,
}

/// What Windows knows of an interface.
#[derive(Debug, Clone)]
pub struct WindowsInterfaceData {
    /// The adapter's GUID.
    pub guid: String,
    /// The adapter's description.
    pub description: String,
    /// The adapter's type.
    pub adapter_type: String,
}

/// What macOS knows of an interface.
#[derive(Debug, Clone)]
pub struct MacOSInterfaceData {
    /// The BPF device bound to the interface, if any.
    pub bpf_device: Option<String>,
    /// The interface's IOKit service.
    pub io_service: String,
}

/// What the platform knows of an interface.
#[derive(Debug, Clone)]
pub enum PlatformInterfaceData {
    /// On Linux.
    Linux(LinuxInterfaceData),
    /// On Windows.
    Windows(WindowsInterfaceData),
    /// On macOS.
    MacOS(MacOSInterfaceData),
    /// On a platform that is not known.
    Unknown,
}

/// A network interface.
#[derive(Debug, Clone)]
pub struct NetworkInterface {
    /// The interface's name.
    pub name: String,
    /// The interface's index.
    pub index: u32,
    /// The hardware address.
    pub mac_address: MacAddress,
    /// The kind of interface.
    pub interface_type: InterfaceType,
    /// Whether it is up.
    pub status: InterfaceStatus,
    /// The channels it can be tuned to, if it is wireless.
    pub supported_channels: Vec<u8>,
    /// The channel it is tuned to, if it is wireless.
    pub current_channel: Option<u8>,
    /// The signal strength in dBm, if it is wireless.
    pub signal_strength: Option<i8>,
    /// What the platform knows of it.
    pub platform_data: PlatformInterfaceData,
}

/// An operating system by name.
#[derive(Debug, Clone, Copy, PartialEq, Eq, Structural)]
pub enum Platform {
    /// Linux.
    Linux,
    /// Windows.
    Windows,
    /// macOS.
    MacOS,
    /// None of these.
    Unknown,
}

/// The platform that the name of an operating system stands for.
pub open spec fn platform_of(os: Seq<char>) -> Platform {
    if os == "linux"@ {
        Platform::Linux
    } else if os == "windows"@ {
        Platform::Windows
    } else if os == "macos"@ {
        Platform::MacOS
    } else {
        Platform::Unknown
    }
}

/// The platform of the operating system with the given name, as the compiler
/// spells it.
pub fn get_platform(os: &str) -> (platform: Platform)
    ensures
        platform == platform_of(os@),
{
    if str_eq(os, "linux") {
        Platform::Linux
    } else if str_eq(os, "windows") {
        Platform::Windows
    } else if str_eq(os, "macos") {
        Platform::MacOS
    } else {
        Platform::Unknown
    }
}

/// The status that the kernel's word for it stands for.
pub open spec fn status_of(operstate: Seq<char>) -> InterfaceStatus {
    if operstate == "up"@ {
        InterfaceStatus::Up
    } else if operstate == "down"@ {
        InterfaceStatus::Down
    } else {
        InterfaceStatus::Unknown
    }
}

/// The status that the kernel's word for it stands for: `up`, `down`, or
/// anything else for a status that is not known.
pub fn parse_operstate(operstate: &str) -> (status: InterfaceStatus)
    ensures
        status == status_of(operstate@),
{
    if str_eq(operstate, "up") {
        InterfaceStatus::Up
    } else if str_eq(operstate, "down") {
        InterfaceStatus::Down
    } else {
        InterfaceStatus::Unknown
    }
}

/// What it takes to put an interface into monitor mode.
#[derive(Debug, Clone, Copy, PartialEq, Eq, Structural)]
pub enum MonitorModeStep {
    /// The interface's mode has to be set with the system's wireless tool.
    SetMode,
    /// Nothing: captures on the platform see every frame as it is.
    Nothing,
}

/// What the system's files say of one interface, as they were read.
#[derive(Debug, Clone)]
pub struct SysfsEntry {
    /// The interface's name.
    pub name: String,
    /// The text of its address file, if it has one.
    pub address: Option<String>,
    /// The text of its index file, if it has one.
    pub ifindex: Option<String>,
    /// Whether it has a directory of wireless settings.
    pub wireless: bool,
    /// The text of its state file, if it has one.
    pub operstate: Option<String>,
    /// The name of its driver, if the driver's link could be read.
    pub driver: Option<String>,
}

/// The text without the white space at its ends.
pub uninterp spec fn trimmed(text: Seq<char>) -> Seq<char>;

/// The number that the text spells in decimal, if it spells one that fits
/// 32 bits.
pub uninterp spec fn parsed_u32(text: Seq<char>) -> Option<u32>;

/// `str::trim`: the text without the white space at its ends.
#[verifier::external_body]
fn str_trim(text: &str) -> (t: &str)
    ensures
        t@ == trimmed(text@),
{
    text.trim()
}

/// `str::parse` to a `u32`: the number that the text spells, if it spells
/// one.
#[verifier::external_body]
fn parse_u32(text: &str) -> (n: Option<u32>)
    ensures
        n == parsed_u32(text@),
{
    match text.parse::<u32>() {
        Ok(n) => Some(n),
        Err(_) => None,
    }
}

impl SysfsEntry {
    /// The index that the entry gives: what its index file spells, else zero.
    pub open spec fn index(self) -> u32 {
        match self.ifindex {
            Some(text) => match parsed_u32(trimmed(text@)) {
                Some(n) => n,
                None => 0,
            },
            None => 0,
        }
    }

    /// The status that the entry gives.
    pub open spec fn status(self) -> InterfaceStatus {
        match self.operstate {
            Some(text) => status_of(trimmed(text@)),
            None => InterfaceStatus::Unknown,
        }
    }

    /// The driver's name that the entry gives.
    pub open spec fn driver_name(self) -> Seq<char> {
        match self.driver {
            Some(name) => name@,
            None => "unknown"@,
        }
    }

    /// Whether the interface is the one that the entry describes, with the
    /// given address.
    pub open spec fn describes(self, interface: NetworkInterface, octets: Seq<u8>) -> bool {
        &&& interface.name@ == self.name@
        &&& interface.index == self.index()
        &&& interface.mac_address@ == octets
        &&& interface.interface_type == if self.wireless {
            InterfaceType::WiFi
        } else {
            InterfaceType::Ethernet
        }
        &&& interface.status == self.status()
        &&& interface.supported_channels@ == Seq::<u8>::empty()
        &&& interface.current_channel is None
        &&& interface.signal_strength is None
        &&& interface.platform_data matches PlatformInterfaceData::Linux(data)
        &&& data.ifindex == self.index()
        &&& data.flags == 0
        &&& data.driver@ == self.driver_name()
    }
}

/// The interface that an entry of the system's files describes. The
/// loopback interface and an entry without an address are passed over; an
/// address that cannot be read is an error.
pub fn linux_interface(entry: &SysfsEntry) -> (r: Result<Option<NetworkInterface>, DeauthError>)
    ensures
        entry.name@ == "lo"@ || entry.address is None ==> r is Ok && r->Ok_0 is None,
        entry.name@ != "lo"@ && entry.address is Some ==> match parsed_octets(
            trimmed(entry.address->Some_0@),
        ) {
            Some(octets) => r is Ok && r->Ok_0 is Some && entry.describes(
                r->Ok_0->Some_0,
                octets,
            ),
            None => r is Err && r->Err_0 is InterfaceError && r->Err_0.spec_message()@
                == "Invalid MAC address"@,
        },
{
    if str_eq(entry.name.as_str(), "lo") {
        return Ok(None);
    }
    let mac_address = match &entry.address {
        None => {
            return Ok(None);
        },
        Some(text) => match MacAddress::parse(str_trim(text.as_str())) {
            Some(mac) => mac,
            None => {
                return Err(DeauthError::InterfaceError("Invalid MAC address".to_string()));
            },
        },
    };
    let index: u32 = match &entry.ifindex {
        Some(text) => match parse_u32(str_trim(text.as_str())) {
            Some(n) => n,
            None => 0,
        },
        None => 0,
    };
    let interface_type = if entry.wireless {
        InterfaceType::WiFi
    } else {
        InterfaceType::Ethernet
    };
    let status = match &entry.operstate {
        Some(text) => parse_operstate(str_trim(text.as_str())),
        None => InterfaceStatus::Unknown,
    };
    let driver = match &entry.driver {
        Some(name) => name.clone(),
        None => "unknown".to_string(),
    };
    Ok(
        Some(
            NetworkInterface {
                name: entry.name.clone(),
                index,
                mac_address,
                interface_type,
                status,
                supported_channels: Vec::new(),
                current_channel: None,
                signal_strength: None,
                platform_data: PlatformInterfaceData::Linux(
                    LinuxInterfaceData { ifindex: index, flags: 0, driver },
                ),
            },
        ),
    )
}

/// Whether the entry is one that is read: not the loopback interface, and
/// with an address.
pub open spec fn entry_read(entry: SysfsEntry) -> bool {
    entry.name@ != "lo"@ && entry.address is Some
}

/// Whether the entry is read and its address cannot be.
pub open spec fn entry_invalid(entry: SysfsEntry) -> bool {
    entry_read(entry) && parsed_octets(trimmed(entry.address->Some_0@)) is None
}

/// The test that an entry is read.
pub open spec fn is_read() -> spec_fn(SysfsEntry) -> bool {
    |entry: SysfsEntry| entry_read(entry)
}

/// The entries that are read, in the order they have.
pub open spec fn read_entries(entries: Seq<SysfsEntry>) -> Seq<SysfsEntry> {
    entries.filter(is_read())
}

/// Whether the interface is the one that the entry describes, with the
/// address that the entry spells.
pub open spec fn found_in(entry: SysfsEntry, interface: NetworkInterface) -> bool {
    &&& entry_read(entry)
    &&& parsed_octets(trimmed(entry.address->Some_0@)) matches Some(octets)
    &&& entry.describes(interface, octets)
}

/// Whether the interfaces are those that the entries read describe, one for
/// one and in their order.
pub open spec fn describes_all(entries: Seq<SysfsEntry>, found: Seq<NetworkInterface>) -> bool {
    &&& found.len() == read_entries(entries).len()
    &&& forall|k: int|
        0 <= k < found.len() ==> found_in(#[trigger] read_entries(entries)[k], found[k])
}

/// The interfaces that the entries of the system's files describe, in the
/// order of the entries. The first address that cannot be read fails the
/// whole.
pub fn discover_linux_interfaces(entries: &Vec<SysfsEntry>) -> (r: Result<
    Vec<NetworkInterface>,
    DeauthError,
>)
    ensures
        r is Err <==> exists|i: int| 0 <= i < entries@.len() && entry_invalid(entries@[i]),
        r matches Err(e) ==> e is InterfaceError && e.spec_message()@ == "Invalid MAC address"@,
        r matches Ok(found) ==> describes_all(entries@, found@),
{
    let mut found: Vec<NetworkInterface> = Vec::new();
    let mut i: usize = 0;
    assert(entries@.take(0).filter(is_read()) =~= Seq::<SysfsEntry>::empty()) by {
        reveal(Seq::filter);
    }
    while i < entries.len()
        invariant
            i <= entries@.len(),
            forall|j: int| 0 <= j < i ==> !entry_invalid(entries@[j]),
            found@.len() == read_entries(entries@.take(i as int)).len(),
            forall|k: int|
                0 <= k < found@.len() ==> found_in(
                    #[trigger] read_entries(entries@.take(i as int))[k],
                    found@[k],
                ),
        decreases entries@.len() - i,
    {
        proof {
            assert(entries@.take(i + 1) =~= entries@.take(i as int).push(entries@[i as int]));
            entries@.take(i as int).lemma_filter_push(entries@[i as int], is_read());
        }
        match linux_interface(&entries[i]) {
            Ok(Some(interface)) => {
                found.push(interface);
            },
            Ok(None) => {},
            Err(e) => {
                assert(entry_invalid(entries@[i as int]));
                return Err(e);
            },
        }
        i = i + 1;
    }
    assert(entries@.take(i as int) =~= entries@);
    Ok(found)
}

/// The interfaces in `interfaces` that are wireless, in the order they have.
pub open spec fn wifi_only(interfaces: Seq<NetworkInterface>) -> Seq<NetworkInterface> {
    interfaces.filter(|i: NetworkInterface| i.interface_type is WiFi)
}

/// Whether no two of the interfaces have the same name.
pub open spec fn names_differ(interfaces: Seq<NetworkInterface>) -> bool {
    forall|i: int, j: int|
        0 <= i < interfaces.len() && 0 <= j < interfaces.len() && i != j ==> interfaces[i].name@
            != interfaces[j].name@
}

/// Whether `at` is the place of an interface with the given name.
pub open spec fn named(interfaces: Seq<NetworkInterface>, name: Seq<char>, at: int) -> bool {
    0 <= at < interfaces.len() && interfaces[at].name@ == name
}

/// What is known after an interface was found: it stands in place of the one
/// known by its name, or last if none is.
pub open spec fn noted(known: Seq<NetworkInterface>, interface: NetworkInterface) -> Seq<
    NetworkInterface,
> {
    if exists|at: int| named(known, interface.name@, at) {
        known.update(choose|at: int| named(known, interface.name@, at), interface)
    } else {
        known.push(interface)
    }
}

/// What is known after the interfaces were found in order, starting from
/// nothing.
pub open spec fn noted_all(found: Seq<NetworkInterface>) -> Seq<NetworkInterface>
    decreases found.len(),
{
    if found.len() == 0 {
        Seq::empty()
    } else {
        noted(noted_all(found.drop_last()), found.last())
    }
}

/// Noting an interface keeps the names apart, and makes it the one known by
/// its name.
pub proof fn lemma_noted(known: Seq<NetworkInterface>, interface: NetworkInterface)
    requires
        names_differ(known),
    ensures
        names_differ(noted(known, interface)),
        exists|at: int| #[trigger]
            named(noted(known, interface), interface.name@, at) && noted(known, interface)[at]
                == interface,
{
    let after = noted(known, interface);
    if exists|at: int| named(known, interface.name@, at) {
        let at = choose|at: int| named(known, interface.name@, at);
        assert(named(after, interface.name@, at) && after[at] == interface);
    } else {
        assert forall|i: int, j: int|
            0 <= i < after.len() && 0 <= j < after.len() && i != j implies after[i].name@
            != after[j].name@ by {
            if i == known.len() {
                assert(!named(known, interface.name@, j));
            }
            if j == known.len() {
                assert(!named(known, interface.name@, i));
            }
        }
        assert(named(after, interface.name@, known.len() as int) && after[known.len() as int]
            == interface);
    }
}

/// However many interfaces are found, no two that are known have the same
/// name.
pub proof fn lemma_noted_all(found: Seq<NetworkInterface>)
    ensures
        names_differ(noted_all(found)),
        noted_all(found).len() <= found.len(),
    decreases found.len(),
{
    if found.len() > 0 {
        lemma_noted_all(found.drop_last());
        lemma_noted(noted_all(found.drop_last()), found.last());
    }
}

/// The interfaces of a machine as they were last found, each under its
/// name.
pub struct InterfaceManager {
    interfaces: Vec<NetworkInterface>,
}

impl View for InterfaceManager {
    type V = Seq<NetworkInterface>;

    closed spec fn view(&self) -> Seq<NetworkInterface> {
        self.interfaces@
    }
}

impl InterfaceManager {
    /// No two interfaces known have the same name.
    pub open spec fn wf(&self) -> bool {
        names_differ(self@)
    }

    /// A manager that knows no interface yet.
    pub fn new() -> (manager: InterfaceManager)
        ensures
            manager.wf(),
            manager@ == Seq::<NetworkInterface>::empty(),
    {
        InterfaceManager { interfaces: Vec::new() }
    }

    /// The place of the interface known by the given name, if there is one.
    fn position(&self, name: &str) -> (at: Option<usize>)
        ensures
            at matches Some(i) ==> named(self@, name@, i as int),
            at is None ==> forall|i: int| !named(self@, name@, i),
    {
        let mut i: usize = 0;
        while i < self.interfaces.len()
            invariant
                i <= self.interfaces@.len(),
                forall|j: int| 0 <= j < i ==> self.interfaces@[j].name@ != name@,
            decreases self.interfaces@.len() - i,
        {
            if str_eq(self.interfaces[i].name.as_str(), name) {
                return Some(i);
            }
            i = i + 1;
        }
        None
    }

    /// Notes an interface that was found: in place of the one known by its
    /// name, or as a new one.
    fn note(&mut self, interface: NetworkInterface)
        requires
            old(self).wf(),
        ensures
            final(self).wf(),
            final(self)@ == noted(old(self)@, interface),
    {
        proof {
            lemma_noted(self@, interface);
        }
        match self.position(interface.name.as_str()) {
            Some(at) => {
                proof {
                    let chosen = choose|at: int| named(self@, interface.name@, at);
                    assert(named(self@, interface.name@, at as int));
                    assert(chosen == at);
                }
                self.interfaces.set(at, interface);
            },
            None => {
                self.interfaces.push(interface);
            },
        }
    }

    /// Replaces what is known by the interfaces just found. Of two found
    /// under one name the later stays.
    pub fn set_interfaces(&mut self, found: Vec<NetworkInterface>)
        ensures
            final(self).wf(),
            final(self)@ == noted_all(found@),
    {
        self.interfaces = Vec::new();
        let ghost all = found@;
        let mut rest = found;
        let ghost mut taken: int = 0;
        while rest.len() > 0
            invariant
                self.wf(),
                0 <= taken,
                taken + rest@.len() == all.len(),
                rest@ == all.skip(taken),
                self@ == noted_all(all.take(taken)),
            decreases rest@.len(),
        {
            let interface = rest.remove(0);
            assert(all.take(taken + 1).drop_last() =~= all.take(taken));
            assert(all.take(taken + 1).last() == interface);
            self.note(interface);
            assert(rest@ =~= all.skip(taken + 1));
            proof {
                taken = taken + 1;
            }
        }
        assert(all.take(taken) =~= all);
    }

    /// Finds the interfaces of a machine anew from what was read of them, and
    /// returns how many were found. On Linux they are those that the entries
    /// describe; on Windows and macOS none is found; any other platform is
    /// refused. A failure leaves what was known as it was.
    pub fn discover_interfaces(&mut self, platform: Platform, entries: &Vec<SysfsEntry>) -> (r:
        Result<usize, DeauthError>)
        requires
            old(self).wf(),
        ensures
            final(self).wf(),
            r is Err ==> final(self)@ == old(self)@,
            platform is Unknown ==> r is Err && r->Err_0 is PlatformError && r->Err_0.spec_message()@
                == "Unsupported platform"@,
            platform is Windows || platform is MacOS ==> r == Ok::<usize, DeauthError>(0)
                && final(self)@ == Seq::<NetworkInterface>::empty(),
            platform is Linux ==> (r is Err <==> exists|i: int|
                0 <= i < entries@.len() && entry_invalid(entries@[i])),
            platform is Linux && r is Err ==> r->Err_0 is InterfaceError,
            platform is Linux && r is Ok ==> r->Ok_0 == read_entries(entries@).len(),
            platform is Linux && r is Ok ==> exists|found: Seq<NetworkInterface>|
                #[trigger] describes_all(entries@, found) && final(self)@ == noted_all(found),
    {
        let found = match platform {
            Platform::Linux => match discover_linux_interfaces(entries) {
                Ok(found) => found,
                Err(e) => {
                    return Err(e);
                },
            },
            Platform::Windows => Vec::new(),
            Platform::MacOS => Vec::new(),
            Platform::Unknown => {
                return Err(DeauthError::PlatformError("Unsupported platform".to_string()));
            },
        };
        let count = found.len();
        proof {
            lemma_noted_all(found@);
        }
        self.set_interfaces(found);
        Ok(count)
    }

    /// Every interface known.
    pub fn get_interfaces(&self) -> (all: &[NetworkInterface])
        ensures
            all@ == self@,
    {
        self.interfaces.as_slice()
    }

    /// The wireless interfaces known, in the order they were found.
    pub fn get_wifi_interfaces(&self) -> (wifi: Vec<&NetworkInterface>)
        ensures
            wifi@.len() == wifi_only(self@).len(),
            forall|i: int| 0 <= i < wifi@.len() ==> *wifi@[i] == wifi_only(self@)[i],
    {
        let ghost is_wifi = |i: NetworkInterface| i.interface_type is WiFi;
        let mut wifi: Vec<&NetworkInterface> = Vec::new();
        let mut i: usize = 0;
        assert(self.interfaces@.take(0).filter(is_wifi) =~= Seq::<NetworkInterface>::empty()) by {
            reveal(Seq::filter);
        }
        while i < self.interfaces.len()
            invariant
                i <= self.interfaces@.len(),
                is_wifi == |i: NetworkInterface| i.interface_type is WiFi,
                wifi@.len() == self.interfaces@.take(i as int).filter(is_wifi).len(),
                forall|k: int|
                    0 <= k < wifi@.len() ==> *wifi@[k] == self.interfaces@.take(i as int).filter(
                        is_wifi,
                    )[k],
            decreases self.interfaces@.len() - i,
        {
            let interface = &self.interfaces[i];
            proof {
                assert(self.interfaces@.take(i + 1) =~= self.interfaces@.take(i as int).push(
                    *interface,
                ));
                self.interfaces@.take(i as int).lemma_filter_push(*interface, is_wifi);
            }
            match interface.interface_type {
                InterfaceType::WiFi => {
                    wifi.push(interface);
                },
                _ => {},
            }
            i = i + 1;
        }
        assert(self.interfaces@.take(i as int) =~= self.interfaces@);
        wifi
    }

    /// The interface known by the given name, if there is one.
    pub fn get_interface(&self, name: &str) -> (found: Option<&NetworkInterface>)
        ensures
            found is Some <==> exists|at: int| named(self@, name@, at),
            found matches Some(interface) ==> exists|at: int| #[trigger]
                named(self@, name@, at) && self@[at] == *interface,
    {
        match self.position(name) {
            Some(at) => Some(&self.interfaces[at]),
            None => None,
        }
    }

    /// Whether the interface can be put into monitor mode: on every platform
    /// that is known it can.
    pub fn supports_monitor_mode(&self, interface: &NetworkInterface) -> (r: Result<bool, DeauthError>)
        ensures
            r == Ok::<bool, DeauthError>(!(interface.platform_data is Unknown)),
    {
        match &interface.platform_data {
            PlatformInterfaceData::Linux(_) => Ok(true),
            PlatformInterfaceData::Windows(_) => Ok(true),
            PlatformInterfaceData::MacOS(_) => Ok(true),
            PlatformInterfaceData::Unknown => Ok(false),
        }
    }

    /// What it takes to put the interface into monitor mode. Only a
    /// wireless interface can be; on Windows and on a platform that is not
    /// known none can.
    pub fn enable_monitor_mode(&self, interface: &NetworkInterface) -> (r: Result<
        MonitorModeStep,
        DeauthError,
    >)
        ensures
            !(interface.interface_type is WiFi) ==> r is Err && r->Err_0 is InterfaceError,
            interface.interface_type is WiFi ==> match interface.platform_data {
                PlatformInterfaceData::Linux(_) => r == Ok::<MonitorModeStep, DeauthError>(
                    MonitorModeStep::SetMode,
                ),
                PlatformInterfaceData::MacOS(_) => r == Ok::<MonitorModeStep, DeauthError>(
                    MonitorModeStep::Nothing,
                ),
                PlatformInterfaceData::Windows(_) => r is Err && r->Err_0 is PlatformError,
                PlatformInterfaceData::Unknown => r is Err && r->Err_0 is PlatformError,
            },
    {
        match interface.interface_type {
            InterfaceType::WiFi => {},
            _ => {
                return Err(
                    DeauthError::InterfaceError(
                        "Monitor mode only supported on Wi-Fi interfaces".to_string(),
                    ),
                );
            },
        }
        match &interface.platform_data {
            PlatformInterfaceData::Linux(_) => Ok(MonitorModeStep::SetMode),
            PlatformInterfaceData::Windows(_) => Err(
                DeauthError::PlatformError("Monitor mode not supported on Windows".to_string()),
            ),
            PlatformInterfaceData::MacOS(_) => Ok(MonitorModeStep::Nothing),
            PlatformInterfaceData::Unknown => Err(
                DeauthError::PlatformError("Unknown platform".to_string()),
            ),
        }
    }
}

} // verus!
