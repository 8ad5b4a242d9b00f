//! Device handles and the discovery entry point.
//!
//! A `FreeWiliDevice` owns the native resource of one discovered unit:
//! it either wraps a live resource, together with the attribute answers
//! the backend gave for it at scan time, or it is in the released state.
//! The handle drives the USB sub-iteration protocol: a cursor walks the
//! USB nodes of the device's sub-topology, one snapshot per step.
//! Ownership is move-only; releasing frees the native resource exactly
//! once, and a second release is a no-op.

use vstd::prelude::*;
use vstd::string::StringExecFns;

use crate::error::ERROR_CODE_SUCCESS;
use crate::error::ERROR_CODE_INTERNAL_ERROR;
use crate::error::FreeWiliError;
use crate::error::error_matches_code;
use crate::text::clip_at_nul;
use crate::text::decode_text_buffer;
use crate::text::utf8_lossy_of;
use crate::types::DeviceType;
use crate::types::UsbDeviceType;
use crate::types::device_type_name_spec;
use crate::types::device_type_of_code;
use crate::types::usb_type_of_code;
use crate::usb::RawBool;
use crate::usb::RawString;
use crate::usb::RawU32;
use crate::usb::RawU64;
use crate::usb::RawUsbNode;
use crate::usb::USBDevice;
use crate::usb::node_first_failed_status;
use crate::usb::node_required_ok;
use crate::usb::snapshot_matches;

verus! {

/// The attribute answers the backend gave for one discovered device at
/// scan time, together with the raw queries for each USB node of its
/// sub-topology.
#[derive(Debug)]
pub struct RawDeviceInfo {
    /// Device family type code query.
    pub type_code: RawU32,
    /// Display name query.
    pub name: RawString,
    /// Serial string query.
    pub serial: RawString,
    /// Unique identifier query.
    pub unique_id: RawU64,
    /// Standalone flag query.
    pub standalone: RawBool,
    /// The USB nodes of this device's sub-topology, in cursor order.
    pub usb_nodes: Vec<RawUsbNode>,
}

/// The outcome of one native scan-all call: its status code, the
/// devices it reported, and the diagnostic text buffer it may have
/// filled.
#[derive(Debug)]
pub struct ScanResult {
    /// Native status code of the scan.
    pub status: u32,
    /// One entry per device the scan reported.
    pub devices: Vec<RawDeviceInfo>,
    /// NUL-terminated diagnostic buffer; decoded only when the scan
    /// failed with an internal error.
    pub error_message: Vec<u8>,
}

/// Selector for the string attributes of the USB node at the cursor.
#[derive(Debug, Clone, Copy, PartialEq, Eq, Structural)]
pub enum StringKind {
    /// The display name.
    Name,
    /// The serial string.
    Serial,
    /// The serial-port path.
    Port,
    /// The filesystem path.
    Path,
}

/// The raw string query a selector picks out of a node.
pub open spec fn node_string_of(node: RawUsbNode, kind: StringKind) -> RawString {
    match kind {
        StringKind::Name => node.name,
        StringKind::Serial => node.serial,
        StringKind::Port => node.port,
        StringKind::Path => node.path,
    }
}

/// Whether every USB node of a sub-topology has all required attribute
/// queries answered successfully.
pub open spec fn all_nodes_ok(nodes: Seq<RawUsbNode>) -> bool {
    forall|i: int| 0 <= i < nodes.len() ==> node_required_ok(#[trigger] nodes[i])
}

/// The index of the first USB node whose required queries failed, or
/// the length when all are in order.
pub open spec fn first_bad_node_index(nodes: Seq<RawUsbNode>) -> int
    decreases nodes.len(),
{
    if nodes.len() == 0 {
        0
    } else if !node_required_ok(nodes[0]) {
        0
    } else {
        1 + first_bad_node_index(nodes.drop_first())
    }
}

proof fn lemma_first_bad_node_index(nodes: Seq<RawUsbNode>, i: int)
    requires
        0 <= i <= nodes.len(),
        forall|j: int| 0 <= j < i ==> node_required_ok(#[trigger] nodes[j]),
        i < nodes.len() ==> !node_required_ok(nodes[i]),
    ensures
        first_bad_node_index(nodes) == i,
    decreases nodes.len(),
{
    if nodes.len() > 0 && node_required_ok(nodes[0]) {
        assert(forall|j: int|
            0 <= j < i - 1 ==> node_required_ok(#[trigger] nodes.drop_first()[j]));
        lemma_first_bad_node_index(nodes.drop_first(), i - 1);
    }
}

/// Whether a node's role query succeeded and classified to the given
/// role.
pub open spec fn node_has_role(node: RawUsbNode, role: UsbDeviceType) -> bool {
    node.role.status == ERROR_CODE_SUCCESS && usb_type_of_code(node.role.value) == role
}

/// Whether some USB node of a sub-topology has the given role.
pub open spec fn has_role_node(nodes: Seq<RawUsbNode>, role: UsbDeviceType) -> bool {
    exists|i: int| 0 <= i < nodes.len() && node_has_role(#[trigger] nodes[i], role)
}

/// The index of the first USB node with the given role, or the length
/// when there is none.
pub open spec fn first_role_index(nodes: Seq<RawUsbNode>, role: UsbDeviceType) -> int
    decreases nodes.len(),
{
    if nodes.len() == 0 {
        0
    } else if node_has_role(nodes[0], role) {
        0
    } else {
        1 + first_role_index(nodes.drop_first(), role)
    }
}

proof fn lemma_first_role_index(nodes: Seq<RawUsbNode>, role: UsbDeviceType, i: int)
    requires
        0 <= i <= nodes.len(),
        forall|j: int| 0 <= j < i ==> !node_has_role(#[trigger] nodes[j], role),
        i < nodes.len() ==> node_has_role(nodes[i], role),
    ensures
        first_role_index(nodes, role) == i,
    decreases nodes.len(),
{
    if nodes.len() > 0 && !node_has_role(nodes[0], role) {
        assert(forall|j: int|
            0 <= j < i - 1 ==> !node_has_role(#[trigger] nodes.drop_first()[j], role));
        lemma_first_role_index(nodes.drop_first(), role, i - 1);
    }
}

proof fn lemma_first_role_index_bounds(nodes: Seq<RawUsbNode>, role: UsbDeviceType)
    requires
        has_role_node(nodes, role),
    ensures
        0 <= first_role_index(nodes, role) < nodes.len(),
        node_has_role(nodes[first_role_index(nodes, role)], role),
    decreases nodes.len(),
{
    if !node_has_role(nodes[0], role) {
        let i = choose|i: int| 0 <= i < nodes.len() && node_has_role(#[trigger] nodes[i], role);
        assert(nodes.drop_first()[i - 1] == nodes[i]);
        lemma_first_role_index_bounds(nodes.drop_first(), role);
    }
}

/// Owning handle for one discovered device: either a live native
/// resource with its scan-time attribute answers, or released.
#[derive(Debug)]
pub struct FreeWiliDevice {
    info: Option<RawDeviceInfo>,
    cursor: usize,
}

/// A handle equal to the given one but in the released state.
pub closed spec fn spec_released(d: FreeWiliDevice) -> FreeWiliDevice {
    FreeWiliDevice { info: None, cursor: d.cursor }
}

/// Whether releasing a handle performs the native free: only a handle
/// that still wraps a live resource does.
pub open spec fn release_frees(d: FreeWiliDevice) -> bool {
    d.spec_valid()
}

/// Law: releasing is idempotent.  A released handle is no longer
/// valid, releasing it again frees nothing, and its state does not
/// change further.
pub proof fn lemma_second_release_frees_nothing(d: FreeWiliDevice)
    ensures
        !spec_released(d).spec_valid(),
        !release_frees(spec_released(d)),
        spec_released(spec_released(d)) == spec_released(d),
{
}

impl FreeWiliDevice {
    /// Whether this handle wraps a live native resource.
    pub closed spec fn spec_valid(&self) -> bool {
        self.info is Some
    }

    /// The scan-time attribute answers of the wrapped resource.
    pub closed spec fn spec_info(&self) -> RawDeviceInfo {
        self.info->0
    }

    /// The USB nodes of this device's sub-topology.
    pub open spec fn spec_nodes(&self) -> Seq<RawUsbNode> {
        self.spec_info().usb_nodes@
    }

    /// The cursor position of the USB sub-iteration.
    pub closed spec fn spec_cursor(&self) -> int {
        self.cursor as int
    }

    /// The USB node at the cursor.
    pub open spec fn spec_current_node(&self) -> RawUsbNode {
        self.spec_nodes()[self.spec_cursor()]
    }

    /// Discovery entry point: turns the outcome of one native scan-all
    /// call into owning device handles.  An empty scan is a valid,
    /// non-error outcome.  An internal scan error carries the decoded
    /// diagnostic buffer; any other failure maps structurally.
    pub fn find_all(scan: ScanResult) -> (r: Result<Vec<FreeWiliDevice>, FreeWiliError>)
        ensures
            scan.status == ERROR_CODE_SUCCESS ==> (r matches Ok(v) && v@.len()
                == scan.devices@.len() && forall|i: int|
                0 <= i < v@.len() ==> (#[trigger] v@[i]).spec_valid() && v@[i].spec_info()
                    == scan.devices@[i] && v@[i].spec_cursor() == 0),
            scan.status == ERROR_CODE_SUCCESS && scan.devices@.len() == 0 ==> (r matches Ok(v)
                && v@.len() == 0),
            scan.status == ERROR_CODE_INTERNAL_ERROR ==> (r matches Err(e) && e matches
                FreeWiliError::InternalError(m) && m matches Some(s) && s@ == utf8_lossy_of(
                clip_at_nul(scan.error_message@),
            )),
            scan.status != ERROR_CODE_SUCCESS && scan.status != ERROR_CODE_INTERNAL_ERROR ==> (
            r matches Err(e) && error_matches_code(scan.status, e)),
    {
        if scan.status == ERROR_CODE_SUCCESS {
            let mut devices = scan.devices;
            let ghost all = devices@;
            let mut handles: Vec<FreeWiliDevice> = Vec::new();
            while devices.len() > 0
                invariant
                    handles@.len() + devices@.len() == all.len(),
                    devices@ =~= all.skip(handles@.len() as int),
                    forall|i: int|
                        0 <= i < handles@.len() ==> (#[trigger] handles@[i]).spec_valid()
                            && handles@[i].spec_info() == all[i] && handles@[i].spec_cursor() == 0,
                decreases devices@.len(),
            {
                let info = devices.remove(0);
                handles.push(FreeWiliDevice { info: Some(info), cursor: 0 });
                proof {
                    assert(devices@ =~= all.skip(handles@.len() as int));
                }
            }
            Ok(handles)
        } else if scan.status == ERROR_CODE_INTERNAL_ERROR {
            Err(FreeWiliError::InternalError(Some(decode_text_buffer(&scan.error_message))))
        } else {
            Err(FreeWiliError::from_code(scan.status))
        }
    }

    /// Whether this handle wraps a live native resource.  Never fails.
    pub fn is_valid(&self) -> (r: bool)
        ensures
            r == self.spec_valid(),
    {
        self.info.is_some()
    }

    /// Releases the native resource.  Returns whether a native free
    /// was performed: true exactly once, on the first release of a
    /// live handle; a second release finds the handle already in the
    /// released state and frees nothing.
    pub fn release(&mut self) -> (freed: bool)
        ensures
            freed == release_frees(*old(self)),
            *final(self) == spec_released(*old(self)),
    {
        let freed = self.info.is_some();
        self.info = None;
        freed
    }

    /// The device family classification of this device.
    pub fn device_type(&self) -> (r: Result<DeviceType, FreeWiliError>)
        ensures
            !self.spec_valid() ==> (r matches Err(e) && e is InvalidDevice),
            self.spec_valid() && self.spec_info().type_code.status == ERROR_CODE_SUCCESS ==> (
            r matches Ok(t) && t == device_type_of_code(self.spec_info().type_code.value)),
            self.spec_valid() && self.spec_info().type_code.status != ERROR_CODE_SUCCESS ==> (
            r matches Err(e) && error_matches_code(self.spec_info().type_code.status, e)),
    {
        match &self.info {
            None => Err(FreeWiliError::InvalidDevice),
            Some(info) => {
                if info.type_code.status != ERROR_CODE_SUCCESS {
                    Err(FreeWiliError::from_code(info.type_code.status))
                } else {
                    Ok(DeviceType::from_code(info.type_code.value))
                }
            },
        }
    }

    /// The display name of this device's family classification.
    pub fn device_type_name(&self) -> (r: Result<String, FreeWiliError>)
        ensures
            !self.spec_valid() ==> (r matches Err(e) && e is InvalidDevice),
            self.spec_valid() && self.spec_info().type_code.status == ERROR_CODE_SUCCESS ==> (
            r matches Ok(s) && s@ == device_type_name_spec(
                device_type_of_code(self.spec_info().type_code.value),
            )),
            self.spec_valid() && self.spec_info().type_code.status != ERROR_CODE_SUCCESS ==> (
            r matches Err(e) && error_matches_code(self.spec_info().type_code.status, e)),
    {
        match self.device_type() {
            Err(e) => Err(e),
            Ok(t) => Ok(t.name()),
        }
    }

    /// The display name of this device.
    pub fn name(&self) -> (r: Result<String, FreeWiliError>)
        ensures
            !self.spec_valid() ==> (r matches Err(e) && e is InvalidDevice),
            self.spec_valid() && self.spec_info().name.status == ERROR_CODE_SUCCESS ==> (
            r matches Ok(s) && s@ == self.spec_info().name.text@),
            self.spec_valid() && self.spec_info().name.status != ERROR_CODE_SUCCESS ==> (
            r matches Err(e) && error_matches_code(self.spec_info().name.status, e)),
    {
        match &self.info {
            None => Err(FreeWiliError::InvalidDevice),
            Some(info) => string_result(&info.name),
        }
    }

    /// The serial string of this device.
    pub fn serial(&self) -> (r: Result<String, FreeWiliError>)
        ensures
            !self.spec_valid() ==> (r matches Err(e) && e is InvalidDevice),
            self.spec_valid() && self.spec_info().serial.status == ERROR_CODE_SUCCESS ==> (
            r matches Ok(s) && s@ == self.spec_info().serial.text@),
            self.spec_valid() && self.spec_info().serial.status != ERROR_CODE_SUCCESS ==> (
            r matches Err(e) && error_matches_code(self.spec_info().serial.status, e)),
    {
        match &self.info {
            None => Err(FreeWiliError::InvalidDevice),
            Some(info) => string_result(&info.serial),
        }
    }

    /// The stable identifier distinguishing physically distinct units.
    pub fn unique_id(&self) -> (r: Result<u64, FreeWiliError>)
        ensures
            !self.spec_valid() ==> (r matches Err(e) && e is InvalidDevice),
            self.spec_valid() && self.spec_info().unique_id.status == ERROR_CODE_SUCCESS ==> (
            r matches Ok(id) && id == self.spec_info().unique_id.value),
            self.spec_valid() && self.spec_info().unique_id.status != ERROR_CODE_SUCCESS ==> (
            r matches Err(e) && error_matches_code(self.spec_info().unique_id.status, e)),
    {
        match &self.info {
            None => Err(FreeWiliError::InvalidDevice),
            Some(info) => {
                if info.unique_id.status != ERROR_CODE_SUCCESS {
                    Err(FreeWiliError::from_code(info.unique_id.status))
                } else {
                    Ok(info.unique_id.value)
                }
            },
        }
    }

    /// Whether this device operates independently of a host link.
    pub fn standalone(&self) -> (r: Result<bool, FreeWiliError>)
        ensures
            !self.spec_valid() ==> (r matches Err(e) && e is InvalidDevice),
            self.spec_valid() && self.spec_info().standalone.status == ERROR_CODE_SUCCESS ==> (
            r matches Ok(b) && b == self.spec_info().standalone.value),
            self.spec_valid() && self.spec_info().standalone.status != ERROR_CODE_SUCCESS ==> (
            r matches Err(e) && error_matches_code(self.spec_info().standalone.status, e)),
    {
        match &self.info {
            None => Err(FreeWiliError::InvalidDevice),
            Some(info) => {
                if info.standalone.status != ERROR_CODE_SUCCESS {
                    Err(FreeWiliError::from_code(info.standalone.status))
                } else {
                    Ok(info.standalone.value)
                }
            },
        }
    }

    /// Starts the USB sub-iteration: positions the cursor on the
    /// first USB node.  Fails when the handle is released.
    pub fn usb_begin(&mut self) -> (r: Result<(), FreeWiliError>)
        ensures
            !old(self).spec_valid() ==> (r matches Err(e) && e is InvalidDevice) && *final(self)
                == *old(self),
            old(self).spec_valid() ==> r is Ok && final(self).spec_valid() && final(self).spec_info() == old(self).spec_info() && final(self).spec_cursor() == 0,
    {
        if self.info.is_none() {
            return Err(FreeWiliError::InvalidDevice);
        }
        self.cursor = 0;
        Ok(())
    }

    /// Advances the USB sub-iteration cursor by one node.  Signals the
    /// end of the sequence with `NoMoreDevices`, the protocol's
    /// distinguished terminal status.
    pub fn usb_next(&mut self) -> (r: Result<(), FreeWiliError>)
        ensures
            !old(self).spec_valid() ==> (r matches Err(e) && e is InvalidDevice) && *final(self)
                == *old(self),
            old(self).spec_valid() ==> final(self).spec_valid() && final(self).spec_info() == old(self).spec_info(),
            old(self).spec_valid() ==> final(self).spec_cursor() == (
            if old(self).spec_cursor() < old(self).spec_nodes().len() {
                old(self).spec_cursor() + 1
            } else {
                old(self).spec_cursor()
            }),
            old(self).spec_valid() ==> ((r is Ok) <==> final(self).spec_cursor() < old(self).spec_nodes().len()),
            old(self).spec_valid() && final(self).spec_cursor() >= old(self).spec_nodes().len()
                ==> (r matches Err(e) && e is NoMoreDevices),
    {
        let len = match &self.info {
            None => {
                return Err(FreeWiliError::InvalidDevice);
            },
            Some(info) => info.usb_nodes.len(),
        };
        if self.cursor < len {
            self.cursor = self.cursor + 1;
        }
        if self.cursor < len {
            Ok(())
        } else {
            Err(FreeWiliError::NoMoreDevices)
        }
    }

    /// Reads one string attribute of the USB node at the cursor.
    pub fn usb_device_get_string(&self, kind: StringKind) -> (r: Result<String, FreeWiliError>)
        ensures
            !self.spec_valid() ==> (r matches Err(e) && e is InvalidDevice),
            self.spec_valid() && self.spec_cursor() >= self.spec_nodes().len() ==> (
            r matches Err(e) && e is NoMoreDevices),
            self.spec_valid() && self.spec_cursor() < self.spec_nodes().len() && node_string_of(
                self.spec_current_node(),
                kind,
            ).status == ERROR_CODE_SUCCESS ==> (r matches Ok(s) && s@ == node_string_of(
                self.spec_current_node(),
                kind,
            ).text@),
            self.spec_valid() && self.spec_cursor() < self.spec_nodes().len() && node_string_of(
                self.spec_current_node(),
                kind,
            ).status != ERROR_CODE_SUCCESS ==> (r matches Err(e) && error_matches_code(
                node_string_of(self.spec_current_node(), kind).status,
                e,
            )),
    {
        match &self.info {
            None => Err(FreeWiliError::InvalidDevice),
            Some(info) => {
                if self.cursor >= info.usb_nodes.len() {
                    Err(FreeWiliError::NoMoreDevices)
                } else {
                    let node = &info.usb_nodes[self.cursor];
                    match kind {
                        StringKind::Name => string_result(&node.name),
                        StringKind::Serial => string_result(&node.serial),
                        StringKind::Port => string_result(&node.port),
                        StringKind::Path => string_result(&node.path),
                    }
                }
            },
        }
    }

    /// Runs the full USB sub-iteration: positions the cursor at the
    /// first node, snapshots each node in order and advances until the
    /// sequence is exhausted.  A failed required attribute of any node
    /// aborts the whole enumeration with that node's first failure.
    pub fn get_usb_devices(&mut self) -> (r: Result<Vec<USBDevice>, FreeWiliError>)
        ensures
            !old(self).spec_valid() ==> (r matches Err(e) && e is InvalidDevice) && *final(self)
                == *old(self),
            old(self).spec_valid() ==> final(self).spec_valid() && final(self).spec_info() == old(self).spec_info(),
            old(self).spec_valid() && all_nodes_ok(old(self).spec_nodes()) ==> (r matches Ok(v)
                && v@.len() == old(self).spec_nodes().len() && (forall|i: int|
                0 <= i < v@.len() ==> snapshot_matches(
                    old(self).spec_nodes()[i],
                    #[trigger] v@[i],
                )) && final(self).spec_cursor() == old(self).spec_nodes().len()),
            old(self).spec_valid() && !all_nodes_ok(old(self).spec_nodes()) ==> (r matches Err(e)
                && error_matches_code(
                node_first_failed_status(
                    old(self).spec_nodes()[first_bad_node_index(old(self).spec_nodes())],
                ),
                e,
            ) && final(self).spec_cursor() == first_bad_node_index(old(self).spec_nodes())),
    {
        let len = match &self.info {
            None => {
                return Err(FreeWiliError::InvalidDevice);
            },
            Some(info) => info.usb_nodes.len(),
        };
        let mut out: Vec<USBDevice> = Vec::new();
        let mut i: usize = 0;
        while i < len
            invariant
                self.info == old(self).info,
                self.info is Some,
                len == self.spec_nodes().len(),
                0 <= i <= len,
                out@.len() == i,
                forall|j: int|
                    0 <= j < i ==> node_required_ok(#[trigger] self.spec_nodes()[j])
                        && snapshot_matches(self.spec_nodes()[j], out@[j]),
            decreases len - i,
        {
            let node_result = match &self.info {
                None => Err(FreeWiliError::InvalidDevice),
                Some(info) => USBDevice::from_node(&info.usb_nodes[i]),
            };
            match node_result {
                Ok(u) => {
                    out.push(u);
                },
                Err(e) => {
                    self.cursor = i;
                    proof {
                        lemma_first_bad_node_index(self.spec_nodes(), i as int);
                    }
                    return Err(e);
                },
            }
            i = i + 1;
        }
        self.cursor = len;
        Ok(out)
    }

    /// Positions the cursor on the first USB node of the given role.
    /// Fails with `NoMoreDevices` when no node has that role, leaving
    /// the cursor where it was.
    fn position_on_role(&mut self, role: UsbDeviceType) -> (r: Result<(), FreeWiliError>)
        ensures
            !old(self).spec_valid() ==> (r matches Err(e) && e is InvalidDevice) && *final(self)
                == *old(self),
            old(self).spec_valid() ==> final(self).spec_valid() && final(self).spec_info() == old(self).spec_info(),
            old(self).spec_valid() && !has_role_node(old(self).spec_nodes(), role) ==> (
            r matches Err(e) && e is NoMoreDevices) && final(self).spec_cursor() == old(self).spec_cursor(),
            old(self).spec_valid() && has_role_node(old(self).spec_nodes(), role) ==> r is Ok
                && final(self).spec_cursor() == first_role_index(old(self).spec_nodes(), role),
    {
        let len = match &self.info {
            None => {
                return Err(FreeWiliError::InvalidDevice);
            },
            Some(info) => info.usb_nodes.len(),
        };
        let mut i: usize = 0;
        while i < len
            invariant
                self.info == old(self).info,
                self.cursor == old(self).cursor,
                self.info is Some,
                len == self.spec_nodes().len(),
                0 <= i <= len,
                forall|j: int| 0 <= j < i ==> !node_has_role(#[trigger] self.spec_nodes()[j], role),
            decreases len - i,
        {
            let found = match &self.info {
                None => false,
                Some(info) => {
                    let node = &info.usb_nodes[i];
                    node.role.status == ERROR_CODE_SUCCESS && UsbDeviceType::from_code(
                        node.role.value,
                    ) == role
                },
            };
            if found {
                self.cursor = i;
                proof {
                    lemma_first_role_index(self.spec_nodes(), role, i as int);
                }
                return Ok(());
            }
            i = i + 1;
        }
        Err(FreeWiliError::NoMoreDevices)
    }

    /// Positions the cursor on the first main CPU serial node and
    /// snapshots it.
    pub fn get_main_usb_device(&mut self) -> (r: Result<USBDevice, FreeWiliError>)
        ensures
            role_query_post(*old(self), *final(self), UsbDeviceType::SerialMain, r),
    {
        match self.position_on_role(UsbDeviceType::SerialMain) {
            Err(e) => Err(e),
            Ok(()) => {
                proof {
                    lemma_first_role_index_bounds(old(self).spec_nodes(), UsbDeviceType::SerialMain);
                }
                USBDevice::from_device(&*self)
            },
        }
    }

    /// Positions the cursor on the first display CPU serial node and
    /// snapshots it.
    pub fn get_display_usb_device(&mut self) -> (r: Result<USBDevice, FreeWiliError>)
        ensures
            role_query_post(*old(self), *final(self), UsbDeviceType::SerialDisplay, r),
    {
        match self.position_on_role(UsbDeviceType::SerialDisplay) {
            Err(e) => Err(e),
            Ok(()) => {
                proof {
                    lemma_first_role_index_bounds(old(self).spec_nodes(), UsbDeviceType::SerialDisplay);
                }
                USBDevice::from_device(&*self)
            },
        }
    }

    /// Positions the cursor on the first FTDI (FPGA/JTAG) node and
    /// snapshots it.
    pub fn get_fpga_usb_device(&mut self) -> (r: Result<USBDevice, FreeWiliError>)
        ensures
            role_query_post(*old(self), *final(self), UsbDeviceType::Ftdi, r),
    {
        match self.position_on_role(UsbDeviceType::Ftdi) {
            Err(e) => Err(e),
            Ok(()) => {
                proof {
                    lemma_first_role_index_bounds(old(self).spec_nodes(), UsbDeviceType::Ftdi);
                }
                USBDevice::from_device(&*self)
            },
        }
    }

    /// Positions the cursor on the first hub node and snapshots it.
    pub fn get_hub_usb_device(&mut self) -> (r: Result<USBDevice, FreeWiliError>)
        ensures
            role_query_post(*old(self), *final(self), UsbDeviceType::Hub, r),
    {
        match self.position_on_role(UsbDeviceType::Hub) {
            Err(e) => Err(e),
            Ok(()) => {
                proof {
                    lemma_first_role_index_bounds(old(self).spec_nodes(), UsbDeviceType::Hub);
                }
                USBDevice::from_device(&*self)
            },
        }
    }

    /// Renders this handle for display: its name and serial, each
    /// blank when the handle cannot supply it.
    pub fn display_string(&self) -> (r: String)
        ensures
            r@ == device_display_spec(*self),
    {
        let mut s = match self.name() {
            Ok(n) => n,
            Err(_) => String::new(),
        };
        s.append(" ");
        match self.serial() {
            Ok(x) => s.append(x.as_str()),
            Err(_) => {},
        }
        proof {
            assert(s@ =~= device_display_spec(*self));
        }
        s
    }
}

/// The display text of a handle: name, a space, serial; a part the
/// handle cannot supply is blank.
pub open spec fn device_display_spec(d: FreeWiliDevice) -> Seq<char> {
    (if d.spec_valid() && d.spec_info().name.status == ERROR_CODE_SUCCESS {
        d.spec_info().name.text@
    } else {
        Seq::<char>::empty()
    }) + " "@ + (if d.spec_valid() && d.spec_info().serial.status == ERROR_CODE_SUCCESS {
        d.spec_info().serial.text@
    } else {
        Seq::<char>::empty()
    })
}

/// What the four role-filtered single-result queries ensure: the
/// cursor lands on the first node of the role and the result is that
/// node's snapshot, `NoMoreDevices` when no node has the role, and
/// `InvalidDevice` on a released handle.
pub open spec fn role_query_post(
    pre: FreeWiliDevice,
    post: FreeWiliDevice,
    role: UsbDeviceType,
    r: Result<USBDevice, FreeWiliError>,
) -> bool {
    &&& !pre.spec_valid() ==> (r matches Err(e) && e is InvalidDevice) && post == pre
    &&& pre.spec_valid() ==> post.spec_valid() && post.spec_info() == pre.spec_info()
    &&& pre.spec_valid() && !has_role_node(pre.spec_nodes(), role) ==> (r matches Err(e)
        && e is NoMoreDevices)
    &&& pre.spec_valid() && has_role_node(pre.spec_nodes(), role) ==> {
        let j = first_role_index(pre.spec_nodes(), role);
        &&& post.spec_cursor() == j
        &&& node_required_ok(pre.spec_nodes()[j]) ==> (r matches Ok(u) && snapshot_matches(
            pre.spec_nodes()[j],
            u,
        ))
        &&& !node_required_ok(pre.spec_nodes()[j]) ==> (r matches Err(e) && error_matches_code(
            node_first_failed_status(pre.spec_nodes()[j]),
            e,
        ))
    }
}

impl Default for FreeWiliDevice {
    /// A handle in the released state.
    fn default() -> (r: FreeWiliDevice)
        ensures
            !r.spec_valid(),
    {
        FreeWiliDevice { info: None, cursor: 0 }
    }
}

impl USBDevice {
    /// Snapshots the USB node at the device's cursor, as one step of
    /// the sub-iteration protocol does.
    pub fn from_device(device: &FreeWiliDevice) -> (r: Result<USBDevice, FreeWiliError>)
        ensures
            !device.spec_valid() ==> (r matches Err(e) && e is InvalidDevice),
            device.spec_valid() && device.spec_cursor() >= device.spec_nodes().len() ==> (
            r matches Err(e) && e is NoMoreDevices),
            device.spec_valid() && device.spec_cursor() < device.spec_nodes().len()
                && node_required_ok(device.spec_current_node()) ==> (r matches Ok(u)
                && snapshot_matches(device.spec_current_node(), u)),
            device.spec_valid() && device.spec_cursor() < device.spec_nodes().len()
                && !node_required_ok(device.spec_current_node()) ==> (r matches Err(e)
                && error_matches_code(node_first_failed_status(device.spec_current_node()), e)),
    {
        match &device.info {
            None => Err(FreeWiliError::InvalidDevice),
            Some(info) => {
                if device.cursor >= info.usb_nodes.len() {
                    Err(FreeWiliError::NoMoreDevices)
                } else {
                    USBDevice::from_node(&info.usb_nodes[device.cursor])
                }
            },
        }
    }
}

fn string_result(raw: &RawString) -> (r: Result<String, FreeWiliError>)
    ensures
        raw.status == ERROR_CODE_SUCCESS ==> (r matches Ok(s) && s@ == raw.text@),
        raw.status != ERROR_CODE_SUCCESS ==> (r matches Err(e) && error_matches_code(
            raw.status,
            e,
        )),
{
    if raw.status != ERROR_CODE_SUCCESS {
        Err(FreeWiliError::from_code(raw.status))
    } else {
        Ok(raw.text.clone())
    }
}

} // verus!
