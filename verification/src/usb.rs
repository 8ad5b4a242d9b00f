//! USB device snapshots: immutable descriptions of one USB node of a
//! device's sub-topology, built from the raw attribute queries the
//! native backend answers.
//!
//! Each native query yields a status code and a value; the builder turns
//! one node's set of query outcomes into a snapshot.  A required
//! attribute (role, the integer attributes, name, port chain) aborts the
//! construction when its query failed; an optional attribute (serial,
//! port, path) degrades to an empty or absent value instead.

use vstd::prelude::*;
use vstd::string::StringExecFns;

use crate::error::ERROR_CODE_SUCCESS;
use crate::error::FreeWiliError;
use crate::error::error_matches_code;
use crate::types::UsbDeviceType;
use crate::types::usb_type_name_spec;
use crate::types::usb_type_of_code;

verus! {

/// Outcome of one native string query: a status code and the text the
/// backend wrote.
#[derive(Debug)]
pub struct RawString {
    /// Native status code of the query.
    pub status: u32,
    /// The decoded text; meaningful only when the query succeeded.
    pub text: String,
}

/// Outcome of one native 32-bit integer query.
#[derive(Debug, Clone, Copy)]
pub struct RawU32 {
    /// Native status code of the query.
    pub status: u32,
    /// The value; meaningful only when the query succeeded.
    pub value: u32,
}

/// Outcome of one native 64-bit integer query.
#[derive(Debug, Clone, Copy)]
pub struct RawU64 {
    /// Native status code of the query.
    pub status: u32,
    /// The value; meaningful only when the query succeeded.
    pub value: u64,
}

/// Outcome of one native boolean query.
#[derive(Debug, Clone, Copy)]
pub struct RawBool {
    /// Native status code of the query.
    pub status: u32,
    /// The value; meaningful only when the query succeeded.
    pub value: bool,
}

/// Outcome of the native port chain query: the buffer the backend
/// filled and the entry count it reported.
#[derive(Debug)]
pub struct RawPortChain {
    /// Native status code of the query.
    pub status: u32,
    /// The buffer as the backend left it, zero-filled past the count.
    pub entries: Vec<u32>,
    /// How many leading entries the backend reported as meaningful.
    pub count: u32,
}

/// The raw attribute queries for one USB node, as the backend answered
/// them at enumeration time.
#[derive(Debug)]
pub struct RawUsbNode {
    /// Role code query.
    pub role: RawU32,
    /// Vendor ID query.
    pub vid: RawU32,
    /// Product ID query.
    pub pid: RawU32,
    /// Location (immediate-parent port number) query.
    pub location: RawU32,
    /// Display name query (required).
    pub name: RawString,
    /// Serial string query (optional).
    pub serial: RawString,
    /// Serial-port path query (optional).
    pub port: RawString,
    /// Filesystem path query (optional).
    pub path: RawString,
    /// Port chain query.
    pub port_chain: RawPortChain,
}

/// An immutable, fully materialized description of one USB node.
#[derive(Debug, Clone)]
pub struct USBDevice {
    /// The role of this USB node.
    pub kind: UsbDeviceType,
    /// Display name of the role.
    pub kind_name: String,
    /// USB Vendor ID.
    pub vid: u16,
    /// USB Product ID.
    pub pid: u16,
    /// Human-readable device name.
    pub name: String,
    /// Device serial number; empty when the backend could not supply it.
    pub serial: String,
    /// Port number on the immediate parent hub or controller.
    pub location: u32,
    /// Ordered port numbers from the root controller down to this node.
    pub port_chain: Vec<u32>,
    /// Serial port path (such as /dev/ttyUSB0 or COM1), when present.
    pub port: Option<String>,
    /// Filesystem mount path(s), when present.
    pub paths: Option<Vec<String>>,
}

/// Whether every required attribute query of a node succeeded.
pub open spec fn node_required_ok(node: RawUsbNode) -> bool {
    &&& node.role.status == ERROR_CODE_SUCCESS
    &&& node.vid.status == ERROR_CODE_SUCCESS
    &&& node.pid.status == ERROR_CODE_SUCCESS
    &&& node.location.status == ERROR_CODE_SUCCESS
    &&& node.name.status == ERROR_CODE_SUCCESS
    &&& node.port_chain.status == ERROR_CODE_SUCCESS
}

/// The status of the first required query that failed, in the fixed
/// pull order: role, vendor ID, product ID, location, name, port chain.
pub open spec fn node_first_failed_status(node: RawUsbNode) -> u32 {
    if node.role.status != ERROR_CODE_SUCCESS {
        node.role.status
    } else if node.vid.status != ERROR_CODE_SUCCESS {
        node.vid.status
    } else if node.pid.status != ERROR_CODE_SUCCESS {
        node.pid.status
    } else if node.location.status != ERROR_CODE_SUCCESS {
        node.location.status
    } else if node.name.status != ERROR_CODE_SUCCESS {
        node.name.status
    } else {
        node.port_chain.status
    }
}

/// The low 16 bits of a native 32-bit integer attribute.
pub open spec fn low_16_of(value: u32) -> u16 {
    (value % 0x10000) as u16
}

/// The port chain a snapshot keeps: the buffer truncated to the count
/// the backend reported, discarding the zero-fill beyond it.
pub open spec fn port_chain_spec(entries: Seq<u32>, count: u32) -> Seq<u32> {
    entries.take(
        if count <= entries.len() {
            count as int
        } else {
            entries.len() as int
        },
    )
}

/// Whether an optional string query yields a present value: it must
/// have succeeded and the text must be non-empty.
pub open spec fn optional_string_present(raw: RawString) -> bool {
    raw.status == ERROR_CODE_SUCCESS && raw.text@.len() > 0
}

/// How a snapshot relates to the raw queries it was built from.
pub open spec fn snapshot_matches(node: RawUsbNode, u: USBDevice) -> bool {
    &&& u.kind == usb_type_of_code(node.role.value)
    &&& u.kind_name@ == usb_type_name_spec(u.kind)
    &&& u.vid == low_16_of(node.vid.value)
    &&& u.pid == low_16_of(node.pid.value)
    &&& u.name@ == node.name.text@
    &&& u.serial@ == (if node.serial.status == ERROR_CODE_SUCCESS {
        node.serial.text@
    } else {
        Seq::<char>::empty()
    })
    &&& u.location == node.location.value
    &&& u.port_chain@ == port_chain_spec(node.port_chain.entries@, node.port_chain.count)
    &&& (optional_string_present(node.port) ==> (u.port matches Some(p) && p@ == node.port.text@))
    &&& (!optional_string_present(node.port) ==> u.port is None)
    &&& (optional_string_present(node.path) ==> (u.paths matches Some(ps) && ps@.len() == 1
        && ps@[0]@ == node.path.text@))
    &&& (!optional_string_present(node.path) ==> u.paths is None)
}

fn truncated_port_chain(pc: &RawPortChain) -> (r: Vec<u32>)
    ensures
        r@ == port_chain_spec(pc.entries@, pc.count),
{
    let limit: usize = if pc.count as usize <= pc.entries.len() {
        pc.count as usize
    } else {
        pc.entries.len()
    };
    let mut out: Vec<u32> = Vec::new();
    let mut i: usize = 0;
    while i < limit
        invariant
            0 <= i <= limit <= pc.entries@.len(),
            out@ =~= pc.entries@.take(i as int),
        decreases limit - i,
    {
        out.push(pc.entries[i]);
        proof {
            assert(out@ =~= pc.entries@.take(i + 1 as int));
        }
        i = i + 1;
    }
    proof {
        assert(out@ =~= port_chain_spec(pc.entries@, pc.count));
    }
    out
}

fn optional_string(raw: &RawString) -> (r: Option<String>)
    ensures
        optional_string_present(*raw) ==> (r matches Some(s) && s@ == raw.text@),
        !optional_string_present(*raw) ==> r is None,
{
    if raw.status == ERROR_CODE_SUCCESS && !raw.text.as_str().is_empty() {
        Some(raw.text.clone())
    } else {
        None
    }
}

impl USBDevice {
    /// Builds the snapshot of one USB node from its raw attribute
    /// queries.  A failed required query aborts with the mapped native
    /// error of the first failure in pull order; failed optional
    /// queries degrade to an empty serial and absent port and paths.
    pub fn from_node(node: &RawUsbNode) -> (r: Result<USBDevice, FreeWiliError>)
        ensures
            node_required_ok(*node) ==> (r matches Ok(u) && snapshot_matches(*node, u)),
            !node_required_ok(*node) ==> (r matches Err(e) && error_matches_code(
                node_first_failed_status(*node),
                e,
            )),
    {
        if node.role.status != ERROR_CODE_SUCCESS {
            return Err(FreeWiliError::from_code(node.role.status));
        }
        if node.vid.status != ERROR_CODE_SUCCESS {
            return Err(FreeWiliError::from_code(node.vid.status));
        }
        if node.pid.status != ERROR_CODE_SUCCESS {
            return Err(FreeWiliError::from_code(node.pid.status));
        }
        if node.location.status != ERROR_CODE_SUCCESS {
            return Err(FreeWiliError::from_code(node.location.status));
        }
        if node.name.status != ERROR_CODE_SUCCESS {
            return Err(FreeWiliError::from_code(node.name.status));
        }
        if node.port_chain.status != ERROR_CODE_SUCCESS {
            return Err(FreeWiliError::from_code(node.port_chain.status));
        }
        let kind = UsbDeviceType::from_code(node.role.value);
        let serial = if node.serial.status == ERROR_CODE_SUCCESS {
            node.serial.text.clone()
        } else {
            String::new()
        };
        let paths = match optional_string(&node.path) {
            Some(path) => {
                let mut ps: Vec<String> = Vec::new();
                ps.push(path);
                Some(ps)
            },
            None => None,
        };
        Ok(
            USBDevice {
                kind,
                kind_name: kind.name(),
                vid: (node.vid.value % 0x10000) as u16,
                pid: (node.pid.value % 0x10000) as u16,
                name: node.name.text.clone(),
                serial,
                location: node.location.value,
                port_chain: truncated_port_chain(&node.port_chain),
                port: optional_string(&node.port),
                paths,
            },
        )
    }

    /// Renders this snapshot for display: the role name, the device
    /// name, and the port or, failing that, the paths joined by commas.
    pub fn display_string(&self) -> (r: String)
        ensures
            r@ == display_spec(*self),
    {
        let mut s = self.kind.name();
        s.append(": ");
        s.append(self.name.as_str());
        match &self.port {
            Some(p) => {
                s.append(": ");
                s.append(p.as_str());
            },
            None => {
                match &self.paths {
                    Some(ps) => {
                        s.append(": ");
                        append_joined_paths(&mut s, ps);
                    },
                    None => {},
                }
            },
        }
        proof {
            assert(s@ =~= display_spec(*self));
        }
        s
    }
}

/// The display text of a snapshot: role name and device name, then the
/// port if present, else the joined paths if present.
pub open spec fn display_spec(u: USBDevice) -> Seq<char> {
    usb_type_name_spec(u.kind) + ": "@ + u.name@ + (match u.port {
        Some(p) => ": "@ + p@,
        None => match u.paths {
            Some(ps) => ": "@ + join_paths_spec(ps@),
            None => Seq::<char>::empty(),
        },
    })
}

/// Paths joined by a comma and a space.
pub open spec fn join_paths_spec(ps: Seq<String>) -> Seq<char>
    decreases ps.len(),
{
    if ps.len() == 0 {
        Seq::<char>::empty()
    } else if ps.len() == 1 {
        ps[0]@
    } else {
        ps[0]@ + ", "@ + join_paths_spec(ps.drop_first())
    }
}

proof fn lemma_join_paths_push(ps: Seq<String>, s: String)
    ensures
        ps.len() == 0 ==> join_paths_spec(ps.push(s)) =~= s@,
        ps.len() > 0 ==> join_paths_spec(ps.push(s)) =~= join_paths_spec(ps) + ", "@ + s@,
    decreases ps.len(),
{
    if ps.len() == 0 {
        assert(ps.push(s).len() == 1);
        assert(ps.push(s)[0] == s);
    } else {
        lemma_join_paths_push(ps.drop_first(), s);
        assert(ps.push(s).drop_first() =~= ps.drop_first().push(s));
        assert(ps.push(s)[0] == ps[0]);
    }
}

fn append_joined_paths(s: &mut String, ps: &Vec<String>)
    ensures
        final(s)@ == old(s)@ + join_paths_spec(ps@),
{
    let mut i: usize = 0;
    while i < ps.len()
        invariant
            0 <= i <= ps@.len(),
            s@ =~= old(s)@ + join_paths_spec(ps@.take(i as int)),
        decreases ps@.len() - i,
    {
        if i > 0 {
            s.append(", ");
        }
        s.append(ps[i].as_str());
        proof {
            lemma_join_paths_push(ps@.take(i as int), ps@[i as int]);
            assert(ps@.take(i + 1 as int) =~= ps@.take(i as int).push(ps@[i as int]));
            assert(s@ =~= old(s)@ + join_paths_spec(ps@.take(i + 1 as int)));
        }
        i = i + 1;
    }
    proof {
        assert(ps@.take(ps@.len() as int) =~= ps@);
    }
}

/// Law: a snapshot's port chain never has more entries than the count
/// the backend reported.
pub proof fn lemma_port_chain_bounded(entries: Seq<u32>, count: u32)
    ensures
        port_chain_spec(entries, count).len() <= count,
{
}

/// Law: failures of the optional attribute queries (serial, port, path)
/// never abort snapshot construction.
pub proof fn lemma_optional_failures_never_abort(node: RawUsbNode)
    requires
        node.role.status == ERROR_CODE_SUCCESS,
        node.vid.status == ERROR_CODE_SUCCESS,
        node.pid.status == ERROR_CODE_SUCCESS,
        node.location.status == ERROR_CODE_SUCCESS,
        node.name.status == ERROR_CODE_SUCCESS,
        node.port_chain.status == ERROR_CODE_SUCCESS,
    ensures
        node_required_ok(node),
{
}

/// Law: a failure of the required name query aborts snapshot
/// construction with that failure's status.
pub proof fn lemma_name_failure_aborts(node: RawUsbNode)
    requires
        node.role.status == ERROR_CODE_SUCCESS,
        node.vid.status == ERROR_CODE_SUCCESS,
        node.pid.status == ERROR_CODE_SUCCESS,
        node.location.status == ERROR_CODE_SUCCESS,
        node.name.status != ERROR_CODE_SUCCESS,
    ensures
        !node_required_ok(node),
        node_first_failed_status(node) == node.name.status,
{
}

} // verus!
