//! The labels under which the bytes of an event are counted.
//!
//! Four of them are looked up and kept in caches: the name of the process,
//! of the device, of the filesystem type and of the file type. Each lookup
//! that fails degrades to a label made from the event itself.

use crate::cache::{
    build_cache, get_or_insert_with, last_stored, looked_up, nothing_stored, policy_of,
    CachePolicy, Lookup,
};
use crate::cmdline::{name_end, Cmdline};
use crate::device::{dev_name_from_uevent, spec_dev_name};
use crate::error::Error;
use crate::event::FileAccessEvent;
use crate::event_ext::{spec_fs_type, spec_major, spec_minor, EventExt};
use crate::fmt::{decimal, decimal_string, push_decimal};
use crate::machine::MachineInfo;
use crate::mode::{FileType, Permissions};
use crate::text::{c_str_bytes, utf8_lossy};
use moka::sync::Cache;
use vstd::prelude::*;
use vstd::string::{StringExecFns, StringSliceAdditionalSpecFns};

verus! {

/// The name of the counter.
pub const COUNTER: &'static str = "io";

/// The cache of process names, by process identifier.
pub fn cmd_cache_policy() -> (p: CachePolicy)
    ensures
        p == (CachePolicy { max_capacity: 10000, time_to_idle: 5, time_to_live: 10 }),
        p.wf(),
{
    CachePolicy { max_capacity: 10000, time_to_idle: 5, time_to_live: 10 }
}

/// The caches of device names, filesystem types and file types.
pub fn small_cache_policy() -> (p: CachePolicy)
    ensures
        p == (CachePolicy { max_capacity: 100, time_to_idle: 5, time_to_live: 10 }),
        p.wf(),
{
    CachePolicy { max_capacity: 100, time_to_idle: 5, time_to_live: 10 }
}

/// One label of a metric.
#[derive(Debug, PartialEq, Eq)]
pub struct Label {
    pub key: String,
    pub value: String,
}

impl View for Label {
    type V = (Seq<char>, Seq<char>);

    open spec fn view(&self) -> (Seq<char>, Seq<char>) {
        (self.key@, self.value@)
    }
}

impl Label {
    pub fn new(key: &str, value: String) -> (l: Label)
        ensures
            l@ == (key@, value@),
    {
        Label { key: String::from_str(key), value }
    }
}

/// The four labels that are looked up.
pub struct Resolved {
    pub cmd: String,
    pub dev_name: String,
    pub fs_type: String,
    pub file_type: String,
}

/// `true` or `false`.
pub open spec fn spec_flag(b: bool) -> Seq<char> {
    if b {
        "true"@
    } else {
        "false"@
    }
}

pub fn flag(b: bool) -> (s: String)
    ensures
        s@ == spec_flag(b),
{
    if b {
        String::from_str("true")
    } else {
        String::from_str("false")
    }
}

/// The label of the process: the name in its command line where that was
/// read, else the name snapshot of the event.
pub open spec fn spec_cmd_label(event: FileAccessEvent, cmdline: Option<Seq<u8>>) -> Seq<char> {
    match cmdline {
        Some(data) => utf8_lossy(data.subrange(0, name_end(data))),
        None => utf8_lossy(c_str_bytes(event.comm@)),
    }
}

/// The label of the process, from what the read of its command line gave.
pub fn cmd_label(event: &FileAccessEvent, cmdline: Option<Vec<u8>>) -> (s: String)
    ensures
        s@ == spec_cmd_label(
            *event,
            match cmdline {
                Some(data) => Some(data@),
                None => None,
            },
        ),
{
    match cmdline {
        Some(data) => {
            let cmd = Cmdline::new(data);
            cmd.name()
        },
        None => event.comm(),
    }
}

/// The name of the device where its `uevent` text was read and names it,
/// else the error that says which of the two failed.
pub fn dev_name(event: &FileAccessEvent, uevent: Result<&str, String>) -> (r: Result<
    String,
    Error,
>)
    ensures
        match uevent {
            Ok(content) => match spec_dev_name(content.spec_bytes()) {
                Some(b) => r matches Ok(name) && name@ == utf8_lossy(b),
                None => r == Err::<String, Error>(
                    Error::DeviceNotFound(spec_major(event.dev), spec_minor(event.dev)),
                ),
            },
            Err(msg) => r matches Err(Error::Path(m, p)) && m == msg && p@
                == crate::event_ext::spec_uevent_path(
                spec_major(event.dev),
                spec_minor(event.dev),
            ),
        },
{
    match uevent {
        Ok(content) => match dev_name_from_uevent(content) {
            Some(name) => Ok(name),
            None => Err(Error::DeviceNotFound(event.major(), event.minor())),
        },
        Err(msg) => Err(Error::Path(msg, event.uevent_path())),
    }
}

/// `<major>:<minor>`.
pub open spec fn spec_major_minor_text(dev: u32) -> Seq<char> {
    decimal(spec_major(dev) as nat) + ":"@ + decimal(spec_minor(dev) as nat)
}

/// The label of the device: its name where one was found, else
/// `<major>:<minor>`.
pub fn device_label(event: &FileAccessEvent, name: Result<String, Error>) -> (s: String)
    ensures
        s@ == match name {
            Ok(n) => n@,
            Err(_) => spec_major_minor_text(event.dev),
        },
{
    match name {
        Ok(n) => n,
        Err(_) => {
            let mut s = String::new();
            push_decimal(&mut s, event.major() as u64);
            s.append(":");
            push_decimal(&mut s, event.minor() as u64);
            assert(s@ =~= spec_major_minor_text(event.dev));
            s
        },
    }
}

/// The label of the filesystem type: the name of the type that has the
/// magic number, else the number in decimal.
pub open spec fn spec_fs_type_label(s_magic: u64) -> Seq<char> {
    match spec_fs_type(s_magic) {
        Ok(t) => t.spec_name(),
        Err(_) => decimal(s_magic as nat),
    }
}

pub fn fs_type_label(event: &FileAccessEvent) -> (s: String)
    ensures
        s@ == spec_fs_type_label(event.s_magic),
{
    match event.fs_type() {
        Ok(t) => String::from_str(t.as_ref()),
        Err(Error::FsType(n)) => decimal_string(n as u64),
        Err(_) => decimal_string(event.s_magic),
    }
}

/// The label of the file type: the name of the type that has the type bits
/// of the mode, else the bits as a number in decimal.
pub open spec fn spec_file_type_label(i_mode: u16) -> Seq<char> {
    match FileType::spec_try_from(crate::event_ext::spec_file_type_mode(i_mode)) {
        Ok(t) => t.spec_name(),
        Err(n) => decimal(n as nat),
    }
}

pub fn file_type_label(event: &FileAccessEvent) -> (s: String)
    ensures
        s@ == spec_file_type_label(event.i_mode),
{
    match event.file_type() {
        Ok(t) => String::from_str(t.as_ref()),
        Err(_) => decimal_string(event.file_type_mode() as u64),
    }
}

/// The labels of an event, in the order in which they are attached.
pub open spec fn spec_labels(event: FileAccessEvent, resolved: Resolved, machine: MachineInfo) -> Seq<
    (Seq<char>, Seq<char>),
> {
    let perms = Permissions::of(event.i_mode);
    seq![
        ("path"@, utf8_lossy(c_str_bytes(event.path@))),
        ("cmd"@, resolved.cmd@),
        ("dev_name"@, resolved.dev_name@),
        ("fs_type"@, resolved.fs_type@),
        ("file_type"@, resolved.file_type@),
        ("perms_group"@, perms.group.spec_to_string()),
        ("perms_owner"@, perms.owner.spec_to_string()),
        ("perms_others"@, perms.others.spec_to_string()),
        ("setuid"@, spec_flag(perms.setuid)),
        ("setgid"@, spec_flag(perms.setgid)),
        ("sticky"@, spec_flag(perms.sticky)),
        ("syscall"@, event.event_type.spec_syscall()),
        ("direction"@, event.event_type.spec_direction()),
        ("type_name"@, event.event_type.spec_kind_name()),
        ("ips"@, machine.string_ips@),
        ("hostname"@, machine.hostname@),
        ("machine_id"@, machine.id@),
    ]
}

/// The labels of an event: what it says itself, what was looked up for it,
/// and the identity of the machine.
pub fn get_labels(event: &FileAccessEvent, resolved: &Resolved, machine: &MachineInfo) -> (labels:
    Vec<Label>)
    ensures
        labels@.map_values(|l: Label| l@) == spec_labels(*event, *resolved, *machine),
{
    let perms = event.perms();
    let mut labels: Vec<Label> = Vec::new();
    labels.push(Label::new("path", event.path()));
    labels.push(Label::new("cmd", resolved.cmd.clone()));
    labels.push(Label::new("dev_name", resolved.dev_name.clone()));
    labels.push(Label::new("fs_type", resolved.fs_type.clone()));
    labels.push(Label::new("file_type", resolved.file_type.clone()));
    labels.push(Label::new("perms_group", perms.group.to_string()));
    labels.push(Label::new("perms_owner", perms.owner.to_string()));
    labels.push(Label::new("perms_others", perms.others.to_string()));
    labels.push(Label::new("setuid", flag(perms.setuid)));
    labels.push(Label::new("setgid", flag(perms.setgid)));
    labels.push(Label::new("sticky", flag(perms.sticky)));
    labels.push(Label::new("syscall", String::from_str(event.syscall())));
    labels.push(Label::new("direction", String::from_str(event.direction())));
    labels.push(Label::new("type_name", String::from_str(event.kind_name())));
    labels.push(Label::new("ips", machine.string_ips.clone()));
    labels.push(Label::new("hostname", machine.hostname.clone()));
    labels.push(Label::new("machine_id", machine.id.clone()));
    assert(labels@.map_values(|l: Label| l@) =~= spec_labels(*event, *resolved, *machine));
    labels
}

/// By how much the counter grows for an event: by its bytes.
pub fn increment(event: &FileAccessEvent) -> (n: u64)
    ensures
        n == event.bytes,
{
    event.bytes
}

/// The label of the device, from what the read of its `uevent` file gave:
/// the name that the text gives, else `<major>:<minor>`.
pub open spec fn spec_device_label(dev: u32, uevent: Result<Seq<u8>, Seq<char>>) -> Seq<char> {
    match uevent {
        Ok(content) => match spec_dev_name(content) {
            Some(b) => utf8_lossy(b),
            None => spec_major_minor_text(dev),
        },
        Err(_) => spec_major_minor_text(dev),
    }
}

/// What the read of a `uevent` file gave, as bytes and text.
pub open spec fn uevent_view(read: Result<String, String>) -> Result<Seq<u8>, Seq<char>> {
    match read {
        Ok(content) => Ok(vstd::utf8::encode_utf8(content@)),
        Err(msg) => Err(msg@),
    }
}

/// What the read of a command line gave, as bytes.
pub open spec fn cmdline_view(read: Option<Vec<u8>>) -> Option<Seq<u8>> {
    match read {
        Some(data) => Some(data@),
        None => None,
    }
}

/// What is counted for one event.
pub struct Increment {
    pub labels: Vec<Label>,
    /// By how much the counter grows.
    pub by: u64,
}

/// The label of the file type with the given type bits.
pub open spec fn spec_file_type_label_of(bits: u32) -> Seq<char> {
    match FileType::spec_try_from(bits) {
        Ok(t) => t.spec_name(),
        Err(n) => decimal(n as nat),
    }
}

/// Derives the labels of events, keeping what it looked up.
pub struct Aggregator {
    cmd_name_by_tgid: Cache<u64, String>,
    device_name_by_dev: Cache<u64, String>,
    fs_type_by_magic: Cache<u64, String>,
    file_type_by_mode: Cache<u64, String>,
    machine_info: MachineInfo,
}

impl Aggregator {
    /// The identity of the machine, attached to every event.
    pub closed spec fn machine(&self) -> MachineInfo {
        self.machine_info
    }

    /// The name last looked up for each process, by its identifier.
    pub closed spec fn cmd_names(&self) -> Map<u64, Seq<char>> {
        last_stored(self.cmd_name_by_tgid)
    }

    /// The name last looked up for each device, by its number.
    pub closed spec fn device_names(&self) -> Map<u64, Seq<char>> {
        last_stored(self.device_name_by_dev)
    }

    /// The label last computed for each magic number.
    pub closed spec fn fs_types(&self) -> Map<u64, Seq<char>> {
        last_stored(self.fs_type_by_magic)
    }

    /// The label last computed for each pattern of type bits.
    pub closed spec fn file_types(&self) -> Map<u64, Seq<char>> {
        last_stored(self.file_type_by_mode)
    }

    /// The policy of the cache of process names.
    pub closed spec fn cmd_policy(&self) -> CachePolicy {
        policy_of(self.cmd_name_by_tgid)
    }

    /// The policy of the cache of device names.
    pub closed spec fn device_policy(&self) -> CachePolicy {
        policy_of(self.device_name_by_dev)
    }

    /// The policy of the cache of filesystem types.
    pub closed spec fn fs_type_policy(&self) -> CachePolicy {
        policy_of(self.fs_type_by_magic)
    }

    /// The policy of the cache of file types.
    pub closed spec fn file_type_policy(&self) -> CachePolicy {
        policy_of(self.file_type_by_mode)
    }

    /// The four caches of `other` have the policies of those of `self`.
    pub open spec fn same_policies(&self, other: &Aggregator) -> bool {
        &&& other.cmd_policy() == self.cmd_policy()
        &&& other.device_policy() == self.device_policy()
        &&& other.fs_type_policy() == self.fs_type_policy()
        &&& other.file_type_policy() == self.file_type_policy()
    }

    /// The labels that are computed from their key alone are those of
    /// their keys: no lookup can find another.
    pub open spec fn wf(&self) -> bool {
        &&& forall|magic: u64| #[trigger]
            self.fs_types().contains_key(magic) ==> self.fs_types()[magic] == spec_fs_type_label(
                magic,
            )
        &&& forall|bits: u64| #[trigger]
            self.file_types().contains_key(bits) ==> bits <= u32::MAX && self.file_types()[bits]
                == spec_file_type_label_of(bits as u32)
    }

    /// An aggregator that has looked up nothing yet. Its cache of process
    /// names holds 10000 entries, each of the other three 100; every entry
    /// is dropped after 5 seconds in which nobody asked for it, and after
    /// 10 seconds in any case.
    pub fn new(machine_info: MachineInfo) -> (a: Aggregator)
        ensures
            a.wf(),
            a.cmd_policy() == (CachePolicy {
                max_capacity: 10000,
                time_to_idle: 5,
                time_to_live: 10,
            }),
            a.device_policy() == (CachePolicy {
                max_capacity: 100,
                time_to_idle: 5,
                time_to_live: 10,
            }),
            a.fs_type_policy() == (CachePolicy {
                max_capacity: 100,
                time_to_idle: 5,
                time_to_live: 10,
            }),
            a.file_type_policy() == (CachePolicy {
                max_capacity: 100,
                time_to_idle: 5,
                time_to_live: 10,
            }),
            a.machine() == machine_info,
            a.cmd_names() == nothing_stored(),
            a.device_names() == nothing_stored(),
            a.fs_types() == nothing_stored(),
            a.file_types() == nothing_stored(),
    {
        Aggregator {
            machine_info,
            cmd_name_by_tgid: build_cache(cmd_cache_policy()),
            device_name_by_dev: build_cache(small_cache_policy()),
            fs_type_by_magic: build_cache(small_cache_policy()),
            file_type_by_mode: build_cache(small_cache_policy()),
        }
    }

    /// The label of the file type: that of the type bits of the mode,
    /// whether it was found in the cache or computed and kept now.
    pub fn get_file_type(&mut self, event: &FileAccessEvent) -> (l: Lookup)
        requires
            old(self).wf(),
        ensures
            final(self).wf(),
            l.value@ == spec_file_type_label(event.i_mode),
            looked_up(
                old(self).file_types(),
                final(self).file_types(),
                crate::event_ext::spec_file_type_mode(event.i_mode) as u64,
                l,
            ),
            final(self).cmd_names() == old(self).cmd_names(),
            final(self).device_names() == old(self).device_names(),
            final(self).fs_types() == old(self).fs_types(),
            final(self).machine() == old(self).machine(),
            old(self).same_policies(final(self)),
    {
        let init = || -> (s: String)
            ensures
                s@ == spec_file_type_label(event.i_mode),
            { file_type_label(event) };
        let bits: u32 = event.file_type_mode();
        let l = get_or_insert_with(&mut self.file_type_by_mode, bits as u64, init);
        proof {
            let before = old(self).file_types();
            let after = self.file_types();
            assert(self.fs_types() == old(self).fs_types());
            assert(spec_file_type_label(event.i_mode) == spec_file_type_label_of(bits));
            assert(looked_up(before, after, bits as u64, l));
            if !l.fresh {
                assert(before.contains_key(bits as u64));
            }
            assert forall|k: u64| #[trigger] after.contains_key(k) implies k <= u32::MAX
                && after[k] == spec_file_type_label_of(k as u32) by {
                if k != bits as u64 {
                    assert(before.contains_key(k));
                }
            }
        }
        l
    }

    /// The label of the filesystem type: that of the magic number, whether
    /// it was found in the cache or computed and kept now.
    pub fn get_fs_type(&mut self, event: &FileAccessEvent) -> (l: Lookup)
        requires
            old(self).wf(),
        ensures
            final(self).wf(),
            l.value@ == spec_fs_type_label(event.s_magic),
            looked_up(old(self).fs_types(), final(self).fs_types(), event.s_magic, l),
            final(self).cmd_names() == old(self).cmd_names(),
            final(self).device_names() == old(self).device_names(),
            final(self).file_types() == old(self).file_types(),
            final(self).machine() == old(self).machine(),
            old(self).same_policies(final(self)),
    {
        let init = || -> (s: String)
            ensures
                s@ == spec_fs_type_label(event.s_magic),
            { fs_type_label(event) };
        let l = get_or_insert_with(&mut self.fs_type_by_magic, event.s_magic, init);
        proof {
            let before = old(self).fs_types();
            let after = self.fs_types();
            assert(self.file_types() == old(self).file_types());
            assert(looked_up(before, after, event.s_magic, l));
            if !l.fresh {
                assert(before.contains_key(event.s_magic));
            }
            assert forall|k: u64| #[trigger] after.contains_key(k) implies after[k]
                == spec_fs_type_label(k) by {
                if k != event.s_magic {
                    assert(before.contains_key(k));
                }
            }
        }
        l
    }

    /// The label of the device. A name that the cache keeps for the device
    /// is returned as it is, and nothing is read. Where it keeps none,
    /// `read_uevent` reads the device's `uevent` file, and the label made
    /// of what it gave is returned and kept.
    pub fn get_device_name<F: FnOnce() -> Result<String, String>>(
        &mut self,
        event: &FileAccessEvent,
        read_uevent: F,
    ) -> (l: Lookup)
        requires
            old(self).wf(),
            read_uevent.requires(()),
        ensures
            final(self).wf(),
            l.fresh ==> exists|read: Result<String, String>|
                #[trigger] read_uevent.ensures((), read) && l.value@ == spec_device_label(
                    event.dev,
                    uevent_view(read),
                ),
            looked_up(old(self).device_names(), final(self).device_names(), event.dev as u64, l),
            final(self).cmd_names() == old(self).cmd_names(),
            final(self).fs_types() == old(self).fs_types(),
            final(self).file_types() == old(self).file_types(),
            final(self).machine() == old(self).machine(),
            old(self).same_policies(final(self)),
    {
        let init = || -> (s: String)
            requires
                read_uevent.requires(()),
            ensures
                exists|read: Result<String, String>|
                    #[trigger] read_uevent.ensures((), read) && s@ == spec_device_label(
                        event.dev,
                        uevent_view(read),
                    ),
            {
                let read = read_uevent();
                let name = match &read {
                    Ok(content) => dev_name(event, Ok(content.as_str())),
                    Err(msg) => dev_name(event, Err(msg.clone())),
                };
                let s = device_label(event, name);
                assert(s@ == spec_device_label(event.dev, uevent_view(read)));
                s
            };
        let l = get_or_insert_with(&mut self.device_name_by_dev, event.dev as u64, init);
        proof {
            assert(self.fs_types() == old(self).fs_types());
            assert(self.file_types() == old(self).file_types());
        }
        l
    }

    /// The label of the process. A name that the cache keeps for the
    /// process is returned as it is, and nothing is read. Where it keeps
    /// none, `read_cmdline` reads the command line of the process, and the
    /// label made of what it gave is returned and kept.
    pub fn get_cmd<F: FnOnce() -> Option<Vec<u8>>>(
        &mut self,
        event: &FileAccessEvent,
        read_cmdline: F,
    ) -> (l: Lookup)
        requires
            old(self).wf(),
            read_cmdline.requires(()),
        ensures
            final(self).wf(),
            l.fresh ==> exists|read: Option<Vec<u8>>|
                #[trigger] read_cmdline.ensures((), read) && l.value@ == spec_cmd_label(
                    *event,
                    cmdline_view(read),
                ),
            looked_up(old(self).cmd_names(), final(self).cmd_names(), event.tgid as u64, l),
            final(self).device_names() == old(self).device_names(),
            final(self).fs_types() == old(self).fs_types(),
            final(self).file_types() == old(self).file_types(),
            final(self).machine() == old(self).machine(),
            old(self).same_policies(final(self)),
    {
        let init = || -> (s: String)
            requires
                read_cmdline.requires(()),
            ensures
                exists|read: Option<Vec<u8>>|
                    #[trigger] read_cmdline.ensures((), read) && s@ == spec_cmd_label(
                        *event,
                        cmdline_view(read),
                    ),
            {
                let read = read_cmdline();
                let ghost seen = read;
                let s = cmd_label(event, read);
                assert(read_cmdline.ensures((), seen) && s@ == spec_cmd_label(
                    *event,
                    cmdline_view(seen),
                ));
                s
            };
        let l = get_or_insert_with(&mut self.cmd_name_by_tgid, event.tgid as u64, init);
        proof {
            assert(self.fs_types() == old(self).fs_types());
            assert(self.file_types() == old(self).file_types());
        }
        l
    }

    /// What `get_labels` does: each of the four looked-up labels is looked
    /// up in its cache as the four lookups say, and the labels are those of
    /// the event with the four texts that were found.
    pub open spec fn spec_get_labels<
        F: FnOnce() -> Option<Vec<u8>>,
        G: FnOnce() -> Result<String, String>,
    >(
        before: Aggregator,
        after: Aggregator,
        event: FileAccessEvent,
        read_cmdline: F,
        read_uevent: G,
        labels: Seq<(Seq<char>, Seq<char>)>,
    ) -> bool {
        exists|resolved: Resolved, cmd: Lookup, dev: Lookup, fs: Lookup, ft: Lookup|
            #![trigger
                spec_labels(event, resolved, before.machine()),
                looked_up(before.cmd_names(), after.cmd_names(), event.tgid as u64, cmd),
                looked_up(before.device_names(), after.device_names(), event.dev as u64, dev),
                looked_up(before.fs_types(), after.fs_types(), event.s_magic, fs),
                looked_up(
                    before.file_types(),
                    after.file_types(),
                    crate::event_ext::spec_file_type_mode(event.i_mode) as u64,
                    ft,
                ),
            ]
            {
                &&& labels == spec_labels(event, resolved, before.machine())
                &&& resolved.cmd@ == cmd.value@
                &&& resolved.dev_name@ == dev.value@
                &&& resolved.fs_type@ == fs.value@
                &&& resolved.file_type@ == ft.value@
                &&& looked_up(before.cmd_names(), after.cmd_names(), event.tgid as u64, cmd)
                &&& cmd.fresh ==> exists|read: Option<Vec<u8>>|
                    #[trigger] read_cmdline.ensures((), read) && cmd.value@ == spec_cmd_label(
                        event,
                        cmdline_view(read),
                    )
                &&& looked_up(
                    before.device_names(),
                    after.device_names(),
                    event.dev as u64,
                    dev,
                )
                &&& dev.fresh ==> exists|read: Result<String, String>|
                    #[trigger] read_uevent.ensures((), read) && dev.value@ == spec_device_label(
                        event.dev,
                        uevent_view(read),
                    )
                &&& looked_up(before.fs_types(), after.fs_types(), event.s_magic, fs)
                &&& fs.value@ == spec_fs_type_label(event.s_magic)
                &&& looked_up(
                    before.file_types(),
                    after.file_types(),
                    crate::event_ext::spec_file_type_mode(event.i_mode) as u64,
                    ft,
                )
                &&& ft.value@ == spec_file_type_label(event.i_mode)
            }
    }

    /// The labels of an event, the four looked-up ones taken from the caches
    /// or looked up and kept.
    pub fn get_labels<F: FnOnce() -> Option<Vec<u8>>, G: FnOnce() -> Result<String, String>>(
        &mut self,
        event: &FileAccessEvent,
        read_cmdline: F,
        read_uevent: G,
    ) -> (labels: Vec<Label>)
        requires
            old(self).wf(),
            read_cmdline.requires(()),
            read_uevent.requires(()),
        ensures
            final(self).wf(),
            final(self).machine() == old(self).machine(),
            old(self).same_policies(final(self)),
            Self::spec_get_labels(
                *old(self),
                *final(self),
                *event,
                read_cmdline,
                read_uevent,
                labels@.map_values(|l: Label| l@),
            ),
    {
        let cmd = self.get_cmd(event, read_cmdline);
        let dev = self.get_device_name(event, read_uevent);
        let fs = self.get_fs_type(event);
        let ft = self.get_file_type(event);
        let ghost found = (cmd, dev, fs, ft);
        let resolved = Resolved {
            cmd: cmd.value,
            dev_name: dev.value,
            fs_type: fs.value,
            file_type: ft.value,
        };
        let labels = get_labels(event, &resolved, &self.machine_info);
        proof {
            let before = *old(self);
            let after = *self;
            let texts = labels@.map_values(|l: Label| l@);
            assert(texts == spec_labels(*event, resolved, before.machine()));
            assert(looked_up(before.cmd_names(), after.cmd_names(), event.tgid as u64, found.0));
            assert(looked_up(
                before.device_names(),
                after.device_names(),
                event.dev as u64,
                found.1,
            ));
            assert(looked_up(before.fs_types(), after.fs_types(), event.s_magic, found.2));
            assert(looked_up(
                before.file_types(),
                after.file_types(),
                crate::event_ext::spec_file_type_mode(event.i_mode) as u64,
                found.3,
            ));
        }
        labels
    }

    /// What is counted for an event: its bytes, under its labels.
    pub fn process_event<F: FnOnce() -> Option<Vec<u8>>, G: FnOnce() -> Result<String, String>>(
        &mut self,
        event: &FileAccessEvent,
        read_cmdline: F,
        read_uevent: G,
    ) -> (r: Result<Increment, Error>)
        requires
            old(self).wf(),
            read_cmdline.requires(()),
            read_uevent.requires(()),
        ensures
            final(self).wf(),
            final(self).machine() == old(self).machine(),
            old(self).same_policies(final(self)),
            r matches Ok(inc) && inc.by == event.bytes && Self::spec_get_labels(
                *old(self),
                *final(self),
                *event,
                read_cmdline,
                read_uevent,
                inc.labels@.map_values(|l: Label| l@),
            ),
    {
        let labels = self.get_labels(event, read_cmdline, read_uevent);
        Ok(Increment { labels, by: increment(event) })
    }
}

} // verus!
