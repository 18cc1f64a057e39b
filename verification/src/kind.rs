use vstd::prelude::*;

use crate::Platform;
use crate::chars_util::{lower_char, lower_seq, str_eq};

verus! {

/// A closed, enumerated identifier naming one measurable or display
/// attribute of a process.  Some kinds expose kernel-specific metrics and
/// are available only on one operating-system family; see `active_on`.
#[derive(Clone, Copy, Debug, PartialEq, Eq, Hash, Structural)]
pub enum ConfigColumnKind {
    Command,
    ContextSw,
    CpuTime,
    Docker,
    Eip,
    Esp,
    Gid,
    GidFs,
    GidReal,
    GidSaved,
    Group,
    GroupFs,
    GroupReal,
    GroupSaved,
    MajFlt,
    MinFlt,
    Nice,
    Pid,
    Policy,
    Ppid,
    Priority,
    Processor,
    ReadBytes,
    RtPriority,
    Separator,
    ShdPnd,
    Slot,
    SigBlk,
    SigCgt,
    SigIgn,
    SigPnd,
    Ssb,
    StartTime,
    State,
    TcpPort,
    Threads,
    Tty,
    UdpPort,
    Uid,
    UidFs,
    UidReal,
    UidSaved,
    UsageCpu,
    UsageMem,
    User,
    UserFs,
    UserReal,
    UserSaved,
    Username,
    VmData,
    VmExe,
    VmHwm,
    VmLib,
    VmLock,
    VmPeak,
    VmPin,
    VmPte,
    VmRss,
    VmSize,
    VmStack,
    VmSwap,
    Wchan,
    WriteBytes,
}

/// The stable human-readable name of a kind.  It is also the exact
/// spelling by which a configuration document selects the kind.
pub open spec fn kind_name_spec(k: ConfigColumnKind) -> Seq<char> {
    match k {
        ConfigColumnKind::Command => "Command"@,
        ConfigColumnKind::ContextSw => "ContextSw"@,
        ConfigColumnKind::CpuTime => "CpuTime"@,
        ConfigColumnKind::Docker => "Docker"@,
        ConfigColumnKind::Eip => "Eip"@,
        ConfigColumnKind::Esp => "Esp"@,
        ConfigColumnKind::Gid => "Gid"@,
        ConfigColumnKind::GidFs => "GidFs"@,
        ConfigColumnKind::GidReal => "GidReal"@,
        ConfigColumnKind::GidSaved => "GidSaved"@,
        ConfigColumnKind::Group => "Group"@,
        ConfigColumnKind::GroupFs => "GroupFs"@,
        ConfigColumnKind::GroupReal => "GroupReal"@,
        ConfigColumnKind::GroupSaved => "GroupSaved"@,
        ConfigColumnKind::MajFlt => "MajFlt"@,
        ConfigColumnKind::MinFlt => "MinFlt"@,
        ConfigColumnKind::Nice => "Nice"@,
        ConfigColumnKind::Pid => "Pid"@,
        ConfigColumnKind::Policy => "Policy"@,
        ConfigColumnKind::Ppid => "Ppid"@,
        ConfigColumnKind::Priority => "Priority"@,
        ConfigColumnKind::Processor => "Processor"@,
        ConfigColumnKind::ReadBytes => "ReadBytes"@,
        ConfigColumnKind::RtPriority => "RtPriority"@,
        ConfigColumnKind::Separator => "Separator"@,
        ConfigColumnKind::ShdPnd => "ShdPnd"@,
        ConfigColumnKind::Slot => "Slot"@,
        ConfigColumnKind::SigBlk => "SigBlk"@,
        ConfigColumnKind::SigCgt => "SigCgt"@,
        ConfigColumnKind::SigIgn => "SigIgn"@,
        ConfigColumnKind::SigPnd => "SigPnd"@,
        ConfigColumnKind::Ssb => "Ssb"@,
        ConfigColumnKind::StartTime => "StartTime"@,
        ConfigColumnKind::State => "State"@,
        ConfigColumnKind::TcpPort => "TcpPort"@,
        ConfigColumnKind::Threads => "Threads"@,
        ConfigColumnKind::Tty => "Tty"@,
        ConfigColumnKind::UdpPort => "UdpPort"@,
        ConfigColumnKind::Uid => "Uid"@,
        ConfigColumnKind::UidFs => "UidFs"@,
        ConfigColumnKind::UidReal => "UidReal"@,
        ConfigColumnKind::UidSaved => "UidSaved"@,
        ConfigColumnKind::UsageCpu => "UsageCpu"@,
        ConfigColumnKind::UsageMem => "UsageMem"@,
        ConfigColumnKind::User => "User"@,
        ConfigColumnKind::UserFs => "UserFs"@,
        ConfigColumnKind::UserReal => "UserReal"@,
        ConfigColumnKind::UserSaved => "UserSaved"@,
        ConfigColumnKind::Username => "Username"@,
        ConfigColumnKind::VmData => "VmData"@,
        ConfigColumnKind::VmExe => "VmExe"@,
        ConfigColumnKind::VmHwm => "VmHwm"@,
        ConfigColumnKind::VmLib => "VmLib"@,
        ConfigColumnKind::VmLock => "VmLock"@,
        ConfigColumnKind::VmPeak => "VmPeak"@,
        ConfigColumnKind::VmPin => "VmPin"@,
        ConfigColumnKind::VmPte => "VmPte"@,
        ConfigColumnKind::VmRss => "VmRss"@,
        ConfigColumnKind::VmSize => "VmSize"@,
        ConfigColumnKind::VmStack => "VmStack"@,
        ConfigColumnKind::VmSwap => "VmSwap"@,
        ConfigColumnKind::Wchan => "Wchan"@,
        ConfigColumnKind::WriteBytes => "WriteBytes"@,
    }
}

/// The human-readable description of a kind.
pub open spec fn kind_description_spec(k: ConfigColumnKind) -> Seq<char> {
    match k {
        ConfigColumnKind::Command => "Command with all arguments"@,
        ConfigColumnKind::ContextSw => "Context switch count"@,
        ConfigColumnKind::CpuTime => "Cumulative CPU time"@,
        ConfigColumnKind::Docker => "Docker container name"@,
        ConfigColumnKind::Eip => "Instruction pointer"@,
        ConfigColumnKind::Esp => "Stack pointer"@,
        ConfigColumnKind::Gid => "Group ID"@,
        ConfigColumnKind::GidFs => "File system group ID"@,
        ConfigColumnKind::GidReal => "Real group ID"@,
        ConfigColumnKind::GidSaved => "Saved group ID"@,
        ConfigColumnKind::Group => "Group name"@,
        ConfigColumnKind::GroupFs => "File system group name"@,
        ConfigColumnKind::GroupReal => "Real group name"@,
        ConfigColumnKind::GroupSaved => "Saved group name"@,
        ConfigColumnKind::MajFlt => "Major page fault count"@,
        ConfigColumnKind::MinFlt => "Minor page fault count"@,
        ConfigColumnKind::Nice => "Nice value"@,
        ConfigColumnKind::Pid => "Process ID"@,
        ConfigColumnKind::Policy => "Scheduling policy"@,
        ConfigColumnKind::Ppid => "Parent process ID"@,
        ConfigColumnKind::Priority => "Priority"@,
        ConfigColumnKind::Processor => "Currently assigned processor"@,
        ConfigColumnKind::ReadBytes => "Read bytes from storage"@,
        ConfigColumnKind::RtPriority => "Real-time priority"@,
        ConfigColumnKind::Separator => "Show | for column separation"@,
        ConfigColumnKind::ShdPnd => "Pending signal mask for process"@,
        ConfigColumnKind::Slot => "Slot for `--insert` option"@,
        ConfigColumnKind::SigBlk => "Blocked signal mask"@,
        ConfigColumnKind::SigCgt => "Caught signal mask"@,
        ConfigColumnKind::SigIgn => "Ignored signal mask"@,
        ConfigColumnKind::SigPnd => "Pending signal mask for thread"@,
        ConfigColumnKind::Ssb => "Speculative store bypass status"@,
        ConfigColumnKind::StartTime => "Starting time"@,
        ConfigColumnKind::State => "Process state"@,
        ConfigColumnKind::TcpPort => "Bound TCP ports"@,
        ConfigColumnKind::Threads => "Thread count"@,
        ConfigColumnKind::Tty => "Controlling TTY"@,
        ConfigColumnKind::UdpPort => "Bound UDP ports"@,
        ConfigColumnKind::Uid => "User ID"@,
        ConfigColumnKind::UidFs => "File system user ID"@,
        ConfigColumnKind::UidReal => "Real user ID"@,
        ConfigColumnKind::UidSaved => "Saved user ID"@,
        ConfigColumnKind::UsageCpu => "CPU utilization"@,
        ConfigColumnKind::UsageMem => "Memory utilization"@,
        ConfigColumnKind::User => "User name"@,
        ConfigColumnKind::UserFs => "File system user name"@,
        ConfigColumnKind::UserReal => "Real user name"@,
        ConfigColumnKind::UserSaved => "Saved user name"@,
        ConfigColumnKind::Username => "User name"@,
        ConfigColumnKind::VmData => "Data size"@,
        ConfigColumnKind::VmExe => "Text segments size"@,
        ConfigColumnKind::VmHwm => "Peak resident set size"@,
        ConfigColumnKind::VmLib => "Library code size"@,
        ConfigColumnKind::VmLock => "Locked memory size"@,
        ConfigColumnKind::VmPeak => "Peak virtual memory size"@,
        ConfigColumnKind::VmPin => "Pinned memory size"@,
        ConfigColumnKind::VmPte => "Page table entries size"@,
        ConfigColumnKind::VmRss => "Resident set size"@,
        ConfigColumnKind::VmSize => "Physical page size"@,
        ConfigColumnKind::VmStack => "Stack size"@,
        ConfigColumnKind::VmSwap => "Swapped-out virtual memory size"@,
        ConfigColumnKind::Wchan => "Process sleeping kernel function"@,
        ConfigColumnKind::WriteBytes => "Write bytes to storage"@,
    }
}

/// Executable counterpart of `kind_name_spec`.
pub fn kind_name(k: &ConfigColumnKind) -> (r: &'static str)
    ensures
        r@ == kind_name_spec(*k),
{
    match k {
        ConfigColumnKind::Command => "Command",
        ConfigColumnKind::ContextSw => "ContextSw",
        ConfigColumnKind::CpuTime => "CpuTime",
        ConfigColumnKind::Docker => "Docker",
        ConfigColumnKind::Eip => "Eip",
        ConfigColumnKind::Esp => "Esp",
        ConfigColumnKind::Gid => "Gid",
        ConfigColumnKind::GidFs => "GidFs",
        ConfigColumnKind::GidReal => "GidReal",
        ConfigColumnKind::GidSaved => "GidSaved",
        ConfigColumnKind::Group => "Group",
        ConfigColumnKind::GroupFs => "GroupFs",
        ConfigColumnKind::GroupReal => "GroupReal",
        ConfigColumnKind::GroupSaved => "GroupSaved",
        ConfigColumnKind::MajFlt => "MajFlt",
        ConfigColumnKind::MinFlt => "MinFlt",
        ConfigColumnKind::Nice => "Nice",
        ConfigColumnKind::Pid => "Pid",
        ConfigColumnKind::Policy => "Policy",
        ConfigColumnKind::Ppid => "Ppid",
        ConfigColumnKind::Priority => "Priority",
        ConfigColumnKind::Processor => "Processor",
        ConfigColumnKind::ReadBytes => "ReadBytes",
        ConfigColumnKind::RtPriority => "RtPriority",
        ConfigColumnKind::Separator => "Separator",
        ConfigColumnKind::ShdPnd => "ShdPnd",
        ConfigColumnKind::Slot => "Slot",
        ConfigColumnKind::SigBlk => "SigBlk",
        ConfigColumnKind::SigCgt => "SigCgt",
        ConfigColumnKind::SigIgn => "SigIgn",
        ConfigColumnKind::SigPnd => "SigPnd",
        ConfigColumnKind::Ssb => "Ssb",
        ConfigColumnKind::StartTime => "StartTime",
        ConfigColumnKind::State => "State",
        ConfigColumnKind::TcpPort => "TcpPort",
        ConfigColumnKind::Threads => "Threads",
        ConfigColumnKind::Tty => "Tty",
        ConfigColumnKind::UdpPort => "UdpPort",
        ConfigColumnKind::Uid => "Uid",
        ConfigColumnKind::UidFs => "UidFs",
        ConfigColumnKind::UidReal => "UidReal",
        ConfigColumnKind::UidSaved => "UidSaved",
        ConfigColumnKind::UsageCpu => "UsageCpu",
        ConfigColumnKind::UsageMem => "UsageMem",
        ConfigColumnKind::User => "User",
        ConfigColumnKind::UserFs => "UserFs",
        ConfigColumnKind::UserReal => "UserReal",
        ConfigColumnKind::UserSaved => "UserSaved",
        ConfigColumnKind::Username => "Username",
        ConfigColumnKind::VmData => "VmData",
        ConfigColumnKind::VmExe => "VmExe",
        ConfigColumnKind::VmHwm => "VmHwm",
        ConfigColumnKind::VmLib => "VmLib",
        ConfigColumnKind::VmLock => "VmLock",
        ConfigColumnKind::VmPeak => "VmPeak",
        ConfigColumnKind::VmPin => "VmPin",
        ConfigColumnKind::VmPte => "VmPte",
        ConfigColumnKind::VmRss => "VmRss",
        ConfigColumnKind::VmSize => "VmSize",
        ConfigColumnKind::VmStack => "VmStack",
        ConfigColumnKind::VmSwap => "VmSwap",
        ConfigColumnKind::Wchan => "Wchan",
        ConfigColumnKind::WriteBytes => "WriteBytes",
    }
}

/// Executable counterpart of `kind_description_spec`.
pub fn kind_description(k: &ConfigColumnKind) -> (r: &'static str)
    ensures
        r@ == kind_description_spec(*k),
{
    match k {
        ConfigColumnKind::Command => "Command with all arguments",
        ConfigColumnKind::ContextSw => "Context switch count",
        ConfigColumnKind::CpuTime => "Cumulative CPU time",
        ConfigColumnKind::Docker => "Docker container name",
        ConfigColumnKind::Eip => "Instruction pointer",
        ConfigColumnKind::Esp => "Stack pointer",
        ConfigColumnKind::Gid => "Group ID",
        ConfigColumnKind::GidFs => "File system group ID",
        ConfigColumnKind::GidReal => "Real group ID",
        ConfigColumnKind::GidSaved => "Saved group ID",
        ConfigColumnKind::Group => "Group name",
        ConfigColumnKind::GroupFs => "File system group name",
        ConfigColumnKind::GroupReal => "Real group name",
        ConfigColumnKind::GroupSaved => "Saved group name",
        ConfigColumnKind::MajFlt => "Major page fault count",
        ConfigColumnKind::MinFlt => "Minor page fault count",
        ConfigColumnKind::Nice => "Nice value",
        ConfigColumnKind::Pid => "Process ID",
        ConfigColumnKind::Policy => "Scheduling policy",
        ConfigColumnKind::Ppid => "Parent process ID",
        ConfigColumnKind::Priority => "Priority",
        ConfigColumnKind::Processor => "Currently assigned processor",
        ConfigColumnKind::ReadBytes => "Read bytes from storage",
        ConfigColumnKind::RtPriority => "Real-time priority",
        ConfigColumnKind::Separator => "Show | for column separation",
        ConfigColumnKind::ShdPnd => "Pending signal mask for process",
        ConfigColumnKind::Slot => "Slot for `--insert` option",
        ConfigColumnKind::SigBlk => "Blocked signal mask",
        ConfigColumnKind::SigCgt => "Caught signal mask",
        ConfigColumnKind::SigIgn => "Ignored signal mask",
        ConfigColumnKind::SigPnd => "Pending signal mask for thread",
        ConfigColumnKind::Ssb => "Speculative store bypass status",
        ConfigColumnKind::StartTime => "Starting time",
        ConfigColumnKind::State => "Process state",
        ConfigColumnKind::TcpPort => "Bound TCP ports",
        ConfigColumnKind::Threads => "Thread count",
        ConfigColumnKind::Tty => "Controlling TTY",
        ConfigColumnKind::UdpPort => "Bound UDP ports",
        ConfigColumnKind::Uid => "User ID",
        ConfigColumnKind::UidFs => "File system user ID",
        ConfigColumnKind::UidReal => "Real user ID",
        ConfigColumnKind::UidSaved => "Saved user ID",
        ConfigColumnKind::UsageCpu => "CPU utilization",
        ConfigColumnKind::UsageMem => "Memory utilization",
        ConfigColumnKind::User => "User name",
        ConfigColumnKind::UserFs => "File system user name",
        ConfigColumnKind::UserReal => "Real user name",
        ConfigColumnKind::UserSaved => "Saved user name",
        ConfigColumnKind::Username => "User name",
        ConfigColumnKind::VmData => "Data size",
        ConfigColumnKind::VmExe => "Text segments size",
        ConfigColumnKind::VmHwm => "Peak resident set size",
        ConfigColumnKind::VmLib => "Library code size",
        ConfigColumnKind::VmLock => "Locked memory size",
        ConfigColumnKind::VmPeak => "Peak virtual memory size",
        ConfigColumnKind::VmPin => "Pinned memory size",
        ConfigColumnKind::VmPte => "Page table entries size",
        ConfigColumnKind::VmRss => "Resident set size",
        ConfigColumnKind::VmSize => "Physical page size",
        ConfigColumnKind::VmStack => "Stack size",
        ConfigColumnKind::VmSwap => "Swapped-out virtual memory size",
        ConfigColumnKind::Wchan => "Process sleeping kernel function",
        ConfigColumnKind::WriteBytes => "Write bytes to storage",
    }
}

/// Kinds that read kernel interfaces which exist only on the Linux family.
pub open spec fn is_linux_only(k: ConfigColumnKind) -> bool {
    match k {
        ConfigColumnKind::Eip
        | ConfigColumnKind::Esp
        | ConfigColumnKind::GidFs
        | ConfigColumnKind::GroupFs
        | ConfigColumnKind::Processor
        | ConfigColumnKind::RtPriority
        | ConfigColumnKind::ShdPnd
        | ConfigColumnKind::SigBlk
        | ConfigColumnKind::SigCgt
        | ConfigColumnKind::SigIgn
        | ConfigColumnKind::SigPnd
        | ConfigColumnKind::Ssb
        | ConfigColumnKind::UidFs
        | ConfigColumnKind::UserFs
        | ConfigColumnKind::VmData
        | ConfigColumnKind::VmExe
        | ConfigColumnKind::VmHwm
        | ConfigColumnKind::VmLib
        | ConfigColumnKind::VmLock
        | ConfigColumnKind::VmPeak
        | ConfigColumnKind::VmPin
        | ConfigColumnKind::VmPte
        | ConfigColumnKind::VmStack
        | ConfigColumnKind::VmSwap
        | ConfigColumnKind::Wchan => true,
        _ => false,
    }
}

/// Whether a kind belongs to the active catalog of a platform.
pub open spec fn active_on(p: Platform, k: ConfigColumnKind) -> bool {
    p == Platform::Linux || !is_linux_only(k)
}

/// Executable counterpart of `active_on`.
pub fn is_active(p: Platform, k: &ConfigColumnKind) -> (r: bool)
    ensures
        r == active_on(p, *k),
{
    match p {
        Platform::Linux => true,
        Platform::Mac => match k {
            ConfigColumnKind::Eip
        | ConfigColumnKind::Esp
        | ConfigColumnKind::GidFs
        | ConfigColumnKind::GroupFs
        | ConfigColumnKind::Processor
        | ConfigColumnKind::RtPriority
        | ConfigColumnKind::ShdPnd
        | ConfigColumnKind::SigBlk
        | ConfigColumnKind::SigCgt
        | ConfigColumnKind::SigIgn
        | ConfigColumnKind::SigPnd
        | ConfigColumnKind::Ssb
        | ConfigColumnKind::UidFs
        | ConfigColumnKind::UserFs
        | ConfigColumnKind::VmData
        | ConfigColumnKind::VmExe
        | ConfigColumnKind::VmHwm
        | ConfigColumnKind::VmLib
        | ConfigColumnKind::VmLock
        | ConfigColumnKind::VmPeak
        | ConfigColumnKind::VmPin
        | ConfigColumnKind::VmPte
        | ConfigColumnKind::VmStack
        | ConfigColumnKind::VmSwap
        | ConfigColumnKind::Wchan => false,
            _ => true,
        },
    }
}

/// Every kind, in declaration order.  This order is the catalog iteration
/// order, and so the tie-breaking order of name-fragment search.
pub open spec fn all_kinds() -> Seq<ConfigColumnKind> {
    seq![
        ConfigColumnKind::Command,
        ConfigColumnKind::ContextSw,
        ConfigColumnKind::CpuTime,
        ConfigColumnKind::Docker,
        ConfigColumnKind::Eip,
        ConfigColumnKind::Esp,
        ConfigColumnKind::Gid,
        ConfigColumnKind::GidFs,
        ConfigColumnKind::GidReal,
        ConfigColumnKind::GidSaved,
        ConfigColumnKind::Group,
        ConfigColumnKind::GroupFs,
        ConfigColumnKind::GroupReal,
        ConfigColumnKind::GroupSaved,
        ConfigColumnKind::MajFlt,
        ConfigColumnKind::MinFlt,
        ConfigColumnKind::Nice,
        ConfigColumnKind::Pid,
        ConfigColumnKind::Policy,
        ConfigColumnKind::Ppid,
        ConfigColumnKind::Priority,
        ConfigColumnKind::Processor,
        ConfigColumnKind::ReadBytes,
        ConfigColumnKind::RtPriority,
        ConfigColumnKind::Separator,
        ConfigColumnKind::ShdPnd,
        ConfigColumnKind::Slot,
        ConfigColumnKind::SigBlk,
        ConfigColumnKind::SigCgt,
        ConfigColumnKind::SigIgn,
        ConfigColumnKind::SigPnd,
        ConfigColumnKind::Ssb,
        ConfigColumnKind::StartTime,
        ConfigColumnKind::State,
        ConfigColumnKind::TcpPort,
        ConfigColumnKind::Threads,
        ConfigColumnKind::Tty,
        ConfigColumnKind::UdpPort,
        ConfigColumnKind::Uid,
        ConfigColumnKind::UidFs,
        ConfigColumnKind::UidReal,
        ConfigColumnKind::UidSaved,
        ConfigColumnKind::UsageCpu,
        ConfigColumnKind::UsageMem,
        ConfigColumnKind::User,
        ConfigColumnKind::UserFs,
        ConfigColumnKind::UserReal,
        ConfigColumnKind::UserSaved,
        ConfigColumnKind::Username,
        ConfigColumnKind::VmData,
        ConfigColumnKind::VmExe,
        ConfigColumnKind::VmHwm,
        ConfigColumnKind::VmLib,
        ConfigColumnKind::VmLock,
        ConfigColumnKind::VmPeak,
        ConfigColumnKind::VmPin,
        ConfigColumnKind::VmPte,
        ConfigColumnKind::VmRss,
        ConfigColumnKind::VmSize,
        ConfigColumnKind::VmStack,
        ConfigColumnKind::VmSwap,
        ConfigColumnKind::Wchan,
        ConfigColumnKind::WriteBytes
    ]
}

/// Executable counterpart of `all_kinds`.
#[verifier::rlimit(100)]
pub fn all_kinds_vec() -> (r: Vec<ConfigColumnKind>)
    ensures
        r@ == all_kinds(),
{
    let mut v: Vec<ConfigColumnKind> = Vec::new();
    v.push(ConfigColumnKind::Command);
    v.push(ConfigColumnKind::ContextSw);
    v.push(ConfigColumnKind::CpuTime);
    v.push(ConfigColumnKind::Docker);
    v.push(ConfigColumnKind::Eip);
    v.push(ConfigColumnKind::Esp);
    v.push(ConfigColumnKind::Gid);
    v.push(ConfigColumnKind::GidFs);
    v.push(ConfigColumnKind::GidReal);
    v.push(ConfigColumnKind::GidSaved);
    v.push(ConfigColumnKind::Group);
    v.push(ConfigColumnKind::GroupFs);
    v.push(ConfigColumnKind::GroupReal);
    v.push(ConfigColumnKind::GroupSaved);
    v.push(ConfigColumnKind::MajFlt);
    v.push(ConfigColumnKind::MinFlt);
    v.push(ConfigColumnKind::Nice);
    v.push(ConfigColumnKind::Pid);
    v.push(ConfigColumnKind::Policy);
    v.push(ConfigColumnKind::Ppid);
    v.push(ConfigColumnKind::Priority);
    v.push(ConfigColumnKind::Processor);
    v.push(ConfigColumnKind::ReadBytes);
    v.push(ConfigColumnKind::RtPriority);
    v.push(ConfigColumnKind::Separator);
    v.push(ConfigColumnKind::ShdPnd);
    v.push(ConfigColumnKind::Slot);
    v.push(ConfigColumnKind::SigBlk);
    v.push(ConfigColumnKind::SigCgt);
    v.push(ConfigColumnKind::SigIgn);
    v.push(ConfigColumnKind::SigPnd);
    v.push(ConfigColumnKind::Ssb);
    v.push(ConfigColumnKind::StartTime);
    v.push(ConfigColumnKind::State);
    v.push(ConfigColumnKind::TcpPort);
    v.push(ConfigColumnKind::Threads);
    v.push(ConfigColumnKind::Tty);
    v.push(ConfigColumnKind::UdpPort);
    v.push(ConfigColumnKind::Uid);
    v.push(ConfigColumnKind::UidFs);
    v.push(ConfigColumnKind::UidReal);
    v.push(ConfigColumnKind::UidSaved);
    v.push(ConfigColumnKind::UsageCpu);
    v.push(ConfigColumnKind::UsageMem);
    v.push(ConfigColumnKind::User);
    v.push(ConfigColumnKind::UserFs);
    v.push(ConfigColumnKind::UserReal);
    v.push(ConfigColumnKind::UserSaved);
    v.push(ConfigColumnKind::Username);
    v.push(ConfigColumnKind::VmData);
    v.push(ConfigColumnKind::VmExe);
    v.push(ConfigColumnKind::VmHwm);
    v.push(ConfigColumnKind::VmLib);
    v.push(ConfigColumnKind::VmLock);
    v.push(ConfigColumnKind::VmPeak);
    v.push(ConfigColumnKind::VmPin);
    v.push(ConfigColumnKind::VmPte);
    v.push(ConfigColumnKind::VmRss);
    v.push(ConfigColumnKind::VmSize);
    v.push(ConfigColumnKind::VmStack);
    v.push(ConfigColumnKind::VmSwap);
    v.push(ConfigColumnKind::Wchan);
    v.push(ConfigColumnKind::WriteBytes);
    proof {
        assert(v@ =~= all_kinds());
    }
    v
}

/// Every kind occurs in `all_kinds`.
pub proof fn lemma_all_kinds_complete(k: ConfigColumnKind)
    ensures
        all_kinds().contains(k),
{
    match k {
        ConfigColumnKind::Command => assert(all_kinds()[0] == ConfigColumnKind::Command),
        ConfigColumnKind::ContextSw => assert(all_kinds()[1] == ConfigColumnKind::ContextSw),
        ConfigColumnKind::CpuTime => assert(all_kinds()[2] == ConfigColumnKind::CpuTime),
        ConfigColumnKind::Docker => assert(all_kinds()[3] == ConfigColumnKind::Docker),
        ConfigColumnKind::Eip => assert(all_kinds()[4] == ConfigColumnKind::Eip),
        ConfigColumnKind::Esp => assert(all_kinds()[5] == ConfigColumnKind::Esp),
        ConfigColumnKind::Gid => assert(all_kinds()[6] == ConfigColumnKind::Gid),
        ConfigColumnKind::GidFs => assert(all_kinds()[7] == ConfigColumnKind::GidFs),
        ConfigColumnKind::GidReal => assert(all_kinds()[8] == ConfigColumnKind::GidReal),
        ConfigColumnKind::GidSaved => assert(all_kinds()[9] == ConfigColumnKind::GidSaved),
        ConfigColumnKind::Group => assert(all_kinds()[10] == ConfigColumnKind::Group),
        ConfigColumnKind::GroupFs => assert(all_kinds()[11] == ConfigColumnKind::GroupFs),
        ConfigColumnKind::GroupReal => assert(all_kinds()[12] == ConfigColumnKind::GroupReal),
        ConfigColumnKind::GroupSaved => assert(all_kinds()[13] == ConfigColumnKind::GroupSaved),
        ConfigColumnKind::MajFlt => assert(all_kinds()[14] == ConfigColumnKind::MajFlt),
        ConfigColumnKind::MinFlt => assert(all_kinds()[15] == ConfigColumnKind::MinFlt),
        ConfigColumnKind::Nice => assert(all_kinds()[16] == ConfigColumnKind::Nice),
        ConfigColumnKind::Pid => assert(all_kinds()[17] == ConfigColumnKind::Pid),
        ConfigColumnKind::Policy => assert(all_kinds()[18] == ConfigColumnKind::Policy),
        ConfigColumnKind::Ppid => assert(all_kinds()[19] == ConfigColumnKind::Ppid),
        ConfigColumnKind::Priority => assert(all_kinds()[20] == ConfigColumnKind::Priority),
        ConfigColumnKind::Processor => assert(all_kinds()[21] == ConfigColumnKind::Processor),
        ConfigColumnKind::ReadBytes => assert(all_kinds()[22] == ConfigColumnKind::ReadBytes),
        ConfigColumnKind::RtPriority => assert(all_kinds()[23] == ConfigColumnKind::RtPriority),
        ConfigColumnKind::Separator => assert(all_kinds()[24] == ConfigColumnKind::Separator),
        ConfigColumnKind::ShdPnd => assert(all_kinds()[25] == ConfigColumnKind::ShdPnd),
        ConfigColumnKind::Slot => assert(all_kinds()[26] == ConfigColumnKind::Slot),
        ConfigColumnKind::SigBlk => assert(all_kinds()[27] == ConfigColumnKind::SigBlk),
        ConfigColumnKind::SigCgt => assert(all_kinds()[28] == ConfigColumnKind::SigCgt),
        ConfigColumnKind::SigIgn => assert(all_kinds()[29] == ConfigColumnKind::SigIgn),
        ConfigColumnKind::SigPnd => assert(all_kinds()[30] == ConfigColumnKind::SigPnd),
        ConfigColumnKind::Ssb => assert(all_kinds()[31] == ConfigColumnKind::Ssb),
        ConfigColumnKind::StartTime => assert(all_kinds()[32] == ConfigColumnKind::StartTime),
        ConfigColumnKind::State => assert(all_kinds()[33] == ConfigColumnKind::State),
        ConfigColumnKind::TcpPort => assert(all_kinds()[34] == ConfigColumnKind::TcpPort),
        ConfigColumnKind::Threads => assert(all_kinds()[35] == ConfigColumnKind::Threads),
        ConfigColumnKind::Tty => assert(all_kinds()[36] == ConfigColumnKind::Tty),
        ConfigColumnKind::UdpPort => assert(all_kinds()[37] == ConfigColumnKind::UdpPort),
        ConfigColumnKind::Uid => assert(all_kinds()[38] == ConfigColumnKind::Uid),
        ConfigColumnKind::UidFs => assert(all_kinds()[39] == ConfigColumnKind::UidFs),
        ConfigColumnKind::UidReal => assert(all_kinds()[40] == ConfigColumnKind::UidReal),
        ConfigColumnKind::UidSaved => assert(all_kinds()[41] == ConfigColumnKind::UidSaved),
        ConfigColumnKind::UsageCpu => assert(all_kinds()[42] == ConfigColumnKind::UsageCpu),
        ConfigColumnKind::UsageMem => assert(all_kinds()[43] == ConfigColumnKind::UsageMem),
        ConfigColumnKind::User => assert(all_kinds()[44] == ConfigColumnKind::User),
        ConfigColumnKind::UserFs => assert(all_kinds()[45] == ConfigColumnKind::UserFs),
        ConfigColumnKind::UserReal => assert(all_kinds()[46] == ConfigColumnKind::UserReal),
        ConfigColumnKind::UserSaved => assert(all_kinds()[47] == ConfigColumnKind::UserSaved),
        ConfigColumnKind::Username => assert(all_kinds()[48] == ConfigColumnKind::Username),
        ConfigColumnKind::VmData => assert(all_kinds()[49] == ConfigColumnKind::VmData),
        ConfigColumnKind::VmExe => assert(all_kinds()[50] == ConfigColumnKind::VmExe),
        ConfigColumnKind::VmHwm => assert(all_kinds()[51] == ConfigColumnKind::VmHwm),
        ConfigColumnKind::VmLib => assert(all_kinds()[52] == ConfigColumnKind::VmLib),
        ConfigColumnKind::VmLock => assert(all_kinds()[53] == ConfigColumnKind::VmLock),
        ConfigColumnKind::VmPeak => assert(all_kinds()[54] == ConfigColumnKind::VmPeak),
        ConfigColumnKind::VmPin => assert(all_kinds()[55] == ConfigColumnKind::VmPin),
        ConfigColumnKind::VmPte => assert(all_kinds()[56] == ConfigColumnKind::VmPte),
        ConfigColumnKind::VmRss => assert(all_kinds()[57] == ConfigColumnKind::VmRss),
        ConfigColumnKind::VmSize => assert(all_kinds()[58] == ConfigColumnKind::VmSize),
        ConfigColumnKind::VmStack => assert(all_kinds()[59] == ConfigColumnKind::VmStack),
        ConfigColumnKind::VmSwap => assert(all_kinds()[60] == ConfigColumnKind::VmSwap),
        ConfigColumnKind::Wchan => assert(all_kinds()[61] == ConfigColumnKind::Wchan),
        ConfigColumnKind::WriteBytes => assert(all_kinds()[62] == ConfigColumnKind::WriteBytes),
    }
}

/// A numeric fingerprint of the lowercased name of each kind: its length
/// and four of its characters, packed into one integer.  The fingerprints
/// are pairwise distinct, which is how the crate proves that catalog names
/// are unique even ignoring case.
pub open spec fn kind_fid(k: ConfigColumnKind) -> int {
    match k {
        ConfigColumnKind::Command => 2088498916,
        ConfigColumnKind::ContextSw => 2625369975,
        ConfigColumnKind::CpuTime => 2088516325,
        ConfigColumnKind::Docker => 1822159346,
        ConfigColumnKind::Eip => 1018853488,
        ConfigColumnKind::Esp => 1019017328,
        ConfigColumnKind::Gid => 1023046244,
        ConfigColumnKind::GidFs => 1559917171,
        ConfigColumnKind::GidReal => 2096788076,
        ConfigColumnKind::GidSaved => 2365223524,
        ConfigColumnKind::Group => 1560066032,
        ConfigColumnKind::GroupFs => 2096936947,
        ConfigColumnKind::GroupReal => 2633807852,
        ConfigColumnKind::GroupSaved => 2902243300,
        ConfigColumnKind::MajFlt => 1840805236,
        ConfigColumnKind::MinFlt => 1840936820,
        ConfigColumnKind::Nice => 1306161637,
        ConfigColumnKind::Pid => 1041920612,
        ConfigColumnKind::Policy => 1847326329,
        ConfigColumnKind::Ppid => 1310471396,
        ConfigColumnKind::Priority => 2384246009,
        ConfigColumnKind::Processor => 2652682226,
        ConfigColumnKind::ReadBytes => 2656661747,
        ConfigColumnKind::RtPriority => 2925344889,
        ConfigColumnKind::Separator => 2658760818,
        ConfigColumnKind::ShdPnd => 1853502052,
        ConfigColumnKind::Slot => 1316698100,
        ConfigColumnKind::SigBlk => 1853518827,
        ConfigColumnKind::SigCgt => 1853518836,
        ConfigColumnKind::SigIgn => 1853518830,
        ConfigColumnKind::SigPnd => 1853518820,
        ConfigColumnKind::Ssb => 1048375650,
        ConfigColumnKind::StartTime => 2659004645,
        ConfigColumnKind::State => 1585262821,
        ConfigColumnKind::TcpPort => 2123954292,
        ConfigColumnKind::Threads => 2124036467,
        ConfigColumnKind::Tty => 1050492153,
        ConfigColumnKind::UdpPort => 2126067828,
        ConfigColumnKind::Uid => 1052406372,
        ConfigColumnKind::UidFs => 1589277299,
        ConfigColumnKind::UidReal => 2126148204,
        ConfigColumnKind::UidSaved => 2394583652,
        ConfigColumnKind::UsageCpu => 2394747125,
        ConfigColumnKind::UsageMem => 2394747117,
        ConfigColumnKind::User => 1321005810,
        ConfigColumnKind::UserFs => 1857876723,
        ConfigColumnKind::UserReal => 2394747628,
        ConfigColumnKind::UserSaved => 2663183076,
        ConfigColumnKind::Username => 2394747621,
        ConfigColumnKind::VmData => 1859875425,
        ConfigColumnKind::VmExe => 1591440101,
        ConfigColumnKind::VmHwm => 1591440493,
        ConfigColumnKind::VmLib => 1591440994,
        ConfigColumnKind::VmLock => 1859876459,
        ConfigColumnKind::VmPeak => 1859876971,
        ConfigColumnKind::VmPin => 1591441518,
        ConfigColumnKind::VmPte => 1591441509,
        ConfigColumnKind::VmRss => 1591441779,
        ConfigColumnKind::VmSize => 1859877349,
        ConfigColumnKind::VmStack => 2128312811,
        ConfigColumnKind::VmSwap => 1859877360,
        ConfigColumnKind::Wchan => 1593373806,
        ConfigColumnKind::WriteBytes => 2935796979,
    }
}

/// The same packing, computed from a name instead of a kind.
pub open spec fn fid_of_name(s: Seq<char>) -> int
    recommends
        s.len() >= 3,
{
    s.len() * 0x10000000 + (s[0] as int) * 0x200000 + (s[1] as int) * 0x4000 + (s[2] as int)
        * 0x80 + (s[s.len() - 1] as int)
}

/// The inverse of `kind_fid`.
pub open spec fn kind_unfid(i: int) -> Option<ConfigColumnKind> {
    if i == 0 {
        None
    } else if i == 2088498916 {
        Some(ConfigColumnKind::Command)
    } else if i == 2625369975 {
        Some(ConfigColumnKind::ContextSw)
    } else if i == 2088516325 {
        Some(ConfigColumnKind::CpuTime)
    } else if i == 1822159346 {
        Some(ConfigColumnKind::Docker)
    } else if i == 1018853488 {
        Some(ConfigColumnKind::Eip)
    } else if i == 1019017328 {
        Some(ConfigColumnKind::Esp)
    } else if i == 1023046244 {
        Some(ConfigColumnKind::Gid)
    } else if i == 1559917171 {
        Some(ConfigColumnKind::GidFs)
    } else if i == 2096788076 {
        Some(ConfigColumnKind::GidReal)
    } else if i == 2365223524 {
        Some(ConfigColumnKind::GidSaved)
    } else if i == 1560066032 {
        Some(ConfigColumnKind::Group)
    } else if i == 2096936947 {
        Some(ConfigColumnKind::GroupFs)
    } else if i == 2633807852 {
        Some(ConfigColumnKind::GroupReal)
    } else if i == 2902243300 {
        Some(ConfigColumnKind::GroupSaved)
    } else if i == 1840805236 {
        Some(ConfigColumnKind::MajFlt)
    } else if i == 1840936820 {
        Some(ConfigColumnKind::MinFlt)
    } else if i == 1306161637 {
        Some(ConfigColumnKind::Nice)
    } else if i == 1041920612 {
        Some(ConfigColumnKind::Pid)
    } else if i == 1847326329 {
        Some(ConfigColumnKind::Policy)
    } else if i == 1310471396 {
        Some(ConfigColumnKind::Ppid)
    } else if i == 2384246009 {
        Some(ConfigColumnKind::Priority)
    } else if i == 2652682226 {
        Some(ConfigColumnKind::Processor)
    } else if i == 2656661747 {
        Some(ConfigColumnKind::ReadBytes)
    } else if i == 2925344889 {
        Some(ConfigColumnKind::RtPriority)
    } else if i == 2658760818 {
        Some(ConfigColumnKind::Separator)
    } else if i == 1853502052 {
        Some(ConfigColumnKind::ShdPnd)
    } else if i == 1316698100 {
        Some(ConfigColumnKind::Slot)
    } else if i == 1853518827 {
        Some(ConfigColumnKind::SigBlk)
    } else if i == 1853518836 {
        Some(ConfigColumnKind::SigCgt)
    } else if i == 1853518830 {
        Some(ConfigColumnKind::SigIgn)
    } else if i == 1853518820 {
        Some(ConfigColumnKind::SigPnd)
    } else if i == 1048375650 {
        Some(ConfigColumnKind::Ssb)
    } else if i == 2659004645 {
        Some(ConfigColumnKind::StartTime)
    } else if i == 1585262821 {
        Some(ConfigColumnKind::State)
    } else if i == 2123954292 {
        Some(ConfigColumnKind::TcpPort)
    } else if i == 2124036467 {
        Some(ConfigColumnKind::Threads)
    } else if i == 1050492153 {
        Some(ConfigColumnKind::Tty)
    } else if i == 2126067828 {
        Some(ConfigColumnKind::UdpPort)
    } else if i == 1052406372 {
        Some(ConfigColumnKind::Uid)
    } else if i == 1589277299 {
        Some(ConfigColumnKind::UidFs)
    } else if i == 2126148204 {
        Some(ConfigColumnKind::UidReal)
    } else if i == 2394583652 {
        Some(ConfigColumnKind::UidSaved)
    } else if i == 2394747125 {
        Some(ConfigColumnKind::UsageCpu)
    } else if i == 2394747117 {
        Some(ConfigColumnKind::UsageMem)
    } else if i == 1321005810 {
        Some(ConfigColumnKind::User)
    } else if i == 1857876723 {
        Some(ConfigColumnKind::UserFs)
    } else if i == 2394747628 {
        Some(ConfigColumnKind::UserReal)
    } else if i == 2663183076 {
        Some(ConfigColumnKind::UserSaved)
    } else if i == 2394747621 {
        Some(ConfigColumnKind::Username)
    } else if i == 1859875425 {
        Some(ConfigColumnKind::VmData)
    } else if i == 1591440101 {
        Some(ConfigColumnKind::VmExe)
    } else if i == 1591440493 {
        Some(ConfigColumnKind::VmHwm)
    } else if i == 1591440994 {
        Some(ConfigColumnKind::VmLib)
    } else if i == 1859876459 {
        Some(ConfigColumnKind::VmLock)
    } else if i == 1859876971 {
        Some(ConfigColumnKind::VmPeak)
    } else if i == 1591441518 {
        Some(ConfigColumnKind::VmPin)
    } else if i == 1591441509 {
        Some(ConfigColumnKind::VmPte)
    } else if i == 1591441779 {
        Some(ConfigColumnKind::VmRss)
    } else if i == 1859877349 {
        Some(ConfigColumnKind::VmSize)
    } else if i == 2128312811 {
        Some(ConfigColumnKind::VmStack)
    } else if i == 1859877360 {
        Some(ConfigColumnKind::VmSwap)
    } else if i == 1593373806 {
        Some(ConfigColumnKind::Wchan)
    } else if i == 2935796979 {
        Some(ConfigColumnKind::WriteBytes)
    } else {
        None
    }
}

proof fn lemma_kind_unfid_inverse(k: ConfigColumnKind)
    ensures
        kind_unfid(kind_fid(k)) == Some(k),
{
}

proof fn lemma_kind_fid_matches(k: ConfigColumnKind)
    ensures
        kind_fid(k) == fid_of_name(lower_seq(kind_name_spec(k))),
{
    match k {
        ConfigColumnKind::Command => {
            reveal_strlit("Command");
        },
        ConfigColumnKind::ContextSw => {
            reveal_strlit("ContextSw");
        },
        ConfigColumnKind::CpuTime => {
            reveal_strlit("CpuTime");
        },
        ConfigColumnKind::Docker => {
            reveal_strlit("Docker");
        },
        ConfigColumnKind::Eip => {
            reveal_strlit("Eip");
        },
        ConfigColumnKind::Esp => {
            reveal_strlit("Esp");
        },
        ConfigColumnKind::Gid => {
            reveal_strlit("Gid");
        },
        ConfigColumnKind::GidFs => {
            reveal_strlit("GidFs");
        },
        ConfigColumnKind::GidReal => {
            reveal_strlit("GidReal");
        },
        ConfigColumnKind::GidSaved => {
            reveal_strlit("GidSaved");
        },
        ConfigColumnKind::Group => {
            reveal_strlit("Group");
        },
        ConfigColumnKind::GroupFs => {
            reveal_strlit("GroupFs");
        },
        ConfigColumnKind::GroupReal => {
            reveal_strlit("GroupReal");
        },
        ConfigColumnKind::GroupSaved => {
            reveal_strlit("GroupSaved");
        },
        ConfigColumnKind::MajFlt => {
            reveal_strlit("MajFlt");
        },
        ConfigColumnKind::MinFlt => {
            reveal_strlit("MinFlt");
        },
        ConfigColumnKind::Nice => {
            reveal_strlit("Nice");
        },
        ConfigColumnKind::Pid => {
            reveal_strlit("Pid");
        },
        ConfigColumnKind::Policy => {
            reveal_strlit("Policy");
        },
        ConfigColumnKind::Ppid => {
            reveal_strlit("Ppid");
        },
        ConfigColumnKind::Priority => {
            reveal_strlit("Priority");
        },
        ConfigColumnKind::Processor => {
            reveal_strlit("Processor");
        },
        ConfigColumnKind::ReadBytes => {
            reveal_strlit("ReadBytes");
        },
        ConfigColumnKind::RtPriority => {
            reveal_strlit("RtPriority");
        },
        ConfigColumnKind::Separator => {
            reveal_strlit("Separator");
        },
        ConfigColumnKind::ShdPnd => {
            reveal_strlit("ShdPnd");
        },
        ConfigColumnKind::Slot => {
            reveal_strlit("Slot");
        },
        ConfigColumnKind::SigBlk => {
            reveal_strlit("SigBlk");
        },
        ConfigColumnKind::SigCgt => {
            reveal_strlit("SigCgt");
        },
        ConfigColumnKind::SigIgn => {
            reveal_strlit("SigIgn");
        },
        ConfigColumnKind::SigPnd => {
            reveal_strlit("SigPnd");
        },
        ConfigColumnKind::Ssb => {
            reveal_strlit("Ssb");
        },
        ConfigColumnKind::StartTime => {
            reveal_strlit("StartTime");
        },
        ConfigColumnKind::State => {
            reveal_strlit("State");
        },
        ConfigColumnKind::TcpPort => {
            reveal_strlit("TcpPort");
        },
        ConfigColumnKind::Threads => {
            reveal_strlit("Threads");
        },
        ConfigColumnKind::Tty => {
            reveal_strlit("Tty");
        },
        ConfigColumnKind::UdpPort => {
            reveal_strlit("UdpPort");
        },
        ConfigColumnKind::Uid => {
            reveal_strlit("Uid");
        },
        ConfigColumnKind::UidFs => {
            reveal_strlit("UidFs");
        },
        ConfigColumnKind::UidReal => {
            reveal_strlit("UidReal");
        },
        ConfigColumnKind::UidSaved => {
            reveal_strlit("UidSaved");
        },
        ConfigColumnKind::UsageCpu => {
            reveal_strlit("UsageCpu");
        },
        ConfigColumnKind::UsageMem => {
            reveal_strlit("UsageMem");
        },
        ConfigColumnKind::User => {
            reveal_strlit("User");
        },
        ConfigColumnKind::UserFs => {
            reveal_strlit("UserFs");
        },
        ConfigColumnKind::UserReal => {
            reveal_strlit("UserReal");
        },
        ConfigColumnKind::UserSaved => {
            reveal_strlit("UserSaved");
        },
        ConfigColumnKind::Username => {
            reveal_strlit("Username");
        },
        ConfigColumnKind::VmData => {
            reveal_strlit("VmData");
        },
        ConfigColumnKind::VmExe => {
            reveal_strlit("VmExe");
        },
        ConfigColumnKind::VmHwm => {
            reveal_strlit("VmHwm");
        },
        ConfigColumnKind::VmLib => {
            reveal_strlit("VmLib");
        },
        ConfigColumnKind::VmLock => {
            reveal_strlit("VmLock");
        },
        ConfigColumnKind::VmPeak => {
            reveal_strlit("VmPeak");
        },
        ConfigColumnKind::VmPin => {
            reveal_strlit("VmPin");
        },
        ConfigColumnKind::VmPte => {
            reveal_strlit("VmPte");
        },
        ConfigColumnKind::VmRss => {
            reveal_strlit("VmRss");
        },
        ConfigColumnKind::VmSize => {
            reveal_strlit("VmSize");
        },
        ConfigColumnKind::VmStack => {
            reveal_strlit("VmStack");
        },
        ConfigColumnKind::VmSwap => {
            reveal_strlit("VmSwap");
        },
        ConfigColumnKind::Wchan => {
            reveal_strlit("Wchan");
        },
        ConfigColumnKind::WriteBytes => {
            reveal_strlit("WriteBytes");
        },
    }
}

/// Catalog names are unique, even ignoring ASCII case: two kinds with the
/// same lowercased name are the same kind.
pub proof fn lemma_kind_names_ci_injective(k1: ConfigColumnKind, k2: ConfigColumnKind)
    requires
        lower_seq(kind_name_spec(k1)) == lower_seq(kind_name_spec(k2)),
    ensures
        k1 == k2,
{
    lemma_kind_fid_matches(k1);
    lemma_kind_fid_matches(k2);
    lemma_kind_unfid_inverse(k1);
    lemma_kind_unfid_inverse(k2);
    assert(kind_fid(k1) == kind_fid(k2));
}

/// The name and the description of every active kind are non-empty.
pub proof fn lemma_catalog_metadata_nonempty(k: ConfigColumnKind)
    ensures
        kind_name_spec(k).len() > 0,
        kind_description_spec(k).len() > 0,
{
    match k {
        ConfigColumnKind::Command => {
            reveal_strlit("Command");
            reveal_strlit("Command with all arguments");
        },
        ConfigColumnKind::ContextSw => {
            reveal_strlit("ContextSw");
            reveal_strlit("Context switch count");
        },
        ConfigColumnKind::CpuTime => {
            reveal_strlit("CpuTime");
            reveal_strlit("Cumulative CPU time");
        },
        ConfigColumnKind::Docker => {
            reveal_strlit("Docker");
            reveal_strlit("Docker container name");
        },
        ConfigColumnKind::Eip => {
            reveal_strlit("Eip");
            reveal_strlit("Instruction pointer");
        },
        ConfigColumnKind::Esp => {
            reveal_strlit("Esp");
            reveal_strlit("Stack pointer");
        },
        ConfigColumnKind::Gid => {
            reveal_strlit("Gid");
            reveal_strlit("Group ID");
        },
        ConfigColumnKind::GidFs => {
            reveal_strlit("GidFs");
            reveal_strlit("File system group ID");
        },
        ConfigColumnKind::GidReal => {
            reveal_strlit("GidReal");
            reveal_strlit("Real group ID");
        },
        ConfigColumnKind::GidSaved => {
            reveal_strlit("GidSaved");
            reveal_strlit("Saved group ID");
        },
        ConfigColumnKind::Group => {
            reveal_strlit("Group");
            reveal_strlit("Group name");
        },
        ConfigColumnKind::GroupFs => {
            reveal_strlit("GroupFs");
            reveal_strlit("File system group name");
        },
        ConfigColumnKind::GroupReal => {
            reveal_strlit("GroupReal");
            reveal_strlit("Real group name");
        },
        ConfigColumnKind::GroupSaved => {
            reveal_strlit("GroupSaved");
            reveal_strlit("Saved group name");
        },
        ConfigColumnKind::MajFlt => {
            reveal_strlit("MajFlt");
            reveal_strlit("Major page fault count");
        },
        ConfigColumnKind::MinFlt => {
            reveal_strlit("MinFlt");
            reveal_strlit("Minor page fault count");
        },
        ConfigColumnKind::Nice => {
            reveal_strlit("Nice");
            reveal_strlit("Nice value");
        },
        ConfigColumnKind::Pid => {
            reveal_strlit("Pid");
            reveal_strlit("Process ID");
        },
        ConfigColumnKind::Policy => {
            reveal_strlit("Policy");
            reveal_strlit("Scheduling policy");
        },
        ConfigColumnKind::Ppid => {
            reveal_strlit("Ppid");
            reveal_strlit("Parent process ID");
        },
        ConfigColumnKind::Priority => {
            reveal_strlit("Priority");
            reveal_strlit("Priority");
        },
        ConfigColumnKind::Processor => {
            reveal_strlit("Processor");
            reveal_strlit("Currently assigned processor");
        },
        ConfigColumnKind::ReadBytes => {
            reveal_strlit("ReadBytes");
            reveal_strlit("Read bytes from storage");
        },
        ConfigColumnKind::RtPriority => {
            reveal_strlit("RtPriority");
            reveal_strlit("Real-time priority");
        },
        ConfigColumnKind::Separator => {
            reveal_strlit("Separator");
            reveal_strlit("Show | for column separation");
        },
        ConfigColumnKind::ShdPnd => {
            reveal_strlit("ShdPnd");
            reveal_strlit("Pending signal mask for process");
        },
        ConfigColumnKind::Slot => {
            reveal_strlit("Slot");
            reveal_strlit("Slot for `--insert` option");
        },
        ConfigColumnKind::SigBlk => {
            reveal_strlit("SigBlk");
            reveal_strlit("Blocked signal mask");
        },
        ConfigColumnKind::SigCgt => {
            reveal_strlit("SigCgt");
            reveal_strlit("Caught signal mask");
        },
        ConfigColumnKind::SigIgn => {
            reveal_strlit("SigIgn");
            reveal_strlit("Ignored signal mask");
        },
        ConfigColumnKind::SigPnd => {
            reveal_strlit("SigPnd");
            reveal_strlit("Pending signal mask for thread");
        },
        ConfigColumnKind::Ssb => {
            reveal_strlit("Ssb");
            reveal_strlit("Speculative store bypass status");
        },
        ConfigColumnKind::StartTime => {
            reveal_strlit("StartTime");
            reveal_strlit("Starting time");
        },
        ConfigColumnKind::State => {
            reveal_strlit("State");
            reveal_strlit("Process state");
        },
        ConfigColumnKind::TcpPort => {
            reveal_strlit("TcpPort");
            reveal_strlit("Bound TCP ports");
        },
        ConfigColumnKind::Threads => {
            reveal_strlit("Threads");
            reveal_strlit("Thread count");
        },
        ConfigColumnKind::Tty => {
            reveal_strlit("Tty");
            reveal_strlit("Controlling TTY");
        },
        ConfigColumnKind::UdpPort => {
            reveal_strlit("UdpPort");
            reveal_strlit("Bound UDP ports");
        },
        ConfigColumnKind::Uid => {
            reveal_strlit("Uid");
            reveal_strlit("User ID");
        },
        ConfigColumnKind::UidFs => {
            reveal_strlit("UidFs");
            reveal_strlit("File system user ID");
        },
        ConfigColumnKind::UidReal => {
            reveal_strlit("UidReal");
            reveal_strlit("Real user ID");
        },
        ConfigColumnKind::UidSaved => {
            reveal_strlit("UidSaved");
            reveal_strlit("Saved user ID");
        },
        ConfigColumnKind::UsageCpu => {
            reveal_strlit("UsageCpu");
            reveal_strlit("CPU utilization");
        },
        ConfigColumnKind::UsageMem => {
            reveal_strlit("UsageMem");
            reveal_strlit("Memory utilization");
        },
        ConfigColumnKind::User => {
            reveal_strlit("User");
            reveal_strlit("User name");
        },
        ConfigColumnKind::UserFs => {
            reveal_strlit("UserFs");
            reveal_strlit("File system user name");
        },
        ConfigColumnKind::UserReal => {
            reveal_strlit("UserReal");
            reveal_strlit("Real user name");
        },
        ConfigColumnKind::UserSaved => {
            reveal_strlit("UserSaved");
            reveal_strlit("Saved user name");
        },
        ConfigColumnKind::Username => {
            reveal_strlit("Username");
            reveal_strlit("User name");
        },
        ConfigColumnKind::VmData => {
            reveal_strlit("VmData");
            reveal_strlit("Data size");
        },
        ConfigColumnKind::VmExe => {
            reveal_strlit("VmExe");
            reveal_strlit("Text segments size");
        },
        ConfigColumnKind::VmHwm => {
            reveal_strlit("VmHwm");
            reveal_strlit("Peak resident set size");
        },
        ConfigColumnKind::VmLib => {
            reveal_strlit("VmLib");
            reveal_strlit("Library code size");
        },
        ConfigColumnKind::VmLock => {
            reveal_strlit("VmLock");
            reveal_strlit("Locked memory size");
        },
        ConfigColumnKind::VmPeak => {
            reveal_strlit("VmPeak");
            reveal_strlit("Peak virtual memory size");
        },
        ConfigColumnKind::VmPin => {
            reveal_strlit("VmPin");
            reveal_strlit("Pinned memory size");
        },
        ConfigColumnKind::VmPte => {
            reveal_strlit("VmPte");
            reveal_strlit("Page table entries size");
        },
        ConfigColumnKind::VmRss => {
            reveal_strlit("VmRss");
            reveal_strlit("Resident set size");
        },
        ConfigColumnKind::VmSize => {
            reveal_strlit("VmSize");
            reveal_strlit("Physical page size");
        },
        ConfigColumnKind::VmStack => {
            reveal_strlit("VmStack");
            reveal_strlit("Stack size");
        },
        ConfigColumnKind::VmSwap => {
            reveal_strlit("VmSwap");
            reveal_strlit("Swapped-out virtual memory size");
        },
        ConfigColumnKind::Wchan => {
            reveal_strlit("Wchan");
            reveal_strlit("Process sleeping kernel function");
        },
        ConfigColumnKind::WriteBytes => {
            reveal_strlit("WriteBytes");
            reveal_strlit("Write bytes to storage");
        },
    }
}

/// The kind whose name is exactly `s`, if any.  Document spellings are
/// matched against the exact catalog spelling.
pub open spec fn parse_kind_spec(s: Seq<char>) -> Option<ConfigColumnKind> {
    if exists|k: ConfigColumnKind| kind_name_spec(k) == s {
        Some(choose|k: ConfigColumnKind| kind_name_spec(k) == s)
    } else {
        None
    }
}

/// Parsing a kind's own name gives that kind back.
pub proof fn lemma_parse_kind_name(k: ConfigColumnKind)
    ensures
        parse_kind_spec(kind_name_spec(k)) == Some(k),
{
    assert(exists|k2: ConfigColumnKind| kind_name_spec(k2) == kind_name_spec(k));
    let k2 = choose|k2: ConfigColumnKind| kind_name_spec(k2) == kind_name_spec(k);
    assert(lower_seq(kind_name_spec(k2)) == lower_seq(kind_name_spec(k)));
    lemma_kind_names_ci_injective(k2, k);
}

/// Executable counterpart of `parse_kind_spec`.
pub fn parse_kind_name(s: &str) -> (r: Option<ConfigColumnKind>)
    ensures
        r == parse_kind_spec(s@),
{
    let kinds = all_kinds_vec();
    let mut i: usize = 0;
    while i < kinds.len()
        invariant
            kinds@ == all_kinds(),
            0 <= i <= kinds.len(),
            forall|j: int| 0 <= j < i ==> kind_name_spec(all_kinds()[j]) != s@,
        decreases kinds.len() - i,
    {
        let k = kinds[i];
        if str_eq(kind_name(&k), s) {
            proof {
                let k2 = choose|k2: ConfigColumnKind| kind_name_spec(k2) == s@;
                assert(lower_seq(kind_name_spec(k2)) == lower_seq(kind_name_spec(k)));
                lemma_kind_names_ci_injective(k2, k);
            }
            return Some(k);
        }
        i += 1;
    }
    proof {
        assert forall|k: ConfigColumnKind| kind_name_spec(k) != s@ by {
            lemma_all_kinds_complete(k);
            let j = choose|j: int| 0 <= j < all_kinds().len() && all_kinds()[j] == k;
            assert(kind_name_spec(all_kinds()[j]) != s@);
        }
    }
    None
}

} // verus!
