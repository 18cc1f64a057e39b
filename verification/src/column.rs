use vstd::prelude::*;

use crate::config::{Config, ConfigColumn, ConfigV};
use crate::kind::ConfigColumnKind;
use crate::style::{ConfigColumnAlign, ConfigColumnStyle};

verus! {

/// The realized column object behind one configured column: the closed
/// set of column implementations, selected by kind.  The Docker column
/// carries the daemon address it was built with, and the separator
/// pseudo-column carries its glyph; no other implementation needs
/// construction parameters.
#[derive(Clone, Debug, PartialEq)]
pub enum ColumnObject {
    Command,
    ContextSw,
    CpuTime,
    Docker { path: String },
    Eip,
    Esp,
    Gid,
    GidFs,
    GidReal,
    GidSaved,
    Group,
    GroupFs,
    GroupReal,
    GroupSaved,
    MajFlt,
    MinFlt,
    Nice,
    Pid,
    Policy,
    Ppid,
    Priority,
    Processor,
    ReadBytes,
    RtPriority,
    Separator { glyph: String },
    ShdPnd,
    Slot,
    SigBlk,
    SigCgt,
    SigIgn,
    SigPnd,
    Ssb,
    StartTime,
    State,
    TcpPort,
    Threads,
    Tty,
    UdpPort,
    Uid,
    UidFs,
    UidReal,
    UidSaved,
    UsageCpu,
    UsageMem,
    User,
    UserFs,
    UserReal,
    UserSaved,
    VmData,
    VmExe,
    VmHwm,
    VmLib,
    VmLock,
    VmPeak,
    VmPin,
    VmPte,
    VmRss,
    VmSize,
    VmStack,
    VmSwap,
    Wchan,
    WriteBytes,
}

/// Mathematical shape of a column object.
#[verifier::ext_equal]
pub ghost enum ColumnObjectV {
    Command,
    ContextSw,
    CpuTime,
    Docker { path: Seq<char> },
    Eip,
    Esp,
    Gid,
    GidFs,
    GidReal,
    GidSaved,
    Group,
    GroupFs,
    GroupReal,
    GroupSaved,
    MajFlt,
    MinFlt,
    Nice,
    Pid,
    Policy,
    Ppid,
    Priority,
    Processor,
    ReadBytes,
    RtPriority,
    Separator { glyph: Seq<char> },
    ShdPnd,
    Slot,
    SigBlk,
    SigCgt,
    SigIgn,
    SigPnd,
    Ssb,
    StartTime,
    State,
    TcpPort,
    Threads,
    Tty,
    UdpPort,
    Uid,
    UidFs,
    UidReal,
    UidSaved,
    UsageCpu,
    UsageMem,
    User,
    UserFs,
    UserReal,
    UserSaved,
    VmData,
    VmExe,
    VmHwm,
    VmLib,
    VmLock,
    VmPeak,
    VmPin,
    VmPte,
    VmRss,
    VmSize,
    VmStack,
    VmSwap,
    Wchan,
    WriteBytes,
}

impl View for ColumnObject {
    type V = ColumnObjectV;

    open spec fn view(&self) -> ColumnObjectV {
        match self {
            ColumnObject::Command => ColumnObjectV::Command,
            ColumnObject::ContextSw => ColumnObjectV::ContextSw,
            ColumnObject::CpuTime => ColumnObjectV::CpuTime,
            ColumnObject::Docker { path } => ColumnObjectV::Docker { path: path@ },
            ColumnObject::Eip => ColumnObjectV::Eip,
            ColumnObject::Esp => ColumnObjectV::Esp,
            ColumnObject::Gid => ColumnObjectV::Gid,
            ColumnObject::GidFs => ColumnObjectV::GidFs,
            ColumnObject::GidReal => ColumnObjectV::GidReal,
            ColumnObject::GidSaved => ColumnObjectV::GidSaved,
            ColumnObject::Group => ColumnObjectV::Group,
            ColumnObject::GroupFs => ColumnObjectV::GroupFs,
            ColumnObject::GroupReal => ColumnObjectV::GroupReal,
            ColumnObject::GroupSaved => ColumnObjectV::GroupSaved,
            ColumnObject::MajFlt => ColumnObjectV::MajFlt,
            ColumnObject::MinFlt => ColumnObjectV::MinFlt,
            ColumnObject::Nice => ColumnObjectV::Nice,
            ColumnObject::Pid => ColumnObjectV::Pid,
            ColumnObject::Policy => ColumnObjectV::Policy,
            ColumnObject::Ppid => ColumnObjectV::Ppid,
            ColumnObject::Priority => ColumnObjectV::Priority,
            ColumnObject::Processor => ColumnObjectV::Processor,
            ColumnObject::ReadBytes => ColumnObjectV::ReadBytes,
            ColumnObject::RtPriority => ColumnObjectV::RtPriority,
            ColumnObject::Separator { glyph } => ColumnObjectV::Separator { glyph: glyph@ },
            ColumnObject::ShdPnd => ColumnObjectV::ShdPnd,
            ColumnObject::Slot => ColumnObjectV::Slot,
            ColumnObject::SigBlk => ColumnObjectV::SigBlk,
            ColumnObject::SigCgt => ColumnObjectV::SigCgt,
            ColumnObject::SigIgn => ColumnObjectV::SigIgn,
            ColumnObject::SigPnd => ColumnObjectV::SigPnd,
            ColumnObject::Ssb => ColumnObjectV::Ssb,
            ColumnObject::StartTime => ColumnObjectV::StartTime,
            ColumnObject::State => ColumnObjectV::State,
            ColumnObject::TcpPort => ColumnObjectV::TcpPort,
            ColumnObject::Threads => ColumnObjectV::Threads,
            ColumnObject::Tty => ColumnObjectV::Tty,
            ColumnObject::UdpPort => ColumnObjectV::UdpPort,
            ColumnObject::Uid => ColumnObjectV::Uid,
            ColumnObject::UidFs => ColumnObjectV::UidFs,
            ColumnObject::UidReal => ColumnObjectV::UidReal,
            ColumnObject::UidSaved => ColumnObjectV::UidSaved,
            ColumnObject::UsageCpu => ColumnObjectV::UsageCpu,
            ColumnObject::UsageMem => ColumnObjectV::UsageMem,
            ColumnObject::User => ColumnObjectV::User,
            ColumnObject::UserFs => ColumnObjectV::UserFs,
            ColumnObject::UserReal => ColumnObjectV::UserReal,
            ColumnObject::UserSaved => ColumnObjectV::UserSaved,
            ColumnObject::VmData => ColumnObjectV::VmData,
            ColumnObject::VmExe => ColumnObjectV::VmExe,
            ColumnObject::VmHwm => ColumnObjectV::VmHwm,
            ColumnObject::VmLib => ColumnObjectV::VmLib,
            ColumnObject::VmLock => ColumnObjectV::VmLock,
            ColumnObject::VmPeak => ColumnObjectV::VmPeak,
            ColumnObject::VmPin => ColumnObjectV::VmPin,
            ColumnObject::VmPte => ColumnObjectV::VmPte,
            ColumnObject::VmRss => ColumnObjectV::VmRss,
            ColumnObject::VmSize => ColumnObjectV::VmSize,
            ColumnObject::VmStack => ColumnObjectV::VmStack,
            ColumnObject::VmSwap => ColumnObjectV::VmSwap,
            ColumnObject::Wchan => ColumnObjectV::Wchan,
            ColumnObject::WriteBytes => ColumnObjectV::WriteBytes,
        }
    }
}

/// The column object the factory builds for a kind.  The `User` and
/// `Username` kinds intentionally share one underlying object.
pub open spec fn gen_column_spec(
    kind: ConfigColumnKind,
    docker_path: Seq<char>,
    separator: Seq<char>,
) -> ColumnObjectV {
    match kind {
        ConfigColumnKind::Command => ColumnObjectV::Command,
        ConfigColumnKind::ContextSw => ColumnObjectV::ContextSw,
        ConfigColumnKind::CpuTime => ColumnObjectV::CpuTime,
        ConfigColumnKind::Docker => ColumnObjectV::Docker { path: docker_path },
        ConfigColumnKind::Eip => ColumnObjectV::Eip,
        ConfigColumnKind::Esp => ColumnObjectV::Esp,
        ConfigColumnKind::Gid => ColumnObjectV::Gid,
        ConfigColumnKind::GidFs => ColumnObjectV::GidFs,
        ConfigColumnKind::GidReal => ColumnObjectV::GidReal,
        ConfigColumnKind::GidSaved => ColumnObjectV::GidSaved,
        ConfigColumnKind::Group => ColumnObjectV::Group,
        ConfigColumnKind::GroupFs => ColumnObjectV::GroupFs,
        ConfigColumnKind::GroupReal => ColumnObjectV::GroupReal,
        ConfigColumnKind::GroupSaved => ColumnObjectV::GroupSaved,
        ConfigColumnKind::MajFlt => ColumnObjectV::MajFlt,
        ConfigColumnKind::MinFlt => ColumnObjectV::MinFlt,
        ConfigColumnKind::Nice => ColumnObjectV::Nice,
        ConfigColumnKind::Pid => ColumnObjectV::Pid,
        ConfigColumnKind::Policy => ColumnObjectV::Policy,
        ConfigColumnKind::Ppid => ColumnObjectV::Ppid,
        ConfigColumnKind::Priority => ColumnObjectV::Priority,
        ConfigColumnKind::Processor => ColumnObjectV::Processor,
        ConfigColumnKind::ReadBytes => ColumnObjectV::ReadBytes,
        ConfigColumnKind::RtPriority => ColumnObjectV::RtPriority,
        ConfigColumnKind::Separator => ColumnObjectV::Separator { glyph: separator },
        ConfigColumnKind::ShdPnd => ColumnObjectV::ShdPnd,
        ConfigColumnKind::Slot => ColumnObjectV::Slot,
        ConfigColumnKind::SigBlk => ColumnObjectV::SigBlk,
        ConfigColumnKind::SigCgt => ColumnObjectV::SigCgt,
        ConfigColumnKind::SigIgn => ColumnObjectV::SigIgn,
        ConfigColumnKind::SigPnd => ColumnObjectV::SigPnd,
        ConfigColumnKind::Ssb => ColumnObjectV::Ssb,
        ConfigColumnKind::StartTime => ColumnObjectV::StartTime,
        ConfigColumnKind::State => ColumnObjectV::State,
        ConfigColumnKind::TcpPort => ColumnObjectV::TcpPort,
        ConfigColumnKind::Threads => ColumnObjectV::Threads,
        ConfigColumnKind::Tty => ColumnObjectV::Tty,
        ConfigColumnKind::UdpPort => ColumnObjectV::UdpPort,
        ConfigColumnKind::Uid => ColumnObjectV::Uid,
        ConfigColumnKind::UidFs => ColumnObjectV::UidFs,
        ConfigColumnKind::UidReal => ColumnObjectV::UidReal,
        ConfigColumnKind::UidSaved => ColumnObjectV::UidSaved,
        ConfigColumnKind::UsageCpu => ColumnObjectV::UsageCpu,
        ConfigColumnKind::UsageMem => ColumnObjectV::UsageMem,
        ConfigColumnKind::User => ColumnObjectV::User,
        ConfigColumnKind::UserFs => ColumnObjectV::UserFs,
        ConfigColumnKind::UserReal => ColumnObjectV::UserReal,
        ConfigColumnKind::UserSaved => ColumnObjectV::UserSaved,
        ConfigColumnKind::Username => ColumnObjectV::User,
        ConfigColumnKind::VmData => ColumnObjectV::VmData,
        ConfigColumnKind::VmExe => ColumnObjectV::VmExe,
        ConfigColumnKind::VmHwm => ColumnObjectV::VmHwm,
        ConfigColumnKind::VmLib => ColumnObjectV::VmLib,
        ConfigColumnKind::VmLock => ColumnObjectV::VmLock,
        ConfigColumnKind::VmPeak => ColumnObjectV::VmPeak,
        ConfigColumnKind::VmPin => ColumnObjectV::VmPin,
        ConfigColumnKind::VmPte => ColumnObjectV::VmPte,
        ConfigColumnKind::VmRss => ColumnObjectV::VmRss,
        ConfigColumnKind::VmSize => ColumnObjectV::VmSize,
        ConfigColumnKind::VmStack => ColumnObjectV::VmStack,
        ConfigColumnKind::VmSwap => ColumnObjectV::VmSwap,
        ConfigColumnKind::Wchan => ColumnObjectV::Wchan,
        ConfigColumnKind::WriteBytes => ColumnObjectV::WriteBytes,
    }
}

/// The column factory: builds the column object of a kind.  The Docker
/// daemon address and the separator glyph are the only construction
/// parameters any kind needs.
pub fn gen_column(kind: &ConfigColumnKind, docker_path: &str, separator: &str) -> (r: ColumnObject)
    ensures
        r@ == gen_column_spec(*kind, docker_path@, separator@),
{
    match kind {
        ConfigColumnKind::Command => ColumnObject::Command,
        ConfigColumnKind::ContextSw => ColumnObject::ContextSw,
        ConfigColumnKind::CpuTime => ColumnObject::CpuTime,
        ConfigColumnKind::Docker => ColumnObject::Docker { path: docker_path.to_owned() },
        ConfigColumnKind::Eip => ColumnObject::Eip,
        ConfigColumnKind::Esp => ColumnObject::Esp,
        ConfigColumnKind::Gid => ColumnObject::Gid,
        ConfigColumnKind::GidFs => ColumnObject::GidFs,
        ConfigColumnKind::GidReal => ColumnObject::GidReal,
        ConfigColumnKind::GidSaved => ColumnObject::GidSaved,
        ConfigColumnKind::Group => ColumnObject::Group,
        ConfigColumnKind::GroupFs => ColumnObject::GroupFs,
        ConfigColumnKind::GroupReal => ColumnObject::GroupReal,
        ConfigColumnKind::GroupSaved => ColumnObject::GroupSaved,
        ConfigColumnKind::MajFlt => ColumnObject::MajFlt,
        ConfigColumnKind::MinFlt => ColumnObject::MinFlt,
        ConfigColumnKind::Nice => ColumnObject::Nice,
        ConfigColumnKind::Pid => ColumnObject::Pid,
        ConfigColumnKind::Policy => ColumnObject::Policy,
        ConfigColumnKind::Ppid => ColumnObject::Ppid,
        ConfigColumnKind::Priority => ColumnObject::Priority,
        ConfigColumnKind::Processor => ColumnObject::Processor,
        ConfigColumnKind::ReadBytes => ColumnObject::ReadBytes,
        ConfigColumnKind::RtPriority => ColumnObject::RtPriority,
        ConfigColumnKind::Separator => ColumnObject::Separator { glyph: separator.to_owned() },
        ConfigColumnKind::ShdPnd => ColumnObject::ShdPnd,
        ConfigColumnKind::Slot => ColumnObject::Slot,
        ConfigColumnKind::SigBlk => ColumnObject::SigBlk,
        ConfigColumnKind::SigCgt => ColumnObject::SigCgt,
        ConfigColumnKind::SigIgn => ColumnObject::SigIgn,
        ConfigColumnKind::SigPnd => ColumnObject::SigPnd,
        ConfigColumnKind::Ssb => ColumnObject::Ssb,
        ConfigColumnKind::StartTime => ColumnObject::StartTime,
        ConfigColumnKind::State => ColumnObject::State,
        ConfigColumnKind::TcpPort => ColumnObject::TcpPort,
        ConfigColumnKind::Threads => ColumnObject::Threads,
        ConfigColumnKind::Tty => ColumnObject::Tty,
        ConfigColumnKind::UdpPort => ColumnObject::UdpPort,
        ConfigColumnKind::Uid => ColumnObject::Uid,
        ConfigColumnKind::UidFs => ColumnObject::UidFs,
        ConfigColumnKind::UidReal => ColumnObject::UidReal,
        ConfigColumnKind::UidSaved => ColumnObject::UidSaved,
        ConfigColumnKind::UsageCpu => ColumnObject::UsageCpu,
        ConfigColumnKind::UsageMem => ColumnObject::UsageMem,
        ConfigColumnKind::User => ColumnObject::User,
        ConfigColumnKind::UserFs => ColumnObject::UserFs,
        ConfigColumnKind::UserReal => ColumnObject::UserReal,
        ConfigColumnKind::UserSaved => ColumnObject::UserSaved,
        ConfigColumnKind::Username => ColumnObject::User,
        ConfigColumnKind::VmData => ColumnObject::VmData,
        ConfigColumnKind::VmExe => ColumnObject::VmExe,
        ConfigColumnKind::VmHwm => ColumnObject::VmHwm,
        ConfigColumnKind::VmLib => ColumnObject::VmLib,
        ConfigColumnKind::VmLock => ColumnObject::VmLock,
        ConfigColumnKind::VmPeak => ColumnObject::VmPeak,
        ConfigColumnKind::VmPin => ColumnObject::VmPin,
        ConfigColumnKind::VmPte => ColumnObject::VmPte,
        ConfigColumnKind::VmRss => ColumnObject::VmRss,
        ConfigColumnKind::VmSize => ColumnObject::VmSize,
        ConfigColumnKind::VmStack => ColumnObject::VmStack,
        ConfigColumnKind::VmSwap => ColumnObject::VmSwap,
        ConfigColumnKind::Wchan => ColumnObject::Wchan,
        ConfigColumnKind::WriteBytes => ColumnObject::WriteBytes,
    }
}

/// The `Username` kind is a deliberate user-facing alias of `User`: both
/// resolve to the same underlying column object.
pub proof fn lemma_username_aliases_user(docker_path: Seq<char>, separator: Seq<char>)
    ensures
        gen_column_spec(ConfigColumnKind::Username, docker_path, separator) == gen_column_spec(
            ConfigColumnKind::User,
            docker_path,
            separator,
        ),
{
}

/// One realized column: the column object together with the configured
/// kind, style, search eligibility and alignment routed alongside it.
#[derive(Clone, Debug, PartialEq)]
pub struct ColumnInfo {
    pub column: ColumnObject,
    pub kind: ConfigColumnKind,
    pub style: ConfigColumnStyle,
    pub nonnumeric_search: bool,
    pub numeric_search: bool,
    pub align: ConfigColumnAlign,
}

/// Mathematical shape of a realized column.
#[verifier::ext_equal]
pub ghost struct ColumnInfoV {
    pub column: ColumnObjectV,
    pub kind: ConfigColumnKind,
    pub style: ConfigColumnStyle,
    pub nonnumeric_search: bool,
    pub numeric_search: bool,
    pub align: ConfigColumnAlign,
}

impl View for ColumnInfo {
    type V = ColumnInfoV;

    open spec fn view(&self) -> ColumnInfoV {
        ColumnInfoV {
            column: self.column@,
            kind: self.kind,
            style: self.style,
            nonnumeric_search: self.nonnumeric_search,
            numeric_search: self.numeric_search,
            align: self.align,
        }
    }
}

/// The realized column a configuration entry gives rise to: the factory's
/// object for its kind, built with the configuration's Docker address and
/// separator glyph, and the entry's own presentation settings.
pub open spec fn column_info_spec(c: ConfigV, col: ConfigColumn) -> ColumnInfoV {
    ColumnInfoV {
        column: gen_column_spec(col.kind, c.docker.path, c.display.separator),
        kind: col.kind,
        style: col.style,
        nonnumeric_search: col.nonnumeric_search,
        numeric_search: col.numeric_search,
        align: col.align,
    }
}

/// Realizes every configured column, in display order: the ordered list
/// of (column object, kind, style, search flags, alignment) handed to the
/// rendering, search and sort stages.
pub fn instantiate_columns(c: &Config) -> (r: Vec<ColumnInfo>)
    ensures
        r@.len() == c@.columns.len(),
        forall|i: int| 0 <= i < r@.len() ==> r@[i]@ == column_info_spec(c@, c@.columns[i]),
{
    let mut r: Vec<ColumnInfo> = Vec::new();
    let mut i: usize = 0;
    while i < c.columns.len()
        invariant
            0 <= i <= c.columns.len(),
            r@.len() == i,
            forall|j: int| 0 <= j < i ==> r@[j]@ == column_info_spec(c@, c@.columns[j]),
        decreases c.columns.len() - i,
    {
        let col = c.columns[i];
        r.push(
            ColumnInfo {
                column: gen_column(&col.kind, c.docker.path.as_str(), c.display.separator.as_str()),
                kind: col.kind,
                style: col.style,
                nonnumeric_search: col.nonnumeric_search,
                numeric_search: col.numeric_search,
                align: col.align,
            },
        );
        i += 1;
    }
    r
}

} // verus!
