//! Names of the properties that the service manager reports for a service.
use vstd::prelude::*;

use crate::text::{chars_of, same_as};

verus! {

/// A property of a service, as the service manager names it.
#[derive(Clone, Copy, Debug, PartialEq, Eq, Structural)]
pub enum ServiceProperty {
    Type,
    ExitType,
    Restart,
    RestartMode,
    NotifyAccess,
    RestartUSec,
    RestartSteps,
    RestartMaxDelayUSec,
    RestartUSecNext,
    TimeoutStartUSec,
    TimeoutStopUSec,
    TimeoutAbortUSec,
    TimeoutStartFailureMode,
    TimeoutStopFailureMode,
    RuntimeMaxUSec,
    RuntimeRandomizedExtraUSec,
    WatchdogUSec,
    WatchdogTimestampMonotonic,
    RootDirectoryStartOnly,
    RemainAfterExit,
    GuessMainPID,
    MainPID,
    ControlPID,
    BusName,
    FileDescriptorStoreMax,
    NFileDescriptorStore,
    FileDescriptorStorePreserve,
    StatusErrno,
    Result,
    ReloadResult,
    CleanResult,
    UID,
    GID,
    NRestarts,
    OOMPolicy,
    ReloadSignal,
    ExecMainStartTimestamp,
    ExecMainStartTimestampMonotonic,
    ExecMainExitTimestampMonotonic,
    ExecMainHandoffTimestamp,
    ExecMainHandoffTimestampMonotonic,
    ExecMainPID,
    ExecMainCode,
    ExecMainStatus,
    ExecStart,
    ExecStartEx,
    ExecReload,
    ExecReloadEx,
    Slice,
    ControlGroup,
    ControlGroupId,
    MemoryCurrent,
    MemoryPeak,
    MemorySwapCurrent,
    MemorySwapPeak,
    MemoryZSwapCurrent,
    MemoryAvailable,
    EffectiveMemoryMax,
    EffectiveMemoryHigh,
    CPUUsageNSec,
    TasksCurrent,
    EffectiveTasksMax,
    IPIngressBytes,
    IPIngressPackets,
    IPEgressBytes,
    IPEgressPackets,
    IOReadBytes,
    IOReadOperations,
    IOWriteBytes,
    IOWriteOperations,
    Delegate,
    CPUAccounting,
    CPUWeight,
    StartupCPUWeight,
    CPUShares,
    StartupCPUShares,
    CPUQuotaPerSecUSec,
    CPUQuotaPeriodUSec,
    IOAccounting,
    IOWeight,
    StartupIOWeight,
    BlockIOAccounting,
    BlockIOWeight,
    StartupBlockIOWeight,
    MemoryAccounting,
    DefaultMemoryLow,
    DefaultStartupMemoryLow,
    DefaultMemoryMin,
    MemoryMin,
    MemoryLow,
    StartupMemoryLow,
    MemoryHigh,
    StartupMemoryHigh,
    MemoryMax,
    StartupMemoryMax,
    MemorySwapMax,
    StartupMemorySwapMax,
    MemoryZSwapMax,
    StartupMemoryZSwapMax,
    MemoryZSwapWriteback,
    MemoryLimit,
    DevicePolicy,
    TasksAccounting,
    TasksMax,
    IPAccounting,
    ManagedOOMSwap,
    ManagedOOMMemoryPressure,
    ManagedOOMMemoryPressureLimit,
    ManagedOOMPreference,
    MemoryPressureWatch,
    MemoryPressureThresholdUSec,
    CoredumpReceive,
    UMask,
    LimitCPU,
    LimitCPUSoft,
    LimitFSIZE,
    LimitFSIZESoft,
    LimitDATA,
    LimitDATASoft,
    LimitSTACK,
    LimitSTACKSoft,
    LimitCORE,
    LimitCORESoft,
    LimitRSS,
    LimitRSSSoft,
    LimitNOFILE,
    LimitNOFILESoft,
    LimitAS,
    LimitASSoft,
    LimitNPROC,
    LimitNPROCSoft,
    LimitMEMLOCK,
    LimitMEMLOCKSoft,
    LimitLOCKS,
    LimitLOCKSSoft,
    LimitSIGPENDING,
    LimitSIGPENDINGSoft,
    LimitMSGQUEUE,
    LimitMSGQUEUESoft,
    LimitNICE,
    LimitNICESoft,
    LimitRTPRIO,
    LimitRTPRIOSoft,
    LimitRTTIME,
    LimitRTTIMESoft,
    RootEphemeral,
    OOMScoreAdjust,
    CoredumpFilter,
    Nice,
    IOSchedulingClass,
    IOSchedulingPriority,
    CPUSchedulingPolicy,
    CPUSchedulingPriority,
    CPUAffinityFromNUMA,
    NUMAPolicy,
    TimerSlackNSec,
    CPUSchedulingResetOnFork,
    NonBlocking,
    StandardInput,
    StandardOutput,
    StandardError,
    TTYReset,
    TTYVHangup,
    TTYVTDisallocate,
    SyslogPriority,
    SyslogLevelPrefix,
    SyslogLevel,
    SyslogFacility,
    LogLevelMax,
    LogRateLimitIntervalUSec,
    LogRateLimitBurst,
    SecureBits,
    CapabilityBoundingSet,
    DynamicUser,
    SetLoginEnvironment,
    RemoveIPC,
    PrivateTmp,
    PrivateDevices,
    ProtectClock,
    ProtectKernelTunables,
    ProtectKernelModules,
    ProtectKernelLogs,
    ProtectControlGroups,
    PrivateNetwork,
    PrivateUsers,
    PrivateMounts,
    PrivateIPC,
    ProtectHome,
    ProtectSystem,
    SameProcessGroup,
    UtmpMode,
    IgnoreSIGPIPE,
    NoNewPrivileges,
    SystemCallErrorNumber,
    LockPersonality,
    RuntimeDirectoryPreserve,
    RuntimeDirectoryMode,
    StateDirectoryMode,
    CacheDirectoryMode,
    LogsDirectoryMode,
    ConfigurationDirectoryMode,
    TimeoutCleanUSec,
    MemoryDenyWriteExecute,
    RestrictRealtime,
    RestrictSUIDSGID,
    RestrictNamespaces,
    MountAPIVFS,
    KeyringMode,
    ProtectProc,
    ProcSubset,
    ProtectHostname,
    MemoryKSM,
    RootImagePolicy,
    MountImagePolicy,
    ExtensionImagePolicy,
    KillMode,
    KillSignal,
    RestartKillSignal,
    FinalKillSignal,
    SendSIGKILL,
    SendSIGHUP,
    WatchdogSignal,
    Id,
    Names,
    Requires,
    Wants,
    BindsTo,
    RequiredBy,
    WantedBy,
    Conflicts,
    Before,
    After,
    Documentation,
    Description,
    LoadState,
    ActiveState,
    FreezerState,
    SubState,
    FragmentPath,
    UnitFileState,
    UnitFilePreset,
    StateChangeTimestamp,
    StateChangeTimestampMonotonic,
    InactiveExitTimestamp,
    InactiveExitTimestampMonotonic,
    ActiveEnterTimestamp,
    ActiveEnterTimestampMonotonic,
    ActiveExitTimestamp,
    ActiveExitTimestampMonotonic,
    InactiveEnterTimestamp,
    InactiveEnterTimestampMonotonic,
    CanStart,
    CanStop,
    CanReload,
    CanIsolate,
    CanFreeze,
    StopWhenUnneeded,
    RefuseManualStart,
    RefuseManualStop,
    AllowIsolate,
    DefaultDependencies,
    SurviveFinalKillSignal,
    OnSuccessJobMode,
    OnFailureJobMode,
    IgnoreOnIsolate,
    NeedDaemonReload,
    JobTimeoutUSec,
    JobRunningTimeoutUSec,
    JobTimeoutAction,
    ConditionResult,
    AssertResult,
    ConditionTimestamp,
    ConditionTimestampMonotonic,
    AssertTimestamp,
    AssertTimestampMonotonic,
    Transient,
    Perpetual,
    StartLimitIntervalUSec,
    StartLimitBurst,
    StartLimitAction,
    FailureAction,
    SuccessAction,
    InvocationID,
    CollectMode,
}

/// The name of a property.
pub open spec fn property_name(p: ServiceProperty) -> Seq<char> {
    match p {
        ServiceProperty::Type => "Type"@,
        ServiceProperty::ExitType => "ExitType"@,
        ServiceProperty::Restart => "Restart"@,
        ServiceProperty::RestartMode => "RestartMode"@,
        ServiceProperty::NotifyAccess => "NotifyAccess"@,
        ServiceProperty::RestartUSec => "RestartUSec"@,
        ServiceProperty::RestartSteps => "RestartSteps"@,
        ServiceProperty::RestartMaxDelayUSec => "RestartMaxDelayUSec"@,
        ServiceProperty::RestartUSecNext => "RestartUSecNext"@,
        ServiceProperty::TimeoutStartUSec => "TimeoutStartUSec"@,
        ServiceProperty::TimeoutStopUSec => "TimeoutStopUSec"@,
        ServiceProperty::TimeoutAbortUSec => "TimeoutAbortUSec"@,
        ServiceProperty::TimeoutStartFailureMode => "TimeoutStartFailureMode"@,
        ServiceProperty::TimeoutStopFailureMode => "TimeoutStopFailureMode"@,
        ServiceProperty::RuntimeMaxUSec => "RuntimeMaxUSec"@,
        ServiceProperty::RuntimeRandomizedExtraUSec => "RuntimeRandomizedExtraUSec"@,
        ServiceProperty::WatchdogUSec => "WatchdogUSec"@,
        ServiceProperty::WatchdogTimestampMonotonic => "WatchdogTimestampMonotonic"@,
        ServiceProperty::RootDirectoryStartOnly => "RootDirectoryStartOnly"@,
        ServiceProperty::RemainAfterExit => "RemainAfterExit"@,
        ServiceProperty::GuessMainPID => "GuessMainPID"@,
        ServiceProperty::MainPID => "MainPID"@,
        ServiceProperty::ControlPID => "ControlPID"@,
        ServiceProperty::BusName => "BusName"@,
        ServiceProperty::FileDescriptorStoreMax => "FileDescriptorStoreMax"@,
        ServiceProperty::NFileDescriptorStore => "NFileDescriptorStore"@,
        ServiceProperty::FileDescriptorStorePreserve => "FileDescriptorStorePreserve"@,
        ServiceProperty::StatusErrno => "StatusErrno"@,
        ServiceProperty::Result => "Result"@,
        ServiceProperty::ReloadResult => "ReloadResult"@,
        ServiceProperty::CleanResult => "CleanResult"@,
        ServiceProperty::UID => "UID"@,
        ServiceProperty::GID => "GID"@,
        ServiceProperty::NRestarts => "NRestarts"@,
        ServiceProperty::OOMPolicy => "OOMPolicy"@,
        ServiceProperty::ReloadSignal => "ReloadSignal"@,
        ServiceProperty::ExecMainStartTimestamp => "ExecMainStartTimestamp"@,
        ServiceProperty::ExecMainStartTimestampMonotonic => "ExecMainStartTimestampMonotonic"@,
        ServiceProperty::ExecMainExitTimestampMonotonic => "ExecMainExitTimestampMonotonic"@,
        ServiceProperty::ExecMainHandoffTimestamp => "ExecMainHandoffTimestamp"@,
        ServiceProperty::ExecMainHandoffTimestampMonotonic => "ExecMainHandoffTimestampMonotonic"@,
        ServiceProperty::ExecMainPID => "ExecMainPID"@,
        ServiceProperty::ExecMainCode => "ExecMainCode"@,
        ServiceProperty::ExecMainStatus => "ExecMainStatus"@,
        ServiceProperty::ExecStart => "ExecStart"@,
        ServiceProperty::ExecStartEx => "ExecStartEx"@,
        ServiceProperty::ExecReload => "ExecReload"@,
        ServiceProperty::ExecReloadEx => "ExecReloadEx"@,
        ServiceProperty::Slice => "Slice"@,
        ServiceProperty::ControlGroup => "ControlGroup"@,
        ServiceProperty::ControlGroupId => "ControlGroupId"@,
        ServiceProperty::MemoryCurrent => "MemoryCurrent"@,
        ServiceProperty::MemoryPeak => "MemoryPeak"@,
        ServiceProperty::MemorySwapCurrent => "MemorySwapCurrent"@,
        ServiceProperty::MemorySwapPeak => "MemorySwapPeak"@,
        ServiceProperty::MemoryZSwapCurrent => "MemoryZSwapCurrent"@,
        ServiceProperty::MemoryAvailable => "MemoryAvailable"@,
        ServiceProperty::EffectiveMemoryMax => "EffectiveMemoryMax"@,
        ServiceProperty::EffectiveMemoryHigh => "EffectiveMemoryHigh"@,
        ServiceProperty::CPUUsageNSec => "CPUUsageNSec"@,
        ServiceProperty::TasksCurrent => "TasksCurrent"@,
        ServiceProperty::EffectiveTasksMax => "EffectiveTasksMax"@,
        ServiceProperty::IPIngressBytes => "IPIngressBytes"@,
        ServiceProperty::IPIngressPackets => "IPIngressPackets"@,
        ServiceProperty::IPEgressBytes => "IPEgressBytes"@,
        ServiceProperty::IPEgressPackets => "IPEgressPackets"@,
        ServiceProperty::IOReadBytes => "IOReadBytes"@,
        ServiceProperty::IOReadOperations => "IOReadOperations"@,
        ServiceProperty::IOWriteBytes => "IOWriteBytes"@,
        ServiceProperty::IOWriteOperations => "IOWriteOperations"@,
        ServiceProperty::Delegate => "Delegate"@,
        ServiceProperty::CPUAccounting => "CPUAccounting"@,
        ServiceProperty::CPUWeight => "CPUWeight"@,
        ServiceProperty::StartupCPUWeight => "StartupCPUWeight"@,
        ServiceProperty::CPUShares => "CPUShares"@,
        ServiceProperty::StartupCPUShares => "StartupCPUShares"@,
        ServiceProperty::CPUQuotaPerSecUSec => "CPUQuotaPerSecUSec"@,
        ServiceProperty::CPUQuotaPeriodUSec => "CPUQuotaPeriodUSec"@,
        ServiceProperty::IOAccounting => "IOAccounting"@,
        ServiceProperty::IOWeight => "IOWeight"@,
        ServiceProperty::StartupIOWeight => "StartupIOWeight"@,
        ServiceProperty::BlockIOAccounting => "BlockIOAccounting"@,
        ServiceProperty::BlockIOWeight => "BlockIOWeight"@,
        ServiceProperty::StartupBlockIOWeight => "StartupBlockIOWeight"@,
        ServiceProperty::MemoryAccounting => "MemoryAccounting"@,
        ServiceProperty::DefaultMemoryLow => "DefaultMemoryLow"@,
        ServiceProperty::DefaultStartupMemoryLow => "DefaultStartupMemoryLow"@,
        ServiceProperty::DefaultMemoryMin => "DefaultMemoryMin"@,
        ServiceProperty::MemoryMin => "MemoryMin"@,
        ServiceProperty::MemoryLow => "MemoryLow"@,
        ServiceProperty::StartupMemoryLow => "StartupMemoryLow"@,
        ServiceProperty::MemoryHigh => "MemoryHigh"@,
        ServiceProperty::StartupMemoryHigh => "StartupMemoryHigh"@,
        ServiceProperty::MemoryMax => "MemoryMax"@,
        ServiceProperty::StartupMemoryMax => "StartupMemoryMax"@,
        ServiceProperty::MemorySwapMax => "MemorySwapMax"@,
        ServiceProperty::StartupMemorySwapMax => "StartupMemorySwapMax"@,
        ServiceProperty::MemoryZSwapMax => "MemoryZSwapMax"@,
        ServiceProperty::StartupMemoryZSwapMax => "StartupMemoryZSwapMax"@,
        ServiceProperty::MemoryZSwapWriteback => "MemoryZSwapWriteback"@,
        ServiceProperty::MemoryLimit => "MemoryLimit"@,
        ServiceProperty::DevicePolicy => "DevicePolicy"@,
        ServiceProperty::TasksAccounting => "TasksAccounting"@,
        ServiceProperty::TasksMax => "TasksMax"@,
        ServiceProperty::IPAccounting => "IPAccounting"@,
        ServiceProperty::ManagedOOMSwap => "ManagedOOMSwap"@,
        ServiceProperty::ManagedOOMMemoryPressure => "ManagedOOMMemoryPressure"@,
        ServiceProperty::ManagedOOMMemoryPressureLimit => "ManagedOOMMemoryPressureLimit"@,
        ServiceProperty::ManagedOOMPreference => "ManagedOOMPreference"@,
        ServiceProperty::MemoryPressureWatch => "MemoryPressureWatch"@,
        ServiceProperty::MemoryPressureThresholdUSec => "MemoryPressureThresholdUSec"@,
        ServiceProperty::CoredumpReceive => "CoredumpReceive"@,
        ServiceProperty::UMask => "UMask"@,
        ServiceProperty::LimitCPU => "LimitCPU"@,
        ServiceProperty::LimitCPUSoft => "LimitCPUSoft"@,
        ServiceProperty::LimitFSIZE => "LimitFSIZE"@,
        ServiceProperty::LimitFSIZESoft => "LimitFSIZESoft"@,
        ServiceProperty::LimitDATA => "LimitDATA"@,
        ServiceProperty::LimitDATASoft => "LimitDATASoft"@,
        ServiceProperty::LimitSTACK => "LimitSTACK"@,
        ServiceProperty::LimitSTACKSoft => "LimitSTACKSoft"@,
        ServiceProperty::LimitCORE => "LimitCORE"@,
        ServiceProperty::LimitCORESoft => "LimitCORESoft"@,
        ServiceProperty::LimitRSS => "LimitRSS"@,
        ServiceProperty::LimitRSSSoft => "LimitRSSSoft"@,
        ServiceProperty::LimitNOFILE => "LimitNOFILE"@,
        ServiceProperty::LimitNOFILESoft => "LimitNOFILESoft"@,
        ServiceProperty::LimitAS => "LimitAS"@,
        ServiceProperty::LimitASSoft => "LimitASSoft"@,
        ServiceProperty::LimitNPROC => "LimitNPROC"@,
        ServiceProperty::LimitNPROCSoft => "LimitNPROCSoft"@,
        ServiceProperty::LimitMEMLOCK => "LimitMEMLOCK"@,
        ServiceProperty::LimitMEMLOCKSoft => "LimitMEMLOCKSoft"@,
        ServiceProperty::LimitLOCKS => "LimitLOCKS"@,
        ServiceProperty::LimitLOCKSSoft => "LimitLOCKSSoft"@,
        ServiceProperty::LimitSIGPENDING => "LimitSIGPENDING"@,
        ServiceProperty::LimitSIGPENDINGSoft => "LimitSIGPENDINGSoft"@,
        ServiceProperty::LimitMSGQUEUE => "LimitMSGQUEUE"@,
        ServiceProperty::LimitMSGQUEUESoft => "LimitMSGQUEUESoft"@,
        ServiceProperty::LimitNICE => "LimitNICE"@,
        ServiceProperty::LimitNICESoft => "LimitNICESoft"@,
        ServiceProperty::LimitRTPRIO => "LimitRTPRIO"@,
        ServiceProperty::LimitRTPRIOSoft => "LimitRTPRIOSoft"@,
        ServiceProperty::LimitRTTIME => "LimitRTTIME"@,
        ServiceProperty::LimitRTTIMESoft => "LimitRTTIMESoft"@,
        ServiceProperty::RootEphemeral => "RootEphemeral"@,
        ServiceProperty::OOMScoreAdjust => "OOMScoreAdjust"@,
        ServiceProperty::CoredumpFilter => "CoredumpFilter"@,
        ServiceProperty::Nice => "Nice"@,
        ServiceProperty::IOSchedulingClass => "IOSchedulingClass"@,
        ServiceProperty::IOSchedulingPriority => "IOSchedulingPriority"@,
        ServiceProperty::CPUSchedulingPolicy => "CPUSchedulingPolicy"@,
        ServiceProperty::CPUSchedulingPriority => "CPUSchedulingPriority"@,
        ServiceProperty::CPUAffinityFromNUMA => "CPUAffinityFromNUMA"@,
        ServiceProperty::NUMAPolicy => "NUMAPolicy"@,
        ServiceProperty::TimerSlackNSec => "TimerSlackNSec"@,
        ServiceProperty::CPUSchedulingResetOnFork => "CPUSchedulingResetOnFork"@,
        ServiceProperty::NonBlocking => "NonBlocking"@,
        ServiceProperty::StandardInput => "StandardInput"@,
        ServiceProperty::StandardOutput => "StandardOutput"@,
        ServiceProperty::StandardError => "StandardError"@,
        ServiceProperty::TTYReset => "TTYReset"@,
        ServiceProperty::TTYVHangup => "TTYVHangup"@,
        ServiceProperty::TTYVTDisallocate => "TTYVTDisallocate"@,
        ServiceProperty::SyslogPriority => "SyslogPriority"@,
        ServiceProperty::SyslogLevelPrefix => "SyslogLevelPrefix"@,
        ServiceProperty::SyslogLevel => "SyslogLevel"@,
        ServiceProperty::SyslogFacility => "SyslogFacility"@,
        ServiceProperty::LogLevelMax => "LogLevelMax"@,
        ServiceProperty::LogRateLimitIntervalUSec => "LogRateLimitIntervalUSec"@,
        ServiceProperty::LogRateLimitBurst => "LogRateLimitBurst"@,
        ServiceProperty::SecureBits => "SecureBits"@,
        ServiceProperty::CapabilityBoundingSet => "CapabilityBoundingSet"@,
        ServiceProperty::DynamicUser => "DynamicUser"@,
        ServiceProperty::SetLoginEnvironment => "SetLoginEnvironment"@,
        ServiceProperty::RemoveIPC => "RemoveIPC"@,
        ServiceProperty::PrivateTmp => "PrivateTmp"@,
        ServiceProperty::PrivateDevices => "PrivateDevices"@,
        ServiceProperty::ProtectClock => "ProtectClock"@,
        ServiceProperty::ProtectKernelTunables => "ProtectKernelTunables"@,
        ServiceProperty::ProtectKernelModules => "ProtectKernelModules"@,
        ServiceProperty::ProtectKernelLogs => "ProtectKernelLogs"@,
        ServiceProperty::ProtectControlGroups => "ProtectControlGroups"@,
        ServiceProperty::PrivateNetwork => "PrivateNetwork"@,
        ServiceProperty::PrivateUsers => "PrivateUsers"@,
        ServiceProperty::PrivateMounts => "PrivateMounts"@,
        ServiceProperty::PrivateIPC => "PrivateIPC"@,
        ServiceProperty::ProtectHome => "ProtectHome"@,
        ServiceProperty::ProtectSystem => "ProtectSystem"@,
        ServiceProperty::SameProcessGroup => "SameProcessGroup"@,
        ServiceProperty::UtmpMode => "UtmpMode"@,
        ServiceProperty::IgnoreSIGPIPE => "IgnoreSIGPIPE"@,
        ServiceProperty::NoNewPrivileges => "NoNewPrivileges"@,
        ServiceProperty::SystemCallErrorNumber => "SystemCallErrorNumber"@,
        ServiceProperty::LockPersonality => "LockPersonality"@,
        ServiceProperty::RuntimeDirectoryPreserve => "RuntimeDirectoryPreserve"@,
        ServiceProperty::RuntimeDirectoryMode => "RuntimeDirectoryMode"@,
        ServiceProperty::StateDirectoryMode => "StateDirectoryMode"@,
        ServiceProperty::CacheDirectoryMode => "CacheDirectoryMode"@,
        ServiceProperty::LogsDirectoryMode => "LogsDirectoryMode"@,
        ServiceProperty::ConfigurationDirectoryMode => "ConfigurationDirectoryMode"@,
        ServiceProperty::TimeoutCleanUSec => "TimeoutCleanUSec"@,
        ServiceProperty::MemoryDenyWriteExecute => "MemoryDenyWriteExecute"@,
        ServiceProperty::RestrictRealtime => "RestrictRealtime"@,
        ServiceProperty::RestrictSUIDSGID => "RestrictSUIDSGID"@,
        ServiceProperty::RestrictNamespaces => "RestrictNamespaces"@,
        ServiceProperty::MountAPIVFS => "MountAPIVFS"@,
        ServiceProperty::KeyringMode => "KeyringMode"@,
        ServiceProperty::ProtectProc => "ProtectProc"@,
        ServiceProperty::ProcSubset => "ProcSubset"@,
        ServiceProperty::ProtectHostname => "ProtectHostname"@,
        ServiceProperty::MemoryKSM => "MemoryKSM"@,
        ServiceProperty::RootImagePolicy => "RootImagePolicy"@,
        ServiceProperty::MountImagePolicy => "MountImagePolicy"@,
        ServiceProperty::ExtensionImagePolicy => "ExtensionImagePolicy"@,
        ServiceProperty::KillMode => "KillMode"@,
        ServiceProperty::KillSignal => "KillSignal"@,
        ServiceProperty::RestartKillSignal => "RestartKillSignal"@,
        ServiceProperty::FinalKillSignal => "FinalKillSignal"@,
        ServiceProperty::SendSIGKILL => "SendSIGKILL"@,
        ServiceProperty::SendSIGHUP => "SendSIGHUP"@,
        ServiceProperty::WatchdogSignal => "WatchdogSignal"@,
        ServiceProperty::Id => "Id"@,
        ServiceProperty::Names => "Names"@,
        ServiceProperty::Requires => "Requires"@,
        ServiceProperty::Wants => "Wants"@,
        ServiceProperty::BindsTo => "BindsTo"@,
        ServiceProperty::RequiredBy => "RequiredBy"@,
        ServiceProperty::WantedBy => "WantedBy"@,
        ServiceProperty::Conflicts => "Conflicts"@,
        ServiceProperty::Before => "Before"@,
        ServiceProperty::After => "After"@,
        ServiceProperty::Documentation => "Documentation"@,
        ServiceProperty::Description => "Description"@,
        ServiceProperty::LoadState => "LoadState"@,
        ServiceProperty::ActiveState => "ActiveState"@,
        ServiceProperty::FreezerState => "FreezerState"@,
        ServiceProperty::SubState => "SubState"@,
        ServiceProperty::FragmentPath => "FragmentPath"@,
        ServiceProperty::UnitFileState => "UnitFileState"@,
        ServiceProperty::UnitFilePreset => "UnitFilePreset"@,
        ServiceProperty::StateChangeTimestamp => "StateChangeTimestamp"@,
        ServiceProperty::StateChangeTimestampMonotonic => "StateChangeTimestampMonotonic"@,
        ServiceProperty::InactiveExitTimestamp => "InactiveExitTimestamp"@,
        ServiceProperty::InactiveExitTimestampMonotonic => "InactiveExitTimestampMonotonic"@,
        ServiceProperty::ActiveEnterTimestamp => "ActiveEnterTimestamp"@,
        ServiceProperty::ActiveEnterTimestampMonotonic => "ActiveEnterTimestampMonotonic"@,
        ServiceProperty::ActiveExitTimestamp => "ActiveExitTimestamp"@,
        ServiceProperty::ActiveExitTimestampMonotonic => "ActiveExitTimestampMonotonic"@,
        ServiceProperty::InactiveEnterTimestamp => "InactiveEnterTimestamp"@,
        ServiceProperty::InactiveEnterTimestampMonotonic => "InactiveEnterTimestampMonotonic"@,
        ServiceProperty::CanStart => "CanStart"@,
        ServiceProperty::CanStop => "CanStop"@,
        ServiceProperty::CanReload => "CanReload"@,
        ServiceProperty::CanIsolate => "CanIsolate"@,
        ServiceProperty::CanFreeze => "CanFreeze"@,
        ServiceProperty::StopWhenUnneeded => "StopWhenUnneeded"@,
        ServiceProperty::RefuseManualStart => "RefuseManualStart"@,
        ServiceProperty::RefuseManualStop => "RefuseManualStop"@,
        ServiceProperty::AllowIsolate => "AllowIsolate"@,
        ServiceProperty::DefaultDependencies => "DefaultDependencies"@,
        ServiceProperty::SurviveFinalKillSignal => "SurviveFinalKillSignal"@,
        ServiceProperty::OnSuccessJobMode => "OnSuccessJobMode"@,
        ServiceProperty::OnFailureJobMode => "OnFailureJobMode"@,
        ServiceProperty::IgnoreOnIsolate => "IgnoreOnIsolate"@,
        ServiceProperty::NeedDaemonReload => "NeedDaemonReload"@,
        ServiceProperty::JobTimeoutUSec => "JobTimeoutUSec"@,
        ServiceProperty::JobRunningTimeoutUSec => "JobRunningTimeoutUSec"@,
        ServiceProperty::JobTimeoutAction => "JobTimeoutAction"@,
        ServiceProperty::ConditionResult => "ConditionResult"@,
        ServiceProperty::AssertResult => "AssertResult"@,
        ServiceProperty::ConditionTimestamp => "ConditionTimestamp"@,
        ServiceProperty::ConditionTimestampMonotonic => "ConditionTimestampMonotonic"@,
        ServiceProperty::AssertTimestamp => "AssertTimestamp"@,
        ServiceProperty::AssertTimestampMonotonic => "AssertTimestampMonotonic"@,
        ServiceProperty::Transient => "Transient"@,
        ServiceProperty::Perpetual => "Perpetual"@,
        ServiceProperty::StartLimitIntervalUSec => "StartLimitIntervalUSec"@,
        ServiceProperty::StartLimitBurst => "StartLimitBurst"@,
        ServiceProperty::StartLimitAction => "StartLimitAction"@,
        ServiceProperty::FailureAction => "FailureAction"@,
        ServiceProperty::SuccessAction => "SuccessAction"@,
        ServiceProperty::InvocationID => "InvocationID"@,
        ServiceProperty::CollectMode => "CollectMode"@,
    }
}

/// The property that a name denotes, matched exactly.
pub open spec fn property_named(s: Seq<char>) -> Option<ServiceProperty> {
    if s == "Type"@ {
        Some(ServiceProperty::Type)
    } else if s == "ExitType"@ {
        Some(ServiceProperty::ExitType)
    } else if s == "Restart"@ {
        Some(ServiceProperty::Restart)
    } else if s == "RestartMode"@ {
        Some(ServiceProperty::RestartMode)
    } else if s == "NotifyAccess"@ {
        Some(ServiceProperty::NotifyAccess)
    } else if s == "RestartUSec"@ {
        Some(ServiceProperty::RestartUSec)
    } else if s == "RestartSteps"@ {
        Some(ServiceProperty::RestartSteps)
    } else if s == "RestartMaxDelayUSec"@ {
        Some(ServiceProperty::RestartMaxDelayUSec)
    } else if s == "RestartUSecNext"@ {
        Some(ServiceProperty::RestartUSecNext)
    } else if s == "TimeoutStartUSec"@ {
        Some(ServiceProperty::TimeoutStartUSec)
    } else if s == "TimeoutStopUSec"@ {
        Some(ServiceProperty::TimeoutStopUSec)
    } else if s == "TimeoutAbortUSec"@ {
        Some(ServiceProperty::TimeoutAbortUSec)
    } else if s == "TimeoutStartFailureMode"@ {
        Some(ServiceProperty::TimeoutStartFailureMode)
    } else if s == "TimeoutStopFailureMode"@ {
        Some(ServiceProperty::TimeoutStopFailureMode)
    } else if s == "RuntimeMaxUSec"@ {
        Some(ServiceProperty::RuntimeMaxUSec)
    } else if s == "RuntimeRandomizedExtraUSec"@ {
        Some(ServiceProperty::RuntimeRandomizedExtraUSec)
    } else if s == "WatchdogUSec"@ {
        Some(ServiceProperty::WatchdogUSec)
    } else if s == "WatchdogTimestampMonotonic"@ {
        Some(ServiceProperty::WatchdogTimestampMonotonic)
    } else if s == "RootDirectoryStartOnly"@ {
        Some(ServiceProperty::RootDirectoryStartOnly)
    } else if s == "RemainAfterExit"@ {
        Some(ServiceProperty::RemainAfterExit)
    } else if s == "GuessMainPID"@ {
        Some(ServiceProperty::GuessMainPID)
    } else if s == "MainPID"@ {
        Some(ServiceProperty::MainPID)
    } else if s == "ControlPID"@ {
        Some(ServiceProperty::ControlPID)
    } else if s == "BusName"@ {
        Some(ServiceProperty::BusName)
    } else if s == "FileDescriptorStoreMax"@ {
        Some(ServiceProperty::FileDescriptorStoreMax)
    } else if s == "NFileDescriptorStore"@ {
        Some(ServiceProperty::NFileDescriptorStore)
    } else if s == "FileDescriptorStorePreserve"@ {
        Some(ServiceProperty::FileDescriptorStorePreserve)
    } else if s == "StatusErrno"@ {
        Some(ServiceProperty::StatusErrno)
    } else if s == "Result"@ {
        Some(ServiceProperty::Result)
    } else if s == "ReloadResult"@ {
        Some(ServiceProperty::ReloadResult)
    } else if s == "CleanResult"@ {
        Some(ServiceProperty::CleanResult)
    } else if s == "UID"@ {
        Some(ServiceProperty::UID)
    } else if s == "GID"@ {
        Some(ServiceProperty::GID)
    } else if s == "NRestarts"@ {
        Some(ServiceProperty::NRestarts)
    } else if s == "OOMPolicy"@ {
        Some(ServiceProperty::OOMPolicy)
    } else if s == "ReloadSignal"@ {
        Some(ServiceProperty::ReloadSignal)
    } else if s == "ExecMainStartTimestamp"@ {
        Some(ServiceProperty::ExecMainStartTimestamp)
    } else if s == "ExecMainStartTimestampMonotonic"@ {
        Some(ServiceProperty::ExecMainStartTimestampMonotonic)
    } else if s == "ExecMainExitTimestampMonotonic"@ {
        Some(ServiceProperty::ExecMainExitTimestampMonotonic)
    } else if s == "ExecMainHandoffTimestamp"@ {
        Some(ServiceProperty::ExecMainHandoffTimestamp)
    } else if s == "ExecMainHandoffTimestampMonotonic"@ {
        Some(ServiceProperty::ExecMainHandoffTimestampMonotonic)
    } else if s == "ExecMainPID"@ {
        Some(ServiceProperty::ExecMainPID)
    } else if s == "ExecMainCode"@ {
        Some(ServiceProperty::ExecMainCode)
    } else if s == "ExecMainStatus"@ {
        Some(ServiceProperty::ExecMainStatus)
    } else if s == "ExecStart"@ {
        Some(ServiceProperty::ExecStart)
    } else if s == "ExecStartEx"@ {
        Some(ServiceProperty::ExecStartEx)
    } else if s == "ExecReload"@ {
        Some(ServiceProperty::ExecReload)
    } else if s == "ExecReloadEx"@ {
        Some(ServiceProperty::ExecReloadEx)
    } else if s == "Slice"@ {
        Some(ServiceProperty::Slice)
    } else if s == "ControlGroup"@ {
        Some(ServiceProperty::ControlGroup)
    } else if s == "ControlGroupId"@ {
        Some(ServiceProperty::ControlGroupId)
    } else if s == "MemoryCurrent"@ {
        Some(ServiceProperty::MemoryCurrent)
    } else if s == "MemoryPeak"@ {
        Some(ServiceProperty::MemoryPeak)
    } else if s == "MemorySwapCurrent"@ {
        Some(ServiceProperty::MemorySwapCurrent)
    } else if s == "MemorySwapPeak"@ {
        Some(ServiceProperty::MemorySwapPeak)
    } else if s == "MemoryZSwapCurrent"@ {
        Some(ServiceProperty::MemoryZSwapCurrent)
    } else if s == "MemoryAvailable"@ {
        Some(ServiceProperty::MemoryAvailable)
    } else if s == "EffectiveMemoryMax"@ {
        Some(ServiceProperty::EffectiveMemoryMax)
    } else if s == "EffectiveMemoryHigh"@ {
        Some(ServiceProperty::EffectiveMemoryHigh)
    } else if s == "CPUUsageNSec"@ {
        Some(ServiceProperty::CPUUsageNSec)
    } else if s == "TasksCurrent"@ {
        Some(ServiceProperty::TasksCurrent)
    } else if s == "EffectiveTasksMax"@ {
        Some(ServiceProperty::EffectiveTasksMax)
    } else if s == "IPIngressBytes"@ {
        Some(ServiceProperty::IPIngressBytes)
    } else if s == "IPIngressPackets"@ {
        Some(ServiceProperty::IPIngressPackets)
    } else if s == "IPEgressBytes"@ {
        Some(ServiceProperty::IPEgressBytes)
    } else if s == "IPEgressPackets"@ {
        Some(ServiceProperty::IPEgressPackets)
    } else if s == "IOReadBytes"@ {
        Some(ServiceProperty::IOReadBytes)
    } else if s == "IOReadOperations"@ {
        Some(ServiceProperty::IOReadOperations)
    } else if s == "IOWriteBytes"@ {
        Some(ServiceProperty::IOWriteBytes)
    } else if s == "IOWriteOperations"@ {
        Some(ServiceProperty::IOWriteOperations)
    } else if s == "Delegate"@ {
        Some(ServiceProperty::Delegate)
    } else if s == "CPUAccounting"@ {
        Some(ServiceProperty::CPUAccounting)
    } else if s == "CPUWeight"@ {
        Some(ServiceProperty::CPUWeight)
    } else if s == "StartupCPUWeight"@ {
        Some(ServiceProperty::StartupCPUWeight)
    } else if s == "CPUShares"@ {
        Some(ServiceProperty::CPUShares)
    } else if s == "StartupCPUShares"@ {
        Some(ServiceProperty::StartupCPUShares)
    } else if s == "CPUQuotaPerSecUSec"@ {
        Some(ServiceProperty::CPUQuotaPerSecUSec)
    } else if s == "CPUQuotaPeriodUSec"@ {
        Some(ServiceProperty::CPUQuotaPeriodUSec)
    } else if s == "IOAccounting"@ {
        Some(ServiceProperty::IOAccounting)
    } else if s == "IOWeight"@ {
        Some(ServiceProperty::IOWeight)
    } else if s == "StartupIOWeight"@ {
        Some(ServiceProperty::StartupIOWeight)
    } else if s == "BlockIOAccounting"@ {
        Some(ServiceProperty::BlockIOAccounting)
    } else if s == "BlockIOWeight"@ {
        Some(ServiceProperty::BlockIOWeight)
    } else if s == "StartupBlockIOWeight"@ {
        Some(ServiceProperty::StartupBlockIOWeight)
    } else if s == "MemoryAccounting"@ {
        Some(ServiceProperty::MemoryAccounting)
    } else if s == "DefaultMemoryLow"@ {
        Some(ServiceProperty::DefaultMemoryLow)
    } else if s == "DefaultStartupMemoryLow"@ {
        Some(ServiceProperty::DefaultStartupMemoryLow)
    } else if s == "DefaultMemoryMin"@ {
        Some(ServiceProperty::DefaultMemoryMin)
    } else if s == "MemoryMin"@ {
        Some(ServiceProperty::MemoryMin)
    } else if s == "MemoryLow"@ {
        Some(ServiceProperty::MemoryLow)
    } else if s == "StartupMemoryLow"@ {
        Some(ServiceProperty::StartupMemoryLow)
    } else if s == "MemoryHigh"@ {
        Some(ServiceProperty::MemoryHigh)
    } else if s == "StartupMemoryHigh"@ {
        Some(ServiceProperty::StartupMemoryHigh)
    } else if s == "MemoryMax"@ {
        Some(ServiceProperty::MemoryMax)
    } else if s == "StartupMemoryMax"@ {
        Some(ServiceProperty::StartupMemoryMax)
    } else if s == "MemorySwapMax"@ {
        Some(ServiceProperty::MemorySwapMax)
    } else if s == "StartupMemorySwapMax"@ {
        Some(ServiceProperty::StartupMemorySwapMax)
    } else if s == "MemoryZSwapMax"@ {
        Some(ServiceProperty::MemoryZSwapMax)
    } else if s == "StartupMemoryZSwapMax"@ {
        Some(ServiceProperty::StartupMemoryZSwapMax)
    } else if s == "MemoryZSwapWriteback"@ {
        Some(ServiceProperty::MemoryZSwapWriteback)
    } else if s == "MemoryLimit"@ {
        Some(ServiceProperty::MemoryLimit)
    } else if s == "DevicePolicy"@ {
        Some(ServiceProperty::DevicePolicy)
    } else if s == "TasksAccounting"@ {
        Some(ServiceProperty::TasksAccounting)
    } else if s == "TasksMax"@ {
        Some(ServiceProperty::TasksMax)
    } else if s == "IPAccounting"@ {
        Some(ServiceProperty::IPAccounting)
    } else if s == "ManagedOOMSwap"@ {
        Some(ServiceProperty::ManagedOOMSwap)
    } else if s == "ManagedOOMMemoryPressure"@ {
        Some(ServiceProperty::ManagedOOMMemoryPressure)
    } else if s == "ManagedOOMMemoryPressureLimit"@ {
        Some(ServiceProperty::ManagedOOMMemoryPressureLimit)
    } else if s == "ManagedOOMPreference"@ {
        Some(ServiceProperty::ManagedOOMPreference)
    } else if s == "MemoryPressureWatch"@ {
        Some(ServiceProperty::MemoryPressureWatch)
    } else if s == "MemoryPressureThresholdUSec"@ {
        Some(ServiceProperty::MemoryPressureThresholdUSec)
    } else if s == "CoredumpReceive"@ {
        Some(ServiceProperty::CoredumpReceive)
    } else if s == "UMask"@ {
        Some(ServiceProperty::UMask)
    } else if s == "LimitCPU"@ {
        Some(ServiceProperty::LimitCPU)
    } else if s == "LimitCPUSoft"@ {
        Some(ServiceProperty::LimitCPUSoft)
    } else if s == "LimitFSIZE"@ {
        Some(ServiceProperty::LimitFSIZE)
    } else if s == "LimitFSIZESoft"@ {
        Some(ServiceProperty::LimitFSIZESoft)
    } else if s == "LimitDATA"@ {
        Some(ServiceProperty::LimitDATA)
    } else if s == "LimitDATASoft"@ {
        Some(ServiceProperty::LimitDATASoft)
    } else if s == "LimitSTACK"@ {
        Some(ServiceProperty::LimitSTACK)
    } else if s == "LimitSTACKSoft"@ {
        Some(ServiceProperty::LimitSTACKSoft)
    } else if s == "LimitCORE"@ {
        Some(ServiceProperty::LimitCORE)
    } else if s == "LimitCORESoft"@ {
        Some(ServiceProperty::LimitCORESoft)
    } else if s == "LimitRSS"@ {
        Some(ServiceProperty::LimitRSS)
    } else if s == "LimitRSSSoft"@ {
        Some(ServiceProperty::LimitRSSSoft)
    } else if s == "LimitNOFILE"@ {
        Some(ServiceProperty::LimitNOFILE)
    } else if s == "LimitNOFILESoft"@ {
        Some(ServiceProperty::LimitNOFILESoft)
    } else if s == "LimitAS"@ {
        Some(ServiceProperty::LimitAS)
    } else if s == "LimitASSoft"@ {
        Some(ServiceProperty::LimitASSoft)
    } else if s == "LimitNPROC"@ {
        Some(ServiceProperty::LimitNPROC)
    } else if s == "LimitNPROCSoft"@ {
        Some(ServiceProperty::LimitNPROCSoft)
    } else if s == "LimitMEMLOCK"@ {
        Some(ServiceProperty::LimitMEMLOCK)
    } else if s == "LimitMEMLOCKSoft"@ {
        Some(ServiceProperty::LimitMEMLOCKSoft)
    } else if s == "LimitLOCKS"@ {
        Some(ServiceProperty::LimitLOCKS)
    } else if s == "LimitLOCKSSoft"@ {
        Some(ServiceProperty::LimitLOCKSSoft)
    } else if s == "LimitSIGPENDING"@ {
        Some(ServiceProperty::LimitSIGPENDING)
    } else if s == "LimitSIGPENDINGSoft"@ {
        Some(ServiceProperty::LimitSIGPENDINGSoft)
    } else if s == "LimitMSGQUEUE"@ {
        Some(ServiceProperty::LimitMSGQUEUE)
    } else if s == "LimitMSGQUEUESoft"@ {
        Some(ServiceProperty::LimitMSGQUEUESoft)
    } else if s == "LimitNICE"@ {
        Some(ServiceProperty::LimitNICE)
    } else if s == "LimitNICESoft"@ {
        Some(ServiceProperty::LimitNICESoft)
    } else if s == "LimitRTPRIO"@ {
        Some(ServiceProperty::LimitRTPRIO)
    } else if s == "LimitRTPRIOSoft"@ {
        Some(ServiceProperty::LimitRTPRIOSoft)
    } else if s == "LimitRTTIME"@ {
        Some(ServiceProperty::LimitRTTIME)
    } else if s == "LimitRTTIMESoft"@ {
        Some(ServiceProperty::LimitRTTIMESoft)
    } else if s == "RootEphemeral"@ {
        Some(ServiceProperty::RootEphemeral)
    } else if s == "OOMScoreAdjust"@ {
        Some(ServiceProperty::OOMScoreAdjust)
    } else if s == "CoredumpFilter"@ {
        Some(ServiceProperty::CoredumpFilter)
    } else if s == "Nice"@ {
        Some(ServiceProperty::Nice)
    } else if s == "IOSchedulingClass"@ {
        Some(ServiceProperty::IOSchedulingClass)
    } else if s == "IOSchedulingPriority"@ {
        Some(ServiceProperty::IOSchedulingPriority)
    } else if s == "CPUSchedulingPolicy"@ {
        Some(ServiceProperty::CPUSchedulingPolicy)
    } else if s == "CPUSchedulingPriority"@ {
        Some(ServiceProperty::CPUSchedulingPriority)
    } else if s == "CPUAffinityFromNUMA"@ {
        Some(ServiceProperty::CPUAffinityFromNUMA)
    } else if s == "NUMAPolicy"@ {
        Some(ServiceProperty::NUMAPolicy)
    } else if s == "TimerSlackNSec"@ {
        Some(ServiceProperty::TimerSlackNSec)
    } else if s == "CPUSchedulingResetOnFork"@ {
        Some(ServiceProperty::CPUSchedulingResetOnFork)
    } else if s == "NonBlocking"@ {
        Some(ServiceProperty::NonBlocking)
    } else if s == "StandardInput"@ {
        Some(ServiceProperty::StandardInput)
    } else if s == "StandardOutput"@ {
        Some(ServiceProperty::StandardOutput)
    } else if s == "StandardError"@ {
        Some(ServiceProperty::StandardError)
    } else if s == "TTYReset"@ {
        Some(ServiceProperty::TTYReset)
    } else if s == "TTYVHangup"@ {
        Some(ServiceProperty::TTYVHangup)
    } else if s == "TTYVTDisallocate"@ {
        Some(ServiceProperty::TTYVTDisallocate)
    } else if s == "SyslogPriority"@ {
        Some(ServiceProperty::SyslogPriority)
    } else if s == "SyslogLevelPrefix"@ {
        Some(ServiceProperty::SyslogLevelPrefix)
    } else if s == "SyslogLevel"@ {
        Some(ServiceProperty::SyslogLevel)
    } else if s == "SyslogFacility"@ {
        Some(ServiceProperty::SyslogFacility)
    } else if s == "LogLevelMax"@ {
        Some(ServiceProperty::LogLevelMax)
    } else if s == "LogRateLimitIntervalUSec"@ {
        Some(ServiceProperty::LogRateLimitIntervalUSec)
    } else if s == "LogRateLimitBurst"@ {
        Some(ServiceProperty::LogRateLimitBurst)
    } else if s == "SecureBits"@ {
        Some(ServiceProperty::SecureBits)
    } else if s == "CapabilityBoundingSet"@ {
        Some(ServiceProperty::CapabilityBoundingSet)
    } else if s == "DynamicUser"@ {
        Some(ServiceProperty::DynamicUser)
    } else if s == "SetLoginEnvironment"@ {
        Some(ServiceProperty::SetLoginEnvironment)
    } else if s == "RemoveIPC"@ {
        Some(ServiceProperty::RemoveIPC)
    } else if s == "PrivateTmp"@ {
        Some(ServiceProperty::PrivateTmp)
    } else if s == "PrivateDevices"@ {
        Some(ServiceProperty::PrivateDevices)
    } else if s == "ProtectClock"@ {
        Some(ServiceProperty::ProtectClock)
    } else if s == "ProtectKernelTunables"@ {
        Some(ServiceProperty::ProtectKernelTunables)
    } else if s == "ProtectKernelModules"@ {
        Some(ServiceProperty::ProtectKernelModules)
    } else if s == "ProtectKernelLogs"@ {
        Some(ServiceProperty::ProtectKernelLogs)
    } else if s == "ProtectControlGroups"@ {
        Some(ServiceProperty::ProtectControlGroups)
    } else if s == "PrivateNetwork"@ {
        Some(ServiceProperty::PrivateNetwork)
    } else if s == "PrivateUsers"@ {
        Some(ServiceProperty::PrivateUsers)
    } else if s == "PrivateMounts"@ {
        Some(ServiceProperty::PrivateMounts)
    } else if s == "PrivateIPC"@ {
        Some(ServiceProperty::PrivateIPC)
    } else if s == "ProtectHome"@ {
        Some(ServiceProperty::ProtectHome)
    } else if s == "ProtectSystem"@ {
        Some(ServiceProperty::ProtectSystem)
    } else if s == "SameProcessGroup"@ {
        Some(ServiceProperty::SameProcessGroup)
    } else if s == "UtmpMode"@ {
        Some(ServiceProperty::UtmpMode)
    } else if s == "IgnoreSIGPIPE"@ {
        Some(ServiceProperty::IgnoreSIGPIPE)
    } else if s == "NoNewPrivileges"@ {
        Some(ServiceProperty::NoNewPrivileges)
    } else if s == "SystemCallErrorNumber"@ {
        Some(ServiceProperty::SystemCallErrorNumber)
    } else if s == "LockPersonality"@ {
        Some(ServiceProperty::LockPersonality)
    } else if s == "RuntimeDirectoryPreserve"@ {
        Some(ServiceProperty::RuntimeDirectoryPreserve)
    } else if s == "RuntimeDirectoryMode"@ {
        Some(ServiceProperty::RuntimeDirectoryMode)
    } else if s == "StateDirectoryMode"@ {
        Some(ServiceProperty::StateDirectoryMode)
    } else if s == "CacheDirectoryMode"@ {
        Some(ServiceProperty::CacheDirectoryMode)
    } else if s == "LogsDirectoryMode"@ {
        Some(ServiceProperty::LogsDirectoryMode)
    } else if s == "ConfigurationDirectoryMode"@ {
        Some(ServiceProperty::ConfigurationDirectoryMode)
    } else if s == "TimeoutCleanUSec"@ {
        Some(ServiceProperty::TimeoutCleanUSec)
    } else if s == "MemoryDenyWriteExecute"@ {
        Some(ServiceProperty::MemoryDenyWriteExecute)
    } else if s == "RestrictRealtime"@ {
        Some(ServiceProperty::RestrictRealtime)
    } else if s == "RestrictSUIDSGID"@ {
        Some(ServiceProperty::RestrictSUIDSGID)
    } else if s == "RestrictNamespaces"@ {
        Some(ServiceProperty::RestrictNamespaces)
    } else if s == "MountAPIVFS"@ {
        Some(ServiceProperty::MountAPIVFS)
    } else if s == "KeyringMode"@ {
        Some(ServiceProperty::KeyringMode)
    } else if s == "ProtectProc"@ {
        Some(ServiceProperty::ProtectProc)
    } else if s == "ProcSubset"@ {
        Some(ServiceProperty::ProcSubset)
    } else if s == "ProtectHostname"@ {
        Some(ServiceProperty::ProtectHostname)
    } else if s == "MemoryKSM"@ {
        Some(ServiceProperty::MemoryKSM)
    } else if s == "RootImagePolicy"@ {
        Some(ServiceProperty::RootImagePolicy)
    } else if s == "MountImagePolicy"@ {
        Some(ServiceProperty::MountImagePolicy)
    } else if s == "ExtensionImagePolicy"@ {
        Some(ServiceProperty::ExtensionImagePolicy)
    } else if s == "KillMode"@ {
        Some(ServiceProperty::KillMode)
    } else if s == "KillSignal"@ {
        Some(ServiceProperty::KillSignal)
    } else if s == "RestartKillSignal"@ {
        Some(ServiceProperty::RestartKillSignal)
    } else if s == "FinalKillSignal"@ {
        Some(ServiceProperty::FinalKillSignal)
    } else if s == "SendSIGKILL"@ {
        Some(ServiceProperty::SendSIGKILL)
    } else if s == "SendSIGHUP"@ {
        Some(ServiceProperty::SendSIGHUP)
    } else if s == "WatchdogSignal"@ {
        Some(ServiceProperty::WatchdogSignal)
    } else if s == "Id"@ {
        Some(ServiceProperty::Id)
    } else if s == "Names"@ {
        Some(ServiceProperty::Names)
    } else if s == "Requires"@ {
        Some(ServiceProperty::Requires)
    } else if s == "Wants"@ {
        Some(ServiceProperty::Wants)
    } else if s == "BindsTo"@ {
        Some(ServiceProperty::BindsTo)
    } else if s == "RequiredBy"@ {
        Some(ServiceProperty::RequiredBy)
    } else if s == "WantedBy"@ {
        Some(ServiceProperty::WantedBy)
    } else if s == "Conflicts"@ {
        Some(ServiceProperty::Conflicts)
    } else if s == "Before"@ {
        Some(ServiceProperty::Before)
    } else if s == "After"@ {
        Some(ServiceProperty::After)
    } else if s == "Documentation"@ {
        Some(ServiceProperty::Documentation)
    } else if s == "Description"@ {
        Some(ServiceProperty::Description)
    } else if s == "LoadState"@ {
        Some(ServiceProperty::LoadState)
    } else if s == "ActiveState"@ {
        Some(ServiceProperty::ActiveState)
    } else if s == "FreezerState"@ {
        Some(ServiceProperty::FreezerState)
    } else if s == "SubState"@ {
        Some(ServiceProperty::SubState)
    } else if s == "FragmentPath"@ {
        Some(ServiceProperty::FragmentPath)
    } else if s == "UnitFileState"@ {
        Some(ServiceProperty::UnitFileState)
    } else if s == "UnitFilePreset"@ {
        Some(ServiceProperty::UnitFilePreset)
    } else if s == "StateChangeTimestamp"@ {
        Some(ServiceProperty::StateChangeTimestamp)
    } else if s == "StateChangeTimestampMonotonic"@ {
        Some(ServiceProperty::StateChangeTimestampMonotonic)
    } else if s == "InactiveExitTimestamp"@ {
        Some(ServiceProperty::InactiveExitTimestamp)
    } else if s == "InactiveExitTimestampMonotonic"@ {
        Some(ServiceProperty::InactiveExitTimestampMonotonic)
    } else if s == "ActiveEnterTimestamp"@ {
        Some(ServiceProperty::ActiveEnterTimestamp)
    } else if s == "ActiveEnterTimestampMonotonic"@ {
        Some(ServiceProperty::ActiveEnterTimestampMonotonic)
    } else if s == "ActiveExitTimestamp"@ {
        Some(ServiceProperty::ActiveExitTimestamp)
    } else if s == "ActiveExitTimestampMonotonic"@ {
        Some(ServiceProperty::ActiveExitTimestampMonotonic)
    } else if s == "InactiveEnterTimestamp"@ {
        Some(ServiceProperty::InactiveEnterTimestamp)
    } else if s == "InactiveEnterTimestampMonotonic"@ {
        Some(ServiceProperty::InactiveEnterTimestampMonotonic)
    } else if s == "CanStart"@ {
        Some(ServiceProperty::CanStart)
    } else if s == "CanStop"@ {
        Some(ServiceProperty::CanStop)
    } else if s == "CanReload"@ {
        Some(ServiceProperty::CanReload)
    } else if s == "CanIsolate"@ {
        Some(ServiceProperty::CanIsolate)
    } else if s == "CanFreeze"@ {
        Some(ServiceProperty::CanFreeze)
    } else if s == "StopWhenUnneeded"@ {
        Some(ServiceProperty::StopWhenUnneeded)
    } else if s == "RefuseManualStart"@ {
        Some(ServiceProperty::RefuseManualStart)
    } else if s == "RefuseManualStop"@ {
        Some(ServiceProperty::RefuseManualStop)
    } else if s == "AllowIsolate"@ {
        Some(ServiceProperty::AllowIsolate)
    } else if s == "DefaultDependencies"@ {
        Some(ServiceProperty::DefaultDependencies)
    } else if s == "SurviveFinalKillSignal"@ {
        Some(ServiceProperty::SurviveFinalKillSignal)
    } else if s == "OnSuccessJobMode"@ {
        Some(ServiceProperty::OnSuccessJobMode)
    } else if s == "OnFailureJobMode"@ {
        Some(ServiceProperty::OnFailureJobMode)
    } else if s == "IgnoreOnIsolate"@ {
        Some(ServiceProperty::IgnoreOnIsolate)
    } else if s == "NeedDaemonReload"@ {
        Some(ServiceProperty::NeedDaemonReload)
    } else if s == "JobTimeoutUSec"@ {
        Some(ServiceProperty::JobTimeoutUSec)
    } else if s == "JobRunningTimeoutUSec"@ {
        Some(ServiceProperty::JobRunningTimeoutUSec)
    } else if s == "JobTimeoutAction"@ {
        Some(ServiceProperty::JobTimeoutAction)
    } else if s == "ConditionResult"@ {
        Some(ServiceProperty::ConditionResult)
    } else if s == "AssertResult"@ {
        Some(ServiceProperty::AssertResult)
    } else if s == "ConditionTimestamp"@ {
        Some(ServiceProperty::ConditionTimestamp)
    } else if s == "ConditionTimestampMonotonic"@ {
        Some(ServiceProperty::ConditionTimestampMonotonic)
    } else if s == "AssertTimestamp"@ {
        Some(ServiceProperty::AssertTimestamp)
    } else if s == "AssertTimestampMonotonic"@ {
        Some(ServiceProperty::AssertTimestampMonotonic)
    } else if s == "Transient"@ {
        Some(ServiceProperty::Transient)
    } else if s == "Perpetual"@ {
        Some(ServiceProperty::Perpetual)
    } else if s == "StartLimitIntervalUSec"@ {
        Some(ServiceProperty::StartLimitIntervalUSec)
    } else if s == "StartLimitBurst"@ {
        Some(ServiceProperty::StartLimitBurst)
    } else if s == "StartLimitAction"@ {
        Some(ServiceProperty::StartLimitAction)
    } else if s == "FailureAction"@ {
        Some(ServiceProperty::FailureAction)
    } else if s == "SuccessAction"@ {
        Some(ServiceProperty::SuccessAction)
    } else if s == "InvocationID"@ {
        Some(ServiceProperty::InvocationID)
    } else if s == "CollectMode"@ {
        Some(ServiceProperty::CollectMode)
    } else {
        None
    }
}

impl ServiceProperty {
    /// The name of this property.
    pub fn as_str(&self) -> (r: &'static str)
        ensures
            r@ == property_name(*self),
    {
        match self {
            ServiceProperty::Type => "Type",
            ServiceProperty::ExitType => "ExitType",
            ServiceProperty::Restart => "Restart",
            ServiceProperty::RestartMode => "RestartMode",
            ServiceProperty::NotifyAccess => "NotifyAccess",
            ServiceProperty::RestartUSec => "RestartUSec",
            ServiceProperty::RestartSteps => "RestartSteps",
            ServiceProperty::RestartMaxDelayUSec => "RestartMaxDelayUSec",
            ServiceProperty::RestartUSecNext => "RestartUSecNext",
            ServiceProperty::TimeoutStartUSec => "TimeoutStartUSec",
            ServiceProperty::TimeoutStopUSec => "TimeoutStopUSec",
            ServiceProperty::TimeoutAbortUSec => "TimeoutAbortUSec",
            ServiceProperty::TimeoutStartFailureMode => "TimeoutStartFailureMode",
            ServiceProperty::TimeoutStopFailureMode => "TimeoutStopFailureMode",
            ServiceProperty::RuntimeMaxUSec => "RuntimeMaxUSec",
            ServiceProperty::RuntimeRandomizedExtraUSec => "RuntimeRandomizedExtraUSec",
            ServiceProperty::WatchdogUSec => "WatchdogUSec",
            ServiceProperty::WatchdogTimestampMonotonic => "WatchdogTimestampMonotonic",
            ServiceProperty::RootDirectoryStartOnly => "RootDirectoryStartOnly",
            ServiceProperty::RemainAfterExit => "RemainAfterExit",
            ServiceProperty::GuessMainPID => "GuessMainPID",
            ServiceProperty::MainPID => "MainPID",
            ServiceProperty::ControlPID => "ControlPID",
            ServiceProperty::BusName => "BusName",
            ServiceProperty::FileDescriptorStoreMax => "FileDescriptorStoreMax",
            ServiceProperty::NFileDescriptorStore => "NFileDescriptorStore",
            ServiceProperty::FileDescriptorStorePreserve => "FileDescriptorStorePreserve",
            ServiceProperty::StatusErrno => "StatusErrno",
            ServiceProperty::Result => "Result",
            ServiceProperty::ReloadResult => "ReloadResult",
            ServiceProperty::CleanResult => "CleanResult",
            ServiceProperty::UID => "UID",
            ServiceProperty::GID => "GID",
            ServiceProperty::NRestarts => "NRestarts",
            ServiceProperty::OOMPolicy => "OOMPolicy",
            ServiceProperty::ReloadSignal => "ReloadSignal",
            ServiceProperty::ExecMainStartTimestamp => "ExecMainStartTimestamp",
            ServiceProperty::ExecMainStartTimestampMonotonic => "ExecMainStartTimestampMonotonic",
            ServiceProperty::ExecMainExitTimestampMonotonic => "ExecMainExitTimestampMonotonic",
            ServiceProperty::ExecMainHandoffTimestamp => "ExecMainHandoffTimestamp",
            ServiceProperty::ExecMainHandoffTimestampMonotonic => "ExecMainHandoffTimestampMonotonic",
            ServiceProperty::ExecMainPID => "ExecMainPID",
            ServiceProperty::ExecMainCode => "ExecMainCode",
            ServiceProperty::ExecMainStatus => "ExecMainStatus",
            ServiceProperty::ExecStart => "ExecStart",
            ServiceProperty::ExecStartEx => "ExecStartEx",
            ServiceProperty::ExecReload => "ExecReload",
            ServiceProperty::ExecReloadEx => "ExecReloadEx",
            ServiceProperty::Slice => "Slice",
            ServiceProperty::ControlGroup => "ControlGroup",
            ServiceProperty::ControlGroupId => "ControlGroupId",
            ServiceProperty::MemoryCurrent => "MemoryCurrent",
            ServiceProperty::MemoryPeak => "MemoryPeak",
            ServiceProperty::MemorySwapCurrent => "MemorySwapCurrent",
            ServiceProperty::MemorySwapPeak => "MemorySwapPeak",
            ServiceProperty::MemoryZSwapCurrent => "MemoryZSwapCurrent",
            ServiceProperty::MemoryAvailable => "MemoryAvailable",
            ServiceProperty::EffectiveMemoryMax => "EffectiveMemoryMax",
            ServiceProperty::EffectiveMemoryHigh => "EffectiveMemoryHigh",
            ServiceProperty::CPUUsageNSec => "CPUUsageNSec",
            ServiceProperty::TasksCurrent => "TasksCurrent",
            ServiceProperty::EffectiveTasksMax => "EffectiveTasksMax",
            ServiceProperty::IPIngressBytes => "IPIngressBytes",
            ServiceProperty::IPIngressPackets => "IPIngressPackets",
            ServiceProperty::IPEgressBytes => "IPEgressBytes",
            ServiceProperty::IPEgressPackets => "IPEgressPackets",
            ServiceProperty::IOReadBytes => "IOReadBytes",
            ServiceProperty::IOReadOperations => "IOReadOperations",
            ServiceProperty::IOWriteBytes => "IOWriteBytes",
            ServiceProperty::IOWriteOperations => "IOWriteOperations",
            ServiceProperty::Delegate => "Delegate",
            ServiceProperty::CPUAccounting => "CPUAccounting",
            ServiceProperty::CPUWeight => "CPUWeight",
            ServiceProperty::StartupCPUWeight => "StartupCPUWeight",
            ServiceProperty::CPUShares => "CPUShares",
            ServiceProperty::StartupCPUShares => "StartupCPUShares",
            ServiceProperty::CPUQuotaPerSecUSec => "CPUQuotaPerSecUSec",
            ServiceProperty::CPUQuotaPeriodUSec => "CPUQuotaPeriodUSec",
            ServiceProperty::IOAccounting => "IOAccounting",
            ServiceProperty::IOWeight => "IOWeight",
            ServiceProperty::StartupIOWeight => "StartupIOWeight",
            ServiceProperty::BlockIOAccounting => "BlockIOAccounting",
            ServiceProperty::BlockIOWeight => "BlockIOWeight",
            ServiceProperty::StartupBlockIOWeight => "StartupBlockIOWeight",
            ServiceProperty::MemoryAccounting => "MemoryAccounting",
            ServiceProperty::DefaultMemoryLow => "DefaultMemoryLow",
            ServiceProperty::DefaultStartupMemoryLow => "DefaultStartupMemoryLow",
            ServiceProperty::DefaultMemoryMin => "DefaultMemoryMin",
            ServiceProperty::MemoryMin => "MemoryMin",
            ServiceProperty::MemoryLow => "MemoryLow",
            ServiceProperty::StartupMemoryLow => "StartupMemoryLow",
            ServiceProperty::MemoryHigh => "MemoryHigh",
            ServiceProperty::StartupMemoryHigh => "StartupMemoryHigh",
            ServiceProperty::MemoryMax => "MemoryMax",
            ServiceProperty::StartupMemoryMax => "StartupMemoryMax",
            ServiceProperty::MemorySwapMax => "MemorySwapMax",
            ServiceProperty::StartupMemorySwapMax => "StartupMemorySwapMax",
            ServiceProperty::MemoryZSwapMax => "MemoryZSwapMax",
            ServiceProperty::StartupMemoryZSwapMax => "StartupMemoryZSwapMax",
            ServiceProperty::MemoryZSwapWriteback => "MemoryZSwapWriteback",
            ServiceProperty::MemoryLimit => "MemoryLimit",
            ServiceProperty::DevicePolicy => "DevicePolicy",
            ServiceProperty::TasksAccounting => "TasksAccounting",
            ServiceProperty::TasksMax => "TasksMax",
            ServiceProperty::IPAccounting => "IPAccounting",
            ServiceProperty::ManagedOOMSwap => "ManagedOOMSwap",
            ServiceProperty::ManagedOOMMemoryPressure => "ManagedOOMMemoryPressure",
            ServiceProperty::ManagedOOMMemoryPressureLimit => "ManagedOOMMemoryPressureLimit",
            ServiceProperty::ManagedOOMPreference => "ManagedOOMPreference",
            ServiceProperty::MemoryPressureWatch => "MemoryPressureWatch",
            ServiceProperty::MemoryPressureThresholdUSec => "MemoryPressureThresholdUSec",
            ServiceProperty::CoredumpReceive => "CoredumpReceive",
            ServiceProperty::UMask => "UMask",
            ServiceProperty::LimitCPU => "LimitCPU",
            ServiceProperty::LimitCPUSoft => "LimitCPUSoft",
            ServiceProperty::LimitFSIZE => "LimitFSIZE",
            ServiceProperty::LimitFSIZESoft => "LimitFSIZESoft",
            ServiceProperty::LimitDATA => "LimitDATA",
            ServiceProperty::LimitDATASoft => "LimitDATASoft",
            ServiceProperty::LimitSTACK => "LimitSTACK",
            ServiceProperty::LimitSTACKSoft => "LimitSTACKSoft",
            ServiceProperty::LimitCORE => "LimitCORE",
            ServiceProperty::LimitCORESoft => "LimitCORESoft",
            ServiceProperty::LimitRSS => "LimitRSS",
            ServiceProperty::LimitRSSSoft => "LimitRSSSoft",
            ServiceProperty::LimitNOFILE => "LimitNOFILE",
            ServiceProperty::LimitNOFILESoft => "LimitNOFILESoft",
            ServiceProperty::LimitAS => "LimitAS",
            ServiceProperty::LimitASSoft => "LimitASSoft",
            ServiceProperty::LimitNPROC => "LimitNPROC",
            ServiceProperty::LimitNPROCSoft => "LimitNPROCSoft",
            ServiceProperty::LimitMEMLOCK => "LimitMEMLOCK",
            ServiceProperty::LimitMEMLOCKSoft => "LimitMEMLOCKSoft",
            ServiceProperty::LimitLOCKS => "LimitLOCKS",
            ServiceProperty::LimitLOCKSSoft => "LimitLOCKSSoft",
            ServiceProperty::LimitSIGPENDING => "LimitSIGPENDING",
            ServiceProperty::LimitSIGPENDINGSoft => "LimitSIGPENDINGSoft",
            ServiceProperty::LimitMSGQUEUE => "LimitMSGQUEUE",
            ServiceProperty::LimitMSGQUEUESoft => "LimitMSGQUEUESoft",
            ServiceProperty::LimitNICE => "LimitNICE",
            ServiceProperty::LimitNICESoft => "LimitNICESoft",
            ServiceProperty::LimitRTPRIO => "LimitRTPRIO",
            ServiceProperty::LimitRTPRIOSoft => "LimitRTPRIOSoft",
            ServiceProperty::LimitRTTIME => "LimitRTTIME",
            ServiceProperty::LimitRTTIMESoft => "LimitRTTIMESoft",
            ServiceProperty::RootEphemeral => "RootEphemeral",
            ServiceProperty::OOMScoreAdjust => "OOMScoreAdjust",
            ServiceProperty::CoredumpFilter => "CoredumpFilter",
            ServiceProperty::Nice => "Nice",
            ServiceProperty::IOSchedulingClass => "IOSchedulingClass",
            ServiceProperty::IOSchedulingPriority => "IOSchedulingPriority",
            ServiceProperty::CPUSchedulingPolicy => "CPUSchedulingPolicy",
            ServiceProperty::CPUSchedulingPriority => "CPUSchedulingPriority",
            ServiceProperty::CPUAffinityFromNUMA => "CPUAffinityFromNUMA",
            ServiceProperty::NUMAPolicy => "NUMAPolicy",
            ServiceProperty::TimerSlackNSec => "TimerSlackNSec",
            ServiceProperty::CPUSchedulingResetOnFork => "CPUSchedulingResetOnFork",
            ServiceProperty::NonBlocking => "NonBlocking",
            ServiceProperty::StandardInput => "StandardInput",
            ServiceProperty::StandardOutput => "StandardOutput",
            ServiceProperty::StandardError => "StandardError",
            ServiceProperty::TTYReset => "TTYReset",
            ServiceProperty::TTYVHangup => "TTYVHangup",
            ServiceProperty::TTYVTDisallocate => "TTYVTDisallocate",
            ServiceProperty::SyslogPriority => "SyslogPriority",
            ServiceProperty::SyslogLevelPrefix => "SyslogLevelPrefix",
            ServiceProperty::SyslogLevel => "SyslogLevel",
            ServiceProperty::SyslogFacility => "SyslogFacility",
            ServiceProperty::LogLevelMax => "LogLevelMax",
            ServiceProperty::LogRateLimitIntervalUSec => "LogRateLimitIntervalUSec",
            ServiceProperty::LogRateLimitBurst => "LogRateLimitBurst",
            ServiceProperty::SecureBits => "SecureBits",
            ServiceProperty::CapabilityBoundingSet => "CapabilityBoundingSet",
            ServiceProperty::DynamicUser => "DynamicUser",
            ServiceProperty::SetLoginEnvironment => "SetLoginEnvironment",
            ServiceProperty::RemoveIPC => "RemoveIPC",
            ServiceProperty::PrivateTmp => "PrivateTmp",
            ServiceProperty::PrivateDevices => "PrivateDevices",
            ServiceProperty::ProtectClock => "ProtectClock",
            ServiceProperty::ProtectKernelTunables => "ProtectKernelTunables",
            ServiceProperty::ProtectKernelModules => "ProtectKernelModules",
            ServiceProperty::ProtectKernelLogs => "ProtectKernelLogs",
            ServiceProperty::ProtectControlGroups => "ProtectControlGroups",
            ServiceProperty::PrivateNetwork => "PrivateNetwork",
            ServiceProperty::PrivateUsers => "PrivateUsers",
            ServiceProperty::PrivateMounts => "PrivateMounts",
            ServiceProperty::PrivateIPC => "PrivateIPC",
            ServiceProperty::ProtectHome => "ProtectHome",
            ServiceProperty::ProtectSystem => "ProtectSystem",
            ServiceProperty::SameProcessGroup => "SameProcessGroup",
            ServiceProperty::UtmpMode => "UtmpMode",
            ServiceProperty::IgnoreSIGPIPE => "IgnoreSIGPIPE",
            ServiceProperty::NoNewPrivileges => "NoNewPrivileges",
            ServiceProperty::SystemCallErrorNumber => "SystemCallErrorNumber",
            ServiceProperty::LockPersonality => "LockPersonality",
            ServiceProperty::RuntimeDirectoryPreserve => "RuntimeDirectoryPreserve",
            ServiceProperty::RuntimeDirectoryMode => "RuntimeDirectoryMode",
            ServiceProperty::StateDirectoryMode => "StateDirectoryMode",
            ServiceProperty::CacheDirectoryMode => "CacheDirectoryMode",
            ServiceProperty::LogsDirectoryMode => "LogsDirectoryMode",
            ServiceProperty::ConfigurationDirectoryMode => "ConfigurationDirectoryMode",
            ServiceProperty::TimeoutCleanUSec => "TimeoutCleanUSec",
            ServiceProperty::MemoryDenyWriteExecute => "MemoryDenyWriteExecute",
            ServiceProperty::RestrictRealtime => "RestrictRealtime",
            ServiceProperty::RestrictSUIDSGID => "RestrictSUIDSGID",
            ServiceProperty::RestrictNamespaces => "RestrictNamespaces",
            ServiceProperty::MountAPIVFS => "MountAPIVFS",
            ServiceProperty::KeyringMode => "KeyringMode",
            ServiceProperty::ProtectProc => "ProtectProc",
            ServiceProperty::ProcSubset => "ProcSubset",
            ServiceProperty::ProtectHostname => "ProtectHostname",
            ServiceProperty::MemoryKSM => "MemoryKSM",
            ServiceProperty::RootImagePolicy => "RootImagePolicy",
            ServiceProperty::MountImagePolicy => "MountImagePolicy",
            ServiceProperty::ExtensionImagePolicy => "ExtensionImagePolicy",
            ServiceProperty::KillMode => "KillMode",
            ServiceProperty::KillSignal => "KillSignal",
            ServiceProperty::RestartKillSignal => "RestartKillSignal",
            ServiceProperty::FinalKillSignal => "FinalKillSignal",
            ServiceProperty::SendSIGKILL => "SendSIGKILL",
            ServiceProperty::SendSIGHUP => "SendSIGHUP",
            ServiceProperty::WatchdogSignal => "WatchdogSignal",
            ServiceProperty::Id => "Id",
            ServiceProperty::Names => "Names",
            ServiceProperty::Requires => "Requires",
            ServiceProperty::Wants => "Wants",
            ServiceProperty::BindsTo => "BindsTo",
            ServiceProperty::RequiredBy => "RequiredBy",
            ServiceProperty::WantedBy => "WantedBy",
            ServiceProperty::Conflicts => "Conflicts",
            ServiceProperty::Before => "Before",
            ServiceProperty::After => "After",
            ServiceProperty::Documentation => "Documentation",
            ServiceProperty::Description => "Description",
            ServiceProperty::LoadState => "LoadState",
            ServiceProperty::ActiveState => "ActiveState",
            ServiceProperty::FreezerState => "FreezerState",
            ServiceProperty::SubState => "SubState",
            ServiceProperty::FragmentPath => "FragmentPath",
            ServiceProperty::UnitFileState => "UnitFileState",
            ServiceProperty::UnitFilePreset => "UnitFilePreset",
            ServiceProperty::StateChangeTimestamp => "StateChangeTimestamp",
            ServiceProperty::StateChangeTimestampMonotonic => "StateChangeTimestampMonotonic",
            ServiceProperty::InactiveExitTimestamp => "InactiveExitTimestamp",
            ServiceProperty::InactiveExitTimestampMonotonic => "InactiveExitTimestampMonotonic",
            ServiceProperty::ActiveEnterTimestamp => "ActiveEnterTimestamp",
            ServiceProperty::ActiveEnterTimestampMonotonic => "ActiveEnterTimestampMonotonic",
            ServiceProperty::ActiveExitTimestamp => "ActiveExitTimestamp",
            ServiceProperty::ActiveExitTimestampMonotonic => "ActiveExitTimestampMonotonic",
            ServiceProperty::InactiveEnterTimestamp => "InactiveEnterTimestamp",
            ServiceProperty::InactiveEnterTimestampMonotonic => "InactiveEnterTimestampMonotonic",
            ServiceProperty::CanStart => "CanStart",
            ServiceProperty::CanStop => "CanStop",
            ServiceProperty::CanReload => "CanReload",
            ServiceProperty::CanIsolate => "CanIsolate",
            ServiceProperty::CanFreeze => "CanFreeze",
            ServiceProperty::StopWhenUnneeded => "StopWhenUnneeded",
            ServiceProperty::RefuseManualStart => "RefuseManualStart",
            ServiceProperty::RefuseManualStop => "RefuseManualStop",
            ServiceProperty::AllowIsolate => "AllowIsolate",
            ServiceProperty::DefaultDependencies => "DefaultDependencies",
            ServiceProperty::SurviveFinalKillSignal => "SurviveFinalKillSignal",
            ServiceProperty::OnSuccessJobMode => "OnSuccessJobMode",
            ServiceProperty::OnFailureJobMode => "OnFailureJobMode",
            ServiceProperty::IgnoreOnIsolate => "IgnoreOnIsolate",
            ServiceProperty::NeedDaemonReload => "NeedDaemonReload",
            ServiceProperty::JobTimeoutUSec => "JobTimeoutUSec",
            ServiceProperty::JobRunningTimeoutUSec => "JobRunningTimeoutUSec",
            ServiceProperty::JobTimeoutAction => "JobTimeoutAction",
            ServiceProperty::ConditionResult => "ConditionResult",
            ServiceProperty::AssertResult => "AssertResult",
            ServiceProperty::ConditionTimestamp => "ConditionTimestamp",
            ServiceProperty::ConditionTimestampMonotonic => "ConditionTimestampMonotonic",
            ServiceProperty::AssertTimestamp => "AssertTimestamp",
            ServiceProperty::AssertTimestampMonotonic => "AssertTimestampMonotonic",
            ServiceProperty::Transient => "Transient",
            ServiceProperty::Perpetual => "Perpetual",
            ServiceProperty::StartLimitIntervalUSec => "StartLimitIntervalUSec",
            ServiceProperty::StartLimitBurst => "StartLimitBurst",
            ServiceProperty::StartLimitAction => "StartLimitAction",
            ServiceProperty::FailureAction => "FailureAction",
            ServiceProperty::SuccessAction => "SuccessAction",
            ServiceProperty::InvocationID => "InvocationID",
            ServiceProperty::CollectMode => "CollectMode",
        }
    }

    /// The property named `s`, matched exactly.
    pub fn from_name(s: &str) -> (r: Option<ServiceProperty>)
        ensures
            r == property_named(s@),
    {
        let v = chars_of(s);
        if same_as(&v, "Type") {
            Some(ServiceProperty::Type)
        } else if same_as(&v, "ExitType") {
            Some(ServiceProperty::ExitType)
        } else if same_as(&v, "Restart") {
            Some(ServiceProperty::Restart)
        } else if same_as(&v, "RestartMode") {
            Some(ServiceProperty::RestartMode)
        } else if same_as(&v, "NotifyAccess") {
            Some(ServiceProperty::NotifyAccess)
        } else if same_as(&v, "RestartUSec") {
            Some(ServiceProperty::RestartUSec)
        } else if same_as(&v, "RestartSteps") {
            Some(ServiceProperty::RestartSteps)
        } else if same_as(&v, "RestartMaxDelayUSec") {
            Some(ServiceProperty::RestartMaxDelayUSec)
        } else if same_as(&v, "RestartUSecNext") {
            Some(ServiceProperty::RestartUSecNext)
        } else if same_as(&v, "TimeoutStartUSec") {
            Some(ServiceProperty::TimeoutStartUSec)
        } else if same_as(&v, "TimeoutStopUSec") {
            Some(ServiceProperty::TimeoutStopUSec)
        } else if same_as(&v, "TimeoutAbortUSec") {
            Some(ServiceProperty::TimeoutAbortUSec)
        } else if same_as(&v, "TimeoutStartFailureMode") {
            Some(ServiceProperty::TimeoutStartFailureMode)
        } else if same_as(&v, "TimeoutStopFailureMode") {
            Some(ServiceProperty::TimeoutStopFailureMode)
        } else if same_as(&v, "RuntimeMaxUSec") {
            Some(ServiceProperty::RuntimeMaxUSec)
        } else if same_as(&v, "RuntimeRandomizedExtraUSec") {
            Some(ServiceProperty::RuntimeRandomizedExtraUSec)
        } else if same_as(&v, "WatchdogUSec") {
            Some(ServiceProperty::WatchdogUSec)
        } else if same_as(&v, "WatchdogTimestampMonotonic") {
            Some(ServiceProperty::WatchdogTimestampMonotonic)
        } else if same_as(&v, "RootDirectoryStartOnly") {
            Some(ServiceProperty::RootDirectoryStartOnly)
        } else if same_as(&v, "RemainAfterExit") {
            Some(ServiceProperty::RemainAfterExit)
        } else if same_as(&v, "GuessMainPID") {
            Some(ServiceProperty::GuessMainPID)
        } else if same_as(&v, "MainPID") {
            Some(ServiceProperty::MainPID)
        } else if same_as(&v, "ControlPID") {
            Some(ServiceProperty::ControlPID)
        } else if same_as(&v, "BusName") {
            Some(ServiceProperty::BusName)
        } else if same_as(&v, "FileDescriptorStoreMax") {
            Some(ServiceProperty::FileDescriptorStoreMax)
        } else if same_as(&v, "NFileDescriptorStore") {
            Some(ServiceProperty::NFileDescriptorStore)
        } else if same_as(&v, "FileDescriptorStorePreserve") {
            Some(ServiceProperty::FileDescriptorStorePreserve)
        } else if same_as(&v, "StatusErrno") {
            Some(ServiceProperty::StatusErrno)
        } else if same_as(&v, "Result") {
            Some(ServiceProperty::Result)
        } else if same_as(&v, "ReloadResult") {
            Some(ServiceProperty::ReloadResult)
        } else if same_as(&v, "CleanResult") {
            Some(ServiceProperty::CleanResult)
        } else if same_as(&v, "UID") {
            Some(ServiceProperty::UID)
        } else if same_as(&v, "GID") {
            Some(ServiceProperty::GID)
        } else if same_as(&v, "NRestarts") {
            Some(ServiceProperty::NRestarts)
        } else if same_as(&v, "OOMPolicy") {
            Some(ServiceProperty::OOMPolicy)
        } else if same_as(&v, "ReloadSignal") {
            Some(ServiceProperty::ReloadSignal)
        } else if same_as(&v, "ExecMainStartTimestamp") {
            Some(ServiceProperty::ExecMainStartTimestamp)
        } else if same_as(&v, "ExecMainStartTimestampMonotonic") {
            Some(ServiceProperty::ExecMainStartTimestampMonotonic)
        } else if same_as(&v, "ExecMainExitTimestampMonotonic") {
            Some(ServiceProperty::ExecMainExitTimestampMonotonic)
        } else if same_as(&v, "ExecMainHandoffTimestamp") {
            Some(ServiceProperty::ExecMainHandoffTimestamp)
        } else if same_as(&v, "ExecMainHandoffTimestampMonotonic") {
            Some(ServiceProperty::ExecMainHandoffTimestampMonotonic)
        } else if same_as(&v, "ExecMainPID") {
            Some(ServiceProperty::ExecMainPID)
        } else if same_as(&v, "ExecMainCode") {
            Some(ServiceProperty::ExecMainCode)
        } else if same_as(&v, "ExecMainStatus") {
            Some(ServiceProperty::ExecMainStatus)
        } else if same_as(&v, "ExecStart") {
            Some(ServiceProperty::ExecStart)
        } else if same_as(&v, "ExecStartEx") {
            Some(ServiceProperty::ExecStartEx)
        } else if same_as(&v, "ExecReload") {
            Some(ServiceProperty::ExecReload)
        } else if same_as(&v, "ExecReloadEx") {
            Some(ServiceProperty::ExecReloadEx)
        } else if same_as(&v, "Slice") {
            Some(ServiceProperty::Slice)
        } else if same_as(&v, "ControlGroup") {
            Some(ServiceProperty::ControlGroup)
        } else if same_as(&v, "ControlGroupId") {
            Some(ServiceProperty::ControlGroupId)
        } else if same_as(&v, "MemoryCurrent") {
            Some(ServiceProperty::MemoryCurrent)
        } else if same_as(&v, "MemoryPeak") {
            Some(ServiceProperty::MemoryPeak)
        } else if same_as(&v, "MemorySwapCurrent") {
            Some(ServiceProperty::MemorySwapCurrent)
        } else if same_as(&v, "MemorySwapPeak") {
            Some(ServiceProperty::MemorySwapPeak)
        } else if same_as(&v, "MemoryZSwapCurrent") {
            Some(ServiceProperty::MemoryZSwapCurrent)
        } else if same_as(&v, "MemoryAvailable") {
            Some(ServiceProperty::MemoryAvailable)
        } else if same_as(&v, "EffectiveMemoryMax") {
            Some(ServiceProperty::EffectiveMemoryMax)
        } else if same_as(&v, "EffectiveMemoryHigh") {
            Some(ServiceProperty::EffectiveMemoryHigh)
        } else if same_as(&v, "CPUUsageNSec") {
            Some(ServiceProperty::CPUUsageNSec)
        } else if same_as(&v, "TasksCurrent") {
            Some(ServiceProperty::TasksCurrent)
        } else if same_as(&v, "EffectiveTasksMax") {
            Some(ServiceProperty::EffectiveTasksMax)
        } else if same_as(&v, "IPIngressBytes") {
            Some(ServiceProperty::IPIngressBytes)
        } else if same_as(&v, "IPIngressPackets") {
            Some(ServiceProperty::IPIngressPackets)
        } else if same_as(&v, "IPEgressBytes") {
            Some(ServiceProperty::IPEgressBytes)
        } else if same_as(&v, "IPEgressPackets") {
            Some(ServiceProperty::IPEgressPackets)
        } else if same_as(&v, "IOReadBytes") {
            Some(ServiceProperty::IOReadBytes)
        } else if same_as(&v, "IOReadOperations") {
            Some(ServiceProperty::IOReadOperations)
        } else if same_as(&v, "IOWriteBytes") {
            Some(ServiceProperty::IOWriteBytes)
        } else if same_as(&v, "IOWriteOperations") {
            Some(ServiceProperty::IOWriteOperations)
        } else if same_as(&v, "Delegate") {
            Some(ServiceProperty::Delegate)
        } else if same_as(&v, "CPUAccounting") {
            Some(ServiceProperty::CPUAccounting)
        } else if same_as(&v, "CPUWeight") {
            Some(ServiceProperty::CPUWeight)
        } else if same_as(&v, "StartupCPUWeight") {
            Some(ServiceProperty::StartupCPUWeight)
        } else if same_as(&v, "CPUShares") {
            Some(ServiceProperty::CPUShares)
        } else if same_as(&v, "StartupCPUShares") {
            Some(ServiceProperty::StartupCPUShares)
        } else if same_as(&v, "CPUQuotaPerSecUSec") {
            Some(ServiceProperty::CPUQuotaPerSecUSec)
        } else if same_as(&v, "CPUQuotaPeriodUSec") {
            Some(ServiceProperty::CPUQuotaPeriodUSec)
        } else if same_as(&v, "IOAccounting") {
            Some(ServiceProperty::IOAccounting)
        } else if same_as(&v, "IOWeight") {
            Some(ServiceProperty::IOWeight)
        } else if same_as(&v, "StartupIOWeight") {
            Some(ServiceProperty::StartupIOWeight)
        } else if same_as(&v, "BlockIOAccounting") {
            Some(ServiceProperty::BlockIOAccounting)
        } else if same_as(&v, "BlockIOWeight") {
            Some(ServiceProperty::BlockIOWeight)
        } else if same_as(&v, "StartupBlockIOWeight") {
            Some(ServiceProperty::StartupBlockIOWeight)
        } else if same_as(&v, "MemoryAccounting") {
            Some(ServiceProperty::MemoryAccounting)
        } else if same_as(&v, "DefaultMemoryLow") {
            Some(ServiceProperty::DefaultMemoryLow)
        } else if same_as(&v, "DefaultStartupMemoryLow") {
            Some(ServiceProperty::DefaultStartupMemoryLow)
        } else if same_as(&v, "DefaultMemoryMin") {
            Some(ServiceProperty::DefaultMemoryMin)
        } else if same_as(&v, "MemoryMin") {
            Some(ServiceProperty::MemoryMin)
        } else if same_as(&v, "MemoryLow") {
            Some(ServiceProperty::MemoryLow)
        } else if same_as(&v, "StartupMemoryLow") {
            Some(ServiceProperty::StartupMemoryLow)
        } else if same_as(&v, "MemoryHigh") {
            Some(ServiceProperty::MemoryHigh)
        } else if same_as(&v, "StartupMemoryHigh") {
            Some(ServiceProperty::StartupMemoryHigh)
        } else if same_as(&v, "MemoryMax") {
            Some(ServiceProperty::MemoryMax)
        } else if same_as(&v, "StartupMemoryMax") {
            Some(ServiceProperty::StartupMemoryMax)
        } else if same_as(&v, "MemorySwapMax") {
            Some(ServiceProperty::MemorySwapMax)
        } else if same_as(&v, "StartupMemorySwapMax") {
            Some(ServiceProperty::StartupMemorySwapMax)
        } else if same_as(&v, "MemoryZSwapMax") {
            Some(ServiceProperty::MemoryZSwapMax)
        } else if same_as(&v, "StartupMemoryZSwapMax") {
            Some(ServiceProperty::StartupMemoryZSwapMax)
        } else if same_as(&v, "MemoryZSwapWriteback") {
            Some(ServiceProperty::MemoryZSwapWriteback)
        } else if same_as(&v, "MemoryLimit") {
            Some(ServiceProperty::MemoryLimit)
        } else if same_as(&v, "DevicePolicy") {
            Some(ServiceProperty::DevicePolicy)
        } else if same_as(&v, "TasksAccounting") {
            Some(ServiceProperty::TasksAccounting)
        } else if same_as(&v, "TasksMax") {
            Some(ServiceProperty::TasksMax)
        } else if same_as(&v, "IPAccounting") {
            Some(ServiceProperty::IPAccounting)
        } else if same_as(&v, "ManagedOOMSwap") {
            Some(ServiceProperty::ManagedOOMSwap)
        } else if same_as(&v, "ManagedOOMMemoryPressure") {
            Some(ServiceProperty::ManagedOOMMemoryPressure)
        } else if same_as(&v, "ManagedOOMMemoryPressureLimit") {
            Some(ServiceProperty::ManagedOOMMemoryPressureLimit)
        } else if same_as(&v, "ManagedOOMPreference") {
            Some(ServiceProperty::ManagedOOMPreference)
        } else if same_as(&v, "MemoryPressureWatch") {
            Some(ServiceProperty::MemoryPressureWatch)
        } else if same_as(&v, "MemoryPressureThresholdUSec") {
            Some(ServiceProperty::MemoryPressureThresholdUSec)
        } else if same_as(&v, "CoredumpReceive") {
            Some(ServiceProperty::CoredumpReceive)
        } else if same_as(&v, "UMask") {
            Some(ServiceProperty::UMask)
        } else if same_as(&v, "LimitCPU") {
            Some(ServiceProperty::LimitCPU)
        } else if same_as(&v, "LimitCPUSoft") {
            Some(ServiceProperty::LimitCPUSoft)
        } else if same_as(&v, "LimitFSIZE") {
            Some(ServiceProperty::LimitFSIZE)
        } else if same_as(&v, "LimitFSIZESoft") {
            Some(ServiceProperty::LimitFSIZESoft)
        } else if same_as(&v, "LimitDATA") {
            Some(ServiceProperty::LimitDATA)
        } else if same_as(&v, "LimitDATASoft") {
            Some(ServiceProperty::LimitDATASoft)
        } else if same_as(&v, "LimitSTACK") {
            Some(ServiceProperty::LimitSTACK)
        } else if same_as(&v, "LimitSTACKSoft") {
            Some(ServiceProperty::LimitSTACKSoft)
        } else if same_as(&v, "LimitCORE") {
            Some(ServiceProperty::LimitCORE)
        } else if same_as(&v, "LimitCORESoft") {
            Some(ServiceProperty::LimitCORESoft)
        } else if same_as(&v, "LimitRSS") {
            Some(ServiceProperty::LimitRSS)
        } else if same_as(&v, "LimitRSSSoft") {
            Some(ServiceProperty::LimitRSSSoft)
        } else if same_as(&v, "LimitNOFILE") {
            Some(ServiceProperty::LimitNOFILE)
        } else if same_as(&v, "LimitNOFILESoft") {
            Some(ServiceProperty::LimitNOFILESoft)
        } else if same_as(&v, "LimitAS") {
            Some(ServiceProperty::LimitAS)
        } else if same_as(&v, "LimitASSoft") {
            Some(ServiceProperty::LimitASSoft)
        } else if same_as(&v, "LimitNPROC") {
            Some(ServiceProperty::LimitNPROC)
        } else if same_as(&v, "LimitNPROCSoft") {
            Some(ServiceProperty::LimitNPROCSoft)
        } else if same_as(&v, "LimitMEMLOCK") {
            Some(ServiceProperty::LimitMEMLOCK)
        } else if same_as(&v, "LimitMEMLOCKSoft") {
            Some(ServiceProperty::LimitMEMLOCKSoft)
        } else if same_as(&v, "LimitLOCKS") {
            Some(ServiceProperty::LimitLOCKS)
        } else if same_as(&v, "LimitLOCKSSoft") {
            Some(ServiceProperty::LimitLOCKSSoft)
        } else if same_as(&v, "LimitSIGPENDING") {
            Some(ServiceProperty::LimitSIGPENDING)
        } else if same_as(&v, "LimitSIGPENDINGSoft") {
            Some(ServiceProperty::LimitSIGPENDINGSoft)
        } else if same_as(&v, "LimitMSGQUEUE") {
            Some(ServiceProperty::LimitMSGQUEUE)
        } else if same_as(&v, "LimitMSGQUEUESoft") {
            Some(ServiceProperty::LimitMSGQUEUESoft)
        } else if same_as(&v, "LimitNICE") {
            Some(ServiceProperty::LimitNICE)
        } else if same_as(&v, "LimitNICESoft") {
            Some(ServiceProperty::LimitNICESoft)
        } else if same_as(&v, "LimitRTPRIO") {
            Some(ServiceProperty::LimitRTPRIO)
        } else if same_as(&v, "LimitRTPRIOSoft") {
            Some(ServiceProperty::LimitRTPRIOSoft)
        } else if same_as(&v, "LimitRTTIME") {
            Some(ServiceProperty::LimitRTTIME)
        } else if same_as(&v, "LimitRTTIMESoft") {
            Some(ServiceProperty::LimitRTTIMESoft)
        } else if same_as(&v, "RootEphemeral") {
            Some(ServiceProperty::RootEphemeral)
        } else if same_as(&v, "OOMScoreAdjust") {
            Some(ServiceProperty::OOMScoreAdjust)
        } else if same_as(&v, "CoredumpFilter") {
            Some(ServiceProperty::CoredumpFilter)
        } else if same_as(&v, "Nice") {
            Some(ServiceProperty::Nice)
        } else if same_as(&v, "IOSchedulingClass") {
            Some(ServiceProperty::IOSchedulingClass)
        } else if same_as(&v, "IOSchedulingPriority") {
            Some(ServiceProperty::IOSchedulingPriority)
        } else if same_as(&v, "CPUSchedulingPolicy") {
            Some(ServiceProperty::CPUSchedulingPolicy)
        } else if same_as(&v, "CPUSchedulingPriority") {
            Some(ServiceProperty::CPUSchedulingPriority)
        } else if same_as(&v, "CPUAffinityFromNUMA") {
            Some(ServiceProperty::CPUAffinityFromNUMA)
        } else if same_as(&v, "NUMAPolicy") {
            Some(ServiceProperty::NUMAPolicy)
        } else if same_as(&v, "TimerSlackNSec") {
            Some(ServiceProperty::TimerSlackNSec)
        } else if same_as(&v, "CPUSchedulingResetOnFork") {
            Some(ServiceProperty::CPUSchedulingResetOnFork)
        } else if same_as(&v, "NonBlocking") {
            Some(ServiceProperty::NonBlocking)
        } else if same_as(&v, "StandardInput") {
            Some(ServiceProperty::StandardInput)
        } else if same_as(&v, "StandardOutput") {
            Some(ServiceProperty::StandardOutput)
        } else if same_as(&v, "StandardError") {
            Some(ServiceProperty::StandardError)
        } else if same_as(&v, "TTYReset") {
            Some(ServiceProperty::TTYReset)
        } else if same_as(&v, "TTYVHangup") {
            Some(ServiceProperty::TTYVHangup)
        } else if same_as(&v, "TTYVTDisallocate") {
            Some(ServiceProperty::TTYVTDisallocate)
        } else if same_as(&v, "SyslogPriority") {
            Some(ServiceProperty::SyslogPriority)
        } else if same_as(&v, "SyslogLevelPrefix") {
            Some(ServiceProperty::SyslogLevelPrefix)
        } else if same_as(&v, "SyslogLevel") {
            Some(ServiceProperty::SyslogLevel)
        } else if same_as(&v, "SyslogFacility") {
            Some(ServiceProperty::SyslogFacility)
        } else if same_as(&v, "LogLevelMax") {
            Some(ServiceProperty::LogLevelMax)
        } else if same_as(&v, "LogRateLimitIntervalUSec") {
            Some(ServiceProperty::LogRateLimitIntervalUSec)
        } else if same_as(&v, "LogRateLimitBurst") {
            Some(ServiceProperty::LogRateLimitBurst)
        } else if same_as(&v, "SecureBits") {
            Some(ServiceProperty::SecureBits)
        } else if same_as(&v, "CapabilityBoundingSet") {
            Some(ServiceProperty::CapabilityBoundingSet)
        } else if same_as(&v, "DynamicUser") {
            Some(ServiceProperty::DynamicUser)
        } else if same_as(&v, "SetLoginEnvironment") {
            Some(ServiceProperty::SetLoginEnvironment)
        } else if same_as(&v, "RemoveIPC") {
            Some(ServiceProperty::RemoveIPC)
        } else if same_as(&v, "PrivateTmp") {
            Some(ServiceProperty::PrivateTmp)
        } else if same_as(&v, "PrivateDevices") {
            Some(ServiceProperty::PrivateDevices)
        } else if same_as(&v, "ProtectClock") {
            Some(ServiceProperty::ProtectClock)
        } else if same_as(&v, "ProtectKernelTunables") {
            Some(ServiceProperty::ProtectKernelTunables)
        } else if same_as(&v, "ProtectKernelModules") {
            Some(ServiceProperty::ProtectKernelModules)
        } else if same_as(&v, "ProtectKernelLogs") {
            Some(ServiceProperty::ProtectKernelLogs)
        } else if same_as(&v, "ProtectControlGroups") {
            Some(ServiceProperty::ProtectControlGroups)
        } else if same_as(&v, "PrivateNetwork") {
            Some(ServiceProperty::PrivateNetwork)
        } else if same_as(&v, "PrivateUsers") {
            Some(ServiceProperty::PrivateUsers)
        } else if same_as(&v, "PrivateMounts") {
            Some(ServiceProperty::PrivateMounts)
        } else if same_as(&v, "PrivateIPC") {
            Some(ServiceProperty::PrivateIPC)
        } else if same_as(&v, "ProtectHome") {
            Some(ServiceProperty::ProtectHome)
        } else if same_as(&v, "ProtectSystem") {
            Some(ServiceProperty::ProtectSystem)
        } else if same_as(&v, "SameProcessGroup") {
            Some(ServiceProperty::SameProcessGroup)
        } else if same_as(&v, "UtmpMode") {
            Some(ServiceProperty::UtmpMode)
        } else if same_as(&v, "IgnoreSIGPIPE") {
            Some(ServiceProperty::IgnoreSIGPIPE)
        } else if same_as(&v, "NoNewPrivileges") {
            Some(ServiceProperty::NoNewPrivileges)
        } else if same_as(&v, "SystemCallErrorNumber") {
            Some(ServiceProperty::SystemCallErrorNumber)
        } else if same_as(&v, "LockPersonality") {
            Some(ServiceProperty::LockPersonality)
        } else if same_as(&v, "RuntimeDirectoryPreserve") {
            Some(ServiceProperty::RuntimeDirectoryPreserve)
        } else if same_as(&v, "RuntimeDirectoryMode") {
            Some(ServiceProperty::RuntimeDirectoryMode)
        } else if same_as(&v, "StateDirectoryMode") {
            Some(ServiceProperty::StateDirectoryMode)
        } else if same_as(&v, "CacheDirectoryMode") {
            Some(ServiceProperty::CacheDirectoryMode)
        } else if same_as(&v, "LogsDirectoryMode") {
            Some(ServiceProperty::LogsDirectoryMode)
        } else if same_as(&v, "ConfigurationDirectoryMode") {
            Some(ServiceProperty::ConfigurationDirectoryMode)
        } else if same_as(&v, "TimeoutCleanUSec") {
            Some(ServiceProperty::TimeoutCleanUSec)
        } else if same_as(&v, "MemoryDenyWriteExecute") {
            Some(ServiceProperty::MemoryDenyWriteExecute)
        } else if same_as(&v, "RestrictRealtime") {
            Some(ServiceProperty::RestrictRealtime)
        } else if same_as(&v, "RestrictSUIDSGID") {
            Some(ServiceProperty::RestrictSUIDSGID)
        } else if same_as(&v, "RestrictNamespaces") {
            Some(ServiceProperty::RestrictNamespaces)
        } else if same_as(&v, "MountAPIVFS") {
            Some(ServiceProperty::MountAPIVFS)
        } else if same_as(&v, "KeyringMode") {
            Some(ServiceProperty::KeyringMode)
        } else if same_as(&v, "ProtectProc") {
            Some(ServiceProperty::ProtectProc)
        } else if same_as(&v, "ProcSubset") {
            Some(ServiceProperty::ProcSubset)
        } else if same_as(&v, "ProtectHostname") {
            Some(ServiceProperty::ProtectHostname)
        } else if same_as(&v, "MemoryKSM") {
            Some(ServiceProperty::MemoryKSM)
        } else if same_as(&v, "RootImagePolicy") {
            Some(ServiceProperty::RootImagePolicy)
        } else if same_as(&v, "MountImagePolicy") {
            Some(ServiceProperty::MountImagePolicy)
        } else if same_as(&v, "ExtensionImagePolicy") {
            Some(ServiceProperty::ExtensionImagePolicy)
        } else if same_as(&v, "KillMode") {
            Some(ServiceProperty::KillMode)
        } else if same_as(&v, "KillSignal") {
            Some(ServiceProperty::KillSignal)
        } else if same_as(&v, "RestartKillSignal") {
            Some(ServiceProperty::RestartKillSignal)
        } else if same_as(&v, "FinalKillSignal") {
            Some(ServiceProperty::FinalKillSignal)
        } else if same_as(&v, "SendSIGKILL") {
            Some(ServiceProperty::SendSIGKILL)
        } else if same_as(&v, "SendSIGHUP") {
            Some(ServiceProperty::SendSIGHUP)
        } else if same_as(&v, "WatchdogSignal") {
            Some(ServiceProperty::WatchdogSignal)
        } else if same_as(&v, "Id") {
            Some(ServiceProperty::Id)
        } else if same_as(&v, "Names") {
            Some(ServiceProperty::Names)
        } else if same_as(&v, "Requires") {
            Some(ServiceProperty::Requires)
        } else if same_as(&v, "Wants") {
            Some(ServiceProperty::Wants)
        } else if same_as(&v, "BindsTo") {
            Some(ServiceProperty::BindsTo)
        } else if same_as(&v, "RequiredBy") {
            Some(ServiceProperty::RequiredBy)
        } else if same_as(&v, "WantedBy") {
            Some(ServiceProperty::WantedBy)
        } else if same_as(&v, "Conflicts") {
            Some(ServiceProperty::Conflicts)
        } else if same_as(&v, "Before") {
            Some(ServiceProperty::Before)
        } else if same_as(&v, "After") {
            Some(ServiceProperty::After)
        } else if same_as(&v, "Documentation") {
            Some(ServiceProperty::Documentation)
        } else if same_as(&v, "Description") {
            Some(ServiceProperty::Description)
        } else if same_as(&v, "LoadState") {
            Some(ServiceProperty::LoadState)
        } else if same_as(&v, "ActiveState") {
            Some(ServiceProperty::ActiveState)
        } else if same_as(&v, "FreezerState") {
            Some(ServiceProperty::FreezerState)
        } else if same_as(&v, "SubState") {
            Some(ServiceProperty::SubState)
        } else if same_as(&v, "FragmentPath") {
            Some(ServiceProperty::FragmentPath)
        } else if same_as(&v, "UnitFileState") {
            Some(ServiceProperty::UnitFileState)
        } else if same_as(&v, "UnitFilePreset") {
            Some(ServiceProperty::UnitFilePreset)
        } else if same_as(&v, "StateChangeTimestamp") {
            Some(ServiceProperty::StateChangeTimestamp)
        } else if same_as(&v, "StateChangeTimestampMonotonic") {
            Some(ServiceProperty::StateChangeTimestampMonotonic)
        } else if same_as(&v, "InactiveExitTimestamp") {
            Some(ServiceProperty::InactiveExitTimestamp)
        } else if same_as(&v, "InactiveExitTimestampMonotonic") {
            Some(ServiceProperty::InactiveExitTimestampMonotonic)
        } else if same_as(&v, "ActiveEnterTimestamp") {
            Some(ServiceProperty::ActiveEnterTimestamp)
        } else if same_as(&v, "ActiveEnterTimestampMonotonic") {
            Some(ServiceProperty::ActiveEnterTimestampMonotonic)
        } else if same_as(&v, "ActiveExitTimestamp") {
            Some(ServiceProperty::ActiveExitTimestamp)
        } else if same_as(&v, "ActiveExitTimestampMonotonic") {
            Some(ServiceProperty::ActiveExitTimestampMonotonic)
        } else if same_as(&v, "InactiveEnterTimestamp") {
            Some(ServiceProperty::InactiveEnterTimestamp)
        } else if same_as(&v, "InactiveEnterTimestampMonotonic") {
            Some(ServiceProperty::InactiveEnterTimestampMonotonic)
        } else if same_as(&v, "CanStart") {
            Some(ServiceProperty::CanStart)
        } else if same_as(&v, "CanStop") {
            Some(ServiceProperty::CanStop)
        } else if same_as(&v, "CanReload") {
            Some(ServiceProperty::CanReload)
        } else if same_as(&v, "CanIsolate") {
            Some(ServiceProperty::CanIsolate)
        } else if same_as(&v, "CanFreeze") {
            Some(ServiceProperty::CanFreeze)
        } else if same_as(&v, "StopWhenUnneeded") {
            Some(ServiceProperty::StopWhenUnneeded)
        } else if same_as(&v, "RefuseManualStart") {
            Some(ServiceProperty::RefuseManualStart)
        } else if same_as(&v, "RefuseManualStop") {
            Some(ServiceProperty::RefuseManualStop)
        } else if same_as(&v, "AllowIsolate") {
            Some(ServiceProperty::AllowIsolate)
        } else if same_as(&v, "DefaultDependencies") {
            Some(ServiceProperty::DefaultDependencies)
        } else if same_as(&v, "SurviveFinalKillSignal") {
            Some(ServiceProperty::SurviveFinalKillSignal)
        } else if same_as(&v, "OnSuccessJobMode") {
            Some(ServiceProperty::OnSuccessJobMode)
        } else if same_as(&v, "OnFailureJobMode") {
            Some(ServiceProperty::OnFailureJobMode)
        } else if same_as(&v, "IgnoreOnIsolate") {
            Some(ServiceProperty::IgnoreOnIsolate)
        } else if same_as(&v, "NeedDaemonReload") {
            Some(ServiceProperty::NeedDaemonReload)
        } else if same_as(&v, "JobTimeoutUSec") {
            Some(ServiceProperty::JobTimeoutUSec)
        } else if same_as(&v, "JobRunningTimeoutUSec") {
            Some(ServiceProperty::JobRunningTimeoutUSec)
        } else if same_as(&v, "JobTimeoutAction") {
            Some(ServiceProperty::JobTimeoutAction)
        } else if same_as(&v, "ConditionResult") {
            Some(ServiceProperty::ConditionResult)
        } else if same_as(&v, "AssertResult") {
            Some(ServiceProperty::AssertResult)
        } else if same_as(&v, "ConditionTimestamp") {
            Some(ServiceProperty::ConditionTimestamp)
        } else if same_as(&v, "ConditionTimestampMonotonic") {
            Some(ServiceProperty::ConditionTimestampMonotonic)
        } else if same_as(&v, "AssertTimestamp") {
            Some(ServiceProperty::AssertTimestamp)
        } else if same_as(&v, "AssertTimestampMonotonic") {
            Some(ServiceProperty::AssertTimestampMonotonic)
        } else if same_as(&v, "Transient") {
            Some(ServiceProperty::Transient)
        } else if same_as(&v, "Perpetual") {
            Some(ServiceProperty::Perpetual)
        } else if same_as(&v, "StartLimitIntervalUSec") {
            Some(ServiceProperty::StartLimitIntervalUSec)
        } else if same_as(&v, "StartLimitBurst") {
            Some(ServiceProperty::StartLimitBurst)
        } else if same_as(&v, "StartLimitAction") {
            Some(ServiceProperty::StartLimitAction)
        } else if same_as(&v, "FailureAction") {
            Some(ServiceProperty::FailureAction)
        } else if same_as(&v, "SuccessAction") {
            Some(ServiceProperty::SuccessAction)
        } else if same_as(&v, "InvocationID") {
            Some(ServiceProperty::InvocationID)
        } else if same_as(&v, "CollectMode") {
            Some(ServiceProperty::CollectMode)
        } else {
            None
        }
    }
}

} // verus!
