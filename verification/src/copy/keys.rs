//! Every key the product needs, and the catalogue row behind each.

use vstd::prelude::*;

verus! {

/// Which capitalization a row renders in.
///
/// GNOME wants Header Capitalization for headings, header-bar headings,
/// buttons and menu items, and sentence capitalization for body text, field
/// labels and switch labels.
#[derive(Clone, Copy, Debug, PartialEq, Eq, Structural)]
pub enum Casing {
    /// Titles, group headings, buttons, menu items and dialog titles.
    Header,
    /// Body, field labels, switch labels, captions and statements.
    Sentence,
}

/// Every key the product needs. [`Key::Count`] is not a key; it is how many
/// there are.
#[derive(Clone, Copy, Debug, PartialEq, Eq, Hash, Structural)]
pub enum Key {

    // ---- Identity -------------------------------------------------------
    ProductName,

    // ---- Page titles ----------------------------------------------------
    PageHome,
    PageDoctor,
    PageLogs,
    PageSettings,
    PageRecovery,
    PageSetup,

    // ---- Primary menu ---------------------------------------------------
    MenuSettings,
    MenuRunDoctor,
    MenuRestart,
    MenuKeyboardShortcuts,
    MenuAbout,
    MenuQuit,
    MenuPrimaryAccessible,

    // ---- Navigation -----------------------------------------------------
    BackToFermix,
    ToggleSidebarAccessible,
    SidebarAccessible,

    // ---- Shortcuts dialog -----------------------------------------------
    ShortcutsTitle,
    ShortcutsGroupGeneral,
    ShortcutsGroupNavigation,
    ShortcutsGroupActions,
    ShortcutOpenSettings,
    ShortcutShowHome,
    ShortcutShowDoctor,
    ShortcutShowLogs,
    ShortcutGoBack,
    ShortcutSearchSurface,
    ShortcutRunDoctor,
    ShortcutRestart,
    ShortcutToggleSidebar,
    ShortcutCloseWindow,
    ShortcutQuit,
    ShortcutAbout,
    ShortcutKeyboardShortcuts,

    // ---- About ----------------------------------------------------------
    AboutDeveloper,
    AboutComments,
    AboutWebsite,

    // ---- Shared controls ------------------------------------------------
    ActionCancel,
    ActionClose,
    ActionContinue,
    ActionBack,
    ActionTryAgain,
    ActionRefresh,
    ActionExport,
    ActionCopyCommand,
    ActionCopyCommands,
    ActionShowMeHow,
    ActionOpenSettingsPane,
    ActionSearchAccessible,
    ActionMoreAccessible,
    BusyQueueFull,
    StateOn,
    StateOff,
    StateNotReported,

    // ---- Home -----------------------------------------------------------
    HomeGroupBackground,
    HomeGroupAttention,
    HomeGroupRuntimeDetails,
    HomeRowStatus,
    HomeStatusRunning,
    HomeStatusSetupRequired,
    HomeStatusRestartToFinishUpdating,
    HomeStatusNotRunning,
    HomeSwitchRunInBackground,
    HomeSwitchOpenAtLogin,
    HomeAttentionEmpty,
    HomeRuntimeEngine,
    HomeRuntimeManagementProtocol,
    HomeRuntimeUptime,
    HomeRuntimeProvider,
    HomeRuntimeChannels,
    HomeRuntimeSkills,
    HomeRuntimeTools,
    HomeRuntimeService,
    HomeRuntimeSession,
    HomeRuntimeUnavailable,
    HomeRuntimeNone,
    HomeUptimeDaysHours,
    HomeUptimeHoursMinutes,
    HomeUptimeMinutes,
    HomeUptimeJustStarted,
    HomeToolbarContinueSetup,
    HomeToolbarFinishUpdating,

    // ---- Home attention rows, one per detail_key family -----------------
    AttentionProviderTitle,
    AttentionProviderAction,
    AttentionPersonalizationTitle,
    AttentionPersonalizationAction,
    AttentionChannelTitle,
    AttentionChannelAction,
    AttentionRealtimeTitle,
    AttentionRealtimeAction,
    AttentionRestartPendingTitle,
    AttentionLegacyServiceUnitTitle,
    AttentionEnginePathBaselineTitle,
    AttentionOpenDoctorAction,

    // ---- Restart --------------------------------------------------------
    RestartDialogTitle,
    RestartDialogBody,
    RestartConversationsKnown,
    RestartConversationsUnknown,
    RestartNow,
    RestartWhenIdle,
    FinishUpdatingDialogTitle,
    FinishUpdatingDialogBody,

    // ---- Banners --------------------------------------------------------
    BannerExternalChangeTitle,
    BannerReloadFromDisk,

    // ---- Settings, groups and panes -------------------------------------
    SettingsGroupAssistant,
    SettingsGroupConnections,
    SettingsGroupCapabilities,
    SettingsGroupSystem,
    PaneProviders,
    PanePersonality,
    PaneMemory,
    PaneChannels,
    PaneIntegrations,
    PaneVoice,
    PaneMeetings,
    PaneComputer,
    PaneCodingAgents,
    PaneSearch,
    PaneImages,
    PaneSandbox,
    PanePermissions,
    SettingsSearchAccessible,
    SettingsSearchEmpty,
    ListAdd,
    ListRemoveAccessible,

    // ---- Secrets --------------------------------------------------------
    SecretStored,
    SecretReplace,
    SecretRemove,
    SecretAdd,
    SecretDialogTitleAdd,
    SecretDialogTitleReplace,
    SecretFieldLabel,
    SecretStoreRowLabel,
    SecretDialogConfirm,

    // ---- Providers ------------------------------------------------------
    ProvidersGroupPrimary,
    ProvidersGroupProviders,
    ProviderChooseModel,
    ProviderModelDialogTitle,
    ProviderSignIn,
    ProviderSignOut,
    ProviderUseAsPrimary,
    ProviderUseAsPrimaryConfirmTitle,
    ProviderUseAsPrimaryConfirmBody,
    ProviderTestConnection,
    ProviderSignInDialogTitle,
    ProviderSignInCopyUrl,
    ProviderSignInUrlLabel,
    ProviderImportClaudeCode,
    ProviderImportCodexCli,
    ProviderAddKey,
    ProviderAddSetupToken,
    ProviderStatusPrimary,
    ProviderStatusPrimaryNotConnected,
    ProviderStatusConnected,
    ProviderStatusKeyStored,
    ProviderStatusReconnect,
    ProviderStatusNotConnected,
    ProviderSignInBody,
    ProviderImportBody,
    ProviderModelsSearch,
    ProviderModelsMore,
    ProviderModelsLive,
    ProviderProbeResult,

    // ---- Channels -------------------------------------------------------
    ChannelsGroup,
    ChannelStatusWorking,
    ChannelStatusNotFinished,

    // ---- Integrations ---------------------------------------------------
    IntegrationsFilterInstalled,
    IntegrationsFilterAvailable,
    IntegrationsFilterMcps,
    IntegrationsFilterFeatures,
    IntegrationsSignInClients,
    IntegrationsConsentTitle,
    IntegrationsWhatLeaves,
    IntegrationsEmpty,
    IntegrationsSubtitle,
    IntegrationsSearchAccessible,
    IntegrationsSwitchAccessible,
    IntegrationsNextStep,
    IntegrationsClientRow,
    IntegrationsWorkspaceRow,
    IntegrationsOpen,
    CountedFilter,
    IntegrationsFeatureComputerUse,
    IntegrationsFeatureComputerUseBody,
    IntegrationsFeatureMeetings,
    IntegrationsFeatureMeetingsBody,
    OAuthClientDialogTitle,
    OAuthClientId,
    OAuthClientSecret,
    OAuthClientRedirectPort,
    OAuthClientRegion,
    WorkspaceDialogTitle,
    WorkspaceAccessProfile,

    // ---- Meetings -------------------------------------------------------
    MeetingsSharedSettings,
    MeetingsGoogleMeet,
    MeetingsZoom,
    MeetingsInstall,
    MeetingsSignIn,
    MeetingsSignInAgain,
    MeetingsSignInUnanswered,
    MeetingsSleepStatement,
    MeetingsEnableFooter,
    MeetingsGoogleAccount,

    // ---- Voice ----------------------------------------------------------
    VoiceCompanionStatement,
    VoiceMicrophoneStatement,

    // ---- Computer -------------------------------------------------------
    ComputerEnable,
    ComputerInstall,
    ComputerScreenCapture,
    ComputerInputControl,
    ComputerProbedAt,
    ComputerArm64,
    ComputerNoGraphicalSession,
    ComputerWaylandSession,
    ComputerSessionDetected,
    ComputerInstallStatement,
    ComputerVerdictAvailable,
    ComputerVerdictUnavailable,
    ComputerProbeUnread,

    // ---- Permissions ledger, section 7.4 --------------------------------
    PermissionsColumnRevoke,
    PermissionsColumnArtifact,
    PermissionsPlatformFact,
    PermissionMicrophoneTitle,
    PermissionMicrophonePrincipal,
    PermissionMicrophoneRevoke,
    PermissionMicrophoneArtifact,
    PermissionScreenCaptureTitle,
    PermissionScreenCapturePrincipal,
    PermissionScreenCaptureRevoke,
    PermissionScreenCaptureArtifact,
    PermissionInputSynthesisTitle,
    PermissionInputSynthesisPrincipal,
    PermissionInputSynthesisRevoke,
    PermissionInputSynthesisArtifact,
    PermissionBackgroundServiceTitle,
    PermissionBackgroundServicePrincipal,
    PermissionBackgroundServiceRevoke,
    PermissionBackgroundServiceArtifact,
    PermissionAutostartTitle,
    PermissionAutostartPrincipal,
    PermissionAutostartRevoke,
    PermissionAutostartArtifact,
    PermissionPrivilegedTitle,
    PermissionPrivilegedPrincipal,
    PermissionPrivilegedRevoke,
    PermissionPrivilegedArtifact,
    PermissionBrowserTitle,
    PermissionBrowserPrincipal,
    PermissionBrowserRevoke,
    PermissionBrowserArtifact,

    // ---- Doctor ---------------------------------------------------------
    DoctorSummaryHealthy,
    DoctorSummaryFailed,
    DoctorCheckedJustNow,
    DoctorRunNetworkChecks,
    DoctorNetworkChecksCost,
    DoctorExportSupportBundle,
    DoctorShowLogFolder,
    DoctorLogFolderUnavailable,
    DoctorEvidence,
    DoctorRunning,
    DoctorBusy,
    DoctorNeedsNewerEngine,
    DoctorDesktopSession,
    DoctorStatusPassed,
    DoctorStatusWarning,
    DoctorStatusFailed,
    DoctorStatusUnavailable,
    DoctorStatusSkipped,
    DoctorStatusCancelled,
    DoctorStatusTimedOut,
    DoctorStatusNotApplicable,
    DoctorPillPassed,
    DoctorPillWarning,
    DoctorPillFailed,
    DoctorPillUnavailable,
    DoctorPillSkipped,
    DoctorPillCancelled,
    DoctorPillTimedOut,
    DoctorPillNotApplicable,

    // ---- Logs -----------------------------------------------------------
    LogsLevel,
    LogsLevelAll,
    LogLevelEmergency,
    LogLevelAlert,
    LogLevelCritical,
    LogLevelError,
    LogLevelWarning,
    LogLevelNotice,
    LogLevelInfo,
    LogLevelDebug,
    LogsPause,
    LogsSearchAccessible,
    LogsCaptionFile,
    LogsCaptionJournal,
    LogsJournalCommand,
    LogsEmpty,
    LogsCursorExpired,
    LogsDaemonUnavailable,
    LogsExportDiagnostics,

    // ---- Jobs -----------------------------------------------------------
    JobPhaseCalling,
    JobPhaseBinding,
    JobPhaseAwaitingBrowser,
    JobPhaseVerifying,
    JobPhaseReadingKeychain,
    JobPhaseDownloading,
    JobPhaseProbing,
    JobPhaseListing,
    JobPhaseSidecarDownloading,
    JobPhaseAwaitingSignIn,
    JobCancelled,
    JobTimedOut,

    // ---- Recovery -------------------------------------------------------
    RecoveryConfigUnreadableTitle,
    RecoveryServiceRefusedTitle,
    RecoveryJournalDialogTitle,
    RecoveryEvidence,
    RecoveryRetry,
    RecoveryExportDiagnostics,
    RecoveryShowJournalCommand,
    RecoveryExportUnavailable,
    RecoveryPackageRepair,

    // ---- Setup assistant ------------------------------------------------
    SetupWelcomeTitle,
    SetupWelcomeBody,
    SetupWelcomeStart,
    SetupWelcomeChooseHome,
    SetupStartingTitle,
    SetupStepBindHome,
    SetupStepEnableLinger,
    SetupStepStartService,
    SetupStepVerifyDaemon,
    SetupStepReadSetupState,
    SetupConnectAiTitle,
    SetupConnectAiBody,
    SetupConnectAiSkip,
    SetupAboutYouTitle,
    SetupAboutYouBody,
    SetupFieldYourName,
    SetupFieldTimeZone,
    SetupFieldStyle,
    SetupFieldAssistantName,
    SetupApplyingTitle,
    SetupStepSaveSetup,
    SetupStepRestart,
    SetupReadyTitle,
    SetupReadyNext,
    SetupReadyChannels,
    SetupReadyAttention,
    SetupBootFailedTitle,
    SetupCancel,
    SetupChangeProvider,
    SetupBlockedProvider,
    SetupBlockedPersonalization,
    SetupBlockedElsewhere,
    SetupStepWaiting,
    SetupStepWorking,
    SetupStepDone,
    SetupStepFailed,
    SetupProgressAccessible,

    // ---- Setup, preflight refusals --------------------------------------
    SetupPreflightRefusedTitle,
    PreflightNoUserManagerTitle,
    PreflightNoUserManagerBody,
    PreflightForeignDaemonTitle,
    PreflightForeignDaemonBody,
    PreflightPreManagementDaemonTitle,
    PreflightPreManagementDaemonBody,
    PreflightEngineSkewTitle,
    PreflightEngineSkewBody,
    PreflightForeignDistributionTitle,
    PreflightForeignDistributionBody,

    // ---- Setup, activation failures -------------------------------------
    ActivationUnitInactiveTitle,
    ActivationUnitInactiveBody,
    ActivationCrashLoopTitle,
    ActivationCrashLoopBody,
    ActivationProtocolMismatchTitle,
    ActivationProtocolMismatchBody,
    ActivationBindFailureTitle,
    ActivationBindFailureBody,
    ActivationWebUnavailableTitle,
    ActivationWebUnavailableBody,
    ActivationLastLogLines,

    // ---- Version skew ---------------------------------------------------
    SkewNewerInstalledTitle,
    SkewNewerInstalledDetail,
    SkewRestartToFinish,
    SkewUnknownIdentityTitle,
    SkewUnknownIdentityBody,
    SkewStaleGuiTitle,
    SkewStaleGuiBody,
    SkewOwnershipConflictTitle,
    SkewOwnershipConflictBody,

    // ---- The Linux-only moments -----------------------------------------
    LingerDeniedTitle,
    LingerDeniedBody,
    LingerDeniedCommandRow,
    LingerDeniedCommandValue,
    LoginManagerAbsentTitle,
    LoginManagerAbsentBody,
    LoginManagerAbsentNextAction,
    SecretStoreDesktopKeyring,
    SecretStoreThisComputer,
    SecretStorePasswordStore,
    SecretStoreNone,
    SecretStoreUnavailableTitle,
    SecretStoreUnavailableBody,
    SecretStoreUnavailableNextAction,
    SystemScopeRefusalTitle,
    SystemScopeRefusalBody,
    SystemScopeRefusalNextAction,
    SystemScopeRefusalCommandValue,

    // ---- The one notification this application raises --------------------
    NoticeAttentionTitle,
    NoticeAttentionBody,

    /// Not a key. The number of keys, which is what makes the catalogue gate
    /// total rather than nearly total.
    Count,
}

/// The English source and the casing class of one key: the catalogue.
///
/// [`Key::Count`] has no row.
pub open spec fn catalogue(key: Key) -> (Seq<char>, Casing) {
    match key {
        Key::ProductName => ("Fermix"@, Casing::Header),
        Key::PageHome => ("Home"@, Casing::Header),
        Key::PageDoctor => ("Doctor"@, Casing::Header),
        Key::PageLogs => ("Logs"@, Casing::Header),
        Key::PageSettings => ("Settings"@, Casing::Header),
        Key::PageRecovery => ("Recovery"@, Casing::Header),
        Key::PageSetup => ("Set up Fermix"@, Casing::Header),
        Key::MenuSettings => ("Settings\u{2026}"@, Casing::Header),
        Key::MenuRunDoctor => ("Run doctor"@, Casing::Header),
        Key::MenuRestart => ("Restart Fermix\u{2026}"@, Casing::Header),
        Key::MenuKeyboardShortcuts => ("Keyboard shortcuts"@, Casing::Header),
        Key::MenuAbout => ("About Fermix"@, Casing::Header),
        Key::MenuQuit => ("Quit"@, Casing::Header),
        Key::MenuPrimaryAccessible => ("Main menu"@, Casing::Header),
        Key::BackToFermix => ("Back to Fermix"@, Casing::Header),
        Key::ToggleSidebarAccessible => ("Show or hide the sidebar"@, Casing::Header),
        Key::SidebarAccessible => ("Sections"@, Casing::Header),
        Key::ShortcutsTitle => ("Keyboard shortcuts"@, Casing::Header),
        Key::ShortcutsGroupGeneral => ("General"@, Casing::Header),
        Key::ShortcutsGroupNavigation => ("Navigation"@, Casing::Header),
        Key::ShortcutsGroupActions => ("Actions"@, Casing::Header),
        Key::ShortcutOpenSettings => ("Open settings"@, Casing::Header),
        Key::ShortcutShowHome => ("Show home"@, Casing::Header),
        Key::ShortcutShowDoctor => ("Show doctor"@, Casing::Header),
        Key::ShortcutShowLogs => ("Show logs"@, Casing::Header),
        Key::ShortcutGoBack => ("Go back"@, Casing::Header),
        Key::ShortcutSearchSurface => ("Search this surface"@, Casing::Header),
        Key::ShortcutRunDoctor => ("Run doctor"@, Casing::Header),
        Key::ShortcutRestart => ("Restart Fermix"@, Casing::Header),
        Key::ShortcutToggleSidebar => ("Show or hide the sidebar"@, Casing::Header),
        Key::ShortcutCloseWindow => ("Close the window"@, Casing::Header),
        Key::ShortcutQuit => ("Quit Fermix"@, Casing::Header),
        Key::ShortcutAbout => ("About Fermix"@, Casing::Header),
        Key::ShortcutKeyboardShortcuts => ("Keyboard shortcuts"@, Casing::Header),
        Key::AboutDeveloper => ("Tezra"@, Casing::Sentence),
        Key::AboutComments => ("Fermix runs as a background service on this computer. This window sets it up and keeps an eye on it."@, Casing::Sentence),
        Key::AboutWebsite => ("Website"@, Casing::Header),
        Key::ActionCancel => ("Cancel"@, Casing::Header),
        Key::ActionClose => ("Close"@, Casing::Header),
        Key::ActionContinue => ("Continue"@, Casing::Header),
        Key::ActionBack => ("Back"@, Casing::Header),
        Key::ActionTryAgain => ("Try again"@, Casing::Header),
        Key::ActionRefresh => ("Refresh"@, Casing::Header),
        Key::ActionExport => ("Export"@, Casing::Header),
        Key::ActionCopyCommand => ("Copy command"@, Casing::Header),
        Key::ActionCopyCommands => ("Copy commands"@, Casing::Header),
        Key::ActionShowMeHow => ("Show me how"@, Casing::Header),
        Key::ActionOpenSettingsPane => ("Open settings"@, Casing::Header),
        Key::ActionSearchAccessible => ("Search"@, Casing::Header),
        Key::ActionMoreAccessible => ("More actions"@, Casing::Header),
        Key::BusyQueueFull => ("Fermix is doing as much at once as it can. Try that again in a moment."@, Casing::Sentence),
        Key::StateOn => ("On"@, Casing::Sentence),
        Key::StateOff => ("Off"@, Casing::Sentence),
        Key::StateNotReported => ("Not reported"@, Casing::Sentence),
        Key::HomeGroupBackground => ("Background"@, Casing::Header),
        Key::HomeGroupAttention => ("Attention"@, Casing::Header),
        Key::HomeGroupRuntimeDetails => ("Runtime details"@, Casing::Header),
        Key::HomeRowStatus => ("Status"@, Casing::Sentence),
        Key::HomeStatusRunning => ("Running"@, Casing::Sentence),
        Key::HomeStatusSetupRequired => ("Setup required"@, Casing::Sentence),
        Key::HomeStatusRestartToFinishUpdating => ("Restart to finish updating"@, Casing::Sentence),
        Key::HomeStatusNotRunning => ("Fermix isn\u{2019}t running"@, Casing::Sentence),
        Key::HomeSwitchRunInBackground => ("Run in the background"@, Casing::Sentence),
        Key::HomeSwitchOpenAtLogin => ("Open at login"@, Casing::Sentence),
        Key::HomeAttentionEmpty => ("Nothing needs your attention"@, Casing::Sentence),
        Key::HomeRuntimeEngine => ("Engine"@, Casing::Sentence),
        Key::HomeRuntimeManagementProtocol => ("Management protocol"@, Casing::Sentence),
        Key::HomeRuntimeUptime => ("Uptime"@, Casing::Sentence),
        Key::HomeRuntimeProvider => ("Provider"@, Casing::Sentence),
        Key::HomeRuntimeChannels => ("Channels"@, Casing::Sentence),
        Key::HomeRuntimeSkills => ("Skills"@, Casing::Sentence),
        Key::HomeRuntimeTools => ("Tools"@, Casing::Sentence),
        Key::HomeRuntimeService => ("Service"@, Casing::Sentence),
        Key::HomeRuntimeSession => ("Session"@, Casing::Sentence),
        Key::HomeRuntimeUnavailable => ("Unavailable"@, Casing::Sentence),
        Key::HomeRuntimeNone => ("None"@, Casing::Sentence),
        Key::HomeUptimeDaysHours => ("{days} d {hours} h"@, Casing::Sentence),
        Key::HomeUptimeHoursMinutes => ("{hours} h {minutes} min"@, Casing::Sentence),
        Key::HomeUptimeMinutes => ("{minutes} min"@, Casing::Sentence),
        Key::HomeUptimeJustStarted => ("Just started"@, Casing::Sentence),
        Key::HomeToolbarContinueSetup => ("Continue setup"@, Casing::Header),
        Key::HomeToolbarFinishUpdating => ("Finish updating"@, Casing::Header),
        Key::AttentionProviderTitle => ("Fermix has no AI provider it can use"@, Casing::Sentence),
        Key::AttentionProviderAction => ("Open providers"@, Casing::Header),
        Key::AttentionPersonalizationTitle => ("Fermix does not know who it is working for yet"@, Casing::Sentence),
        Key::AttentionPersonalizationAction => ("Open personality"@, Casing::Header),
        Key::AttentionChannelTitle => ("A channel is switched on but not finished"@, Casing::Sentence),
        Key::AttentionChannelAction => ("Open channels"@, Casing::Header),
        Key::AttentionRealtimeTitle => ("Voice is switched on but not finished"@, Casing::Sentence),
        Key::AttentionRealtimeAction => ("Open voice"@, Casing::Header),
        Key::AttentionRestartPendingTitle => ("Some settings take effect the next time Fermix starts"@, Casing::Sentence),
        Key::AttentionLegacyServiceUnitTitle => ("An older service file is starting Fermix"@, Casing::Sentence),
        Key::AttentionEnginePathBaselineTitle => ("Fermix may not find the tools you installed"@, Casing::Sentence),
        Key::AttentionOpenDoctorAction => ("Open doctor"@, Casing::Header),
        Key::RestartDialogTitle => ("Restart Fermix"@, Casing::Header),
        Key::RestartDialogBody => ("Fermix stops and starts again. Your settings and conversations are kept."@, Casing::Sentence),
        Key::RestartConversationsKnown => ("Conversations in progress: {count}"@, Casing::Sentence),
        Key::RestartConversationsUnknown => ("Fermix cannot tell how many conversations are in progress."@, Casing::Sentence),
        Key::RestartNow => ("Restart now"@, Casing::Header),
        Key::RestartWhenIdle => ("Restart when idle"@, Casing::Header),
        Key::FinishUpdatingDialogTitle => ("Finish updating"@, Casing::Header),
        Key::FinishUpdatingDialogBody => ("Restarting moves the background service onto the version already installed on this computer."@, Casing::Sentence),
        Key::BannerExternalChangeTitle => ("Settings changed outside Fermix"@, Casing::Sentence),
        Key::BannerReloadFromDisk => ("Reload settings from disk"@, Casing::Header),
        Key::SettingsGroupAssistant => ("Assistant"@, Casing::Header),
        Key::SettingsGroupConnections => ("Connections"@, Casing::Header),
        Key::SettingsGroupCapabilities => ("Capabilities"@, Casing::Header),
        Key::SettingsGroupSystem => ("System"@, Casing::Header),
        Key::PaneProviders => ("Providers"@, Casing::Header),
        Key::PanePersonality => ("Personality"@, Casing::Header),
        Key::PaneMemory => ("Memory"@, Casing::Header),
        Key::PaneChannels => ("Channels"@, Casing::Header),
        Key::PaneIntegrations => ("Integrations"@, Casing::Header),
        Key::PaneVoice => ("Voice"@, Casing::Header),
        Key::PaneMeetings => ("Meetings"@, Casing::Header),
        Key::PaneComputer => ("Computer"@, Casing::Header),
        Key::PaneCodingAgents => ("Coding agents"@, Casing::Header),
        Key::PaneSearch => ("Search"@, Casing::Header),
        Key::PaneImages => ("Images"@, Casing::Header),
        Key::PaneSandbox => ("Sandbox"@, Casing::Header),
        Key::PanePermissions => ("Permissions"@, Casing::Header),
        Key::SettingsSearchAccessible => ("Search the settings panes"@, Casing::Header),
        Key::SettingsSearchEmpty => ("No pane matches that search"@, Casing::Sentence),
        Key::ListAdd => ("Add an item"@, Casing::Header),
        Key::ListRemoveAccessible => ("Remove this item"@, Casing::Header),
        Key::SecretStored => ("Stored"@, Casing::Sentence),
        Key::SecretReplace => ("Replace\u{2026}"@, Casing::Header),
        Key::SecretRemove => ("Remove"@, Casing::Header),
        Key::SecretAdd => ("Add\u{2026}"@, Casing::Header),
        Key::SecretDialogTitleAdd => ("Add a key"@, Casing::Header),
        Key::SecretDialogTitleReplace => ("Replace the key"@, Casing::Header),
        Key::SecretFieldLabel => ("Key"@, Casing::Sentence),
        Key::SecretStoreRowLabel => ("Secret store"@, Casing::Sentence),
        Key::SecretDialogConfirm => ("Store the key"@, Casing::Header),
        Key::ProvidersGroupPrimary => ("Primary"@, Casing::Header),
        Key::ProvidersGroupProviders => ("Providers"@, Casing::Header),
        Key::ProviderChooseModel => ("Choose a model\u{2026}"@, Casing::Header),
        Key::ProviderModelDialogTitle => ("Choose a model"@, Casing::Header),
        Key::ProviderSignIn => ("Sign in"@, Casing::Header),
        Key::ProviderSignOut => ("Sign out"@, Casing::Header),
        Key::ProviderUseAsPrimary => ("Use as primary"@, Casing::Header),
        Key::ProviderUseAsPrimaryConfirmTitle => ("Use this provider for everything"@, Casing::Header),
        Key::ProviderUseAsPrimaryConfirmBody => ("Fermix answers with this provider from now on. The model and the reasoning effort move with it."@, Casing::Sentence),
        Key::ProviderTestConnection => ("Test the connection"@, Casing::Header),
        Key::ProviderSignInDialogTitle => ("Sign in"@, Casing::Header),
        Key::ProviderSignInCopyUrl => ("Copy the address"@, Casing::Header),
        Key::ProviderSignInUrlLabel => ("If your browser did not open, use this address:"@, Casing::Sentence),
        Key::ProviderImportClaudeCode => ("Use the Anthropic command-line sign-in"@, Casing::Header),
        Key::ProviderImportCodexCli => ("Use the Codex sign-in"@, Casing::Header),
        Key::ProviderAddKey => ("Add key\u{2026}"@, Casing::Header),
        Key::ProviderAddSetupToken => ("Add setup token\u{2026}"@, Casing::Header),
        Key::ProviderStatusPrimary => ("Primary"@, Casing::Sentence),
        Key::ProviderStatusPrimaryNotConnected => ("Primary, not connected"@, Casing::Sentence),
        Key::ProviderStatusConnected => ("Connected"@, Casing::Sentence),
        Key::ProviderStatusKeyStored => ("Key stored, not checked"@, Casing::Sentence),
        Key::ProviderStatusReconnect => ("Reconnect needed"@, Casing::Sentence),
        Key::ProviderStatusNotConnected => ("Not connected"@, Casing::Sentence),
        Key::ProviderSignInBody => ("Finish signing in in your browser. Fermix never sees your password."@, Casing::Sentence),
        Key::ProviderImportBody => ("Fermix is reading the sign-in this computer already holds. Nothing is sent anywhere."@, Casing::Sentence),
        Key::ProviderModelsSearch => ("Search models"@, Casing::Sentence),
        Key::ProviderModelsMore => ("Show more"@, Casing::Header),
        Key::ProviderModelsLive => ("Ask the provider"@, Casing::Header),
        Key::ProviderProbeResult => ("Answered in {count} ms with {model}"@, Casing::Sentence),
        Key::ChannelsGroup => ("Channels"@, Casing::Header),
        Key::ChannelStatusWorking => ("Connected"@, Casing::Sentence),
        Key::ChannelStatusNotFinished => ("Not finished"@, Casing::Sentence),
        Key::IntegrationsFilterInstalled => ("Installed"@, Casing::Header),
        Key::IntegrationsFilterAvailable => ("Available"@, Casing::Header),
        Key::IntegrationsFilterMcps => ("MCPs"@, Casing::Header),
        Key::IntegrationsFilterFeatures => ("Features"@, Casing::Header),
        Key::IntegrationsSignInClients => ("Sign-in clients"@, Casing::Header),
        Key::IntegrationsConsentTitle => ("Add this integration"@, Casing::Header),
        Key::IntegrationsWhatLeaves => ("What leaves this computer"@, Casing::Header),
        Key::IntegrationsEmpty => ("No integration matches that search"@, Casing::Sentence),
        Key::IntegrationsSubtitle => ("Plugins, servers and the built-in drivers Fermix can use."@, Casing::Sentence),
        Key::IntegrationsSearchAccessible => ("Search integrations"@, Casing::Header),
        Key::IntegrationsSwitchAccessible => ("Turn {name} on or off"@, Casing::Sentence),
        Key::IntegrationsNextStep => ("Next step"@, Casing::Sentence),
        Key::IntegrationsClientRow => ("Sign-in client"@, Casing::Sentence),
        Key::IntegrationsWorkspaceRow => ("Workspace"@, Casing::Sentence),
        Key::IntegrationsOpen => ("Open"@, Casing::Header),
        Key::CountedFilter => ("{name} ({count})"@, Casing::Sentence),
        Key::IntegrationsFeatureComputerUse => ("Computer use"@, Casing::Header),
        Key::IntegrationsFeatureComputerUseBody => ("Sees this screen and drives the keyboard and pointer."@, Casing::Sentence),
        Key::IntegrationsFeatureMeetings => ("Meeting notetaker"@, Casing::Header),
        Key::IntegrationsFeatureMeetingsBody => ("Joins a meeting as a notetaker and writes the notes up afterwards."@, Casing::Sentence),
        Key::OAuthClientDialogTitle => ("Sign-in client"@, Casing::Header),
        Key::OAuthClientId => ("Client identifier"@, Casing::Sentence),
        Key::OAuthClientSecret => ("Client secret"@, Casing::Sentence),
        Key::OAuthClientRedirectPort => ("Redirect port"@, Casing::Sentence),
        Key::OAuthClientRegion => ("Region"@, Casing::Sentence),
        Key::WorkspaceDialogTitle => ("Choose a workspace"@, Casing::Header),
        Key::WorkspaceAccessProfile => ("Access"@, Casing::Sentence),
        Key::MeetingsSharedSettings => ("Shared settings"@, Casing::Header),
        Key::MeetingsGoogleMeet => ("Google Meet"@, Casing::Header),
        Key::MeetingsZoom => ("Zoom"@, Casing::Header),
        Key::MeetingsInstall => ("Install the notetaker"@, Casing::Header),
        Key::MeetingsSignIn => ("Sign in"@, Casing::Header),
        Key::MeetingsSignInAgain => ("Sign in again"@, Casing::Header),
        Key::MeetingsSignInUnanswered => ("Fermix could not read the sign-in state on this computer."@, Casing::Sentence),
        Key::MeetingsSleepStatement => ("Fermix cannot keep this computer awake during a meeting. If the machine suspends, the recording stops. Adjust your power settings before a long meeting."@, Casing::Sentence),
        Key::MeetingsEnableFooter => ("Installs the notetaker and its browser on first enable, about 150 MB."@, Casing::Sentence),
        Key::MeetingsGoogleAccount => ("Google account for the notetaker"@, Casing::Sentence),
        Key::VoiceCompanionStatement => ("Voice is configured here and used from a companion application. The companion exists for macOS today, and there is no Linux companion yet."@, Casing::Sentence),
        Key::VoiceMicrophoneStatement => ("Linux has no microphone permission. Nothing asked you, nothing appears in your system settings, and there is nothing to revoke. While Fermix is running it can open the microphone at any time, and so can any other program you run. Your real controls are to not run it, to mute the microphone in your sound settings or in PipeWire, or to run it in a sandbox that withholds audio, which also stops it playing sound. On macOS the operating system asks first. On Linux it does not."@, Casing::Sentence),
        Key::ComputerEnable => ("Let Fermix use this computer"@, Casing::Sentence),
        Key::ComputerInstall => ("Install the helper"@, Casing::Header),
        Key::ComputerScreenCapture => ("Screen capture"@, Casing::Sentence),
        Key::ComputerInputControl => ("Input control"@, Casing::Sentence),
        Key::ComputerProbedAt => ("Checked {time}"@, Casing::Sentence),
        Key::ComputerArm64 => ("Computer use is not available on this architecture. Fermix runs fully on arm64 Linux, but the computer-use sidecar has no arm64 build, so there is nothing to install."@, Casing::Sentence),
        Key::ComputerNoGraphicalSession => ("Computer use needs a graphical session. This host has no display server running, so there is nothing to see and nothing to drive."@, Casing::Sentence),
        Key::ComputerWaylandSession => ("Computer use is not available on this Wayland session. The sidecar drives the screen and keyboard through X11, and this session does not offer one."@, Casing::Sentence),
        Key::ComputerSessionDetected => ("Session detected: {session}"@, Casing::Sentence),
        Key::ComputerInstallStatement => ("Fermix downloads the helper from its own release and installs it for this account. Its size is shown while it downloads."@, Casing::Sentence),
        Key::ComputerVerdictAvailable => ("Available"@, Casing::Sentence),
        Key::ComputerVerdictUnavailable => ("Not available"@, Casing::Sentence),
        Key::ComputerProbeUnread => ("Not checked yet"@, Casing::Sentence),
        Key::PermissionsColumnRevoke => ("How you take it back"@, Casing::Sentence),
        Key::PermissionsColumnArtifact => ("Where it is kept"@, Casing::Sentence),
        Key::PermissionsPlatformFact => ("On this platform a permission is something Fermix asserts about itself and keeps for itself, not something the operating system verifies and stores. Lose what Fermix keeps and the consent is gone; copy it and the consent moves with it."@, Casing::Sentence),
        Key::PermissionMicrophoneTitle => ("Microphone and voice"@, Casing::Sentence),
        Key::PermissionMicrophonePrincipal => ("Nobody. PipeWire serves whoever asks."@, Casing::Sentence),
        Key::PermissionMicrophoneRevoke => ("There is nothing to take back. Quit the program, or mute the microphone in PipeWire or in your sound settings."@, Casing::Sentence),
        Key::PermissionMicrophoneArtifact => ("Nowhere. Nothing records that access happened."@, Casing::Sentence),
        Key::PermissionScreenCaptureTitle => ("Screen capture"@, Casing::Sentence),
        Key::PermissionScreenCapturePrincipal => ("A screen cast session tied to the desktop portal identity this program presents."@, Casing::Sentence),
        Key::PermissionScreenCaptureRevoke => ("Your desktop\u{2019}s sharing settings."@, Casing::Sentence),
        Key::PermissionScreenCaptureArtifact => ("A restore token the helper writes and replaces on every session."@, Casing::Sentence),
        Key::PermissionInputSynthesisTitle => ("Keyboard and pointer control"@, Casing::Sentence),
        Key::PermissionInputSynthesisPrincipal => ("A remote desktop session with input devices, taken together with any capture sources it carries."@, Casing::Sentence),
        Key::PermissionInputSynthesisRevoke => ("Your desktop\u{2019}s sharing settings."@, Casing::Sentence),
        Key::PermissionInputSynthesisArtifact => ("One restore token for the whole session, held by the helper."@, Casing::Sentence),
        Key::PermissionBackgroundServiceTitle => ("Background service"@, Casing::Sentence),
        Key::PermissionBackgroundServicePrincipal => ("Your own user service manager, plus permission to keep it running after you log out."@, Casing::Sentence),
        Key::PermissionBackgroundServiceRevoke => ("Turn the background service off on the Home page."@, Casing::Sentence),
        Key::PermissionBackgroundServiceArtifact => ("The packaged service file, your own enablement of it, and the home it is bound to."@, Casing::Sentence),
        Key::PermissionAutostartTitle => ("Open at login"@, Casing::Sentence),
        Key::PermissionAutostartPrincipal => ("A desktop entry in your own home directory."@, Casing::Sentence),
        Key::PermissionAutostartRevoke => ("Turn off opening at login on the Home page, or remove the entry yourself."@, Casing::Sentence),
        Key::PermissionAutostartArtifact => ("The entry itself, in your own home directory."@, Casing::Sentence),
        Key::PermissionPrivilegedTitle => ("Administrator actions"@, Casing::Sentence),
        Key::PermissionPrivilegedPrincipal => ("Your system\u{2019}s authorization service, asked only when you run one of the commands Fermix prints."@, Casing::Sentence),
        Key::PermissionPrivilegedRevoke => ("Nothing is kept, so there is nothing to take back. A granted answer is commonly remembered for a few minutes."@, Casing::Sentence),
        Key::PermissionPrivilegedArtifact => ("Nowhere. Fermix installs no authorization rule of its own."@, Casing::Sentence),
        Key::PermissionBrowserTitle => ("Browser automation"@, Casing::Sentence),
        Key::PermissionBrowserPrincipal => ("On Ubuntu, the confinement profile that ships for the browser at its packaged path."@, Casing::Sentence),
        Key::PermissionBrowserRevoke => ("Replace or remove that profile, which is a decision for the whole machine."@, Casing::Sentence),
        Key::PermissionBrowserArtifact => ("A profile on the host, keyed to the browser\u{2019}s path. A browser installed elsewhere is not covered by it."@, Casing::Sentence),
        Key::DoctorSummaryHealthy => ("Healthy"@, Casing::Sentence),
        Key::DoctorSummaryFailed => ("{count} failed"@, Casing::Sentence),
        Key::DoctorCheckedJustNow => ("Checked just now"@, Casing::Sentence),
        Key::DoctorRunNetworkChecks => ("Run network checks"@, Casing::Header),
        Key::DoctorNetworkChecksCost => ("Network checks call the services you have already configured."@, Casing::Sentence),
        Key::DoctorExportSupportBundle => ("Export support bundle"@, Casing::Header),
        Key::DoctorShowLogFolder => ("Show log folder"@, Casing::Header),
        Key::DoctorLogFolderUnavailable => ("Fermix has not said where its files are, so there is no folder to open."@, Casing::Sentence),
        Key::DoctorEvidence => ("Evidence"@, Casing::Header),
        Key::DoctorRunning => ("Checks are running"@, Casing::Sentence),
        Key::DoctorBusy => ("Another run is already in progress, so this one is waiting."@, Casing::Sentence),
        Key::DoctorNeedsNewerEngine => ("This check needs a newer background service than the one running."@, Casing::Sentence),
        Key::DoctorDesktopSession => ("This desktop session"@, Casing::Header),
        Key::DoctorStatusPassed => ("Passed"@, Casing::Sentence),
        Key::DoctorStatusWarning => ("Warning"@, Casing::Sentence),
        Key::DoctorStatusFailed => ("Failed"@, Casing::Sentence),
        Key::DoctorStatusUnavailable => ("Unavailable"@, Casing::Sentence),
        Key::DoctorStatusSkipped => ("Skipped"@, Casing::Sentence),
        Key::DoctorStatusCancelled => ("Cancelled"@, Casing::Sentence),
        Key::DoctorStatusTimedOut => ("Timed out"@, Casing::Sentence),
        Key::DoctorStatusNotApplicable => ("Not applicable"@, Casing::Sentence),
        Key::DoctorPillPassed => ("P"@, Casing::Sentence),
        Key::DoctorPillWarning => ("W"@, Casing::Sentence),
        Key::DoctorPillFailed => ("F"@, Casing::Sentence),
        Key::DoctorPillUnavailable => ("U"@, Casing::Sentence),
        Key::DoctorPillSkipped => ("S"@, Casing::Sentence),
        Key::DoctorPillCancelled => ("C"@, Casing::Sentence),
        Key::DoctorPillTimedOut => ("T"@, Casing::Sentence),
        Key::DoctorPillNotApplicable => ("N"@, Casing::Sentence),
        Key::LogsLevel => ("Level"@, Casing::Sentence),
        Key::LogsLevelAll => ("All levels"@, Casing::Sentence),
        Key::LogLevelEmergency => ("Emergency"@, Casing::Sentence),
        Key::LogLevelAlert => ("Alert"@, Casing::Sentence),
        Key::LogLevelCritical => ("Critical"@, Casing::Sentence),
        Key::LogLevelError => ("Error"@, Casing::Sentence),
        Key::LogLevelWarning => ("Warning"@, Casing::Sentence),
        Key::LogLevelNotice => ("Notice"@, Casing::Sentence),
        Key::LogLevelInfo => ("Info"@, Casing::Sentence),
        Key::LogLevelDebug => ("Debug"@, Casing::Sentence),
        Key::LogsPause => ("Pause"@, Casing::Header),
        Key::LogsSearchAccessible => ("Search the log"@, Casing::Header),
        Key::LogsCaptionFile => ("Fermix writes this log to {path}"@, Casing::Sentence),
        Key::LogsCaptionJournal => ("Everything the service writes before this log opens goes to the journal instead."@, Casing::Sentence),
        Key::LogsJournalCommand => ("journalctl --user -u fermix"@, Casing::Sentence),
        Key::LogsEmpty => ("No entry matches"@, Casing::Sentence),
        Key::LogsCursorExpired => ("The log rotated while you were reading it, so this view starts again at the newest entries."@, Casing::Sentence),
        Key::LogsDaemonUnavailable => ("Fermix is not running, so there is nothing to read here."@, Casing::Sentence),
        Key::LogsExportDiagnostics => ("Export diagnostics"@, Casing::Header),
        Key::JobPhaseCalling => ("Calling the provider"@, Casing::Sentence),
        Key::JobPhaseBinding => ("Getting ready"@, Casing::Sentence),
        Key::JobPhaseAwaitingBrowser => ("Waiting for your browser"@, Casing::Sentence),
        Key::JobPhaseVerifying => ("Checking what came back"@, Casing::Sentence),
        Key::JobPhaseReadingKeychain => ("Reading the stored sign-in"@, Casing::Sentence),
        Key::JobPhaseDownloading => ("Downloading"@, Casing::Sentence),
        Key::JobPhaseProbing => ("Checking the connection"@, Casing::Sentence),
        Key::JobPhaseListing => ("Listing what it can reach"@, Casing::Sentence),
        Key::JobPhaseSidecarDownloading => ("Downloading the helper"@, Casing::Sentence),
        Key::JobPhaseAwaitingSignIn => ("Waiting for you to sign in"@, Casing::Sentence),
        Key::JobCancelled => ("Cancelled"@, Casing::Sentence),
        Key::JobTimedOut => ("Timed out"@, Casing::Sentence),
        Key::RecoveryConfigUnreadableTitle => ("Fermix cannot read its settings"@, Casing::Header),
        Key::RecoveryServiceRefusedTitle => ("Fermix could not be started"@, Casing::Header),
        Key::RecoveryJournalDialogTitle => ("Read the journal"@, Casing::Header),
        Key::RecoveryEvidence => ("What Fermix found"@, Casing::Header),
        Key::RecoveryRetry => ("Try again"@, Casing::Header),
        Key::RecoveryExportDiagnostics => ("Export diagnostics"@, Casing::Header),
        Key::RecoveryShowJournalCommand => ("Show the journal command"@, Casing::Header),
        Key::RecoveryExportUnavailable => ("The Fermix command line could not run, so there is nothing to export from here."@, Casing::Sentence),
        Key::RecoveryPackageRepair => ("Reinstall the packages with your package manager, then try again."@, Casing::Sentence),
        Key::SetupWelcomeTitle => ("Welcome to Fermix"@, Casing::Header),
        Key::SetupWelcomeBody => ("Fermix runs on this computer, answers on the apps you already use, and keeps what it learns here."@, Casing::Sentence),
        Key::SetupWelcomeStart => ("Get started"@, Casing::Header),
        Key::SetupWelcomeChooseHome => ("Use an existing Fermix folder"@, Casing::Header),
        Key::SetupStartingTitle => ("Starting Fermix"@, Casing::Header),
        Key::SetupStepBindHome => ("Choosing where Fermix keeps its files"@, Casing::Sentence),
        Key::SetupStepEnableLinger => ("Getting permission to stay running"@, Casing::Sentence),
        Key::SetupStepStartService => ("Starting the background service"@, Casing::Sentence),
        Key::SetupStepVerifyDaemon => ("Checking that it answers"@, Casing::Sentence),
        Key::SetupStepReadSetupState => ("Reading what is left to do"@, Casing::Sentence),
        Key::SetupConnectAiTitle => ("Connect your AI"@, Casing::Header),
        Key::SetupConnectAiBody => ("Fermix needs one model provider to answer with. You can add more later."@, Casing::Sentence),
        Key::SetupConnectAiSkip => ("Do this later"@, Casing::Header),
        Key::SetupAboutYouTitle => ("About you"@, Casing::Header),
        Key::SetupAboutYouBody => ("None of this is required. Fermix works without it and you can change it whenever you like."@, Casing::Sentence),
        Key::SetupFieldYourName => ("Your name"@, Casing::Sentence),
        Key::SetupFieldTimeZone => ("Time zone"@, Casing::Sentence),
        Key::SetupFieldStyle => ("Style"@, Casing::Sentence),
        Key::SetupFieldAssistantName => ("What to call Fermix"@, Casing::Sentence),
        Key::SetupApplyingTitle => ("Applying"@, Casing::Header),
        Key::SetupStepSaveSetup => ("Saving the setup"@, Casing::Sentence),
        Key::SetupStepRestart => ("Restarting Fermix"@, Casing::Sentence),
        Key::SetupReadyTitle => ("Fermix is live"@, Casing::Header),
        Key::SetupReadyNext => ("Next, if you like"@, Casing::Header),
        Key::SetupReadyChannels => ("Connect Telegram, Slack or Discord"@, Casing::Sentence),
        Key::SetupReadyAttention => ("Some things still need attention"@, Casing::Sentence),
        Key::SetupBootFailedTitle => ("Fermix did not start"@, Casing::Header),
        Key::SetupCancel => ("Stop setting up"@, Casing::Header),
        Key::SetupChangeProvider => ("Change provider"@, Casing::Header),
        Key::SetupBlockedProvider => ("Connect one provider before going on."@, Casing::Sentence),
        Key::SetupBlockedPersonalization => ("Fermix still needs something about you before it can finish."@, Casing::Sentence),
        Key::SetupBlockedElsewhere => ("Something in settings still needs an answer before Fermix is ready."@, Casing::Sentence),
        Key::SetupStepWaiting => ("Waiting"@, Casing::Sentence),
        Key::SetupStepWorking => ("Working"@, Casing::Sentence),
        Key::SetupStepDone => ("Done"@, Casing::Sentence),
        Key::SetupStepFailed => ("Stopped here"@, Casing::Sentence),
        Key::SetupProgressAccessible => ("Step {step} of {total}"@, Casing::Sentence),
        Key::SetupPreflightRefusedTitle => ("Fermix cannot start setting up"@, Casing::Header),
        Key::PreflightNoUserManagerTitle => ("This host has no user service manager"@, Casing::Header),
        Key::PreflightNoUserManagerBody => ("Fermix keeps running in the background through your own service manager, and this host does not have one. Nothing was installed and your settings are unchanged."@, Casing::Sentence),
        Key::PreflightForeignDaemonTitle => ("Another Fermix is already running here"@, Casing::Header),
        Key::PreflightForeignDaemonBody => ("A Fermix this app does not manage is using this account. Nothing was changed. Stop it first, then start again."@, Casing::Sentence),
        Key::PreflightPreManagementDaemonTitle => ("The running Fermix is too old to manage from here"@, Casing::Header),
        Key::PreflightPreManagementDaemonBody => ("The Fermix running on this account was built before this window could talk to it. Nothing was changed. Update the packages, then start again."@, Casing::Sentence),
        Key::PreflightEngineSkewTitle => ("A newer Fermix is installed"@, Casing::Header),
        Key::PreflightEngineSkewBody => ("The background service is still running the previous version. Restart it before setting up, so the setup lands on the version you installed."@, Casing::Sentence),
        Key::PreflightForeignDistributionTitle => ("This Fermix was not installed from a package"@, Casing::Header),
        Key::PreflightForeignDistributionBody => ("The Fermix running here came from somewhere this app does not manage, so it can be read but not changed. Nothing was changed."@, Casing::Sentence),
        Key::ActivationUnitInactiveTitle => ("Fermix started and stopped"@, Casing::Header),
        Key::ActivationUnitInactiveBody => ("The background service is switched on but is not running. Nothing else was changed."@, Casing::Sentence),
        Key::ActivationCrashLoopTitle => ("Fermix keeps stopping"@, Casing::Header),
        Key::ActivationCrashLoopBody => ("The background service used up the starts it is allowed. Trying again clears that count and starts it once more."@, Casing::Sentence),
        Key::ActivationProtocolMismatchTitle => ("This window and the background service cannot talk"@, Casing::Header),
        Key::ActivationProtocolMismatchBody => ("This window speaks versions {app_range} and the background service speaks {daemon_range}. Update both packages together."@, Casing::Sentence),
        Key::ActivationBindFailureTitle => ("Fermix could not take the address it needs"@, Casing::Header),
        Key::ActivationBindFailureBody => ("Something else on this computer is already using the address Fermix listens on, most often a second account\u{2019}s Fermix. Choose another one and try again."@, Casing::Sentence),
        Key::ActivationWebUnavailableTitle => ("Fermix answers, but its web door does not"@, Casing::Header),
        Key::ActivationWebUnavailableBody => ("The background service is running and the part of it your browser talks to is not answering yet."@, Casing::Sentence),
        Key::ActivationLastLogLines => ("The last few log lines"@, Casing::Header),
        Key::SkewNewerInstalledTitle => ("A newer Fermix is installed"@, Casing::Sentence),
        Key::SkewNewerInstalledDetail => ("The background service is still running the previous version, so your update has not taken effect yet. Your settings and conversations are unchanged."@, Casing::Sentence),
        Key::SkewRestartToFinish => ("Restart Fermix to finish updating"@, Casing::Header),
        Key::SkewUnknownIdentityTitle => ("Fermix cannot tell which version is running"@, Casing::Sentence),
        Key::SkewUnknownIdentityBody => ("The running service did not report a build it can be compared against, so nothing is claimed about whether it is up to date."@, Casing::Sentence),
        Key::SkewStaleGuiTitle => ("This window is older than the app installed"@, Casing::Sentence),
        Key::SkewStaleGuiBody => ("Quit Fermix and open it again to use the version that is installed."@, Casing::Sentence),
        Key::SkewOwnershipConflictTitle => ("This Fermix is not the one this app manages"@, Casing::Sentence),
        Key::SkewOwnershipConflictBody => ("What is installed and what is running disagree about who owns this account\u{2019}s Fermix, so nothing here will change it."@, Casing::Sentence),
        Key::LingerDeniedTitle => ("Fermix cannot run in the background yet"@, Casing::Header),
        Key::LingerDeniedBody => ("Linux needs one more permission before Fermix can keep answering after you log out or restart. Nothing was installed and your settings are unchanged."@, Casing::Sentence),
        Key::LingerDeniedCommandRow => ("Run this once in a terminal: sudo loginctl enable-linger <user>"@, Casing::Sentence),
        Key::LingerDeniedCommandValue => ("sudo loginctl enable-linger <user>"@, Casing::Sentence),
        Key::LoginManagerAbsentTitle => ("This host has no login manager"@, Casing::Header),
        Key::LoginManagerAbsentBody => ("Fermix could not find loginctl, so it cannot get permission to keep running after you log out. Nothing was installed and your settings are unchanged."@, Casing::Sentence),
        Key::LoginManagerAbsentNextAction => ("Install systemd\u{2019}s login manager on this host, then try again"@, Casing::Sentence),
        Key::SecretStoreDesktopKeyring => ("Stored in your desktop keyring"@, Casing::Sentence),
        Key::SecretStoreThisComputer => ("Stored in a private file on this computer"@, Casing::Sentence),
        Key::SecretStorePasswordStore => ("Stored in your password store"@, Casing::Sentence),
        Key::SecretStoreNone => ("No store on this host"@, Casing::Sentence),
        Key::SecretStoreUnavailableTitle => ("Fermix has nowhere to store this key"@, Casing::Header),
        Key::SecretStoreUnavailableBody => ("This host has no unlocked keyring, so the key was not saved. Everything else you entered is unchanged."@, Casing::Sentence),
        Key::SecretStoreUnavailableNextAction => ("Install pass and pass-secret-service, or start a desktop keyring, then add the key again"@, Casing::Sentence),
        Key::SystemScopeRefusalTitle => ("Fermix is installed as a system service"@, Casing::Header),
        Key::SystemScopeRefusalBody => ("This app manages Fermix for your account only, so it made no changes. Found a unit at /etc/systemd/system/fermix.service running as root, and a Fermix home that belongs to you."@, Casing::Sentence),
        Key::SystemScopeRefusalNextAction => ("In a terminal run sudo fermix service uninstall --system, then fermix service install"@, Casing::Sentence),
        Key::SystemScopeRefusalCommandValue => ("sudo fermix service uninstall --system\nfermix service install"@, Casing::Sentence),
        Key::NoticeAttentionTitle => ("Something needs your attention"@, Casing::Header),
        Key::NoticeAttentionBody => ("Open Fermix to see what changed."@, Casing::Sentence),
        Key::Count => (Seq::empty(), Casing::Sentence),
    }
}

/// The source and casing of one key, as executable data.
pub fn catalogue_row(key: Key) -> (row: (&'static str, Casing))
    requires
        key != Key::Count,
    ensures
        row.0@ == catalogue(key).0,
        row.1 == catalogue(key).1,
{
    match key {
        Key::ProductName => ("Fermix", Casing::Header),
        Key::PageHome => ("Home", Casing::Header),
        Key::PageDoctor => ("Doctor", Casing::Header),
        Key::PageLogs => ("Logs", Casing::Header),
        Key::PageSettings => ("Settings", Casing::Header),
        Key::PageRecovery => ("Recovery", Casing::Header),
        Key::PageSetup => ("Set up Fermix", Casing::Header),
        Key::MenuSettings => ("Settings\u{2026}", Casing::Header),
        Key::MenuRunDoctor => ("Run doctor", Casing::Header),
        Key::MenuRestart => ("Restart Fermix\u{2026}", Casing::Header),
        Key::MenuKeyboardShortcuts => ("Keyboard shortcuts", Casing::Header),
        Key::MenuAbout => ("About Fermix", Casing::Header),
        Key::MenuQuit => ("Quit", Casing::Header),
        Key::MenuPrimaryAccessible => ("Main menu", Casing::Header),
        Key::BackToFermix => ("Back to Fermix", Casing::Header),
        Key::ToggleSidebarAccessible => ("Show or hide the sidebar", Casing::Header),
        Key::SidebarAccessible => ("Sections", Casing::Header),
        Key::ShortcutsTitle => ("Keyboard shortcuts", Casing::Header),
        Key::ShortcutsGroupGeneral => ("General", Casing::Header),
        Key::ShortcutsGroupNavigation => ("Navigation", Casing::Header),
        Key::ShortcutsGroupActions => ("Actions", Casing::Header),
        Key::ShortcutOpenSettings => ("Open settings", Casing::Header),
        Key::ShortcutShowHome => ("Show home", Casing::Header),
        Key::ShortcutShowDoctor => ("Show doctor", Casing::Header),
        Key::ShortcutShowLogs => ("Show logs", Casing::Header),
        Key::ShortcutGoBack => ("Go back", Casing::Header),
        Key::ShortcutSearchSurface => ("Search this surface", Casing::Header),
        Key::ShortcutRunDoctor => ("Run doctor", Casing::Header),
        Key::ShortcutRestart => ("Restart Fermix", Casing::Header),
        Key::ShortcutToggleSidebar => ("Show or hide the sidebar", Casing::Header),
        Key::ShortcutCloseWindow => ("Close the window", Casing::Header),
        Key::ShortcutQuit => ("Quit Fermix", Casing::Header),
        Key::ShortcutAbout => ("About Fermix", Casing::Header),
        Key::ShortcutKeyboardShortcuts => ("Keyboard shortcuts", Casing::Header),
        Key::AboutDeveloper => ("Tezra", Casing::Sentence),
        Key::AboutComments => ("Fermix runs as a background service on this computer. This window sets it up and keeps an eye on it.", Casing::Sentence),
        Key::AboutWebsite => ("Website", Casing::Header),
        Key::ActionCancel => ("Cancel", Casing::Header),
        Key::ActionClose => ("Close", Casing::Header),
        Key::ActionContinue => ("Continue", Casing::Header),
        Key::ActionBack => ("Back", Casing::Header),
        Key::ActionTryAgain => ("Try again", Casing::Header),
        Key::ActionRefresh => ("Refresh", Casing::Header),
        Key::ActionExport => ("Export", Casing::Header),
        Key::ActionCopyCommand => ("Copy command", Casing::Header),
        Key::ActionCopyCommands => ("Copy commands", Casing::Header),
        Key::ActionShowMeHow => ("Show me how", Casing::Header),
        Key::ActionOpenSettingsPane => ("Open settings", Casing::Header),
        Key::ActionSearchAccessible => ("Search", Casing::Header),
        Key::ActionMoreAccessible => ("More actions", Casing::Header),
        Key::BusyQueueFull => ("Fermix is doing as much at once as it can. Try that again in a moment.", Casing::Sentence),
        Key::StateOn => ("On", Casing::Sentence),
        Key::StateOff => ("Off", Casing::Sentence),
        Key::StateNotReported => ("Not reported", Casing::Sentence),
        Key::HomeGroupBackground => ("Background", Casing::Header),
        Key::HomeGroupAttention => ("Attention", Casing::Header),
        Key::HomeGroupRuntimeDetails => ("Runtime details", Casing::Header),
        Key::HomeRowStatus => ("Status", Casing::Sentence),
        Key::HomeStatusRunning => ("Running", Casing::Sentence),
        Key::HomeStatusSetupRequired => ("Setup required", Casing::Sentence),
        Key::HomeStatusRestartToFinishUpdating => ("Restart to finish updating", Casing::Sentence),
        Key::HomeStatusNotRunning => ("Fermix isn\u{2019}t running", Casing::Sentence),
        Key::HomeSwitchRunInBackground => ("Run in the background", Casing::Sentence),
        Key::HomeSwitchOpenAtLogin => ("Open at login", Casing::Sentence),
        Key::HomeAttentionEmpty => ("Nothing needs your attention", Casing::Sentence),
        Key::HomeRuntimeEngine => ("Engine", Casing::Sentence),
        Key::HomeRuntimeManagementProtocol => ("Management protocol", Casing::Sentence),
        Key::HomeRuntimeUptime => ("Uptime", Casing::Sentence),
        Key::HomeRuntimeProvider => ("Provider", Casing::Sentence),
        Key::HomeRuntimeChannels => ("Channels", Casing::Sentence),
        Key::HomeRuntimeSkills => ("Skills", Casing::Sentence),
        Key::HomeRuntimeTools => ("Tools", Casing::Sentence),
        Key::HomeRuntimeService => ("Service", Casing::Sentence),
        Key::HomeRuntimeSession => ("Session", Casing::Sentence),
        Key::HomeRuntimeUnavailable => ("Unavailable", Casing::Sentence),
        Key::HomeRuntimeNone => ("None", Casing::Sentence),
        Key::HomeUptimeDaysHours => ("{days} d {hours} h", Casing::Sentence),
        Key::HomeUptimeHoursMinutes => ("{hours} h {minutes} min", Casing::Sentence),
        Key::HomeUptimeMinutes => ("{minutes} min", Casing::Sentence),
        Key::HomeUptimeJustStarted => ("Just started", Casing::Sentence),
        Key::HomeToolbarContinueSetup => ("Continue setup", Casing::Header),
        Key::HomeToolbarFinishUpdating => ("Finish updating", Casing::Header),
        Key::AttentionProviderTitle => ("Fermix has no AI provider it can use", Casing::Sentence),
        Key::AttentionProviderAction => ("Open providers", Casing::Header),
        Key::AttentionPersonalizationTitle => ("Fermix does not know who it is working for yet", Casing::Sentence),
        Key::AttentionPersonalizationAction => ("Open personality", Casing::Header),
        Key::AttentionChannelTitle => ("A channel is switched on but not finished", Casing::Sentence),
        Key::AttentionChannelAction => ("Open channels", Casing::Header),
        Key::AttentionRealtimeTitle => ("Voice is switched on but not finished", Casing::Sentence),
        Key::AttentionRealtimeAction => ("Open voice", Casing::Header),
        Key::AttentionRestartPendingTitle => ("Some settings take effect the next time Fermix starts", Casing::Sentence),
        Key::AttentionLegacyServiceUnitTitle => ("An older service file is starting Fermix", Casing::Sentence),
        Key::AttentionEnginePathBaselineTitle => ("Fermix may not find the tools you installed", Casing::Sentence),
        Key::AttentionOpenDoctorAction => ("Open doctor", Casing::Header),
        Key::RestartDialogTitle => ("Restart Fermix", Casing::Header),
        Key::RestartDialogBody => ("Fermix stops and starts again. Your settings and conversations are kept.", Casing::Sentence),
        Key::RestartConversationsKnown => ("Conversations in progress: {count}", Casing::Sentence),
        Key::RestartConversationsUnknown => ("Fermix cannot tell how many conversations are in progress.", Casing::Sentence),
        Key::RestartNow => ("Restart now", Casing::Header),
        Key::RestartWhenIdle => ("Restart when idle", Casing::Header),
        Key::FinishUpdatingDialogTitle => ("Finish updating", Casing::Header),
        Key::FinishUpdatingDialogBody => ("Restarting moves the background service onto the version already installed on this computer.", Casing::Sentence),
        Key::BannerExternalChangeTitle => ("Settings changed outside Fermix", Casing::Sentence),
        Key::BannerReloadFromDisk => ("Reload settings from disk", Casing::Header),
        Key::SettingsGroupAssistant => ("Assistant", Casing::Header),
        Key::SettingsGroupConnections => ("Connections", Casing::Header),
        Key::SettingsGroupCapabilities => ("Capabilities", Casing::Header),
        Key::SettingsGroupSystem => ("System", Casing::Header),
        Key::PaneProviders => ("Providers", Casing::Header),
        Key::PanePersonality => ("Personality", Casing::Header),
        Key::PaneMemory => ("Memory", Casing::Header),
        Key::PaneChannels => ("Channels", Casing::Header),
        Key::PaneIntegrations => ("Integrations", Casing::Header),
        Key::PaneVoice => ("Voice", Casing::Header),
        Key::PaneMeetings => ("Meetings", Casing::Header),
        Key::PaneComputer => ("Computer", Casing::Header),
        Key::PaneCodingAgents => ("Coding agents", Casing::Header),
        Key::PaneSearch => ("Search", Casing::Header),
        Key::PaneImages => ("Images", Casing::Header),
        Key::PaneSandbox => ("Sandbox", Casing::Header),
        Key::PanePermissions => ("Permissions", Casing::Header),
        Key::SettingsSearchAccessible => ("Search the settings panes", Casing::Header),
        Key::SettingsSearchEmpty => ("No pane matches that search", Casing::Sentence),
        Key::ListAdd => ("Add an item", Casing::Header),
        Key::ListRemoveAccessible => ("Remove this item", Casing::Header),
        Key::SecretStored => ("Stored", Casing::Sentence),
        Key::SecretReplace => ("Replace\u{2026}", Casing::Header),
        Key::SecretRemove => ("Remove", Casing::Header),
        Key::SecretAdd => ("Add\u{2026}", Casing::Header),
        Key::SecretDialogTitleAdd => ("Add a key", Casing::Header),
        Key::SecretDialogTitleReplace => ("Replace the key", Casing::Header),
        Key::SecretFieldLabel => ("Key", Casing::Sentence),
        Key::SecretStoreRowLabel => ("Secret store", Casing::Sentence),
        Key::SecretDialogConfirm => ("Store the key", Casing::Header),
        Key::ProvidersGroupPrimary => ("Primary", Casing::Header),
        Key::ProvidersGroupProviders => ("Providers", Casing::Header),
        Key::ProviderChooseModel => ("Choose a model\u{2026}", Casing::Header),
        Key::ProviderModelDialogTitle => ("Choose a model", Casing::Header),
        Key::ProviderSignIn => ("Sign in", Casing::Header),
        Key::ProviderSignOut => ("Sign out", Casing::Header),
        Key::ProviderUseAsPrimary => ("Use as primary", Casing::Header),
        Key::ProviderUseAsPrimaryConfirmTitle => ("Use this provider for everything", Casing::Header),
        Key::ProviderUseAsPrimaryConfirmBody => ("Fermix answers with this provider from now on. The model and the reasoning effort move with it.", Casing::Sentence),
        Key::ProviderTestConnection => ("Test the connection", Casing::Header),
        Key::ProviderSignInDialogTitle => ("Sign in", Casing::Header),
        Key::ProviderSignInCopyUrl => ("Copy the address", Casing::Header),
        Key::ProviderSignInUrlLabel => ("If your browser did not open, use this address:", Casing::Sentence),
        Key::ProviderImportClaudeCode => ("Use the Anthropic command-line sign-in", Casing::Header),
        Key::ProviderImportCodexCli => ("Use the Codex sign-in", Casing::Header),
        Key::ProviderAddKey => ("Add key\u{2026}", Casing::Header),
        Key::ProviderAddSetupToken => ("Add setup token\u{2026}", Casing::Header),
        Key::ProviderStatusPrimary => ("Primary", Casing::Sentence),
        Key::ProviderStatusPrimaryNotConnected => ("Primary, not connected", Casing::Sentence),
        Key::ProviderStatusConnected => ("Connected", Casing::Sentence),
        Key::ProviderStatusKeyStored => ("Key stored, not checked", Casing::Sentence),
        Key::ProviderStatusReconnect => ("Reconnect needed", Casing::Sentence),
        Key::ProviderStatusNotConnected => ("Not connected", Casing::Sentence),
        Key::ProviderSignInBody => ("Finish signing in in your browser. Fermix never sees your password.", Casing::Sentence),
        Key::ProviderImportBody => ("Fermix is reading the sign-in this computer already holds. Nothing is sent anywhere.", Casing::Sentence),
        Key::ProviderModelsSearch => ("Search models", Casing::Sentence),
        Key::ProviderModelsMore => ("Show more", Casing::Header),
        Key::ProviderModelsLive => ("Ask the provider", Casing::Header),
        Key::ProviderProbeResult => ("Answered in {count} ms with {model}", Casing::Sentence),
        Key::ChannelsGroup => ("Channels", Casing::Header),
        Key::ChannelStatusWorking => ("Connected", Casing::Sentence),
        Key::ChannelStatusNotFinished => ("Not finished", Casing::Sentence),
        Key::IntegrationsFilterInstalled => ("Installed", Casing::Header),
        Key::IntegrationsFilterAvailable => ("Available", Casing::Header),
        Key::IntegrationsFilterMcps => ("MCPs", Casing::Header),
        Key::IntegrationsFilterFeatures => ("Features", Casing::Header),
        Key::IntegrationsSignInClients => ("Sign-in clients", Casing::Header),
        Key::IntegrationsConsentTitle => ("Add this integration", Casing::Header),
        Key::IntegrationsWhatLeaves => ("What leaves this computer", Casing::Header),
        Key::IntegrationsEmpty => ("No integration matches that search", Casing::Sentence),
        Key::IntegrationsSubtitle => ("Plugins, servers and the built-in drivers Fermix can use.", Casing::Sentence),
        Key::IntegrationsSearchAccessible => ("Search integrations", Casing::Header),
        Key::IntegrationsSwitchAccessible => ("Turn {name} on or off", Casing::Sentence),
        Key::IntegrationsNextStep => ("Next step", Casing::Sentence),
        Key::IntegrationsClientRow => ("Sign-in client", Casing::Sentence),
        Key::IntegrationsWorkspaceRow => ("Workspace", Casing::Sentence),
        Key::IntegrationsOpen => ("Open", Casing::Header),
        Key::CountedFilter => ("{name} ({count})", Casing::Sentence),
        Key::IntegrationsFeatureComputerUse => ("Computer use", Casing::Header),
        Key::IntegrationsFeatureComputerUseBody => ("Sees this screen and drives the keyboard and pointer.", Casing::Sentence),
        Key::IntegrationsFeatureMeetings => ("Meeting notetaker", Casing::Header),
        Key::IntegrationsFeatureMeetingsBody => ("Joins a meeting as a notetaker and writes the notes up afterwards.", Casing::Sentence),
        Key::OAuthClientDialogTitle => ("Sign-in client", Casing::Header),
        Key::OAuthClientId => ("Client identifier", Casing::Sentence),
        Key::OAuthClientSecret => ("Client secret", Casing::Sentence),
        Key::OAuthClientRedirectPort => ("Redirect port", Casing::Sentence),
        Key::OAuthClientRegion => ("Region", Casing::Sentence),
        Key::WorkspaceDialogTitle => ("Choose a workspace", Casing::Header),
        Key::WorkspaceAccessProfile => ("Access", Casing::Sentence),
        Key::MeetingsSharedSettings => ("Shared settings", Casing::Header),
        Key::MeetingsGoogleMeet => ("Google Meet", Casing::Header),
        Key::MeetingsZoom => ("Zoom", Casing::Header),
        Key::MeetingsInstall => ("Install the notetaker", Casing::Header),
        Key::MeetingsSignIn => ("Sign in", Casing::Header),
        Key::MeetingsSignInAgain => ("Sign in again", Casing::Header),
        Key::MeetingsSignInUnanswered => ("Fermix could not read the sign-in state on this computer.", Casing::Sentence),
        Key::MeetingsSleepStatement => ("Fermix cannot keep this computer awake during a meeting. If the machine suspends, the recording stops. Adjust your power settings before a long meeting.", Casing::Sentence),
        Key::MeetingsEnableFooter => ("Installs the notetaker and its browser on first enable, about 150 MB.", Casing::Sentence),
        Key::MeetingsGoogleAccount => ("Google account for the notetaker", Casing::Sentence),
        Key::VoiceCompanionStatement => ("Voice is configured here and used from a companion application. The companion exists for macOS today, and there is no Linux companion yet.", Casing::Sentence),
        Key::VoiceMicrophoneStatement => ("Linux has no microphone permission. Nothing asked you, nothing appears in your system settings, and there is nothing to revoke. While Fermix is running it can open the microphone at any time, and so can any other program you run. Your real controls are to not run it, to mute the microphone in your sound settings or in PipeWire, or to run it in a sandbox that withholds audio, which also stops it playing sound. On macOS the operating system asks first. On Linux it does not.", Casing::Sentence),
        Key::ComputerEnable => ("Let Fermix use this computer", Casing::Sentence),
        Key::ComputerInstall => ("Install the helper", Casing::Header),
        Key::ComputerScreenCapture => ("Screen capture", Casing::Sentence),
        Key::ComputerInputControl => ("Input control", Casing::Sentence),
        Key::ComputerProbedAt => ("Checked {time}", Casing::Sentence),
        Key::ComputerArm64 => ("Computer use is not available on this architecture. Fermix runs fully on arm64 Linux, but the computer-use sidecar has no arm64 build, so there is nothing to install.", Casing::Sentence),
        Key::ComputerNoGraphicalSession => ("Computer use needs a graphical session. This host has no display server running, so there is nothing to see and nothing to drive.", Casing::Sentence),
        Key::ComputerWaylandSession => ("Computer use is not available on this Wayland session. The sidecar drives the screen and keyboard through X11, and this session does not offer one.", Casing::Sentence),
        Key::ComputerSessionDetected => ("Session detected: {session}", Casing::Sentence),
        Key::ComputerInstallStatement => ("Fermix downloads the helper from its own release and installs it for this account. Its size is shown while it downloads.", Casing::Sentence),
        Key::ComputerVerdictAvailable => ("Available", Casing::Sentence),
        Key::ComputerVerdictUnavailable => ("Not available", Casing::Sentence),
        Key::ComputerProbeUnread => ("Not checked yet", Casing::Sentence),
        Key::PermissionsColumnRevoke => ("How you take it back", Casing::Sentence),
        Key::PermissionsColumnArtifact => ("Where it is kept", Casing::Sentence),
        Key::PermissionsPlatformFact => ("On this platform a permission is something Fermix asserts about itself and keeps for itself, not something the operating system verifies and stores. Lose what Fermix keeps and the consent is gone; copy it and the consent moves with it.", Casing::Sentence),
        Key::PermissionMicrophoneTitle => ("Microphone and voice", Casing::Sentence),
        Key::PermissionMicrophonePrincipal => ("Nobody. PipeWire serves whoever asks.", Casing::Sentence),
        Key::PermissionMicrophoneRevoke => ("There is nothing to take back. Quit the program, or mute the microphone in PipeWire or in your sound settings.", Casing::Sentence),
        Key::PermissionMicrophoneArtifact => ("Nowhere. Nothing records that access happened.", Casing::Sentence),
        Key::PermissionScreenCaptureTitle => ("Screen capture", Casing::Sentence),
        Key::PermissionScreenCapturePrincipal => ("A screen cast session tied to the desktop portal identity this program presents.", Casing::Sentence),
        Key::PermissionScreenCaptureRevoke => ("Your desktop\u{2019}s sharing settings.", Casing::Sentence),
        Key::PermissionScreenCaptureArtifact => ("A restore token the helper writes and replaces on every session.", Casing::Sentence),
        Key::PermissionInputSynthesisTitle => ("Keyboard and pointer control", Casing::Sentence),
        Key::PermissionInputSynthesisPrincipal => ("A remote desktop session with input devices, taken together with any capture sources it carries.", Casing::Sentence),
        Key::PermissionInputSynthesisRevoke => ("Your desktop\u{2019}s sharing settings.", Casing::Sentence),
        Key::PermissionInputSynthesisArtifact => ("One restore token for the whole session, held by the helper.", Casing::Sentence),
        Key::PermissionBackgroundServiceTitle => ("Background service", Casing::Sentence),
        Key::PermissionBackgroundServicePrincipal => ("Your own user service manager, plus permission to keep it running after you log out.", Casing::Sentence),
        Key::PermissionBackgroundServiceRevoke => ("Turn the background service off on the Home page.", Casing::Sentence),
        Key::PermissionBackgroundServiceArtifact => ("The packaged service file, your own enablement of it, and the home it is bound to.", Casing::Sentence),
        Key::PermissionAutostartTitle => ("Open at login", Casing::Sentence),
        Key::PermissionAutostartPrincipal => ("A desktop entry in your own home directory.", Casing::Sentence),
        Key::PermissionAutostartRevoke => ("Turn off opening at login on the Home page, or remove the entry yourself.", Casing::Sentence),
        Key::PermissionAutostartArtifact => ("The entry itself, in your own home directory.", Casing::Sentence),
        Key::PermissionPrivilegedTitle => ("Administrator actions", Casing::Sentence),
        Key::PermissionPrivilegedPrincipal => ("Your system\u{2019}s authorization service, asked only when you run one of the commands Fermix prints.", Casing::Sentence),
        Key::PermissionPrivilegedRevoke => ("Nothing is kept, so there is nothing to take back. A granted answer is commonly remembered for a few minutes.", Casing::Sentence),
        Key::PermissionPrivilegedArtifact => ("Nowhere. Fermix installs no authorization rule of its own.", Casing::Sentence),
        Key::PermissionBrowserTitle => ("Browser automation", Casing::Sentence),
        Key::PermissionBrowserPrincipal => ("On Ubuntu, the confinement profile that ships for the browser at its packaged path.", Casing::Sentence),
        Key::PermissionBrowserRevoke => ("Replace or remove that profile, which is a decision for the whole machine.", Casing::Sentence),
        Key::PermissionBrowserArtifact => ("A profile on the host, keyed to the browser\u{2019}s path. A browser installed elsewhere is not covered by it.", Casing::Sentence),
        Key::DoctorSummaryHealthy => ("Healthy", Casing::Sentence),
        Key::DoctorSummaryFailed => ("{count} failed", Casing::Sentence),
        Key::DoctorCheckedJustNow => ("Checked just now", Casing::Sentence),
        Key::DoctorRunNetworkChecks => ("Run network checks", Casing::Header),
        Key::DoctorNetworkChecksCost => ("Network checks call the services you have already configured.", Casing::Sentence),
        Key::DoctorExportSupportBundle => ("Export support bundle", Casing::Header),
        Key::DoctorShowLogFolder => ("Show log folder", Casing::Header),
        Key::DoctorLogFolderUnavailable => ("Fermix has not said where its files are, so there is no folder to open.", Casing::Sentence),
        Key::DoctorEvidence => ("Evidence", Casing::Header),
        Key::DoctorRunning => ("Checks are running", Casing::Sentence),
        Key::DoctorBusy => ("Another run is already in progress, so this one is waiting.", Casing::Sentence),
        Key::DoctorNeedsNewerEngine => ("This check needs a newer background service than the one running.", Casing::Sentence),
        Key::DoctorDesktopSession => ("This desktop session", Casing::Header),
        Key::DoctorStatusPassed => ("Passed", Casing::Sentence),
        Key::DoctorStatusWarning => ("Warning", Casing::Sentence),
        Key::DoctorStatusFailed => ("Failed", Casing::Sentence),
        Key::DoctorStatusUnavailable => ("Unavailable", Casing::Sentence),
        Key::DoctorStatusSkipped => ("Skipped", Casing::Sentence),
        Key::DoctorStatusCancelled => ("Cancelled", Casing::Sentence),
        Key::DoctorStatusTimedOut => ("Timed out", Casing::Sentence),
        Key::DoctorStatusNotApplicable => ("Not applicable", Casing::Sentence),
        Key::DoctorPillPassed => ("P", Casing::Sentence),
        Key::DoctorPillWarning => ("W", Casing::Sentence),
        Key::DoctorPillFailed => ("F", Casing::Sentence),
        Key::DoctorPillUnavailable => ("U", Casing::Sentence),
        Key::DoctorPillSkipped => ("S", Casing::Sentence),
        Key::DoctorPillCancelled => ("C", Casing::Sentence),
        Key::DoctorPillTimedOut => ("T", Casing::Sentence),
        Key::DoctorPillNotApplicable => ("N", Casing::Sentence),
        Key::LogsLevel => ("Level", Casing::Sentence),
        Key::LogsLevelAll => ("All levels", Casing::Sentence),
        Key::LogLevelEmergency => ("Emergency", Casing::Sentence),
        Key::LogLevelAlert => ("Alert", Casing::Sentence),
        Key::LogLevelCritical => ("Critical", Casing::Sentence),
        Key::LogLevelError => ("Error", Casing::Sentence),
        Key::LogLevelWarning => ("Warning", Casing::Sentence),
        Key::LogLevelNotice => ("Notice", Casing::Sentence),
        Key::LogLevelInfo => ("Info", Casing::Sentence),
        Key::LogLevelDebug => ("Debug", Casing::Sentence),
        Key::LogsPause => ("Pause", Casing::Header),
        Key::LogsSearchAccessible => ("Search the log", Casing::Header),
        Key::LogsCaptionFile => ("Fermix writes this log to {path}", Casing::Sentence),
        Key::LogsCaptionJournal => ("Everything the service writes before this log opens goes to the journal instead.", Casing::Sentence),
        Key::LogsJournalCommand => ("journalctl --user -u fermix", Casing::Sentence),
        Key::LogsEmpty => ("No entry matches", Casing::Sentence),
        Key::LogsCursorExpired => ("The log rotated while you were reading it, so this view starts again at the newest entries.", Casing::Sentence),
        Key::LogsDaemonUnavailable => ("Fermix is not running, so there is nothing to read here.", Casing::Sentence),
        Key::LogsExportDiagnostics => ("Export diagnostics", Casing::Header),
        Key::JobPhaseCalling => ("Calling the provider", Casing::Sentence),
        Key::JobPhaseBinding => ("Getting ready", Casing::Sentence),
        Key::JobPhaseAwaitingBrowser => ("Waiting for your browser", Casing::Sentence),
        Key::JobPhaseVerifying => ("Checking what came back", Casing::Sentence),
        Key::JobPhaseReadingKeychain => ("Reading the stored sign-in", Casing::Sentence),
        Key::JobPhaseDownloading => ("Downloading", Casing::Sentence),
        Key::JobPhaseProbing => ("Checking the connection", Casing::Sentence),
        Key::JobPhaseListing => ("Listing what it can reach", Casing::Sentence),
        Key::JobPhaseSidecarDownloading => ("Downloading the helper", Casing::Sentence),
        Key::JobPhaseAwaitingSignIn => ("Waiting for you to sign in", Casing::Sentence),
        Key::JobCancelled => ("Cancelled", Casing::Sentence),
        Key::JobTimedOut => ("Timed out", Casing::Sentence),
        Key::RecoveryConfigUnreadableTitle => ("Fermix cannot read its settings", Casing::Header),
        Key::RecoveryServiceRefusedTitle => ("Fermix could not be started", Casing::Header),
        Key::RecoveryJournalDialogTitle => ("Read the journal", Casing::Header),
        Key::RecoveryEvidence => ("What Fermix found", Casing::Header),
        Key::RecoveryRetry => ("Try again", Casing::Header),
        Key::RecoveryExportDiagnostics => ("Export diagnostics", Casing::Header),
        Key::RecoveryShowJournalCommand => ("Show the journal command", Casing::Header),
        Key::RecoveryExportUnavailable => ("The Fermix command line could not run, so there is nothing to export from here.", Casing::Sentence),
        Key::RecoveryPackageRepair => ("Reinstall the packages with your package manager, then try again.", Casing::Sentence),
        Key::SetupWelcomeTitle => ("Welcome to Fermix", Casing::Header),
        Key::SetupWelcomeBody => ("Fermix runs on this computer, answers on the apps you already use, and keeps what it learns here.", Casing::Sentence),
        Key::SetupWelcomeStart => ("Get started", Casing::Header),
        Key::SetupWelcomeChooseHome => ("Use an existing Fermix folder", Casing::Header),
        Key::SetupStartingTitle => ("Starting Fermix", Casing::Header),
        Key::SetupStepBindHome => ("Choosing where Fermix keeps its files", Casing::Sentence),
        Key::SetupStepEnableLinger => ("Getting permission to stay running", Casing::Sentence),
        Key::SetupStepStartService => ("Starting the background service", Casing::Sentence),
        Key::SetupStepVerifyDaemon => ("Checking that it answers", Casing::Sentence),
        Key::SetupStepReadSetupState => ("Reading what is left to do", Casing::Sentence),
        Key::SetupConnectAiTitle => ("Connect your AI", Casing::Header),
        Key::SetupConnectAiBody => ("Fermix needs one model provider to answer with. You can add more later.", Casing::Sentence),
        Key::SetupConnectAiSkip => ("Do this later", Casing::Header),
        Key::SetupAboutYouTitle => ("About you", Casing::Header),
        Key::SetupAboutYouBody => ("None of this is required. Fermix works without it and you can change it whenever you like.", Casing::Sentence),
        Key::SetupFieldYourName => ("Your name", Casing::Sentence),
        Key::SetupFieldTimeZone => ("Time zone", Casing::Sentence),
        Key::SetupFieldStyle => ("Style", Casing::Sentence),
        Key::SetupFieldAssistantName => ("What to call Fermix", Casing::Sentence),
        Key::SetupApplyingTitle => ("Applying", Casing::Header),
        Key::SetupStepSaveSetup => ("Saving the setup", Casing::Sentence),
        Key::SetupStepRestart => ("Restarting Fermix", Casing::Sentence),
        Key::SetupReadyTitle => ("Fermix is live", Casing::Header),
        Key::SetupReadyNext => ("Next, if you like", Casing::Header),
        Key::SetupReadyChannels => ("Connect Telegram, Slack or Discord", Casing::Sentence),
        Key::SetupReadyAttention => ("Some things still need attention", Casing::Sentence),
        Key::SetupBootFailedTitle => ("Fermix did not start", Casing::Header),
        Key::SetupCancel => ("Stop setting up", Casing::Header),
        Key::SetupChangeProvider => ("Change provider", Casing::Header),
        Key::SetupBlockedProvider => ("Connect one provider before going on.", Casing::Sentence),
        Key::SetupBlockedPersonalization => ("Fermix still needs something about you before it can finish.", Casing::Sentence),
        Key::SetupBlockedElsewhere => ("Something in settings still needs an answer before Fermix is ready.", Casing::Sentence),
        Key::SetupStepWaiting => ("Waiting", Casing::Sentence),
        Key::SetupStepWorking => ("Working", Casing::Sentence),
        Key::SetupStepDone => ("Done", Casing::Sentence),
        Key::SetupStepFailed => ("Stopped here", Casing::Sentence),
        Key::SetupProgressAccessible => ("Step {step} of {total}", Casing::Sentence),
        Key::SetupPreflightRefusedTitle => ("Fermix cannot start setting up", Casing::Header),
        Key::PreflightNoUserManagerTitle => ("This host has no user service manager", Casing::Header),
        Key::PreflightNoUserManagerBody => ("Fermix keeps running in the background through your own service manager, and this host does not have one. Nothing was installed and your settings are unchanged.", Casing::Sentence),
        Key::PreflightForeignDaemonTitle => ("Another Fermix is already running here", Casing::Header),
        Key::PreflightForeignDaemonBody => ("A Fermix this app does not manage is using this account. Nothing was changed. Stop it first, then start again.", Casing::Sentence),
        Key::PreflightPreManagementDaemonTitle => ("The running Fermix is too old to manage from here", Casing::Header),
        Key::PreflightPreManagementDaemonBody => ("The Fermix running on this account was built before this window could talk to it. Nothing was changed. Update the packages, then start again.", Casing::Sentence),
        Key::PreflightEngineSkewTitle => ("A newer Fermix is installed", Casing::Header),
        Key::PreflightEngineSkewBody => ("The background service is still running the previous version. Restart it before setting up, so the setup lands on the version you installed.", Casing::Sentence),
        Key::PreflightForeignDistributionTitle => ("This Fermix was not installed from a package", Casing::Header),
        Key::PreflightForeignDistributionBody => ("The Fermix running here came from somewhere this app does not manage, so it can be read but not changed. Nothing was changed.", Casing::Sentence),
        Key::ActivationUnitInactiveTitle => ("Fermix started and stopped", Casing::Header),
        Key::ActivationUnitInactiveBody => ("The background service is switched on but is not running. Nothing else was changed.", Casing::Sentence),
        Key::ActivationCrashLoopTitle => ("Fermix keeps stopping", Casing::Header),
        Key::ActivationCrashLoopBody => ("The background service used up the starts it is allowed. Trying again clears that count and starts it once more.", Casing::Sentence),
        Key::ActivationProtocolMismatchTitle => ("This window and the background service cannot talk", Casing::Header),
        Key::ActivationProtocolMismatchBody => ("This window speaks versions {app_range} and the background service speaks {daemon_range}. Update both packages together.", Casing::Sentence),
        Key::ActivationBindFailureTitle => ("Fermix could not take the address it needs", Casing::Header),
        Key::ActivationBindFailureBody => ("Something else on this computer is already using the address Fermix listens on, most often a second account\u{2019}s Fermix. Choose another one and try again.", Casing::Sentence),
        Key::ActivationWebUnavailableTitle => ("Fermix answers, but its web door does not", Casing::Header),
        Key::ActivationWebUnavailableBody => ("The background service is running and the part of it your browser talks to is not answering yet.", Casing::Sentence),
        Key::ActivationLastLogLines => ("The last few log lines", Casing::Header),
        Key::SkewNewerInstalledTitle => ("A newer Fermix is installed", Casing::Sentence),
        Key::SkewNewerInstalledDetail => ("The background service is still running the previous version, so your update has not taken effect yet. Your settings and conversations are unchanged.", Casing::Sentence),
        Key::SkewRestartToFinish => ("Restart Fermix to finish updating", Casing::Header),
        Key::SkewUnknownIdentityTitle => ("Fermix cannot tell which version is running", Casing::Sentence),
        Key::SkewUnknownIdentityBody => ("The running service did not report a build it can be compared against, so nothing is claimed about whether it is up to date.", Casing::Sentence),
        Key::SkewStaleGuiTitle => ("This window is older than the app installed", Casing::Sentence),
        Key::SkewStaleGuiBody => ("Quit Fermix and open it again to use the version that is installed.", Casing::Sentence),
        Key::SkewOwnershipConflictTitle => ("This Fermix is not the one this app manages", Casing::Sentence),
        Key::SkewOwnershipConflictBody => ("What is installed and what is running disagree about who owns this account\u{2019}s Fermix, so nothing here will change it.", Casing::Sentence),
        Key::LingerDeniedTitle => ("Fermix cannot run in the background yet", Casing::Header),
        Key::LingerDeniedBody => ("Linux needs one more permission before Fermix can keep answering after you log out or restart. Nothing was installed and your settings are unchanged.", Casing::Sentence),
        Key::LingerDeniedCommandRow => ("Run this once in a terminal: sudo loginctl enable-linger <user>", Casing::Sentence),
        Key::LingerDeniedCommandValue => ("sudo loginctl enable-linger <user>", Casing::Sentence),
        Key::LoginManagerAbsentTitle => ("This host has no login manager", Casing::Header),
        Key::LoginManagerAbsentBody => ("Fermix could not find loginctl, so it cannot get permission to keep running after you log out. Nothing was installed and your settings are unchanged.", Casing::Sentence),
        Key::LoginManagerAbsentNextAction => ("Install systemd\u{2019}s login manager on this host, then try again", Casing::Sentence),
        Key::SecretStoreDesktopKeyring => ("Stored in your desktop keyring", Casing::Sentence),
        Key::SecretStoreThisComputer => ("Stored in a private file on this computer", Casing::Sentence),
        Key::SecretStorePasswordStore => ("Stored in your password store", Casing::Sentence),
        Key::SecretStoreNone => ("No store on this host", Casing::Sentence),
        Key::SecretStoreUnavailableTitle => ("Fermix has nowhere to store this key", Casing::Header),
        Key::SecretStoreUnavailableBody => ("This host has no unlocked keyring, so the key was not saved. Everything else you entered is unchanged.", Casing::Sentence),
        Key::SecretStoreUnavailableNextAction => ("Install pass and pass-secret-service, or start a desktop keyring, then add the key again", Casing::Sentence),
        Key::SystemScopeRefusalTitle => ("Fermix is installed as a system service", Casing::Header),
        Key::SystemScopeRefusalBody => ("This app manages Fermix for your account only, so it made no changes. Found a unit at /etc/systemd/system/fermix.service running as root, and a Fermix home that belongs to you.", Casing::Sentence),
        Key::SystemScopeRefusalNextAction => ("In a terminal run sudo fermix service uninstall --system, then fermix service install", Casing::Sentence),
        Key::SystemScopeRefusalCommandValue => ("sudo fermix service uninstall --system\nfermix service install", Casing::Sentence),
        Key::NoticeAttentionTitle => ("Something needs your attention", Casing::Header),
        Key::NoticeAttentionBody => ("Open Fermix to see what changed.", Casing::Sentence),
        Key::Count => ("", Casing::Sentence),
    }
}

} // verus!
