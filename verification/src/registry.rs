//! The surface registry.
//!
//! Every hand-built surface names its counterpart in the macOS door, or carries
//! the sentence that says why it has none. A surface rendered on macOS and
//! absent here is a recorded exemption rather than a silent gap.
//!
//! What is exempt is exactly four things, all of them properties of the
//! platform rather than decisions of this application: the macOS login item, a
//! permission grant Linux has no equivalent of, a feature the engine does not
//! run on Linux, and the picker that feature owns.

use vstd::prelude::*;
use crate::text::str_eq;

verus! {

/// One hand-built surface.
#[derive(Debug, Clone, Copy, PartialEq, Eq)]
pub struct Surface {
    /// The file that draws it, relative to the crate.
    pub file: &'static str,
    /// The macOS counterpart, where there is one.
    pub counterpart: Option<&'static str>,
    /// Why there is none, where there is none.
    pub exemption: Option<&'static str>,
}

/// One thing the macOS door renders that this one does not, and why.
#[derive(Debug, Clone, Copy, PartialEq, Eq)]
pub struct Exemption {
    /// What the macOS door calls it.
    pub counterpart: &'static str,
    /// Why this door does not render it.
    pub sentence: &'static str,
}

/// What a surface says, as characters.
pub type SurfaceView = (Seq<char>, Option<Seq<char>>, Option<Seq<char>>);

/// An optional literal as characters.
pub open spec fn opt_chars(o: Option<&'static str>) -> Option<Seq<char>> {
    match o {
        Some(s) => Some(s@),
        None => None,
    }
}

/// What one surface says.
pub open spec fn surface_view(s: Surface) -> SurfaceView {
    (s.file@, opt_chars(s.counterpart), opt_chars(s.exemption))
}

/// Every hand-built surface this door draws.
pub open spec fn surface_table() -> Seq<SurfaceView> {
    seq![
        ("src/ui/onboarding/welcome.rs"@, Some("Onboarding/OnboardingWindowView.swift"@), None),
        ("src/ui/onboarding/starting.rs"@, Some("Onboarding/StartingSurface.swift"@), None),
        ("src/ui/onboarding/connect_ai.rs"@, Some("Onboarding/ConnectAISurface.swift"@), None),
        ("src/ui/onboarding/about_you.rs"@, Some("Onboarding/AboutYouSurface.swift"@), None),
        ("src/ui/onboarding/applying.rs"@, Some("Onboarding/OnboardingWindowView.swift"@), None),
        ("src/ui/onboarding/ready.rs"@, Some("Onboarding/ReadySurface.swift"@), None),
        ("src/ui/onboarding/boot_failed.rs"@, Some("Onboarding/OnboardingWindowView.swift"@), None),
        ("src/ui/settings/providers.rs"@, Some("Settings/Panes/ProvidersPane.swift"@), None),
        ("src/ui/settings/channels.rs"@, Some("Settings/Panes/ChannelsPane.swift"@), None),
        ("src/ui/settings/integrations.rs"@, Some("Settings/Panes/IntegrationsPane.swift"@), None),
        ("src/ui/settings/meetings.rs"@, Some("Settings/Panes/SettingsPaneView.swift"@), None),
        ("src/ui/settings/computer.rs"@, Some("Settings/Panes/ComputerPane.swift"@), None),
        ("src/ui/settings/permissions.rs"@, Some("Settings/Panes/PermissionsPane.swift"@), None),
        ("src/ui/settings/voice.rs"@, Some("Settings/Panes/SettingsPaneView.swift"@), None),
        ("src/ui/settings/dialogs/secret.rs"@, Some("Settings/Rows/SecretRow.swift"@), None),
        ("src/ui/settings/dialogs/sign_in.rs"@, Some("Settings/Panes/ProviderSheets.swift"@), None),
        ("src/ui/settings/dialogs/model_picker.rs"@, Some("Settings/Panes/ProviderSheets.swift"@), None),
        ("src/ui/settings/dialogs/consent.rs"@, Some("Settings/Panes/IntegrationSheets.swift"@), None),
        ("src/ui/settings/dialogs/oauth_client.rs"@, Some("Settings/Panes/IntegrationSheets.swift"@), None),
        ("src/ui/settings/dialogs/workspace.rs"@, Some("Settings/Panes/IntegrationSheets.swift"@), None),
        ("src/ui/settings/dialogs/restart.rs"@, Some("Settings/RestartSheet.swift"@), None),
    ]
}

/// Everything the macOS door renders that this one does not.
pub open spec fn exemption_table() -> Seq<(Seq<char>, Seq<char>)> {
    seq![
        ("the login item row"@, "Opening at login on this platform is a desktop entry in the person's own home directory rather than a service the operating system registers, so Home writes that entry and there is nothing here to approve."@),
        ("computer_use.grant.start"@, "There is nothing for this application to grant: the helper asks the desktop for its own session, and on X11 there is no consent to raise at all."@),
        ("computer history"@, "The engine runs computer history on macOS only, so this door renders no row for it anywhere rather than an empty section."@),
        ("the Choose apps picker"@, "It belongs to computer history, which this platform does not run."@),
    ]
}

/// Every hand-built surface this door draws.
pub fn surfaces() -> (r: Vec<Surface>)
    ensures
        r@.map_values(|s: Surface| surface_view(s)) == surface_table(),
{
    let r = vec![
        Surface { file: "src/ui/onboarding/welcome.rs", counterpart: Some("Onboarding/OnboardingWindowView.swift"), exemption: None },
        Surface { file: "src/ui/onboarding/starting.rs", counterpart: Some("Onboarding/StartingSurface.swift"), exemption: None },
        Surface { file: "src/ui/onboarding/connect_ai.rs", counterpart: Some("Onboarding/ConnectAISurface.swift"), exemption: None },
        Surface { file: "src/ui/onboarding/about_you.rs", counterpart: Some("Onboarding/AboutYouSurface.swift"), exemption: None },
        Surface { file: "src/ui/onboarding/applying.rs", counterpart: Some("Onboarding/OnboardingWindowView.swift"), exemption: None },
        Surface { file: "src/ui/onboarding/ready.rs", counterpart: Some("Onboarding/ReadySurface.swift"), exemption: None },
        Surface { file: "src/ui/onboarding/boot_failed.rs", counterpart: Some("Onboarding/OnboardingWindowView.swift"), exemption: None },
        Surface { file: "src/ui/settings/providers.rs", counterpart: Some("Settings/Panes/ProvidersPane.swift"), exemption: None },
        Surface { file: "src/ui/settings/channels.rs", counterpart: Some("Settings/Panes/ChannelsPane.swift"), exemption: None },
        Surface { file: "src/ui/settings/integrations.rs", counterpart: Some("Settings/Panes/IntegrationsPane.swift"), exemption: None },
        Surface { file: "src/ui/settings/meetings.rs", counterpart: Some("Settings/Panes/SettingsPaneView.swift"), exemption: None },
        Surface { file: "src/ui/settings/computer.rs", counterpart: Some("Settings/Panes/ComputerPane.swift"), exemption: None },
        Surface { file: "src/ui/settings/permissions.rs", counterpart: Some("Settings/Panes/PermissionsPane.swift"), exemption: None },
        Surface { file: "src/ui/settings/voice.rs", counterpart: Some("Settings/Panes/SettingsPaneView.swift"), exemption: None },
        Surface { file: "src/ui/settings/dialogs/secret.rs", counterpart: Some("Settings/Rows/SecretRow.swift"), exemption: None },
        Surface { file: "src/ui/settings/dialogs/sign_in.rs", counterpart: Some("Settings/Panes/ProviderSheets.swift"), exemption: None },
        Surface { file: "src/ui/settings/dialogs/model_picker.rs", counterpart: Some("Settings/Panes/ProviderSheets.swift"), exemption: None },
        Surface { file: "src/ui/settings/dialogs/consent.rs", counterpart: Some("Settings/Panes/IntegrationSheets.swift"), exemption: None },
        Surface { file: "src/ui/settings/dialogs/oauth_client.rs", counterpart: Some("Settings/Panes/IntegrationSheets.swift"), exemption: None },
        Surface { file: "src/ui/settings/dialogs/workspace.rs", counterpart: Some("Settings/Panes/IntegrationSheets.swift"), exemption: None },
        Surface { file: "src/ui/settings/dialogs/restart.rs", counterpart: Some("Settings/RestartSheet.swift"), exemption: None },
    ];
    assert(r@.map_values(|s: Surface| surface_view(s)) =~= surface_table());
    r
}

/// Everything the macOS door renders that this one does not.
pub fn exemptions() -> (r: Vec<Exemption>)
    ensures
        r@.map_values(|e: Exemption| (e.counterpart@, e.sentence@)) == exemption_table(),
{
    let r = vec![
        Exemption { counterpart: "the login item row", sentence: "Opening at login on this platform is a desktop entry in the person's own home directory rather than a service the operating system registers, so Home writes that entry and there is nothing here to approve." },
        Exemption { counterpart: "computer_use.grant.start", sentence: "There is nothing for this application to grant: the helper asks the desktop for its own session, and on X11 there is no consent to raise at all." },
        Exemption { counterpart: "computer history", sentence: "The engine runs computer history on macOS only, so this door renders no row for it anywhere rather than an empty section." },
        Exemption { counterpart: "the Choose apps picker", sentence: "It belongs to computer history, which this platform does not run." },
    ];
    assert(r@.map_values(|e: Exemption| (e.counterpart@, e.sentence@)) =~= exemption_table());
    r
}

/// The first surface drawn by one file, where there is one.
pub open spec fn surface_for(table: Seq<SurfaceView>, file: Seq<char>) -> Option<SurfaceView>
    decreases table.len(),
{
    if table.len() == 0 {
        None
    } else if table[0].0 == file {
        Some(table[0])
    } else {
        surface_for(table.drop_first(), file)
    }
}

/// One surface's entry, by the file that draws it.
pub fn surface(file: &str) -> (r: Option<Surface>)
    ensures
        match surface_for(surface_table(), file@) {
            Some(v) => r matches Some(s) && surface_view(s) == v,
            None => r is None,
        },
{
    let table = surfaces();
    let ghost views = table@.map_values(|s: Surface| surface_view(s));
    let mut i: usize = 0;
    proof {
        assert(views.skip(0) =~= views);
    }
    while i < table.len()
        invariant
            i <= table@.len(),
            views == table@.map_values(|s: Surface| surface_view(s)),
            views == surface_table(),
            surface_for(views, file@) == surface_for(views.skip(i as int), file@),
        decreases table@.len() - i,
    {
        proof {
            assert(views.skip(i as int).drop_first() =~= views.skip(i + 1));
            assert(views.skip(i as int)[0] == surface_view(table@[i as int]));
        }
        if str_eq(table[i].file, file) {
            return Some(table[i]);
        }
        i = i + 1;
    }
    proof {
        assert(views.skip(i as int) =~= Seq::<SurfaceView>::empty());
    }
    None
}

/// Every surface names a counterpart or an exemption, never both and never
/// neither.
pub proof fn every_surface_names_a_counterpart_or_an_exemption()
    ensures
        forall|i: int|
            0 <= i < surface_table().len() ==> (#[trigger] surface_table()[i]).1.is_some()
                != surface_table()[i].2.is_some(),
{
    let t = surface_table();
    assert forall|i: int| 0 <= i < t.len() implies (#[trigger] t[i]).1.is_some() != t[i].2.is_some() by {
        assert(i == 0 || i == 1 || i == 2 || i == 3 || i == 4 || i == 5 || i == 6 || i == 7 || i == 8 || i == 9 || i == 10 || i == 11 || i == 12 || i == 13 || i == 14 || i == 15 || i == 16 || i == 17 || i == 18 || i == 19 || i == 20);
    }
}

/// Every exemption says why in a sentence a reader can weigh: more than
/// forty characters of it.
pub proof fn every_exemption_says_why()
    ensures
        forall|i: int| 0 <= i < exemption_table().len() ==> (#[trigger] exemption_table()[i]).1.len() > 40,
{
    reveal_strlit("Opening at login on this platform is a desktop entry in the person's own home directory rather than a service the operating system registers, so Home writes that entry and there is nothing here to approve.");
    reveal_strlit("There is nothing for this application to grant: the helper asks the desktop for its own session, and on X11 there is no consent to raise at all.");
    reveal_strlit("The engine runs computer history on macOS only, so this door renders no row for it anywhere rather than an empty section.");
    reveal_strlit("It belongs to computer history, which this platform does not run.");
    let t = exemption_table();
    assert forall|i: int| 0 <= i < t.len() implies (#[trigger] t[i]).1.len() > 40 by {
        assert(i == 0 || i == 1 || i == 2 || i == 3);
    }
}

} // verus!
