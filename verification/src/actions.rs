//! The one action map.
//!
//! Every action the product has is a row below, with its accelerator beside it.
//! The primary menu, the shortcuts dialog and every notification bind to these
//! rows, so an action is a menu item and a keyboard path by construction rather
//! than by discipline, and nothing is reachable from only one place.

use vstd::prelude::*;
use crate::copy::Key;
use crate::text::{is_prefix, str_eq, strip_prefix};

verus! {

/// Which group of the shortcuts dialog a row belongs to.
#[derive(Debug, Clone, Copy, PartialEq, Eq, Structural)]
pub enum Group {
    General,
    Navigation,
    Actions,
}

impl Group {
    /// The group's heading.
    pub fn title(self) -> (k: Key)
        ensures
            k == match self {
                Group::General => Key::ShortcutsGroupGeneral,
                Group::Navigation => Key::ShortcutsGroupNavigation,
                Group::Actions => Key::ShortcutsGroupActions,
            },
    {
        match self {
            Group::General => Key::ShortcutsGroupGeneral,
            Group::Navigation => Key::ShortcutsGroupNavigation,
            Group::Actions => Key::ShortcutsGroupActions,
        }
    }
}

/// One action, its accelerators and the words for it.
#[derive(Debug, Clone)]
pub struct ActionSpec {
    /// The fully qualified name, `app.*` or `win.*`.
    pub name: &'static str,
    /// Every accelerator that reaches it.
    pub accels: Vec<&'static str>,
    /// How the shortcuts dialog names it.
    pub label: Key,
    /// Which group of the shortcuts dialog it sits in.
    pub group: Group,
}

/// One action as characters: its name, its accelerators, its label and its
/// group.
pub type ActionView = (Seq<char>, Seq<Seq<char>>, Key, Group);

/// What one action says.
pub open spec fn action_view(spec: ActionSpec) -> ActionView {
    (spec.name@, spec.accels@.map_values(|a: &'static str| a@), spec.label, spec.group)
}

/// Every action in the product.
pub open spec fn action_table() -> Seq<ActionView> {
    seq![
        ("app.quit"@, seq!["<Control>q"@], Key::ShortcutQuit, Group::General),
        ("app.about"@, Seq::empty(), Key::ShortcutAbout, Group::General),
        ("app.home"@, Seq::empty(), Key::ShortcutShowHome, Group::Navigation),
        ("app.shortcuts"@, seq!["<Control>question"@], Key::ShortcutKeyboardShortcuts, Group::General),
        ("win.close"@, seq!["<Control>w"@], Key::ShortcutCloseWindow, Group::General),
        ("win.settings"@, seq!["<Control>comma"@], Key::ShortcutOpenSettings, Group::Navigation),
        ("win.home"@, seq!["<Control>1"@], Key::ShortcutShowHome, Group::Navigation),
        ("win.doctor"@, seq!["<Control>2"@], Key::ShortcutShowDoctor, Group::Navigation),
        ("win.logs"@, seq!["<Control>3"@], Key::ShortcutShowLogs, Group::Navigation),
        ("win.back"@, seq!["Escape"@, "<Alt>Left"@], Key::ShortcutGoBack, Group::Navigation),
        ("win.toggle-sidebar"@, seq!["F9"@], Key::ShortcutToggleSidebar, Group::Navigation),
        ("win.search"@, seq!["<Control>f"@], Key::ShortcutSearchSurface, Group::Navigation),
        ("win.run-doctor"@, seq!["<Control>r"@], Key::ShortcutRunDoctor, Group::Actions),
        ("win.restart"@, seq!["<Shift><Control>r"@], Key::ShortcutRestart, Group::Actions),
    ]
}

/// The primary menu, in the order the redlines fix: Settings, Run Doctor,
/// Restart Fermix, Keyboard Shortcuts, About Fermix, Quit. Each row names an
/// action and the word the menu uses for it, which is not always the word the
/// shortcuts dialog uses.
pub open spec fn menu_table() -> Seq<(Seq<char>, Key)> {
    seq![
        ("win.settings"@, Key::MenuSettings),
        ("win.run-doctor"@, Key::MenuRunDoctor),
        ("win.restart"@, Key::MenuRestart),
        ("app.shortcuts"@, Key::MenuKeyboardShortcuts),
        ("app.about"@, Key::MenuAbout),
        ("app.quit"@, Key::MenuQuit),
    ]
}

/// Every action in the product.
pub fn actions() -> (r: Vec<ActionSpec>)
    ensures
        r@.map_values(|s: ActionSpec| action_view(s)) == action_table(),
{
    let r = vec![
        ActionSpec { name: "app.quit", accels: vec!["<Control>q"], label: Key::ShortcutQuit, group: Group::General },
        ActionSpec { name: "app.about", accels: Vec::new(), label: Key::ShortcutAbout, group: Group::General },
        ActionSpec { name: "app.home", accels: Vec::new(), label: Key::ShortcutShowHome, group: Group::Navigation },
        ActionSpec { name: "app.shortcuts", accels: vec!["<Control>question"], label: Key::ShortcutKeyboardShortcuts, group: Group::General },
        ActionSpec { name: "win.close", accels: vec!["<Control>w"], label: Key::ShortcutCloseWindow, group: Group::General },
        ActionSpec { name: "win.settings", accels: vec!["<Control>comma"], label: Key::ShortcutOpenSettings, group: Group::Navigation },
        ActionSpec { name: "win.home", accels: vec!["<Control>1"], label: Key::ShortcutShowHome, group: Group::Navigation },
        ActionSpec { name: "win.doctor", accels: vec!["<Control>2"], label: Key::ShortcutShowDoctor, group: Group::Navigation },
        ActionSpec { name: "win.logs", accels: vec!["<Control>3"], label: Key::ShortcutShowLogs, group: Group::Navigation },
        ActionSpec { name: "win.back", accels: vec!["Escape", "<Alt>Left"], label: Key::ShortcutGoBack, group: Group::Navigation },
        ActionSpec { name: "win.toggle-sidebar", accels: vec!["F9"], label: Key::ShortcutToggleSidebar, group: Group::Navigation },
        ActionSpec { name: "win.search", accels: vec!["<Control>f"], label: Key::ShortcutSearchSurface, group: Group::Navigation },
        ActionSpec { name: "win.run-doctor", accels: vec!["<Control>r"], label: Key::ShortcutRunDoctor, group: Group::Actions },
        ActionSpec { name: "win.restart", accels: vec!["<Shift><Control>r"], label: Key::ShortcutRestart, group: Group::Actions },
    ];
    proof {
        assert(r@.map_values(|s: ActionSpec| action_view(s)) =~= action_table()) by {
            assert forall|i: int| 0 <= i < 14 implies r@.map_values(|s: ActionSpec| action_view(s))[i] == action_table()[i] by {
                assert(r@[i].accels@.map_values(|a: &'static str| a@) =~= action_table()[i].1);
            }
        }
    }
    r
}

/// The primary menu.
pub fn primary_menu() -> (r: Vec<(&'static str, Key)>)
    ensures
        r@.map_values(|m: (&'static str, Key)| (m.0@, m.1)) == menu_table(),
{
    let r = vec![
        ("win.settings", Key::MenuSettings),
        ("win.run-doctor", Key::MenuRunDoctor),
        ("win.restart", Key::MenuRestart),
        ("app.shortcuts", Key::MenuKeyboardShortcuts),
        ("app.about", Key::MenuAbout),
        ("app.quit", Key::MenuQuit),
    ];
    assert(r@.map_values(|m: (&'static str, Key)| (m.0@, m.1)) =~= menu_table());
    r
}

/// Whether the menu names an action.
pub open spec fn in_menu(name: Seq<char>) -> bool {
    exists|i: int| 0 <= i < menu_table().len() && (#[trigger] menu_table()[i]).0 == name
}

/// Whether the shortcuts reference lists one action: it has an accelerator,
/// or the menu names it.
pub open spec fn is_listed(view: ActionView) -> bool {
    view.1.len() > 0 || in_menu(view.0)
}

/// Whether the shortcuts reference lists one action.
///
/// It lists what a person can reach from the keyboard or from the menu. An
/// action that is neither (the route a notification takes back into the
/// application) is still in this one map, so nothing is reachable from only
/// one place, and it is not a keyboard path to print.
pub fn listed(spec: &ActionSpec) -> (r: bool)
    ensures
        r == is_listed(action_view(*spec)),
{
    if spec.accels.len() > 0 {
        return true;
    }
    let menu = primary_menu();
    let mut i: usize = 0;
    while i < menu.len()
        invariant
            i <= menu@.len(),
            menu@.map_values(|m: (&'static str, Key)| (m.0@, m.1)) == menu_table(),
            spec.accels@.len() == 0,
            forall|k: int| 0 <= k < i ==> (#[trigger] menu_table()[k]).0 != spec.name@,
        decreases menu@.len() - i,
    {
        assert(menu_table()[i as int].0 == menu@[i as int].0@);
        if str_eq(menu[i].0, spec.name) {
            return true;
        }
        i = i + 1;
    }
    false
}

/// Whether a row is listed in one shortcuts group.
pub open spec fn in_group(which: Group) -> spec_fn(ActionView) -> bool {
    |v: ActionView| v.3 == which && is_listed(v)
}

/// Whether a row is listed at all.
pub open spec fn listed_row() -> spec_fn(ActionView) -> bool {
    |v: ActionView| is_listed(v)
}

/// The rows of one shortcuts group, in table order.
pub fn group(which: Group) -> (r: Vec<ActionSpec>)
    ensures
        r@.map_values(|s: ActionSpec| action_view(s)) == action_table().filter(in_group(which)),
{
    let table = actions();
    let ghost f = in_group(which);
    let mut out: Vec<ActionSpec> = Vec::new();
    let mut i: usize = 0;
    while i < table.len()
        invariant
            i <= table@.len(),
            table@.map_values(|s: ActionSpec| action_view(s)) == action_table(),
            f == in_group(which),
            out@.map_values(|s: ActionSpec| action_view(s)) == action_table().take(i as int).filter(f),
        decreases table@.len() - i,
    {
        let ghost before = out@;
        proof {
            assert(action_table()[i as int] == action_view(table@[i as int]));
            action_table().take(i as int).lemma_filter_push(action_table()[i as int], f);
            assert(action_table().take(i + 1) =~= action_table().take(i as int).push(action_table()[i as int]));
        }
        if table[i].group == which && listed(&table[i]) {
            out.push(table[i].clone_spec());
            proof {
                assert(out@.map_values(|s: ActionSpec| action_view(s)) =~= before.map_values(|s: ActionSpec| action_view(s)).push(action_view(table@[i as int])));
            }
        }
        i = i + 1;
    }
    proof {
        assert(action_table().take(i as int) =~= action_table());
    }
    out
}

impl ActionSpec {
    /// A copy of one row.
    pub fn clone_spec(&self) -> (r: ActionSpec)
        ensures
            action_view(r) == action_view(*self),
    {
        let mut accels: Vec<&'static str> = Vec::new();
        let mut i: usize = 0;
        while i < self.accels.len()
            invariant
                i <= self.accels@.len(),
                accels@ == self.accels@.take(i as int),
            decreases self.accels@.len() - i,
        {
            accels.push(self.accels[i]);
            proof {
                assert(self.accels@.take(i + 1) =~= self.accels@.take(i as int).push(self.accels@[i as int]));
            }
            i = i + 1;
        }
        proof {
            assert(self.accels@.take(i as int) =~= self.accels@);
        }
        ActionSpec { name: self.name, accels, label: self.label, group: self.group }
    }
}

/// The first row with one name, where there is one.
pub open spec fn row_named(table: Seq<ActionView>, name: Seq<char>) -> Option<ActionView>
    decreases table.len(),
{
    if table.len() == 0 {
        None
    } else if table[0].0 == name {
        Some(table[0])
    } else {
        row_named(table.drop_first(), name)
    }
}

/// One action's row.
pub fn spec(name: &str) -> (r: Option<ActionSpec>)
    ensures
        match r {
            Some(s) => row_named(action_table(), name@) == Some(action_view(s)),
            None => row_named(action_table(), name@) is None,
        },
{
    let table = actions();
    let ghost views = table@.map_values(|s: ActionSpec| action_view(s));
    let mut i: usize = 0;
    proof {
        assert(views.skip(0) =~= views);
    }
    while i < table.len()
        invariant
            i <= table@.len(),
            views == table@.map_values(|s: ActionSpec| action_view(s)),
            views == action_table(),
            row_named(views, name@) == row_named(views.skip(i as int), name@),
        decreases table@.len() - i,
    {
        proof {
            assert(views.skip(i as int).drop_first() =~= views.skip(i + 1));
            assert(views.skip(i as int)[0] == action_view(table@[i as int]));
        }
        if str_eq(table[i].name, name) {
            return Some(table[i].clone_spec());
        }
        i = i + 1;
    }
    proof {
        assert(views.skip(i as int) =~= Seq::<ActionView>::empty());
    }
    None
}

/// The names under one scope, with the scope taken off, in table order.
pub open spec fn scoped_names(table: Seq<ActionView>, scope: Seq<char>) -> Seq<Seq<char>>
    decreases table.len(),
{
    if table.len() == 0 {
        Seq::empty()
    } else {
        let rest = scoped_names(table.drop_last(), scope);
        if is_prefix(scope, table.last().0) {
            rest.push(table.last().0.skip(scope.len() as int))
        } else {
            rest
        }
    }
}

fn names_under(scope: &str) -> (r: Vec<String>)
    ensures
        crate::text::views(r@) == scoped_names(action_table(), scope@),
{
    let table = actions();
    let mut out: Vec<String> = Vec::new();
    let mut i: usize = 0;
    while i < table.len()
        invariant
            i <= table@.len(),
            table@.map_values(|s: ActionSpec| action_view(s)) == action_table(),
            crate::text::views(out@) == scoped_names(action_table().take(i as int), scope@),
        decreases table@.len() - i,
    {
        proof {
            assert(action_table().take(i + 1).drop_last() =~= action_table().take(i as int));
            assert(action_table()[i as int] == action_view(table@[i as int]));
        }
        match strip_prefix(table[i].name, scope) {
            Some(rest) => {
                let ghost before = out@;
                out.push(rest);
                proof {
                    assert(crate::text::views(out@) =~= crate::text::views(before).push(rest@));
                    assert(table@[i as int].name@.subrange(scope@.len() as int, table@[i as int].name@.len() as int) =~= table@[i as int].name@.skip(scope@.len() as int));
                }
            },
            None => {},
        }
        i = i + 1;
    }
    proof {
        assert(action_table().take(i as int) =~= action_table());
    }
    out
}

/// The window actions, without their `win.` prefix, which is how a window adds
/// them to itself.
pub fn window_action_names() -> (r: Vec<String>)
    ensures
        crate::text::views(r@) == scoped_names(action_table(), "win."@),
{
    names_under("win.")
}

/// The application actions, without their `app.` prefix.
pub fn application_action_names() -> (r: Vec<String>)
    ensures
        crate::text::views(r@) == scoped_names(action_table(), "app."@),
{
    names_under("app.")
}

/// Every action is scoped to the application or to a window, and no name
/// appears twice.
pub proof fn every_action_is_scoped_and_named_once()
    ensures
        forall|i: int|
            0 <= i < action_table().len() ==> is_prefix("app."@, #[trigger] action_table()[i].0)
                || is_prefix("win."@, action_table()[i].0),
        forall|i: int, j: int|
            0 <= i < j < action_table().len() ==> #[trigger] action_table()[i].0
                != #[trigger] action_table()[j].0,
{
    reveal_strlit("app.");
    reveal_strlit("app.about");
    reveal_strlit("app.home");
    reveal_strlit("app.quit");
    reveal_strlit("app.shortcuts");
    reveal_strlit("win.");
    reveal_strlit("win.back");
    reveal_strlit("win.close");
    reveal_strlit("win.doctor");
    reveal_strlit("win.home");
    reveal_strlit("win.logs");
    reveal_strlit("win.restart");
    reveal_strlit("win.run-doctor");
    reveal_strlit("win.search");
    reveal_strlit("win.settings");
    reveal_strlit("win.toggle-sidebar");
    let t = action_table();
    assert("app."@.len() == 4 && "win."@.len() == 4);
    assert(t[0].0.subrange(0, 4) =~= "app."@);
    assert(t[0].0.len() == 8 && t[0].0[0] == 'a' && t[0].0[4] == 'q');
    assert(t[1].0.subrange(0, 4) =~= "app."@);
    assert(t[1].0.len() == 9 && t[1].0[0] == 'a' && t[1].0[4] == 'a');
    assert(t[2].0.subrange(0, 4) =~= "app."@);
    assert(t[2].0.len() == 8 && t[2].0[0] == 'a' && t[2].0[4] == 'h');
    assert(t[3].0.subrange(0, 4) =~= "app."@);
    assert(t[3].0.len() == 13 && t[3].0[0] == 'a' && t[3].0[4] == 's');
    assert(t[4].0.subrange(0, 4) =~= "win."@);
    assert(t[4].0.len() == 9 && t[4].0[0] == 'w' && t[4].0[4] == 'c');
    assert(t[5].0.subrange(0, 4) =~= "win."@);
    assert(t[5].0.len() == 12 && t[5].0[0] == 'w' && t[5].0[4] == 's');
    assert(t[6].0.subrange(0, 4) =~= "win."@);
    assert(t[6].0.len() == 8 && t[6].0[0] == 'w' && t[6].0[4] == 'h');
    assert(t[7].0.subrange(0, 4) =~= "win."@);
    assert(t[7].0.len() == 10 && t[7].0[0] == 'w' && t[7].0[4] == 'd');
    assert(t[8].0.subrange(0, 4) =~= "win."@);
    assert(t[8].0.len() == 8 && t[8].0[0] == 'w' && t[8].0[4] == 'l');
    assert(t[9].0.subrange(0, 4) =~= "win."@);
    assert(t[9].0.len() == 8 && t[9].0[0] == 'w' && t[9].0[4] == 'b');
    assert(t[10].0.subrange(0, 4) =~= "win."@);
    assert(t[10].0.len() == 18 && t[10].0[0] == 'w' && t[10].0[4] == 't');
    assert(t[11].0.subrange(0, 4) =~= "win."@);
    assert(t[11].0.len() == 10 && t[11].0[0] == 'w' && t[11].0[4] == 's');
    assert(t[12].0.subrange(0, 4) =~= "win."@);
    assert(t[12].0.len() == 14 && t[12].0[0] == 'w' && t[12].0[4] == 'r');
    assert(t[13].0.subrange(0, 4) =~= "win."@);
    assert(t[13].0.len() == 11 && t[13].0[0] == 'w' && t[13].0[4] == 'r');
    assert forall|i: int| 0 <= i < t.len() implies is_prefix("app."@, #[trigger] t[i].0)
        || is_prefix("win."@, t[i].0) by {
        assert(i == 0 || i == 1 || i == 2 || i == 3 || i == 4 || i == 5 || i == 6 || i == 7 || i == 8 || i == 9 || i == 10 || i == 11 || i == 12 || i == 13);
    }
    assert forall|i: int, j: int| 0 <= i < j < t.len() implies #[trigger] t[i].0 != #[trigger] t[j].0 by {
        assert(i == 0 || i == 1 || i == 2 || i == 3 || i == 4 || i == 5 || i == 6 || i == 7 || i == 8 || i == 9 || i == 10 || i == 11 || i == 12 || i == 13);
        assert(j == 0 || j == 1 || j == 2 || j == 3 || j == 4 || j == 5 || j == 6 || j == 7 || j == 8 || j == 9 || j == 10 || j == 11 || j == 12 || j == 13);
    }
}

/// Rows with the same number of rows, the same first, fifth and last
/// characters, are told apart by nothing this table needs.
spec fn shape(s: Seq<char>) -> (nat, char, char, char) {
    (s.len(), s[0], s[4], s[s.len() - 1])
}

/// Rows of the accelerator table, as characters.
spec fn accel_shape(s: Seq<char>) -> (nat, char, char) {
    (s.len(), s[1], s[s.len() - 1])
}

proof fn table_shapes()
    ensures
        shape(action_table()[0].0) == (8nat, 'a', 'q', 't'),
        action_table()[0].1.len() == 1,
        accel_shape(action_table()[0].1[0]) == (10nat, 'C', 'q'),
        shape(action_table()[1].0) == (9nat, 'a', 'a', 't'),
        action_table()[1].1.len() == 0,
        shape(action_table()[2].0) == (8nat, 'a', 'h', 'e'),
        action_table()[2].1.len() == 0,
        shape(action_table()[3].0) == (13nat, 'a', 's', 's'),
        action_table()[3].1.len() == 1,
        accel_shape(action_table()[3].1[0]) == (17nat, 'C', 'n'),
        shape(action_table()[4].0) == (9nat, 'w', 'c', 'e'),
        action_table()[4].1.len() == 1,
        accel_shape(action_table()[4].1[0]) == (10nat, 'C', 'w'),
        shape(action_table()[5].0) == (12nat, 'w', 's', 's'),
        action_table()[5].1.len() == 1,
        accel_shape(action_table()[5].1[0]) == (14nat, 'C', 'a'),
        shape(action_table()[6].0) == (8nat, 'w', 'h', 'e'),
        action_table()[6].1.len() == 1,
        accel_shape(action_table()[6].1[0]) == (10nat, 'C', '1'),
        shape(action_table()[7].0) == (10nat, 'w', 'd', 'r'),
        action_table()[7].1.len() == 1,
        accel_shape(action_table()[7].1[0]) == (10nat, 'C', '2'),
        shape(action_table()[8].0) == (8nat, 'w', 'l', 's'),
        action_table()[8].1.len() == 1,
        accel_shape(action_table()[8].1[0]) == (10nat, 'C', '3'),
        shape(action_table()[9].0) == (8nat, 'w', 'b', 'k'),
        action_table()[9].1.len() == 2,
        accel_shape(action_table()[9].1[0]) == (6nat, 's', 'e'),
        accel_shape(action_table()[9].1[1]) == (9nat, 'A', 't'),
        shape(action_table()[10].0) == (18nat, 'w', 't', 'r'),
        action_table()[10].1.len() == 1,
        accel_shape(action_table()[10].1[0]) == (2nat, '9', '9'),
        shape(action_table()[11].0) == (10nat, 'w', 's', 'h'),
        action_table()[11].1.len() == 1,
        accel_shape(action_table()[11].1[0]) == (10nat, 'C', 'f'),
        shape(action_table()[12].0) == (14nat, 'w', 'r', 'r'),
        action_table()[12].1.len() == 1,
        accel_shape(action_table()[12].1[0]) == (10nat, 'C', 'r'),
        shape(action_table()[13].0) == (11nat, 'w', 'r', 't'),
        action_table()[13].1.len() == 1,
        accel_shape(action_table()[13].1[0]) == (17nat, 'S', 'r'),
        menu_table()[0].0 == action_table()[5].0,
        menu_table()[1].0 == action_table()[12].0,
        menu_table()[2].0 == action_table()[13].0,
        menu_table()[3].0 == action_table()[3].0,
        menu_table()[4].0 == action_table()[1].0,
        menu_table()[5].0 == action_table()[0].0,
{
    reveal_strlit("<Alt>Left");
    reveal_strlit("<Control>1");
    reveal_strlit("<Control>2");
    reveal_strlit("<Control>3");
    reveal_strlit("<Control>comma");
    reveal_strlit("<Control>f");
    reveal_strlit("<Control>q");
    reveal_strlit("<Control>question");
    reveal_strlit("<Control>r");
    reveal_strlit("<Control>w");
    reveal_strlit("<Shift><Control>r");
    reveal_strlit("Escape");
    reveal_strlit("F9");
    reveal_strlit("app.about");
    reveal_strlit("app.home");
    reveal_strlit("app.quit");
    reveal_strlit("app.shortcuts");
    reveal_strlit("win.back");
    reveal_strlit("win.close");
    reveal_strlit("win.doctor");
    reveal_strlit("win.home");
    reveal_strlit("win.logs");
    reveal_strlit("win.restart");
    reveal_strlit("win.run-doctor");
    reveal_strlit("win.search");
    reveal_strlit("win.settings");
    reveal_strlit("win.toggle-sidebar");
}

/// No accelerator reaches two actions, nor one action twice.
pub proof fn no_accelerator_is_bound_twice()
    ensures
        forall|i: int, a: int, j: int, b: int|
            0 <= i < action_table().len() && 0 <= j < action_table().len() && 0 <= a
                < action_table()[i].1.len() && 0 <= b < action_table()[j].1.len() && (i != j || a
                != b) ==> #[trigger] action_table()[i].1[a] != #[trigger] action_table()[j].1[b],
{
    table_shapes();
    let t = action_table();
    assert forall|i: int, a: int, j: int, b: int|
        0 <= i < t.len() && 0 <= j < t.len() && 0 <= a < t[i].1.len() && 0 <= b < t[j].1.len()
            && (i != j || a != b) implies #[trigger] t[i].1[a] != #[trigger] t[j].1[b] by {
        assert(i == 0 || i == 1 || i == 2 || i == 3 || i == 4 || i == 5 || i == 6 || i == 7 || i == 8 || i == 9 || i == 10 || i == 11 || i == 12 || i == 13);
        assert(j == 0 || j == 1 || j == 2 || j == 3 || j == 4 || j == 5 || j == 6 || j == 7 || j == 8 || j == 9 || j == 10 || j == 11 || j == 12 || j == 13);
        assert(a == 0 || a == 1);
        assert(b == 0 || b == 1);
        if t[i].1[a] == t[j].1[b] {
            assert(accel_shape(t[i].1[a]) == accel_shape(t[j].1[b]));
        }
    }
}

/// Every row of the primary menu names an action of the table.
pub proof fn every_menu_row_names_an_action()
    ensures
        forall|m: int|
            0 <= m < menu_table().len() ==> exists|i: int|
                0 <= i < action_table().len() && action_table()[i].0 == (#[trigger] menu_table()[m]).0,
{
    table_shapes();
    assert forall|m: int| 0 <= m < menu_table().len() implies exists|i: int|
        0 <= i < action_table().len() && action_table()[i].0 == (#[trigger] menu_table()[m]).0 by {
        assert(m == 0 || m == 1 || m == 2 || m == 3 || m == 4 || m == 5);
        if m == 0 { assert(action_table()[5].0 == menu_table()[m].0); }
        if m == 1 { assert(action_table()[12].0 == menu_table()[m].0); }
        if m == 2 { assert(action_table()[13].0 == menu_table()[m].0); }
        if m == 3 { assert(action_table()[3].0 == menu_table()[m].0); }
        if m == 4 { assert(action_table()[1].0 == menu_table()[m].0); }
        if m == 5 { assert(action_table()[0].0 == menu_table()[m].0); }
    }
}

proof fn groups_partition(s: Seq<ActionView>)
    ensures
        s.filter(in_group(Group::General)).len() + s.filter(in_group(Group::Navigation)).len()
            + s.filter(in_group(Group::Actions)).len() == s.filter(listed_row()).len(),
    decreases s.len(),
{
    if s.len() > 0 {
        let rest = s.drop_last();
        groups_partition(rest);
        rest.lemma_filter_push(s.last(), in_group(Group::General));
        rest.lemma_filter_push(s.last(), in_group(Group::Navigation));
        rest.lemma_filter_push(s.last(), in_group(Group::Actions));
        rest.lemma_filter_push(s.last(), listed_row());
        assert(rest.push(s.last()) =~= s);
    }
}

/// Every action a person can reach lands in exactly one shortcuts group, and
/// one action is in the map without being a keyboard path: the route a
/// notification takes back into the application.
pub proof fn every_reachable_action_lands_in_one_group()
    ensures
        action_table().filter(in_group(Group::General)).len() + action_table().filter(
            in_group(Group::Navigation),
        ).len() + action_table().filter(in_group(Group::Actions)).len() == action_table().filter(
            listed_row(),
        ).len(),
        exists|i: int| 0 <= i < action_table().len() && !is_listed(#[trigger] action_table()[i]),
{
    groups_partition(action_table());
    table_shapes();
    let t = action_table();
    assert forall|m: int| 0 <= m < menu_table().len() implies (#[trigger] menu_table()[m]).0 != t[2].0 by {
        assert(m == 0 || m == 1 || m == 2 || m == 3 || m == 4 || m == 5);
        if menu_table()[m].0 == t[2].0 {
            assert(shape(menu_table()[m].0) == shape(t[2].0));
        }
    }
    assert(!is_listed(t[2]));
}

/// The two scopes part the table between them: every action is a window
/// action or an application action, never both.
pub proof fn the_two_scopes_partition_the_table()
    ensures
        scoped_names(action_table(), "win."@).len() + scoped_names(action_table(), "app."@).len()
            == action_table().len(),
{
    every_action_is_scoped_and_named_once();
    reveal_strlit("app.");
    reveal_strlit("win.");
    let t = action_table();
    assert forall|k: int| 0 <= k <= t.len() implies #[trigger] scoped_names(t.take(k), "win."@).len()
        + scoped_names(t.take(k), "app."@).len() == k by {
        scopes_split(t, k);
    }
    assert(t.take(t.len() as int) =~= t);
    assert(scoped_names(t.take(t.len() as int), "win."@).len() + scoped_names(t.take(t.len() as int), "app."@).len() == t.len());
}

proof fn scopes_split(t: Seq<ActionView>, k: int)
    requires
        0 <= k <= t.len(),
        "app."@ =~= seq!['a', 'p', 'p', '.'],
        "win."@ =~= seq!['w', 'i', 'n', '.'],
        forall|i: int|
            0 <= i < t.len() ==> is_prefix("app."@, #[trigger] t[i].0) || is_prefix("win."@, t[i].0),
    ensures
        scoped_names(t.take(k), "win."@).len() + scoped_names(t.take(k), "app."@).len() == k,
    decreases k,
{
    if k > 0 {
        scopes_split(t, k - 1);
        assert(t.take(k).drop_last() =~= t.take(k - 1));
        let n = t.take(k).last().0;
        assert(n == t[k - 1].0);
        if is_prefix("app."@, n) && is_prefix("win."@, n) {
            assert(n[0] == "app."@[0]);
            assert(n[0] == "win."@[0]);
        }
    }
}


proof fn a_found_row_carries_its_name(table: Seq<ActionView>, name: Seq<char>)
    ensures
        row_named(table, name) matches Some(v) ==> v.0 == name,
    decreases table.len(),
{
    if table.len() > 0 && table[0].0 != name {
        a_found_row_carries_its_name(table.drop_first(), name);
    }
}

proof fn a_listed_name_is_found(table: Seq<ActionView>, name: Seq<char>, i: int)
    requires
        0 <= i < table.len(),
        table[i].0 == name,
    ensures
        row_named(table, name) is Some,
    decreases i,
{
    if table[0].0 != name {
        assert(table.drop_first()[i - 1] == table[i]);
        a_listed_name_is_found(table.drop_first(), name, i - 1);
    }
}

/// Looking an action up by a name finds a row carrying that name, and every
/// row of the primary menu finds its action.
pub proof fn a_looked_up_action_carries_the_name_asked_for(name: Seq<char>)
    ensures
        row_named(action_table(), name) matches Some(v) ==> v.0 == name,
        forall|m: int|
            0 <= m < menu_table().len() ==> row_named(action_table(), #[trigger] menu_table()[m].0) is Some,
{
    a_found_row_carries_its_name(action_table(), name);
    every_menu_row_names_an_action();
    assert forall|m: int| 0 <= m < menu_table().len() implies row_named(
        action_table(),
        #[trigger] menu_table()[m].0,
    ) is Some by {
        let i = choose|i: int| 0 <= i < action_table().len() && action_table()[i].0 == menu_table()[m].0;
        a_listed_name_is_found(action_table(), menu_table()[m].0, i);
    }
}

} // verus!
