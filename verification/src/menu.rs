//! The menu command vocabulary and its event routing.
//!
//! The menu is a fixed, ordered list of seven labeled entries. Each entry
//! carries a stable identifier; activating an entry dispatches that
//! identifier to exactly one named front-end event, optionally with a string
//! payload. Identifiers outside the vocabulary dispatch to nothing.

use vstd::prelude::*;

verus! {

/// The closed set of menu commands.
#[derive(Clone, Copy, PartialEq, Eq, Structural, Debug)]
pub enum MenuCommand {
    About,
    SetLayoutConceptCentric,
    SetLayoutSphere,
    SetLayoutGrid,
    ToggleXRay,
    ResetCamera,
    ToggleSidebar,
}

/// The stable identifier of a command, used only for dispatch.
pub open spec fn command_id(c: MenuCommand) -> Seq<char> {
    match c {
        MenuCommand::About => "about"@,
        MenuCommand::SetLayoutConceptCentric => "set_layout_concept"@,
        MenuCommand::SetLayoutSphere => "set_layout_sphere"@,
        MenuCommand::SetLayoutGrid => "set_layout_grid"@,
        MenuCommand::ToggleXRay => "toggle_xray"@,
        MenuCommand::ResetCamera => "reset_camera"@,
        MenuCommand::ToggleSidebar => "toggle_sidebar"@,
    }
}

/// The label a command shows in the menu.
pub open spec fn command_label(c: MenuCommand) -> Seq<char> {
    match c {
        MenuCommand::About => "About"@,
        MenuCommand::SetLayoutConceptCentric => "Concept-Centric Layout"@,
        MenuCommand::SetLayoutSphere => "Sphere Layout"@,
        MenuCommand::SetLayoutGrid => "Grid Layout"@,
        MenuCommand::ToggleXRay => "Toggle X-Ray"@,
        MenuCommand::ResetCamera => "Reset Camera"@,
        MenuCommand::ToggleSidebar => "Toggle Sidebar"@,
    }
}

/// The name of the event a command emits.
pub open spec fn event_name(c: MenuCommand) -> Seq<char> {
    match c {
        MenuCommand::About => "about"@,
        MenuCommand::SetLayoutConceptCentric => "set-layout"@,
        MenuCommand::SetLayoutSphere => "set-layout"@,
        MenuCommand::SetLayoutGrid => "set-layout"@,
        MenuCommand::ToggleXRay => "toggle-xray"@,
        MenuCommand::ResetCamera => "reset-camera"@,
        MenuCommand::ToggleSidebar => "toggle-sidebar"@,
    }
}

/// The payload a command's event carries, if any.
pub open spec fn event_payload(c: MenuCommand) -> Option<Seq<char>> {
    match c {
        MenuCommand::SetLayoutConceptCentric => Some("concept-centric"@),
        MenuCommand::SetLayoutSphere => Some("sphere"@),
        MenuCommand::SetLayoutGrid => Some("grid"@),
        _ => None,
    }
}

/// Which command, if any, an activation identifier names.
pub open spec fn parse_command_spec(s: Seq<char>) -> Option<MenuCommand> {
    if s == "about"@ {
        Some(MenuCommand::About)
    } else if s == "set_layout_concept"@ {
        Some(MenuCommand::SetLayoutConceptCentric)
    } else if s == "set_layout_sphere"@ {
        Some(MenuCommand::SetLayoutSphere)
    } else if s == "set_layout_grid"@ {
        Some(MenuCommand::SetLayoutGrid)
    } else if s == "toggle_xray"@ {
        Some(MenuCommand::ToggleXRay)
    } else if s == "reset_camera"@ {
        Some(MenuCommand::ResetCamera)
    } else if s == "toggle_sidebar"@ {
        Some(MenuCommand::ToggleSidebar)
    } else {
        None
    }
}

/// The menu's fixed order of commands.
pub open spec fn menu_order() -> Seq<MenuCommand> {
    seq![
        MenuCommand::About,
        MenuCommand::SetLayoutConceptCentric,
        MenuCommand::SetLayoutSphere,
        MenuCommand::SetLayoutGrid,
        MenuCommand::ToggleXRay,
        MenuCommand::ResetCamera,
        MenuCommand::ToggleSidebar,
    ]
}

proof fn lemma_reveal_ids()
    ensures
        "about"@.len() == 5,
        "set_layout_concept"@.len() == 18,
        "set_layout_sphere"@.len() == 17,
        "set_layout_grid"@.len() == 15,
        "toggle_xray"@.len() == 11,
        "reset_camera"@.len() == 12,
        "toggle_sidebar"@.len() == 14,
{
    reveal_strlit("about");
    reveal_strlit("set_layout_concept");
    reveal_strlit("set_layout_sphere");
    reveal_strlit("set_layout_grid");
    reveal_strlit("toggle_xray");
    reveal_strlit("reset_camera");
    reveal_strlit("toggle_sidebar");
}

/// A command's own identifier always parses back to that command: the
/// identifiers of distinct commands never collide.
pub proof fn lemma_parse_command_id(c: MenuCommand)
    ensures
        parse_command_spec(command_id(c)) == Some(c),
{
    lemma_reveal_ids();
}

/// A recognized identifier is exactly the identifier of the command it
/// parses to.
pub proof fn lemma_parse_command_sound(s: Seq<char>, c: MenuCommand)
    requires
        parse_command_spec(s) == Some(c),
    ensures
        s == command_id(c),
{
    lemma_reveal_ids();
}

/// The menu's identifier vocabulary is exact: the menu lists all seven
/// commands, once each under its own identifier, no two entries share an
/// identifier, and dispatch recognizes an identifier exactly when some menu
/// entry carries it — no more, no fewer.
pub proof fn lemma_menu_identifiers_exact()
    ensures
        menu_order().len() == 7,
        forall|c: MenuCommand| menu_order().contains(c),
        forall|i: int, j: int|
            0 <= i < j < menu_order().len() ==> command_id(menu_order()[i]) != command_id(
                menu_order()[j],
            ),
        forall|s: Seq<char>|
            (parse_command_spec(s) is Some) <==> (exists|i: int|
                0 <= i < menu_order().len() && s == command_id(#[trigger] menu_order()[i])),
{
    lemma_reveal_ids();
    assert forall|c: MenuCommand| menu_order().contains(c) by {
        match c {
            MenuCommand::About => assert(menu_order()[0] == c),
            MenuCommand::SetLayoutConceptCentric => assert(menu_order()[1] == c),
            MenuCommand::SetLayoutSphere => assert(menu_order()[2] == c),
            MenuCommand::SetLayoutGrid => assert(menu_order()[3] == c),
            MenuCommand::ToggleXRay => assert(menu_order()[4] == c),
            MenuCommand::ResetCamera => assert(menu_order()[5] == c),
            MenuCommand::ToggleSidebar => assert(menu_order()[6] == c),
        }
    }
    assert forall|s: Seq<char>|
        (parse_command_spec(s) is Some) <==> (exists|i: int|
            0 <= i < menu_order().len() && s == command_id(#[trigger] menu_order()[i])) by {
        if parse_command_spec(s) is Some {
            let c = parse_command_spec(s)->Some_0;
            lemma_parse_command_sound(s, c);
            match c {
                MenuCommand::About => assert(s == command_id(menu_order()[0])),
                MenuCommand::SetLayoutConceptCentric => assert(s == command_id(menu_order()[1])),
                MenuCommand::SetLayoutSphere => assert(s == command_id(menu_order()[2])),
                MenuCommand::SetLayoutGrid => assert(s == command_id(menu_order()[3])),
                MenuCommand::ToggleXRay => assert(s == command_id(menu_order()[4])),
                MenuCommand::ResetCamera => assert(s == command_id(menu_order()[5])),
                MenuCommand::ToggleSidebar => assert(s == command_id(menu_order()[6])),
            }
        }
        if exists|i: int| 0 <= i < menu_order().len() && s == command_id(
            #[trigger] menu_order()[i],
        ) {
            let i = choose|i: int|
                0 <= i < menu_order().len() && s == command_id(#[trigger] menu_order()[i]);
            lemma_parse_command_id(menu_order()[i]);
        }
    }
}

fn str_eq(a: &str, b: &str) -> (r: bool)
    ensures
        r == (a@ == b@),
{
    let an: usize = a.unicode_len();
    let bn: usize = b.unicode_len();
    if an != bn {
        return false;
    }
    let mut i: usize = 0;
    while i < an
        invariant
            i <= an,
            an == a@.len(),
            bn == b@.len(),
            an == bn,
            forall|j: int| 0 <= j < i ==> a@[j] == b@[j],
        decreases an - i,
    {
        if a.get_char(i) != b.get_char(i) {
            return false;
        }
        i += 1;
    }
    proof {
        assert(a@ =~= b@);
    }
    true
}

/// The stable identifier of a command.
pub fn command_id_str(c: MenuCommand) -> (r: &'static str)
    ensures
        r@ == command_id(c),
{
    match c {
        MenuCommand::About => "about",
        MenuCommand::SetLayoutConceptCentric => "set_layout_concept",
        MenuCommand::SetLayoutSphere => "set_layout_sphere",
        MenuCommand::SetLayoutGrid => "set_layout_grid",
        MenuCommand::ToggleXRay => "toggle_xray",
        MenuCommand::ResetCamera => "reset_camera",
        MenuCommand::ToggleSidebar => "toggle_sidebar",
    }
}

/// The label a command shows in the menu.
pub fn command_label_str(c: MenuCommand) -> (r: &'static str)
    ensures
        r@ == command_label(c),
{
    match c {
        MenuCommand::About => "About",
        MenuCommand::SetLayoutConceptCentric => "Concept-Centric Layout",
        MenuCommand::SetLayoutSphere => "Sphere Layout",
        MenuCommand::SetLayoutGrid => "Grid Layout",
        MenuCommand::ToggleXRay => "Toggle X-Ray",
        MenuCommand::ResetCamera => "Reset Camera",
        MenuCommand::ToggleSidebar => "Toggle Sidebar",
    }
}

/// Recognizes an activation identifier; identifiers outside the vocabulary
/// yield nothing.
pub fn parse_command(id: &str) -> (r: Option<MenuCommand>)
    ensures
        r == parse_command_spec(id@),
{
    if str_eq(id, "about") {
        Some(MenuCommand::About)
    } else if str_eq(id, "set_layout_concept") {
        Some(MenuCommand::SetLayoutConceptCentric)
    } else if str_eq(id, "set_layout_sphere") {
        Some(MenuCommand::SetLayoutSphere)
    } else if str_eq(id, "set_layout_grid") {
        Some(MenuCommand::SetLayoutGrid)
    } else if str_eq(id, "toggle_xray") {
        Some(MenuCommand::ToggleXRay)
    } else if str_eq(id, "reset_camera") {
        Some(MenuCommand::ResetCamera)
    } else if str_eq(id, "toggle_sidebar") {
        Some(MenuCommand::ToggleSidebar)
    } else {
        None
    }
}

/// One outbound event: a name and an optional string payload, sent
/// fire-and-forget to the front-end.
pub struct MenuEvent {
    pub name: String,
    pub payload: Option<String>,
}

/// The character sequences an optional payload holds.
pub open spec fn opt_view(p: Option<String>) -> Option<Seq<char>> {
    match p {
        Some(s) => Some(s@),
        None => None,
    }
}

/// The single event a command emits.
pub fn command_event(c: MenuCommand) -> (e: MenuEvent)
    ensures
        e.name@ == event_name(c),
        opt_view(e.payload) == event_payload(c),
{
    match c {
        MenuCommand::About => MenuEvent { name: String::from_str("about"), payload: None },
        MenuCommand::SetLayoutConceptCentric => MenuEvent {
            name: String::from_str("set-layout"),
            payload: Some(String::from_str("concept-centric")),
        },
        MenuCommand::SetLayoutSphere => MenuEvent {
            name: String::from_str("set-layout"),
            payload: Some(String::from_str("sphere")),
        },
        MenuCommand::SetLayoutGrid => MenuEvent {
            name: String::from_str("set-layout"),
            payload: Some(String::from_str("grid")),
        },
        MenuCommand::ToggleXRay => MenuEvent {
            name: String::from_str("toggle-xray"),
            payload: None,
        },
        MenuCommand::ResetCamera => MenuEvent {
            name: String::from_str("reset-camera"),
            payload: None,
        },
        MenuCommand::ToggleSidebar => MenuEvent {
            name: String::from_str("toggle-sidebar"),
            payload: None,
        },
    }
}

/// Routes one activation: a recognized identifier yields exactly the one
/// event its command emits; anything else yields nothing, never an error.
pub fn dispatch(id: &str) -> (r: Option<MenuEvent>)
    ensures
        match parse_command_spec(id@) {
            Some(c) => r matches Some(e) && e.name@ == event_name(c) && opt_view(e.payload)
                == event_payload(c),
            None => r is None,
        },
{
    match parse_command(id) {
        Some(c) => Some(command_event(c)),
        None => None,
    }
}

/// One entry of the native menu: its command, its dispatch identifier and
/// its user-visible label.
pub struct MenuEntry {
    pub command: MenuCommand,
    pub id: String,
    pub label: String,
}

/// The ordered list of menu entries, exactly one per command, in the menu's
/// fixed order.
pub fn menu_entries() -> (v: Vec<MenuEntry>)
    ensures
        v@.len() == menu_order().len(),
        forall|i: int|
            0 <= i < v@.len() ==> {
                &&& (#[trigger] v@[i]).command == menu_order()[i]
                &&& v@[i].id@ == command_id(menu_order()[i])
                &&& v@[i].label@ == command_label(menu_order()[i])
            },
{
    let mut v: Vec<MenuEntry> = Vec::new();
    push_entry(&mut v, MenuCommand::About);
    push_entry(&mut v, MenuCommand::SetLayoutConceptCentric);
    push_entry(&mut v, MenuCommand::SetLayoutSphere);
    push_entry(&mut v, MenuCommand::SetLayoutGrid);
    push_entry(&mut v, MenuCommand::ToggleXRay);
    push_entry(&mut v, MenuCommand::ResetCamera);
    push_entry(&mut v, MenuCommand::ToggleSidebar);
    v
}

fn push_entry(v: &mut Vec<MenuEntry>, c: MenuCommand)
    ensures
        final(v)@.len() == old(v)@.len() + 1,
        final(v)@.drop_last() == old(v)@,
        final(v)@.last().command == c,
        final(v)@.last().id@ == command_id(c),
        final(v)@.last().label@ == command_label(c),
{
    let id = String::from_str(command_id_str(c));
    let label = String::from_str(command_label_str(c));
    v.push(MenuEntry { command: c, id, label });
    proof {
        assert(v@.drop_last() =~= old(v)@);
    }
}

} // verus!
