use vstd::prelude::*;

use crate::text::same_text;

verus! {

/// Item id of the Help entry that opens the in-app bug-report dialog.
pub const REPORT_BUG_ID: &'static str = "report_bug";

/// Item id of the Linux Quit entry: a custom text item, because the
/// predefined Quit is one that GTK does not draw.
pub const QUIT_ID: &'static str = "quit";

/// One entry of the native menu. The predefined variants stand for the
/// platform's predefined menu items; `Custom(id, label)` is a plain text item
/// whose id the menu-event handler dispatches on.
#[derive(Clone, Copy, Debug, PartialEq, Eq)]
pub enum Entry {
    About,
    Separator,
    Undo,
    Redo,
    Cut,
    Copy,
    Paste,
    SelectAll,
    Hide,
    HideOthers,
    ShowAll,
    Minimize,
    Maximize,
    Fullscreen,
    CloseWindow,
    Quit,
    Custom(&'static str, &'static str),
}

/// The entries that the GTK menu backend actually draws: separators, the
/// clipboard items, About and custom text items. Every other predefined item
/// is dropped silently.
pub open spec fn drawn_on_gtk(entry: Entry) -> bool {
    match entry {
        Entry::Separator | Entry::Cut | Entry::Copy | Entry::Paste | Entry::SelectAll
        | Entry::About | Entry::Custom(..) => true,
        _ => false,
    }
}

/// Whether the GTK menu backend renders `entry`.
pub fn renders_on_gtk(entry: Entry) -> (drawn: bool)
    ensures
        drawn == drawn_on_gtk(entry),
        entry is Custom ==> drawn,
{
    match entry {
        Entry::Separator | Entry::Cut | Entry::Copy | Entry::Paste | Entry::SelectAll
        | Entry::About | Entry::Custom(..) => true,
        _ => false,
    }
}

/// The menu a platform draws: `(submenu title, entries)`, in order. The GTK
/// plan has no Window submenu, an Edit submenu of the clipboard items only,
/// and a custom Quit item; the AppKit plan is the full predefined menu.
pub open spec fn planned_menu(gtk: bool) -> Seq<(&'static str, Seq<Entry>)> {
    if gtk {
        seq![
            ("TMP Companion", seq![Entry::About, Entry::Separator, Entry::Custom(QUIT_ID, "Quit TMP Companion")]),
            ("Edit", seq![Entry::Cut, Entry::Copy, Entry::Paste, Entry::SelectAll]),
            ("Help", seq![Entry::Custom(REPORT_BUG_ID, "Report a Bug…")]),
        ]
    } else {
        seq![
            ("TMP Companion", seq![
                Entry::About,
                Entry::Separator,
                Entry::Hide,
                Entry::HideOthers,
                Entry::ShowAll,
                Entry::Separator,
                Entry::Quit,
            ]),
            ("Edit", seq![
                Entry::Undo,
                Entry::Redo,
                Entry::Separator,
                Entry::Cut,
                Entry::Copy,
                Entry::Paste,
                Entry::SelectAll,
            ]),
            ("Window", seq![
                Entry::Minimize,
                Entry::Maximize,
                Entry::Separator,
                Entry::Fullscreen,
                Entry::CloseWindow,
            ]),
            ("Help", seq![Entry::Custom(REPORT_BUG_ID, "Report a Bug…")]),
        ]
    }
}

/// The native menu as data, for the GTK backend when `gtk` holds and for
/// AppKit otherwise.
pub fn menu_plan(gtk: bool) -> (plan: Vec<(&'static str, Vec<Entry>)>)
    ensures
        plan@.len() == planned_menu(gtk).len(),
        forall|i: int|
            0 <= i < plan@.len() ==> (#[trigger] plan@[i]).0 == planned_menu(gtk)[i].0
                && plan@[i].1@ == planned_menu(gtk)[i].1,
{
    let plan = if gtk {
        vec![
            ("TMP Companion", vec![Entry::About, Entry::Separator, Entry::Custom(QUIT_ID, "Quit TMP Companion")]),
            ("Edit", vec![Entry::Cut, Entry::Copy, Entry::Paste, Entry::SelectAll]),
            ("Help", vec![Entry::Custom(REPORT_BUG_ID, "Report a Bug…")]),
        ]
    } else {
        vec![
            ("TMP Companion", vec![
                Entry::About,
                Entry::Separator,
                Entry::Hide,
                Entry::HideOthers,
                Entry::ShowAll,
                Entry::Separator,
                Entry::Quit,
            ]),
            ("Edit", vec![
                Entry::Undo,
                Entry::Redo,
                Entry::Separator,
                Entry::Cut,
                Entry::Copy,
                Entry::Paste,
                Entry::SelectAll,
            ]),
            ("Window", vec![
                Entry::Minimize,
                Entry::Maximize,
                Entry::Separator,
                Entry::Fullscreen,
                Entry::CloseWindow,
            ]),
            ("Help", vec![Entry::Custom(REPORT_BUG_ID, "Report a Bug…")]),
        ]
    };
    proof {
        let want = planned_menu(gtk);
        assert forall|i: int| 0 <= i < plan@.len() implies #[trigger] plan@[i].1@ =~= want[i].1 by {}
    }
    plan
}

/// What the shell does when a menu item is activated.
#[derive(Clone, Copy, Debug, PartialEq, Eq, Structural)]
pub enum MenuCommand {
    /// Ask the front end to open its bug-report dialog.
    OpenBugReport,
    /// Exit the application.
    Quit,
    /// The item is handled elsewhere (the predefined items are handled by
    /// the platform and never reach the handler).
    Nothing,
}

/// Whether `entry` is the custom text item with id `id`.
pub open spec fn is_item(entry: Entry, id: &'static str) -> bool {
    match entry {
        Entry::Custom(item_id, _) => item_id == id,
        _ => false,
    }
}

/// The command bound to a menu item id.
pub open spec fn command_for(id: Seq<char>) -> MenuCommand {
    if id == REPORT_BUG_ID@ {
        MenuCommand::OpenBugReport
    } else if id == QUIT_ID@ {
        MenuCommand::Quit
    } else {
        MenuCommand::Nothing
    }
}

/// Dispatches a menu event on the id of the item that fired it.
pub fn menu_command(id: &str) -> (command: MenuCommand)
    ensures
        command == command_for(id@),
        command == MenuCommand::OpenBugReport <==> id@ == "report_bug"@,
        command == MenuCommand::Quit <==> id@ == "quit"@,
        command == MenuCommand::Nothing <==> (id@ != "report_bug"@ && id@ != "quit"@),
{
    proof {
        only_the_two_ids_act(id@);
    }
    if same_text(id, REPORT_BUG_ID) {
        MenuCommand::OpenBugReport
    } else if same_text(id, QUIT_ID) {
        MenuCommand::Quit
    } else {
        MenuCommand::Nothing
    }
}

/// The entries of a submenu that the platform actually draws: on GTK those
/// that the backend renders, on AppKit all of them.
pub open spec fn drawn_entries(gtk: bool, entries: Seq<Entry>) -> Seq<Entry> {
    if gtk {
        entries.filter(|e: Entry| drawn_on_gtk(e))
    } else {
        entries
    }
}

proof fn lemma_filter_keeps_all(s: Seq<Entry>, pred: spec_fn(Entry) -> bool)
    requires
        forall|k: int| 0 <= k < s.len() ==> pred(#[trigger] s[k]),
    ensures
        s.filter(pred) == s,
    decreases s.len(),
{
    reveal(Seq::filter);
    if s.len() > 0 {
        lemma_filter_keeps_all(s.drop_last(), pred);
        assert(s.drop_last().push(s.last()) =~= s);
    }
}

/// On GTK every entry of the plan is one that the backend draws: nothing is
/// dropped silently.
pub proof fn gtk_plan_draws_every_entry()
    ensures
        forall|i: int, j: int|
            0 <= i < planned_menu(true).len() && 0 <= j < planned_menu(true)[i].1.len()
                ==> drawn_on_gtk(#[trigger] planned_menu(true)[i].1[j]),
{
}

/// On GTK the drawn entries of each submenu are exactly its planned entries.
pub proof fn gtk_plan_is_drawn_whole(i: int)
    requires
        0 <= i < planned_menu(true).len(),
    ensures
        drawn_entries(true, planned_menu(true)[i].1) == planned_menu(true)[i].1,
{
    gtk_plan_draws_every_entry();
    lemma_filter_keeps_all(planned_menu(true)[i].1, |e: Entry| drawn_on_gtk(e));
}

/// The AppKit plan differs from the GTK one: it carries the predefined Quit,
/// which the GTK backend would drop.
pub proof fn appkit_plan_carries_a_quit_gtk_drops()
    ensures
        exists|i: int, j: int|
            0 <= i < planned_menu(false).len() && 0 <= j < planned_menu(false)[i].1.len()
                && #[trigger] planned_menu(false)[i].1[j] == Entry::Quit,
        !drawn_on_gtk(Entry::Quit),
{
    assert(planned_menu(false)[0].1[6] == Entry::Quit);
}

/// Quit stays reachable on GTK, as the custom Quit item.
pub proof fn gtk_plan_keeps_a_reachable_quit()
    ensures
        exists|i: int, j: int|
            0 <= i < planned_menu(true).len() && 0 <= j < planned_menu(true)[i].1.len()
                && is_item(#[trigger] planned_menu(true)[i].1[j], QUIT_ID),
{
    assert(is_item(planned_menu(true)[0].1[2], QUIT_ID));
}

/// Every plan keeps the "Report a Bug" item, the only way into the
/// bug-report dialog.
pub proof fn every_plan_keeps_the_bug_report_entry(gtk: bool)
    ensures
        exists|i: int, j: int|
            0 <= i < planned_menu(gtk).len() && 0 <= j < planned_menu(gtk)[i].1.len()
                && is_item(#[trigger] planned_menu(gtk)[i].1[j], REPORT_BUG_ID),
{
    let last = (planned_menu(gtk).len() - 1) as int;
    assert(is_item(planned_menu(gtk)[last].1[0], REPORT_BUG_ID));
}

/// No submenu of either plan renders empty: each draws at least one entry
/// that is not a separator.
pub proof fn no_submenu_renders_empty(gtk: bool, i: int)
    requires
        0 <= i < planned_menu(gtk).len(),
    ensures
        exists|k: int|
            0 <= k < drawn_entries(gtk, planned_menu(gtk)[i].1).len()
                && #[trigger] drawn_entries(gtk, planned_menu(gtk)[i].1)[k] != Entry::Separator,
{
    if gtk {
        gtk_plan_is_drawn_whole(i);
    }
    assert(drawn_entries(gtk, planned_menu(gtk)[i].1)[0] != Entry::Separator);
}

/// Separators separate something: in every drawn submenu the first and the
/// last entry are not separators, and no two separators stand side by side.
pub proof fn no_dangling_or_doubled_separator(gtk: bool, i: int)
    requires
        0 <= i < planned_menu(gtk).len(),
    ensures
        ({
            let drawn = drawn_entries(gtk, planned_menu(gtk)[i].1);
            &&& drawn.len() > 0 ==> drawn[0] != Entry::Separator
            &&& drawn.len() > 0 ==> drawn[drawn.len() - 1] != Entry::Separator
            &&& forall|k: int|
                0 <= k < drawn.len() - 1 ==> !(#[trigger] drawn[k] == Entry::Separator
                    && drawn[k + 1] == Entry::Separator)
        }),
{
    if gtk {
        gtk_plan_is_drawn_whole(i);
    }
}

/// The two custom items dispatch to their commands: the Quit item quits and
/// the bug-report item opens the dialog.
pub proof fn custom_items_dispatch()
    ensures
        command_for(QUIT_ID@) == MenuCommand::Quit,
        command_for(REPORT_BUG_ID@) == MenuCommand::OpenBugReport,
{
    reveal_strlit("quit");
    reveal_strlit("report_bug");
    assert(QUIT_ID@ != REPORT_BUG_ID@) by {
        assert(QUIT_ID@.len() != REPORT_BUG_ID@.len());
    }
}

/// Every custom item of either plan has an id that the event handler acts
/// on: no custom item is inert.
pub proof fn every_custom_entry_is_dispatched(gtk: bool, i: int, j: int)
    requires
        0 <= i < planned_menu(gtk).len(),
        0 <= j < planned_menu(gtk)[i].1.len(),
    ensures
        planned_menu(gtk)[i].1[j] matches Entry::Custom(id, _) ==> command_for(id@)
            != MenuCommand::Nothing,
{
    custom_items_dispatch();
}

/// A custom text item is drawn on GTK whatever its id and label.
pub proof fn custom_items_are_always_drawn(id: &'static str, label: &'static str)
    ensures
        drawn_on_gtk(Entry::Custom(id, label)),
{
}

/// GTK draws the separators, the clipboard items and About, and drops every
/// other predefined item.
pub proof fn gtk_draws_only_the_clipboard_items_and_about()
    ensures
        drawn_on_gtk(Entry::Separator),
        drawn_on_gtk(Entry::Cut),
        drawn_on_gtk(Entry::Copy),
        drawn_on_gtk(Entry::Paste),
        drawn_on_gtk(Entry::SelectAll),
        drawn_on_gtk(Entry::About),
        !drawn_on_gtk(Entry::Undo),
        !drawn_on_gtk(Entry::Redo),
        !drawn_on_gtk(Entry::Hide),
        !drawn_on_gtk(Entry::HideOthers),
        !drawn_on_gtk(Entry::ShowAll),
        !drawn_on_gtk(Entry::Minimize),
        !drawn_on_gtk(Entry::Maximize),
        !drawn_on_gtk(Entry::Fullscreen),
        !drawn_on_gtk(Entry::CloseWindow),
        !drawn_on_gtk(Entry::Quit),
{
}

/// Only the exact id `report_bug` opens the bug-report dialog, only the
/// exact id `quit` exits, and every other id does nothing.
pub proof fn only_the_two_ids_act(id: Seq<char>)
    ensures
        command_for(id) == MenuCommand::OpenBugReport <==> id == "report_bug"@,
        command_for(id) == MenuCommand::Quit <==> id == "quit"@,
        command_for(id) == MenuCommand::Nothing <==> (id != "report_bug"@ && id != "quit"@),
{
    custom_items_dispatch();
}

} // verus!
