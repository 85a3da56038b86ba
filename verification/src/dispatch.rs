//! Routing of tray events: the translation of a platform tray event into
//! the one directive the platform layer must carry out.
//!
//! The dispatcher is stateless: it keeps no record of earlier events or
//! of tasks still in flight, so the directive for an event depends on the
//! event itself (and, for a left click, on whether a main window exists)
//! and on nothing else.

use vstd::prelude::*;
use vstd::string::*;

verus! {

use crate::BackendAction;

/// A platform tray event, as the decision core sees it.
pub enum TrayEvent {
    /// A left click on the tray icon.
    LeftClick,
    /// A menu entry was selected; `id` is the entry's identifier.
    MenuItemClick { id: String },
    /// Any other tray event (right click, double click, hover, ...).
    Other,
}

/// What the platform layer must do in response to one tray event.
#[derive(Clone, Copy, PartialEq, Eq, Debug, Structural)]
pub enum Directive {
    /// Make the main window visible and give it input focus.
    ShowMainWindow,
    /// Schedule the backend action as an independent task and return at
    /// once, without awaiting it; on failure the task writes a diagnostic
    /// to the error stream and nothing else.
    SpawnBackend { action: BackendAction },
    /// Terminate the process with the given exit code, regardless of any
    /// task still in flight.
    Exit { code: u8 },
    /// Do nothing.
    Ignore,
}

/// The directive a menu selection with identifier `id` must produce:
/// the three backend identifiers each spawn their action, `quit` exits
/// the process with code 0, and every other identifier — the separator
/// included — does nothing.
pub open spec fn menu_directive(id: Seq<char>) -> Directive {
    if id == "pause"@ {
        Directive::SpawnBackend { action: BackendAction::Pause }
    } else if id == "resume"@ {
        Directive::SpawnBackend { action: BackendAction::Resume }
    } else if id == "dashboard"@ {
        Directive::SpawnBackend { action: BackendAction::Dashboard }
    } else if id == "quit"@ {
        Directive::Exit { code: 0 }
    } else {
        Directive::Ignore
    }
}

/// The directive any tray event must produce. A left click shows the
/// main window when one exists and is otherwise silently ignored; a menu
/// selection goes by its identifier; every other event does nothing.
pub open spec fn event_directive(event: TrayEvent, has_main_window: bool) -> Directive {
    match event {
        TrayEvent::LeftClick => if has_main_window {
            Directive::ShowMainWindow
        } else {
            Directive::Ignore
        },
        TrayEvent::MenuItemClick { id } => menu_directive(id@),
        TrayEvent::Other => Directive::Ignore,
    }
}

/// Compares a menu identifier against a fixed identifier literal.
fn id_is(id: &String, literal: &str) -> (r: bool)
    ensures
        r == (id@ == literal@),
{
    let fixed = String::from_str(literal);
    *id == fixed
}

/// Routes one tray event to its directive. `has_main_window` says whether
/// a main window currently exists; it matters only for a left click.
pub fn dispatch(event: &TrayEvent, has_main_window: bool) -> (r: Directive)
    ensures
        r == event_directive(*event, has_main_window),
{
    match event {
        TrayEvent::LeftClick => {
            if has_main_window {
                Directive::ShowMainWindow
            } else {
                Directive::Ignore
            }
        },
        TrayEvent::MenuItemClick { id } => {
            if id_is(id, "pause") {
                Directive::SpawnBackend { action: BackendAction::Pause }
            } else if id_is(id, "resume") {
                Directive::SpawnBackend { action: BackendAction::Resume }
            } else if id_is(id, "dashboard") {
                Directive::SpawnBackend { action: BackendAction::Dashboard }
            } else if id_is(id, "quit") {
                Directive::Exit { code: 0 }
            } else {
                Directive::Ignore
            }
        },
        TrayEvent::Other => Directive::Ignore,
    }
}

/// Law: the five menu identifiers are pairwise distinct, so no selection
/// can be read as two different entries.
pub proof fn lemma_identifiers_distinct()
    ensures
        "pause"@ != "resume"@,
        "pause"@ != "dashboard"@,
        "pause"@ != "quit"@,
        "pause"@ != "separator"@,
        "resume"@ != "dashboard"@,
        "resume"@ != "quit"@,
        "resume"@ != "separator"@,
        "dashboard"@ != "quit"@,
        "dashboard"@ != "separator"@,
        "quit"@ != "separator"@,
{
    reveal_strlit("pause");
    reveal_strlit("resume");
    reveal_strlit("dashboard");
    reveal_strlit("quit");
    reveal_strlit("separator");
    assert("pause"@.len() == 5);
    assert("resume"@.len() == 6);
    assert("dashboard"@.len() == 9);
    assert("quit"@.len() == 4);
    assert("separator"@.len() == 9);
    assert("dashboard"@[0] == 'd');
    assert("separator"@[0] == 's');
}

/// Law: each of the four actionable identifiers produces exactly its own
/// directive — `pause` and `resume` spawn their backend posts, `dashboard`
/// spawns the browser launch, `quit` exits the process with code 0 — and
/// the four directives are pairwise distinct, so one selection triggers
/// one call and never another.
pub proof fn lemma_actionable_identifiers()
    ensures
        menu_directive("pause"@) == (Directive::SpawnBackend { action: BackendAction::Pause }),
        menu_directive("resume"@) == (Directive::SpawnBackend { action: BackendAction::Resume }),
        menu_directive("dashboard"@) == (Directive::SpawnBackend {
            action: BackendAction::Dashboard,
        }),
        menu_directive("quit"@) == (Directive::Exit { code: 0 }),
{
    lemma_identifiers_distinct();
}

/// Law: a selection whose identifier is none of the four actionable ones
/// produces no outbound call and no process exit: its directive is to do
/// nothing.
pub proof fn lemma_unrecognized_identifier_ignored(id: Seq<char>)
    requires
        id != "pause"@,
        id != "resume"@,
        id != "dashboard"@,
        id != "quit"@,
    ensures
        menu_directive(id) == Directive::Ignore,
{
}

/// Law: selecting the separator entry does nothing: its identifier is not
/// one of the four actionable identifiers.
pub proof fn lemma_separator_ignored()
    ensures
        menu_directive("separator"@) == Directive::Ignore,
{
    lemma_identifiers_distinct();
}

/// Law: a left click shows and focuses the main window exactly when one
/// exists; when none exists the click is silently ignored — no error, no
/// call, no exit.
pub proof fn lemma_left_click(has_main_window: bool)
    ensures
        has_main_window ==> event_directive(TrayEvent::LeftClick, has_main_window)
            == Directive::ShowMainWindow,
        !has_main_window ==> event_directive(TrayEvent::LeftClick, has_main_window)
            == Directive::Ignore,
{
}

/// Law: `quit` exits with code 0 unconditionally. The dispatcher carries
/// no record of in-flight tasks and the decision ignores the window
/// state, so the exit directive is produced whatever else is going on.
pub proof fn lemma_quit_unconditional(id: String, has_main_window: bool)
    requires
        id@ == "quit"@,
    ensures
        event_directive(TrayEvent::MenuItemClick { id }, has_main_window)
            == (Directive::Exit { code: 0 }),
{
    lemma_identifiers_distinct();
}

/// Law: selections dispatched in succession are independent. Each
/// selection's directive depends on its own identifier alone, so `pause`
/// followed immediately by `resume` yields two spawn directives — one
/// task per selection, no deduplication — and the decision core imposes
/// no ordering between the two spawned tasks.
pub proof fn lemma_successive_selections_independent(
    first: String,
    second: String,
    window_at_first: bool,
    window_at_second: bool,
)
    requires
        first@ == "pause"@,
        second@ == "resume"@,
    ensures
        event_directive(TrayEvent::MenuItemClick { id: first }, window_at_first)
            == (Directive::SpawnBackend { action: BackendAction::Pause }),
        event_directive(TrayEvent::MenuItemClick { id: second }, window_at_second)
            == (Directive::SpawnBackend { action: BackendAction::Resume }),
{
    lemma_identifiers_distinct();
}

} // verus!
