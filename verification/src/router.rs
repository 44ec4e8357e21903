//! The event router: from the identifier of an activated menu item to what
//! is to be done, and from what was done to the notification for the
//! presentation layer. Unknown identifiers are ignored.

use vstd::prelude::*;
use vstd::string::*;
use crate::assoc::{
    failure_message, toggle_outcome, toggle_view, written_text, AssocError, AssocFailure,
    OutputModel,
};
use crate::install::{payload_text, InstallOutcome};
use crate::menu::{MenuModel, MenuState};
use crate::text::{is_prefix_of, starts_with, text_eq};

verus! {

/// The prefix that the identifiers of the font group share.
pub const FONT_PREFIX: &'static str = "font_";

/// The handler that an identifier is routed to.
#[derive(Clone, Copy, PartialEq, Eq, Structural, Debug)]
pub enum Route {
    /// Install the command-line launcher.
    InstallCli,
    /// Copy one of the three paths, or reveal the file: the presentation
    /// layer acts on the identifier.
    MenuAction,
    /// Export to PDF.
    ExportPdf,
    /// Confirm or roll back the association toggle.
    AssociateMd,
    /// Select a font.
    Font,
    /// No handler: the identifier is not known.
    Unknown,
}

/// A named event for the presentation layer.
pub struct Notification {
    pub event: String,
    pub payload: String,
}

/// What a `Notification` is.
pub struct NotificationModel {
    pub event: Seq<char>,
    pub payload: Seq<char>,
}

impl View for Notification {
    type V = NotificationModel;

    open spec fn view(&self) -> NotificationModel {
        NotificationModel { event: self.event@, payload: self.payload@ }
    }
}

/// What the shell is to do for an activated menu item.
pub enum Command {
    /// Run the installer and report its outcome.
    Install,
    /// Send the notification.
    Emit(Notification),
    /// Send the notification where the main window exists.
    EmitToMainWindow(Notification),
    /// Read the mark that the association item shows now, run the toggle
    /// for it, and settle the mark by the result.
    ToggleAssociation,
    /// Nothing.
    Ignore,
}

/// What a `Command` is.
pub enum CommandModel {
    Install,
    Emit(NotificationModel),
    EmitToMainWindow(NotificationModel),
    ToggleAssociation,
    Ignore,
}

impl View for Command {
    type V = CommandModel;

    open spec fn view(&self) -> CommandModel {
        match self {
            Command::Install => CommandModel::Install,
            Command::Emit(n) => CommandModel::Emit(n@),
            Command::EmitToMainWindow(n) => CommandModel::EmitToMainWindow(n@),
            Command::ToggleAssociation => CommandModel::ToggleAssociation,
            Command::Ignore => CommandModel::Ignore,
        }
    }
}

/// The notification of an optional result, by its view.
pub open spec fn notice_view(n: Option<Notification>) -> Option<NotificationModel> {
    match n {
        Some(n) => Some(n@),
        None => None,
    }
}

/// The message that says why the programmatic export to PDF is refused.
pub open spec fn export_pdf_refusal() -> Seq<char> {
    "Programmatic 'Export as PDF' without showing the print dialog isn't supported by Tauri/Wry on macOS yet.\n\nCurrent options:\n- Keep the print dialog (window.print()) and use Save as PDF\n- Implement a custom HTML->PDF export (e.g. render to PDF via a Rust PDF library, or generate PDF in JS and save via the filesystem plugin)"@
}

/// The export to PDF, which is not offered: it always fails, with the
/// message that says what to do instead.
pub fn export_pdf() -> (r: Result<(), String>)
    ensures
        r matches Err(message) && message@ == export_pdf_refusal(),
{
    Err(
        String::from_str(
            "Programmatic 'Export as PDF' without showing the print dialog isn't supported by Tauri/Wry on macOS yet.\n\nCurrent options:\n- Keep the print dialog (window.print()) and use Save as PDF\n- Implement a custom HTML->PDF export (e.g. render to PDF via a Rust PDF library, or generate PDF in JS and save via the filesystem plugin)",
        ),
    )
}

/// The handler of an identifier. Each identifier has exactly one.
pub open spec fn route_of(id: Seq<char>) -> Route {
    if id == "install_cli"@ {
        Route::InstallCli
    } else if id == "copy_file_path"@ || id == "copy_dir_path"@ || id == "copy_project_path"@ || id
        == "reveal_finder"@ {
        Route::MenuAction
    } else if id == "export_pdf"@ {
        Route::ExportPdf
    } else if id == "associate_md"@ {
        Route::AssociateMd
    } else if is_prefix_of(FONT_PREFIX@, id) {
        Route::Font
    } else {
        Route::Unknown
    }
}

/// What an activation of the item `id` does to the menu mirror, and what it
/// asks of the shell.
pub open spec fn dispatch_model(menu: MenuModel, id: Seq<char>) -> (CommandModel, MenuModel) {
    match route_of(id) {
        Route::InstallCli => (CommandModel::Install, menu),
        Route::MenuAction => (
            CommandModel::Emit(NotificationModel { event: "menu-action"@, payload: id }),
            menu,
        ),
        Route::ExportPdf => (
            CommandModel::EmitToMainWindow(
                NotificationModel { event: "show-error"@, payload: export_pdf_refusal() },
            ),
            menu,
        ),
        Route::AssociateMd => (CommandModel::ToggleAssociation, menu),
        Route::Font => (
            CommandModel::Emit(NotificationModel { event: "set-font"@, payload: id }),
            menu.sync_font(id),
        ),
        Route::Unknown => (CommandModel::Ignore, menu),
    }
}

/// What settling an association toggle does to the menu mirror, and the
/// error that is shown: `now_checked` is the mark after the widget flipped
/// itself, `result` what the toggle returned.
pub open spec fn settle_model(
    menu: MenuModel,
    now_checked: bool,
    result: Result<bool, AssocFailure>,
) -> (Option<NotificationModel>, MenuModel) {
    match result {
        Ok(_) => (None, menu.settle_association(now_checked, true)),
        Err(e) => (
            Some(NotificationModel { event: "show-error"@, payload: failure_message(e) }),
            menu.settle_association(now_checked, false),
        ),
    }
}

/// A notification with the given event name and payload.
pub fn notification(event: &str, payload: &str) -> (r: Notification)
    ensures
        r@ == (NotificationModel { event: event@, payload: payload@ }),
{
    Notification { event: String::from_str(event), payload: String::from_str(payload) }
}

/// The handler that the identifier of a menu item is routed to.
pub fn classify(id: &str) -> (r: Route)
    ensures
        r == route_of(id@),
{
    if text_eq(id, "install_cli") {
        Route::InstallCli
    } else if text_eq(id, "copy_file_path") || text_eq(id, "copy_dir_path") || text_eq(
        id,
        "copy_project_path",
    ) || text_eq(id, "reveal_finder") {
        Route::MenuAction
    } else if text_eq(id, "export_pdf") {
        Route::ExportPdf
    } else if text_eq(id, "associate_md") {
        Route::AssociateMd
    } else if starts_with(id, FONT_PREFIX) {
        Route::Font
    } else {
        Route::Unknown
    }
}

/// Handles the activation of the menu item `id`: reconciles the font group
/// where a font was chosen, and says what the shell is to do.
pub fn dispatch(menu: &mut MenuState, id: &str) -> (r: Command)
    ensures
        (r@, final(menu)@) == dispatch_model(old(menu)@, id@),
{
    match classify(id) {
        Route::InstallCli => Command::Install,
        Route::MenuAction => Command::Emit(notification("menu-action", id)),
        Route::ExportPdf => match export_pdf() {
            Err(message) => Command::EmitToMainWindow(notification("show-error", message.as_str())),
            Ok(_) => Command::Ignore,
        },
        Route::AssociateMd => Command::ToggleAssociation,
        Route::Font => {
            menu.sync_font_menu(id);
            Command::Emit(notification("set-font", id))
        },
        Route::Unknown => Command::Ignore,
    }
}

/// Settles the association mark after a toggle: a confirmed toggle leaves
/// the mark as the widget shows it, a failed one flips it back and gives
/// the error to show.
pub fn settle_association(
    menu: &mut MenuState,
    now_checked: bool,
    result: Result<bool, AssocError>,
) -> (r: Option<Notification>)
    ensures
        (notice_view(r), final(menu)@) == settle_model(old(menu)@, now_checked, toggle_view(result)),
{
    match result {
        Ok(_) => {
            menu.settle_association(now_checked, true);
            None
        },
        Err(e) => {
            menu.settle_association(now_checked, false);
            let message = e.message();
            Some(notification("show-error", message.as_str()))
        },
    }
}

/// The notification that reports how an installation ended.
pub fn install_notification(outcome: &InstallOutcome) -> (r: Notification)
    ensures
        r@ == (NotificationModel { event: "cli-install-result"@, payload: payload_text(outcome@) }),
{
    let payload = outcome.payload();
    notification("cli-install-result", payload.as_str())
}

/// The notification for files dropped on the window: the first of them is
/// to be opened; none where nothing was dropped.
pub fn dropped_file_notification(paths: &Vec<String>) -> (r: Option<Notification>)
    ensures
        notice_view(r) == (if paths@.len() > 0 {
            Some(NotificationModel { event: "open-file"@, payload: paths@[0]@ })
        } else {
            None
        }),
{
    if paths.len() > 0 {
        Some(notification("open-file", paths[0].as_str()))
    } else {
        None
    }
}

/// Routing never touches the file-action group or the association mark,
/// only a font identifier changes the font group, and an unknown identifier
/// changes nothing and asks for nothing.
pub proof fn lemma_dispatch_is_contained(menu: MenuModel, id: Seq<char>)
    ensures
        dispatch_model(menu, id).1.file_actions == menu.file_actions,
        dispatch_model(menu, id).1.associate_checked == menu.associate_checked,
        !(route_of(id) is Font) ==> dispatch_model(menu, id).1 == menu,
        route_of(id) is Unknown ==> dispatch_model(menu, id).0 is Ignore,
{
}

/// Choosing a font of the group in the menu leaves exactly that font
/// checked, as reconciling from the presentation layer does.
pub proof fn lemma_font_choice_reconciles(menu: MenuModel, id: Seq<char>)
    requires
        menu.distinct_fonts(),
        menu.has_font(id),
        route_of(id) is Font,
    ensures
        dispatch_model(menu, id).1 == menu.sync_font(id),
        dispatch_model(menu, id).1.only_checked_font(id),
        dispatch_model(menu, id).0 == CommandModel::Emit(
            NotificationModel { event: "set-font"@, payload: id },
        ),
{
    crate::menu::lemma_sync_font_checks_exactly_one(menu, id);
}

/// The association mark shows only what the operating system confirmed:
/// after the widget flipped itself from `before` and the toggle ran, the
/// mark is the flipped value exactly where the interpreter started and
/// wrote the marker; in every other case the mark is `before` again and an
/// error is shown.
pub proof fn lemma_toggle_confirms_or_rolls_back(
    menu: MenuModel,
    before: bool,
    run: Result<OutputModel, Seq<char>>,
)
    ensures
        ({
            let confirmed = run matches Ok(o) && written_text(o.stdout) == "ok"@;
            let (notice, after) = settle_model(menu, !before, toggle_outcome(!before, run));
            &&& after.associate_checked == (if confirmed {
                !before
            } else {
                before
            })
            &&& notice is None <==> confirmed
            &&& notice matches Some(n) ==> n.event == "show-error"@
            &&& after.fonts == menu.fonts
            &&& after.file_actions == menu.file_actions
        }),
{
}

} // verus!
