//! The application state: the file named at start-up, which is handed out
//! once, and the menu mirror.

use vstd::prelude::*;
use vstd::string::*;
use crate::menu::{MenuModel, MenuState, standard_menu};
use crate::text::text_of;

verus! {

/// What the application state is.
pub struct AppModel {
    pub initial_file: Option<Seq<char>>,
    pub menu: MenuModel,
}

/// The application state. One instance lives as long as the process; the
/// caller guards it with a lock where threads share it.
pub struct AppState {
    pub initial_file: Option<String>,
    pub menu: MenuState,
}

/// The file that a first command-line argument names: the argument itself,
/// unless it is missing or begins with `-`, as an option does.
pub open spec fn file_argument(arg: Option<Seq<char>>) -> Option<Seq<char>> {
    match arg {
        Some(a) => if a.len() > 0 && a[0] == '-' {
            None
        } else {
            Some(a)
        },
        None => None,
    }
}

impl View for AppState {
    type V = AppModel;

    open spec fn view(&self) -> AppModel {
        AppModel { initial_file: text_of(self.initial_file), menu: self.menu@ }
    }
}

impl AppModel {
    /// What one retrieval of the initial file hands out, and the state it
    /// leaves.
    pub open spec fn take_initial_file(self) -> (Option<Seq<char>>, AppModel) {
        (self.initial_file, AppModel { initial_file: None, ..self })
    }
}

/// The file that the first command-line argument names, if any.
pub fn initial_file_argument(arg: Option<String>) -> (r: Option<String>)
    ensures
        text_of(r) == file_argument(text_of(arg)),
{
    match arg {
        Some(a) => {
            if !a.as_str().is_empty() && a.as_str().get_char(0) == '-' {
                None
            } else {
                Some(a)
            }
        },
        None => None,
    }
}

impl AppState {
    /// The state at start-up: the file that the first argument names, and
    /// the menu as it is built.
    pub fn new(first_arg: Option<String>, is_associated: bool) -> (r: AppState)
        ensures
            r@.initial_file == file_argument(text_of(first_arg)),
            r@.menu == standard_menu(is_associated),
    {
        AppState { initial_file: initial_file_argument(first_arg), menu: MenuState::new(is_associated) }
    }

    /// Hands out the initial file and clears the slot: the first call
    /// returns what was seeded, every later call returns `None`.
    pub fn get_initial_file(&mut self) -> (r: Option<String>)
        ensures
            (text_of(r), final(self)@) == old(self)@.take_initial_file(),
    {
        self.initial_file.take()
    }

    /// Reconciles the font group of the menu to `font_id`.
    pub fn sync_font_menu(&mut self, font_id: &str)
        ensures
            final(self)@ == (AppModel { menu: old(self)@.menu.sync_font(font_id@), ..old(self)@ }),
    {
        self.menu.sync_font_menu(font_id);
    }

    /// Enables or disables the file-action group of the menu.
    pub fn set_file_menu_enabled(&mut self, enabled: bool)
        ensures
            final(self)@ == (AppModel {
                menu: old(self)@.menu.set_file_enabled(enabled),
                ..old(self)@
            }),
    {
        self.menu.set_file_menu_enabled(enabled);
    }
}

/// The initial file is delivered once: the first retrieval returns what the
/// slot holds, and any retrieval after it returns nothing and changes
/// nothing.
pub proof fn lemma_initial_file_single_delivery(s: AppModel)
    ensures
        s.take_initial_file().0 == s.initial_file,
        s.take_initial_file().1.take_initial_file().0 is None,
        s.take_initial_file().1.take_initial_file().1 == s.take_initial_file().1,
        s.take_initial_file().1.menu == s.menu,
{
}

} // verus!
