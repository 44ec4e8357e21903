//! The in-memory mirror of the native menu bar: the font group, in which at
//! most one item is checked, the file-action group, whose items are enabled
//! together, and the check mark of the file-association item.

use vstd::prelude::*;
use vstd::string::*;
use crate::text::text_eq;

verus! {

/// What a checkable menu item is: its identifier, its label and its mark.
pub struct CheckItemModel {
    pub id: Seq<char>,
    pub label: Seq<char>,
    pub checked: bool,
}

/// What a plain menu item is: its identifier, its label, its accelerator
/// and whether it can be activated.
pub struct ActionItemModel {
    pub id: Seq<char>,
    pub label: Seq<char>,
    pub accelerator: Option<Seq<char>>,
    pub enabled: bool,
}

/// What the menu mirror is.
pub struct MenuModel {
    pub fonts: Seq<CheckItemModel>,
    pub file_actions: Seq<ActionItemModel>,
    pub associate_checked: bool,
}

/// A checkable menu item.
pub struct CheckItem {
    pub id: String,
    pub label: String,
    pub checked: bool,
}

/// A plain menu item.
pub struct ActionItem {
    pub id: String,
    pub label: String,
    pub accelerator: Option<String>,
    pub enabled: bool,
}

/// The menu mirror.
pub struct MenuState {
    pub fonts: Vec<CheckItem>,
    pub file_actions: Vec<ActionItem>,
    pub associate_checked: bool,
}

impl View for CheckItem {
    type V = CheckItemModel;

    open spec fn view(&self) -> CheckItemModel {
        CheckItemModel { id: self.id@, label: self.label@, checked: self.checked }
    }
}

impl View for ActionItem {
    type V = ActionItemModel;

    open spec fn view(&self) -> ActionItemModel {
        ActionItemModel {
            id: self.id@,
            label: self.label@,
            accelerator: match self.accelerator {
                Some(a) => Some(a@),
                None => None,
            },
            enabled: self.enabled,
        }
    }
}

impl View for MenuState {
    type V = MenuModel;

    open spec fn view(&self) -> MenuModel {
        MenuModel {
            fonts: Seq::new(self.fonts@.len(), |i: int| self.fonts@[i]@),
            file_actions: Seq::new(self.file_actions@.len(), |i: int| self.file_actions@[i]@),
            associate_checked: self.associate_checked,
        }
    }
}

/// The font group in which the items named `active` are checked and all
/// others are not; identifiers and labels stay.
pub open spec fn fonts_checked(fonts: Seq<CheckItemModel>, active: Seq<char>) -> Seq<
    CheckItemModel,
> {
    Seq::new(
        fonts.len(),
        |i: int| CheckItemModel { id: fonts[i].id, label: fonts[i].label, checked: fonts[i].id == active },
    )
}

/// The file-action group with every item enabled, or every item disabled.
pub open spec fn actions_enabled(items: Seq<ActionItemModel>, enabled: bool) -> Seq<
    ActionItemModel,
> {
    Seq::new(
        items.len(),
        |i: int| ActionItemModel {
            id: items[i].id,
            label: items[i].label,
            accelerator: items[i].accelerator,
            enabled: enabled,
        },
    )
}

/// The first checked item's identifier, looking from position `from` on.
pub open spec fn first_checked(fonts: Seq<CheckItemModel>, from: int) -> Option<Seq<char>>
    decreases fonts.len() - from,
{
    if from < 0 || from >= fonts.len() {
        None
    } else if fonts[from].checked {
        Some(fonts[from].id)
    } else {
        first_checked(fonts, from + 1)
    }
}

/// The mark of the first font item named `id`, looking from position `from`
/// on; `None` where there is no such item.
pub open spec fn font_mark(fonts: Seq<CheckItemModel>, id: Seq<char>, from: int) -> Option<bool>
    decreases fonts.len() - from,
{
    if from < 0 || from >= fonts.len() {
        None
    } else if fonts[from].id == id {
        Some(fonts[from].checked)
    } else {
        font_mark(fonts, id, from + 1)
    }
}

/// Whether the first file-action item named `id` is enabled, looking from
/// position `from` on; `None` where there is no such item.
pub open spec fn action_state(items: Seq<ActionItemModel>, id: Seq<char>, from: int) -> Option<
    bool,
>
    decreases items.len() - from,
{
    if from < 0 || from >= items.len() {
        None
    } else if items[from].id == id {
        Some(items[from].enabled)
    } else {
        action_state(items, id, from + 1)
    }
}

impl MenuModel {
    /// No two font items share an identifier.
    pub open spec fn distinct_fonts(self) -> bool {
        forall|i: int, j: int|
            0 <= i < j < self.fonts.len() ==> self.fonts[i].id != self.fonts[j].id
    }

    /// At most one font item is checked.
    pub open spec fn at_most_one_checked(self) -> bool {
        forall|i: int, j: int|
            0 <= i < self.fonts.len() && 0 <= j < self.fonts.len() && self.fonts[i].checked
                && self.fonts[j].checked ==> i == j
    }

    /// The mirror is well formed: font identifiers are distinct and at most
    /// one font is checked.
    pub open spec fn wf(self) -> bool {
        self.distinct_fonts() && self.at_most_one_checked()
    }

    /// `id` names an item of the font group.
    pub open spec fn has_font(self, id: Seq<char>) -> bool {
        exists|k: int| 0 <= k < self.fonts.len() && self.fonts[k].id == id
    }

    /// Exactly one font item is checked, and it is the one named `id`.
    pub open spec fn only_checked_font(self, id: Seq<char>) -> bool {
        exists|k: int|
            0 <= k < self.fonts.len() && self.fonts[k].id == id && self.fonts[k].checked
                && (forall|j: int| 0 <= j < self.fonts.len() && self.fonts[j].checked ==> j == k)
    }

    /// Every file-action item is enabled (`true`) or disabled (`false`).
    pub open spec fn file_actions_all(self, enabled: bool) -> bool {
        forall|i: int| 0 <= i < self.file_actions.len() ==> self.file_actions[i].enabled == enabled
    }

    /// The identifier of the active font, if a font is checked.
    pub open spec fn active_font(self) -> Option<Seq<char>> {
        first_checked(self.fonts, 0)
    }

    /// The mirror after the font group was reconciled to `font_id`.
    pub open spec fn sync_font(self, font_id: Seq<char>) -> MenuModel {
        MenuModel { fonts: fonts_checked(self.fonts, font_id), ..self }
    }

    /// The mirror after the "file loaded" signal `enabled` was broadcast.
    pub open spec fn set_file_enabled(self, enabled: bool) -> MenuModel {
        MenuModel { file_actions: actions_enabled(self.file_actions, enabled), ..self }
    }

    /// The mirror after an association toggle was confirmed or rolled back:
    /// `now_checked` is what the widget shows after flipping itself, and
    /// `confirmed` says whether the operating system took the change.
    pub open spec fn settle_association(self, now_checked: bool, confirmed: bool) -> MenuModel {
        MenuModel {
            associate_checked: if confirmed {
                now_checked
            } else {
                !now_checked
            },
            ..self
        }
    }
}

/// Checks the items of `items` named `active_id` and unchecks all others.
pub fn set_font_checked(items: &mut Vec<CheckItem>, active_id: &str)
    ensures
        final(items)@.len() == old(items)@.len(),
        forall|i: int|
            0 <= i < old(items)@.len() ==> #[trigger] final(items)@[i]@ == (CheckItemModel {
                id: old(items)@[i].id@,
                label: old(items)@[i].label@,
                checked: old(items)@[i].id@ == active_id@,
            }),
{
    let n: usize = items.len();
    let ghost before = items@;
    let mut i: usize = 0;
    while i < n
        invariant
            i <= n,
            n == before.len(),
            items@.len() == n,
            forall|k: int|
                0 <= k < i ==> #[trigger] items@[k]@ == (CheckItemModel {
                    id: before[k].id@,
                    label: before[k].label@,
                    checked: before[k].id@ == active_id@,
                }),
            forall|k: int| i <= k < n ==> items@[k] == before[k],
        decreases n - i,
    {
        let checked: bool = text_eq(items[i].id.as_str(), active_id);
        items[i].checked = checked;
        i += 1;
    }
}

impl MenuState {
    /// The menu as it is built at start-up: five file actions, all disabled,
    /// six fonts of which the system font is checked, and the association
    /// mark as the operating system reports it.
    pub fn new(is_associated: bool) -> (r: MenuState)
        ensures
            r@ == standard_menu(is_associated),
            r@.wf(),
    {
        proof {
            lemma_standard_menu_wf(is_associated);
        }
        let mut file_actions: Vec<ActionItem> = Vec::new();
        file_actions.push(action_item("copy_file_path", "Copy File Path", Some("Cmd+Shift+C")));
        file_actions.push(action_item("copy_dir_path", "Copy Containing Folder Path", None));
        file_actions.push(action_item("copy_project_path", "Copy Project Path", None));
        file_actions.push(action_item("reveal_finder", "Reveal in Finder", Some("Cmd+Shift+R")));
        file_actions.push(action_item("export_pdf", "Export as PDF\u{2026}", Some("Cmd+P")));
        let mut fonts: Vec<CheckItem> = Vec::new();
        fonts.push(check_item("font_system", "System Default", true));
        fonts.push(check_item("font_inter", "Inter", false));
        fonts.push(check_item("font_serif", "Serif", false));
        fonts.push(check_item("font_sans", "Sans-serif", false));
        fonts.push(check_item("font_mono", "Monospace", false));
        fonts.push(check_item("font_readable", "Readable", false));
        let r = MenuState { fonts, file_actions, associate_checked: is_associated };
        assert(r@.fonts =~= standard_menu(is_associated).fonts);
        assert(r@.file_actions =~= standard_menu(is_associated).file_actions);
        r
    }

    /// Reconciles the font group to `font_id`: the item of that name is
    /// checked, every other item is unchecked.
    pub fn sync_font_menu(&mut self, font_id: &str)
        ensures
            final(self)@ == old(self)@.sync_font(font_id@),
            old(self)@.distinct_fonts() ==> final(self)@.wf(),
            old(self)@.distinct_fonts() && old(self)@.has_font(font_id@) ==> final(self)@.only_checked_font(
                font_id@,
            ),
    {
        proof {
            if old(self)@.distinct_fonts() {
                lemma_sync_font_keeps_wf(old(self)@, font_id@);
                if old(self)@.has_font(font_id@) {
                    lemma_sync_font_checks_exactly_one(old(self)@, font_id@);
                }
            }
        }
        set_font_checked(&mut self.fonts, font_id);
        assert(self@.fonts =~= old(self)@.sync_font(font_id@).fonts);
    }

    /// Enables or disables every item of the file-action group.
    pub fn set_file_menu_enabled(&mut self, enabled: bool)
        ensures
            final(self)@ == old(self)@.set_file_enabled(enabled),
            final(self)@.file_actions_all(enabled),
            old(self)@.wf() ==> final(self)@.wf(),
    {
        let n: usize = self.file_actions.len();
        let mut i: usize = 0;
        while i < n
            invariant
                i <= n,
                n == old(self).file_actions@.len(),
                self.file_actions@.len() == n,
                self.fonts == old(self).fonts,
                self.associate_checked == old(self).associate_checked,
                forall|k: int|
                    0 <= k < i ==> #[trigger] self.file_actions@[k]@ == (ActionItemModel {
                        enabled: enabled,
                        ..old(self).file_actions@[k]@
                    }),
                forall|k: int| i <= k < n ==> self.file_actions@[k] == old(self).file_actions@[k],
            decreases n - i,
        {
            self.file_actions[i].enabled = enabled;
            i += 1;
        }
        assert(self@.file_actions =~= old(self)@.set_file_enabled(enabled).file_actions);
    }

    /// Confirms or rolls back the association mark after a toggle:
    /// `now_checked` is what the widget shows after flipping itself.
    pub fn settle_association(&mut self, now_checked: bool, confirmed: bool)
        ensures
            final(self)@ == old(self)@.settle_association(now_checked, confirmed),
            final(self).associate_checked == (now_checked == confirmed),
            old(self)@.wf() ==> final(self)@.wf(),
    {
        self.associate_checked = if confirmed {
            now_checked
        } else {
            !now_checked
        };
        assert(self@.file_actions =~= old(self)@.file_actions);
    }

    /// The identifier of the active font, if a font is checked.
    pub fn active_font_id(&self) -> (r: Option<String>)
        ensures
            (match r {
                Some(id) => Some(id@),
                None => None,
            }) == self@.active_font(),
    {
        let n: usize = self.fonts.len();
        let mut i: usize = 0;
        while i < n
            invariant
                i <= n,
                n == self.fonts@.len(),
                first_checked(self@.fonts, 0) == first_checked(self@.fonts, i as int),
            decreases n - i,
        {
            if self.fonts[i].checked {
                return Some(self.fonts[i].id.clone());
            }
            i += 1;
        }
        None
    }

    /// Whether the font item named `id` is checked; `None` where the group
    /// has no such item.
    pub fn font_checked(&self, id: &str) -> (r: Option<bool>)
        ensures
            r == font_mark(self@.fonts, id@, 0),
    {
        let n: usize = self.fonts.len();
        let mut i: usize = 0;
        while i < n
            invariant
                i <= n,
                n == self.fonts@.len(),
                font_mark(self@.fonts, id@, 0) == font_mark(self@.fonts, id@, i as int),
            decreases n - i,
        {
            if text_eq(self.fonts[i].id.as_str(), id) {
                return Some(self.fonts[i].checked);
            }
            i += 1;
        }
        None
    }

    /// Whether the file-action item named `id` is enabled; `None` where the
    /// group has no such item.
    pub fn action_enabled(&self, id: &str) -> (r: Option<bool>)
        ensures
            r == action_state(self@.file_actions, id@, 0),
    {
        let n: usize = self.file_actions.len();
        let mut i: usize = 0;
        while i < n
            invariant
                i <= n,
                n == self.file_actions@.len(),
                action_state(self@.file_actions, id@, 0) == action_state(
                    self@.file_actions,
                    id@,
                    i as int,
                ),
            decreases n - i,
        {
            if text_eq(self.file_actions[i].id.as_str(), id) {
                return Some(self.file_actions[i].enabled);
            }
            i += 1;
        }
        None
    }
}

/// A plain menu item, disabled, with the given identifier, label and
/// accelerator.
pub fn action_item(id: &str, label: &str, accelerator: Option<&str>) -> (r: ActionItem)
    ensures
        r@ == (ActionItemModel {
            id: id@,
            label: label@,
            accelerator: match accelerator {
                Some(a) => Some(a@),
                None => None,
            },
            enabled: false,
        }),
{
    let accelerator = match accelerator {
        Some(a) => Some(String::from_str(a)),
        None => None,
    };
    ActionItem { id: String::from_str(id), label: String::from_str(label), accelerator, enabled: false }
}

/// A checkable menu item with the given identifier, label and mark.
pub fn check_item(id: &str, label: &str, checked: bool) -> (r: CheckItem)
    ensures
        r@ == (CheckItemModel { id: id@, label: label@, checked: checked }),
{
    CheckItem { id: String::from_str(id), label: String::from_str(label), checked }
}

/// A disabled action item of the model.
pub open spec fn action_model(id: &str, label: &str, accelerator: Option<&str>) -> ActionItemModel {
    ActionItemModel {
        id: id@,
        label: label@,
        accelerator: match accelerator {
            Some(a) => Some(a@),
            None => None,
        },
        enabled: false,
    }
}

/// A check item of the model.
pub open spec fn check_model(id: &str, label: &str, checked: bool) -> CheckItemModel {
    CheckItemModel { id: id@, label: label@, checked: checked }
}

/// The menu as it is built at start-up.
pub open spec fn standard_menu(is_associated: bool) -> MenuModel {
    MenuModel {
        fonts: seq![
            check_model("font_system", "System Default", true),
            check_model("font_inter", "Inter", false),
            check_model("font_serif", "Serif", false),
            check_model("font_sans", "Sans-serif", false),
            check_model("font_mono", "Monospace", false),
            check_model("font_readable", "Readable", false),
        ],
        file_actions: seq![
            action_model("copy_file_path", "Copy File Path", Some("Cmd+Shift+C")),
            action_model("copy_dir_path", "Copy Containing Folder Path", None),
            action_model("copy_project_path", "Copy Project Path", None),
            action_model("reveal_finder", "Reveal in Finder", Some("Cmd+Shift+R")),
            action_model("export_pdf", "Export as PDF\u{2026}", Some("Cmd+P")),
        ],
        associate_checked: is_associated,
    }
}

/// After the font group is reconciled to an identifier of the group, exactly
/// one item is checked, and it is the item of that identifier.
pub proof fn lemma_sync_font_checks_exactly_one(m: MenuModel, id: Seq<char>)
    requires
        m.distinct_fonts(),
        m.has_font(id),
    ensures
        m.sync_font(id).only_checked_font(id),
{
    let k = choose|k: int| 0 <= k < m.fonts.len() && m.fonts[k].id == id;
    let after = m.sync_font(id);
    assert(after.fonts[k].checked);
    assert forall|j: int| 0 <= j < after.fonts.len() && after.fonts[j].checked implies j == k by {
        assert(m.fonts[j].id == m.fonts[k].id);
    }
}

/// Reconciling the font group keeps the mirror well formed, whichever
/// identifier is given: with one outside the group no item stays checked.
pub proof fn lemma_sync_font_keeps_wf(m: MenuModel, id: Seq<char>)
    requires
        m.distinct_fonts(),
    ensures
        m.sync_font(id).wf(),
        !m.has_font(id) ==> forall|j: int|
            0 <= j < m.fonts.len() ==> !(#[trigger] m.sync_font(id).fonts[j]).checked,
{
    let after = m.sync_font(id);
    assert forall|i: int, j: int|
        0 <= i < after.fonts.len() && 0 <= j < after.fonts.len() && after.fonts[i].checked
            && after.fonts[j].checked implies i == j by {
        assert(m.fonts[i].id == m.fonts[j].id);
    }
}

/// Reconciling the font group twice to the same identifier is the same as
/// doing it once, and of two reconciliations the later one decides.
pub proof fn lemma_sync_font_idempotent(m: MenuModel, first: Seq<char>, id: Seq<char>)
    ensures
        m.sync_font(id).sync_font(id) == m.sync_font(id),
        m.sync_font(first).sync_font(id) == m.sync_font(id),
{
    assert(m.sync_font(id).sync_font(id).fonts =~= m.sync_font(id).fonts);
    assert(m.sync_font(first).sync_font(id).fonts =~= m.sync_font(id).fonts);
}

/// After the font group is reconciled to an identifier of the group, that
/// identifier is the active font.
pub proof fn lemma_sync_font_sets_active(m: MenuModel, id: Seq<char>)
    requires
        m.has_font(id),
    ensures
        m.sync_font(id).active_font() == Some(id),
{
    let k = choose|k: int| 0 <= k < m.fonts.len() && m.fonts[k].id == id;
    lemma_first_checked_finds(m.sync_font(id).fonts, 0, k, id);
}

proof fn lemma_first_checked_finds(fonts: Seq<CheckItemModel>, from: int, k: int, id: Seq<char>)
    requires
        0 <= from <= k < fonts.len(),
        fonts[k].checked,
        forall|j: int| 0 <= j < fonts.len() && fonts[j].checked ==> fonts[j].id == id,
    ensures
        first_checked(fonts, from) == Some(id),
    decreases k - from,
{
    if !fonts[from].checked {
        lemma_first_checked_finds(fonts, from + 1, k, id);
    }
}

/// The file-action group follows the "file loaded" signal: after a broadcast
/// every item has the broadcast state, nothing else changes, and of two
/// broadcasts the later one decides.
pub proof fn lemma_file_actions_follow_signal(m: MenuModel, earlier: bool, enabled: bool)
    ensures
        m.set_file_enabled(enabled).file_actions_all(enabled),
        m.set_file_enabled(enabled).fonts == m.fonts,
        m.set_file_enabled(enabled).associate_checked == m.associate_checked,
        m.set_file_enabled(earlier).set_file_enabled(enabled) == m.set_file_enabled(enabled),
{
    assert(m.set_file_enabled(earlier).set_file_enabled(enabled).file_actions
        =~= m.set_file_enabled(enabled).file_actions);
}

/// The association mark never shows what the operating system does not
/// have: where the widget flipped itself from `before` and the toggle was
/// confirmed, the mark is the flipped value; where the toggle failed, the
/// mark is `before` again.
pub proof fn lemma_association_mark_is_truthful(m: MenuModel, before: bool)
    ensures
        m.settle_association(!before, true).associate_checked == !before,
        m.settle_association(!before, false).associate_checked == before,
        m.settle_association(!before, false).fonts == m.fonts,
        m.settle_association(!before, false).file_actions == m.file_actions,
{
}

/// The menu built at start-up is well formed, the system font is its only
/// checked font, and every file action is disabled.
pub proof fn lemma_standard_menu_wf(is_associated: bool)
    ensures
        standard_menu(is_associated).wf(),
        standard_menu(is_associated).only_checked_font("font_system"@),
        standard_menu(is_associated).file_actions_all(false),
{
    reveal_strlit("font_system");
    reveal_strlit("font_inter");
    reveal_strlit("font_serif");
    reveal_strlit("font_sans");
    reveal_strlit("font_mono");
    reveal_strlit("font_readable");
    let m = standard_menu(is_associated);
    assert("font_system"@.len() == 11 && "font_readable"@.len() == 13);
    assert("font_sans"@.len() == 9 && "font_mono"@[5] == 'm');
    assert("font_inter"@[5] == 'i' && "font_serif"@[5] == 's');
    assert(m.fonts[0].checked && m.fonts[0].id == "font_system"@);
}

} // verus!
