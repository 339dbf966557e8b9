//! The application menu and the placement of the "Settings" entry in it.

use vstd::prelude::*;
use vstd::string::*;

verus! {

/// An item that the platform provides and draws itself.
#[derive(Clone, Copy, Debug, PartialEq, Eq, Structural)]
pub enum NativeItem {
    About,
    Hide,
    Services,
    HideOthers,
    ShowAll,
    CloseWindow,
    Quit,
    Copy,
    Cut,
    Undo,
    Redo,
    SelectAll,
    Paste,
    EnterFullScreen,
    Minimize,
    Zoom,
    Separator,
}

/// An item of the application's own: a click on it is reported with `id`.
/// The accelerator names the keys that trigger the item, joined by `+`;
/// `Cmd/Ctrl` is the platform's command key, Cmd on macOS and Ctrl elsewhere.
#[derive(Debug, PartialEq, Eq)]
pub struct CustomItem {
    pub id: String,
    pub title: String,
    pub accelerator: Option<String>,
    pub enabled: bool,
    pub selected: bool,
}

/// One entry of a menu.
#[derive(Debug, PartialEq, Eq)]
pub enum MenuEntry {
    Custom(CustomItem),
    Native(NativeItem),
    Submenu(Submenu),
}

/// A titled menu nested in another.
#[derive(Debug, PartialEq, Eq)]
pub struct Submenu {
    pub title: String,
    pub enabled: bool,
    pub items: Vec<MenuEntry>,
}

/// A menu: its entries, in display order.
#[derive(Debug, PartialEq, Eq)]
pub struct Menu {
    pub items: Vec<MenuEntry>,
}

/// What a [`CustomItem`] holds, as mathematical values.
pub struct CustomItemView {
    pub id: Seq<char>,
    pub title: Seq<char>,
    pub accelerator: Option<Seq<char>>,
    pub enabled: bool,
    pub selected: bool,
}

/// What a [`MenuEntry`] holds, as mathematical values.
pub enum EntryView {
    Custom(CustomItemView),
    Native(NativeItem),
    Submenu(SubmenuView),
}

/// What a [`Submenu`] holds, as mathematical values.
pub struct SubmenuView {
    pub title: Seq<char>,
    pub enabled: bool,
    pub items: Seq<EntryView>,
}

/// What a [`Menu`] holds, as mathematical values.
pub struct MenuView {
    pub items: Seq<EntryView>,
}

impl View for CustomItem {
    type V = CustomItemView;

    open spec fn view(&self) -> CustomItemView {
        CustomItemView {
            id: self.id@,
            title: self.title@,
            accelerator: match self.accelerator {
                Some(a) => Some(a@),
                None => None,
            },
            enabled: self.enabled,
            selected: self.selected,
        }
    }
}

/// The views of a run of entries, in the same order.
pub open spec fn entries_view(items: Seq<MenuEntry>) -> Seq<EntryView>
    decreases items,
{
    Seq::new(
        items.len(),
        |i: int|
            if 0 <= i < items.len() {
                items[i]@
            } else {
                arbitrary()
            },
    )
}

impl View for MenuEntry {
    type V = EntryView;

    open spec fn view(&self) -> EntryView
        decreases self,
    {
        match self {
            MenuEntry::Custom(c) => EntryView::Custom(c@),
            MenuEntry::Native(n) => EntryView::Native(*n),
            MenuEntry::Submenu(s) => EntryView::Submenu(s@),
        }
    }
}

impl View for Submenu {
    type V = SubmenuView;

    open spec fn view(&self) -> SubmenuView
        decreases self,
    {
        SubmenuView { title: self.title@, enabled: self.enabled, items: entries_view(self.items@) }
    }
}

impl View for Menu {
    type V = MenuView;

    open spec fn view(&self) -> MenuView {
        MenuView { items: entries_view(self.items@) }
    }
}

/// The "Settings" item: a click on it is reported as `show_settings`, and the
/// platform's command key held with the comma key triggers it.
pub open spec fn settings_item_view() -> CustomItemView {
    CustomItemView {
        id: "show_settings"@,
        title: "Settings"@,
        accelerator: Some("Cmd/Ctrl+,"@),
        enabled: true,
        selected: false,
    }
}

/// Whether `entry` is a submenu with exactly this title.
pub open spec fn is_submenu_titled(entry: EntryView, title: Seq<char>) -> bool {
    entry matches EntryView::Submenu(s) && s.title == title
}

/// A list of items with a separator and the "Settings" item put in behind its
/// first item; into an empty list they go as they are.
pub open spec fn with_settings_items(items: Seq<EntryView>) -> Seq<EntryView> {
    let at: int = if items.len() == 0 { 0 } else { 1 };
    items.subrange(0, at) + seq![
        EntryView::Native(NativeItem::Separator),
        EntryView::Custom(settings_item_view()),
    ] + items.subrange(at, items.len() as int)
}

impl SubmenuView {
    /// This submenu with the separator and the "Settings" item put in.
    pub open spec fn with_settings(self) -> SubmenuView {
        SubmenuView { items: with_settings_items(self.items), ..self }
    }
}

impl MenuView {
    /// Whether some top-level entry is a submenu titled `title`.
    pub open spec fn has_submenu_titled(self, title: Seq<char>) -> bool {
        exists|i: int| 0 <= i < self.items.len() && is_submenu_titled(#[trigger] self.items[i], title)
    }

    /// Whether `i` is the place of the first top-level submenu titled `title`.
    pub open spec fn is_first_titled(self, i: int, title: Seq<char>) -> bool {
        &&& 0 <= i < self.items.len()
        &&& is_submenu_titled(self.items[i], title)
        &&& forall|j: int| 0 <= j < i ==> !is_submenu_titled(#[trigger] self.items[j], title)
    }

    /// The place of the first top-level submenu titled `title`, if there is one.
    pub open spec fn first_titled(self, title: Seq<char>) -> Option<int> {
        if exists|i: int| self.is_first_titled(i, title) {
            Some(choose|i: int| self.is_first_titled(i, title))
        } else {
            None
        }
    }

    /// This menu with the "Settings" item in the application submenu: the
    /// first top-level submenu titled `app_display_name`. A menu without such
    /// a submenu stays as it is.
    pub open spec fn with_settings(self, app_display_name: Seq<char>) -> MenuView {
        match self.first_titled(app_display_name) {
            Some(i) => MenuView {
                items: self.items.update(
                    i,
                    EntryView::Submenu(self.items[i]->Submenu_0.with_settings()),
                ),
            },
            None => self,
        }
    }
}

/// The first such place is the only one that `first_titled` can give, and
/// there is one exactly when some top-level submenu has the title.
pub proof fn lemma_first_titled(menu: MenuView, title: Seq<char>)
    ensures
        forall|i: int| menu.is_first_titled(i, title) ==> menu.first_titled(title) == Some(i),
        menu.first_titled(title) is Some <==> menu.has_submenu_titled(title),
        menu.first_titled(title) matches Some(i) ==> menu.is_first_titled(i, title),
{
    assert forall|i: int| menu.is_first_titled(i, title) implies menu.first_titled(title) == Some(
        i,
    ) by {
        let k = choose|k: int| menu.is_first_titled(k, title);
        assert(menu.is_first_titled(k, title));
        if k < i {
            assert(!is_submenu_titled(menu.items[k], title));
        } else if i < k {
            assert(!is_submenu_titled(menu.items[i], title));
        }
    }
    if menu.has_submenu_titled(title) {
        lemma_some_first(menu.items, title, menu.items.len() as int);
    }
}

/// Among the first `n` entries, if one is a submenu with the title, one is the
/// first such.
proof fn lemma_some_first(items: Seq<EntryView>, title: Seq<char>, n: int)
    requires
        0 <= n <= items.len(),
        exists|i: int| 0 <= i < n && is_submenu_titled(#[trigger] items[i], title),
    ensures
        exists|i: int| i < n && (MenuView { items }).is_first_titled(i, title),
    decreases n,
{
    let menu = MenuView { items };
    if exists|i: int| 0 <= i < n - 1 && is_submenu_titled(#[trigger] items[i], title) {
        lemma_some_first(items, title, n - 1);
    } else {
        assert(menu.is_first_titled(n - 1, title));
    }
}

/// Where the application submenu has a first item, by convention "About",
/// that item stays first, a separator comes second and the "Settings" item
/// third, and every other item of the submenu stands two places further on.
/// The submenu keeps its title, and the rest of the menu is untouched.
pub proof fn lemma_settings_follow_first_item(menu: MenuView, app_display_name: Seq<char>, i: int)
    requires
        menu.is_first_titled(i, app_display_name),
        menu.items[i]->Submenu_0.items.len() > 0,
    ensures
        ({
            let before = menu.items[i]->Submenu_0;
            let built = menu.with_settings(app_display_name);
            &&& built.items.len() == menu.items.len()
            &&& forall|j: int| 0 <= j < menu.items.len() && j != i ==> built.items[j] == menu.items[j]
            &&& built.items[i] matches EntryView::Submenu(after)
            &&& after.title == before.title
            &&& after.enabled == before.enabled
            &&& after.items.len() == before.items.len() + 2
            &&& after.items[0] == before.items[0]
            &&& after.items[1] == EntryView::Native(NativeItem::Separator)
            &&& after.items[2] == EntryView::Custom(settings_item_view())
            &&& forall|k: int| 1 <= k < before.items.len() ==> after.items[k + 2] == before.items[k]
        }),
{
    lemma_first_titled(menu, app_display_name);
}

/// A menu in which no top-level submenu is titled exactly as the application
/// comes back unchanged.
pub proof fn lemma_unchanged_without_app_submenu(menu: MenuView, app_display_name: Seq<char>)
    requires
        !menu.has_submenu_titled(app_display_name),
    ensures
        menu.with_settings(app_display_name) == menu,
{
    lemma_first_titled(menu, app_display_name);
}

/// Builds the "Settings" item.
pub fn settings_menu_item() -> (item: CustomItem)
    ensures
        item@ == settings_item_view(),
{
    CustomItem {
        id: String::from_str("show_settings"),
        title: String::from_str("Settings"),
        accelerator: Some(String::from_str("Cmd/Ctrl+,")),
        enabled: true,
        selected: false,
    }
}

/// Finds the application submenu: the first top-level submenu whose title is
/// exactly `app_display_name`.
pub fn find_app_submenu(menu: &Menu, app_display_name: &str) -> (place: Option<usize>)
    ensures
        place matches Some(i) ==> menu@.is_first_titled(i as int, app_display_name@),
        place is None ==> !menu@.has_submenu_titled(app_display_name@),
        place matches Some(i) ==> menu@.first_titled(app_display_name@) == Some(i as int),
        place is None ==> menu@.first_titled(app_display_name@) is None,
{
    let name = String::from_str(app_display_name);
    let mut i: usize = 0;
    while i < menu.items.len()
        invariant
            i <= menu.items.len(),
            name@ == app_display_name@,
            forall|j: int| 0 <= j < i ==> !is_submenu_titled(#[trigger] menu@.items[j], name@),
        decreases menu.items.len() - i,
    {
        match &menu.items[i] {
            MenuEntry::Submenu(sub) => {
                if sub.title == name {
                    proof {
                        lemma_first_titled(menu@, app_display_name@);
                    }
                    return Some(i);
                }
            },
            _ => {},
        }
        i += 1;
    }
    proof {
        lemma_first_titled(menu@, app_display_name@);
    }
    None
}

/// Puts a separator and the "Settings" item behind the first item of `items`.
pub fn insert_settings(items: &mut Vec<MenuEntry>)
    ensures
        entries_view(final(items)@) == with_settings_items(entries_view(old(items)@)),
{
    let at: usize = if items.len() == 0 { 0 } else { 1 };
    items.insert(at, MenuEntry::Custom(settings_menu_item()));
    items.insert(at, MenuEntry::Native(NativeItem::Separator));
    assert(entries_view(items@) =~= with_settings_items(entries_view(old(items)@)));
}

/// Puts the "Settings" item into the platform's default menu: a separator and
/// the item go behind the first item of the application submenu. Where no
/// top-level submenu is titled exactly `app_display_name`, the menu comes back
/// as it was: no other submenu is tried and none is made, so such a menu
/// shows no "Settings" item.
pub fn build_menu(default_menu: Menu, app_display_name: &str) -> (menu: Menu)
    ensures
        menu@ == default_menu@.with_settings(app_display_name@),
        !default_menu@.has_submenu_titled(app_display_name@) ==> menu == default_menu,
{
    let mut menu = default_menu;
    match find_app_submenu(&menu, app_display_name) {
        Some(i) => {
            match &mut menu.items[i] {
                MenuEntry::Submenu(sub) => {
                    insert_settings(&mut sub.items);
                },
                _ => {},
            }
            assert(menu@.items =~= default_menu@.with_settings(app_display_name@).items);
            menu
        },
        None => menu,
    }
}

} // verus!
