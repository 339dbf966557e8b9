use settings_shell::menu::{
    build_menu, find_app_submenu, insert_settings, settings_menu_item, CustomItem, Menu, MenuEntry,
    NativeItem, Submenu,
};

fn native(item: NativeItem) -> MenuEntry {
    MenuEntry::Native(item)
}

fn submenu(title: &str, items: Vec<MenuEntry>) -> MenuEntry {
    MenuEntry::Submenu(Submenu { title: title.to_string(), enabled: true, items })
}

fn settings_entry() -> MenuEntry {
    MenuEntry::Custom(CustomItem {
        id: "show_settings".to_string(),
        title: "Settings".to_string(),
        accelerator: Some("Cmd/Ctrl+,".to_string()),
        enabled: true,
        selected: false,
    })
}

fn app_items() -> Vec<MenuEntry> {
    vec![
        native(NativeItem::About),
        native(NativeItem::Separator),
        native(NativeItem::Services),
        native(NativeItem::Separator),
        native(NativeItem::Hide),
        native(NativeItem::HideOthers),
        native(NativeItem::ShowAll),
        native(NativeItem::Separator),
        native(NativeItem::Quit),
    ]
}

fn shared_menus() -> Vec<MenuEntry> {
    vec![
        submenu("File", vec![native(NativeItem::CloseWindow)]),
        submenu(
            "Edit",
            vec![
                native(NativeItem::Undo),
                native(NativeItem::Redo),
                native(NativeItem::Separator),
                native(NativeItem::Cut),
                native(NativeItem::Copy),
                native(NativeItem::Paste),
                native(NativeItem::SelectAll),
            ],
        ),
        submenu("View", vec![native(NativeItem::EnterFullScreen)]),
        submenu(
            "Window",
            vec![
                native(NativeItem::Minimize),
                native(NativeItem::Zoom),
                native(NativeItem::Separator),
                native(NativeItem::CloseWindow),
            ],
        ),
    ]
}

/// A default menu as a platform with an application submenu makes it.
fn menu_with_app_submenu(name: &str) -> Menu {
    let mut items = vec![submenu(name, app_items())];
    items.extend(shared_menus());
    Menu { items }
}

/// A default menu as a platform without an application submenu makes it.
fn menu_without_app_submenu() -> Menu {
    Menu { items: shared_menus() }
}

#[test]
fn settings_item_has_its_id_title_and_accelerator() {
    let item = settings_menu_item();
    assert_eq!(item.id, "show_settings");
    assert_eq!(item.title, "Settings");
    assert_eq!(item.accelerator, Some("Cmd/Ctrl+,".to_string()));
    assert!(item.enabled);
    assert!(!item.selected);
}

#[test]
fn settings_follow_about_in_the_app_submenu() {
    let built = build_menu(menu_with_app_submenu("Notes"), "Notes");
    let expected_items = vec![
        native(NativeItem::About),
        native(NativeItem::Separator),
        settings_entry(),
        native(NativeItem::Separator),
        native(NativeItem::Services),
        native(NativeItem::Separator),
        native(NativeItem::Hide),
        native(NativeItem::HideOthers),
        native(NativeItem::ShowAll),
        native(NativeItem::Separator),
        native(NativeItem::Quit),
    ];
    let mut expected = vec![submenu("Notes", expected_items)];
    expected.extend(shared_menus());
    assert_eq!(built, Menu { items: expected });
}

#[test]
fn every_other_item_moves_two_places() {
    let before = app_items();
    let built = build_menu(menu_with_app_submenu("Notes"), "Notes");
    let after = match &built.items[0] {
        MenuEntry::Submenu(sub) => &sub.items,
        other => panic!("not a submenu: {:?}", other),
    };
    assert_eq!(after.len(), before.len() + 2);
    assert_eq!(after[0], before[0]);
    assert_eq!(after[1], native(NativeItem::Separator));
    assert_eq!(after[2], settings_entry());
    for k in 1..before.len() {
        assert_eq!(after[k + 2], before[k]);
    }
}

#[test]
fn menu_without_app_submenu_is_unchanged() {
    let built = build_menu(menu_without_app_submenu(), "Notes");
    assert_eq!(built, menu_without_app_submenu());
}

#[test]
fn empty_menu_is_unchanged() {
    let built = build_menu(Menu { items: vec![] }, "Notes");
    assert_eq!(built, Menu { items: vec![] });
}

#[test]
fn title_must_match_exactly() {
    assert_eq!(build_menu(menu_with_app_submenu("Notes"), "notes"), menu_with_app_submenu("Notes"));
    assert_eq!(build_menu(menu_with_app_submenu("Notes"), "Note"), menu_with_app_submenu("Notes"));
    assert_eq!(build_menu(menu_with_app_submenu("Notes"), "Notes "), menu_with_app_submenu("Notes"));
    assert_eq!(build_menu(menu_with_app_submenu("Notes"), ""), menu_with_app_submenu("Notes"));
}

#[test]
fn an_app_named_like_a_shared_menu_gets_the_item_there() {
    let built = build_menu(menu_without_app_submenu(), "Window");
    let mut expected = shared_menus();
    expected[3] = submenu(
        "Window",
        vec![
            native(NativeItem::Minimize),
            native(NativeItem::Separator),
            settings_entry(),
            native(NativeItem::Zoom),
            native(NativeItem::Separator),
            native(NativeItem::CloseWindow),
        ],
    );
    assert_eq!(built, Menu { items: expected });
}

#[test]
fn only_the_first_submenu_of_that_title_changes() {
    let menu = Menu {
        items: vec![
            native(NativeItem::Separator),
            submenu("Notes", vec![native(NativeItem::About), native(NativeItem::Quit)]),
            submenu("Notes", vec![native(NativeItem::About), native(NativeItem::Quit)]),
        ],
    };
    let built = build_menu(menu, "Notes");
    let expected = Menu {
        items: vec![
            native(NativeItem::Separator),
            submenu(
                "Notes",
                vec![
                    native(NativeItem::About),
                    native(NativeItem::Separator),
                    settings_entry(),
                    native(NativeItem::Quit),
                ],
            ),
            submenu("Notes", vec![native(NativeItem::About), native(NativeItem::Quit)]),
        ],
    };
    assert_eq!(built, expected);
}

#[test]
fn a_nested_submenu_of_that_title_is_not_the_app_submenu() {
    let nested = || Menu {
        items: vec![submenu(
            "File",
            vec![submenu("Notes", vec![native(NativeItem::About)]), native(NativeItem::Quit)],
        )],
    };
    assert_eq!(find_app_submenu(&nested(), "Notes"), None);
    assert_eq!(build_menu(nested(), "Notes"), nested());
}

#[test]
fn a_custom_item_titled_like_the_app_is_no_submenu() {
    let menu = || Menu {
        items: vec![MenuEntry::Custom(CustomItem {
            id: "notes".to_string(),
            title: "Notes".to_string(),
            accelerator: None,
            enabled: true,
            selected: false,
        })],
    };
    assert_eq!(find_app_submenu(&menu(), "Notes"), None);
    assert_eq!(build_menu(menu(), "Notes"), menu());
}

#[test]
fn another_first_item_still_comes_first() {
    let menu = Menu { items: vec![submenu("Notes", vec![native(NativeItem::Quit)])] };
    let built = build_menu(menu, "Notes");
    let expected = Menu {
        items: vec![submenu(
            "Notes",
            vec![native(NativeItem::Quit), native(NativeItem::Separator), settings_entry()],
        )],
    };
    assert_eq!(built, expected);
}

#[test]
fn an_empty_app_submenu_gets_the_two_items() {
    let menu = Menu { items: vec![submenu("Notes", vec![])] };
    let built = build_menu(menu, "Notes");
    let expected = Menu {
        items: vec![submenu("Notes", vec![native(NativeItem::Separator), settings_entry()])],
    };
    assert_eq!(built, expected);
}

#[test]
fn a_disabled_app_submenu_stays_disabled() {
    let menu = Menu {
        items: vec![MenuEntry::Submenu(Submenu {
            title: "Notes".to_string(),
            enabled: false,
            items: vec![native(NativeItem::About)],
        })],
    };
    let built = build_menu(menu, "Notes");
    let expected = Menu {
        items: vec![MenuEntry::Submenu(Submenu {
            title: "Notes".to_string(),
            enabled: false,
            items: vec![native(NativeItem::About), native(NativeItem::Separator), settings_entry()],
        })],
    };
    assert_eq!(built, expected);
}

#[test]
fn find_app_submenu_gives_the_first_place() {
    assert_eq!(find_app_submenu(&menu_with_app_submenu("Notes"), "Notes"), Some(0));
    assert_eq!(find_app_submenu(&menu_with_app_submenu("Notes"), "File"), Some(1));
    assert_eq!(find_app_submenu(&menu_with_app_submenu("Notes"), "Window"), Some(4));
    assert_eq!(find_app_submenu(&menu_with_app_submenu("Notes"), "Help"), None);
    assert_eq!(find_app_submenu(&menu_without_app_submenu(), "Notes"), None);
    assert_eq!(find_app_submenu(&Menu { items: vec![] }, "Notes"), None);
    let twice = Menu {
        items: vec![native(NativeItem::Quit), submenu("Notes", vec![]), submenu("Notes", vec![])],
    };
    assert_eq!(find_app_submenu(&twice, "Notes"), Some(1));
}

#[test]
fn insert_settings_goes_behind_the_first_item() {
    let mut items = vec![native(NativeItem::About), native(NativeItem::Quit)];
    insert_settings(&mut items);
    assert_eq!(
        items,
        vec![
            native(NativeItem::About),
            native(NativeItem::Separator),
            settings_entry(),
            native(NativeItem::Quit),
        ]
    );

    let mut one = vec![native(NativeItem::About)];
    insert_settings(&mut one);
    assert_eq!(one, vec![native(NativeItem::About), native(NativeItem::Separator), settings_entry()]);

    let mut none: Vec<MenuEntry> = vec![];
    insert_settings(&mut none);
    assert_eq!(none, vec![native(NativeItem::Separator), settings_entry()]);
}

#[test]
fn building_twice_puts_the_item_in_twice() {
    let once = build_menu(menu_with_app_submenu("Notes"), "Notes");
    let twice = build_menu(once, "Notes");
    let after = match &twice.items[0] {
        MenuEntry::Submenu(sub) => &sub.items,
        other => panic!("not a submenu: {:?}", other),
    };
    assert_eq!(after.len(), app_items().len() + 4);
    assert_eq!(after[0], native(NativeItem::About));
    assert_eq!(after[1], native(NativeItem::Separator));
    assert_eq!(after[2], settings_entry());
    assert_eq!(after[3], native(NativeItem::Separator));
    assert_eq!(after[4], settings_entry());
    assert_eq!(after[5], native(NativeItem::Separator));
    assert_eq!(after[6], native(NativeItem::Services));
}
