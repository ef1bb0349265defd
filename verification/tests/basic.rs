use powerpack::time::Duration;
use powerpack::{Data, Icon, IconInner, Item, Key, Kind, Modifier, Modifiers, Output, Text};

#[test]
fn smoke() {
    let item = Item::new("Desktop")
        .uid("desktop")
        .kind(Kind::File)
        .subtitle("~/Desktop")
        .arg("~/Desktop")
        .autocomplete("~/Desktop")
        .icon(Icon::with_file_icon("~/Desktop"));

    let mut output = Output::new();
    output.items(vec![item]);
    assert_eq!(
        output,
        Output {
            rerun: None,
            items: vec![Item {
                title: "Desktop".to_string(),
                subtitle: Some("~/Desktop".to_string()),
                uid: Some("desktop".to_string()),
                arg: Some("~/Desktop".to_string()),
                icon: Some(Icon(IconInner::FileIcon("~/Desktop".to_string()))),
                valid: None,
                matches: None,
                autocomplete: Some("~/Desktop".to_string()),
                kind: Kind::File,
                modifiers: Modifiers::new(),
                text: None,
                quicklook_url: None,
            }],
        }
    );
}

#[test]
fn all() {
    let item = Item::new("Hello world!")
        .subtitle("This is a subtitle")
        .uid("unique identifier")
        .arg("/path/to/file.jpg")
        .icon(Icon::with_type("public.jpeg"))
        .valid(true)
        .matches("use this to filter")
        .autocomplete("to this")
        .kind(Kind::FileSkipCheck)
        .copy_text("this text will be copied with ⌘C")
        .large_type_text("this text will be displayed with ⌘L")
        .modifier(Modifier::new(Key::Command).subtitle("⌘ changes the subtitle"))
        .modifier(Modifier::new(Key::Option).arg("/path/to/modified.jpg"))
        .modifier(Modifier::new(Key::Control).icon(Icon::with_image("/path/to/file.png")))
        .modifier(Modifier::new(Key::Shift).valid(false))
        .quicklook_url("https://example.com");

    let mut output = Output::new();
    output.rerun(Duration::from_millis(500)).items(vec![item]);

    let none = Data { subtitle: None, arg: None, icon: None, valid: None };
    assert_eq!(
        output,
        Output {
            rerun: Some(Duration::new(0, 500_000_000).unwrap()),
            items: vec![Item {
                title: "Hello world!".to_string(),
                subtitle: Some("This is a subtitle".to_string()),
                uid: Some("unique identifier".to_string()),
                arg: Some("/path/to/file.jpg".to_string()),
                icon: Some(Icon(IconInner::FileType("public.jpeg".to_string()))),
                valid: Some(true),
                matches: Some("use this to filter".to_string()),
                autocomplete: Some("to this".to_string()),
                kind: Kind::FileSkipCheck,
                modifiers: Modifiers {
                    command: Some(Data {
                        subtitle: Some("⌘ changes the subtitle".to_string()),
                        ..none.clone()
                    }),
                    option: Some(Data {
                        arg: Some("/path/to/modified.jpg".to_string()),
                        ..none.clone()
                    }),
                    control: Some(Data {
                        icon: Some(Icon(IconInner::Image("/path/to/file.png".to_string()))),
                        ..none.clone()
                    }),
                    shift: Some(Data { valid: Some(false), ..none.clone() }),
                    function: None,
                },
                text: Some(Text {
                    copy: Some("this text will be copied with ⌘C".to_string()),
                    large_type: Some("this text will be displayed with ⌘L".to_string()),
                }),
                quicklook_url: Some("https://example.com".to_string()),
            }],
        }
    );
}

#[test]
fn new_item_has_only_a_title() {
    let item = Item::new("Example title");
    assert_eq!(item.title, "Example title");
    assert_eq!(item.subtitle, None);
    assert_eq!(item.uid, None);
    assert_eq!(item.arg, None);
    assert_eq!(item.icon, None);
    assert_eq!(item.valid, None);
    assert_eq!(item.matches, None);
    assert_eq!(item.autocomplete, None);
    assert_eq!(item.kind, Kind::Default);
    assert!(item.modifiers.is_empty());
    assert_eq!(item.text, None);
    assert_eq!(item.quicklook_url, None);
}

#[test]
fn each_builder_sets_its_own_field() {
    let base = Item::new("t");
    assert_eq!(base.clone().subtitle("s"), Item { subtitle: Some("s".to_string()), ..base.clone() });
    assert_eq!(base.clone().uid("u"), Item { uid: Some("u".to_string()), ..base.clone() });
    assert_eq!(base.clone().arg("a"), Item { arg: Some("a".to_string()), ..base.clone() });
    assert_eq!(base.clone().valid(false), Item { valid: Some(false), ..base.clone() });
    assert_eq!(base.clone().matches("m"), Item { matches: Some("m".to_string()), ..base.clone() });
    assert_eq!(
        base.clone().autocomplete("c"),
        Item { autocomplete: Some("c".to_string()), ..base.clone() }
    );
    assert_eq!(base.clone().kind(Kind::File), Item { kind: Kind::File, ..base.clone() });
    assert_eq!(
        base.clone().quicklook_url("q"),
        Item { quicklook_url: Some("q".to_string()), ..base.clone() }
    );
    assert_eq!(
        base.clone().icon(Icon::with_image("i.png")),
        Item { icon: Some(Icon(IconInner::Image("i.png".to_string()))), ..base.clone() }
    );
}

#[test]
fn a_later_value_replaces_an_earlier_one() {
    let item = Item::new("t").subtitle("one").subtitle("two").valid(true).valid(false);
    assert_eq!(item.subtitle, Some("two".to_string()));
    assert_eq!(item.valid, Some(false));
}

#[test]
fn copy_and_large_type_keep_each_other() {
    let item = Item::new("t").copy_text("c");
    assert_eq!(item.text, Some(Text { copy: Some("c".to_string()), large_type: None }));
    let item = item.large_type_text("l");
    assert_eq!(
        item.text,
        Some(Text { copy: Some("c".to_string()), large_type: Some("l".to_string()) })
    );
    let item = item.copy_text("d");
    assert_eq!(
        item.text,
        Some(Text { copy: Some("d".to_string()), large_type: Some("l".to_string()) })
    );
    let item = Item::new("t").large_type_text("l");
    assert_eq!(item.text, Some(Text { copy: None, large_type: Some("l".to_string()) }));
}

#[test]
fn icons_keep_their_source() {
    assert_eq!(Icon::with_image("./assets/icon.png").0, IconInner::Image("./assets/icon.png".to_string()));
    assert_eq!(
        Icon::with_file_icon("/Applications/Safari.app").0,
        IconInner::FileIcon("/Applications/Safari.app".to_string())
    );
    assert_eq!(Icon::with_type("public.jpeg").0, IconInner::FileType("public.jpeg".to_string()));
}

#[test]
fn modifier_builders_set_their_own_field() {
    let m = Modifier::new(Key::Function);
    assert_eq!(m.key, Key::Function);
    assert_eq!(m.data, Data { subtitle: None, arg: None, icon: None, valid: None });
    let m = m.subtitle("s").arg("a").icon(Icon::with_type("public.png")).valid(true);
    assert_eq!(m.key, Key::Function);
    assert_eq!(
        m.data,
        Data {
            subtitle: Some("s".to_string()),
            arg: Some("a".to_string()),
            icon: Some(Icon(IconInner::FileType("public.png".to_string()))),
            valid: Some(true),
        }
    );
}

#[test]
fn a_modifier_replaces_the_one_of_its_key() {
    let item = Item::new("t")
        .modifier(Modifier::new(Key::Command).subtitle("first"))
        .modifier(Modifier::new(Key::Shift).arg("shifted"))
        .modifier(Modifier::new(Key::Command).arg("second"));
    assert_eq!(
        item.modifiers.get(Key::Command),
        Some(&Data { subtitle: None, arg: Some("second".to_string()), icon: None, valid: None })
    );
    assert_eq!(
        item.modifiers.get(Key::Shift),
        Some(&Data { subtitle: None, arg: Some("shifted".to_string()), icon: None, valid: None })
    );
    assert_eq!(item.modifiers.get(Key::Option), None);
    assert_eq!(item.modifiers.get(Key::Control), None);
    assert_eq!(item.modifiers.get(Key::Function), None);
    assert!(!item.modifiers.is_empty());
}

#[test]
fn modifiers_hold_one_setting_per_key() {
    let mut mods = Modifiers::new();
    assert!(mods.is_empty());
    let d = |s: &str| Data { subtitle: Some(s.to_string()), arg: None, icon: None, valid: None };
    for (key, name) in [
        (Key::Command, "cmd"),
        (Key::Option, "alt"),
        (Key::Control, "ctrl"),
        (Key::Shift, "shift"),
        (Key::Function, "fn"),
    ] {
        assert_eq!(mods.get(key), None);
        mods.insert(key, d(name));
        assert_eq!(mods.get(key), Some(&d(name)));
    }
    assert_eq!(mods.get(Key::Command), Some(&d("cmd")));
    mods.insert(Key::Option, d("other"));
    assert_eq!(mods.get(Key::Option), Some(&d("other")));
    assert_eq!(mods.get(Key::Control), Some(&d("ctrl")));
}

#[test]
fn output_collects_items_in_order() {
    let mut output = Output::new();
    assert_eq!(output.rerun, None);
    assert!(output.items.is_empty());
    output.items(vec![Item::new("a"), Item::new("b")]);
    output.items(vec![]);
    output.items(vec![Item::new("c")]);
    let titles: Vec<&str> = output.items.iter().map(|i| i.title.as_str()).collect();
    assert_eq!(titles, vec!["a", "b", "c"]);
    assert_eq!(output.rerun, None);
    output.rerun(Duration::from_secs(1));
    assert_eq!(output.rerun, Some(Duration::from_secs(1)));
    assert_eq!(output.items.len(), 3);
    assert_eq!(Output::default(), Output::new());
}

#[test]
fn the_default_kind_is_default() {
    assert_eq!(Kind::default(), Kind::Default);
    assert!(powerpack::is_default(&Kind::Default));
    assert!(!powerpack::is_default(&Kind::File));
    assert!(!powerpack::is_default(&Kind::FileSkipCheck));
}
