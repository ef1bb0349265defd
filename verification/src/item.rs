//! The rows that a script filter shows, as Alfred's script filter format
//! knows them.

use crate::text::text_of;
use crate::time::Duration;
use vstd::prelude::*;

verus! {

/// A keyboard modifier key.
#[derive(Debug, Copy, Clone, PartialEq, Eq, Hash)]
pub enum Key {
    /// ⌘
    Command,
    /// ⌥
    Option,
    /// ⌃
    Control,
    /// ⇧
    Shift,
    /// fn
    Function,
}

/// Where the picture of an icon comes from.
#[derive(Debug, Clone, PartialEq, Eq, Hash)]
pub enum IconInner {
    /// Load an image from a path.
    Image(String),
    /// An object whose icon should be shown.
    FileIcon(String),
    /// Uniform Type Identifier (UTI) icon.
    FileType(String),
}

/// An icon for an [`Item`].
///
/// If not provided the icon will default to the workflow icon.
#[derive(Debug, Clone, PartialEq, Eq, Hash)]
pub struct Icon(pub IconInner);

/// The type of item.
#[derive(Debug, Copy, Clone, PartialEq, Eq, Hash)]
pub enum Kind {
    /// An item like any other.
    Default,
    /// The item stands for a file, which Alfred checks to exist.
    File,
    /// The item stands for a file, which Alfred does not check.
    FileSkipCheck,
}

/// The texts that an item hands out on request.
#[derive(Debug, Clone, PartialEq, Eq, Hash)]
pub struct Text {
    /// Defines the text the user will get when copying the item (⌘+C).
    pub copy: Option<String>,
    /// Defines the text the user will see in large type (⌘+L).
    pub large_type: Option<String>,
}

/// What changes in an item while a modifier key is pressed.
#[derive(Debug, Clone, PartialEq, Eq, Hash)]
pub struct Data {
    /// The subtitle displayed in the result row.
    pub subtitle: Option<String>,
    /// The argument which is passed through to the output.
    pub arg: Option<String>,
    /// The icon displayed in the result row when the modifier is pressed.
    pub icon: Option<Icon>,
    /// Mark whether the item is valid when the modifier is pressed.
    pub valid: Option<bool>,
}

/// The modifier settings for an [`Item`] when a modifier key is pressed.
#[derive(Debug, Clone, PartialEq, Eq, Hash)]
pub struct Modifier {
    /// The modifier key.
    pub key: Key,
    /// The modifier data.
    pub data: Data,
}

/// The settings of an item for each modifier key that has some.
#[derive(Debug, Clone, PartialEq, Eq)]
pub struct Modifiers {
    /// The settings for ⌘.
    pub command: Option<Data>,
    /// The settings for ⌥.
    pub option: Option<Data>,
    /// The settings for ⌃.
    pub control: Option<Data>,
    /// The settings for ⇧.
    pub shift: Option<Data>,
    /// The settings for fn.
    pub function: Option<Data>,
}

/// An Alfred script filter item.
#[derive(Debug, Clone, PartialEq, Eq)]
pub struct Item {
    /// The title displayed in the result row.
    pub title: String,
    /// The subtitle displayed in the result row.
    pub subtitle: Option<String>,
    /// A unique identifier for the item.
    pub uid: Option<String>,
    /// The argument which is passed through to the output.
    pub arg: Option<String>,
    /// The icon displayed in the result row.
    pub icon: Option<Icon>,
    /// Whether this item is valid or not.
    pub valid: Option<bool>,
    /// Enables you to define what Alfred matches against.
    pub matches: Option<String>,
    /// Populates the search field when the user auto-completes the result.
    pub autocomplete: Option<String>,
    /// The type of item.
    pub kind: Kind,
    /// Control how the modifier keys react.
    pub modifiers: Modifiers,
    /// Defines the copied or large type text for this item.
    pub text: Option<Text>,
    /// A Quick Look URL which will be shown if the user uses Quick Look (⌘+Y).
    pub quicklook_url: Option<String>,
}

/// The output of a workflow (i.e. input for the script filter)
#[derive(Debug, Clone, PartialEq, Eq)]
pub struct Output {
    /// The interval after which to rerun the script filter.
    pub rerun: Option<Duration>,
    /// Each row item.
    pub items: Vec<Item>,
}

/// Whether `kind` is the kind that an item has unless it is given another.
pub fn is_default(kind: &Kind) -> (default: bool)
    ensures
        default == (*kind == Kind::Default),
{
    match kind {
        Kind::Default => true,
        _ => false,
    }
}

impl Key {
    /// What the script filter format calls the key.
    pub open spec fn spec_name(self) -> Seq<char> {
        match self {
            Key::Command => "cmd"@,
            Key::Option => "alt"@,
            Key::Control => "ctrl"@,
            Key::Shift => "shift"@,
            Key::Function => "fn"@,
        }
    }

    /// What the script filter format calls the key.
    pub fn name(&self) -> (name: &'static str)
        ensures
            name@ == self.spec_name(),
    {
        match self {
            Key::Command => "cmd",
            Key::Option => "alt",
            Key::Control => "ctrl",
            Key::Shift => "shift",
            Key::Function => "fn",
        }
    }
}

impl Kind {
    /// What the script filter format calls the kind.
    pub open spec fn spec_name(self) -> Seq<char> {
        match self {
            Kind::Default => "default"@,
            Kind::File => "file"@,
            Kind::FileSkipCheck => "file:skipcheck"@,
        }
    }

    /// What the script filter format calls the kind.
    pub fn name(&self) -> (name: &'static str)
        ensures
            name@ == self.spec_name(),
    {
        match self {
            Kind::Default => "default",
            Kind::File => "file",
            Kind::FileSkipCheck => "file:skipcheck",
        }
    }
}

impl Default for Kind {
    fn default() -> (kind: Kind)
        ensures
            kind == Kind::Default,
    {
        Kind::Default
    }
}

impl Icon {
    /// Where the picture comes from.
    pub open spec fn source(self) -> IconInner {
        self.0
    }

    /// What the script filter format calls the way the picture is found:
    /// nothing for an image, which is the format's own default.
    pub open spec fn spec_source_name(self) -> Option<Seq<char>> {
        match self.0 {
            IconInner::Image(_) => None,
            IconInner::FileIcon(_) => Some("fileicon"@),
            IconInner::FileType(_) => Some("filetype"@),
        }
    }

    /// The path of the image or of the file, or the type identifier.
    pub open spec fn spec_path(self) -> Seq<char> {
        match self.0 {
            IconInner::Image(path) => path@,
            IconInner::FileIcon(path) => path@,
            IconInner::FileType(uti) => uti@,
        }
    }

    /// What the script filter format calls the way the picture is found.
    pub fn source_name(&self) -> (name: Option<&'static str>)
        ensures
            match name {
                Some(n) => self.spec_source_name() == Some(n@),
                None => self.spec_source_name() is None,
            },
    {
        match &self.0 {
            IconInner::Image(_) => None,
            IconInner::FileIcon(_) => Some("fileicon"),
            IconInner::FileType(_) => Some("filetype"),
        }
    }

    /// The path of the image or of the file, or the type identifier.
    pub fn path(&self) -> (path: &str)
        ensures
            path@ == self.spec_path(),
    {
        match &self.0 {
            IconInner::Image(path) => path.as_str(),
            IconInner::FileIcon(path) => path.as_str(),
            IconInner::FileType(uti) => uti.as_str(),
        }
    }

    /// Create a new icon using the image at the given path.
    ///
    /// This path can be relative to the workflow directory.
    pub fn with_image(path: &str) -> (icon: Icon)
        ensures
            icon.source() matches IconInner::Image(p) && p@ == path@,
    {
        Icon(IconInner::Image(path.to_owned()))
    }

    /// Create a new icon based on the file provided.
    ///
    /// This path can be relative to the workflow directory.
    pub fn with_file_icon(path: &str) -> (icon: Icon)
        ensures
            icon.source() matches IconInner::FileIcon(p) && p@ == path@,
    {
        Icon(IconInner::FileIcon(path.to_owned()))
    }

    /// Create a new icon using an Apple Uniform Type Identifier (UTI).
    pub fn with_type(uti: &str) -> (icon: Icon)
        ensures
            icon.source() matches IconInner::FileType(t) && t@ == uti@,
    {
        Icon(IconInner::FileType(uti.to_owned()))
    }
}

impl Text {
    /// No text at all.
    pub open spec fn none() -> Text {
        Text { copy: None, large_type: None }
    }
}

/// The texts of an item, or no text where it has none yet.
pub open spec fn text_or_none(text: Option<Text>) -> Text {
    match text {
        Some(t) => t,
        None => Text::none(),
    }
}

impl Data {
    /// Nothing changes.
    pub open spec fn none() -> Data {
        Data { subtitle: None, arg: None, icon: None, valid: None }
    }
}

impl Modifier {
    /// Create a new modifier.
    #[must_use]
    pub fn new(key: Key) -> (m: Modifier)
        ensures
            m == (Modifier { key, data: Data::none() }),
    {
        Modifier { key, data: Data { subtitle: None, arg: None, icon: None, valid: None } }
    }

    /// The subtitle for when this modifier is activated.
    #[must_use]
    pub fn subtitle(self, subtitle: &str) -> (m: Modifier)
        ensures
            text_of(m.data.subtitle) == Some(subtitle@),
            m == (Modifier { data: Data { subtitle: m.data.subtitle, ..self.data }, ..self }),
    {
        let mut m = self;
        m.data.subtitle = Some(subtitle.to_owned());
        m
    }

    /// The arg for when this modifier is activated.
    #[must_use]
    pub fn arg(self, arg: &str) -> (m: Modifier)
        ensures
            text_of(m.data.arg) == Some(arg@),
            m == (Modifier { data: Data { arg: m.data.arg, ..self.data }, ..self }),
    {
        let mut m = self;
        m.data.arg = Some(arg.to_owned());
        m
    }

    /// The icon for when this modifier is activated.
    #[must_use]
    pub fn icon(self, icon: Icon) -> (m: Modifier)
        ensures
            m == (Modifier { data: Data { icon: Some(icon), ..self.data }, ..self }),
    {
        let mut m = self;
        m.data.icon = Some(icon);
        m
    }

    /// Whether this item is valid when the modifier is activated.
    #[must_use]
    pub fn valid(self, valid: bool) -> (m: Modifier)
        ensures
            m == (Modifier { data: Data { valid: Some(valid), ..self.data }, ..self }),
    {
        let mut m = self;
        m.data.valid = Some(valid);
        m
    }
}

/// The map `m`, with `key` set to what `slot` holds, where it holds
/// something.
pub open spec fn with_slot(m: Map<Key, Data>, key: Key, slot: Option<Data>) -> Map<Key, Data> {
    match slot {
        Some(data) => m.insert(key, data),
        None => m,
    }
}

impl View for Modifiers {
    type V = Map<Key, Data>;

    /// The settings by key.
    open spec fn view(&self) -> Map<Key, Data> {
        with_slot(
            with_slot(
                with_slot(
                    with_slot(
                        with_slot(Map::empty(), Key::Command, self.command),
                        Key::Option,
                        self.option,
                    ),
                    Key::Control,
                    self.control,
                ),
                Key::Shift,
                self.shift,
            ),
            Key::Function,
            self.function,
        )
    }
}

impl Modifiers {
    /// What is held for `key`.
    pub open spec fn slot(self, key: Key) -> Option<Data> {
        match key {
            Key::Command => self.command,
            Key::Option => self.option,
            Key::Control => self.control,
            Key::Shift => self.shift,
            Key::Function => self.function,
        }
    }

    /// The settings by key are what is held for each key.
    pub proof fn lemma_view_is_slots(self)
        ensures
            forall|key: Key| #[trigger]
                self@.contains_key(key) <==> self.slot(key) is Some,
            forall|key: Key| #[trigger]
                self@.contains_key(key) ==> self@[key] == self.slot(key)->0,
    {
    }

    /// Settings for no key.
    pub fn new() -> (m: Modifiers)
        ensures
            m@ == Map::<Key, Data>::empty(),
    {
        Modifiers { command: None, option: None, control: None, shift: None, function: None }
    }

    /// Whether no key has settings.
    pub fn is_empty(&self) -> (empty: bool)
        ensures
            empty == (self@ == Map::<Key, Data>::empty()),
    {
        let empty = self.command.is_none() && self.option.is_none() && self.control.is_none()
            && self.shift.is_none() && self.function.is_none();
        proof {
            self.lemma_view_is_slots();
            if empty {
                assert(self@ =~= Map::<Key, Data>::empty());
            } else {
                let key = if self.command is Some {
                    Key::Command
                } else if self.option is Some {
                    Key::Option
                } else if self.control is Some {
                    Key::Control
                } else if self.shift is Some {
                    Key::Shift
                } else {
                    Key::Function
                };
                assert(self@.contains_key(key));
            }
        }
        empty
    }

    /// The settings for `key`, where there are some.
    pub fn get(&self, key: Key) -> (data: Option<&Data>)
        ensures
            match data {
                Some(d) => self@.contains_key(key) && self@[key] == *d,
                None => !self@.contains_key(key),
            },
    {
        proof {
            self.lemma_view_is_slots();
        }
        match key {
            Key::Command => self.command.as_ref(),
            Key::Option => self.option.as_ref(),
            Key::Control => self.control.as_ref(),
            Key::Shift => self.shift.as_ref(),
            Key::Function => self.function.as_ref(),
        }
    }

    /// Gives `key` the settings `data`, in place of any it had.
    pub fn insert(&mut self, key: Key, data: Data)
        ensures
            final(self)@ == old(self)@.insert(key, data),
    {
        match key {
            Key::Command => {
                self.command = Some(data);
            },
            Key::Option => {
                self.option = Some(data);
            },
            Key::Control => {
                self.control = Some(data);
            },
            Key::Shift => {
                self.shift = Some(data);
            },
            Key::Function => {
                self.function = Some(data);
            },
        }
        proof {
            old(self).lemma_view_is_slots();
            self.lemma_view_is_slots();
            assert(self@ =~= old(self)@.insert(key, data));
        }
    }
}

impl Item {
    /// The item that has the title `title` and nothing else.
    pub open spec fn titled(title: String) -> Item {
        Item {
            title,
            subtitle: None,
            uid: None,
            arg: None,
            icon: None,
            valid: None,
            matches: None,
            autocomplete: None,
            kind: Kind::Default,
            modifiers: Modifiers {
                command: None,
                option: None,
                control: None,
                shift: None,
                function: None,
            },
            text: None,
            quicklook_url: None,
        }
    }

    /// Create a new item with the provided title.
    #[must_use]
    pub fn new(title: &str) -> (item: Item)
        ensures
            item.title@ == title@,
            item == Item::titled(item.title),
    {
        Item {
            title: title.to_owned(),
            subtitle: None,
            uid: None,
            arg: None,
            icon: None,
            valid: None,
            matches: None,
            autocomplete: None,
            kind: Kind::Default,
            modifiers: Modifiers {
                command: None,
                option: None,
                control: None,
                shift: None,
                function: None,
            },
            text: None,
            quicklook_url: None,
        }
    }

    /// Set the subtitle for this item.
    #[must_use]
    pub fn subtitle(self, subtitle: &str) -> (item: Item)
        ensures
            text_of(item.subtitle) == Some(subtitle@),
            item == (Item { subtitle: item.subtitle, ..self }),
    {
        let mut item = self;
        item.subtitle = Some(subtitle.to_owned());
        item
    }

    /// Set the UID for this item.
    ///
    /// This is a unique identifier for the item which allows help Alfred to
    /// learn about this item for subsequent sorting and ordering of the user's
    /// actioned results.
    #[must_use]
    pub fn uid(self, uid: &str) -> (item: Item)
        ensures
            text_of(item.uid) == Some(uid@),
            item == (Item { uid: item.uid, ..self }),
    {
        let mut item = self;
        item.uid = Some(uid.to_owned());
        item
    }

    /// Set the argument which is passed through the workflow to the connected
    /// output action.
    #[must_use]
    pub fn arg(self, arg: &str) -> (item: Item)
        ensures
            text_of(item.arg) == Some(arg@),
            item == (Item { arg: item.arg, ..self }),
    {
        let mut item = self;
        item.arg = Some(arg.to_owned());
        item
    }

    /// Set the icon displayed in the result row.
    #[must_use]
    pub fn icon(self, icon: Icon) -> (item: Item)
        ensures
            item == (Item { icon: Some(icon), ..self }),
    {
        let mut item = self;
        item.icon = Some(icon);
        item
    }

    /// Set whether this item is valid or not.
    ///
    /// If an item is valid then Alfred will action this item when the user
    /// presses return.
    #[must_use]
    pub fn valid(self, valid: bool) -> (item: Item)
        ensures
            item == (Item { valid: Some(valid), ..self }),
    {
        let mut item = self;
        item.valid = Some(valid);
        item
    }

    /// Set the text that Alfred will match against.
    ///
    /// If match is present, it fully replaces matching on the title property.
    #[must_use]
    pub fn matches(self, matches: &str) -> (item: Item)
        ensures
            text_of(item.matches) == Some(matches@),
            item == (Item { matches: item.matches, ..self }),
    {
        let mut item = self;
        item.matches = Some(matches.to_owned());
        item
    }

    /// Set the autocomplete value for this item.
    #[must_use]
    pub fn autocomplete(self, autocomplete: &str) -> (item: Item)
        ensures
            text_of(item.autocomplete) == Some(autocomplete@),
            item == (Item { autocomplete: item.autocomplete, ..self }),
    {
        let mut item = self;
        item.autocomplete = Some(autocomplete.to_owned());
        item
    }

    /// Set the type of item.
    #[must_use]
    pub fn kind(self, kind: Kind) -> (item: Item)
        ensures
            item == (Item { kind, ..self }),
    {
        let mut item = self;
        item.kind = kind;
        item
    }

    /// Set the text the user will get when copying the selected result row
    /// with ⌘C. The text for large type stays as it is.
    #[must_use]
    pub fn copy_text(self, copy: &str) -> (item: Item)
        ensures
            item.text is Some,
            text_of(item.text->0.copy) == Some(copy@),
            item.text->0.large_type == text_or_none(self.text).large_type,
            item == (Item { text: item.text, ..self }),
    {
        let mut item = self;
        let large_type = match item.text {
            Some(text) => text.large_type,
            None => None,
        };
        item.text = Some(Text { copy: Some(copy.to_owned()), large_type });
        item
    }

    /// Set the text the user will get when displaying large type with ⌘L.
    /// The text for copying stays as it is.
    #[must_use]
    pub fn large_type_text(self, large_type: &str) -> (item: Item)
        ensures
            item.text is Some,
            text_of(item.text->0.large_type) == Some(large_type@),
            item.text->0.copy == text_or_none(self.text).copy,
            item == (Item { text: item.text, ..self }),
    {
        let mut item = self;
        let copy = match item.text {
            Some(text) => text.copy,
            None => None,
        };
        item.text = Some(Text { copy, large_type: Some(large_type.to_owned()) });
        item
    }

    /// Set the Quick Look URL for the item.
    #[must_use]
    pub fn quicklook_url(self, quicklook_url: &str) -> (item: Item)
        ensures
            text_of(item.quicklook_url) == Some(quicklook_url@),
            item == (Item { quicklook_url: item.quicklook_url, ..self }),
    {
        let mut item = self;
        item.quicklook_url = Some(quicklook_url.to_owned());
        item
    }

    /// Add a modifier key configuration: the key of `modifier` gets its
    /// settings, in place of any it had; the other keys keep theirs.
    #[must_use]
    pub fn modifier(self, modifier: Modifier) -> (item: Item)
        ensures
            item.modifiers@ == self.modifiers@.insert(modifier.key, modifier.data),
            item == (Item { modifiers: item.modifiers, ..self }),
    {
        let mut item = self;
        let Modifier { key, data } = modifier;
        item.modifiers.insert(key, data);
        item
    }
}

impl Output {
    /// Create a new output.
    #[must_use]
    pub fn new() -> (output: Output)
        ensures
            output.rerun is None,
            output.items@ == Seq::<Item>::empty(),
    {
        Output { rerun: None, items: Vec::new() }
    }

    /// Set the rerun value.
    ///
    /// Scripts can be set to re-run automatically after an interval with a
    /// value of 0.1 to 5.0 seconds.
    pub fn rerun(&mut self, duration: Duration) -> (output: &mut Output)
        ensures
            output.rerun == Some(duration),
            output.items == old(self).items,
            *final(self) == *final(output),
    {
        self.rerun = Some(duration);
        self
    }

    /// Extend the list of items to output: the new ones come behind those
    /// that are there, in their order.
    pub fn items(&mut self, items: Vec<Item>) -> (output: &mut Output)
        ensures
            output.items@ == old(self).items@ + items@,
            output.rerun == old(self).rerun,
            *final(self) == *final(output),
    {
        let mut items = items;
        self.items.append(&mut items);
        self
    }
}

impl Default for Output {
    fn default() -> (output: Output)
        ensures
            output.rerun is None,
            output.items@ == Seq::<Item>::empty(),
    {
        Output::new()
    }
}

} // verus!
