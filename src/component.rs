use vstd::prelude::*;
use vstd::string::StringExecFns;

use crate::component_type::ComponentType;
use crate::json::{members_view, JsonV, Member};

verus! {

broadcast use vstd::std_specs::vec::group_vec_axioms;

/// A payload field that decoding may find missing or malformed.
#[derive(Debug, Clone, Copy, PartialEq, Eq, Structural)]
pub enum Field {
    Components,
    Content,
    Media,
    Description,
    Spoiler,
    Items,
    File,
    Divider,
    Spacer,
    Label,
    Component,
    Url,
    ProxyUrl,
    Height,
    Width,
    ContentType,
}

/// Why a JSON value is not a component.
#[derive(Debug, Clone, Copy, PartialEq, Eq, Structural)]
pub enum ComponentError {
    /// The value has no `type` member holding an unsigned integer.
    TypeNotInteger,
    /// `type` holds an integer that names no component kind.
    InvalidType(u64),
    /// A required payload field is absent.
    MissingField(Field),
    /// A payload field holds a value of the wrong shape.
    InvalidField(Field),
}

/// The JSON key of each field.
pub open spec fn field_key(f: Field) -> Seq<char> {
    match f {
        Field::Components => "components"@,
        Field::Content => "content"@,
        Field::Media => "media"@,
        Field::Description => "description"@,
        Field::Spoiler => "spoiler"@,
        Field::Items => "items"@,
        Field::File => "file"@,
        Field::Divider => "divider"@,
        Field::Spacer => "spacer"@,
        Field::Label => "label"@,
        Field::Component => "component"@,
        Field::Url => "url"@,
        Field::ProxyUrl => "proxy_url"@,
        Field::Height => "height"@,
        Field::Width => "width"@,
        Field::ContentType => "content_type"@,
    }
}

impl Field {
    /// The JSON key of this field.
    pub fn key(self) -> (r: &'static str)
        ensures
            r@ == field_key(self),
    {
        match self {
            Field::Components => "components",
            Field::Content => "content",
            Field::Media => "media",
            Field::Description => "description",
            Field::Spoiler => "spoiler",
            Field::Items => "items",
            Field::File => "file",
            Field::Divider => "divider",
            Field::Spacer => "spacer",
            Field::Label => "label",
            Field::Component => "component",
            Field::Url => "url",
            Field::ProxyUrl => "proxy_url",
            Field::Height => "height",
            Field::Width => "width",
            Field::ContentType => "content_type",
        }
    }
}

/// The decimal digit of `d`, which is below ten.
pub open spec fn digit_char(d: nat) -> char {
    if d == 0 { '0' } else if d == 1 { '1' } else if d == 2 { '2' } else if d == 3 { '3' }
    else if d == 4 { '4' } else if d == 5 { '5' } else if d == 6 { '6' } else if d == 7 { '7' }
    else if d == 8 { '8' } else { '9' }
}

/// The decimal numeral of `n`, without leading zeros.
pub open spec fn decimal(n: nat) -> Seq<char>
    decreases n,
{
    if n < 10 {
        seq![digit_char(n)]
    } else {
        decimal(n / 10).push(digit_char(n % 10))
    }
}

/// Relies on `u64`'s `ToString` (through `Display`): the decimal numeral.
#[verifier::external_body]
fn decimal_string(n: u64) -> (r: String)
    ensures
        r@ == decimal(n as nat),
{
    n.to_string()
}

/// The text of a component error.
pub open spec fn component_error_text(e: ComponentError) -> Seq<char> {
    match e {
        ComponentError::TypeNotInteger => "component type was not an integer"@,
        ComponentError::InvalidType(n) => "invalid component type \""@ + decimal(n as nat) + "\""@,
        ComponentError::MissingField(f) => "missing field `"@ + field_key(f) + "`"@,
        ComponentError::InvalidField(f) => "invalid value for field `"@ + field_key(f) + "`"@,
    }
}

impl ComponentError {
    /// The text of this error; an invalid type names the offending number.
    pub fn message(&self) -> (r: String)
        ensures
            r@ == component_error_text(*self),
    {
        match self {
            ComponentError::TypeNotInteger => String::from_str("component type was not an integer"),
            ComponentError::InvalidType(n) => {
                let mut s = String::from_str("invalid component type \"");
                let digits = decimal_string(*n);
                s.append(digits.as_str());
                s.append("\"");
                s
            },
            ComponentError::MissingField(f) => {
                let mut s = String::from_str("missing field `");
                s.append(f.key());
                s.append("`");
                s
            },
            ComponentError::InvalidField(f) => {
                let mut s = String::from_str("invalid value for field `");
                s.append(f.key());
                s.append("`");
                s
            },
        }
    }
}

/// A media resource that a component refers to.
#[derive(Debug)]
pub struct UnfurledMediaItem {
    pub url: Option<String>,
    pub proxy_url: Option<String>,
    pub height: Option<u32>,
    pub width: Option<u32>,
    pub content_type: Option<String>,
}

/// A row of interactive components.
#[derive(Debug)]
pub struct ActionRow {
    pub kind: ComponentType,
    pub components: Vec<Component>,
}

/// A button; its attributes are kept as the object's members other than `type`.
#[derive(Debug)]
pub struct Button {
    pub kind: ComponentType,
    pub attributes: Vec<Member>,
}

/// A select menu of any of the five select kinds; `kind` keeps which one.
#[derive(Debug)]
pub struct SelectMenu {
    pub kind: ComponentType,
    pub attributes: Vec<Member>,
}

/// A text input; its attributes are kept as the object's members other than `type`.
#[derive(Debug)]
pub struct InputText {
    pub kind: ComponentType,
    pub attributes: Vec<Member>,
}

#[derive(Debug)]
pub struct Section {
    pub kind: ComponentType,
    pub components: Vec<Component>,
    pub accessory: Option<Component>,
}

#[derive(Debug)]
pub struct TextDisplay {
    pub kind: ComponentType,
    pub content: String,
}

#[derive(Debug)]
pub struct Thumbnail {
    pub kind: ComponentType,
    pub media: UnfurledMediaItem,
    pub description: Option<String>,
    pub spoiler: Option<bool>,
}

#[derive(Debug)]
pub struct MediaGallery {
    pub kind: ComponentType,
    pub items: Vec<UnfurledMediaItem>,
}

#[derive(Debug)]
pub struct File {
    pub kind: ComponentType,
    pub file: UnfurledMediaItem,
    pub spoiler: Option<bool>,
}

#[derive(Debug)]
pub struct Separator {
    pub kind: ComponentType,
    pub divider: Option<bool>,
    pub spacer: Option<u32>,
}

#[derive(Debug)]
pub struct Container {
    pub kind: ComponentType,
    pub components: Vec<Component>,
}

#[derive(Debug)]
pub struct Label {
    pub kind: ComponentType,
    pub label: Option<String>,
    pub description: Option<String>,
    pub component: Component,
}

/// A UI component: one payload per variant, the five select kinds sharing one.
#[derive(Debug)]
pub enum Component {
    ActionRow(Box<ActionRow>),
    Button(Box<Button>),
    SelectMenu(Box<SelectMenu>),
    InputText(Box<InputText>),
    Section(Box<Section>),
    TextDisplay(Box<TextDisplay>),
    Thumbnail(Box<Thumbnail>),
    MediaGallery(Box<MediaGallery>),
    File(Box<File>),
    Separator(Box<Separator>),
    Container(Box<Container>),
    Label(Box<Label>),
}

/// The value of a media item.
pub struct MediaV {
    pub url: Option<Seq<char>>,
    pub proxy_url: Option<Seq<char>>,
    pub height: Option<u32>,
    pub width: Option<u32>,
    pub content_type: Option<Seq<char>>,
}

pub type MembersV = Seq<(Seq<char>, JsonV)>;

/// The value of a component.
pub enum ComponentV {
    ActionRow { kind: ComponentType, components: Seq<ComponentV> },
    Button { kind: ComponentType, attributes: MembersV },
    SelectMenu { kind: ComponentType, attributes: MembersV },
    InputText { kind: ComponentType, attributes: MembersV },
    Section { kind: ComponentType, components: Seq<ComponentV>, accessory: Option<Box<ComponentV>> },
    TextDisplay { kind: ComponentType, content: Seq<char> },
    Thumbnail { kind: ComponentType, media: MediaV, description: Option<Seq<char>>, spoiler: Option<bool> },
    MediaGallery { kind: ComponentType, items: Seq<MediaV> },
    File { kind: ComponentType, file: MediaV, spoiler: Option<bool> },
    Separator { kind: ComponentType, divider: Option<bool>, spacer: Option<u32> },
    Container { kind: ComponentType, components: Seq<ComponentV> },
    Label { kind: ComponentType, label: Option<Seq<char>>, description: Option<Seq<char>>, component: Box<ComponentV> },
}

pub open spec fn opt_str_view(o: Option<String>) -> Option<Seq<char>> {
    match o {
        Some(s) => Some(s@),
        None => None,
    }
}


impl UnfurledMediaItem {
    pub open spec fn view(&self) -> MediaV {
        MediaV {
            url: opt_str_view(self.url),
            proxy_url: opt_str_view(self.proxy_url),
            height: self.height,
            width: self.width,
            content_type: opt_str_view(self.content_type),
        }
    }
}

pub open spec fn media_views(s: Seq<UnfurledMediaItem>) -> Seq<MediaV> {
    Seq::new(s.len(), |i: int| s[i]@)
}

impl Component {
    pub open spec fn view(&self) -> ComponentV
        decreases self,
    {
        match self {
            Component::ActionRow(p) => ComponentV::ActionRow {
                kind: p.kind,
                components: Seq::new(p.components@.len(), |i: int|
                    if 0 <= i < p.components@.len() { p.components@[i].view() } else { ComponentV::Container { kind: p.kind, components: Seq::empty() } }),
            },
            Component::Button(p) => ComponentV::Button { kind: p.kind, attributes: members_view(p.attributes@) },
            Component::SelectMenu(p) => ComponentV::SelectMenu { kind: p.kind, attributes: members_view(p.attributes@) },
            Component::InputText(p) => ComponentV::InputText { kind: p.kind, attributes: members_view(p.attributes@) },
            Component::Section(p) => ComponentV::Section {
                kind: p.kind,
                components: Seq::new(p.components@.len(), |i: int|
                    if 0 <= i < p.components@.len() { p.components@[i].view() } else { ComponentV::Container { kind: p.kind, components: Seq::empty() } }),
                accessory: match &p.accessory {
                    Some(a) => Some(Box::new(a.view())),
                    None => None,
                },
            },
            Component::TextDisplay(p) => ComponentV::TextDisplay { kind: p.kind, content: p.content@ },
            Component::Thumbnail(p) => ComponentV::Thumbnail {
                kind: p.kind,
                media: p.media@,
                description: opt_str_view(p.description),
                spoiler: p.spoiler,
            },
            Component::MediaGallery(p) => ComponentV::MediaGallery { kind: p.kind, items: media_views(p.items@) },
            Component::File(p) => ComponentV::File { kind: p.kind, file: p.file@, spoiler: p.spoiler },
            Component::Separator(p) => ComponentV::Separator { kind: p.kind, divider: p.divider, spacer: p.spacer },
            Component::Container(p) => ComponentV::Container {
                kind: p.kind,
                components: Seq::new(p.components@.len(), |i: int|
                    if 0 <= i < p.components@.len() { p.components@[i].view() } else { ComponentV::Container { kind: p.kind, components: Seq::empty() } }),
            },
            Component::Label(p) => ComponentV::Label {
                kind: p.kind,
                label: opt_str_view(p.label),
                description: opt_str_view(p.description),
                component: Box::new(p.component.view()),
            },
        }
    }
}

pub open spec fn component_views(s: Seq<Component>) -> Seq<ComponentV> {
    Seq::new(s.len(), |i: int| s[i]@)
}

} // verus!
