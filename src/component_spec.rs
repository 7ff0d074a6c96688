use vstd::prelude::*;

use crate::component::{ComponentError, ComponentV, Field, MediaV, MembersV};
use crate::component_type::{code_of, type_of_code, ComponentType};
use crate::json::{lemma_member_decreases, member_v, JsonV, NumberV};

verus! {

/// An optional string field: absent or null is `None`.
pub open spec fn opt_str_v(ms: MembersV, key: Seq<char>, f: Field) -> Result<Option<Seq<char>>, ComponentError> {
    match member_v(ms, key) {
        None => Ok(None),
        Some(JsonV::Null) => Ok(None),
        Some(JsonV::Str(s)) => Ok(Some(s)),
        Some(_) => Err(ComponentError::InvalidField(f)),
    }
}

/// An optional boolean field: absent or null is `None`.
pub open spec fn opt_bool_v(ms: MembersV, key: Seq<char>, f: Field) -> Result<Option<bool>, ComponentError> {
    match member_v(ms, key) {
        None => Ok(None),
        Some(JsonV::Null) => Ok(None),
        Some(JsonV::Bool(b)) => Ok(Some(b)),
        Some(_) => Err(ComponentError::InvalidField(f)),
    }
}

/// An optional field holding an integer that fits in 32 bits.
pub open spec fn opt_u32_v(ms: MembersV, key: Seq<char>, f: Field) -> Result<Option<u32>, ComponentError> {
    match member_v(ms, key) {
        None => Ok(None),
        Some(JsonV::Null) => Ok(None),
        Some(JsonV::Number(NumberV::Unsigned(n))) => if n <= u32::MAX {
            Ok(Some(n as u32))
        } else {
            Err(ComponentError::InvalidField(f))
        },
        Some(_) => Err(ComponentError::InvalidField(f)),
    }
}

/// A required string field.
pub open spec fn req_str_v(ms: MembersV, key: Seq<char>, f: Field) -> Result<Seq<char>, ComponentError> {
    match member_v(ms, key) {
        None => Err(ComponentError::MissingField(f)),
        Some(JsonV::Str(s)) => Ok(s),
        Some(_) => Err(ComponentError::InvalidField(f)),
    }
}

/// A media item read from a JSON object; its fields are read in declaration order.
pub open spec fn media_v(j: JsonV, f: Field) -> Result<MediaV, ComponentError> {
    match j {
        JsonV::Object(ms) => {
            let url = opt_str_v(ms, "url"@, Field::Url);
            let proxy_url = opt_str_v(ms, "proxy_url"@, Field::ProxyUrl);
            let height = opt_u32_v(ms, "height"@, Field::Height);
            let width = opt_u32_v(ms, "width"@, Field::Width);
            let content_type = opt_str_v(ms, "content_type"@, Field::ContentType);
            if url is Err {
                Err(url->Err_0)
            } else if proxy_url is Err {
                Err(proxy_url->Err_0)
            } else if height is Err {
                Err(height->Err_0)
            } else if width is Err {
                Err(width->Err_0)
            } else if content_type is Err {
                Err(content_type->Err_0)
            } else {
                Ok(MediaV {
                    url: url->Ok_0,
                    proxy_url: proxy_url->Ok_0,
                    height: height->Ok_0,
                    width: width->Ok_0,
                    content_type: content_type->Ok_0,
                })
            }
        },
        _ => Err(ComponentError::InvalidField(f)),
    }
}

/// A list of media items; the first item that fails gives the error.
pub open spec fn media_list_v(s: Seq<JsonV>) -> Result<Seq<MediaV>, ComponentError>
    decreases s.len(),
{
    if s.len() == 0 {
        Ok(Seq::empty())
    } else {
        match media_list_v(s.subrange(0, s.len() - 1)) {
            Err(e) => Err(e),
            Ok(p) => match media_v(s[s.len() - 1], Field::Items) {
                Err(e) => Err(e),
                Ok(m) => Ok(p.push(m)),
            },
        }
    }
}

/// The members other than those named `key`, in order.
pub open spec fn without_key(ms: MembersV, key: Seq<char>) -> MembersV
    decreases ms.len(),
{
    if ms.len() == 0 {
        ms
    } else {
        let rest = without_key(ms.subrange(0, ms.len() - 1), key);
        if ms[ms.len() - 1].0 == key {
            rest
        } else {
            rest.push(ms[ms.len() - 1])
        }
    }
}

/// The kind named by the `type` member, when it holds an unsigned integer.
pub open spec fn type_code_v(ms: MembersV) -> Option<nat> {
    match member_v(ms, "type"@) {
        Some(JsonV::Number(NumberV::Unsigned(n))) => if n <= u64::MAX { Some(n) } else { None },
        _ => None,
    }
}

/// Decoding a component: dispatch on the numeric `type` member, then read the
/// payload of that kind from the whole object.
pub open spec fn decode_v(j: JsonV) -> Result<ComponentV, ComponentError>
    decreases j,
{
    match j {
        JsonV::Object(ms) => match type_code_v(ms) {
            None => Err(ComponentError::TypeNotInteger),
            Some(n) => match type_of_code(n as int) {
                None => Err(ComponentError::InvalidType(n as u64)),
                Some(kind) => {
                    proof {
                        lemma_member_decreases(ms, "components"@);
                        lemma_member_decreases(ms, "accessory"@);
                        lemma_member_decreases(ms, "component"@);
                    }
                    match kind {
                        ComponentType::ActionRow | ComponentType::Section | ComponentType::Container => {
                            let comps = match member_v(ms, "components"@) {
                                None => Err(ComponentError::MissingField(Field::Components)),
                                Some(JsonV::Array(s)) => decode_list_v(s),
                                Some(_) => Err(ComponentError::InvalidField(Field::Components)),
                            };
                            match comps {
                                Err(e) => Err(e),
                                Ok(components) => if kind == ComponentType::ActionRow {
                                    Ok(ComponentV::ActionRow { kind, components })
                                } else if kind == ComponentType::Container {
                                    Ok(ComponentV::Container { kind, components })
                                } else {
                                    match member_v(ms, "accessory"@) {
                                        None => Ok(ComponentV::Section { kind, components, accessory: None }),
                                        Some(JsonV::Null) => Ok(ComponentV::Section { kind, components, accessory: None }),
                                        Some(a) => match decode_v(a) {
                                            Err(e) => Err(e),
                                            Ok(c) => Ok(ComponentV::Section { kind, components, accessory: Some(Box::new(c)) }),
                                        },
                                    }
                                },
                            }
                        },
                        ComponentType::Label => {
                            let label = opt_str_v(ms, "label"@, Field::Label);
                            let description = opt_str_v(ms, "description"@, Field::Description);
                            if label is Err {
                                Err(label->Err_0)
                            } else if description is Err {
                                Err(description->Err_0)
                            } else {
                                match member_v(ms, "component"@) {
                                    None => Err(ComponentError::MissingField(Field::Component)),
                                    Some(v) => match decode_v(v) {
                                        Err(e) => Err(e),
                                        Ok(c) => Ok(ComponentV::Label {
                                            kind,
                                            label: label->Ok_0,
                                            description: description->Ok_0,
                                            component: Box::new(c),
                                        }),
                                    },
                                }
                            }
                        },
                        _ => leaf_v(kind, ms),
                    }
                },
            },
        },
        _ => Err(ComponentError::TypeNotInteger),
    }
}

/// Decoding the payload of a kind that holds no nested component.
pub open spec fn leaf_v(kind: ComponentType, ms: MembersV) -> Result<ComponentV, ComponentError> {
    match kind {
        ComponentType::Button => Ok(ComponentV::Button { kind, attributes: without_key(ms, "type"@) }),
        ComponentType::InputText => Ok(ComponentV::InputText { kind, attributes: without_key(ms, "type"@) }),
        ComponentType::TextDisplay => match req_str_v(ms, "content"@, Field::Content) {
            Err(e) => Err(e),
            Ok(content) => Ok(ComponentV::TextDisplay { kind, content }),
        },
        ComponentType::Thumbnail => {
            let media = match member_v(ms, "media"@) {
                None => Err(ComponentError::MissingField(Field::Media)),
                Some(v) => media_v(v, Field::Media),
            };
            let description = opt_str_v(ms, "description"@, Field::Description);
            let spoiler = opt_bool_v(ms, "spoiler"@, Field::Spoiler);
            if media is Err {
                Err(media->Err_0)
            } else if description is Err {
                Err(description->Err_0)
            } else if spoiler is Err {
                Err(spoiler->Err_0)
            } else {
                Ok(ComponentV::Thumbnail { kind, media: media->Ok_0, description: description->Ok_0, spoiler: spoiler->Ok_0 })
            }
        },
        ComponentType::MediaGallery => match member_v(ms, "items"@) {
            None => Err(ComponentError::MissingField(Field::Items)),
            Some(JsonV::Array(s)) => match media_list_v(s) {
                Err(e) => Err(e),
                Ok(items) => Ok(ComponentV::MediaGallery { kind, items }),
            },
            Some(_) => Err(ComponentError::InvalidField(Field::Items)),
        },
        ComponentType::File => {
            let file = match member_v(ms, "file"@) {
                None => Err(ComponentError::MissingField(Field::File)),
                Some(v) => media_v(v, Field::File),
            };
            let spoiler = opt_bool_v(ms, "spoiler"@, Field::Spoiler);
            if file is Err {
                Err(file->Err_0)
            } else if spoiler is Err {
                Err(spoiler->Err_0)
            } else {
                Ok(ComponentV::File { kind, file: file->Ok_0, spoiler: spoiler->Ok_0 })
            }
        },
        ComponentType::Separator => {
            let divider = opt_bool_v(ms, "divider"@, Field::Divider);
            let spacer = opt_u32_v(ms, "spacer"@, Field::Spacer);
            if divider is Err {
                Err(divider->Err_0)
            } else if spacer is Err {
                Err(spacer->Err_0)
            } else {
                Ok(ComponentV::Separator { kind, divider: divider->Ok_0, spacer: spacer->Ok_0 })
            }
        },
        _ => Ok(ComponentV::SelectMenu { kind, attributes: without_key(ms, "type"@) }),
    }
}

/// Decoding a list of components; the first item that fails gives the error.
pub open spec fn decode_list_v(s: Seq<JsonV>) -> Result<Seq<ComponentV>, ComponentError>
    decreases s,
{
    if s.len() == 0 {
        Ok(Seq::empty())
    } else {
        match decode_list_v(s.subrange(0, s.len() - 1)) {
            Err(e) => Err(e),
            Ok(p) => match decode_v(s[s.len() - 1]) {
                Err(e) => Err(e),
                Ok(c) => Ok(p.push(c)),
            },
        }
    }
}

/// The `type` member that leads every encoded component.
pub open spec fn type_member_v(kind: ComponentType) -> (Seq<char>, JsonV) {
    ("type"@, JsonV::Number(NumberV::Unsigned(code_of(kind))))
}

/// An optional string member: present only when the field holds a value.
pub open spec fn opt_str_member_v(key: Seq<char>, o: Option<Seq<char>>) -> MembersV {
    match o {
        Some(s) => seq![(key, JsonV::Str(s))],
        None => Seq::empty(),
    }
}

pub open spec fn opt_bool_member_v(key: Seq<char>, o: Option<bool>) -> MembersV {
    match o {
        Some(b) => seq![(key, JsonV::Bool(b))],
        None => Seq::empty(),
    }
}

pub open spec fn opt_u32_member_v(key: Seq<char>, o: Option<u32>) -> MembersV {
    match o {
        Some(n) => seq![(key, JsonV::Number(NumberV::Unsigned(n as nat)))],
        None => Seq::empty(),
    }
}

/// The JSON object of a media item; absent fields are left out.
pub open spec fn media_json_v(m: MediaV) -> JsonV {
    JsonV::Object(
        opt_str_member_v("url"@, m.url) + opt_str_member_v("proxy_url"@, m.proxy_url)
            + opt_u32_member_v("height"@, m.height) + opt_u32_member_v("width"@, m.width)
            + opt_str_member_v("content_type"@, m.content_type),
    )
}

/// The JSON array of a list of media items.
pub open spec fn media_list_json_v(items: Seq<MediaV>) -> JsonV {
    JsonV::Array(Seq::new(items.len(), |i: int| media_json_v(items[i])))
}

/// The JSON array of a list of components.
pub open spec fn encode_list_v(cs: Seq<ComponentV>) -> JsonV
    decreases cs,
{
    JsonV::Array(Seq::new(cs.len(), |i: int| if 0 <= i < cs.len() { encode_v(cs[i]) } else { JsonV::Null }))
}

/// Encoding a component: the payload's own members, led by `type`; fields
/// that hold no value are left out.
pub open spec fn encode_v(c: ComponentV) -> JsonV
    decreases c,
{
    match c {
        ComponentV::ActionRow { kind, components } =>
            JsonV::Object(seq![type_member_v(kind), ("components"@, encode_list_v(components))]),
        ComponentV::Button { kind, attributes } => JsonV::Object(seq![type_member_v(kind)] + attributes),
        ComponentV::SelectMenu { kind, attributes } => JsonV::Object(seq![type_member_v(kind)] + attributes),
        ComponentV::InputText { kind, attributes } => JsonV::Object(seq![type_member_v(kind)] + attributes),
        ComponentV::Section { kind, components, accessory } => JsonV::Object(
            seq![type_member_v(kind), ("components"@, encode_list_v(components))] + match accessory {
                Some(a) => seq![("accessory"@, encode_v(*a))],
                None => Seq::empty(),
            },
        ),
        ComponentV::TextDisplay { kind, content } =>
            JsonV::Object(seq![type_member_v(kind), ("content"@, JsonV::Str(content))]),
        ComponentV::Thumbnail { kind, media, description, spoiler } => JsonV::Object(
            seq![type_member_v(kind), ("media"@, media_json_v(media))]
                + opt_str_member_v("description"@, description) + opt_bool_member_v("spoiler"@, spoiler),
        ),
        ComponentV::MediaGallery { kind, items } => JsonV::Object(
            seq![type_member_v(kind), ("items"@, media_list_json_v(items))],
        ),
        ComponentV::File { kind, file, spoiler } => JsonV::Object(
            seq![type_member_v(kind), ("file"@, media_json_v(file))] + opt_bool_member_v("spoiler"@, spoiler),
        ),
        ComponentV::Separator { kind, divider, spacer } => JsonV::Object(
            seq![type_member_v(kind)] + opt_bool_member_v("divider"@, divider) + opt_u32_member_v("spacer"@, spacer),
        ),
        ComponentV::Container { kind, components } =>
            JsonV::Object(seq![type_member_v(kind), ("components"@, encode_list_v(components))]),
        ComponentV::Label { kind, label, description, component } => JsonV::Object(
            seq![type_member_v(kind)] + opt_str_member_v("label"@, label)
                + opt_str_member_v("description"@, description) + seq![("component"@, encode_v(*component))],
        ),
    }
}

} // verus!
