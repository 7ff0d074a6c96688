use vstd::prelude::*;

use crate::component::{
    component_views, media_views, ComponentV, opt_str_view, ActionRow, Button, Component, ComponentError,
    Container, Field, File, InputText, Label, MediaGallery, Section, SelectMenu, Separator,
    TextDisplay, Thumbnail, UnfurledMediaItem,
};
use crate::component_spec::{
    encode_list_v, encode_v, media_json_v, opt_bool_member_v, opt_str_member_v,
    opt_u32_member_v, type_member_v, media_list_json_v, decode_list_v, decode_v, leaf_v, media_list_v, media_v, opt_bool_v, opt_str_v, opt_u32_v,
    type_code_v, without_key,
};
use crate::component_type::{code_of, ComponentType};
use crate::json::{
    json_views, lemma_container_view, member_index, members_view, Json, JsonNumber, JsonV, Member,
};

verus! {

broadcast use vstd::std_specs::vec::group_vec_axioms;

fn opt_str_field(members: &Vec<Member>, key: &str, f: Field) -> (r: Result<Option<String>, ComponentError>)
    ensures
        r matches Ok(o) ==> opt_str_v(members_view(members@), key@, f) == Ok::<_, ComponentError>(opt_str_view(o)),
        r matches Err(e) ==> opt_str_v(members_view(members@), key@, f) == Err::<Option<Seq<char>>, _>(e),
{
    match member_index(members, key) {
        None => Ok(None),
        Some(i) => match &members[i].value {
            Json::Null => Ok(None),
            Json::Str(s) => Ok(Some(s.clone())),
            _ => Err(ComponentError::InvalidField(f)),
        },
    }
}

fn opt_bool_field(members: &Vec<Member>, key: &str, f: Field) -> (r: Result<Option<bool>, ComponentError>)
    ensures
        r matches Ok(o) ==> opt_bool_v(members_view(members@), key@, f) == Ok::<_, ComponentError>(o),
        r matches Err(e) ==> opt_bool_v(members_view(members@), key@, f) == Err::<Option<bool>, _>(e),
{
    match member_index(members, key) {
        None => Ok(None),
        Some(i) => match &members[i].value {
            Json::Null => Ok(None),
            Json::Bool(b) => Ok(Some(*b)),
            _ => Err(ComponentError::InvalidField(f)),
        },
    }
}

fn opt_u32_field(members: &Vec<Member>, key: &str, f: Field) -> (r: Result<Option<u32>, ComponentError>)
    ensures
        r matches Ok(o) ==> opt_u32_v(members_view(members@), key@, f) == Ok::<_, ComponentError>(o),
        r matches Err(e) ==> opt_u32_v(members_view(members@), key@, f) == Err::<Option<u32>, _>(e),
{
    match member_index(members, key) {
        None => Ok(None),
        Some(i) => match &members[i].value {
            Json::Null => Ok(None),
            Json::Number(JsonNumber::Unsigned(n)) => if *n <= 0xffff_ffffu64 {
                Ok(Some(*n as u32))
            } else {
                Err(ComponentError::InvalidField(f))
            },
            _ => Err(ComponentError::InvalidField(f)),
        },
    }
}

/// Reads a media item from a JSON object.
pub fn decode_media(j: &Json, f: Field) -> (r: Result<UnfurledMediaItem, ComponentError>)
    ensures
        r matches Ok(m) ==> media_v(j@, f) == Ok::<_, ComponentError>(m@),
        r matches Err(e) ==> media_v(j@, f) == Err::<crate::component::MediaV, _>(e),
{
    proof {
        lemma_container_view(*j);
    }
    match j {
        Json::Object(members) => {
            let url = match opt_str_field(members, "url", Field::Url) {
                Ok(v) => v,
                Err(e) => return Err(e),
            };
            let proxy_url = match opt_str_field(members, "proxy_url", Field::ProxyUrl) {
                Ok(v) => v,
                Err(e) => return Err(e),
            };
            let height = match opt_u32_field(members, "height", Field::Height) {
                Ok(v) => v,
                Err(e) => return Err(e),
            };
            let width = match opt_u32_field(members, "width", Field::Width) {
                Ok(v) => v,
                Err(e) => return Err(e),
            };
            let content_type = match opt_str_field(members, "content_type", Field::ContentType) {
                Ok(v) => v,
                Err(e) => return Err(e),
            };
            Ok(UnfurledMediaItem { url, proxy_url, height, width, content_type })
        },
        _ => Err(ComponentError::InvalidField(f)),
    }
}

proof fn lemma_media_list_prefix_err(s: Seq<JsonV>, k: int)
    requires
        0 <= k <= s.len(),
        media_list_v(s.subrange(0, k)) is Err,
    ensures
        media_list_v(s) == media_list_v(s.subrange(0, k)),
    decreases s.len() - k,
{
    if k < s.len() {
        assert(s.subrange(0, k + 1).subrange(0, k) =~= s.subrange(0, k));
        lemma_media_list_prefix_err(s, k + 1);
    } else {
        assert(s.subrange(0, k) =~= s);
    }
}

proof fn lemma_list_prefix_err(s: Seq<JsonV>, k: int)
    requires
        0 <= k <= s.len(),
        decode_list_v(s.subrange(0, k)) is Err,
    ensures
        decode_list_v(s) == decode_list_v(s.subrange(0, k)),
    decreases s.len() - k,
{
    if k < s.len() {
        assert(s.subrange(0, k + 1).subrange(0, k) =~= s.subrange(0, k));
        lemma_list_prefix_err(s, k + 1);
    } else {
        assert(s.subrange(0, k) =~= s);
    }
}

/// Reads a list of media items; the first that fails gives the error.
pub fn decode_media_list(items: &Vec<Json>) -> (r: Result<Vec<UnfurledMediaItem>, ComponentError>)
    ensures
        r matches Ok(v) ==> media_list_v(json_views(items@)) == Ok::<_, ComponentError>(media_views(v@)),
        r matches Err(e) ==> media_list_v(json_views(items@)) == Err::<Seq<crate::component::MediaV>, _>(e),
{
    let ghost s = json_views(items@);
    let mut out: Vec<UnfurledMediaItem> = Vec::new();
    let mut i: usize = 0;
    assert(media_views(out@) =~= Seq::<crate::component::MediaV>::empty());
    while i < items.len()
        invariant
            s == json_views(items@),
            i <= items@.len(),
            media_list_v(s.subrange(0, i as int)) == Ok::<_, ComponentError>(media_views(out@)),
        decreases items@.len() - i,
    {
        assert(s.subrange(0, i + 1).subrange(0, i as int) =~= s.subrange(0, i as int));
        match decode_media(&items[i], Field::Items) {
            Ok(m) => {
                let ghost prev = out@;
                out.push(m);
                assert(media_views(out@) =~= media_views(prev).push(m@));
            },
            Err(e) => {
                proof {
                    lemma_media_list_prefix_err(s, i + 1);
                }
                return Err(e);
            },
        }
        i += 1;
    }
    assert(s.subrange(0, i as int) =~= s);
    Ok(out)
}

/// The members other than `type`, copied in order.
pub fn attributes_of(members: &Vec<Member>) -> (r: Vec<Member>)
    ensures
        members_view(r@) == without_key(members_view(members@), "type"@),
{
    let ghost s = members_view(members@);
    let key = "type".to_string();
    let mut out: Vec<Member> = Vec::new();
    let mut i: usize = 0;
    while i < members.len()
        invariant
            s == members_view(members@),
            key@ == "type"@,
            i <= members@.len(),
            members_view(out@) == without_key(s.subrange(0, i as int), "type"@),
        decreases members@.len() - i,
    {
        assert(s.subrange(0, i + 1).subrange(0, i as int) =~= s.subrange(0, i as int));
        let m = &members[i];
        if m.key != key {
            let ghost prev = out@;
            out.push(Member { key: m.key.clone(), value: m.value.deep_copy() });
            assert(members_view(out@) =~= members_view(prev).push(s[i as int]));
        }
        i += 1;
    }
    assert(s.subrange(0, i as int) =~= s);
    out
}

/// Reads the payload of a kind that holds no nested component.
fn decode_leaf(kind: ComponentType, members: &Vec<Member>) -> (r: Result<Component, ComponentError>)
    ensures
        r matches Ok(c) ==> leaf_v(kind, members_view(members@)) == Ok::<_, ComponentError>(c@),
        r matches Err(e) ==> leaf_v(kind, members_view(members@)) == Err::<crate::component::ComponentV, _>(e),
{
    match kind {
        ComponentType::Button => Ok(Component::Button(Box::new(Button { kind, attributes: attributes_of(members) }))),
        ComponentType::InputText => Ok(Component::InputText(Box::new(InputText { kind, attributes: attributes_of(members) }))),
        ComponentType::TextDisplay => match member_index(members, "content") {
            None => Err(ComponentError::MissingField(Field::Content)),
            Some(i) => match &members[i].value {
                Json::Str(s) => Ok(Component::TextDisplay(Box::new(TextDisplay { kind, content: s.clone() }))),
                _ => Err(ComponentError::InvalidField(Field::Content)),
            },
        },
        ComponentType::Thumbnail => {
            let media = match member_index(members, "media") {
                None => return Err(ComponentError::MissingField(Field::Media)),
                Some(i) => match decode_media(&members[i].value, Field::Media) {
                    Ok(m) => m,
                    Err(e) => return Err(e),
                },
            };
            let description = match opt_str_field(members, "description", Field::Description) {
                Ok(v) => v,
                Err(e) => return Err(e),
            };
            let spoiler = match opt_bool_field(members, "spoiler", Field::Spoiler) {
                Ok(v) => v,
                Err(e) => return Err(e),
            };
            Ok(Component::Thumbnail(Box::new(Thumbnail { kind, media, description, spoiler })))
        },
        ComponentType::MediaGallery => match member_index(members, "items") {
            None => Err(ComponentError::MissingField(Field::Items)),
            Some(i) => match &members[i].value {
                Json::Array(items) => {
                    proof {
                        lemma_container_view(members@[i as int].value);
                    }
                    match decode_media_list(items) {
                        Ok(items) => Ok(Component::MediaGallery(Box::new(MediaGallery { kind, items }))),
                        Err(e) => Err(e),
                    }
                },
                _ => Err(ComponentError::InvalidField(Field::Items)),
            },
        },
        ComponentType::File => {
            let file = match member_index(members, "file") {
                None => return Err(ComponentError::MissingField(Field::File)),
                Some(i) => match decode_media(&members[i].value, Field::File) {
                    Ok(m) => m,
                    Err(e) => return Err(e),
                },
            };
            let spoiler = match opt_bool_field(members, "spoiler", Field::Spoiler) {
                Ok(v) => v,
                Err(e) => return Err(e),
            };
            Ok(Component::File(Box::new(File { kind, file, spoiler })))
        },
        ComponentType::Separator => {
            let divider = match opt_bool_field(members, "divider", Field::Divider) {
                Ok(v) => v,
                Err(e) => return Err(e),
            };
            let spacer = match opt_u32_field(members, "spacer", Field::Spacer) {
                Ok(v) => v,
                Err(e) => return Err(e),
            };
            Ok(Component::Separator(Box::new(Separator { kind, divider, spacer })))
        },
        _ => Ok(Component::SelectMenu(Box::new(SelectMenu { kind, attributes: attributes_of(members) }))),
    }
}

/// Reads a list of components; the first that fails gives the error.
pub fn decode_list(items: &Vec<Json>) -> (r: Result<Vec<Component>, ComponentError>)
    ensures
        r matches Ok(v) ==> decode_list_v(json_views(items@)) == Ok::<_, ComponentError>(component_views(v@)),
        r matches Err(e) ==> decode_list_v(json_views(items@)) == Err::<Seq<crate::component::ComponentV>, _>(e),
    decreases items,
{
    let ghost s = json_views(items@);
    let mut out: Vec<Component> = Vec::new();
    let mut i: usize = 0;
    assert(component_views(out@) =~= Seq::<crate::component::ComponentV>::empty());
    while i < items.len()
        invariant
            s == json_views(items@),
            i <= items@.len(),
            decode_list_v(s.subrange(0, i as int)) == Ok::<_, ComponentError>(component_views(out@)),
        decreases items@.len() - i,
    {
        assert(s.subrange(0, i + 1).subrange(0, i as int) =~= s.subrange(0, i as int));
        proof {
            assert(decreases_to!(items => items[i as int]));
        }
        match Component::decode(&items[i]) {
            Ok(c) => {
                let ghost prev = out@;
                out.push(c);
                assert(component_views(out@) =~= component_views(prev).push(c@));
            },
            Err(e) => {
                proof {
                    lemma_list_prefix_err(s, i + 1);
                }
                return Err(e);
            },
        }
        i += 1;
    }
    assert(s.subrange(0, i as int) =~= s);
    Ok(out)
}

/// Reads the payload of `kind` from the members of the component's object.
fn decode_payload(kind: ComponentType, members: &Vec<Member>) -> (r: Result<Component, ComponentError>)
    requires
        type_code_v(members_view(members@)) == Some(code_of(kind)),
    ensures
        r matches Ok(c) ==> decode_v(JsonV::Object(members_view(members@))) == Ok::<_, ComponentError>(c@),
        r matches Err(e) ==> decode_v(JsonV::Object(members_view(members@))) == Err::<crate::component::ComponentV, _>(e),
    decreases members,
{
    proof {
        crate::component_type::lemma_code_round_trip(kind);
    }
    match kind {
        ComponentType::ActionRow | ComponentType::Section | ComponentType::Container => {
            let components = match member_index(members, "components") {
                None => return Err(ComponentError::MissingField(Field::Components)),
                Some(i) => match &members[i].value {
                    Json::Array(items) => {
                        proof {
                            lemma_container_view(members@[i as int].value);
                            assert(decreases_to!(members => members[i as int].value));
                        }
                        match decode_list(items) {
                            Ok(v) => v,
                            Err(e) => return Err(e),
                        }
                    },
                    _ => return Err(ComponentError::InvalidField(Field::Components)),
                },
            };
            let ghost cv = component_views(components@);
            match kind {
                ComponentType::ActionRow => {
                    let r = Component::ActionRow(Box::new(ActionRow { kind, components }));
                    assert(r@ == ComponentV::ActionRow { kind, components: cv }) by {
                        if let ComponentV::ActionRow { components: cs, .. } = r@ {
                            assert(cs =~= cv);
                        }
                    }
                    Ok(r)
                },
                ComponentType::Container => {
                    let r = Component::Container(Box::new(Container { kind, components }));
                    assert(r@ == ComponentV::Container { kind, components: cv }) by {
                        if let ComponentV::Container { components: cs, .. } = r@ {
                            assert(cs =~= cv);
                        }
                    }
                    Ok(r)
                },
                _ => {
                    let accessory = match member_index(members, "accessory") {
                        None => None,
                        Some(i) => match &members[i].value {
                            Json::Null => None,
                            v => {
                                proof {
                                    assert(decreases_to!(members => members[i as int].value));
                                }
                                match Component::decode(v) {
                                    Ok(c) => Some(c),
                                    Err(e) => return Err(e),
                                }
                            },
                        },
                    };
                    let ghost av = match &accessory {
                        Some(a) => Some(Box::new(a@)),
                        None => None,
                    };
                    let r = Component::Section(Box::new(Section { kind, components, accessory }));
                    assert(r@ == ComponentV::Section { kind, components: cv, accessory: av }) by {
                        if let ComponentV::Section { components: cs, .. } = r@ {
                            assert(cs =~= cv);
                        }
                    }
                    Ok(r)
                },
            }
        },
        ComponentType::Label => {
            let label = match opt_str_field(members, "label", Field::Label) {
                Ok(v) => v,
                Err(e) => return Err(e),
            };
            let description = match opt_str_field(members, "description", Field::Description) {
                Ok(v) => v,
                Err(e) => return Err(e),
            };
            match member_index(members, "component") {
                None => Err(ComponentError::MissingField(Field::Component)),
                Some(i) => {
                    proof {
                        assert(decreases_to!(members => members[i as int].value));
                    }
                    match Component::decode(&members[i].value) {
                        Ok(component) => Ok(Component::Label(Box::new(Label { kind, label, description, component }))),
                        Err(e) => Err(e),
                    }
                },
            }
        },
        _ => decode_leaf(kind, members),
    }
}

fn push_member(out: &mut Vec<Member>, key: &str, value: Json)
    ensures
        members_view(final(out)@) == members_view(old(out)@).push((key@, value@)),
{
    let ghost prev = out@;
    out.push(Member { key: key.to_string(), value });
    assert(members_view(out@) =~= members_view(prev).push((key@, value@)));
}

fn push_opt_str(out: &mut Vec<Member>, key: &str, o: &Option<String>)
    ensures
        members_view(final(out)@) == members_view(old(out)@) + opt_str_member_v(key@, opt_str_view(*o)),
{
    match o {
        Some(s) => push_member(out, key, Json::Str(s.clone())),
        None => {},
    }
    assert(members_view(out@) =~= members_view(old(out)@) + opt_str_member_v(key@, opt_str_view(*o)));
}

fn push_opt_bool(out: &mut Vec<Member>, key: &str, o: Option<bool>)
    ensures
        members_view(final(out)@) == members_view(old(out)@) + opt_bool_member_v(key@, o),
{
    match o {
        Some(b) => push_member(out, key, Json::Bool(b)),
        None => {},
    }
    assert(members_view(out@) =~= members_view(old(out)@) + opt_bool_member_v(key@, o));
}

fn push_opt_u32(out: &mut Vec<Member>, key: &str, o: Option<u32>)
    ensures
        members_view(final(out)@) == members_view(old(out)@) + opt_u32_member_v(key@, o),
{
    match o {
        Some(n) => push_member(out, key, Json::Number(JsonNumber::Unsigned(n as u64))),
        None => {},
    }
    assert(members_view(out@) =~= members_view(old(out)@) + opt_u32_member_v(key@, o));
}

/// A member list that holds the `type` member alone.
fn start_object(kind: ComponentType) -> (r: Vec<Member>)
    ensures
        members_view(r@) == seq![type_member_v(kind)],
{
    let mut out: Vec<Member> = Vec::new();
    let code = kind.to_int();
    push_member(&mut out, "type", Json::Number(JsonNumber::Unsigned(code as u64)));
    assert(members_view(out@) =~= seq![type_member_v(kind)]);
    out
}

fn object_of(members: Vec<Member>) -> (r: Json)
    ensures
        r@ == JsonV::Object(members_view(members@)),
{
    let r = Json::Object(members);
    proof {
        lemma_container_view(r);
    }
    r
}

/// Writes a media item as a JSON object, leaving out absent fields.
pub fn encode_media(m: &UnfurledMediaItem) -> (r: Json)
    ensures
        r@ == media_json_v(m@),
{
    let mut out: Vec<Member> = Vec::new();
    assert(members_view(out@) =~= Seq::empty());
    push_opt_str(&mut out, "url", &m.url);
    push_opt_str(&mut out, "proxy_url", &m.proxy_url);
    push_opt_u32(&mut out, "height", m.height);
    push_opt_u32(&mut out, "width", m.width);
    push_opt_str(&mut out, "content_type", &m.content_type);
    assert(Seq::<(Seq<char>, JsonV)>::empty() + opt_str_member_v("url"@, m@.url) =~= opt_str_member_v("url"@, m@.url));
    object_of(out)
}

fn encode_media_list(items: &Vec<UnfurledMediaItem>) -> (r: Json)
    ensures
        r@ == media_list_json_v(media_views(items@)),
{
    let mut out: Vec<Json> = Vec::new();
    let mut i: usize = 0;
    while i < items.len()
        invariant
            i <= items@.len(),
            out@.len() == i,
            forall|k: int| 0 <= k < i ==> out@[k]@ == media_json_v(items@[k]@),
        decreases items@.len() - i,
    {
        out.push(encode_media(&items[i]));
        i += 1;
    }
    let r = Json::Array(out);
    proof {
        lemma_container_view(r);
        if let JsonV::Array(a) = media_list_json_v(media_views(items@)) {
            assert(json_views(out@) =~= a);
        }
    }
    r
}

/// Writes a list of components as a JSON array.
pub fn encode_list(cs: &Vec<Component>) -> (r: Json)
    ensures
        r@ == encode_list_v(component_views(cs@)),
    decreases cs,
{
    let mut out: Vec<Json> = Vec::new();
    let mut i: usize = 0;
    while i < cs.len()
        invariant
            i <= cs@.len(),
            out@.len() == i,
            forall|k: int| 0 <= k < i ==> out@[k]@ == encode_v(cs@[k]@),
        decreases cs@.len() - i,
    {
        proof {
            assert(decreases_to!(cs => cs[i as int]));
        }
        out.push(cs[i].encode());
        i += 1;
    }
    let r = Json::Array(out);
    proof {
        lemma_container_view(r);
        let v = component_views(cs@);
        if let JsonV::Array(a) = encode_list_v(v) {
            assert(json_views(out@) =~= a);
        }
    }
    r
}

/// Encodes a component that holds no nested component.
fn encode_leaf(c: &Component) -> (r: Json)
    requires
        !(c is ActionRow || c is Section || c is Container || c is Label),
    ensures
        r@ == encode_v(c@),
{
    match c {
        Component::Button(p) => {
            let mut out = start_object(p.kind);
            let ghost prev = out@;
            let mut extra = crate::json::copy_members(&p.attributes);
            out.append(&mut extra);
            assert(members_view(out@) =~= members_view(prev) + members_view(p.attributes@));
            object_of(out)
        },
        Component::SelectMenu(p) => {
            let mut out = start_object(p.kind);
            let ghost prev = out@;
            let mut extra = crate::json::copy_members(&p.attributes);
            out.append(&mut extra);
            assert(members_view(out@) =~= members_view(prev) + members_view(p.attributes@));
            object_of(out)
        },
        Component::InputText(p) => {
            let mut out = start_object(p.kind);
            let ghost prev = out@;
            let mut extra = crate::json::copy_members(&p.attributes);
            out.append(&mut extra);
            assert(members_view(out@) =~= members_view(prev) + members_view(p.attributes@));
            object_of(out)
        },
        Component::TextDisplay(p) => {
            let mut out = start_object(p.kind);
            push_member(&mut out, "content", Json::Str(p.content.clone()));
            assert(members_view(out@) =~= seq![type_member_v(p.kind), ("content"@, JsonV::Str(p.content@))]);
            object_of(out)
        },
        Component::Thumbnail(p) => {
            let mut out = start_object(p.kind);
            push_member(&mut out, "media", encode_media(&p.media));
            assert(members_view(out@) =~= seq![type_member_v(p.kind), ("media"@, media_json_v(p.media@))]);
            push_opt_str(&mut out, "description", &p.description);
            push_opt_bool(&mut out, "spoiler", p.spoiler);
            object_of(out)
        },
        Component::MediaGallery(p) => {
            let mut out = start_object(p.kind);
            push_member(&mut out, "items", encode_media_list(&p.items));
            assert(members_view(out@) =~= seq![type_member_v(p.kind), ("items"@, media_list_json_v(media_views(p.items@)))]);
            object_of(out)
        },
        Component::File(p) => {
            let mut out = start_object(p.kind);
            push_member(&mut out, "file", encode_media(&p.file));
            assert(members_view(out@) =~= seq![type_member_v(p.kind), ("file"@, media_json_v(p.file@))]);
            push_opt_bool(&mut out, "spoiler", p.spoiler);
            object_of(out)
        },
        Component::Separator(p) => {
            let mut out = start_object(p.kind);
            push_opt_bool(&mut out, "divider", p.divider);
            push_opt_u32(&mut out, "spacer", p.spacer);
            object_of(out)
        },
        _ => Json::Null,
    }
}

impl Component {
    /// Encodes a component as its payload's JSON object, led by the numeric
    /// `type` member; fields that hold no value are left out.
    pub fn encode(&self) -> (r: Json)
        ensures
            r@ == encode_v(self@),
        decreases self,
    {
        match self {
            Component::ActionRow(p) => {
                let mut out = start_object(p.kind);
                proof {
                    assert(decreases_to!(*self => p.components));
                }
                let list = encode_list(&p.components);
                push_member(&mut out, "components", list);
                proof {
                    if let ComponentV::ActionRow { components: cs, .. } = self@ {
                        assert(cs =~= component_views(p.components@));
                        assert(members_view(out@) =~= seq![type_member_v(p.kind), ("components"@, encode_list_v(cs))]);
                    }
                }
                object_of(out)
            },
            Component::Section(p) => {
                let mut out = start_object(p.kind);
                proof {
                    assert(decreases_to!(*self => p.components));
                }
                let list = encode_list(&p.components);
                push_member(&mut out, "components", list);
                let ghost mid = out@;
                match &p.accessory {
                    Some(a) => {
                        let ja = a.encode();
                        push_member(&mut out, "accessory", ja);
                    },
                    None => {},
                }
                proof {
                    if let ComponentV::Section { components: cs, accessory: acc, .. } = self@ {
                        assert(cs =~= component_views(p.components@));
                        assert(members_view(mid) =~= seq![type_member_v(p.kind), ("components"@, encode_list_v(cs))]);
                        assert(members_view(out@) =~= members_view(mid) + match acc {
                            Some(a) => seq![("accessory"@, encode_v(*a))],
                            None => Seq::<(Seq<char>, JsonV)>::empty(),
                        });
                    }
                }
                object_of(out)
            },
            Component::TextDisplay(_) | Component::Thumbnail(_) | Component::MediaGallery(_)
            | Component::File(_) | Component::Separator(_) | Component::Button(_)
            | Component::SelectMenu(_) | Component::InputText(_) => encode_leaf(self),
            Component::Container(p) => {
                let mut out = start_object(p.kind);
                proof {
                    assert(decreases_to!(*self => p.components));
                }
                let list = encode_list(&p.components);
                push_member(&mut out, "components", list);
                proof {
                    if let ComponentV::Container { components: cs, .. } = self@ {
                        assert(cs =~= component_views(p.components@));
                        assert(members_view(out@) =~= seq![type_member_v(p.kind), ("components"@, encode_list_v(cs))]);
                    }
                }
                object_of(out)
            },
            Component::Label(p) => {
                let mut out = start_object(p.kind);
                push_opt_str(&mut out, "label", &p.label);
                push_opt_str(&mut out, "description", &p.description);
                let jc = p.component.encode();
                let ghost mid = out@;
                push_member(&mut out, "component", jc);
                assert(members_view(out@) =~= members_view(mid) + seq![("component"@, jc@)]);
                object_of(out)
            },
        }
    }

    /// Decodes a component from a JSON object: the numeric `type` member picks
    /// the variant (the five select kinds all give `SelectMenu`), and the
    /// variant's payload is read from the whole object.
    pub fn decode(j: &Json) -> (r: Result<Component, ComponentError>)
        ensures
            r matches Ok(c) ==> decode_v(j@) == Ok::<_, ComponentError>(c@),
            r matches Err(e) ==> decode_v(j@) == Err::<crate::component::ComponentV, _>(e),
        decreases j,
    {
        proof {
            lemma_container_view(*j);
        }
        match j {
            Json::Object(members) => {
                let code = match member_index(members, "type") {
                    None => return Err(ComponentError::TypeNotInteger),
                    Some(i) => match &members[i].value {
                        Json::Number(JsonNumber::Unsigned(n)) => *n,
                        _ => return Err(ComponentError::TypeNotInteger),
                    },
                };
                match ComponentType::from_int(code) {
                    Err(n) => Err(ComponentError::InvalidType(n)),
                    Ok(kind) => decode_payload(kind, members),
                }
            },
            _ => Err(ComponentError::TypeNotInteger),
        }
    }
}

} // verus!
