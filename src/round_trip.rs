use vstd::prelude::*;

use crate::component::{ComponentError, ComponentV, Field, MediaV, MembersV};
use crate::component_spec::{
    decode_list_v, decode_v, encode_list_v, encode_v, media_json_v, media_list_json_v,
    media_list_v, media_v, opt_bool_member_v, opt_str_member_v, opt_str_v,
    opt_u32_member_v, opt_u32_v, type_code_v, type_member_v, without_key,
};
use crate::component_type::{code_of, is_select_kind, lemma_code_round_trip, ComponentType};
use crate::json::{find_key, lemma_find_key, member_v, JsonV, NumberV};

verus! {

/// Whether no member is named `type`.
pub open spec fn no_type_key(ms: MembersV) -> bool {
    forall|j: int| 0 <= j < ms.len() ==> #[trigger] ms[j].0 != "type"@
}

/// A component that its encoding describes exactly: each payload's kind
/// belongs to its variant, kept attributes hold no `type` member, and the
/// same holds of every nested component.
pub open spec fn wf_component(c: ComponentV) -> bool
    decreases c,
{
    match c {
        ComponentV::ActionRow { kind, components } => kind == ComponentType::ActionRow
            && wf_list(components),
        ComponentV::Button { kind, attributes } => kind == ComponentType::Button && no_type_key(attributes),
        ComponentV::SelectMenu { kind, attributes } => is_select_kind(kind) && no_type_key(attributes),
        ComponentV::InputText { kind, attributes } => kind == ComponentType::InputText && no_type_key(attributes),
        ComponentV::Section { kind, components, accessory } => kind == ComponentType::Section
            && wf_list(components)
            && match accessory {
                Some(a) => wf_component(*a),
                None => true,
            },
        ComponentV::TextDisplay { kind, .. } => kind == ComponentType::TextDisplay,
        ComponentV::Thumbnail { kind, .. } => kind == ComponentType::Thumbnail,
        ComponentV::MediaGallery { kind, .. } => kind == ComponentType::MediaGallery,
        ComponentV::File { kind, .. } => kind == ComponentType::File,
        ComponentV::Separator { kind, .. } => kind == ComponentType::Separator,
        ComponentV::Container { kind, components } => kind == ComponentType::Container
            && wf_list(components),
        ComponentV::Label { kind, component, .. } => kind == ComponentType::Label && wf_component(*component),
    }
}

/// Every component of the list is well formed.
pub open spec fn wf_list(cs: Seq<ComponentV>) -> bool
    decreases cs,
{
    if cs.len() == 0 {
        true
    } else {
        wf_list(cs.subrange(0, cs.len() - 1)) && wf_component(cs[cs.len() - 1])
    }
}

pub open spec fn key_sig(s: Seq<char>) -> (nat, char) {
    (s.len(), if s.len() > 0 { s[0] } else { ' ' })
}

/// The member keys differ pairwise: no two share their length and first character.
pub proof fn lemma_key_sigs()
    ensures
        key_sig("type"@) == (4nat, 't'),
        key_sig("components"@) == (10nat, 'c'),
        key_sig("accessory"@) == (9nat, 'a'),
        key_sig("content"@) == (7nat, 'c'),
        key_sig("media"@) == (5nat, 'm'),
        key_sig("description"@) == (11nat, 'd'),
        key_sig("spoiler"@) == (7nat, 's'),
        key_sig("items"@) == (5nat, 'i'),
        key_sig("file"@) == (4nat, 'f'),
        key_sig("divider"@) == (7nat, 'd'),
        key_sig("spacer"@) == (6nat, 's'),
        key_sig("label"@) == (5nat, 'l'),
        key_sig("component"@) == (9nat, 'c'),
        key_sig("url"@) == (3nat, 'u'),
        key_sig("proxy_url"@) == (9nat, 'p'),
        key_sig("height"@) == (6nat, 'h'),
        key_sig("width"@) == (5nat, 'w'),
        key_sig("content_type"@) == (12nat, 'c'),
{
    reveal_strlit("type");
    reveal_strlit("components");
    reveal_strlit("accessory");
    reveal_strlit("content");
    reveal_strlit("media");
    reveal_strlit("description");
    reveal_strlit("spoiler");
    reveal_strlit("items");
    reveal_strlit("file");
    reveal_strlit("divider");
    reveal_strlit("spacer");
    reveal_strlit("label");
    reveal_strlit("component");
    reveal_strlit("url");
    reveal_strlit("proxy_url");
    reveal_strlit("height");
    reveal_strlit("width");
    reveal_strlit("content_type");
}

pub proof fn lemma_member_concat(a: MembersV, b: MembersV, key: Seq<char>)
    ensures
        member_v(a + b, key) == if member_v(a, key) is Some { member_v(a, key) } else { member_v(b, key) },
{
    lemma_find_key(a, key);
    lemma_find_key(b, key);
    lemma_find_key(a + b, key);
    let ab = a + b;
    match find_key(a, key) {
        Some(i) => {
            crate::json::lemma_find_first(ab, key, i);
        },
        None => {
            match find_key(b, key) {
                Some(i) => {
                    crate::json::lemma_find_first(ab, key, a.len() + i);
                },
                None => {
                    assert forall|j: int| 0 <= j < ab.len() implies ab[j].0 != key by {
                        if j >= a.len() {
                            assert(ab[j] == b[j - a.len()]);
                        }
                    }
                    crate::json::lemma_find_none(ab, key);
                },
            }
        },
    }
}

pub proof fn lemma_member_single(k: Seq<char>, v: JsonV, key: Seq<char>)
    ensures
        member_v(seq![(k, v)], key) == if k == key { Some(v) } else { None::<JsonV> },
{
    let s = seq![(k, v)];
    if k == key {
        crate::json::lemma_find_first(s, key, 0);
    } else {
        crate::json::lemma_find_none(s, key);
    }
}

pub proof fn lemma_member_empty(key: Seq<char>)
    ensures
        member_v(Seq::<(Seq<char>, JsonV)>::empty(), key) is None,
{
    crate::json::lemma_find_none(Seq::empty(), key);
}

proof fn lemma_opt_members(key: Seq<char>, other: Seq<char>, s: Option<Seq<char>>, b: Option<bool>, n: Option<u32>)
    ensures
        member_v(opt_str_member_v(key, s), other) == if key == other && s is Some {
            Some(JsonV::Str(s->Some_0))
        } else {
            None::<JsonV>
        },
        member_v(opt_bool_member_v(key, b), other) == if key == other && b is Some {
            Some(JsonV::Bool(b->Some_0))
        } else {
            None::<JsonV>
        },
        member_v(opt_u32_member_v(key, n), other) == if key == other && n is Some {
            Some(JsonV::Number(NumberV::Unsigned(n->Some_0 as nat)))
        } else {
            None::<JsonV>
        },
{
    lemma_member_empty(other);
    if let Some(v) = s {
        lemma_member_single(key, JsonV::Str(v), other);
    }
    if let Some(v) = b {
        lemma_member_single(key, JsonV::Bool(v), other);
    }
    if let Some(v) = n {
        lemma_member_single(key, JsonV::Number(NumberV::Unsigned(v as nat)), other);
    }
}

pub proof fn lemma_member_cascade(a: MembersV, b: MembersV, c: MembersV, d: MembersV, e: MembersV, key: Seq<char>)
    ensures
        member_v(a + b + c + d + e, key) == if member_v(a, key) is Some { member_v(a, key) }
            else if member_v(b, key) is Some { member_v(b, key) }
            else if member_v(c, key) is Some { member_v(c, key) }
            else if member_v(d, key) is Some { member_v(d, key) }
            else { member_v(e, key) },
{
    lemma_member_concat(a + b + c + d, e, key);
    lemma_member_concat(a + b + c, d, key);
    lemma_member_concat(a + b, c, key);
    lemma_member_concat(a, b, key);
}

/// A media item reads back from its own JSON object.
pub proof fn lemma_media_round_trip(m: MediaV, f: crate::component::Field)
    ensures
        media_v(media_json_v(m), f) == Ok::<_, crate::component::ComponentError>(m),
{
    lemma_key_sigs();
    let a = opt_str_member_v("url"@, m.url);
    let b = opt_str_member_v("proxy_url"@, m.proxy_url);
    let c = opt_u32_member_v("height"@, m.height);
    let d = opt_u32_member_v("width"@, m.width);
    let e = opt_str_member_v("content_type"@, m.content_type);
    let ms = a + b + c + d + e;
    lemma_member_cascade(a, b, c, d, e, "url"@);
    lemma_member_cascade(a, b, c, d, e, "proxy_url"@);
    lemma_member_cascade(a, b, c, d, e, "height"@);
    lemma_member_cascade(a, b, c, d, e, "width"@);
    lemma_member_cascade(a, b, c, d, e, "content_type"@);
    lemma_opt_members("url"@, "url"@, m.url, None, None);
    lemma_opt_members("url"@, "proxy_url"@, m.url, None, None);
    lemma_opt_members("url"@, "height"@, m.url, None, None);
    lemma_opt_members("url"@, "width"@, m.url, None, None);
    lemma_opt_members("url"@, "content_type"@, m.url, None, None);
    lemma_opt_members("proxy_url"@, "url"@, m.proxy_url, None, None);
    lemma_opt_members("proxy_url"@, "proxy_url"@, m.proxy_url, None, None);
    lemma_opt_members("proxy_url"@, "height"@, m.proxy_url, None, None);
    lemma_opt_members("proxy_url"@, "width"@, m.proxy_url, None, None);
    lemma_opt_members("proxy_url"@, "content_type"@, m.proxy_url, None, None);
    lemma_opt_members("height"@, "url"@, None, None, m.height);
    lemma_opt_members("height"@, "proxy_url"@, None, None, m.height);
    lemma_opt_members("height"@, "height"@, None, None, m.height);
    lemma_opt_members("height"@, "width"@, None, None, m.height);
    lemma_opt_members("height"@, "content_type"@, None, None, m.height);
    lemma_opt_members("width"@, "url"@, None, None, m.width);
    lemma_opt_members("width"@, "proxy_url"@, None, None, m.width);
    lemma_opt_members("width"@, "height"@, None, None, m.width);
    lemma_opt_members("width"@, "width"@, None, None, m.width);
    lemma_opt_members("width"@, "content_type"@, None, None, m.width);
    lemma_opt_members("content_type"@, "url"@, m.content_type, None, None);
    lemma_opt_members("content_type"@, "proxy_url"@, m.content_type, None, None);
    lemma_opt_members("content_type"@, "height"@, m.content_type, None, None);
    lemma_opt_members("content_type"@, "width"@, m.content_type, None, None);
    lemma_opt_members("content_type"@, "content_type"@, m.content_type, None, None);
    assert(opt_str_v(ms, "url"@, crate::component::Field::Url) == Ok::<_, crate::component::ComponentError>(m.url));
    assert(opt_str_v(ms, "proxy_url"@, crate::component::Field::ProxyUrl) == Ok::<_, crate::component::ComponentError>(m.proxy_url));
    assert(opt_u32_v(ms, "height"@, crate::component::Field::Height) == Ok::<_, crate::component::ComponentError>(m.height));
    assert(opt_u32_v(ms, "width"@, crate::component::Field::Width) == Ok::<_, crate::component::ComponentError>(m.width));
    assert(opt_str_v(ms, "content_type"@, crate::component::Field::ContentType) == Ok::<_, crate::component::ComponentError>(m.content_type));
}

proof fn lemma_without_type(t: (Seq<char>, JsonV), attrs: MembersV)
    requires
        t.0 == "type"@,
        no_type_key(attrs),
    ensures
        without_key(seq![t] + attrs, "type"@) == attrs,
    decreases attrs.len(),
{
    let all = seq![t] + attrs;
    if attrs.len() == 0 {
        assert(all =~= seq![t]);
        assert(all.subrange(0, 0) =~= Seq::<(Seq<char>, JsonV)>::empty());
        assert(without_key(all.subrange(0, 0), "type"@) == all.subrange(0, 0));
        assert(attrs =~= Seq::<(Seq<char>, JsonV)>::empty());
    } else {
        let n = attrs.len() - 1;
        let p = attrs.subrange(0, n);
        assert(no_type_key(p)) by {
            assert forall|j: int| 0 <= j < p.len() implies #[trigger] p[j].0 != "type"@ by {
                assert(p[j] == attrs[j]);
            }
        }
        lemma_without_type(t, p);
        assert(all.subrange(0, all.len() - 1) =~= seq![t] + p);
        assert(all[all.len() - 1] == attrs[n]);
        assert(attrs[n].0 != "type"@);
        assert(without_key(all, "type"@) == without_key(seq![t] + p, "type"@).push(attrs[n]));
        assert(attrs =~= p.push(attrs[n]));
    }
}

proof fn lemma_media_list_round_trip(items: Seq<MediaV>)
    ensures
        media_list_json_v(items) matches JsonV::Array(s) && media_list_v(s) == Ok::<_, crate::component::ComponentError>(items),
    decreases items.len(),
{
    if let JsonV::Array(s) = media_list_json_v(items) {
        if items.len() == 0 {
            assert(s.len() == 0);
            assert(items =~= Seq::<MediaV>::empty());
        } else {
            let n = items.len() - 1;
            let p = items.subrange(0, n);
            lemma_media_list_round_trip(p);
            lemma_media_round_trip(items[n], crate::component::Field::Items);
            assert(s[n] == media_json_v(items[n]));
            if let JsonV::Array(sp) = media_list_json_v(p) {
                assert(s.subrange(0, n) =~= sp);
            }
            assert(items =~= p.push(items[n]));
        }
    }
}

proof fn lemma_list_round_trip(cs: Seq<ComponentV>)
    requires
        wf_list(cs),
    ensures
        encode_list_v(cs) matches JsonV::Array(s) && decode_list_v(s) == Ok::<_, crate::component::ComponentError>(cs),
    decreases cs,
{
    if let JsonV::Array(s) = encode_list_v(cs) {
        if cs.len() == 0 {
            assert(s.len() == 0);
            assert(cs =~= Seq::<ComponentV>::empty());
        } else {
            let n = cs.len() - 1;
            let p = cs.subrange(0, n);
            lemma_list_round_trip(p);
            lemma_component_round_trip(cs[n]);
            assert(s[n] == encode_v(cs[n]));
            if let JsonV::Array(sp) = encode_list_v(p) {
                assert(s.subrange(0, n) =~= sp);
            }
            assert(cs =~= p.push(cs[n]));
        }
    }
}

proof fn lemma_rt_section(kind: ComponentType, components: Seq<ComponentV>, accessory: Option<Box<ComponentV>>)
    requires
        kind == ComponentType::Section,
        decode_list_v(encode_list_v(components)->Array_0) == Ok::<_, ComponentError>(components),
        accessory matches Some(x) ==> decode_v(encode_v(*x)) == Ok::<_, ComponentError>(*x),
    ensures
        decode_v(encode_v(ComponentV::Section { kind, components, accessory })) == Ok::<_, ComponentError>(ComponentV::Section { kind, components, accessory }),
{
    lemma_key_sigs();
    lemma_code_round_trip(kind);
    let none = Seq::<(Seq<char>, JsonV)>::empty();
    let a = seq![(type_member_v(kind).0, type_member_v(kind).1)];
    let b = seq![("components"@, encode_list_v(components))];
    let c = match accessory {
        Some(x) => seq![("accessory"@, encode_v(*x))],
        None => none,
    };
    let d = none;
    let e = none;
    assert(a + b + c + d + e =~= seq![type_member_v(kind), ("components"@, encode_list_v(components))] + match accessory { Some(x) => seq![("accessory"@, encode_v(*x))], None => none });
    lemma_member_cascade(a, b, c, d, e, "type"@);
    lemma_member_single(type_member_v(kind).0, type_member_v(kind).1, "type"@);
    lemma_member_single("components"@, encode_list_v(components), "type"@);
    if let Some(x) = accessory {
        lemma_member_single("accessory"@, encode_v(*x), "type"@);
    } else {
        lemma_member_empty("type"@);
    }
    lemma_member_empty("type"@);
    lemma_member_cascade(a, b, c, d, e, "components"@);
    lemma_member_single(type_member_v(kind).0, type_member_v(kind).1, "components"@);
    lemma_member_single("components"@, encode_list_v(components), "components"@);
    if let Some(x) = accessory {
        lemma_member_single("accessory"@, encode_v(*x), "components"@);
    } else {
        lemma_member_empty("components"@);
    }
    lemma_member_empty("components"@);
    lemma_member_cascade(a, b, c, d, e, "accessory"@);
    lemma_member_single(type_member_v(kind).0, type_member_v(kind).1, "accessory"@);
    lemma_member_single("components"@, encode_list_v(components), "accessory"@);
    if let Some(x) = accessory {
        lemma_member_single("accessory"@, encode_v(*x), "accessory"@);
    } else {
        lemma_member_empty("accessory"@);
    }
    lemma_member_empty("accessory"@);
    if let Some(x) = accessory {
        assert(encode_v(*x) is Object);
    }
    lemma_list_is_array(components);
}

proof fn lemma_rt_text_display(kind: ComponentType, content: Seq<char>)
    requires
        kind == ComponentType::TextDisplay,
    ensures
        decode_v(encode_v(ComponentV::TextDisplay { kind, content })) == Ok::<_, ComponentError>(ComponentV::TextDisplay { kind, content }),
{
    lemma_key_sigs();
    lemma_code_round_trip(kind);
    let none = Seq::<(Seq<char>, JsonV)>::empty();
    let a = seq![(type_member_v(kind).0, type_member_v(kind).1)];
    let b = seq![("content"@, JsonV::Str(content))];
    let c = none;
    let d = none;
    let e = none;
    assert(a + b + c + d + e =~= seq![type_member_v(kind), ("content"@, JsonV::Str(content))]);
    lemma_member_cascade(a, b, c, d, e, "type"@);
    lemma_member_single(type_member_v(kind).0, type_member_v(kind).1, "type"@);
    lemma_member_single("content"@, JsonV::Str(content), "type"@);
    lemma_member_empty("type"@);
    lemma_member_cascade(a, b, c, d, e, "content"@);
    lemma_member_single(type_member_v(kind).0, type_member_v(kind).1, "content"@);
    lemma_member_single("content"@, JsonV::Str(content), "content"@);
    lemma_member_empty("content"@);
}

proof fn lemma_rt_thumbnail(kind: ComponentType, media: MediaV, description: Option<Seq<char>>, spoiler: Option<bool>)
    requires
        kind == ComponentType::Thumbnail,
    ensures
        decode_v(encode_v(ComponentV::Thumbnail { kind, media, description, spoiler })) == Ok::<_, ComponentError>(ComponentV::Thumbnail { kind, media, description, spoiler }),
{
    lemma_key_sigs();
    lemma_code_round_trip(kind);
    let none = Seq::<(Seq<char>, JsonV)>::empty();
    let a = seq![(type_member_v(kind).0, type_member_v(kind).1)];
    let b = seq![("media"@, media_json_v(media))];
    let c = opt_str_member_v("description"@, description);
    let d = opt_bool_member_v("spoiler"@, spoiler);
    let e = none;
    assert(a + b + c + d + e =~= seq![type_member_v(kind), ("media"@, media_json_v(media))] + opt_str_member_v("description"@, description) + opt_bool_member_v("spoiler"@, spoiler));
    lemma_member_cascade(a, b, c, d, e, "type"@);
    lemma_member_single(type_member_v(kind).0, type_member_v(kind).1, "type"@);
    lemma_member_single("media"@, media_json_v(media), "type"@);
    lemma_opt_members("description"@, "type"@, description, None, None);
    lemma_opt_members("spoiler"@, "type"@, None, spoiler, None);
    lemma_member_empty("type"@);
    lemma_member_cascade(a, b, c, d, e, "media"@);
    lemma_member_single(type_member_v(kind).0, type_member_v(kind).1, "media"@);
    lemma_member_single("media"@, media_json_v(media), "media"@);
    lemma_opt_members("description"@, "media"@, description, None, None);
    lemma_opt_members("spoiler"@, "media"@, None, spoiler, None);
    lemma_member_empty("media"@);
    lemma_member_cascade(a, b, c, d, e, "description"@);
    lemma_member_single(type_member_v(kind).0, type_member_v(kind).1, "description"@);
    lemma_member_single("media"@, media_json_v(media), "description"@);
    lemma_opt_members("description"@, "description"@, description, None, None);
    lemma_opt_members("spoiler"@, "description"@, None, spoiler, None);
    lemma_member_empty("description"@);
    lemma_member_cascade(a, b, c, d, e, "spoiler"@);
    lemma_member_single(type_member_v(kind).0, type_member_v(kind).1, "spoiler"@);
    lemma_member_single("media"@, media_json_v(media), "spoiler"@);
    lemma_opt_members("description"@, "spoiler"@, description, None, None);
    lemma_opt_members("spoiler"@, "spoiler"@, None, spoiler, None);
    lemma_member_empty("spoiler"@);
    lemma_media_round_trip(media, Field::Media);
}

proof fn lemma_rt_media_gallery(kind: ComponentType, items: Seq<MediaV>)
    requires
        kind == ComponentType::MediaGallery,
    ensures
        decode_v(encode_v(ComponentV::MediaGallery { kind, items })) == Ok::<_, ComponentError>(ComponentV::MediaGallery { kind, items }),
{
    lemma_key_sigs();
    lemma_code_round_trip(kind);
    let none = Seq::<(Seq<char>, JsonV)>::empty();
    let a = seq![(type_member_v(kind).0, type_member_v(kind).1)];
    let b = seq![("items"@, media_list_json_v(items))];
    let c = none;
    let d = none;
    let e = none;
    assert(a + b + c + d + e =~= seq![type_member_v(kind), ("items"@, media_list_json_v(items))]);
    lemma_member_cascade(a, b, c, d, e, "type"@);
    lemma_member_single(type_member_v(kind).0, type_member_v(kind).1, "type"@);
    lemma_member_single("items"@, media_list_json_v(items), "type"@);
    lemma_member_empty("type"@);
    lemma_member_cascade(a, b, c, d, e, "items"@);
    lemma_member_single(type_member_v(kind).0, type_member_v(kind).1, "items"@);
    lemma_member_single("items"@, media_list_json_v(items), "items"@);
    lemma_member_empty("items"@);
    lemma_media_list_round_trip(items);
}

proof fn lemma_rt_file(kind: ComponentType, file: MediaV, spoiler: Option<bool>)
    requires
        kind == ComponentType::File,
    ensures
        decode_v(encode_v(ComponentV::File { kind, file, spoiler })) == Ok::<_, ComponentError>(ComponentV::File { kind, file, spoiler }),
{
    lemma_key_sigs();
    lemma_code_round_trip(kind);
    let none = Seq::<(Seq<char>, JsonV)>::empty();
    let a = seq![(type_member_v(kind).0, type_member_v(kind).1)];
    let b = seq![("file"@, media_json_v(file))];
    let c = opt_bool_member_v("spoiler"@, spoiler);
    let d = none;
    let e = none;
    assert(a + b + c + d + e =~= seq![type_member_v(kind), ("file"@, media_json_v(file))] + opt_bool_member_v("spoiler"@, spoiler));
    lemma_member_cascade(a, b, c, d, e, "type"@);
    lemma_member_single(type_member_v(kind).0, type_member_v(kind).1, "type"@);
    lemma_member_single("file"@, media_json_v(file), "type"@);
    lemma_opt_members("spoiler"@, "type"@, None, spoiler, None);
    lemma_member_empty("type"@);
    lemma_member_cascade(a, b, c, d, e, "file"@);
    lemma_member_single(type_member_v(kind).0, type_member_v(kind).1, "file"@);
    lemma_member_single("file"@, media_json_v(file), "file"@);
    lemma_opt_members("spoiler"@, "file"@, None, spoiler, None);
    lemma_member_empty("file"@);
    lemma_member_cascade(a, b, c, d, e, "spoiler"@);
    lemma_member_single(type_member_v(kind).0, type_member_v(kind).1, "spoiler"@);
    lemma_member_single("file"@, media_json_v(file), "spoiler"@);
    lemma_opt_members("spoiler"@, "spoiler"@, None, spoiler, None);
    lemma_member_empty("spoiler"@);
    lemma_media_round_trip(file, Field::File);
}

proof fn lemma_rt_separator(kind: ComponentType, divider: Option<bool>, spacer: Option<u32>)
    requires
        kind == ComponentType::Separator,
    ensures
        decode_v(encode_v(ComponentV::Separator { kind, divider, spacer })) == Ok::<_, ComponentError>(ComponentV::Separator { kind, divider, spacer }),
{
    lemma_key_sigs();
    lemma_code_round_trip(kind);
    let none = Seq::<(Seq<char>, JsonV)>::empty();
    let a = seq![(type_member_v(kind).0, type_member_v(kind).1)];
    let b = opt_bool_member_v("divider"@, divider);
    let c = opt_u32_member_v("spacer"@, spacer);
    let d = none;
    let e = none;
    assert(a + b + c + d + e =~= seq![type_member_v(kind)] + opt_bool_member_v("divider"@, divider) + opt_u32_member_v("spacer"@, spacer));
    lemma_member_cascade(a, b, c, d, e, "type"@);
    lemma_member_single(type_member_v(kind).0, type_member_v(kind).1, "type"@);
    lemma_opt_members("divider"@, "type"@, None, divider, None);
    lemma_opt_members("spacer"@, "type"@, None, None, spacer);
    lemma_member_empty("type"@);
    lemma_member_cascade(a, b, c, d, e, "divider"@);
    lemma_member_single(type_member_v(kind).0, type_member_v(kind).1, "divider"@);
    lemma_opt_members("divider"@, "divider"@, None, divider, None);
    lemma_opt_members("spacer"@, "divider"@, None, None, spacer);
    lemma_member_empty("divider"@);
    lemma_member_cascade(a, b, c, d, e, "spacer"@);
    lemma_member_single(type_member_v(kind).0, type_member_v(kind).1, "spacer"@);
    lemma_opt_members("divider"@, "spacer"@, None, divider, None);
    lemma_opt_members("spacer"@, "spacer"@, None, None, spacer);
    lemma_member_empty("spacer"@);
}

proof fn lemma_rt_label(kind: ComponentType, label: Option<Seq<char>>, description: Option<Seq<char>>, component: Box<ComponentV>)
    requires
        kind == ComponentType::Label,
        decode_v(encode_v(*component)) == Ok::<_, ComponentError>(*component),
    ensures
        decode_v(encode_v(ComponentV::Label { kind, label, description, component })) == Ok::<_, ComponentError>(ComponentV::Label { kind, label, description, component }),
{
    lemma_key_sigs();
    lemma_code_round_trip(kind);
    let none = Seq::<(Seq<char>, JsonV)>::empty();
    let a = seq![(type_member_v(kind).0, type_member_v(kind).1)];
    let b = opt_str_member_v("label"@, label);
    let c = opt_str_member_v("description"@, description);
    let d = seq![("component"@, encode_v(*component))];
    let e = none;
    assert(a + b + c + d + e =~= seq![type_member_v(kind)] + opt_str_member_v("label"@, label) + opt_str_member_v("description"@, description) + seq![("component"@, encode_v(*component))]);
    lemma_member_cascade(a, b, c, d, e, "type"@);
    lemma_member_single(type_member_v(kind).0, type_member_v(kind).1, "type"@);
    lemma_opt_members("label"@, "type"@, label, None, None);
    lemma_opt_members("description"@, "type"@, description, None, None);
    lemma_member_single("component"@, encode_v(*component), "type"@);
    lemma_member_empty("type"@);
    lemma_member_cascade(a, b, c, d, e, "label"@);
    lemma_member_single(type_member_v(kind).0, type_member_v(kind).1, "label"@);
    lemma_opt_members("label"@, "label"@, label, None, None);
    lemma_opt_members("description"@, "label"@, description, None, None);
    lemma_member_single("component"@, encode_v(*component), "label"@);
    lemma_member_empty("label"@);
    lemma_member_cascade(a, b, c, d, e, "description"@);
    lemma_member_single(type_member_v(kind).0, type_member_v(kind).1, "description"@);
    lemma_opt_members("label"@, "description"@, label, None, None);
    lemma_opt_members("description"@, "description"@, description, None, None);
    lemma_member_single("component"@, encode_v(*component), "description"@);
    lemma_member_empty("description"@);
    lemma_member_cascade(a, b, c, d, e, "component"@);
    lemma_member_single(type_member_v(kind).0, type_member_v(kind).1, "component"@);
    lemma_opt_members("label"@, "component"@, label, None, None);
    lemma_opt_members("description"@, "component"@, description, None, None);
    lemma_member_single("component"@, encode_v(*component), "component"@);
    lemma_member_empty("component"@);
}

proof fn lemma_rt_action_row(kind: ComponentType, components: Seq<ComponentV>)
    requires
        kind == ComponentType::ActionRow,
        decode_list_v(encode_list_v(components)->Array_0) == Ok::<_, ComponentError>(components),
    ensures
        decode_v(encode_v(ComponentV::ActionRow { kind, components })) == Ok::<_, ComponentError>(ComponentV::ActionRow { kind, components }),
{
    lemma_key_sigs();
    lemma_code_round_trip(kind);
    let none = Seq::<(Seq<char>, JsonV)>::empty();
    let a = seq![(type_member_v(kind).0, type_member_v(kind).1)];
    let b = seq![("components"@, encode_list_v(components))];
    let c = none;
    let d = none;
    let e = none;
    assert(a + b + c + d + e =~= seq![type_member_v(kind), ("components"@, encode_list_v(components))]);
    lemma_member_cascade(a, b, c, d, e, "type"@);
    lemma_member_single(type_member_v(kind).0, type_member_v(kind).1, "type"@);
    lemma_member_single("components"@, encode_list_v(components), "type"@);
    lemma_member_empty("type"@);
    lemma_member_cascade(a, b, c, d, e, "components"@);
    lemma_member_single(type_member_v(kind).0, type_member_v(kind).1, "components"@);
    lemma_member_single("components"@, encode_list_v(components), "components"@);
    lemma_member_empty("components"@);
    lemma_list_is_array(components);
}

proof fn lemma_rt_container(kind: ComponentType, components: Seq<ComponentV>)
    requires
        kind == ComponentType::Container,
        decode_list_v(encode_list_v(components)->Array_0) == Ok::<_, ComponentError>(components),
    ensures
        decode_v(encode_v(ComponentV::Container { kind, components })) == Ok::<_, ComponentError>(ComponentV::Container { kind, components }),
{
    lemma_key_sigs();
    lemma_code_round_trip(kind);
    let none = Seq::<(Seq<char>, JsonV)>::empty();
    let a = seq![(type_member_v(kind).0, type_member_v(kind).1)];
    let b = seq![("components"@, encode_list_v(components))];
    let c = none;
    let d = none;
    let e = none;
    assert(a + b + c + d + e =~= seq![type_member_v(kind), ("components"@, encode_list_v(components))]);
    lemma_member_cascade(a, b, c, d, e, "type"@);
    lemma_member_single(type_member_v(kind).0, type_member_v(kind).1, "type"@);
    lemma_member_single("components"@, encode_list_v(components), "type"@);
    lemma_member_empty("type"@);
    lemma_member_cascade(a, b, c, d, e, "components"@);
    lemma_member_single(type_member_v(kind).0, type_member_v(kind).1, "components"@);
    lemma_member_single("components"@, encode_list_v(components), "components"@);
    lemma_member_empty("components"@);
    lemma_list_is_array(components);
}

proof fn lemma_rt_button(kind: ComponentType, attributes: MembersV)
    requires
        kind == ComponentType::Button,
        no_type_key(attributes),
    ensures
        decode_v(encode_v(ComponentV::Button { kind, attributes })) == Ok::<_, ComponentError>(ComponentV::Button { kind, attributes }),
{
    lemma_code_round_trip(kind);
    let a = seq![type_member_v(kind)];
    lemma_member_concat(a, attributes, "type"@);
    lemma_member_single(type_member_v(kind).0, type_member_v(kind).1, "type"@);
    lemma_without_type(type_member_v(kind), attributes);
}

proof fn lemma_rt_select_menu(kind: ComponentType, attributes: MembersV)
    requires
        is_select_kind(kind),
        no_type_key(attributes),
    ensures
        decode_v(encode_v(ComponentV::SelectMenu { kind, attributes })) == Ok::<_, ComponentError>(ComponentV::SelectMenu { kind, attributes }),
{
    lemma_code_round_trip(kind);
    let a = seq![type_member_v(kind)];
    lemma_member_concat(a, attributes, "type"@);
    lemma_member_single(type_member_v(kind).0, type_member_v(kind).1, "type"@);
    lemma_without_type(type_member_v(kind), attributes);
}

proof fn lemma_rt_input_text(kind: ComponentType, attributes: MembersV)
    requires
        kind == ComponentType::InputText,
        no_type_key(attributes),
    ensures
        decode_v(encode_v(ComponentV::InputText { kind, attributes })) == Ok::<_, ComponentError>(ComponentV::InputText { kind, attributes }),
{
    lemma_code_round_trip(kind);
    let a = seq![type_member_v(kind)];
    lemma_member_concat(a, attributes, "type"@);
    lemma_member_single(type_member_v(kind).0, type_member_v(kind).1, "type"@);
    lemma_without_type(type_member_v(kind), attributes);
}

proof fn lemma_list_is_array(cs: Seq<ComponentV>)
    ensures
        encode_list_v(cs) is Array,
{
}

/// Encoding a well-formed component and decoding the result gives the same
/// component back.
pub proof fn lemma_component_round_trip(c: ComponentV)
    requires
        wf_component(c),
    ensures
        decode_v(encode_v(c)) == Ok::<_, ComponentError>(c),
    decreases c,
{
    match c {
        ComponentV::Section { kind, components, accessory } => {
            lemma_list_round_trip(components);
            if let Some(x) = accessory {
                lemma_component_round_trip(*x);
            }
            lemma_rt_section(kind, components, accessory);
        },
        ComponentV::TextDisplay { kind, content } => {
            lemma_rt_text_display(kind, content);
        },
        ComponentV::Thumbnail { kind, media, description, spoiler } => {
            lemma_rt_thumbnail(kind, media, description, spoiler);
        },
        ComponentV::MediaGallery { kind, items } => {
            lemma_rt_media_gallery(kind, items);
        },
        ComponentV::File { kind, file, spoiler } => {
            lemma_rt_file(kind, file, spoiler);
        },
        ComponentV::Separator { kind, divider, spacer } => {
            lemma_rt_separator(kind, divider, spacer);
        },
        ComponentV::Label { kind, label, description, component } => {
            lemma_component_round_trip(*component);
            lemma_rt_label(kind, label, description, component);
        },
        ComponentV::ActionRow { kind, components } => {
            lemma_list_round_trip(components);
            lemma_rt_action_row(kind, components);
        },
        ComponentV::Container { kind, components } => {
            lemma_list_round_trip(components);
            lemma_rt_container(kind, components);
        },
        ComponentV::Button { kind, attributes } => {
            lemma_rt_button(kind, attributes);
        },
        ComponentV::SelectMenu { kind, attributes } => {
            lemma_rt_select_menu(kind, attributes);
        },
        ComponentV::InputText { kind, attributes } => {
            lemma_rt_input_text(kind, attributes);
        },
    }
}

/// Every select code decodes to the one select-menu variant, which keeps the
/// exact kind that the code names.
pub proof fn lemma_select_collapse(ms: MembersV)
    requires
        type_code_v(ms) matches Some(k) && (k == 3 || k == 5 || k == 6 || k == 7 || k == 8),
    ensures
        decode_v(JsonV::Object(ms)) matches Ok(ComponentV::SelectMenu { kind, attributes })
            && code_of(kind) == type_code_v(ms)->Some_0 && is_select_kind(kind)
            && attributes == without_key(ms, "type"@),
{
}

} // verus!
