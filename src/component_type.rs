use vstd::prelude::*;

verus! {

/// The numeric kind of a UI component. Codes 15 and 16 are reserved.
#[derive(Debug, Clone, Copy, PartialEq, Eq, Structural)]
pub enum ComponentType {
    ActionRow,
    Button,
    SelectMenu,
    InputText,
    UserSelect,
    RoleSelect,
    MentionableSelect,
    ChannelSelect,
    Section,
    TextDisplay,
    Thumbnail,
    MediaGallery,
    File,
    Separator,
    Container,
    Label,
}

/// The wire code of each kind.
pub open spec fn code_of(t: ComponentType) -> nat {
    match t {
        ComponentType::ActionRow => 1,
        ComponentType::Button => 2,
        ComponentType::SelectMenu => 3,
        ComponentType::InputText => 4,
        ComponentType::UserSelect => 5,
        ComponentType::RoleSelect => 6,
        ComponentType::MentionableSelect => 7,
        ComponentType::ChannelSelect => 8,
        ComponentType::Section => 9,
        ComponentType::TextDisplay => 10,
        ComponentType::Thumbnail => 11,
        ComponentType::MediaGallery => 12,
        ComponentType::File => 13,
        ComponentType::Separator => 14,
        ComponentType::Container => 17,
        ComponentType::Label => 18,
    }
}

/// The codes that name a kind: 1 through 14, 17 and 18.
pub open spec fn is_valid_code(n: int) -> bool {
    (1 <= n <= 14) || n == 17 || n == 18
}

/// The kind that a valid code names.
pub open spec fn type_of_code(n: int) -> Option<ComponentType> {
    if n == 1 { Some(ComponentType::ActionRow) }
    else if n == 2 { Some(ComponentType::Button) }
    else if n == 3 { Some(ComponentType::SelectMenu) }
    else if n == 4 { Some(ComponentType::InputText) }
    else if n == 5 { Some(ComponentType::UserSelect) }
    else if n == 6 { Some(ComponentType::RoleSelect) }
    else if n == 7 { Some(ComponentType::MentionableSelect) }
    else if n == 8 { Some(ComponentType::ChannelSelect) }
    else if n == 9 { Some(ComponentType::Section) }
    else if n == 10 { Some(ComponentType::TextDisplay) }
    else if n == 11 { Some(ComponentType::Thumbnail) }
    else if n == 12 { Some(ComponentType::MediaGallery) }
    else if n == 13 { Some(ComponentType::File) }
    else if n == 14 { Some(ComponentType::Separator) }
    else if n == 17 { Some(ComponentType::Container) }
    else if n == 18 { Some(ComponentType::Label) }
    else { None }
}

/// The five kinds of select menu, which share one component variant.
pub open spec fn is_select_kind(t: ComponentType) -> bool {
    t == ComponentType::SelectMenu || t == ComponentType::UserSelect
        || t == ComponentType::RoleSelect || t == ComponentType::MentionableSelect
        || t == ComponentType::ChannelSelect
}

impl ComponentType {
    /// The kind with code `value`, or `Err(value)` where no kind has that code.
    pub fn from_int(value: u64) -> (r: Result<ComponentType, u64>)
        ensures
            is_valid_code(value as int) <==> r is Ok,
            r matches Ok(t) ==> code_of(t) == value && type_of_code(value as int) == Some(t),
            r matches Err(n) ==> n == value,
    {
        match value {
            1 => Ok(ComponentType::ActionRow),
            2 => Ok(ComponentType::Button),
            3 => Ok(ComponentType::SelectMenu),
            4 => Ok(ComponentType::InputText),
            5 => Ok(ComponentType::UserSelect),
            6 => Ok(ComponentType::RoleSelect),
            7 => Ok(ComponentType::MentionableSelect),
            8 => Ok(ComponentType::ChannelSelect),
            9 => Ok(ComponentType::Section),
            10 => Ok(ComponentType::TextDisplay),
            11 => Ok(ComponentType::Thumbnail),
            12 => Ok(ComponentType::MediaGallery),
            13 => Ok(ComponentType::File),
            14 => Ok(ComponentType::Separator),
            17 => Ok(ComponentType::Container),
            18 => Ok(ComponentType::Label),
            _ => Err(value),
        }
    }

    /// The wire code of this kind.
    pub fn to_int(self) -> (r: u8)
        ensures
            r as nat == code_of(self),
    {
        match self {
            ComponentType::ActionRow => 1,
            ComponentType::Button => 2,
            ComponentType::SelectMenu => 3,
            ComponentType::InputText => 4,
            ComponentType::UserSelect => 5,
            ComponentType::RoleSelect => 6,
            ComponentType::MentionableSelect => 7,
            ComponentType::ChannelSelect => 8,
            ComponentType::Section => 9,
            ComponentType::TextDisplay => 10,
            ComponentType::Thumbnail => 11,
            ComponentType::MediaGallery => 12,
            ComponentType::File => 13,
            ComponentType::Separator => 14,
            ComponentType::Container => 17,
            ComponentType::Label => 18,
        }
    }
}

/// Every kind's code is valid and reads back as that kind.
pub proof fn lemma_code_round_trip(t: ComponentType)
    ensures
        is_valid_code(code_of(t) as int),
        type_of_code(code_of(t) as int) == Some(t),
{
}

/// No code outside 1..=14, 17 and 18 names a kind, reserved 15 and 16 included.
pub proof fn lemma_invalid_codes(n: int)
    requires
        !((1 <= n <= 14) || n == 17 || n == 18),
    ensures
        type_of_code(n) is None,
        forall|t: ComponentType| code_of(t) != n,
{
}

} // verus!
