//! Structs and enums of the reactions module, and the codec between a
//! [`ReactionValue`] and its wire record.

use crate::text::same_text;
use cosmwasm_std::{Addr, Uint64};
use vstd::prelude::*;

verus! {

/// A single reaction to a post.
#[derive(Clone, Debug, PartialEq)]
pub struct Reaction {
    /// Id of the subspace inside which the reaction has been put.
    pub subspace_id: Uint64,
    /// Id of the post to which the reaction is associated.
    pub post_id: Uint64,
    /// Id of the reaction within the post.
    pub id: u32,
    /// Value of the reaction.
    pub value: RawReactionValue,
    /// Author of the reaction.
    pub author: Addr,
}

/// Type identifier of [`ReactionValue::Registered`].
pub const REGISTERED_REACTION_VALUE_TYPE_URI: &'static str =
    "/desmos.reactions.v1.RegisteredReactionValue";

/// Type identifier of [`ReactionValue::FreeText`].
pub const FREE_TEXT_VALUE_TYPE_URI: &'static str = "/desmos.reactions.v1.FreeTextValue";

/// Name of the wire field that a registered reaction requires.
pub const REGISTERED_REACTION_ID_FIELD: &'static str = "registered_reaction_id";

/// Name of the wire field that a free text reaction requires.
pub const TEXT_FIELD: &'static str = "text";

/// Wire record of a reaction value: a type identifier and the union of the
/// fields of all variants, each optional.
#[derive(Clone, Debug, PartialEq)]
pub struct RawReactionValue {
    /// Type identifier: [`REGISTERED_REACTION_VALUE_TYPE_URI`] or
    /// [`FREE_TEXT_VALUE_TYPE_URI`] in a well-formed record.
    pub type_uri: String,
    /// Id of the registered reaction, present for a registered reaction.
    pub registered_reaction_id: Option<u32>,
    /// Text of the reaction, present for a free text reaction.
    pub text: Option<String>,
}

/// Reaction value that can be added to a post.
#[derive(Clone, Debug, PartialEq)]
pub enum ReactionValue {
    /// A reaction registered inside the subspace.
    Registered {
        /// Id of the registered reaction.
        registered_reaction_id: u32,
    },
    /// A free text reaction.
    FreeText {
        /// Text of the reaction value.
        text: String,
    },
}

/// Errors of [`ReactionValue::try_from`].
#[derive(Clone, Debug, PartialEq)]
pub enum UnwrapReactionValueError {
    /// The type identifier names no reaction value; holds the identifier.
    UnknownReactionValue(String),
    /// The record is tagged as registered reaction but lacks a field; holds
    /// the field's name.
    InvalidRegisteredReactionValue(String),
    /// The record is tagged as free text reaction but lacks a field; holds
    /// the field's name.
    InvalidFreeTextValue(String),
}

/// The variants of a reaction value: the rows of the table that the codec
/// goes by. Each has a type identifier and one required wire field.
#[derive(Clone, Copy, Debug, PartialEq, Eq, Structural)]
pub enum ReactionValueKind {
    /// [`ReactionValue::Registered`].
    Registered,
    /// [`ReactionValue::FreeText`].
    FreeText,
}

/// A reaction registered within a subspace.
#[derive(Clone, Debug, PartialEq)]
pub struct RegisteredReaction {
    /// Id of the subspace for which this reaction has been registered.
    pub subspace_id: Uint64,
    /// Id of the registered reaction.
    pub id: u32,
    /// Unique shorthand code associated to this reaction.
    pub shorthand_code: String,
    /// Value that should be displayed when using this reaction.
    pub display_value: String,
}

/// Reaction parameters of a single subspace.
#[derive(Clone, Debug, PartialEq)]
pub struct SubspaceReactionsParams {
    /// Id of the subspace for which these params are valid.
    pub subspace_id: Uint64,
    /// Params of [`ReactionValue::Registered`] reactions.
    pub registered_reaction: RegisteredReactionValueParams,
    /// Params of [`ReactionValue::FreeText`] reactions.
    pub free_text: FreeTextValueParams,
}

/// Params of [`ReactionValue::FreeText`] reactions.
#[derive(Clone, Debug, PartialEq)]
pub struct FreeTextValueParams {
    /// Whether [`ReactionValue::FreeText`] reactions are enabled.
    pub enabled: bool,
    /// The greatest length of a [`ReactionValue::FreeText`] reaction.
    pub max_length: u32,
    /// Regular expression that each [`ReactionValue::FreeText`] has to match.
    pub reg_ex: String,
}

/// Params of [`ReactionValue::Registered`] reactions.
#[derive(Clone, Debug, PartialEq)]
pub struct RegisteredReactionValueParams {
    /// Whether [`ReactionValue::Registered`] reactions are enabled.
    pub enabled: bool,
}

/// Mathematical value of a [`RawReactionValue`].
pub struct RawReactionValueView {
    pub type_uri: Seq<char>,
    pub registered_reaction_id: Option<u32>,
    pub text: Option<Seq<char>>,
}

/// Mathematical value of a [`ReactionValue`].
pub enum ReactionValueView {
    Registered { registered_reaction_id: u32 },
    FreeText { text: Seq<char> },
}

/// Mathematical value of an [`UnwrapReactionValueError`].
pub enum UnwrapReactionValueErrorView {
    UnknownReactionValue(Seq<char>),
    InvalidRegisteredReactionValue(Seq<char>),
    InvalidFreeTextValue(Seq<char>),
}

impl View for RawReactionValue {
    type V = RawReactionValueView;

    open spec fn view(&self) -> RawReactionValueView {
        RawReactionValueView {
            type_uri: self.type_uri@,
            registered_reaction_id: self.registered_reaction_id,
            text: match self.text {
                Some(text) => Some(text@),
                None => None,
            },
        }
    }
}

impl View for ReactionValue {
    type V = ReactionValueView;

    open spec fn view(&self) -> ReactionValueView {
        match self {
            ReactionValue::Registered { registered_reaction_id } => ReactionValueView::Registered {
                registered_reaction_id: *registered_reaction_id,
            },
            ReactionValue::FreeText { text } => ReactionValueView::FreeText { text: text@ },
        }
    }
}

impl View for UnwrapReactionValueError {
    type V = UnwrapReactionValueErrorView;

    open spec fn view(&self) -> UnwrapReactionValueErrorView {
        match self {
            UnwrapReactionValueError::UnknownReactionValue(type_uri) =>
                UnwrapReactionValueErrorView::UnknownReactionValue(type_uri@),
            UnwrapReactionValueError::InvalidRegisteredReactionValue(field) =>
                UnwrapReactionValueErrorView::InvalidRegisteredReactionValue(field@),
            UnwrapReactionValueError::InvalidFreeTextValue(field) =>
                UnwrapReactionValueErrorView::InvalidFreeTextValue(field@),
        }
    }
}

/// The wire record that stands for a reaction value: the identifier of its
/// variant, the variant's own field, and nothing else.
pub open spec fn encode(value: ReactionValueView) -> RawReactionValueView {
    match value {
        ReactionValueView::Registered { registered_reaction_id } => RawReactionValueView {
            type_uri: REGISTERED_REACTION_VALUE_TYPE_URI@,
            registered_reaction_id: Some(registered_reaction_id),
            text: None,
        },
        ReactionValueView::FreeText { text } => RawReactionValueView {
            type_uri: FREE_TEXT_VALUE_TYPE_URI@,
            registered_reaction_id: None,
            text: Some(text),
        },
    }
}

impl ReactionValueKind {
    /// The type identifier registered for the variant.
    pub open spec fn spec_type_uri(self) -> Seq<char> {
        match self {
            ReactionValueKind::Registered => REGISTERED_REACTION_VALUE_TYPE_URI@,
            ReactionValueKind::FreeText => FREE_TEXT_VALUE_TYPE_URI@,
        }
    }

    /// The name of the wire field that the variant requires.
    pub open spec fn spec_required_field(self) -> Seq<char> {
        match self {
            ReactionValueKind::Registered => REGISTERED_REACTION_ID_FIELD@,
            ReactionValueKind::FreeText => TEXT_FIELD@,
        }
    }

    /// The variant that a type identifier is registered for, if any.
    pub open spec fn spec_from_type_uri(type_uri: Seq<char>) -> Option<ReactionValueKind> {
        if type_uri == REGISTERED_REACTION_VALUE_TYPE_URI@ {
            Some(ReactionValueKind::Registered)
        } else if type_uri == FREE_TEXT_VALUE_TYPE_URI@ {
            Some(ReactionValueKind::FreeText)
        } else {
            None
        }
    }

    /// The error that tells that a record of the variant lacks `field`.
    pub open spec fn spec_missing(self, field: Seq<char>) -> UnwrapReactionValueErrorView {
        match self {
            ReactionValueKind::Registered =>
                UnwrapReactionValueErrorView::InvalidRegisteredReactionValue(field),
            ReactionValueKind::FreeText => UnwrapReactionValueErrorView::InvalidFreeTextValue(
                field,
            ),
        }
    }

    /// The type identifier registered for the variant.
    pub fn type_uri(&self) -> (type_uri: &'static str)
        ensures
            type_uri@ == self.spec_type_uri(),
    {
        match self {
            ReactionValueKind::Registered => REGISTERED_REACTION_VALUE_TYPE_URI,
            ReactionValueKind::FreeText => FREE_TEXT_VALUE_TYPE_URI,
        }
    }

    /// The name of the wire field that the variant requires.
    pub fn required_field(&self) -> (field: &'static str)
        ensures
            field@ == self.spec_required_field(),
    {
        match self {
            ReactionValueKind::Registered => REGISTERED_REACTION_ID_FIELD,
            ReactionValueKind::FreeText => TEXT_FIELD,
        }
    }

    /// Looks a type identifier up among the registered ones.
    pub fn from_type_uri(type_uri: &str) -> (kind: Option<ReactionValueKind>)
        ensures
            kind == Self::spec_from_type_uri(type_uri@),
    {
        if same_text(type_uri, REGISTERED_REACTION_VALUE_TYPE_URI) {
            Some(ReactionValueKind::Registered)
        } else if same_text(type_uri, FREE_TEXT_VALUE_TYPE_URI) {
            Some(ReactionValueKind::FreeText)
        } else {
            None
        }
    }

    /// The error that tells that a record of the variant lacks its required
    /// field.
    pub fn missing_field(&self) -> (error: UnwrapReactionValueError)
        ensures
            error@ == self.spec_missing(self.spec_required_field()),
    {
        let field = self.required_field().to_owned();
        match self {
            ReactionValueKind::Registered =>
                UnwrapReactionValueError::InvalidRegisteredReactionValue(field),
            ReactionValueKind::FreeText => UnwrapReactionValueError::InvalidFreeTextValue(field),
        }
    }
}

/// The variant of a reaction value.
pub open spec fn kind_of(value: ReactionValueView) -> ReactionValueKind {
    match value {
        ReactionValueView::Registered { .. } => ReactionValueKind::Registered,
        ReactionValueView::FreeText { .. } => ReactionValueKind::FreeText,
    }
}

/// Whether a record holds the field that a variant requires.
pub open spec fn has_required_field(raw: RawReactionValueView, kind: ReactionValueKind) -> bool {
    match kind {
        ReactionValueKind::Registered => raw.registered_reaction_id is Some,
        ReactionValueKind::FreeText => raw.text is Some,
    }
}

/// The value of a variant that a record holding the variant's field stands
/// for. Fields of other variants are not looked at.
pub open spec fn build(raw: RawReactionValueView, kind: ReactionValueKind) -> ReactionValueView
    recommends
        has_required_field(raw, kind),
{
    match kind {
        ReactionValueKind::Registered => ReactionValueView::Registered {
            registered_reaction_id: raw.registered_reaction_id->Some_0,
        },
        ReactionValueKind::FreeText => ReactionValueView::FreeText { text: raw.text->Some_0 },
    }
}

/// What a wire record decodes to. The type identifier is looked up among the
/// registered ones: an unknown one is refused, with the identifier. The
/// variant found is built from its required field; where that field is
/// absent the record is refused, with the variant and the field's name.
pub open spec fn decode(raw: RawReactionValueView) -> Result<
    ReactionValueView,
    UnwrapReactionValueErrorView,
> {
    match ReactionValueKind::spec_from_type_uri(raw.type_uri) {
        None => Err(UnwrapReactionValueErrorView::UnknownReactionValue(raw.type_uri)),
        Some(kind) => if has_required_field(raw, kind) {
            Ok(build(raw, kind))
        } else {
            Err(kind.spec_missing(kind.spec_required_field()))
        },
    }
}

/// A record is well formed when it carries a registered identifier and
/// exactly the field of the variant that the identifier names.
pub open spec fn well_formed(raw: RawReactionValueView) -> bool {
    ||| (raw.type_uri == REGISTERED_REACTION_VALUE_TYPE_URI@
        && raw.registered_reaction_id is Some && raw.text is None)
    ||| (raw.type_uri == FREE_TEXT_VALUE_TYPE_URI@ && raw.text is Some
        && raw.registered_reaction_id is None)
}

/// The two type identifiers are different strings.
pub proof fn lemma_type_uris_differ()
    ensures
        REGISTERED_REACTION_VALUE_TYPE_URI@ != FREE_TEXT_VALUE_TYPE_URI@,
{
    reveal_strlit("/desmos.reactions.v1.RegisteredReactionValue");
    reveal_strlit("/desmos.reactions.v1.FreeTextValue");
    assert(REGISTERED_REACTION_VALUE_TYPE_URI@.len() != FREE_TEXT_VALUE_TYPE_URI@.len());
}

/// Type identifiers are unique within the family: looking up the identifier
/// of a variant finds that variant, and an identifier that is found is the
/// identifier of the variant found.
pub proof fn lemma_type_uri_names_one_kind(kind: ReactionValueKind, type_uri: Seq<char>)
    ensures
        ReactionValueKind::spec_from_type_uri(kind.spec_type_uri()) == Some(kind),
        ReactionValueKind::spec_from_type_uri(type_uri) == Some(kind) ==> type_uri
            == kind.spec_type_uri(),
{
    lemma_type_uris_differ();
}

/// Round trip from the domain: every reaction value encodes to a well formed
/// record, and decoding that record gives the value back.
pub proof fn lemma_decode_encode(value: ReactionValueView)
    ensures
        well_formed(encode(value)),
        encode(value).type_uri == kind_of(value).spec_type_uri(),
        decode(encode(value)) == Ok::<ReactionValueView, UnwrapReactionValueErrorView>(value),
{
    lemma_type_uris_differ();
}

/// Round trip from the wire: a well formed record decodes, and encoding the
/// decoded value gives the record back.
pub proof fn lemma_encode_decode(raw: RawReactionValueView)
    requires
        well_formed(raw),
    ensures
        decode(raw) is Ok,
        encode(decode(raw)->Ok_0) == raw,
{
    lemma_type_uris_differ();
}

/// Rejection: a record whose type identifier is not registered decodes to
/// `UnknownReactionValue`, which holds the identifier.
pub proof fn lemma_unknown_type_uri_is_rejected(raw: RawReactionValueView)
    requires
        forall|kind: ReactionValueKind| raw.type_uri != kind.spec_type_uri(),
    ensures
        decode(raw) == Err::<ReactionValueView, UnwrapReactionValueErrorView>(
            UnwrapReactionValueErrorView::UnknownReactionValue(raw.type_uri),
        ),
{
    assert(raw.type_uri != ReactionValueKind::Registered.spec_type_uri());
    assert(raw.type_uri != ReactionValueKind::FreeText.spec_type_uri());
}

/// Required field: a record that carries the identifier of a variant and
/// lacks the field which that variant requires decodes to the variant's
/// error, which names that field; whatever the other fields hold.
pub proof fn lemma_missing_field_is_named(raw: RawReactionValueView, kind: ReactionValueKind)
    requires
        raw.type_uri == kind.spec_type_uri(),
        !has_required_field(raw, kind),
    ensures
        decode(raw) == Err::<ReactionValueView, UnwrapReactionValueErrorView>(
            kind.spec_missing(kind.spec_required_field()),
        ),
        kind == ReactionValueKind::Registered ==> decode(raw) == Err::<
            ReactionValueView,
            UnwrapReactionValueErrorView,
        >(
            UnwrapReactionValueErrorView::InvalidRegisteredReactionValue(
                "registered_reaction_id"@,
            ),
        ),
        kind == ReactionValueKind::FreeText ==> decode(raw) == Err::<
            ReactionValueView,
            UnwrapReactionValueErrorView,
        >(UnwrapReactionValueErrorView::InvalidFreeTextValue("text"@)),
{
    lemma_type_uri_names_one_kind(kind, raw.type_uri);
}

/// Relates the outcome of a decoding to the outcome that [`decode`] gives.
pub open spec fn decodes_to(
    outcome: Result<ReactionValue, UnwrapReactionValueError>,
    expected: Result<ReactionValueView, UnwrapReactionValueErrorView>,
) -> bool {
    match outcome {
        Ok(value) => expected == Ok::<ReactionValueView, UnwrapReactionValueErrorView>(value@),
        Err(error) => expected == Err::<ReactionValueView, UnwrapReactionValueErrorView>(error@),
    }
}

impl From<ReactionValue> for RawReactionValue {
    /// Encodes a reaction value as its wire record.
    fn from(reaction: ReactionValue) -> (raw: RawReactionValue)
        ensures
            raw@ == encode(reaction@),
    {
        let type_uri = reaction.kind().type_uri().to_owned();
        match reaction {
            ReactionValue::Registered { registered_reaction_id } => RawReactionValue {
                type_uri,
                registered_reaction_id: Some(registered_reaction_id),
                text: None,
            },
            ReactionValue::FreeText { text } => RawReactionValue {
                type_uri,
                registered_reaction_id: None,
                text: Some(text),
            },
        }
    }
}

/// The record made by `from` holds a new string, of which the characters
/// are known and nothing else: `from` is described by its own `ensures`, and
/// `from_spec` stands for any record with the right characters.
impl vstd::std_specs::convert::FromSpecImpl<ReactionValue> for RawReactionValue {
    open spec fn obeys_from_spec() -> bool {
        false
    }

    open spec fn from_spec(reaction: ReactionValue) -> RawReactionValue {
        choose|raw: RawReactionValue| raw@ == encode(reaction@)
    }
}

impl TryFrom<RawReactionValue> for ReactionValue {
    type Error = UnwrapReactionValueError;

    /// Decodes a wire record, checking that the field which the identified
    /// variant requires is present.
    fn try_from(value: RawReactionValue) -> (outcome: Result<
        ReactionValue,
        UnwrapReactionValueError,
    >)
        ensures
            decodes_to(outcome, decode(value@)),
    {
        match ReactionValueKind::from_type_uri(value.type_uri.as_str()) {
            None => Err(UnwrapReactionValueError::UnknownReactionValue(value.type_uri)),
            Some(kind) => match kind {
                ReactionValueKind::Registered => match value.registered_reaction_id {
                    Some(registered_reaction_id) => Ok(
                        ReactionValue::Registered { registered_reaction_id },
                    ),
                    None => Err(kind.missing_field()),
                },
                ReactionValueKind::FreeText => match value.text {
                    Some(text) => Ok(ReactionValue::FreeText { text }),
                    None => Err(kind.missing_field()),
                },
            },
        }
    }
}

/// An error of `try_from` holds a new string, of which the characters are
/// known and nothing else: `try_from` is described by its own `ensures`, and
/// `try_from_spec` stands for any outcome with the right characters.
impl vstd::std_specs::convert::TryFromSpecImpl<RawReactionValue> for ReactionValue {
    open spec fn obeys_try_from_spec() -> bool {
        false
    }

    open spec fn try_from_spec(value: RawReactionValue) -> Result<
        ReactionValue,
        UnwrapReactionValueError,
    > {
        choose|outcome: Result<ReactionValue, UnwrapReactionValueError>|
            decodes_to(outcome, decode(value@))
    }
}

impl ReactionValue {
    /// The variant of the value.
    pub fn kind(&self) -> (kind: ReactionValueKind)
        ensures
            kind == kind_of(self@),
    {
        match self {
            ReactionValue::Registered { .. } => ReactionValueKind::Registered,
            ReactionValue::FreeText { .. } => ReactionValueKind::FreeText,
        }
    }
}

} // verus!
