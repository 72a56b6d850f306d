//! Structs and enums of the reports module, and the codec between a
//! [`ReportTarget`] and its wire record.

use crate::cosmwasm::addr_unchecked;
use crate::text::same_text;
use cosmwasm_std::{Addr, Uint64};
use vstd::prelude::*;

verus! {

/// Type identifier of [`ReportTarget::User`].
pub const USER_REPORT_TARGET_TYPE_URI: &'static str = "/desmos.reports.v1.UserTarget";

/// Type identifier of [`ReportTarget::Post`].
pub const POST_REPORT_TARGET_TYPE_URI: &'static str = "/desmos.reports.v1.PostTarget";

/// Name of the wire field that a user target requires.
pub const USER_FIELD: &'static str = "user";

/// Name of the wire field that a post target requires.
pub const POST_ID_FIELD: &'static str = "post_id";

/// A report made inside a subspace.
#[derive(Clone, Debug, PartialEq)]
pub struct Report {
    /// Id of the subspace for which the report has been created.
    pub subspace_id: Uint64,
    /// Id of the report.
    pub id: Uint64,
    /// Ids of the reasons this report has been created for.
    pub reasons_ids: Vec<u32>,
    /// Message attached to this report.
    pub message: Option<String>,
    /// Address of the reporter.
    pub reporter: Addr,
    /// Target of the report.
    pub target: RawReportTarget,
    /// Time at which the report was created, in RFC 3339 format.
    pub creation_date: String,
}

/// Wire record of a [`ReportTarget`]: a type identifier and the union of the
/// fields of all variants, each optional.
#[derive(Clone, Debug, PartialEq)]
pub struct RawReportTarget {
    /// Type identifier: [`USER_REPORT_TARGET_TYPE_URI`] or
    /// [`POST_REPORT_TARGET_TYPE_URI`] in a well-formed record.
    pub type_uri: String,
    /// Address of the reported user, present for a user target.
    pub user: Option<Addr>,
    /// Id of the reported post, present for a post target.
    pub post_id: Option<Uint64>,
}

/// What a report can be about.
#[derive(Clone, Debug, PartialEq)]
pub enum ReportTarget {
    /// A report about a user.
    User {
        /// Address of the reported user.
        user: Addr,
    },
    /// A report about a post.
    Post {
        /// Id of the reported post.
        post_id: Uint64,
    },
}

/// A reason for which a report can be made.
#[derive(Clone, Debug, PartialEq)]
pub struct Reason {
    /// Id of the subspace for which this reason is valid.
    pub subspace_id: Uint64,
    /// Id of the reason inside the subspace.
    pub id: u32,
    /// Title of the reason.
    pub title: String,
    /// Extended description of the reason and the cases it applies to.
    pub description: Option<String>,
}

/// Errors of [`ReportTarget::try_from`].
#[derive(Clone, Debug, PartialEq)]
pub enum UnwrapReportTargetError {
    /// The type identifier names no report target; holds the identifier.
    UnknownType(String),
    /// The record is tagged as user target but lacks a field; holds the
    /// field's name.
    InvalidUserTarget(String),
    /// The record is tagged as post target but lacks a field; holds the
    /// field's name.
    InvalidPostTarget(String),
}

/// The variants of a report target: the rows of the table that the codec
/// goes by. Each has a type identifier and one required wire field.
#[derive(Clone, Copy, Debug, PartialEq, Eq, Structural)]
pub enum ReportTargetKind {
    /// [`ReportTarget::User`].
    User,
    /// [`ReportTarget::Post`].
    Post,
}

/// Mathematical value of a [`RawReportTarget`].
pub struct RawReportTargetView {
    pub type_uri: Seq<char>,
    pub user: Option<Addr>,
    pub post_id: Option<Uint64>,
}

/// Mathematical value of an [`UnwrapReportTargetError`].
pub enum UnwrapReportTargetErrorView {
    UnknownType(Seq<char>),
    InvalidUserTarget(Seq<char>),
    InvalidPostTarget(Seq<char>),
}

impl View for RawReportTarget {
    type V = RawReportTargetView;

    open spec fn view(&self) -> RawReportTargetView {
        RawReportTargetView { type_uri: self.type_uri@, user: self.user, post_id: self.post_id }
    }
}

impl View for UnwrapReportTargetError {
    type V = UnwrapReportTargetErrorView;

    open spec fn view(&self) -> UnwrapReportTargetErrorView {
        match self {
            UnwrapReportTargetError::UnknownType(type_uri) => UnwrapReportTargetErrorView::UnknownType(
                type_uri@,
            ),
            UnwrapReportTargetError::InvalidUserTarget(field) =>
                UnwrapReportTargetErrorView::InvalidUserTarget(field@),
            UnwrapReportTargetError::InvalidPostTarget(field) =>
                UnwrapReportTargetErrorView::InvalidPostTarget(field@),
        }
    }
}

/// The wire record that stands for a report target: the identifier of its
/// variant, the variant's own field, and nothing else.
pub open spec fn encode(target: ReportTarget) -> RawReportTargetView {
    match target {
        ReportTarget::User { user } => RawReportTargetView {
            type_uri: USER_REPORT_TARGET_TYPE_URI@,
            user: Some(user),
            post_id: None,
        },
        ReportTarget::Post { post_id } => RawReportTargetView {
            type_uri: POST_REPORT_TARGET_TYPE_URI@,
            user: None,
            post_id: Some(post_id),
        },
    }
}

impl ReportTargetKind {
    /// The type identifier registered for the variant.
    pub open spec fn spec_type_uri(self) -> Seq<char> {
        match self {
            ReportTargetKind::User => USER_REPORT_TARGET_TYPE_URI@,
            ReportTargetKind::Post => POST_REPORT_TARGET_TYPE_URI@,
        }
    }

    /// The name of the wire field that the variant requires.
    pub open spec fn spec_required_field(self) -> Seq<char> {
        match self {
            ReportTargetKind::User => USER_FIELD@,
            ReportTargetKind::Post => POST_ID_FIELD@,
        }
    }

    /// The variant that a type identifier is registered for, if any.
    pub open spec fn spec_from_type_uri(type_uri: Seq<char>) -> Option<ReportTargetKind> {
        if type_uri == USER_REPORT_TARGET_TYPE_URI@ {
            Some(ReportTargetKind::User)
        } else if type_uri == POST_REPORT_TARGET_TYPE_URI@ {
            Some(ReportTargetKind::Post)
        } else {
            None
        }
    }

    /// The error that tells that a record of the variant lacks `field`.
    pub open spec fn spec_missing(self, field: Seq<char>) -> UnwrapReportTargetErrorView {
        match self {
            ReportTargetKind::User => UnwrapReportTargetErrorView::InvalidUserTarget(field),
            ReportTargetKind::Post => UnwrapReportTargetErrorView::InvalidPostTarget(field),
        }
    }

    /// The type identifier registered for the variant.
    pub fn type_uri(&self) -> (type_uri: &'static str)
        ensures
            type_uri@ == self.spec_type_uri(),
    {
        match self {
            ReportTargetKind::User => USER_REPORT_TARGET_TYPE_URI,
            ReportTargetKind::Post => POST_REPORT_TARGET_TYPE_URI,
        }
    }

    /// The name of the wire field that the variant requires.
    pub fn required_field(&self) -> (field: &'static str)
        ensures
            field@ == self.spec_required_field(),
    {
        match self {
            ReportTargetKind::User => USER_FIELD,
            ReportTargetKind::Post => POST_ID_FIELD,
        }
    }

    /// Looks a type identifier up among the registered ones.
    pub fn from_type_uri(type_uri: &str) -> (kind: Option<ReportTargetKind>)
        ensures
            kind == Self::spec_from_type_uri(type_uri@),
    {
        if same_text(type_uri, USER_REPORT_TARGET_TYPE_URI) {
            Some(ReportTargetKind::User)
        } else if same_text(type_uri, POST_REPORT_TARGET_TYPE_URI) {
            Some(ReportTargetKind::Post)
        } else {
            None
        }
    }

    /// The error that tells that a record of the variant lacks its required
    /// field.
    pub fn missing_field(&self) -> (error: UnwrapReportTargetError)
        ensures
            error@ == self.spec_missing(self.spec_required_field()),
    {
        let field = self.required_field().to_owned();
        match self {
            ReportTargetKind::User => UnwrapReportTargetError::InvalidUserTarget(field),
            ReportTargetKind::Post => UnwrapReportTargetError::InvalidPostTarget(field),
        }
    }
}

/// The variant of a report target.
pub open spec fn kind_of(target: ReportTarget) -> ReportTargetKind {
    match target {
        ReportTarget::User { .. } => ReportTargetKind::User,
        ReportTarget::Post { .. } => ReportTargetKind::Post,
    }
}

/// Whether a record holds the field that a variant requires.
pub open spec fn has_required_field(raw: RawReportTargetView, kind: ReportTargetKind) -> bool {
    match kind {
        ReportTargetKind::User => raw.user is Some,
        ReportTargetKind::Post => raw.post_id is Some,
    }
}

/// The target of a variant that a record holding the variant's field stands
/// for. Fields of other variants are not looked at.
pub open spec fn build(raw: RawReportTargetView, kind: ReportTargetKind) -> ReportTarget
    recommends
        has_required_field(raw, kind),
{
    match kind {
        ReportTargetKind::User => ReportTarget::User { user: raw.user->Some_0 },
        ReportTargetKind::Post => ReportTarget::Post { post_id: raw.post_id->Some_0 },
    }
}

/// What a wire record decodes to. The type identifier is looked up among the
/// registered ones: an unknown one is refused, with the identifier. The
/// variant found is built from its required field; where that field is
/// absent the record is refused, with the variant and the field's name.
pub open spec fn decode(raw: RawReportTargetView) -> Result<
    ReportTarget,
    UnwrapReportTargetErrorView,
> {
    match ReportTargetKind::spec_from_type_uri(raw.type_uri) {
        None => Err(UnwrapReportTargetErrorView::UnknownType(raw.type_uri)),
        Some(kind) => if has_required_field(raw, kind) {
            Ok(build(raw, kind))
        } else {
            Err(kind.spec_missing(kind.spec_required_field()))
        },
    }
}

/// A record is well formed when it carries a registered identifier and
/// exactly the field of the variant that the identifier names.
pub open spec fn well_formed(raw: RawReportTargetView) -> bool {
    ||| (raw.type_uri == USER_REPORT_TARGET_TYPE_URI@ && raw.user is Some && raw.post_id is None)
    ||| (raw.type_uri == POST_REPORT_TARGET_TYPE_URI@ && raw.post_id is Some && raw.user is None)
}

/// The two type identifiers are different strings.
pub proof fn lemma_type_uris_differ()
    ensures
        USER_REPORT_TARGET_TYPE_URI@ != POST_REPORT_TARGET_TYPE_URI@,
{
    reveal_strlit("/desmos.reports.v1.UserTarget");
    reveal_strlit("/desmos.reports.v1.PostTarget");
    assert(USER_REPORT_TARGET_TYPE_URI@[19] != POST_REPORT_TARGET_TYPE_URI@[19]);
}

/// Type identifiers are unique within the family: looking up the identifier
/// of a variant finds that variant, and an identifier that is found is the
/// identifier of the variant found.
pub proof fn lemma_type_uri_names_one_kind(kind: ReportTargetKind, type_uri: Seq<char>)
    ensures
        ReportTargetKind::spec_from_type_uri(kind.spec_type_uri()) == Some(kind),
        ReportTargetKind::spec_from_type_uri(type_uri) == Some(kind) ==> type_uri
            == kind.spec_type_uri(),
{
    lemma_type_uris_differ();
}

/// Round trip from the domain: every report target encodes to a well formed
/// record, and decoding that record gives the target back.
pub proof fn lemma_decode_encode(target: ReportTarget)
    ensures
        well_formed(encode(target)),
        encode(target).type_uri == kind_of(target).spec_type_uri(),
        decode(encode(target)) == Ok::<ReportTarget, UnwrapReportTargetErrorView>(target),
{
    lemma_type_uris_differ();
}

/// Round trip from the wire: a well formed record decodes, and encoding the
/// decoded target gives the record back.
pub proof fn lemma_encode_decode(raw: RawReportTargetView)
    requires
        well_formed(raw),
    ensures
        decode(raw) is Ok,
        encode(decode(raw)->Ok_0) == raw,
{
    lemma_type_uris_differ();
}

/// Rejection: a record whose type identifier is not registered decodes to
/// `UnknownType`, which holds the identifier.
pub proof fn lemma_unknown_type_uri_is_rejected(raw: RawReportTargetView)
    requires
        forall|kind: ReportTargetKind| raw.type_uri != kind.spec_type_uri(),
    ensures
        decode(raw) == Err::<ReportTarget, UnwrapReportTargetErrorView>(
            UnwrapReportTargetErrorView::UnknownType(raw.type_uri),
        ),
{
    assert(raw.type_uri != ReportTargetKind::User.spec_type_uri());
    assert(raw.type_uri != ReportTargetKind::Post.spec_type_uri());
}

/// Required field: a record that carries the identifier of a variant and
/// lacks the field which that variant requires decodes to the variant's
/// error, which names that field; whatever the other fields hold.
pub proof fn lemma_missing_field_is_named(raw: RawReportTargetView, kind: ReportTargetKind)
    requires
        raw.type_uri == kind.spec_type_uri(),
        !has_required_field(raw, kind),
    ensures
        decode(raw) == Err::<ReportTarget, UnwrapReportTargetErrorView>(
            kind.spec_missing(kind.spec_required_field()),
        ),
        kind == ReportTargetKind::User ==> decode(raw) == Err::<
            ReportTarget,
            UnwrapReportTargetErrorView,
        >(UnwrapReportTargetErrorView::InvalidUserTarget("user"@)),
        kind == ReportTargetKind::Post ==> decode(raw) == Err::<
            ReportTarget,
            UnwrapReportTargetErrorView,
        >(UnwrapReportTargetErrorView::InvalidPostTarget("post_id"@)),
{
    lemma_type_uri_names_one_kind(kind, raw.type_uri);
}

/// Relates the outcome of a decoding to the outcome that [`decode`] gives.
pub open spec fn decodes_to(
    outcome: Result<ReportTarget, UnwrapReportTargetError>,
    expected: Result<ReportTarget, UnwrapReportTargetErrorView>,
) -> bool {
    match outcome {
        Ok(target) => expected == Ok::<ReportTarget, UnwrapReportTargetErrorView>(target),
        Err(error) => expected == Err::<ReportTarget, UnwrapReportTargetErrorView>(error@),
    }
}

impl From<ReportTarget> for RawReportTarget {
    /// Encodes a report target as its wire record.
    fn from(target: ReportTarget) -> (raw: RawReportTarget)
        ensures
            raw@ == encode(target),
    {
        let type_uri = target.kind().type_uri().to_owned();
        match target {
            ReportTarget::User { user } => RawReportTarget {
                type_uri,
                user: Some(user),
                post_id: None,
            },
            ReportTarget::Post { post_id } => RawReportTarget {
                type_uri,
                user: None,
                post_id: Some(post_id),
            },
        }
    }
}

/// The record made by `from` holds a new string, of which the characters
/// are known and nothing else: `from` is described by its own `ensures`, and
/// `from_spec` stands for any record with the right characters.
impl vstd::std_specs::convert::FromSpecImpl<ReportTarget> for RawReportTarget {
    open spec fn obeys_from_spec() -> bool {
        false
    }

    open spec fn from_spec(target: ReportTarget) -> RawReportTarget {
        choose|raw: RawReportTarget| raw@ == encode(target)
    }
}

impl TryFrom<RawReportTarget> for ReportTarget {
    type Error = UnwrapReportTargetError;

    /// Decodes a wire record, checking that the field which the identified
    /// variant requires is present.
    fn try_from(value: RawReportTarget) -> (outcome: Result<
        ReportTarget,
        UnwrapReportTargetError,
    >)
        ensures
            decodes_to(outcome, decode(value@)),
    {
        match ReportTargetKind::from_type_uri(value.type_uri.as_str()) {
            None => Err(UnwrapReportTargetError::UnknownType(value.type_uri)),
            Some(kind) => match kind {
                ReportTargetKind::User => match value.user {
                    Some(user) => Ok(ReportTarget::User { user: addr_unchecked(user) }),
                    None => Err(kind.missing_field()),
                },
                ReportTargetKind::Post => match value.post_id {
                    Some(post_id) => Ok(ReportTarget::Post { post_id }),
                    None => Err(kind.missing_field()),
                },
            },
        }
    }
}

/// An error of `try_from` holds a new string, of which the characters are
/// known and nothing else: `try_from` is described by its own `ensures`, and
/// `try_from_spec` stands for any outcome with the right characters.
impl vstd::std_specs::convert::TryFromSpecImpl<RawReportTarget> for ReportTarget {
    open spec fn obeys_try_from_spec() -> bool {
        false
    }

    open spec fn try_from_spec(value: RawReportTarget) -> Result<
        ReportTarget,
        UnwrapReportTargetError,
    > {
        choose|outcome: Result<ReportTarget, UnwrapReportTargetError>|
            decodes_to(outcome, decode(value@))
    }
}

impl ReportTarget {
    /// The variant of the target.
    pub fn kind(&self) -> (kind: ReportTargetKind)
        ensures
            kind == kind_of(*self),
    {
        match self {
            ReportTarget::User { .. } => ReportTargetKind::User,
            ReportTarget::Post { .. } => ReportTargetKind::Post,
        }
    }
}

} // verus!
