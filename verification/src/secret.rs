//! The secret record: as the upstream platform returns it, and as the gateway
//! hands it on.

use vstd::prelude::*;

use crate::codec::{
    format_rfc3339, parse_yaml_as_json, rfc3339_text, rfc3339_writable, text_of, yaml_as_json,
    MAX_SECONDS, MIN_SECONDS,
};
use vstd::std_specs::convert::FromSpecImpl;

verus! {

/// What a [`Timestamp`] stands for: an instant in UTC, as whole seconds since
/// the Unix epoch and nanoseconds within the second.
pub struct Instant {
    pub seconds: int,
    pub nanos: int,
}

/// An instant in UTC that RFC 3339 can write.
#[derive(Clone, Copy, Debug, PartialEq, Eq, Structural)]
pub struct Timestamp {
    seconds: i64,
    nanos: u32,
}

impl View for Timestamp {
    type V = Instant;

    closed spec fn view(&self) -> Instant {
        Instant { seconds: self.seconds as int, nanos: self.nanos as int }
    }
}

impl Timestamp {
    #[verifier::type_invariant]
    spec fn writable(self) -> bool {
        rfc3339_writable(self.seconds as int, self.nanos as int)
    }

    /// The instant `seconds` whole seconds and `nanos` nanoseconds after the
    /// Unix epoch, if RFC 3339 can write it.
    pub fn new(seconds: i64, nanos: u32) -> (timestamp: Option<Timestamp>)
        ensures
            timestamp is Some <==> rfc3339_writable(seconds as int, nanos as int),
            timestamp matches Some(t) ==> t@ == (Instant {
                seconds: seconds as int,
                nanos: nanos as int,
            }),
    {
        if seconds < MIN_SECONDS || seconds > MAX_SECONDS || nanos >= 2_000_000_000 {
            return None;
        }
        if nanos >= 1_000_000_000 && seconds.checked_rem_euclid(60) != Some(59) {
            return None;
        }
        Some(Timestamp { seconds, nanos })
    }

    /// Whole seconds since the Unix epoch.
    pub fn seconds(&self) -> (seconds: i64)
        ensures
            seconds == self@.seconds,
    {
        self.seconds
    }

    /// Nanoseconds within the second.
    pub fn nanos(&self) -> (nanos: u32)
        ensures
            nanos == self@.nanos,
    {
        self.nanos
    }

    /// The instant in RFC 3339 form, which is also ISO 8601.
    pub fn to_rfc3339(&self) -> (text: String)
        ensures
            text@ == rfc3339_text(self@.seconds, self@.nanos),
    {
        proof {
            use_type_invariant(self);
        }
        format_rfc3339(self.seconds, self.nanos).unwrap()
    }
}

/// What a [`SecretValue`] holds.
pub enum SecretValueView {
    Structured(Seq<char>),
    Raw(Seq<char>),
}

/// The value of a secret as the gateway hands it on.
#[derive(Debug)]
pub enum SecretValue {
    /// The value holds structured data; this is that data as JSON text.
    Structured(String),
    /// The value holds no structured data; this is the value itself.
    Raw(String),
}

impl View for SecretValue {
    type V = SecretValueView;

    open spec fn view(&self) -> SecretValueView {
        match self {
            SecretValue::Structured(json) => SecretValueView::Structured(json@),
            SecretValue::Raw(text) => SecretValueView::Raw(text@),
        }
    }
}

impl Clone for SecretValue {
    fn clone(&self) -> (copy: SecretValue)
        ensures
            copy@ == self@,
    {
        match self {
            SecretValue::Structured(json) => SecretValue::Structured(json.clone()),
            SecretValue::Raw(text) => SecretValue::Raw(text.clone()),
        }
    }
}

/// The value that stands for the stored string `raw`, where `parsed` is the
/// structured data read from it, if any was.
pub open spec fn decoded(raw: Seq<char>, parsed: Option<Seq<char>>) -> SecretValueView {
    match parsed {
        Some(json) => SecretValueView::Structured(json),
        None => SecretValueView::Raw(raw),
    }
}

impl SecretValue {
    /// Chooses between the structured data `parsed`, read from `raw`, and
    /// `raw` itself: the data where there is some, else the string unchanged.
    pub fn from_parse(raw: String, parsed: Option<String>) -> (value: SecretValue)
        ensures
            value@ == decoded(raw@, text_of(parsed)),
    {
        match parsed {
            Some(json) => SecretValue::Structured(json),
            None => SecretValue::Raw(raw),
        }
    }

    /// Reads `raw` as structured text. A string that is none is no error: it
    /// is handed on as it is.
    pub fn decode(raw: String) -> (value: SecretValue)
        ensures
            value@ == decoded(raw@, yaml_as_json(raw@)),
    {
        let parsed = parse_yaml_as_json(raw.as_str());
        SecretValue::from_parse(raw, parsed)
    }
}

/// What an [`UpstreamSecret`] holds.
pub struct UpstreamSecretView {
    pub id: u128,
    pub organization_id: u128,
    pub project_id: Option<u128>,
    pub key: Seq<char>,
    pub value: Seq<char>,
    pub note: Seq<char>,
    pub creation_date: Instant,
    pub revision_date: Instant,
}

/// A secret as the upstream platform returns it. Identifiers are UUIDs, held
/// as their 128 bits.
#[derive(Debug)]
pub struct UpstreamSecret {
    pub id: u128,
    pub organization_id: u128,
    pub project_id: Option<u128>,
    pub key: String,
    pub value: String,
    pub note: String,
    pub creation_date: Timestamp,
    pub revision_date: Timestamp,
}

impl View for UpstreamSecret {
    type V = UpstreamSecretView;

    open spec fn view(&self) -> UpstreamSecretView {
        UpstreamSecretView {
            id: self.id,
            organization_id: self.organization_id,
            project_id: self.project_id,
            key: self.key@,
            value: self.value@,
            note: self.note@,
            creation_date: self.creation_date@,
            revision_date: self.revision_date@,
        }
    }
}

/// What a [`StructuredSecretResponse`] holds.
pub struct StructuredSecretResponseView {
    pub id: u128,
    pub organization_id: u128,
    pub project_id: Option<u128>,
    pub key: Seq<char>,
    pub value: SecretValueView,
    pub note: Seq<char>,
    pub creation_date: Seq<char>,
    pub revision_date: Seq<char>,
}

/// A secret as the gateway answers with it: the upstream record with its
/// value decoded and its timestamps as ISO 8601 strings.
#[derive(Debug)]
pub struct StructuredSecretResponse {
    pub id: u128,
    pub organization_id: u128,
    pub project_id: Option<u128>,
    pub key: String,
    pub value: SecretValue,
    pub note: String,
    pub creation_date: String,
    pub revision_date: String,
}

impl View for StructuredSecretResponse {
    type V = StructuredSecretResponseView;

    open spec fn view(&self) -> StructuredSecretResponseView {
        StructuredSecretResponseView {
            id: self.id,
            organization_id: self.organization_id,
            project_id: self.project_id,
            key: self.key@,
            value: self.value@,
            note: self.note@,
            creation_date: self.creation_date@,
            revision_date: self.revision_date@,
        }
    }
}

impl Clone for StructuredSecretResponse {
    fn clone(&self) -> (copy: StructuredSecretResponse)
        ensures
            copy@ == self@,
    {
        StructuredSecretResponse {
            id: self.id,
            organization_id: self.organization_id,
            project_id: self.project_id,
            key: self.key.clone(),
            value: self.value.clone(),
            note: self.note.clone(),
            creation_date: self.creation_date.clone(),
            revision_date: self.revision_date.clone(),
        }
    }
}

/// The answer that stands for the upstream record `secret`: identifiers, key
/// and note as they are, the value decoded, each timestamp in RFC 3339 form.
pub open spec fn normalized(secret: UpstreamSecretView) -> StructuredSecretResponseView {
    StructuredSecretResponseView {
        id: secret.id,
        organization_id: secret.organization_id,
        project_id: secret.project_id,
        key: secret.key,
        value: decoded(secret.value, yaml_as_json(secret.value)),
        note: secret.note,
        creation_date: rfc3339_text(secret.creation_date.seconds, secret.creation_date.nanos),
        revision_date: rfc3339_text(secret.revision_date.seconds, secret.revision_date.nanos),
    }
}

/// `from` is specified by its own `ensures`, over views: no spec function
/// can build the strings of the value that it returns.
impl FromSpecImpl<UpstreamSecret> for StructuredSecretResponse {
    open spec fn obeys_from_spec() -> bool {
        false
    }

    open spec fn from_spec(val: UpstreamSecret) -> StructuredSecretResponse {
        arbitrary()
    }
}

impl From<UpstreamSecret> for StructuredSecretResponse {
    fn from(val: UpstreamSecret) -> (response: StructuredSecretResponse)
        ensures
            response@ == normalized(val@),
    {
        let creation_date = val.creation_date.to_rfc3339();
        let revision_date = val.revision_date.to_rfc3339();
        StructuredSecretResponse {
            id: val.id,
            organization_id: val.organization_id,
            project_id: val.project_id,
            key: val.key,
            value: SecretValue::decode(val.value),
            note: val.note,
            creation_date,
            revision_date,
        }
    }
}

} // verus!
