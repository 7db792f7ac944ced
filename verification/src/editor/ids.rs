//! Identifiers exchanged with the web editor.
use vstd::prelude::*;
use vstd::std_specs::cmp::PartialEqSpecImpl;
use crate::text::{decimal_chars, decimal_digits, digits_value, is_u64_literal, lemma_decimal_digits_value, string_from_chars, unsigned_literal_digits};

verus! {

/// Routing id of one WebSocket connection, assigned by the server.
#[derive(Clone, Copy, Debug, PartialEq, Eq, Hash, Structural)]
pub struct ClientId(pub u64);

/// Id the web client gives one query or command.
#[derive(Clone, Debug, Hash)]
pub struct RequestId(pub String);

impl PartialEq for RequestId {
    fn eq(&self, other: &Self) -> (r: bool) {
        self.0 == other.0
    }
}

impl PartialEqSpecImpl for RequestId {
    open spec fn obeys_eq_spec() -> bool {
        true
    }

    open spec fn eq_spec(&self, other: &Self) -> bool {
        self.0@ == other.0@
    }
}

impl RequestId {
    pub fn new(value: String) -> (r: Self)
        ensures
            r.0@ == value@,
    {
        RequestId(value)
    }

    /// The id as text, unchanged.
    pub fn to_text(&self) -> (s: String)
        ensures
            s@ == self.0@,
    {
        self.0.clone()
    }
}


/// Scene version: the scene store's `u64` version written as a decimal string, so
/// that JSON carries it without loss.
#[derive(Clone, Debug, Hash)]
pub struct SceneVersion(pub String);

impl PartialEq for SceneVersion {
    fn eq(&self, other: &Self) -> (r: bool) {
        self.0 == other.0
    }
}

impl PartialEqSpecImpl for SceneVersion {
    open spec fn obeys_eq_spec() -> bool {
        true
    }

    open spec fn eq_spec(&self, other: &Self) -> bool {
        self.0@ == other.0@
    }
}

#[verifier::external_type_specification]
#[verifier::external_body]
pub struct ExParseIntError(std::num::ParseIntError);

/// `str::parse::<u64>`. As std documents for unsigned integers, the text must be
/// an optional `+` followed by one or more ASCII decimal digits whose value fits in
/// `u64`; the result is that value. The error value is not described.
#[verifier::external_body]
fn parse_u64(s: &str) -> (r: Result<u64, std::num::ParseIntError>)
    ensures
        r is Ok <==> is_u64_literal(s@),
        r matches Ok(v) ==> v == digits_value(unsigned_literal_digits(s@)),
{
    s.parse::<u64>()
}

impl SceneVersion {
    /// The decimal representation of `value`.
    pub fn from_u64(value: u64) -> (v: Self)
        ensures
            v.0@ == decimal_digits(value as nat),
    {
        let digits = decimal_chars(value);
        SceneVersion(string_from_chars(&digits))
    }

    /// The version number this string denotes.
    pub fn parse(&self) -> (r: Result<u64, std::num::ParseIntError>)
        ensures
            r is Ok <==> is_u64_literal(self.0@),
            r matches Ok(v) ==> v == digits_value(unsigned_literal_digits(self.0@)),
    {
        parse_u64(self.0.as_str())
    }
}

/// Parsing a version made from a number gives the number back.
pub proof fn lemma_scene_version_round_trip(value: u64)
    ensures
        is_u64_literal(decimal_digits(value as nat)),
        digits_value(unsigned_literal_digits(decimal_digits(value as nat))) == value,
{
    lemma_decimal_digits_value(value as nat);
}

/// Session-local opaque id of a scene instance.
#[derive(Clone, Debug, Hash)]
pub struct InstanceId(pub String);

impl PartialEq for InstanceId {
    fn eq(&self, other: &Self) -> (r: bool) {
        self.0 == other.0
    }
}

impl PartialEqSpecImpl for InstanceId {
    open spec fn obeys_eq_spec() -> bool {
        true
    }

    open spec fn eq_spec(&self, other: &Self) -> bool {
        self.0@ == other.0@
    }
}

impl InstanceId {
    pub fn new(value: String) -> (r: Self)
        ensures
            r.0@ == value@,
    {
        InstanceId(value)
    }
}

/// Session-local opaque id of a mesh.
#[derive(Clone, Debug, Hash)]
pub struct MeshId(pub String);

impl PartialEq for MeshId {
    fn eq(&self, other: &Self) -> (r: bool) {
        self.0 == other.0
    }
}

impl PartialEqSpecImpl for MeshId {
    open spec fn obeys_eq_spec() -> bool {
        true
    }

    open spec fn eq_spec(&self, other: &Self) -> bool {
        self.0@ == other.0@
    }
}

impl MeshId {
    pub fn new(value: String) -> (r: Self)
        ensures
            r.0@ == value@,
    {
        MeshId(value)
    }
}

/// Session-local opaque id of a material.
#[derive(Clone, Debug, Hash)]
pub struct MaterialId(pub String);

impl PartialEq for MaterialId {
    fn eq(&self, other: &Self) -> (r: bool) {
        self.0 == other.0
    }
}

impl PartialEqSpecImpl for MaterialId {
    open spec fn obeys_eq_spec() -> bool {
        true
    }

    open spec fn eq_spec(&self, other: &Self) -> bool {
        self.0@ == other.0@
    }
}

impl MaterialId {
    pub fn new(value: String) -> (r: Self)
        ensures
            r.0@ == value@,
    {
        MaterialId(value)
    }
}

/// Session-local opaque id of a texture.
#[derive(Clone, Debug, Hash)]
pub struct TextureId(pub String);

impl PartialEq for TextureId {
    fn eq(&self, other: &Self) -> (r: bool) {
        self.0 == other.0
    }
}

impl PartialEqSpecImpl for TextureId {
    open spec fn obeys_eq_spec() -> bool {
        true
    }

    open spec fn eq_spec(&self, other: &Self) -> bool {
        self.0@ == other.0@
    }
}

impl TextureId {
    pub fn new(value: String) -> (r: Self)
        ensures
            r.0@ == value@,
    {
        TextureId(value)
    }
}

} // verus!
