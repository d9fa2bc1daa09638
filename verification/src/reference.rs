//! References to container images.

use vstd::prelude::*;

verus! {

/// A parsed image reference of the registry client. The verifier sees
/// nothing inside it.
#[verifier::external_type_specification]
#[verifier::external_body]
pub struct ExOciReference(oci_client::Reference);

/// The parse error of the registry client. The verifier sees nothing inside
/// it.
#[verifier::external_type_specification]
#[verifier::external_body]
pub struct ExOciParseError(oci_client::ParseError);

/// What parsing `text` as an image reference gives.
pub uninterp spec fn reference_parsed(text: Seq<char>) -> Result<
    oci_client::Reference,
    oci_client::ParseError,
>;

/// The text that an image reference displays as.
pub uninterp spec fn reference_text(reference: oci_client::Reference) -> Seq<char>;

/// The kind of a parse error.
pub uninterp spec fn parse_error_kind(e: oci_client::ParseError) -> ReferenceError;

/// Why a text is no image reference.
#[derive(Debug, Clone, Copy, PartialEq, Eq, Structural)]
pub enum ReferenceError {
    /// The digest is ill-formed.
    DigestInvalidFormat,
    /// The digest does not have the length of its algorithm.
    DigestInvalidLength,
    /// The digest algorithm is not known.
    DigestUnsupported,
    /// The repository name holds an uppercase character.
    NameContainsUppercase,
    /// The name is empty.
    NameEmpty,
    /// The name is too long.
    NameTooLong,
    /// The reference is ill-formed.
    ReferenceInvalidFormat,
    /// The tag is ill-formed.
    TagInvalidFormat,
}

/// Parses `text` with the `FromStr` of `oci_client::Reference`. The outcome
/// depends on the text alone.
#[verifier::external_body]
pub(crate) fn parse_oci(text: &str) -> (r: Result<oci_client::Reference, oci_client::ParseError>)
    ensures
        r == reference_parsed(text@),
{
    text.parse::<oci_client::Reference>()
}

/// Renders a reference with its `Display`. The text depends on the reference
/// alone.
#[verifier::external_body]
pub(crate) fn display_oci(reference: &oci_client::Reference) -> (s: String)
    ensures
        s@ == reference_text(*reference),
{
    reference.to_string()
}

/// Copies a reference with its `Clone`: the copy is the same reference.
#[verifier::external_body]
pub(crate) fn clone_oci(reference: &oci_client::Reference) -> (c: oci_client::Reference)
    ensures
        c == *reference,
{
    reference.clone()
}

/// Tells the variants of the parse error apart, one for one.
#[verifier::external_body]
pub(crate) fn kind_of(e: &oci_client::ParseError) -> (k: ReferenceError)
    ensures
        k == parse_error_kind(*e),
{
    match e {
        oci_client::ParseError::DigestInvalidFormat => ReferenceError::DigestInvalidFormat,
        oci_client::ParseError::DigestInvalidLength => ReferenceError::DigestInvalidLength,
        oci_client::ParseError::DigestUnsupported => ReferenceError::DigestUnsupported,
        oci_client::ParseError::NameContainsUppercase => ReferenceError::NameContainsUppercase,
        oci_client::ParseError::NameEmpty => ReferenceError::NameEmpty,
        oci_client::ParseError::NameTooLong => ReferenceError::NameTooLong,
        oci_client::ParseError::ReferenceInvalidFormat => ReferenceError::ReferenceInvalidFormat,
        oci_client::ParseError::TagInvalidFormat => ReferenceError::TagInvalidFormat,
    }
}

/// What parsing `text` gives, with the error as the library names it.
pub open spec fn parsed(text: Seq<char>) -> Result<oci_client::Reference, ReferenceError> {
    match reference_parsed(text) {
        Ok(r) => Ok(r),
        Err(e) => Err(parse_error_kind(e)),
    }
}

/// A reference to a container image.
#[derive(Debug)]
pub struct ImageReference {
    reference: oci_client::Reference,
}

impl ImageReference {
    /// The reference of the registry client that this one holds.
    pub closed spec fn inner(&self) -> oci_client::Reference {
        self.reference
    }

    /// The text of the reference.
    pub open spec fn text(&self) -> Seq<char> {
        reference_text(self.inner())
    }

    /// Parses `text` as an image reference.
    pub fn parse(text: &str) -> (r: Result<ImageReference, ReferenceError>)
        ensures
            match r {
                Ok(reference) => parsed(text@) == Ok::<oci_client::Reference, ReferenceError>(
                    reference.inner(),
                ),
                Err(e) => parsed(text@) == Err::<oci_client::Reference, ReferenceError>(e),
            },
    {
        match parse_oci(text) {
            Ok(reference) => Ok(ImageReference { reference }),
            Err(e) => Err(kind_of(&e)),
        }
    }

    /// Parses an owned text as an image reference.
    pub fn try_from_string(value: String) -> (r: Result<ImageReference, ReferenceError>)
        ensures
            match r {
                Ok(reference) => parsed(value@) == Ok::<oci_client::Reference, ReferenceError>(
                    reference.inner(),
                ),
                Err(e) => parsed(value@) == Err::<oci_client::Reference, ReferenceError>(e),
            },
    {
        ImageReference::parse(value.as_str())
    }

    /// Returns a copy of the reference of the registry client.
    pub fn as_oci_reference(&self) -> (r: oci_client::Reference)
        ensures
            r == self.inner(),
    {
        clone_oci(&self.reference)
    }

    /// Returns the reference of the registry client itself.
    pub fn as_oci(&self) -> (r: &oci_client::Reference)
        ensures
            *r == self.inner(),
    {
        &self.reference
    }

    /// Returns the key under which the image is stored: the text of the
    /// reference.
    pub fn as_db_key(&self) -> (key: String)
        ensures
            key@ == self.text(),
    {
        display_oci(&self.reference)
    }

    /// Returns the text of the reference.
    pub fn to_text(&self) -> (s: String)
        ensures
            s@ == self.text(),
    {
        display_oci(&self.reference)
    }

    /// Turns the reference into its text.
    pub fn into_string(self) -> (s: String)
        ensures
            s@ == self.text(),
    {
        display_oci(&self.reference)
    }

    /// Returns a copy of the reference.
    pub fn duplicate(&self) -> (r: ImageReference)
        ensures
            r.inner() == self.inner(),
    {
        ImageReference { reference: clone_oci(&self.reference) }
    }
}

} // verus!
