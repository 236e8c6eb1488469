//! The finished avatar.
use vstd::prelude::*;
use svg::Document;
use vstd::utf8::encode_utf8;
use vstd::string::StringSliceAdditionalSpecFns;
use crate::document::{Attributes, document_attributes, document_groups, document_text, svg_text};

verus! {

/// SvgAvatar represents an avatar generated from an identifier.
#[derive(Debug, Clone)]
pub struct SvgAvatar {
    document: Document,
}

impl SvgAvatar {
    /// The attributes of the document.
    pub closed spec fn attributes(&self) -> Attributes {
        document_attributes(self.document)
    }

    /// The groups of the document, each given by the attributes of its paths.
    pub closed spec fn groups(&self) -> Seq<Seq<Attributes>> {
        document_groups(self.document)
    }

    /// The SVG text of the document.
    pub open spec fn text(&self) -> Seq<char> {
        svg_text(self.attributes(), self.groups())
    }

    pub(crate) fn new(document: Document) -> (a: SvgAvatar)
        ensures
            a.attributes() == document_attributes(document),
            a.groups() == document_groups(document),
    {
        SvgAvatar { document }
    }

    /// The underlying SVG document.
    pub fn document(&self) -> (d: &Document)
        ensures
            document_attributes(*d) == self.attributes(),
            document_groups(*d) == self.groups(),
    {
        &self.document
    }

    /// Gives up the avatar for its SVG document, which the caller may then
    /// change as it likes.
    pub fn into_document(self) -> (d: Document)
        ensures
            document_attributes(d) == self.attributes(),
            document_groups(d) == self.groups(),
    {
        self.document
    }

    /// The SVG text of the avatar.
    pub fn to_string(&self) -> (t: String)
        ensures
            t@ == self.text(),
    {
        document_text(&self.document)
    }
}

impl From<SvgAvatar> for Document {
    /// The avatar's SVG document.
    fn from(a: SvgAvatar) -> (d: Document)
        ensures
            document_attributes(d) == a.attributes(),
            document_groups(d) == a.groups(),
    {
        a.document
    }
}

impl vstd::std_specs::convert::FromSpecImpl<SvgAvatar> for Document {
    open spec fn obeys_from_spec() -> bool {
        true
    }

    closed spec fn from_spec(a: SvgAvatar) -> Document {
        a.document
    }
}

impl From<SvgAvatar> for String {
    /// The SVG text of the avatar.
    fn from(a: SvgAvatar) -> (t: String)
        ensures
            t@ == a.text(),
    {
        a.to_string()
    }
}

impl vstd::std_specs::convert::FromSpecImpl<SvgAvatar> for String {
    open spec fn obeys_from_spec() -> bool {
        false
    }

    open spec fn from_spec(a: SvgAvatar) -> String {
        arbitrary()
    }
}

impl From<SvgAvatar> for Vec<u8> {
    /// The UTF-8 bytes of the avatar's SVG text.
    fn from(a: SvgAvatar) -> (b: Vec<u8>)
        ensures
            b@ == encode_utf8(a.text()),
    {
        let t = a.to_string();
        let s = t.as_str();
        let bytes = s.as_bytes();
        let mut b: Vec<u8> = Vec::new();
        let mut i: usize = 0;
        while i < bytes.len()
            invariant
                i <= bytes@.len(),
                b@ == bytes@.subrange(0, i as int),
            decreases bytes@.len() - i,
        {
            b.push(bytes[i]);
            assert(bytes@.subrange(0, i + 1) =~= bytes@.subrange(0, i as int).push(bytes@[i as int]));
            i = i + 1;
        }
        assert(bytes@.subrange(0, bytes@.len() as int) =~= bytes@);
        b
    }
}

impl vstd::std_specs::convert::FromSpecImpl<SvgAvatar> for Vec<u8> {
    open spec fn obeys_from_spec() -> bool {
        false
    }

    open spec fn from_spec(a: SvgAvatar) -> Vec<u8> {
        arbitrary()
    }
}

} // verus!
