//! The SVG elements that an avatar is drawn with.
use vstd::prelude::*;
use svg::node::element::{Group, Path};
use svg::Document;

verus! {

/// The attributes of an element: values by name.
pub type Attributes = Map<Seq<char>, Seq<char>>;

#[verifier::external_type_specification]
#[verifier::external_body]
pub struct ExDocument(svg::node::element::SVG);

#[verifier::external_type_specification]
#[verifier::external_body]
pub struct ExGroup(svg::node::element::Group);

#[verifier::external_type_specification]
#[verifier::external_body]
pub struct ExPath(svg::node::element::Path);

// A document in this library is only ever made by the functions below: an
// `svg` root whose children are `g` elements without attributes, each
// holding `path` elements without children. No public function of the library
// takes a document in or hands out mutable access to one, so the names
// below describe every document that verified code holds.

/// The attributes of a path element, by name.
pub uninterp spec fn path_attributes(p: Path) -> Attributes;

/// The children of a group, all of them childless `path` elements, each given
/// by its attributes.
pub uninterp spec fn group_paths(g: Group) -> Seq<Attributes>;

/// The attributes of a document, by name.
pub uninterp spec fn document_attributes(d: Document) -> Attributes;

/// The children of a document, all of them `g` elements without attributes,
/// each given by the attributes of its paths.
pub uninterp spec fn document_groups(d: Document) -> Seq<Seq<Attributes>>;

/// The SVG text of an `svg` root with the attributes `attributes` whose
/// children are the `g` elements without attributes of `groups`, each holding
/// childless `path` elements with the given attributes.
pub uninterp spec fn svg_text(attributes: Attributes, groups: Seq<Seq<Attributes>>) -> Seq<char>;

/// Relies on svg's `Path::new`: a path element with no attribute and no child.
#[verifier::external_body]
pub(crate) fn path_new() -> (p: Path)
    ensures
        path_attributes(p) == Attributes::empty(),
{
    Path::new()
}

/// Relies on svg's `Path::set`: it inserts the attribute into the element's
/// map, in place of an earlier value under the same name.
#[verifier::external_body]
pub(crate) fn path_set(p: Path, name: &str, value: String) -> (r: Path)
    ensures
        path_attributes(r) == path_attributes(p).insert(name@, value@),
{
    p.set(name, value)
}

/// Relies on svg's `Group::new`: a group with no attribute and no child.
#[verifier::external_body]
pub(crate) fn group_new() -> (g: Group)
    ensures
        group_paths(g).len() == 0,
{
    Group::new()
}

/// Relies on svg's `Group::add`: it appends the node to the children.
#[verifier::external_body]
pub(crate) fn group_add(g: Group, p: Path) -> (r: Group)
    ensures
        group_paths(r) == group_paths(g).push(path_attributes(p)),
{
    g.add(p)
}

/// Relies on svg's `Document::new`: an `svg` element whose one attribute is
/// its `xmlns`, and with no child.
#[verifier::external_body]
pub(crate) fn document_new() -> (d: Document)
    ensures
        document_attributes(d) == Attributes::empty().insert(
            "xmlns"@,
            "http://www.w3.org/2000/svg"@,
        ),
        document_groups(d).len() == 0,
{
    Document::new()
}

/// Relies on svg's `Document::set`: it inserts the attribute into the
/// element's map and leaves the children.
#[verifier::external_body]
pub(crate) fn document_set(d: Document, name: &str, value: &str) -> (r: Document)
    ensures
        document_attributes(r) == document_attributes(d).insert(name@, value@),
        document_groups(r) == document_groups(d),
{
    d.set(name, value)
}

/// Relies on svg's `Document::add`: it appends the node to the children and
/// leaves the attributes.
#[verifier::external_body]
pub(crate) fn document_add(d: Document, g: Group) -> (r: Document)
    ensures
        document_attributes(r) == document_attributes(d),
        document_groups(r) == document_groups(d).push(group_paths(g)),
{
    d.add(g)
}

/// Relies on the derived `Clone` of svg's `Document`, which clones its name,
/// its attribute map and its children.
pub assume_specification[ <svg::node::element::SVG as Clone>::clone ](d: &svg::node::element::SVG) -> (r: svg::node::element::SVG)
    ensures
        document_attributes(r) == document_attributes(*d),
        document_groups(r) == document_groups(*d),
;

/// Relies on the `Display` of svg's `Document`, which writes the document
/// as SVG text: the attributes of each element sorted by name, then its
/// children in order, so that the text depends on the attributes and the
/// children alone.
#[verifier::external_body]
pub(crate) fn document_text(d: &Document) -> (t: String)
    ensures
        t@ == svg_text(document_attributes(*d), document_groups(*d)),
{
    d.to_string()
}

} // verus!
