//! The builder that derives an avatar from an identifier.
use vstd::prelude::*;
use vstd::string::{StringExecFns, StringSliceAdditionalSpecFns};
use svg::node::element::Path;
use svg::Document;
use crate::avatar::SvgAvatar;
use crate::color::{construct_color, color_text, hsl_text, lemma_color_bounds, sector_color};
use crate::digest::{sha256, sha256_of};
use crate::document::{
    Attributes, path_attributes, group_paths, document_attributes, document_groups, path_new,
    path_set, group_new, group_add, document_new, document_set, document_add,
};
use crate::geometry::{PathProperties, path_data, path_data_spec, sector_spec};
use crate::rings::{Rings, dividers_spec, ring_count, lemma_dividers_decrease};
use crate::theme::{SvgTheme, ring_theme_spec, xor_fold};

verus! {

/// The attributes of the path of sector `index` of ring `ring_index`, for a
/// ring of radius `divider`.
pub open spec fn path_spec(
    digest: Seq<u8>,
    stroke: Seq<char>,
    divider: u32,
    ring_index: int,
    index: int,
) -> Attributes {
    Attributes::empty().insert("fill"@, hsl_text(sector_color(digest, ring_index, index))).insert(
        "stroke"@,
        stroke,
    ).insert("stroke-width"@, "0.01"@).insert("d"@, path_data_spec(sector_spec(index), divider))
}

/// The paths of an avatar, ring by ring from the outermost, and in each ring
/// sector by sector from the top, clockwise.
pub open spec fn avatar_paths(digest: Seq<u8>, rings: Rings, stroke: Seq<char>) -> Seq<Attributes> {
    Seq::new(
        ring_count(rings) * 8,
        |k: int| path_spec(digest, stroke, dividers_spec(rings)[k / 8], k / 8, k % 8),
    )
}

proof fn lemma_avatar_path(digest: Seq<u8>, rings: Rings, stroke: Seq<char>, k: int)
    requires
        0 <= k < ring_count(rings) * 8,
    ensures
        avatar_paths(digest, rings, stroke)[k] == path_spec(
            digest,
            stroke,
            dividers_spec(rings)[k / 8],
            k / 8,
            k % 8,
        ),
{
}

/// The attributes of an avatar's document.
pub open spec fn avatar_attributes() -> Attributes {
    Attributes::empty().insert("xmlns"@, "http://www.w3.org/2000/svg"@).insert(
        "viewBox"@,
        "-1.1 -1.1 2.3 2.3"@,
    )
}

/// `a` is the avatar that `b` builds: the document attributes of every
/// avatar, and one group with the paths that the digest of `b`'s identifier
/// gives.
pub open spec fn builds(b: SvgAvatarBuilder, a: SvgAvatar) -> bool {
    &&& a.attributes() == avatar_attributes()
    &&& a.groups() == seq![avatar_paths(sha256_of(b.pending()), b.ring_choice(), b.stroke())]
}

/// Two builders with the same identifier bytes, ring count and stroke colour
/// build the same document, and so the same SVG text. This covers a default
/// builder and one set explicitly to four rings and black strokes.
pub proof fn lemma_build_deterministic(
    b1: SvgAvatarBuilder,
    b2: SvgAvatarBuilder,
    a1: SvgAvatar,
    a2: SvgAvatar,
)
    requires
        b1.pending() == b2.pending(),
        b1.ring_choice() == b2.ring_choice(),
        b1.stroke() == b2.stroke(),
        builds(b1, a1),
        builds(b2, a2),
    ensures
        a1.attributes() == a2.attributes(),
        a1.groups() == a2.groups(),
        a1.text() == a2.text(),
{
}

/// A builder given the identifier `x` and then `y`, and one given their
/// concatenation at once, build avatars with the same SVG text.
pub proof fn lemma_identifier_additive_text(
    b: SvgAvatarBuilder,
    x: Seq<u8>,
    y: Seq<u8>,
    b1: SvgAvatarBuilder,
    b2: SvgAvatarBuilder,
    a1: SvgAvatar,
    a2: SvgAvatar,
)
    requires
        b1.pending() == (b.pending() + x) + y,
        b2.pending() == b.pending() + (x + y),
        b1.ring_choice() == b.ring_choice(),
        b2.ring_choice() == b.ring_choice(),
        b1.stroke() == b.stroke(),
        b2.stroke() == b.stroke(),
        builds(b1, a1),
        builds(b2, a2),
    ensures
        a1.text() == a2.text(),
{
    lemma_identifier_additive(b, x, y);
}

/// Giving an identifier in two pieces, `x` and then `y`, leaves the builder
/// with the same bytes as giving their concatenation at once, and so with the
/// same avatar.
pub proof fn lemma_identifier_additive(b: SvgAvatarBuilder, x: Seq<u8>, y: Seq<u8>)
    ensures
        (b.pending() + x) + y == b.pending() + (x + y),
        avatar_paths(sha256_of((b.pending() + x) + y), b.ring_choice(), b.stroke())
            == avatar_paths(sha256_of(b.pending() + (x + y)), b.ring_choice(), b.stroke()),
{
    assert((b.pending() + x) + y =~= b.pending() + (x + y));
}

/// An avatar with `k` rings has `8 k` paths: 8 with one ring, 32 with four.
pub proof fn lemma_path_count(digest: Seq<u8>, rings: Rings, stroke: Seq<char>)
    ensures
        avatar_paths(digest, rings, stroke).len() == ring_count(rings) * 8,
        rings == Rings::One ==> avatar_paths(digest, rings, stroke).len() == 8,
        rings == Rings::Four ==> avatar_paths(digest, rings, stroke).len() == 32,
{
}

/// SvgAvatarBuilder is used to configure and construct a new [`SvgAvatar`].
#[derive(Debug, Clone)]
pub struct SvgAvatarBuilder {
    identifier: Vec<u8>,
    rings: Rings,
    stroke_color: String,
}

impl SvgAvatarBuilder {
    /// The identifier bytes given so far, in order.
    pub closed spec fn pending(&self) -> Seq<u8> {
        self.identifier@
    }

    /// The ring count that the avatar will have.
    pub closed spec fn ring_choice(&self) -> Rings {
        self.rings
    }

    /// The stroke colour that every path will have.
    pub closed spec fn stroke(&self) -> Seq<char> {
        self.stroke_color@
    }

    /// A builder with no identifier yet, four rings and black strokes.
    pub fn new() -> (b: SvgAvatarBuilder)
        ensures
            b.pending() == Seq::<u8>::empty(),
            b.ring_choice() == Rings::Four,
            b.stroke() == "black"@,
    {
        SvgAvatarBuilder {
            identifier: Vec::new(),
            rings: Rings::Four,
            stroke_color: String::from_str("black"),
        }
    }

    /// Appends the UTF-8 bytes of `id` to the identifier.
    pub fn identifier(self, id: &str) -> (b: SvgAvatarBuilder)
        ensures
            b.pending() == self.pending() + id.spec_bytes(),
            b.ring_choice() == self.ring_choice(),
            b.stroke() == self.stroke(),
    {
        self.identifier_bytes(id.as_bytes())
    }

    /// Appends `data` to the identifier.
    pub fn identifier_bytes(self, data: &[u8]) -> (b: SvgAvatarBuilder)
        ensures
            b.pending() == self.pending() + data@,
            b.ring_choice() == self.ring_choice(),
            b.stroke() == self.stroke(),
    {
        let mut b = self;
        let mut i: usize = 0;
        while i < data.len()
            invariant
                i <= data@.len(),
                b.identifier@ == self.identifier@ + data@.subrange(0, i as int),
                b.rings == self.rings,
                b.stroke_color == self.stroke_color,
            decreases data@.len() - i,
        {
            b.identifier.push(data[i]);
            assert(data@.subrange(0, i + 1) =~= data@.subrange(0, i as int).push(data@[i as int]));
            i = i + 1;
        }
        assert(data@.subrange(0, data@.len() as int) =~= data@);
        b
    }

    /// Sets the ring count.
    pub fn rings(self, rings: Rings) -> (b: SvgAvatarBuilder)
        ensures
            b.pending() == self.pending(),
            b.ring_choice() == rings,
            b.stroke() == self.stroke(),
    {
        let mut b = self;
        b.rings = rings;
        b
    }

    /// Sets the stroke colour of the paths; the text is used as it is.
    pub fn stroke_color(self, color: &str) -> (b: SvgAvatarBuilder)
        ensures
            b.pending() == self.pending(),
            b.ring_choice() == self.ring_choice(),
            b.stroke() == color@,
    {
        let mut b = self;
        b.stroke_color = String::from_str(color);
        b
    }

    /// Builds the avatar: one group with eight paths for each ring, coloured
    /// from the SHA-256 digest of the identifier.
    pub fn build(self) -> (a: SvgAvatar)
        ensures
            builds(self, a),
    {
        let hash = sha256(self.identifier.as_slice());
        let ghost digest = hash@;
        let ghost stroke = self.stroke_color@;
        let theme = SvgTheme::new(hash, self.stroke_color);
        let dividers = self.rings.to_dividers();
        proof {
            lemma_dividers_decrease(self.rings);
        }
        let ghost paths = avatar_paths(digest, self.rings, stroke);
        let mut g = group_new();
        let mut ring_index: usize = 0;
        while ring_index < dividers.len()
            invariant
                theme.wf(),
                theme.rings@ == digest,
                theme.stroke_color@ == stroke,
                dividers@ == dividers_spec(self.rings),
                dividers@.len() == ring_count(self.rings),
                dividers@.len() <= 4,
                ring_index <= dividers@.len(),
                paths.len() == dividers@.len() * 8,
                paths == avatar_paths(digest, self.rings, stroke),
                group_paths(g) == paths.take(ring_index * 8),
            decreases dividers@.len() - ring_index,
        {
            let mut index: usize = 0;
            while index < 8
                invariant
                    theme.wf(),
                    theme.rings@ == digest,
                    theme.stroke_color@ == stroke,
                    dividers@ == dividers_spec(self.rings),
                    dividers@.len() <= 4,
                    ring_index < dividers@.len(),
                    index <= 8,
                    paths.len() == dividers@.len() * 8,
                    paths == avatar_paths(digest, self.rings, stroke),
                    group_paths(g) == paths.take(ring_index * 8 + index),
                decreases 8 - index,
            {
                let divider = dividers[ring_index];
                let path = Self::create_path(ring_index, index, divider, &theme);
                g = group_add(g, path);
                let k = ring_index * 8 + index;
                assert(k / 8 == ring_index && k % 8 == index);
                assert(k < paths.len()) by (nonlinear_arith)
                    requires
                        k == ring_index * 8 + index,
                        ring_index < dividers@.len(),
                        index < 8,
                        paths.len() == dividers@.len() * 8,
                ;
                proof {
                    lemma_avatar_path(digest, self.rings, stroke, k as int);
                }
                assert(paths[k as int] == path_attributes(path));
                assert(group_paths(g) =~= paths.take(k + 1));
                index = index + 1;
            }
            ring_index = ring_index + 1;
        }
        assert(paths.take(paths.len() as int) =~= paths);
        let document = document_add(Self::create_document(), g);
        let a = SvgAvatar::new(document);
        assert(a.groups() =~= seq![paths]);
        a
    }

    fn create_document() -> (d: Document)
        ensures
            document_attributes(d) == avatar_attributes(),
            document_groups(d).len() == 0,
    {
        document_set(document_new(), "viewBox", "-1.1 -1.1 2.3 2.3")
    }

    fn create_path(ring_index: usize, index: usize, divider: u32, theme: &SvgTheme) -> (p: Path)
        requires
            theme.wf(),
            ring_index < 4,
            index < 8,
        ensures
            path_attributes(p) == path_spec(theme.rings@, theme.stroke_color@, divider, ring_index as int, index as int),
    {
        let properties = PathProperties::sector(index);
        let data = path_data(&properties, divider);
        let color = construct_color(ring_index, index, theme);
        proof {
            lemma_color_bounds(
                xor_fold(theme.rings@),
                ring_theme_spec(theme.rings@, ring_index as int),
                theme.rings@[ring_index * 8 + index],
            );
        }
        let fill = color_text(&color);
        let p = path_new();
        let p = path_set(p, "fill", fill);
        let p = path_set(p, "stroke", theme.stroke_color.clone());
        let p = path_set(p, "stroke-width", String::from_str("0.01"));
        path_set(p, "d", data)
    }
}

impl Default for SvgAvatarBuilder {
    /// The same as [`SvgAvatarBuilder::new`].
    fn default() -> (b: SvgAvatarBuilder)
        ensures
            b.pending() == Seq::<u8>::empty(),
            b.ring_choice() == Rings::Four,
            b.stroke() == "black"@,
    {
        Self::new()
    }
}

} // verus!
