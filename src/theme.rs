//! The colour theme that a digest gives.
use vstd::prelude::*;

verus! {

/// The XOR of all the bytes of `s`.
pub open spec fn xor_fold(s: Seq<u8>) -> u8
    decreases s.len(),
{
    if s.len() == 0 {
        0
    } else {
        xor_fold(s.drop_last()) ^ s.last()
    }
}

/// The number of eight-byte windows of a 32-byte digest.
pub const RING_THEMES: usize = 25;

/// The theme of ring `i`: the XOR of the eight digest bytes from offset `i`.
pub open spec fn ring_theme_spec(digest: Seq<u8>, i: int) -> u8 {
    xor_fold(digest.subrange(i, i + 8))
}

/// The XOR of all bytes of `s`.
pub fn calculate_theme(s: &[u8]) -> (r: u8)
    ensures
        r == xor_fold(s@),
{
    let mut acc: u8 = 0;
    let mut i: usize = 0;
    while i < s.len()
        invariant
            i <= s@.len(),
            acc == xor_fold(s@.subrange(0, i as int)),
        decreases s@.len() - i,
    {
        assert(s@.subrange(0, i + 1).drop_last() =~= s@.subrange(0, i as int));
        acc = acc ^ s[i];
        i = i + 1;
    }
    assert(s@.subrange(0, s@.len() as int) =~= s@);
    acc
}

/// The theme of one avatar: the digest, whose bytes seed the colours of the
/// sectors, the XOR of the whole digest, the XOR of each eight-byte window,
/// and the stroke colour.
pub struct SvgTheme {
    pub rings: [u8; 32],
    pub global_theme: u8,
    pub ring_themes: Vec<u8>,
    pub stroke_color: String,
}

impl SvgTheme {
    /// The theme is well formed when it holds the XORs of its digest.
    pub open spec fn wf(&self) -> bool {
        &&& self.global_theme == xor_fold(self.rings@)
        &&& self.ring_themes@.len() == RING_THEMES
        &&& forall|i: int|
            0 <= i < RING_THEMES ==> #[trigger] self.ring_themes@[i] == ring_theme_spec(self.rings@, i)
    }

    /// Derives the theme of `hash`.
    pub fn new(hash: [u8; 32], stroke_color: String) -> (t: SvgTheme)
        ensures
            t.wf(),
            t.rings == hash,
            t.stroke_color == stroke_color,
    {
        let mut ring_themes: Vec<u8> = Vec::new();
        let mut i: usize = 0;
        while i < RING_THEMES
            invariant
                i <= RING_THEMES,
                hash@.len() == 32,
                ring_themes@.len() == i,
                forall|j: int| 0 <= j < i ==> #[trigger] ring_themes@[j] == ring_theme_spec(hash@, j),
            decreases RING_THEMES - i,
        {
            let t = calculate_theme(&hash[i..i + 8]);
            ring_themes.push(t);
            i = i + 1;
        }
        let global_theme = calculate_theme(&hash);
        SvgTheme { rings: hash, global_theme, ring_themes, stroke_color }
    }

    /// The colour seed of sector `index` of ring `ring_index`.
    pub fn ring(&self, ring_index: usize, index: usize) -> (b: u8)
        requires
            ring_index < 4,
            index < 8,
        ensures
            b == self.rings@[ring_index * 8 + index],
    {
        self.rings[ring_index * 8 + index]
    }

    /// The theme of ring `index`.
    pub fn ring_theme(&self, index: usize) -> (t: u8)
        requires
            self.wf(),
            index < RING_THEMES,
        ensures
            t == ring_theme_spec(self.rings@, index as int),
    {
        self.ring_themes[index]
    }
}

} // verus!
