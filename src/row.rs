use unicode_segmentation::UnicodeSegmentation;
use vstd::prelude::*;

verus! {

/// The extended grapheme clusters of a text, in order.
pub uninterp spec fn graphemes_of(s: Seq<char>) -> Seq<Seq<char>>;

/// Relies on `UnicodeSegmentation::graphemes` (with extended clusters) to
/// split a text into its grapheme clusters; the split depends on the text alone.
#[verifier::external_body]
fn graphemes(s: &str) -> (r: Vec<String>)
    ensures
        r.deep_view() == graphemes_of(s@),
{
    s.graphemes(true).map(String::from).collect()
}

/// What one cluster looks like on screen: a tab shows as a single space.
pub open spec fn cell_of(g: Seq<char>) -> Seq<char> {
    if g == seq!['\t'] {
        seq![' ']
    } else {
        g
    }
}

pub open spec fn min_int(a: int, b: int) -> int {
    if a <= b {
        a
    } else {
        b
    }
}

/// End of the visible range `[start, end)` over `n` columns.
pub open spec fn clamped_end(end: int, n: int) -> int {
    min_int(end, n)
}

/// Start of the visible range `[start, end)` over `n` columns.
pub open spec fn clamped_start(start: int, end: int, n: int) -> int {
    min_int(start, clamped_end(end, n))
}

/// The cells shown for the columns `[start, end)` of a row of clusters `gs`.
pub open spec fn visible_cells(gs: Seq<Seq<char>>, start: int, end: int) -> Seq<Seq<char>> {
    gs.subrange(clamped_start(start, end, gs.len() as int), clamped_end(end, gs.len() as int)).map_values(
        |g: Seq<char>| cell_of(g),
    )
}

/// The text shown for the columns `[start, end)` of a row of clusters `gs`.
pub open spec fn rendered(gs: Seq<Seq<char>>, start: int, end: int) -> Seq<char> {
    visible_cells(gs, start, end).flatten()
}

/// Rendering never fails and shows one cell per visible column: the columns
/// `[start, end)` of a row of `n` columns give
/// `min(end, n) - min(start, min(end, n))` cells, none when the clamped
/// range is empty or inverted.
pub proof fn lemma_render_width(gs: Seq<Seq<char>>, start: int, end: int)
    requires
        0 <= start,
        0 <= end,
    ensures
        visible_cells(gs, start, end).len() == clamped_end(end, gs.len() as int) - clamped_start(
            start,
            end,
            gs.len() as int,
        ),
        start >= clamped_end(end, gs.len() as int) ==> rendered(gs, start, end) == Seq::<char>::empty(),
{
    if start >= clamped_end(end, gs.len() as int) {
        assert(visible_cells(gs, start, end) =~= Seq::<Seq<char>>::empty());
    }
}

fn is_tab(g: &String) -> (r: bool)
    ensures
        r == (g@ == seq!['\t']),
{
    let s = g.as_str();
    if s.unicode_len() == 1 {
        let c = s.get_char(0);
        assert(c == '\t' ==> s@ =~= seq!['\t']);
        c == '\t'
    } else {
        false
    }
}

/// Renders the columns `[start, end)` of a row split into the clusters
/// `clusters`; out-of-range or inverted ranges give an empty text.
pub fn render_clusters(clusters: &Vec<String>, start: usize, end: usize) -> (r: String)
    ensures
        r@ == rendered(clusters.deep_view(), start as int, end as int),
{
    let n = clusters.len();
    let end = if end < n {
        end
    } else {
        n
    };
    let start = if start < end {
        start
    } else {
        end
    };
    let ghost gs = clusters.deep_view();
    let mut out = String::new();
    let mut i: usize = start;
    while i < end
        invariant
            start <= i <= end <= n == clusters@.len() == gs.len(),
            gs == clusters.deep_view(),
            out@ == gs.subrange(start as int, i as int).map_values(|g: Seq<char>| cell_of(g)).flatten(),
        decreases end - i,
    {
        let g = &clusters[i];
        if is_tab(g) {
            out.append(" ");
        } else {
            out.append(g.as_str());
        }
        proof {
            let f = |g: Seq<char>| cell_of(g);
            let before = gs.subrange(start as int, i as int).map_values(f);
            assert(gs.subrange(start as int, i + 1).map_values(f) =~= before.push(f(gs[i as int])));
            before.lemma_flatten_push(f(gs[i as int]));
            reveal_strlit(" ");
        }
        i = i + 1;
    }
    assert(gs.subrange(start as int, end as int).map_values(|g: Seq<char>| cell_of(g))
        =~= visible_cells(gs, start as int, end as int));
    out
}

/// One line of text.
pub struct Row {
    string: String,
    length: usize,
}

impl Row {
    #[verifier::type_invariant]
    spec fn inv(self) -> bool {
        self.length == graphemes_of(self.string@).len()
    }

    /// The text of the row.
    pub closed spec fn text(&self) -> Seq<char> {
        self.string@
    }

    /// The grapheme clusters of the row.
    pub open spec fn clusters(&self) -> Seq<Seq<char>> {
        graphemes_of(self.text())
    }

    /// The row's width in columns: one per grapheme cluster.
    pub open spec fn display_length(&self) -> nat {
        self.clusters().len()
    }

    /// Builds a row from one line of text.
    pub fn from(slice: &str) -> (r: Row)
        ensures
            r.text() == slice@,
    {
        let string = slice.to_string();
        let length = graphemes(string.as_str()).len();
        Row { string, length }
    }

    /// The text shown for the columns `[start, end)`, tabs shown as spaces.
    pub fn render(&self, start: usize, end: usize) -> (r: String)
        ensures
            r@ == rendered(self.clusters(), start as int, end as int),
    {
        let clusters = graphemes(self.string.as_str());
        render_clusters(&clusters, start, end)
    }

    pub fn len(&self) -> (r: usize)
        ensures
            r == self.display_length(),
    {
        proof {
            use_type_invariant(self);
        }
        self.length
    }

    pub fn is_empty(&self) -> (r: bool)
        ensures
            r == (self.display_length() == 0),
    {
        proof {
            use_type_invariant(self);
        }
        self.length == 0
    }
}

} // verus!
