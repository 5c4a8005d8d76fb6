//! Extraction of genre names and detail-page records from fetched HTML.
//!
//! The HTML itself is read through the `scraper` crate behind trusted
//! wrappers; every rule applied to what those selections return — trimming,
//! blank-dropping, suffix-stripping, the exact-three-region check, the
//! artist filtering — is verified.

use vstd::prelude::*;

use crate::text::{
    artist_name_of, clean_texts, cleaned_texts, extract_artist_name_from_title, make_slug, slug_of,
};

verus! {

/// The address a genre's detail page is fetched from: the site root, the
/// fixed page prefix, the genre's slug, and the `.html` suffix.
pub open spec fn detail_url_of(name: Seq<char>) -> Seq<char> {
    "https://everynoise.com/engenremap-"@ + slug_of(name) + ".html"@
}

/// Builds the detail-page URL for a genre display name.
pub fn detail_url(name: &str) -> (r: String)
    ensures
        r@ == detail_url_of(name@),
{
    let mut url = String::from_str("https://everynoise.com/engenremap-");
    let slug = make_slug(name);
    url.append(slug.as_str());
    url.append(".html");
    url
}

/// The parse result for one genre detail page: the extracted artists and the
/// similar / opposite genre name lists, each in document order.
#[derive(Debug)]
pub struct GenrePageData {
    pub artists: Vec<ExtractedArtist>,
    pub similar_genres: Vec<String>,
    pub opposite_genres: Vec<String>,
}

/// One artist pulled out of the artist region: a derived display name (may
/// be empty) and a non-empty audio preview link.
#[derive(Debug)]
pub struct ExtractedArtist {
    pub name: String,
    pub audio_link: String,
}

impl View for ExtractedArtist {
    type V = (Seq<char>, Seq<char>);

    open spec fn view(&self) -> (Seq<char>, Seq<char>) {
        (self.name@, self.audio_link@)
    }
}

impl DeepView for ExtractedArtist {
    type V = (Seq<char>, Seq<char>);

    open spec fn deep_view(&self) -> (Seq<char>, Seq<char>) {
        self.view()
    }
}

impl View for GenrePageData {
    type V = (Seq<(Seq<char>, Seq<char>)>, Seq<Seq<char>>, Seq<Seq<char>>);

    open spec fn view(&self) -> (Seq<(Seq<char>, Seq<char>)>, Seq<Seq<char>>, Seq<Seq<char>>) {
        (self.artists.deep_view(), self.similar_genres.deep_view(), self.opposite_genres.deep_view())
    }
}

/// The two attributes the artist region is read by: the `title` text the
/// name is derived from, and the `preview_url` audio link.
pub struct TileAttrs {
    pub title: Option<String>,
    pub preview_url: Option<String>,
}

impl View for TileAttrs {
    type V = (Option<Seq<char>>, Option<Seq<char>>);

    open spec fn view(&self) -> (Option<Seq<char>>, Option<Seq<char>>) {
        (self.title.deep_view(), self.preview_url.deep_view())
    }
}

impl DeepView for TileAttrs {
    type V = (Option<Seq<char>>, Option<Seq<char>>);

    open spec fn deep_view(&self) -> (Option<Seq<char>>, Option<Seq<char>>) {
        self.view()
    }
}

/// The joined text of each genre-tile element (`.genre.scanme`) of a page,
/// in document order.
pub uninterp spec fn tile_texts_of(page: Seq<char>) -> Seq<Seq<char>>;

/// The HTML text of each content-region element (`.canvas`) of a page, in
/// document order.
pub uninterp spec fn canvases_of(page: Seq<char>) -> Seq<Seq<char>>;

/// The `title` and `preview_url` attributes of each genre-tile element
/// (`.genre.scanme`) of a region, in document order.
pub uninterp spec fn tile_attrs_of(region: Seq<char>) -> Seq<(Option<Seq<char>>, Option<Seq<char>>)>;

/// The joined text of each genre-label element (`.genre`) of a region, in
/// document order.
pub uninterp spec fn label_texts_of(region: Seq<char>) -> Seq<Seq<char>>;

/// Relies on scraper's `Html::parse_document` and `Html::select` with the
/// genre-tile selector `.genre.scanme`: one element per tile, in document
/// order, its text nodes joined with a single space.
#[verifier::external_body]
fn select_tile_texts(html: &str) -> (r: Vec<String>)
    ensures
        r.deep_view() == tile_texts_of(html@),
{
    let document = scraper::Html::parse_document(html);
    let selector = scraper::Selector::parse(".genre.scanme").unwrap();
    document.select(&selector).map(|e| e.text().collect::<Vec<_>>().join(" ")).collect()
}

/// Relies on scraper's `Html::parse_document` and `Html::select` with the
/// content-region selector `.canvas`, and on `ElementRef::html`, which
/// re-serializes each region to its own HTML text.
#[verifier::external_body]
fn select_canvas_htmls(html: &str) -> (r: Vec<String>)
    ensures
        r.deep_view() == canvases_of(html@),
{
    let document = scraper::Html::parse_document(html);
    let selector = scraper::Selector::parse(".canvas").unwrap();
    document.select(&selector).map(|e| e.html()).collect()
}

/// Relies on scraper's `Html::parse_fragment` and `Html::select` with the
/// genre-tile selector `.genre.scanme`, and on `ElementRef::attr` for the
/// `title` and `preview_url` attributes of each element.
#[verifier::external_body]
fn select_tile_attrs(region: &str) -> (r: Vec<TileAttrs>)
    ensures
        r.deep_view() == tile_attrs_of(region@),
{
    let document = scraper::Html::parse_fragment(region);
    let selector = scraper::Selector::parse(".genre.scanme").unwrap();
    document.select(&selector).map(|e| TileAttrs {
        title: e.attr("title").map(|s| s.to_owned()),
        preview_url: e.attr("preview_url").map(|s| s.to_owned()),
    }).collect()
}

/// Relies on scraper's `Html::parse_fragment` and `Html::select` with the
/// genre-label selector `.genre`: one element per label, in document order,
/// its text nodes joined with a single space.
#[verifier::external_body]
fn select_label_texts(region: &str) -> (r: Vec<String>)
    ensures
        r.deep_view() == label_texts_of(region@),
{
    let document = scraper::Html::parse_fragment(region);
    let selector = scraper::Selector::parse(".genre").unwrap();
    document.select(&selector).map(|e| e.text().collect::<Vec<_>>().join(" ")).collect()
}

/// The artist records a sequence of tile attributes yields: a tile with no
/// `title` is skipped, a tile whose `preview_url` is absent or empty is
/// skipped even though a name could be derived — an artist record requires
/// a non-empty audio link — and a tile with both yields one record whose
/// name derives from the title and whose link is the attribute value.
pub open spec fn artists_of_tiles(ts: Seq<(Option<Seq<char>>, Option<Seq<char>>)>) -> Seq<
    (Seq<char>, Seq<char>),
>
    decreases ts.len(),
{
    if ts.len() == 0 {
        Seq::empty()
    } else {
        let rest = artists_of_tiles(ts.drop_last());
        let t = ts.last();
        if t.0 is Some && t.1 is Some && t.1->0.len() > 0 {
            rest.push((artist_name_of(t.0->0), t.1->0))
        } else {
            rest
        }
    }
}

/// A tile with a `title` but no `preview_url`, or with an empty one, yields
/// no artist record; a tile with both yields exactly one, with the link
/// taken verbatim.
pub proof fn lemma_artist_needs_link(title: Seq<char>, link: Seq<char>)
    ensures
        artists_of_tiles(seq![(Some(title), None::<Seq<char>>)]) =~= Seq::<
            (Seq<char>, Seq<char>),
        >::empty(),
        artists_of_tiles(seq![(Some(title), Some(Seq::<char>::empty()))]) =~= Seq::<
            (Seq<char>, Seq<char>),
        >::empty(),
        link.len() > 0 ==> artists_of_tiles(seq![(Some(title), Some(link))]) =~= seq![
            (artist_name_of(title), link),
        ],
{
    let e = Seq::<(Option<Seq<char>>, Option<Seq<char>>)>::empty();
    assert(artists_of_tiles(e) =~= Seq::<(Seq<char>, Seq<char>)>::empty());
    let s1 = seq![(Some(title), None::<Seq<char>>)];
    let s2 = seq![(Some(title), Some(link))];
    let s3 = seq![(Some(title), Some(Seq::<char>::empty()))];
    assert(s1.drop_last() =~= e);
    assert(s2.drop_last() =~= e);
    assert(s3.drop_last() =~= e);
    assert(s1.last() == (Some(title), None::<Seq<char>>));
    assert(s2.last() == (Some(title), Some(link)));
    assert(s3.last() == (Some(title), Some(Seq::<char>::empty())));
}

/// Every artist record any tile sequence yields carries a non-empty audio
/// link: an artist with no link is dropped, never produced.
pub proof fn lemma_artists_have_links(ts: Seq<(Option<Seq<char>>, Option<Seq<char>>)>)
    ensures
        forall|i: int|
            0 <= i < artists_of_tiles(ts).len() ==> (#[trigger] artists_of_tiles(ts)[i]).1.len()
                > 0,
    decreases ts.len(),
{
    if ts.len() > 0 {
        lemma_artists_have_links(ts.drop_last());
        let t = ts.last();
        assert forall|i: int| 0 <= i < artists_of_tiles(ts).len() implies (
        #[trigger] artists_of_tiles(ts)[i]).1.len() > 0 by {
            if t.0 is Some && t.1 is Some && t.1->0.len() > 0 && i == artists_of_tiles(
                ts,
            ).len() - 1 {
                assert(artists_of_tiles(ts)[i] == (artist_name_of(t.0->0), t.1->0));
            } else {
                assert(artists_of_tiles(ts)[i] == artists_of_tiles(ts.drop_last())[i]);
            }
        }
    }
}

/// Extracts the artist records of the artist region, given as its HTML text.
pub fn extract_artists_from_canvas(canvas: &str) -> (r: Vec<ExtractedArtist>)
    ensures
        r.deep_view() == artists_of_tiles(tile_attrs_of(canvas@)),
{
    let tiles = select_tile_attrs(canvas);
    let mut out: Vec<ExtractedArtist> = Vec::new();
    let mut k: usize = 0;
    while k < tiles.len()
        invariant
            k <= tiles.len(),
            out.deep_view() == artists_of_tiles(tiles.deep_view().take(k as int)),
        decreases tiles.len() - k,
    {
        let ghost pre = out.deep_view();
        let tile = &tiles[k];
        match (&tile.title, &tile.preview_url) {
            (Some(title), Some(link)) => {
                if !link.as_str().is_empty() {
                    let name = extract_artist_name_from_title(title.as_str());
                    out.push(ExtractedArtist { name, audio_link: link.clone() });
                    proof {
                        assert(out.deep_view() =~= pre.push(
                            (artist_name_of(title@), link@),
                        ));
                    }
                }
            },
            _ => {},
        }
        proof {
            let tsd = tiles.deep_view();
            assert(tsd.take(k + 1).drop_last() =~= tsd.take(k as int));
            assert(tsd.take(k + 1).last() == tsd[k as int]);
        }
        k += 1;
    }
    proof {
        assert(tiles.deep_view().take(tiles.len() as int) =~= tiles.deep_view());
    }
    out
}

/// Extracts the cleaned genre labels of a similar- or opposite-genre region,
/// given as its HTML text.
pub fn extract_genres_from_canvas(canvas: &str) -> (r: Vec<String>)
    ensures
        r.deep_view() == cleaned_texts(label_texts_of(canvas@)),
{
    let texts = select_label_texts(canvas);
    clean_texts(&texts)
}

/// Parses the taxonomy root page into the ordered genre name list: every
/// genre tile's text, trimmed, blanks dropped, `" »"` stripped. An empty
/// list is not an error.
pub fn parse_genre_list(html: &str) -> (r: Vec<String>)
    ensures
        r.deep_view() == cleaned_texts(tile_texts_of(html@)),
{
    let texts = select_tile_texts(html);
    clean_texts(&texts)
}

/// A detail page failed its structural precondition: it did not hold
/// exactly three content regions. Carries the observed count.
#[derive(Debug, PartialEq, Eq)]
pub enum PageError {
    StructuralMismatch { found: usize },
}

/// What a well-formed detail page (exactly three regions) parses to:
/// region 0 yields the artists, region 1 the similar genres, region 2 the
/// opposite genres.
pub open spec fn page_data_of(page: Seq<char>) -> (
    Seq<(Seq<char>, Seq<char>)>,
    Seq<Seq<char>>,
    Seq<Seq<char>>,
) {
    let cs = canvases_of(page);
    (
        artists_of_tiles(tile_attrs_of(cs[0])),
        cleaned_texts(label_texts_of(cs[1])),
        cleaned_texts(label_texts_of(cs[2])),
    )
}

/// Parses a genre detail page. The page must hold exactly three content
/// regions, read positionally as artists / similar genres / opposite
/// genres; any other count is a structural mismatch carrying that count.
pub fn parse_genre_page(html: &str) -> (r: Result<GenrePageData, PageError>)
    ensures
        canvases_of(html@).len() == 3 ==> r is Ok && r->Ok_0@ == page_data_of(html@),
        canvases_of(html@).len() != 3 ==> (r matches Err(PageError::StructuralMismatch { found })
            && found == canvases_of(html@).len()),
{
    let canvases = select_canvas_htmls(html);
    proof {
        assert(canvases.deep_view().len() == canvases@.len());
    }
    if canvases.len() == 3 {
        let artists = extract_artists_from_canvas(canvases[0].as_str());
        let similar_genres = extract_genres_from_canvas(canvases[1].as_str());
        let opposite_genres = extract_genres_from_canvas(canvases[2].as_str());
        Ok(GenrePageData { artists, similar_genres, opposite_genres })
    } else {
        Err(PageError::StructuralMismatch { found: canvases.len() })
    }
}

} // verus!
