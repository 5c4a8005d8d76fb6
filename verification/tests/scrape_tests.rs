use genremap::scrape::{
    detail_url, extract_artists_from_canvas, parse_genre_list, parse_genre_page, PageError,
};

fn detail_page(canvas_count: usize) -> String {
    let artist_canvas = "<div class=\"canvas\">\
        <div class=\"genre scanme\" title=\"e.g. Daft Punk &quot;One More Time&quot;\" \
            preview_url=\"https://audio.example/daft.mp3\">daft punk</div>\
        <div class=\"genre scanme\" title=\"e.g. Unheard Band &quot;Song&quot;\">no preview</div>\
        <div class=\"genre scanme\" preview_url=\"https://audio.example/anon.mp3\">no title</div>\
        </div>";
    let similar_canvas = "<div class=\"canvas\">\
        <div class=\"genre\">  french house »</div>\
        <div class=\"genre\">   </div>\
        <div class=\"genre\">electro</div>\
        </div>";
    let opposite_canvas = "<div class=\"canvas\">\
        <div class=\"genre\">black metal »</div>\
        </div>";
    let canvases = [artist_canvas, similar_canvas, opposite_canvas];
    let mut body = String::new();
    for i in 0..canvas_count {
        body.push_str(canvases[i % 3]);
    }
    format!("<html><body>{}</body></html>", body)
}

#[test]
fn genre_list_in_document_order() {
    let html = "<html><body>\
        <div class=\"genre scanme\">  Pop »</div>\
        <div class=\"genre scanme\">   </div>\
        <div class=\"genre scanme\">Jazz</div>\
        <div class=\"genre scanme\"></div>\
        <div class=\"genre scanme\">Rock »  </div>\
        </body></html>";
    let genres = parse_genre_list(html);
    assert_eq!(genres, vec!["Pop".to_string(), "Jazz".to_string(), "Rock".to_string()]);
}

#[test]
fn genre_list_of_plain_page_is_empty() {
    assert_eq!(parse_genre_list("<html><body><p>nothing here</p></body></html>"), Vec::<String>::new());
}

#[test]
fn detail_page_with_three_regions_parses() {
    let page = detail_page(3);
    let data = parse_genre_page(&page).unwrap();
    assert_eq!(data.artists.len(), 1);
    assert_eq!(data.artists[0].name, "Daft Punk");
    assert_eq!(data.artists[0].audio_link, "https://audio.example/daft.mp3");
    assert_eq!(data.similar_genres, vec!["french house".to_string(), "electro".to_string()]);
    assert_eq!(data.opposite_genres, vec!["black metal".to_string()]);
}

#[test]
fn detail_page_with_two_regions_is_structural_mismatch() {
    let page = detail_page(2);
    let err = parse_genre_page(&page).unwrap_err();
    assert_eq!(err, PageError::StructuralMismatch { found: 2 });
}

#[test]
fn detail_page_with_four_regions_is_structural_mismatch() {
    let page = detail_page(4);
    let err = parse_genre_page(&page).unwrap_err();
    assert_eq!(err, PageError::StructuralMismatch { found: 4 });
}

#[test]
fn artist_needs_both_title_and_preview_url() {
    let canvas = "<div class=\"canvas\">\
        <div class=\"genre scanme\" title=\"e.g. Named Band &quot;Hit&quot;\">named, no link</div>\
        </div>";
    assert_eq!(extract_artists_from_canvas(canvas).len(), 0);

    let canvas = "<div class=\"canvas\">\
        <div class=\"genre scanme\" title=\"e.g. Named Band &quot;Hit&quot;\" \
            preview_url=\"\">named, empty link</div>\
        </div>";
    assert_eq!(extract_artists_from_canvas(canvas).len(), 0);

    let canvas = "<div class=\"canvas\">\
        <div class=\"genre scanme\" title=\"e.g. Named Band &quot;Hit&quot;\" \
            preview_url=\"https://audio.example/hit.mp3\">named</div>\
        </div>";
    let artists = extract_artists_from_canvas(canvas);
    assert_eq!(artists.len(), 1);
    assert_eq!(artists[0].name, "Named Band");
    assert_eq!(artists[0].audio_link, "https://audio.example/hit.mp3");
}

#[test]
fn artist_with_unparsable_title_keeps_empty_name() {
    let canvas = "<div class=\"canvas\">\
        <div class=\"genre scanme\" title=\"no marker here\" \
            preview_url=\"https://audio.example/x.mp3\">x</div>\
        </div>";
    let artists = extract_artists_from_canvas(canvas);
    assert_eq!(artists.len(), 1);
    assert_eq!(artists[0].name, "");
    assert_eq!(artists[0].audio_link, "https://audio.example/x.mp3");
}

#[test]
fn detail_url_from_display_name() {
    assert_eq!(
        detail_url("Hip Hop!"),
        "https://everynoise.com/engenremap-HipHop.html"
    );
    assert_eq!(detail_url("pop"), "https://everynoise.com/engenremap-pop.html");
}
