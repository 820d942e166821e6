use rocket_lang::url::get;
use rocket_lang::{Error, LangCode};

fn segs(parts: &[&str]) -> Vec<String> {
    parts.iter().map(|p| p.to_string()).collect()
}

#[test]
fn url_minus_one() {
    assert_eq!(get(&segs(&["index", "path", "es"]), -1), Ok(LangCode::Es));
}

#[test]
fn url_negative_index() {
    assert_eq!(get(&segs(&["index", "fr", "segment"]), -2), Ok(LangCode::Fr));
}

#[test]
fn url_positive_index() {
    assert_eq!(get(&segs(&["de", "some", "path"]), 0), Ok(LangCode::De));
    assert_eq!(get(&segs(&["some", "pt", "path"]), 1), Ok(LangCode::Pt));
}

#[test]
fn url_not_a_lang_code() {
    assert_eq!(get(&segs(&["fail"]), 0), Err(Error::NotFound));
}

#[test]
fn url_not_long_enough_positive() {
    assert_eq!(get(&segs(&["fail"]), 3), Err(Error::NotFound));
}

#[test]
fn url_not_long_enough_minus_one() {
    assert_eq!(get(&segs(&[]), -1), Err(Error::NotFound));
}

#[test]
fn url_not_long_enough_negative() {
    assert_eq!(get(&segs(&[]), -4), Err(Error::NotFound));
}

#[test]
fn url_extreme_positions() {
    let path = segs(&["a", "b", "es"]);
    assert_eq!(get(&path, i32::MAX), Err(Error::NotFound));
    assert_eq!(get(&path, i32::MIN), Err(Error::NotFound));
    // -3 selects the first of three segments, and "a" is not a code
    assert_eq!(get(&path, -3), Err(Error::NotFound));
    assert_eq!(get(&segs(&["es", "b", "c"]), -3), Ok(LangCode::Es));
}
