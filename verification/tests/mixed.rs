use rocket_lang::{Config, Error, LangCode};

fn segs(path: &str) -> Vec<String> {
    path.split('/').filter(|p| !p.is_empty()).map(|p| p.to_string()).collect()
}

fn assert_mixed(config: &Config, path: &str, header: &str, lang: &str) {
    let code = config.resolve(None, &segs(path), Some(header)).unwrap();
    assert_eq!(code.as_str(), lang);
}

fn assert_err(config: &Config, path: &str, header: &str, err: Error) {
    assert_eq!(config.resolve(None, &segs(path), Some(header)), Err(err));
}

#[test]
fn mixed_url_accept_language() {
    let mut config = Config::new().url(-1);
    config.set_weight(LangCode::Es, 1000);
    assert_mixed(&config, "/some/bad/path", "en,es;q=0.1", "es");
    assert_mixed(&config, "/some/bad/la", "en,es;q=0.1", "la");
    // the URL slot is configured and fails, so its error is the one surfaced
    assert_err(&config, "/some/bad/path", "en", Error::NotFound);
}

#[test]
fn mixed_url_wildcard() {
    let mut config = Config::new().url(-1).wildcard(LangCode::De);
    config.set_weight(LangCode::Es, 1000);
    assert_mixed(&config, "/some/bad/path", "en", "de");
    assert_mixed(&config, "/some/bad/path", "es", "es");
    assert_mixed(&config, "/some-good/path/pt", "es", "pt");
    assert!(config.resolve(None, &segs("/some/bad/path"), Some("not a valid header")).is_ok());
    assert!(config.resolve(None, &segs("/some/bad/path"), Some("")).is_ok());
}

#[test]
fn mixed_custom_url() {
    let mut config = Config::new().url(-1).wildcard(LangCode::De);
    config.set_weight(LangCode::Es, 1000);
    let custom: Option<Result<LangCode, Error>> = Some(Err(Error::NotFound));
    assert_eq!(
        config.resolve(custom, &segs("/some/bad/path"), Some("en")).unwrap().as_str(),
        "de"
    );
    assert_eq!(
        config.resolve(custom, &segs("/some/bad/path"), Some("en")).unwrap().as_str(),
        "de"
    );
    assert_eq!(
        config.resolve(custom, &segs("/some/bad/path"), Some("es")).unwrap().as_str(),
        "es"
    );
    assert_eq!(
        config.resolve(custom, &segs("/some-good/path/pt"), Some("es")).unwrap().as_str(),
        "pt"
    );

    let config = Config::new();
    let custom = Some(Ok(LangCode::La));
    assert_eq!(config.resolve(custom, &segs("/some/bad/path"), Some("en")).unwrap().as_str(), "la");
    assert_eq!(config.resolve(custom, &segs("/some/bad/path"), Some("en")).unwrap().as_str(), "la");
    assert_eq!(config.resolve(custom, &segs("/some/bad/path"), Some("es")).unwrap().as_str(), "la");
    assert_eq!(
        config.resolve(custom, &segs("/some-good/path/pt"), Some("es")).unwrap().as_str(),
        "la"
    );
}

#[test]
fn precedence_url_header_wildcard() {
    // the URL slot fails on "path", the header's "en" has weight zero, so
    // the wildcard wins
    let mut config = Config::new().url(-1).wildcard(LangCode::De);
    config.set_weight(LangCode::Es, 1000);
    let r = config.resolve(None, &segs("/some/bad/path"), Some("en"));
    assert_eq!(r.unwrap().as_str(), "de");
}

#[test]
fn custom_error_surfaces_when_nothing_else_configured() {
    // a failing custom resolver's error is surfaced when no URL slot is
    // configured and no wildcard saves the chain
    let config = Config::new();
    let r = config.resolve(Some(Err(Error::BadRequest)), &segs("/a/b"), Some("xx"));
    assert_eq!(r, Err(Error::BadRequest));
}

#[test]
fn malformed_header_chain_not_acceptable() {
    // nothing configured, header useless: the header step's own error is
    // the one surfaced
    let config = Config::new();
    assert_err(&config, "/a/b", "not a valid request", Error::NotAcceptable);
}

#[test]
fn absent_header_defaults_to_en() {
    let mut config = Config::new();
    config.set_weight(LangCode::En, 1000);
    assert_eq!(config.resolve(None, &segs("/a/b"), None), Ok(LangCode::En));
}
