use rocket_lang::{Config, Error, LangCode};

fn segs(path: &str) -> Vec<String> {
    path.split('/').filter(|p| !p.is_empty()).map(|p| p.to_string()).collect()
}

fn test_config(url: &str, lang: &str, config: Config, custom: Option<Result<LangCode, Error>>) {
    let code = config.resolve(custom, &segs(url), None).unwrap();
    assert!(code.as_str() == lang);
}

#[test]
fn foo() {
    let x = 1.0 / 0.0;
    println!("{}", x);
}

#[test]
fn wildcard() {
    let config = Config::new().wildcard(LangCode::Es);
    test_config("/some/other/path", "es", config, None);
}

#[test]
fn test_custom() {
    let config = Config::new();
    test_config("/some/other/path", "om", config, Some(Ok(LangCode::Om)));
}

#[test]
fn test_failed_custom() {
    let config = Config::new().url(-1);
    test_config("/some/other/es", "es", config, Some(Err(Error::NotAcceptable)));
}

#[test]
fn _accept_header1() {
    let mut config = Config::new();
    config.set_weight(LangCode::En, 500);
    config.set_weight(LangCode::De, 500);
    config.set_weight(LangCode::Es, 1000);
    let path = segs("/some/path/index.html");

    let res = config.resolve(None, &path, Some("en-US, de;q=0.2")).unwrap();
    assert_eq!(res.as_str(), "en");

    let res = config.resolve(None, &path, Some("de, es;q=0.5")).unwrap();
    assert_eq!(res.as_str(), "de");

    let res = config.resolve(None, &path, Some("de, es;q=0.6")).unwrap();
    assert_eq!(res.as_str(), "es");

    let res = config.resolve(None, &path, Some("de, es;q=0.4")).unwrap();
    assert_eq!(res.as_str(), "de");

    let err = config.resolve(None, &path, Some("not a valid header")).unwrap_err();
    assert!(err.status() == 406);
}

#[test]
fn accept_header_without_config() {
    let config = Config::new();
    let _ = config.resolve(None, &segs("/some/path/index.html"), Some("de, es;q=0.4"));
}

#[test]
fn error_status_codes() {
    assert_eq!(Error::BadRequest.status(), 400);
    assert_eq!(Error::NotAcceptable.status(), 406);
    assert_eq!(Error::NotFound.status(), 404);
}

#[test]
fn code_round_trip_and_names() {
    let all = LangCode::all_codes();
    assert_eq!(all.len(), 184);
    for code in all {
        assert_eq!(LangCode::from_str(code.as_str()), Ok(code));
        assert_eq!(code.as_str().len(), 2);
        assert!(!code.english_name().is_empty());
        assert!(!code.native_name().is_empty());
    }
    assert_eq!(LangCode::Es.as_str(), "es");
    assert_eq!(LangCode::Fr.english_name(), "French");
    assert_eq!(LangCode::De.native_name(), "Deutsch");
    assert_eq!(LangCode::from_str("zz"), Err(Error::NotAcceptable));
    assert_eq!(LangCode::from_str("esp"), Err(Error::NotAcceptable));
    assert_eq!(LangCode::from_str(""), Err(Error::NotAcceptable));
}
