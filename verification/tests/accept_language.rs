use rocket_lang::accept_language::{languages, with_config};
use rocket_lang::{Config, Error, LangCode};

fn assert_lang(config: &Config, header: &str, lang: &str) {
    let code = with_config(header, config).unwrap();
    assert_eq!(code.as_str(), lang);
}

fn assert_not_acceptable(config: &Config, header: &str) {
    assert_eq!(with_config(header, config), Err(Error::NotAcceptable));
}

#[test]
fn accept_language_configured() {
    let mut config = Config::new();
    config.set_weight(LangCode::En, 500);
    config.set_weight(LangCode::De, 500);
    config.set_weight(LangCode::Es, 1000);
    assert_lang(&config, "en-US, de;q=0.2", "en");
    assert_lang(&config, "de,es;q=0.5", "de");
    assert_lang(&config, "de, es;q=0.6", "es");
    assert_lang(&config, "de, es;q=0.4", "de");
    assert_lang(&config, "en-US, de;q=0.2", "en");
    assert_lang(&config, "es,invalid", "es");
    assert_not_acceptable(&config, "pt,fr;q=0.3");
    assert_not_acceptable(&config, "not a valid request");
    assert_not_acceptable(&config, "xx");
    assert_not_acceptable(&config, "xx;q=0.2");

    let mut config = Config::new();
    for code in LangCode::all_codes() {
        config.set_weight(code, 1000);
    }
    assert_lang(&config, "en-US, de;q=0.2", "en");
    assert_lang(&config, "de,es;q=0.5", "de");
    assert_lang(&config, "de, es;q=0.6", "de");
    assert_lang(&config, "de, es;q=0.4", "de");
    assert_lang(&config, "en-US, de;q=0.2", "en");
    assert_lang(&config, "fr;q=0.3", "fr");
    assert_not_acceptable(&config, "not a valid request");
    assert_not_acceptable(&config, "xx");
    assert_not_acceptable(&config, "xx;q=0.2");
}

#[test]
fn parser_is_deterministic_and_order_preserving() {
    let headers = ["de, es;q=0.6", "en-US, de;q=0.2", "not a valid request", "", "es,invalid"];
    for header in headers {
        let first = languages(header);
        let second = languages(header);
        assert_eq!(first, second);
    }
    let cands = languages("de, es;q=0.6");
    assert_eq!(cands, vec![(LangCode::De, 1000), (LangCode::Es, 600)]);
    let cands = languages("es;q=0.1,de,fr;q=0.9");
    assert_eq!(
        cands,
        vec![(LangCode::Es, 100), (LangCode::De, 1000), (LangCode::Fr, 900)]
    );
}

#[test]
fn zero_weight_is_never_acceptable() {
    // every weight is zero by default, so no candidate can win, whatever
    // the client's qualities say
    let config = Config::new();
    assert_not_acceptable(&config, "en");
    assert_not_acceptable(&config, "de;q=1.0, es;q=0.9, fr");
    assert_not_acceptable(&config, "es");
}

#[test]
fn quality_parsing_details() {
    // absent quality reads as 1.0, malformed quality falls back to 1.0,
    // fractions resolve to thousandths, huge values saturate
    assert_eq!(languages("es"), vec![(LangCode::Es, 1000)]);
    assert_eq!(languages("es;q=0.25"), vec![(LangCode::Es, 250)]);
    assert_eq!(languages("es;q=.5"), vec![(LangCode::Es, 500)]);
    assert_eq!(languages("es;q=5."), vec![(LangCode::Es, 5000)]);
    assert_eq!(languages("es;q=1.2.3"), vec![(LangCode::Es, 1000)]);
    assert_eq!(languages("es;q=."), vec![(LangCode::Es, 1000)]);
    assert_eq!(languages("es;q=0.0005"), vec![(LangCode::Es, 0)]);
    assert_eq!(languages("es;q=0.1239"), vec![(LangCode::Es, 123)]);
    assert_eq!(languages("es;q=99999999999"), vec![(LangCode::Es, u32::MAX)]);
    // an explicit zero quality is kept as a candidate, but never replaces
    // a running best
    assert_eq!(languages("es;q=0"), vec![(LangCode::Es, 0)]);
    let mut config = Config::new();
    config.set_weight(LangCode::De, 100);
    config.set_weight(LangCode::Es, 1000);
    assert_lang(&config, "de,es;q=0", "de");
}

#[test]
fn region_subtags_are_discarded() {
    assert_eq!(languages("en-US"), vec![(LangCode::En, 1000)]);
    assert_eq!(languages("pt-BR;q=0.7"), vec![(LangCode::Pt, 700)]);
}

#[test]
fn separator_handling() {
    // a token may start right at a leading separator
    assert_eq!(languages(",es"), vec![(LangCode::Es, 1000)]);
    assert_eq!(languages(" es"), vec![(LangCode::Es, 1000)]);
    // a token swallows one trailing space, so a bare space-separated
    // successor has no separator left to start from
    assert_eq!(languages("es fr"), vec![(LangCode::Es, 1000)]);
    // with a comma the successor keeps its separator
    assert_eq!(languages("es,fr"), vec![(LangCode::Es, 1000), (LangCode::Fr, 1000)]);
    assert_eq!(languages("de, es"), vec![(LangCode::De, 1000), (LangCode::Es, 1000)]);
    // a quality may follow the swallowed space
    assert_eq!(languages("es ;q=0.5"), vec![(LangCode::Es, 500)]);
    // subtags longer than three word bytes are cut, not matched
    assert_eq!(languages("index"), vec![]);
}

#[test]
fn quality_boundary_crossing() {
    // the relative trade-off boundary: with de and en at half support and
    // es fully supported, es needs strictly more than q=0.5 to displace de
    let mut config = Config::new();
    config.set_weight(LangCode::En, 500);
    config.set_weight(LangCode::De, 500);
    config.set_weight(LangCode::Es, 1000);
    assert_lang(&config, "de, es;q=0.5", "de");
    assert_lang(&config, "de, es;q=0.6", "es");
}

#[test]
fn malformed_header_not_acceptable() {
    // a header that yields no usable candidate fails with NotAcceptable
    // when no wildcard and no weight would let anything through
    let config = Config::new();
    assert_eq!(
        with_config("not a valid request", &config),
        Err(Error::NotAcceptable)
    );
}
