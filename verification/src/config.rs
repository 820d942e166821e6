use vstd::prelude::*;
use vstd::string::StringSliceAdditionalSpecFns;

use crate::accept_language::{decide_bytes, spec_header_decision};
use crate::error::Error;
use crate::lang::{
    lemma_code_at_index, lemma_code_index_injective, lemma_two_ascii_bytes, spec_code_index,
    LangCode, CODE_COUNT,
};
use crate::url::{spec_segments_bytes, spec_url_get};

verus! {

/// How a server resolves the language of a request.
///
/// The precedence for every configuration is:
///   1. custom resolver outcome
///   2. URL path segment
///   3. `Accept-Language` header
///   4. wildcard
///
/// A configuration holds the operator's support weight for every known code
/// (in thousandths, `0` meaning unsupported -- every weight starts at `0`),
/// the optional position of the URL segment to read a code from, and the
/// optional wildcard code used as a last resort.
#[derive(Clone)]
pub struct Config {
    /// The code used as a last resort if every other source failed.
    pub wildcard: Option<LangCode>,
    pub(crate) url: Option<i32>,
    pub(crate) weights: Vec<u32>,
}

/// The header bytes the chain works on: the raw header when one is present,
/// the literal `en` when none is.
pub open spec fn spec_effective_header(h: Option<Seq<u8>>) -> Seq<u8> {
    match h {
        Some(b) => b,
        None => seq![101u8, 110u8],  // "en"
    }
}

/// The bytes of an optional header value.
pub open spec fn spec_header_view(h: Option<&str>) -> Option<Seq<u8>> {
    match h {
        Some(t) => Some(t.spec_bytes()),
        None => None,
    }
}

/// The tail of the chain once the configured sources are exhausted: header
/// resolution, then the wildcard; `last` is the error of the last
/// configured source that failed, surfaced in place of the header step's
/// own error when the chain fails outright.
pub open spec fn spec_resolve_tail(
    cfg: Config,
    last: Option<Error>,
    header: Option<Seq<u8>>,
) -> Result<LangCode, Error> {
    match spec_header_decision(cfg, spec_effective_header(header)) {
        Ok(l) => Ok(l),
        Err(he) => match cfg.spec_wildcard() {
            Some(w) => Ok(w),
            None => Err(
                match last {
                    Some(e) => e,
                    None => he,
                },
            ),
        },
    }
}

/// What the whole resolution chain yields for one request.
///
/// The sources stand in strict precedence order -- custom outcome, URL
/// segment, header, wildcard -- and the first source that is configured and
/// succeeds wins.  An unconfigured source is transparent.  When everything
/// up to the wildcard fails and no wildcard is set, the surfaced error is
/// that of the last configured source that failed: the URL step's error
/// overwrites the custom step's, and the header step's own error surfaces
/// only when neither custom resolver nor URL position was configured.
pub open spec fn spec_resolve(
    cfg: Config,
    custom: Option<Result<LangCode, Error>>,
    segs: Seq<Seq<u8>>,
    header: Option<Seq<u8>>,
) -> Result<LangCode, Error> {
    match custom {
        Some(Ok(l)) => Ok(l),
        _ => {
            let run = match custom {
                Some(Err(e)) => Some(e),
                _ => None,
            };
            match cfg.spec_url() {
                Some(pos) => match spec_url_get(segs, pos as int) {
                    Ok(l) => Ok(l),
                    Err(e) => spec_resolve_tail(cfg, Some(e), header),
                },
                None => spec_resolve_tail(cfg, run, header),
            }
        },
    }
}

impl Config {
    /// A configuration is well formed when it carries one weight per
    /// catalog code.
    pub closed spec fn wf(&self) -> bool {
        self.weights@.len() == CODE_COUNT
    }

    /// The support weight of a code, in thousandths.
    pub closed spec fn spec_weight(&self, c: LangCode) -> u32 {
        self.weights@[spec_code_index(c)]
    }

    /// The configured URL segment position, if any.
    pub closed spec fn spec_url(&self) -> Option<i32> {
        self.url
    }

    /// The configured wildcard code, if any.
    pub closed spec fn spec_wildcard(&self) -> Option<LangCode> {
        self.wildcard
    }

    /// Constructs a configuration with no wildcard, no URL position, and
    /// every support weight zero.
    pub fn new() -> (c: Config)
        ensures
            c.wf(),
            c.spec_wildcard() is None,
            c.spec_url() is None,
            forall|l: LangCode| c.spec_weight(l) == 0,
    {
        let mut weights: Vec<u32> = Vec::new();
        let mut i: usize = 0;
        while i < CODE_COUNT
            invariant
                i <= CODE_COUNT,
                weights@.len() == i,
                forall|k: int| 0 <= k < i ==> weights@[k] == 0,
            decreases CODE_COUNT - i,
        {
            weights.push(0);
            i = i + 1;
        }
        let c = Config { wildcard: None, url: None, weights };
        proof {
            assert forall|l: LangCode| c.spec_weight(l) == 0 by {
                lemma_code_at_index(l);
            }
        }
        c
    }

    /// Returns the configuration with the wildcard set: the last resort if
    /// all other sources failed.
    pub fn wildcard(self, lang: LangCode) -> (c: Config)
        ensures
            c.spec_wildcard() == Some(lang),
            c.spec_url() == self.spec_url(),
            forall|l: LangCode| c.spec_weight(l) == self.spec_weight(l),
            c.wf() == self.wf(),
    {
        Config { wildcard: Some(lang), ..self }
    }

    /// Returns the configuration with the URL position set: which path
    /// segment is read as a language code.  Negative positions count from
    /// the last segment, `-1` being the last.
    pub fn url(self, position: i32) -> (c: Config)
        ensures
            c.spec_url() == Some(position),
            c.spec_wildcard() == self.spec_wildcard(),
            forall|l: LangCode| c.spec_weight(l) == self.spec_weight(l),
            c.wf() == self.wf(),
    {
        Config { url: Some(position), ..self }
    }

    /// Sets the support weight of one code, in thousandths; every other
    /// weight is kept.
    pub fn set_weight(&mut self, lang: LangCode, millis: u32)
        requires
            old(self).wf(),
        ensures
            final(self).wf(),
            final(self).spec_weight(lang) == millis,
            forall|l: LangCode|
                l != lang ==> final(self).spec_weight(l) == old(self).spec_weight(l),
            final(self).spec_wildcard() == old(self).spec_wildcard(),
            final(self).spec_url() == old(self).spec_url(),
    {
        let idx = lang.code_index();
        self.weights.set(idx, millis);
        proof {
            lemma_code_at_index(lang);
            assert forall|l: LangCode| l != lang implies self.spec_weight(l) == old(
                self,
            ).spec_weight(l) by {
                lemma_code_at_index(l);
                if spec_code_index(l) == spec_code_index(lang) {
                    lemma_code_index_injective(l, lang);
                }
            }
        }
    }

    /// Resolves the language of one request from the four sources in strict
    /// precedence order: the custom resolver's outcome (`None` when no
    /// custom resolver is configured), the designated URL path segment, the
    /// `Accept-Language` header (read as the literal `en` when absent), and
    /// the wildcard.  The first source that is configured and succeeds
    /// wins; when all fail, the error of the last configured failing source
    /// is surfaced, per [`spec_resolve`].
    pub fn resolve(
        &self,
        custom: Option<Result<LangCode, Error>>,
        segments: &Vec<String>,
        header: Option<&str>,
    ) -> (r: Result<LangCode, Error>)
        requires
            self.wf(),
        ensures
            r == spec_resolve(*self, custom, spec_segments_bytes(segments@), spec_header_view(header)),
    {
        if let Some(Ok(l)) = custom {
            return Ok(l);
        }
        let mut last: Option<Error> = match custom {
            Some(Err(e)) => Some(e),
            _ => None,
        };
        if let Some(pos) = self.url {
            match crate::url::get(segments, pos) {
                Ok(l) => {
                    return Ok(l);
                },
                Err(e) => {
                    last = Some(e);
                },
            }
        }
        let hb: &[u8] = match header {
            Some(h) => h.as_bytes(),
            None => {
                proof {
                    reveal_strlit("en");
                    lemma_two_ascii_bytes("en", 101, 110);
                }
                "en".as_bytes()
            },
        };
        proof {
            assert(hb@ == spec_effective_header(spec_header_view(header)));
        }
        match decide_bytes(hb, self) {
            Ok(l) => Ok(l),
            Err(he) => match self.wildcard {
                Some(w) => Ok(w),
                None => Err(
                    match last {
                        Some(e) => e,
                        None => he,
                    },
                ),
            },
        }
    }

    /// The support weight of a code, in thousandths.
    pub fn weight(&self, lang: LangCode) -> (w: u32)
        requires
            self.wf(),
        ensures
            w == self.spec_weight(lang),
    {
        let idx = lang.code_index();
        proof {
            lemma_code_at_index(lang);
        }
        self.weights[idx]
    }
}

/// A configured custom resolver's success is authoritative: whatever the
/// path segments, the header, and the rest of the configuration hold, its
/// code is the chain's result.
pub proof fn lemma_custom_override(
    cfg: Config,
    l: LangCode,
    segs: Seq<Seq<u8>>,
    header: Option<Seq<u8>>,
)
    ensures
        spec_resolve(cfg, Some(Ok(l)), segs, header) == Ok::<LangCode, Error>(l),
{
}

/// A wildcard makes the chain total: with a wildcard configured, resolution
/// yields a code for every custom outcome, every path, and every header.
pub proof fn lemma_wildcard_total(
    cfg: Config,
    custom: Option<Result<LangCode, Error>>,
    segs: Seq<Seq<u8>>,
    header: Option<Seq<u8>>,
)
    requires
        cfg.spec_wildcard() is Some,
    ensures
        spec_resolve(cfg, custom, segs, header) is Ok,
{
}

} // verus!
