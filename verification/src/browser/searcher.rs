//! Searching for videos: the search engines, their result pages, and the
//! candidates kept from what they list.
use vstd::prelude::*;

use super::error::BrowserError;
use crate::text::{
    clone_strings, concat2, contains, occurs_at, owned, push_char, spec_to_lowercase, str_contains, str_eq,
    to_lowercase, views,
};
use crate::urls::{form_encoded, form_urlencode, parse_host, url_host};
use vstd::string::StringSliceAdditionalSpecFns;
use vstd::utf8::encode_utf8;

verus! {

/// The engines the searcher can drive.
#[derive(Clone, Copy, Debug, PartialEq, Eq, Structural)]
pub enum SearchEngine {
    Google,
    Bing,
    DuckDuckGo,
}

impl SearchEngine {
    pub open spec fn spec_label(self) -> Seq<char> {
        match self {
            SearchEngine::Google => "google"@,
            SearchEngine::Bing => "bing"@,
            SearchEngine::DuckDuckGo => "duckduckgo"@,
        }
    }

    /// The engine's name, as it is displayed.
    pub fn label(&self) -> (r: String)
        ensures
            r@ == self.spec_label(),
    {
        match self {
            SearchEngine::Google => owned("google"),
            SearchEngine::Bing => owned("bing"),
            SearchEngine::DuckDuckGo => owned("duckduckgo"),
        }
    }

    /// The engine a configured name names, in any case: `google`, `bing`,
    /// `duckduckgo` or `ddg`.
    pub open spec fn spec_parse(value: Seq<char>) -> Option<SearchEngine> {
        let v = spec_to_lowercase(value);
        if v == "google"@ {
            Some(SearchEngine::Google)
        } else if v == "bing"@ {
            Some(SearchEngine::Bing)
        } else if v == "duckduckgo"@ || v == "ddg"@ {
            Some(SearchEngine::DuckDuckGo)
        } else {
            None
        }
    }

    /// Reads an engine name; an unknown one is a configuration error naming
    /// it (lower-cased).
    pub fn parse(value: &str) -> (r: Result<SearchEngine, BrowserError>)
        ensures
            match Self::spec_parse(value@) {
                Some(e) => r == Ok::<SearchEngine, BrowserError>(e),
                None => r matches Err(BrowserError::Configuration(m))
                    && m@ == "invalid search engine: "@ + spec_to_lowercase(value@),
            },
    {
        let lowered = to_lowercase(value);
        if str_eq(lowered.as_str(), "google") {
            Ok(SearchEngine::Google)
        } else if str_eq(lowered.as_str(), "bing") {
            Ok(SearchEngine::Bing)
        } else if str_eq(lowered.as_str(), "duckduckgo") || str_eq(lowered.as_str(), "ddg") {
            Ok(SearchEngine::DuckDuckGo)
        } else {
            Err(BrowserError::Configuration(concat2("invalid search engine: ", lowered.as_str())))
        }
    }
}

/// Reading the engine's label back gives the engine.
pub proof fn law_engine_label_round_trip(engine: SearchEngine)
    requires
        spec_to_lowercase(engine.spec_label()) == engine.spec_label(),
    ensures
        SearchEngine::spec_parse(engine.spec_label()) == Some(engine),
{
    reveal_strlit("google");
    reveal_strlit("bing");
    reveal_strlit("duckduckgo");
    reveal_strlit("ddg");
    assert("google"@.len() == 6 && "bing"@.len() == 4 && "duckduckgo"@.len() == 10);
}

/// How the searcher queries and what it keeps.
#[derive(Debug)]
pub struct SearchConfig {
    pub search_engine: SearchEngine,
    pub scroll_iterations: usize,
    pub max_results: usize,
    pub filter_domains: Vec<String>,
    pub delay_range_ms: (u64, u64),
}

/// A search result as the page lists it.
#[derive(Clone, Debug)]
pub struct SearchResultRaw {
    pub url: String,
    pub title: Option<String>,
    pub snippet: Option<String>,
}

/// A result kept as a candidate video, with its rank among the results.
#[derive(Clone, Debug)]
pub struct Candidate {
    pub url: String,
    pub title: Option<String>,
    pub snippet: Option<String>,
    pub domain: String,
    pub rank: usize,
}

pub open spec fn opt_text(o: Option<String>) -> Option<Seq<char>> {
    match o {
        Some(s) => Some(s@),
        None => None,
    }
}

pub open spec fn raw_views(v: Seq<SearchResultRaw>) -> Seq<(Seq<char>, Option<Seq<char>>, Option<Seq<char>>)> {
    v.map_values(|r: SearchResultRaw| (r.url@, opt_text(r.title), opt_text(r.snippet)))
}

/// A candidate as (url, title, snippet, domain, rank).
pub open spec fn candidate_views(v: Seq<Candidate>) -> Seq<(Seq<char>, Option<Seq<char>>, Option<Seq<char>>, Seq<char>, usize)> {
    v.map_values(|c: Candidate| (c.url@, opt_text(c.title), opt_text(c.snippet), c.domain@, c.rank))
}

/// The results with a URL, each URL kept at its first occurrence only.
pub open spec fn distinct_results(raw: Seq<(Seq<char>, Option<Seq<char>>, Option<Seq<char>>)>) -> Seq<(Seq<char>, Option<Seq<char>>, Option<Seq<char>>)>
    decreases raw.len(),
{
    if raw.len() == 0 {
        Seq::empty()
    } else {
        let acc = distinct_results(raw.drop_last());
        let r = raw.last();
        if r.0.len() == 0 || (exists|k: int| 0 <= k < acc.len() && (#[trigger] acc[k]).0 == r.0) {
            acc
        } else {
            acc.push(r)
        }
    }
}

/// The domain a result is filed under: the URL's host, lower-cased, or
/// the whole URL lower-cased when it has none.
pub open spec fn domain_of(url: Seq<char>) -> Seq<char> {
    match url_host(url) {
        Some(h) => spec_to_lowercase(h),
        None => spec_to_lowercase(url),
    }
}

/// The candidates of the distinct results, ranked from 1 in order.
pub open spec fn ranked(results: Seq<(Seq<char>, Option<Seq<char>>, Option<Seq<char>>)>) -> Seq<(Seq<char>, Option<Seq<char>>, Option<Seq<char>>, Seq<char>, usize)> {
    Seq::new(results.len(), |i: int| (results[i].0, results[i].1, results[i].2, domain_of(results[i].0), (i + 1) as usize))
}

/// The words that suggest a result is a video.
pub open spec fn video_indicators() -> Seq<Seq<char>> {
    seq![
        "youtube"@,
        "vimeo"@,
        "dailymotion"@,
        "metacafe"@,
        "watch"@,
        "video"@,
        "documentary"@,
        "livestream"@,
        "playlist"@,
    ]
}

/// The lower-cased URL, title and snippet of a candidate, joined by spaces.
pub open spec fn haystack(url: Seq<char>, title: Option<Seq<char>>, snippet: Option<Seq<char>>) -> Seq<char> {
    let with_title = match title {
        Some(t) => spec_to_lowercase(url) + seq![' '] + spec_to_lowercase(t),
        None => spec_to_lowercase(url),
    };
    match snippet {
        Some(s) => with_title + seq![' '] + spec_to_lowercase(s),
        None => with_title,
    }
}

/// True when the text holds one of the video indicators.
pub open spec fn looks_like_video(text: Seq<char>) -> bool {
    exists|k: int| 0 <= k < video_indicators().len() && contains(text, #[trigger] video_indicators()[k])
}

/// True when no domain filter is set or the lower-cased domain holds one of
/// the filtered domains.
pub open spec fn domain_allowed(filters: Seq<Seq<char>>, domain: Seq<char>) -> bool {
    filters.len() == 0 || exists|k: int| 0 <= k < filters.len() && contains(spec_to_lowercase(domain), #[trigger] filters[k])
}

/// The candidates that pass both filters, in order, stopping once
/// `max_results` are kept (the count is compared after keeping one, so at least
/// one is kept when any passes).
pub open spec fn filtered_candidates(
    filters: Seq<Seq<char>>,
    max_results: usize,
    cands: Seq<(Seq<char>, Option<Seq<char>>, Option<Seq<char>>, Seq<char>, usize)>,
) -> Seq<(Seq<char>, Option<Seq<char>>, Option<Seq<char>>, Seq<char>, usize)>
    decreases cands.len(),
{
    if cands.len() == 0 {
        Seq::empty()
    } else {
        let acc = filtered_candidates(filters, max_results, cands.drop_last());
        let c = cands.last();
        if acc.len() > 0 && acc.len() >= max_results {
            acc
        } else if domain_allowed(filters, c.3) && looks_like_video(haystack(c.0, c.1, c.2)) {
            acc.push(c)
        } else {
            acc
        }
    }
}

proof fn lemma_contains_in_concat(a: Seq<char>, b: Seq<char>, p: Seq<char>)
    ensures
        contains(a, p) ==> contains(a + b, p),
        contains(b, p) ==> contains(a + b, p),
{
    if contains(a, p) {
        let i = choose|i: int| occurs_at(a, p, i);
        assert((a + b).subrange(i, i + p.len()) =~= a.subrange(i, i + p.len()));
        assert(occurs_at(a + b, p, i));
    }
    if contains(b, p) {
        let i = choose|i: int| occurs_at(b, p, i);
        assert((a + b).subrange(a.len() + i, a.len() + i + p.len()) =~= b.subrange(i, i + p.len()));
        assert(occurs_at(a + b, p, a.len() + i));
    }
}

/// A candidate counts as a video when any of its URL, title or snippet,
/// lower-cased, mentions one of the video words; and with no domain filter a
/// lone such candidate passes the filters.
pub proof fn law_any_part_mentioning_video_counts(
    url: Seq<char>,
    title: Option<Seq<char>>,
    snippet: Option<Seq<char>>,
    k: int,
)
    requires
        0 <= k < video_indicators().len(),
    ensures
        contains(spec_to_lowercase(url), video_indicators()[k]) ==> looks_like_video(haystack(url, title, snippet)),
        (title matches Some(t) && contains(spec_to_lowercase(t), video_indicators()[k])) ==> looks_like_video(
            haystack(url, title, snippet),
        ),
        (snippet matches Some(s) && contains(spec_to_lowercase(s), video_indicators()[k])) ==> looks_like_video(
            haystack(url, title, snippet),
        ),
{
    let w = video_indicators()[k];
    let lu = spec_to_lowercase(url);
    let with_title = match title {
        Some(t) => lu + seq![' '] + spec_to_lowercase(t),
        None => lu,
    };
    match title {
        Some(t) => {
            lemma_contains_in_concat(lu, seq![' '], w);
            lemma_contains_in_concat(lu + seq![' '], spec_to_lowercase(t), w);
        },
        None => {},
    }
    match snippet {
        Some(s) => {
            lemma_contains_in_concat(with_title, seq![' '], w);
            lemma_contains_in_concat(with_title + seq![' '], spec_to_lowercase(s), w);
            assert(haystack(url, title, snippet) == with_title + seq![' '] + spec_to_lowercase(s));
        },
        None => {
            assert(haystack(url, title, snippet) == with_title);
        },
    }
    if contains(haystack(url, title, snippet), w) {
        assert(looks_like_video(haystack(url, title, snippet)));
    }
}

/// With no domain filter, a lone candidate that looks like a video is kept.
pub proof fn law_lone_video_candidate_kept(
    max_results: usize,
    c: (Seq<char>, Option<Seq<char>>, Option<Seq<char>>, Seq<char>, usize),
)
    requires
        looks_like_video(haystack(c.0, c.1, c.2)),
    ensures
        filtered_candidates(Seq::empty(), max_results, seq![c]) == seq![c],
{
    assert(seq![c].drop_last() =~= Seq::<(Seq<char>, Option<Seq<char>>, Option<Seq<char>>, Seq<char>, usize)>::empty());
    assert(seq![c].last() == c);
    let none = Seq::<(Seq<char>, Option<Seq<char>>, Option<Seq<char>>, Seq<char>, usize)>::empty();
    assert(filtered_candidates(Seq::empty(), max_results, none).len() == 0);
    assert(domain_allowed(Seq::empty(), c.3));
    assert(none.push(c) =~= seq![c]);
}

/// The result-page script of each engine.
pub open spec fn parser_script(engine: SearchEngine) -> Seq<char> {
    match engine {
        SearchEngine::Google => r#"
(() => {
    const results = [];
    const items = document.querySelectorAll('div.g, div[data-sokoban-container]');
    items.forEach(item => {
        const link = item.querySelector('a[href^="http"]');
        const title = item.querySelector('h3');
        const snippet = item.querySelector('div[data-content-feature], div[data-sncf]');
        if (link && link.href) {
            results.push({
                url: link.href,
                title: title ? title.textContent : null,
                snippet: snippet ? snippet.textContent : null,
            });
        }
    });
    return results;
})()
"#@,
        SearchEngine::Bing => r#"
(() => {
    const results = [];
    const items = document.querySelectorAll('li.b_algo, li.b_algoVideo, div.video-item');
    items.forEach(item => {
        const link = item.querySelector('a[href^="http"]');
        const title = item.querySelector('h2, h3');
        const snippet = item.querySelector('p');
        if (link && link.href) {
            results.push({
                url: link.href,
                title: title ? title.textContent : null,
                snippet: snippet ? snippet.textContent : null,
            });
        }
    });
    return results;
})()
"#@,
        SearchEngine::DuckDuckGo => r#"
(() => {
    const results = [];
    const items = document.querySelectorAll('article[data-testid="result"], div.result__body');
    items.forEach(item => {
        const link = item.querySelector('a[data-testid="result-title-a"], a.result__a');
        const title = link ? link.textContent : null;
        const snippet = item.querySelector('div[data-result="snippet"], div.result__snippet');
        if (link && link.href) {
            results.push({
                url: link.href,
                title: title ? title.trim() : null,
                snippet: snippet ? snippet.textContent : null,
            });
        }
    });
    return results;
})()
"#@,
    }
}

/// The results page of a query on each engine, the query form-encoded.
pub open spec fn query_url(engine: SearchEngine, query: Seq<char>) -> Seq<char> {
    let q = form_encoded(encode_utf8(query));
    match engine {
        SearchEngine::Google => "https://www.google.com/search?q="@ + q + "&tbm=vid"@,
        SearchEngine::Bing => "https://www.bing.com/videos/search?q="@ + q,
        SearchEngine::DuckDuckGo => "https://duckduckgo.com/?q="@ + q + "&ia=video&iax=videos"@,
    }
}

/// The searcher's decisions: which page to open, how to read it, and which
/// results become candidates.
#[derive(Debug)]
pub struct ContentSearcher {
    config: SearchConfig,
}

impl ContentSearcher {
    pub closed spec fn spec_config(self) -> SearchConfig {
        self.config
    }

    pub fn new(config: SearchConfig) -> (r: Self)
        ensures
            r.spec_config() == config,
    {
        ContentSearcher { config }
    }

    pub fn config(&self) -> (r: &SearchConfig)
        ensures
            *r == self.spec_config(),
    {
        &self.config
    }

    pub fn search_engine(&self) -> (r: SearchEngine)
        ensures
            r == self.spec_config().search_engine,
    {
        self.config.search_engine
    }

    /// The URL of the results page for `query`.
    pub fn build_query_url(&self, query: &str) -> (r: String)
        ensures
            r@ == query_url(self.spec_config().search_engine, query@),
    {
        let encoded = form_urlencode(query.as_bytes());
        match self.config.search_engine {
            SearchEngine::Google => {
                let mut u = concat2("https://www.google.com/search?q=", encoded.as_str());
                u.append("&tbm=vid");
                u
            },
            SearchEngine::Bing => concat2("https://www.bing.com/videos/search?q=", encoded.as_str()),
            SearchEngine::DuckDuckGo => {
                let mut u = concat2("https://duckduckgo.com/?q=", encoded.as_str());
                u.append("&ia=video&iax=videos");
                u
            },
        }
    }

    /// How many times the results page is read: the configured scrolls, at
    /// least once.
    pub fn page_reads(&self) -> (r: usize)
        ensures
            r == if self.spec_config().scroll_iterations > 1 {
                self.spec_config().scroll_iterations
            } else {
                1
            },
    {
        if self.config.scroll_iterations > 1 {
            self.config.scroll_iterations
        } else {
            1
        }
    }

    /// Whether the page is scrolled after read number `iteration` (from 0):
    /// after every read but the last configured one.
    pub fn scrolls_after(&self, iteration: usize) -> (r: bool)
        ensures
            r == (iteration + 1 < self.spec_config().scroll_iterations),
    {
        iteration < self.config.scroll_iterations && iteration + 1 < self.config.scroll_iterations
    }

    /// The script that reads the results of the engine's page.
    pub fn result_parser_script(&self) -> (r: String)
        ensures
            r@ == parser_script(self.spec_config().search_engine),
    {
        match self.config.search_engine {
            SearchEngine::Google => owned(r#"
(() => {
    const results = [];
    const items = document.querySelectorAll('div.g, div[data-sokoban-container]');
    items.forEach(item => {
        const link = item.querySelector('a[href^="http"]');
        const title = item.querySelector('h3');
        const snippet = item.querySelector('div[data-content-feature], div[data-sncf]');
        if (link && link.href) {
            results.push({
                url: link.href,
                title: title ? title.textContent : null,
                snippet: snippet ? snippet.textContent : null,
            });
        }
    });
    return results;
})()
"#),
            SearchEngine::Bing => owned(r#"
(() => {
    const results = [];
    const items = document.querySelectorAll('li.b_algo, li.b_algoVideo, div.video-item');
    items.forEach(item => {
        const link = item.querySelector('a[href^="http"]');
        const title = item.querySelector('h2, h3');
        const snippet = item.querySelector('p');
        if (link && link.href) {
            results.push({
                url: link.href,
                title: title ? title.textContent : null,
                snippet: snippet ? snippet.textContent : null,
            });
        }
    });
    return results;
})()
"#),
            SearchEngine::DuckDuckGo => owned(r#"
(() => {
    const results = [];
    const items = document.querySelectorAll('article[data-testid="result"], div.result__body');
    items.forEach(item => {
        const link = item.querySelector('a[data-testid="result-title-a"], a.result__a');
        const title = link ? link.textContent : null;
        const snippet = item.querySelector('div[data-result="snippet"], div.result__snippet');
        if (link && link.href) {
            results.push({
                url: link.href,
                title: title ? title.trim() : null,
                snippet: snippet ? snippet.textContent : null,
            });
        }
    });
    return results;
})()
"#),
        }
    }

    /// The domain a URL is filed under.
    pub fn extract_domain(&self, url: &str) -> (r: String)
        ensures
            r@ == domain_of(url@),
    {
        match parse_host(url) {
            Some(h) => to_lowercase(h.as_str()),
            None => to_lowercase(url),
        }
    }

    /// Results with a URL, first occurrences only, ranked from 1.
    pub fn normalize_candidates(&self, raw: Vec<SearchResultRaw>) -> (r: Vec<Candidate>)
        ensures
            candidate_views(r@) == ranked(distinct_results(raw_views(raw@))),
    {
        let ghost rv = raw_views(raw@);
        let mut ordered: Vec<SearchResultRaw> = Vec::new();
        let mut i: usize = 0;
        while i < raw.len()
            invariant
                i <= raw@.len(),
                rv == raw_views(raw@),
                raw_views(ordered@) == distinct_results(rv.take(i as int)),
            decreases raw@.len() - i,
        {
            assert(rv.take(i + 1).drop_last() =~= rv.take(i as int));
            assert(rv.take(i + 1).last() == rv[i as int]);
            let r = &raw[i];
            let ghost acc = raw_views(ordered@);
            if r.url.unicode_len() > 0 {
                let mut seen = false;
                let mut k: usize = 0;
                while k < ordered.len()
                    invariant
                        k <= ordered@.len(),
                        acc == raw_views(ordered@),
                        !seen ==> forall|j: int| 0 <= j < k ==> (#[trigger] acc[j]).0 != r.url@,
                        seen ==> exists|j: int| 0 <= j < acc.len() && (#[trigger] acc[j]).0 == r.url@,
                    decreases ordered@.len() - k,
                {
                    if str_eq(ordered[k].url.as_str(), r.url.as_str()) {
                        assert(acc[k as int].0 == r.url@);
                        seen = true;
                    }
                    k = k + 1;
                }
                if !seen {
                    let copy = SearchResultRaw { url: r.url.clone(), title: r.title.clone(), snippet: r.snippet.clone() };
                    ordered.push(copy);
                    assert(raw_views(ordered@) =~= acc.push(rv[i as int]));
                }
            }
            i = i + 1;
        }
        assert(rv.take(raw@.len() as int) =~= rv);
        let ghost dv = raw_views(ordered@);
        let mut out: Vec<Candidate> = Vec::new();
        let mut j: usize = 0;
        while j < ordered.len()
            invariant
                j <= ordered@.len(),
                dv == raw_views(ordered@),
                candidate_views(out@) =~= ranked(dv).take(j as int),
            decreases ordered@.len() - j,
        {
            let o = &ordered[j];
            let domain = self.extract_domain(o.url.as_str());
            let c = Candidate {
                url: o.url.clone(),
                title: o.title.clone(),
                snippet: o.snippet.clone(),
                domain,
                rank: j + 1,
            };
            let ghost before = candidate_views(out@);
            out.push(c);
            assert(candidate_views(out@) =~= before.push(ranked(dv)[j as int]));
            assert(ranked(dv).take(j + 1) =~= ranked(dv).take(j as int).push(ranked(dv)[j as int]));
            j = j + 1;
        }
        assert(ranked(dv).take(ordered@.len() as int) =~= ranked(dv));
        out
    }

    /// Whether the candidate's domain passes the configured filter.
    pub fn filter_by_domain(&self, candidate: &Candidate) -> (r: bool)
        ensures
            r == domain_allowed(views(self.spec_config().filter_domains@), candidate.domain@),
    {
        if self.config.filter_domains.len() == 0 {
            return true;
        }
        let domain = to_lowercase(candidate.domain.as_str());
        let ghost fv = views(self.config.filter_domains@);
        let mut i: usize = 0;
        while i < self.config.filter_domains.len()
            invariant
                i <= fv.len(),
                fv == views(self.config.filter_domains@),
                domain@ == spec_to_lowercase(candidate.domain@),
                forall|k: int| 0 <= k < i ==> !contains(domain@, #[trigger] fv[k]),
            decreases fv.len() - i,
        {
            if str_contains(domain.as_str(), self.config.filter_domains[i].as_str()) {
                assert(contains(domain@, fv[i as int]));
                return true;
            }
            i = i + 1;
        }
        false
    }

    /// Whether the candidate's URL, title or snippet mentions a video word.
    pub fn is_likely_video(&self, candidate: &Candidate) -> (r: bool)
        ensures
            r == looks_like_video(haystack(candidate.url@, opt_text(candidate.title), opt_text(candidate.snippet))),
    {
        let mut text = to_lowercase(candidate.url.as_str());
        match &candidate.title {
            Some(t) => {
                push_char(&mut text, ' ');
                let lt = to_lowercase(t.as_str());
                text.append(lt.as_str());
            },
            None => {},
        }
        match &candidate.snippet {
            Some(s) => {
                push_char(&mut text, ' ');
                let ls = to_lowercase(s.as_str());
                text.append(ls.as_str());
            },
            None => {},
        }
        assert(text@ =~= haystack(candidate.url@, opt_text(candidate.title), opt_text(candidate.snippet)));
        let mut words: Vec<String> = Vec::new();
        words.push(owned("youtube"));
        words.push(owned("vimeo"));
        words.push(owned("dailymotion"));
        words.push(owned("metacafe"));
        words.push(owned("watch"));
        words.push(owned("video"));
        words.push(owned("documentary"));
        words.push(owned("livestream"));
        words.push(owned("playlist"));
        assert(views(words@) =~= video_indicators());
        let mut i: usize = 0;
        while i < words.len()
            invariant
                i <= words@.len(),
                views(words@) == video_indicators(),
                text@ == haystack(candidate.url@, opt_text(candidate.title), opt_text(candidate.snippet)),
                forall|k: int| 0 <= k < i ==> !contains(text@, #[trigger] video_indicators()[k]),
            decreases words@.len() - i,
        {
            if str_contains(text.as_str(), words[i].as_str()) {
                assert(contains(text@, video_indicators()[i as int]));
                return true;
            }
            i = i + 1;
        }
        false
    }

    /// The candidates that pass the domain filter and the video heuristic,
    /// in order, up to `max_results`.
    pub fn filter_candidates(&self, candidates: Vec<Candidate>) -> (r: Vec<Candidate>)
        ensures
            candidate_views(r@) == filtered_candidates(
                views(self.spec_config().filter_domains@),
                self.spec_config().max_results,
                candidate_views(candidates@),
            ),
    {
        let ghost cv = candidate_views(candidates@);
        let ghost fv = views(self.spec_config().filter_domains@);
        let mut out: Vec<Candidate> = Vec::new();
        let mut i: usize = 0;
        assert(cv.take(cv.len() as int) =~= cv);
        while i < candidates.len()
            invariant_except_break
                i <= candidates@.len(),
                cv == candidate_views(candidates@),
                cv.take(cv.len() as int) == cv,
                fv == views(self.spec_config().filter_domains@),
                candidate_views(out@) == filtered_candidates(fv, self.spec_config().max_results, cv.take(i as int)),
                !(out@.len() > 0 && out@.len() >= self.spec_config().max_results),
            ensures
                candidate_views(out@) == filtered_candidates(fv, self.spec_config().max_results, cv),
            decreases candidates@.len() - i,
        {
            assert(cv.take(i + 1).drop_last() =~= cv.take(i as int));
            assert(cv.take(i + 1).last() == cv[i as int]);
            let c = &candidates[i];
            if self.filter_by_domain(c) && self.is_likely_video(c) {
                let ghost before = candidate_views(out@);
                let copy = Candidate {
                    url: c.url.clone(),
                    title: c.title.clone(),
                    snippet: c.snippet.clone(),
                    domain: c.domain.clone(),
                    rank: c.rank,
                };
                out.push(copy);
                assert(candidate_views(out@) =~= before.push(cv[i as int]));
                if out.len() >= self.config.max_results {
                    proof {
                        lemma_filter_full(fv, self.spec_config().max_results, cv, i as int + 1);
                    }
                    break;
                }
            }
            i = i + 1;
        }
        out
    }
}

/// Once the kept candidates reach the maximum, later ones change nothing.
proof fn lemma_filter_full(
    filters: Seq<Seq<char>>,
    max_results: usize,
    cands: Seq<(Seq<char>, Option<Seq<char>>, Option<Seq<char>>, Seq<char>, usize)>,
    k: int,
)
    requires
        0 <= k <= cands.len(),
        filtered_candidates(filters, max_results, cands.take(k)).len() > 0,
        filtered_candidates(filters, max_results, cands.take(k)).len() >= max_results,
    ensures
        filtered_candidates(filters, max_results, cands) == filtered_candidates(filters, max_results, cands.take(k)),
    decreases cands.len() - k,
{
    if k < cands.len() {
        assert(cands.take(k + 1).drop_last() =~= cands.take(k));
        lemma_filter_full(filters, max_results, cands, k + 1);
    } else {
        assert(cands.take(k) =~= cands);
    }
}

} // verus!
