//! Ingestion from an HTML listing of remote parquet files: which file to take
//! next, what to call it, and where to resume after it.
use vstd::prelude::*;

use crate::text::{add_trailing_slash, prefixed, with_trailing_slash};
use crate::traits::{Dataset, DatasetDto, IngestionError};
use crate::web::{
    check_selector, html_href_groups, parse_outcome, parse_url, select_href_groups, selector_parse_error,
    url_parse, ParsedUrl, UrlParts,
};

verus! {

/// Errors of the HTML extractor.
#[derive(Debug)]
pub enum HtmlExtractorError {
    InitializationError(String),
    UrlLoadError(String),
}

impl HtmlExtractorError {
    /// The text this error is shown with.
    pub open spec fn describe(&self) -> Seq<char> {
        match self {
            HtmlExtractorError::InitializationError(m) => "Failed to initialize HtmlExtractor: "@ + m@,
            HtmlExtractorError::UrlLoadError(m) => "Failed to load url: "@ + m@,
        }
    }

    pub fn message(&self) -> (r: String)
        ensures
            r@ == self.describe(),
    {
        match self {
            HtmlExtractorError::InitializationError(m) => prefixed(
                "Failed to initialize HtmlExtractor: ",
                m.as_str(),
            ),
            HtmlExtractorError::UrlLoadError(m) => prefixed("Failed to load url: ", m.as_str()),
        }
    }
}

/// Errors of the parquet loader.
#[derive(Debug)]
pub enum DataFusionLoaderError {
    ConnectionError(String),
    QueryError(String),
}

impl DataFusionLoaderError {
    /// The text this error is shown with.
    pub open spec fn describe(&self) -> Seq<char> {
        match self {
            DataFusionLoaderError::ConnectionError(m) => "Failed to establish connection: "@ + m@,
            DataFusionLoaderError::QueryError(m) => "Failed to execute query: "@ + m@,
        }
    }

    pub fn message(&self) -> (r: String)
        ensures
            r@ == self.describe(),
    {
        match self {
            DataFusionLoaderError::ConnectionError(m) => prefixed(
                "Failed to establish connection: ",
                m.as_str(),
            ),
            DataFusionLoaderError::QueryError(m) => prefixed("Failed to execute query: ", m.as_str()),
        }
    }
}

/// The message of the `InitializationError` that an extractor with these two
/// selectors is refused with, or `None` when both selectors parse.
pub open spec fn extractor_setup_error(tree_path: Seq<char>, sub_path: Seq<char>) -> Option<
    Seq<char>,
> {
    match selector_parse_error(tree_path) {
        Some(e) => Some("Invalid tree path: "@ + e),
        None => match selector_parse_error(sub_path) {
            Some(e) => Some("Invalid sub path: "@ + e),
            None => None,
        },
    }
}

/// The values of the entries that are present, in order.
pub open spec fn present_values(s: Seq<Option<Seq<char>>>) -> Seq<Seq<char>>
    decreases s.len(),
{
    if s.len() == 0 {
        Seq::empty()
    } else {
        let rest = present_values(s.drop_last());
        match s.last() {
            Some(v) => rest.push(v),
            None => rest,
        }
    }
}

/// Keeping the present values takes a present value at the end to the end of
/// the result, passes over an absent one, and works piecewise: what is kept of
/// two sequences one after the other is what is kept of each, one after the
/// other.
pub proof fn present_values_keeps_each_present_value(
    s: Seq<Option<Seq<char>>>,
    t: Seq<Option<Seq<char>>>,
    v: Seq<char>,
)
    ensures
        present_values(s.push(Some(v))) == present_values(s).push(v),
        present_values(s.push(None)) == present_values(s),
        present_values(s + t) == present_values(s) + present_values(t),
    decreases t.len(),
{
    assert(s.push(Some(v)).drop_last() =~= s);
    assert(s.push(None::<Seq<char>>).drop_last() =~= s);
    if t.len() == 0 {
        assert(s + t =~= s);
        assert(present_values(s) + present_values(t) =~= present_values(s));
    } else {
        present_values_keeps_each_present_value(s, t.drop_last(), v);
        assert((s + t).drop_last() =~= s + t.drop_last());
        assert((s + t).last() == t.last());
        match t.last() {
            Some(w) => {
                assert(present_values(s) + present_values(t.drop_last()).push(w) =~= (present_values(s)
                    + present_values(t.drop_last())).push(w));
            },
            None => {},
        }
    }
}

/// What is kept holds exactly one value for each present entry: as many
/// values as there are present entries, every one of them among them.
pub proof fn present_values_counts_present_entries(s: Seq<Option<Seq<char>>>)
    ensures
        present_values(s).len() == s.filter(|o: Option<Seq<char>>| o is Some).len(),
        forall|i: int| 0 <= i < s.len() && (#[trigger] s[i]) is Some ==> present_values(s).contains(
            s[i]->Some_0,
        ),
    decreases s.len(),
{
    reveal(Seq::filter);
    if s.len() > 0 {
        let init = s.drop_last();
        present_values_counts_present_entries(init);
        assert forall|i: int| 0 <= i < s.len() && (#[trigger] s[i]) is Some implies present_values(
            s,
        ).contains(s[i]->Some_0) by {
            if i < s.len() - 1 {
                assert(init[i] == s[i]);
                let j = choose|j: int| 0 <= j < present_values(init).len() && present_values(init)[j]
                    == s[i]->Some_0;
                match s.last() {
                    Some(w) => {
                        assert(present_values(s)[j] == s[i]->Some_0);
                    },
                    None => {},
                }
            } else {
                let p = present_values(s);
                assert(p[p.len() - 1] == s[i]->Some_0);
            }
        }
    }
}

/// Keeps the `href` values that are present, in order.
pub fn keep_present(attrs: &Vec<Option<String>>) -> (r: Vec<String>)
    ensures
        r.deep_view() == present_values(attrs.deep_view()),
{
    let mut r: Vec<String> = Vec::new();
    let n = attrs.len();
    for i in 0..n
        invariant
            n == attrs.len(),
            r.deep_view() == present_values(attrs.deep_view().take(i as int)),
    {
        proof {
            assert(attrs.deep_view().take(i + 1).drop_last() =~= attrs.deep_view().take(i as int));
        }
        match &attrs[i] {
            Some(v) => {
                r.push(v.clone());
                assert(r.deep_view() =~= present_values(attrs.deep_view().take(i as int)).push(v@));
            },
            None => {},
        }
    }
    assert(attrs.deep_view().take(n as int) =~= attrs.deep_view());
    r
}

/// The groups, one after another.
pub fn concat_groups(groups: &Vec<Vec<Option<String>>>) -> (r: Vec<Option<String>>)
    ensures
        r.deep_view() == groups.deep_view().flatten(),
{
    let mut r: Vec<Option<String>> = Vec::new();
    let n = groups.len();
    for i in 0..n
        invariant
            n == groups.len(),
            r.deep_view() == groups.deep_view().take(i as int).flatten(),
    {
        let group = &groups[i];
        let m = group.len();
        let ghost start = r.deep_view();
        for k in 0..m
            invariant
                m == group.len(),
                r.deep_view() == start + group.deep_view().take(k as int),
        {
            let item = match &group[k] {
                Some(v) => Some(v.clone()),
                None => None,
            };
            assert(item.deep_view() == group.deep_view()[k as int]);
            let ghost prior = r.deep_view();
            r.push(item);
            assert(r.deep_view() =~= prior.push(group.deep_view()[k as int]));
            assert(group.deep_view().take(k + 1) =~= group.deep_view().take(k as int).push(
                group.deep_view()[k as int],
            ));
            assert(r.deep_view() =~= start + group.deep_view().take(k + 1));
        }
        proof {
            let gs = groups.deep_view();
            assert(group.deep_view().take(m as int) =~= group.deep_view());
            assert(gs.take(i + 1) =~= gs.take(i as int).push(group.deep_view()));
            gs.take(i as int).lemma_flatten_push(group.deep_view());
        }
    }
    assert(groups.deep_view().take(n as int) =~= groups.deep_view());
    r
}

/// The error for an extractor, given what checking its tree path and its sub
/// path gave (`None` for a selector that parses, else the parse error's text).
pub fn selector_failure(tree_check: Option<String>, sub_check: Option<String>) -> (r: Option<
    HtmlExtractorError,
>)
    ensures
        tree_check is Some ==> (r matches Some(HtmlExtractorError::InitializationError(m)) && m@
            == "Invalid tree path: "@ + tree_check->Some_0@),
        tree_check is None && sub_check is Some ==> (r matches Some(
            HtmlExtractorError::InitializationError(m),
        ) && m@ == "Invalid sub path: "@ + sub_check->Some_0@),
        tree_check is None && sub_check is None ==> r is None,
{
    match tree_check {
        Some(e) => Some(HtmlExtractorError::InitializationError(prefixed("Invalid tree path: ", e.as_str()))),
        None => match sub_check {
            Some(e) => Some(
                HtmlExtractorError::InitializationError(prefixed("Invalid sub path: ", e.as_str())),
            ),
            None => None,
        },
    }
}

/// Extracts links from HTML: the `href` of each element matched by the sub
/// path below an element matched by the tree path.
#[derive(Debug)]
pub struct HtmlExtractor {
    tree_path: String,
    sub_path: String,
}

impl HtmlExtractor {
    #[verifier::type_invariant]
    spec fn selectors_parse(self) -> bool {
        &&& selector_parse_error(self.tree_path@) is None
        &&& selector_parse_error(self.sub_path@) is None
    }

    /// The selector for the enclosing elements.
    pub closed spec fn tree_path_view(&self) -> Seq<char> {
        self.tree_path@
    }

    /// The selector for the link elements below them.
    pub closed spec fn sub_path_view(&self) -> Seq<char> {
        self.sub_path@
    }

    /// Builds an extractor; both selectors must parse.
    pub fn new(tree_path: String, sub_path: String) -> (r: Result<Self, HtmlExtractorError>)
        ensures
            r is Ok <==> extractor_setup_error(tree_path@, sub_path@) is None,
            r is Ok ==> r->Ok_0.tree_path_view() == tree_path@ && r->Ok_0.sub_path_view()
                == sub_path@,
            r is Err ==> (r->Err_0 matches HtmlExtractorError::InitializationError(m) && m@
                == extractor_setup_error(tree_path@, sub_path@)->Some_0),
    {
        let tree_check = check_selector(tree_path.as_str());
        let sub_check = check_selector(sub_path.as_str());
        match selector_failure(tree_check, sub_check) {
            Some(e) => {
                return Err(e);
            },
            None => {},
        }
        Ok(HtmlExtractor { tree_path, sub_path })
    }

    /// The links of `html`.
    pub fn extract(&self, html: &str) -> (r: Vec<String>)
        ensures
            r.deep_view() == present_values(
                html_href_groups(html@, self.tree_path_view(), self.sub_path_view()).flatten(),
            ),
    {
        proof {
            use_type_invariant(self);
        }
        let groups = select_href_groups(html, self.tree_path.as_str(), self.sub_path.as_str());
        let attrs = concat_groups(&groups);
        keep_present(&attrs)
    }
}

/// The listing in the order it is walked: as given, or from its back.
pub open spec fn listing_order(links: Seq<Seq<char>>, from_back: bool) -> Seq<Seq<char>> {
    if from_back {
        links.reverse()
    } else {
        links
    }
}

/// The first index at which `x` stands in `s`, if it stands there at all.
pub open spec fn first_position(s: Seq<Seq<char>>, x: Seq<char>) -> Option<int> {
    if s.contains(x) {
        Some(choose|i: int| 0 <= i < s.len() && s[i] == x && forall|j: int| 0 <= j < i ==> s[j] != x)
    } else {
        None
    }
}

/// Where the walk of `order` resumes: just after the first occurrence of the
/// checkpoint, or at the start when there is none or it is not listed.
pub open spec fn resume_index(order: Seq<Seq<char>>, checkpoint: Option<Seq<char>>) -> int {
    match checkpoint {
        Some(c) => match first_position(order, c) {
            Some(i) => i + 1,
            None => 0,
        },
        None => 0,
    }
}

/// The link that the next ingestion takes from `links`, if any.
pub open spec fn next_link(
    links: Seq<Seq<char>>,
    from_back: bool,
    checkpoint: Option<Seq<char>>,
) -> Option<Seq<char>> {
    let order = listing_order(links, from_back);
    let i = resume_index(order, checkpoint);
    if i < order.len() {
        Some(order[i])
    } else {
        None
    }
}

/// The name of a dataset taken from an address with these path segments: the
/// last segment.
pub open spec fn dataset_name_of(segments: Option<Seq<Seq<char>>>) -> Option<Seq<char>> {
    match segments {
        Some(s) => if s.len() > 0 {
            Some(s.last())
        } else {
            None
        },
        None => None,
    }
}

/// A dataset is named after the last segment of its address's path, however
/// many segments there are; an address with no segments gives no name.
pub proof fn dataset_is_named_after_last_segment(segments: Seq<Seq<char>>)
    ensures
        segments.len() > 0 ==> dataset_name_of(Some(segments)) == Some(segments[segments.len() - 1]),
        segments.len() == 0 ==> dataset_name_of(Some(segments)) is None,
        dataset_name_of(None) is None,
{
}

/// What is known of the file that one ingestion takes.
pub struct TargetView {
    pub link: Seq<char>,
    pub url: UrlParts,
    pub dataset_name: Seq<char>,
}

/// The target for `link`, given what parsing it gave, or the message of the
/// `ExtractError` it is refused with.
pub open spec fn target_outcome(link: Seq<char>, parsed: Result<UrlParts, Seq<char>>) -> Result<
    TargetView,
    Seq<char>,
> {
    match parsed {
        Err(e) => Err("Invalid file URL: "@ + e),
        Ok(parts) => match dataset_name_of(parts.path_segments) {
            None => Err("Failed to extract dataset name from URL"@),
            Some(name) => Ok(TargetView { link, url: parts, dataset_name: name }),
        },
    }
}

/// The plan of one ingestion for a listing (`None` when the listing could not be
/// fetched): the file to take, nothing, or the message of the `ExtractError`.
pub open spec fn plan_outcome(
    listing: Option<Seq<Seq<char>>>,
    from_back: bool,
    checkpoint: Option<Seq<char>>,
) -> Result<Option<TargetView>, Seq<char>> {
    match listing {
        None => Err("Could not extract from url"@),
        Some(links) => match next_link(links, from_back, checkpoint) {
            None => Ok(None),
            Some(link) => match target_outcome(link, url_parse(link)) {
                Err(m) => Err(m),
                Ok(t) => Ok(Some(t)),
            },
        },
    }
}

/// The file that one ingestion takes.
#[derive(Debug)]
pub struct IngestTarget {
    pub link: String,
    pub url: ParsedUrl,
    pub dataset_name: String,
}

impl View for IngestTarget {
    type V = TargetView;

    open spec fn view(&self) -> TargetView {
        TargetView { link: self.link@, url: self.url@, dataset_name: self.dataset_name@ }
    }
}

/// The state of an ingestor, as plain values.
pub struct IngestorView {
    pub tree_path: Seq<char>,
    pub sub_path: Seq<char>,
    pub target: UrlParts,
    pub query: Seq<char>,
    pub ingest_from_back: bool,
    pub checkpoint: Option<Seq<char>>,
}

/// Ingests, one at a time, the parquet files listed on an HTML page, resuming
/// after the last file it took.
#[derive(Debug)]
pub struct HtmlListDataFusionIngestor {
    extractor: HtmlExtractor,
    target_url: ParsedUrl,
    query: String,
    ingest_from_back: bool,
    checkpoint: Option<String>,
}

impl View for HtmlListDataFusionIngestor {
    type V = IngestorView;

    closed spec fn view(&self) -> IngestorView {
        IngestorView {
            tree_path: self.extractor.tree_path_view(),
            sub_path: self.extractor.sub_path_view(),
            target: self.target_url@,
            query: self.query@,
            ingest_from_back: self.ingest_from_back,
            checkpoint: self.checkpoint.deep_view(),
        }
    }
}

/// The message of the `ExtractError` that an ingestor with these settings is
/// refused with, or `None` when it is built.
pub open spec fn ingestor_setup_error(
    tree_path: Seq<char>,
    sub_path: Seq<char>,
    target_url: Seq<char>,
) -> Option<Seq<char>> {
    match extractor_setup_error(tree_path, sub_path) {
        Some(e) => Some("Failed to create extractor: "@ + ("Failed to initialize HtmlExtractor: "@ + e)),
        None => match url_parse(target_url) {
            Err(e) => Some("Invalid file URL: "@ + e),
            Ok(_) => None,
        },
    }
}

/// The ingestion error for an extractor that could not be built.
pub fn extractor_failure(e: HtmlExtractorError) -> (r: IngestionError)
    ensures
        r matches IngestionError::ExtractError(m) && m@ == "Failed to create extractor: "@
            + e.describe(),
{
    let m = e.message();
    IngestionError::ExtractError(prefixed("Failed to create extractor: ", m.as_str()))
}

impl HtmlListDataFusionIngestor {
    /// Builds an ingestor for the listing at `target_url`, whose links are
    /// found with the two selectors; it starts with no checkpoint.
    pub fn new(
        tree_path: String,
        sub_path: String,
        target_url: &str,
        query: &str,
        ingest_from_back: Option<bool>,
    ) -> (r: Result<Self, IngestionError>)
        ensures
            r is Ok <==> ingestor_setup_error(tree_path@, sub_path@, target_url@) is None,
            r is Ok ==> r->Ok_0@ == (IngestorView {
                tree_path: tree_path@,
                sub_path: sub_path@,
                target: url_parse(target_url@)->Ok_0,
                query: query@,
                ingest_from_back: ingest_from_back == Some(true),
                checkpoint: None,
            }),
            r is Err ==> (r->Err_0 matches IngestionError::ExtractError(m) && m@
                == ingestor_setup_error(tree_path@, sub_path@, target_url@)->Some_0),
    {
        match HtmlExtractor::new(tree_path, sub_path) {
            Err(e) => Err(extractor_failure(e)),
            Ok(extractor) => Self::assemble(extractor, parse_url(target_url), query, ingest_from_back),
        }
    }

    /// Builds an ingestor from a working extractor and the outcome of parsing
    /// the listing's address.
    pub fn assemble(
        extractor: HtmlExtractor,
        target: Result<ParsedUrl, String>,
        query: &str,
        ingest_from_back: Option<bool>,
    ) -> (r: Result<Self, IngestionError>)
        ensures
            r is Ok <==> target is Ok,
            r is Ok ==> r->Ok_0@ == (IngestorView {
                tree_path: extractor.tree_path_view(),
                sub_path: extractor.sub_path_view(),
                target: target->Ok_0@,
                query: query@,
                ingest_from_back: ingest_from_back == Some(true),
                checkpoint: None,
            }),
            r is Err ==> (r->Err_0 matches IngestionError::ExtractError(m) && m@ == "Invalid file URL: "@
                + target->Err_0@),
    {
        match target {
            Err(e) => Err(IngestionError::ExtractError(prefixed("Invalid file URL: ", e.as_str()))),
            Ok(url) => {
                let from_back = match ingest_from_back {
                    Some(b) => b,
                    None => false,
                };
                Ok(HtmlListDataFusionIngestor {
                    extractor,
                    target_url: url,
                    query: query.to_owned(),
                    ingest_from_back: from_back,
                    checkpoint: None,
                })
            },
        }
    }

    pub fn extractor(&self) -> (r: &HtmlExtractor)
        ensures
            r.tree_path_view() == self@.tree_path,
            r.sub_path_view() == self@.sub_path,
    {
        &self.extractor
    }

    pub fn target_url(&self) -> (r: &ParsedUrl)
        ensures
            r@ == self@.target,
    {
        &self.target_url
    }

    pub fn query(&self) -> (r: &str)
        ensures
            r@ == self@.query,
    {
        self.query.as_str()
    }

    pub fn ingest_from_back(&self) -> (r: bool)
        ensures
            r == self@.ingest_from_back,
    {
        self.ingest_from_back
    }

    pub fn checkpoint(&self) -> (r: &Option<String>)
        ensures
            r.deep_view() == self@.checkpoint,
    {
        &self.checkpoint
    }

    /// The name of the dataset at `url`: the last segment of its path.
    pub fn get_dataset_name_from_url(&self, url: &ParsedUrl) -> (r: Result<String, IngestionError>)
        ensures
            match dataset_name_of(url@.path_segments) {
                Some(n) => r is Ok && r->Ok_0@ == n,
                None => r matches Err(IngestionError::ExtractError(m)) && m@
                    == "Failed to extract dataset name from URL"@,
            },
    {
        dataset_name_from_segments(url.path_segments())
    }

    /// Decides what one ingestion takes, given the links that the listing page
    /// gave (`None` when it could not be fetched).
    pub fn plan_ingest(&self, listing: Option<Vec<String>>) -> (r: Result<
        Option<IngestTarget>,
        IngestionError,
    >)
        ensures
            match plan_outcome(listing.deep_view(), self@.ingest_from_back, self@.checkpoint) {
                Ok(None) => r matches Ok(None),
                Ok(Some(t)) => r matches Ok(Some(x)) && x@ == t,
                Err(m) => r matches Err(IngestionError::ExtractError(e)) && e@ == m,
            },
    {
        let links = match listing {
            None => {
                return Err(IngestionError::ExtractError(String::from_str("Could not extract from url")));
            },
            Some(links) => links,
        };
        let chosen = select_next_link(&links, self.ingest_from_back, &self.checkpoint);
        match chosen {
            None => Ok(None),
            Some(link) => {
                let parsed = parse_url(link.as_str());
                match target_from_link(link, parsed) {
                    Ok(t) => Ok(Some(t)),
                    Err(e) => Err(e),
                }
            },
        }
    }

    /// Completes one ingestion of `target` with the outcome of loading it: on
    /// success the dataset is handed on and the walk resumes after its link.
    pub fn finish_ingest<T>(
        &mut self,
        target: IngestTarget,
        loaded: Result<T, DataFusionLoaderError>,
    ) -> (r: Result<DatasetDto<T>, IngestionError>)
        ensures
            loaded is Err ==> final(self)@ == old(self)@ && (r matches Err(
                IngestionError::SourceNotAvailable(m),
            ) && m@ == Seq::<char>::empty()),
            loaded is Ok ==> final(self)@ == (IngestorView {
                checkpoint: Some(target.link@),
                ..old(self)@
            }) && (r matches Ok(DatasetDto::DataFrame(d)) && d.name_view()
                == target.dataset_name@ && d.data_view() == loaded->Ok_0),
    {
        match loaded {
            Err(_) => Err(IngestionError::SourceNotAvailable(String::new())),
            Ok(data) => {
                let dataset = Dataset::new(target.dataset_name.as_str(), data);
                self.checkpoint = Some(target.link);
                Ok(DatasetDto::DataFrame(dataset))
            },
        }
    }
}

/// When `x` stands at `i` and nowhere before it, its first position is `i`.
proof fn lemma_first_position_at(s: Seq<Seq<char>>, x: Seq<char>, i: int)
    requires
        0 <= i < s.len(),
        s[i] == x,
        forall|j: int| 0 <= j < i ==> s[j] != x,
    ensures
        first_position(s, x) == Some(i),
{
    assert(s.contains(x));
    let k = choose|k: int| 0 <= k < s.len() && s[k] == x && forall|j: int| 0 <= j < k ==> s[j] != x;
    assert(0 <= k < s.len() && s[k] == x && forall|j: int| 0 <= j < k ==> s[j] != x);
    if k < i {
        assert(s[k] != x);
    } else if k > i {
        assert(s[i] != x);
    }
}

/// The walking order holds the same links as the listing, and holds no link
/// twice when the listing does not.
proof fn lemma_listing_order(links: Seq<Seq<char>>, from_back: bool)
    ensures
        listing_order(links, from_back).len() == links.len(),
        forall|x: Seq<char>| #[trigger]
            listing_order(links, from_back).contains(x) <==> links.contains(x),
        links.no_duplicates() ==> listing_order(links, from_back).no_duplicates(),
{
    let order = listing_order(links, from_back);
    if from_back {
        assert forall|x: Seq<char>| #[trigger] order.contains(x) <==> links.contains(x) by {
            if order.contains(x) {
                let j = choose|j: int| 0 <= j < order.len() && order[j] == x;
                assert(links[links.len() - 1 - j] == x);
            }
            if links.contains(x) {
                let j = choose|j: int| 0 <= j < links.len() && links[j] == x;
                assert(order[links.len() - 1 - j] == x);
            }
        }
        if links.no_duplicates() {
            assert forall|i: int, j: int|
                0 <= i < order.len() && 0 <= j < order.len() && i != j implies order[i] != order[j] by {
                assert(order[i] == links[links.len() - 1 - i]);
                assert(order[j] == links[links.len() - 1 - j]);
            }
        }
    }
}

/// Over a listing that holds no link twice and does not change, successive
/// ingestions walk it in order: a fresh ingestor takes the first link of the
/// walking order (the listing's last when ingesting from the back), and after
/// the link at position `k - 1` the next ingestion takes the link at position
/// `k`, until, after the last one, there is nothing more to take.
pub proof fn ingestion_walks_listing_in_order(links: Seq<Seq<char>>, from_back: bool, k: int)
    requires
        links.no_duplicates(),
        0 <= k <= links.len(),
    ensures
        ({
            let order = listing_order(links, from_back);
            let checkpoint = if k == 0 {
                None
            } else {
                Some(order[k - 1])
            };
            next_link(links, from_back, checkpoint) == if k < links.len() {
                Some(order[k])
            } else {
                None::<Seq<char>>
            }
        }),
{
    lemma_listing_order(links, from_back);
    let order = listing_order(links, from_back);
    if k > 0 {
        assert forall|j: int| 0 <= j < k - 1 implies #[trigger] order[j] != order[k - 1] by {
            assert(order.no_duplicates());
        }
        lemma_first_position_at(order, order[k - 1], k - 1);
    }
}

/// Over a listing that holds no link twice and does not change, the ingestion
/// that follows a successful one never takes the same link again.
pub proof fn ingestion_never_repeats_a_link(
    links: Seq<Seq<char>>,
    from_back: bool,
    checkpoint: Option<Seq<char>>,
    taken: TargetView,
)
    requires
        links.no_duplicates(),
        plan_outcome(Some(links), from_back, checkpoint) == Ok::<Option<TargetView>, Seq<char>>(
            Some(taken),
        ),
    ensures
        next_link(links, from_back, Some(taken.link)) != Some(taken.link),
{
    lemma_listing_order(links, from_back);
    let order = listing_order(links, from_back);
    let i = resume_index(order, checkpoint);
    assert(0 <= i < order.len()) by {
        match checkpoint {
            Some(c) => {
                if order.contains(c) {
                    let w = choose|w: int| 0 <= w < order.len() && order[w] == c;
                    lemma_first_occurrence_exists(order, c, w);
                }
            },
            None => {},
        }
    }
    assert(taken.link == order[i]);
    ingestion_walks_listing_in_order(links, from_back, i + 1);
    if i + 1 < order.len() {
        assert(order.no_duplicates());
        assert(order[i + 1] != order[i]);
    }
}

/// Where `x` stands somewhere at or before `w`, it has a first position.
proof fn lemma_first_occurrence_exists(s: Seq<Seq<char>>, x: Seq<char>, w: int)
    requires
        0 <= w < s.len(),
        s[w] == x,
    ensures
        exists|p: int| 0 <= p < s.len() && s[p] == x && forall|j: int| 0 <= j < p ==> s[j] != x,
    decreases w,
{
    if exists|j: int| 0 <= j < w && s[j] == x {
        let j = choose|j: int| 0 <= j < w && s[j] == x;
        lemma_first_occurrence_exists(s, x, j);
    } else {
        assert(forall|j: int| 0 <= j < w ==> s[j] != x);
    }
}

/// A checkpoint that the listing no longer holds is disregarded: the walk starts
/// over as for a fresh ingestor.
pub proof fn unlisted_checkpoint_restarts_walk(
    links: Seq<Seq<char>>,
    from_back: bool,
    checkpoint: Seq<char>,
)
    requires
        !links.contains(checkpoint),
    ensures
        next_link(links, from_back, Some(checkpoint)) == next_link(links, from_back, None),
{
    lemma_listing_order(links, from_back);
}

/// The root address of the object store that serves `file_url`: the
/// serialization of its origin, ending in `/`.
pub fn object_store_root(file_url: &ParsedUrl) -> (r: String)
    ensures
        r@ == with_trailing_slash(file_url@.origin),
{
    add_trailing_slash(file_url.origin())
}

/// The listing in walking order.
pub fn listing_in_order(links: &Vec<String>, from_back: bool) -> (r: Vec<String>)
    ensures
        r.deep_view() == listing_order(links.deep_view(), from_back),
{
    if !from_back {
        return links.clone();
    }
    let n = links.len();
    let mut r: Vec<String> = Vec::new();
    let ghost src = links.deep_view();
    let mut k: usize = n;
    while k > 0
        invariant
            n == links.len(),
            src == links.deep_view(),
            k <= n,
            r.len() == n - k,
            forall|j: int| 0 <= j < n - k ==> #[trigger] r@[j]@ == src[n - 1 - j],
        decreases k,
    {
        k = k - 1;
        r.push(links[k].clone());
    }
    assert(r.deep_view() =~= src.reverse());
    r
}

/// The first index at which `needle` stands in `items`.
pub fn position_of(items: &Vec<String>, needle: &String) -> (r: Option<usize>)
    ensures
        r is None <==> first_position(items.deep_view(), needle@) is None,
        r matches Some(i) ==> i < items.len() && first_position(items.deep_view(), needle@) == Some(
            i as int,
        ),
{
    let n = items.len();
    let ghost s = items.deep_view();
    for i in 0..n
        invariant
            n == items.len(),
            s == items.deep_view(),
            forall|j: int| 0 <= j < i ==> s[j] != needle@,
    {
        if items[i] == *needle {
            proof {
                lemma_first_position_at(s, needle@, i as int);
            }
            return Some(i);
        }
    }
    assert(!s.contains(needle@));
    None
}

/// The link that the next ingestion takes from `links`, walking them from the
/// back when `ingest_from_back` holds, resuming after `checkpoint`.
pub fn select_next_link(links: &Vec<String>, ingest_from_back: bool, checkpoint: &Option<String>) -> (r:
    Option<String>)
    ensures
        r.deep_view() == next_link(links.deep_view(), ingest_from_back, checkpoint.deep_view()),
{
    let order = listing_in_order(links, ingest_from_back);
    let ghost o = order.deep_view();
    let idx = resume_at(&order, checkpoint);
    if idx < order.len() {
        let picked = order[idx].clone();
        assert(picked@ == o[idx as int]);
        Some(picked)
    } else {
        None
    }
}

/// Where the walk of `order` resumes after `checkpoint`.
pub fn resume_at(order: &Vec<String>, checkpoint: &Option<String>) -> (r: usize)
    ensures
        r == resume_index(order.deep_view(), checkpoint.deep_view()),
{
    match checkpoint {
        Some(c) => {
            assert(checkpoint.deep_view() == Some(c@));
            match position_of(order, c) {
                Some(i) => i + 1,
                None => 0,
            }
        },
        None => 0,
    }
}

/// The last path segment, or the error for an address that has none.
pub fn dataset_name_from_segments(segments: &Option<Vec<String>>) -> (r: Result<
    String,
    IngestionError,
>)
    ensures
        match dataset_name_of(segments.deep_view()) {
            Some(n) => r is Ok && r->Ok_0@ == n,
            None => r matches Err(IngestionError::ExtractError(m)) && m@
                == "Failed to extract dataset name from URL"@,
        },
        r is Ok <==> (segments is Some && segments->Some_0@.len() > 0),
        r is Ok ==> r->Ok_0@ == segments->Some_0@[segments->Some_0@.len() - 1]@,
{
    match segments {
        Some(s) => {
            if s.len() > 0 {
                return Ok(s[s.len() - 1].clone());
            }
        },
        None => {},
    }
    Err(IngestionError::ExtractError(String::from_str("Failed to extract dataset name from URL")))
}

/// The target for `link`, given the outcome of parsing it.
pub fn target_from_link(link: String, parsed: Result<ParsedUrl, String>) -> (r: Result<
    IngestTarget,
    IngestionError,
>)
    ensures
        match target_outcome(link@, parse_outcome(parsed)) {
            Ok(t) => r is Ok && r->Ok_0@ == t,
            Err(m) => r matches Err(IngestionError::ExtractError(e)) && e@ == m,
        },
{
    match parsed {
        Err(e) => Err(IngestionError::ExtractError(prefixed("Invalid file URL: ", e.as_str()))),
        Ok(url) => {
            let name = dataset_name_from_segments(url.path_segments());
            match name {
                Err(e) => Err(e),
                Ok(dataset_name) => Ok(IngestTarget { link, url, dataset_name }),
            }
        },
    }
}

} // verus!
