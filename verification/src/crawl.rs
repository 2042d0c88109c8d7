//! Listing the packages that depend on a package: the registry hands the
//! list out page by page, and the crawl asks for one page after the other
//! until a page comes back empty.

use vstd::prelude::*;
use vstd::string::StringExecFns;

verus! {

/// How many entries a page holds at most.
pub const PER_PAGE: u64 = 100;

/// One entry of the registry's listing: a dependent package and the version
/// of it that the entry speaks of.
#[derive(Debug, Clone, PartialEq, Eq)]
pub struct ReverseDependencyEntry {
    pub name: String,
    pub version: String,
}

/// What a [`ReverseDependencyEntry`] stands for.
pub struct ReverseDependencyEntryModel {
    pub name: Seq<char>,
    pub version: Seq<char>,
}

impl View for ReverseDependencyEntry {
    type V = ReverseDependencyEntryModel;

    open spec fn view(&self) -> ReverseDependencyEntryModel {
        ReverseDependencyEntryModel { name: self.name@, version: self.version@ }
    }
}

impl DeepView for ReverseDependencyEntry {
    type V = ReverseDependencyEntryModel;

    open spec fn deep_view(&self) -> ReverseDependencyEntryModel {
        self@
    }
}

/// The request for one page of the listing.
#[derive(Debug, Clone, PartialEq, Eq)]
pub struct PageRequest {
    /// The address of the listing, without the query.
    pub url: String,
    /// The `per_page` parameter of the query.
    pub per_page: u64,
    /// The `page` parameter of the query; the first page is page 1.
    pub page: u64,
}

/// What a [`PageRequest`] stands for.
pub struct PageRequestModel {
    pub url: Seq<char>,
    pub per_page: nat,
    pub page: nat,
}

impl View for PageRequest {
    type V = PageRequestModel;

    open spec fn view(&self) -> PageRequestModel {
        PageRequestModel {
            url: self.url@,
            per_page: self.per_page as nat,
            page: self.page as nat,
        }
    }
}

/// A crawl in progress: the page that was asked for last, and the names
/// that the pages before it held.
#[derive(Debug, PartialEq, Eq)]
pub struct Crawl {
    pub name: String,
    pub page: u64,
    pub found: Vec<String>,
}

/// What a [`Crawl`] stands for.
pub struct CrawlModel {
    pub name: Seq<char>,
    pub page: nat,
    pub found: Seq<Seq<char>>,
}

impl View for Crawl {
    type V = CrawlModel;

    open spec fn view(&self) -> CrawlModel {
        CrawlModel { name: self.name@, page: self.page as nat, found: self.found.deep_view() }
    }
}

/// What follows a page: another request, or the end of the crawl.
#[derive(Debug, PartialEq, Eq)]
pub enum CrawlStep<E> {
    /// Ask for the next page and report it to `crawl`.
    Fetch { crawl: Crawl, request: PageRequest },
    /// The crawl is over: all names, or the failure that ended it.
    Finish { outcome: Result<Vec<String>, E> },
}

/// What a [`CrawlStep`] stands for.
pub enum CrawlStepModel<E> {
    Fetch { crawl: CrawlModel, request: PageRequestModel },
    Finish { outcome: Result<Seq<Seq<char>>, E> },
}

impl<E> View for CrawlStep<E> {
    type V = CrawlStepModel<E>;

    open spec fn view(&self) -> CrawlStepModel<E> {
        match self {
            CrawlStep::Fetch { crawl, request } => CrawlStepModel::Fetch {
                crawl: crawl@,
                request: request@,
            },
            CrawlStep::Finish { outcome } => CrawlStepModel::Finish {
                outcome: match outcome {
                    Ok(names) => Ok(names.deep_view()),
                    Err(e) => Err(*e),
                },
            },
        }
    }
}

/// The address of the listing of the packages that depend on `name`.
pub open spec fn listing_url(name: Seq<char>) -> Seq<char> {
    "https://crates.io/api/v1/crates/"@ + name + "/reverse_dependencies"@
}

/// The request for page `page` of the listing for `name`.
pub open spec fn page_request(name: Seq<char>, page: nat) -> PageRequestModel {
    PageRequestModel { url: listing_url(name), per_page: PER_PAGE as nat, page }
}

/// The names of the entries of a page, in their order.
pub open spec fn names_of(entries: Seq<ReverseDependencyEntryModel>) -> Seq<Seq<char>> {
    entries.map_values(|entry: ReverseDependencyEntryModel| entry.name)
}

/// A crawl begins with the request for page 1, and with no name found.
pub open spec fn crawl_started<E>(name: Seq<char>) -> CrawlStepModel<E> {
    CrawlStepModel::Fetch {
        crawl: CrawlModel { name, page: 1, found: Seq::empty() },
        request: page_request(name, 1),
    }
}

/// What follows the report on the page that was asked for last.
///
/// A failure ends the crawl with that failure, and the names found so far
/// are dropped. An empty page ends it with all names found. Any other page
/// adds its names and is followed by the request for the next page.
pub open spec fn crawl_next<E>(
    crawl: CrawlModel,
    response: Result<Seq<ReverseDependencyEntryModel>, E>,
) -> CrawlStepModel<E> {
    match response {
        Err(e) => CrawlStepModel::Finish { outcome: Err(e) },
        Ok(entries) => if entries.len() == 0 {
            CrawlStepModel::Finish { outcome: Ok(crawl.found) }
        } else {
            CrawlStepModel::Fetch {
                crawl: CrawlModel {
                    name: crawl.name,
                    page: crawl.page + 1,
                    found: crawl.found + names_of(entries),
                },
                request: page_request(crawl.name, crawl.page + 1),
            }
        },
    }
}

/// The view of a page as the driver reports it.
pub open spec fn response_view<E>(response: Result<Vec<ReverseDependencyEntry>, E>) -> Result<
    Seq<ReverseDependencyEntryModel>,
    E,
> {
    match response {
        Ok(entries) => Ok(entries.deep_view()),
        Err(e) => Err(e),
    }
}

fn request_page(name: &String, page: u64) -> (request: PageRequest)
    ensures
        request@ == page_request(name@, page as nat),
{
    let mut url = String::from_str("https://crates.io/api/v1/crates/");
    url.append(name.as_str());
    url.append("/reverse_dependencies");
    PageRequest { url, per_page: PER_PAGE, page }
}

/// Begins the crawl for the packages that depend on `name`.
pub fn start_crawl<E>(name: &str) -> (step: CrawlStep<E>)
    ensures
        step@ == crawl_started::<E>(name@),
{
    let name = String::from_str(name);
    let request = request_page(&name, 1);
    let found: Vec<String> = Vec::new();
    assert(found.deep_view() =~= Seq::empty());
    CrawlStep::Fetch { crawl: Crawl { name, page: 1, found }, request }
}

/// Advances the crawl by the report on the page that was asked for last:
/// see [`crawl_next`].
///
/// The page number must leave room for a next page.
pub fn find_reverse_deps<E>(crawl: Crawl, response: Result<Vec<ReverseDependencyEntry>, E>) -> (step:
    CrawlStep<E>)
    requires
        crawl.page < u64::MAX,
    ensures
        step@ == crawl_next(crawl@, response_view(response)),
{
    let entries = match response {
        Err(e) => {
            return CrawlStep::Finish { outcome: Err(e) };
        },
        Ok(entries) => entries,
    };
    let Crawl { name: asked, page, found } = crawl;
    if entries.len() == 0 {
        return CrawlStep::Finish { outcome: Ok(found) };
    }
    let mut found = found;
    let ghost before = found.deep_view();
    let mut i: usize = 0;
    while i < entries.len()
        invariant
            i <= entries.len(),
            found.deep_view() == before + names_of(entries.deep_view()).take(i as int),
        decreases entries.len() - i,
    {
        let ghost so_far = found.deep_view();
        let name = entries[i].name.clone();
        found.push(name);
        assert(found.deep_view() =~= so_far.push(name@));
        i += 1;
        assert(names_of(entries.deep_view()).take(i as int) =~= names_of(
            entries.deep_view(),
        ).take(i - 1).push(name@));
    }
    assert(names_of(entries.deep_view()).take(i as int) =~= names_of(entries.deep_view()));
    let request = request_page(&asked, page + 1);
    CrawlStep::Fetch { crawl: Crawl { name: asked, page: page + 1, found }, request }
}

// ---------------------------------------------------------------------------
// Whole crawls
// ---------------------------------------------------------------------------

/// The step that follows once the driver has reported `responses`, one
/// after the other. A crawl that is over takes no further report.
pub open spec fn crawl_after<E>(
    name: Seq<char>,
    responses: Seq<Result<Seq<ReverseDependencyEntryModel>, E>>,
) -> CrawlStepModel<E>
    decreases responses.len(),
{
    if responses.len() == 0 {
        crawl_started(name)
    } else {
        match crawl_after(name, responses.drop_last()) {
            CrawlStepModel::Fetch { crawl, .. } => crawl_next(crawl, responses.last()),
            CrawlStepModel::Finish { outcome } => CrawlStepModel::Finish { outcome },
        }
    }
}

/// Every response is a page with at least one entry.
pub open spec fn full_pages<E>(responses: Seq<Result<Seq<ReverseDependencyEntryModel>, E>>) -> bool {
    forall|i: int|
        0 <= i < responses.len() ==> (#[trigger] responses[i] matches Ok(entries) && entries.len()
            > 0)
}

/// The names on all pages, page after page.
pub open spec fn all_names<E>(responses: Seq<Result<Seq<ReverseDependencyEntryModel>, E>>) -> Seq<
    Seq<char>,
>
    decreases responses.len(),
{
    if responses.len() == 0 {
        Seq::empty()
    } else {
        all_names(responses.drop_last()) + (match responses.last() {
            Ok(entries) => names_of(entries),
            Err(_) => Seq::empty(),
        })
    }
}

/// The number of entries on all pages together.
pub open spec fn entry_count<E>(responses: Seq<Result<Seq<ReverseDependencyEntryModel>, E>>) -> nat
    decreases responses.len(),
{
    if responses.len() == 0 {
        0
    } else {
        entry_count(responses.drop_last()) + (match responses.last() {
            Ok(entries) => entries.len(),
            Err(_) => 0,
        })
    }
}

/// As many names are found as the pages hold entries.
pub proof fn lemma_one_name_for_each_entry<E>(
    responses: Seq<Result<Seq<ReverseDependencyEntryModel>, E>>,
)
    ensures
        all_names(responses).len() == entry_count(responses),
    decreases responses.len(),
{
    if responses.len() > 0 {
        lemma_one_name_for_each_entry(responses.drop_last());
    }
}

/// After `n` pages that each hold an entry, the crawl asks for page `n + 1`
/// with the fixed page size, and has found the names of all `n` pages in
/// their order.
pub proof fn lemma_crawl_asks_for_the_next_page<E>(
    name: Seq<char>,
    pages: Seq<Result<Seq<ReverseDependencyEntryModel>, E>>,
)
    requires
        full_pages(pages),
    ensures
        crawl_after(name, pages) == (CrawlStepModel::<E>::Fetch {
            crawl: CrawlModel { name, page: pages.len() + 1, found: all_names(pages) },
            request: PageRequestModel {
                url: listing_url(name),
                per_page: 100,
                page: pages.len() + 1,
            },
        }),
    decreases pages.len(),
{
    if pages.len() > 0 {
        lemma_crawl_asks_for_the_next_page(name, pages.drop_last());
    }
}

/// A crawl over `n` pages that each hold an entry, followed by an empty
/// page, makes `n + 1` requests, for the pages 1 to `n + 1`, and returns
/// the names of all entries in their order. Where instead of the empty page
/// a failure is reported, the crawl ends with that failure and hands out no
/// name.
pub proof fn lemma_crawl_outcome<E>(
    name: Seq<char>,
    pages: Seq<Result<Seq<ReverseDependencyEntryModel>, E>>,
    last: Result<Seq<ReverseDependencyEntryModel>, E>,
)
    requires
        full_pages(pages),
        last matches Ok(entries) ==> entries.len() == 0,
    ensures
        forall|n: int|
            0 <= n <= pages.len() ==> (#[trigger] crawl_after(name, pages.take(n))
                matches CrawlStepModel::Fetch { request, .. } && request == page_request(
                name,
                (n + 1) as nat,
            )),
        crawl_after(name, pages.push(last)) == (CrawlStepModel::Finish {
            outcome: match last {
                Ok(_) => Ok(all_names(pages)),
                Err(e) => Err(e),
            },
        }),
        all_names(pages).len() == entry_count(pages),
{
    assert forall|n: int| 0 <= n <= pages.len() implies (#[trigger] crawl_after(
        name,
        pages.take(n),
    ) matches CrawlStepModel::Fetch { request, .. } && request == page_request(
        name,
        (n + 1) as nat,
    )) by {
        lemma_crawl_asks_for_the_next_page(name, pages.take(n));
    }
    lemma_crawl_asks_for_the_next_page(name, pages);
    assert(pages.push(last).drop_last() =~= pages);
    lemma_one_name_for_each_entry(pages);
}

} // verus!
