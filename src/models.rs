use vstd::prelude::*;

verus! {

/// Whether `year` is a leap year of the proleptic Gregorian calendar.
pub open spec fn is_leap_year(year: int) -> bool {
    (year % 4 == 0 && year % 100 != 0) || year % 400 == 0
}

/// Number of days in `month` (1 to 12) of `year`.
pub open spec fn days_in_month(year: int, month: int) -> int {
    if month == 2 {
        if is_leap_year(year) { 29 } else { 28 }
    } else if month == 4 || month == 6 || month == 9 || month == 11 {
        30
    } else {
        31
    }
}

/// The calendar day (UTC) on which a post was published.
#[derive(Clone, Copy, Debug, PartialEq, Eq)]
pub struct PublishedDate {
    pub year: i32,
    pub month: u32,
    pub day: u32,
}

impl PublishedDate {
    /// A real calendar date with a four-digit year.
    pub open spec fn wf(&self) -> bool {
        0 <= self.year <= 9999
            && 1 <= self.month <= 12
            && 1 <= self.day <= days_in_month(self.year as int, self.month as int)
    }

    /// The date with these fields, if they name a real day of a year from 0 to 9999.
    pub fn new(year: i32, month: u32, day: u32) -> (r: Option<PublishedDate>)
        ensures
            r matches Some(d) ==> d.wf() && d.year == year && d.month == month && d.day == day,
            r is Some <==> (PublishedDate { year, month, day }).wf(),
    {
        if year < 0 || year > 9999 || month < 1 || month > 12 || day < 1 {
            return None;
        }
        let leap = (year % 4 == 0 && year % 100 != 0) || year % 400 == 0;
        let last: u32 = if month == 2 {
            if leap { 29 } else { 28 }
        } else if month == 4 || month == 6 || month == 9 || month == 11 {
            30
        } else {
            31
        };
        if day > last {
            None
        } else {
            Some(PublishedDate { year, month, day })
        }
    }
}

/// A blog post as the content store holds it; `content` is Markdown source.
#[derive(Clone, Debug)]
pub struct BlogPost {
    pub id: String,
    pub title: String,
    pub content: String,
    pub published_at: PublishedDate,
}

/// The mathematical value of a blog post.
pub struct PostModel {
    pub id: Seq<char>,
    pub title: Seq<char>,
    pub content: Seq<char>,
    pub published_at: PublishedDate,
}

impl View for BlogPost {
    type V = PostModel;

    open spec fn view(&self) -> PostModel {
        PostModel {
            id: self.id@,
            title: self.title@,
            content: self.content@,
            published_at: self.published_at,
        }
    }
}

/// A consulting service offered on the site.
#[derive(Clone, Debug)]
pub struct Service {
    pub id: String,
    pub name: String,
    pub description: String,
    pub price_range: String,
}

/// The mathematical value of a service.
pub struct ServiceModel {
    pub id: Seq<char>,
    pub name: Seq<char>,
    pub description: Seq<char>,
    pub price_range: Seq<char>,
}

impl View for Service {
    type V = ServiceModel;

    open spec fn view(&self) -> ServiceModel {
        ServiceModel {
            id: self.id@,
            name: self.name@,
            description: self.description@,
            price_range: self.price_range@,
        }
    }
}

/// The values of a sequence of posts.
pub open spec fn posts_model(posts: Seq<BlogPost>) -> Seq<PostModel> {
    posts.map_values(|p: BlogPost| p@)
}

/// The values of a sequence of services.
pub open spec fn services_model(services: Seq<Service>) -> Seq<ServiceModel> {
    services.map_values(|s: Service| s@)
}

/// Every post in the sequence carries a real publication date.
pub open spec fn dates_wf(posts: Seq<PostModel>) -> bool {
    forall|i: int| 0 <= i < posts.len() ==> #[trigger] posts[i].published_at.wf()
}

/// Position of the first post at or after `i` whose id is `id`, or the length if none.
pub open spec fn post_index_from(posts: Seq<PostModel>, id: Seq<char>, i: int) -> int
    decreases posts.len() - i,
{
    if i >= posts.len() {
        posts.len() as int
    } else if posts[i].id == id {
        i
    } else {
        post_index_from(posts, id, i + 1)
    }
}

/// The first post whose id is exactly `id`, if any.
pub open spec fn find_post(posts: Seq<PostModel>, id: Seq<char>) -> Option<PostModel> {
    let k = post_index_from(posts, id, 0);
    if 0 <= k < posts.len() {
        Some(posts[k])
    } else {
        None
    }
}

proof fn lemma_index_from_bound(posts: Seq<PostModel>, id: Seq<char>, i: int, j: int)
    requires
        0 <= i <= j < posts.len(),
        posts[j].id == id,
    ensures
        i <= post_index_from(posts, id, i) <= j,
        posts[post_index_from(posts, id, i)].id == id,
    decreases j - i,
{
    if posts[i].id != id {
        lemma_index_from_bound(posts, id, i + 1, j);
    }
}

proof fn lemma_index_from_absent(posts: Seq<PostModel>, id: Seq<char>, i: int)
    requires
        0 <= i <= posts.len(),
        forall|j: int| 0 <= j < posts.len() ==> #[trigger] posts[j].id != id,
    ensures
        post_index_from(posts, id, i) == posts.len(),
    decreases posts.len() - i,
{
    if i < posts.len() {
        lemma_index_from_absent(posts, id, i + 1);
    }
}

/// A lookup of an id that some post carries finds a post, and the post found
/// carries exactly that id.
pub proof fn lemma_found_post_has_id(posts: Seq<PostModel>, id: Seq<char>)
    requires
        exists|j: int| 0 <= j < posts.len() && #[trigger] posts[j].id == id,
    ensures
        find_post(posts, id) matches Some(p) && p.id == id,
{
    let j = choose|j: int| 0 <= j < posts.len() && #[trigger] posts[j].id == id;
    lemma_index_from_bound(posts, id, 0, j);
}

/// A lookup of an id that no post carries finds nothing.
pub proof fn lemma_absent_id_finds_nothing(posts: Seq<PostModel>, id: Seq<char>)
    requires
        forall|j: int| 0 <= j < posts.len() ==> #[trigger] posts[j].id != id,
    ensures
        find_post(posts, id) is None,
{
    lemma_index_from_absent(posts, id, 0);
}

} // verus!
