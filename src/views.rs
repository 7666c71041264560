use vstd::prelude::*;
use crate::models::{BlogPost, PostModel, Service, ServiceModel, dates_wf, find_post, posts_model, services_model};
use crate::ports::{BlogRepository, Error, ServiceRepository};
use crate::services::{BlogService, ServiceCatalog};
use crate::text::{date_text, first_line, first_line_of, format_date, int_text, append_int_text};

verus! {

/// A post as the blog index lists it.
#[derive(Debug)]
pub struct PostSummary {
    pub title: String,
    pub date: String,
    pub preview: String,
    pub slug: String,
    pub content: String,
}

/// `s` lists post `p`: its title, its date as "Month DD, YYYY", the first line
/// of its content as preview, its id as slug, and no content.
pub open spec fn summarizes(s: PostSummary, p: PostModel) -> bool {
    &&& s.title@ == p.title
    &&& s.date@ == date_text(p.published_at)
    &&& s.preview@ == first_line(p.content)
    &&& s.slug@ == p.id
    &&& s.content@ == Seq::<char>::empty()
}

/// `v` lists the posts of `posts`, one each, in the same order.
pub open spec fn summarizes_all(v: Seq<PostSummary>, posts: Seq<PostModel>) -> bool {
    &&& v.len() == posts.len()
    &&& forall|i: int| 0 <= i < v.len() ==> summarizes(#[trigger] v[i], posts[i])
}

/// A service as the services page lists it.
#[derive(Debug)]
pub struct ServiceCard {
    pub name: String,
    pub description: String,
    pub price_range: String,
}

/// `c` shows service `s`: its name, description and price range.
pub open spec fn shows(c: ServiceCard, s: ServiceModel) -> bool {
    &&& c.name@ == s.name
    &&& c.description@ == s.description
    &&& c.price_range@ == s.price_range
}

/// `v` shows the services of `services`, one each, in the same order.
pub open spec fn shows_all(v: Seq<ServiceCard>, services: Seq<ServiceModel>) -> bool {
    &&& v.len() == services.len()
    &&& forall|i: int| 0 <= i < v.len() ==> shows(#[trigger] v[i], services[i])
}

/// The index entry for one post.
pub fn summarize_post(post: &BlogPost) -> (r: PostSummary)
    requires
        post.published_at.wf(),
    ensures
        summarizes(r, post@),
{
    PostSummary {
        title: post.title.clone(),
        date: format_date(&post.published_at),
        preview: first_line_of(post.content.as_str()),
        slug: post.id.clone(),
        content: String::new(),
    }
}

/// The index entries for `posts`, in the same order.
pub fn summarize_posts(posts: &Vec<BlogPost>) -> (r: Vec<PostSummary>)
    requires
        dates_wf(posts_model(posts@)),
    ensures
        summarizes_all(r@, posts_model(posts@)),
{
    let mut out: Vec<PostSummary> = Vec::new();
    let mut i: usize = 0;
    while i < posts.len()
        invariant
            i <= posts.len(),
            dates_wf(posts_model(posts@)),
            summarizes_all(out@, posts_model(posts@).take(i as int)),
        decreases posts.len() - i,
    {
        assert(posts_model(posts@)[i as int] == posts@[i as int]@);
        assert(posts_model(posts@)[i as int].published_at.wf());
        let s = summarize_post(&posts[i]);
        out.push(s);
        i = i + 1;
        assert forall|j: int| 0 <= j < out@.len() implies summarizes(
            #[trigger] out@[j],
            posts_model(posts@).take(i as int)[j],
        ) by {
            if j < i - 1 {
                assert(posts_model(posts@).take(i - 1)[j] == posts_model(posts@).take(i as int)[j]);
            }
        }
    }
    assert(posts_model(posts@).take(i as int) =~= posts_model(posts@));
    out
}

/// The entries of the blog index: every post of the service's repository, in store order.
pub fn blog_index<T: BlogRepository>(
    service: &BlogService<T>,
) -> (r: Result<Vec<PostSummary>, Error>)
    ensures
        service.repository().infallible() ==> r is Ok,
        r matches Ok(v) ==> summarizes_all(v@, service.repository().stored_posts()),
{
    match service.get_posts() {
        Ok(posts) => Ok(summarize_posts(&posts)),
        Err(e) => Err(e),
    }
}

/// The card for one service.
pub fn service_card(service: &Service) -> (r: ServiceCard)
    ensures
        shows(r, service@),
{
    ServiceCard {
        name: service.name.clone(),
        description: service.description.clone(),
        price_range: service.price_range.clone(),
    }
}

/// The cards for `services`, in the same order.
pub fn service_cards(services: &Vec<Service>) -> (r: Vec<ServiceCard>)
    ensures
        shows_all(r@, services_model(services@)),
{
    let mut out: Vec<ServiceCard> = Vec::new();
    let mut i: usize = 0;
    while i < services.len()
        invariant
            i <= services.len(),
            shows_all(out@, services_model(services@).take(i as int)),
        decreases services.len() - i,
    {
        assert(services_model(services@)[i as int] == services@[i as int]@);
        let c = service_card(&services[i]);
        out.push(c);
        i = i + 1;
        assert forall|j: int| 0 <= j < out@.len() implies shows(
            #[trigger] out@[j],
            services_model(services@).take(i as int)[j],
        ) by {
            if j < i - 1 {
                assert(services_model(services@).take(i - 1)[j] == services_model(services@).take(
                    i as int,
                )[j]);
            }
        }
    }
    assert(services_model(services@).take(i as int) =~= services_model(services@));
    out
}

/// The cards of the services page: every service of the catalog's repository, in store order.
pub fn services_listing<T: ServiceRepository>(
    catalog: &ServiceCatalog<T>,
) -> (r: Result<Vec<ServiceCard>, Error>)
    ensures
        catalog.repository().infallible() ==> r is Ok,
        r matches Ok(v) ==> shows_all(v@, catalog.repository().stored_services()),
{
    match catalog.get_services() {
        Ok(services) => Ok(service_cards(&services)),
        Err(e) => Err(e),
    }
}

/// A position listed on the bio page.
#[derive(Debug)]
pub struct Experience {
    pub title: String,
    pub company: String,
    pub period: String,
    pub description: String,
}

/// A degree listed on the bio page.
#[derive(Debug)]
pub struct Education {
    pub school: String,
    pub degree: String,
    pub year: String,
    pub details: String,
}

/// The positions of the bio page, most recent first.
pub fn bio_experiences() -> (r: Vec<Experience>)
    ensures
        r@.len() == 2,
        r@[0].title@ == "Engineering Manager"@,
        r@[0].company@ == "Web3 Startup"@,
        r@[0].period@ == "2024 - Present"@,
        r@[0].description@
            == "Leading development teams in building decentralized applications and blockchain solutions."@,
        r@[1].title@ == "Senior Software Engineer"@,
        r@[1].company@ == "Blockchain Platform"@,
        r@[1].period@ == "2020 - 2024"@,
        r@[1].description@
            == "Architected and implemented scalable blockchain infrastructure and smart contract systems."@,
{
    let mut v: Vec<Experience> = Vec::new();
    v.push(
        Experience {
            title: String::from_str("Engineering Manager"),
            company: String::from_str("Web3 Startup"),
            period: String::from_str("2024 - Present"),
            description: String::from_str(
                "Leading development teams in building decentralized applications and blockchain solutions.",
            ),
        },
    );
    v.push(
        Experience {
            title: String::from_str("Senior Software Engineer"),
            company: String::from_str("Blockchain Platform"),
            period: String::from_str("2020 - 2024"),
            description: String::from_str(
                "Architected and implemented scalable blockchain infrastructure and smart contract systems.",
            ),
        },
    );
    v
}

/// The degrees of the bio page.
pub fn bio_education() -> (r: Vec<Education>)
    ensures
        r@.len() == 1,
        r@[0].school@ == "Harvard College"@,
        r@[0].degree@ == "AB Physics"@,
        r@[0].year@ == "2011"@,
        r@[0].details@ == "Thesis on quantum computing applications in cryptography"@,
{
    let mut v: Vec<Education> = Vec::new();
    v.push(
        Education {
            school: String::from_str("Harvard College"),
            degree: String::from_str("AB Physics"),
            year: String::from_str("2011"),
            details: String::from_str("Thesis on quantum computing applications in cryptography"),
        },
    );
    v
}

/// Post page markup up to the document title.
pub const POST_PAGE_HEAD: &'static str = r#"<!DOCTYPE html>
<html lang="en">
<head>
    <meta charset="UTF-8">
    <meta name="viewport" content="width=device-width, initial-scale=1.0">
    <title>"#;

/// Post page markup between the document title and the heading.
pub const POST_PAGE_AFTER_TITLE: &'static str = r#" - Your Name</title>
    <script src="https://unpkg.com/htmx.org@1.9.10"></script>
    <script src="https://cdn.tailwindcss.com"></script>
    <link rel="stylesheet" href="https://cdnjs.cloudflare.com/ajax/libs/highlight.js/11.9.0/styles/github.min.css">
    <script src="https://cdnjs.cloudflare.com/ajax/libs/highlight.js/11.9.0/highlight.min.js"></script>
    <script src="https://cdnjs.cloudflare.com/ajax/libs/highlight.js/11.9.0/languages/rust.min.js"></script>
    <script src="https://cdnjs.cloudflare.com/ajax/libs/highlight.js/11.9.0/languages/solidity.min.js"></script>
    <script>
        document.addEventListener('DOMContentLoaded', (event) => {
            document.querySelectorAll('pre code').forEach((el) => {
                hljs.highlightElement(el);
            });
        });
    </script>
    <style>
        .prose pre {
            background-color: #f6f8fa;
            border-radius: 6px;
            padding: 16px;
        }
        .prose code {
            color: #24292e;
            background-color: rgba(27,31,35,0.05);
            border-radius: 3px;
            padding: 0.2em 0.4em;
            font-size: 85%;
        }
        .prose pre code {
            background-color: transparent;
            padding: 0;
            font-size: 100%;
        }
    </style>
</head>
<body class="bg-gray-50">
    <nav class="bg-white shadow-lg">
        <div class="max-w-6xl mx-auto px-4">
            <div class="flex justify-between">
                <div class="flex space-x-7">
                    <div class="flex items-center py-4">
                        <a href="/" class="text-lg font-semibold">Your Name</a>
                    </div>
                    <div class="flex items-center space-x-4">
                        <a href="/bio" class="py-4 px-2 hover:text-blue-500">Bio</a>
                        <a href="/services" class="py-4 px-2 hover:text-blue-500">Services</a>
                        <a href="/blog" class="py-4 px-2 hover:text-blue-500">Blog</a>
                    </div>
                </div>
            </div>
        </div>
    </nav>

    <main class="container mx-auto px-4 py-8">
        <div class="max-w-3xl mx-auto">
            <article class="prose lg:prose-xl">
                <header class="mb-8">
                    <h1 class="text-4xl font-bold mb-4">"#;

/// Post page markup between the heading and the publication date.
pub const POST_PAGE_AFTER_HEADING: &'static str = r#"</h1>
                    <p class="text-gray-600">"#;

/// Post page markup between the publication date and the rendered body.
pub const POST_PAGE_AFTER_DATE: &'static str = r#"</p>
                </header>

                <div class="markdown-content">
                    "#;

/// Post page markup between the rendered body and the copyright year.
pub const POST_PAGE_AFTER_BODY: &'static str = r#"
                </div>

                <footer class="mt-12 pt-6 border-t border-gray-200">
                    <a href="/blog" class="text-blue-600 hover:text-blue-800">← Back to Blog</a>
                </footer>
            </article>
        </div>
    </main>

    <footer class="bg-white shadow-lg mt-8">
        <div class="container mx-auto px-4 py-6 text-center">
            © "#;

/// Post page markup after the copyright year.
pub const POST_PAGE_TAIL: &'static str = r#" Your Name. All rights reserved.
        </div>
    </footer>
</body>
</html>"#;

/// What a single-post request renders when no post has the requested id.
pub const NOT_FOUND_PAGE: &'static str = "<h1>Post not found</h1>";

/// The HTML that the Markdown renderer produces for `source`.
pub uninterp spec fn markdown_html(source: Seq<char>) -> Seq<char>;

/// Relies on pulldown_cmark's parser (every extension on: tables, footnotes,
/// strikethrough, task lists, smart punctuation, heading attributes) and its
/// HTML writer: the HTML depends on the source text alone.
#[verifier::external_body]
fn markdown_to_html(source: &str) -> (r: String)
    ensures
        r@ == markdown_html(source@),
{
    let parser = pulldown_cmark::Parser::new_ext(source, pulldown_cmark::Options::all());
    let mut html = String::new();
    pulldown_cmark::html::push_html(&mut html, parser);
    html
}

/// The full page of a post: `title` in the document title and the heading,
/// `date` under it, the rendered `body`, and `year` in the copyright line.
pub open spec fn post_page_text(
    title: Seq<char>,
    date: Seq<char>,
    body: Seq<char>,
    year: int,
) -> Seq<char> {
    POST_PAGE_HEAD@ + title + POST_PAGE_AFTER_TITLE@ + title + POST_PAGE_AFTER_HEADING@ + date
        + POST_PAGE_AFTER_DATE@ + body + POST_PAGE_AFTER_BODY@ + int_text(year) + POST_PAGE_TAIL@
}

/// The page of `post` around already rendered body HTML.
pub fn render_post_page(post: &BlogPost, body_html: &str, year: i32) -> (r: String)
    requires
        post.published_at.wf(),
    ensures
        r@ == post_page_text(post.title@, date_text(post.published_at), body_html@, year as int),
{
    let date = format_date(&post.published_at);
    let mut page = String::from_str(POST_PAGE_HEAD);
    page.append(post.title.as_str());
    page.append(POST_PAGE_AFTER_TITLE);
    page.append(post.title.as_str());
    page.append(POST_PAGE_AFTER_HEADING);
    page.append(date.as_str());
    page.append(POST_PAGE_AFTER_DATE);
    page.append(body_html);
    page.append(POST_PAGE_AFTER_BODY);
    append_int_text(&mut page, year);
    page.append(POST_PAGE_TAIL);
    page
}

/// The page of `post`, its Markdown content rendered to HTML.
pub fn post_page(post: &BlogPost, year: i32) -> (r: String)
    requires
        post.published_at.wf(),
    ensures
        r@ == post_page_text(
            post.title@,
            date_text(post.published_at),
            markdown_html(post.content@),
            year as int,
        ),
{
    let body = markdown_to_html(post.content.as_str());
    render_post_page(post, body.as_str(), year)
}

/// The answer to a request for the post with id `id`: its page when the
/// repository has one, else the not-found page. A missing post is a normal
/// outcome; only a failing repository gives an error.
pub fn blog_post_page<T: BlogRepository>(
    service: &BlogService<T>,
    id: &str,
    year: i32,
) -> (r: Result<String, Error>)
    ensures
        service.repository().infallible() ==> r is Ok,
        r matches Ok(html) ==> match find_post(service.repository().stored_posts(), id@) {
            Some(p) => html@ == post_page_text(
                p.title,
                date_text(p.published_at),
                markdown_html(p.content),
                year as int,
            ),
            None => html@ == NOT_FOUND_PAGE@,
        },
{
    match service.get_post(id) {
        Ok(Some(post)) => Ok(post_page(&post, year)),
        Ok(None) => Ok(String::from_str(NOT_FOUND_PAGE)),
        Err(e) => Err(e),
    }
}

} // verus!
