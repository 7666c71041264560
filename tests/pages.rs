use portfolio::models::{BlogPost, PublishedDate};
use portfolio::repositories::{MockBlogRepository, MockServiceRepository};
use portfolio::services::{BlogService, ServiceCatalog};
use portfolio::views::{
    NOT_FOUND_PAGE, bio_education, bio_experiences, blog_index, blog_post_page, post_page,
    render_post_page, services_listing, summarize_post,
};

fn post_with(content: &str) -> BlogPost {
    BlogPost {
        id: "x".to_string(),
        title: "A Title".to_string(),
        content: content.to_string(),
        published_at: PublishedDate::new(2024, 3, 7).unwrap(),
    }
}

#[test]
fn markdown_renders_code_heading_and_ordered_list() {
    let post = post_with("## Heading\n\n```rust\nfn main() {}\n```\n\n1. one\n2. two\n");
    let page = post_page(&post, 2025);
    assert!(page.contains("<pre><code"));
    assert!(page.contains("<h2>"));
    assert!(page.contains("<ol>"));
    assert!(page.contains("<li>one</li>"));
}

#[test]
fn markdown_extensions_tables_and_strikethrough() {
    let post = post_with("| a | b |\n|---|---|\n| 1 | 2 |\n\n~~gone~~\n");
    let page = post_page(&post, 2025);
    assert!(page.contains("<table>"));
    assert!(page.contains("<del>gone</del>"));
}

#[test]
fn post_page_is_not_the_raw_markdown() {
    let post = post_with("# Big");
    let page = post_page(&post, 2025);
    assert!(page.contains("<h1>Big</h1>"));
    assert!(!page.contains("# Big"));
}

#[test]
fn render_post_page_places_fields() {
    let post = post_with("ignored");
    let page = render_post_page(&post, "<p>BODY</p>", 2031);
    assert!(page.starts_with("<!DOCTYPE html>"));
    assert!(page.contains("<title>A Title - Your Name</title>"));
    assert!(page.contains("<h1 class=\"text-4xl font-bold mb-4\">A Title</h1>"));
    assert!(page.contains("<p class=\"text-gray-600\">March 07, 2024</p>"));
    assert!(page.contains("<p>BODY</p>"));
    assert!(page.contains("© 2031 Your Name. All rights reserved."));
    assert!(page.contains("document.addEventListener('DOMContentLoaded', (event) => {"));
    assert!(!page.contains("ignored"));
    assert!(page.ends_with("</html>"));
}

#[test]
fn request_first_post_page() {
    let service = BlogService::new(MockBlogRepository::new());
    let page = blog_post_page(&service, "1", 2025).unwrap();
    assert!(page.contains("Building Scalable Web3 Infrastructure"));
    assert!(page.contains("<pre><code class=\"language-rust\">"));
    assert!(page.contains("November 30, 2024"));
}

#[test]
fn request_missing_post_page() {
    let service = BlogService::new(MockBlogRepository::new());
    let page = blog_post_page(&service, "999", 2025).unwrap();
    assert_eq!(page, NOT_FOUND_PAGE);
    assert_eq!(page, "<h1>Post not found</h1>");
}

#[test]
fn request_services_listing() {
    let catalog = ServiceCatalog::new(MockServiceRepository::new());
    let cards = services_listing(&catalog).unwrap();
    assert_eq!(cards.len(), 2);
    assert_eq!(cards[0].name, "Technical Leadership");
    assert_eq!(cards[0].price_range, "$200-500/hour");
    assert_eq!(
        cards[0].description,
        "Strategic technical guidance for your startup's growth and success."
    );
    assert_eq!(cards[1].name, "Web3 Development");
    assert_eq!(cards[1].price_range, "Custom pricing");
    assert_eq!(cards[1].description, "End-to-end development of decentralized applications.");
}

#[test]
fn blog_index_lists_posts_in_store_order() {
    let service = BlogService::new(MockBlogRepository::new());
    let entries = blog_index(&service).unwrap();
    assert_eq!(entries.len(), 2);
    assert_eq!(entries[0].title, "Building Scalable Web3 Infrastructure");
    assert_eq!(entries[0].date, "November 30, 2024");
    assert_eq!(entries[0].slug, "1");
    assert_eq!(entries[0].content, "");
    assert!(entries[0].preview.starts_with("Building Scalable Web3 Infrastructure presents unique challenges"));
    assert!(entries[0].preview.ends_with("building decentralized applications at scale."));
    assert_eq!(entries[1].title, "The Future of DeFi: A Technical Perspective");
    assert_eq!(entries[1].date, "November 25, 2024");
    assert_eq!(entries[1].slug, "2");
    assert_eq!(
        entries[1].preview,
        "The Future of DeFi: A Technical Perspective explores the evolving landscape of decentralized finance and its technical implications."
    );
}

#[test]
fn summary_of_single_post() {
    let post = post_with("first\r\nsecond\nthird");
    let s = summarize_post(&post);
    assert_eq!(s.title, "A Title");
    assert_eq!(s.date, "March 07, 2024");
    assert_eq!(s.preview, "first");
    assert_eq!(s.slug, "x");
    assert_eq!(s.content, "");
}

#[test]
fn bio_lists() {
    let exp = bio_experiences();
    assert_eq!(exp.len(), 2);
    assert_eq!(exp[0].title, "Engineering Manager");
    assert_eq!(exp[0].company, "Web3 Startup");
    assert_eq!(exp[0].period, "2024 - Present");
    assert_eq!(exp[1].title, "Senior Software Engineer");
    assert_eq!(exp[1].period, "2020 - 2024");
    let edu = bio_education();
    assert_eq!(edu.len(), 1);
    assert_eq!(edu[0].school, "Harvard College");
    assert_eq!(edu[0].degree, "AB Physics");
    assert_eq!(edu[0].year, "2011");
}
