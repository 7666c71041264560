use portfolio::models::{BlogPost, PublishedDate};
use portfolio::ports::{BlogRepository, ServiceRepository};
use portfolio::repositories::{MockBlogRepository, MockServiceRepository};
use portfolio::services::{BlogService, ServiceCatalog};

#[test]
fn get_post_returns_post_with_requested_id() {
    let service = BlogService::new(MockBlogRepository::new());
    for id in ["1", "2"] {
        let post = service.get_post(id).unwrap().unwrap();
        assert_eq!(post.id, id);
    }
}

#[test]
fn get_post_finds_first_post_title() {
    let repo = MockBlogRepository::new();
    let post: BlogPost = repo.get_post("1").unwrap().unwrap();
    assert_eq!(post.title, "Building Scalable Web3 Infrastructure");
    assert_eq!(post.published_at, PublishedDate { year: 2024, month: 11, day: 30 });
    let second = repo.get_post("2").unwrap().unwrap();
    assert_eq!(second.title, "The Future of DeFi: A Technical Perspective");
    assert_eq!(second.published_at, PublishedDate { year: 2024, month: 11, day: 25 });
}

#[test]
fn get_post_unknown_id_is_empty() {
    let service = BlogService::new(MockBlogRepository::new());
    assert!(service.get_post("999").unwrap().is_none());
    assert!(service.get_post("").unwrap().is_none());
}

#[test]
fn get_post_lookup_is_case_and_exact_sensitive() {
    let service = BlogService::new(MockBlogRepository::new());
    assert!(service.get_post("1 ").unwrap().is_none());
    assert!(service.get_post("01").unwrap().is_none());
    assert!(service.get_post("12").unwrap().is_none());
}

#[test]
fn get_posts_is_idempotent() {
    let service = BlogService::new(MockBlogRepository::new());
    let a = service.get_posts().unwrap();
    let b = service.get_posts().unwrap();
    assert_eq!(a.len(), 2);
    assert_eq!(a.len(), b.len());
    for (x, y) in a.iter().zip(b.iter()) {
        assert_eq!(x.id, y.id);
        assert_eq!(x.title, y.title);
        assert_eq!(x.content, y.content);
        assert_eq!(x.published_at, y.published_at);
    }
    assert_eq!(a[0].id, "1");
    assert_eq!(a[1].id, "2");
}

#[test]
fn get_services_is_idempotent() {
    let catalog = ServiceCatalog::new(MockServiceRepository::new());
    let a = catalog.get_services().unwrap();
    let b = catalog.get_services().unwrap();
    assert_eq!(a.len(), 2);
    assert_eq!(a.len(), b.len());
    for (x, y) in a.iter().zip(b.iter()) {
        assert_eq!(x.id, y.id);
        assert_eq!(x.name, y.name);
        assert_eq!(x.description, y.description);
        assert_eq!(x.price_range, y.price_range);
    }
}

#[test]
fn service_repository_contents() {
    let services = MockServiceRepository::new().get_services().unwrap();
    assert_eq!(services[0].id, "1");
    assert_eq!(services[0].name, "Technical Leadership");
    assert_eq!(
        services[0].description,
        "Strategic technical guidance for your startup's growth and success."
    );
    assert_eq!(services[0].price_range, "$200-500/hour");
    assert_eq!(services[1].id, "2");
    assert_eq!(services[1].name, "Web3 Development");
    assert_eq!(services[1].price_range, "Custom pricing");
}
