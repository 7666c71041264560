use vstd::prelude::*;
use crate::models::{BlogPost, Service, dates_wf, find_post, posts_model, services_model};
use crate::ports::{BlogRepository, Error, ServiceRepository, post_option_model};

verus! {

/// Read access to blog posts, forwarded to a repository.
pub struct BlogService<T: BlogRepository> {
    repository: T,
}

impl<T: BlogRepository> BlogService<T> {
    /// The repository this service reads from.
    pub closed spec fn repository(&self) -> T {
        self.repository
    }

    pub fn new(repository: T) -> (r: Self)
        ensures
            r.repository() == repository,
    {
        BlogService { repository }
    }

    /// Every post of the repository, in store order.
    pub fn get_posts(&self) -> (r: Result<Vec<BlogPost>, Error>)
        ensures
            self.repository().infallible() ==> r is Ok,
            r matches Ok(v) ==> posts_model(v@) == self.repository().stored_posts() && dates_wf(
                posts_model(v@),
            ),
    {
        self.repository.get_posts()
    }

    /// The first post of the repository whose id equals `id` exactly, if any.
    pub fn get_post(&self, id: &str) -> (r: Result<Option<BlogPost>, Error>)
        ensures
            self.repository().infallible() ==> r is Ok,
            r matches Ok(o) ==> post_option_model(o) == find_post(
                self.repository().stored_posts(),
                id@,
            ) && (o matches Some(p) ==> p.published_at.wf()),
    {
        self.repository.get_post(id)
    }
}

/// Read access to the offered services, forwarded to a repository.
pub struct ServiceCatalog<T: ServiceRepository> {
    repository: T,
}

impl<T: ServiceRepository> ServiceCatalog<T> {
    /// The repository this catalog reads from.
    pub closed spec fn repository(&self) -> T {
        self.repository
    }

    pub fn new(repository: T) -> (r: Self)
        ensures
            r.repository() == repository,
    {
        ServiceCatalog { repository }
    }

    /// Every service of the repository, in store order.
    pub fn get_services(&self) -> (r: Result<Vec<Service>, Error>)
        ensures
            self.repository().infallible() ==> r is Ok,
            r matches Ok(v) ==> services_model(v@) == self.repository().stored_services(),
    {
        self.repository.get_services()
    }
}

} // verus!
