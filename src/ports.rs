use vstd::prelude::*;
use crate::models::{
    BlogPost, PostModel, Service, ServiceModel, dates_wf, find_post, posts_model, services_model,
};

verus! {

/// Why a repository read failed.
#[derive(Debug)]
pub enum Error {
    /// The backing store could not answer.
    Database(String),
    /// The requested entity does not exist.
    NotFound,
}

/// The value of an optional post.
pub open spec fn post_option_model(o: Option<BlogPost>) -> Option<PostModel> {
    match o {
        Some(p) => Some(p@),
        None => None,
    }
}

/// Read access to the stored blog posts.
pub trait BlogRepository {
    /// The posts the store holds, in store order.
    spec fn stored_posts(&self) -> Seq<PostModel>;

    /// Whether every read of this store succeeds.
    spec fn infallible(&self) -> bool;

    /// Every stored post, in store order.
    fn get_posts(&self) -> (r: Result<Vec<BlogPost>, Error>)
        ensures
            self.infallible() ==> r is Ok,
            r matches Ok(v) ==> posts_model(v@) == self.stored_posts() && dates_wf(posts_model(v@)),
    ;

    /// The first stored post whose id equals `id` exactly, if any.
    fn get_post(&self, id: &str) -> (r: Result<Option<BlogPost>, Error>)
        ensures
            self.infallible() ==> r is Ok,
            r matches Ok(o) ==> post_option_model(o) == find_post(self.stored_posts(), id@) && (
            o matches Some(p) ==> p.published_at.wf()),
    ;
}

/// Read access to the stored services.
pub trait ServiceRepository {
    /// The services the store holds, in store order.
    spec fn stored_services(&self) -> Seq<ServiceModel>;

    /// Whether every read of this store succeeds.
    spec fn infallible(&self) -> bool;

    /// Every stored service, in store order.
    fn get_services(&self) -> (r: Result<Vec<Service>, Error>)
        ensures
            self.infallible() ==> r is Ok,
            r matches Ok(v) ==> services_model(v@) == self.stored_services(),
    ;
}

} // verus!
