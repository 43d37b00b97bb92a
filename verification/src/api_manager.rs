//! The registry of API methods: each name with the handler bound to it.

use crate::text_map::TextMap;
use vstd::prelude::*;

verus! {

/// The handlers registered so far, by the name of their method. `H` is
/// what stands for a handler.
pub struct ApiManager<H> {
    handlers: TextMap<H>,
}

impl<H> View for ApiManager<H> {
    type V = Map<Seq<char>, H>;

    closed spec fn view(&self) -> Map<Seq<char>, H> {
        self.handlers@
    }
}

impl<H> ApiManager<H> {
    /// A registry without handlers.
    pub fn new() -> (manager: Self)
        ensures
            manager@ == Map::<Seq<char>, H>::empty(),
    {
        ApiManager { handlers: TextMap::new() }
    }

    /// Binds `handler` to `name`. A handler bound to that name before is
    /// replaced: the last registration wins.
    pub fn register_api(&mut self, name: &str, handler: H)
        ensures
            final(self)@ == old(self)@.insert(name@, handler),
    {
        let _ = self.handlers.insert(name.to_owned(), handler);
    }

    /// Whether a handler is bound to `name`.
    pub fn is_registered(&self, name: &str) -> (bound: bool)
        ensures
            bound == self@.contains_key(name@),
    {
        self.handlers.contains_key(name)
    }

    /// The handler bound to exactly this name, if there is one.
    pub fn lookup(&self, name: &str) -> (handler: Option<&H>)
        ensures
            handler == if self@.contains_key(name@) {
                Some(&self@[name@])
            } else {
                None
            },
    {
        self.handlers.get(name)
    }
}

} // verus!
