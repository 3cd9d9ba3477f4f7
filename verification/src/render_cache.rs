//! Memoized rendering of rich-text content.

use vstd::prelude::*;
use vstd::hash_map::StringHashMap;

verus! {

/// What rendering `content` does to a cache and what it returns, where
/// `computed` is what the underlying computation would give. On a hit the
/// cache stays and its artifact comes back, whatever `computed` is.
pub open spec fn rendered<A>(cache: Map<Seq<char>, A>, content: Seq<char>, computed: A) -> (
    Map<Seq<char>, A>,
    A,
) {
    if cache.contains_key(content) {
        (cache, cache[content])
    } else {
        (cache.insert(content, computed), computed)
    }
}

/// A store of rendered artifacts keyed by the content they were rendered
/// from. Nothing is ever evicted or replaced.
#[verifier::reject_recursive_types(A)]
pub struct RenderCache<A> {
    artifacts: StringHashMap<A>,
}

impl<A> View for RenderCache<A> {
    type V = Map<Seq<char>, A>;

    closed spec fn view(&self) -> Map<Seq<char>, A> {
        self.artifacts@
    }
}

impl<A> RenderCache<A> {
    /// An empty cache.
    pub fn new() -> (cache: RenderCache<A>)
        ensures
            cache@ == Map::<Seq<char>, A>::empty(),
    {
        RenderCache { artifacts: StringHashMap::new() }
    }

    /// The number of contents for which an artifact is held.
    pub fn len(&self) -> (n: usize)
        ensures
            n == self@.len(),
    {
        self.artifacts.len()
    }

    /// Whether an artifact is held for `content`.
    pub fn contains(&self, content: &str) -> (held: bool)
        ensures
            held == self@.contains_key(content@),
    {
        self.artifacts.contains_key(content)
    }

    /// The artifact held for `content`, if any.
    pub fn get(&self, content: &str) -> (artifact: Option<&A>)
        ensures
            match artifact {
                Some(a) => self@.contains_key(content@) && *a == self@[content@],
                None => !self@.contains_key(content@),
            },
    {
        self.artifacts.get(content)
    }

    /// The artifact for `content`. On a hit it is the one held, and
    /// `compute` is not called. On a miss `compute` is called once on
    /// `content`, and what it gives is stored and returned.
    pub fn render<F: Fn(&str) -> A>(&mut self, content: &str, compute: &F) -> (artifact: &A)
        requires
            !old(self)@.contains_key(content@) ==> compute.requires((content,)),
        ensures
            (final(self)@, *artifact) == rendered(old(self)@, content@, *artifact),
            !old(self)@.contains_key(content@) ==> compute.ensures((content,), *artifact),
    {
        if !self.artifacts.contains_key(content) {
            let computed = compute(content);
            self.artifacts.insert(content.to_owned(), computed);
        }
        let held = self.artifacts.get(content);
        held.unwrap()
    }
}

} // verus!
