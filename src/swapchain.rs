use vstd::prelude::*;

verus! {

/// Raw handles of everything built from one swapchain: the swapchain, its
/// image views, and the storage images ("canvas") the ray tracer writes into,
/// with their views and memory.
#[derive(Clone, PartialEq, Eq, Debug)]
pub struct SwapchainGeneration {
    pub swapchain: u64,
    pub image_views: Vec<u64>,
    pub canvas_images: Vec<u64>,
    pub canvas_views: Vec<u64>,
    pub canvas_memory: Vec<u64>,
}

/// Every handle of a generation, in the order they are destroyed.
pub open spec fn generation_handles(g: SwapchainGeneration) -> Seq<u64> {
    g.image_views@ + g.canvas_views@ + g.canvas_images@ + g.canvas_memory@ + seq![g.swapchain]
}

/// Model of the holder: the generation number and the live generation, if any.
pub struct SwapchainModel {
    pub generation: u64,
    pub live: Option<SwapchainGeneration>,
}

/// Owns the live generation of swapchain-dependent resources; a generation
/// is handed back for destruction exactly once.
pub struct SwapchainResources {
    generation: u64,
    live: Option<SwapchainGeneration>,
}

impl View for SwapchainResources {
    type V = SwapchainModel;

    closed spec fn view(&self) -> SwapchainModel {
        SwapchainModel { generation: self.generation, live: self.live }
    }
}

/// State after recreation: the live generation is retired and `fresh` takes its place.
pub open spec fn recreate_spec(s: SwapchainModel, fresh: SwapchainGeneration) -> (
    SwapchainModel,
    Option<SwapchainGeneration>,
) {
    (SwapchainModel { generation: (s.generation + 1) as u64, live: Some(fresh) }, s.live)
}

impl SwapchainResources {
    /// Holds the first generation.
    pub fn new(first: SwapchainGeneration) -> (r: SwapchainResources)
        ensures
            r@ == (SwapchainModel { generation: 0, live: Some(first) }),
    {
        SwapchainResources { generation: 0, live: Some(first) }
    }

    pub fn generation(&self) -> (r: u64)
        ensures
            r == self@.generation,
    {
        self.generation
    }

    pub fn live(&self) -> (r: &Option<SwapchainGeneration>)
        ensures
            *r == self@.live,
    {
        &self.live
    }

    /// Takes the live generation out for destruction (after the device is
    /// idle); `None` if it was already taken.
    pub fn retire(&mut self) -> (r: Option<SwapchainGeneration>)
        ensures
            r == old(self)@.live,
            final(self)@ == (SwapchainModel { generation: old(self)@.generation, live: None }),
    {
        self.live.take()
    }

    /// Retires the live generation and installs `fresh` under the next
    /// generation number; the retired one, if any, is returned for destruction.
    pub fn recreate(&mut self, fresh: SwapchainGeneration) -> (r: Option<SwapchainGeneration>)
        requires
            old(self)@.generation < u64::MAX,
        ensures
            (final(self)@, r) == recreate_spec(old(self)@, fresh),
    {
        let retired = self.live.take();
        self.live = Some(fresh);
        self.generation = self.generation + 1;
        retired
    }
}

/// Handles handed back for destruction by a sequence of retirements.
pub open spec fn retired_handles(r: Option<SwapchainGeneration>) -> Seq<u64> {
    match r {
        Some(g) => generation_handles(g),
        None => Seq::empty(),
    }
}

/// Recreating twice in a row leaves exactly the second new generation live;
/// the handles handed back are those of the previously live generation and of
/// the first new one, each once, and none of the live ones when all handles
/// are distinct.
pub proof fn lemma_recreate_twice(
    s: SwapchainModel,
    first: SwapchainGeneration,
    second: SwapchainGeneration,
)
    requires
        s.generation < u64::MAX - 1,
    ensures
        ({
            let (s1, r1) = recreate_spec(s, first);
            let (s2, r2) = recreate_spec(s1, second);
            &&& s2.live == Some(second)
            &&& s2.generation == s.generation + 2
            &&& r1 == s.live
            &&& r2 == Some(first)
            &&& retired_handles(r1) + retired_handles(r2) == retired_handles(s.live)
                + generation_handles(first)
        }),
        ({
            let (s1, r1) = recreate_spec(s, first);
            let (s2, r2) = recreate_spec(s1, second);
            (retired_handles(s.live) + generation_handles(first) + generation_handles(second)).no_duplicates()
                ==> (retired_handles(r1) + retired_handles(r2)).no_duplicates() && forall|h: u64|
                generation_handles(second).contains(h) ==> !(retired_handles(r1) + retired_handles(
                r2)).contains(h)
        }),
{
    let a = retired_handles(s.live);
    let b = generation_handles(first);
    let c = generation_handles(second);
    let all = a + b + c;
    if all.no_duplicates() {
        assert((a + b) =~= all.subrange(0, (a.len() + b.len()) as int));
        assert forall|h: u64| c.contains(h) implies !(a + b).contains(h) by {
            if (a + b).contains(h) {
                let i = choose|i: int| 0 <= i < (a + b).len() && (a + b)[i] == h;
                let j = choose|j: int| 0 <= j < c.len() && c[j] == h;
                assert(all[i] == h);
                assert(all[(a.len() + b.len()) + j] == h);
            }
        }
    }
}

} // verus!
