//! Asset preloading: the manifest lists every asset file; each is requested
//! once, and a queue of handles tracks which ones are still loading so the
//! loading screen can wait for them.
use vstd::prelude::*;
use std::collections::VecDeque;

verus! {

broadcast use vstd::std_specs::vecdeque::group_vec_dequeue_axioms;

/// The items of `s` whose flag in `f` equals `want`, in order.
pub open spec fn select<H>(s: Seq<H>, f: Seq<bool>, want: bool) -> Seq<H>
    decreases s.len(),
{
    if s.len() == 0 {
        seq![]
    } else {
        let prev = select(s.drop_last(), f.drop_last(), want);
        if f[s.len() - 1] == want {
            prev.push(s.last())
        } else {
            prev
        }
    }
}

pub proof fn lemma_select_len<H>(s: Seq<H>, f: Seq<bool>)
    requires
        s.len() == f.len(),
    ensures
        select(s, f, true).len() + select(s, f, false).len() == s.len(),
    decreases s.len(),
{
    if s.len() > 0 {
        lemma_select_len(s.drop_last(), f.drop_last());
    }
}

/// Handles that the loading screen waits for. Waiting handles are cycled
/// through in order; loaded ones move to `finished`.
pub struct ResourceHandles<H> {
    pub waiting: VecDeque<H>,
    pub finished: Vec<H>,
}

impl<H> ResourceHandles<H> {
    /// Nothing tracked.
    pub fn new() -> (r: Self)
        ensures
            r.waiting@.len() == 0,
            r.finished@.len() == 0,
    {
        ResourceHandles { waiting: VecDeque::new(), finished: Vec::new() }
    }

    /// Tracks a handle so the loading screen waits for it.
    pub fn track(&mut self, handle: H)
        ensures
            final(self).waiting@ == old(self).waiting@.push(handle),
            final(self).finished@ == old(self).finished@,
    {
        self.waiting.push_back(handle);
    }

    /// True when every tracked handle has finished loading.
    pub fn is_all_done(&self) -> (r: bool)
        ensures
            r == (self.waiting@.len() == 0),
    {
        self.waiting.len() == 0
    }

    /// Number of handles tracked so far.
    pub fn total_count(&self) -> (r: usize)
        requires
            self.waiting@.len() + self.finished@.len() <= usize::MAX,
        ensures
            r == self.waiting@.len() + self.finished@.len(),
    {
        self.waiting.len() + self.finished.len()
    }

    /// Number of handles that finished loading.
    pub fn finished_count(&self) -> (r: usize)
        ensures
            r == self.finished@.len(),
    {
        self.finished.len()
    }

    /// Goes once through the waiting handles: `loaded[i]` tells whether the
    /// `i`-th waiting handle has loaded with its dependencies. Loaded ones
    /// move to `finished` in order; the others stay waiting in order.
    pub fn promote_loaded(&mut self, loaded: &Vec<bool>)
        requires
            loaded@.len() == old(self).waiting@.len(),
        ensures
            final(self).finished@ == old(self).finished@ + select(
                old(self).waiting@,
                loaded@,
                true,
            ),
            final(self).waiting@ == select(old(self).waiting@, loaded@, false),
    {
        let n = self.waiting.len();
        let ghost w0 = self.waiting@;
        let ghost f0 = self.finished@;
        let mut i: usize = 0;
        while i < n
            invariant
                n == w0.len(),
                loaded@.len() == n,
                0 <= i <= n,
                self.waiting@ == w0.subrange(i as int, n as int) + select(
                    w0.take(i as int),
                    loaded@.take(i as int),
                    false,
                ),
                self.finished@ == f0 + select(w0.take(i as int), loaded@.take(i as int), true),
            decreases n - i,
        {
            let ghost before = self.waiting@;
            assert(before[0] == w0[i as int]);
            let h = self.waiting.pop_front().unwrap();
            proof {
                assert(w0.take(i + 1).drop_last() =~= w0.take(i as int));
                assert(loaded@.take(i + 1).drop_last() =~= loaded@.take(i as int));
                assert(w0.take(i + 1).last() == w0[i as int]);
            }
            if loaded[i] {
                self.finished.push(h);
                proof {
                    assert(self.waiting@ =~= w0.subrange(i + 1, n as int) + select(
                        w0.take(i + 1),
                        loaded@.take(i + 1),
                        false,
                    ));
                }
            } else {
                self.waiting.push_back(h);
                proof {
                    assert(self.waiting@ =~= w0.subrange(i + 1, n as int) + select(
                        w0.take(i + 1),
                        loaded@.take(i + 1),
                        false,
                    ));
                }
            }
            i = i + 1;
        }
        proof {
            assert(w0.take(n as int) =~= w0);
            assert(loaded@.take(n as int) =~= loaded@);
            assert(w0.subrange(n as int, n as int) =~= Seq::<H>::empty());
            assert(self.waiting@ =~= select(w0, loaded@, false));
        }
    }
}

/// Loading is done exactly when every tracked handle has finished: no
/// handle waits just when the finished count equals the total, and the
/// finished count never exceeds the total.
pub proof fn law_all_done<H>(h: ResourceHandles<H>)
    ensures
        (h.waiting@.len() == 0) <==> (h.finished@.len() == h.waiting@.len() + h.finished@.len()),
        h.finished@.len() <= h.waiting@.len() + h.finished@.len(),
{
}

/// A promotion pass neither loses nor duplicates handles: the total stays
/// the same, the finished count never drops, and once every waiting handle
/// has loaded the loading is done.
pub proof fn law_promotion_keeps_total<H>(w: Seq<H>, f: Seq<H>, loaded: Seq<bool>)
    requires
        w.len() == loaded.len(),
    ensures
        (f + select(w, loaded, true)).len() + select(w, loaded, false).len() == f.len() + w.len(),
        (f + select(w, loaded, true)).len() >= f.len(),
        (forall|i: int| 0 <= i < loaded.len() ==> loaded[i]) ==> select(w, loaded, false).len()
            == 0,
    decreases w.len(),
{
    lemma_select_len(w, loaded);
    if (forall|i: int| 0 <= i < loaded.len() ==> loaded[i]) && w.len() > 0 {
        law_promotion_keeps_total(w.drop_last(), f, loaded.drop_last());
    }
}

/// The asset files to preload, by kind, as listed in the game's asset list.
#[derive(Clone, Debug, PartialEq, Eq)]
pub struct AssetManifest {
    pub images: Vec<String>,
    pub audio: Vec<String>,
    pub fonts: Vec<String>,
    pub shaders: Vec<String>,
    pub data: Vec<String>,
}

/// Kind of a preloaded asset.
#[derive(Clone, Copy, Debug, PartialEq, Eq, Structural)]
pub enum AssetKind {
    Image,
    Font,
    Audio,
    Shader,
    Data,
}

/// One asset to request.
#[derive(Clone, Debug, PartialEq, Eq)]
pub struct LoadRequest {
    pub kind: AssetKind,
    pub path: String,
}

pub open spec fn requests_of(kind: AssetKind, paths: Seq<String>) -> Seq<(AssetKind, Seq<char>)> {
    paths.map_values(|p: String| (kind, p@))
}

pub open spec fn plan_view(plan: Seq<LoadRequest>) -> Seq<(AssetKind, Seq<char>)> {
    plan.map_values(|r: LoadRequest| (r.kind, r.path@))
}

/// What to preload from a manifest: images, fonts, audio (only when the
/// audio backend is built in), shaders, then data files, each list in
/// manifest order.
pub open spec fn manifest_plan(m: AssetManifest, with_audio: bool) -> Seq<(AssetKind, Seq<char>)> {
    requests_of(AssetKind::Image, m.images@) + requests_of(AssetKind::Font, m.fonts@) + (if with_audio {
        requests_of(AssetKind::Audio, m.audio@)
    } else {
        seq![]
    }) + requests_of(AssetKind::Shader, m.shaders@) + requests_of(AssetKind::Data, m.data@)
}

fn push_requests(plan: &mut Vec<LoadRequest>, kind: AssetKind, paths: &Vec<String>)
    ensures
        plan_view(final(plan)@) == plan_view(old(plan)@) + requests_of(kind, paths@),
{
    let mut i: usize = 0;
    while i < paths.len()
        invariant
            0 <= i <= paths@.len(),
            plan_view(plan@) == plan_view(old(plan)@) + requests_of(kind, paths@.take(i as int)),
        decreases paths.len() - i,
    {
        let ghost before = plan@;
        plan.push(LoadRequest { kind, path: paths[i].clone() });
        proof {
            assert(plan_view(plan@) =~= plan_view(before).push((kind, paths@[i as int]@)));
            assert(requests_of(kind, paths@.take(i + 1)) =~= requests_of(
                kind,
                paths@.take(i as int),
            ).push((kind, paths@[i as int]@)));
        }
        i = i + 1;
    }
    proof {
        assert(paths@.take(paths@.len() as int) =~= paths@);
    }
}

impl AssetManifest {
    /// The preload requests for this manifest.
    pub fn load_plan(&self, with_audio: bool) -> (plan: Vec<LoadRequest>)
        ensures
            plan_view(plan@) == manifest_plan(*self, with_audio),
    {
        let mut plan: Vec<LoadRequest> = Vec::new();
        proof {
            assert(plan_view(plan@) =~= seq![]);
        }
        push_requests(&mut plan, AssetKind::Image, &self.images);
        push_requests(&mut plan, AssetKind::Font, &self.fonts);
        if with_audio {
            push_requests(&mut plan, AssetKind::Audio, &self.audio);
        }
        let ghost mid = plan_view(plan@);
        push_requests(&mut plan, AssetKind::Shader, &self.shaders);
        push_requests(&mut plan, AssetKind::Data, &self.data);
        proof {
            assert(manifest_plan(*self, with_audio) =~= plan_view(plan@));
        }
        plan
    }
}

} // verus!
