//! Frame compositor: backing-store lifecycle and per-frame layer assembly.
//!
//! The engine renders each layer into a backing store the compositor
//! allocated, then hands back an ordered layer list to present.  The
//! compositor owns every store from creation until explicit collection.
//! Stores are named by ids issued from a counter that never repeats, so a
//! second collection of the same handle is detected and reported as the
//! contract violation it is, rather than passing as a silent success.
//!
//! Presenting a frame enqueues one texture copy per backing-store layer, in
//! ascending layer order, then submits the command buffer and requests
//! presentation of the surface, exactly once each; see `present_layers`'
//! contract over the GPU trace.  Each copy is clamped into its store's
//! allocated size and the acquired frame's bounds, so a stale rectangle — a
//! layer list racing a window resize — draws what fits instead of tripping
//! the GPU's range validation.  Platform-view layers are not drawn: they
//! are reported back to the caller, and their target region stays untouched.

use vstd::prelude::*;

verus! {

use crate::gpu::{
    encoder_copy, encoder_finish, encoder_new, queue_present, queue_submit, surface_acquire,
    texture_destroy, texture_new, CopyOp, Gpu, GpuOp, MAX_TEXTURE_DIM,
};

/// One live backing store: its handle and the size it was allocated with.
#[derive(Clone, Copy, PartialEq, Eq, Structural, Debug)]
pub struct StoreEntry {
    pub id: u64,
    pub width: u32,
    pub height: u32,
}

/// The ownership table of backing stores.  Ids are issued from `next_id`
/// and never reused; an id below `next_id` that is no longer live was
/// already collected.
pub struct StoreTable {
    pub entries: Vec<StoreEntry>,
    pub next_id: u64,
}

/// What collecting a handle came to.
#[derive(Clone, Copy, PartialEq, Eq, Structural, Debug)]
pub enum CollectOutcome {
    /// The store was live and is now released.
    Collected,
    /// The handle was already collected once: a contract violation to
    /// surface loudly, not a silent success.
    AlreadyCollected,
    /// The handle was never issued: equally a contract violation.
    NeverIssued,
}

impl StoreTable {
    /// The table's invariant: live ids are distinct and below the counter.
    pub open spec fn wf(self) -> bool {
        &&& forall|i: int, j: int|
            0 <= i < j < self.entries@.len() ==> (#[trigger] self.entries@[i]).id != (
            #[trigger] self.entries@[j]).id
        &&& forall|i: int|
            0 <= i < self.entries@.len() ==> (#[trigger] self.entries@[i]).id < self.next_id
    }

    /// A handle names a live store.
    pub open spec fn is_live(self, id: u64) -> bool {
        exists|i: int| 0 <= i < self.entries@.len() && (#[trigger] self.entries@[i]).id == id
    }

    /// The index of a live store's entry.
    pub open spec fn live_index(self, id: u64) -> int {
        choose|i: int| 0 <= i < self.entries@.len() && (#[trigger] self.entries@[i]).id == id
    }

    pub fn new() -> (r: StoreTable)
        ensures
            r.wf(),
            r.entries@.len() == 0,
            r.next_id == 0,
    {
        StoreTable { entries: Vec::new(), next_id: 0 }
    }

    /// The index of a live store's entry, if the handle is live.
    pub fn find(&self, id: u64) -> (r: Option<usize>)
        ensures
            match r {
                Some(i) => 0 <= i < self.entries@.len() && self.entries@[i as int].id == id,
                None => !self.is_live(id),
            },
    {
        let mut i: usize = 0;
        while i < self.entries.len()
            invariant
                i <= self.entries@.len(),
                forall|j: int| 0 <= j < i ==> (#[trigger] self.entries@[j]).id != id,
            decreases self.entries@.len() - i,
        {
            if self.entries[i].id == id {
                return Some(i);
            }
            i = i + 1;
        }
        None
    }

    /// Issue the next handle for a store of the given size.
    pub fn create(&mut self, width: u32, height: u32) -> (id: u64)
        requires
            old(self).wf(),
            old(self).next_id < u64::MAX,
        ensures
            final(self).wf(),
            id == old(self).next_id,
            final(self).entries@ == old(self).entries@.push(StoreEntry { id, width, height }),
            final(self).next_id == old(self).next_id + 1,
    {
        let id = self.next_id;
        self.entries.push(StoreEntry { id, width, height });
        self.next_id = id + 1;
        id
    }

    /// Drop a live handle, or report which contract violation the caller
    /// committed: collecting twice, or collecting what was never issued.
    pub fn collect(&mut self, id: u64) -> (r: (CollectOutcome, Option<usize>))
        requires
            old(self).wf(),
        ensures
            final(self).wf(),
            final(self).next_id == old(self).next_id,
            old(self).is_live(id) ==> {
                &&& r == (CollectOutcome::Collected, Some(old(self).live_index(id) as usize))
                &&& final(self).entries@ == old(self).entries@.remove(old(self).live_index(id))
            },
            !old(self).is_live(id) && id < old(self).next_id ==> r == (
                CollectOutcome::AlreadyCollected,
                Option::<usize>::None,
            ) && final(self).entries@ == old(self).entries@,
            !old(self).is_live(id) && id >= old(self).next_id ==> r == (
                CollectOutcome::NeverIssued,
                Option::<usize>::None,
            ) && final(self).entries@ == old(self).entries@,
    {
        match self.find(id) {
            Some(i) => {
                proof {
                    let w = self.live_index(id);
                    assert(0 <= w < self.entries@.len() && self.entries@[w].id == id);
                    if w != i as int {
                        assert(false);
                    }
                }
                self.entries.remove(i);
                proof {
                    assert forall|a: int, b: int|
                        0 <= a < b < self.entries@.len() implies (#[trigger] self.entries@[a]).id
                        != (#[trigger] self.entries@[b]).id by {
                        let ao = if a < i as int {
                            a
                        } else {
                            a + 1
                        };
                        let bo = if b < i as int {
                            b
                        } else {
                            b + 1
                        };
                        assert(self.entries@[a] == old(self).entries@[ao]);
                        assert(self.entries@[b] == old(self).entries@[bo]);
                    }
                    assert forall|a: int| 0 <= a < self.entries@.len() implies (
                    #[trigger] self.entries@[a]).id < self.next_id by {
                        let ao = if a < i as int {
                            a
                        } else {
                            a + 1
                        };
                        assert(self.entries@[a] == old(self).entries@[ao]);
                    }
                }
                (CollectOutcome::Collected, Some(i))
            },
            None => {
                if id < self.next_id {
                    (CollectOutcome::AlreadyCollected, None)
                } else {
                    (CollectOutcome::NeverIssued, None)
                }
            },
        }
    }
}

/// One element of a frame's composition, bottom to top by list index.
#[derive(Clone, Copy, PartialEq, Eq, Structural, Debug)]
pub enum LayerContent {
    /// A backing store the engine rendered into, by handle.
    Store(u64),
    /// Embedded native content, by the engine's identifier; not drawn here.
    PlatformView(i64),
}

/// A layer of one frame: its content and target rectangle in physical
/// pixels.
#[derive(Clone, Copy, PartialEq, Eq, Structural, Debug)]
pub struct Layer {
    pub content: LayerContent,
    pub x: u32,
    pub y: u32,
    pub width: u32,
    pub height: u32,
}

/// The store handle a layer names; zero for platform views, which name
/// none and copy nothing.
pub open spec fn layer_store_id(l: Layer) -> u64 {
    match l.content {
        LayerContent::Store(id) => id,
        LayerContent::PlatformView(_) => 0,
    }
}

pub open spec fn min_u32(a: u32, b: u32) -> u32 {
    if a <= b {
        a
    } else {
        b
    }
}

/// The width a live store was allocated with.
pub open spec fn store_width(t: StoreTable, id: u64) -> u32 {
    t.entries@[t.live_index(id)].width
}

/// The height a live store was allocated with.
pub open spec fn store_height(t: StoreTable, id: u64) -> u32 {
    t.entries@[t.live_index(id)].height
}

/// The copy a backing-store layer asks for, clamped into the store's
/// allocated size and the acquired frame's bounds so that the GPU's range
/// validation always holds: the origin is pulled inside the frame and the
/// extent cut to what both textures cover.  A layer that fits is copied
/// exactly as requested.
pub open spec fn clamped_copy(l: Layer, sw: u32, sh: u32, fw: u32, fh: u32) -> CopyOp {
    let x = min_u32(l.x, fw);
    let y = min_u32(l.y, fh);
    CopyOp {
        store: layer_store_id(l),
        x,
        y,
        width: min_u32(min_u32(l.width, sw), (fw - x) as u32),
        height: min_u32(min_u32(l.height, sh), (fh - y) as u32),
    }
}

/// The clamped copy a layer issues, as `clamped_copy` fixes it, given the
/// store's allocated size and the frame's size.
pub fn clamp_copy_rect(l: &Layer, sw: u32, sh: u32, fw: u32, fh: u32) -> (r: CopyOp)
    ensures
        r == clamped_copy(*l, sw, sh, fw, fh),
{
    let x = if l.x <= fw {
        l.x
    } else {
        fw
    };
    let y = if l.y <= fh {
        l.y
    } else {
        fh
    };
    let cw = if l.width <= sw {
        l.width
    } else {
        sw
    };
    let cw = if cw <= fw - x {
        cw
    } else {
        fw - x
    };
    let ch = if l.height <= sh {
        l.height
    } else {
        sh
    };
    let ch = if ch <= fh - y {
        ch
    } else {
        fh - y
    };
    let id = match l.content {
        LayerContent::Store(store_id) => store_id,
        LayerContent::PlatformView(_) => 0,
    };
    CopyOp { store: id, x, y, width: cw, height: ch }
}

/// The backing-store layers of a frame, in ascending layer order.
pub open spec fn store_layers(layers: Seq<Layer>) -> Seq<Layer>
    decreases layers.len(),
{
    if layers.len() == 0 {
        Seq::empty()
    } else {
        let rest = store_layers(layers.drop_last());
        match layers.last().content {
            LayerContent::Store(_) => rest.push(layers.last()),
            LayerContent::PlatformView(_) => rest,
        }
    }
}

/// The texture copies presenting a frame of the given size issues: one per
/// backing-store layer, in ascending layer order, each clamped; platform
/// views copy nothing.
pub open spec fn frame_copies(layers: Seq<Layer>, t: StoreTable, fw: u32, fh: u32) -> Seq<GpuOp> {
    store_layers(layers).map_values(
        |l: Layer|
            GpuOp::CopyTexture(
                clamped_copy(
                    l,
                    store_width(t, layer_store_id(l)),
                    store_height(t, layer_store_id(l)),
                    fw,
                    fh,
                ),
            ),
    )
}

/// The platform-view identifiers of a frame, in ascending layer order.
pub open spec fn platform_views(layers: Seq<Layer>) -> Seq<i64>
    decreases layers.len(),
{
    if layers.len() == 0 {
        Seq::empty()
    } else {
        let rest = platform_views(layers.drop_last());
        match layers.last().content {
            LayerContent::Store(_) => rest,
            LayerContent::PlatformView(v) => rest.push(v),
        }
    }
}

/// Every backing-store layer names a live store.
pub open spec fn all_stores_live(layers: Seq<Layer>, table: StoreTable) -> bool {
    forall|i: int|
        0 <= i < layers.len() ==> match (#[trigger] layers[i]).content {
            LayerContent::Store(id) => table.is_live(id),
            LayerContent::PlatformView(_) => true,
        }
}

/// On a frame whose layers are all backing stores, every layer is kept.
pub proof fn lemma_store_layers_all_stores(layers: Seq<Layer>)
    requires
        forall|i: int| 0 <= i < layers.len() ==> (#[trigger] layers[i]).content is Store,
    ensures
        store_layers(layers) == layers,
    decreases layers.len(),
{
    if layers.len() > 0 {
        assert forall|i: int| 0 <= i < layers.drop_last().len() implies (
        #[trigger] layers.drop_last()[i]).content is Store by {
            assert(layers.drop_last()[i] == layers[i]);
        }
        lemma_store_layers_all_stores(layers.drop_last());
        assert(store_layers(layers) =~= layers);
    }
}

/// On a frame whose layers are all backing stores, the copies are exactly
/// one per layer, the i-th copy drawn from the i-th layer.
pub proof fn lemma_frame_copies_all_stores(layers: Seq<Layer>, t: StoreTable, fw: u32, fh: u32)
    requires
        forall|i: int| 0 <= i < layers.len() ==> (#[trigger] layers[i]).content is Store,
    ensures
        frame_copies(layers, t, fw, fh).len() == layers.len(),
        forall|i: int|
            0 <= i < layers.len() ==> frame_copies(layers, t, fw, fh)[i] == GpuOp::CopyTexture(
                clamped_copy(
                    #[trigger] layers[i],
                    store_width(t, layer_store_id(layers[i])),
                    store_height(t, layer_store_id(layers[i])),
                    fw,
                    fh,
                ),
            ),
{
    lemma_store_layers_all_stores(layers);
}

/// A frame's copy list holds texture copies only, so the trace a successful
/// present appends holds exactly one Submit and one Present, both after
/// every copy of the frame.
pub proof fn lemma_frame_copies_only_copies(layers: Seq<Layer>, t: StoreTable, fw: u32, fh: u32)
    ensures
        forall|i: int|
            0 <= i < frame_copies(layers, t, fw, fh).len() ==> (#[trigger] frame_copies(
                layers,
                t,
                fw,
                fh,
            )[i]) is CopyTexture,
{
}

/// Why a frame could not be presented.
#[derive(Clone, Copy, PartialEq, Eq, Structural, Debug)]
pub enum PresentError {
    /// A layer names a store that is not live: a contract violation of the
    /// caller.  Nothing was drawn.
    UnknownStore(u64),
    /// No presentable frame could be acquired from the surface now, or the
    /// surface is not configured the way the compositor draws (BGRA8, copy
    /// destination).  Nothing was drawn; the caller may retry on the next
    /// draw cycle.
    FrameUnavailable,
}

/// What a presented frame reported back.
pub struct PresentReport {
    /// The acquired frame's size, into which the copies were clamped.
    pub frame_width: u32,
    pub frame_height: u32,
    /// The platform-view layers that were skipped, in layer order.
    pub platform_views: Vec<i64>,
}

/// Owns the backing stores and assembles each frame onto the surface.
pub struct Compositor {
    /// The ownership table: one entry per live store.
    pub table: StoreTable,
    /// The GPU texture of each live store, parallel to the table's entries.
    pub textures: Vec<wgpu::Texture>,
    /// The GPU backend and its command trace.
    pub gpu: Gpu,
}

impl Compositor {
    /// Live stores and textures correspond one to one.
    pub open spec fn wf(self) -> bool {
        &&& self.table.wf()
        &&& self.textures@.len() == self.table.entries@.len()
    }

    /// A compositor with no stores and an empty command trace.
    pub fn new(device: wgpu::Device, queue: wgpu::Queue, surface: wgpu::Surface<'static>) -> (r:
        Compositor)
        ensures
            r.wf(),
            r.table.entries@.len() == 0,
            r.table.next_id == 0,
            r.gpu.trace@ == Seq::<GpuOp>::empty(),
    {
        Compositor {
            table: StoreTable::new(),
            textures: Vec::new(),
            gpu: Gpu { device, queue, surface, trace: Ghost(Seq::empty()) },
        }
    }

    /// Allocate a GPU texture of the requested size and issue a handle for
    /// it.  `None` is the negative acknowledgement the engine expects when
    /// the request cannot be satisfied — a size outside the device's limits,
    /// or an allocation the device reports as out of memory — rather than a
    /// raise.
    pub fn create_backing_store(&mut self, width: u32, height: u32) -> (r: Option<u64>)
        requires
            old(self).wf(),
            old(self).table.next_id < u64::MAX,
        ensures
            final(self).wf(),
            final(self).gpu.trace@ == old(self).gpu.trace@,
            !size_acceptable(width, height) ==> r is None,
            r is None ==> final(self).table.entries@ == old(self).table.entries@
                && final(self).table.next_id == old(self).table.next_id,
            r matches Some(id) ==> {
                &&& size_acceptable(width, height)
                &&& id == old(self).table.next_id
                &&& final(self).table.entries@ == old(self).table.entries@.push(
                    StoreEntry { id, width, height },
                )
                &&& final(self).table.next_id == old(self).table.next_id + 1
            },
    {
        if width == 0 || height == 0 || width > MAX_TEXTURE_DIM || height > MAX_TEXTURE_DIM {
            return None;
        }
        match texture_new(&self.gpu.device, width, height) {
            Some(texture) => {
                let id = self.table.create(width, height);
                self.textures.push(texture);
                Some(id)
            },
            None => None,
        }
    }

    /// Release a store's GPU texture and forget its handle.  A handle that
    /// is not live is a contract violation, told apart as already collected
    /// or never issued; the table is left as it was.
    pub fn collect_backing_store(&mut self, id: u64) -> (r: CollectOutcome)
        requires
            old(self).wf(),
        ensures
            final(self).wf(),
            final(self).gpu.trace@ == old(self).gpu.trace@,
            final(self).table.next_id == old(self).table.next_id,
            old(self).table.is_live(id) ==> r == CollectOutcome::Collected
                && final(self).table.entries@ == old(self).table.entries@.remove(
                old(self).table.live_index(id),
            ),
            !old(self).table.is_live(id) && id < old(self).table.next_id ==> r
                == CollectOutcome::AlreadyCollected && final(self).table.entries@
                == old(self).table.entries@,
            !old(self).table.is_live(id) && id >= old(self).table.next_id ==> r
                == CollectOutcome::NeverIssued && final(self).table.entries@
                == old(self).table.entries@,
    {
        let (outcome, index) = self.table.collect(id);
        match index {
            Some(i) => {
                let texture = self.textures.remove(i);
                texture_destroy(texture);
            },
            None => {},
        }
        outcome
    }

    /// Present one frame: validate the layer list, acquire a frame, enqueue
    /// one clamped copy per backing-store layer in ascending layer order,
    /// then submit the command buffer and request presentation, exactly
    /// once each — the trace grows by the frame's copies followed by one
    /// Submit and one Present.  Platform views are skipped and reported.
    ///
    /// A layer naming a store that is not live aborts the frame before any
    /// GPU work; failure to acquire a frame happens only on a layer list
    /// whose stores are all live, and also draws nothing.
    pub fn present_layers(&mut self, layers: &Vec<Layer>) -> (r: Result<
        PresentReport,
        PresentError,
    >)
        requires
            old(self).wf(),
        ensures
            final(self).wf(),
            final(self).table.entries@ == old(self).table.entries@,
            final(self).table.next_id == old(self).table.next_id,
            r matches Ok(rep) ==> {
                &&& all_stores_live(layers@, old(self).table)
                &&& final(self).gpu.trace@ == old(self).gpu.trace@ + frame_copies(
                    layers@,
                    old(self).table,
                    rep.frame_width,
                    rep.frame_height,
                ) + seq![GpuOp::Submit, GpuOp::Present]
                &&& rep.platform_views@ == platform_views(layers@)
            },
            r matches Err(e) ==> {
                &&& final(self).gpu.trace@ == old(self).gpu.trace@
                &&& e matches PresentError::UnknownStore(id) ==> !old(self).table.is_live(id) && (
                exists|i: int|
                    0 <= i < layers@.len() && (#[trigger] layers@[i]).content
                        == LayerContent::Store(id))
                &&& e is FrameUnavailable ==> all_stores_live(layers@, old(self).table)
            },
    {
        let mut plan: Vec<(usize, Layer)> = Vec::new();
        let mut views: Vec<i64> = Vec::new();
        let mut k: usize = 0;
        proof {
            assert(plan@.map_values(|p: (usize, Layer)| p.1) =~= store_layers(
                layers@.subrange(0, 0),
            ));
            assert(views@ =~= platform_views(layers@.subrange(0, 0)));
        }
        while k < layers.len()
            invariant
                self == old(self),
                old(self).wf(),
                k <= layers@.len(),
                plan@.map_values(|p: (usize, Layer)| p.1) == store_layers(
                    layers@.subrange(0, k as int),
                ),
                views@ == platform_views(layers@.subrange(0, k as int)),
                forall|j: int|
                    0 <= j < plan@.len() ==> (#[trigger] plan@[j]).0 < old(self).textures@.len()
                        && plan@[j].1.content is Store
                        && old(self).table.entries@[plan@[j].0 as int].id == layer_store_id(
                        plan@[j].1,
                    ),
                forall|i: int|
                    0 <= i < k ==> match (#[trigger] layers@[i]).content {
                        LayerContent::Store(id) => old(self).table.is_live(id),
                        LayerContent::PlatformView(_) => true,
                    },
            decreases layers@.len() - k,
        {
            let l = layers[k];
            match l.content {
                LayerContent::Store(id) => {
                    match self.table.find(id) {
                        Some(ti) => {
                            plan.push((ti, l));
                        },
                        None => {
                            proof {
                                assert(0 <= k < layers@.len() && layers@[k as int].content
                                    == LayerContent::Store(id));
                            }
                            return Err(PresentError::UnknownStore(id));
                        },
                    }
                },
                LayerContent::PlatformView(v) => {
                    views.push(v);
                },
            }
            proof {
                let pre = layers@.subrange(0, k as int);
                let post = layers@.subrange(0, k + 1 as int);
                assert(post.drop_last() =~= pre);
                assert(post.last() == layers@[k as int]);
                assert(plan@.map_values(|p: (usize, Layer)| p.1) =~= store_layers(post));
                assert(views@ =~= platform_views(post));
            }
            k = k + 1;
        }
        proof {
            assert(layers@.subrange(0, layers@.len() as int) =~= layers@);
        }
        let (frame, frame_width, frame_height) = match surface_acquire(&self.gpu.surface) {
            Some(acquired) => acquired,
            None => {
                return Err(PresentError::FrameUnavailable);
            },
        };
        let ghost copies = frame_copies(layers@, old(self).table, frame_width, frame_height);
        let mut enc = encoder_new(&self.gpu.device);
        let mut j: usize = 0;
        proof {
            assert(copies.subrange(0, 0) =~= Seq::<GpuOp>::empty());
            assert(self.gpu.trace@ =~= old(self).gpu.trace@ + copies.subrange(0, 0));
        }
        while j < plan.len()
            invariant
                j <= plan@.len(),
                old(self).wf(),
                self.table == old(self).table,
                self.textures == old(self).textures,
                self.gpu.device == old(self).gpu.device,
                self.gpu.queue == old(self).gpu.queue,
                self.gpu.surface == old(self).gpu.surface,
                copies == frame_copies(layers@, old(self).table, frame_width, frame_height),
                copies.len() == plan@.len(),
                plan@.map_values(|p: (usize, Layer)| p.1) == store_layers(layers@),
                forall|j2: int|
                    0 <= j2 < plan@.len() ==> (#[trigger] plan@[j2]).0
                        < old(self).textures@.len() && plan@[j2].1.content is Store
                        && old(self).table.entries@[plan@[j2].0 as int].id == layer_store_id(
                        plan@[j2].1,
                    ),
                self.gpu.trace@ == old(self).gpu.trace@ + copies.subrange(0, j as int),
            decreases plan@.len() - j,
        {
            let (ti, l) = plan[j];
            let e = self.table.entries[ti];
            let op = clamp_copy_rect(&l, e.width, e.height, frame_width, frame_height);
            proof {
                let lj = plan@[j as int].1;
                let idj = layer_store_id(lj);
                assert((old(self).table.entries@[ti as int]).id == idj);
                assert(old(self).table.is_live(idj));
                let w = old(self).table.live_index(idj);
                assert(0 <= w < old(self).table.entries@.len() && old(self).table.entries@[w].id
                    == idj);
                if w != ti as int {
                    assert(false);
                }
                assert(op == clamped_copy(
                    lj,
                    store_width(old(self).table, idj),
                    store_height(old(self).table, idj),
                    frame_width,
                    frame_height,
                ));
                assert(store_layers(layers@)[j as int] == lj);
                assert(copies[j as int] == GpuOp::CopyTexture(op));
            }
            encoder_copy(&mut self.gpu, &mut enc, &self.textures[ti], &frame, op);
            proof {
                assert(copies.subrange(0, j + 1 as int) =~= copies.subrange(0, j as int).push(
                    GpuOp::CopyTexture(op),
                ));
            }
            j = j + 1;
        }
        proof {
            assert(copies.subrange(0, plan@.len() as int) =~= copies);
        }
        let buf = encoder_finish(enc);
        queue_submit(&mut self.gpu, buf);
        queue_present(&mut self.gpu, frame);
        proof {
            assert(self.gpu.trace@ =~= old(self).gpu.trace@ + copies + seq![
                GpuOp::Submit,
                GpuOp::Present,
            ]);
        }
        Ok(PresentReport { frame_width, frame_height, platform_views: views })
    }
}

/// A backing-store request within the device's limits.
pub open spec fn size_acceptable(width: u32, height: u32) -> bool {
    1 <= width <= MAX_TEXTURE_DIM && 1 <= height <= MAX_TEXTURE_DIM
}

} // verus!
