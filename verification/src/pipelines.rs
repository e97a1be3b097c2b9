//! The typed GPU-pipeline cache. A `Pipelines` bundle is expensive to
//! compile and immutable afterwards, so windows whose components share a
//! kind share one bundle. The registry holds only non-owning references:
//! liveness is owned exclusively by the strong handles handed to
//! components, and a bundle whose last strong handle is dropped is freed,
//! leaving a stale registry entry that the next lookup overwrites.

use vstd::prelude::*;
use std::sync::Arc;
use crate::geometry::{Rect, Size};

verus! {

#[verifier::external_type_specification]
#[verifier::external_body]
pub struct ExRenderPipeline(wgpu::RenderPipeline);

#[verifier::external_type_specification]
#[verifier::external_body]
pub struct ExComputePipeline(wgpu::ComputePipeline);

#[verifier::external_type_specification]
#[verifier::external_body]
pub struct ExDevice(wgpu::Device);

#[verifier::external_type_specification]
#[verifier::external_body]
pub struct ExTextureFormat(wgpu::TextureFormat);

#[verifier::external_type_specification]
#[verifier::external_body]
pub struct ExStagingBelt(wgpu::util::StagingBelt);

#[verifier::external_type_specification]
#[verifier::external_body]
pub struct ExCommandEncoder(wgpu::CommandEncoder);

#[verifier::external_type_specification]
#[verifier::external_body]
pub struct ExTextureView(wgpu::TextureView);

/// An immutable bundle of compiled render and compute pipeline objects for
/// one component kind. Never mutated once built; cheap to share.
pub struct Pipelines {
    pub render: Vec<wgpu::RenderPipeline>,
    pub compute: Vec<wgpu::ComputePipeline>,
}

/// A non-owning reference to a `Pipelines` bundle. It never keeps the
/// bundle alive by itself. (std's `Weak` carries an allocator type
/// parameter the verifier refuses to declare, so it is held opaquely.)
#[verifier::external_body]
struct WeakPipelines {
    inner: std::sync::Weak<Pipelines>,
}

/// Relies on std's `Arc::downgrade`: the result is a non-owning reference
/// to `strong`'s bundle that does not keep it alive.
#[verifier::external_body]
fn downgrade_pipelines(strong: &Arc<Pipelines>) -> WeakPipelines {
    WeakPipelines { inner: Arc::downgrade(strong) }
}

/// Relies on std's `Weak::upgrade`: a strong handle to the referenced
/// bundle while any other strong handle keeps it alive, and nothing once
/// the last one was dropped. The outcome depends on runtime reference
/// counts, so nothing more is promised of it.
#[verifier::external_body]
fn upgrade_pipelines(weak: &WeakPipelines) -> Option<Arc<Pipelines>> {
    weak.inner.upgrade()
}

/// Whether the kinds of `s` are pairwise distinct.
pub open spec fn kinds_unique(s: Seq<u64>) -> bool {
    forall|i: int, j: int| 0 <= i < j < s.len() ==> s[i] != s[j]
}

/// The mapping from component-kind identifier to a non-owning reference to
/// that kind's bundle. Its registered kinds are pairwise distinct; what a
/// lookup returns for a kind is decided by runtime liveness, never by the
/// registry owning anything.
pub struct PipelineRegistry {
    entries: Vec<(u64, WeakPipelines)>,
}

impl PipelineRegistry {
    /// The component kinds currently registered, in insertion order.
    pub closed spec fn kinds(&self) -> Seq<u64> {
        self.entries@.map_values(|e: (u64, WeakPipelines)| e.0)
    }

    /// The kind-uniqueness invariant every operation preserves.
    pub open spec fn wf(&self) -> bool {
        kinds_unique(self.kinds())
    }

    /// An empty registry.
    pub fn new() -> (r: PipelineRegistry)
        ensures
            r.kinds() == Seq::<u64>::empty(),
            r.wf(),
    {
        let r = PipelineRegistry { entries: Vec::new() };
        proof {
            assert(r.kinds() =~= Seq::<u64>::empty());
        }
        r
    }

    /// Looks the kind up and tries to upgrade its non-owning reference: a
    /// strong handle if the kind is registered and its bundle is still kept
    /// alive by some component, nothing otherwise.
    pub fn lookup(&self, kind: u64) -> (r: Option<Arc<Pipelines>>)
        ensures
            r is Some ==> self.kinds().contains(kind),
    {
        let n = self.entries.len();
        let mut i: usize = 0;
        while i < n
            invariant
                i <= n,
                n == self.entries@.len(),
            decreases n - i,
        {
            if self.entries[i].0 == kind {
                proof {
                    assert(self.kinds()[i as int] == kind);
                }
                return upgrade_pipelines(&self.entries[i].1);
            }
            i += 1;
        }
        None
    }

    /// Registers a non-owning reference to `strong`'s bundle under `kind`,
    /// overwriting any (possibly stale) earlier entry for that kind. The
    /// registered kinds afterwards are the old ones plus `kind`.
    pub fn install(&mut self, kind: u64, strong: &Arc<Pipelines>)
        requires
            old(self).wf(),
        ensures
            final(self).wf(),
            forall|k: u64| #[trigger]
                final(self).kinds().contains(k) <==> (old(self).kinds().contains(k) || k == kind),
    {
        let ghost orig = self.kinds();
        let n = self.entries.len();
        let mut i: usize = 0;
        while i < n
            invariant
                i <= n,
                n == self.entries@.len(),
                self.kinds() == orig,
                orig == old(self).kinds(),
                kinds_unique(orig),
                forall|j: int| 0 <= j < i ==> orig[j] != kind,
            decreases n - i,
        {
            if self.entries[i].0 == kind {
                self.entries[i] = (kind, downgrade_pipelines(strong));
                proof {
                    assert(self.kinds() =~= orig);
                    assert(orig[i as int] == kind);
                    assert(orig.contains(kind));
                }
                return;
            }
            i += 1;
        }
        self.entries.push((kind, downgrade_pipelines(strong)));
        proof {
            assert(self.kinds() =~= orig.push(kind));
            let s = self.kinds();
            assert forall|a: int, b: int| 0 <= a < b < s.len() implies s[a] != s[b] by {
                if b == s.len() - 1 {
                    assert(orig[a] != kind);
                }
            }
            assert forall|k: u64| #[trigger] s.contains(k) implies (orig.contains(k) || k
                == kind) by {
                let w = choose|w: int| 0 <= w < s.len() && s[w] == k;
                if w < s.len() - 1 {
                    assert(orig[w] == k);
                }
            }
            assert forall|k: u64| orig.contains(k) || k == kind implies #[trigger] s.contains(
                k,
            ) by {
                if orig.contains(k) {
                    let w = choose|w: int| 0 <= w < orig.len() && orig[w] == k;
                    assert(s[w] == k);
                } else {
                    assert(s[s.len() - 1] == k);
                }
            }
        }
    }
}

/// The size in bytes of one chunk of the per-window upload belt.
pub const STAGING_BUFFER_BYTES: u64 = 10;

/// Relies on wgpu's `StagingBelt::new`: creates an upload belt whose
/// chunks have the given byte size.
#[verifier::external_body]
fn new_staging_belt(chunk_size: u64) -> wgpu::util::StagingBelt {
    wgpu::util::StagingBelt::new(chunk_size)
}

/// The per-window render-resource holder: the GPU device handle, the
/// window surface's pixel format, the transient upload belt, and the
/// pipeline registry.
pub struct Context {
    pub device: wgpu::Device,
    pub surface_format: wgpu::TextureFormat,
    registry: PipelineRegistry,
    pub staging_belt: wgpu::util::StagingBelt,
}

/// The capability set of a concrete drawable unit (canvas, image, ...),
/// implemented outside the verified core. `generate_pipelines` must be a
/// pure construction of the kind's compiled pipelines from the context's
/// device and format, and `render` must confine its draw calls to the
/// given viewport, further clipped to `clip` if present, without retaining
/// the encoder past the call.
pub trait Component: Sized {
    /// The stable component-kind identifier this kind registers its
    /// pipeline bundle under; distinct kinds must return distinct ids.
    fn kind_id() -> u64;

    /// Compiles this kind's pipeline bundle; invoked only by the
    /// registry's cache-miss path.
    fn generate_pipelines(ctx: &Context) -> Pipelines;

    /// Constructs a live instance, typically acquiring its bundle through
    /// `Context::get_pipelines`.
    fn new(ctx: &mut Context) -> Box<Self>;

    /// The minimum usable drawing area, or none if unconstrained.
    fn min_size() -> Option<Size>;

    /// Issues draw and compute commands for this instance into `encoder`.
    fn render(
        &mut self,
        encoder: &mut wgpu::CommandEncoder,
        ctx: &mut Context,
        output_texture: &wgpu::TextureView,
        view_port: Rect,
        clip_space: Option<Rect>,
    );
}

impl Context {
    /// The component kinds with a registered (live or stale) bundle
    /// reference.
    pub closed spec fn kinds(&self) -> Seq<u64> {
        self.registry.kinds()
    }

    /// The kind-uniqueness invariant of the registry.
    pub open spec fn wf(&self) -> bool {
        kinds_unique(self.kinds())
    }

    /// A fresh context for one window with an empty registry.
    pub fn new(device: wgpu::Device, surface_format: wgpu::TextureFormat) -> (r: Context)
        ensures
            r.kinds() == Seq::<u64>::empty(),
            r.wf(),
    {
        Context {
            device,
            surface_format,
            registry: PipelineRegistry::new(),
            staging_belt: new_staging_belt(4 * STAGING_BUFFER_BYTES),
        }
    }

    /// Hands out the shared bundle for component kind `kind`: a new strong
    /// handle to the live cached bundle if one exists, otherwise a freshly
    /// compiled bundle of `T` whose non-owning reference overwrites the
    /// registry entry. At most one bundle per kind is ever live, and the
    /// registry itself keeps none alive. `kind` must be `T`'s own id.
    pub fn get_pipelines<T: Component>(&mut self, kind: u64) -> (r: Arc<Pipelines>)
        requires
            old(self).wf(),
        ensures
            final(self).wf(),
            final(self).kinds().contains(kind),
            forall|k: u64| #[trigger]
                final(self).kinds().contains(k) <==> (old(self).kinds().contains(k) || k == kind),
    {
        match self.registry.lookup(kind) {
            Some(arc) => arc,
            None => {
                let arc = Arc::new(T::generate_pipelines(&*self));
                self.registry.install(kind, &arc);
                arc
            }
        }
    }
}

} // verus!
