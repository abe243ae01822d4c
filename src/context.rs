//! The state of one layout pass: what it asked the image cache, what it
//! learned, and the loads and rasterizations that it still needs.
//!
//! A pass that runs on several threads shares one context behind locks held
//! by the embedder; every operation here takes `&mut self`, and its contract
//! holds of each call in the order that the locks impose.

use std::collections::HashMap;

use vstd::prelude::*;

use crate::cache::{
    ImageCacheResult, ImageCacheStore, ImageOrMetadataAvailable, ImmutableOrigin, LoadView,
    ResourceKey, status_next, status_result,
};
use crate::image::{
    DeviceIntSize, Image, ImageKey, PendingImageId, PipelineId, RasterImage, UsePlaceholder,
};
use crate::values::{
    Gradient, StyleImage, image_set_size, image_set_size_of, natural_device_size, natural_size_of,
    selection_valid,
};

verus! {

broadcast use vstd::std_specs::hash::group_hash_axioms;

/// The identity of a document node.
#[derive(Clone, Copy, Debug, PartialEq, Eq, Structural)]
pub struct OpaqueNode(pub u64);

/// Whether the load of a pending image is still to be started.
#[derive(Debug)]
pub enum PendingImageState {
    /// Nobody has asked for it yet: the owner of the pass is to fetch `url`.
    Unrequested(String),
    /// A load is in flight; its completion is to trigger a new pass.
    PendingResponse,
}

/// An image that a pass needed and did not have.
#[derive(Debug)]
pub struct PendingImage {
    pub state: PendingImageState,
    pub node: OpaqueNode,
    pub id: PendingImageId,
    pub origin: ImmutableOrigin,
}

/// A vector image that a pass needed at a size not yet rasterized.
#[derive(Clone, Copy, Debug, PartialEq, Eq, Structural)]
pub struct PendingImageRasterization {
    pub id: PendingImageId,
    pub node: OpaqueNode,
    pub size: DeviceIntSize,
}

/// The animated image that a node shows, and where its animation stands.
#[derive(Clone, Copy, Debug, PartialEq, Eq, Structural)]
pub struct ImageAnimationState {
    pub image: RasterImage,
    pub active_frame: usize,
    pub last_update_time_ms: u64,
}

impl ImageAnimationState {
    pub open spec fn initial(image: RasterImage) -> ImageAnimationState {
        ImageAnimationState { image, active_frame: 0, last_update_time_ms: 0 }
    }

    pub fn new(image: RasterImage) -> (r: ImageAnimationState)
        ensures
            r == ImageAnimationState::initial(image),
    {
        ImageAnimationState { image, active_frame: 0, last_update_time_ms: 0 }
    }

    pub fn image_key(&self) -> (r: Option<ImageKey>)
        ensures
            r == self.image.id,
    {
        self.image.id
    }
}

/// Why an image value could not be resolved in this pass.
#[derive(Debug, PartialEq, Eq)]
pub enum ResolveImageError {
    LoadError,
    ImagePending,
    ImageRequested,
    OnlyMetadata,
    InvalidUrl,
    MissingNode,
    ImageMissingFromImageSet,
    FailedToResolveImageFromImageSet,
    NotImplementedYet(&'static str),
    NoImage,
}

/// A remembered outcome: the image for a URL and placeholder preference, or
/// `None` where its load failed for good.
#[derive(Debug)]
pub struct ResolvedImageEntry {
    pub url: String,
    pub use_placeholder: UsePlaceholder,
    pub image: Option<Image>,
}

pub open spec fn memo_has(memo: Seq<ResolvedImageEntry>, url: Seq<char>, use_placeholder: UsePlaceholder) -> bool {
    exists|i: int|
        0 <= i < memo.len() && (#[trigger] memo[i]).url@ == url && memo[i].use_placeholder == use_placeholder
}

/// The remembered outcome for `url` and `use_placeholder`, if there is one.
pub open spec fn memo_lookup(memo: Seq<ResolvedImageEntry>, url: Seq<char>, use_placeholder: UsePlaceholder) -> Option<Option<Image>> {
    if memo_has(memo, url, use_placeholder) {
        let i = choose|i: int|
            0 <= i < memo.len() && (#[trigger] memo[i]).url@ == url && memo[i].use_placeholder
                == use_placeholder;
        Some(memo[i].image)
    } else {
        None
    }
}

pub open spec fn memo_unique(memo: Seq<ResolvedImageEntry>) -> bool {
    forall|i: int, j: int|
        0 <= i < memo.len() && 0 <= j < memo.len() && i != j ==> !((#[trigger] memo[i]).url@
            == (#[trigger] memo[j]).url@ && memo[i].use_placeholder == memo[j].use_placeholder)
}

/// What a status query means to a pass.
pub open spec fn request_outcome(status: ImageCacheResult) -> Result<ImageOrMetadataAvailable, ResolveImageError> {
    match status {
        ImageCacheResult::Available(available) => Ok(available),
        ImageCacheResult::Pending(_) => Err(ResolveImageError::ImagePending),
        ImageCacheResult::ReadyForRequest(_) => Err(ResolveImageError::ImageRequested),
        ImageCacheResult::LoadError => Err(ResolveImageError::LoadError),
    }
}

/// The pending image that a status query queues, if any.
pub open spec fn pending_record(
    status: ImageCacheResult,
    node: OpaqueNode,
    url: String,
    origin: ImmutableOrigin,
) -> Seq<PendingImage> {
    match status {
        ImageCacheResult::Pending(id) => seq![
            PendingImage { state: PendingImageState::PendingResponse, node, id, origin },
        ],
        ImageCacheResult::ReadyForRequest(id) => seq![
            PendingImage { state: PendingImageState::Unrequested(url), node, id, origin },
        ],
        _ => Seq::empty(),
    }
}

/// How the animation map changes when `node` is seen showing `image`.
pub open spec fn animation_next(
    animations: Map<u64, ImageAnimationState>,
    node: OpaqueNode,
    image: RasterImage,
) -> Map<u64, ImageAnimationState> {
    if animations.contains_key(node.0) {
        if animations[node.0].image.id != image.id {
            if image.animates() {
                animations.insert(node.0, ImageAnimationState::initial(image))
            } else {
                animations.remove(node.0)
            }
        } else {
            animations
        }
    } else if image.animates() {
        animations.insert(node.0, ImageAnimationState::initial(image))
    } else {
        animations
    }
}


/// What a fresh status query yields to a pass that wants the whole image.
pub open spec fn fresh_outcome(status: ImageCacheResult) -> Result<Image, ResolveImageError> {
    match status {
        ImageCacheResult::Available(ImageOrMetadataAvailable::ImageAvailable { image, .. }) => Ok(image),
        ImageCacheResult::Available(ImageOrMetadataAvailable::MetadataAvailable(..)) => Err(
            ResolveImageError::OnlyMetadata,
        ),
        ImageCacheResult::Pending(_) => Err(ResolveImageError::ImagePending),
        ImageCacheResult::ReadyForRequest(_) => Err(ResolveImageError::ImageRequested),
        ImageCacheResult::LoadError => Err(ResolveImageError::LoadError),
    }
}

/// What a pass keeps of a status query: an image, a permanent failure
/// (`Some(None)`), or nothing while the outcome may still change.
pub open spec fn memo_entry(status: ImageCacheResult) -> Option<Option<Image>> {
    match status {
        ImageCacheResult::Available(ImageOrMetadataAvailable::ImageAvailable { image, .. }) => Some(Some(image)),
        ImageCacheResult::LoadError => Some(None),
        _ => None,
    }
}

/// One lookup of the image for `url` by a pass: from the memo where it has
/// an entry, else from the cache. The outcome, the pass's new state, and the
/// cache's new records.
pub open spec fn url_step(
    cv: ContextView,
    records: Seq<LoadView>,
    placeholder_url: String,
    origin: ImmutableOrigin,
    node: OpaqueNode,
    url: String,
    use_placeholder: UsePlaceholder,
) -> (Result<Image, ResolveImageError>, ContextView, Seq<LoadView>) {
    match memo_lookup(cv.memo, url@, use_placeholder) {
        Some(Some(image)) => (Ok(image), cv, records),
        Some(None) => (Err(ResolveImageError::LoadError), cv, records),
        None => {
            let key = ResourceKey { url, origin, cors_setting: None, use_placeholder };
            let status = status_result(records, placeholder_url, key@);
            let memo = match memo_entry(status) {
                Some(image) => cv.memo.push(ResolvedImageEntry { url, use_placeholder, image }),
                None => cv.memo,
            };
            let animations = match status {
                ImageCacheResult::Available(
                    ImageOrMetadataAvailable::ImageAvailable { image: Image::Raster(raster), .. },
                ) => animation_next(cv.animations, node, raster),
                _ => cv.animations,
            };
            let next = ContextView {
                pending_images: cv.pending_images + pending_record(status, node, url, origin),
                pending_rasterizations: cv.pending_rasterizations,
                memo,
                animations,
            };
            (fresh_outcome(status), next, status_next(records, key))
        },
    }
}


/// An image with the size at which it is to be painted.
#[derive(Clone, Copy, Debug, PartialEq, Eq, Structural)]
pub struct LayoutImage {
    pub image: Image,
    /// An image-set candidate's declared resolution can override the natural
    /// size of a raster image, and hence this size.
    pub size: DeviceIntSize,
}

/// What an image value resolves to.
#[derive(Debug)]
pub enum ResolvedImage<'a> {
    Gradient(&'a Gradient),
    Image(LayoutImage),
}

pub enum ResolvedModel {
    Gradient(Gradient),
    Image(LayoutImage),
}

pub open spec fn resolved_model(r: Result<ResolvedImage, ResolveImageError>) -> Result<ResolvedModel, ResolveImageError> {
    match r {
        Ok(ResolvedImage::Gradient(gradient)) => Ok(ResolvedModel::Gradient(*gradient)),
        Ok(ResolvedImage::Image(image)) => Ok(ResolvedModel::Image(image)),
        Err(e) => Err(e),
    }
}

/// The resolution of `image` in a pass: its outcome, the pass's new state,
/// and the cache's new records.
pub open spec fn resolve_step(
    cv: ContextView,
    records: Seq<LoadView>,
    placeholder_url: String,
    origin: ImmutableOrigin,
    node: Option<OpaqueNode>,
    image: StyleImage,
) -> (Result<ResolvedModel, ResolveImageError>, ContextView, Seq<LoadView>)
    decreases image,
{
    match image {
        StyleImage::NoImage => (Err(ResolveImageError::NoImage), cv, records),
        StyleImage::CrossFade => (Err(ResolveImageError::NotImplementedYet("CrossFade")), cv, records),
        StyleImage::PaintWorklet => (Err(ResolveImageError::NotImplementedYet("PaintWorklet")), cv, records),
        StyleImage::Gradient(gradient) => (Ok(ResolvedModel::Gradient(gradient)), cv, records),
        StyleImage::Url(computed) => match computed.resolved {
            None => (Err(ResolveImageError::InvalidUrl), cv, records),
            Some(url) => match node {
                None => (Err(ResolveImageError::MissingNode), cv, records),
                Some(node) => {
                    let step = url_step(cv, records, placeholder_url, origin, node, url, UsePlaceholder::No);
                    let outcome = match step.0 {
                        Ok(image) => Ok(
                            ResolvedModel::Image(LayoutImage { image, size: natural_device_size(image) }),
                        ),
                        Err(e) => Err(e),
                    };
                    (outcome, step.1, step.2)
                },
            },
        },
        StyleImage::ImageSet(set) => {
            if set.selected_index < set.items.len() {
                let item = set.items[set.selected_index as int];
                let step = resolve_step(cv, records, placeholder_url, origin, node, item.image);
                let outcome = match step.0 {
                    Ok(ResolvedModel::Image(layout_image)) => Ok(
                        ResolvedModel::Image(
                            LayoutImage {
                                image: layout_image.image,
                                size: image_set_size(layout_image.image, item.resolution),
                            },
                        ),
                    ),
                    other => other,
                };
                (outcome, step.1, step.2)
            } else {
                (Err(ResolveImageError::ImageMissingFromImageSet), cv, records)
            }
        },
    }
}

/// The state of a pass.
pub struct ContextView {
    pub pending_images: Seq<PendingImage>,
    pub pending_rasterizations: Seq<PendingImageRasterization>,
    pub memo: Seq<ResolvedImageEntry>,
    pub animations: Map<u64, ImageAnimationState>,
}

/// The state of one layout pass.
#[derive(Debug)]
pub struct LayoutContext {
    pub id: PipelineId,
    pub origin: ImmutableOrigin,
    /// Loads that the pass needed, to be handed to the document's owner.
    pub pending_images: Vec<PendingImage>,
    /// Rasterizations that the pass needed, to be handed to the document's owner.
    pub pending_rasterization_images: Vec<PendingImageRasterization>,
    /// What this pass learned of each URL, so that it asks the cache once.
    pub resolved_image_cache: Vec<ResolvedImageEntry>,
    pub node_image_animation_map: HashMap<u64, ImageAnimationState>,
    /// The node that a developer tool highlights, if any.
    pub highlighted_dom_node: Option<OpaqueNode>,
}

impl View for LayoutContext {
    type V = ContextView;

    open spec fn view(&self) -> ContextView {
        ContextView {
            pending_images: self.pending_images@,
            pending_rasterizations: self.pending_rasterization_images@,
            memo: self.resolved_image_cache@,
            animations: self.node_image_animation_map@,
        }
    }
}

fn same_image_key(a: Option<ImageKey>, b: Option<ImageKey>) -> (r: bool)
    ensures
        r == (a == b),
{
    match (a, b) {
        (None, None) => true,
        (Some(x), Some(y)) => x.0 == y.0,
        _ => false,
    }
}

impl LayoutContext {
    pub open spec fn wf(&self) -> bool {
        memo_unique(self.resolved_image_cache@)
    }

    /// A fresh context for a pass of pipeline `id` on a document of `origin`.
    pub fn new(id: PipelineId, origin: ImmutableOrigin, highlighted_dom_node: Option<OpaqueNode>) -> (r: LayoutContext)
        ensures
            r.wf(),
            r.id == id,
            r.origin == origin,
            r.highlighted_dom_node == highlighted_dom_node,
            r@.pending_images == Seq::<PendingImage>::empty(),
            r@.pending_rasterizations == Seq::<PendingImageRasterization>::empty(),
            r@.memo == Seq::<ResolvedImageEntry>::empty(),
            r@.animations == Map::<u64, ImageAnimationState>::empty(),
    {
        LayoutContext {
            id,
            origin,
            pending_images: Vec::new(),
            pending_rasterization_images: Vec::new(),
            resolved_image_cache: Vec::new(),
            node_image_animation_map: HashMap::new(),
            highlighted_dom_node,
        }
    }

    /// Asks the cache for an image or its metadata, and queues what the
    /// owner of the pass must do when it is not there yet.
    pub fn get_or_request_image_or_meta(
        &mut self,
        image_cache: &mut ImageCacheStore,
        node: OpaqueNode,
        url: String,
        use_placeholder: UsePlaceholder,
    ) -> (r: Result<ImageOrMetadataAvailable, ResolveImageError>)
        requires
            old(image_cache).wf(),
        ensures
            ({
                let key = ResourceKey { url, origin: old(self).origin, cors_setting: None, use_placeholder };
                let status = status_result(old(image_cache).records(), old(image_cache).placeholder_url, key@);
                &&& r == request_outcome(status)
                &&& final(self).pending_images@ == old(self).pending_images@ + pending_record(
                    status,
                    node,
                    url,
                    old(self).origin,
                )
                &&& final(image_cache).records() == status_next(old(image_cache).records(), key)
            }),
            final(image_cache).wf(),
            final(image_cache).rasterized == old(image_cache).rasterized,
            final(image_cache).rasterization_listeners == old(image_cache).rasterization_listeners,
            final(image_cache).placeholder_image == old(image_cache).placeholder_image,
            final(image_cache).placeholder_url == old(image_cache).placeholder_url,
            final(self).id == old(self).id,
            final(self).origin == old(self).origin,
            final(self).highlighted_dom_node == old(self).highlighted_dom_node,
            final(self).pending_rasterization_images == old(self).pending_rasterization_images,
            final(self).resolved_image_cache == old(self).resolved_image_cache,
            final(self).node_image_animation_map == old(self).node_image_animation_map,
    {
        let cache_result = image_cache.get_cached_image_status(
            url.clone(),
            self.origin.clone(),
            None,
            use_placeholder,
        );
        let ghost before = self.pending_images@;
        match cache_result {
            ImageCacheResult::Available(img_or_meta) => {
                assert(self.pending_images@ =~= before + Seq::<PendingImage>::empty());
                Ok(img_or_meta)
            },
            ImageCacheResult::Pending(id) => {
                let image = PendingImage {
                    state: PendingImageState::PendingResponse,
                    node,
                    id,
                    origin: self.origin.clone(),
                };
                self.pending_images.push(image);
                assert(self.pending_images@ =~= before + seq![image]);
                Err(ResolveImageError::ImagePending)
            },
            ImageCacheResult::ReadyForRequest(id) => {
                let image = PendingImage {
                    state: PendingImageState::Unrequested(url),
                    node,
                    id,
                    origin: self.origin.clone(),
                };
                self.pending_images.push(image);
                assert(self.pending_images@ =~= before + seq![image]);
                Err(ResolveImageError::ImageRequested)
            },
            ImageCacheResult::LoadError => {
                assert(self.pending_images@ =~= before + Seq::<PendingImage>::empty());
                Err(ResolveImageError::LoadError)
            },
        }
    }

    /// Tracks the animated image that `node` shows. A node tracks at most one
    /// image; an image with the key of the tracked one changes nothing.
    pub fn handle_animated_image(&mut self, node: OpaqueNode, image: RasterImage)
        ensures
            final(self).node_image_animation_map@ == animation_next(
                old(self).node_image_animation_map@,
                node,
                image,
            ),
            final(self).id == old(self).id,
            final(self).origin == old(self).origin,
            final(self).highlighted_dom_node == old(self).highlighted_dom_node,
            final(self).pending_images == old(self).pending_images,
            final(self).pending_rasterization_images == old(self).pending_rasterization_images,
            final(self).resolved_image_cache == old(self).resolved_image_cache,
    {
        let current_key = match self.node_image_animation_map.get(&node.0) {
            Some(image_state) => Some(image_state.image_key()),
            None => None,
        };
        match current_key {
            Some(key) => {
                if !same_image_key(key, image.id) {
                    if image.should_animate() {
                        self.node_image_animation_map.insert(node.0, ImageAnimationState::new(image));
                    } else {
                        self.node_image_animation_map.remove(&node.0);
                    }
                }
            },
            None => {
                if image.should_animate() {
                    self.node_image_animation_map.insert(node.0, ImageAnimationState::new(image));
                }
            },
        }
    }

    fn memo_find(&self, url: &String, use_placeholder: UsePlaceholder) -> (r: Option<usize>)
        requires
            self.wf(),
        ensures
            match r {
                Some(i) => i < self@.memo.len() && memo_lookup(self@.memo, url@, use_placeholder) == Some(
                    self@.memo[i as int].image,
                ),
                None => !memo_has(self@.memo, url@, use_placeholder),
            },
    {
        let mut i: usize = 0;
        while i < self.resolved_image_cache.len()
            invariant
                i <= self@.memo.len(),
                self.wf(),
                forall|j: int|
                    0 <= j < i ==> !((#[trigger] self@.memo[j]).url@ == url@ && self@.memo[j].use_placeholder
                        == use_placeholder),
            decreases self@.memo.len() - i,
        {
            let entry = &self.resolved_image_cache[i];
            if entry.url == *url && entry.use_placeholder == use_placeholder {
                proof {
                    let memo = self@.memo;
                    let k = choose|k: int|
                        0 <= k < memo.len() && (#[trigger] memo[k]).url@ == url@ && memo[k].use_placeholder
                            == use_placeholder;
                    assert(memo[i as int].url@ == url@);
                    assert(k == i);
                }
                return Some(i);
            }
            i = i + 1;
        }
        None
    }

    fn remember(&mut self, url: String, use_placeholder: UsePlaceholder, image: Option<Image>)
        requires
            old(self).wf(),
            !memo_has(old(self)@.memo, url@, use_placeholder),
        ensures
            final(self).wf(),
            final(self).resolved_image_cache@ == old(self).resolved_image_cache@.push(
                ResolvedImageEntry { url, use_placeholder, image },
            ),
            final(self).id == old(self).id,
            final(self).origin == old(self).origin,
            final(self).highlighted_dom_node == old(self).highlighted_dom_node,
            final(self).pending_images == old(self).pending_images,
            final(self).pending_rasterization_images == old(self).pending_rasterization_images,
            final(self).node_image_animation_map == old(self).node_image_animation_map,
    {
        let ghost before = self.resolved_image_cache@;
        let ghost u = url@;
        self.resolved_image_cache.push(ResolvedImageEntry { url, use_placeholder, image });
        proof {
            let memo = self.resolved_image_cache@;
            assert forall|a: int, b: int|
                0 <= a < memo.len() && 0 <= b < memo.len() && a != b implies !((#[trigger] memo[a]).url@
                    == (#[trigger] memo[b]).url@ && memo[a].use_placeholder == memo[b].use_placeholder) by {
                if a < before.len() && b < before.len() {
                    assert(memo[a] == before[a] && memo[b] == before[b]);
                } else if a < before.len() {
                    assert(memo[a] == before[a]);
                    assert(memo[b].url@ == u);
                } else {
                    assert(memo[b] == before[b]);
                    assert(memo[a].url@ == u);
                }
            }
        }
    }

    /// The image for `url`, from this pass's memo where it has an entry, else
    /// from the cache. What the cache answers for good (an image, or a failed
    /// load) is remembered; metadata alone is no image for this pass.
    pub fn get_webrender_image_for_url(
        &mut self,
        image_cache: &mut ImageCacheStore,
        node: OpaqueNode,
        url: String,
        use_placeholder: UsePlaceholder,
    ) -> (r: Result<Image, ResolveImageError>)
        requires
            old(self).wf(),
            old(image_cache).wf(),
        ensures
            ({
                let step = url_step(
                    old(self)@,
                    old(image_cache).records(),
                    old(image_cache).placeholder_url,
                    old(self).origin,
                    node,
                    url,
                    use_placeholder,
                );
                &&& r == step.0
                &&& final(self)@ == step.1
                &&& final(image_cache).records() == step.2
            }),
            final(self).wf(),
            final(image_cache).wf(),
            final(image_cache).rasterized == old(image_cache).rasterized,
            final(image_cache).rasterization_listeners == old(image_cache).rasterization_listeners,
            final(image_cache).placeholder_image == old(image_cache).placeholder_image,
            final(image_cache).placeholder_url == old(image_cache).placeholder_url,
            final(self).id == old(self).id,
            final(self).origin == old(self).origin,
            final(self).highlighted_dom_node == old(self).highlighted_dom_node,
    {
        match self.memo_find(&url, use_placeholder) {
            Some(i) => {
                return match self.resolved_image_cache[i].image {
                    Some(image) => Ok(image),
                    None => Err(ResolveImageError::LoadError),
                };
            },
            None => {},
        }
        let result = self.get_or_request_image_or_meta(image_cache, node, url.clone(), use_placeholder);
        let ghost after_request = self@;
        match result {
            Ok(ImageOrMetadataAvailable::ImageAvailable { image, .. }) => {
                match image.as_raster_image() {
                    Some(raster) => self.handle_animated_image(node, raster),
                    None => {},
                }
                self.remember(url, use_placeholder, Some(image));
                Ok(image)
            },
            Ok(ImageOrMetadataAvailable::MetadataAvailable(..)) => Err(ResolveImageError::OnlyMetadata),
            Err(ResolveImageError::LoadError) => {
                self.remember(url, use_placeholder, None);
                Err(ResolveImageError::LoadError)
            },
            Err(e) => Err(e),
        }
    }

    /// The rasterization of a vector image at `size`, where the cache has
    /// it; else the need is queued and nothing is painted in this pass.
    pub fn rasterize_vector_image(
        &mut self,
        image_cache: &ImageCacheStore,
        image_id: PendingImageId,
        size: DeviceIntSize,
        node: OpaqueNode,
    ) -> (r: Option<RasterImage>)
        requires
            image_cache.wf(),
        ensures
            r == crate::cache::rasterized_lookup(image_cache.rasterized@, old(self).id, image_id, size),
            r is None ==> final(self).pending_rasterization_images@
                == old(self).pending_rasterization_images@.push(
                PendingImageRasterization { id: image_id, node, size },
            ),
            r is Some ==> final(self).pending_rasterization_images@
                == old(self).pending_rasterization_images@,
            final(self).id == old(self).id,
            final(self).origin == old(self).origin,
            final(self).highlighted_dom_node == old(self).highlighted_dom_node,
            final(self).pending_images == old(self).pending_images,
            final(self).resolved_image_cache == old(self).resolved_image_cache,
            final(self).node_image_animation_map == old(self).node_image_animation_map,
    {
        let result = image_cache.rasterize_vector_image(self.id, image_id, size);
        if result.is_none() {
            self.pending_rasterization_images.push(PendingImageRasterization { id: image_id, node, size });
        }
        result
    }

    /// Whether both queues of the pass have been handed over; a context is
    /// to be dropped only then.
    pub fn is_drained(&self) -> (r: bool)
        ensures
            r == (self@.pending_images.len() == 0 && self@.pending_rasterizations.len() == 0),
    {
        self.pending_images.len() == 0 && self.pending_rasterization_images.len() == 0
    }

    /// Hands over the queued loads, in the order they were queued.
    pub fn take_pending_images(&mut self) -> (r: Vec<PendingImage>)
        ensures
            r@ == old(self).pending_images@,
            final(self).pending_images@ == Seq::<PendingImage>::empty(),
            final(self).id == old(self).id,
            final(self).origin == old(self).origin,
            final(self).highlighted_dom_node == old(self).highlighted_dom_node,
            final(self).pending_rasterization_images == old(self).pending_rasterization_images,
            final(self).resolved_image_cache == old(self).resolved_image_cache,
            final(self).node_image_animation_map == old(self).node_image_animation_map,
    {
        let mut taken: Vec<PendingImage> = Vec::new();
        std::mem::swap(&mut self.pending_images, &mut taken);
        taken
    }

    /// Hands over the queued rasterizations, in the order they were queued.
    pub fn take_pending_rasterization_images(&mut self) -> (r: Vec<PendingImageRasterization>)
        ensures
            r@ == old(self).pending_rasterization_images@,
            final(self).pending_rasterization_images@ == Seq::<PendingImageRasterization>::empty(),
            final(self).id == old(self).id,
            final(self).origin == old(self).origin,
            final(self).highlighted_dom_node == old(self).highlighted_dom_node,
            final(self).pending_images == old(self).pending_images,
            final(self).resolved_image_cache == old(self).resolved_image_cache,
            final(self).node_image_animation_map == old(self).node_image_animation_map,
    {
        let mut taken: Vec<PendingImageRasterization> = Vec::new();
        std::mem::swap(&mut self.pending_rasterization_images, &mut taken);
        taken
    }

    /// Resolves a CSS image value to a gradient, or to an image and the size
    /// at which to paint it.
    pub fn resolve_image<'a>(
        &mut self,
        image_cache: &mut ImageCacheStore,
        node: Option<OpaqueNode>,
        image: &'a StyleImage,
    ) -> (r: Result<ResolvedImage<'a>, ResolveImageError>)
        requires
            old(self).wf(),
            old(image_cache).wf(),
            selection_valid(*image),
        ensures
            ({
                let step = resolve_step(
                    old(self)@,
                    old(image_cache).records(),
                    old(image_cache).placeholder_url,
                    old(self).origin,
                    node,
                    *image,
                );
                &&& resolved_model(r) == step.0
                &&& final(self)@ == step.1
                &&& final(image_cache).records() == step.2
            }),
            final(self).wf(),
            final(image_cache).wf(),
            final(image_cache).rasterized == old(image_cache).rasterized,
            final(image_cache).rasterization_listeners == old(image_cache).rasterization_listeners,
            final(image_cache).placeholder_image == old(image_cache).placeholder_image,
            final(image_cache).placeholder_url == old(image_cache).placeholder_url,
            final(self).id == old(self).id,
            final(self).origin == old(self).origin,
            final(self).highlighted_dom_node == old(self).highlighted_dom_node,
        decreases image,
    {
        match image {
            StyleImage::NoImage => Err(ResolveImageError::NoImage),
            StyleImage::CrossFade => Err(ResolveImageError::NotImplementedYet("CrossFade")),
            StyleImage::PaintWorklet => Err(ResolveImageError::NotImplementedYet("PaintWorklet")),
            StyleImage::Gradient(gradient) => Ok(ResolvedImage::Gradient(gradient)),
            StyleImage::Url(computed) => {
                let url = match &computed.resolved {
                    Some(url) => url,
                    None => return Err(ResolveImageError::InvalidUrl),
                };
                let node = match node {
                    Some(node) => node,
                    None => return Err(ResolveImageError::MissingNode),
                };
                match self.get_webrender_image_for_url(image_cache, node, url.clone(), UsePlaceholder::No) {
                    Ok(image) => {
                        let size = natural_size_of(&image);
                        Ok(ResolvedImage::Image(LayoutImage { image, size }))
                    },
                    Err(e) => Err(e),
                }
            },
            StyleImage::ImageSet(image_set) => {
                if image_set.selected_index >= image_set.items.len() {
                    return Err(ResolveImageError::ImageMissingFromImageSet);
                }
                let item = &image_set.items[image_set.selected_index];
                proof {
                    assert(decreases_to!(image_set.items => image_set.items[image_set.selected_index as int]));
                }
                match self.resolve_image(image_cache, node, &item.image) {
                    Ok(ResolvedImage::Image(layout_image)) => {
                        let size = image_set_size_of(&layout_image.image, item.resolution);
                        Ok(ResolvedImage::Image(LayoutImage { image: layout_image.image, size }))
                    },
                    other => other,
                }
            },
        }
    }
}

} // verus!
