use image_resolution::cache::{FetchEvent, ImageCacheStore, ImmutableOrigin};
use image_resolution::context::{
    LayoutContext, OpaqueNode, PendingImageState, ResolveImageError, ResolvedImage,
};
use image_resolution::image::{
    CorsStatus, DeviceIntSize, Image, ImageKey, ImageMetadata, PendingImageId, PipelineId,
    RasterImage, UsePlaceholder,
};
use image_resolution::values::{
    ComputedUrl, Gradient, ImageSet, ImageSetItem, Resolution, StyleImage,
};

fn page_origin() -> ImmutableOrigin {
    ImmutableOrigin::Tuple("https://example.org".to_string())
}

fn new_context() -> LayoutContext {
    LayoutContext::new(PipelineId(1), page_origin(), None)
}

fn raster_image(width: u32, height: u32, key: u64, frame_count: usize) -> RasterImage {
    RasterImage { width, height, id: Some(ImageKey(key)), cors_status: CorsStatus::Safe, frame_count }
}

/// A store in which `url` has loaded as `image`, under id 0.
fn store_with(url: &str, image: Image) -> ImageCacheStore {
    let mut store = ImageCacheStore::new(None, String::new());
    store.get_cached_image_status(url.to_string(), page_origin(), None, UsePlaceholder::No);
    store.notify_pending_response(PendingImageId(0), FetchEvent::Decoded(image));
    store
}

fn url_value(url: &str) -> StyleImage {
    StyleImage::Url(ComputedUrl { resolved: Some(url.to_string()) })
}

fn dppx(numerator: u32, denominator: u32) -> Resolution {
    Resolution { dppx_numerator: numerator, dppx_denominator: denominator }
}

fn resolved_size(r: &Result<ResolvedImage, ResolveImageError>) -> Option<DeviceIntSize> {
    match r {
        Ok(ResolvedImage::Image(layout_image)) => Some(layout_image.size),
        _ => None,
    }
}

#[test]
fn image_set_scales_raster_by_resolution() {
    let mut store = ImageCacheStore::new(None, String::new());
    let url_1x = "https://example.org/1x.png";
    let url_2x = "https://example.org/2x.png";
    store.get_cached_image_status(url_1x.to_string(), page_origin(), None, UsePlaceholder::No);
    store.get_cached_image_status(url_2x.to_string(), page_origin(), None, UsePlaceholder::No);
    store.notify_pending_response(PendingImageId(0), FetchEvent::Decoded(Image::Raster(raster_image(100, 100, 1, 1))));
    store.notify_pending_response(PendingImageId(1), FetchEvent::Decoded(Image::Raster(raster_image(200, 200, 2, 1))));
    let set = StyleImage::ImageSet(ImageSet {
        selected_index: 1,
        items: vec![
            ImageSetItem { image: url_value(url_1x), resolution: dppx(1, 1) },
            ImageSetItem { image: url_value(url_2x), resolution: dppx(2, 1) },
        ],
    });
    let mut ctx = new_context();
    let r = ctx.resolve_image(&mut store, Some(OpaqueNode(1)), &set);
    assert_eq!(resolved_size(&r), Some(DeviceIntSize { width: 100, height: 100 }));
}

#[test]
fn image_set_keeps_vector_natural_size() {
    let url = "https://example.org/icon.svg";
    let vector = Image::Vector(ImageMetadata { width: 50, height: 50 }, PendingImageId(0), CorsStatus::Safe);
    let mut store = store_with(url, vector);
    let set = StyleImage::ImageSet(ImageSet {
        selected_index: 0,
        items: vec![ImageSetItem { image: url_value(url), resolution: dppx(3, 1) }],
    });
    let mut ctx = new_context();
    let r = ctx.resolve_image(&mut store, Some(OpaqueNode(1)), &set);
    assert_eq!(resolved_size(&r), Some(DeviceIntSize { width: 50, height: 50 }));
}

#[test]
fn image_set_rounds_fractional_sizes_down() {
    let url = "https://example.org/a.png";
    let mut store = store_with(url, Image::Raster(raster_image(200, 101, 1, 1)));
    let set = StyleImage::ImageSet(ImageSet {
        selected_index: 0,
        items: vec![ImageSetItem { image: url_value(url), resolution: dppx(3, 2) }],
    });
    let mut ctx = new_context();
    let r = ctx.resolve_image(&mut store, Some(OpaqueNode(1)), &set);
    assert_eq!(resolved_size(&r), Some(DeviceIntSize { width: 133, height: 67 }));
}

#[test]
fn image_set_clamps_huge_sizes() {
    let url = "https://example.org/a.png";
    let mut store = store_with(url, Image::Raster(raster_image(u32::MAX, 4, 1, 1)));
    let set = StyleImage::ImageSet(ImageSet {
        selected_index: 0,
        items: vec![ImageSetItem { image: url_value(url), resolution: dppx(1, 2) }],
    });
    let mut ctx = new_context();
    let r = ctx.resolve_image(&mut store, Some(OpaqueNode(1)), &set);
    assert_eq!(resolved_size(&r), Some(DeviceIntSize { width: i32::MAX, height: 8 }));
}

#[test]
fn image_set_passes_gradient_through() {
    let set = StyleImage::ImageSet(ImageSet {
        selected_index: 0,
        items: vec![ImageSetItem {
            image: StyleImage::Gradient(Gradient { serialization: "linear-gradient(red, blue)".to_string() }),
            resolution: dppx(2, 1),
        }],
    });
    let mut store = ImageCacheStore::new(None, String::new());
    let mut ctx = new_context();
    match ctx.resolve_image(&mut store, None, &set) {
        Ok(ResolvedImage::Gradient(g)) => assert_eq!(g.serialization, "linear-gradient(red, blue)"),
        other => panic!("unexpected {:?}", other),
    }
}

#[test]
fn url_resolves_to_natural_size() {
    let url = "https://example.org/a.png";
    let image = Image::Raster(raster_image(30, 40, 1, 1));
    let mut store = store_with(url, image);
    let mut ctx = new_context();
    let value = url_value(url);
    match ctx.resolve_image(&mut store, Some(OpaqueNode(1)), &value) {
        Ok(ResolvedImage::Image(layout_image)) => {
            assert_eq!(layout_image.image, image);
            assert_eq!(layout_image.size, DeviceIntSize { width: 30, height: 40 });
        },
        other => panic!("unexpected {:?}", other),
    }
}

#[test]
fn error_mapping() {
    let mut store = ImageCacheStore::new(None, String::new());
    let mut ctx = new_context();
    let cross_fade = ctx.resolve_image(&mut store, Some(OpaqueNode(1)), &StyleImage::CrossFade);
    assert!(matches!(cross_fade, Err(ResolveImageError::NotImplementedYet("CrossFade"))));
    let worklet = ctx.resolve_image(&mut store, Some(OpaqueNode(1)), &StyleImage::PaintWorklet);
    assert!(matches!(worklet, Err(ResolveImageError::NotImplementedYet("PaintWorklet"))));
    let plain_url = url_value("https://example.org/a.png");
    let no_node = ctx.resolve_image(&mut store, None, &plain_url);
    assert!(matches!(no_node, Err(ResolveImageError::MissingNode)));
    let out_of_range = StyleImage::ImageSet(ImageSet {
        selected_index: 2,
        items: vec![ImageSetItem { image: url_value("https://example.org/a.png"), resolution: dppx(1, 1) }],
    });
    let missing = ctx.resolve_image(&mut store, Some(OpaqueNode(1)), &out_of_range);
    assert!(matches!(missing, Err(ResolveImageError::ImageMissingFromImageSet)));
    let none = ctx.resolve_image(&mut store, Some(OpaqueNode(1)), &StyleImage::NoImage);
    assert!(matches!(none, Err(ResolveImageError::NoImage)));
    let unresolved = StyleImage::Url(ComputedUrl { resolved: None });
    let invalid = ctx.resolve_image(&mut store, Some(OpaqueNode(1)), &unresolved);
    assert!(matches!(invalid, Err(ResolveImageError::InvalidUrl)));
    assert!(store.loads.is_empty());
    assert!(ctx.is_drained());
}

#[test]
fn unseen_url_is_requested_then_pending() {
    let mut store = ImageCacheStore::new(None, String::new());
    let mut ctx = new_context();
    let url = url_value("https://example.org/a.png");
    let first = ctx.resolve_image(&mut store, Some(OpaqueNode(1)), &url);
    assert!(matches!(first, Err(ResolveImageError::ImageRequested)));
    let second = ctx.resolve_image(&mut store, Some(OpaqueNode(2)), &url);
    assert!(matches!(second, Err(ResolveImageError::ImagePending)));
    assert!(!ctx.is_drained());
    let pending = ctx.take_pending_images();
    assert_eq!(pending.len(), 2);
    assert!(matches!(&pending[0].state, PendingImageState::Unrequested(u) if u == "https://example.org/a.png"));
    assert_eq!(pending[0].node, OpaqueNode(1));
    assert_eq!(pending[0].id, PendingImageId(0));
    assert!(matches!(pending[1].state, PendingImageState::PendingResponse));
    assert_eq!(pending[1].node, OpaqueNode(2));
    assert_eq!(pending[1].id, PendingImageId(0));
    assert!(ctx.is_drained());
}

#[test]
fn metadata_only_is_not_an_image() {
    let mut store = ImageCacheStore::new(None, String::new());
    store.get_cached_image_status("https://example.org/a.png".to_string(), page_origin(), None, UsePlaceholder::No);
    store.notify_pending_response(PendingImageId(0), FetchEvent::Metadata(ImageMetadata { width: 2, height: 2 }));
    let mut ctx = new_context();
    let r = ctx.get_webrender_image_for_url(&mut store, OpaqueNode(1), "https://example.org/a.png".to_string(), UsePlaceholder::No);
    assert_eq!(r, Err(ResolveImageError::OnlyMetadata));
    assert!(ctx.resolved_image_cache.is_empty());
}

#[test]
fn load_error_is_remembered() {
    let mut store = ImageCacheStore::new(None, String::new());
    store.get_cached_image_status("https://example.org/a.png".to_string(), page_origin(), None, UsePlaceholder::No);
    store.notify_pending_response(PendingImageId(0), FetchEvent::Failed);
    let mut ctx = new_context();
    let first = ctx.get_webrender_image_for_url(&mut store, OpaqueNode(1), "https://example.org/a.png".to_string(), UsePlaceholder::No);
    assert_eq!(first, Err(ResolveImageError::LoadError));
    let mut other_store = ImageCacheStore::new(None, String::new());
    let second = ctx.get_webrender_image_for_url(&mut other_store, OpaqueNode(1), "https://example.org/a.png".to_string(), UsePlaceholder::No);
    assert_eq!(second, Err(ResolveImageError::LoadError));
    assert!(other_store.loads.is_empty());
}

#[test]
fn second_lookup_comes_from_the_memo() {
    let url = "https://example.org/a.png";
    let image = Image::Raster(raster_image(8, 8, 1, 1));
    let mut store = store_with(url, image);
    let mut ctx = new_context();
    let first = ctx.get_webrender_image_for_url(&mut store, OpaqueNode(1), url.to_string(), UsePlaceholder::No);
    assert_eq!(first, Ok(image));
    // The cache changes in between: it no longer has the image at all.
    let mut changed = ImageCacheStore::new(None, String::new());
    let second = ctx.get_webrender_image_for_url(&mut changed, OpaqueNode(3), url.to_string(), UsePlaceholder::No);
    assert_eq!(second, Ok(image));
    assert!(changed.loads.is_empty());
    assert_eq!(ctx.resolved_image_cache.len(), 1);
    // Another placeholder preference is another entry.
    let third = ctx.get_webrender_image_for_url(&mut changed, OpaqueNode(3), url.to_string(), UsePlaceholder::Yes);
    assert_eq!(third, Err(ResolveImageError::ImageRequested));
    ctx.take_pending_images();
}

#[test]
fn get_or_request_returns_what_is_available() {
    let url = "https://example.org/a.png";
    let image = Image::Raster(raster_image(8, 8, 1, 1));
    let mut store = store_with(url, image);
    let mut ctx = new_context();
    let r = ctx.get_or_request_image_or_meta(&mut store, OpaqueNode(1), url.to_string(), UsePlaceholder::No);
    match r {
        Ok(image_resolution::cache::ImageOrMetadataAvailable::ImageAvailable { image: got, .. }) => assert_eq!(got, image),
        other => panic!("unexpected {:?}", other),
    }
    assert!(ctx.is_drained());
}

#[test]
fn animation_transitions() {
    let mut ctx = new_context();
    let node = OpaqueNode(4);
    let still_a = raster_image(1, 1, 10, 1);
    let animated_b = raster_image(1, 1, 11, 5);
    let still_c = raster_image(1, 1, 12, 1);
    ctx.handle_animated_image(node, still_a);
    assert!(ctx.node_image_animation_map.get(&4).is_none());
    ctx.handle_animated_image(node, animated_b);
    let entry = *ctx.node_image_animation_map.get(&4).expect("tracked");
    assert_eq!(entry.image_key(), Some(ImageKey(11)));
    ctx.handle_animated_image(node, animated_b);
    assert_eq!(*ctx.node_image_animation_map.get(&4).expect("still tracked"), entry);
    ctx.handle_animated_image(node, still_c);
    assert!(ctx.node_image_animation_map.get(&4).is_none());
}

#[test]
fn same_key_keeps_tracking_even_when_not_animating() {
    let mut ctx = new_context();
    let node = OpaqueNode(4);
    ctx.handle_animated_image(node, raster_image(1, 1, 11, 5));
    ctx.handle_animated_image(node, raster_image(1, 1, 11, 1));
    assert_eq!(ctx.node_image_animation_map.get(&4).map(|s| s.image.frame_count), Some(5));
}

#[test]
fn resolving_an_animated_image_tracks_it() {
    let url = "https://example.org/a.gif";
    let mut store = store_with(url, Image::Raster(raster_image(8, 8, 3, 4)));
    let mut ctx = new_context();
    let value = url_value(url);
    ctx.resolve_image(&mut store, Some(OpaqueNode(6)), &value).expect("resolved");
    assert_eq!(ctx.node_image_animation_map.get(&6).and_then(|s| s.image_key()), Some(ImageKey(3)));
}

#[test]
fn missing_rasterization_is_queued() {
    let store = ImageCacheStore::new(None, String::new());
    let mut ctx = new_context();
    let size = DeviceIntSize { width: 10, height: 10 };
    assert_eq!(ctx.rasterize_vector_image(&store, PendingImageId(0), size, OpaqueNode(2)), None);
    assert!(!ctx.is_drained());
    let queued = ctx.take_pending_rasterization_images();
    assert_eq!(queued.len(), 1);
    assert_eq!(queued[0].id, PendingImageId(0));
    assert_eq!(queued[0].node, OpaqueNode(2));
    assert_eq!(queued[0].size, size);
    assert!(ctx.is_drained());
}

#[test]
fn completed_rasterization_is_not_queued() {
    let mut store = ImageCacheStore::new(None, String::new());
    let size = DeviceIntSize { width: 10, height: 10 };
    let image = raster_image(10, 10, 1, 1);
    store.complete_rasterization(PipelineId(1), PendingImageId(0), size, image);
    let mut ctx = new_context();
    assert_eq!(ctx.rasterize_vector_image(&store, PendingImageId(0), size, OpaqueNode(2)), Some(image));
    assert!(ctx.is_drained());
}
