use image_resolution::cache::{
    FetchEvent, ImageCacheMessage, ImageCacheResult, ImageCacheStore, ImageLoadListener,
    ImageOrMetadataAvailable, ImageResponse, ImmutableOrigin, ResponseChannel,
};
use image_resolution::image::{
    CorsStatus, DeviceIntSize, Image, ImageKey, ImageMetadata, PendingImageId, PipelineId,
    RasterImage, UsePlaceholder,
};

fn origin() -> ImmutableOrigin {
    ImmutableOrigin::Tuple("https://example.org".to_string())
}

fn raster(width: u32, height: u32, key: u64, frame_count: usize) -> RasterImage {
    RasterImage { width, height, id: Some(ImageKey(key)), cors_status: CorsStatus::Safe, frame_count }
}

fn query(store: &mut ImageCacheStore, url: &str, use_placeholder: UsePlaceholder) -> ImageCacheResult {
    store.get_cached_image_status(url.to_string(), origin(), None, use_placeholder)
}

fn is_pending(r: &ImageCacheResult, id: u64) -> bool {
    matches!(r, ImageCacheResult::Pending(PendingImageId(n)) if *n == id)
}

fn is_ready(r: &ImageCacheResult, id: u64) -> bool {
    matches!(r, ImageCacheResult::ReadyForRequest(PendingImageId(n)) if *n == id)
}

#[test]
fn first_query_requests_and_later_ones_wait() {
    let mut store = ImageCacheStore::new(None, String::new());
    let first = query(&mut store, "https://example.org/a.png", UsePlaceholder::No);
    assert!(is_ready(&first, 0));
    for _ in 0..5 {
        let later = query(&mut store, "https://example.org/a.png", UsePlaceholder::No);
        assert!(is_pending(&later, 0));
    }
    assert_eq!(store.loads.len(), 1);
}

#[test]
fn distinct_resources_get_distinct_ids() {
    let mut store = ImageCacheStore::new(None, String::new());
    assert!(is_ready(&query(&mut store, "https://example.org/a.png", UsePlaceholder::No), 0));
    assert!(is_ready(&query(&mut store, "https://example.org/b.png", UsePlaceholder::No), 1));
    assert!(is_ready(&query(&mut store, "https://example.org/a.png", UsePlaceholder::Yes), 2));
    let other_origin = store.get_cached_image_status(
        "https://example.org/a.png".to_string(),
        ImmutableOrigin::Opaque(7),
        None,
        UsePlaceholder::No,
    );
    assert!(is_ready(&other_origin, 3));
    assert!(is_pending(&query(&mut store, "https://example.org/b.png", UsePlaceholder::No), 1));
}

#[test]
fn completed_load_is_available_for_good() {
    let mut store = ImageCacheStore::new(None, String::new());
    query(&mut store, "https://example.org/a.png", UsePlaceholder::No);
    let image = Image::Raster(raster(10, 20, 1, 1));
    let sent = store.notify_pending_response(PendingImageId(0), FetchEvent::Decoded(image));
    assert!(sent.is_empty());
    match query(&mut store, "https://example.org/a.png", UsePlaceholder::No) {
        ImageCacheResult::Available(ImageOrMetadataAvailable::ImageAvailable { image: got, url, is_placeholder }) => {
            assert_eq!(got, image);
            assert_eq!(url, "https://example.org/a.png");
            assert!(!is_placeholder);
        },
        other => panic!("unexpected {:?}", other),
    }
    let again = store.notify_pending_response(PendingImageId(0), FetchEvent::Failed);
    assert!(again.is_empty());
    assert_eq!(store.get_image("https://example.org/a.png".to_string(), origin(), None), Some(image));
}

#[test]
fn get_image_makes_no_record() {
    let store = ImageCacheStore::new(None, String::new());
    assert_eq!(store.get_image("https://example.org/a.png".to_string(), origin(), None), None);
    assert_eq!(store.loads.len(), 0);
}

#[test]
fn failed_load_is_a_load_error() {
    let mut store = ImageCacheStore::new(None, String::new());
    query(&mut store, "https://example.org/a.png", UsePlaceholder::No);
    store.notify_pending_response(PendingImageId(0), FetchEvent::Failed);
    assert!(matches!(query(&mut store, "https://example.org/a.png", UsePlaceholder::No), ImageCacheResult::LoadError));
}

#[test]
fn failed_load_with_placeholder_serves_the_placeholder() {
    let placeholder = raster(32, 32, 99, 1);
    let mut store = ImageCacheStore::new(Some(placeholder), "https://example.org/placeholder.png".to_string());
    query(&mut store, "https://example.org/a.png", UsePlaceholder::Yes);
    let listener = ImageLoadListener::new(ResponseChannel(5), PipelineId(1), PendingImageId(0));
    assert!(store.add_listener(listener).is_none());
    let sent = store.notify_pending_response(PendingImageId(0), FetchEvent::Failed);
    assert_eq!(sent.len(), 1);
    match &sent[0].message {
        ImageCacheMessage::NotifyPendingImageLoadStatus(msg) => match &msg.response {
            ImageResponse::PlaceholderLoaded(image, url) => {
                assert_eq!(*image, placeholder);
                assert_eq!(url, "https://example.org/placeholder.png");
            },
            other => panic!("unexpected {:?}", other),
        },
        other => panic!("unexpected {:?}", other),
    }
    match query(&mut store, "https://example.org/a.png", UsePlaceholder::Yes) {
        ImageCacheResult::Available(ImageOrMetadataAvailable::ImageAvailable { is_placeholder, .. }) => {
            assert!(is_placeholder)
        },
        other => panic!("unexpected {:?}", other),
    }
}

#[test]
fn metadata_is_available_before_the_image() {
    let mut store = ImageCacheStore::new(None, String::new());
    query(&mut store, "https://example.org/a.png", UsePlaceholder::No);
    let listener = ImageLoadListener::new(ResponseChannel(1), PipelineId(1), PendingImageId(0));
    store.add_listener(listener);
    let metadata = ImageMetadata { width: 4, height: 3 };
    let sent = store.notify_pending_response(PendingImageId(0), FetchEvent::Metadata(metadata));
    assert_eq!(sent.len(), 1);
    match query(&mut store, "https://example.org/a.png", UsePlaceholder::No) {
        ImageCacheResult::Available(ImageOrMetadataAvailable::MetadataAvailable(m, id)) => {
            assert_eq!(m, metadata);
            assert_eq!(id, PendingImageId(0));
        },
        other => panic!("unexpected {:?}", other),
    }
    // The listener stays until the load ends.
    let ended = store.notify_pending_response(PendingImageId(0), FetchEvent::Decoded(Image::Raster(raster(4, 3, 1, 1))));
    assert_eq!(ended.len(), 1);
}

#[test]
fn listener_before_resolution_hears_once() {
    let mut store = ImageCacheStore::new(None, String::new());
    query(&mut store, "https://example.org/a.png", UsePlaceholder::No);
    let listener = ImageLoadListener::new(ResponseChannel(3), PipelineId(9), PendingImageId(0));
    assert!(store.add_listener(listener).is_none());
    let image = Image::Raster(raster(1, 1, 1, 1));
    let sent = store.notify_pending_response(PendingImageId(0), FetchEvent::Decoded(image));
    assert_eq!(sent.len(), 1);
    assert_eq!(sent[0].channel, ResponseChannel(3));
    match &sent[0].message {
        ImageCacheMessage::NotifyPendingImageLoadStatus(msg) => {
            assert_eq!(msg.pipeline_id, PipelineId(9));
            assert_eq!(msg.id, PendingImageId(0));
            assert!(matches!(&msg.response, ImageResponse::Loaded(got, _) if *got == image));
        },
        other => panic!("unexpected {:?}", other),
    }
    let later = store.notify_pending_response(PendingImageId(0), FetchEvent::Failed);
    assert!(later.is_empty());
}

#[test]
fn listener_after_resolution_is_replayed_once() {
    let mut store = ImageCacheStore::new(None, String::new());
    query(&mut store, "https://example.org/a.png", UsePlaceholder::No);
    store.notify_pending_response(PendingImageId(0), FetchEvent::Failed);
    let listener = ImageLoadListener::new(ResponseChannel(4), PipelineId(2), PendingImageId(0));
    let replay = store.add_listener(listener).expect("a replayed answer");
    assert_eq!(replay.channel, ResponseChannel(4));
    match &replay.message {
        ImageCacheMessage::NotifyPendingImageLoadStatus(msg) => {
            assert!(matches!(msg.response, ImageResponse::NoImage))
        },
        other => panic!("unexpected {:?}", other),
    }
    assert!(store.loads[0].listeners.is_empty());
    assert!(store.notify_pending_response(PendingImageId(0), FetchEvent::Failed).is_empty());
}

#[test]
fn listener_for_unknown_id_is_dropped() {
    let mut store = ImageCacheStore::new(None, String::new());
    let listener = ImageLoadListener::new(ResponseChannel(4), PipelineId(2), PendingImageId(8));
    assert!(store.add_listener(listener).is_none());
    assert!(store.notify_pending_response(PendingImageId(8), FetchEvent::Failed).is_empty());
}

#[test]
fn respond_wraps_the_response() {
    let listener = ImageLoadListener::new(ResponseChannel(6), PipelineId(2), PendingImageId(3));
    let n = listener.respond(ImageResponse::MetadataLoaded(ImageMetadata { width: 1, height: 2 }));
    assert_eq!(n.channel, ResponseChannel(6));
    match n.message {
        ImageCacheMessage::NotifyPendingImageLoadStatus(msg) => {
            assert_eq!(msg.id, PendingImageId(3));
            assert_eq!(msg.pipeline_id, PipelineId(2));
        },
        other => panic!("unexpected {:?}", other),
    }
}

#[test]
fn rasterization_listeners_hear_once() {
    let mut store = ImageCacheStore::new(None, String::new());
    let size = DeviceIntSize { width: 64, height: 64 };
    let other_size = DeviceIntSize { width: 32, height: 32 };
    assert_eq!(store.rasterize_vector_image(PipelineId(1), PendingImageId(0), size), None);
    assert!(store.add_rasterization_complete_listener(PipelineId(1), PendingImageId(0), size, ResponseChannel(1)).is_none());
    assert!(store.add_rasterization_complete_listener(PipelineId(1), PendingImageId(0), other_size, ResponseChannel(2)).is_none());
    let image = raster(64, 64, 5, 1);
    let sent = store.complete_rasterization(PipelineId(1), PendingImageId(0), size, image);
    assert_eq!(sent.len(), 1);
    assert_eq!(sent[0].channel, ResponseChannel(1));
    assert!(matches!(sent[0].message, ImageCacheMessage::VectorImageRasterizationCompleted(PipelineId(1), PendingImageId(0), s) if s == size));
    assert_eq!(store.rasterization_listeners.len(), 1);
    assert_eq!(store.rasterize_vector_image(PipelineId(1), PendingImageId(0), size), Some(image));
    let late = store.add_rasterization_complete_listener(PipelineId(1), PendingImageId(0), size, ResponseChannel(7));
    assert_eq!(late.map(|n| n.channel), Some(ResponseChannel(7)));
    assert!(store.complete_rasterization(PipelineId(1), PendingImageId(0), size, image).is_empty());
}

#[test]
fn new_image_cache_is_empty() {
    let mut store = ImageCacheStore::new(None, "p".to_string());
    query(&mut store, "https://example.org/a.png", UsePlaceholder::No);
    let fresh = store.create_new_image_cache();
    assert!(fresh.loads.is_empty());
    assert_eq!(fresh.placeholder_url, "p");
}

#[test]
fn image_accessors() {
    let r = raster(7, 9, 1, 3);
    assert!(r.should_animate());
    assert!(!raster(7, 9, 1, 1).should_animate());
    let image = Image::Raster(r);
    assert_eq!(image.metadata(), ImageMetadata { width: 7, height: 9 });
    assert_eq!(image.cors_status(), CorsStatus::Safe);
    assert_eq!(image.as_raster_image(), Some(r));
    let vector = Image::Vector(ImageMetadata { width: 5, height: 6 }, PendingImageId(2), CorsStatus::Unsafe);
    assert_eq!(vector.metadata(), ImageMetadata { width: 5, height: 6 });
    assert_eq!(vector.cors_status(), CorsStatus::Unsafe);
    assert_eq!(vector.as_raster_image(), None);
}
