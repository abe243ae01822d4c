//! The image cache store: one request per resource, loads in flight, and the
//! listeners that are told when a load ends.
//!
//! The store is a plain value. Sharing it between threads is the embedder's
//! business: every operation takes `&mut self`, so a lock around the store
//! serializes calls in some order, and the contracts below hold of each call
//! in that order. Messages are not sent from here: the operations return
//! them, paired with the channel that they are for.

use vstd::prelude::*;

use crate::image::{
    DeviceIntSize, Image, ImageMetadata, PendingImageId, PipelineId, RasterImage, UsePlaceholder,
};

verus! {

/// A channel on which the embedder delivers messages to one requester.
#[derive(Clone, Copy, Debug, PartialEq, Eq, Structural)]
pub struct ResponseChannel(pub u64);

/// The CORS mode of a request.
#[derive(Clone, Copy, Debug, PartialEq, Eq, Structural)]
pub enum CorsSettings {
    Anonymous,
    UseCredentials,
}

/// The origin of the document that requests an image: an opaque origin, by
/// its unique number, or a tuple origin, by its serialization.
#[derive(Debug)]
pub enum ImmutableOrigin {
    Opaque(u64),
    Tuple(String),
}

pub enum OriginView {
    Opaque(u64),
    Tuple(Seq<char>),
}

impl View for ImmutableOrigin {
    type V = OriginView;

    open spec fn view(&self) -> OriginView {
        match self {
            ImmutableOrigin::Opaque(n) => OriginView::Opaque(*n),
            ImmutableOrigin::Tuple(s) => OriginView::Tuple(s@),
        }
    }
}

impl Clone for ImmutableOrigin {
    fn clone(&self) -> (r: Self)
        ensures
            r == *self,
    {
        match self {
            ImmutableOrigin::Opaque(n) => ImmutableOrigin::Opaque(*n),
            ImmutableOrigin::Tuple(s) => ImmutableOrigin::Tuple(s.clone()),
        }
    }
}

impl ImmutableOrigin {
    pub fn same_origin(&self, other: &ImmutableOrigin) -> (r: bool)
        ensures
            r == (self@ == other@),
    {
        match (self, other) {
            (ImmutableOrigin::Opaque(a), ImmutableOrigin::Opaque(b)) => *a == *b,
            (ImmutableOrigin::Tuple(a), ImmutableOrigin::Tuple(b)) => {
                let r = *a == *b;
                proof {
                    if !r {
                        assert(self@ != other@);
                    }
                }
                r
            },
            _ => false,
        }
    }
}

/// What identifies a cacheable request. Two requests for the same URL that
/// differ in placeholder preference are different resources.
#[derive(Debug)]
pub struct ResourceKey {
    pub url: String,
    pub origin: ImmutableOrigin,
    pub cors_setting: Option<CorsSettings>,
    pub use_placeholder: UsePlaceholder,
}

pub struct ResourceKeyView {
    pub url: Seq<char>,
    pub origin: OriginView,
    pub cors_setting: Option<CorsSettings>,
    pub use_placeholder: UsePlaceholder,
}

impl View for ResourceKey {
    type V = ResourceKeyView;

    open spec fn view(&self) -> ResourceKeyView {
        ResourceKeyView {
            url: self.url@,
            origin: self.origin@,
            cors_setting: self.cors_setting,
            use_placeholder: self.use_placeholder,
        }
    }
}

impl Clone for ResourceKey {
    fn clone(&self) -> (r: Self)
        ensures
            r == *self,
    {
        ResourceKey {
            url: self.url.clone(),
            origin: self.origin.clone(),
            cors_setting: self.cors_setting,
            use_placeholder: self.use_placeholder,
        }
    }
}

impl ResourceKey {
    pub fn same_resource(&self, other: &ResourceKey) -> (r: bool)
        ensures
            r == (self@ == other@),
    {
        let same_cors = match (self.cors_setting, other.cors_setting) {
            (None, None) => true,
            (Some(a), Some(b)) => a == b,
            _ => false,
        };
        let same_url = self.url == other.url;
        if !same_url {
            assert(self@.url != other@.url);
            return false;
        }
        if !self.origin.same_origin(&other.origin) {
            return false;
        }
        same_cors && self.use_placeholder == other.use_placeholder
    }
}


/// What is available of a resource: the whole image, or its metadata only.
#[derive(Debug)]
pub enum ImageOrMetadataAvailable {
    ImageAvailable { image: Image, url: String, is_placeholder: bool },
    MetadataAvailable(ImageMetadata, PendingImageId),
}

/// The news that a listener receives about a load.
#[derive(Debug)]
pub enum ImageResponse {
    /// The requested image was loaded.
    Loaded(Image, String),
    /// The requested image's metadata was loaded.
    MetadataLoaded(ImageMetadata),
    /// The requested image failed to load, so a placeholder was loaded instead.
    PlaceholderLoaded(RasterImage, String),
    /// Neither the requested image nor a placeholder could be loaded.
    NoImage,
}

impl Clone for ImageResponse {
    fn clone(&self) -> (r: Self)
        ensures
            r == *self,
    {
        match self {
            ImageResponse::Loaded(image, url) => ImageResponse::Loaded(*image, url.clone()),
            ImageResponse::MetadataLoaded(metadata) => ImageResponse::MetadataLoaded(*metadata),
            ImageResponse::PlaceholderLoaded(image, url) => ImageResponse::PlaceholderLoaded(
                *image,
                url.clone(),
            ),
            ImageResponse::NoImage => ImageResponse::NoImage,
        }
    }
}

#[derive(Debug)]
pub struct PendingImageResponse {
    pub pipeline_id: PipelineId,
    pub response: ImageResponse,
    pub id: PendingImageId,
}

/// A message from the image cache to a requester.
#[derive(Debug)]
pub enum ImageCacheMessage {
    NotifyPendingImageLoadStatus(PendingImageResponse),
    VectorImageRasterizationCompleted(PipelineId, PendingImageId, DeviceIntSize),
}

/// A message and the channel that it is to be delivered on.
#[derive(Debug)]
pub struct Notification {
    pub channel: ResponseChannel,
    pub message: ImageCacheMessage,
}

/// Interest in the outcome of one pending image, to be answered on a channel.
#[derive(Clone, Copy, Debug, PartialEq, Eq, Structural)]
pub struct ImageLoadListener {
    pub pipeline_id: PipelineId,
    pub id: PendingImageId,
    pub sender: ResponseChannel,
}

impl ImageLoadListener {
    pub fn new(sender: ResponseChannel, pipeline_id: PipelineId, id: PendingImageId) -> (r:
        ImageLoadListener)
        ensures
            r == (ImageLoadListener { pipeline_id, id, sender }),
    {
        ImageLoadListener { pipeline_id, sender, id }
    }

    /// The notification that tells this listener of `response`.
    pub open spec fn notification(self, response: ImageResponse) -> Notification {
        Notification {
            channel: self.sender,
            message: ImageCacheMessage::NotifyPendingImageLoadStatus(
                PendingImageResponse { pipeline_id: self.pipeline_id, response, id: self.id },
            ),
        }
    }

    pub fn respond(&self, response: ImageResponse) -> (r: Notification)
        ensures
            r == self.notification(response),
    {
        Notification {
            channel: self.sender,
            message: ImageCacheMessage::NotifyPendingImageLoadStatus(
                PendingImageResponse { pipeline_id: self.pipeline_id, response, id: self.id },
            ),
        }
    }
}

/// The outcome of a status query.
#[derive(Debug)]
pub enum ImageCacheResult {
    /// The image, or its metadata, is there.
    Available(ImageOrMetadataAvailable),
    /// The resource failed to load, for good.
    LoadError,
    /// A load is in flight: the caller must not start another.
    Pending(PendingImageId),
    /// The caller is the first to ask, and is to start the load.
    ReadyForRequest(PendingImageId),
}

/// Where the load of one resource stands.
#[derive(Clone, Copy, Debug, PartialEq, Eq, Structural)]
pub enum LoadState {
    /// In flight; the metadata, once decoded.
    InFlight(Option<ImageMetadata>),
    Loaded(Image),
    /// The load failed and the placeholder stands in for it.
    Placeholder(RasterImage),
    Failed,
}

/// What the transport and the decoder report about a pending load.
#[derive(Clone, Copy, Debug, PartialEq, Eq, Structural)]
pub enum FetchEvent {
    Metadata(ImageMetadata),
    Decoded(Image),
    Failed,
}

/// The record of one requested resource; its id is its position in the store.
#[derive(Debug)]
pub struct LoadRecord {
    pub key: ResourceKey,
    pub state: LoadState,
    pub listeners: Vec<ImageLoadListener>,
}

pub struct LoadView {
    pub key: ResourceKey,
    pub state: LoadState,
    pub listeners: Seq<ImageLoadListener>,
}

impl View for LoadRecord {
    type V = LoadView;

    open spec fn view(&self) -> LoadView {
        LoadView { key: self.key, state: self.state, listeners: self.listeners@ }
    }
}

/// A vector image rasterized at one device size for one pipeline.
#[derive(Clone, Copy, Debug, PartialEq, Eq, Structural)]
pub struct RasterizedImage {
    pub pipeline_id: PipelineId,
    pub image_id: PendingImageId,
    pub size: DeviceIntSize,
    pub image: RasterImage,
}

/// Interest in the rasterization of a vector image at one device size.
#[derive(Clone, Copy, Debug, PartialEq, Eq, Structural)]
pub struct RasterizationListener {
    pub pipeline_id: PipelineId,
    pub image_id: PendingImageId,
    pub size: DeviceIntSize,
    pub sender: ResponseChannel,
}

impl RasterizationListener {
    pub open spec fn waits_for(self, pipeline_id: PipelineId, image_id: PendingImageId, size: DeviceIntSize) -> bool {
        self.pipeline_id == pipeline_id && self.image_id == image_id && self.size == size
    }

    pub open spec fn notification(self) -> Notification {
        Notification {
            channel: self.sender,
            message: ImageCacheMessage::VectorImageRasterizationCompleted(
                self.pipeline_id,
                self.image_id,
                self.size,
            ),
        }
    }
}

/// Whether some record is for the resource `k`.
pub open spec fn known(loads: Seq<LoadView>, k: ResourceKeyView) -> bool {
    exists|i: int| 0 <= i < loads.len() && (#[trigger] loads[i]).key@ == k
}

/// The position of the record for `k`, where `known(loads, k)`.
pub open spec fn index_of(loads: Seq<LoadView>, k: ResourceKeyView) -> int {
    choose|i: int| 0 <= i < loads.len() && (#[trigger] loads[i]).key@ == k
}

pub open spec fn keys_unique(loads: Seq<LoadView>) -> bool {
    forall|i: int, j: int|
        0 <= i < loads.len() && 0 <= j < loads.len() && i != j ==> (#[trigger] loads[i]).key@
            != (#[trigger] loads[j]).key@
}

/// The answer to a status query on a known record.
pub open spec fn record_status(rec: LoadView, id: PendingImageId, placeholder_url: String) -> ImageCacheResult {
    match rec.state {
        LoadState::InFlight(None) => ImageCacheResult::Pending(id),
        LoadState::InFlight(Some(metadata)) => ImageCacheResult::Available(
            ImageOrMetadataAvailable::MetadataAvailable(metadata, id),
        ),
        LoadState::Loaded(image) => ImageCacheResult::Available(
            ImageOrMetadataAvailable::ImageAvailable { image, url: rec.key.url, is_placeholder: false },
        ),
        LoadState::Placeholder(image) => ImageCacheResult::Available(
            ImageOrMetadataAvailable::ImageAvailable {
                image: Image::Raster(image),
                url: placeholder_url,
                is_placeholder: true,
            },
        ),
        LoadState::Failed => ImageCacheResult::LoadError,
    }
}

/// The answer to a status query for `k`.
pub open spec fn status_result(loads: Seq<LoadView>, placeholder_url: String, k: ResourceKeyView) -> ImageCacheResult {
    if known(loads, k) {
        let i = index_of(loads, k);
        record_status(loads[i], PendingImageId(i as u64), placeholder_url)
    } else {
        ImageCacheResult::ReadyForRequest(PendingImageId(loads.len() as u64))
    }
}

/// The records after a status query for `key`: a resource seen for the first
/// time gets a record, in flight, at the end.
pub open spec fn status_next(loads: Seq<LoadView>, key: ResourceKey) -> Seq<LoadView> {
    if known(loads, key@) {
        loads
    } else {
        loads.push(LoadView { key, state: LoadState::InFlight(None), listeners: Seq::empty() })
    }
}

/// The final response of a record, once its load has ended.
pub open spec fn terminal_response(rec: LoadView, placeholder_url: String) -> Option<ImageResponse> {
    match rec.state {
        LoadState::InFlight(_) => None,
        LoadState::Loaded(image) => Some(ImageResponse::Loaded(image, rec.key.url)),
        LoadState::Placeholder(image) => Some(ImageResponse::PlaceholderLoaded(image, placeholder_url)),
        LoadState::Failed => Some(ImageResponse::NoImage),
    }
}

pub open spec fn listener_result(loads: Seq<LoadView>, placeholder_url: String, l: ImageLoadListener) -> Option<Notification> {
    if l.id.0 < loads.len() {
        match terminal_response(loads[l.id.0 as int], placeholder_url) {
            Some(response) => Some(l.notification(response)),
            None => None,
        }
    } else {
        None
    }
}

pub open spec fn listener_next(loads: Seq<LoadView>, l: ImageLoadListener) -> Seq<LoadView> {
    if l.id.0 < loads.len() && loads[l.id.0 as int].state is InFlight {
        let rec = loads[l.id.0 as int];
        loads.update(l.id.0 as int, LoadView { listeners: rec.listeners.push(l), ..rec })
    } else {
        loads
    }
}

/// The state that `event` moves an in-flight record to, and the response
/// that its listeners receive.
pub open spec fn event_outcome(
    rec: LoadView,
    placeholder_image: Option<RasterImage>,
    placeholder_url: String,
    event: FetchEvent,
) -> (LoadState, ImageResponse) {
    match event {
        FetchEvent::Metadata(metadata) => (
            LoadState::InFlight(Some(metadata)),
            ImageResponse::MetadataLoaded(metadata),
        ),
        FetchEvent::Decoded(image) => (LoadState::Loaded(image), ImageResponse::Loaded(image, rec.key.url)),
        FetchEvent::Failed => match (rec.key.use_placeholder, placeholder_image) {
            (UsePlaceholder::Yes, Some(image)) => (
                LoadState::Placeholder(image),
                ImageResponse::PlaceholderLoaded(image, placeholder_url),
            ),
            _ => (LoadState::Failed, ImageResponse::NoImage),
        },
    }
}

pub open spec fn notifications(listeners: Seq<ImageLoadListener>, response: ImageResponse) -> Seq<Notification> {
    listeners.map_values(|l: ImageLoadListener| l.notification(response))
}

pub open spec fn event_applies(loads: Seq<LoadView>, id: PendingImageId) -> bool {
    id.0 < loads.len() && loads[id.0 as int].state is InFlight
}

pub open spec fn event_next(
    loads: Seq<LoadView>,
    placeholder_image: Option<RasterImage>,
    placeholder_url: String,
    id: PendingImageId,
    event: FetchEvent,
) -> Seq<LoadView> {
    if event_applies(loads, id) {
        let rec = loads[id.0 as int];
        let state = event_outcome(rec, placeholder_image, placeholder_url, event).0;
        let listeners = if event is Metadata { rec.listeners } else { Seq::empty() };
        loads.update(id.0 as int, LoadView { key: rec.key, state, listeners })
    } else {
        loads
    }
}

pub open spec fn event_result(
    loads: Seq<LoadView>,
    placeholder_image: Option<RasterImage>,
    placeholder_url: String,
    id: PendingImageId,
    event: FetchEvent,
) -> Seq<Notification> {
    if event_applies(loads, id) {
        let rec = loads[id.0 as int];
        notifications(rec.listeners, event_outcome(rec, placeholder_image, placeholder_url, event).1)
    } else {
        Seq::empty()
    }
}


/// The image held for `k`, where its load completed without a placeholder.
pub open spec fn cached_image(loads: Seq<LoadView>, k: ResourceKeyView) -> Option<Image> {
    if known(loads, k) {
        match loads[index_of(loads, k)].state {
            LoadState::Loaded(image) => Some(image),
            _ => None,
        }
    } else {
        None
    }
}

pub open spec fn rasterized_for(
    entries: Seq<RasterizedImage>,
    pipeline_id: PipelineId,
    image_id: PendingImageId,
    size: DeviceIntSize,
) -> bool {
    exists|i: int|
        0 <= i < entries.len() && (#[trigger] entries[i]).pipeline_id == pipeline_id
            && entries[i].image_id == image_id && entries[i].size == size
}

/// The rasterization of `image_id` at `size` for `pipeline_id`, if one was completed.
pub open spec fn rasterized_lookup(
    entries: Seq<RasterizedImage>,
    pipeline_id: PipelineId,
    image_id: PendingImageId,
    size: DeviceIntSize,
) -> Option<RasterImage> {
    if rasterized_for(entries, pipeline_id, image_id, size) {
        let i = choose|i: int|
            0 <= i < entries.len() && (#[trigger] entries[i]).pipeline_id == pipeline_id
                && entries[i].image_id == image_id && entries[i].size == size;
        Some(entries[i].image)
    } else {
        None
    }
}

pub open spec fn rasterized_unique(entries: Seq<RasterizedImage>) -> bool {
    forall|i: int, j: int|
        0 <= i < entries.len() && 0 <= j < entries.len() && i != j ==> !((#[trigger] entries[i]).pipeline_id
            == (#[trigger] entries[j]).pipeline_id && entries[i].image_id == entries[j].image_id
            && entries[i].size == entries[j].size)
}

/// The notifications for the listeners in `ls` that wait for this rasterization, in order.
pub open spec fn rasterization_notifications(
    ls: Seq<RasterizationListener>,
    pipeline_id: PipelineId,
    image_id: PendingImageId,
    size: DeviceIntSize,
) -> Seq<Notification>
    decreases ls.len(),
{
    if ls.len() == 0 {
        Seq::empty()
    } else {
        let earlier = rasterization_notifications(ls.drop_last(), pipeline_id, image_id, size);
        if ls.last().waits_for(pipeline_id, image_id, size) {
            earlier.push(ls.last().notification())
        } else {
            earlier
        }
    }
}

/// The listeners in `ls` that wait for something else, in order.
pub open spec fn rasterization_remaining(
    ls: Seq<RasterizationListener>,
    pipeline_id: PipelineId,
    image_id: PendingImageId,
    size: DeviceIntSize,
) -> Seq<RasterizationListener>
    decreases ls.len(),
{
    if ls.len() == 0 {
        Seq::empty()
    } else {
        let earlier = rasterization_remaining(ls.drop_last(), pipeline_id, image_id, size);
        if ls.last().waits_for(pipeline_id, image_id, size) {
            earlier
        } else {
            earlier.push(ls.last())
        }
    }
}

/// The shared store of images and of the loads in flight.
#[derive(Debug)]
pub struct ImageCacheStore {
    pub loads: Vec<LoadRecord>,
    pub rasterized: Vec<RasterizedImage>,
    pub rasterization_listeners: Vec<RasterizationListener>,
    pub placeholder_image: Option<RasterImage>,
    pub placeholder_url: String,
}

impl ImageCacheStore {
    pub open spec fn records(&self) -> Seq<LoadView> {
        self.loads@.map_values(|r: LoadRecord| r@)
    }

    pub open spec fn wf(&self) -> bool {
        &&& keys_unique(self.records())
        &&& rasterized_unique(self.rasterized@)
    }

    /// An empty store, with the placeholder image that stands in for failed
    /// loads of requesters that accept one.
    pub fn new(placeholder_image: Option<RasterImage>, placeholder_url: String) -> (r: ImageCacheStore)
        ensures
            r.wf(),
            r.records() == Seq::<LoadView>::empty(),
            r.rasterized@ == Seq::<RasterizedImage>::empty(),
            r.rasterization_listeners@ == Seq::<RasterizationListener>::empty(),
            r.placeholder_image == placeholder_image,
            r.placeholder_url == placeholder_url,
    {
        let r = ImageCacheStore {
            loads: Vec::new(),
            rasterized: Vec::new(),
            rasterization_listeners: Vec::new(),
            placeholder_image,
            placeholder_url,
        };
        assert(r.records() =~= Seq::<LoadView>::empty());
        r
    }

    /// The position of the record for `key`, if there is one.
    fn find(&self, key: &ResourceKey) -> (r: Option<usize>)
        requires
            self.wf(),
        ensures
            match r {
                Some(i) => {
                    &&& known(self.records(), key@)
                    &&& i == index_of(self.records(), key@)
                    &&& i < self.loads@.len()
                },
                None => !known(self.records(), key@),
            },
    {
        let mut i: usize = 0;
        while i < self.loads.len()
            invariant
                i <= self.loads@.len(),
                self.wf(),
                forall|j: int| 0 <= j < i ==> (#[trigger] self.records()[j]).key@ != key@,
            decreases self.loads@.len() - i,
        {
            if self.loads[i].key.same_resource(key) {
                proof {
                    let recs = self.records();
                    assert(recs[i as int].key@ == key@);
                    let k = index_of(recs, key@);
                    assert(recs[k].key@ == key@);
                    assert(k == i);
                }
                return Some(i);
            }
            i = i + 1;
        }
        None
    }

    fn status_at(&self, i: usize) -> (r: ImageCacheResult)
        requires
            i < self.loads@.len(),
        ensures
            r == record_status(self.records()[i as int], PendingImageId(i as u64), self.placeholder_url),
    {
        let id = PendingImageId(i as u64);
        match self.loads[i].state {
            LoadState::InFlight(None) => ImageCacheResult::Pending(id),
            LoadState::InFlight(Some(metadata)) => ImageCacheResult::Available(
                ImageOrMetadataAvailable::MetadataAvailable(metadata, id),
            ),
            LoadState::Loaded(image) => ImageCacheResult::Available(
                ImageOrMetadataAvailable::ImageAvailable {
                    image,
                    url: self.loads[i].key.url.clone(),
                    is_placeholder: false,
                },
            ),
            LoadState::Placeholder(image) => ImageCacheResult::Available(
                ImageOrMetadataAvailable::ImageAvailable {
                    image: Image::Raster(image),
                    url: self.placeholder_url.clone(),
                    is_placeholder: true,
                },
            ),
            LoadState::Failed => ImageCacheResult::LoadError,
        }
    }

    /// The status of a resource. The first query for a resource gets
    /// `ReadyForRequest` with a new id; every later one gets that same id,
    /// as `Pending` while the load is in flight, and its outcome after.
    pub fn get_cached_image_status(
        &mut self,
        url: String,
        origin: ImmutableOrigin,
        cors_setting: Option<CorsSettings>,
        use_placeholder: UsePlaceholder,
    ) -> (r: ImageCacheResult)
        requires
            old(self).wf(),
        ensures
            ({
                let key = ResourceKey { url, origin, cors_setting, use_placeholder };
                &&& r == status_result(old(self).records(), old(self).placeholder_url, key@)
                &&& final(self).records() == status_next(old(self).records(), key)
            }),
            final(self).wf(),
            final(self).rasterized == old(self).rasterized,
            final(self).rasterization_listeners == old(self).rasterization_listeners,
            final(self).placeholder_image == old(self).placeholder_image,
            final(self).placeholder_url == old(self).placeholder_url,
    {
        let key = ResourceKey { url, origin, cors_setting, use_placeholder };
        match self.find(&key) {
            Some(i) => self.status_at(i),
            None => {
                let id = PendingImageId(self.loads.len() as u64);
                let ghost before = self.records();
                self.loads.push(LoadRecord { key, state: LoadState::InFlight(None), listeners: Vec::new() });
                proof {
                    let pushed = LoadView { key, state: LoadState::InFlight(None), listeners: Seq::empty() };
                    assert(self.records() =~= before.push(pushed));
                    assert forall|i: int, j: int|
                        0 <= i < self.records().len() && 0 <= j < self.records().len() && i != j
                        implies (#[trigger] self.records()[i]).key@ != (#[trigger] self.records()[j]).key@ by {
                        if i < before.len() && j < before.len() {
                            assert(before[i] == self.records()[i]);
                            assert(before[j] == self.records()[j]);
                        } else if i < before.len() {
                            assert(before[i] == self.records()[i]);
                        } else {
                            assert(before[j] == self.records()[j]);
                        }
                    }
                }
                ImageCacheResult::ReadyForRequest(id)
            },
        }
    }

    /// The image for a resource, if its load has completed; no record is made.
    pub fn get_image(&self, url: String, origin: ImmutableOrigin, cors_setting: Option<CorsSettings>) -> (r:
        Option<Image>)
        requires
            self.wf(),
        ensures
            r == cached_image(
                self.records(),
                (ResourceKey { url, origin, cors_setting, use_placeholder: UsePlaceholder::No })@,
            ),
    {
        let key = ResourceKey { url, origin, cors_setting, use_placeholder: UsePlaceholder::No };
        match self.find(&key) {
            Some(i) => match self.loads[i].state {
                LoadState::Loaded(image) => Some(image),
                _ => None,
            },
            None => None,
        }
    }

    /// Registers interest in the outcome of a pending image. A listener for a
    /// load that has ended is answered at once; one for a load in flight is
    /// kept until the load ends.
    pub fn add_listener(&mut self, listener: ImageLoadListener) -> (r: Option<Notification>)
        requires
            old(self).wf(),
        ensures
            r == listener_result(old(self).records(), old(self).placeholder_url, listener),
            final(self).records() == listener_next(old(self).records(), listener),
            final(self).wf(),
            final(self).rasterized == old(self).rasterized,
            final(self).rasterization_listeners == old(self).rasterization_listeners,
            final(self).placeholder_image == old(self).placeholder_image,
            final(self).placeholder_url == old(self).placeholder_url,
    {
        if listener.id.0 >= self.loads.len() as u64 {
            return None;
        }
        let i = listener.id.0 as usize;
        match self.loads[i].state {
            LoadState::InFlight(_) => {
                let ghost before = self.records();
                self.loads[i].listeners.push(listener);
                proof {
                    let rec = before[i as int];
                    assert(self.records() =~= before.update(
                        i as int,
                        LoadView { listeners: rec.listeners.push(listener), ..rec },
                    ));
                    assert forall|a: int, b: int|
                        0 <= a < self.records().len() && 0 <= b < self.records().len() && a != b
                        implies (#[trigger] self.records()[a]).key@ != (#[trigger] self.records()[b]).key@ by {
                        assert(before[a].key == self.records()[a].key);
                        assert(before[b].key == self.records()[b].key);
                    }
                }
                None
            },
            LoadState::Loaded(image) => {
                let url = self.loads[i].key.url.clone();
                Some(listener.respond(ImageResponse::Loaded(image, url)))
            },
            LoadState::Placeholder(image) => {
                let url = self.placeholder_url.clone();
                Some(listener.respond(ImageResponse::PlaceholderLoaded(image, url)))
            },
            LoadState::Failed => Some(listener.respond(ImageResponse::NoImage)),
        }
    }

    fn outcome(&self, i: usize, event: FetchEvent) -> (r: (LoadState, ImageResponse))
        requires
            i < self.loads@.len(),
        ensures
            r == event_outcome(self.records()[i as int], self.placeholder_image, self.placeholder_url, event),
    {
        match event {
            FetchEvent::Metadata(metadata) => (
                LoadState::InFlight(Some(metadata)),
                ImageResponse::MetadataLoaded(metadata),
            ),
            FetchEvent::Decoded(image) => (
                LoadState::Loaded(image),
                ImageResponse::Loaded(image, self.loads[i].key.url.clone()),
            ),
            FetchEvent::Failed => match (self.loads[i].key.use_placeholder, self.placeholder_image) {
                (UsePlaceholder::Yes, Some(image)) => (
                    LoadState::Placeholder(image),
                    ImageResponse::PlaceholderLoaded(image, self.placeholder_url.clone()),
                ),
                _ => (LoadState::Failed, ImageResponse::NoImage),
            },
        }
    }

    /// Feeds what the transport and the decoder report about a pending load.
    /// Every listener of the load is told; when the load ends, its outcome
    /// becomes the permanent answer for the resource and its listeners are
    /// let go. Events for an unknown id, or for a load that has ended, change
    /// nothing.
    pub fn notify_pending_response(&mut self, id: PendingImageId, event: FetchEvent) -> (r: Vec<Notification>)
        requires
            old(self).wf(),
        ensures
            r@ == event_result(old(self).records(), old(self).placeholder_image, old(self).placeholder_url, id, event),
            final(self).records() == event_next(
                old(self).records(),
                old(self).placeholder_image,
                old(self).placeholder_url,
                id,
                event,
            ),
            final(self).wf(),
            final(self).rasterized == old(self).rasterized,
            final(self).rasterization_listeners == old(self).rasterization_listeners,
            final(self).placeholder_image == old(self).placeholder_image,
            final(self).placeholder_url == old(self).placeholder_url,
    {
        if id.0 >= self.loads.len() as u64 {
            return Vec::new();
        }
        let i = id.0 as usize;
        let in_flight = match self.loads[i].state {
            LoadState::InFlight(_) => true,
            _ => false,
        };
        if !in_flight {
            return Vec::new();
        }
        let ghost before = self.records();
        let (state, response) = self.outcome(i, event);
        let mut out: Vec<Notification> = Vec::new();
        let mut j: usize = 0;
        while j < self.loads[i].listeners.len()
            invariant
                i < self.loads@.len(),
                self.records() == before,
                j <= self.loads@[i as int].listeners@.len(),
                out@ == notifications(self.loads@[i as int].listeners@.subrange(0, j as int), response),
            decreases self.loads@[i as int].listeners@.len() - j,
        {
            let listener = self.loads[i].listeners[j];
            out.push(listener.respond(response.clone()));
            proof {
                let ls = self.loads@[i as int].listeners@;
                assert(ls.subrange(0, j + 1) =~= ls.subrange(0, j as int).push(ls[j as int]));
                assert(out@ =~= notifications(ls.subrange(0, j + 1), response));
            }
            j = j + 1;
        }
        proof {
            let ls = self.loads@[i as int].listeners@;
            assert(ls.subrange(0, ls.len() as int) =~= ls);
        }
        self.loads[i].state = state;
        let terminal = match event {
            FetchEvent::Metadata(_) => false,
            _ => true,
        };
        if terminal {
            let mut released: Vec<ImageLoadListener> = Vec::new();
            std::mem::swap(&mut self.loads[i].listeners, &mut released);
        }
        proof {
            let rec = before[i as int];
            let listeners = if event is Metadata { rec.listeners } else { Seq::empty() };
            assert(self.records() =~= before.update(i as int, LoadView { key: rec.key, state, listeners }));
            assert forall|a: int, b: int|
                0 <= a < self.records().len() && 0 <= b < self.records().len() && a != b
                implies (#[trigger] self.records()[a]).key@ != (#[trigger] self.records()[b]).key@ by {
                assert(before[a].key == self.records()[a].key);
                assert(before[b].key == self.records()[b].key);
            }
        }
        out
    }

    fn find_rasterized(&self, pipeline_id: PipelineId, image_id: PendingImageId, size: DeviceIntSize) -> (r:
        Option<usize>)
        requires
            self.wf(),
        ensures
            match r {
                Some(i) => i < self.rasterized@.len() && rasterized_lookup(
                    self.rasterized@,
                    pipeline_id,
                    image_id,
                    size,
                ) == Some(self.rasterized@[i as int].image),
                None => !rasterized_for(self.rasterized@, pipeline_id, image_id, size),
            },
    {
        let mut i: usize = 0;
        while i < self.rasterized.len()
            invariant
                i <= self.rasterized@.len(),
                self.wf(),
                forall|j: int|
                    0 <= j < i ==> !((#[trigger] self.rasterized@[j]).pipeline_id == pipeline_id
                        && self.rasterized@[j].image_id == image_id && self.rasterized@[j].size == size),
            decreases self.rasterized@.len() - i,
        {
            let entry = self.rasterized[i];
            if entry.pipeline_id == pipeline_id && entry.image_id == image_id && entry.size == size {
                proof {
                    let es = self.rasterized@;
                    let k = choose|k: int|
                        0 <= k < es.len() && (#[trigger] es[k]).pipeline_id == pipeline_id
                            && es[k].image_id == image_id && es[k].size == size;
                    assert(es[i as int].pipeline_id == pipeline_id);
                    assert(k == i);
                }
                return Some(i);
            }
            i = i + 1;
        }
        None
    }

    /// The rasterization of a vector image at an exact device size, if one
    /// was completed. Nothing is recorded.
    pub fn rasterize_vector_image(&self, pipeline_id: PipelineId, image_id: PendingImageId, size: DeviceIntSize) -> (r:
        Option<RasterImage>)
        requires
            self.wf(),
        ensures
            r == rasterized_lookup(self.rasterized@, pipeline_id, image_id, size),
    {
        match self.find_rasterized(pipeline_id, image_id, size) {
            Some(i) => Some(self.rasterized[i].image),
            None => None,
        }
    }

    /// Registers interest in a rasterization. Where it has completed, the
    /// notification comes at once; else the listener is kept until it does.
    pub fn add_rasterization_complete_listener(
        &mut self,
        pipeline_id: PipelineId,
        image_id: PendingImageId,
        size: DeviceIntSize,
        sender: ResponseChannel,
    ) -> (r: Option<Notification>)
        requires
            old(self).wf(),
        ensures
            ({
                let listener = RasterizationListener { pipeline_id, image_id, size, sender };
                if rasterized_for(old(self).rasterized@, pipeline_id, image_id, size) {
                    &&& r == Some(listener.notification())
                    &&& final(self).rasterization_listeners@ == old(self).rasterization_listeners@
                } else {
                    &&& r is None
                    &&& final(self).rasterization_listeners@ == old(self).rasterization_listeners@.push(listener)
                }
            }),
            final(self).wf(),
            final(self).loads == old(self).loads,
            final(self).rasterized == old(self).rasterized,
            final(self).placeholder_image == old(self).placeholder_image,
            final(self).placeholder_url == old(self).placeholder_url,
    {
        let listener = RasterizationListener { pipeline_id, image_id, size, sender };
        match self.find_rasterized(pipeline_id, image_id, size) {
            Some(_) => Some(
                Notification {
                    channel: sender,
                    message: ImageCacheMessage::VectorImageRasterizationCompleted(pipeline_id, image_id, size),
                },
            ),
            None => {
                self.rasterization_listeners.push(listener);
                None
            },
        }
    }

    /// Records a completed rasterization (the first one stands) and tells
    /// every listener that waits for it, once; those listeners are let go.
    pub fn complete_rasterization(
        &mut self,
        pipeline_id: PipelineId,
        image_id: PendingImageId,
        size: DeviceIntSize,
        image: RasterImage,
    ) -> (r: Vec<Notification>)
        requires
            old(self).wf(),
        ensures
            r@ == rasterization_notifications(old(self).rasterization_listeners@, pipeline_id, image_id, size),
            final(self).rasterization_listeners@ == rasterization_remaining(
                old(self).rasterization_listeners@,
                pipeline_id,
                image_id,
                size,
            ),
            rasterized_for(old(self).rasterized@, pipeline_id, image_id, size) ==> final(self).rasterized
                == old(self).rasterized,
            !rasterized_for(old(self).rasterized@, pipeline_id, image_id, size)
                ==> final(self).rasterized@ == old(self).rasterized@.push(
                RasterizedImage { pipeline_id, image_id, size, image },
            ),
            rasterized_lookup(final(self).rasterized@, pipeline_id, image_id, size) is Some,
            final(self).wf(),
            final(self).loads == old(self).loads,
            final(self).placeholder_image == old(self).placeholder_image,
            final(self).placeholder_url == old(self).placeholder_url,
    {
        if self.find_rasterized(pipeline_id, image_id, size).is_none() {
            let entry = RasterizedImage { pipeline_id, image_id, size, image };
            let ghost before = self.rasterized@;
            self.rasterized.push(entry);
            proof {
                let es = self.rasterized@;
                assert(es[before.len() as int] == entry);
                assert(rasterized_for(es, pipeline_id, image_id, size));
                assert forall|a: int, b: int|
                    0 <= a < es.len() && 0 <= b < es.len() && a != b implies !((#[trigger] es[a]).pipeline_id
                        == (#[trigger] es[b]).pipeline_id && es[a].image_id == es[b].image_id && es[a].size
                        == es[b].size) by {
                    if a < before.len() && b < before.len() {
                        assert(es[a] == before[a] && es[b] == before[b]);
                    } else if a < before.len() {
                        assert(es[a] == before[a]);
                    } else {
                        assert(es[b] == before[b]);
                    }
                }
            }
        }
        let ghost ls = self.rasterization_listeners@;
        let mut out: Vec<Notification> = Vec::new();
        let mut kept: Vec<RasterizationListener> = Vec::new();
        let mut j: usize = 0;
        while j < self.rasterization_listeners.len()
            invariant
                self.rasterization_listeners@ == ls,
                j <= ls.len(),
                out@ == rasterization_notifications(ls.subrange(0, j as int), pipeline_id, image_id, size),
                kept@ == rasterization_remaining(ls.subrange(0, j as int), pipeline_id, image_id, size),
            decreases ls.len() - j,
        {
            let listener = self.rasterization_listeners[j];
            proof {
                assert(ls.subrange(0, j + 1).drop_last() =~= ls.subrange(0, j as int));
                assert(ls.subrange(0, j + 1).last() == listener);
            }
            if listener.pipeline_id == pipeline_id && listener.image_id == image_id && listener.size == size {
                out.push(
                    Notification {
                        channel: listener.sender,
                        message: ImageCacheMessage::VectorImageRasterizationCompleted(
                            listener.pipeline_id,
                            listener.image_id,
                            listener.size,
                        ),
                    },
                );
            } else {
                kept.push(listener);
            }
            j = j + 1;
        }
        proof {
            assert(ls.subrange(0, ls.len() as int) =~= ls);
        }
        self.rasterization_listeners = kept;
        out
    }

    /// A new, empty store with the same placeholder, for a browsing context
    /// that needs a cache of its own.
    pub fn create_new_image_cache(&self) -> (r: ImageCacheStore)
        ensures
            r.wf(),
            r.records() == Seq::<LoadView>::empty(),
            r.rasterized@ == Seq::<RasterizedImage>::empty(),
            r.rasterization_listeners@ == Seq::<RasterizationListener>::empty(),
            r.placeholder_image == self.placeholder_image,
            r.placeholder_url == self.placeholder_url,
    {
        ImageCacheStore::new(self.placeholder_image, self.placeholder_url.clone())
    }
}

} // verus!
