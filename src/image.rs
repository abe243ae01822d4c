//! Images, their metadata, and the plain identifiers that travel with them.

use vstd::prelude::*;

verus! {

/// Identifies one rendering session (one browsing context).
#[derive(Clone, Copy, Debug, PartialEq, Eq, Structural)]
pub struct PipelineId(pub u64);

/// The key under which the compositor holds the pixels of a decoded image.
#[derive(Clone, Copy, Debug, PartialEq, Eq, Structural)]
pub struct ImageKey(pub u64);

/// Whether pixel data may be exposed to the page that requested it.
#[derive(Clone, Copy, Debug, PartialEq, Eq, Structural)]
pub enum CorsStatus {
    Safe,
    Unsafe,
}

/// The natural size of an image, in image pixels.
#[derive(Clone, Copy, Debug, PartialEq, Eq, Structural)]
pub struct ImageMetadata {
    pub width: u32,
    pub height: u32,
}

/// A size in device pixels.
#[derive(Clone, Copy, Debug, PartialEq, Eq, Structural)]
pub struct DeviceIntSize {
    pub width: i32,
    pub height: i32,
}

/// A decoded raster image. The pixels themselves stay with the compositor,
/// under `id`; the layout logic reads only what is held here.
#[derive(Clone, Copy, Debug, PartialEq, Eq, Structural)]
pub struct RasterImage {
    pub width: u32,
    pub height: u32,
    pub id: Option<ImageKey>,
    pub cors_status: CorsStatus,
    pub frame_count: usize,
}

impl RasterImage {
    /// An image animates when it has more than one frame.
    pub open spec fn animates(&self) -> bool {
        self.frame_count > 1
    }

    pub fn should_animate(&self) -> (r: bool)
        ensures
            r == self.animates(),
    {
        self.frame_count > 1
    }
}

/// The unique id of a resource that has been requested from the image cache.
///
/// The same id also names the resource as a vector image: a vector image is
/// rasterized on request, and the request names it by this id.
#[derive(Clone, Copy, Debug, PartialEq, Eq, Structural)]
pub struct PendingImageId(pub u64);

/// A decoded raster image, or a vector image of which only the natural size
/// is known until it is rasterized at a given device size.
#[derive(Clone, Copy, Debug, PartialEq, Eq, Structural)]
pub enum Image {
    Raster(RasterImage),
    Vector(ImageMetadata, PendingImageId, CorsStatus),
}

impl Image {
    pub open spec fn natural_size(&self) -> ImageMetadata {
        match self {
            Image::Vector(metadata, _, _) => *metadata,
            Image::Raster(image) => ImageMetadata { width: image.width, height: image.height },
        }
    }

    pub open spec fn cors(&self) -> CorsStatus {
        match self {
            Image::Vector(_, _, cors_status) => *cors_status,
            Image::Raster(image) => image.cors_status,
        }
    }

    pub open spec fn raster(&self) -> Option<RasterImage> {
        match self {
            Image::Raster(image) => Some(*image),
            Image::Vector(..) => None,
        }
    }

    pub fn metadata(&self) -> (r: ImageMetadata)
        ensures
            r == self.natural_size(),
    {
        match self {
            Image::Vector(metadata, _, _) => *metadata,
            Image::Raster(image) => ImageMetadata { width: image.width, height: image.height },
        }
    }

    pub fn cors_status(&self) -> (r: CorsStatus)
        ensures
            r == self.cors(),
    {
        match self {
            Image::Vector(_, _, cors_status) => *cors_status,
            Image::Raster(image) => image.cors_status,
        }
    }

    pub fn as_raster_image(&self) -> (r: Option<RasterImage>)
        ensures
            r == self.raster(),
    {
        match self {
            Image::Raster(image) => Some(*image),
            Image::Vector(..) => None,
        }
    }
}

/// Whether a requester accepts a placeholder image when the real one fails.
#[derive(Clone, Copy, Debug, PartialEq, Eq, Structural)]
pub enum UsePlaceholder {
    No,
    Yes,
}

} // verus!
