//! The computed CSS image values that layout resolves, and the sizes that
//! resolution gives them.

use vstd::prelude::*;

use crate::image::{DeviceIntSize, Image};

verus! {

/// A gradient. Resolution passes it through as it is.
#[derive(Debug)]
pub struct Gradient {
    pub serialization: String,
}

/// A `url()` value: the absolute URL it resolved to, if it resolved.
#[derive(Debug)]
pub struct ComputedUrl {
    pub resolved: Option<String>,
}

/// A declared resolution, in device pixels per CSS pixel, as the fraction
/// `dppx_numerator / dppx_denominator`.
#[derive(Clone, Copy, Debug, PartialEq, Eq, Structural)]
pub struct Resolution {
    pub dppx_numerator: u32,
    pub dppx_denominator: u32,
}

impl Resolution {
    pub open spec fn is_positive(&self) -> bool {
        self.dppx_numerator > 0 && self.dppx_denominator > 0
    }
}

/// One candidate of an `image-set()`.
#[derive(Debug)]
pub struct ImageSetItem {
    pub image: StyleImage,
    pub resolution: Resolution,
}

/// An `image-set()`, with the candidate chosen ahead of resolution.
#[derive(Debug)]
pub struct ImageSet {
    pub selected_index: usize,
    pub items: Vec<ImageSetItem>,
}

/// A computed CSS `<image>` value.
#[derive(Debug)]
pub enum StyleImage {
    /// `none`.
    NoImage,
    Url(ComputedUrl),
    Gradient(Gradient),
    CrossFade,
    PaintWorklet,
    ImageSet(ImageSet),
}

/// The resolution of every image-set candidate that resolution selects is
/// positive, however deep the sets nest.
pub open spec fn selection_valid(image: StyleImage) -> bool
    decreases image,
{
    match image {
        StyleImage::ImageSet(set) => {
            if set.selected_index < set.items.len() {
                let item = set.items[set.selected_index as int];
                item.resolution.is_positive() && selection_valid(item.image)
            } else {
                true
            }
        },
        _ => true,
    }
}

/// A length in device pixels; a length beyond the largest is clamped to it.
pub open spec fn device_length(n: int) -> i32 {
    if n <= i32::MAX {
        n as i32
    } else {
        i32::MAX
    }
}

/// The natural size of `image`, in device pixels.
pub open spec fn natural_device_size(image: Image) -> DeviceIntSize {
    DeviceIntSize {
        width: device_length(image.natural_size().width as int),
        height: device_length(image.natural_size().height as int),
    }
}

/// A length in image pixels divided by a declared resolution, rounded down.
pub open spec fn scaled_length(n: u32, resolution: Resolution) -> i32 {
    device_length(n as int * resolution.dppx_denominator as int / resolution.dppx_numerator as int)
}

/// The size of an image chosen from an image-set: a raster image's natural
/// size is divided by the candidate's declared resolution; a vector image
/// keeps its natural size.
pub open spec fn image_set_size(image: Image, resolution: Resolution) -> DeviceIntSize {
    match image {
        Image::Raster(_) => DeviceIntSize {
            width: scaled_length(image.natural_size().width, resolution),
            height: scaled_length(image.natural_size().height, resolution),
        },
        Image::Vector(..) => natural_device_size(image),
    }
}

pub fn to_device_length(n: u64) -> (r: i32)
    ensures
        r == device_length(n as int),
{
    if n <= 0x7fff_ffff {
        n as i32
    } else {
        0x7fff_ffff
    }
}

pub fn natural_size_of(image: &Image) -> (r: DeviceIntSize)
    ensures
        r == natural_device_size(*image),
{
    let metadata = image.metadata();
    DeviceIntSize {
        width: to_device_length(metadata.width as u64),
        height: to_device_length(metadata.height as u64),
    }
}

pub fn scale_length(n: u32, resolution: Resolution) -> (r: i32)
    requires
        resolution.is_positive(),
    ensures
        r == scaled_length(n, resolution),
{
    let wide = n as u64;
    let den = resolution.dppx_denominator as u64;
    proof {
        assert(wide * den <= 0xffff_ffffu64 * 0xffff_ffffu64) by (nonlinear_arith)
            requires
                wide <= 0xffff_ffffu64,
                den <= 0xffff_ffffu64,
        ;
    }
    to_device_length(wide * den / resolution.dppx_numerator as u64)
}

pub fn image_set_size_of(image: &Image, resolution: Resolution) -> (r: DeviceIntSize)
    requires
        resolution.is_positive(),
    ensures
        r == image_set_size(*image, resolution),
{
    match image {
        Image::Raster(_) => {
            let metadata = image.metadata();
            DeviceIntSize {
                width: scale_length(metadata.width, resolution),
                height: scale_length(metadata.height, resolution),
            }
        },
        Image::Vector(..) => natural_size_of(image),
    }
}

} // verus!
