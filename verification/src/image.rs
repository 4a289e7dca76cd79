use vstd::prelude::*;
use crate::errors::Error;

verus! {

/// Mathematical model of an [`Image`].
pub struct ImageView {
    pub width: u32,
    pub height: u32,
    pub channel_count: u8,
    pub data: Seq<u8>,
}

/// A decoded raster image: dimensions, channel count and the raw
/// bytes, row by row. Decoding an image file is the embedding
/// application's work; the toolkit checks the parts fit together and
/// reads the dimensions for texture-sized nodes.
pub struct Image {
    width: u32,
    height: u32,
    channel_count: u8,
    data: Vec<u8>,
}

impl View for Image {
    type V = ImageView;

    closed spec fn view(&self) -> ImageView {
        ImageView {
            width: self.width,
            height: self.height,
            channel_count: self.channel_count,
            data: self.data@,
        }
    }
}

impl Image {
    /// The byte count always matches the dimensions.
    pub open spec fn wf(self) -> bool {
        self@.data.len() == self@.width * self@.height * self@.channel_count
    }

    /// Assemble an image from decoded parts. Fails when the byte count
    /// does not match `width * height * channel_count`.
    pub fn from_raw(width: u32, height: u32, channel_count: u8, data: Vec<u8>) -> (r: Result<Image, Error>)
        ensures
            r is Ok <==> data@.len() == width * height * channel_count,
            (r matches Ok(img) ==> img@ == (ImageView {
                width,
                height,
                channel_count,
                data: data@,
            }) && img.wf()),
    {
        proof {
            assert((width as int) * (height as int) < 0x1_0000_0000_0000_0000
                && (width as int) * (height as int) * (channel_count as int)
                    < 0x8000_0000_0000_0000_0000_0000_0000_0000) by (nonlinear_arith)
                requires
                    0 <= width < 0x1_0000_0000,
                    0 <= height < 0x1_0000_0000,
                    0 <= channel_count < 0x100,
            ;
        }
        let expected: u128 = (width as u128) * (height as u128) * (channel_count as u128);
        if data.len() as u128 == expected {
            Ok(Image { width, height, channel_count, data })
        } else {
            Err(Error::ImageError(String::new()))
        }
    }

    /// The image width in pixels.
    pub fn get_width(&self) -> (r: u32)
        ensures
            r == self@.width,
    {
        self.width
    }

    /// The image height in pixels.
    pub fn get_height(&self) -> (r: u32)
        ensures
            r == self@.height,
    {
        self.height
    }

    /// The number of channels per pixel.
    pub fn get_channel_count(&self) -> (r: u8)
        ensures
            r == self@.channel_count,
    {
        self.channel_count
    }

    /// The raw bytes.
    pub fn get_data(&self) -> (r: &[u8])
        ensures
            r@ == self@.data,
    {
        self.data.as_slice()
    }
}

} // verus!
