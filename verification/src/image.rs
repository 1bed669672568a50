//! From an encoded image to the tensor that the model takes.
//!
//! Decoding and resampling are the `image` crate's work. What this module
//! adds is the layout of the tensor: three planes of 224 by 224 values, one
//! plane per colour channel, each value a binary32 bit pattern in the unit
//! interval.

use crate::binary32::{in_unit_interval, scale_sample, unit_scaled, ONE};
use vstd::arithmetic::div_mod::lemma_fundamental_div_mod_converse;
use vstd::prelude::*;
use vstd::string::StringExecFns;

verus! {

/// The width of the tensor's planes, in pixels.
pub const TENSOR_WIDTH: u32 = 224;

/// The height of the tensor's planes, in pixels.
pub const TENSOR_HEIGHT: u32 = 224;

/// The number of values in a tensor: three planes.
pub const TENSOR_VALUES: usize = 150528;

/// A tensor: its shape and its values in row-major order, each value a
/// binary32 bit pattern.
#[derive(Clone, Debug, PartialEq, Eq)]
pub struct ImageTensor {
    pub shape: Vec<i64>,
    pub data: Vec<u32>,
}

pub struct ImageTensorView {
    pub shape: Seq<i64>,
    pub data: Seq<u32>,
}

impl View for ImageTensor {
    type V = ImageTensorView;

    open spec fn view(&self) -> ImageTensorView {
        ImageTensorView { shape: self.shape@, data: self.data@ }
    }
}

/// The number of values that a shape describes: the product of its
/// dimensions.
pub open spec fn volume(shape: Seq<i64>) -> int
    decreases shape.len(),
{
    if shape.len() == 0 {
        1
    } else {
        shape[0] * volume(shape.skip(1))
    }
}

impl ImageTensorView {
    /// The tensor holds as many values as its shape describes, and no
    /// dimension is negative.
    pub open spec fn well_formed(self) -> bool {
        &&& forall|i: int| 0 <= i < self.shape.len() ==> self.shape[i] >= 0
        &&& self.data.len() == volume(self.shape)
    }
}

/// The shape of every tensor that `preprocess` makes: one image, three
/// channels, 224 rows, 224 columns.
pub open spec fn tensor_shape() -> Seq<i64> {
    seq![1i64, 3i64, 224i64, 224i64]
}

/// A decoded image of the `image` crate, carried as it is.
#[verifier::external_type_specification]
#[verifier::external_body]
pub struct ExDynamicImage(::image::DynamicImage);

/// Why an image could not be turned into a tensor.
#[derive(Clone, Debug, PartialEq, Eq)]
pub enum ImageError {
    /// The bytes are not an image that the codecs can read; the codec's own
    /// diagnostic says why.
    Decode(String),
}

impl View for ImageError {
    type V = Seq<char>;

    /// The codec's diagnostic.
    open spec fn view(&self) -> Seq<char> {
        match *self {
            ImageError::Decode(diagnostic) => diagnostic@,
        }
    }
}

/// The width and the height of an image, in pixels.
pub uninterp spec fn image_size(image: ::image::DynamicImage) -> (nat, nat);

/// What an image holds beside its size: its colour type, its colour space
/// and the samples of its pixels, as one sequence of bytes.
pub uninterp spec fn image_content(image: ::image::DynamicImage) -> Seq<u8>;

/// What `image::load_from_memory` makes of a buffer: the size and the
/// content of the image that it decodes, or the words of its error.
pub uninterp spec fn decoded(bytes: Seq<u8>) -> Result<((nat, nat), Seq<u8>), Seq<char>>;

/// `DynamicImage::resize_exact` may give an image with the content
/// `resampled` for an image of the given content and size, the new width
/// and height and the filter. This is a relation and no function: the
/// cubic kernel is evaluated with `powi`, whose precision the standard
/// library leaves open, so that two runs need not agree to the last bit.
pub uninterp spec fn resamples(
    content: Seq<u8>,
    size: (nat, nat),
    width: nat,
    height: nat,
    filter: ResizeFilter,
    resampled: Seq<u8>,
) -> bool;

/// The 8-bit RGB samples that `DynamicImage::to_rgb8` gives for an image of
/// the given content and size: three for each pixel, row by row.
pub uninterp spec fn rgb_samples(content: Seq<u8>, size: (nat, nat)) -> Seq<u8>;

/// The `image` crate can decode these bytes.
pub open spec fn decodable(bytes: Seq<u8>) -> bool {
    decoded(bytes) is Ok
}

/// An image of this width can be resampled to the height of the tensor's
/// planes: the buffer in between, with four values for each pixel, has no
/// more values than `usize` holds. Where `usize` has 64 bits this holds of
/// every width.
pub open spec fn resizable(width: nat) -> bool {
    4 * width * TENSOR_HEIGHT <= usize::MAX
}

/// Decodes an image with `image::load_from_memory`, which guesses the
/// format from the bytes; an error is handed on as the text that its
/// `Display` impl writes. The contract names the outcome: it is `decoded`
/// of the bytes. The decoders work on integers throughout, so that the
/// same bytes give the same image everywhere.
#[verifier::external_body]
fn decode(bytes: &[u8]) -> (r: Result<::image::DynamicImage, String>)
    ensures
        match r {
            Ok(image) => decoded(bytes@) == Ok::<((nat, nat), Seq<u8>), Seq<char>>(
                (image_size(image), image_content(image)),
            ),
            Err(words) => decoded(bytes@) == Err::<((nat, nat), Seq<u8>), Seq<char>>(words@),
        },
{
    ::image::load_from_memory(bytes).map_err(|error| error.to_string())
}

/// The width of an image, from `DynamicImage::width`.
#[verifier::external_body]
fn width_of(image: &::image::DynamicImage) -> (width: u32)
    ensures
        image_size(*image).0 == width,
{
    image.width()
}

/// The resampling filters of the `image` crate.
#[derive(Clone, Copy, Debug)]
pub enum ResizeFilter {
    Nearest,
    Triangle,
    CatmullRom,
    Gaussian,
    Lanczos3,
}

/// Resamples an image with `DynamicImage::resize_exact`, which gives an
/// image of exactly the size asked for and does not keep the aspect ratio.
/// Of the content the contract says only that it is one that resampling
/// this image in this way gives. The call panics where a pixel buffer
/// would have more values than `usize` holds: the intermediate buffer has
/// four values for each pixel of the old width by the new height, the
/// final one at most four for each pixel of the new size.
#[verifier::external_body]
fn resize_exact(image: &::image::DynamicImage, width: u32, height: u32, filter: ResizeFilter) -> (resized:
    ::image::DynamicImage)
    requires
        4 * image_size(*image).0 * height <= usize::MAX,
        4 * width * height <= usize::MAX,
    ensures
        image_size(resized) == (width as nat, height as nat),
        resamples(
            image_content(*image),
            image_size(*image),
            width as nat,
            height as nat,
            filter,
            image_content(resized),
        ),
{
    let filter = match filter {
        ResizeFilter::Nearest => ::image::imageops::FilterType::Nearest,
        ResizeFilter::Triangle => ::image::imageops::FilterType::Triangle,
        ResizeFilter::CatmullRom => ::image::imageops::FilterType::CatmullRom,
        ResizeFilter::Gaussian => ::image::imageops::FilterType::Gaussian,
        ResizeFilter::Lanczos3 => ::image::imageops::FilterType::Lanczos3,
    };
    image.resize_exact(width, height, filter)
}

impl ImageError {
    /// The text that describes the error: a fixed sentence, then the
    /// codec's diagnostic.
    pub fn message(&self) -> (text: String)
        ensures
            text@ == "image decoding failed: "@ + self@,
    {
        match self {
            ImageError::Decode(diagnostic) => "image decoding failed: ".to_owned().concat(
                diagnostic.as_str(),
            ),
        }
    }
}

/// A grid of pixels with three 8-bit samples each: red, green, blue. The
/// samples stand row by row, the three of one pixel together.
#[derive(Debug, PartialEq, Eq)]
pub struct RgbImage {
    width: u32,
    height: u32,
    samples: Vec<u8>,
}

pub struct RgbImageView {
    pub width: nat,
    pub height: nat,
    pub samples: Seq<u8>,
}

impl RgbImageView {
    /// The number of pixels.
    pub open spec fn pixels(self) -> nat {
        self.width * self.height
    }

    /// There are three samples for each pixel.
    pub open spec fn well_formed(self) -> bool {
        self.samples.len() == 3 * self.pixels()
    }

    /// The sample of channel `channel` at column `x` of row `y`.
    pub open spec fn sample(self, x: int, y: int, channel: int) -> u8 {
        self.samples[3 * (y * self.width + x) + channel]
    }

    /// The tensor values of the image, plane by plane: value `i` is the
    /// scaled sample of channel `i / pixels` at pixel `i % pixels`, the
    /// pixels counted row by row.
    pub open spec fn planes(self) -> Seq<u32> {
        Seq::new(
            3 * self.pixels(),
            |i: int|
                unit_scaled(self.samples[3 * (i % (self.pixels() as int)) + i / (self.pixels() as int)]),
        )
    }
}

impl View for RgbImage {
    type V = RgbImageView;

    closed spec fn view(&self) -> RgbImageView {
        RgbImageView {
            width: self.width as nat,
            height: self.height as nat,
            samples: self.samples@,
        }
    }
}

impl RgbImage {
    #[verifier::type_invariant]
    spec fn holds_all_samples(self) -> bool {
        self@.well_formed()
    }

    /// An image of the given size over `samples`, where there are exactly
    /// three samples for each pixel.
    pub fn from_raw(width: u32, height: u32, samples: Vec<u8>) -> (image: Option<RgbImage>)
        ensures
            samples@.len() == 3 * (width as nat * height as nat) <==> image is Some,
            image matches Some(i) ==> i@ == (RgbImageView {
                width: width as nat,
                height: height as nat,
                samples: samples@,
            }),
    {
        assert(width as nat * height as nat <= 0xFFFF_FFFE_0000_0001) by (nonlinear_arith)
            requires
                width <= 0xFFFF_FFFF,
                height <= 0xFFFF_FFFF,
        ;
        let pixels: u64 = (width as u64) * (height as u64);
        assert(pixels == width as nat * height as nat) by (nonlinear_arith)
            requires
                pixels == (width as u64) * (height as u64),
        ;
        let count = samples.len() as u64;
        if pixels <= 0x5555_5555_5555_5555 && count == 3 * pixels {
            Some(RgbImage { width, height, samples })
        } else {
            None
        }
    }

    /// The width in pixels.
    pub fn width(&self) -> (width: u32)
        ensures
            width == self@.width,
    {
        self.width
    }

    /// The height in pixels.
    pub fn height(&self) -> (height: u32)
        ensures
            height == self@.height,
    {
        self.height
    }
}

/// Converts an image to 8-bit RGB with `DynamicImage::to_rgb8`, which keeps
/// the size and drops any alpha channel, and copies out the samples of its
/// pixels in the order of `ImageBuffer::pixels`: row by row. The contract
/// names the samples: they are `rgb_samples` of the image's content and
/// size.
#[verifier::external_body]
fn rgb8(image: &::image::DynamicImage) -> (rgb: RgbImage)
    ensures
        (rgb@.width, rgb@.height) == image_size(*image),
        rgb@.samples == rgb_samples(image_content(*image), image_size(*image)),
        rgb@.well_formed(),
{
    let rgb = image.to_rgb8();
    RgbImage {
        width: rgb.width(),
        height: rgb.height(),
        samples: rgb.pixels().flat_map(|pixel| pixel.0).collect(),
    }
}

/// Resamples an image to the size of the tensor's planes, with the
/// Catmull-Rom filter.
pub fn resize_image(image: &::image::DynamicImage) -> (resized: ::image::DynamicImage)
    requires
        resizable(image_size(*image).0),
    ensures
        image_size(resized) == (TENSOR_WIDTH as nat, TENSOR_HEIGHT as nat),
        resamples(
            image_content(*image),
            image_size(*image),
            TENSOR_WIDTH as nat,
            TENSOR_HEIGHT as nat,
            ResizeFilter::CatmullRom,
            image_content(resized),
        ),
{
    resize_exact(image, TENSOR_WIDTH, TENSOR_HEIGHT, ResizeFilter::CatmullRom)
}

/// The values of the tensor for an image: the three colour planes one
/// after the other, each sample scaled from `[0, 255]` to `[0.0, 1.0]`.
pub fn to_chw_tensor(image: &RgbImage) -> (tensor: Vec<u32>)
    ensures
        tensor@ == image@.planes(),
{
    proof {
        use_type_invariant(image);
    }
    let pixels: usize = image.samples.len() / 3;
    assert(3 * pixels <= usize::MAX);
    let mut tensor: Vec<u32> = Vec::with_capacity(image.samples.len());
    let mut channel: usize = 0;
    while channel < 3
        invariant
            image@.well_formed(),
            image@.samples == image.samples@,
            pixels == image@.pixels(),
            image.samples@.len() == 3 * pixels <= usize::MAX,
            channel <= 3,
            tensor@.len() == channel * pixels,
            forall|i: int| 0 <= i < tensor@.len() ==> tensor@[i] == image@.planes()[i],
        decreases 3 - channel,
    {
        let mut pixel: usize = 0;
        while pixel < pixels
            invariant
                image@.well_formed(),
                image@.samples == image.samples@,
                pixels == image@.pixels(),
                image.samples@.len() == 3 * pixels <= usize::MAX,
                channel < 3,
                pixel <= pixels,
                tensor@.len() == channel * pixels + pixel,
                forall|i: int| 0 <= i < tensor@.len() ==> tensor@[i] == image@.planes()[i],
            decreases pixels - pixel,
        {
            let sample = image.samples[3 * pixel + channel];
            proof {
                let i = channel * pixels + pixel;
                lemma_fundamental_div_mod_converse(i as int, pixels as int, channel as int, pixel as int);
            }
            tensor.push(scale_sample(sample));
            pixel = pixel + 1;
        }
        assert((channel + 1) * pixels == channel * pixels + pixels) by (nonlinear_arith);
        channel = channel + 1;
    }
    assert(tensor@ =~= image@.planes());
    tensor
}

/// The tensor is laid out by channel, then row, then column: the value for
/// channel `channel` at column `x` of row `y` stands at
/// `channel * height * width + y * width + x`.
pub proof fn lemma_planes_layout(image: RgbImageView, x: int, y: int, channel: int)
    requires
        image.well_formed(),
        0 <= x < image.width,
        0 <= y < image.height,
        0 <= channel < 3,
    ensures
        0 <= channel * (image.height * image.width) + y * image.width + x < image.planes().len(),
        image.planes()[channel * (image.height * image.width) + y * image.width + x]
            == unit_scaled(image.sample(x, y, channel)),
{
    let pixels = image.pixels() as int;
    let pixel = y * image.width + x;
    assert(0 <= pixel < pixels) by (nonlinear_arith)
        requires
            pixel == y * image.width + x,
            pixels == image.width * image.height,
            0 <= x < image.width,
            0 <= y < image.height,
    ;
    assert(image.height * image.width == pixels) by (nonlinear_arith)
        requires
            pixels == image.width * image.height,
    ;
    let i = channel * pixels + pixel;
    assert(0 <= i < 3 * pixels) by (nonlinear_arith)
        requires
            i == channel * pixels + pixel,
            0 <= channel < 3,
            0 <= pixel < pixels,
    ;
    lemma_fundamental_div_mod_converse(i, pixels, channel, pixel);
}

/// Every value of a tensor made from an image is a scaled sample, and so
/// lies in the unit interval.
pub proof fn lemma_planes_in_unit_interval(image: RgbImageView, i: int)
    requires
        0 <= i < image.planes().len(),
    ensures
        image.planes()[i] <= ONE,
        in_unit_interval(image.planes()[i]),
        exists|sample: u8| image.planes()[i] == unit_scaled(sample),
{
    let sample = image.samples[3 * (i % (image.pixels() as int)) + i / (image.pixels() as int)];
    crate::binary32::lemma_unit_scaled_range(sample);
    assert(image.planes()[i] == unit_scaled(sample));
}

/// The words for an image that is too wide to be resampled.
pub open spec fn too_wide() -> Seq<char> {
    "image is too wide to resample"@
}

/// Why a buffer gives no tensor, if it gives none: the decoder's words
/// where it cannot read the buffer, and the words for an image too wide to
/// resample, of which there is none where `usize` has 64 bits.
pub open spec fn refusal(bytes: Seq<u8>) -> Option<Seq<char>> {
    match decoded(bytes) {
        Err(words) => Some(words),
        Ok((size, _)) => if resizable(size.0) {
            None
        } else {
            Some(too_wide())
        },
    }
}

/// The values of the tensor for the content of an image of the size of
/// the tensor's planes: the planes of its RGB samples.
pub open spec fn tensor_data(content: Seq<u8>) -> Seq<u32> {
    (RgbImageView {
        width: TENSOR_WIDTH as nat,
        height: TENSOR_HEIGHT as nat,
        samples: rgb_samples(content, (TENSOR_WIDTH as nat, TENSOR_HEIGHT as nat)),
    }).planes()
}

/// The buffer holds an image, and `resampled` is what resampling that image
/// to the size of the tensor's planes with the Catmull-Rom filter may give.
pub open spec fn fits_planes(bytes: Seq<u8>, resampled: Seq<u8>) -> bool {
    &&& decoded(bytes) is Ok
    &&& resamples(
        (decoded(bytes)->Ok_0).1,
        (decoded(bytes)->Ok_0).0,
        TENSOR_WIDTH as nat,
        TENSOR_HEIGHT as nat,
        ResizeFilter::CatmullRom,
        resampled,
    )
}

/// The tensor is one that the image in the buffer gives: it has the fixed
/// shape, and its values are those of the decoded image, resampled to the
/// size of the planes with the Catmull-Rom filter and rendered as RGB.
pub open spec fn is_tensor_of(bytes: Seq<u8>, tensor: ImageTensorView) -> bool {
    &&& tensor.shape == tensor_shape()
    &&& exists|resampled: Seq<u8>|
        #![trigger fits_planes(bytes, resampled)]
        fits_planes(bytes, resampled) && tensor.data == tensor_data(resampled)
}

/// Turns an encoded image into the tensor that the model takes: decodes
/// it, resamples it to 224 by 224 pixels, drops any alpha channel and lays
/// the colour channels out as planes of values in the unit interval.
///
/// The result is an error exactly where `refusal` gives its words; else it
/// is the tensor of the image, with 150528 values in the unit interval.
pub fn preprocess(bytes: &[u8]) -> (r: Result<ImageTensor, ImageError>)
    ensures
        match r {
            Ok(tensor) => {
                &&& refusal(bytes@) is None
                &&& is_tensor_of(bytes@, tensor@)
                &&& tensor@.data.len() == TENSOR_VALUES
                &&& tensor@.well_formed()
                &&& forall|i: int|
                    0 <= i < tensor@.data.len() ==> in_unit_interval(#[trigger] tensor@.data[i])
                        && tensor@.data[i] <= ONE
            },
            Err(error) => refusal(bytes@) == Some(error@),
        },
{
    let image = match decode(bytes) {
        Ok(image) => image,
        Err(words) => {
            return Err(ImageError::Decode(words));
        },
    };
    let width = width_of(&image);
    let values_per_column: u64 = 4 * (TENSOR_HEIGHT as u64);
    assert(values_per_column * width == 4 * (width as nat) * TENSOR_HEIGHT) by (nonlinear_arith)
        requires
            values_per_column == 4 * TENSOR_HEIGHT,
    ;
    if values_per_column * (width as u64) > usize::MAX as u64 {
        return Err(ImageError::Decode("image is too wide to resample".to_owned()));
    }
    let resized = resize_image(&image);
    let rgb = rgb8(&resized);
    let data = to_chw_tensor(&rgb);
    let mut shape: Vec<i64> = Vec::with_capacity(4);
    shape.push(1);
    shape.push(3);
    shape.push(TENSOR_HEIGHT as i64);
    shape.push(TENSOR_WIDTH as i64);
    let tensor = ImageTensor { shape, data };
    proof {
        assert(tensor@.shape =~= tensor_shape());
        assert(rgb@ == (RgbImageView {
            width: TENSOR_WIDTH as nat,
            height: TENSOR_HEIGHT as nat,
            samples: rgb_samples(image_content(resized), (TENSOR_WIDTH as nat, TENSOR_HEIGHT as nat)),
        }));
        assert(tensor@.data == tensor_data(image_content(resized)));
        assert(decoded(bytes@)->Ok_0 == (image_size(image), image_content(image)));
        assert(resamples(
            image_content(image),
            image_size(image),
            TENSOR_WIDTH as nat,
            TENSOR_HEIGHT as nat,
            ResizeFilter::CatmullRom,
            image_content(resized),
        ));
        assert(fits_planes(bytes@, image_content(resized)));
        assert(is_tensor_of(bytes@, tensor@));
        assert(rgb@.pixels() == 224 * 224) by (nonlinear_arith)
            requires
                rgb@.pixels() == rgb@.width * rgb@.height,
                rgb@.width == 224,
                rgb@.height == 224,
        ;
        lemma_tensor_shape_volume();
        assert forall|i: int| 0 <= i < tensor@.data.len() implies in_unit_interval(
            #[trigger] tensor@.data[i],
        ) && tensor@.data[i] <= ONE by {
            lemma_planes_in_unit_interval(rgb@, i);
        }
    }
    Ok(tensor)
}

/// Where `usize` has 64 bits, every image that the decoder reads gives a
/// tensor: nothing is refused but what cannot be decoded.
pub proof fn lemma_every_image_admitted(bytes: Seq<u8>)
    requires
        decodable(bytes),
        (decoded(bytes)->Ok_0).0.0 <= 0xFFFF_FFFF,
        usize::MAX >= 0xFFFF_FFFF_FFFF_FFFF,
    ensures
        refusal(bytes) is None,
{
    lemma_resizable((decoded(bytes)->Ok_0).0.0);
}

/// Where `usize` has 64 bits, an image of any width can be resampled.
pub proof fn lemma_resizable(width: nat)
    requires
        width <= 0xFFFF_FFFF,
        usize::MAX >= 0xFFFF_FFFF_FFFF_FFFF,
    ensures
        resizable(width),
{
    let rows = TENSOR_HEIGHT as nat;
    assert(4 * width * rows == 896 * width) by (nonlinear_arith)
        requires
            rows == 224,
    ;
    assert(4 * width * TENSOR_HEIGHT == 4 * width * rows);
    assert(896 * width <= usize::MAX);
}

/// The shape of the tensor describes 150528 values.
pub proof fn lemma_tensor_shape_volume()
    ensures
        volume(tensor_shape()) == TENSOR_VALUES,
{
    let s = tensor_shape();
    assert(s.skip(1) =~= seq![3i64, 224i64, 224i64]);
    assert(s.skip(1).skip(1) =~= seq![224i64, 224i64]);
    assert(s.skip(1).skip(1).skip(1) =~= seq![224i64]);
    assert(s.skip(1).skip(1).skip(1).skip(1) =~= Seq::<i64>::empty());
    reveal_with_fuel(volume, 6);
}

} // verus!
