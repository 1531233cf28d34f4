use vstd::prelude::*;
use burn::backend::ndarray::NdArrayDevice;
use image::imageops::FilterType;
use image::DynamicImage;
use image::GenericImageView;
use image::ImageError;
use crate::models::ShapeMismatchError;
use crate::shape::IMAGE_CHANNELS;
use crate::shape::IMAGE_HEIGHT;
use crate::shape::IMAGE_WIDTH;
use crate::shape::checked_count;
use crate::shape::fits;
use crate::tensor::elements4;
use crate::tensor::float_of;
use crate::tensor::float_quotient;
use crate::tensor::float_sum;
use crate::tensor::has_dims4;
use crate::tensor::tensor4_add;
use crate::tensor::tensor4_div_scalar;
use crate::tensor::tensor4_filled_like;
use crate::tensor::tensor4_from_integers;
use crate::tensor::Tensor4;

verus! {

/// Number of bytes of one image record: height times width times channels.
pub const RECORD_LEN: usize = 12288;

/// Number of bytes of one row of an image record.
pub const ROW_LEN: usize = 192;

/// Number of bytes the decoder hands out for each pixel.
pub const DECODED_CHANNELS: usize = 4;

/// A byte value `v` stands for the number `v / 255 - 1/2`. Over this common
/// denominator its numerator is `2 * v - 255`.
pub const LEVEL_DENOMINATOR: i32 = 510;

/// The number that the bytes of a record are divided by: the largest byte.
pub const BYTE_RANGE: i32 = 255;

/// Numerator of the number that is added to a byte divided by the largest.
pub const OFFSET_NUMERATOR: i32 = -1;

/// Denominator of the number that is added to a byte divided by the largest:
/// the number is minus one half.
pub const OFFSET_DENOMINATOR: i32 = 2;

/// A decoded image of the imaging library, carried through unopened.
#[verifier::external_type_specification]
#[verifier::external_body]
pub struct ExDynamicImage(DynamicImage);

/// The imaging library's error, carried through unopened.
#[verifier::external_type_specification]
#[verifier::external_body]
pub struct ExImageError(ImageError);

/// The imaging library's resampling filters.
#[verifier::external_type_specification]
pub struct ExFilterType(FilterType);

/// Width and height of a decoded image, in this order.
pub uninterp spec fn image_size(image: DynamicImage) -> Seq<u32>;

/// Width and height, in this order, of the image that the imaging library
/// decodes the given bytes to; nothing where it refuses them.
pub uninterp spec fn decoded_size(encoded: Seq<u8>) -> Option<Seq<u32>>;

/// `image::load_from_memory`: guesses the format of the encoded bytes and
/// decodes them. Whether it succeeds, and the width and the height of the
/// image, depend on the bytes alone.
#[verifier::external_body]
fn decode_image(encoded: &[u8]) -> (result: Result<DynamicImage, ImageError>)
    ensures
        match result {
            Ok(image) => decoded_size(encoded@) == Some(image_size(image)),
            Err(_) => decoded_size(encoded@) is None,
        },
{
    image::load_from_memory(encoded)
}

/// Whether the given bytes can be ingested: the imaging library decodes them
/// to an image that has pixels.
pub open spec fn ingestible(encoded: Seq<u8>) -> bool {
    match decoded_size(encoded) {
        Some(size) => size.len() == 2 && size[0] >= 1 && size[1] >= 1,
        None => false,
    }
}

/// `GenericImageView::dimensions` of a decoded image: its width and height.
#[verifier::external_body]
fn image_dimensions(image: &DynamicImage) -> (size: (u32, u32))
    ensures
        image_size(*image) == seq![size.0, size.1],
{
    image.dimensions()
}

/// `DynamicImage::resize_exact`: a new image of exactly the given width and
/// height, resampled with the given filter without regard to the aspect
/// ratio.
#[verifier::external_body]
fn resize_image(image: &DynamicImage, width: u32, height: u32, filter: FilterType) -> (resized:
    DynamicImage)
    requires
        image_size(*image).len() == 2,
        image_size(*image)[0] >= 1,
        image_size(*image)[1] >= 1,
        1 <= width <= 0x1000,
        1 <= height <= 0x1000,
    ensures
        image_size(resized) == seq![width, height],
{
    image.resize_exact(width, height, filter)
}

/// `DynamicImage::to_rgba8` and `ImageBuffer::into_raw`: the pixels row by
/// row, four bytes each: red, green, blue, alpha.
#[verifier::external_body]
fn image_rgba(image: &DynamicImage) -> (rgba: Vec<u8>)
    requires
        image_size(*image).len() == 2,
    ensures
        rgba@.len() == image_size(*image)[0] * image_size(*image)[1] * 4,
{
    image.to_rgba8().into_raw()
}

/// One stored image: `IMAGE_HEIGHT` rows of `IMAGE_WIDTH` pixels of three
/// bytes (red, green, blue). It cannot be changed once made.
pub struct ImageRecord {
    pixels: Vec<u8>,
}

impl View for ImageRecord {
    type V = Seq<u8>;

    closed spec fn view(&self) -> Seq<u8> {
        self.pixels@
    }
}

impl ImageRecord {
    #[verifier::type_invariant]
    spec fn sized(self) -> bool {
        self.pixels@.len() == RECORD_LEN
    }

    /// A record of the given bytes, or nothing if they are not exactly
    /// `RECORD_LEN`.
    pub fn new(pixels: Vec<u8>) -> (record: Option<ImageRecord>)
        ensures
            record is Some <==> pixels@.len() == RECORD_LEN,
            record is Some ==> record->0@ == pixels@,
    {
        if pixels.len() == RECORD_LEN {
            Some(ImageRecord { pixels })
        } else {
            None
        }
    }

    /// A record of the given bytes, which are said to have the given extents:
    /// nothing unless the extents are height, width and channels of a stored
    /// image and the bytes are exactly `RECORD_LEN`.
    pub fn from_serialized(value: Vec<u8>, shape: &[usize]) -> (record: Option<ImageRecord>)
        ensures
            record is Some <==> shape@ == seq![IMAGE_HEIGHT, IMAGE_WIDTH, IMAGE_CHANNELS]
                && value@.len() == RECORD_LEN,
            record is Some ==> record->0@ == value@,
    {
        if shape.len() == 3 && shape[0] == IMAGE_HEIGHT && shape[1] == IMAGE_WIDTH && shape[2]
            == IMAGE_CHANNELS {
            assert(shape@ =~= seq![IMAGE_HEIGHT, IMAGE_WIDTH, IMAGE_CHANNELS]);
            ImageRecord::new(value)
        } else {
            None
        }
    }

    /// The extents of every record: height, width, channels.
    pub fn shape() -> (shape: [usize; 3])
        ensures
            shape@ == seq![IMAGE_HEIGHT, IMAGE_WIDTH, IMAGE_CHANNELS],
            shape[0] * shape[1] * shape[2] == RECORD_LEN,
    {
        let shape = [IMAGE_HEIGHT, IMAGE_WIDTH, IMAGE_CHANNELS];
        assert(shape[0] == 64 && shape[1] == 64 && shape[2] == 3);
        shape
    }

    /// The bytes of the record.
    pub fn bytes(&self) -> (bytes: &Vec<u8>)
        ensures
            bytes@ == self@,
            bytes@.len() == RECORD_LEN,
    {
        proof {
            use_type_invariant(self);
        }
        &self.pixels
    }
}

/// The byte of a record at row `y`, column `x`, channel `c`, taken from the
/// decoded pixels of an image `width` wide and `height` high: black where the
/// image has no such pixel.
pub open spec fn record_byte(width: int, height: int, rgba: Seq<u8>, y: int, x: int, c: int) -> u8 {
    if x < width && y < height {
        rgba[(y * width + x) * DECODED_CHANNELS + c]
    } else {
        0u8
    }
}

/// The record of an image `width` wide and `height` high with the given
/// decoded pixels.
pub open spec fn record_of(width: int, height: int, rgba: Seq<u8>) -> Seq<u8> {
    Seq::new(
        RECORD_LEN as nat,
        |k: int|
            record_byte(
                width,
                height,
                rgba,
                k / ROW_LEN as int,
                (k / IMAGE_CHANNELS as int) % IMAGE_WIDTH as int,
                k % IMAGE_CHANNELS as int,
            ),
    )
}

/// Whether the given bytes are the record of an image of exactly the stored
/// width and height: the red, green and blue bytes of its pixels, row by row.
pub open spec fn is_resized_record(bytes: Seq<u8>) -> bool {
    exists|rgba: Seq<u8>|
        rgba.len() == IMAGE_WIDTH * IMAGE_HEIGHT * DECODED_CHANNELS && bytes == #[trigger] record_of(
            IMAGE_WIDTH as int,
            IMAGE_HEIGHT as int,
            rgba,
        )
}

/// Copies the red, green and blue bytes of every pixel into a record, row by
/// row. Pixels beyond the record's width or height are left out; where the
/// image is smaller the record stays black. Returns nothing if `rgba` does
/// not hold four bytes for each of `width * height` pixels.
pub fn record_from_rgba(width: usize, height: usize, rgba: &[u8]) -> (record: Option<ImageRecord>)
    ensures
        record is Some <==> rgba@.len() == width * height * DECODED_CHANNELS,
        record is Some ==> record->0@ == record_of(width as int, height as int, rgba@),
{
    let needed = match width.checked_mul(height) {
        Some(area) => area.checked_mul(DECODED_CHANNELS),
        None => None,
    };
    assert(needed is None ==> width * height * DECODED_CHANNELS > usize::MAX) by (nonlinear_arith)
        requires
            needed is None ==> (width * height > usize::MAX || width * height * 4 > usize::MAX),
            DECODED_CHANNELS == 4,
    ;
    if needed != Some(rgba.len()) {
        return None;
    }
    let mut pixels: Vec<u8> = Vec::new();
    let mut y: usize = 0;
    while y < IMAGE_HEIGHT
        invariant
            y <= IMAGE_HEIGHT,
            rgba@.len() == width * height * DECODED_CHANNELS,
            rgba@.len() <= usize::MAX,
            pixels@.len() == y * ROW_LEN,
            forall|k: int|
                0 <= k < pixels@.len() ==> pixels@[k] == record_of(
                    width as int,
                    height as int,
                    rgba@,
                )[k],
        decreases IMAGE_HEIGHT - y,
    {
        let mut x: usize = 0;
        while x < IMAGE_WIDTH
            invariant
                y < IMAGE_HEIGHT,
                x <= IMAGE_WIDTH,
                rgba@.len() == width * height * DECODED_CHANNELS,
                rgba@.len() <= usize::MAX,
                pixels@.len() == y * ROW_LEN + x * IMAGE_CHANNELS,
                forall|k: int|
                    0 <= k < pixels@.len() ==> pixels@[k] == record_of(
                        width as int,
                        height as int,
                        rgba@,
                    )[k],
            decreases IMAGE_WIDTH - x,
        {
            if x < width && y < height {
                proof {
                    lemma_pixel_in_bounds(width as int, height as int, x as int, y as int);
                }
                let at = (y * width + x) * DECODED_CHANNELS;
                pixels.push(rgba[at]);
                pixels.push(rgba[at + 1]);
                pixels.push(rgba[at + 2]);
            } else {
                pixels.push(0);
                pixels.push(0);
                pixels.push(0);
            }
            proof {
                assert forall|k: int| 0 <= k < pixels@.len() implies pixels@[k] == record_of(
                    width as int,
                    height as int,
                    rgba@,
                )[k] by {
                }
            }
            x += 1;
        }
        y += 1;
    }
    Some(ImageRecord { pixels })
}

/// The four bytes of the pixel at column `x` of row `y` lie inside the
/// decoded pixels of an image `width` wide and `height` high.
proof fn lemma_pixel_in_bounds(width: int, height: int, x: int, y: int)
    requires
        0 <= x < width,
        0 <= y < height,
    ensures
        0 <= (y * width + x) * 4,
        (y * width + x) * 4 + 4 <= width * height * 4,
        0 <= y * width + x,
        y * width <= (height - 1) * width,
{
    assert(y * width <= (height - 1) * width) by (nonlinear_arith)
        requires
            0 <= y <= height - 1,
            0 <= width,
    ;
    assert((height - 1) * width == height * width - width) by (nonlinear_arith);
    assert(0 <= y * width) by (nonlinear_arith)
        requires
            0 <= y,
            0 <= width,
    ;
}

/// Why an ingestion run was aborted. Every one of them is fatal to the run.
#[derive(Clone, Copy, Debug, PartialEq, Eq, Structural)]
pub enum IngestionError {
    /// The source directory cannot be listed or one of its files cannot be
    /// read.
    UnreadableDirectory,
    /// A file with the extension of an image cannot be decoded.
    UndecodableImage,
    /// The store does not take the record.
    WriteFailed,
}

/// Why a store refuses an operation.
#[derive(Clone, Copy, Debug, PartialEq, Eq, Structural)]
pub enum StoreError {
    /// The store was completed; nothing can be appended to it.
    Completed,
    /// The store was not completed; it cannot be read for training.
    Incomplete,
}

/// An append-only sequence of image records with a completion flag, which
/// stays false until an ingestion run has finished successfully.
pub struct ContentStore {
    records: Vec<ImageRecord>,
    completed: bool,
}

/// The bytes of each record of a sequence of records.
pub open spec fn record_views(records: Seq<ImageRecord>) -> Seq<Seq<u8>> {
    Seq::new(records.len(), |i: int| records[i]@)
}

impl ContentStore {
    /// The records of the store, in the order in which they were appended.
    pub closed spec fn records(&self) -> Seq<Seq<u8>> {
        record_views(self.records@)
    }

    /// Whether the store was completed.
    pub closed spec fn completed(&self) -> bool {
        self.completed
    }

    /// An empty store that is not completed.
    pub fn new() -> (store: ContentStore)
        ensures
            store.records() == Seq::<Seq<u8>>::empty(),
            !store.completed(),
    {
        let store = ContentStore { records: Vec::new(), completed: false };
        store
    }

    /// The number of records.
    pub fn len(&self) -> (count: usize)
        ensures
            count == self.records().len(),
    {
        self.records.len()
    }

    /// Whether the store was completed.
    pub fn is_completed(&self) -> (completed: bool)
        ensures
            completed == self.completed(),
    {
        self.completed
    }

    /// Appends a record. A completed store refuses it and stays as it was.
    pub fn append(&mut self, record: ImageRecord) -> (result: Result<(), StoreError>)
        ensures
            match result {
                Ok(_) => {
                    &&& !old(self).completed()
                    &&& !final(self).completed()
                    &&& final(self).records() == old(self).records().push(record@)
                },
                Err(error) => {
                    &&& error == StoreError::Completed
                    &&& old(self).completed()
                    &&& *final(self) == *old(self)
                },
            },
    {
        if self.completed {
            return Err(StoreError::Completed);
        }
        self.records.push(record);
        Ok(())
    }

    /// Marks the store as completed; its records stay as they are.
    pub fn set_completed(&mut self)
        ensures
            final(self).completed(),
            final(self).records() == old(self).records(),
    {
        self.completed = true;
    }

    /// The records, for training. A store that was not completed refuses.
    pub fn training_records(&self) -> (result: Result<&Vec<ImageRecord>, StoreError>)
        ensures
            match result {
                Ok(records) => self.completed() && record_views(records@) == self.records(),
                Err(error) => !self.completed() && error == StoreError::Incomplete,
            },
    {
        if self.completed {
            Ok(&self.records)
        } else {
            Err(StoreError::Incomplete)
        }
    }
}

/// One entry of the source directory: the name of the file and what it
/// holds.
pub struct SourceFile {
    pub name: Vec<u8>,
    pub contents: Vec<u8>,
}

/// Whether a file name has the extension `jpg`: it ends in `.jpg` and
/// something stands before that.
pub open spec fn is_jpg_name(name: Seq<u8>) -> bool {
    &&& name.len() > 4
    &&& name[name.len() - 4] == 0x2e
    &&& name[name.len() - 3] == 0x6a
    &&& name[name.len() - 2] == 0x70
    &&& name[name.len() - 1] == 0x67
}

/// Whether a file name has the extension `jpg`.
pub fn has_jpg_extension(name: &[u8]) -> (yes: bool)
    ensures
        yes == is_jpg_name(name@),
{
    let n = name.len();
    n > 4 && name[n - 4] == 0x2e && name[n - 3] == 0x6a && name[n - 2] == 0x70 && name[n - 1]
        == 0x67
}

/// The number of files with the extension `jpg` among the given ones.
pub open spec fn jpg_count(files: Seq<SourceFile>) -> nat
    decreases files.len(),
{
    if files.len() == 0 {
        0
    } else {
        jpg_count(files.drop_last()) + if is_jpg_name(files.last().name@) {
            1nat
        } else {
            0nat
        }
    }
}

/// Among more files there are at least as many with the extension `jpg`.
pub proof fn lemma_jpg_count_grows(files: Seq<SourceFile>, count: int)
    requires
        0 <= count <= files.len(),
    ensures
        jpg_count(files.take(count)) <= jpg_count(files),
        jpg_count(files.take(count)) <= count,
    decreases files.len() - count,
{
    lemma_jpg_count_at_most_len(files.take(count));
    if count == files.len() {
        assert(files.take(count) =~= files);
    } else {
        lemma_jpg_count_grows(files, count + 1);
        assert(files.take(count + 1).drop_last() =~= files.take(count));
    }
}

/// There are no more files with the extension `jpg` than files.
pub proof fn lemma_jpg_count_at_most_len(files: Seq<SourceFile>)
    ensures
        jpg_count(files) <= files.len(),
    decreases files.len(),
{
    if files.len() > 0 {
        lemma_jpg_count_at_most_len(files.drop_last());
    }
}

/// Decodes one image file and brings it to the size of a record. Whether it
/// succeeds is the decoder's to say; a record that comes back is the one
/// `record_from_rgba` makes of the resized pixels.
fn decode_record(contents: &[u8]) -> (record: Option<ImageRecord>)
    ensures
        record is Some <==> ingestible(contents@),
        record is Some ==> is_resized_record(record->0@),
{
    match decode_image(contents) {
        Err(_) => None,
        Ok(decoded) => {
            let (width, height) = image_dimensions(&decoded);
            if width == 0 || height == 0 {
                return None;
            }
            let resized = resize_image(
                &decoded,
                IMAGE_WIDTH as u32,
                IMAGE_HEIGHT as u32,
                FilterType::Lanczos3,
            );
            let rgba = image_rgba(&resized);
            let record = record_from_rgba(IMAGE_WIDTH, IMAGE_HEIGHT, rgba.as_slice());
            assert(record is Some ==> record->0@ == record_of(
                IMAGE_WIDTH as int,
                IMAGE_HEIGHT as int,
                rgba@,
            ));
            record
        },
    }
}

/// What ingestion does with the decoder's answer for one image file: a record
/// is appended to the store, no record aborts the run. A store that was
/// completed takes no record; nothing but the appended record ever changes.
pub fn ingest_outcome(store: &mut ContentStore, outcome: Option<ImageRecord>) -> (result: Result<
    (),
    IngestionError,
>)
    ensures
        match outcome {
            None => {
                &&& result == Err::<(), IngestionError>(IngestionError::UndecodableImage)
                &&& *final(store) == *old(store)
            },
            Some(record) => if old(store).completed() {
                &&& result == Err::<(), IngestionError>(IngestionError::WriteFailed)
                &&& *final(store) == *old(store)
            } else {
                &&& result == Ok::<(), IngestionError>(())
                &&& !final(store).completed()
                &&& final(store).records() == old(store).records().push(record@)
            },
        },
{
    match outcome {
        None => Err(IngestionError::UndecodableImage),
        Some(record) => match store.append(record) {
            Ok(_) => Ok(()),
            Err(_) => Err(IngestionError::WriteFailed),
        },
    }
}

/// Whether every file with the extension `jpg` among the given ones can be
/// ingested.
pub open spec fn all_ingestible(files: Seq<SourceFile>) -> bool {
    forall|i: int|
        0 <= i < files.len() && is_jpg_name((#[trigger] files[i]).name@) ==> ingestible(
            files[i].contents@,
        )
}

/// Whether the file at `index` is the first file with the extension `jpg`
/// that cannot be ingested.
pub open spec fn first_refused(files: Seq<SourceFile>, index: int) -> bool {
    &&& 0 <= index < files.len()
    &&& is_jpg_name(files[index].name@)
    &&& !ingestible(files[index].contents@)
    &&& all_ingestible(files.take(index))
}

/// Ingests the files of a source directory, in the given order: every file
/// with the extension `jpg` is decoded, resized to the size of a record with
/// a Lanczos filter and appended to the store; the other files are passed
/// over. After the last file the store is marked as completed.
///
/// The run is aborted at the first file that cannot be decoded. The store
/// then keeps the records written so far and is not completed. A store that
/// was completed before takes no part in a run and stays as it was.
///
/// Returns the number of records written.
pub fn bake_image_dataset(files: &Vec<SourceFile>, store: &mut ContentStore) -> (result: Result<
    usize,
    IngestionError,
>)
    ensures
        old(store).completed() ==> result == Err::<usize, IngestionError>(
            IngestionError::WriteFailed,
        ) && *final(store) == *old(store),
        !old(store).completed() ==> (result is Ok <==> all_ingestible(files@)),
        !old(store).completed() ==> match result {
            Ok(written) => {
                &&& written == jpg_count(files@)
                &&& final(store).completed()
                &&& final(store).records().len() == old(store).records().len() + written
            },
            Err(error) => {
                &&& error == IngestionError::UndecodableImage
                &&& !final(store).completed()
                &&& exists|index: int| #[trigger]
                    first_refused(files@, index) && final(store).records().len() == old(
                        store,
                    ).records().len() + jpg_count(files@.take(index))
            },
        },
        !old(store).completed() ==> {
            &&& old(store).records().len() <= final(store).records().len()
            &&& final(store).records().take(old(store).records().len() as int) == old(
                store,
            ).records()
            &&& forall|j: int|
                old(store).records().len() <= j < final(store).records().len()
                    ==> is_resized_record(#[trigger] final(store).records()[j])
        },
{
    if store.is_completed() {
        return Err(IngestionError::WriteFailed);
    }
    let ghost before = store.records();
    let mut written: usize = 0;
    let mut index: usize = 0;
    assert(store.records().take(before.len() as int) =~= before);
    while index < files.len()
        invariant
            index <= files.len(),
            written == jpg_count(files@.take(index as int)),
            written <= index,
            all_ingestible(files@.take(index as int)),
            !store.completed(),
            !old(store).completed(),
            before == old(store).records(),
            store.records().len() == before.len() + written,
            store.records().take(before.len() as int) == before,
            forall|j: int|
                before.len() <= j < store.records().len() ==> is_resized_record(
                    #[trigger] store.records()[j],
                ),
        decreases files.len() - index,
    {
        let file = &files[index];
        proof {
            assert(files@.take(index + 1).drop_last() =~= files@.take(index as int));
            lemma_jpg_count_grows(files@, index + 1);
        }
        if has_jpg_extension(file.name.as_slice()) {
            let ghost earlier = store.records();
            match ingest_outcome(store, decode_record(file.contents.as_slice())) {
                Err(error) => {
                    assert(first_refused(files@, index as int));
                    assert(!all_ingestible(files@));
                    return Err(error);
                },
                Ok(_) => {
                    assert(store.records().take(before.len() as int) =~= earlier.take(
                        before.len() as int,
                    ));
                    written += 1;
                },
            }
        }
        proof {
            let now = files@.take(index + 1);
            let then = files@.take(index as int);
            assert forall|i: int| 0 <= i < now.len() && is_jpg_name(
                (#[trigger] now[i]).name@,
            ) implies ingestible(now[i].contents@) by {
                if i < index {
                    assert(now[i] == then[i]);
                }
            }
        }
        index += 1;
    }
    assert(files@.take(index as int) =~= files@);
    store.set_completed();
    Ok(written)
}

/// In exact arithmetic the number that a byte `v` stands for, `v / 255 - 1/2`,
/// is `(2 * v - 255) / 510`. This is its numerator over `LEVEL_DENOMINATOR`.
pub open spec fn centered(value: u8) -> int {
    2 * value - 255
}

/// In exact arithmetic the number that a byte stands for lies between -1/2
/// and 1/2: its numerator lies between -255 and 255, and the bounds belong to
/// the bytes 0 and 255.
pub proof fn lemma_centered_range(value: u8)
    ensures
        -255 <= centered(value) <= 255,
        -LEVEL_DENOMINATOR <= 2 * centered(value) <= LEVEL_DENOMINATOR,
        centered(0) == -255,
        centered(255) == 255,
        centered(value) * 255 == (value * 2 - 255) * 255,
{
}

/// The bytes of a list of records as whole numbers, record after record.
pub open spec fn byte_levels_of(records: Seq<Seq<u8>>) -> Seq<int> {
    Seq::new(
        records.len() * RECORD_LEN as nat,
        |k: int| records[k / RECORD_LEN as int][k % RECORD_LEN as int] as int,
    )
}

/// The bytes of the records as whole numbers, record after record and each
/// in its own order; nothing where so many numbers cannot be held on this
/// machine.
pub fn byte_levels(items: &Vec<ImageRecord>) -> (levels: Option<Vec<i32>>)
    ensures
        levels is Some <==> fits(items@.len() * RECORD_LEN),
        levels is Some ==> levels->0@.len() == items@.len() * RECORD_LEN,
        levels is Some ==> levels->0@.map_values(|v: i32| v as int) == byte_levels_of(
            record_views(items@),
        ),
{
    let total = match checked_count(items.len(), RECORD_LEN) {
        Some(total) => total,
        None => {
            return None;
        },
    };
    let mut levels: Vec<i32> = Vec::new();
    let mut i: usize = 0;
    while i < items.len()
        invariant
            i <= items@.len(),
            total == items@.len() * RECORD_LEN,
            levels@.len() == i * RECORD_LEN,
            forall|k: int|
                0 <= k < levels@.len() ==> #[trigger] levels@[k]
                    == items@[k / RECORD_LEN as int]@[k % RECORD_LEN as int],
        decreases items@.len() - i,
    {
        let bytes = items[i].bytes();
        let mut j: usize = 0;
        while j < RECORD_LEN
            invariant
                i < items@.len(),
                j <= RECORD_LEN,
                total == items@.len() * RECORD_LEN,
                bytes@ == items@[i as int]@,
                bytes@.len() == RECORD_LEN,
                levels@.len() == i * RECORD_LEN + j,
                forall|k: int|
                    0 <= k < levels@.len() ==> #[trigger] levels@[k]
                        == items@[k / RECORD_LEN as int]@[k % RECORD_LEN as int],
            decreases RECORD_LEN - j,
        {
            let byte = bytes[j];
            levels.push(byte as i32);
            j += 1;
        }
        i += 1;
    }
    assert(levels@.map_values(|v: i32| v as int) =~= byte_levels_of(record_views(items@)));
    Some(levels)
}

/// The number that is added to a byte divided by the largest: minus one
/// half.
pub open spec fn offset() -> u32 {
    float_quotient(float_of(OFFSET_NUMERATOR as int), float_of(OFFSET_DENOMINATOR as int))
}

/// The number that a byte stands for in a batch, `v / 255 - 1/2`: the byte
/// divided by the largest byte, plus minus one half.
pub open spec fn normalized(value: u8) -> u32 {
    float_sum(float_quotient(float_of(value as int), float_of(BYTE_RANGE as int)), offset())
}

/// The elements of the batch made of the given records: the numbers that
/// their bytes stand for, record after record and each in its own order.
pub open spec fn normalized_elements(records: Seq<Seq<u8>>) -> Seq<u32> {
    Seq::new(
        records.len() * RECORD_LEN as nat,
        |k: int| normalized(records[k / RECORD_LEN as int][k % RECORD_LEN as int]),
    )
}

/// Turns lists of image records into batches for training.
pub struct ImageBatcher {
    device: NdArrayDevice,
}

/// A batch of images: one tensor of extents `[N, 3, W, H]`.
pub struct ImageBatch {
    pub images: Tensor4,
}

impl ImageBatcher {
    /// The device that the batches are put on.
    pub closed spec fn device(&self) -> NdArrayDevice {
        self.device
    }

    /// A batcher that puts its batches on the given device.
    pub fn new(device: NdArrayDevice) -> (batcher: ImageBatcher)
        ensures
            batcher.device() == device,
    {
        ImageBatcher { device }
    }

    /// The reason why no batch can be made of the given number of records, if
    /// any.
    pub open spec fn refusal(count: nat) -> Option<ShapeMismatchError> {
        if count == 0 {
            Some(ShapeMismatchError::BatchSize)
        } else if !fits(count * RECORD_LEN) {
            Some(ShapeMismatchError::TooLarge)
        } else {
            None
        }
    }

    /// One batch of the given records, in their order. The bytes of each
    /// record are read in their order as three planes of `IMAGE_WIDTH` by
    /// `IMAGE_HEIGHT` values, and each byte `v` becomes the number
    /// `v / 255 - 1/2`.
    ///
    /// Refuses an empty list and one whose batch cannot be held on this
    /// machine.
    pub fn batch(&self, items: Vec<ImageRecord>) -> (result: Result<ImageBatch, ShapeMismatchError>)
        ensures
            match result {
                Ok(batch) => {
                    &&& Self::refusal(items@.len()) is None
                    &&& has_dims4(
                        batch.images,
                        items@.len() as int,
                        IMAGE_CHANNELS as int,
                        IMAGE_WIDTH as int,
                        IMAGE_HEIGHT as int,
                    )
                    &&& elements4(batch.images) == normalized_elements(record_views(items@))
                },
                Err(error) => Self::refusal(items@.len()) == Some(error),
            },
    {
        let count = items.len();
        if count == 0 {
            return Err(ShapeMismatchError::BatchSize);
        }
        match byte_levels(&items) {
            None => Err(ShapeMismatchError::TooLarge),
            Some(levels) => {
                assert(count * 3 * 64 * 64 == count * RECORD_LEN);
                let extents = [count, IMAGE_CHANNELS, IMAGE_WIDTH, IMAGE_HEIGHT];
                let bytes = tensor4_from_integers(levels, extents, &self.device);
                let scaled = tensor4_div_scalar(bytes, BYTE_RANGE);
                let offset = tensor4_div_scalar(
                    tensor4_filled_like(&scaled, OFFSET_NUMERATOR),
                    OFFSET_DENOMINATOR,
                );
                let images = tensor4_add(scaled, offset);
                proof {
                    let views = record_views(items@);
                    assert forall|k: int| 0 <= k < levels@.len() implies #[trigger] elements4(
                        images,
                    )[k] == normalized_elements(views)[k] by {
                        assert(byte_levels_of(views)[k] == views[k / RECORD_LEN as int][k
                            % RECORD_LEN as int]);
                        assert(levels@.map_values(|v: i32| v as int)[k] == levels@[k]);
                    }
                    assert(elements4(images) =~= normalized_elements(views));
                }
                Ok(ImageBatch { images })
            },
        }
    }
}

} // verus!
