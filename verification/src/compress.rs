//! Fitting an image into a byte budget: first by lowering the JPEG quality, then by shrinking
//! the picture.

use crate::codec::{
    decode_image, encode_jpeg, image_height, image_width, resize_exact_lanczos3, starts_as_jpeg,
};
use crate::text::join;
use image::DynamicImage;
use vstd::prelude::*;
use vstd::string::StringExecFns;

verus! {

/// The quality that the first attempt encodes at.
pub const FIRST_QUALITY: u8 = 95;

/// How much the quality drops from one attempt to the next.
pub const QUALITY_STEP: u8 = 5;

/// The quality at which the first phase ends; it is itself not tried.
pub const QUALITY_FLOOR: u8 = 10;

/// The quality of every attempt that shrinks the picture.
pub const RESIZE_QUALITY: u8 = 85;

/// The scale of an attempt that leaves the picture as it is, in tenths.
pub const FULL_SCALE: u8 = 10;

/// How many attempts only lower the quality.
pub const QUALITY_ATTEMPTS: usize = 17;

/// How many attempts there are in all.
pub const TOTAL_ATTEMPTS: usize = 25;

/// One way to encode the picture: at `scale_tenths` tenths of its size, with JPEG quality
/// `quality`.
#[derive(Clone, Copy, Debug, PartialEq, Eq, Structural)]
pub struct Attempt {
    pub scale_tenths: u8,
    pub quality: u8,
}

/// Why an image could not be brought under its budget.
#[derive(Debug)]
pub enum CompressError {
    /// The bytes are no image of a known format, or a damaged one.
    Decode { detail: String },
    /// The encoder refused the picture.
    Encode { detail: String },
    /// No attempt gave a stream within the budget.
    BudgetUnmet,
}

/// The message that tells of `error`, given as plain values: which kind it is and its detail.
pub open spec fn compress_message(error: CompressError) -> Seq<char> {
    match error {
        CompressError::Decode { detail } => "Failed to decode image: "@ + detail@,
        CompressError::Encode { detail } => "Failed to encode image: "@ + detail@,
        CompressError::BudgetUnmet => "无法将图片压缩到指定大小"@,
    }
}

impl CompressError {
    /// The message that tells of this failure.
    pub fn message(&self) -> (text: String)
        ensures
            text@ == compress_message(*self),
    {
        match self {
            CompressError::Decode { detail } => join("Failed to decode image: ", detail.as_str()),
            CompressError::Encode { detail } => join("Failed to encode image: ", detail.as_str()),
            CompressError::BudgetUnmet => String::from_str("无法将图片压缩到指定大小"),
        }
    }
}

/// The attempt made at `step`, counting from 0. The first [`QUALITY_ATTEMPTS`] keep the size and
/// take the qualities 95, 90, .. down to 15; the rest encode at quality 85 a picture of 9, 8, ..
/// down to 2 tenths of the size.
pub open spec fn planned_attempt(step: int) -> Attempt {
    if step < QUALITY_ATTEMPTS {
        Attempt { scale_tenths: FULL_SCALE, quality: (FIRST_QUALITY - QUALITY_STEP * step) as u8 }
    } else {
        Attempt {
            scale_tenths: (FULL_SCALE - 1 - (step - QUALITY_ATTEMPTS)) as u8,
            quality: RESIZE_QUALITY,
        }
    }
}

/// A side of `side` pixels at `tenths` tenths of its length: the product is cut to a whole
/// number, and a side never falls under one pixel.
pub open spec fn scaled_side(side: int, tenths: int) -> int {
    let cut = side * tenths / 10;
    if cut < 1 {
        1
    } else {
        cut
    }
}

/// The attempt to make at `step`, or `None` when all have been made.
pub fn attempt_at(step: usize) -> (attempt: Option<Attempt>)
    ensures
        attempt == if step < TOTAL_ATTEMPTS {
            Some(planned_attempt(step as int))
        } else {
            None::<Attempt>
        },
{
    if step < QUALITY_ATTEMPTS {
        let drop: u8 = QUALITY_STEP * (step as u8);
        Some(Attempt { scale_tenths: FULL_SCALE, quality: FIRST_QUALITY - drop })
    } else if step < TOTAL_ATTEMPTS {
        let shrink: u8 = (step - QUALITY_ATTEMPTS) as u8;
        Some(Attempt { scale_tenths: FULL_SCALE - 1 - shrink, quality: RESIZE_QUALITY })
    } else {
        None
    }
}

/// The length of a side of `side` pixels at `tenths` tenths.
pub fn scale_side(side: u32, tenths: u8) -> (scaled: u32)
    requires
        tenths <= FULL_SCALE,
    ensures
        scaled == scaled_side(side as int, tenths as int),
        1 <= scaled,
        scaled <= side || scaled == 1,
{
    let length: u64 = side as u64;
    let factor: u64 = tenths as u64;
    assert(length * factor <= length * 10) by (nonlinear_arith)
        requires
            factor <= 10,
            0 <= length,
    ;
    let cut: u64 = length * factor / 10;
    if cut < 1 {
        1
    } else {
        cut as u32
    }
}

/// Tells whether a stream of `len` bytes is within a budget of `max_size` bytes.
pub fn fits_budget(len: usize, max_size: usize) -> (fits: bool)
    ensures
        fits == (len <= max_size),
{
    len <= max_size
}

/// The quality phase tries exactly the qualities that start at [`FIRST_QUALITY`], fall by
/// [`QUALITY_STEP`] and stay above [`QUALITY_FLOOR`], from the highest down, and never changes
/// the size of the picture.
pub proof fn lemma_quality_phase(step: int)
    requires
        0 <= step < QUALITY_ATTEMPTS,
    ensures
        planned_attempt(step).scale_tenths == FULL_SCALE,
        planned_attempt(step).quality == FIRST_QUALITY - QUALITY_STEP * step,
        QUALITY_FLOOR < planned_attempt(step).quality <= FIRST_QUALITY,
        FIRST_QUALITY - QUALITY_STEP * QUALITY_ATTEMPTS == QUALITY_FLOOR,
{
}

/// The resize phase tries the scales of 9 tenths down to 2 tenths, one tenth less at each
/// attempt, always at [`RESIZE_QUALITY`]; one tenth is not tried.
pub proof fn lemma_resize_phase(step: int)
    requires
        QUALITY_ATTEMPTS <= step < TOTAL_ATTEMPTS,
    ensures
        planned_attempt(step).quality == RESIZE_QUALITY,
        planned_attempt(step).scale_tenths == FULL_SCALE - 1 - (step - QUALITY_ATTEMPTS),
        1 < planned_attempt(step).scale_tenths < FULL_SCALE,
        FULL_SCALE - 1 - (TOTAL_ATTEMPTS - QUALITY_ATTEMPTS) == 1,
{
}

/// Every quality of the quality phase has its attempt: each `quality` that lies a whole number
/// of steps under [`FIRST_QUALITY`] and above [`QUALITY_FLOOR`] is tried at full scale.
pub proof fn lemma_every_quality_is_tried(quality: int)
    requires
        QUALITY_FLOOR < quality <= FIRST_QUALITY,
        (FIRST_QUALITY - quality) % (QUALITY_STEP as int) == 0,
    ensures
        0 <= (FIRST_QUALITY - quality) / (QUALITY_STEP as int) < QUALITY_ATTEMPTS,
        planned_attempt((FIRST_QUALITY - quality) / (QUALITY_STEP as int)) == (Attempt {
            scale_tenths: FULL_SCALE,
            quality: quality as u8,
        }),
{
}

/// Every scale of the resize phase has its attempt: each number of tenths from 9 down to 2 is
/// tried at [`RESIZE_QUALITY`].
pub proof fn lemma_every_scale_is_tried(tenths: int)
    requires
        1 < tenths < FULL_SCALE,
    ensures
        QUALITY_ATTEMPTS <= QUALITY_ATTEMPTS + (FULL_SCALE - 1 - tenths) < TOTAL_ATTEMPTS,
        planned_attempt(QUALITY_ATTEMPTS + (FULL_SCALE - 1 - tenths)) == (Attempt {
            scale_tenths: tenths as u8,
            quality: RESIZE_QUALITY,
        }),
{
}

/// Every planned attempt encodes at a quality that the encoder accepts and at no more than the
/// full size.
pub proof fn lemma_attempt_in_range(step: int)
    requires
        0 <= step < TOTAL_ATTEMPTS,
    ensures
        1 <= planned_attempt(step).quality <= 100,
        1 <= planned_attempt(step).scale_tenths <= FULL_SCALE,
{
}

/// The length, as the resizer takes it, of a side of `side` pixels at `tenths` tenths.
pub open spec fn scaled_pixels(side: u32, tenths: u8) -> u32 {
    scaled_side(side as int, tenths as int) as u32
}

/// `picture` is the picture that `attempt` encodes, as the codec gave it for `image`. At full
/// scale it is `image` itself. Else it is what the resizer returned when it was handed `image`
/// and, for the width and the height that the codec told of `image`, those sides scaled by the
/// tenths of the attempt.
pub closed spec fn scaler_gave(image: DynamicImage, attempt: Attempt, picture: DynamicImage) -> bool {
    if attempt.scale_tenths == FULL_SCALE {
        picture == image
    } else {
        exists|width: u32, height: u32|
            #![trigger call_ensures(image_width, (&image,), width), call_ensures(image_height, (&image,), height)]
            {
                &&& call_ensures(image_width, (&image,), width)
                &&& call_ensures(image_height, (&image,), height)
                &&& call_ensures(
                    resize_exact_lanczos3,
                    (
                        &image,
                        scaled_pixels(width, attempt.scale_tenths),
                        scaled_pixels(height, attempt.scale_tenths),
                    ),
                    picture,
                )
            }
    }
}

/// The picture that `attempt` encodes where it is not `image` itself: `image` resized to its
/// sides scaled by the tenths of the attempt.
fn scaled_image(image: &DynamicImage, attempt: Attempt) -> (scaled: Option<DynamicImage>)
    requires
        1 <= attempt.scale_tenths <= FULL_SCALE,
    ensures
        match scaled {
            None => attempt.scale_tenths == FULL_SCALE,
            Some(picture) => attempt.scale_tenths != FULL_SCALE && scaler_gave(
                *image,
                attempt,
                picture,
            ),
        },
{
    if attempt.scale_tenths == FULL_SCALE {
        None
    } else {
        let full_width = image_width(image);
        let full_height = image_height(image);
        let width = scale_side(full_width, attempt.scale_tenths);
        let height = scale_side(full_height, attempt.scale_tenths);
        let picture = resize_exact_lanczos3(image, width, height);
        assert(call_ensures(image_width, (image,), full_width));
        assert(call_ensures(image_height, (image,), full_height));
        assert(call_ensures(resize_exact_lanczos3, (image, width, height), picture));
        Some(picture)
    }
}

/// What one attempt came to.
pub enum Trial {
    /// The stream is within the budget.
    Accepted(Vec<u8>),
    /// The stream is over the budget.
    TooLarge,
    /// The encoder failed.
    Failed(CompressError),
}

/// Judges what the encoder gave for one attempt: a stream within `max_size` is accepted, a
/// longer one is too large, and a failure of the encoder ends the search.
pub fn judge(encoded: Result<Vec<u8>, CompressError>, max_size: usize) -> (trial: Trial)
    ensures
        match encoded {
            Ok(bytes) => if bytes@.len() <= max_size {
                trial == Trial::Accepted(bytes)
            } else {
                trial is TooLarge
            },
            Err(error) => trial == Trial::Failed(error),
        },
{
    match encoded {
        Ok(bytes) => {
            if fits_budget(bytes.len(), max_size) {
                Trial::Accepted(bytes)
            } else {
                Trial::TooLarge
            }
        },
        Err(error) => Trial::Failed(error),
    }
}

/// `encoded` is `raw`, what the JPEG encoder returned, as the search takes it: a stream as it
/// is, an error as an encode failure with the text of that error.
pub open spec fn taken_from(
    raw: Result<Vec<u8>, image::ImageError>,
    encoded: Result<Vec<u8>, CompressError>,
) -> bool {
    match raw {
        Ok(bytes) => encoded == Ok::<Vec<u8>, CompressError>(bytes),
        Err(error) => encoded matches Err(CompressError::Encode { detail })
            && vstd::string::to_string_from_display_ensures::<image::ImageError>(&error, detail),
    }
}

/// What the codec returned for `attempt` on the picture `image`. The picture that is encoded is
/// `image` itself at full scale, else `image` resized to its scaled sides; `encoded` is what
/// the JPEG encoder returned when it was handed that picture and the quality of the attempt.
pub closed spec fn encoder_gave(
    image: DynamicImage,
    attempt: Attempt,
    encoded: Result<Vec<u8>, CompressError>,
) -> bool {
    exists|picture: DynamicImage, raw: Result<Vec<u8>, image::ImageError>|
        #![trigger call_ensures(encode_jpeg, (&picture, attempt.quality), raw)]
        {
            &&& scaler_gave(image, attempt, picture)
            &&& call_ensures(encode_jpeg, (&picture, attempt.quality), raw)
            &&& taken_from(raw, encoded)
        }
}

/// Encodes `image` as `attempt` says: at the quality of the attempt, and at full size or at the
/// scaled sides.
fn encode_attempt(image: &DynamicImage, attempt: Attempt) -> (encoded: Result<
    Vec<u8>,
    CompressError,
>)
    requires
        1 <= attempt.quality <= 100,
        1 <= attempt.scale_tenths <= FULL_SCALE,
    ensures
        encoder_gave(*image, attempt, encoded),
{
    match scaled_image(image, attempt) {
        None => {
            let raw = encode_jpeg(image, attempt.quality);
            assert(call_ensures(encode_jpeg, (image, attempt.quality), raw));
            take_encoded(raw)
        },
        Some(picture) => {
            let raw = encode_jpeg(&picture, attempt.quality);
            assert(call_ensures(encode_jpeg, (&picture, attempt.quality), raw));
            take_encoded(raw)
        },
    }
}

/// What the JPEG encoder returned, as the search takes it.
fn take_encoded(raw: Result<Vec<u8>, image::ImageError>) -> (encoded: Result<
    Vec<u8>,
    CompressError,
>)
    ensures
        taken_from(raw, encoded),
{
    match raw {
        Ok(bytes) => Ok(bytes),
        Err(error) => Err(CompressError::Encode { detail: error.to_string() }),
    }
}

/// What the encoder `encode` answers: the relation that holds of an attempt and an outcome
/// where `encode` returned that outcome for that attempt.
pub open spec fn answers_of<F: Fn(Attempt) -> Result<Vec<u8>, CompressError>>(
    encode: F,
) -> spec_fn(Attempt, Result<Vec<u8>, CompressError>) -> bool {
    |attempt: Attempt, outcome: Result<Vec<u8>, CompressError>|
        call_ensures(encode, (attempt,), outcome)
}

/// The encoder whose answers are `gave` answered the attempt at `step` with a stream longer
/// than `max_size`.
pub open spec fn was_too_large(
    gave: spec_fn(Attempt, Result<Vec<u8>, CompressError>) -> bool,
    step: int,
    max_size: usize,
) -> bool {
    exists|bytes: Vec<u8>| #[trigger]
        gave(planned_attempt(step), Ok(bytes)) && bytes@.len() > max_size
}

/// The encoder whose answers are `gave` answered the attempt at `step` with `outcome`, after a
/// stream longer than `max_size` for every attempt before it.
pub open spec fn search_stopped_at(
    gave: spec_fn(Attempt, Result<Vec<u8>, CompressError>) -> bool,
    max_size: usize,
    step: int,
    outcome: Result<Vec<u8>, CompressError>,
) -> bool {
    &&& 0 <= step < TOTAL_ATTEMPTS
    &&& gave(planned_attempt(step), outcome)
    &&& forall|earlier: int| 0 <= earlier < step ==> was_too_large(gave, earlier, max_size)
}

/// What the search may end with, for an encoder whose answers are `gave`: the first stream of
/// the plan that is within `max_size`; or the first failure of the encoder, where all streams
/// before it were too long; or an unmet budget, where the stream of every attempt was too long.
pub open spec fn search_result(
    gave: spec_fn(Attempt, Result<Vec<u8>, CompressError>) -> bool,
    max_size: usize,
    result: Result<Vec<u8>, CompressError>,
) -> bool {
    match result {
        Ok(bytes) => bytes@.len() <= max_size && exists|step: int|
            search_stopped_at(gave, max_size, step, result),
        Err(error) => {
            ||| exists|step: int| search_stopped_at(gave, max_size, step, result)
            ||| error is BudgetUnmet && forall|step: int|
                0 <= step < TOTAL_ATTEMPTS ==> was_too_large(gave, step, max_size)
        },
    }
}

/// Whether `step` is the first place in `sizes` that holds a size within `max_size`.
pub open spec fn is_first_fit(sizes: Seq<nat>, max_size: usize, step: int) -> bool {
    &&& 0 <= step < sizes.len()
    &&& sizes[step] <= max_size
    &&& forall|earlier: int| 0 <= earlier < step ==> sizes[earlier] > max_size
}

/// The picture that the codec decoded from the bytes `image_data`, or the error it gave
/// instead: what the decoder returned when it was handed these bytes.
pub closed spec fn decoder_gave(
    image_data: Seq<u8>,
    decoded: Result<DynamicImage, image::ImageError>,
) -> bool {
    exists|handed: &[u8]| handed@ == image_data && #[trigger] call_ensures(
        decode_image,
        (handed,),
        decoded,
    )
}

/// The answers of the codec for the picture `image`.
pub open spec fn codec_answers(image: DynamicImage) -> spec_fn(
    Attempt,
    Result<Vec<u8>, CompressError>,
) -> bool {
    |attempt: Attempt, encoded: Result<Vec<u8>, CompressError>|
        encoder_gave(image, attempt, encoded)
}

/// What compressing `image_data` to `max_size` bytes may end with. Where the decoder gave an
/// error, the result is a decode error with the text of that error. Where it gave a picture,
/// the result is what the search ends with for the answers of the codec on that picture: the
/// first stream of the plan that fits, the first failure of the encoder, or an unmet budget.
pub open spec fn compression_result(
    image_data: Seq<u8>,
    max_size: usize,
    result: Result<Vec<u8>, CompressError>,
) -> bool {
    exists|decoded: Result<DynamicImage, image::ImageError>| #[trigger]
        decoder_gave(image_data, decoded) && match decoded {
            Ok(image) => search_result(codec_answers(image), max_size, result),
            Err(error) => result matches Err(CompressError::Decode { detail })
                && vstd::string::to_string_from_display_ensures::<image::ImageError>(
                &error,
                detail,
            ),
        }
}

/// What the codec gives for an attempt is a stream that begins as JPEG, or an encode failure.
pub proof fn lemma_encoder_gave(
    image: DynamicImage,
    attempt: Attempt,
    encoded: Result<Vec<u8>, CompressError>,
)
    requires
        encoder_gave(image, attempt, encoded),
    ensures
        encoded matches Ok(bytes) ==> starts_as_jpeg(bytes@),
        encoded matches Err(error) ==> error is Encode,
{
    let (picture, raw) = choose|picture: DynamicImage, raw: Result<Vec<u8>, image::ImageError>|
        #![trigger call_ensures(encode_jpeg, (&picture, attempt.quality), raw)]
        {
            &&& scaler_gave(image, attempt, picture)
            &&& call_ensures(encode_jpeg, (&picture, attempt.quality), raw)
            &&& taken_from(raw, encoded)
        };
}

/// A search result for one encoder is a search result for every encoder that has all the
/// answers of the first.
pub proof fn lemma_search_result_carries_over(
    gave: spec_fn(Attempt, Result<Vec<u8>, CompressError>) -> bool,
    wider: spec_fn(Attempt, Result<Vec<u8>, CompressError>) -> bool,
    max_size: usize,
    result: Result<Vec<u8>, CompressError>,
)
    requires
        search_result(gave, max_size, result),
        forall|attempt: Attempt, outcome: Result<Vec<u8>, CompressError>| #[trigger]
            gave(attempt, outcome) ==> wider(attempt, outcome),
    ensures
        search_result(wider, max_size, result),
{
    assert forall|step: int| was_too_large(gave, step, max_size) implies was_too_large(
        wider,
        step,
        max_size,
    ) by {
        let bytes = choose|bytes: Vec<u8>| #[trigger]
            gave(planned_attempt(step), Ok(bytes)) && bytes@.len() > max_size;
        assert(wider(planned_attempt(step), Ok(bytes)));
    }
    if exists|step: int| search_stopped_at(gave, max_size, step, result) {
        let step = choose|step: int| search_stopped_at(gave, max_size, step, result);
        assert(search_stopped_at(wider, max_size, step, result));
    }
}

/// With an encoder that never fails and gives, for the attempt at each `step`, a stream of
/// `sizes[step]` bytes, the search succeeds exactly where some attempt is within the budget,
/// that is where the budget is no less than the smallest of the sizes. It then returns the
/// stream of the first attempt that fits; else it reports the budget as unmet, and never
/// returns a stream that is too long.
pub proof fn lemma_search_meets_achievable_budget(
    gave: spec_fn(Attempt, Result<Vec<u8>, CompressError>) -> bool,
    max_size: usize,
    result: Result<Vec<u8>, CompressError>,
    sizes: Seq<nat>,
)
    requires
        search_result(gave, max_size, result),
        sizes.len() == TOTAL_ATTEMPTS,
        forall|step: int, outcome: Result<Vec<u8>, CompressError>|
            0 <= step < TOTAL_ATTEMPTS && #[trigger] gave(planned_attempt(step), outcome) ==> (
            outcome matches Ok(bytes) && bytes@.len() == sizes[step]),
    ensures
        result is Ok <==> exists|step: int| 0 <= step < TOTAL_ATTEMPTS && sizes[step] <= max_size,
        result matches Ok(bytes) ==> exists|step: int|
            is_first_fit(sizes, max_size, step) && bytes@.len() == sizes[step],
        result matches Err(error) ==> error is BudgetUnmet,
{
    match result {
        Ok(bytes) => {
            let step = choose|step: int| search_stopped_at(gave, max_size, step, result);
            assert forall|earlier: int| 0 <= earlier < step implies sizes[earlier] > max_size by {
                assert(was_too_large(gave, earlier, max_size));
            }
            assert(is_first_fit(sizes, max_size, step) && bytes@.len() == sizes[step]);
        },
        Err(error) => {
            if exists|step: int| search_stopped_at(gave, max_size, step, result) {
                let step = choose|step: int| search_stopped_at(gave, max_size, step, result);
                assert(gave(planned_attempt(step), result));
            } else {
                assert forall|step: int| 0 <= step < TOTAL_ATTEMPTS implies sizes[step]
                    > max_size by {
                    assert(was_too_large(gave, step, max_size));
                }
            }
        },
    }
}

/// Whether the encoder whose answers are `gave` gives the same twice: where it answered an
/// attempt of the plan with a stream, every answer of it to that attempt is a stream of the
/// same length.
pub open spec fn answers_alike(gave: spec_fn(Attempt, Result<Vec<u8>, CompressError>) -> bool) -> bool {
    forall|step: int, one: Result<Vec<u8>, CompressError>, other: Result<Vec<u8>, CompressError>|
        #![trigger gave(planned_attempt(step), one), gave(planned_attempt(step), other)]
        0 <= step < TOTAL_ATTEMPTS && gave(planned_attempt(step), one) && gave(
            planned_attempt(step),
            other,
        ) && one is Ok ==> other is Ok && other->Ok_0@.len() == one->Ok_0@.len()
}

/// A larger budget never sends the search further down the plan. With an encoder that gives
/// the same twice, a search that succeeds under `smaller` succeeds under every `larger` budget
/// too, and stops there at the same attempt or at an earlier one: at no lower a quality, and
/// at no smaller a scale.
pub proof fn lemma_larger_budget_stops_no_later(
    gave: spec_fn(Attempt, Result<Vec<u8>, CompressError>) -> bool,
    smaller: usize,
    larger: usize,
    first: Result<Vec<u8>, CompressError>,
    second: Result<Vec<u8>, CompressError>,
)
    requires
        smaller <= larger,
        first is Ok,
        search_result(gave, smaller, first),
        search_result(gave, larger, second),
        answers_alike(gave),
    ensures
        second is Ok,
        exists|early: int, late: int|
            {
                &&& #[trigger] search_stopped_at(gave, larger, early, second)
                &&& #[trigger] search_stopped_at(gave, smaller, late, first)
                &&& early <= late
                &&& planned_attempt(early).quality >= planned_attempt(late).quality
                    || planned_attempt(early).scale_tenths > planned_attempt(late).scale_tenths
                &&& planned_attempt(early).scale_tenths >= planned_attempt(late).scale_tenths
            },
{
    let late = choose|step: int| search_stopped_at(gave, smaller, step, first);
    assert(gave(planned_attempt(late), first));
    if exists|step: int| search_stopped_at(gave, larger, step, second) {
        let early = choose|step: int| search_stopped_at(gave, larger, step, second);
        assert(gave(planned_attempt(early), second));
        if early > late {
            // the attempt at `late` was too long for the larger budget, yet it fits the smaller
            assert(was_too_large(gave, late, larger));
            let bytes = choose|bytes: Vec<u8>| #[trigger]
                gave(planned_attempt(late), Ok(bytes)) && bytes@.len() > larger;
            assert(gave(planned_attempt(late), Ok::<Vec<u8>, CompressError>(bytes)));
            assert(false);
        }
        if early < late {
            // the attempt at `early` gave a stream under the smaller budget, so it gives one now
            assert(was_too_large(gave, early, smaller));
            let bytes = choose|bytes: Vec<u8>| #[trigger]
                gave(planned_attempt(early), Ok(bytes)) && bytes@.len() > smaller;
            assert(gave(planned_attempt(early), Ok::<Vec<u8>, CompressError>(bytes)));
        }
        assert(second is Ok);
        assert(search_stopped_at(gave, larger, early, second) && search_stopped_at(
            gave,
            smaller,
            late,
            first,
        ));
    } else {
        assert(was_too_large(gave, late, larger));
        let bytes = choose|bytes: Vec<u8>| #[trigger]
            gave(planned_attempt(late), Ok(bytes)) && bytes@.len() > larger;
        assert(gave(planned_attempt(late), Ok::<Vec<u8>, CompressError>(bytes)));
        assert(false);
    }
}

/// No budget under two bytes is ever met: every stream of the codec begins with the two bytes
/// of the JPEG start marker. So compressing to such a budget never gives a stream; and for a
/// picture that the encoder accepts at every attempt, be it of a single pixel, the search ends
/// with an unmet budget.
pub proof fn lemma_tiny_budget_is_unmet(
    image: DynamicImage,
    max_size: usize,
    result: Result<Vec<u8>, CompressError>,
)
    requires
        max_size < 2,
        search_result(codec_answers(image), max_size, result),
    ensures
        result is Err,
        (forall|step: int, encoded: Result<Vec<u8>, CompressError>|
            0 <= step < TOTAL_ATTEMPTS && #[trigger] encoder_gave(
                image,
                planned_attempt(step),
                encoded,
            ) ==> encoded is Ok) ==> result == Err::<Vec<u8>, CompressError>(
            CompressError::BudgetUnmet,
        ),
{
    let gave = codec_answers(image);
    if exists|step: int| search_stopped_at(gave, max_size, step, result) {
        let step = choose|step: int| search_stopped_at(gave, max_size, step, result);
        assert(encoder_gave(image, planned_attempt(step), result));
        lemma_encoder_gave(image, planned_attempt(step), result);
    }
}

/// Searches the plan for a stream within `max_size` bytes. The attempts are handed to `encode`
/// in the order of [`planned_attempt`], each one only after the one before it gave a stream
/// that was too long. The first stream that fits is returned; a failure of the encoder ends the
/// search with that failure; and where no attempt fits, the budget is reported as unmet.
pub fn first_fit<F: Fn(Attempt) -> Result<Vec<u8>, CompressError>>(
    encode: F,
    max_size: usize,
) -> (result: Result<Vec<u8>, CompressError>)
    requires
        forall|step: int|
            0 <= step < TOTAL_ATTEMPTS ==> call_requires(
                encode,
                (#[trigger] planned_attempt(step),),
            ),
    ensures
        search_result(answers_of(encode), max_size, result),
{
    let ghost gave = answers_of(encode);
    let mut step: usize = 0;
    while step < TOTAL_ATTEMPTS
        invariant
            step <= TOTAL_ATTEMPTS,
            gave == answers_of(encode),
            forall|step: int|
                0 <= step < TOTAL_ATTEMPTS ==> call_requires(
                    encode,
                    (#[trigger] planned_attempt(step),),
                ),
            forall|earlier: int| 0 <= earlier < step ==> was_too_large(gave, earlier, max_size),
        decreases TOTAL_ATTEMPTS - step,
    {
        let attempt = match attempt_at(step) {
            Some(attempt) => attempt,
            None => { return Err(CompressError::BudgetUnmet); },
        };
        let encoded = encode(attempt);
        assert(gave(planned_attempt(step as int), encoded));
        match judge(encoded, max_size) {
            Trial::Accepted(bytes) => {
                assert(search_stopped_at(gave, max_size, step as int, Ok(bytes)));
                return Ok(bytes);
            },
            Trial::Failed(error) => {
                assert(search_stopped_at(gave, max_size, step as int, Err(error)));
                return Err(error);
            },
            Trial::TooLarge => {
                assert(was_too_large(gave, step as int, max_size));
            },
        }
        step = step + 1;
    }
    Err(CompressError::BudgetUnmet)
}

/// Re-encodes a decoded `image` as JPEG within `max_size` bytes: the search of [`first_fit`],
/// with the codec as the encoder.
fn compress_decoded(image: &DynamicImage, max_size: usize) -> (result: Result<
    Vec<u8>,
    CompressError,
>)
    ensures
        search_result(codec_answers(*image), max_size, result),
        result matches Ok(bytes) ==> bytes@.len() <= max_size && starts_as_jpeg(bytes@),
        result matches Err(error) ==> error is Encode || error is BudgetUnmet,
{
    let encode = |attempt: Attempt| -> (encoded: Result<Vec<u8>, CompressError>)
        requires
            1 <= attempt.quality <= 100,
            1 <= attempt.scale_tenths <= FULL_SCALE,
        ensures
            encoder_gave(*image, attempt, encoded),
        { encode_attempt(image, attempt) };
    assert forall|step: int| 0 <= step < TOTAL_ATTEMPTS implies call_requires(
        encode,
        (#[trigger] planned_attempt(step),),
    ) by {
        lemma_attempt_in_range(step);
    }
    let result = first_fit(encode, max_size);
    proof {
        lemma_search_result_carries_over(
            answers_of(encode),
            codec_answers(*image),
            max_size,
            result,
        );
    }
    result
}

/// Re-encodes the image held in `image_data` as JPEG within `max_size` bytes, or says why it
/// could not. The image is decoded, and the attempts of the plan are made on it in order: the
/// result is the first stream that is within `max_size`, so a stream that is returned is never
/// longer than that. Bytes that the decoder refuses give a decode error, a failure of the
/// encoder ends the search with an encode error, and where no attempt fits the budget is
/// reported as unmet.
pub fn compress_image(image_data: &[u8], max_size: usize) -> (result: Result<
    Vec<u8>,
    CompressError,
>)
    ensures
        compression_result(image_data@, max_size, result),
        result matches Ok(bytes) ==> bytes@.len() <= max_size && starts_as_jpeg(bytes@),
{
    let decoded = decode_image(image_data);
    assert(call_ensures(decode_image, (image_data,), decoded));
    assert(decoder_gave(image_data@, decoded));
    match decoded {
        Ok(image) => compress_decoded(&image, max_size),
        Err(error) => Err(CompressError::Decode { detail: error.to_string() }),
    }
}

} // verus!
