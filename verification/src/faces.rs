//! Data model for detected faces and the engagement scorer.
//!
//! All attribute values that the detection provider reports as real numbers
//! are held in fixed point: angles in thousandths of a degree, confidences in
//! thousandths (so a confidence of one is `1000`). The scorer works entirely
//! in integer arithmetic over these fixed-point values.

use vstd::prelude::*;

verus! {

/// Axis-aligned bounding box of a detected face, in pixels.
#[derive(Clone, Copy, Debug, PartialEq, Eq, Structural)]
pub struct FaceRectangle {
    pub top: u32,
    pub left: u32,
    pub width: u32,
    pub height: u32,
}

impl FaceRectangle {
    /// Area of the bounding box: `width * height`.
    pub open spec fn spec_area(self) -> int {
        self.width * self.height
    }

    /// Area of the bounding box, wide enough that the product cannot wrap.
    pub fn get_area(&self) -> (r: u64)
        ensures
            r == self.spec_area(),
    {
        let w: u64 = self.width as u64;
        let h: u64 = self.height as u64;
        assert(w * h <= 0xffff_ffff * 0xffff_ffff) by (nonlinear_arith)
            requires
                w <= 0xffff_ffff,
                h <= 0xffff_ffff,
        ;
        w * h
    }
}

/// A point in the image, in thousandths of a pixel.
#[derive(Clone, Copy, Debug, PartialEq, Eq, Structural)]
pub struct Coordinate {
    pub x: i64,
    pub y: i64,
}

/// Landmark points of a detected face.
#[derive(Clone, Copy, Debug)]
pub struct FaceLandmarks {
    pub pupil_left: Coordinate,
    pub pupil_right: Coordinate,
    pub nose_tip: Coordinate,
    pub mouth_left: Coordinate,
    pub mouth_right: Coordinate,
    pub eyebrow_left_outer: Coordinate,
    pub eyebrow_left_inner: Coordinate,
    pub eye_left_outer: Coordinate,
    pub eye_left_top: Coordinate,
    pub eye_left_bottom: Coordinate,
    pub eye_left_inner: Coordinate,
    pub eyebrow_right_inner: Coordinate,
    pub eyebrow_right_outer: Coordinate,
    pub eye_right_inner: Coordinate,
    pub eye_right_top: Coordinate,
    pub eye_right_bottom: Coordinate,
    pub eye_right_outer: Coordinate,
    pub nose_root_left: Coordinate,
    pub nose_root_right: Coordinate,
    pub nose_left_alar_top: Coordinate,
    pub nose_right_alar_top: Coordinate,
    pub nose_left_alar_out_tip: Coordinate,
    pub nose_right_alar_out_tip: Coordinate,
    pub upper_lip_top: Coordinate,
    pub upper_lip_bottom: Coordinate,
    pub under_lip_top: Coordinate,
    pub under_lip_bottom: Coordinate,
}

/// Head rotation, in thousandths of a degree.
#[derive(Clone, Copy, Debug, PartialEq, Eq, Structural)]
pub struct HeadPose {
    pub pitch: i32,
    pub roll: i32,
    pub yaw: i32,
}

/// Facial-hair confidences, in thousandths.
#[derive(Clone, Copy, Debug, PartialEq, Eq, Structural)]
pub struct FacialHair {
    pub moustache: u32,
    pub beard: u32,
    pub sideburns: u32,
}

/// Emotion confidences, in thousandths; each lies in `[0, 1000]`.
#[derive(Clone, Copy, Debug, PartialEq, Eq, Structural)]
pub struct Emotion {
    pub anger: u32,
    pub contempt: u32,
    pub disgust: u32,
    pub fear: u32,
    pub happiness: u32,
    pub neutral: u32,
    pub sadness: u32,
    pub surprise: u32,
}

impl Emotion {
    /// Each channel is a confidence in `[0, 1]`, held in thousandths.
    pub open spec fn valid(self) -> bool {
        &&& self.anger <= 1000
        &&& self.contempt <= 1000
        &&& self.disgust <= 1000
        &&& self.fear <= 1000
        &&& self.happiness <= 1000
        &&& self.neutral <= 1000
        &&& self.sadness <= 1000
        &&& self.surprise <= 1000
    }
}

/// Blur level and its confidence, in thousandths.
#[derive(Clone, Debug)]
pub struct Blur {
    pub blur_level: String,
    pub value: u32,
}

/// Exposure level and its confidence, in thousandths.
#[derive(Clone, Debug)]
pub struct Exposure {
    pub exposure_level: String,
    pub value: u32,
}

/// Noise level and its confidence, in thousandths.
#[derive(Clone, Debug)]
pub struct Noise {
    pub noise_level: String,
    pub value: u32,
}

/// Makeup indicators.
#[derive(Clone, Copy, Debug, PartialEq, Eq, Structural)]
pub struct Makeup {
    pub eye_makeup: bool,
    pub lip_makeup: bool,
}

/// One accessory and the confidence it was seen with, in thousandths.
#[derive(Clone, Debug)]
pub struct Accessory {
    pub kind: String,
    pub confidence: u32,
}

/// Occlusion indicators.
#[derive(Clone, Copy, Debug, PartialEq, Eq, Structural)]
pub struct Occlusion {
    pub forehead_occluded: bool,
    pub eye_occluded: bool,
    pub mouth_occluded: bool,
}

/// One hair color and the confidence it was seen with, in thousandths.
#[derive(Clone, Debug)]
pub struct HairColor {
    pub color: String,
    pub confidence: u32,
}

/// Hair attributes; `bald` is a confidence in thousandths.
#[derive(Clone, Debug)]
pub struct Hair {
    pub bald: u32,
    pub invisible: bool,
    pub hair_color: Vec<HairColor>,
}

/// Attributes the detection provider computed for one face. `smile` and `age`
/// are held in thousandths (of full smile, of a year).
#[derive(Clone, Debug)]
pub struct FaceAttributes {
    pub smile: u32,
    pub head_pose: HeadPose,
    pub gender: String,
    pub age: u32,
    pub facial_hair: FacialHair,
    pub glasses: String,
    pub emotion: Emotion,
    pub blur: Blur,
    pub exposure: Exposure,
    pub noise: Noise,
    pub makeup: Makeup,
    pub accessories: Vec<Accessory>,
    pub occlusion: Occlusion,
    pub hair: Hair,
}

impl FaceAttributes {
    /// The fields the scorer reads are confidences in `[0, 1]`.
    pub open spec fn valid(self) -> bool {
        self.smile <= 1000 && self.emotion.valid()
    }
}

/// Why a face could not be scored.
#[derive(Clone, Copy, Debug, PartialEq, Eq, Structural)]
pub enum ScoreError {
    /// The scorer needs an attribute that was not requested from the provider.
    MissingAttribute,
}

/// One face found in an image. The identifier, the landmarks and the
/// attributes are absent when they were not requested from the provider.
#[derive(Clone, Debug)]
pub struct Face {
    pub face_id: Option<String>,
    pub face_rectangle: FaceRectangle,
    pub face_landmarks: Option<FaceLandmarks>,
    pub face_attributes: Option<FaceAttributes>,
    pub recognition_model: String,
}

/// Magnitude of an integer.
pub open spec fn mag(x: int) -> int {
    if x < 0 { -x } else { x }
}

/// `x`, capped from above at `cap`.
pub open spec fn cap_at(x: int, cap: int) -> int {
    if x > cap { cap } else { x }
}

/// Numerator, over the denominator 24300, of the normalized yaw component.
///
/// The at-risk yaw range is (-13.3, 11.0) degrees, i.e. (-13300, 11000) in
/// thousandths: its width is 24300 and its midpoint -1150. A yaw at the
/// midpoint normalizes to 1 (numerator 24300); a yaw whose distance from the
/// midpoint reaches the width normalizes to 0.
pub open spec fn yaw_norm_num(yaw: int) -> int {
    24300 - cap_at(mag(yaw + 1150), 24300)
}

/// Numerator, over the denominator 15300, of the normalized pitch component.
///
/// The at-risk pitch range is (-15.0, 0.3) degrees, i.e. (-15000, 300) in
/// thousandths: its width is 15300 and its midpoint -7350.
pub open spec fn pitch_norm_num(pitch: int) -> int {
    15300 - cap_at(mag(pitch + 7350), 15300)
}

/// `1.05^t` in fixed point at scale one million, rounding down at each step.
pub open spec fn pow105(t: nat) -> nat
    decreases t,
{
    if t == 0 {
        1_000_000
    } else {
        (pow105((t - 1) as nat) * 21) / 20
    }
}

/// Number of further whole powers of 1.05 that fit below `x`, counting from
/// step `t`, capped at 100 steps in all.
pub open spec fn log105_from(x: nat, t: nat) -> nat
    decreases 100 - t,
{
    if t >= 100 {
        100
    } else if pow105((t + 1) as nat) > x {
        t
    } else {
        log105_from(x, (t + 1) as nat)
    }
}

/// Base-1.05 logarithm of `x` (fixed point at scale one million), rounded
/// down to a whole number and capped at 100.
pub open spec fn log105_capped(x: nat) -> nat {
    log105_from(x, 0)
}

/// The argument of the logarithmic penalty: `neutral * 140 + 1`, taken from
/// thousandths to fixed point at scale one million.
pub open spec fn neutral_fp(neutral: int) -> int {
    (140 * neutral + 1000) * 1000
}

/// Numerator, over the denominator 100, of the emotion component
/// `1 - min(log_1.05(neutral * 140 + 1) / 100, 1)`.
pub open spec fn emotion_norm_num(neutral: int) -> int {
    100 - log105_capped(neutral_fp(neutral) as nat)
}

/// Computes `log105_capped(x)` by walking the powers of 1.05.
fn log105_capped_exec(x: u64) -> (t: u64)
    requires
        x <= 1_000_000_000,
    ensures
        t == log105_capped(x as nat),
        t <= 100,
{
    let mut t: u64 = 0;
    let mut p: u64 = 1_000_000;
    while t < 100 && p * 21 / 20 <= x
        invariant
            t <= 100,
            p == pow105(t as nat),
            t == 0 ==> p == 1_000_000,
            t >= 1 ==> p <= x,
            x <= 1_000_000_000,
            log105_capped(x as nat) == log105_from(x as nat, t as nat),
        decreases 100 - t,
    {
        p = p * 21 / 20;
        t = t + 1;
    }
    t
}

/// Numerator, over the denominator 4131000, of the weighted engagement sum
/// `yawNorm * 123 + pitchNorm * 232 + smile * 273 + emotionNorm * 52`.
///
/// 4131000 is the least common denominator of the four components: the yaw
/// numerator is over 24300 (so is scaled by 170), the pitch numerator over
/// 15300 (scaled by 270), smile is in thousandths (scaled by 4131) and the
/// emotion numerator is over 100 (scaled by 41310).
pub open spec fn engagement_num(yaw: int, pitch: int, smile: int, neutral: int) -> int {
    123 * yaw_norm_num(yaw) * 170
        + 232 * pitch_norm_num(pitch) * 270
        + 273 * smile * 4131
        + 52 * emotion_norm_num(neutral) * 41310
}

/// The engagement score: the weighted sum of the four components, rounded
/// down to a whole number. Yaw and pitch are in thousandths of a degree;
/// smile and neutral are confidences in thousandths.
pub open spec fn engagement_of(yaw: int, pitch: int, smile: int, neutral: int) -> int {
    engagement_num(yaw, pitch, smile, neutral) / 4131000
}

/// Scores one face's attributes: how engaged the subject looks, from head
/// pose (looking at the screen), smile, and how non-neutral the emotion is.
pub fn engagement_from_attributes(a: &FaceAttributes) -> (r: usize)
    requires
        a.valid(),
    ensures
        r == engagement_of(
            a.head_pose.yaw as int,
            a.head_pose.pitch as int,
            a.smile as int,
            a.emotion.neutral as int,
        ),
        r <= 680,
{
    let yoff_i: i64 = a.head_pose.yaw as i64 + 1150;
    let yoff: u64 = if yoff_i < 0 { (-yoff_i) as u64 } else { yoff_i as u64 };
    let ynum: u64 = if yoff >= 24300 { 0 } else { 24300 - yoff };
    assert(ynum == yaw_norm_num(a.head_pose.yaw as int));

    let poff_i: i64 = a.head_pose.pitch as i64 + 7350;
    let poff: u64 = if poff_i < 0 { (-poff_i) as u64 } else { poff_i as u64 };
    let pnum: u64 = if poff >= 15300 { 0 } else { 15300 - poff };
    assert(pnum == pitch_norm_num(a.head_pose.pitch as int));

    let x: u64 = (140 * (a.emotion.neutral as u64) + 1000) * 1000;
    let l: u64 = log105_capped_exec(x);
    let enn: u64 = 100 - l;
    assert(enn == emotion_norm_num(a.emotion.neutral as int));

    let num: u64 = 123 * ynum * 170
        + 232 * pnum * 270
        + 273 * (a.smile as u64) * 4131
        + 52 * enn * 41310;
    let r: u64 = num / 4131000;
    assert(num <= 680 * 4131000);
    assert(r <= 680);
    r as usize
}

impl Face {
    /// The engagement score of this face, or `MissingAttribute` when the
    /// attributes were not requested from the provider.
    pub fn engagement_score(&self) -> (r: Result<usize, ScoreError>)
        requires
            self.face_attributes matches Some(a) ==> a.valid(),
        ensures
            self.face_attributes is None ==> r == Err::<usize, ScoreError>(
                ScoreError::MissingAttribute,
            ),
            self.face_attributes matches Some(a) ==> (r matches Ok(s) && s == engagement_of(
                a.head_pose.yaw as int,
                a.head_pose.pitch as int,
                a.smile as int,
                a.emotion.neutral as int,
            )),
    {
        match &self.face_attributes {
            None => Err(ScoreError::MissingAttribute),
            Some(a) => Ok(engagement_from_attributes(a)),
        }
    }
}

/// The faces found in one image, in the order the provider returned them;
/// empty when none was found.
#[derive(Clone, Debug)]
pub struct Faces(pub Vec<Face>);

impl Faces {
    pub fn new(faces: Vec<Face>) -> (r: Faces)
        ensures
            r.0 == faces,
    {
        Faces(faces)
    }

    /// `i` points at the face the selection policy picks: no face has a
    /// strictly larger bounding box, and every face before `i` has a strictly
    /// smaller one (ties go to the first in input order).
    pub open spec fn is_largest_at(s: Seq<Face>, i: int) -> bool {
        &&& 0 <= i < s.len()
        &&& forall|j: int|
            0 <= j < s.len() ==> s[j].face_rectangle.spec_area()
                <= s[i].face_rectangle.spec_area()
        &&& forall|j: int|
            0 <= j < i ==> s[j].face_rectangle.spec_area() < s[i].face_rectangle.spec_area()
    }

    /// Index of the face with the largest bounding box, the first such face
    /// when several tie; `None` exactly when no face was found.
    pub fn largest_face_index(&self) -> (r: Option<usize>)
        ensures
            r is None <==> self.0@.len() == 0,
            r matches Some(i) ==> Self::is_largest_at(self.0@, i as int),
    {
        if self.0.len() == 0 {
            return None;
        }
        let mut best: usize = 0;
        let mut k: usize = 1;
        while k < self.0.len()
            invariant
                0 < self.0@.len(),
                best < k <= self.0@.len(),
                forall|j: int|
                    0 <= j < k ==> self.0@[j].face_rectangle.spec_area()
                        <= self.0@[best as int].face_rectangle.spec_area(),
                forall|j: int|
                    0 <= j < best ==> self.0@[j].face_rectangle.spec_area()
                        < self.0@[best as int].face_rectangle.spec_area(),
            decreases self.0@.len() - k,
        {
            let area_k: u64 = self.0[k].face_rectangle.get_area();
            let area_best: u64 = self.0[best].face_rectangle.get_area();
            if area_k > area_best {
                best = k;
            }
            k = k + 1;
        }
        Some(best)
    }

    /// The engagement score for one image: the score of the largest detected
    /// face, or 0 when no face was detected.
    pub fn engagement_score(&self) -> (r: Result<usize, ScoreError>)
        requires
            forall|i: int|
                0 <= i < self.0@.len() ==> ((#[trigger] self.0@[i]).face_attributes matches Some(a)
                    ==> a.valid()),
        ensures
            self.0@.len() == 0 ==> r == Ok::<usize, ScoreError>(0),
            self.0@.len() > 0 ==> exists|i: int|
                {
                    &&& Self::is_largest_at(self.0@, i)
                    &&& match self.0@[i].face_attributes {
                        None => r == Err::<usize, ScoreError>(ScoreError::MissingAttribute),
                        Some(a) => r matches Ok(s) && s == engagement_of(
                            a.head_pose.yaw as int,
                            a.head_pose.pitch as int,
                            a.smile as int,
                            a.emotion.neutral as int,
                        ),
                    }
                },
    {
        match self.largest_face_index() {
            None => Ok(0),
            Some(i) => {
                let r = self.0[i].engagement_score();
                proof {
                    assert(Self::is_largest_at(self.0@, i as int));
                }
                r
            },
        }
    }
}

/// The score is a function of the attributes alone: two faces whose yaw,
/// pitch, smile and neutral-emotion values agree score the same.
pub proof fn lemma_score_deterministic(a: FaceAttributes, b: FaceAttributes)
    requires
        a.head_pose.yaw == b.head_pose.yaw,
        a.head_pose.pitch == b.head_pose.pitch,
        a.smile == b.smile,
        a.emotion.neutral == b.emotion.neutral,
    ensures
        engagement_of(
            a.head_pose.yaw as int,
            a.head_pose.pitch as int,
            a.smile as int,
            a.emotion.neutral as int,
        ) == engagement_of(
            b.head_pose.yaw as int,
            b.head_pose.pitch as int,
            b.smile as int,
            b.emotion.neutral as int,
        ),
{
}

/// Holding everything else fixed, moving yaw strictly closer to the midpoint
/// of the at-risk range strictly raises the normalized yaw component, as long
/// as the farther yaw is still within the saturation distance (at or beyond
/// it the component has saturated at 0).
pub proof fn lemma_yaw_monotonic(y1: int, y2: int)
    requires
        mag(y2 + 1150) < mag(y1 + 1150),
        mag(y1 + 1150) <= 24300,
    ensures
        yaw_norm_num(y2) > yaw_norm_num(y1),
{
}

} // verus!
