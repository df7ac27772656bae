use engagement::faces::{
    Accessory, Blur, Emotion, Exposure, Face, FaceAttributes, FaceRectangle, FacialHair, Hair,
    HairColor, HeadPose, Makeup, Noise, Occlusion, ScoreError, Faces,
};

fn emotion(neutral_milli: u32) -> Emotion {
    Emotion {
        anger: 0,
        contempt: 0,
        disgust: 0,
        fear: 0,
        happiness: 0,
        neutral: neutral_milli,
        sadness: 0,
        surprise: 0,
    }
}

fn attrs(yaw_milli: i32, pitch_milli: i32, smile_milli: u32, neutral_milli: u32) -> FaceAttributes {
    FaceAttributes {
        smile: smile_milli,
        head_pose: HeadPose { pitch: pitch_milli, roll: 0, yaw: yaw_milli },
        gender: String::from("female"),
        age: 30_000,
        facial_hair: FacialHair { moustache: 0, beard: 0, sideburns: 0 },
        glasses: String::from("NoGlasses"),
        emotion: emotion(neutral_milli),
        blur: Blur { blur_level: String::from("low"), value: 0 },
        exposure: Exposure { exposure_level: String::from("goodExposure"), value: 500 },
        noise: Noise { noise_level: String::from("low"), value: 0 },
        makeup: Makeup { eye_makeup: false, lip_makeup: false },
        accessories: vec![Accessory { kind: String::from("glasses"), confidence: 100 }],
        occlusion: Occlusion {
            forehead_occluded: false,
            eye_occluded: false,
            mouth_occluded: false,
        },
        hair: Hair {
            bald: 100,
            invisible: false,
            hair_color: vec![HairColor { color: String::from("brown"), confidence: 900 }],
        },
    }
}

fn face(width: u32, height: u32, attributes: Option<FaceAttributes>) -> Face {
    Face {
        face_id: Some(String::from("0b2d5f3c")),
        face_rectangle: FaceRectangle { top: 10, left: 10, width, height },
        face_landmarks: None,
        face_attributes: attributes,
        recognition_model: String::from("recognition_01"),
    }
}

#[test]
fn midpoint_pose_full_smile_scores_680() {
    let f = face(100, 100, Some(attrs(-1150, -7350, 1000, 0)));
    assert_eq!(f.engagement_score(), Ok(680));
}

#[test]
fn no_faces_scores_zero() {
    let faces = Faces::new(vec![]);
    assert_eq!(faces.largest_face_index(), None);
    assert_eq!(faces.engagement_score(), Ok(0));
}

#[test]
fn largest_face_selected_in_either_order() {
    let big = face(100, 100, Some(attrs(-1150, -7350, 1000, 0)));
    let small = face(50, 50, Some(attrs(50_000, 50_000, 0, 1000)));
    let first = Faces::new(vec![big.clone(), small.clone()]);
    let second = Faces::new(vec![small, big]);
    assert_eq!(first.largest_face_index(), Some(0));
    assert_eq!(second.largest_face_index(), Some(1));
    assert_eq!(first.engagement_score(), Ok(680));
    assert_eq!(second.engagement_score(), Ok(680));
}

#[test]
fn equal_areas_select_first() {
    let a = face(60, 40, Some(attrs(0, 0, 0, 0)));
    let b = face(40, 60, Some(attrs(0, 0, 1000, 0)));
    let faces = Faces::new(vec![a, b]);
    assert_eq!(faces.largest_face_index(), Some(0));
}

#[test]
fn identical_attributes_score_identically() {
    let f1 = face(100, 100, Some(attrs(-3000, -5000, 700, 300)));
    let f2 = face(20, 30, Some(attrs(-3000, -5000, 700, 300)));
    assert_eq!(f1.engagement_score(), f2.engagement_score());
}

#[test]
fn yaw_closer_to_midpoint_scores_strictly_higher() {
    let centered = face(100, 100, Some(attrs(-1150, -7350, 500, 500)));
    let mid = face(100, 100, Some(attrs(5000, -7350, 500, 500)));
    let turned = face(100, 100, Some(attrs(10_000, -7350, 500, 500)));
    let s_centered = centered.engagement_score().unwrap();
    let s_mid = mid.engagement_score().unwrap();
    let s_turned = turned.engagement_score().unwrap();
    assert!(s_centered > s_mid);
    assert!(s_mid > s_turned);
}

#[test]
fn neutral_zero_gives_full_emotion_weight() {
    // Pose far beyond both at-risk ranges and no smile: only the emotion
    // component contributes, and a fully non-neutral face gets all of its 52.
    let f = face(100, 100, Some(attrs(50_000, 50_000, 0, 0)));
    assert_eq!(f.engagement_score(), Ok(52));
}

#[test]
fn neutral_one_clamps_emotion_to_zero() {
    let nothing = face(100, 100, Some(attrs(50_000, 50_000, 0, 1000)));
    assert_eq!(nothing.engagement_score(), Ok(0));
    let otherwise_full = face(100, 100, Some(attrs(-1150, -7350, 1000, 1000)));
    assert_eq!(otherwise_full.engagement_score(), Ok(628));
}

#[test]
fn mid_neutral_logarithmic_penalty() {
    // neutral = 0.2: log base 1.05 of (0.2 * 140 + 1) = 29 is 69 whole steps,
    // so the emotion component contributes floor(52 * (100 - 69) / 100) = 16.
    let f = face(100, 100, Some(attrs(50_000, 50_000, 0, 200)));
    assert_eq!(f.engagement_score(), Ok(16));
}

#[test]
fn missing_attributes_cannot_be_scored() {
    let f = face(100, 100, None);
    assert_eq!(f.engagement_score(), Err(ScoreError::MissingAttribute));
    let faces = Faces::new(vec![face(100, 100, None)]);
    assert_eq!(faces.engagement_score(), Err(ScoreError::MissingAttribute));
}

#[test]
fn bounding_box_area_is_exact() {
    let r = FaceRectangle { top: 0, left: 0, width: 100, height: 100 };
    assert_eq!(r.get_area(), 10_000);
    let wide = FaceRectangle { top: 0, left: 0, width: 4_000_000_000, height: 4_000_000_000 };
    assert_eq!(wide.get_area(), 16_000_000_000_000_000_000);
}
