use eunha::json::{json_get, JsonValue};
use eunha::meta::ensure_media_dims;

fn obj(entries: Vec<(&str, JsonValue)>) -> JsonValue {
    JsonValue::Object(entries.into_iter().map(|(k, v)| (k.to_string(), v)).collect())
}

fn at<'a>(v: &'a JsonValue, path: &[&str]) -> Option<&'a JsonValue> {
    let mut cur = v;
    for k in path {
        cur = json_get(cur, k)?;
    }
    Some(cur)
}

fn int_at(v: &JsonValue, path: &[&str]) -> Option<i64> {
    match at(v, path) {
        Some(JsonValue::Int(i)) => Some(*i),
        _ => None,
    }
}

fn str_at(v: &JsonValue, path: &[&str]) -> Option<String> {
    match at(v, path) {
        Some(JsonValue::Str(s)) => Some(s.clone()),
        _ => None,
    }
}

#[test]
fn injects_default_dims_for_dimensionless_images() {
    let meta = ensure_media_dims(None, "image");
    assert_eq!(int_at(&meta, &["original", "width"]), Some(1));
    assert_eq!(int_at(&meta, &["original", "height"]), Some(1));
    assert_eq!(int_at(&meta, &["small", "width"]), Some(1));

    let meta = ensure_media_dims(Some(obj(vec![])), "image");
    assert_eq!(int_at(&meta, &["original", "height"]), Some(1));
}

#[test]
fn image_matches_mastodon_geometry() {
    let meta = ensure_media_dims(
        Some(obj(vec![(
            "original",
            obj(vec![("width", JsonValue::Int(1206)), ("height", JsonValue::Int(1706))]),
        )])),
        "image",
    );
    assert_eq!(str_at(&meta, &["original", "size"]), Some("1206x1706".to_string()));
    assert_eq!(int_at(&meta, &["small", "width"]), Some(404));
    assert_eq!(int_at(&meta, &["small", "height"]), Some(571));
}

#[test]
fn video_original_has_no_size_or_aspect() {
    let meta = ensure_media_dims(
        Some(obj(vec![(
            "original",
            obj(vec![
                ("width", JsonValue::Int(720)),
                ("height", JsonValue::Int(1280)),
                ("frame_rate", JsonValue::Str("30/1".to_string())),
                ("duration", JsonValue::Number("25.4".to_string())),
                ("bitrate", JsonValue::Int(3266734)),
            ]),
        )])),
        "video",
    );
    assert!(at(&meta, &["original", "size"]).is_none());
    assert!(at(&meta, &["original", "aspect"]).is_none());
    assert_eq!(str_at(&meta, &["original", "frame_rate"]), Some("30/1".to_string()));
    assert_eq!(int_at(&meta, &["original", "bitrate"]), Some(3266734));
    let small = at(&meta, &["small"]).expect("small");
    match small {
        JsonValue::Object(es) => {
            let keys: Vec<&str> = es.iter().map(|(k, _)| k.as_str()).collect();
            assert_eq!(keys, vec!["width", "height", "size", "aspect"]);
        }
        other => panic!("small is not an object: {:?}", other),
    }
    assert_eq!(int_at(&meta, &["small", "width"]), Some(360));
    assert_eq!(int_at(&meta, &["small", "height"]), Some(640));
    assert_eq!(str_at(&meta, &["small", "size"]), Some("360x640".to_string()));
    match at(&meta, &["small", "aspect"]) {
        Some(JsonValue::Ratio(a, b)) => assert_eq!(*a as f64 / *b as f64, 0.5625),
        other => panic!("aspect is not a number: {:?}", other),
    }
}

#[test]
fn video_without_dims_gets_bare_original() {
    let meta = ensure_media_dims(None, "video");
    assert_eq!(int_at(&meta, &["original", "width"]), Some(1));
    assert!(at(&meta, &["original", "size"]).is_none());
    assert_eq!(int_at(&meta, &["small", "width"]), Some(1));
}

#[test]
fn preserves_existing_small() {
    let meta = ensure_media_dims(
        Some(obj(vec![
            (
                "original",
                obj(vec![("width", JsonValue::Int(100)), ("height", JsonValue::Int(100))]),
            ),
            (
                "small",
                obj(vec![
                    ("width", JsonValue::Int(50)),
                    ("height", JsonValue::Int(50)),
                    ("size", JsonValue::Str("50x50".to_string())),
                    ("aspect", JsonValue::Number("1.0".to_string())),
                ]),
            ),
        ])),
        "image",
    );
    assert_eq!(int_at(&meta, &["small", "width"]), Some(50));
}

#[test]
fn leaves_non_visual_media_untouched() {
    let meta = ensure_media_dims(None, "audio");
    assert!(json_get(&meta, "original").is_none());
    assert!(json_get(&meta, "small").is_none());
}
