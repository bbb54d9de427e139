use std::collections::{BTreeMap, HashMap};

use sensor_core::{
    PrepareConditionalImageData, PrepareStaticImageData, PrepareTextData, RenderData,
    SensorValue, TransportMessage, TransportType,
};
use sensor_display::assets::{AssetKind, ElementWrite, FileOp};
use sensor_display::dispatch::{dispatch, submit_frame, DecodeError, Dispatched, FontCache, RenderFrame};
use sensor_display::render_guard::RenderGuard;
use sensor_display::wire::MessageKind;

fn envelope(transport_type: TransportType, data: Vec<u8>) -> Vec<u8> {
    bincode::serialize(&TransportMessage { transport_type, data }).unwrap()
}

fn text_message(fonts: &[(&str, &[u8])]) -> Vec<u8> {
    let font_data: HashMap<String, Vec<u8>> =
        fonts.iter().map(|(k, v)| (k.to_string(), v.to_vec())).collect();
    let payload = bincode::serialize(&PrepareTextData { font_data }).unwrap();
    envelope(TransportType::PrepareText, payload)
}

fn render_message() -> Vec<u8> {
    let data = RenderData {
        sensor_values: vec![SensorValue { id: "cpu".to_string(), ..Default::default() }],
        ..Default::default()
    };
    envelope(TransportType::RenderImage, bincode::serialize(&data).unwrap())
}

/// Runs the writes on an in-memory directory tree keyed by element id.
fn run(tree: &mut BTreeMap<String, BTreeMap<String, Vec<u8>>>, w: &ElementWrite) {
    for op in &w.ops {
        match op {
            FileOp::RemoveDir => {
                tree.remove(&w.element_id);
            }
            FileOp::CreateDir => {
                tree.entry(w.element_id.clone()).or_default();
            }
            FileOp::Write(name, bytes) => {
                tree.get_mut(&w.element_id).unwrap().insert(name.clone(), bytes.clone());
            }
        }
    }
}

fn font_map(c: &FontCache) -> BTreeMap<String, Vec<u8>> {
    c.fonts().iter().map(|(k, v)| (k.clone(), v.clone())).collect()
}

#[test]
fn resent_text_payload_gives_same_fonts() {
    let msg = text_message(&[("Roboto", &[1, 2, 3]), ("Mono", &[9])]);
    let mut once = FontCache::new();
    let mut guard = RenderGuard::new();
    assert!(matches!(dispatch(&msg, &mut once, &mut guard), Dispatched::FontsReplaced));
    let mut twice = FontCache::new();
    dispatch(&msg, &mut twice, &mut guard);
    dispatch(&msg, &mut twice, &mut guard);
    assert_eq!(font_map(&once), font_map(&twice));
    assert_eq!(font_map(&once).len(), 2);
    assert_eq!(font_map(&once)["Roboto"], vec![1, 2, 3]);
}

#[test]
fn text_message_replaces_never_merges() {
    let mut fonts = FontCache::new();
    let mut guard = RenderGuard::new();
    dispatch(&text_message(&[("A", &[1]), ("B", &[2])]), &mut fonts, &mut guard);
    dispatch(&text_message(&[("C", &[3])]), &mut fonts, &mut guard);
    let m = font_map(&fonts);
    assert_eq!(m.keys().cloned().collect::<Vec<_>>(), vec!["C".to_string()]);
}

#[test]
fn conditional_prepare_leaves_exactly_the_named_files() {
    let mut tree: BTreeMap<String, BTreeMap<String, Vec<u8>>> = BTreeMap::new();
    let mut old = BTreeMap::new();
    old.insert("stale.png".to_string(), vec![0]);
    old.insert("on.png".to_string(), vec![0]);
    tree.insert("lamp".to_string(), old);
    tree.insert("other".to_string(), BTreeMap::from([("x.png".to_string(), vec![7])]));

    let mut images = HashMap::new();
    images.insert(
        "lamp".to_string(),
        HashMap::from([("on.png".to_string(), vec![1]), ("off.png".to_string(), vec![2])]),
    );
    let payload = bincode::serialize(&PrepareConditionalImageData { images_data: images }).unwrap();
    let msg = envelope(TransportType::PrepareConditionalImage, payload);
    let mut fonts = FontCache::new();
    let mut guard = RenderGuard::new();
    let writes = match dispatch(&msg, &mut fonts, &mut guard) {
        Dispatched::Persist(w) => w,
        _ => panic!("expected writes"),
    };
    assert_eq!(writes.len(), 1);
    assert_eq!(writes[0].kind, AssetKind::ConditionalImage);
    for w in &writes {
        run(&mut tree, w);
    }
    let lamp = &tree["lamp"];
    assert_eq!(
        lamp.keys().cloned().collect::<Vec<_>>(),
        vec!["off.png".to_string(), "on.png".to_string()]
    );
    assert_eq!(lamp["on.png"], vec![1]);
    assert_eq!(tree["other"]["x.png"], vec![7]);
}

#[test]
fn static_prepare_writes_one_file_named_by_element() {
    let mut images = HashMap::new();
    images.insert("logo".to_string(), vec![5, 6]);
    images.insert("bg".to_string(), vec![7]);
    let payload = bincode::serialize(&PrepareStaticImageData { images_data: images }).unwrap();
    let msg = envelope(TransportType::PrepareStaticImage, payload);
    let mut fonts = FontCache::new();
    let mut guard = RenderGuard::new();
    let writes = match dispatch(&msg, &mut fonts, &mut guard) {
        Dispatched::Persist(w) => w,
        _ => panic!("expected writes"),
    };
    assert_eq!(writes.len(), 2);
    let mut tree = BTreeMap::new();
    tree.insert("logo".to_string(), BTreeMap::from([("old".to_string(), vec![0])]));
    for w in &writes {
        assert_eq!(w.kind, AssetKind::StaticImage);
        run(&mut tree, w);
    }
    assert_eq!(tree["logo"], BTreeMap::from([("logo".to_string(), vec![5, 6])]));
    assert_eq!(tree["bg"], BTreeMap::from([("bg".to_string(), vec![7])]));
}

#[test]
fn render_message_is_accepted_then_skipped_while_busy() {
    let mut fonts = FontCache::new();
    let mut guard = RenderGuard::new();
    match dispatch(&render_message(), &mut fonts, &mut guard) {
        Dispatched::RenderAccepted(frame) => {
            assert_eq!(frame.values.len(), 1);
            assert_eq!(frame.values[0].id, "cpu");
        }
        _ => panic!("expected an accepted frame"),
    }
    assert!(guard.is_busy());
    assert!(matches!(dispatch(&render_message(), &mut fonts, &mut guard), Dispatched::RenderSkipped));
    guard.finish();
    assert!(matches!(
        dispatch(&render_message(), &mut fonts, &mut guard),
        Dispatched::RenderAccepted(_)
    ));
}

#[test]
fn garbage_is_dropped_as_envelope_error() {
    let mut fonts = FontCache::new();
    let mut guard = RenderGuard::new();
    assert!(matches!(
        dispatch(&[9, 9], &mut fonts, &mut guard),
        Dispatched::Dropped(DecodeError::Envelope)
    ));
    assert!(!guard.is_busy());
}

#[test]
fn bad_payload_is_dropped_with_its_kind() {
    let mut fonts = FontCache::new();
    let mut guard = RenderGuard::new();
    let msg = envelope(TransportType::RenderImage, vec![1, 2, 3]);
    assert!(matches!(
        dispatch(&msg, &mut fonts, &mut guard),
        Dispatched::Dropped(DecodeError::Payload(MessageKind::RenderImage))
    ));
    assert!(!guard.is_busy());
    let msg = envelope(TransportType::PrepareText, vec![0xff]);
    dispatch(&text_message(&[("keep", &[1])]), &mut fonts, &mut guard);
    assert!(matches!(
        dispatch(&msg, &mut fonts, &mut guard),
        Dispatched::Dropped(DecodeError::Payload(MessageKind::PrepareText))
    ));
    assert_eq!(font_map(&fonts)["keep"], vec![1]);
}

#[test]
fn accepted_frame_is_the_submitted_one() {
    let frame = RenderFrame {
        config: Default::default(),
        values: vec![SensorValue { id: "gpu".to_string(), ..Default::default() }],
    };
    let mut guard = RenderGuard::new();
    match submit_frame(frame, &mut guard) {
        Dispatched::RenderAccepted(f) => assert_eq!(f.values[0].id, "gpu"),
        _ => panic!("expected an accepted frame"),
    }
}
