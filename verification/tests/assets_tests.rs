use night_fishing::assets::{AssetKind, AssetManifest, ResourceHandles};

fn strings(v: &[&str]) -> Vec<String> {
    v.iter().map(|s| s.to_string()).collect()
}

#[test]
fn handles_move_to_finished_when_loaded() {
    let mut h: ResourceHandles<u32> = ResourceHandles::new();
    assert!(h.is_all_done());
    for id in [10, 11, 12, 13] {
        h.track(id);
    }
    assert_eq!(h.total_count(), 4);
    assert!(!h.is_all_done());
    h.promote_loaded(&vec![true, false, true, false]);
    assert_eq!(h.finished, vec![10, 12]);
    assert_eq!(h.waiting.iter().copied().collect::<Vec<_>>(), vec![11, 13]);
    assert_eq!(h.total_count(), 4);
    assert_eq!(h.finished_count(), 2);
    h.promote_loaded(&vec![true, true]);
    assert!(h.is_all_done());
    assert_eq!(h.finished, vec![10, 12, 11, 13]);
}

#[test]
fn manifest_plan_order() {
    let m = AssetManifest {
        images: strings(&["a.png", "b.png"]),
        audio: strings(&["x.ogg"]),
        fonts: strings(&["f.ttf"]),
        shaders: strings(&["s.wgsl"]),
        data: strings(&["balance/items.json"]),
    };
    let plan = m.load_plan(false);
    let kinds: Vec<AssetKind> = plan.iter().map(|r| r.kind).collect();
    assert_eq!(kinds, vec![AssetKind::Image, AssetKind::Image, AssetKind::Font, AssetKind::Shader, AssetKind::Data]);
    assert_eq!(plan[2].path, "f.ttf");
    let with_audio = m.load_plan(true);
    assert_eq!(with_audio.len(), 6);
    assert_eq!(with_audio[3].kind, AssetKind::Audio);
    assert_eq!(with_audio[3].path, "x.ogg");
}
