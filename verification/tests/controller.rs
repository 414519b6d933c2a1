use view_scale::controller::RenderScale;
use view_scale::controller::ViewInfo;
use view_scale::controller::ViewScaleState;
use view_scale::controller::ZoomKey;
use view_scale::controller::ZoomLevelChanged;

#[test]
fn zoom_in_sequence_from_one() {
    let mut v = ViewInfo::new();
    assert_eq!(v.pixel_scale(), 1);
    for n in 1..=5u32 {
        let r = v.on_key_event(ZoomKey::ZoomIn);
        assert_eq!(r, Some(ZoomLevelChanged { new_level: 1 + n }));
        assert_eq!(v.pixel_scale(), 1 + n);
    }
}

#[test]
fn zoom_out_clamped_at_floor() {
    let mut v = ViewInfo::new();
    let r = v.on_key_event(ZoomKey::ZoomOut);
    assert_eq!(r, None);
    assert_eq!(v.pixel_scale(), 1);
}

#[test]
fn zoom_out_never_below_one() {
    let mut v = ViewInfo::new();
    v.on_key_event(ZoomKey::ZoomIn);
    v.on_key_event(ZoomKey::ZoomIn);
    for _ in 0..10 {
        v.on_key_event(ZoomKey::ZoomOut);
        assert!(v.pixel_scale() >= 1);
    }
    assert_eq!(v.pixel_scale(), 1);
}

#[test]
fn other_key_ignored() {
    let mut v = ViewInfo::new();
    v.on_key_event(ZoomKey::ZoomIn);
    let r = v.on_key_event(ZoomKey::Other);
    assert_eq!(r, None);
    assert_eq!(v.pixel_scale(), 2);
}

#[test]
fn render_scale_of_level() {
    let rs = RenderScale::of_level(2);
    assert_eq!(rs.ui_scale, 2);
    assert_eq!(rs.camera_scale_denom, 2);
    assert_eq!(1.0f32 / rs.camera_scale_denom as f32, 0.5f32);
}

#[test]
fn first_apply_always_pushes() {
    let mut st = ViewScaleState::new();
    let r = st.apply(1);
    assert_eq!(r, Some(RenderScale { ui_scale: 1, camera_scale_denom: 1 }));
}

#[test]
fn apply_idempotent() {
    let mut st = ViewScaleState::new();
    let first = st.apply(4);
    let second = st.apply(4);
    assert_eq!(first, Some(RenderScale { ui_scale: 4, camera_scale_denom: 4 }));
    assert_eq!(second, None);
    assert_eq!(RenderScale::of_level(4), RenderScale::of_level(4));
}

#[test]
fn apply_pushes_again_after_change() {
    let mut st = ViewScaleState::new();
    assert!(st.apply(1).is_some());
    assert_eq!(st.apply(1), None);
    let r = st.apply(2);
    assert_eq!(r, Some(RenderScale { ui_scale: 2, camera_scale_denom: 2 }));
    assert_eq!(st.apply(2), None);
}

#[test]
fn scenario_zoom_in_three_times() {
    let mut v = ViewInfo::new();
    v.on_key_event(ZoomKey::ZoomIn);
    v.on_key_event(ZoomKey::ZoomIn);
    v.on_key_event(ZoomKey::ZoomIn);
    assert_eq!(v.pixel_scale(), 4);
    let mut st = ViewScaleState::new();
    let rs = st.apply(v.pixel_scale()).unwrap();
    assert_eq!(1.0f32 / rs.camera_scale_denom as f32, 0.25f32);
    assert_eq!(rs.ui_scale as f64, 4.0f64);
}

#[test]
fn scenario_zoom_out_at_one() {
    let mut v = ViewInfo::new();
    let r = v.on_key_event(ZoomKey::ZoomOut);
    assert_eq!(v.pixel_scale(), 1);
    assert_eq!(r, None);
}

#[test]
fn scenario_zoom_out_twice_from_five() {
    let mut v = ViewInfo::new();
    for _ in 0..4 {
        v.on_key_event(ZoomKey::ZoomIn);
    }
    assert_eq!(v.pixel_scale(), 5);
    v.on_key_event(ZoomKey::ZoomOut);
    v.on_key_event(ZoomKey::ZoomOut);
    assert_eq!(v.pixel_scale(), 3);
}
