use diadro::{Color32, FigureBasics, Shadow, ShadowPlace};

#[test]
fn shadow_place_from() {
    let flags = ShadowPlace::Top | ShadowPlace::Bottom;
    let res = ShadowPlace::from(flags);
    assert_eq!(res.len(), 2);
    assert_eq!(res[0], ShadowPlace::Top);
    assert_eq!(res[1], ShadowPlace::Bottom);
}

#[test]
fn shadow_place_into_u8() {
    let sp = ShadowPlace::Top;
    let res = sp.into_u8();
    assert_eq!(res, 1);
}

#[test]
fn shadow_place_check_flag() {
    let flags = ShadowPlace::Top | ShadowPlace::Bottom;
    assert!(ShadowPlace::check_flag(flags, ShadowPlace::Top));
    assert!(ShadowPlace::check_flag(flags, ShadowPlace::Bottom));
    assert!(!ShadowPlace::check_flag(flags, ShadowPlace::Right));
    assert!(!ShadowPlace::check_flag(flags, ShadowPlace::Left));
}

#[test]
fn test_find_map() {
    let array = [1, 2, 3, 4, 2, 5, 6, 7, 8, 16, 18, 24];
    let found = array
        .iter()
        .find_map(|v| if v % 2 == 0 { Some(v) } else { None });
    assert_eq!(found, Some(&2));

    let found = array
        .iter()
        .rev()
        .find_map(|v| if v % 2 == 0 { Some(v) } else { None });
    assert_eq!(found, Some(&24));
}

#[test]
fn test_arrow_figure_compute_nearest_point() {}

#[test]
fn shadow_place_from_all_and_none() {
    assert!(ShadowPlace::from(0).is_empty());
    assert_eq!(
        ShadowPlace::from(0xff),
        vec![ShadowPlace::Top, ShadowPlace::Bottom, ShadowPlace::Right, ShadowPlace::Left]
    );
    assert_eq!(ShadowPlace::from(12), vec![ShadowPlace::Right, ShadowPlace::Left]);
    assert_eq!(ShadowPlace::Left.into_u8(), 8);
    assert_eq!(ShadowPlace::Right.into_u8(), 4);
    assert_eq!(ShadowPlace::Bottom.into_u8(), 2);
    assert_eq!(ShadowPlace::Left & 0xf8, 8);
    assert_eq!(ShadowPlace::Left & 7, 0);
}

#[test]
fn default_looks() {
    let shadow = Shadow::default();
    assert_eq!(shadow.shadow_place, 6);
    assert_eq!(ShadowPlace::from(shadow.shadow_place), vec![ShadowPlace::Bottom, ShadowPlace::Right]);
    let basics = FigureBasics::default();
    assert_eq!(basics.fill_color, Color32 { r: 100, g: 100, b: 50, a: 50 });
    assert_eq!(basics.stroke.width, 1000);
    assert_eq!(basics.stroke.color, Color32 { r: 255, g: 255, b: 0, a: 255 });
    assert_eq!(basics.shadow, shadow);
}
