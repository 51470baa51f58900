use creative_coding_project::menu_enum::{
    DistortionType, GenerativeAlgo, MenuEnum, Scale, SmoothLifePreset, SmoothLifeSize,
    SpectralFilterSize, SpectrogramSize, SpectrogramView,
};

fn round_trip_all<E: MenuEnum + PartialEq + std::fmt::Debug>() {
    let n = E::num_variants();
    for i in 0..n {
        let v = E::from_idx(i).expect("index inside the menu");
        assert_eq!(v.idx(), i);
    }
    assert!(E::from_idx(n).is_none());
    assert!(E::from_idx(n + 7).is_none());
}

#[test]
fn menu_enums_round_trip() {
    round_trip_all::<GenerativeAlgo>();
    round_trip_all::<SmoothLifePreset>();
    round_trip_all::<SpectrogramView>();
    round_trip_all::<DistortionType>();
    round_trip_all::<Scale>();
    round_trip_all::<SmoothLifeSize>();
    round_trip_all::<SpectrogramSize>();
    round_trip_all::<SpectralFilterSize>();
}

#[test]
fn menu_enum_variant_counts() {
    assert_eq!(GenerativeAlgo::num_variants(), 2);
    assert_eq!(SmoothLifePreset::num_variants(), 2);
    assert_eq!(SpectrogramView::num_variants(), 3);
    assert_eq!(DistortionType::num_variants(), 5);
    assert_eq!(Scale::num_variants(), 5);
    assert_eq!(SmoothLifeSize::num_variants(), 6);
    assert_eq!(SpectrogramSize::num_variants(), 4);
    assert_eq!(SpectralFilterSize::num_variants(), 9);
}

#[test]
fn menu_enum_layouts() {
    assert_eq!(GenerativeAlgo::from_idx(1), Some(GenerativeAlgo::SmoothLife));
    assert_eq!(SpectrogramView::PostOnly.idx(), 2);
    assert_eq!(DistortionType::from_idx(4), Some(DistortionType::Downsample));
    assert_eq!(Scale::MinPentatonic.idx(), 3);
    assert_eq!(SmoothLifeSize::from_idx(5), Some(SmoothLifeSize::S512));
    assert_eq!(SpectrogramSize::S4096.idx(), 2);
    assert_eq!(SpectralFilterSize::from_idx(8), Some(SpectralFilterSize::S16384));
    assert_eq!(SpectralFilterSize::from_idx(9), None);
    assert_eq!(SmoothLifePreset::Swirl.idx(), 1);
}

#[test]
fn menu_enum_defaults_are_first_items() {
    assert_eq!(GenerativeAlgo::default().idx(), 0);
    assert_eq!(DistortionType::default(), DistortionType::Off);
    assert_eq!(SpectralFilterSize::default(), SpectralFilterSize::S64);
}
