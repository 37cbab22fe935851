use sim_circuit::layer_data::{ExtractSurfaceErrorKind, LayerType, Patch};

#[test]
fn from_code_reads_every_known_layer() {
    assert_eq!(LayerType::from_code(b'L'), Ok(LayerType::Land));
    assert_eq!(LayerType::from_code(b'7'), Ok(LayerType::Wind));
    assert_eq!(LayerType::from_code(b'8'), Ok(LayerType::Cloud));
    assert_eq!(LayerType::from_code(b'W'), Ok(LayerType::Water));
    assert_eq!(LayerType::from_code(b'M'), Ok(LayerType::VarLand));
    assert_eq!(LayerType::from_code(b'X'), Ok(LayerType::VarWind));
    assert_eq!(LayerType::from_code(b'9'), Ok(LayerType::VarCloud));
    assert_eq!(LayerType::from_code(b':'), Ok(LayerType::VarWater));
}

#[test]
fn from_code_rejects_unknown_code() {
    assert_eq!(
        LayerType::from_code(b'l'),
        Err(ExtractSurfaceErrorKind::UnknownLayerType(b'l'))
    );
    assert_eq!(
        LayerType::from_code(0),
        Err(ExtractSurfaceErrorKind::UnknownLayerType(0))
    );
}

#[test]
fn land_patches_are_not_large() {
    assert!(!LayerType::Land.is_large_patch());
}

#[test]
fn patch_holds_a_square_of_heights() {
    let patch = Patch::new(2, (3, 4), vec![1, 2, 3, 4]).unwrap();
    assert_eq!(patch.side_length(), 2);
    assert_eq!(patch.patch_position(), (3, 4));
    assert_eq!(patch.data(), &vec![1, 2, 3, 4]);
    assert!(Patch::new(2, (0, 0), vec![1, 2, 3]).is_none());
    assert!(Patch::new(0, (0, 0), vec![]).is_some());
}
