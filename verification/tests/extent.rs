use gpu_backend::extent::{
    gob_height, nil_extent4d, nil_offset4d, Extent4D, Format, Offset4D, SampleLayout, Tiling,
};

const RGBA8: Format = Format { block_width: 1, block_height: 1, block_depth: 1, block_bits: 32 };
const BC1: Format = Format { block_width: 4, block_height: 4, block_depth: 1, block_bits: 64 };

#[test]
fn extent_basics() {
    let e = Extent4D::new(3, 5, 7, 2);
    assert_eq!(e, nil_extent4d(3, 5, 7, 2));
    assert_eq!(e.size(), 105);
    assert_eq!(Extent4D::default(), Extent4D::new(0, 0, 0, 0));
    assert_eq!(e.mul(Extent4D::new(2, 1, 3, 4)), Extent4D::new(6, 5, 21, 8));
    assert_eq!(e.div_ceil(Extent4D::new(2, 5, 8, 1)), Extent4D::new(2, 1, 1, 2));
    assert_eq!(e.align(&Extent4D::new(4, 5, 2, 1)), Extent4D::new(4, 5, 8, 2));
    assert_eq!(Extent4D::new(0, 0, 0, 0).align(&Extent4D::new(4, 4, 4, 4)), Extent4D::new(0, 0, 0, 0));
    assert_eq!(Extent4D::new(0, 1, 0, 1).div_ceil(Extent4D::new(9, 9, 9, 9)), Extent4D::new(0, 1, 0, 1));
}

#[test]
fn extent_unit_conversions() {
    let e = Extent4D::new(10, 6, 1, 3);
    assert_eq!(e.px_to_sa(SampleLayout::_4x2), Extent4D::new(40, 12, 1, 3));
    assert_eq!(e.px_to_el(BC1, SampleLayout::_1x1), Extent4D::new(3, 2, 1, 3));
    assert_eq!(e.nil_extent4d_px_to_el(BC1, SampleLayout::_1x1), Extent4D::new(3, 2, 1, 3));
    assert_eq!(e.el_to_B(4), Extent4D::new(40, 6, 1, 3));
    assert_eq!(e.px_to_B(BC1, SampleLayout::_1x1), Extent4D::new(24, 2, 1, 3));
    assert_eq!(e.px_to_B(RGBA8, SampleLayout::_2x2), Extent4D::new(80, 12, 1, 3));
    assert_eq!(Extent4D::new(65, 9, 1, 2).B_to_GOB(true), Extent4D::new(2, 2, 1, 2));
    assert_eq!(Extent4D::new(65, 9, 1, 2).B_to_GOB(false), Extent4D::new(2, 3, 1, 2));
    assert_eq!(gob_height(true), 8);
    assert_eq!(gob_height(false), 4);
}

#[test]
fn extent_in_tiles() {
    let tiling = Tiling { is_tiled: true, gob_height_is_8: true, x_log2: 1, y_log2: 2, z_log2: 0 };
    // a tile is 128 bytes by 32 rows by 1
    assert_eq!(tiling.extent_B(), Extent4D::new(128, 32, 1, 1));
    let e = Extent4D::new(100, 33, 2, 4);
    // 400 bytes by 33 rows
    assert_eq!(e.px_to_tl(&tiling, RGBA8, SampleLayout::_1x1), Extent4D::new(4, 2, 2, 4));
    assert_eq!(e.nil_extent4d_px_to_tl(&tiling, RGBA8, SampleLayout::_1x1), Extent4D::new(4, 2, 2, 4));
    let linear = Tiling { is_tiled: false, gob_height_is_8: true, x_log2: 3, y_log2: 3, z_log2: 3 };
    assert_eq!(linear.extent_B(), Extent4D::new(1, 1, 1, 1));
    assert_eq!(e.px_to_tl(&linear, RGBA8, SampleLayout::_1x1), Extent4D::new(400, 33, 2, 4));
}

#[test]
fn extent_minify() {
    let e = Extent4D::new(100, 7, 1, 6);
    assert_eq!(e.minify(0), e);
    assert_eq!(e.minify(1), Extent4D::new(50, 3, 1, 6));
    assert_eq!(e.minify(3), Extent4D::new(12, 1, 1, 6));
    assert_eq!(e.minify(31), Extent4D::new(1, 1, 1, 6));
}

#[test]
fn offset_conversions() {
    let o = Offset4D { x: 10, y: 7, z: 1, a: 3 };
    assert_eq!(nil_offset4d(10, 7, 1, 3), o);
    assert_eq!(o.mul(Extent4D::new(2, 3, 1, 1)), Offset4D { x: 20, y: 21, z: 1, a: 3 });
    assert_eq!(o.div_floor(Extent4D::new(4, 4, 1, 2)), Offset4D { x: 2, y: 1, z: 1, a: 1 });
    assert_eq!(o.px_to_el(BC1, SampleLayout::_1x1), Offset4D { x: 2, y: 1, z: 1, a: 3 });
    assert_eq!(o.nil_offset4d_px_to_el(BC1, SampleLayout::_1x1), Offset4D { x: 2, y: 1, z: 1, a: 3 });
    assert_eq!(o.el_to_B(8), Offset4D { x: 80, y: 7, z: 1, a: 3 });
    assert_eq!(o.nil_offset4d_el_to_B(8), Offset4D { x: 80, y: 7, z: 1, a: 3 });
    assert_eq!(o.px_to_B(BC1, SampleLayout::_1x1), Offset4D { x: 16, y: 1, z: 1, a: 3 });
    assert_eq!(o.nil_offset4d_px_to_B(RGBA8, SampleLayout::_2x1), Offset4D { x: 80, y: 7, z: 1, a: 3 });
    let tiling = Tiling { is_tiled: true, gob_height_is_8: false, x_log2: 0, y_log2: 0, z_log2: 0 };
    // a tile is 64 bytes by 4 rows
    assert_eq!(
        Offset4D { x: 100, y: 9, z: 0, a: 2 }.px_to_tl(&tiling, RGBA8, SampleLayout::_1x1),
        Offset4D { x: 6, y: 2, z: 0, a: 2 }
    );
    assert_eq!(
        Offset4D { x: 100, y: 9, z: 0, a: 2 }.nil_offset4d_px_to_tl(&tiling, RGBA8, SampleLayout::_1x1),
        Offset4D { x: 6, y: 2, z: 0, a: 2 }
    );
}
