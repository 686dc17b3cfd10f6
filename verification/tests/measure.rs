use cargo_icmd::measure::{
    describe_snapshot, layout_name, overflow_name, CellRect, EdgeCells, LayoutKind, OverflowKind,
    ScrollFacts, SnapshotFacts,
};

fn facts() -> SnapshotFacts {
    SnapshotFacts {
        bounds: CellRect { line: 4, column: 2, width: 40, height: 6 },
        content: CellRect { line: 5, column: 3, width: 38, height: 4 },
        visible: Some(CellRect { line: 4, column: 2, width: 40, height: 3 }),
        layout: LayoutKind::Vertical,
        gap: 1,
        padding: EdgeCells { top: 1, right: 1, bottom: 1, left: 1 },
        overflow_x: OverflowKind::Clip,
        overflow_y: OverflowKind::Visible,
        z_index: 0,
        scroll: None,
    }
}

#[test]
fn the_readout_names_every_committed_field() {
    assert_eq!(
        describe_snapshot(&facts()),
        "bounds 40x6 at (4, 2) · content 38x4 · visible 40x3 · layout vertical · gap 1 · padding 1/1/1/1 · overflow clip/visible · z 0 · this box does not scroll"
    );
}

#[test]
fn the_readout_reports_clipping_scrolling_and_negative_depth() {
    let mut clipped = facts();
    clipped.visible = None;
    clipped.layout = LayoutKind::Absolute;
    clipped.z_index = -3;
    clipped.scroll = Some(ScrollFacts { max_offset_y: 12, content_height: 30 });
    assert_eq!(
        describe_snapshot(&clipped),
        "bounds 40x6 at (4, 2) · content 38x4 · visible clipped · layout absolute · gap 1 · padding 1/1/1/1 · overflow clip/visible · z -3 · scroll max y 12 · content h 30"
    );
    clipped.z_index = i32::MIN;
    assert!(describe_snapshot(&clipped).contains(" · z -2147483648 · "));
    assert_eq!(layout_name(LayoutKind::Horizontal), "horizontal");
    assert_eq!(overflow_name(OverflowKind::Clip), "clip");
}
