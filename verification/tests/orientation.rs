use rot8::backend::Backend;
use rot8::orientation::Orientation;

#[test]
fn classification_order_is_fixed() {
    assert_eq!(Orientation::all(), [
        Orientation::Normal,
        Orientation::Inverted,
        Orientation::RotatedLeft,
        Orientation::RotatedRight,
    ]);
    for (i, orientation) in Orientation::all().iter().enumerate() {
        assert_eq!(orientation.index(), i);
    }
}

#[test]
fn table_of_normal() {
    let o = Orientation::Normal;
    assert_eq!(o.reference_vector(), (0, -1));
    assert_eq!(o.transform_label(), "normal");
    assert_eq!(o.x11_label(), "normal");
    assert_eq!(o.matrix(), [1, 0, 0, 0, 1, 0, 0, 0, 1]);
}

#[test]
fn table_of_inverted() {
    let o = Orientation::Inverted;
    assert_eq!(o.reference_vector(), (0, 1));
    assert_eq!(o.transform_label(), "180");
    assert_eq!(o.x11_label(), "inverted");
    assert_eq!(o.matrix(), [-1, 0, 1, 0, -1, 1, 0, 0, 1]);
}

#[test]
fn table_of_rotated_left() {
    let o = Orientation::RotatedLeft;
    assert_eq!(o.reference_vector(), (-1, 0));
    assert_eq!(o.transform_label(), "90");
    assert_eq!(o.x11_label(), "left");
    assert_eq!(o.matrix(), [0, 1, 0, -1, 0, 1, 0, 0, 1]);
}

#[test]
fn table_of_rotated_right() {
    let o = Orientation::RotatedRight;
    assert_eq!(o.reference_vector(), (1, 0));
    assert_eq!(o.transform_label(), "270");
    assert_eq!(o.x11_label(), "right");
    assert_eq!(o.matrix(), [0, -1, 1, 1, 0, 0, 0, 0, 1]);
}

#[test]
fn labels_are_read_back() {
    for orientation in Orientation::all() {
        assert_eq!(
            Orientation::from_transform_label(orientation.transform_label()),
            Some(orientation)
        );
        assert_eq!(Orientation::from_x11_label(orientation.x11_label()), Some(orientation));
        assert_eq!(
            Orientation::from_label(Backend::Sway, orientation.transform_label()),
            Some(orientation)
        );
        assert_eq!(
            Orientation::from_label(Backend::Xorg, orientation.x11_label()),
            Some(orientation)
        );
    }
}

#[test]
fn unknown_labels_name_no_orientation() {
    assert_eq!(Orientation::from_transform_label("flipped-90"), None);
    assert_eq!(Orientation::from_transform_label("left"), None);
    assert_eq!(Orientation::from_transform_label(""), None);
    assert_eq!(Orientation::from_x11_label("90"), None);
    assert_eq!(Orientation::from_x11_label("left "), None);
    assert_eq!(Orientation::from_label(Backend::Sway, "inverted"), None);
    assert_eq!(Orientation::from_label(Backend::Xorg, "180"), None);
}
