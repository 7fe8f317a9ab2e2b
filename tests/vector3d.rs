use std::fmt::Display;
use vector3d::{Alignment, Vector3d};

/// Writes each component with its own display rule (and the precision, if
/// any), then lets the library assemble and pad the whole.
fn text<T: Display>(
    v: &Vector3d<T>,
    precision: Option<usize>,
    width: Option<usize>,
    align: Option<Alignment>,
) -> String {
    let parts = match precision {
        Some(d) => Vector3d::new(
            format!("{:.*}", d, v.x),
            format!("{:.*}", d, v.y),
            format!("{:.*}", d, v.z),
        ),
        None => Vector3d::new(format!("{}", v.x), format!("{}", v.y), format!("{}", v.z)),
    };
    parts.render(width, align)
}

#[test]
fn sum_f64() {
    let x: f64 = [0.0, 0.0, 0.1].iter().cloned().sum();
    assert_eq!(x, 0.1f64);
    let total: Vector3d<f64> = Vector3d::sum_owned(
        [Vector3d::new(0.0, 0.0, 0.1), Vector3d::new(0.0, 0.2, 0.0)]
            .iter()
            .cloned()
            .collect(),
    );
    assert_eq!(total, Vector3d::new(0.0, 0.2, 0.1));
    let total: Vector3d<f64> =
        Vector3d::sum(&[Vector3d::new(0.0, 0.0, 0.1), Vector3d::new(0.0, 0.2, 0.0)]);
    assert_eq!(total, Vector3d::new(0.0, 0.2, 0.1));
}

#[test]
fn padding_works() {
    let v = Vector3d::new(0, 0, 0);
    assert_eq!(&text(&v, None, None, None), "(0, 0, 0)");
    assert_eq!(&text(&v, None, Some(10), None), "(0, 0, 0) ");
    assert_eq!(&text(&v, None, Some(10), Some(Alignment::Left)), "(0, 0, 0) ");
    assert_eq!(&text(&v, None, Some(10), Some(Alignment::Right)), " (0, 0, 0)");
    assert_eq!(&text(&v, None, Some(11), Some(Alignment::Center)), " (0, 0, 0) ");
    assert_eq!(&text(&v, None, Some(11), Some(Alignment::Right)), "  (0, 0, 0)");

    let v = Vector3d::new(0., 0., 0.);
    assert_eq!(&text(&v, None, None, None), "(0, 0, 0)");
    assert_eq!(&text(&v, Some(2), None, None), "(0.00, 0.00, 0.00)");
    assert_eq!(&text(&v, Some(2), Some(19), None), "(0.00, 0.00, 0.00) ");
    assert_eq!(&text(&v, Some(2), Some(19), Some(Alignment::Left)), "(0.00, 0.00, 0.00) ");
    assert_eq!(&text(&v, Some(2), Some(19), Some(Alignment::Right)), " (0.00, 0.00, 0.00)");
    assert_eq!(&text(&v, Some(2), Some(20), Some(Alignment::Center)), " (0.00, 0.00, 0.00) ");
}
