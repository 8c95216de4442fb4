use raytracer::material::{
    dielectric_outcome, lambertian_outcome, metal_outcome, MaterialMock, Scatter,
};

#[test]
fn mock_material_absorbs() {
    assert_eq!(MaterialMock.scatter(), Scatter::Absorbed);
    assert!(!MaterialMock.scatter().goes_on());
}

#[test]
fn lambertian_always_scatters() {
    assert_eq!(lambertian_outcome(), Scatter::Diffused);
    assert!(lambertian_outcome().goes_on());
}

#[test]
fn metal_absorbs_exactly_when_reflection_enters_surface() {
    assert_eq!(metal_outcome(true), Scatter::Reflected);
    assert_eq!(metal_outcome(false), Scatter::Absorbed);
}

#[test]
fn total_internal_reflection_reflects_without_a_draw() {
    let r = dielectric_outcome(true, || -> bool { panic!("no draw is needed") });
    assert_eq!(r, Scatter::Reflected);
}

#[test]
fn draw_decides_between_reflection_and_refraction() {
    assert_eq!(dielectric_outcome(false, || true), Scatter::Reflected);
    assert_eq!(dielectric_outcome(false, || false), Scatter::Refracted);
}

#[test]
fn glass_never_absorbs() {
    for tir in [false, true] {
        for draw in [false, true] {
            assert!(dielectric_outcome(tir, || draw).goes_on());
        }
    }
}
