use isosurface_api::config::MeshError;
use isosurface_api::config::plan_resolution;
use isosurface_api::next_power_of_two;

#[test]
fn rounds_one_to_one() {
    assert_eq!(next_power_of_two(1), 1);
}

#[test]
fn rounds_up_to_next_power() {
    assert_eq!(next_power_of_two(3), 4);
    assert_eq!(next_power_of_two(5), 8);
    assert_eq!(next_power_of_two(9), 16);
    assert_eq!(next_power_of_two(1000), 1024);
}

#[test]
fn keeps_exact_powers() {
    assert_eq!(next_power_of_two(2), 2);
    assert_eq!(next_power_of_two(8), 8);
    assert_eq!(next_power_of_two(64), 64);
    assert_eq!(next_power_of_two(0x8000_0000), 0x8000_0000);
}

#[test]
fn least_power_for_a_range_of_inputs() {
    for n in 1u32..=4096 {
        let r = next_power_of_two(n);
        assert!(r.is_power_of_two());
        assert!(r >= n);
        assert!(r < 2 * n);
    }
}

#[test]
fn plans_a_valid_run() {
    assert_eq!(plan_resolution(5, true, true, true), Ok(8));
    assert_eq!(plan_resolution(16, true, true, true), Ok(16));
}

#[test]
fn refuses_zero_cells() {
    assert_eq!(
        plan_resolution(0, true, true, true),
        Err(MeshError::ConfigurationError)
    );
}

#[test]
fn refuses_oversized_cell_count() {
    assert_eq!(
        plan_resolution(0x8000_0001, true, true, true),
        Err(MeshError::ConfigurationError)
    );
}

#[test]
fn refuses_degenerate_box_on_any_axis() {
    assert_eq!(
        plan_resolution(8, false, true, true),
        Err(MeshError::ConfigurationError)
    );
    assert_eq!(
        plan_resolution(8, true, false, true),
        Err(MeshError::ConfigurationError)
    );
    assert_eq!(
        plan_resolution(8, true, true, false),
        Err(MeshError::ConfigurationError)
    );
}

#[test]
fn degenerate_flags_computed_from_a_flat_box() {
    // A bounding box flat on the y axis, as the host would report it.
    let min = [-1.0f32, 2.0, -1.0];
    let max = [1.0f32, 2.0, 1.0];
    let flags = [min[0] < max[0], min[1] < max[1], min[2] < max[2]];
    assert_eq!(
        plan_resolution(8, flags[0], flags[1], flags[2]),
        Err(MeshError::ConfigurationError)
    );
}
