use flight_sim::fields::{LineKind, Vec3Field};
use flight_sim::spectrum::{plot_sample_count, spectrum_bin_count};

#[test]
fn field_names() {
    assert_eq!(Vec3Field::SensAngularVelocity.name(), "Sens Angular Velocity");
    assert_eq!(Vec3Field::TargetAngularAccel.name(), "Target Angular Accel");
    assert_eq!(Vec3Field::RealRotation.name(), "Real Rotation");
    assert_eq!(Vec3Field::NoisedAngularVelocity.name(), "Noised Angular Velocity");
}

#[test]
fn field_styles() {
    assert_eq!(Vec3Field::SensRotation.style_config(), ([30, 30, 70, 255], LineKind::DottedDense));
    assert_eq!(Vec3Field::SensAngularVelocity.style_config(), ([30, 70, 30, 255], LineKind::DottedDense));
    assert_eq!(Vec3Field::TargetTorque.style_config(), ([70, 70, 30, 255], LineKind::DashedLoose));
    assert_eq!(Vec3Field::RealAngularVelocity.style_config(), ([30, 70, 30, 255], LineKind::Solid));
    assert_eq!(Vec3Field::NoisedAngularVelocity.style_config(), ([30, 45, 30, 255], LineKind::Solid));
}

#[test]
fn field_axis_colors_are_premultiplied() {
    assert_eq!(
        Vec3Field::SensRotation.colors(),
        [[53, 53, 124, 150], [35, 35, 82, 150], [18, 18, 41, 150]]
    );
    assert_eq!(
        Vec3Field::SensAngularVelocity.colors(),
        [[53, 124, 53, 150], [35, 82, 35, 150], [18, 41, 18, 150]]
    );
    assert_eq!(
        Vec3Field::RealAngularAccel.colors(),
        [[124, 53, 53, 150], [82, 35, 35, 150], [41, 18, 18, 150]]
    );
    assert_eq!(
        Vec3Field::NoisedAngularVelocity.colors(),
        [[53, 79, 53, 150], [35, 53, 35, 150], [18, 26, 18, 150]]
    );
}

#[test]
fn sample_count_over_time_uses_every_row() {
    assert_eq!(plot_sample_count(0, false), None);
    assert_eq!(plot_sample_count(1, false), Some(1));
    assert_eq!(plot_sample_count(1234, false), Some(1234));
}

#[test]
fn sample_count_for_spectrum_is_largest_power_of_two() {
    assert_eq!(plot_sample_count(0, true), None);
    assert_eq!(plot_sample_count(1, true), None);
    assert_eq!(plot_sample_count(2, true), Some(2));
    assert_eq!(plot_sample_count(3, true), Some(2));
    assert_eq!(plot_sample_count(1000, true), Some(512));
    assert_eq!(plot_sample_count(1024, true), Some(1024));
    assert_eq!(plot_sample_count(u32::MAX as usize, true), Some(1 << 31));
}

#[test]
fn spectrum_bins() {
    assert_eq!(spectrum_bin_count(512), 257);
    assert_eq!(spectrum_bin_count(2), 2);
}

#[test]
fn every_field_has_its_own_style() {
    let all = [
        Vec3Field::SensAngularVelocity,
        Vec3Field::SensRotation,
        Vec3Field::TargetTorque,
        Vec3Field::TargetAngularAccel,
        Vec3Field::TargetAngularVelocity,
        Vec3Field::TargetRotation,
        Vec3Field::RealTorque,
        Vec3Field::RealAngularAccel,
        Vec3Field::RealAngularVelocity,
        Vec3Field::RealRotation,
        Vec3Field::NoisedAngularVelocity,
    ];
    for (i, f) in all.iter().enumerate() {
        for (j, g) in all.iter().enumerate() {
            if i != j {
                assert_ne!(f.style_config(), g.style_config(), "{f:?} and {g:?}");
            }
        }
    }
}
