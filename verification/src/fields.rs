//! The vector-valued telemetry fields a flight log can be plotted by, with
//! their display names and plot styles.
use vstd::prelude::*;

verus! {

/// A three-axis quantity recorded in every simulation log row.
#[derive(Clone, Copy, PartialEq, Eq, Hash, Debug, Structural)]
pub enum Vec3Field {
    SensAngularVelocity,
    SensRotation,
    TargetTorque,
    TargetAngularAccel,
    TargetAngularVelocity,
    TargetRotation,
    RealTorque,
    RealAngularAccel,
    RealAngularVelocity,
    RealRotation,
    NoisedAngularVelocity,
}

/// How a field's curve is stroked.
#[derive(Clone, Copy, PartialEq, Eq, Debug, Structural)]
pub enum LineKind {
    /// Densely dotted: sensor readings.
    DottedDense,
    /// Loosely dashed: controller targets.
    DashedLoose,
    /// Solid: simulated ground truth.
    Solid,
}

/// Display name of a field.
pub open spec fn field_name(f: Vec3Field) -> Seq<char> {
    match f {
        Vec3Field::SensAngularVelocity => "Sens Angular Velocity"@,
        Vec3Field::SensRotation => "Sens Rotation"@,
        Vec3Field::TargetTorque => "Target Torque"@,
        Vec3Field::TargetAngularAccel => "Target Angular Accel"@,
        Vec3Field::TargetAngularVelocity => "Target Angular Velocity"@,
        Vec3Field::TargetRotation => "Target Rotation"@,
        Vec3Field::RealTorque => "Real Torque"@,
        Vec3Field::RealAngularAccel => "Real Angular Accel"@,
        Vec3Field::RealAngularVelocity => "Real Angular Velocity"@,
        Vec3Field::RealRotation => "Real Rotation"@,
        Vec3Field::NoisedAngularVelocity => "Noised Angular Velocity"@,
    }
}

/// Opaque base colour of a field, as red, green and blue.  Fields of one
/// quantity share a hue: blue for rotation, yellow for torque, red for
/// angular acceleration, green for angular velocity.
pub open spec fn base_rgb(f: Vec3Field) -> (u8, u8, u8) {
    match f {
        Vec3Field::SensAngularVelocity => (30u8, 70u8, 30u8),
        Vec3Field::SensRotation => (30u8, 30u8, 70u8),
        Vec3Field::TargetTorque => (70u8, 70u8, 30u8),
        Vec3Field::TargetAngularAccel => (70u8, 30u8, 30u8),
        Vec3Field::TargetAngularVelocity => (30u8, 70u8, 30u8),
        Vec3Field::TargetRotation => (30u8, 30u8, 70u8),
        Vec3Field::RealTorque => (70u8, 70u8, 30u8),
        Vec3Field::RealAngularAccel => (70u8, 30u8, 30u8),
        Vec3Field::RealAngularVelocity => (30u8, 70u8, 30u8),
        Vec3Field::RealRotation => (30u8, 30u8, 70u8),
        Vec3Field::NoisedAngularVelocity => (30u8, 45u8, 30u8),
    }
}

/// Stroke of a field: dotted for sensor readings, dashed for targets, solid
/// for the simulated truth.
pub open spec fn line_kind(f: Vec3Field) -> LineKind {
    match f {
        Vec3Field::SensAngularVelocity | Vec3Field::SensRotation => LineKind::DottedDense,
        Vec3Field::TargetTorque | Vec3Field::TargetAngularAccel | Vec3Field::TargetAngularVelocity
        | Vec3Field::TargetRotation => LineKind::DashedLoose,
        _ => LineKind::Solid,
    }
}

/// Every field has a style of its own, so layered plots stay distinct: two
/// different fields differ in base colour or stroke.
pub proof fn lemma_styles_tell_fields_apart(f: Vec3Field, g: Vec3Field)
    requires
        f != g,
    ensures
        base_rgb(f) != base_rgb(g) || line_kind(f) != line_kind(g),
{
}

/// `s` ends with `suffix`.
pub open spec fn ends_with(s: Seq<char>, suffix: Seq<char>) -> bool {
    suffix.len() <= s.len() && s.subrange(s.len() - suffix.len(), s.len() as int) == suffix
}

/// `s` starts with `prefix`.
pub open spec fn starts_with(s: Seq<char>, prefix: Seq<char>) -> bool {
    prefix.len() <= s.len() && s.subrange(0, prefix.len() as int) == prefix
}

/// A field's hue is set by the quantity its name ends with: torque is
/// yellow, angular acceleration red, rotation blue, and angular velocity
/// green; every name ends with one of these quantities.
pub proof fn lemma_name_sets_hue(f: Vec3Field)
    ensures
        ends_with(field_name(f), "Torque"@) ==> base_rgb(f) == (70u8, 70u8, 30u8),
        ends_with(field_name(f), "Angular Accel"@) ==> base_rgb(f) == (70u8, 30u8, 30u8),
        ends_with(field_name(f), "Rotation"@) ==> base_rgb(f) == (30u8, 30u8, 70u8),
        ends_with(field_name(f), "Angular Velocity"@) ==> base_rgb(f).0 == 30 && base_rgb(f).2 == 30
            && base_rgb(f).1 > 30,
        ends_with(field_name(f), "Torque"@) || ends_with(field_name(f), "Angular Accel"@)
            || ends_with(field_name(f), "Rotation"@) || ends_with(field_name(f), "Angular Velocity"@),
{
    reveal_strlit("Torque");
    reveal_strlit("Angular Accel");
    reveal_strlit("Rotation");
    reveal_strlit("Angular Velocity");
    let n = field_name(f);
    match f {
            Vec3Field::SensAngularVelocity => {
                reveal_strlit("Sens Angular Velocity");
                assert(n.subrange(15, 21)[0] != "Torque"@[0]);
                assert(n.subrange(8, 21)[0] != "Angular Accel"@[0]);
                assert(n.subrange(13, 21)[0] != "Rotation"@[0]);
                assert(n.subrange(5, 21) =~= "Angular Velocity"@);
            },
            Vec3Field::SensRotation => {
                reveal_strlit("Sens Rotation");
                assert(n.subrange(7, 13)[0] != "Torque"@[0]);
                assert(n.subrange(0, 13)[0] != "Angular Accel"@[0]);
                assert(n.subrange(5, 13) =~= "Rotation"@);
            },
            Vec3Field::TargetTorque => {
                reveal_strlit("Target Torque");
                assert(n.subrange(7, 13) =~= "Torque"@);
                assert(n.subrange(0, 13)[0] != "Angular Accel"@[0]);
                assert(n.subrange(5, 13)[0] != "Rotation"@[0]);
            },
            Vec3Field::TargetAngularAccel => {
                reveal_strlit("Target Angular Accel");
                assert(n.subrange(14, 20)[0] != "Torque"@[0]);
                assert(n.subrange(7, 20) =~= "Angular Accel"@);
                assert(n.subrange(12, 20)[0] != "Rotation"@[0]);
                assert(n.subrange(4, 20)[0] != "Angular Velocity"@[0]);
            },
            Vec3Field::TargetAngularVelocity => {
                reveal_strlit("Target Angular Velocity");
                assert(n.subrange(17, 23)[0] != "Torque"@[0]);
                assert(n.subrange(10, 23)[0] != "Angular Accel"@[0]);
                assert(n.subrange(15, 23)[0] != "Rotation"@[0]);
                assert(n.subrange(7, 23) =~= "Angular Velocity"@);
            },
            Vec3Field::TargetRotation => {
                reveal_strlit("Target Rotation");
                assert(n.subrange(9, 15)[0] != "Torque"@[0]);
                assert(n.subrange(2, 15)[0] != "Angular Accel"@[0]);
                assert(n.subrange(7, 15) =~= "Rotation"@);
            },
            Vec3Field::RealTorque => {
                reveal_strlit("Real Torque");
                assert(n.subrange(5, 11) =~= "Torque"@);
                assert(n.subrange(3, 11)[0] != "Rotation"@[0]);
            },
            Vec3Field::RealAngularAccel => {
                reveal_strlit("Real Angular Accel");
                assert(n.subrange(12, 18)[0] != "Torque"@[0]);
                assert(n.subrange(5, 18) =~= "Angular Accel"@);
                assert(n.subrange(10, 18)[0] != "Rotation"@[0]);
                assert(n.subrange(2, 18)[0] != "Angular Velocity"@[0]);
            },
            Vec3Field::RealAngularVelocity => {
                reveal_strlit("Real Angular Velocity");
                assert(n.subrange(15, 21)[0] != "Torque"@[0]);
                assert(n.subrange(8, 21)[0] != "Angular Accel"@[0]);
                assert(n.subrange(13, 21)[0] != "Rotation"@[0]);
                assert(n.subrange(5, 21) =~= "Angular Velocity"@);
            },
            Vec3Field::RealRotation => {
                reveal_strlit("Real Rotation");
                assert(n.subrange(7, 13)[0] != "Torque"@[0]);
                assert(n.subrange(0, 13)[0] != "Angular Accel"@[0]);
                assert(n.subrange(5, 13) =~= "Rotation"@);
            },
            Vec3Field::NoisedAngularVelocity => {
                reveal_strlit("Noised Angular Velocity");
                assert(n.subrange(17, 23)[0] != "Torque"@[0]);
                assert(n.subrange(10, 23)[0] != "Angular Accel"@[0]);
                assert(n.subrange(15, 23)[0] != "Rotation"@[0]);
                assert(n.subrange(7, 23) =~= "Angular Velocity"@);
            },
    }
}

/// A field's stroke is set by the source its name starts with: sensor
/// readings ("Sens ") are dotted, controller targets ("Target ") dashed,
/// simulated truth ("Real ", "Noised ") solid; every name starts with one of
/// these sources.
pub proof fn lemma_name_sets_stroke(f: Vec3Field)
    ensures
        starts_with(field_name(f), "Sens "@) ==> line_kind(f) == LineKind::DottedDense,
        starts_with(field_name(f), "Target "@) ==> line_kind(f) == LineKind::DashedLoose,
        starts_with(field_name(f), "Real "@) ==> line_kind(f) == LineKind::Solid,
        starts_with(field_name(f), "Noised "@) ==> line_kind(f) == LineKind::Solid,
        starts_with(field_name(f), "Sens "@) || starts_with(field_name(f), "Target "@)
            || starts_with(field_name(f), "Real "@) || starts_with(field_name(f), "Noised "@),
{
    reveal_strlit("Sens ");
    reveal_strlit("Target ");
    reveal_strlit("Real ");
    reveal_strlit("Noised ");
    let n = field_name(f);
    match f {
            Vec3Field::SensAngularVelocity => {
                reveal_strlit("Sens Angular Velocity");
                assert(n.subrange(0, 5) =~= "Sens "@);
                assert(n.subrange(0, 7)[0] != "Target "@[0]);
                assert(n.subrange(0, 5)[0] != "Real "@[0]);
                assert(n.subrange(0, 7)[0] != "Noised "@[0]);
            },
            Vec3Field::SensRotation => {
                reveal_strlit("Sens Rotation");
                assert(n.subrange(0, 5) =~= "Sens "@);
                assert(n.subrange(0, 7)[0] != "Target "@[0]);
                assert(n.subrange(0, 5)[0] != "Real "@[0]);
                assert(n.subrange(0, 7)[0] != "Noised "@[0]);
            },
            Vec3Field::TargetTorque => {
                reveal_strlit("Target Torque");
                assert(n.subrange(0, 5)[0] != "Sens "@[0]);
                assert(n.subrange(0, 7) =~= "Target "@);
                assert(n.subrange(0, 5)[0] != "Real "@[0]);
                assert(n.subrange(0, 7)[0] != "Noised "@[0]);
            },
            Vec3Field::TargetAngularAccel => {
                reveal_strlit("Target Angular Accel");
                assert(n.subrange(0, 5)[0] != "Sens "@[0]);
                assert(n.subrange(0, 7) =~= "Target "@);
                assert(n.subrange(0, 5)[0] != "Real "@[0]);
                assert(n.subrange(0, 7)[0] != "Noised "@[0]);
            },
            Vec3Field::TargetAngularVelocity => {
                reveal_strlit("Target Angular Velocity");
                assert(n.subrange(0, 5)[0] != "Sens "@[0]);
                assert(n.subrange(0, 7) =~= "Target "@);
                assert(n.subrange(0, 5)[0] != "Real "@[0]);
                assert(n.subrange(0, 7)[0] != "Noised "@[0]);
            },
            Vec3Field::TargetRotation => {
                reveal_strlit("Target Rotation");
                assert(n.subrange(0, 5)[0] != "Sens "@[0]);
                assert(n.subrange(0, 7) =~= "Target "@);
                assert(n.subrange(0, 5)[0] != "Real "@[0]);
                assert(n.subrange(0, 7)[0] != "Noised "@[0]);
            },
            Vec3Field::RealTorque => {
                reveal_strlit("Real Torque");
                assert(n.subrange(0, 5)[0] != "Sens "@[0]);
                assert(n.subrange(0, 7)[0] != "Target "@[0]);
                assert(n.subrange(0, 5) =~= "Real "@);
                assert(n.subrange(0, 7)[0] != "Noised "@[0]);
            },
            Vec3Field::RealAngularAccel => {
                reveal_strlit("Real Angular Accel");
                assert(n.subrange(0, 5)[0] != "Sens "@[0]);
                assert(n.subrange(0, 7)[0] != "Target "@[0]);
                assert(n.subrange(0, 5) =~= "Real "@);
                assert(n.subrange(0, 7)[0] != "Noised "@[0]);
            },
            Vec3Field::RealAngularVelocity => {
                reveal_strlit("Real Angular Velocity");
                assert(n.subrange(0, 5)[0] != "Sens "@[0]);
                assert(n.subrange(0, 7)[0] != "Target "@[0]);
                assert(n.subrange(0, 5) =~= "Real "@);
                assert(n.subrange(0, 7)[0] != "Noised "@[0]);
            },
            Vec3Field::RealRotation => {
                reveal_strlit("Real Rotation");
                assert(n.subrange(0, 5)[0] != "Sens "@[0]);
                assert(n.subrange(0, 7)[0] != "Target "@[0]);
                assert(n.subrange(0, 5) =~= "Real "@);
                assert(n.subrange(0, 7)[0] != "Noised "@[0]);
            },
            Vec3Field::NoisedAngularVelocity => {
                reveal_strlit("Noised Angular Velocity");
                assert(n.subrange(0, 5)[0] != "Sens "@[0]);
                assert(n.subrange(0, 7)[0] != "Target "@[0]);
                assert(n.subrange(0, 5)[0] != "Real "@[0]);
                assert(n.subrange(0, 7) =~= "Noised "@);
            },
    }
}

/// Different fields have different names, so no two curves share a label.
pub proof fn lemma_names_distinct(f: Vec3Field, g: Vec3Field)
    requires
        f != g,
    ensures
        field_name(f) != field_name(g),
{
    reveal_strlit("Sens Angular Velocity");
    reveal_strlit("Sens Rotation");
    reveal_strlit("Target Torque");
    reveal_strlit("Target Angular Accel");
    reveal_strlit("Target Angular Velocity");
    reveal_strlit("Target Rotation");
    reveal_strlit("Real Torque");
    reveal_strlit("Real Angular Accel");
    reveal_strlit("Real Angular Velocity");
    reveal_strlit("Real Rotation");
    reveal_strlit("Noised Angular Velocity");
    assert("Sens Angular Velocity"@.len() == 21);
    assert("Sens Rotation"@.len() == 13);
    assert("Target Torque"@.len() == 13);
    assert("Target Angular Accel"@.len() == 20);
    assert("Target Angular Velocity"@.len() == 23);
    assert("Target Rotation"@.len() == 15);
    assert("Real Torque"@.len() == 11);
    assert("Real Angular Accel"@.len() == 18);
    assert("Real Angular Velocity"@.len() == 21);
    assert("Real Rotation"@.len() == 13);
    assert("Noised Angular Velocity"@.len() == 23);
    assert("Sens Angular Velocity"@[0] != "Real Angular Velocity"@[0]);
    assert("Sens Rotation"@[0] != "Target Torque"@[0]);
    assert("Sens Rotation"@[0] != "Real Rotation"@[0]);
    assert("Target Torque"@[0] != "Real Rotation"@[0]);
    assert("Target Angular Velocity"@[0] != "Noised Angular Velocity"@[0]);
}

/// `v * k`, saturating at 255.
pub open spec fn saturating_times(v: u8, k: int) -> u8 {
    if v * k > 255 {
        255u8
    } else {
        (v * k) as u8
    }
}

/// `v * f / 255`, rounded, in fixed point.
pub open spec fn mul_frac_round(v: u8, f: u8) -> u8 {
    let p = v * f + 128;
    ((p + p / 256) / 256) as u8
}

/// Premultiplied RGBA of the colour with components `r, g, b` and opacity
/// `a`: fully transparent black when `a` is 0, the colour itself when it is
/// opaque, and otherwise each component scaled by `a / 255`.
pub open spec fn premultiplied(r: u8, g: u8, b: u8, a: u8) -> Seq<u8> {
    if a == 0 {
        seq![0u8, 0u8, 0u8, 0u8]
    } else if a == 255 {
        seq![r, g, b, 255u8]
    } else {
        seq![mul_frac_round(r, a), mul_frac_round(g, a), mul_frac_round(b, a), a]
    }
}

/// Opacity of the per-axis curves.
pub const AXIS_ALPHA: u8 = 150u8;

/// Premultiplied colour of axis `axis` (0 = x, 1 = y, 2 = z) of field `f`:
/// the base colour brightened three times for x, twice for y, unchanged for
/// z, each component saturating, at opacity 150.
pub open spec fn axis_color(f: Vec3Field, axis: int) -> Seq<u8> {
    let (r, g, b) = base_rgb(f);
    let k = 3 - axis;
    premultiplied(saturating_times(r, k), saturating_times(g, k), saturating_times(b, k), 150u8)
}

/// Calls `egui::Color32::from_rgba_unmultiplied(r, g, b, a)` and reads the
/// colour back as premultiplied `[r, g, b, a]` (`Color32::to_array`).  The
/// contract states what ecolor's source computes: transparent for `a == 0`,
/// `[r, g, b, 255]` for `a == 255`, otherwise each colour component
/// `v` becomes `((p + (p >> 8)) >> 8)` with `p = v * a + 128`.
#[verifier::external_body]
fn color32_from_rgba_unmultiplied(r: u8, g: u8, b: u8, a: u8) -> (c: [u8; 4])
    ensures
        c@ == premultiplied(r, g, b, a),
{
    eframe::egui::Color32::from_rgba_unmultiplied(r, g, b, a).to_array()
}

/// `v * k` saturating at 255.
fn saturating_mul(v: u8, k: u8) -> (r: u8)
    ensures
        r == saturating_times(v, k as int),
{
    match v.checked_mul(k) {
        Some(p) => p,
        None => 255u8,
    }
}

impl Vec3Field {
    /// Display name of the field.
    pub fn name(&self) -> (r: &'static str)
        ensures
            r@ == field_name(*self),
    {
        match self {
            Vec3Field::SensAngularVelocity => "Sens Angular Velocity",
            Vec3Field::SensRotation => "Sens Rotation",
            Vec3Field::TargetTorque => "Target Torque",
            Vec3Field::TargetAngularAccel => "Target Angular Accel",
            Vec3Field::TargetAngularVelocity => "Target Angular Velocity",
            Vec3Field::TargetRotation => "Target Rotation",
            Vec3Field::RealTorque => "Real Torque",
            Vec3Field::RealAngularAccel => "Real Angular Accel",
            Vec3Field::RealAngularVelocity => "Real Angular Velocity",
            Vec3Field::RealRotation => "Real Rotation",
            Vec3Field::NoisedAngularVelocity => "Noised Angular Velocity",
        }
    }

    /// Base colour (opaque, as premultiplied `[r, g, b, 255]`) and stroke of
    /// the field, so that fields stay apart when layered in one plot.
    pub fn style_config(&self) -> (r: ([u8; 4], LineKind))
        ensures
            r.0@ == seq![base_rgb(*self).0, base_rgb(*self).1, base_rgb(*self).2, 255u8],
            r.1 == line_kind(*self),
    {
        match self {
            Vec3Field::SensAngularVelocity => ([30u8, 70u8, 30u8, 255u8], LineKind::DottedDense),
            Vec3Field::SensRotation => ([30u8, 30u8, 70u8, 255u8], LineKind::DottedDense),
            Vec3Field::TargetTorque => ([70u8, 70u8, 30u8, 255u8], LineKind::DashedLoose),
            Vec3Field::TargetAngularAccel => ([70u8, 30u8, 30u8, 255u8], LineKind::DashedLoose),
            Vec3Field::TargetAngularVelocity => ([30u8, 70u8, 30u8, 255u8], LineKind::DashedLoose),
            Vec3Field::TargetRotation => ([30u8, 30u8, 70u8, 255u8], LineKind::DashedLoose),
            Vec3Field::RealTorque => ([70u8, 70u8, 30u8, 255u8], LineKind::Solid),
            Vec3Field::RealAngularAccel => ([70u8, 30u8, 30u8, 255u8], LineKind::Solid),
            Vec3Field::RealAngularVelocity => ([30u8, 70u8, 30u8, 255u8], LineKind::Solid),
            Vec3Field::RealRotation => ([30u8, 30u8, 70u8, 255u8], LineKind::Solid),
            Vec3Field::NoisedAngularVelocity => ([30u8, 45u8, 30u8, 255u8], LineKind::Solid),
        }
    }

    /// Premultiplied colours of the x, y and z curves of the field.
    pub fn colors(&self) -> (c: [[u8; 4]; 3])
        ensures
            forall|axis: int| 0 <= axis < 3 ==> (#[trigger] c@[axis])@ == axis_color(*self, axis),
    {
        let (base, _) = self.style_config();
        let r = base[0];
        let g = base[1];
        let b = base[2];
        let x = color32_from_rgba_unmultiplied(
            saturating_mul(r, 3),
            saturating_mul(g, 3),
            saturating_mul(b, 3),
            AXIS_ALPHA,
        );
        let y = color32_from_rgba_unmultiplied(
            saturating_mul(r, 2),
            saturating_mul(g, 2),
            saturating_mul(b, 2),
            AXIS_ALPHA,
        );
        let z = color32_from_rgba_unmultiplied(r, g, b, AXIS_ALPHA);
        assert(saturating_times(r, 1) == r && saturating_times(g, 1) == g && saturating_times(b, 1)
            == b);
        let c = [x, y, z];
        assert(c@[0] == x && c@[1] == y && c@[2] == z);
        c
    }
}

} // verus!
