use image::{ColorType, ExtendedColorType};
use pngquant_bits::layout::TargetColors;
use pngquant_bits::placement::{plan_output, OutputPlan, UsageError, MISSING_OUTPUT_HINT};

#[test]
fn supported_color_types_resolve() {
    assert_eq!(TargetColors::try_from(ColorType::L8), Ok(TargetColors::L8));
    assert_eq!(TargetColors::try_from(ColorType::La8), Ok(TargetColors::La8));
    assert_eq!(TargetColors::try_from(ColorType::Rgb8), Ok(TargetColors::Rgb8));
    assert_eq!(TargetColors::try_from(ColorType::Rgba8), Ok(TargetColors::Rgba8));
}

#[test]
fn other_color_types_are_handed_back() {
    for c in [ColorType::L16, ColorType::La16, ColorType::Rgb16, ColorType::Rgba16, ColorType::Rgb32F, ColorType::Rgba32F] {
        assert_eq!(TargetColors::try_from(c), Err(c));
    }
}

#[test]
fn layouts_map_to_encoder_color_types() {
    assert_eq!(ExtendedColorType::from(TargetColors::L8), ExtendedColorType::L8);
    assert_eq!(ExtendedColorType::from(TargetColors::La8), ExtendedColorType::La8);
    assert_eq!(ExtendedColorType::from(TargetColors::Rgb8), ExtendedColorType::Rgb8);
    assert_eq!(ExtendedColorType::from(TargetColors::Rgba8), ExtendedColorType::Rgba8);
    assert_eq!(TargetColors::Rgb8.bytes_per_pixel(), 3);
    assert_eq!(TargetColors::La8.bytes_per_pixel(), 2);
}

#[test]
fn no_output_without_force_is_a_usage_error() {
    let r = plan_output(false, false);
    assert_eq!(r, Err(UsageError::MissingOutput));
    assert_eq!(UsageError::MissingOutput.message(), MISSING_OUTPUT_HINT);
    assert!(MISSING_OUTPUT_HINT.contains("'--force'"));
}

#[test]
fn no_output_with_force_is_in_place() {
    let plan = plan_output(false, true).unwrap();
    assert_eq!(plan, OutputPlan::Inplace);
    assert!(plan.writes_input());
    assert!(!plan.requires_new_file());
}

#[test]
fn existing_output_needs_force() {
    let plan = plan_output(true, false).unwrap();
    assert_eq!(plan, OutputPlan::NewFile { overwrite: false });
    assert!(plan.requires_new_file());
    assert!(!plan.writes_input());
    let plan = plan_output(true, true).unwrap();
    assert_eq!(plan, OutputPlan::NewFile { overwrite: true });
    assert!(!plan.requires_new_file());
}

#[test]
fn truncation_follows_the_plan() {
    assert!(OutputPlan::Inplace.truncates_after_write());
    assert!(OutputPlan::NewFile { overwrite: true }.truncates_after_write());
    assert!(!OutputPlan::NewFile { overwrite: false }.truncates_after_write());
}
