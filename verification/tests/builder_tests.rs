//! Tests for the control builders: the construction invariant and the
//! per-control configuration methods.

use form_tool::controls::checkbox::CheckboxData;
use form_tool::controls::heading::{HeadingData, HeadingLevel};
use form_tool::controls::hidden::HiddenData;
use form_tool::controls::select::SelectData;
use form_tool::controls::slider::SliderData;
use form_tool::controls::spacer::SpacerData;
use form_tool::controls::stepper::StepperData;
use form_tool::controls::submit::SubmitData;
use form_tool::controls::text_area::TextAreaData;
use form_tool::controls::text_input::TextInputData;
use form_tool::controls::radio_buttons::RadioButtonsData;
use form_tool::controls::{
    ControlBuildError, ControlBuilder, DisplaySource, UpdateEvent, VanityControlBuilder,
};

/// Styling attributes are opaque to the library; a plain string stands in
/// for a style's attribute type.
type Attr = &'static str;

#[test]
fn build_requires_getter_first() {
    let builder: ControlBuilder<TextInputData, Attr> = ControlBuilder::new(TextInputData::default());
    assert_eq!(builder.build().err(), Some(ControlBuildError::MissingGetter));
}

#[test]
fn build_requires_setter_second() {
    let builder: ControlBuilder<TextInputData, Attr> =
        ControlBuilder::new(TextInputData::default()).getter();
    assert_eq!(builder.build().err(), Some(ControlBuildError::MissingSetter));
}

#[test]
fn build_requires_parse_third() {
    let builder: ControlBuilder<TextInputData, Attr> =
        ControlBuilder::new(TextInputData::default()).getter().setter();
    assert_eq!(builder.build().err(), Some(ControlBuildError::MissingParseFn));
}

#[test]
fn build_requires_unparse_fourth() {
    // The fluent methods wire parse and unparse together, so this state is
    // only reachable by assembling the builder directly.
    let mut builder: ControlBuilder<TextInputData, Attr> =
        ControlBuilder::new(TextInputData::default()).getter().setter();
    builder.has_parse_fn = true;
    assert_eq!(builder.build().err(), Some(ControlBuildError::MissingUnParseFn));
}

#[test]
fn build_succeeds_with_all_required_slots() {
    let built = ControlBuilder::<TextInputData, Attr>::new(
        TextInputData::default(),
    )
        .named("age")
        .getter()
        .setter()
        .parse_custom()
        .validation_fn()
        .style("wide")
        .build()
        .unwrap();
    assert_eq!(built.render_data.data.name, "age");
    assert_eq!(built.render_data.styles, vec!["wide"]);
    assert!(built.has_validation_fn);
    assert!(!built.has_show_when);
}

#[test]
fn build_error_messages_name_the_missing_piece() {
    assert_eq!(ControlBuildError::MissingGetter.message(), "missing getter function");
    assert_eq!(ControlBuildError::MissingSetter.message(), "missing setter function");
    assert_eq!(ControlBuildError::MissingParseFn.message(), "missing parse function");
    assert_eq!(ControlBuildError::MissingUnParseFn.message(), "missing unparse function");
}

#[test]
fn text_input_configuration_accumulates() {
    let builder: ControlBuilder<TextInputData, Attr> =
        ControlBuilder::new(TextInputData::default())
            .named("pw")
            .labeled("Password")
            .placeholder("hunter2")
            .password();
    assert_eq!(builder.data.name, "pw");
    assert_eq!(builder.data.label.as_deref(), Some("Password"));
    assert_eq!(builder.data.placeholder.as_deref(), Some("hunter2"));
    assert_eq!(builder.data.input_type, "password");

    let dated = ControlBuilder::<TextInputData, Attr>::new(TextInputData::default()).date();
    assert_eq!(dated.data.input_type, "date");
    let custom = ControlBuilder::<TextInputData, Attr>::new(TextInputData::default())
        .input_type("email");
    assert_eq!(custom.data.input_type, "email");
    assert_eq!(TextInputData::default().input_type, "input");
}

#[test]
fn text_area_configuration_accumulates() {
    let builder: ControlBuilder<TextAreaData, Attr> = ControlBuilder::new(TextAreaData::default())
        .named("bio")
        .labeled("Biography")
        .placeholder("Tell us about yourself")
        .update_on(UpdateEvent::OnFocusOut);
    assert_eq!(builder.data.name, "bio");
    assert_eq!(builder.data.label.as_deref(), Some("Biography"));
    assert_eq!(builder.data.update_event, UpdateEvent::OnFocusOut);
    assert_eq!(TextAreaData::default().update_event, UpdateEvent::OnInput);
}

#[test]
fn checkbox_configuration_accumulates() {
    let builder: ControlBuilder<CheckboxData, Attr> = ControlBuilder::new(CheckboxData::default())
        .named("subscribed")
        .labeled("Subscribe to the newsletter");
    assert_eq!(builder.data.name, "subscribed");
    assert_eq!(builder.data.label.as_deref(), Some("Subscribe to the newsletter"));
}

#[test]
fn select_options_and_blank_option() {
    let builder: ControlBuilder<SelectData, Attr> = ControlBuilder::new(SelectData::default())
        .named("color")
        .labeled("Color")
        .with_options_valued(vec![
            ("Red".to_string(), "r".to_string()),
            ("Blue".to_string(), "b".to_string()),
        ])
        .with_blank_option();
    assert_eq!(
        builder.data.options,
        vec![("Red".to_string(), "r".to_string()), ("Blue".to_string(), "b".to_string())]
    );
    assert_eq!(builder.data.blank_option.as_deref(), Some(""));

    let displayed = ControlBuilder::<SelectData, Attr>::new(SelectData::default())
        .with_blank_option_displayed("(none)");
    assert_eq!(displayed.data.blank_option.as_deref(), Some("(none)"));

    let plain = ControlBuilder::<SelectData, Attr>::new(SelectData::default())
        .with_options(&vec!["Left".to_string(), "Right".to_string()]);
    assert_eq!(
        plain.data.options,
        vec![("Left".to_string(), "Left".to_string()), ("Right".to_string(), "Right".to_string())]
    );
}

#[test]
fn radio_options_accumulate_in_order() {
    let builder: ControlBuilder<RadioButtonsData, Attr> =
        ControlBuilder::new(RadioButtonsData::default())
            .named("size")
            .labeled("Size")
            .with_option("Small")
            .with_option_valued("Large", "L")
            .with_options(&vec!["XL".to_string()])
            .with_options_valued(&vec![("Tiny".to_string(), "t".to_string())]);
    assert_eq!(
        builder.data.options,
        vec![
            ("Small".to_string(), "Small".to_string()),
            ("Large".to_string(), "L".to_string()),
            ("XL".to_string(), "XL".to_string()),
            ("Tiny".to_string(), "t".to_string()),
        ]
    );
}

#[test]
fn slider_and_stepper_bounds() {
    let slider: ControlBuilder<SliderData, Attr> = ControlBuilder::new(SliderData::default())
        .named("volume")
        .labeled("Volume")
        .min("0")
        .max("11")
        .step("1");
    assert_eq!(slider.data.min.as_deref(), Some("0"));
    assert_eq!(slider.data.max.as_deref(), Some("11"));
    assert_eq!(slider.data.step.as_deref(), Some("1"));

    let stepper: ControlBuilder<StepperData, Attr> = ControlBuilder::new(StepperData::default())
        .named("count")
        .min("1")
        .max("10")
        .step("1");
    assert_eq!(stepper.data.name, "count");
    assert_eq!(stepper.data.min.as_deref(), Some("1"));
}

#[test]
fn vanity_builder_never_fails_to_build() {
    let built = VanityControlBuilder::<HeadingData, Attr>::new(HeadingData::default())
        .title("Account")
        .h2()
        .style("centered")
        .build();
    assert_eq!(built.render_data.data.level, HeadingLevel::H2);
    assert_eq!(built.render_data.styles, vec!["centered"]);
    assert!(matches!(built.display, DisplaySource::Fixed(t) if t == "Account"));
    assert!(!built.has_show_when);
}

#[test]
fn heading_levels_cover_all_four() {
    let b = || VanityControlBuilder::<HeadingData, Attr>::new(HeadingData::default());
    assert_eq!(b().h1().data.level, HeadingLevel::H1);
    assert_eq!(b().h2().data.level, HeadingLevel::H2);
    assert_eq!(b().h3().data.level, HeadingLevel::H3);
    assert_eq!(b().h4().data.level, HeadingLevel::H4);
    assert_eq!(HeadingLevel::default(), HeadingLevel::H1);
}

#[test]
fn vanity_wiring_slots_record() {
    let hidden = VanityControlBuilder::<HiddenData, Attr>::new(HiddenData::default())
        .named("csrf")
        .getter()
        .show_when();
    assert_eq!(hidden.data.name, "csrf");
    assert!(matches!(hidden.display, DisplaySource::Dynamic));
    assert!(hidden.has_show_when);

    let submit = VanityControlBuilder::<SubmitData, Attr>::new(SubmitData::default()).text("Save");
    assert!(matches!(submit.display, DisplaySource::Fixed(t) if t == "Save"));

    let spacer = VanityControlBuilder::<SpacerData, Attr>::new(SpacerData::default())
        .height("1.25em");
    assert_eq!(spacer.data.height.as_deref(), Some("1.25em"));
}

#[test]
fn interactive_wiring_slots_record() {
    let builder: ControlBuilder<TextInputData, Attr> =
        ControlBuilder::new(TextInputData::default()).show_when();
    assert!(builder.has_show_when);
    assert!(!builder.has_getter);
    assert!(!builder.has_validation_fn);
}
