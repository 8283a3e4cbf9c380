//! The control contract and the control builders.
//!
//! A control is one form widget: its configuration data, the raw value
//! type the widget naturally edits, and (for an interactive control) the
//! wiring slots that bind it to one field of the form data — getter,
//! setter, parse, unparse, an optional semantic validator, and an optional
//! visibility predicate.
//!
//! The user-supplied functions themselves live with the host application,
//! which owns the reactive cells they run against; the builders here record
//! which slots have been wired and enforce the construction invariant in
//! one place: an interactive control without getter, setter, parse, and
//! unparse is invalid, and [`ControlBuilder::build`] names the first
//! missing piece.  Construction failure indicates a programming mistake,
//! not a runtime condition, so the host aborts form assembly on it.

use vstd::prelude::*;

pub mod checkbox;
pub mod heading;
pub mod hidden;
pub mod output;
pub mod radio_buttons;
pub mod select;
pub mod slider;
pub mod spacer;
pub mod stepper;
pub mod submit;
pub mod text_area;
pub mod text_input;

verus! {

/// A host function that configures a builder and hands it back.
pub trait BuilderFn<B>: Fn(B) -> B {

}

impl<B, T> BuilderFn<B> for T where T: Fn(B) -> B {

}

/// A host function that configures a builder with the form's shared
/// context and hands the builder back.
pub trait BuilderCxFn<B, CX>: Fn(B, std::rc::Rc<CX>) -> B {

}

impl<B, CX, T> BuilderCxFn<B, CX> for T where T: Fn(B, std::rc::Rc<CX>) -> B {

}

/// A function that validates a whole form-data value, returning the first
/// rule failure.
pub trait ValidationFn<FD: ?Sized>: Fn(&FD) -> Result<(), String> + 'static {

}

impl<FD: ?Sized, T> ValidationFn<FD> for T where T: Fn(&FD) -> Result<(), String> + 'static {

}

/// One control's submit-time validation callback: it reports whether the
/// control passes, updating the control's own validation state as it
/// goes.
pub trait ValidationCb: Fn() -> bool + 'static {

}

impl<T> ValidationCb for T where T: Fn() -> bool + 'static {

}

/// A function that parses a control's raw value into the field's typed
/// value, or reports the message to surface as a parse error.
pub trait ParseFn<CR, FDT>: Fn(CR) -> Result<FDT, String> + 'static {

}

impl<CR, FDT, F> ParseFn<CR, FDT> for F where F: Fn(CR) -> Result<FDT, String> + 'static {

}

/// A function that renders the field's typed value back into the
/// control's raw value for display.
pub trait UnparseFn<CR, FDT>: Fn(FDT) -> CR + 'static {

}

impl<CR, FDT, F> UnparseFn<CR, FDT> for F where F: Fn(FDT) -> CR + 'static {

}

/// A function that extracts one field's typed value from the form data.
pub trait FieldGetter<FD, FDT>: Fn(FD) -> FDT + 'static {

}

impl<FD, FDT, F> FieldGetter<FD, FDT> for F where F: Fn(FD) -> FDT + 'static {

}

/// A function that stores one field's typed value into the form data.
pub trait FieldSetter<FD, FDT>: Fn(&mut FD, FDT) + 'static {

}

impl<FD, FDT, F> FieldSetter<FD, FDT> for F where F: Fn(&mut FD, FDT) + 'static {

}

/// A control's visibility predicate over the form data and the form's
/// shared context.
pub trait ShowWhenFn<FD: 'static, CX>: Fn(&FD, &CX) -> bool + 'static {

}

impl<FD: 'static, CX, F> ShowWhenFn<FD, CX> for F where F: Fn(&FD, &CX) -> bool + 'static {

}

/// The contract of an interactive control: it declares the raw value type
/// its widget produces and accepts.  Its rendering entry point belongs to
/// the presentation layer, outside this library.
pub trait ControlData {
    /// The raw, unparsed representation the widget edits — usually a
    /// string, occasionally a boolean or a number.
    type ReturnType;
}

/// An interactive control on which a semantic validator may be configured.
pub trait ValidatedControlData: ControlData {
}

/// The contract of a read-only ("vanity") control: it only displays, never
/// produces a value, and takes no part in validation.
pub trait VanityControlData {
}

/// A vanity control whose displayed text may be derived from the form
/// data.
pub trait GetterVanityControlData: VanityControlData {
}

/// The widget event on which an editable text control pushes its raw
/// value through the binding engine.
#[derive(Debug, Clone, Copy, PartialEq, Eq, Structural)]
pub enum UpdateEvent {
    /// Push on every keystroke.
    OnInput,
    /// Push when the widget's value is committed.
    OnChange,
    /// Push when the widget loses focus.
    OnFocusOut,
}

impl Default for UpdateEvent {
    /// Editable text controls push on every keystroke unless configured
    /// otherwise.
    fn default() -> (r: Self)
        ensures
            r is OnInput,
    {
        UpdateEvent::OnInput
    }
}

/// The configuration a finished control hands to the presentation layer:
/// the control's data and its accumulated styling attributes, which are
/// opaque to this library and interpreted only by the style in use.
pub struct ControlRenderData<C, A> {
    pub data: C,
    pub styles: Vec<A>,
}

/// The ways building an interactive control can fail.
#[derive(Debug, PartialEq, Eq, Structural, Clone, Copy)]
pub enum ControlBuildError {
    /// The getter slot was not wired.
    MissingGetter,
    /// The setter slot was not wired.
    MissingSetter,
    /// The parse slot was not wired.
    MissingParseFn,
    /// The unparse slot was not wired.
    MissingUnParseFn,
}

impl ControlBuildError {
    /// A short description of the missing piece.
    pub fn message(&self) -> (r: &'static str)
        ensures
            self is MissingGetter ==> r@ == "missing getter function"@,
            self is MissingSetter ==> r@ == "missing setter function"@,
            self is MissingParseFn ==> r@ == "missing parse function"@,
            self is MissingUnParseFn ==> r@ == "missing unparse function"@,
    {
        match self {
            ControlBuildError::MissingGetter => "missing getter function",
            ControlBuildError::MissingSetter => "missing setter function",
            ControlBuildError::MissingParseFn => "missing parse function",
            ControlBuildError::MissingUnParseFn => "missing unparse function",
        }
    }
}

/// A builder for one interactive control.
///
/// `C` is the control's configuration data and `A` the style's attribute
/// type.  The boolean slots record which of the host-held functions have
/// been wired; [`ControlBuilder::build`] checks the required ones.
pub struct ControlBuilder<C: ControlData, A> {
    pub data: C,
    pub style_attributes: Vec<A>,
    pub has_getter: bool,
    pub has_setter: bool,
    pub has_parse_fn: bool,
    pub has_unparse_fn: bool,
    pub has_validation_fn: bool,
    pub has_show_when: bool,
}

/// The product of building an interactive control: the render data, and
/// which optional slots were wired.
pub struct BuiltControlData<C: ControlData, A> {
    pub render_data: ControlRenderData<C, A>,
    pub has_validation_fn: bool,
    pub has_show_when: bool,
}

/// Whether two builders have the same wiring slots and styling.
pub open spec fn same_slots<C: ControlData, A>(
    a: ControlBuilder<C, A>,
    b: ControlBuilder<C, A>,
) -> bool {
    &&& a.style_attributes == b.style_attributes
    &&& a.has_getter == b.has_getter
    &&& a.has_setter == b.has_setter
    &&& a.has_parse_fn == b.has_parse_fn
    &&& a.has_unparse_fn == b.has_unparse_fn
    &&& a.has_validation_fn == b.has_validation_fn
    &&& a.has_show_when == b.has_show_when
}

/// Whether two vanity builders have the same wiring and styling.
pub open spec fn same_vanity_slots<C: VanityControlData, A>(
    a: VanityControlBuilder<C, A>,
    b: VanityControlBuilder<C, A>,
) -> bool {
    &&& a.style_attributes == b.style_attributes
    &&& a.display == b.display
    &&& a.has_show_when == b.has_show_when
}

impl<C: ControlData, A> ControlBuilder<C, A> {
    /// Starts a builder for the given control data, with no slot wired.
    pub fn new(data: C) -> (r: Self)
        ensures
            r.data == data,
            r.style_attributes@ == Seq::<A>::empty(),
            !r.has_getter,
            !r.has_setter,
            !r.has_parse_fn,
            !r.has_unparse_fn,
            !r.has_validation_fn,
            !r.has_show_when,
    {
        ControlBuilder {
            data,
            style_attributes: Vec::new(),
            has_getter: false,
            has_setter: false,
            has_parse_fn: false,
            has_unparse_fn: false,
            has_validation_fn: false,
            has_show_when: false,
        }
    }

    /// Checks the construction invariant and builds the control.
    ///
    /// Fails on the first missing required slot, checked in a fixed order:
    /// getter, setter, parse, unparse.
    pub fn build(self) -> (r: Result<BuiltControlData<C, A>, ControlBuildError>)
        ensures
            r is Ok <==> (self.has_getter && self.has_setter && self.has_parse_fn
                && self.has_unparse_fn),
            !self.has_getter ==> r == Err::<BuiltControlData<C, A>, _>(
                ControlBuildError::MissingGetter,
            ),
            self.has_getter && !self.has_setter ==> r == Err::<BuiltControlData<C, A>, _>(
                ControlBuildError::MissingSetter,
            ),
            self.has_getter && self.has_setter && !self.has_parse_fn ==> r == Err::<
                BuiltControlData<C, A>,
                _,
            >(ControlBuildError::MissingParseFn),
            self.has_getter && self.has_setter && self.has_parse_fn && !self.has_unparse_fn ==> r
                == Err::<BuiltControlData<C, A>, _>(ControlBuildError::MissingUnParseFn),
            r matches Ok(b) ==> {
                &&& b.render_data.data == self.data
                &&& b.render_data.styles == self.style_attributes
                &&& b.has_validation_fn == self.has_validation_fn
                &&& b.has_show_when == self.has_show_when
            },
    {
        if !self.has_getter {
            return Err(ControlBuildError::MissingGetter);
        }
        if !self.has_setter {
            return Err(ControlBuildError::MissingSetter);
        }
        if !self.has_parse_fn {
            return Err(ControlBuildError::MissingParseFn);
        }
        if !self.has_unparse_fn {
            return Err(ControlBuildError::MissingUnParseFn);
        }
        Ok(
            BuiltControlData {
                render_data: ControlRenderData { data: self.data, styles: self.style_attributes },
                has_validation_fn: self.has_validation_fn,
                has_show_when: self.has_show_when,
            },
        )
    }

    /// Records that the host wired the getter, which extracts this field's
    /// current typed value from the form data.  Required.
    pub fn getter(self) -> (r: Self)
        ensures
            r == (ControlBuilder { has_getter: true, ..self }),
    {
        ControlBuilder { has_getter: true, ..self }
    }

    /// Records that the host wired the setter, which stores this field's
    /// typed value into the form data.  Required.
    pub fn setter(self) -> (r: Self)
        ensures
            r == (ControlBuilder { has_setter: true, ..self }),
    {
        ControlBuilder { has_setter: true, ..self }
    }

    /// Records that the host wired a parse and an unparse function, which
    /// convert between the widget's raw value and the field's typed value.
    /// Required.
    pub fn parse_custom(self) -> (r: Self)
        ensures
            r == (ControlBuilder { has_parse_fn: true, has_unparse_fn: true, ..self }),
    {
        ControlBuilder { has_parse_fn: true, has_unparse_fn: true, ..self }
    }

    /// Records that the host wired a visibility predicate: the control is
    /// rendered, and takes part in validation, only while the predicate
    /// holds.
    pub fn show_when(self) -> (r: Self)
        ensures
            r == (ControlBuilder { has_show_when: true, ..self }),
    {
        ControlBuilder { has_show_when: true, ..self }
    }

    /// Adds a styling attribute to this control.
    pub fn style(self, attribute: A) -> (r: Self)
        ensures
            r.style_attributes@ == self.style_attributes@.push(attribute),
            r.data == self.data,
            r.has_getter == self.has_getter,
            r.has_setter == self.has_setter,
            r.has_parse_fn == self.has_parse_fn,
            r.has_unparse_fn == self.has_unparse_fn,
            r.has_validation_fn == self.has_validation_fn,
            r.has_show_when == self.has_show_when,
    {
        let mut style_attributes = self.style_attributes;
        style_attributes.push(attribute);
        ControlBuilder { style_attributes, ..self }
    }
}

impl<C: ValidatedControlData, A> ControlBuilder<C, A> {
    /// Records that the host wired a semantic validator, which checks the
    /// parsed value — with the whole form data as context — after every
    /// stored edit and during validation sweeps.  Optional.
    pub fn validation_fn(self) -> (r: Self)
        ensures
            r == (ControlBuilder { has_validation_fn: true, ..self }),
    {
        ControlBuilder { has_validation_fn: true, ..self }
    }
}

/// Where a vanity control's displayed text comes from.
pub enum DisplaySource {
    /// The control displays nothing.
    Absent,
    /// The control displays a fixed string.
    Fixed(String),
    /// The host wired a getter that derives the text from the form data.
    Dynamic,
}

/// A builder for one read-only control.  No slot is required: building a
/// vanity control cannot fail.
pub struct VanityControlBuilder<C: VanityControlData, A> {
    pub data: C,
    pub style_attributes: Vec<A>,
    pub display: DisplaySource,
    pub has_show_when: bool,
}

/// The product of building a vanity control.
pub struct BuiltVanityControlData<C: VanityControlData, A> {
    pub render_data: ControlRenderData<C, A>,
    pub display: DisplaySource,
    pub has_show_when: bool,
}

impl<C: VanityControlData, A> VanityControlBuilder<C, A> {
    /// Starts a builder for the given vanity control data.
    pub fn new(data: C) -> (r: Self)
        ensures
            r.data == data,
            r.style_attributes@ == Seq::<A>::empty(),
            r.display is Absent,
            !r.has_show_when,
    {
        VanityControlBuilder {
            data,
            style_attributes: Vec::new(),
            display: DisplaySource::Absent,
            has_show_when: false,
        }
    }

    /// Builds the vanity control.
    pub fn build(self) -> (r: BuiltVanityControlData<C, A>)
        ensures
            r.render_data.data == self.data,
            r.render_data.styles == self.style_attributes,
            r.display == self.display,
            r.has_show_when == self.has_show_when,
    {
        BuiltVanityControlData {
            render_data: ControlRenderData { data: self.data, styles: self.style_attributes },
            display: self.display,
            has_show_when: self.has_show_when,
        }
    }

    /// Records that the host wired a visibility predicate for this
    /// control.
    pub fn show_when(self) -> (r: Self)
        ensures
            r == (VanityControlBuilder { has_show_when: true, ..self }),
    {
        VanityControlBuilder { has_show_when: true, ..self }
    }

    /// Adds a styling attribute to this control.
    pub fn style(self, attribute: A) -> (r: Self)
        ensures
            r.style_attributes@ == self.style_attributes@.push(attribute),
            r.data == self.data,
            r.display == self.display,
            r.has_show_when == self.has_show_when,
    {
        let mut style_attributes = self.style_attributes;
        style_attributes.push(attribute);
        VanityControlBuilder { style_attributes, ..self }
    }
}

impl<C: GetterVanityControlData, A> VanityControlBuilder<C, A> {
    /// Records that the host wired a getter deriving this control's
    /// displayed text from the form data.  Optional for vanity controls.
    pub fn getter(self) -> (r: Self)
        ensures
            r == (VanityControlBuilder { display: DisplaySource::Dynamic, ..self }),
    {
        VanityControlBuilder { display: DisplaySource::Dynamic, ..self }
    }
}

} // verus!
