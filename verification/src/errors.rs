//! Validation errors: locations, line errors and the error a validator returns.
use vstd::prelude::*;

verus! {

/// One step of the path to the place in the input where an error was found:
/// a string (such as a dictionary key or `"[key]"`) or an integer.
#[derive(Debug, Clone, PartialEq, Eq)]
pub enum LocItem {
    S(String),
    I(i64),
}

/// The mathematical value of a `LocItem`.
pub enum LocItemView {
    S(Seq<char>),
    I(i64),
}

impl View for LocItem {
    type V = LocItemView;

    open spec fn view(&self) -> LocItemView {
        match self {
            LocItem::S(s) => LocItemView::S(s@),
            LocItem::I(i) => LocItemView::I(*i),
        }
    }
}

impl LocItem {
    /// A copy of this location item with the same value.
    pub fn duplicate(&self) -> (res: LocItem)
        ensures
            res@ == self@,
    {
        match self {
            LocItem::S(s) => LocItem::S(s.clone()),
            LocItem::I(i) => LocItem::I(*i),
        }
    }
}

/// The kind of a line error.
#[derive(Debug, Clone, PartialEq, Eq)]
pub enum ErrorType {
    /// A collection has fewer items than its minimum length.
    TooShort { field_type: String, min_length: usize, actual_length: usize },
    /// A collection has more items than its maximum length.
    TooLong { field_type: String, max_length: usize, actual_length: Option<usize> },
    /// The input is not a dictionary.
    DictType,
    /// An error reported by an item validator; the number identifies it.
    Reported { code: u64 },
}

/// The mathematical value of an `ErrorType`.
pub enum ErrorTypeView {
    TooShort { field_type: Seq<char>, min_length: nat, actual_length: nat },
    TooLong { field_type: Seq<char>, max_length: nat, actual_length: Option<nat> },
    DictType,
    Reported { code: u64 },
}

impl View for ErrorType {
    type V = ErrorTypeView;

    open spec fn view(&self) -> ErrorTypeView {
        match self {
            ErrorType::TooShort { field_type, min_length, actual_length } => ErrorTypeView::TooShort {
                field_type: field_type@,
                min_length: *min_length as nat,
                actual_length: *actual_length as nat,
            },
            ErrorType::TooLong { field_type, max_length, actual_length } => ErrorTypeView::TooLong {
                field_type: field_type@,
                max_length: *max_length as nat,
                actual_length: match actual_length {
                    Some(a) => Some(*a as nat),
                    None => None,
                },
            },
            ErrorType::DictType => ErrorTypeView::DictType,
            ErrorType::Reported { code } => ErrorTypeView::Reported { code: *code },
        }
    }
}

/// One validation error: what went wrong, where (outermost location item
/// first) and on which input value (identified by a number).
#[derive(Debug, Clone, PartialEq, Eq)]
pub struct ValLineError {
    pub error_type: ErrorType,
    pub location: Vec<LocItem>,
    pub input_value: u64,
}

/// The mathematical value of a `ValLineError`.
pub struct LineErrorView {
    pub error_type: ErrorTypeView,
    pub location: Seq<LocItemView>,
    pub input_value: u64,
}

/// The views of a sequence of location items.
pub open spec fn locs_view(locs: Seq<LocItem>) -> Seq<LocItemView> {
    locs.map_values(|l: LocItem| l@)
}

impl View for ValLineError {
    type V = LineErrorView;

    open spec fn view(&self) -> LineErrorView {
        LineErrorView {
            error_type: self.error_type@,
            location: locs_view(self.location@),
            input_value: self.input_value,
        }
    }
}

/// The views of a sequence of line errors.
pub open spec fn line_errors_view(errors: Seq<ValLineError>) -> Seq<LineErrorView> {
    errors.map_values(|e: ValLineError| e@)
}

/// A line error placed inside one more location item: `outer` becomes the
/// first item of its location.
pub open spec fn spec_with_outer_location(e: LineErrorView, outer: LocItemView) -> LineErrorView {
    LineErrorView {
        error_type: e.error_type,
        location: seq![outer] + e.location,
        input_value: e.input_value,
    }
}

impl ValLineError {
    /// A line error with no location.
    pub fn new(error_type: ErrorType, input_value: u64) -> (res: ValLineError)
        ensures
            res@ == (LineErrorView {
                error_type: error_type@,
                location: Seq::<LocItemView>::empty(),
                input_value,
            }),
    {
        let res = ValLineError { error_type, location: Vec::new() , input_value };
        assert(locs_view(res.location@) =~= Seq::<LocItemView>::empty());
        res
    }

    /// This error, placed inside the location item `outer`.
    pub fn with_outer_location(self, outer: LocItem) -> (res: ValLineError)
        ensures
            res@ == spec_with_outer_location(self@, outer@),
    {
        let mut e = self;
        let ghost old_loc = e.location@;
        e.location.insert(0, outer);
        assert(locs_view(e.location@) =~= seq![outer@] + locs_view(old_loc));
        e
    }
}

/// What a validator returns when it does not succeed.
#[derive(Debug, Clone, PartialEq, Eq)]
pub enum ValError {
    /// One or more validation errors.
    LineErrors(Vec<ValLineError>),
    /// An error that is not a validation error (identified by a number);
    /// it ends validation at once.
    InternalErr(u64),
    /// The item should be left out of the output.
    Omit,
    /// The default value should be used in place of the item.
    UseDefault,
}

/// The mathematical value of a `ValError`.
pub enum ValErrorView {
    LineErrors(Seq<LineErrorView>),
    InternalErr(u64),
    Omit,
    UseDefault,
}

impl View for ValError {
    type V = ValErrorView;

    open spec fn view(&self) -> ValErrorView {
        match self {
            ValError::LineErrors(es) => ValErrorView::LineErrors(line_errors_view(es@)),
            ValError::InternalErr(c) => ValErrorView::InternalErr(*c),
            ValError::Omit => ValErrorView::Omit,
            ValError::UseDefault => ValErrorView::UseDefault,
        }
    }
}

/// A validation error made of one line error with no location.
pub fn val_error_new(error_type: ErrorType, input_value: u64) -> (res: ValError)
    ensures
        res@ == ValErrorView::LineErrors(
            seq![LineErrorView {
                error_type: error_type@,
                location: Seq::<LocItemView>::empty(),
                input_value,
            }],
        ),
{
    let line = ValLineError::new(error_type, input_value);
    let mut lines: Vec<ValLineError> = Vec::new();
    lines.push(line);
    let res = ValError::LineErrors(lines);
    assert(line_errors_view(lines@) =~= seq![line@]);
    res
}

} // verus!
