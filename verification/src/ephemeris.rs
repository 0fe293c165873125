//! Record reassembly for ephemeris reports.
//!
//! The data section of a report lies between the sentinel lines `$$SOE` and
//! `$$EOE`.  Inside it, every record spans a fixed group of physically
//! adjacent lines: a date/label line, then lines of tagged fixed-width
//! fields.  The two parsers here advance a state machine by exactly one
//! transition per consumed line and emit a record whenever a group is
//! complete.  Field values are kept as trimmed numeric literals; a tag or
//! number that does not match the format is a fatal error for the whole
//! parse.

use vstd::prelude::*;
use crate::fields::{
    spec_after_prefix, spec_field_at, spec_has_prefix, spec_rest_after, spec_trim, str_eq,
    take_expecting, take_or_empty, trim,
};
use crate::numbers::{is_number, spec_is_number};

verus! {

/// Width, in characters, of every tagged value field.
pub const FIELD_WIDTH: usize = 22;

/// The start-of-data sentinel line.
pub open spec fn soe_marker() -> Seq<char> {
    "$$SOE"@
}

/// The end-of-data sentinel line.
pub open spec fn eoe_marker() -> Seq<char> {
    "$$EOE"@
}

// ---------------------------------------------------------------------------
// Errors
// ---------------------------------------------------------------------------

/// Why a parse aborted.  Both kinds are fatal: the machines never
/// resynchronize and never emit a partial record.
#[derive(Debug, PartialEq)]
pub enum ParseError {
    /// A line did not begin, at the expected cursor position, with the
    /// field tag the current state requires.
    FieldTagMismatch { expected: String, actual: String },
    /// A field slice, once trimmed, is not a decimal or
    /// scientific-notation number.
    NumericFormatError { value: String },
}

/// The mathematical shape of a [`ParseError`].
pub ghost enum ParseErrorView {
    FieldTagMismatch { expected: Seq<char>, actual: Seq<char> },
    NumericFormatError { value: Seq<char> },
}

impl View for ParseError {
    type V = ParseErrorView;

    open spec fn view(&self) -> ParseErrorView {
        match self {
            ParseError::FieldTagMismatch { expected, actual } => ParseErrorView::FieldTagMismatch {
                expected: expected@,
                actual: actual@,
            },
            ParseError::NumericFormatError { value } => ParseErrorView::NumericFormatError {
                value: value@,
            },
        }
    }
}

// ---------------------------------------------------------------------------
// Records
// ---------------------------------------------------------------------------

/// Position (in km) and velocity (in km/s) of a body.  Each component is
/// the trimmed numeric literal exactly as the report wrote it.
#[derive(Debug, PartialEq)]
pub struct EphemerisVectorItem {
    /// The `X`, `Y`, `Z` components, in this order.
    pub position: [String; 3],
    /// The `VX`, `VY`, `VZ` components, in this order.
    pub velocity: [String; 3],
}

/// The mathematical shape of an [`EphemerisVectorItem`].
pub ghost struct EphemerisVectorItemView {
    pub position: Seq<Seq<char>>,
    pub velocity: Seq<Seq<char>>,
}

impl View for EphemerisVectorItem {
    type V = EphemerisVectorItemView;

    open spec fn view(&self) -> EphemerisVectorItemView {
        EphemerisVectorItemView {
            position: self.position.deep_view(),
            velocity: self.velocity.deep_view(),
        }
    }
}

impl DeepView for EphemerisVectorItem {
    type V = EphemerisVectorItemView;

    open spec fn deep_view(&self) -> EphemerisVectorItemView {
        self.view()
    }
}

/// The six classical orbital elements of a body.  Each element is the
/// trimmed numeric literal exactly as the report wrote it.
#[derive(Debug, PartialEq)]
pub struct EphemerisOrbitalElementsItem {
    /// `EC`, dimensionless.
    pub eccentricity: String,
    /// `IN`, degrees.
    pub inclination: String,
    /// `OM`, degrees.
    pub longitude_of_ascending_node: String,
    /// `W`, degrees.
    pub argument_of_perifocus: String,
    /// `MA`, degrees.
    pub mean_anomaly: String,
    /// `A`, km.
    pub semi_major_axis: String,
}

/// The mathematical shape of an [`EphemerisOrbitalElementsItem`].
pub ghost struct EphemerisOrbitalElementsItemView {
    pub eccentricity: Seq<char>,
    pub inclination: Seq<char>,
    pub longitude_of_ascending_node: Seq<char>,
    pub argument_of_perifocus: Seq<char>,
    pub mean_anomaly: Seq<char>,
    pub semi_major_axis: Seq<char>,
}

impl View for EphemerisOrbitalElementsItem {
    type V = EphemerisOrbitalElementsItemView;

    open spec fn view(&self) -> EphemerisOrbitalElementsItemView {
        EphemerisOrbitalElementsItemView {
            eccentricity: self.eccentricity@,
            inclination: self.inclination@,
            longitude_of_ascending_node: self.longitude_of_ascending_node@,
            argument_of_perifocus: self.argument_of_perifocus@,
            mean_anomaly: self.mean_anomaly@,
            semi_major_axis: self.semi_major_axis@,
        }
    }
}

impl DeepView for EphemerisOrbitalElementsItem {
    type V = EphemerisOrbitalElementsItemView;

    open spec fn deep_view(&self) -> EphemerisOrbitalElementsItemView {
        self.view()
    }
}

// ---------------------------------------------------------------------------
// Slicing one line into its three tagged fields
// ---------------------------------------------------------------------------

/// Slices a line of three tagged fixed-width fields into its raw field
/// texts.  Tags are checked left to right; the first missing tag is the
/// error, naming the tag and the line content at the cursor.
pub open spec fn spec_split3(line: Seq<char>, t1: Seq<char>, t2: Seq<char>, t3: Seq<char>) -> Result<
    (Seq<char>, Seq<char>, Seq<char>),
    ParseErrorView,
> {
    if !spec_has_prefix(line, t1) {
        Err(ParseErrorView::FieldTagMismatch { expected: t1, actual: line })
    } else {
        let a1 = spec_after_prefix(line, t1);
        let f1 = spec_field_at(a1, FIELD_WIDTH as nat);
        let r1 = spec_rest_after(a1, FIELD_WIDTH as nat);
        if !spec_has_prefix(r1, t2) {
            Err(ParseErrorView::FieldTagMismatch { expected: t2, actual: r1 })
        } else {
            let a2 = spec_after_prefix(r1, t2);
            let f2 = spec_field_at(a2, FIELD_WIDTH as nat);
            let r2 = spec_rest_after(a2, FIELD_WIDTH as nat);
            if !spec_has_prefix(r2, t3) {
                Err(ParseErrorView::FieldTagMismatch { expected: t3, actual: r2 })
            } else {
                let a3 = spec_after_prefix(r2, t3);
                let f3 = spec_field_at(a3, FIELD_WIDTH as nat);
                Ok((f1, f2, f3))
            }
        }
    }
}

fn split3<'a>(line: &'a str, t1: &str, t2: &str, t3: &str) -> (res: Result<
    (&'a str, &'a str, &'a str),
    ParseError,
>)
    ensures
        match res {
            Ok(f) => spec_split3(line@, t1@, t2@, t3@) == Ok::<_, ParseErrorView>(
                (f.0@, f.1@, f.2@),
            ),
            Err(e) => spec_split3(line@, t1@, t2@, t3@) == Err::<
                (Seq<char>, Seq<char>, Seq<char>),
                _,
            >(e@),
        },
{
    let r0 = match take_expecting(line, t1) {
        Some(r) => r,
        None => {
            return Err(
                ParseError::FieldTagMismatch { expected: t1.to_owned(), actual: line.to_owned() },
            );
        },
    };
    let (f1, r1) = take_or_empty(r0, FIELD_WIDTH);
    let r1b = match take_expecting(r1, t2) {
        Some(r) => r,
        None => {
            return Err(
                ParseError::FieldTagMismatch { expected: t2.to_owned(), actual: r1.to_owned() },
            );
        },
    };
    let (f2, r2) = take_or_empty(r1b, FIELD_WIDTH);
    let r2b = match take_expecting(r2, t3) {
        Some(r) => r,
        None => {
            return Err(
                ParseError::FieldTagMismatch { expected: t3.to_owned(), actual: r2.to_owned() },
            );
        },
    };
    let (f3, _) = take_or_empty(r2b, FIELD_WIDTH);
    Ok((f1, f2, f3))
}

/// Trims a raw field and keeps it only when it is a well-formed number.
pub open spec fn spec_checked_value(raw: Seq<char>) -> Result<Seq<char>, ParseErrorView> {
    let value = spec_trim(raw);
    if spec_is_number(value) {
        Ok(value)
    } else {
        Err(ParseErrorView::NumericFormatError { value })
    }
}

fn checked_value(raw: &str) -> (res: Result<String, ParseError>)
    ensures
        match res {
            Ok(v) => spec_checked_value(raw@) == Ok::<_, ParseErrorView>(v@),
            Err(e) => spec_checked_value(raw@) == Err::<Seq<char>, _>(e@),
        },
{
    let value = trim(raw);
    if is_number(value) {
        Ok(value.to_owned())
    } else {
        Err(ParseError::NumericFormatError { value: value.to_owned() })
    }
}

/// The three checked components of one vector line: tags first, left to
/// right, then the numeric checks, left to right — the first failure wins.
pub open spec fn spec_vector_components(
    line: Seq<char>,
    t1: Seq<char>,
    t2: Seq<char>,
    t3: Seq<char>,
) -> Result<Seq<Seq<char>>, ParseErrorView> {
    match spec_split3(line, t1, t2, t3) {
        Err(e) => Err(e),
        Ok((f1, f2, f3)) => match spec_checked_value(f1) {
            Err(e) => Err(e),
            Ok(v1) => match spec_checked_value(f2) {
                Err(e) => Err(e),
                Ok(v2) => match spec_checked_value(f3) {
                    Err(e) => Err(e),
                    Ok(v3) => Ok(seq![v1, v2, v3]),
                },
            },
        },
    }
}

fn vector_components(line: &str, t1: &str, t2: &str, t3: &str) -> (res: Result<
    [String; 3],
    ParseError,
>)
    ensures
        match res {
            Ok(c) => spec_vector_components(line@, t1@, t2@, t3@) == Ok::<_, ParseErrorView>(
                c.deep_view(),
            ),
            Err(e) => spec_vector_components(line@, t1@, t2@, t3@) == Err::<Seq<Seq<char>>, _>(e@),
        },
{
    let (f1, f2, f3) = match split3(line, t1, t2, t3) {
        Ok(f) => f,
        Err(e) => {
            return Err(e);
        },
    };
    let v1 = match checked_value(f1) {
        Ok(v) => v,
        Err(e) => {
            return Err(e);
        },
    };
    let v2 = match checked_value(f2) {
        Ok(v) => v,
        Err(e) => {
            return Err(e);
        },
    };
    let v3 = match checked_value(f3) {
        Ok(v) => v,
        Err(e) => {
            return Err(e);
        },
    };
    let out = [v1, v2, v3];
    proof {
        assert(out.deep_view() =~= spec_vector_components(line@, t1@, t2@, t3@)->Ok_0);
    }
    Ok(out)
}

// ---------------------------------------------------------------------------
// The vector state machine
// ---------------------------------------------------------------------------

enum EphemerisVectorParserState {
    WaitingForSoe,
    WaitingForDate,
    WaitingForPosition,
    Position { position: [String; 3] },
    Complete { position: [String; 3], velocity: [String; 3] },
    End,
}

/// The mathematical states of the vector machine.
pub ghost enum VectorParserStateView {
    WaitingForSoe,
    WaitingForDate,
    WaitingForPosition,
    Position { position: Seq<Seq<char>> },
    Complete { position: Seq<Seq<char>>, velocity: Seq<Seq<char>> },
    End,
}

impl View for EphemerisVectorParserState {
    type V = VectorParserStateView;

    closed spec fn view(&self) -> VectorParserStateView {
        match self {
            EphemerisVectorParserState::WaitingForSoe => VectorParserStateView::WaitingForSoe,
            EphemerisVectorParserState::WaitingForDate => VectorParserStateView::WaitingForDate,
            EphemerisVectorParserState::WaitingForPosition => VectorParserStateView::WaitingForPosition,
            EphemerisVectorParserState::Position { position } => VectorParserStateView::Position {
                position: position.deep_view(),
            },
            EphemerisVectorParserState::Complete { position, velocity } => VectorParserStateView::Complete {
                position: position.deep_view(),
                velocity: velocity.deep_view(),
            },
            EphemerisVectorParserState::End => VectorParserStateView::End,
        }
    }
}

/// Outcome of one transition of the vector machine.
pub ghost struct VectorStep {
    pub state: VectorParserStateView,
    pub emit: Option<EphemerisVectorItemView>,
    pub error: Option<ParseErrorView>,
}

/// One transition of the vector machine on one consumed line.
pub open spec fn vector_step(s: VectorParserStateView, line: Seq<char>) -> VectorStep {
    match s {
        VectorParserStateView::WaitingForSoe => VectorStep {
            state: if line == soe_marker() {
                VectorParserStateView::WaitingForDate
            } else {
                VectorParserStateView::WaitingForSoe
            },
            emit: None,
            error: None,
        },
        VectorParserStateView::WaitingForDate => VectorStep {
            state: if line == eoe_marker() {
                VectorParserStateView::End
            } else {
                VectorParserStateView::WaitingForPosition
            },
            emit: None,
            error: None,
        },
        VectorParserStateView::WaitingForPosition => match spec_vector_components(
            line,
            " X ="@,
            " Y ="@,
            " Z ="@,
        ) {
            Ok(p) => VectorStep {
                state: VectorParserStateView::Position { position: p },
                emit: None,
                error: None,
            },
            Err(e) => VectorStep { state: VectorParserStateView::End, emit: None, error: Some(e) },
        },
        VectorParserStateView::Position { position } => match spec_vector_components(
            line,
            " VX="@,
            " VY="@,
            " VZ="@,
        ) {
            Ok(v) => VectorStep {
                state: VectorParserStateView::Complete { position, velocity: v },
                emit: None,
                error: None,
            },
            Err(e) => VectorStep { state: VectorParserStateView::End, emit: None, error: Some(e) },
        },
        VectorParserStateView::Complete { position, velocity } => VectorStep {
            state: VectorParserStateView::WaitingForDate,
            emit: Some(EphemerisVectorItemView { position, velocity }),
            error: None,
        },
        VectorParserStateView::End => VectorStep {
            state: VectorParserStateView::End,
            emit: None,
            error: None,
        },
    }
}

/// Everything the vector machine does on `lines` from state `s`: the
/// records it emits, in order, and the error that aborts it, if any.
/// Nothing after an error is emitted.
pub ghost struct VectorRun {
    pub records: Seq<EphemerisVectorItemView>,
    pub error: Option<ParseErrorView>,
}

/// Folds [`vector_step`] over `lines`, collecting emitted records until
/// the lines run out or a transition fails.
pub open spec fn vector_run(lines: Seq<Seq<char>>, s: VectorParserStateView) -> VectorRun
    decreases lines.len(),
{
    if lines.len() == 0 {
        VectorRun { records: Seq::empty(), error: None }
    } else {
        let st = vector_step(s, lines.first());
        if st.error is Some {
            VectorRun { records: Seq::empty(), error: st.error }
        } else {
            let rest = vector_run(lines.drop_first(), st.state);
            VectorRun {
                records: match st.emit {
                    Some(r) => seq![r] + rest.records,
                    None => rest.records,
                },
                error: rest.error,
            }
        }
    }
}

/// A run from the terminal state consumes its lines and does nothing.
pub proof fn lemma_vector_run_end(lines: Seq<Seq<char>>)
    ensures
        vector_run(lines, VectorParserStateView::End) == (VectorRun {
            records: Seq::empty(),
            error: None,
        }),
    decreases lines.len(),
{
    if lines.len() > 0 {
        lemma_vector_run_end(lines.drop_first());
    }
}

// ---------------------------------------------------------------------------
// The vector parser
// ---------------------------------------------------------------------------

/// Reassembles state-vector records from the lines of an ephemeris report,
/// one machine transition per consumed line.
pub struct EphemerisVectorParser {
    state: EphemerisVectorParserState,
    lines: Vec<String>,
    pos: usize,
}

/// The mathematical shape of an [`EphemerisVectorParser`]: the machine's
/// state and the lines it has not consumed yet.
pub ghost struct EphemerisVectorParserView {
    pub state: VectorParserStateView,
    pub rest: Seq<Seq<char>>,
}

impl View for EphemerisVectorParser {
    type V = EphemerisVectorParserView;

    closed spec fn view(&self) -> EphemerisVectorParserView {
        EphemerisVectorParserView {
            state: self.state@,
            rest: self.lines.deep_view().skip(self.pos as int),
        }
    }
}

impl EphemerisVectorParser {
    /// The parser's cursor lies within its input.
    pub closed spec fn wf(&self) -> bool {
        self.pos <= self.lines.len()
    }

    /// Creates a parser over the report lines.  The machine starts in front
    /// of the start marker with the whole input still to consume.
    pub fn parse(input: Vec<String>) -> (res: Self)
        ensures
            res.wf(),
            res@.state == VectorParserStateView::WaitingForSoe,
            res@.rest == input.deep_view(),
    {
        let res = EphemerisVectorParser {
            state: EphemerisVectorParserState::WaitingForSoe,
            lines: input,
            pos: 0,
        };
        proof {
            assert(res.lines.deep_view().skip(0) =~= res.lines.deep_view());
        }
        res
    }

    /// Pulls lines until the machine completes a record, fails, or runs out
    /// of input.  `None` means the remaining input holds nothing more; a
    /// record or error handed out is exactly the next one of the machine's
    /// run over the remaining input.
    pub fn next(&mut self) -> (r: Option<Result<EphemerisVectorItem, ParseError>>)
        requires
            old(self).wf(),
        ensures
            final(self).wf(),
            ({
                let run0 = vector_run(old(self)@.rest, old(self)@.state);
                let run1 = vector_run(final(self)@.rest, final(self)@.state);
                match r {
                    None => run0.records.len() == 0 && run0.error is None && run1.records.len()
                        == 0 && run1.error is None,
                    Some(Ok(item)) => run0.records.len() > 0 && item@ == run0.records[0]
                        && run1.records == run0.records.drop_first() && run1.error == run0.error
                        && final(self)@.rest.len() < old(self)@.rest.len(),
                    Some(Err(e)) => run0.records.len() == 0 && run0.error == Some(e@)
                        && run1.records.len() == 0 && run1.error is None && final(self)@.rest.len()
                        < old(self)@.rest.len(),
                }
            }),
    {
        loop
            invariant
                self.wf(),
                self.lines == old(self).lines,
                self@.rest.len() <= old(self)@.rest.len(),
                vector_run(self@.rest, self@.state) == vector_run(
                    old(self)@.rest,
                    old(self)@.state,
                ),
            decreases self.lines.len() - self.pos,
        {
            if self.pos >= self.lines.len() {
                proof {
                    assert(self@.rest =~= Seq::<Seq<char>>::empty());
                }
                return None;
            }
            let ghost prev = self@;
            let line = self.lines[self.pos].clone();
            self.pos = self.pos + 1;
            proof {
                assert(prev.rest.len() > 0);
                assert(prev.rest.first() == line@);
                assert(prev.rest.drop_first() =~= self@.rest);
            }
            let mut st = EphemerisVectorParserState::End;
            core::mem::swap(&mut st, &mut self.state);
            match st {
                EphemerisVectorParserState::WaitingForSoe => {
                    if str_eq(line.as_str(), "$$SOE") {
                        self.state = EphemerisVectorParserState::WaitingForDate;
                    } else {
                        self.state = EphemerisVectorParserState::WaitingForSoe;
                    }
                },
                EphemerisVectorParserState::WaitingForDate => {
                    if str_eq(line.as_str(), "$$EOE") {
                        self.state = EphemerisVectorParserState::End;
                    } else {
                        self.state = EphemerisVectorParserState::WaitingForPosition;
                    }
                },
                EphemerisVectorParserState::WaitingForPosition => {
                    match vector_components(line.as_str(), " X =", " Y =", " Z =") {
                        Ok(position) => {
                            self.state = EphemerisVectorParserState::Position { position };
                        },
                        Err(e) => {
                            self.state = EphemerisVectorParserState::End;
                            proof {
                                lemma_vector_run_end(self@.rest);
                            }
                            return Some(Err(e));
                        },
                    }
                },
                EphemerisVectorParserState::Position { position } => {
                    match vector_components(line.as_str(), " VX=", " VY=", " VZ=") {
                        Ok(velocity) => {
                            self.state = EphemerisVectorParserState::Complete { position, velocity };
                        },
                        Err(e) => {
                            self.state = EphemerisVectorParserState::End;
                            proof {
                                lemma_vector_run_end(self@.rest);
                            }
                            return Some(Err(e));
                        },
                    }
                },
                EphemerisVectorParserState::Complete { position, velocity } => {
                    self.state = EphemerisVectorParserState::WaitingForDate;
                    let item = EphemerisVectorItem { position, velocity };
                    proof {
                        let run0 = vector_run(prev.rest, prev.state);
                        let run1 = vector_run(self@.rest, self@.state);
                        assert(run0.records == seq![item@] + run1.records);
                        assert(run0.records.drop_first() =~= run1.records);
                    }
                    return Some(Ok(item));
                },
                EphemerisVectorParserState::End => {
                    self.state = EphemerisVectorParserState::End;
                },
            }
        }
    }

    /// Runs the machine over all remaining input.  The records of the run
    /// are handed back in order, unless the run aborts, in which case its
    /// error is.
    pub fn collect_all(&mut self) -> (r: Result<Vec<EphemerisVectorItem>, ParseError>)
        requires
            old(self).wf(),
        ensures
            final(self).wf(),
            ({
                let run0 = vector_run(old(self)@.rest, old(self)@.state);
                match r {
                    Ok(items) => run0.error is None && items.deep_view() == run0.records,
                    Err(e) => run0.error == Some(e@),
                }
            }),
    {
        let mut out: Vec<EphemerisVectorItem> = Vec::new();
        proof {
            assert(out.deep_view() =~= Seq::<EphemerisVectorItemView>::empty());
        }
        loop
            invariant
                self.wf(),
                ({
                    let run0 = vector_run(old(self)@.rest, old(self)@.state);
                    let cur = vector_run(self@.rest, self@.state);
                    run0.error == cur.error && run0.records == out.deep_view() + cur.records
                }),
            decreases self@.rest.len(),
        {
            let ghost out0 = out.deep_view();
            let ghost cur0 = vector_run(self@.rest, self@.state);
            match self.next() {
                None => {
                    proof {
                        assert(out.deep_view() + vector_run(self@.rest, self@.state).records
                            =~= out.deep_view());
                    }
                    return Ok(out);
                },
                Some(Ok(item)) => {
                    out.push(item);
                    proof {
                        assert(out.deep_view() =~= out0.push(item@));
                        let cur = vector_run(self@.rest, self@.state);
                        assert(out0 + cur0.records =~= out.deep_view() + cur.records);
                    }
                },
                Some(Err(e)) => {
                    return Err(e);
                },
            }
        }
    }
}

// ---------------------------------------------------------------------------
// The orbital-elements state machine
// ---------------------------------------------------------------------------

/// The kept values of the `EC`/`QR`/`IN` line: eccentricity and
/// inclination.  `QR` is positionally required but discarded.
pub open spec fn spec_orbital_line1(line: Seq<char>) -> Result<
    (Seq<char>, Seq<char>),
    ParseErrorView,
> {
    match spec_split3(line, " EC="@, " QR="@, " IN="@) {
        Err(e) => Err(e),
        Ok((f1, _f2, f3)) => match spec_checked_value(f1) {
            Err(e) => Err(e),
            Ok(ec) => match spec_checked_value(f3) {
                Err(e) => Err(e),
                Ok(inc) => Ok((ec, inc)),
            },
        },
    }
}

/// The kept values of the `OM`/`W`/`Tp` line: longitude of the ascending
/// node and argument of perifocus.  `Tp` is discarded.
pub open spec fn spec_orbital_line2(line: Seq<char>) -> Result<
    (Seq<char>, Seq<char>),
    ParseErrorView,
> {
    match spec_split3(line, " OM="@, " W ="@, " Tp="@) {
        Err(e) => Err(e),
        Ok((f1, f2, _f3)) => match spec_checked_value(f1) {
            Err(e) => Err(e),
            Ok(om) => match spec_checked_value(f2) {
                Err(e) => Err(e),
                Ok(w) => Ok((om, w)),
            },
        },
    }
}

/// The kept value of the `N`/`MA`/`TA` line: the mean anomaly.  `N` and
/// `TA` are discarded.
pub open spec fn spec_orbital_line3(line: Seq<char>) -> Result<Seq<char>, ParseErrorView> {
    match spec_split3(line, " N ="@, " MA="@, " TA="@) {
        Err(e) => Err(e),
        Ok((_f1, f2, _f3)) => spec_checked_value(f2),
    }
}

/// The kept value of the `A`/`AD`/`PR` line: the semi-major axis.  `AD`
/// and `PR` are discarded.
pub open spec fn spec_orbital_line4(line: Seq<char>) -> Result<Seq<char>, ParseErrorView> {
    match spec_split3(line, " A ="@, " AD="@, " PR="@) {
        Err(e) => Err(e),
        Ok((f1, _f2, _f3)) => spec_checked_value(f1),
    }
}

fn orbital_line1(line: &str) -> (res: Result<(String, String), ParseError>)
    ensures
        match res {
            Ok(v) => spec_orbital_line1(line@) == Ok::<_, ParseErrorView>((v.0@, v.1@)),
            Err(e) => spec_orbital_line1(line@) == Err::<(Seq<char>, Seq<char>), _>(e@),
        },
{
    let (f1, _f2, f3) = match split3(line, " EC=", " QR=", " IN=") {
        Ok(f) => f,
        Err(e) => {
            return Err(e);
        },
    };
    let ec = match checked_value(f1) {
        Ok(v) => v,
        Err(e) => {
            return Err(e);
        },
    };
    let inc = match checked_value(f3) {
        Ok(v) => v,
        Err(e) => {
            return Err(e);
        },
    };
    Ok((ec, inc))
}

fn orbital_line2(line: &str) -> (res: Result<(String, String), ParseError>)
    ensures
        match res {
            Ok(v) => spec_orbital_line2(line@) == Ok::<_, ParseErrorView>((v.0@, v.1@)),
            Err(e) => spec_orbital_line2(line@) == Err::<(Seq<char>, Seq<char>), _>(e@),
        },
{
    let (f1, f2, _f3) = match split3(line, " OM=", " W =", " Tp=") {
        Ok(f) => f,
        Err(e) => {
            return Err(e);
        },
    };
    let om = match checked_value(f1) {
        Ok(v) => v,
        Err(e) => {
            return Err(e);
        },
    };
    let w = match checked_value(f2) {
        Ok(v) => v,
        Err(e) => {
            return Err(e);
        },
    };
    Ok((om, w))
}

fn orbital_line3(line: &str) -> (res: Result<String, ParseError>)
    ensures
        match res {
            Ok(v) => spec_orbital_line3(line@) == Ok::<_, ParseErrorView>(v@),
            Err(e) => spec_orbital_line3(line@) == Err::<Seq<char>, _>(e@),
        },
{
    let (_f1, f2, _f3) = match split3(line, " N =", " MA=", " TA=") {
        Ok(f) => f,
        Err(e) => {
            return Err(e);
        },
    };
    checked_value(f2)
}

fn orbital_line4(line: &str) -> (res: Result<String, ParseError>)
    ensures
        match res {
            Ok(v) => spec_orbital_line4(line@) == Ok::<_, ParseErrorView>(v@),
            Err(e) => spec_orbital_line4(line@) == Err::<Seq<char>, _>(e@),
        },
{
    let (f1, _f2, _f3) = match split3(line, " A =", " AD=", " PR=") {
        Ok(f) => f,
        Err(e) => {
            return Err(e);
        },
    };
    checked_value(f1)
}

enum EphemerisOrbitalElementsParserState {
    WaitingForSoe,
    WaitingForDate,
    WaitingForEccentricityAndInclination,
    EccentricityAndInclination { eccentricity: String, inclination: String },
    AddedAscendingNodeAndPerifocus {
        eccentricity: String,
        inclination: String,
        longitude_of_ascending_node: String,
        argument_of_perifocus: String,
    },
    AddedMeanAnomaly {
        eccentricity: String,
        inclination: String,
        longitude_of_ascending_node: String,
        argument_of_perifocus: String,
        mean_anomaly: String,
    },
    End,
}

/// The mathematical states of the orbital-elements machine.
pub ghost enum OrbitalElementsParserStateView {
    WaitingForSoe,
    WaitingForDate,
    WaitingForEccentricityAndInclination,
    EccentricityAndInclination { eccentricity: Seq<char>, inclination: Seq<char> },
    AddedAscendingNodeAndPerifocus {
        eccentricity: Seq<char>,
        inclination: Seq<char>,
        longitude_of_ascending_node: Seq<char>,
        argument_of_perifocus: Seq<char>,
    },
    AddedMeanAnomaly {
        eccentricity: Seq<char>,
        inclination: Seq<char>,
        longitude_of_ascending_node: Seq<char>,
        argument_of_perifocus: Seq<char>,
        mean_anomaly: Seq<char>,
    },
    End,
}

impl View for EphemerisOrbitalElementsParserState {
    type V = OrbitalElementsParserStateView;

    closed spec fn view(&self) -> OrbitalElementsParserStateView {
        match self {
            EphemerisOrbitalElementsParserState::WaitingForSoe => OrbitalElementsParserStateView::WaitingForSoe,
            EphemerisOrbitalElementsParserState::WaitingForDate => OrbitalElementsParserStateView::WaitingForDate,
            EphemerisOrbitalElementsParserState::WaitingForEccentricityAndInclination => OrbitalElementsParserStateView::WaitingForEccentricityAndInclination,
            EphemerisOrbitalElementsParserState::EccentricityAndInclination {
                eccentricity,
                inclination,
            } => OrbitalElementsParserStateView::EccentricityAndInclination {
                eccentricity: eccentricity@,
                inclination: inclination@,
            },
            EphemerisOrbitalElementsParserState::AddedAscendingNodeAndPerifocus {
                eccentricity,
                inclination,
                longitude_of_ascending_node,
                argument_of_perifocus,
            } => OrbitalElementsParserStateView::AddedAscendingNodeAndPerifocus {
                eccentricity: eccentricity@,
                inclination: inclination@,
                longitude_of_ascending_node: longitude_of_ascending_node@,
                argument_of_perifocus: argument_of_perifocus@,
            },
            EphemerisOrbitalElementsParserState::AddedMeanAnomaly {
                eccentricity,
                inclination,
                longitude_of_ascending_node,
                argument_of_perifocus,
                mean_anomaly,
            } => OrbitalElementsParserStateView::AddedMeanAnomaly {
                eccentricity: eccentricity@,
                inclination: inclination@,
                longitude_of_ascending_node: longitude_of_ascending_node@,
                argument_of_perifocus: argument_of_perifocus@,
                mean_anomaly: mean_anomaly@,
            },
            EphemerisOrbitalElementsParserState::End => OrbitalElementsParserStateView::End,
        }
    }
}

/// Outcome of one transition of the orbital-elements machine.
pub ghost struct OrbitalElementsStep {
    pub state: OrbitalElementsParserStateView,
    pub emit: Option<EphemerisOrbitalElementsItemView>,
    pub error: Option<ParseErrorView>,
}

/// One transition of the orbital-elements machine on one consumed line.
pub open spec fn orbital_elements_step(
    s: OrbitalElementsParserStateView,
    line: Seq<char>,
) -> OrbitalElementsStep {
    match s {
        OrbitalElementsParserStateView::WaitingForSoe => OrbitalElementsStep {
            state: if line == soe_marker() {
                OrbitalElementsParserStateView::WaitingForDate
            } else {
                OrbitalElementsParserStateView::WaitingForSoe
            },
            emit: None,
            error: None,
        },
        OrbitalElementsParserStateView::WaitingForDate => OrbitalElementsStep {
            state: if line == eoe_marker() {
                OrbitalElementsParserStateView::End
            } else {
                OrbitalElementsParserStateView::WaitingForEccentricityAndInclination
            },
            emit: None,
            error: None,
        },
        OrbitalElementsParserStateView::WaitingForEccentricityAndInclination => match spec_orbital_line1(
            line,
        ) {
            Ok(v) => OrbitalElementsStep {
                state: OrbitalElementsParserStateView::EccentricityAndInclination {
                    eccentricity: v.0,
                    inclination: v.1,
                },
                emit: None,
                error: None,
            },
            Err(e) => OrbitalElementsStep {
                state: OrbitalElementsParserStateView::End,
                emit: None,
                error: Some(e),
            },
        },
        OrbitalElementsParserStateView::EccentricityAndInclination {
            eccentricity,
            inclination,
        } => match spec_orbital_line2(line) {
            Ok(v) => OrbitalElementsStep {
                state: OrbitalElementsParserStateView::AddedAscendingNodeAndPerifocus {
                    eccentricity,
                    inclination,
                    longitude_of_ascending_node: v.0,
                    argument_of_perifocus: v.1,
                },
                emit: None,
                error: None,
            },
            Err(e) => OrbitalElementsStep {
                state: OrbitalElementsParserStateView::End,
                emit: None,
                error: Some(e),
            },
        },
        OrbitalElementsParserStateView::AddedAscendingNodeAndPerifocus {
            eccentricity,
            inclination,
            longitude_of_ascending_node,
            argument_of_perifocus,
        } => match spec_orbital_line3(line) {
            Ok(ma) => OrbitalElementsStep {
                state: OrbitalElementsParserStateView::AddedMeanAnomaly {
                    eccentricity,
                    inclination,
                    longitude_of_ascending_node,
                    argument_of_perifocus,
                    mean_anomaly: ma,
                },
                emit: None,
                error: None,
            },
            Err(e) => OrbitalElementsStep {
                state: OrbitalElementsParserStateView::End,
                emit: None,
                error: Some(e),
            },
        },
        OrbitalElementsParserStateView::AddedMeanAnomaly {
            eccentricity,
            inclination,
            longitude_of_ascending_node,
            argument_of_perifocus,
            mean_anomaly,
        } => match spec_orbital_line4(line) {
            Ok(a) => OrbitalElementsStep {
                state: OrbitalElementsParserStateView::WaitingForDate,
                emit: Some(
                    EphemerisOrbitalElementsItemView {
                        eccentricity,
                        inclination,
                        longitude_of_ascending_node,
                        argument_of_perifocus,
                        mean_anomaly,
                        semi_major_axis: a,
                    },
                ),
                error: None,
            },
            Err(e) => OrbitalElementsStep {
                state: OrbitalElementsParserStateView::End,
                emit: None,
                error: Some(e),
            },
        },
        OrbitalElementsParserStateView::End => OrbitalElementsStep {
            state: OrbitalElementsParserStateView::End,
            emit: None,
            error: None,
        },
    }
}

/// Everything the orbital-elements machine does on `lines` from state `s`.
pub ghost struct OrbitalElementsRun {
    pub records: Seq<EphemerisOrbitalElementsItemView>,
    pub error: Option<ParseErrorView>,
}

/// Folds [`orbital_elements_step`] over `lines`, collecting emitted
/// records until the lines run out or a transition fails.
pub open spec fn orbital_elements_run(
    lines: Seq<Seq<char>>,
    s: OrbitalElementsParserStateView,
) -> OrbitalElementsRun
    decreases lines.len(),
{
    if lines.len() == 0 {
        OrbitalElementsRun { records: Seq::empty(), error: None }
    } else {
        let st = orbital_elements_step(s, lines.first());
        if st.error is Some {
            OrbitalElementsRun { records: Seq::empty(), error: st.error }
        } else {
            let rest = orbital_elements_run(lines.drop_first(), st.state);
            OrbitalElementsRun {
                records: match st.emit {
                    Some(r) => seq![r] + rest.records,
                    None => rest.records,
                },
                error: rest.error,
            }
        }
    }
}

/// A run from the terminal state consumes its lines and does nothing.
pub proof fn lemma_orbital_elements_run_end(lines: Seq<Seq<char>>)
    ensures
        orbital_elements_run(lines, OrbitalElementsParserStateView::End)
            == (OrbitalElementsRun { records: Seq::empty(), error: None }),
    decreases lines.len(),
{
    if lines.len() > 0 {
        lemma_orbital_elements_run_end(lines.drop_first());
    }
}

// ---------------------------------------------------------------------------
// The orbital-elements parser
// ---------------------------------------------------------------------------

/// Reassembles orbital-element records from the lines of an ephemeris
/// report, one machine transition per consumed line.
pub struct EphemerisOrbitalElementsParser {
    state: EphemerisOrbitalElementsParserState,
    lines: Vec<String>,
    pos: usize,
}

/// The mathematical shape of an [`EphemerisOrbitalElementsParser`].
pub ghost struct EphemerisOrbitalElementsParserView {
    pub state: OrbitalElementsParserStateView,
    pub rest: Seq<Seq<char>>,
}

impl View for EphemerisOrbitalElementsParser {
    type V = EphemerisOrbitalElementsParserView;

    closed spec fn view(&self) -> EphemerisOrbitalElementsParserView {
        EphemerisOrbitalElementsParserView {
            state: self.state@,
            rest: self.lines.deep_view().skip(self.pos as int),
        }
    }
}

impl EphemerisOrbitalElementsParser {
    /// The parser's cursor lies within its input.
    pub closed spec fn wf(&self) -> bool {
        self.pos <= self.lines.len()
    }

    /// Creates a parser over the report lines.  The machine starts in front
    /// of the start marker with the whole input still to consume.
    pub fn parse(input: Vec<String>) -> (res: Self)
        ensures
            res.wf(),
            res@.state == OrbitalElementsParserStateView::WaitingForSoe,
            res@.rest == input.deep_view(),
    {
        let res = EphemerisOrbitalElementsParser {
            state: EphemerisOrbitalElementsParserState::WaitingForSoe,
            lines: input,
            pos: 0,
        };
        proof {
            assert(res.lines.deep_view().skip(0) =~= res.lines.deep_view());
        }
        res
    }

    /// Pulls lines until the machine completes a record, fails, or runs out
    /// of input.  `None` means the remaining input holds nothing more; a
    /// record or error handed out is exactly the next one of the machine's
    /// run over the remaining input.
    pub fn next(&mut self) -> (r: Option<Result<EphemerisOrbitalElementsItem, ParseError>>)
        requires
            old(self).wf(),
        ensures
            final(self).wf(),
            ({
                let run0 = orbital_elements_run(old(self)@.rest, old(self)@.state);
                let run1 = orbital_elements_run(final(self)@.rest, final(self)@.state);
                match r {
                    None => run0.records.len() == 0 && run0.error is None && run1.records.len()
                        == 0 && run1.error is None,
                    Some(Ok(item)) => run0.records.len() > 0 && item@ == run0.records[0]
                        && run1.records == run0.records.drop_first() && run1.error == run0.error
                        && final(self)@.rest.len() < old(self)@.rest.len(),
                    Some(Err(e)) => run0.records.len() == 0 && run0.error == Some(e@)
                        && run1.records.len() == 0 && run1.error is None && final(self)@.rest.len()
                        < old(self)@.rest.len(),
                }
            }),
    {
        loop
            invariant
                self.wf(),
                self.lines == old(self).lines,
                self@.rest.len() <= old(self)@.rest.len(),
                orbital_elements_run(self@.rest, self@.state) == orbital_elements_run(
                    old(self)@.rest,
                    old(self)@.state,
                ),
            decreases self.lines.len() - self.pos,
        {
            if self.pos >= self.lines.len() {
                proof {
                    assert(self@.rest =~= Seq::<Seq<char>>::empty());
                }
                return None;
            }
            let ghost prev = self@;
            let line = self.lines[self.pos].clone();
            self.pos = self.pos + 1;
            proof {
                assert(prev.rest.len() > 0);
                assert(prev.rest.first() == line@);
                assert(prev.rest.drop_first() =~= self@.rest);
            }
            let mut st = EphemerisOrbitalElementsParserState::End;
            core::mem::swap(&mut st, &mut self.state);
            match st {
                EphemerisOrbitalElementsParserState::WaitingForSoe => {
                    if str_eq(line.as_str(), "$$SOE") {
                        self.state = EphemerisOrbitalElementsParserState::WaitingForDate;
                    } else {
                        self.state = EphemerisOrbitalElementsParserState::WaitingForSoe;
                    }
                },
                EphemerisOrbitalElementsParserState::WaitingForDate => {
                    if str_eq(line.as_str(), "$$EOE") {
                        self.state = EphemerisOrbitalElementsParserState::End;
                    } else {
                        self.state =
                            EphemerisOrbitalElementsParserState::WaitingForEccentricityAndInclination;
                    }
                },
                EphemerisOrbitalElementsParserState::WaitingForEccentricityAndInclination => {
                    match orbital_line1(line.as_str()) {
                        Ok((eccentricity, inclination)) => {
                            self.state =
                                EphemerisOrbitalElementsParserState::EccentricityAndInclination {
                                eccentricity,
                                inclination,
                            };
                        },
                        Err(e) => {
                            self.state = EphemerisOrbitalElementsParserState::End;
                            proof {
                                lemma_orbital_elements_run_end(self@.rest);
                            }
                            return Some(Err(e));
                        },
                    }
                },
                EphemerisOrbitalElementsParserState::EccentricityAndInclination {
                    eccentricity,
                    inclination,
                } => {
                    match orbital_line2(line.as_str()) {
                        Ok((longitude_of_ascending_node, argument_of_perifocus)) => {
                            self.state =
                                EphemerisOrbitalElementsParserState::AddedAscendingNodeAndPerifocus {
                                eccentricity,
                                inclination,
                                longitude_of_ascending_node,
                                argument_of_perifocus,
                            };
                        },
                        Err(e) => {
                            self.state = EphemerisOrbitalElementsParserState::End;
                            proof {
                                lemma_orbital_elements_run_end(self@.rest);
                            }
                            return Some(Err(e));
                        },
                    }
                },
                EphemerisOrbitalElementsParserState::AddedAscendingNodeAndPerifocus {
                    eccentricity,
                    inclination,
                    longitude_of_ascending_node,
                    argument_of_perifocus,
                } => {
                    match orbital_line3(line.as_str()) {
                        Ok(mean_anomaly) => {
                            self.state = EphemerisOrbitalElementsParserState::AddedMeanAnomaly {
                                eccentricity,
                                inclination,
                                longitude_of_ascending_node,
                                argument_of_perifocus,
                                mean_anomaly,
                            };
                        },
                        Err(e) => {
                            self.state = EphemerisOrbitalElementsParserState::End;
                            proof {
                                lemma_orbital_elements_run_end(self@.rest);
                            }
                            return Some(Err(e));
                        },
                    }
                },
                EphemerisOrbitalElementsParserState::AddedMeanAnomaly {
                    eccentricity,
                    inclination,
                    longitude_of_ascending_node,
                    argument_of_perifocus,
                    mean_anomaly,
                } => {
                    match orbital_line4(line.as_str()) {
                        Ok(semi_major_axis) => {
                            self.state = EphemerisOrbitalElementsParserState::WaitingForDate;
                            let item = EphemerisOrbitalElementsItem {
                                eccentricity,
                                inclination,
                                longitude_of_ascending_node,
                                argument_of_perifocus,
                                mean_anomaly,
                                semi_major_axis,
                            };
                            proof {
                                let run0 = orbital_elements_run(prev.rest, prev.state);
                                let run1 = orbital_elements_run(self@.rest, self@.state);
                                assert(run0.records == seq![item@] + run1.records);
                                assert(run0.records.drop_first() =~= run1.records);
                            }
                            return Some(Ok(item));
                        },
                        Err(e) => {
                            self.state = EphemerisOrbitalElementsParserState::End;
                            proof {
                                lemma_orbital_elements_run_end(self@.rest);
                            }
                            return Some(Err(e));
                        },
                    }
                },
                EphemerisOrbitalElementsParserState::End => {
                    self.state = EphemerisOrbitalElementsParserState::End;
                },
            }
        }
    }

    /// Runs the machine over all remaining input.  The records of the run
    /// are handed back in order, unless the run aborts, in which case its
    /// error is.
    pub fn collect_all(&mut self) -> (r: Result<Vec<EphemerisOrbitalElementsItem>, ParseError>)
        requires
            old(self).wf(),
        ensures
            final(self).wf(),
            ({
                let run0 = orbital_elements_run(old(self)@.rest, old(self)@.state);
                match r {
                    Ok(items) => run0.error is None && items.deep_view() == run0.records,
                    Err(e) => run0.error == Some(e@),
                }
            }),
    {
        let mut out: Vec<EphemerisOrbitalElementsItem> = Vec::new();
        proof {
            assert(out.deep_view() =~= Seq::<EphemerisOrbitalElementsItemView>::empty());
        }
        loop
            invariant
                self.wf(),
                ({
                    let run0 = orbital_elements_run(old(self)@.rest, old(self)@.state);
                    let cur = orbital_elements_run(self@.rest, self@.state);
                    run0.error == cur.error && run0.records == out.deep_view() + cur.records
                }),
            decreases self@.rest.len(),
        {
            let ghost out0 = out.deep_view();
            let ghost cur0 = orbital_elements_run(self@.rest, self@.state);
            match self.next() {
                None => {
                    proof {
                        assert(out.deep_view() + orbital_elements_run(
                            self@.rest,
                            self@.state,
                        ).records =~= out.deep_view());
                    }
                    return Ok(out);
                },
                Some(Ok(item)) => {
                    out.push(item);
                    proof {
                        assert(out.deep_view() =~= out0.push(item@));
                        let cur = orbital_elements_run(self@.rest, self@.state);
                        assert(out0 + cur0.records =~= out.deep_view() + cur.records);
                    }
                },
                Some(Err(e)) => {
                    return Err(e);
                },
            }
        }
    }
}

} // verus!
