//! The conversion driver: a state machine that decides, unit by unit and in
//! input order, what to decode and encode and what to report, and stops at
//! the first failure. The caller performs each action and answers with an
//! event.
use vstd::prelude::*;
use vstd::string::*;
use image::ImageFormat;
use crate::error::{ErrorView, ImcoError};
use crate::expand::{expand_inputs, expansion_of, listing_agrees, ListingView};
use crate::format::{canonical_ext, canonical_extension, mk_format, resolve_token};
use crate::naming::{derive_destination, destination_of, opt_view};
use crate::pairing::{pair, partner, views};

verus! {

/// The options of one run: input paths or patterns, outputs, optional
/// format tokens, and whether batch mode is on.
pub struct Options {
    pub inputs: Vec<String>,
    pub outputs: Vec<String>,
    pub input_format: Option<String>,
    pub output_format: Option<String>,
    pub batch: bool,
}

/// One converted file: its input, the input's format if known, and where and
/// in which format it was written.
#[derive(Debug)]
pub struct ConversionOutcome {
    pub input: String,
    pub input_format: Option<ImageFormat>,
    pub output: String,
    pub output_format: ImageFormat,
}

/// A `ConversionOutcome` with its strings seen as character sequences.
pub struct OutcomeView {
    pub input: Seq<char>,
    pub input_format: Option<ImageFormat>,
    pub output: Seq<char>,
    pub output_format: ImageFormat,
}

impl View for ConversionOutcome {
    type V = OutcomeView;

    open spec fn view(&self) -> OutcomeView {
        OutcomeView {
            input: self.input@,
            input_format: self.input_format,
            output: self.output@,
            output_format: self.output_format,
        }
    }
}

/// The line reported for a converted file.
pub open spec fn outcome_line(o: OutcomeView) -> Seq<char> {
    match o.input_format {
        Some(fi) => o.input + " ("@ + canonical_ext(fi) + ") -> "@ + o.output + " ("@
            + canonical_ext(o.output_format) + ")"@,
        None => o.input + " -> "@ + o.output + " ("@ + canonical_ext(o.output_format) + ")"@,
    }
}

impl ConversionOutcome {
    /// The line reported for this conversion.
    pub fn line(&self) -> (r: String)
        ensures
            r@ == outcome_line(self@),
    {
        let mut s = self.input.clone();
        match self.input_format {
            Some(fi) => {
                s.append(" (");
                s.append(canonical_extension(fi));
                s.append(") -> ");
            },
            None => {
                s.append(" -> ");
            },
        }
        s.append(self.output.as_str());
        s.append(" (");
        s.append(canonical_extension(self.output_format));
        s.append(")");
        s
    }
}

/// What the caller is asked to do next.
#[derive(Debug)]
pub enum Action {
    /// Open and decode `input`, forcing the format `forced` when it is given.
    Decode { input: String, forced: Option<ImageFormat> },
    /// Encode the decoded image of `input` to `output` in `format`.
    Encode { input: String, output: String, format: ImageFormat },
    /// Report a finished conversion, then answer `Proceed`.
    Report(ConversionOutcome),
    /// Report the error; the run is over.
    Fail(ImcoError),
    /// Nothing is left to do.
    Done,
}

/// An `Action` with its strings seen as character sequences.
pub enum ActionView {
    Decode(Seq<char>, Option<ImageFormat>),
    Encode(Seq<char>, Seq<char>, ImageFormat),
    Report(OutcomeView),
    Fail(ErrorView),
    Done,
}

impl View for Action {
    type V = ActionView;

    open spec fn view(&self) -> ActionView {
        match self {
            Action::Decode { input, forced } => ActionView::Decode(input@, *forced),
            Action::Encode { input, output, format } => ActionView::Encode(
                input@,
                output@,
                *format,
            ),
            Action::Report(o) => ActionView::Report(o@),
            Action::Fail(e) => ActionView::Fail(e@),
            Action::Done => ActionView::Done,
        }
    }
}

/// The caller's answer to the last action.
pub enum Event {
    /// Start, or go on after a report.
    Proceed,
    /// The input was decoded; the format its reader detected, if any.
    Decoded(Option<ImageFormat>),
    /// The output was written.
    Encoded,
    /// The pending decode or encode failed.
    Failed(ImcoError),
}

/// An `Event` with its strings seen as character sequences.
pub enum EventView {
    Proceed,
    Decoded(Option<ImageFormat>),
    Encoded,
    Failed(ErrorView),
}

impl View for Event {
    type V = EventView;

    open spec fn view(&self) -> EventView {
        match self {
            Event::Proceed => EventView::Proceed,
            Event::Decoded(d) => EventView::Decoded(*d),
            Event::Encoded => EventView::Encoded,
            Event::Failed(e) => EventView::Failed(e@),
        }
    }
}

/// Where the driver stands in the current unit.
enum Phase {
    Ready,
    Decoding,
    /// Output path, input format, output format.
    Encoding(String, Option<ImageFormat>, ImageFormat),
    Stopped,
}

/// The driver's phase within the current unit.
pub enum PhaseView {
    Ready,
    Decoding,
    Encoding(Seq<char>, Option<ImageFormat>, ImageFormat),
    Stopped,
}

/// The driver's state: the paired units, the format overrides, the mode,
/// the index of the current unit, and the phase within it.
pub struct DriverState {
    pub units: Seq<(Seq<char>, Option<Seq<char>>)>,
    pub i_fmt: Option<ImageFormat>,
    pub o_fmt: Option<ImageFormat>,
    pub batch: bool,
    pub next: int,
    pub phase: PhaseView,
}

/// The driver's states that can occur.
pub open spec fn state_wf(s: DriverState) -> bool {
    &&& 0 <= s.next <= s.units.len()
    &&& (s.phase is Decoding || s.phase is Encoding) ==> s.next < s.units.len()
}

/// The state `s` with the driver stopped.
pub open spec fn stopped(s: DriverState) -> DriverState {
    DriverState { phase: PhaseView::Stopped, ..s }
}

/// One step of the driver: the state after `e`, and the next action.
pub open spec fn next_step(s: DriverState, e: EventView) -> (DriverState, ActionView) {
    match s.phase {
        PhaseView::Stopped => (s, ActionView::Done),
        PhaseView::Ready => match e {
            EventView::Proceed => if s.next >= s.units.len() {
                (stopped(s), ActionView::Done)
            } else if s.units[s.next].1 is None && s.o_fmt is None {
                (stopped(s), ActionView::Fail(ErrorView::NoDestFormat))
            } else if s.batch && s.o_fmt is None {
                (stopped(s), ActionView::Fail(ErrorView::InvalidBatching))
            } else {
                (
                    DriverState { phase: PhaseView::Decoding, ..s },
                    ActionView::Decode(s.units[s.next].0, s.i_fmt),
                )
            },
            _ => (stopped(s), ActionView::Done),
        },
        PhaseView::Decoding => match e {
            EventView::Decoded(d) => {
                let u = s.units[s.next];
                let in_fmt = if s.i_fmt is Some {
                    s.i_fmt
                } else {
                    d
                };
                match destination_of(u.0, u.1, s.o_fmt, s.batch) {
                    Err(err) => (stopped(s), ActionView::Fail(err)),
                    Ok((out, f)) => (
                        DriverState { phase: PhaseView::Encoding(out, in_fmt, f), ..s },
                        ActionView::Encode(u.0, out, f),
                    ),
                }
            },
            EventView::Failed(err) => (stopped(s), ActionView::Fail(err)),
            _ => (stopped(s), ActionView::Done),
        },
        PhaseView::Encoding(out, in_fmt, f) => match e {
            EventView::Encoded => (
                DriverState { phase: PhaseView::Ready, next: s.next + 1, ..s },
                ActionView::Report(
                    OutcomeView {
                        input: s.units[s.next].0,
                        input_format: in_fmt,
                        output: out,
                        output_format: f,
                    },
                ),
            ),
            EventView::Failed(err) => (stopped(s), ActionView::Fail(err)),
            _ => (stopped(s), ActionView::Done),
        },
    }
}

/// Drives the conversion of a paired list of files.
pub struct Converter {
    units: Vec<(String, Option<String>)>,
    i_fmt: Option<ImageFormat>,
    o_fmt: Option<ImageFormat>,
    batch: bool,
    next: usize,
    phase: Phase,
}

/// A paired unit seen as character sequences.
pub open spec fn unit_view(u: (String, Option<String>)) -> (Seq<char>, Option<Seq<char>>) {
    (u.0@, opt_view(u.1))
}

impl View for Converter {
    type V = DriverState;

    closed spec fn view(&self) -> DriverState {
        DriverState {
            units: self.units@.map_values(|u: (String, Option<String>)| unit_view(u)),
            i_fmt: self.i_fmt,
            o_fmt: self.o_fmt,
            batch: self.batch,
            next: self.next as int,
            phase: match self.phase {
                Phase::Ready => PhaseView::Ready,
                Phase::Decoding => PhaseView::Decoding,
                Phase::Encoding(out, fi, fo) => PhaseView::Encoding(out@, fi, fo),
                Phase::Stopped => PhaseView::Stopped,
            },
        }
    }
}

/// The units for `inputs` paired with `outputs`.
pub open spec fn units_of(inputs: Seq<Seq<char>>, outputs: Seq<Seq<char>>) -> Seq<
    (Seq<char>, Option<Seq<char>>),
> {
    Seq::new(inputs.len(), |k: int| (inputs[k], partner(outputs, k)))
}

/// An optional format token, resolved.
pub open spec fn resolved(t: Option<Seq<char>>) -> Result<Option<ImageFormat>, ErrorView> {
    match t {
        None => Ok(None),
        Some(t) => match resolve_token(t) {
            Some(f) => Ok(Some(f)),
            None => Err(ErrorView::InvalidFormat(t)),
        },
    }
}

/// The driver's first state for the given inputs, outputs and format tokens,
/// or the error for the first token that names no format.
pub open spec fn setup(
    inputs: Seq<Seq<char>>,
    outputs: Seq<Seq<char>>,
    i: Option<Seq<char>>,
    o: Option<Seq<char>>,
    batch: bool,
) -> Result<DriverState, ErrorView> {
    match resolved(i) {
        Err(e) => Err(e),
        Ok(fi) => match resolved(o) {
            Err(e) => Err(e),
            Ok(fo) => Ok(
                DriverState {
                    units: units_of(inputs, outputs),
                    i_fmt: fi,
                    o_fmt: fo,
                    batch,
                    next: 0,
                    phase: PhaseView::Ready,
                },
            ),
        },
    }
}

/// `r` is the executable form of `d`.
pub open spec fn converter_matches(
    r: Result<Converter, ImcoError>,
    d: Result<DriverState, ErrorView>,
) -> bool {
    match r {
        Ok(c) => d == Ok::<DriverState, ErrorView>(c@) && state_wf(c@),
        Err(e) => d == Err::<DriverState, ErrorView>(e@),
    }
}

/// The setup that follows an expansion of the inputs.
pub open spec fn setup_after(
    expanded: Result<Seq<Seq<char>>, ErrorView>,
    outputs: Seq<Seq<char>>,
    i: Option<Seq<char>>,
    o: Option<Seq<char>>,
    batch: bool,
) -> Result<DriverState, ErrorView> {
    match expanded {
        Err(e) => Err(e),
        Ok(files) => setup(files, outputs, i, o, batch),
    }
}

fn resolve_opt(t: &Option<String>) -> (r: Result<Option<ImageFormat>, ImcoError>)
    ensures
        match r {
            Ok(f) => resolved(opt_view(*t)) == Ok::<Option<ImageFormat>, ErrorView>(f),
            Err(e) => resolved(opt_view(*t)) == Err::<Option<ImageFormat>, ErrorView>(e@),
        },
{
    match t {
        None => Ok(None),
        Some(tok) => match mk_format(tok) {
            Ok(f) => Ok(Some(f)),
            Err(e) => Err(e),
        },
    }
}

impl Converter {
    /// A driver for `inputs`, paired with `outputs`, with the format tokens
    /// resolved (the input format's first).
    pub fn new(
        inputs: &Vec<String>,
        outputs: &Vec<String>,
        input_format: &Option<String>,
        output_format: &Option<String>,
        batch: bool,
    ) -> (r: Result<Converter, ImcoError>)
        ensures
            converter_matches(
                r,
                setup(
                    views(inputs@),
                    views(outputs@),
                    opt_view(*input_format),
                    opt_view(*output_format),
                    batch,
                ),
            ),
    {
        let i_fmt = match resolve_opt(input_format) {
            Ok(f) => f,
            Err(e) => return Err(e),
        };
        let o_fmt = match resolve_opt(output_format) {
            Ok(f) => f,
            Err(e) => return Err(e),
        };
        let units = pair(inputs, outputs);
        let c = Converter { units, i_fmt, o_fmt, batch, next: 0, phase: Phase::Ready };
        assert(c@.units =~= units_of(views(inputs@), views(outputs@)));
        Ok(c)
    }

    /// A driver for a run's options: in batch mode the inputs are expanded as
    /// patterns first.
    pub fn from_options(opts: &Options) -> (r: Result<Converter, ImcoError>)
        ensures
            !opts.batch ==> converter_matches(
                r,
                setup(
                    views(opts.inputs@),
                    views(opts.outputs@),
                    opt_view(opts.input_format),
                    opt_view(opts.output_format),
                    false,
                ),
            ),
            opts.batch ==> exists|ls: Seq<ListingView>|
                {
                    &&& ls.len() <= opts.inputs.len()
                    &&& forall|i: int|
                        0 <= i < ls.len() ==> listing_agrees(opts.inputs[i]@, #[trigger] ls[i])
                    &&& expansion_of(views(opts.inputs@), ls) is Ok ==> ls.len()
                        == opts.inputs.len()
                    &&& converter_matches(
                        r,
                        setup_after(
                            expansion_of(views(opts.inputs@), ls),
                            views(opts.outputs@),
                            opt_view(opts.input_format),
                            opt_view(opts.output_format),
                            true,
                        ),
                    )
                },
    {
        let files = match expand_inputs(&opts.inputs, opts.batch) {
            Ok(fs) => fs,
            Err(e) => return Err(e),
        };
        Converter::new(&files, &opts.outputs, &opts.input_format, &opts.output_format, opts.batch)
    }

    /// Whether this driver's state is one that can occur.
    pub open spec fn wf(&self) -> bool {
        state_wf(self@)
    }

    /// Answers the last action with `event` and returns the next action.
    pub fn step(&mut self, event: Event) -> (a: Action)
        requires
            old(self).wf(),
        ensures
            final(self).wf(),
            (final(self)@, a@) == next_step(old(self)@, event@),
    {
        assert(self.units@.len() == self@.units.len());
        match &self.phase {
            Phase::Stopped => Action::Done,
            Phase::Ready => match event {
                Event::Proceed => {
                    if self.next >= self.units.len() {
                        self.phase = Phase::Stopped;
                        Action::Done
                    } else if self.units[self.next].1.is_none() && self.o_fmt.is_none() {
                        self.phase = Phase::Stopped;
                        Action::Fail(ImcoError::NoDestFormat)
                    } else if self.batch && self.o_fmt.is_none() {
                        self.phase = Phase::Stopped;
                        Action::Fail(ImcoError::InvalidBatching)
                    } else {
                        self.phase = Phase::Decoding;
                        Action::Decode { input: self.units[self.next].0.clone(), forced: self.i_fmt }
                    }
                },
                _ => {
                    self.phase = Phase::Stopped;
                    Action::Done
                },
            },
            Phase::Decoding => match event {
                Event::Decoded(d) => {
                    let in_fmt = if self.i_fmt.is_some() {
                        self.i_fmt
                    } else {
                        d
                    };
                    let input = self.units[self.next].0.clone();
                    match derive_destination(
                        &self.units[self.next].0,
                        &self.units[self.next].1,
                        self.o_fmt,
                        self.batch,
                    ) {
                        Err(e) => {
                            self.phase = Phase::Stopped;
                            Action::Fail(e)
                        },
                        Ok((out, f)) => {
                            self.phase = Phase::Encoding(out.clone(), in_fmt, f);
                            Action::Encode { input, output: out, format: f }
                        },
                    }
                },
                Event::Failed(e) => {
                    self.phase = Phase::Stopped;
                    Action::Fail(e)
                },
                _ => {
                    self.phase = Phase::Stopped;
                    Action::Done
                },
            },
            Phase::Encoding(out, fi, fo) => match event {
                Event::Encoded => {
                    assert(self@.phase is Encoding && state_wf(self@));
                    assert(self.next < self.units.len());
                    let outcome = ConversionOutcome {
                        input: self.units[self.next].0.clone(),
                        input_format: *fi,
                        output: out.clone(),
                        output_format: *fo,
                    };
                    self.next = self.next + 1;
                    self.phase = Phase::Ready;
                    Action::Report(outcome)
                },
                Event::Failed(e) => {
                    self.phase = Phase::Stopped;
                    Action::Fail(e)
                },
                _ => {
                    self.phase = Phase::Stopped;
                    Action::Done
                },
            },
        }
    }
}

/// The state and the actions after answering with each of `evs` in turn.
pub open spec fn run(s: DriverState, evs: Seq<EventView>) -> (DriverState, Seq<ActionView>)
    decreases evs.len(),
{
    if evs.len() == 0 {
        (s, Seq::empty())
    } else {
        let (s1, a) = next_step(s, evs[0]);
        let (sn, acts) = run(s1, evs.drop_first());
        (sn, seq![a] + acts)
    }
}

/// A stopped driver stays stopped and asks for nothing, whatever it is told.
pub proof fn lemma_stopped_is_final(s: DriverState, evs: Seq<EventView>)
    requires
        s.phase is Stopped,
    ensures
        run(s, evs).0 == s,
        forall|j: int| 0 <= j < evs.len() ==> #[trigger] run(s, evs).1[j] is Done,
        run(s, evs).1.len() == evs.len(),
    decreases evs.len(),
{
    if evs.len() > 0 {
        lemma_stopped_is_final(s, evs.drop_first());
        let acts = run(s, evs.drop_first()).1;
        assert forall|j: int| 0 <= j < evs.len() implies #[trigger] run(s, evs).1[j] is Done by {
            if j > 0 {
                assert(run(s, evs).1[j] == acts[j - 1]);
            }
        }
    }
}

/// Fail-fast: once the driver reports a failure it stops, and every later
/// step asks for nothing, so no later unit is decoded or encoded.
pub proof fn lemma_fail_fast(s: DriverState, evs: Seq<EventView>, k: int)
    requires
        0 <= k < evs.len(),
        run(s, evs).1[k] is Fail,
    ensures
        forall|j: int| k < j < evs.len() ==> #[trigger] run(s, evs).1[j] is Done,
    decreases evs.len(),
{
    let (s1, a) = next_step(s, evs[0]);
    let rest = evs.drop_first();
    lemma_run_len(s1, rest);
    if k == 0 {
        assert(a is Fail);
        assert(s1.phase is Stopped);
        lemma_stopped_is_final(s1, rest);
        assert forall|j: int| k < j < evs.len() implies #[trigger] run(s, evs).1[j] is Done by {
            assert(run(s, evs).1[j] == run(s1, rest).1[j - 1]);
        }
    } else {
        assert(run(s, evs).1[k] == run(s1, rest).1[k - 1]);
        lemma_fail_fast(s1, rest, k - 1);
        assert forall|j: int| k < j < evs.len() implies #[trigger] run(s, evs).1[j] is Done by {
            assert(run(s, evs).1[j] == run(s1, rest).1[j - 1]);
        }
    }
}

proof fn lemma_run_len(s: DriverState, evs: Seq<EventView>)
    ensures
        run(s, evs).1.len() == evs.len(),
    decreases evs.len(),
{
    if evs.len() > 0 {
        lemma_run_len(next_step(s, evs[0]).0, evs.drop_first());
    }
}

/// Batch mode without an output format is refused for any output path: the
/// destination is `InvalidBatching`, and the driver fails with it as soon as
/// it reaches the unit, before asking for any file to be read or written.
pub proof fn lemma_batch_needs_output_format(s: DriverState)
    requires
        state_wf(s),
        s.phase is Ready,
        s.next < s.units.len(),
        s.batch,
        s.o_fmt is None,
        s.units[s.next].1 is Some,
    ensures
        destination_of(s.units[s.next].0, s.units[s.next].1, None, true) == Err::<
            (Seq<char>, ImageFormat),
            ErrorView,
        >(ErrorView::InvalidBatching),
        next_step(s, EventView::Proceed) == (
            stopped(s),
            ActionView::Fail(ErrorView::InvalidBatching),
        ),
{
}

/// With no output and no output format there is no destination: the driver
/// fails with `NoDestFormat` when it reaches the unit, before asking for any
/// file to be read.
pub proof fn lemma_no_destination(s: DriverState)
    requires
        state_wf(s),
        s.phase is Ready,
        s.next < s.units.len(),
        s.units[s.next].1 is None,
        s.o_fmt is None,
    ensures
        destination_of(s.units[s.next].0, None, None, s.batch) == Err::<
            (Seq<char>, ImageFormat),
            ErrorView,
        >(ErrorView::NoDestFormat),
        next_step(s, EventView::Proceed) == (stopped(s), ActionView::Fail(ErrorView::NoDestFormat)),
{
}

/// From the start of a run: with inputs, no outputs and no output format,
/// the run fails with `NoDestFormat` on its first step, before any file is
/// read, unless the input-format token is already refused.
pub proof fn lemma_run_without_destination(
    inputs: Seq<Seq<char>>,
    i: Option<Seq<char>>,
    batch: bool,
)
    requires
        inputs.len() > 0,
    ensures
        match setup(inputs, Seq::empty(), i, None, batch) {
            Ok(s) => next_step(s, EventView::Proceed) == (
                stopped(s),
                ActionView::Fail(ErrorView::NoDestFormat),
            ),
            Err(e) => e is InvalidFormat && resolved(i) is Err,
        },
{
}

/// From the start of a run: in batch mode with outputs but no output format,
/// the run fails with `InvalidBatching` on its first step, before any file is
/// read, unless the input-format token is already refused.
pub proof fn lemma_run_batch_without_format(
    inputs: Seq<Seq<char>>,
    outputs: Seq<Seq<char>>,
    i: Option<Seq<char>>,
)
    requires
        inputs.len() > 0,
        outputs.len() > 0,
    ensures
        match setup(inputs, outputs, i, None, true) {
            Ok(s) => next_step(s, EventView::Proceed) == (
                stopped(s),
                ActionView::Fail(ErrorView::InvalidBatching),
            ),
            Err(e) => e is InvalidFormat && resolved(i) is Err,
        },
{
}

} // verus!
